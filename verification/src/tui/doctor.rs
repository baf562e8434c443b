//! The diagnoses of the tools.

use crate::number::smaller;
use crate::text::same;
use crate::tui::geometry::{ListViewport, at_most, last_of};
use crate::tui::model::{
    ToolDiagnosis, shown_diagnoses, shown_named, text_of, visible_diagnoses,
    visible_diagnosis_position,
};
use crate::tui::tools::{following_probe, next_probe};
use vstd::prelude::*;
use vstd::string::*;

verus! {

/// The diagnoses, which of them is in focus or unfolded, and the scan that
/// runs.
#[derive(Debug)]
pub struct Doctor {
    pub diagnoses: Vec<ToolDiagnosis>,
    pub index: usize,
    pub viewport: ListViewport,
    pub expanded: Option<String>,
    pub detail_scroll: usize,
    pub loading: bool,
    pub probe_id: u64,
    pub next_probe_id: u64,
    pub checked_at: Option<String>,
}

/// What the list of diagnoses holds.
pub struct DoctorView {
    pub diagnoses: Seq<ToolDiagnosis>,
    pub index: usize,
    pub viewport: ListViewport,
    pub expanded: Option<String>,
    pub detail_scroll: usize,
    pub loading: bool,
    pub probe_id: u64,
    pub next_probe_id: u64,
    pub checked_at: Option<String>,
}

impl View for Doctor {
    type V = DoctorView;

    open spec fn view(&self) -> DoctorView {
        DoctorView {
            diagnoses: self.diagnoses@,
            index: self.index,
            viewport: self.viewport,
            expanded: self.expanded,
            detail_scroll: self.detail_scroll,
            loading: self.loading,
            probe_id: self.probe_id,
            next_probe_id: self.next_probe_id,
            checked_at: self.checked_at,
        }
    }
}

impl DoctorView {
    /// Whether no scan has run nor runs.
    pub open spec fn unscanned(self) -> bool {
        !self.loading && self.checked_at is None && self.diagnoses.len() == 0
    }

    /// The diagnosis in focus, by its position.
    pub open spec fn focus(self, hide: bool) -> Option<int> {
        if self.index < shown_diagnoses(self.diagnoses, hide).len() {
            Some(shown_diagnoses(self.diagnoses, hide)[self.index as int])
        } else {
            None
        }
    }

    pub open spec fn focused_name(self, hide: bool) -> Option<Seq<char>> {
        match self.focus(hide) {
            Some(i) => Some(self.diagnoses[i].name@),
            None => None,
        }
    }

    /// The list with the diagnosis of the preferred name in focus where it is
    /// shown, and the unfolded one folded where it is not.
    pub open spec fn reconciled(self, hide: bool, preferred: Option<Seq<char>>) -> DoctorView {
        let found = match preferred {
            Some(name) => shown_named(self.diagnoses, hide, name),
            None => None,
        };
        let gone = self.expanded matches Some(name) && shown_named(self.diagnoses, hide, name@)
            is None;
        DoctorView {
            index: match found {
                Some(k) => k as usize,
                None => at_most(
                    self.index as int,
                    last_of(shown_diagnoses(self.diagnoses, hide).len() as int),
                ) as usize,
            },
            expanded: if gone {
                None
            } else {
                self.expanded
            },
            detail_scroll: if gone {
                0
            } else {
                self.detail_scroll
            },
            ..self
        }
    }

    /// The list with the diagnosis in focus unfolded, or folded.
    pub open spec fn toggled(self, hide: bool) -> DoctorView {
        match self.focus(hide) {
            None => self,
            Some(i) => DoctorView {
                expanded: if self.expanded matches Some(name) && name@ == self.diagnoses[i].name@ {
                    None
                } else {
                    Some(self.diagnoses[i].name)
                },
                detail_scroll: 0,
                ..self
            },
        }
    }

    /// The list with a scan running.
    pub open spec fn scanning(self) -> DoctorView {
        let id = next_probe(self.next_probe_id);
        DoctorView { next_probe_id: id, probe_id: id, loading: true, ..self }
    }

    /// The list with what the scan has found.
    pub open spec fn found(
        self,
        diagnoses: Seq<ToolDiagnosis>,
        hide: bool,
        now: String,
    ) -> DoctorView {
        DoctorView {
            diagnoses,
            loading: false,
            checked_at: Some(now),
            ..self
        }.reconciled(hide, self.focused_name(hide))
    }

    /// The list when the scan has failed.
    pub open spec fn failed(self, now: String) -> DoctorView {
        DoctorView { loading: false, checked_at: Some(now), ..self }
    }
}

impl DoctorView {
    /// Nothing yet.
    pub open spec fn blank() -> DoctorView {
        DoctorView {
            diagnoses: Seq::empty(),
            index: 0,
            viewport: ListViewport::none(),
            expanded: None,
            detail_scroll: 0,
            loading: false,
            probe_id: 0,
            next_probe_id: 0,
            checked_at: None,
        }
    }
}

impl Doctor {
    pub fn empty() -> (r: Doctor)
        ensures
            r@ == DoctorView::blank(),
    {
        Doctor {
            diagnoses: Vec::new(),
            index: 0,
            viewport: ListViewport::empty(),
            expanded: None,
            detail_scroll: 0,
            loading: false,
            probe_id: 0,
            next_probe_id: 0,
            checked_at: None,
        }
    }

    pub fn never_scanned(&self) -> (r: bool)
        ensures
            r == self@.unscanned(),
    {
        !self.loading && self.checked_at.is_none() && self.diagnoses.len() == 0
    }

    /// How many diagnoses are shown.
    pub fn visible_count(&self, hide: bool) -> (r: usize)
        ensures
            r == shown_diagnoses(self.diagnoses@, hide).len(),
    {
        visible_diagnoses(&self.diagnoses, hide).len()
    }

    pub fn focused_diagnosis(&self, hide: bool) -> (r: Option<&ToolDiagnosis>)
        ensures
            r is Some <==> self@.focus(hide) is Some,
            r matches Some(diagnosis) ==> *diagnosis == self.diagnoses@[self@.focus(hide)->0],
    {
        let visible = visible_diagnoses(&self.diagnoses, hide);
        if self.index < visible.len() {
            let i: usize = visible[self.index];
            Some(&self.diagnoses[i])
        } else {
            None
        }
    }

    pub fn focused_name(&self, hide: bool) -> (r: Option<String>)
        ensures
            text_of(r) == self@.focused_name(hide),
            r matches Some(name) ==> name == self.diagnoses@[self@.focus(hide)->0].name,
    {
        match self.focused_diagnosis(hide) {
            Some(diagnosis) => Some(diagnosis.name.clone()),
            None => None,
        }
    }

    /// Puts the diagnosis of the preferred name in focus where it is shown, and
    /// folds the unfolded one where it is not.
    pub fn reconcile_selection(&mut self, hide: bool, preferred_name: Option<&str>)
        ensures
            final(self)@ == old(self)@.reconciled(
                hide,
                match preferred_name {
                    Some(name) => Some(name@),
                    None => None,
                },
            ),
    {
        let count: usize = self.visible_count(hide);
        let found = match preferred_name {
            Some(name) => visible_diagnosis_position(&self.diagnoses, hide, name),
            None => None,
        };
        let last: usize = if count > 0 {
            count - 1
        } else {
            0
        };
        self.index = match found {
            Some(k) => k,
            None => smaller(self.index, last),
        };
        let gone = match &self.expanded {
            Some(name) => visible_diagnosis_position(
                &self.diagnoses,
                hide,
                name.as_str(),
            ).is_none(),
            None => false,
        };
        if gone {
            self.expanded = None;
            self.detail_scroll = 0;
        }
    }

    /// Unfolds the diagnosis in focus, or folds it.
    pub fn toggle_detail(&mut self, hide: bool)
        ensures
            final(self)@ == old(self)@.toggled(hide),
    {
        if let Some(name) = self.focused_name(hide) {
            let unfolded = match &self.expanded {
                Some(expanded) => same(expanded.as_str(), name.as_str()),
                None => false,
            };
            self.expanded = if unfolded {
                None
            } else {
                Some(name)
            };
            self.detail_scroll = 0;
        }
    }

    /// Starts a scan; returns its number.
    pub fn begin_scan(&mut self) -> (r: u64)
        ensures
            final(self)@ == old(self)@.scanning(),
            r == final(self).probe_id,
    {
        let id: u64 = following_probe(self.next_probe_id);
        self.next_probe_id = id;
        self.probe_id = id;
        self.loading = true;
        id
    }

    /// Takes what the scan has found.
    pub fn take_diagnoses(&mut self, diagnoses: Vec<ToolDiagnosis>, hide: bool, now: &String)
        ensures
            final(self)@ == old(self)@.found(diagnoses@, hide, *now),
    {
        let focused = self.focused_name(hide);
        self.loading = false;
        self.checked_at = Some(now.clone());
        self.diagnoses = diagnoses;
        match &focused {
            Some(name) => self.reconcile_selection(hide, Some(name.as_str())),
            None => self.reconcile_selection(hide, None),
        }
    }

    /// Notes that the scan has failed.
    pub fn fail_scan(&mut self, now: &String)
        ensures
            final(self)@ == old(self)@.failed(*now),
    {
        self.loading = false;
        self.checked_at = Some(now.clone());
    }
}

} // verus!
