//! The list of background jobs.

use crate::job::JobStatus;
use crate::number::smaller;
use crate::search::{lemma_texts_push, lines, texts};
use crate::terminal::{sanitize_terminal_output, sanitized};
use crate::tui::arguments::{join_names, joined};
use crate::tui::geometry::{ListViewport, at_most, before, last_of};
use crate::tui::modal::{holds_text, text_set};
use crate::tui::model::{
    JobItem, any_active, has_active_job, has_any_active_job, has_job, job_active, job_listed,
};
use crate::version::{lossy_text, text_from_bytes};
use vstd::prelude::*;
use vstd::string::*;

verus! {

/// Milliseconds between two looks at the jobs while one has not ended.
pub const ACTIVE_JOB_REFRESH_INTERVAL: u64 = 1000;

/// Milliseconds between two looks at the jobs when all have ended.
pub const IDLE_JOB_REFRESH_INTERVAL: u64 = 10000;

/// The jobs, and the log of the one that is unfolded.
#[derive(Debug)]
pub struct Jobs {
    pub items: Vec<JobItem>,
    pub index: usize,
    pub viewport: ListViewport,
    pub expanded: Option<String>,
    pub log: Vec<String>,
    pub log_scroll: usize,
    /// The line of the log where the mouse began to select.
    pub log_drag: Option<usize>,
    /// The first and the last of the selected lines of the log.
    pub log_selection: Option<(usize, usize)>,
    pub last_refresh: u64,
}

/// What the list of jobs holds.
pub struct JobsView {
    pub items: Seq<JobItem>,
    pub index: usize,
    pub viewport: ListViewport,
    pub expanded: Option<String>,
    pub log: Seq<Seq<char>>,
    pub log_scroll: usize,
    pub log_drag: Option<usize>,
    pub log_selection: Option<(usize, usize)>,
    pub last_refresh: u64,
}

impl View for Jobs {
    type V = JobsView;

    open spec fn view(&self) -> JobsView {
        JobsView {
            items: self.items@,
            index: self.index,
            viewport: self.viewport,
            expanded: self.expanded,
            log: texts(self.log@),
            log_scroll: self.log_scroll,
            log_drag: self.log_drag,
            log_selection: self.log_selection,
            last_refresh: self.last_refresh,
        }
    }
}

/// The names of those among the first `n` jobs that have succeeded since the
/// list `before`, each once.
pub open spec fn completed_names(before: Seq<JobItem>, jobs: Seq<JobItem>, n: int) -> Seq<Seq<char>>
    decreases n,
{
    if n <= 0 {
        Seq::empty()
    } else {
        let names = completed_names(before, jobs, n - 1);
        let job = jobs[n - 1];
        if job_active(before, job.id@) && job.status is Succeeded && !names.contains(job.name@) {
            names.push(job.name@)
        } else {
            names
        }
    }
}

/// What was read of the jobs: the list, and the log of the unfolded one.
#[derive(Debug)]
pub struct JobsRead {
    pub jobs: Result<Vec<JobItem>, String>,
    pub log: Result<Vec<u8>, String>,
}

impl JobsView {
    /// The list with other jobs, and the unfolded job folded where it is gone.
    pub open spec fn with_jobs(self, jobs: Seq<JobItem>) -> JobsView {
        let replaced = JobsView {
            items: jobs,
            index: at_most(self.index as int, last_of(jobs.len() as int)) as usize,
            ..self
        };
        match self.expanded {
            Some(id) => if job_listed(jobs, id@) {
                replaced
            } else {
                replaced.folded()
            },
            None => replaced,
        }
    }

    /// Whether the log of the unfolded job is read with the jobs.
    pub open spec fn wants_log(self, jobs: Seq<JobItem>) -> bool {
        self.expanded matches Some(id) && job_listed(jobs, id@)
    }

    /// Why reading the jobs failed, if it did.
    pub open spec fn read_error(self, read: JobsRead) -> Option<String> {
        match read.jobs {
            Err(error) => Some(error),
            Ok(list) => match read.log {
                Err(error) => if self.wants_log(list@) {
                    Some(error)
                } else {
                    None
                },
                Ok(_) => None,
            },
        }
    }

    /// The list after the jobs were read.
    pub open spec fn reread(self, read: JobsRead, now: u64) -> JobsView {
        match read.jobs {
            Err(_) => self,
            Ok(list) => {
                let replaced = self.with_jobs(list@);
                if self.read_error(read) is Some {
                    replaced
                } else if self.wants_log(list@) {
                    JobsView {
                        log: sanitized(lossy_text(read.log->Ok_0@)),
                        last_refresh: now,
                        ..replaced
                    }
                } else {
                    JobsView { last_refresh: now, ..replaced }
                }
            },
        }
    }

    /// The names of the tools whose jobs are seen to have succeeded.
    pub open spec fn completed(self, read: JobsRead) -> Seq<Seq<char>> {
        match read.jobs {
            Ok(list) => if self.read_error(read) is None {
                completed_names(self.items, list@, list@.len() as int)
            } else {
                Seq::empty()
            },
            Err(_) => Seq::empty(),
        }
    }

    /// The list with the log of a job unfolded.
    pub open spec fn unfolded(self, id: String, bytes: Seq<u8>) -> JobsView {
        JobsView {
            expanded: Some(id),
            log: sanitized(lossy_text(bytes)),
            log_scroll: 0,
            log_drag: None,
            log_selection: None,
            ..self
        }
    }

    /// Whether line `i` of the log is selected.
    pub open spec fn selects(self, i: int) -> bool {
        self.log_selection matches Some((first, last)) && first <= i <= last
    }

    /// The selected lines of the log, with a line feed between each two.
    pub open spec fn selected_text(self) -> Seq<char> {
        match self.log_selection {
            Some((first, last)) => {
                let to = at_most(last + 1, self.log.len() as int);
                joined(self.log.subrange(at_most(first as int, to), to), seq!['\n'])
            },
            None => Seq::empty(),
        }
    }

    pub open spec fn folded(self) -> JobsView {
        JobsView {
            expanded: None,
            log: Seq::empty(),
            log_scroll: 0,
            log_drag: None,
            log_selection: None,
            ..self
        }
    }

    /// Milliseconds until the jobs are read again.
    pub open spec fn interval(self) -> u64 {
        if any_active(self.items) {
            ACTIVE_JOB_REFRESH_INTERVAL
        } else {
            IDLE_JOB_REFRESH_INTERVAL
        }
    }
}

/// A text is in a list of texts exactly if it is in the set of them.
pub proof fn lemma_texts_contains(v: Seq<String>, t: Seq<char>)
    ensures
        texts(v).contains(t) <==> text_set(v).contains(t),
{
    if texts(v).contains(t) {
        let k = choose|k: int| 0 <= k < texts(v).len() && texts(v)[k] == t;
        assert(v[k]@ == t);
    }
    if text_set(v).contains(t) {
        let k = choose|k: int| 0 <= k < v.len() && #[trigger] v[k]@ == t;
        assert(texts(v)[k] == t);
    }
}

/// A job that was over when the list was read before does not have its tool
/// asked for its version again.
pub proof fn law_only_newly_completed_jobs_count(
    before: Seq<JobItem>,
    jobs: Seq<JobItem>,
    n: int,
    name: Seq<char>,
)
    requires
        0 <= n <= jobs.len(),
        completed_names(before, jobs, n).contains(name),
    ensures
        exists|i: int|
            0 <= i < n && (#[trigger] jobs[i]).name@ == name && jobs[i].status is Succeeded
                && job_active(before, jobs[i].id@),
    decreases n,
{
    if n > 0 {
        let names = completed_names(before, jobs, n - 1);
        if names.contains(name) {
            law_only_newly_completed_jobs_count(before, jobs, n - 1, name);
        } else {
            let k = choose|k: int|
                0 <= k < completed_names(before, jobs, n).len() && completed_names(
                    before,
                    jobs,
                    n,
                )[k] == name;
            if k < names.len() {
                assert(names[k] == name);
            }
            assert(jobs[n - 1].name@ == name);
        }
    }
}

impl JobsView {
    /// Nothing yet.
    pub open spec fn blank(now: u64) -> JobsView {
        JobsView {
            items: Seq::empty(),
            index: 0,
            viewport: ListViewport::none(),
            expanded: None,
            log: Seq::empty(),
            log_scroll: 0,
            log_drag: None,
            log_selection: None,
            last_refresh: now,
        }
    }
}

impl Jobs {
    pub fn empty(now: u64) -> (r: Jobs)
        ensures
            r@ == JobsView::blank(now),
    {
        let r = Jobs {
            items: Vec::new(),
            index: 0,
            viewport: ListViewport::empty(),
            expanded: None,
            log: Vec::new(),
            log_scroll: 0,
            log_drag: None,
            log_selection: None,
            last_refresh: now,
        };
        assert(texts(r.log@) =~= Seq::<Seq<char>>::empty());
        r
    }

    /// The names of the jobs that have succeeded since the list was read.
    fn completed_tools(&self, jobs: &Vec<JobItem>) -> (r: Vec<String>)
        ensures
            texts(r@) == completed_names(self.items@, jobs@, jobs@.len() as int),
    {
        let mut names: Vec<String> = Vec::new();
        let mut i: usize = 0;
        assert(texts(names@) =~= Seq::<Seq<char>>::empty());
        while i < jobs.len()
            invariant
                i <= jobs@.len(),
                texts(names@) == completed_names(self.items@, jobs@, i as int),
            decreases jobs@.len() - i,
        {
            let job = &jobs[i];
            let done = matches!(job.status, JobStatus::Succeeded { .. });
            let known = holds_text(&names, job.name.as_str());
            proof {
                lemma_texts_contains(names@, job.name@);
            }
            if done && !known && has_active_job(&self.items, job.id.as_str()) {
                let name = job.name.clone();
                proof {
                    lemma_texts_push(names@, name);
                }
                names.push(name);
            }
            i += 1;
        }
        names
    }

    /// Takes what was read of the jobs. Returns the names of the tools whose
    /// jobs are seen to have succeeded, or why reading failed.
    pub fn refresh(&mut self, read: JobsRead, now: u64) -> (r: Result<Vec<String>, String>)
        ensures
            final(self)@ == old(self)@.reread(read, now),
            r matches Ok(names) ==> old(self)@.read_error(read) is None && texts(names@) == old(
                self,
            )@.completed(read),
            r matches Err(error) ==> old(self)@.read_error(read) == Some(error),
    {
        let list = match read.jobs {
            Ok(list) => list,
            Err(error) => {
                return Err(error);
            },
        };
        let completed = self.completed_tools(&list);
        let last: usize = if list.len() > 0 {
            list.len() - 1
        } else {
            0
        };
        self.items = list;
        self.index = smaller(self.index, last);
        let listed: Option<bool> = match &self.expanded {
            Some(id) => Some(has_job(&self.items, id.as_str())),
            None => None,
        };
        match listed {
            Some(true) => match read.log {
                Ok(bytes) => {
                    let text = text_from_bytes(bytes.as_slice());
                    self.log = sanitize_terminal_output(text.as_str());
                },
                Err(error) => {
                    return Err(error);
                },
            },
            Some(false) => self.fold(),
            None => {},
        }
        self.last_refresh = now;
        Ok(completed)
    }

    /// Folds the unfolded job.
    pub fn fold(&mut self)
        ensures
            final(self)@ == old(self)@.folded(),
    {
        self.expanded = None;
        self.log = Vec::new();
        self.log_scroll = 0;
        self.log_drag = None;
        self.log_selection = None;
        assert(texts(self.log@) =~= Seq::<Seq<char>>::empty());
    }

    /// Unfolds a job whose log is `bytes`.
    pub fn unfold(&mut self, id: String, bytes: &Vec<u8>)
        ensures
            final(self)@ == old(self)@.unfolded(id, bytes@),
    {
        let text = text_from_bytes(bytes.as_slice());
        self.expanded = Some(id);
        self.log = sanitize_terminal_output(text.as_str());
        self.log_scroll = 0;
        self.log_drag = None;
        self.log_selection = None;
    }

    pub fn is_selected(&self, i: usize) -> (r: bool)
        ensures
            r == self@.selects(i as int),
    {
        match self.log_selection {
            Some((first, last)) => first <= i && i <= last,
            None => false,
        }
    }

    /// The selected lines of the log, with a line feed between each two.
    pub fn copied_lines(&self) -> (r: String)
        ensures
            r@ == self@.selected_text(),
    {
        let (first, last): (usize, usize) = match self.log_selection {
            Some(span) => span,
            None => {
                let r = String::new();
                assert(r@ =~= Seq::<char>::empty());
                return r;
            },
        };
        let to: usize = if last < self.log.len() {
            last + 1
        } else {
            self.log.len()
        };
        let from: usize = smaller(first, to);
        let ghost all = texts(self.log@);
        let mut lines: Vec<String> = Vec::new();
        let mut i: usize = from;
        assert(texts(lines@) =~= all.subrange(from as int, from as int));
        while i < to
            invariant
                from <= i <= to <= self.log@.len(),
                all == texts(self.log@),
                texts(lines@) == all.subrange(from as int, i as int),
            decreases to - i,
        {
            let line = self.log[i].clone();
            proof {
                lemma_texts_push(lines@, line);
            }
            assert(all[i as int] == line@);
            assert(all.subrange(from as int, i + 1) =~= all.subrange(from as int, i as int).push(
                line@,
            ));
            lines.push(line);
            i += 1;
        }
        proof {
            reveal_strlit("\n");
            assert("\n"@ =~= seq!['\n']);
        }
        join_names(&lines, "\n")
    }

    /// Milliseconds until the jobs are read again.
    pub fn job_refresh_interval(&self) -> (r: u64)
        ensures
            r == self@.interval(),
    {
        if has_any_active_job(&self.items) {
            ACTIVE_JOB_REFRESH_INTERVAL
        } else {
            IDLE_JOB_REFRESH_INTERVAL
        }
    }
}

} // verus!
