//! What the mouse does in the dialogs.

use crate::number::shifted;
use crate::text::{
    at_boundary, byte_len, byte_offset, char_index, char_position, chars_of, is_boundary,
    lemma_boundary, lemma_char_index_order,
};
use crate::tui::app::{App, AppView};
use crate::tui::editor::TomlEditor;
use crate::tui::form::{
    CommandFormView, GITHUB_MONITOR_FORM_FIELD_COUNT, MonitorForm, MonitorFormView, ProxyFormView,
};
use crate::tui::geometry::{Rect, at_most, before, contains_point};
use crate::tui::input::{InputView, TextInput};
use crate::tui::keys::{Mouse, MouseKind};
use crate::tui::lines::{at_column, at_column_from, lemma_at_column_from, position_at_column};
use crate::tui::modal::{Modal, ModalInputHitbox, ModalView};
use crate::tui::model::{
    ProxyMode, format_after, next_release_format, next_release_update_policy, policy_after,
};
use crate::tui::mouse::{MOUSE_WHEEL_ROWS, wheel_delta};
use vstd::prelude::*;
use vstd::string::*;

verus! {

/// The first line of text that covers the cell.
pub open spec fn hit_at(
    hitboxes: Seq<ModalInputHitbox>,
    column: u16,
    row: u16,
) -> Option<ModalInputHitbox>
    decreases hitboxes.len(),
{
    if hitboxes.len() == 0 {
        None
    } else if hitboxes[0].area.covers(column, row) {
        Some(hitboxes[0])
    } else {
        hit_at(hitboxes.drop_first(), column, row)
    }
}

/// The first line of text that stands for `field`.
pub open spec fn hit_of(hitboxes: Seq<ModalInputHitbox>, field: usize) -> Option<ModalInputHitbox>
    decreases hitboxes.len(),
{
    if hitboxes.len() == 0 {
        None
    } else if hitboxes[0].field == field {
        Some(hitboxes[0])
    } else {
        hit_of(hitboxes.drop_first(), field)
    }
}

fn find_hit(hitboxes: &Vec<ModalInputHitbox>, column: u16, row: u16) -> (r: Option<
    ModalInputHitbox,
>)
    ensures
        r == hit_at(hitboxes@, column, row),
{
    let mut i: usize = 0;
    assert(hitboxes@.skip(0) =~= hitboxes@);
    while i < hitboxes.len()
        invariant
            i <= hitboxes@.len(),
            hit_at(hitboxes@.skip(i as int), column, row) == hit_at(hitboxes@, column, row),
        decreases hitboxes@.len() - i,
    {
        assert(hitboxes@.skip(i as int)[0] == hitboxes@[i as int]);
        assert(hitboxes@.skip(i as int).drop_first() =~= hitboxes@.skip(i + 1));
        if contains_point(Some(hitboxes[i].area), column, row) {
            return Some(hitboxes[i]);
        }
        i += 1;
    }
    None
}

fn find_field(hitboxes: &Vec<ModalInputHitbox>, field: usize) -> (r: Option<ModalInputHitbox>)
    ensures
        r == hit_of(hitboxes@, field),
{
    let mut i: usize = 0;
    assert(hitboxes@.skip(0) =~= hitboxes@);
    while i < hitboxes.len()
        invariant
            i <= hitboxes@.len(),
            hit_of(hitboxes@.skip(i as int), field) == hit_of(hitboxes@, field),
        decreases hitboxes@.len() - i,
    {
        assert(hitboxes@.skip(i as int)[0] == hitboxes@[i as int]);
        assert(hitboxes@.skip(i as int).drop_first() =~= hitboxes@.skip(i + 1));
        if hitboxes[i].field == field {
            return Some(hitboxes[i]);
        }
        i += 1;
    }
    None
}

/// How far `to` lies behind `from`, or zero.
pub open spec fn distance(from: u16, to: u16) -> int {
    if to >= from {
        to - from
    } else {
        0
    }
}

/// `at`, but in the cells that begin with `first` and end before `end`.
pub open spec fn clamped(at: u16, first: u16, end: u16) -> u16 {
    if at < first {
        first
    } else if at >= end {
        (if end == 0 {
            0
        } else {
            end - 1
        }) as u16
    } else {
        at
    }
}

/// Whether there is a cell between `first` and `end`, or both are zero.
pub open spec fn has_cells(first: u16, end: u16) -> bool {
    first < end || (first == 0 && end == 0)
}

fn clamp_cell(at: u16, first: u16, end: u16) -> (r: u16)
    requires
        has_cells(first, end),
    ensures
        r == clamped(at, first, end),
{
    if at < first {
        first
    } else if at >= end {
        end.saturating_sub(1)
    } else {
        at
    }
}

impl ModalInputHitbox {
    /// The position in `chars` that is nearest to a column of the screen.
    pub open spec fn position(self, chars: Seq<char>, column: u16) -> int {
        at_column_from(
            chars,
            char_index(chars, self.visible_start as int),
            char_index(chars, self.visible_end as int),
            0,
            distance(self.area.x, column),
        )
    }

    /// The byte offset in `chars` that is nearest to a column of the screen.
    pub open spec fn offset(self, chars: Seq<char>, column: u16) -> usize {
        byte_len(chars.take(self.position(chars, column))) as usize
    }

    pub proof fn lemma_position(self, chars: Seq<char>, column: u16)
        requires
            self.fits(chars),
        ensures
            0 <= self.position(chars, column) <= chars.len(),
    {
        lemma_boundary(chars, self.visible_start as int);
        lemma_boundary(chars, self.visible_end as int);
        lemma_char_index_order(chars, self.visible_start as int, self.visible_end as int);
        lemma_at_column_from(
            chars,
            char_index(chars, self.visible_start as int),
            char_index(chars, self.visible_end as int),
            0,
            distance(self.area.x, column),
        );
    }

    /// The byte offset in `text` that is nearest to a column of the screen.
    fn offset_at(self, text: &str, column: u16) -> (r: usize)
        requires
            self.fits(text@),
        ensures
            r == self.offset(text@, column),
            is_boundary(text@, r as int),
            char_index(text@, r as int) == self.position(text@, column),
    {
        proof {
            self.lemma_position(text@, column);
            lemma_char_index_order(text@, self.visible_start as int, self.visible_end as int);
        }
        let chars = chars_of(text);
        let start: usize = char_position(text, self.visible_start);
        let end: usize = char_position(text, self.visible_end);
        let relative: usize = column.saturating_sub(self.area.x) as usize;
        let at: usize = position_at_column(&chars, start, end, relative);
        byte_offset(text, at)
    }

    fn fits_text(self, text: &str) -> (r: bool)
        ensures
            r == self.fits(text@),
    {
        self.visible_start <= self.visible_end && at_boundary(text, self.visible_start)
            && at_boundary(text, self.visible_end)
    }
}

impl ModalView {
    /// Whether the mouse can go into a field.
    pub open spec fn takes_mouse(self, field: usize) -> bool {
        match self {
            ModalView::AddCommand { .. } => true,
            ModalView::TargetVersion { .. } => true,
            ModalView::GithubMonitorForm { .. } => field < GITHUB_MONITOR_FORM_FIELD_COUNT,
            ModalView::GithubPollInterval { .. } => field == 0,
            ModalView::NetworkProxy { form } => field == 0 || (form.mode == ProxyMode::Explicit
                && field <= 2),
            _ => false,
        }
    }

    /// The line of text in a field, where the mouse can set its cursor.
    pub open spec fn line(self, field: usize) -> Option<InputView> {
        match self {
            ModalView::AddCommand { form } => Some(
                if field == 0 {
                    form.name
                } else {
                    form.command
                },
            ),
            ModalView::TargetVersion { version, .. } => Some(version),
            ModalView::GithubMonitorForm { form } => form.input(field),
            ModalView::GithubPollInterval { seconds } => Some(seconds),
            ModalView::NetworkProxy { form } => if field == 1 {
                Some(form.url)
            } else if field == 2 {
                Some(form.bypass)
            } else {
                None
            },
            _ => None,
        }
    }

    /// The dialog with another line of text in a field.
    pub open spec fn with_line(self, field: usize, input: InputView) -> ModalView {
        match self {
            ModalView::AddCommand { form } => ModalView::AddCommand {
                form: if field == 0 {
                    CommandFormView { name: input, ..form }
                } else {
                    CommandFormView { command: input, ..form }
                },
            },
            ModalView::TargetVersion { name, .. } => ModalView::TargetVersion {
                name,
                version: input,
            },
            ModalView::GithubMonitorForm { form } => ModalView::GithubMonitorForm {
                form: form.with_input(field, input),
            },
            ModalView::GithubPollInterval { .. } => ModalView::GithubPollInterval {
                seconds: input,
            },
            ModalView::NetworkProxy { form } => ModalView::NetworkProxy {
                form: if field == 1 {
                    ProxyFormView { url: input, ..form }
                } else {
                    ProxyFormView { bypass: input, ..form }
                },
            },
            other => other,
        }
    }

    /// The dialog with the focus on a field, where it is a form.
    pub open spec fn at_field(self, field: usize) -> ModalView {
        match self {
            ModalView::AddCommand { form } => ModalView::AddCommand {
                form: CommandFormView { field, ..form },
            },
            ModalView::NetworkProxy { form } => ModalView::NetworkProxy {
                form: ProxyFormView { field, ..form },
            },
            ModalView::GithubMonitorForm { form } => ModalView::GithubMonitorForm {
                form: MonitorFormView { field, ..form },
            },
            other => other,
        }
    }

    /// The field that a selection with the mouse belongs to.
    pub open spec fn drag_field(self, field: usize) -> usize {
        match self {
            ModalView::TargetVersion { .. } => 0,
            ModalView::GithubPollInterval { .. } => 0,
            _ => field,
        }
    }

    /// The dialog after a click into a field that holds a choice, if it does.
    pub open spec fn chosen(self, field: usize) -> Option<ModalView> {
        match self {
            ModalView::NetworkProxy { form } => if field == 0 {
                Some(
                    ModalView::NetworkProxy {
                        form: ProxyFormView { mode: form.mode.following(), field: 0, ..form },
                    },
                )
            } else {
                None
            },
            ModalView::GithubMonitorForm { form: before } => {
                let form = MonitorFormView { field, ..before };
                if field == 4 {
                    let format = format_after(form.format);
                    Some(
                        ModalView::GithubMonitorForm { form: MonitorFormView { format, ..form } },
                    )
                } else if field == 5 {
                    let update_policy = policy_after(form.update_policy);
                    Some(
                        ModalView::GithubMonitorForm {
                            form: MonitorFormView { update_policy, ..form },
                        },
                    )
                } else if field == 6 {
                    let cleanup_installer = !form.cleanup_installer;
                    Some(
                        ModalView::GithubMonitorForm {
                            form: MonitorFormView { cleanup_installer, ..form },
                        },
                    )
                } else if field == 11 {
                    let enabled = !form.enabled;
                    Some(
                        ModalView::GithubMonitorForm { form: MonitorFormView { enabled, ..form } },
                    )
                } else {
                    None
                }
            },
            _ => None,
        }
    }

    /// The dialog after a click into a line of text.
    pub open spec fn line_clicked(self, hit: ModalInputHitbox, column: u16) -> ModalView {
        let input = self.line(hit.field)->0;
        self.at_field(hit.field).with_line(
            hit.field,
            InputView { at: hit.position(input.chars, column), anchor: None, ..input },
        )
    }

    /// The dialog after the mouse was dragged over a line of text from the byte
    /// offset `anchor`. Nothing is selected where that no longer lies between
    /// characters.
    pub open spec fn line_dragged(
        self,
        field: usize,
        anchor: usize,
        hit: ModalInputHitbox,
        column: u16,
    ) -> ModalView {
        let input = self.line(field)->0;
        let at = hit.position(input.chars, column);
        let from = char_index(input.chars, anchor as int);
        self.with_line(
            field,
            InputView {
                at,
                anchor: if from == at || !is_boundary(input.chars, anchor as int) {
                    None
                } else {
                    Some(from)
                },
                ..input
            },
        )
    }
}

impl AppView {
    /// The state after the mouse moved over a dialog.
    pub open spec fn dialog_moved(self, mouse: Mouse) -> AppView {
        match hit_at(self.hits.modal_inputs@, mouse.column, mouse.row) {
            Some(hit) => if self.modal.takes_mouse(hit.field) {
                self.with_modal(self.modal.at_field(hit.field))
            } else {
                self
            },
            None => self,
        }
    }

    /// The state after a click into a dialog.
    pub open spec fn dialog_clicked(self, mouse: Mouse) -> AppView {
        match hit_at(self.hits.modal_inputs@, mouse.column, mouse.row) {
            None => AppView { modal_drag: None, ..self },
            Some(hit) => if !self.modal.takes_mouse(hit.field) {
                self
            } else {
                match self.modal.chosen(hit.field) {
                    Some(modal) => AppView { modal, modal_drag: None, ..self },
                    None => AppView {
                        modal: self.modal.line_clicked(hit, mouse.column),
                        modal_drag: Some(
                            (
                                self.modal.drag_field(hit.field),
                                hit.offset(self.modal.line(hit.field)->0.chars, mouse.column),
                            ),
                        ),
                        ..self
                    },
                }
            },
        }
    }

    /// The state after the mouse was dragged over a dialog.
    pub open spec fn dialog_dragged(self, mouse: Mouse) -> AppView {
        match self.modal_drag {
            None => self,
            Some((field, anchor)) => match hit_of(self.hits.modal_inputs@, field) {
                None => self,
                Some(hit) => if self.modal.line(field) is None {
                    self
                } else {
                    let column = clamped(mouse.column, hit.area.x, hit.area.right_edge());
                    self.with_modal(self.modal.line_dragged(field, anchor, hit, column))
                },
            },
        }
    }

    /// The state after the mouse did something in a dialog other than the TOML
    /// editor.
    pub open spec fn dialog_moused(self, mouse: Mouse) -> AppView {
        match mouse.kind {
            MouseKind::Moved => self.dialog_moved(mouse),
            MouseKind::LeftDown => self.dialog_clicked(mouse),
            MouseKind::LeftDrag => self.dialog_dragged(mouse),
            MouseKind::LeftUp => AppView { modal_drag: None, ..self },
            _ => self,
        }
    }

    /// Whether what was drawn last still fits the dialog under the mouse.
    pub open spec fn mouse_fits(self, mouse: Mouse) -> bool {
        match mouse.kind {
            MouseKind::LeftDown => {
                match hit_at(self.hits.modal_inputs@, mouse.column, mouse.row) {
                    None => true,
                    Some(hit) => self.modal.takes_mouse(hit.field) ==> match self.modal.line(
                        hit.field,
                    ) {
                        Some(input) => hit.fits(input.chars),
                        None => true,
                    },
                }
            },
            MouseKind::LeftDrag => match self.modal_drag {
                None => true,
                Some((field, _)) => match hit_of(self.hits.modal_inputs@, field) {
                    None => true,
                    Some(hit) => {
                        &&& has_cells(hit.area.x, hit.area.right_edge())
                        &&& match self.modal.line(field) {
                            Some(input) => hit.fits(input.chars),
                            None => true,
                        }
                    },
                },
            },
            _ => true,
        }
    }

    /// Whether what was drawn last still fits the TOML editor.
    pub open spec fn editor_mouse_fits(self, editor: TomlEditor, mouse: Mouse) -> bool {
        match (self.toml_editor_area, self.toml_editor_drag) {
            (Some(area), Some(_)) => mouse.kind == MouseKind::LeftDrag ==> {
                &&& has_cells(area.x, area.right_edge())
                &&& has_cells(area.y, area.bottom_edge())
            },
            _ => true,
        }
    }

    /// The state after the mouse did something in the TOML editor.
    pub open spec fn editor_moused(self, editor: TomlEditor, mouse: Mouse) -> AppView {
        match self.toml_editor_area {
            None => self,
            Some(area) => match mouse.kind {
                MouseKind::ScrollUp => self.editor_wheeled(editor, area, mouse, true),
                MouseKind::ScrollDown => self.editor_wheeled(editor, area, mouse, false),
                MouseKind::LeftDown => self.editor_clicked(editor, area, mouse),
                MouseKind::LeftDrag => self.editor_dragged(editor, area, mouse),
                MouseKind::LeftUp => AppView { toml_editor_drag: None, ..self },
                _ => self,
            },
        }
    }

    pub open spec fn editor_wheeled(
        self,
        editor: TomlEditor,
        area: Rect,
        mouse: Mouse,
        up: bool,
    ) -> AppView {
        if area.covers(mouse.column, mouse.row) {
            let target = shifted(editor.scroll_y as int, wheel_delta(up));
            let last = editor.last_scroll(area.height as usize);
            self.with_modal(
                ModalView::TomlEditor {
                    editor: TomlEditor {
                        scroll_y: if target <= last {
                            target
                        } else {
                            last
                        } as usize,
                        follow_cursor: false,
                        ..editor
                    },
                },
            )
        } else {
            self
        }
    }

    pub open spec fn editor_clicked(self, editor: TomlEditor, area: Rect, mouse: Mouse) -> AppView {
        if !area.covers(mouse.column, mouse.row) {
            AppView { toml_editor_drag: None, ..self }
        } else {
            let cursor = editor_offset(editor, area, mouse.column, mouse.row);
            AppView {
                modal: ModalView::TomlEditor {
                    editor: TomlEditor {
                        cursor,
                        selection_anchor: None,
                        follow_cursor: true,
                        preferred_column: None,
                        ..editor
                    },
                },
                toml_editor_drag: Some(cursor),
                ..self
            }
        }
    }

    pub open spec fn editor_dragged(self, editor: TomlEditor, area: Rect, mouse: Mouse) -> AppView {
        match self.toml_editor_drag {
            None => self,
            Some(anchor) => if area.width == 0 || area.height == 0 {
                self
            } else {
                let column = clamped(mouse.column, area.x, area.right_edge());
                let row = clamped(mouse.row, area.y, area.bottom_edge());
                let cursor = editor_offset(editor, area, column, row);
                self.with_modal(
                    ModalView::TomlEditor {
                        editor: TomlEditor {
                            cursor,
                            selection_anchor: if cursor == anchor || !is_boundary(
                                editor.text@,
                                anchor as int,
                            ) {
                                None
                            } else {
                                Some(anchor)
                            },
                            preferred_column: None,
                            ..editor
                        },
                    },
                )
            },
        }
    }
}

/// The position in the text of the editor that is nearest to a cell.
pub open spec fn editor_position(editor: TomlEditor, area: Rect, column: u16, row: u16) -> int {
    at_column(
        editor.text@,
        at_most(editor.scroll_y + distance(area.y, row), usize::MAX as int) as nat,
        at_most(editor.scroll_x + distance(area.x, column), usize::MAX as int),
    )
}

/// The byte offset in the text of the editor that is nearest to a cell.
pub open spec fn editor_offset(editor: TomlEditor, area: Rect, column: u16, row: u16) -> usize {
    byte_len(editor.text@.take(editor_position(editor, area, column, row))) as usize
}

/// Sets the cursor, and where the selection begins.
fn place(input: &mut TextInput, target: usize, anchor: Option<usize>)
    requires
        is_boundary(old(input).value@, target as int),
        anchor matches Some(a) ==> is_boundary(old(input).value@, a as int) && a != target,
    ensures
        final(input).wf(),
        final(input)@ == (InputView {
            chars: old(input)@.chars,
            at: char_index(old(input)@.chars, target as int),
            anchor: match anchor {
                Some(a) => Some(char_index(old(input)@.chars, a as int)),
                None => None,
            },
        }),
{
    input.cursor = target;
    input.selection_anchor = anchor;
}

impl MonitorForm {
    /// The line of text in a field, where it is one.
    pub(crate) fn line(&self, field: usize) -> (r: Option<&TextInput>)
        requires
            self.wf(),
        ensures
            r is Some <==> self@.input(field) is Some,
            r matches Some(input) ==> input.wf() && self@.input(field) == Some(input@),
    {
        if field == 0 {
            Some(&self.name)
        } else if field == 1 {
            Some(&self.repository)
        } else if field == 2 {
            Some(&self.asset_regex)
        } else if field == 3 {
            Some(&self.target_directory)
        } else if field == 7 {
            Some(&self.max_download_bytes)
        } else if field == 8 {
            Some(&self.max_extracted_bytes)
        } else if field == 9 {
            Some(&self.max_extracted_files)
        } else if field == 10 {
            Some(&self.strip_components)
        } else {
            None
        }
    }

    fn place_line(&mut self, field: usize, target: usize, anchor: Option<usize>)
        requires
            old(self).wf(),
            old(self)@.input(field) is Some,
            is_boundary(old(self)@.input(field)->0.chars, target as int),
            anchor matches Some(a) ==> is_boundary(
                old(self)@.input(field)->0.chars,
                a as int,
            ) && a != target,
        ensures
            final(self).wf(),
            final(self)@ == old(self)@.with_input(
                field,
                placed_input(old(self)@.input(field)->0, target, anchor),
            ),
    {
        if field == 0 {
            place(&mut self.name, target, anchor);
        } else if field == 1 {
            place(&mut self.repository, target, anchor);
        } else if field == 2 {
            place(&mut self.asset_regex, target, anchor);
        } else if field == 3 {
            place(&mut self.target_directory, target, anchor);
        } else if field == 7 {
            place(&mut self.max_download_bytes, target, anchor);
        } else if field == 8 {
            place(&mut self.max_extracted_bytes, target, anchor);
        } else if field == 9 {
            place(&mut self.max_extracted_files, target, anchor);
        } else if field == 10 {
            place(&mut self.strip_components, target, anchor);
        }
    }
}

/// A line of text with its cursor and the begin of its selection set.
pub open spec fn placed_input(input: InputView, target: usize, anchor: Option<usize>) -> InputView {
    InputView {
        chars: input.chars,
        at: char_index(input.chars, target as int),
        anchor: match anchor {
            Some(a) => Some(char_index(input.chars, a as int)),
            None => None,
        },
    }
}

impl Modal {
    /// The line of text in a field, where the mouse can set its cursor.
    fn line(&self, field: usize) -> (r: Option<&TextInput>)
        requires
            self.wf(),
        ensures
            r is Some <==> self@.line(field) is Some,
            r matches Some(input) ==> input.wf() && self@.line(field) == Some(input@),
    {
        match self {
            Modal::AddCommand { form } => Some(
                if field == 0 {
                    &form.name
                } else {
                    &form.command
                },
            ),
            Modal::TargetVersion { version, .. } => Some(version),
            Modal::GithubMonitorForm { form } => form.line(field),
            Modal::GithubPollInterval { seconds } => Some(seconds),
            Modal::NetworkProxy { form } => if field == 1 {
                Some(&form.proxy_url)
            } else if field == 2 {
                Some(&form.no_proxy)
            } else {
                None
            },
            _ => None,
        }
    }

    fn place_line(&mut self, field: usize, target: usize, anchor: Option<usize>)
        requires
            old(self).wf(),
            old(self)@.line(field) is Some,
            is_boundary(old(self)@.line(field)->0.chars, target as int),
            anchor matches Some(a) ==> is_boundary(
                old(self)@.line(field)->0.chars,
                a as int,
            ) && a != target,
        ensures
            final(self).wf(),
            final(self)@ == old(self)@.with_line(
                field,
                placed_input(old(self)@.line(field)->0, target, anchor),
            ),
    {
        match self {
            Modal::AddCommand { form } => {
                if field == 0 {
                    place(&mut form.name, target, anchor);
                } else {
                    place(&mut form.command, target, anchor);
                }
            },
            Modal::TargetVersion { version, .. } => place(version, target, anchor),
            Modal::GithubMonitorForm { form } => form.place_line(field, target, anchor),
            Modal::GithubPollInterval { seconds } => place(seconds, target, anchor),
            Modal::NetworkProxy { form } => {
                if field == 1 {
                    place(&mut form.proxy_url, target, anchor);
                } else {
                    place(&mut form.no_proxy, target, anchor);
                }
            },
            _ => {},
        }
    }

    fn focus_field(&mut self, field: usize)
        requires
            old(self).wf(),
            old(self)@.takes_mouse(field),
        ensures
            final(self).wf(),
            final(self)@ == old(self)@.at_field(field),
    {
        match self {
            Modal::AddCommand { form } => {
                form.field = field;
            },
            Modal::NetworkProxy { form } => {
                form.field = field;
            },
            Modal::GithubMonitorForm { form } => {
                form.field = field;
            },
            _ => {},
        }
    }

    /// Goes on in a field that holds a choice; tells whether it does.
    fn choose_next(&mut self, field: usize) -> (r: bool)
        requires
            old(self).wf(),
            old(self)@.takes_mouse(field),
        ensures
            final(self).wf(),
            r == (old(self)@.chosen(field) is Some),
            final(self)@ == match old(self)@.chosen(field) {
                Some(modal) => modal,
                None => old(self)@,
            },
    {
        match self {
            Modal::NetworkProxy { form } => {
                if field == 0 {
                    form.proxy_mode = form.proxy_mode.next();
                    form.field = 0;
                    true
                } else {
                    false
                }
            },
            Modal::GithubMonitorForm { form } => {
                if field == 4 {
                    form.field = field;
                    form.format = next_release_format(form.format);
                    true
                } else if field == 5 {
                    form.field = field;
                    form.update_policy = next_release_update_policy(form.update_policy);
                    true
                } else if field == 6 {
                    form.field = field;
                    form.cleanup_installer = !form.cleanup_installer;
                    true
                } else if field == 11 {
                    form.field = field;
                    form.enabled = !form.enabled;
                    true
                } else {
                    false
                }
            },
            _ => false,
        }
    }
}

/// Whether the mouse can go into a field of a dialog.
pub fn modal_field_is_editable(modal: &Modal, field: usize) -> (r: bool)
    ensures
        r == modal@.takes_mouse(field),
{
    match modal {
        Modal::AddCommand { .. } => true,
        Modal::TargetVersion { .. } => true,
        Modal::GithubMonitorForm { .. } => field < GITHUB_MONITOR_FORM_FIELD_COUNT,
        Modal::GithubPollInterval { .. } => field == 0,
        Modal::NetworkProxy { form } => field == 0 || (form.proxy_mode == ProxyMode::Explicit
            && field <= 2),
        _ => false,
    }
}

/// The byte offset in a line of text that is nearest to a column of the screen,
/// where the dialog has such a line.
pub fn modal_cursor_at(app: &App, hitbox: ModalInputHitbox, column: u16) -> (r: Option<usize>)
    requires
        app.wf(),
        app@.modal.line(hitbox.field) matches Some(input) ==> hitbox.fits(input.chars),
    ensures
        r is Some <==> app@.modal.line(hitbox.field) is Some,
        r matches Some(target) ==> {
            let chars = app@.modal.line(hitbox.field)->0.chars;
            &&& target == hitbox.offset(chars, column)
            &&& is_boundary(chars, target as int)
            &&& char_index(chars, target as int) == hitbox.position(chars, column)
        },
{
    match app.modal.line(hitbox.field) {
        Some(input) => Some(hitbox.offset_at(input.value.as_str(), column)),
        None => None,
    }
}

/// The field that a selection with the mouse belongs to.
fn field_of_drag(modal: &Modal, field: usize) -> (r: usize)
    ensures
        r == modal@.drag_field(field),
{
    match modal {
        Modal::TargetVersion { .. } => 0,
        Modal::GithubPollInterval { .. } => 0,
        _ => field,
    }
}

impl App {
    fn move_over_dialog(&mut self, mouse: Mouse)
        requires
            old(self).wf(),
        ensures
            final(self).wf(),
            final(self)@ == old(self)@.dialog_moved(mouse),
    {
        if let Some(hit) = find_hit(&self.hits.modal_inputs, mouse.column, mouse.row) {
            if modal_field_is_editable(&self.modal, hit.field) {
                self.modal.focus_field(hit.field);
            }
        }
    }

    fn click_line(&mut self, hit: ModalInputHitbox, column: u16)
        requires
            old(self).wf(),
            old(self)@.modal.takes_mouse(hit.field),
            old(self)@.modal.line(hit.field) matches Some(input) && hit.fits(input.chars),
        ensures
            final(self).wf(),
            final(self)@ == (AppView {
                modal: old(self)@.modal.line_clicked(hit, column),
                modal_drag: Some(
                    (
                        old(self)@.modal.drag_field(hit.field),
                        hit.offset(old(self)@.modal.line(hit.field)->0.chars, column),
                    ),
                ),
                ..old(self)@
            }),
    {
        if let Some(target) = modal_cursor_at(&*self, hit, column) {
            self.modal_drag = Some((field_of_drag(&self.modal, hit.field), target));
            self.modal.focus_field(hit.field);
            self.modal.place_line(hit.field, target, None);
        }
    }

    fn click_dialog(&mut self, mouse: Mouse)
        requires
            old(self).wf(),
            old(self)@.mouse_fits(mouse),
            mouse.kind == MouseKind::LeftDown,
        ensures
            final(self).wf(),
            final(self)@ == old(self)@.dialog_clicked(mouse),
    {
        match find_hit(&self.hits.modal_inputs, mouse.column, mouse.row) {
            None => {
                self.modal_drag = None;
            },
            Some(hit) => {
                if modal_field_is_editable(&self.modal, hit.field) {
                    if self.modal.choose_next(hit.field) {
                        self.modal_drag = None;
                    } else {
                        self.click_line(hit, mouse.column);
                    }
                }
            },
        }
    }

    fn drag_over_dialog(&mut self, mouse: Mouse)
        requires
            old(self).wf(),
            old(self)@.mouse_fits(mouse),
            mouse.kind == MouseKind::LeftDrag,
        ensures
            final(self).wf(),
            final(self)@ == old(self)@.dialog_dragged(mouse),
    {
        if let Some((field, anchor)) = self.modal_drag {
            if let Some(hit) = find_field(&self.hits.modal_inputs, field) {
                proof {
                    lemma_hit_of(self.hits.modal_inputs@, field);
                }
                let column = clamp_cell(mouse.column, hit.area.x, hit.area.right());
                if let Some(target) = modal_cursor_at(&*self, hit, column) {
                    let sound = match self.modal.line(field) {
                        Some(input) => at_boundary(input.value.as_str(), anchor),
                        None => false,
                    };
                    proof {
                        if sound {
                            lemma_char_index_order(
                                self@.modal.line(field)->0.chars,
                                anchor as int,
                                target as int,
                            );
                        }
                    }
                    let from = if target == anchor || !sound {
                        None
                    } else {
                        Some(anchor)
                    };
                    self.modal.place_line(field, target, from);
                }
            }
        }
    }
}

proof fn lemma_hit_of(hitboxes: Seq<ModalInputHitbox>, field: usize)
    ensures
        hit_of(hitboxes, field) matches Some(hit) ==> hit.field == field,
    decreases hitboxes.len(),
{
    if hitboxes.len() > 0 {
        lemma_hit_of(hitboxes.drop_first(), field);
    }
}

/// The byte offset in the text of the TOML editor that is nearest to a cell.
pub fn toml_editor_cursor_at(editor: &TomlEditor, area: Rect, column: u16, row: u16) -> (r: Option<
    usize,
>)
    ensures
        r is None <==> area.width == 0 || area.height == 0,
        r matches Some(target) ==> {
            &&& target == editor_offset(*editor, area, column, row)
            &&& is_boundary(editor.text@, target as int)
        },
{
    if area.width == 0 || area.height == 0 {
        return None;
    }
    let line: usize = editor.scroll_y.saturating_add(row.saturating_sub(area.y) as usize);
    let display_column: usize = editor.scroll_x.saturating_add(
        column.saturating_sub(area.x) as usize,
    );
    let target: usize = editor.byte_at_column(line, display_column);
    proof {
        lemma_boundary(editor.text@, target as int);
    }
    Some(target)
}

fn click_editor(editor: &mut TomlEditor, target: usize)
    requires
        old(editor).wf(),
        is_boundary(old(editor).text@, target as int),
    ensures
        final(editor).wf(),
        *final(editor) == (TomlEditor {
            cursor: target,
            selection_anchor: None,
            follow_cursor: true,
            preferred_column: None,
            ..*old(editor)
        }),
{
    editor.cursor = target;
    editor.selection_anchor = None;
    editor.follow_cursor = true;
    editor.preferred_column = None;
}

fn drag_editor(editor: &mut TomlEditor, target: usize, anchor: usize)
    requires
        old(editor).wf(),
        is_boundary(old(editor).text@, target as int),
    ensures
        final(editor).wf(),
        *final(editor) == (TomlEditor {
            cursor: target,
            selection_anchor: if target == anchor || !is_boundary(
                old(editor).text@,
                anchor as int,
            ) {
                None
            } else {
                Some(anchor)
            },
            preferred_column: None,
            ..*old(editor)
        }),
{
    editor.cursor = target;
    editor.selection_anchor = if target == anchor || !at_boundary(editor.text.as_str(), anchor) {
        None
    } else {
        Some(anchor)
    };
    editor.preferred_column = None;
}

impl App {
    fn wheel_editor(&mut self, area: Rect, mouse: Mouse, up: bool)
        requires
            old(self).wf(),
            old(self).modal is TomlEditor,
        ensures
            final(self).wf(),
            final(self)@ == old(self)@.editor_wheeled(
                old(self)@.modal->editor,
                area,
                mouse,
                up,
            ),
    {
        let delta: isize = if up {
            -MOUSE_WHEEL_ROWS
        } else {
            MOUSE_WHEEL_ROWS
        };
        if contains_point(Some(area), mouse.column, mouse.row) {
            if let Modal::TomlEditor { editor } = &mut self.modal {
                editor.scroll_vertical(delta, area.height as usize);
            }
        }
    }

    fn click_into_editor(&mut self, area: Rect, mouse: Mouse)
        requires
            old(self).wf(),
            old(self).modal is TomlEditor,
        ensures
            final(self).wf(),
            final(self)@ == old(self)@.editor_clicked(old(self)@.modal->editor, area, mouse),
    {
        if !contains_point(Some(area), mouse.column, mouse.row) {
            self.toml_editor_drag = None;
            return;
        }
        if let Modal::TomlEditor { editor } = &mut self.modal {
            if let Some(target) = toml_editor_cursor_at(&*editor, area, mouse.column, mouse.row) {
                click_editor(editor, target);
                self.toml_editor_drag = Some(target);
            }
        }
    }

    fn drag_over_editor(&mut self, area: Rect, mouse: Mouse)
        requires
            old(self).wf(),
            old(self).modal is TomlEditor,
            old(self).toml_editor_area == Some(area),
            mouse.kind == MouseKind::LeftDrag,
            old(self)@.editor_mouse_fits(old(self)@.modal->editor, mouse),
        ensures
            final(self).wf(),
            final(self)@ == old(self)@.editor_dragged(old(self)@.modal->editor, area, mouse),
    {
        if let Some(anchor) = self.toml_editor_drag {
            let column = clamp_cell(mouse.column, area.x, area.right());
            let row = clamp_cell(mouse.row, area.y, area.bottom());
            if let Modal::TomlEditor { editor } = &mut self.modal {
                if let Some(target) = toml_editor_cursor_at(&*editor, area, column, row) {
                    drag_editor(editor, target, anchor);
                }
            }
        }
    }
}

/// Handles what the mouse did in the TOML editor.
pub fn handle_toml_editor_mouse(app: &mut App, mouse: Mouse)
    requires
        old(app).wf(),
        old(app).modal is TomlEditor,
        old(app)@.editor_mouse_fits(old(app)@.modal->editor, mouse),
    ensures
        final(app).wf(),
        final(app)@ == old(app)@.editor_moused(old(app)@.modal->editor, mouse),
{
    if let Some(area) = app.toml_editor_area {
        match mouse.kind {
            MouseKind::ScrollUp => app.wheel_editor(area, mouse, true),
            MouseKind::ScrollDown => app.wheel_editor(area, mouse, false),
            MouseKind::LeftDown => app.click_into_editor(area, mouse),
            MouseKind::LeftDrag => app.drag_over_editor(area, mouse),
            MouseKind::LeftUp => {
                app.toml_editor_drag = None;
            },
            _ => {},
        }
    }
}

/// Handles what the mouse did in a dialog other than the TOML editor.
fn handle_dialog_mouse(app: &mut App, mouse: Mouse)
    requires
        old(app).wf(),
        old(app)@.mouse_fits(mouse),
    ensures
        final(app).wf(),
        final(app)@ == old(app)@.dialog_moused(mouse),
{
    match mouse.kind {
        MouseKind::Moved => app.move_over_dialog(mouse),
        MouseKind::LeftDown => app.click_dialog(mouse),
        MouseKind::LeftDrag => app.drag_over_dialog(mouse),
        MouseKind::LeftUp => {
            app.modal_drag = None;
        },
        _ => {},
    }
}

impl AppView {
    /// Whether what was drawn last still fits the dialog under the mouse.
    pub open spec fn modal_mouse_fits(self, mouse: Mouse) -> bool {
        match self.modal {
            ModalView::TomlEditor { editor } => self.editor_mouse_fits(editor, mouse),
            _ => self.mouse_fits(mouse),
        }
    }

    /// The state after the mouse did something in a dialog.
    pub open spec fn modal_moused(self, mouse: Mouse) -> AppView {
        match self.modal {
            ModalView::TomlEditor { editor } => self.editor_moused(editor, mouse),
            _ => self.dialog_moused(mouse),
        }
    }
}

/// Handles what the mouse did in a dialog.
pub fn handle_modal_mouse(app: &mut App, mouse: Mouse)
    requires
        old(app).wf(),
        old(app)@.modal_mouse_fits(mouse),
    ensures
        final(app).wf(),
        final(app)@ == old(app)@.modal_moused(mouse),
{
    if matches!(app.modal, Modal::TomlEditor { .. }) {
        handle_toml_editor_mouse(app, mouse);
    } else {
        handle_dialog_mouse(app, mouse);
    }
}

fn cells_between(first: u16, end: u16) -> (r: bool)
    ensures
        r == has_cells(first, end),
{
    first < end || (first == 0 && end == 0)
}

fn click_fits(app: &App, mouse: Mouse) -> (r: bool)
    requires
        app.wf(),
        mouse.kind == MouseKind::LeftDown,
    ensures
        r == app@.mouse_fits(mouse),
{
    match find_hit(&app.hits.modal_inputs, mouse.column, mouse.row) {
        None => true,
        Some(hit) => !modal_field_is_editable(&app.modal, hit.field) || match app.modal.line(
            hit.field,
        ) {
            Some(input) => hit.fits_text(input.value.as_str()),
            None => true,
        },
    }
}

fn drag_fits(app: &App, mouse: Mouse) -> (r: bool)
    requires
        app.wf(),
        mouse.kind == MouseKind::LeftDrag,
    ensures
        r == app@.mouse_fits(mouse),
{
    match app.modal_drag {
        None => true,
        Some((field, _)) => match find_field(&app.hits.modal_inputs, field) {
            None => true,
            Some(hit) => cells_between(hit.area.x, hit.area.right()) && match app.modal.line(
                field,
            ) {
                Some(input) => hit.fits_text(input.value.as_str()),
                None => true,
            },
        },
    }
}

/// Whether what was drawn last still fits the dialog under the mouse.
pub fn mouse_fits_modal(app: &App, mouse: Mouse) -> (r: bool)
    requires
        app.wf(),
    ensures
        r == app@.modal_mouse_fits(mouse),
{
    if let Modal::TomlEditor { .. } = &app.modal {
        if mouse.kind != MouseKind::LeftDrag {
            return true;
        }
        match app.toml_editor_area {
            None => true,
            Some(area) => match app.toml_editor_drag {
                None => true,
                Some(_) => cells_between(area.x, area.right()) && cells_between(
                    area.y,
                    area.bottom(),
                ),
            },
        }
    } else if mouse.kind == MouseKind::LeftDown {
        click_fits(app, mouse)
    } else if mouse.kind == MouseKind::LeftDrag {
        drag_fits(app, mouse)
    } else {
        true
    }
}

} // verus!
