//! What holds of lines of text and of forms: what their keys change, and what is
//! seen of them.

use crate::search::unix_newlines;
use crate::tui::app::AppView;
use crate::tui::editor::TomlEditor;
use crate::tui::form::{CommandFormView, MonitorFormView, ProxyFormView};
use crate::tui::input::{InputView, first_seen, last_seen};
use crate::tui::keys::{Key, KeyCode};
use crate::tui::modal::ModalView;
use crate::tui::model::ProxyMode;
use crate::tui::width::display_columns;
use vstd::prelude::*;
use vstd::string::*;

verus! {

/// Whether the cursor and the selection of a line lie in it.
pub open spec fn is_sound_line(input: InputView) -> bool {
    &&& 0 <= input.at <= input.chars.len()
    &&& input.anchor matches Some(a) ==> 0 <= a <= input.chars.len()
}

/// Where nothing is selected, a typed character goes in at the cursor, and Backspace
/// and Delete take one out before and behind it.
pub proof fn law_keys_change_a_line_at_the_cursor(input: InputView, key: Key, c: char)
    requires
        is_sound_line(input),
        input.anchor is None,
    ensures
        ({
            let new = input.pressed(key);
            &&& key.code == KeyCode::Char(c) && !key.control && !key.alt ==> new.chars
                == input.chars.insert(input.at, c) && new.at == input.at + 1 && new.anchor is None
            &&& key.code == KeyCode::Backspace && input.at > 0 ==> new.chars
                == input.chars.remove(input.at - 1) && new.at == input.at - 1
            &&& key.code == KeyCode::Backspace && input.at == 0 ==> new == input
            &&& key.code == KeyCode::Delete && input.at < input.chars.len() ==> new.chars
                == input.chars.remove(input.at) && new.at == input.at
            &&& key.code == KeyCode::Delete && input.at == input.chars.len() ==> new == input
        }),
{
    let new = input.pressed(key);
    if key.code == KeyCode::Char(c) && !key.control && !key.alt {
        assert(new.chars =~= input.chars.insert(input.at, c));
    }
    if key.code == KeyCode::Backspace && input.at > 0 {
        assert(new.chars =~= input.chars.remove(input.at - 1));
    }
    if key.code == KeyCode::Delete && input.at < input.chars.len() {
        assert(new.chars =~= input.chars.remove(input.at));
    }
}

/// What is selected is what lies between the cursor and where the selection began;
/// typing, Backspace and Delete take all of it out.
pub proof fn law_keys_replace_what_is_selected(input: InputView, key: Key, c: char, a: int)
    requires
        is_sound_line(input),
        input.anchor == Some(a),
        a != input.at,
    ensures
        ({
            let new = input.pressed(key);
            let from = if a < input.at {
                a
            } else {
                input.at
            };
            let to = if a < input.at {
                input.at
            } else {
                a
            };
            &&& input.selected() == input.chars.subrange(from, to)
            &&& key.code == KeyCode::Char(c) && !key.control && !key.alt ==> new.chars
                == input.chars.take(from).push(c) + input.chars.skip(to) && new.at == from + 1
                && new.anchor is None
            &&& key.code == KeyCode::Backspace || key.code == KeyCode::Delete ==> new.chars
                == input.chars.take(from) + input.chars.skip(to) && new.at == from
                && new.anchor is None
        }),
{
    let new = input.pressed(key);
    let from = if a < input.at {
        a
    } else {
        input.at
    };
    let to = if a < input.at {
        input.at
    } else {
        a
    };
    if key.code == KeyCode::Char(c) && !key.control && !key.alt {
        assert(new.chars =~= input.chars.take(from).push(c) + input.chars.skip(to));
    }
}

/// The arrows, Home and End move the cursor; with Shift they select from where it
/// was, and without it they let go of the selection. They change no text.
pub proof fn law_keys_move_in_a_line(input: InputView, key: Key)
    requires
        is_sound_line(input),
    ensures
        ({
            let new = input.pressed(key);
            let moves = key.code == KeyCode::Left || key.code == KeyCode::Right || key.code
                == KeyCode::Home || key.code == KeyCode::End;
            let began = match input.anchor {
                Some(a) => a,
                None => input.at,
            };
            &&& moves ==> new.chars == input.chars
            &&& moves && !key.shift ==> new.anchor is None
            &&& moves && key.shift ==> new.anchor == if began == new.at {
                None
            } else {
                Some(began)
            }
            &&& key.code == KeyCode::Home ==> new.at == 0
            &&& key.code == KeyCode::End ==> new.at == input.chars.len()
            &&& key.code == KeyCode::Left && (key.shift || input.anchor is None) ==> new.at
                == if input.at == 0 {
                0
            } else {
                input.at - 1
            }
            &&& key.code == KeyCode::Right && (key.shift || input.anchor is None) ==> new.at
                == if input.at == input.chars.len() {
                input.at
            } else {
                input.at + 1
            }
            &&& key.code == KeyCode::Char('a') && key.control ==> new.chars == input.chars
                && new.selected() == input.chars
        }),
{
    if key.code == KeyCode::Char('a') && key.control {
        assert(input.pressed(key).selected() =~= input.chars);
    }
}

proof fn lemma_first_seen(chars: Seq<char>, at: int, width: int, i: int)
    requires
        0 <= i <= at <= chars.len(),
    ensures
        i <= first_seen(chars, at, width, i) <= at,
        first_seen(chars, at, width, i) < at ==> display_columns(
            chars.subrange(first_seen(chars, at, width, i), at),
        ) <= width,
        i < first_seen(chars, at, width, i) ==> display_columns(
            chars.subrange(first_seen(chars, at, width, i) - 1, at),
        ) > width,
    decreases at - i,
{
    if i < at && display_columns(chars.subrange(i, at)) > width {
        lemma_first_seen(chars, at, width, i + 1);
    }
}

proof fn lemma_last_seen(chars: Seq<char>, start: int, at: int, width: int, end: int)
    requires
        0 <= start <= at <= end <= chars.len(),
    ensures
        at <= last_seen(chars, start, at, width, end) <= end,
        at < last_seen(chars, start, at, width, end) ==> display_columns(
            chars.subrange(start, last_seen(chars, start, at, width, end)),
        ) <= width,
        last_seen(chars, start, at, width, end) < end ==> display_columns(
            chars.subrange(start, last_seen(chars, start, at, width, end) + 1),
        ) > width,
    decreases end - at,
{
    if at < end && display_columns(chars.subrange(start, end)) > width {
        lemma_last_seen(chars, start, at, width, end - 1);
    }
}

/// What is seen of a line holds the cursor and fits into the columns, and neither
/// before the cursor nor behind it is there room for one character more.
pub proof fn law_as_much_of_a_line_is_seen_as_fits(input: InputView, width: int)
    requires
        0 <= input.at <= input.chars.len(),
        width > 0,
    ensures
        ({
            let (start, end) = input.seen(width);
            &&& 0 <= start <= input.at <= end <= input.chars.len()
            &&& start < input.at ==> display_columns(input.chars.subrange(start, input.at))
                <= width
            &&& input.at < end ==> display_columns(input.chars.subrange(start, end)) <= width
            &&& start > 0 ==> display_columns(input.chars.subrange(start - 1, input.at)) > width
            &&& end < input.chars.len() ==> display_columns(input.chars.subrange(start, end + 1))
                > width
        }),
{
    lemma_first_seen(input.chars, input.at, width, 0);
    let start = first_seen(input.chars, input.at, width, 0);
    lemma_last_seen(input.chars, start, input.at, width, input.chars.len() as int);
}

/// In the form of a command, Tab goes to the other field, Esc closes the form, and
/// what is typed changes the field in focus alone.
pub proof fn law_keys_change_one_field_of_a_command(
    form: CommandFormView,
    key: Key,
    language: crate::language::Language,
    c: char,
)
    requires
        form.field < 2,
    ensures
        ({
            let (new, ask) = form.pressed(key, language);
            &&& key.code == KeyCode::Esc ==> new == form && ask is Close
            &&& key.code == KeyCode::Tab ==> new.field + form.field == 1 && ask is Stay
                && new.name.chars == form.name.chars && new.command.chars == form.command.chars
            &&& key.code == KeyCode::Char(c) && form.field == 0 ==> ask is Stay && new == (
            CommandFormView { name: form.name.pressed(key), ..form })
            &&& key.code == KeyCode::Char(c) && form.field == 1 ==> ask is Stay && new == (
            CommandFormView { command: form.command.pressed(key), ..form })
        }),
{
}

/// In the form of a proxy, Esc closes the form, the arrows change the mode, and what
/// is typed changes the field in focus alone, in explicit mode.
pub proof fn law_keys_change_one_field_of_a_proxy(form: ProxyFormView, key: Key, c: char)
    requires
        form.field < 3,
        key.code == KeyCode::Char(c),
        !key.control,
        c != ' ',
    ensures
        ({
            let (new, ask) = form.pressed(key);
            &&& ask is Stay
            &&& form.mode == ProxyMode::Explicit && form.field == 1 ==> new == (ProxyFormView {
                url: form.url.pressed(key),
                ..form
            })
            &&& form.mode == ProxyMode::Explicit && form.field == 2 ==> new == (ProxyFormView {
                bypass: form.bypass.pressed(key),
                ..form
            })
            &&& form.mode != ProxyMode::Explicit || form.field == 0 ==> new == form
        }),
{
}

/// In the form of a repository, Tab and Shift+Tab go through the fields and undo each
/// other.
pub proof fn law_keys_go_through_the_fields(form: MonitorFormView, tab: Key, back: Key)
    requires
        form.field < 12,
        tab.code == KeyCode::Tab,
        back.code == KeyCode::BackTab,
    ensures
        form.changed(tab).changed(back) == form,
        form.changed(back).changed(tab) == form,
        form.field < 11 ==> form.changed(tab) == (MonitorFormView {
            field: (form.field + 1) as usize,
            ..form
        }),
        form.field == 11 ==> form.changed(tab) == (MonitorFormView { field: 0, ..form }),
{
}

/// What is typed into the form of a repository changes the field in focus alone.
pub proof fn law_keys_change_one_field_of_a_monitor(form: MonitorFormView, key: Key, c: char)
    requires
        key.code == KeyCode::Char(c),
        c != ' ',
    ensures
        ({
            let new = form.changed(key);
            &&& form.field == 0 ==> new == (MonitorFormView {
                name: form.name.pressed(key),
                ..form
            })
            &&& form.field == 1 ==> new == (MonitorFormView {
                repository: form.repository.pressed(key),
                ..form
            })
            &&& form.field == 2 ==> new == (MonitorFormView {
                asset_regex: form.asset_regex.pressed(key),
                ..form
            })
            &&& form.field == 3 ==> new == (MonitorFormView {
                target_directory: form.target_directory.pressed(key),
                ..form
            })
            &&& form.field == 7 ==> new == (MonitorFormView {
                max_download_bytes: form.max_download_bytes.pressed(key),
                ..form
            })
            &&& form.field == 8 ==> new == (MonitorFormView {
                max_extracted_bytes: form.max_extracted_bytes.pressed(key),
                ..form
            })
            &&& form.field == 9 ==> new == (MonitorFormView {
                max_extracted_files: form.max_extracted_files.pressed(key),
                ..form
            })
            &&& form.field == 10 ==> new == (MonitorFormView {
                strip_components: form.strip_components.pressed(key),
                ..form
            })
            &&& 4 <= form.field <= 6 || form.field == 11 ==> new == form
        }),
{
}

/// A blank turns the choice in focus over, and the other fields stay.
pub proof fn law_a_blank_turns_choices_over(form: MonitorFormView, key: Key)
    requires
        key.code == KeyCode::Char(' '),
    ensures
        ({
            let new = form.changed(key);
            &&& form.field == 4 ==> new.format != form.format && new == (MonitorFormView {
                format: new.format,
                ..form
            })
            &&& form.field == 5 ==> new.update_policy != form.update_policy && new == (
            MonitorFormView { update_policy: new.update_policy, ..form })
            &&& form.field == 6 ==> new == (MonitorFormView {
                cleanup_installer: !form.cleanup_installer,
                ..form
            })
            &&& form.field == 11 ==> new == (MonitorFormView { enabled: !form.enabled, ..form })
        }),
{
}

/// Text that is pasted goes into the line of a dialog at the cursor; where no dialog is
/// open, it goes nowhere.
pub proof fn law_pasted_text_goes_into_the_line(
    app: AppView,
    new: AppView,
    text: Seq<char>,
    name: Seq<char>,
    version: InputView,
)
    requires
        app.pasted(new, text),
        is_sound_line(version),
        version.anchor is None,
    ensures
        app.modal is Closed ==> new == app,
        app.modal == (ModalView::TargetVersion { name, version }) ==> {
            &&& new.modal matches ModalView::TargetVersion { name: of, version: line } && of == name
                && line.chars == version.chars.take(version.at) + text + version.chars.skip(
                version.at,
            ) && line.at == version.at + text.len()
            &&& new.effects == app.effects
        },
        app.modal == (ModalView::GithubApiKey { api_key: version }) ==> (new.modal matches
            ModalView::GithubApiKey { api_key: line } && line.chars == version.chars.take(
            version.at,
        ) + text + version.chars.skip(version.at)),
{
}

/// Text that is pasted into the editor goes in at the cursor, with its line breaks as
/// line feeds.
pub proof fn law_pasted_text_goes_into_the_editor(
    app: AppView,
    new: AppView,
    text: Seq<char>,
    editor: TomlEditor,
)
    requires
        app.pasted(new, text),
        app.modal == (ModalView::TomlEditor { editor }),
        editor.selection_anchor is None,
        text.len() > 0,
    ensures
        new.modal matches ModalView::TomlEditor { editor: after } && after.text@
            == editor.text@.take(editor.body().at) + unix_newlines(text) + editor.text@.skip(
            editor.body().at,
        ),
        new.effects == app.effects,
{
}

} // verus!
