//! What holds of the keys and the mouse in the views: where they lead, and what they
//! unfold, scroll and select.

use crate::command_line::{
    arguments_of, command_words, law_editable_command_round_trip, mixes_quotes,
};
use crate::tui::app::AppView;
use crate::tui::arguments::uninstall_words;
use crate::tui::doctor::Doctor;
use crate::tui::editor::TomlEditor;
use crate::tui::events::AppEvent;
use crate::tui::form::{CommandFormMode, CommandFormView};
use crate::tui::geometry::target_at;
use crate::tui::highlight::token_style;
use crate::tui::jobs::Jobs;
use crate::tui::keys::{Key, KeyCode, Mouse, MouseKind};
use crate::tui::labels::{Tab, ToolKind};
use crate::tui::list_keys::paged;
use crate::tui::modal::{EffectView, ModalInputHitbox, ModalView, ReloadPurpose};
use crate::tui::modal_mouse::hit_at;
use crate::tui::style::Color;
use crate::tui::tools::{Tools, next_probe};
use vstd::prelude::*;
use vstd::string::*;

verus! {

/// The events of a run are taken one after the other, none is left out and none is
/// taken twice.
#[verifier::spinoff_prover]
#[verifier::rlimit(60)]
pub proof fn law_events_are_taken_in_order(app: AppView, a: Seq<AppEvent>, b: Seq<AppEvent>)
    ensures
        app.after_events(a + b) == app.after_events(a).after_events(b),
        app.after_events(Seq::empty()) == app,
    decreases a.len(),
{
    if a.len() == 0 {
        assert(a + b =~= b);
    } else {
        assert((a + b).drop_first() =~= a.drop_first() + b);
        assert((a + b)[0] == a[0]);
        law_events_are_taken_in_order(app.after_event(a[0]), a.drop_first(), b);
    }
}

/// The arrows lead from tab to tab and change nothing else but what is said; R has
/// everything loaded anew.
pub proof fn law_arrows_lead_from_tab_to_tab(app: AppView, key: Key)
    ensures
        ({
            let after = app.normal_pressed(key);
            let right = key.code == KeyCode::Right;
            let left = key.code == KeyCode::Left;
            &&& right && app.tab == Tab::Tools ==> after.tab == Tab::Activity
            &&& right && app.tab == Tab::Activity ==> after.tab == Tab::Jobs
            &&& right && app.tab == Tab::Jobs ==> after.tab == Tab::Doctor
            &&& right && app.tab == Tab::Doctor ==> after.tab == Tab::Settings
            &&& right && app.tab == Tab::Settings ==> after.tab == Tab::Tools
            &&& left && app.tab == Tab::Activity ==> after.tab == Tab::Tools
            &&& left && app.tab == Tab::Jobs ==> after.tab == Tab::Activity
            &&& left && app.tab == Tab::Doctor ==> after.tab == Tab::Jobs
            &&& left && app.tab == Tab::Settings ==> after.tab == Tab::Doctor
            &&& left && app.tab == Tab::Tools ==> after.tab == Tab::Settings
            &&& right || left ==> after == (AppView {
                tab: after.tab,
                message: after.message,
                ..app
            })
            &&& key.code == KeyCode::Char('r') || key.code == KeyCode::Char('R') ==> after
                == app.asked(EffectView::ReloadTools(ReloadPurpose::Refresh))
        }),
{
}

/// Enter reads the log of the job in focus, and folds it where it is unfolded; Y
/// copies what is selected of it and Esc lets go of the selection.
pub proof fn law_enter_unfolds_the_job_in_focus(app: AppView, key: Key)
    requires
        app.jobs.index < app.jobs.items.len(),
    ensures
        ({
            let job = app.jobs.items[app.jobs.index as int];
            let after = app.jobs_pressed(key);
            let open = app.jobs.expanded is Some && app.jobs.expanded->0@ == job.id@;
            &&& key.code == KeyCode::Enter && open ==> after.jobs.expanded is None && after.effects
                == app.effects && after.jobs.items == app.jobs.items
            &&& key.code == KeyCode::Enter && !open ==> after.effects == app.effects.push(
                EffectView::ReadJobLog { id: job.id@ },
            ) && after.jobs == app.jobs
            &&& (key.code == KeyCode::Char('y') || key.code == KeyCode::Char('Y'))
                && app.jobs.log_selection is Some ==> after.effects == app.effects.push(
                EffectView::CopyText { text: app.jobs.selected_text() },
            )
            &&& key.code == KeyCode::Esc ==> after.jobs.log_selection is None && after.jobs.log
                == app.jobs.log
        }),
{
}

/// Enter scans the installations where none were scanned, and unfolds the diagnosis in
/// focus where they were.
pub proof fn law_enter_scans_or_unfolds(app: AppView, key: Key)
    requires
        key.code == KeyCode::Enter,
    ensures
        !app.doctor.loading && app.doctor.checked_at is None && app.doctor.diagnoses.len() == 0
            ==> app.doctor_pressed(key).effects == app.effects.push(
            EffectView::LoadManifest { quiet: false },
        ),
        app.doctor.loading ==> app.doctor_pressed(key).effects == app.effects,
        !app.doctor.loading && (app.doctor.checked_at is Some || app.doctor.diagnoses.len() > 0)
            ==> app.doctor_pressed(key).effects == app.effects && app.doctor_pressed(key).doctor
            == app.doctor.toggled(app.hides()),
{
}

/// In the log, the arrows go row by row, Home to its begin and End to its end, and
/// never beyond.
pub proof fn law_the_log_is_scrolled_row_by_row(app: AppView, key: Key)
    requires
        app.activity_rendered_height > 0,
        0 <= app.activity.scroll < app.activity_rendered_height,
    ensures
        ({
            let last = app.activity_rendered_height - 1;
            let scroll = app.activity_pressed(key).activity.scroll;
            &&& 0 <= scroll <= last
            &&& key.code == KeyCode::Home ==> scroll == 0
            &&& key.code == KeyCode::End ==> scroll == last
            &&& key.code == KeyCode::Down && app.activity.scroll < last ==> scroll
                == app.activity.scroll + 1
            &&& key.code == KeyCode::Up && app.activity.scroll > 0 ==> scroll
                == app.activity.scroll - 1
            &&& app.activity_pressed(key).activity.lines == app.activity.lines
        }),
{
}

/// PageDown and PageUp undo each other where there is room for both.
pub proof fn law_pages_undo_each_other(scroll: usize)
    ensures
        paged(scroll, true) >= scroll,
        paged(scroll, false) <= scroll,
        paged(scroll, true) < usize::MAX ==> paged(paged(scroll, true) as usize, false) == scroll,
        paged(scroll, false) > 0 ==> paged(paged(scroll, false) as usize, true) == scroll,
        paged(scroll, true) == scroll ==> scroll == usize::MAX,
        paged(scroll, false) == scroll ==> scroll == 0,
{
}

/// Custom commands are edited one at a time while nothing runs, and built-in tools are
/// not edited.
pub proof fn law_only_custom_commands_are_edited(app: AppView, i: int)
    requires
        app.tools.focus() == Some(i),
    ensures
        ({
            let after = app.edit_requested();
            let tool = app.tools.items[i];
            let allowed = app.running == 0 && app.config_path is None && tool.kind
                == ToolKind::Custom;
            &&& allowed ==> after.effects == app.effects.push(
                EffectView::LoadCustomCommand { name: tool.name@ },
            )
            &&& !allowed ==> after.effects == app.effects
            &&& after.modal == app.modal && after.tools == app.tools
        }),
{
}

/// The form of a command that is edited begins with its name, names the command that
/// it replaces, and holds a line that reads as its words, where none of them holds both
/// kinds of quote.
pub proof fn law_edited_commands_are_shown(app: AppView, name: Seq<char>, words: Seq<Seq<char>>)
    requires
        words.len() > 0,
        forall|i: int| 0 <= i < words.len() ==> !mixes_quotes(#[trigger] words[i]),
    ensures
        app.edit_opened(name, words).modal is AddCommand,
        app.edit_opened(name, words).modal matches ModalView::AddCommand { form } ==> form.mode
            == CommandFormMode::Edit && form.original_name == Some(name) && form.name.chars == name
            && arguments_of(form.command.chars) == Some(words),
        app.edit_opened(name, words).effects == app.effects,
{
    law_editable_command_round_trip(words);
    assert(command_words(words[0], words.skip(1)) =~= words);
}

/// The mouse puts the focus where it points to in the list that is shown, and leaves
/// it where it points to no row.
pub proof fn law_the_mouse_moves_the_focus(app: AppView, column: u16, row: u16, i: usize)
    ensures
        app.tab == Tab::Jobs && target_at(app.hits.jobs@, column, row) == Some(i)
            ==> app.mouse_moved(column, row).jobs.index == i,
        app.tab == Tab::Jobs && target_at(app.hits.jobs@, column, row) is None
            ==> app.mouse_moved(column, row).jobs == app.jobs,
        app.tab == Tab::Doctor && target_at(app.hits.doctor@, column, row) == Some(i)
            ==> app.mouse_moved(column, row).doctor.index == i,
        app.tab == Tab::Doctor && target_at(app.hits.doctor@, column, row) is None
            ==> app.mouse_moved(column, row).doctor == app.doctor,
        app.tab == Tab::Settings && target_at(app.hits.settings@, column, row) == Some(i)
            ==> app.mouse_moved(column, row).settings_index == i,
        app.tab == Tab::Settings && target_at(app.hits.settings@, column, row) is None
            ==> app.mouse_moved(column, row).settings_index == app.settings_index,
        app.mouse_moved(column, row).effects == app.effects,
        app.mouse_moved(column, row).modal == app.modal,
{
}

/// A click does to a row what Enter does to the row in focus.
pub proof fn law_clicks_do_what_enter_does(app: AppView, column: u16, row: u16, enter: Key, i: usize)
    requires
        enter.code == KeyCode::Enter,
    ensures
        target_at(app.hits.jobs@, column, row) == Some(i) ==> app.jobs_clicked(column, row)
            == app.at_job(i).jobs_pressed(enter),
        target_at(app.hits.settings@, column, row) == Some(i) ==> app.settings_clicked(column, row)
            == app.at_setting(i).settings_pressed(enter),
        target_at(app.hits.doctor@, column, row) == Some(i) && !app.doctor.loading
            && !app.doctor.unscanned() ==> app.doctor_clicked(column, row) == app.at_diagnosis(
            i,
        ).doctor_pressed(enter),
        target_at(app.hits.settings@, column, row) is None ==> app.settings_clicked(column, row)
            == app,
        target_at(app.hits.doctor@, column, row) is None ==> app.doctor_clicked(column, row) == app,
{
}

/// A click on a line of the log unfolds what it begins, or folds it, and another click
/// undoes that.
pub proof fn law_clicks_unfold_executions(app: AppView, column: u16, row: u16, i: usize)
    requires
        target_at(app.hits.activity@, column, row) == Some(i),
    ensures
        ({
            let after = app.activity_clicked(column, row);
            &&& after.activity.expanded.contains(i as int) <==> !app.activity.expanded.contains(
                i as int,
            )
            &&& forall|k: int|
                k != i ==> (#[trigger] after.activity.expanded.contains(k)
                    <==> app.activity.expanded.contains(k))
            &&& after.activity.lines == app.activity.lines
            &&& after.activity_clicked(column, row).activity.expanded =~= app.activity.expanded
        }),
{
}

/// The wheel goes one row up or down, and not before the first one.
pub proof fn law_the_wheel_goes_row_by_row(app: AppView, column: u16, row: u16)
    requires
        app.tab == Tab::Activity,
        0 <= app.activity.scroll < usize::MAX,
    ensures
        app.mouse_wheeled(column, row, false).activity.scroll == app.activity.scroll + 1,
        app.activity.scroll > 0 ==> app.mouse_wheeled(column, row, true).activity.scroll
            == app.activity.scroll - 1,
        app.activity.scroll == 0 ==> app.mouse_wheeled(column, row, true).activity.scroll == 0,
{
}

/// A click into a line of a dialog puts the focus on its field and the cursor into it,
/// and selects nothing; dragging from there selects up to where the mouse is.
pub proof fn law_clicks_into_a_line_place_the_cursor(
    app: AppView,
    mouse: Mouse,
    form: CommandFormView,
    hit: ModalInputHitbox,
)
    requires
        app.modal == (ModalView::AddCommand { form }),
        hit_at(app.hits.modal_inputs@, mouse.column, mouse.row) == Some(hit),
        hit.field < 2,
    ensures
        ({
            let after = app.dialog_clicked(mouse);
            &&& after.modal is AddCommand
            &&& after.modal matches ModalView::AddCommand { form: new } ==> {
                &&& new.field == hit.field
                &&& new.name.chars == form.name.chars
                &&& new.command.chars == form.command.chars
                &&& hit.field == 0 ==> new.name.anchor is None && new.command == form.command
                &&& hit.field == 1 ==> new.command.anchor is None && new.name == form.name
            }
            &&& after.effects == app.effects
        }),
{
}

/// A click into the text of the editor places the cursor, dragging selects from there,
/// and neither changes the text.
pub proof fn law_the_mouse_does_not_change_the_text(app: AppView, editor: TomlEditor, mouse: Mouse)
    requires
        app.modal == (ModalView::TomlEditor { editor }),
    ensures
        ({
            let after = app.editor_moused(editor, mouse);
            &&& after.modal is TomlEditor
            &&& after.modal matches ModalView::TomlEditor { editor: new } ==> {
                &&& new.text == editor.text
                &&& new.undo_stack == editor.undo_stack
                &&& new.redo_stack == editor.redo_stack
                &&& new.dirty == editor.dirty
                &&& mouse.kind == MouseKind::LeftDown && new != editor ==> new.selection_anchor
                    is None && after.toml_editor_drag == Some(new.cursor)
                &&& mouse.kind == MouseKind::LeftDrag && new != editor ==> new.selection_anchor
                    is None || new.selection_anchor == app.toml_editor_drag
                &&& mouse.kind == MouseKind::ScrollUp || mouse.kind == MouseKind::ScrollDown
                    ==> new.cursor == editor.cursor && new.selection_anchor
                    == editor.selection_anchor
            }
            &&& mouse.kind == MouseKind::LeftUp && app.toml_editor_area is Some
                ==> after.toml_editor_drag is None
        }),
{
}

/// Strings, numbers, times, comments and keys are coloured each in their own way, and
/// what is no TOML stands out.
pub proof fn law_tokens_are_coloured_by_kind(kind: Seq<char>, is_key: bool)
    ensures
        kind == "STRING"@ ==> token_style(kind, false).fg == Some(Color::TomlString),
        kind == "MULTI_LINE_STRING"@ ==> token_style(kind, false).fg == Some(Color::TomlString),
        kind == "STRING_LITERAL"@ ==> token_style(kind, false).fg == Some(Color::TomlString),
        kind == "MULTI_LINE_STRING_LITERAL"@ ==> token_style(kind, false).fg == Some(
            Color::TomlString,
        ),
        kind == "INTEGER"@ ==> token_style(kind, is_key).fg == Some(Color::TomlNumber),
        kind == "FLOAT"@ ==> token_style(kind, is_key).fg == Some(Color::TomlNumber),
        kind == "BOOL"@ ==> token_style(kind, is_key).fg == Some(Color::TomlBoolean),
        kind == "DATE"@ ==> token_style(kind, is_key).fg == Some(Color::TomlDateTime),
        kind == "TIME"@ ==> token_style(kind, is_key).fg == Some(Color::TomlDateTime),
        kind == "COMMENT"@ ==> token_style(kind, is_key).italic,
        kind == "ERROR"@ ==> token_style(kind, is_key).fg == Some(Color::Error) && token_style(
            kind,
            is_key,
        ).underlined,
        kind == "COMMA"@ ==> token_style(kind, is_key).fg == Some(Color::Dim),
        kind == "EQ"@ ==> token_style(kind, is_key).fg == Some(Color::Dim),
        kind == "IDENT"@ ==> token_style(kind, true).bold,
        kind == "STRING"@ ==> token_style(kind, true).bold && !token_style(kind, false).bold,
        token_style(kind, is_key).bg == Some(Color::Surface),
{
    reveal_strlit("STRING");
    reveal_strlit("MULTI_LINE_STRING");
    reveal_strlit("STRING_LITERAL");
    reveal_strlit("MULTI_LINE_STRING_LITERAL");
    reveal_strlit("INTEGER");
    reveal_strlit("FLOAT");
    reveal_strlit("BOOL");
    reveal_strlit("DATE");
    reveal_strlit("TIME");
    reveal_strlit("COMMENT");
    reveal_strlit("ERROR");
    reveal_strlit("COMMA");
    reveal_strlit("EQ");
    reveal_strlit("IDENT");
    reveal_strlit("IDENT_WITH_GLOB");
    reveal_strlit("PERIOD");
    reveal_strlit("INTEGER_HEX");
    reveal_strlit("INTEGER_OCT");
    reveal_strlit("INTEGER_BIN");
    reveal_strlit("DATE_TIME_OFFSET");
    reveal_strlit("DATE_TIME_LOCAL");
    reveal_strlit("BRACKET_START");
    reveal_strlit("BRACKET_END");
    reveal_strlit("BRACE_START");
    reveal_strlit("BRACE_END");
    if kind == "STRING"@ {
        assert(kind.len() == 6 && kind[0] == 'S');
    } else if kind == "MULTI_LINE_STRING"@ {
        assert(kind.len() == 17 && kind[0] == 'M');
    } else if kind == "STRING_LITERAL"@ {
        assert(kind.len() == 14 && kind[0] == 'S');
    } else if kind == "MULTI_LINE_STRING_LITERAL"@ {
        assert(kind.len() == 25 && kind[0] == 'M');
    } else if kind == "INTEGER"@ {
        assert(kind.len() == 7 && kind[0] == 'I');
    } else if kind == "FLOAT"@ {
        assert(kind.len() == 5 && kind[0] == 'F');
    } else if kind == "BOOL"@ {
        assert(kind.len() == 4 && kind[0] == 'B');
    } else if kind == "DATE"@ {
        assert(kind.len() == 4 && kind[0] == 'D');
    } else if kind == "TIME"@ {
        assert(kind.len() == 4 && kind[0] == 'T');
    } else if kind == "COMMENT"@ {
        assert(kind.len() == 7 && kind[0] == 'C');
    } else if kind == "ERROR"@ {
        assert(kind.len() == 5 && kind[0] == 'E');
    } else if kind == "COMMA"@ {
        assert(kind.len() == 5 && kind[0] == 'C');
    } else if kind == "EQ"@ {
        assert(kind.len() == 2 && kind[0] == 'E');
    } else if kind == "IDENT"@ {
        assert(kind.len() == 5 && kind[0] == 'I');
    }
}

/// Probes are numbered so that no two in a row bear the same number, and none bears
/// zero.
pub proof fn law_probes_are_numbered(id: u64)
    ensures
        next_probe(id) != id,
        next_probe(id) > 0,
        id < u64::MAX ==> next_probe(id) == id + 1,
{
}

/// An uninstallation hands the policy and the configuration on to the command.
pub proof fn law_uninstalls_hand_their_options_on(name: Seq<char>, path: Seq<char>)
    ensures
        uninstall_words(name, None, false) == seq!["uninstall"@, "--background"@, "auto"@, name],
        uninstall_words(name, None, true) == seq![
            "uninstall"@,
            "--background"@,
            "auto"@,
            "--terminate-locking-processes"@,
            name,
        ],
        uninstall_words(name, Some(path), false) == seq![
            "uninstall"@,
            "--background"@,
            "auto"@,
            "--config"@,
            path,
            name,
        ],
        uninstall_words(name, Some(path), true) == seq![
            "uninstall"@,
            "--background"@,
            "auto"@,
            "--terminate-locking-processes"@,
            "--config"@,
            path,
            name,
        ],
{
    assert(uninstall_words(name, None, false) =~= seq![
        "uninstall"@,
        "--background"@,
        "auto"@,
        name,
    ]);
    assert(uninstall_words(name, None, true) =~= seq![
        "uninstall"@,
        "--background"@,
        "auto"@,
        "--terminate-locking-processes"@,
        name,
    ]);
}

} // verus!
