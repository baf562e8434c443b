//! What becomes of the input that the terminal reports.

use crate::text::push_char;
use crate::tui::app::{App, AppView};
use crate::tui::editor::TomlEditor;
use crate::tui::form::ProxyFormView;
use crate::tui::input::InputView;
use crate::tui::keys::{Input, Key, Mouse, is_ctrl_c, toml_editor_input_character, typed_char};
use crate::tui::list_keys::{handle_open_key, request_ctrl_c_quit};
use crate::tui::modal::{Modal, ModalView};
use crate::tui::modal_keys::{dialog_key, handle_modal_key};
use crate::tui::modal_mouse::{handle_modal_mouse, mouse_fits_modal};
use crate::tui::model::ProxyMode;
use crate::tui::mouse::handle_view_mouse;
use vstd::prelude::*;

verus! {

impl ModalView {
    /// The line of text that takes what is pasted.
    pub open spec fn paste_line(self) -> Option<InputView> {
        match self {
            ModalView::TargetVersion { version, .. } => Some(version),
            ModalView::GithubApiKey { api_key } => Some(api_key),
            ModalView::NetworkProxy { form } => if form.mode != ProxyMode::Explicit {
                None
            } else if form.field == 1 {
                Some(form.url)
            } else if form.field == 2 {
                Some(form.bypass)
            } else {
                None
            },
            ModalView::GithubMonitorForm { form } => form.input(form.field),
            ModalView::GithubPollInterval { seconds } => Some(seconds),
            _ => None,
        }
    }

    /// The dialog with another text in the line that takes what is pasted.
    pub open spec fn with_paste_line(self, input: InputView) -> ModalView {
        match self {
            ModalView::TargetVersion { name, .. } => ModalView::TargetVersion {
                name,
                version: input,
            },
            ModalView::GithubApiKey { .. } => ModalView::GithubApiKey { api_key: input },
            ModalView::NetworkProxy { form } => ModalView::NetworkProxy {
                form: if form.field == 1 {
                    ProxyFormView { url: input, ..form }
                } else {
                    ProxyFormView { bypass: input, ..form }
                },
            },
            ModalView::GithubMonitorForm { form } => ModalView::GithubMonitorForm {
                form: form.with_input(form.field, input),
            },
            ModalView::GithubPollInterval { .. } => ModalView::GithubPollInterval {
                seconds: input,
            },
            other => other,
        }
    }
}

impl AppView {
    pub open spec fn told_of_paste(self) -> AppView {
        self.told("Pasted terminal text"@, "已粘贴终端文本"@)
    }

    /// Whether `new` is the state after `text` was pasted into the terminal.
    pub open spec fn pasted(self, new: AppView, text: Seq<char>) -> bool {
        match self.modal {
            ModalView::TomlEditor { editor } => {
                &&& new.modal matches ModalView::TomlEditor { editor: after }
                &&& editor.inserted(after, text)
                &&& new == self.with_modal(new.modal).told_of_paste()
            },
            modal => match modal.paste_line() {
                Some(input) => new == self.with_modal(
                    modal.with_paste_line(input.typed(text)),
                ).told_of_paste(),
                None => new == self,
            },
        }
    }

    /// Whether `new` is the state after a key.
    pub open spec fn key_handled(self, new: AppView, key: Key) -> bool {
        match self.modal {
            ModalView::Closed => new == self.key_pressed(key),
            ModalView::TomlEditor { editor } => self.editor_pressed(new, editor, key),
            _ => new == self.dialog_pressed(dialog_key(key)),
        }
    }

    /// The state after the mouse did something.
    pub open spec fn mouse_handled(self, mouse: Mouse) -> AppView {
        if self.modal is Closed {
            self.mouse_used(mouse)
        } else {
            self.modal_moused(mouse)
        }
    }

    /// The state after the size of the terminal has changed.
    pub open spec fn resized(self) -> AppView {
        match self.modal {
            ModalView::TomlEditor { editor } => self.with_modal(
                ModalView::TomlEditor { editor: TomlEditor { follow_cursor: true, ..editor } },
            ),
            _ => self,
        }
    }

    /// The state after an input while the tools are being loaded.
    pub open spec fn waited(self, input: Input) -> AppView {
        match input {
            Input::Key(key) => if key.released {
                self
            } else if key.ctrl_c() {
                self.quit_requested()
            } else {
                AppView { ctrl_c_armed: false, ..self }
            },
            _ => self,
        }
    }

    /// Whether `new` is the state after an input.
    pub open spec fn dispatched(self, new: AppView, input: Input) -> bool {
        if self.initial_load is Some {
            new == self.waited(input)
        } else {
            match input {
                Input::Key(key) => if key.released {
                    new == self
                } else {
                    self.key_handled(new, key)
                },
                Input::Paste(text) => self.pasted(new, text@),
                Input::Mouse(mouse) => new == self.mouse_handled(mouse),
                Input::Resize => new == self.resized(),
                Input::Other => new == self,
            }
        }
    }

    /// Whether what was drawn last still fits an input.
    pub open spec fn input_fits(self, input: Input) -> bool {
        input matches Input::Mouse(mouse) ==> self.initial_load is Some || self.modal is Closed
            || self.modal_mouse_fits(mouse)
    }

    /// Whether `new` is the state after text that was typed into the TOML
    /// editor, and not put into it yet, is put into it.
    pub open spec fn flushed(self, new: AppView, pending: Seq<char>) -> bool {
        match self.modal {
            ModalView::TomlEditor { editor } => {
                &&& new.modal matches ModalView::TomlEditor { editor: after }
                &&& editor.inserted(after, pending)
                &&& new == self.with_modal(new.modal)
            },
            _ => new == self,
        }
    }

    /// Whether an input is text for the TOML editor: it types a character, and
    /// the editor is in a mode that puts characters into the text.
    pub open spec fn queues(self, input: Input) -> bool {
        &&& self.modal matches ModalView::TomlEditor { editor }
        &&& editor.mode.takes_text()
        &&& typed_char(input) is Some
    }
}

impl AppView {
    /// Whether `new` is the state after an input out of a batch, with `pending`
    /// typed before it and not put into the TOML editor yet, and `rest` behind it.
    /// Text for the editor is kept back; before anything else is done, what was
    /// kept back is put into the editor at once.
    pub open spec fn taken(
        self,
        pending: Seq<char>,
        input: Input,
        new: AppView,
        rest: Seq<char>,
    ) -> bool {
        if lets_go(input) {
            new == self && rest == pending
        } else if self.queues(input) {
            new == self && rest == pending.push(typed_char(input)->0)
        } else {
            &&& rest == Seq::<char>::empty()
            &&& exists|between: AppView| #[trigger]
                self.flushed(between, pending) && between.dispatched(new, input)
        }
    }
}

/// Whether an input is a key that was let go.
pub open spec fn lets_go(input: Input) -> bool {
    input matches Input::Key(key) && key.released
}

impl Modal {
    /// Puts `text` into the line of text that takes it; tells whether there is
    /// one.
    fn paste(&mut self, text: &str) -> (r: bool)
        requires
            old(self).wf(),
            !(old(self)@ is TomlEditor),
        ensures
            final(self).wf(),
            r == (old(self)@.paste_line() is Some),
            final(self)@ == match old(self)@.paste_line() {
                Some(input) => old(self)@.with_paste_line(input.typed(text@)),
                None => old(self)@,
            },
    {
        match self {
            Modal::TargetVersion { version, .. } => {
                version.insert_text(text);
                true
            },
            Modal::GithubApiKey { api_key } => {
                api_key.insert_text(text);
                true
            },
            Modal::NetworkProxy { form } => {
                if form.proxy_mode != ProxyMode::Explicit {
                    false
                } else if form.field == 1 {
                    form.proxy_url.insert_text(text);
                    true
                } else if form.field == 2 {
                    form.no_proxy.insert_text(text);
                    true
                } else {
                    false
                }
            },
            Modal::GithubMonitorForm { form } => form.paste(text),
            Modal::GithubPollInterval { seconds } => {
                seconds.insert_text(text);
                true
            },
            _ => false,
        }
    }
}

/// Handles text that was pasted into the terminal.
pub fn handle_paste(app: &mut App, text: &str)
    requires
        old(app).wf(),
    ensures
        final(app).wf(),
        old(app)@.pasted(final(app)@, text@),
{
    let ghost before = app@;
    let taken = if let Modal::TomlEditor { editor } = &mut app.modal {
        editor.insert_text(text);
        true
    } else {
        app.modal.paste(text)
    };
    if taken {
        app.tell("Pasted terminal text", "已粘贴终端文本");
    }
}

/// Handles a key.
pub fn handle_key(app: &mut App, key: Key)
    requires
        old(app).wf(),
    ensures
        final(app).wf(),
        old(app)@.key_handled(final(app)@, key),
{
    if app.modal.is_open() {
        handle_modal_key(app, key);
    } else {
        handle_open_key(app, key);
    }
}

/// Handles what the mouse did.
pub fn handle_mouse(app: &mut App, mouse: Mouse)
    requires
        old(app).wf(),
        old(app).modal is Closed || old(app)@.modal_mouse_fits(mouse),
    ensures
        final(app).wf(),
        final(app)@ == old(app)@.mouse_handled(mouse),
{
    if app.modal.is_open() {
        handle_modal_mouse(app, mouse);
    } else {
        handle_view_mouse(app, mouse);
    }
}

fn handle_input_while_loading(app: &mut App, input: Input)
    requires
        old(app).wf(),
    ensures
        final(app).wf(),
        final(app)@ == old(app)@.waited(input),
{
    if let Input::Key(key) = input {
        if !key.released {
            if is_ctrl_c(&key) {
                request_ctrl_c_quit(app);
            } else {
                app.ctrl_c_armed = false;
            }
        }
    }
}

fn handle_resize(app: &mut App)
    requires
        old(app).wf(),
    ensures
        final(app).wf(),
        final(app)@ == old(app)@.resized(),
{
    if let Modal::TomlEditor { editor } = &mut app.modal {
        editor.follow_cursor = true;
    }
}

/// Hands an input to what handles it.
pub fn dispatch_event(app: &mut App, input: Input)
    requires
        old(app).wf(),
        old(app)@.input_fits(input),
    ensures
        final(app).wf(),
        old(app)@.dispatched(final(app)@, input),
{
    if app.initial_load.is_some() {
        handle_input_while_loading(app, input);
        return;
    }
    match input {
        Input::Key(key) => {
            if !key.released {
                handle_key(app, key);
            }
        },
        Input::Paste(text) => handle_paste(app, text.as_str()),
        Input::Mouse(mouse) => handle_mouse(app, mouse),
        Input::Resize => handle_resize(app),
        Input::Other => {},
    }
}

/// Puts the text that was typed into the TOML editor, and not put into it yet,
/// into it at once.
pub fn flush_toml_editor_input(app: &mut App, pending: &mut String)
    requires
        old(app).wf(),
    ensures
        final(app).wf(),
        final(pending)@.len() == 0,
        old(app)@.flushed(final(app)@, old(pending)@),
{
    if let Modal::TomlEditor { editor } = &mut app.modal {
        editor.insert_text(pending.as_str());
    }
    *pending = String::new();
}

/// Whether what was drawn last still fits an input; where it does not, the
/// positions that the input would lead to are not between characters.
pub fn event_fits(app: &App, input: &Input) -> (r: bool)
    requires
        app.wf(),
    ensures
        r == app@.input_fits(*input),
{
    match input {
        Input::Mouse(mouse) => app.initial_load.is_some() || !app.modal.is_open()
            || mouse_fits_modal(app, *mouse),
        _ => true,
    }
}

/// Takes one of several inputs that came together. Text for the TOML editor is
/// added to `pending`. Any other input first has `pending` put into the editor,
/// with `flush_toml_editor_input`, and then goes to `dispatch_event`: it is
/// handed back.
pub fn queue_event(app: &App, pending: &mut String, input: Input) -> (r: Option<Input>)
    ensures
        r == (if lets_go(input) || app@.queues(input) {
            None::<Input>
        } else {
            Some(input)
        }),
        final(pending)@ == (if !lets_go(input) && app@.queues(input) {
            old(pending)@.push(typed_char(input)->0)
        } else {
            old(pending)@
        }),
{
    if let Input::Key(key) = &input {
        if key.released {
            return None;
        }
    }
    if let Modal::TomlEditor { editor } = &app.modal {
        if editor.mode.inserts_text() {
            if let Some(character) = toml_editor_input_character(&input) {
                push_char(pending, character);
                return None;
            }
        }
    }
    Some(input)
}

/// Takes the next input of a batch. What is kept back behind the last one is put
/// into the TOML editor by `flush_toml_editor_input`.
pub fn take_event(app: &mut App, pending: &mut String, input: Input)
    requires
        old(app).wf(),
        old(app)@.input_fits(input),
    ensures
        final(app).wf(),
        old(app)@.taken(old(pending)@, input, final(app)@, final(pending)@),
{
    let ghost before = app@;
    let ghost typed = pending@;
    if let Some(next) = queue_event(&*app, pending, input) {
        flush_toml_editor_input(app, pending);
        let ghost between = app@;
        assert(before.flushed(between, typed));
        assert(pending@ =~= Seq::<char>::empty());
        dispatch_event(app, next);
        assert(between.dispatched(app@, input));
    }
}

/// What the mouse does in a dialog stays in the dialog: nothing of the view
/// under it changes.
pub proof fn law_mouse_stays_in_the_dialog(app: AppView, mouse: Mouse)
    requires
        !(app.modal is Closed),
    ensures
        ({
            let after = app.mouse_handled(mouse);
            after == AppView {
                modal: after.modal,
                modal_drag: after.modal_drag,
                toml_editor_drag: after.toml_editor_drag,
                ..app
            }
        }),
{
}

/// While the tools are being loaded nothing but Control with C, pressed twice,
/// has an effect.
pub proof fn law_loading_takes_no_input(app: AppView, new: AppView, input: Input)
    requires
        app.initial_load is Some,
        app.dispatched(new, input),
    ensures
        new == (AppView {
            ctrl_c_armed: new.ctrl_c_armed,
            should_quit: new.should_quit,
            message: new.message,
            ..app
        }),
        new.should_quit ==> app.should_quit || app.ctrl_c_armed && (input matches Input::Key(key)
            && key.ctrl_c()),
{
}

/// A key that is let go has no effect.
pub proof fn law_released_keys_have_no_effect(app: AppView, new: AppView, key: Key)
    requires
        key.released,
        app.dispatched(new, Input::Key(key)),
    ensures
        new == app,
{
}

} // verus!
