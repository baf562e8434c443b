//! What the keys do in the view of the tools.

use crate::search::texts;
use crate::text::join2;
use crate::tui::app::{App, AppView};
use crate::tui::arguments::{join_names, joined};
use crate::tui::form::{CommandForm, CommandFormMode, CommandFormView, MonitorFormMode};
use crate::tui::geometry::{before, behind, next_index, previous_index};
use crate::tui::github::{Github, GithubView, split_releases};
use crate::tui::input::{InputView, TextInput};
use crate::tui::keys::{Key, KeyCode};
use crate::tui::labels::{Availability, Tab, ToolKind, ToolView};
use crate::tui::modal::{EffectView, Modal, ModalView};
use crate::tui::model::ToolItem;
use crate::tui::tools::{ToolsView, law_updates_are_split, split_names};
use vstd::prelude::*;
use vstd::string::*;

verus! {

impl AppView {
    pub open spec fn asked_to_wait(self) -> AppView {
        self.told("Wait for the current operation to finish"@, "请等待当前操作完成"@)
    }

    pub open spec fn asked_to_select(self) -> AppView {
        self.told("Select an installed tool first"@, "请先选择一个已安装的工具"@)
    }

    pub open spec fn editing_refused(self) -> AppView {
        self.told(
            "GitHub repository editing is disabled with --config"@,
            "使用 --config 时不能编辑 GitHub 仓库"@,
        )
    }

    /// The state with the focus on another row of the tools.
    pub open spec fn at_tool(self, index: int) -> AppView {
        AppView { tools: ToolsView { index: index as usize, ..self.tools }, ..self }
    }

    /// The state with the focus on another repository.
    pub open spec fn at_monitor(self, index: int) -> AppView {
        AppView { github: GithubView { index: index as usize, ..self.github }, ..self }
    }

    /// The state with the tool in a row selected, or taken out of the selection.
    pub open spec fn tool_toggled(self, index: int) -> AppView {
        if index >= self.tools.visible.len() {
            self
        } else {
            let i = self.tools.visible[index] as int;
            let tool = self.tools.items[i];
            if tool.availability == Availability::Installed {
                AppView {
                    tools: self.tools.with_item(i, ToolItem { selected: !tool.selected, ..tool }),
                    ..self
                }
            } else {
                self.said(
                    tool.name@ + self.language.pick(" is not available"@, " 当前不可用"@),
                )
            }
        }
    }

    /// The state after updates are asked for.
    pub open spec fn updates_requested(self) -> AppView {
        let requested = self.tools.wanted();
        let tools = split_names(self.tools.items, requested, false);
        let current = split_names(self.tools.items, requested, true);
        if self.running > 0 {
            self.asked_to_wait()
        } else if requested.len() == 0 {
            self.asked_to_select()
        } else if tools.len() == 0 {
            AppView { tools: self.tools.marked(current), ..self }.said(
                self.language.pick("Already at the latest version: "@, "已是最新版本："@)
                    + joined(current, self.language.pick(", "@, "，"@)),
            )
        } else {
            self.with_modal(
                ModalView::ConfirmUpdate { tools, target_version: None, current_tools: current },
            )
        }
    }

    /// The state after an update of the tool in focus to some version is asked
    /// for.
    pub open spec fn version_requested(self) -> AppView {
        if self.running > 0 {
            self.asked_to_wait()
        } else {
            match self.tools.focus() {
                None => self.asked_to_select(),
                Some(i) => {
                    let tool = self.tools.items[i];
                    if tool.availability != Availability::Installed {
                        self.asked_to_select()
                    } else if !tool.supports_target_version {
                        self.said(
                            tool.name@ + self.language.pick(
                                " does not define an arbitrary-version update command"@,
                                " 未配置指定版本更新命令"@,
                            ),
                        )
                    } else {
                        self.with_modal(
                            ModalView::TargetVersion {
                                name: tool.name@,
                                version: InputView::fresh(Seq::empty()),
                            },
                        )
                    }
                },
            }
        }
    }

    /// The state after a new custom command is asked for.
    pub open spec fn command_requested(self) -> AppView {
        if self.running > 0 {
            self.asked_to_wait()
        } else if self.config_path is Some {
            self.told(
                "Custom commands are disabled with --config"@,
                "使用 --config 时不能添加自定义命令"@,
            )
        } else {
            self.with_modal(
                ModalView::AddCommand {
                    form: CommandFormView {
                        mode: CommandFormMode::Add,
                        original_name: None,
                        field: 0,
                        name: InputView::fresh(Seq::empty()),
                        command: InputView::fresh(Seq::empty()),
                    },
                },
            )
        }
    }

    /// The state after the deletion of the tool in focus is asked for.
    pub open spec fn deletion_requested(self) -> AppView {
        if self.running > 0 {
            self.asked_to_wait()
        } else if self.config_path is Some {
            self.told(
                "Delete custom tools from the explicit TOML editor (t)"@,
                "请在显式 TOML 编辑器（t）中删除自定义工具"@,
            )
        } else {
            match self.tools.focus() {
                None => self,
                Some(i) => match self.tools.items[i].kind {
                    ToolKind::Custom => self.with_modal(
                        ModalView::ConfirmDelete { name: self.tools.items[i].name@ },
                    ),
                    ToolKind::BuiltIn => self.told(
                        "Built-in tools cannot be deleted"@,
                        "不能删除内置工具"@,
                    ),
                },
            }
        }
    }

    /// The state after uninstalling the tool in focus is asked for: a dialog asks
    /// whether to, where the tool is there and can be uninstalled.
    pub open spec fn uninstall_requested(self) -> AppView {
        if self.running > 0 {
            self.asked_to_wait()
        } else {
            match self.tools.focus() {
                None => self.asked_to_select(),
                Some(i) => {
                    let tool = self.tools.items[i];
                    if tool.availability != Availability::Installed {
                        self.asked_to_select()
                    } else {
                        match tool.uninstall {
                            None => self.said(
                                tool.name@ + self.language.pick(
                                    " has no uninstall command; add an uninstall field to its declaration (t)"@,
                                    " 未声明反安装命令；请在声明中补充 uninstall 字段（t）"@,
                                ),
                            ),
                            Some(uninstall) => self.with_modal(
                                ModalView::ConfirmUninstall {
                                    name: tool.name@,
                                    command: uninstall.text@,
                                    derived: uninstall.derived,
                                },
                            ),
                        }
                    }
                },
            }
        }
    }

    /// The state after a key in the list of the tools.
    pub open spec fn commands_pressed(self, key: Key) -> AppView {
        if key.goes_up() {
            self.at_tool(before(self.tools.index as int, self.tools.visible.len() as int))
        } else if key.goes_down() {
            self.at_tool(behind(self.tools.index as int, self.tools.visible.len() as int))
        } else if key.code == KeyCode::Char(' ') {
            self.tool_toggled(self.tools.index as int)
        } else if key.is_letter('a', 'A') {
            AppView { tools: self.tools.toggled_all(), ..self }
        } else if key.code == KeyCode::Enter {
            self.updates_requested()
        } else if key.is_letter('v', 'V') {
            self.version_requested()
        } else if key.is_letter('c', 'C') {
            self.command_requested()
        } else if key.is_letter('e', 'E') {
            self.edit_requested()
        } else if key.is_letter('t', 'T') {
            self.toml_requested(EffectView::OpenToml)
        } else if key.is_letter('o', 'O') {
            self.toml_requested(EffectView::OpenSystemEditor)
        } else if key.is_letter('d', 'D') {
            self.deletion_requested()
        } else if key.is_letter('u', 'U') {
            self.uninstall_requested()
        } else {
            self
        }
    }

    /// The state with the repository in focus selected, or not.
    pub open spec fn monitor_toggled(self) -> AppView {
        if self.github.index >= self.github.monitors.len() {
            self
        } else {
            let monitor = self.github.monitors[self.github.index as int];
            if monitor.enabled {
                AppView { github: self.github.toggled(monitor.name@), ..self }
            } else {
                self.said(
                    monitor.name@ + self.language.pick(
                        " is disabled; edit it before selecting"@,
                        " 已停用；请先编辑并启用"@,
                    ),
                )
            }
        }
    }

    /// The state after the installation of the selected releases is asked for.
    pub open spec fn installs_requested(self) -> AppView {
        let requested = self.github.requested();
        let wanted = split_releases(self.github.statuses, requested, false);
        let current = split_releases(self.github.statuses, requested, true);
        if requested.len() == 0 {
            self.told(
                "Select an enabled GitHub repository first"@,
                "请先选择已启用的 GitHub 仓库"@,
            )
        } else if wanted.len() == 0 {
            self.said(
                self.language.pick(
                    "Already at the latest GitHub Release: "@,
                    "GitHub Release 已是最新："@,
                ) + joined(current, self.language.pick(", "@, "，"@)),
            )
        } else {
            self.with_modal(ModalView::ConfirmGithubMonitorUpdate { monitors: wanted })
        }
    }

    /// The state after a new repository is asked for.
    pub open spec fn monitor_requested(self) -> AppView {
        if self.config_path is Some {
            self.editing_refused()
        } else {
            self.monitor_form_opened(MonitorFormMode::Add, None)
        }
    }

    /// The state after a change of the repository in focus is asked for.
    pub open spec fn monitor_change_requested(self) -> AppView {
        if self.config_path is Some {
            self.editing_refused()
        } else if self.github.monitors.len() > 0 {
            self.monitor_form_opened(MonitorFormMode::Edit, Some(self.github.index))
        } else {
            self
        }
    }

    /// The state after the deletion of the repository in focus is asked for.
    pub open spec fn monitor_deletion_requested(self) -> AppView {
        if self.github.monitors.len() == 0 {
            self
        } else if self.config_path is Some {
            self.editing_refused()
        } else {
            self.with_modal(ModalView::ConfirmDeleteGithubMonitor { index: self.github.index })
        }
    }

    /// The state after a key in the list of the repositories.
    pub open spec fn github_pressed(self, key: Key) -> AppView {
        if key.goes_up() {
            self.at_monitor(before(self.github.index as int, self.github.monitors.len() as int))
        } else if key.goes_down() {
            self.at_monitor(behind(self.github.index as int, self.github.monitors.len() as int))
        } else if key.code == KeyCode::Char(' ') {
            self.monitor_toggled()
        } else if key.code == KeyCode::Enter {
            self.installs_requested()
        } else if key.is_letter('a', 'A') {
            AppView { github: self.github.toggled_all(), ..self }
        } else if key.is_letter('c', 'C') {
            self.monitor_requested()
        } else if key.is_letter('e', 'E') {
            self.monitor_change_requested()
        } else if key.is_letter('t', 'T') {
            self.toml_requested(EffectView::OpenToml)
        } else if key.is_letter('o', 'O') {
            self.toml_requested(EffectView::OpenSystemEditor)
        } else if key.is_letter('d', 'D') {
            self.monitor_deletion_requested()
        } else if key.is_letter('r', 'R') {
            self.releases_asked(true)
        } else {
            self
        }
    }

    /// The state after a key in the view of the tools.
    pub open spec fn tools_pressed(self, key: Key) -> AppView {
        if key.code == KeyCode::Tab {
            self.view_selected(self.tools.view.other())
        } else {
            match self.tools.view {
                ToolView::Commands => self.commands_pressed(key),
                ToolView::Github => self.github_pressed(key),
            }
        }
    }
}

impl App {
    /// Says something of a tool or a repository.
    fn say_of(&mut self, name: &str, english: &'static str, chinese: &'static str)
        requires
            old(self).wf(),
        ensures
            final(self).wf(),
            final(self)@ == old(self)@.said(
                name@ + old(self).language.pick(english@, chinese@),
            ),
    {
        self.message = join2(name, self.language.text(english, chinese));
    }

    fn ask_to_wait(&mut self)
        requires
            old(self).wf(),
        ensures
            final(self).wf(),
            final(self)@ == old(self)@.asked_to_wait(),
    {
        self.tell("Wait for the current operation to finish", "请等待当前操作完成");
    }

    fn ask_to_select(&mut self)
        requires
            old(self).wf(),
        ensures
            final(self).wf(),
            final(self)@ == old(self)@.asked_to_select(),
    {
        self.tell("Select an installed tool first", "请先选择一个已安装的工具");
    }

    fn refuse_editing(&mut self)
        requires
            old(self).wf(),
        ensures
            final(self).wf(),
            final(self)@ == old(self)@.editing_refused(),
    {
        self.tell(
            "GitHub repository editing is disabled with --config",
            "使用 --config 时不能编辑 GitHub 仓库",
        );
    }

    fn focus_row(&mut self, index: usize)
        requires
            old(self).wf(),
        ensures
            final(self).wf(),
            final(self)@ == old(self)@.at_tool(index as int),
    {
        self.tools.index = index;
    }

    fn focus_monitor(&mut self, index: usize)
        requires
            old(self).wf(),
        ensures
            final(self).wf(),
            final(self)@ == old(self)@.at_monitor(index as int),
    {
        self.github.index = index;
    }

    fn toggle_every_tool(&mut self)
        requires
            old(self).wf(),
        ensures
            final(self).wf(),
            final(self)@ == (AppView { tools: old(self)@.tools.toggled_all(), ..old(self)@ }),
    {
        self.tools.toggle_all();
    }

    fn toggle_every_monitor(&mut self)
        requires
            old(self).wf(),
        ensures
            final(self).wf(),
            final(self)@ == (AppView { github: old(self)@.github.toggled_all(), ..old(self)@ }),
    {
        self.github.toggle_all();
    }

    /// Says that everything that was asked for is current.
    fn say_current(&mut self, english: &'static str, chinese: &'static str, names: &Vec<String>)
        requires
            old(self).wf(),
        ensures
            final(self).wf(),
            final(self)@ == old(self)@.said(
                old(self).language.pick(english@, chinese@) + joined(
                    texts(names@),
                    old(self).language.pick(", "@, "，"@),
                ),
            ),
    {
        let list = join_names(names, self.language.text(", ", "，"));
        self.tell_with(english, chinese, list.as_str());
    }

    fn request_updates(&mut self)
        requires
            old(self).wf(),
        ensures
            final(self).wf(),
            final(self)@ == old(self)@.updates_requested(),
    {
        if self.running > 0 {
            self.ask_to_wait();
            return;
        }
        let requested = self.tools.selected_for_update();
        if requested.len() == 0 {
            self.ask_to_select();
            return;
        }
        let (tools, current_tools) = self.tools.partition_latest_updates(&requested);
        proof {
            law_updates_are_split(self.tools.items@, texts(requested@), Seq::empty());
        }
        if tools.len() == 0 {
            self.tools.mark_tools_up_to_date(&current_tools);
            self.say_current("Already at the latest version: ", "已是最新版本：", &current_tools);
        } else {
            self.modal = Modal::ConfirmUpdate { tools, target_version: None, current_tools };
        }
    }

    fn request_version(&mut self)
        requires
            old(self).wf(),
        ensures
            final(self).wf(),
            final(self)@ == old(self)@.version_requested(),
    {
        if self.running > 0 {
            self.ask_to_wait();
            return;
        }
        match self.tools.focused_tool_index() {
            None => self.ask_to_select(),
            Some(i) => {
                if self.tools.items[i].availability != Availability::Installed {
                    self.ask_to_select();
                } else {
                    let name = self.tools.items[i].name.clone();
                    if self.tools.items[i].supports_target_version {
                        let version = TextInput::new("");
                        proof {
                            reveal_strlit("");
                            assert(""@ =~= Seq::<char>::empty());
                        }
                        self.modal = Modal::TargetVersion { name, version };
                    } else {
                        self.say_of(
                            name.as_str(),
                            " does not define an arbitrary-version update command",
                            " 未配置指定版本更新命令",
                        );
                    }
                }
            },
        }
    }

    fn request_command(&mut self)
        requires
            old(self).wf(),
        ensures
            final(self).wf(),
            final(self)@ == old(self)@.command_requested(),
    {
        if self.running > 0 {
            self.ask_to_wait();
        } else if self.config_path.is_some() {
            self.tell(
                "Custom commands are disabled with --config",
                "使用 --config 时不能添加自定义命令",
            );
        } else {
            let name = TextInput::new("");
            let command = TextInput::new("");
            proof {
                reveal_strlit("");
                assert(""@ =~= Seq::<char>::empty());
            }
            self.modal = Modal::AddCommand {
                form: CommandForm {
                    mode: CommandFormMode::Add,
                    original_name: None,
                    field: 0,
                    name,
                    command,
                },
            };
        }
    }

    fn request_deletion(&mut self)
        requires
            old(self).wf(),
        ensures
            final(self).wf(),
            final(self)@ == old(self)@.deletion_requested(),
    {
        if self.running > 0 {
            self.ask_to_wait();
            return;
        }
        if self.config_path.is_some() {
            self.tell(
                "Delete custom tools from the explicit TOML editor (t)",
                "请在显式 TOML 编辑器（t）中删除自定义工具",
            );
            return;
        }
        if let Some(i) = self.tools.focused_tool_index() {
            match self.tools.items[i].kind {
                ToolKind::Custom => {
                    let name = self.tools.items[i].name.clone();
                    self.modal = Modal::ConfirmDelete { name };
                },
                ToolKind::BuiltIn => {
                    self.tell("Built-in tools cannot be deleted", "不能删除内置工具");
                },
            }
        }
    }

    fn request_uninstall(&mut self)
        requires
            old(self).wf(),
        ensures
            final(self).wf(),
            final(self)@ == old(self)@.uninstall_requested(),
    {
        if self.running > 0 {
            self.ask_to_wait();
            return;
        }
        match self.tools.focused_tool_index() {
            None => self.ask_to_select(),
            Some(i) => {
                if self.tools.items[i].availability != Availability::Installed {
                    self.ask_to_select();
                } else {
                    let name = self.tools.items[i].name.clone();
                    let found = match &self.tools.items[i].uninstall {
                        Some(uninstall) => Some((uninstall.text.clone(), uninstall.derived)),
                        None => None,
                    };
                    match found {
                        Some((command, derived)) => {
                            self.modal = Modal::ConfirmUninstall { name, command, derived };
                        },
                        None => {
                            self.say_of(
                                name.as_str(),
                                " has no uninstall command; add an uninstall field to its declaration (t)",
                                " 未声明反安装命令；请在声明中补充 uninstall 字段（t）",
                            );
                        },
                    }
                }
            },
        }
    }

    fn toggle_monitor(&mut self)
        requires
            old(self).wf(),
        ensures
            final(self).wf(),
            final(self)@ == old(self)@.monitor_toggled(),
    {
        if self.github.index < self.github.monitors.len() {
            let name = self.github.monitors[self.github.index].name.clone();
            if self.github.monitors[self.github.index].enabled {
                self.github.toggle(&name);
            } else {
                self.say_of(
                    name.as_str(),
                    " is disabled; edit it before selecting",
                    " 已停用；请先编辑并启用",
                );
            }
        }
    }

    fn request_installs(&mut self)
        requires
            old(self).wf(),
        ensures
            final(self).wf(),
            final(self)@ == old(self)@.installs_requested(),
    {
        let requested = self.github.requested();
        if requested.len() == 0 {
            self.tell(
                "Select an enabled GitHub repository first",
                "请先选择已启用的 GitHub 仓库",
            );
            return;
        }
        let (wanted, current) = self.github.partition_releases(&requested);
        if wanted.len() == 0 {
            self.say_current(
                "Already at the latest GitHub Release: ",
                "GitHub Release 已是最新：",
                &current,
            );
        } else {
            self.modal = Modal::ConfirmGithubMonitorUpdate { monitors: wanted };
        }
    }

    fn request_monitor(&mut self)
        requires
            old(self).wf(),
        ensures
            final(self).wf(),
            final(self)@ == old(self)@.monitor_requested(),
    {
        if self.config_path.is_some() {
            self.refuse_editing();
        } else {
            self.open_github_monitor_form(MonitorFormMode::Add, None);
        }
    }

    fn request_monitor_change(&mut self)
        requires
            old(self).wf(),
        ensures
            final(self).wf(),
            final(self)@ == old(self)@.monitor_change_requested(),
    {
        if self.config_path.is_some() {
            self.refuse_editing();
        } else if self.github.monitors.len() > 0 {
            let index = self.github.index;
            self.open_github_monitor_form(MonitorFormMode::Edit, Some(index));
        }
    }

    fn request_monitor_deletion(&mut self)
        requires
            old(self).wf(),
        ensures
            final(self).wf(),
            final(self)@ == old(self)@.monitor_deletion_requested(),
    {
        if self.github.monitors.len() == 0 {
            return;
        }
        if self.config_path.is_some() {
            self.refuse_editing();
        } else {
            self.modal = Modal::ConfirmDeleteGithubMonitor { index: self.github.index };
        }
    }
}

/// Selects the tool in a row, or takes it out of the selection.
pub fn toggle_tool_selection(app: &mut App, index: usize)
    requires
        old(app).wf(),
    ensures
        final(app).wf(),
        final(app)@ == old(app)@.tool_toggled(index as int),
{
    if index < app.tools.visible.len() {
        let ghost before = app.tools@;
        let i: usize = app.tools.visible[index];
        if app.tools.items[i].availability == Availability::Installed {
            let selected = app.tools.items[i].selected;
            let ghost tool = app.tools.items@[i as int];
            app.tools.items[i].selected = !selected;
            assert(app.tools.items@ =~= before.items.update(
                i as int,
                ToolItem { selected: !tool.selected, ..tool },
            ));
        } else {
            let name = app.tools.items[i].name.clone();
            app.say_of(name.as_str(), " is not available", " 当前不可用");
        }
    }
}

/// Handles a key in the list of the tools.
pub fn handle_command_tools_key(app: &mut App, key: Key)
    requires
        old(app).wf(),
    ensures
        final(app).wf(),
        final(app)@ == old(app)@.commands_pressed(key),
{
    if key.is_up() {
        let index = previous_index(app.tools.index, app.tools.visible.len());
        app.focus_row(index);
    } else if key.is_down() {
        let index = next_index(app.tools.index, app.tools.visible.len());
        app.focus_row(index);
    } else if key.code == KeyCode::Char(' ') {
        let index = app.tools.index;
        toggle_tool_selection(app, index);
    } else if key.letter('a', 'A') {
        app.toggle_every_tool();
    } else if key.code == KeyCode::Enter {
        app.request_updates();
    } else if key.letter('v', 'V') {
        app.request_version();
    } else if key.letter('c', 'C') {
        app.request_command();
    } else if key.letter('e', 'E') {
        app.open_edit_command();
    } else if key.letter('t', 'T') {
        app.open_toml_editor();
    } else if key.letter('o', 'O') {
        app.open_toml_in_system_editor();
    } else if key.letter('d', 'D') {
        app.request_deletion();
    } else if key.letter('u', 'U') {
        app.request_uninstall();
    }
}

/// Handles a key in the list of the repositories.
pub fn handle_github_tools_key(app: &mut App, key: Key)
    requires
        old(app).wf(),
    ensures
        final(app).wf(),
        final(app)@ == old(app)@.github_pressed(key),
{
    if key.is_up() {
        let index = previous_index(app.github.index, app.github.monitors.len());
        app.focus_monitor(index);
    } else if key.is_down() {
        let index = next_index(app.github.index, app.github.monitors.len());
        app.focus_monitor(index);
    } else if key.code == KeyCode::Char(' ') {
        app.toggle_monitor();
    } else if key.code == KeyCode::Enter {
        app.request_installs();
    } else if key.letter('a', 'A') {
        app.toggle_every_monitor();
    } else if key.letter('c', 'C') {
        app.request_monitor();
    } else if key.letter('e', 'E') {
        app.request_monitor_change();
    } else if key.letter('t', 'T') {
        app.open_toml_editor();
    } else if key.letter('o', 'O') {
        app.open_toml_in_system_editor();
    } else if key.letter('d', 'D') {
        app.request_monitor_deletion();
    } else if key.letter('r', 'R') {
        app.start_release_probe(true);
    }
}

/// Handles a key in the view of the tools.
pub fn handle_tools_key(app: &mut App, key: Key)
    requires
        old(app).wf(),
    ensures
        final(app).wf(),
        final(app)@ == old(app)@.tools_pressed(key),
{
    if key.code == KeyCode::Tab {
        let view = app.tools.view.toggle();
        app.select_tool_view(view);
    } else {
        match app.tools.view {
            ToolView::Commands => handle_command_tools_key(app, key),
            ToolView::Github => handle_github_tools_key(app, key),
        }
    }
}

} // verus!
