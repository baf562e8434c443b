//! What the interface does with tools: updating, adding, editing, deleting.

use crate::command_line::{
    all_quoted, arguments_of, command_words, format_editable_command, open_quote, spaced,
    split_command_line, unclosed_text,
};
use crate::language::Language;
use crate::number::{count_text, decimal_text};
use crate::search::texts;
use crate::text::{join2, join3, join4, join8, same};
use crate::tui::app::{App, AppView};
use crate::tui::arguments::{
    add_arguments, add_words, edit_arguments, edit_words, join_names, joined, remove_arguments,
    remove_words, uninstall_arguments, uninstall_words, update_arguments, update_words,
};
use crate::tui::editor::{TomlEditor, TomlEditorMode};
use crate::tui::form::{CommandForm, CommandFormMode, CommandFormView};
use crate::tui::input::{InputView, TextInput};
use crate::tui::labels::{Operation, ProcessStrategy, RunState, Tab, ToolKind};
use crate::tui::modal::{Effect, EffectView, Modal, ModalView};
use crate::tui::model::{ToolItem, text_of};
use crate::tui::tools::{Tools, count_in};
use vstd::prelude::*;
use vstd::string::*;

verus! {

/// One operation more.
pub open spec fn one_more(running: usize) -> usize {
    if running == usize::MAX {
        usize::MAX
    } else {
        (running + 1) as usize
    }
}

/// What the log says of the process policy when updates start.
pub open spec fn policy_line(strategy: ProcessStrategy, language: Language) -> Seq<char> {
    "\nprocess policy: "@ + strategy.name(language) + match strategy {
        ProcessStrategy::Terminate => language.pick(
            " matching processes will be stopped"@,
            "；将终止匹配的进程"@,
        ),
        ProcessStrategy::Wait => language.pick(
            " matching processes will be waited on"@,
            "；将等待匹配的进程退出"@,
        ),
    }
}

/// What the log says when the update of `name` starts.
pub open spec fn start_line(
    name: Seq<char>,
    target: Option<Seq<char>>,
    language: Language,
) -> Seq<char> {
    match (target, language) {
        (Some(version), Language::English) => "\n>>> starting "@ + name + " at version "@
            + version,
        (Some(version), Language::Chinese) => "\n>>> 正在将 "@ + name + " 更新到版本 "@ + version,
        (None, Language::English) => "\n>>> starting "@ + name,
        (None, Language::Chinese) => "\n>>> 正在启动 "@ + name,
    }
}

/// What the log says of tools that need no update.
pub open spec fn current_line(names: Seq<Seq<char>>, language: Language) -> Seq<char> {
    match language {
        Language::English => "\n=== already up to date: "@ + joined(names, ", "@) + " ==="@,
        Language::Chinese => "\n=== 已是最新版本："@ + joined(names, "，"@) + " ==="@,
    }
}

/// What is said of a batch of updates that has ended.
pub open spec fn batch_summary(
    tools: Seq<ToolItem>,
    total: nat,
    elapsed: Seq<char>,
    language: Language,
) -> Seq<char> {
    let n = tools.len() as int;
    let current = decimal_text(count_in(tools, RunState::UpToDate, n));
    let updated = decimal_text(count_in(tools, RunState::Updated, n));
    let queued = decimal_text(count_in(tools, RunState::Queued, n));
    let failed = decimal_text(count_in(tools, RunState::Failed, n));
    match language {
        Language::English => "Complete: "@ + current + " current, "@ + updated + " updated, "@
            + queued + " queued, "@ + failed + " failed ("@ + decimal_text(total) + " total) in "@
            + elapsed + "s"@,
        Language::Chinese => "完成："@ + current + " 项已是最新，"@ + updated + " 项已更新，"@
            + queued + " 项已排队，"@ + failed + " 项失败（共 "@ + decimal_text(total)
            + " 项），耗时 "@ + elapsed + " 秒"@,
    }
}

/// Whether dvup itself waits to be replaced.
pub open spec fn self_update_waits(tools: Seq<ToolItem>) -> bool {
    exists|i: int|
        0 <= i < tools.len() && (#[trigger] tools[i]).name@ == "dvup"@ && tools[i].run_state
            == RunState::Queued
}

impl AppView {
    /// The state with the update of one tool started.
    pub open spec fn update_started(self, name: Seq<char>, target: Option<Seq<char>>) -> AppView {
        AppView {
            tools: self.tools.started(name),
            running: one_more(self.running),
            ..self
        }.logged(start_line(name, target, self.language)).asked(
            EffectView::Spawn {
                arguments: update_words(
                    name,
                    text_of(self.config_path),
                    self.process_strategy == ProcessStrategy::Terminate,
                    target,
                ),
                name,
                operation: Operation::Update,
            },
        )
    }

    /// The state with the updates of the tools of those names started.
    pub open spec fn updates_begun(
        self,
        names: Seq<Seq<char>>,
        target: Option<Seq<char>>,
    ) -> AppView
        decreases names.len(),
    {
        if names.len() == 0 {
            self
        } else {
            self.updates_begun(names.drop_last(), target).update_started(names.last(), target)
        }
    }

    /// The state before the updates of a batch start: all tools idle, those that
    /// need no update marked, and the log told.
    pub open spec fn batch_prepared(
        self,
        names: Seq<Seq<char>>,
        current: Seq<Seq<char>>,
    ) -> AppView {
        let a = AppView {
            tools: self.tools.idle().marked(current),
            update_batch: Some((names.len() + current.len()) as usize),
            ..self
        };
        let b = if current.len() > 0 {
            a.logged(current_line(current, self.language))
        } else {
            a
        };
        b.logged(policy_line(self.process_strategy, self.language))
    }

    /// The state with a batch of updates started.
    pub open spec fn updates_started(
        self,
        names: Seq<Seq<char>>,
        target: Option<Seq<char>>,
        current: Seq<Seq<char>>,
    ) -> AppView {
        let a = self.batch_prepared(names, current).updates_begun(names, target);
        AppView { tab: Tab::Activity, ..a }.said(
            match a.language {
                Language::English => "Started "@ + decimal_text(a.running as nat)
                    + " update(s) in parallel"@,
                Language::Chinese => "已并行启动 "@ + decimal_text(a.running as nat)
                    + " 项更新"@,
            },
        )
    }

    /// The state with the batch of updates ended, if one ran.
    pub open spec fn batch_finished(self, elapsed: Seq<char>) -> AppView {
        match self.update_batch {
            None => self,
            Some(total) => {
                let items = self.tools.items;
                let summary = batch_summary(items, total as nat, elapsed, self.language);
                let a = AppView { update_batch: None, ..self }.logged(
                    "\n=== "@ + summary + " ==="@,
                );
                if self_update_waits(items) {
                    a.told(
                        "dvup self-update is queued; exit dvup to let the worker replace it"@,
                        "dvup 自更新已排队；请退出 dvup，让后台任务完成替换"@,
                    )
                } else if count_in(items, RunState::Failed, items.len() as int) == 0 {
                    a.said(summary)
                } else {
                    a.said(
                        summary + self.language.pick(
                            ". See Activity for command output and errors"@,
                            "。请在活动页查看命令输出和错误"@,
                        ),
                    )
                }
            },
        }
    }

    /// The state with a custom command being saved, or with what is wrong with
    /// it.
    pub open spec fn add_started(
        self,
        mode: CommandFormMode,
        original: Option<Seq<char>>,
        name: Seq<char>,
        command: Seq<char>,
    ) -> AppView {
        if self.config_path is Some {
            self.told(
                "Add is disabled with an explicit --config manifest"@,
                "使用显式 --config 配置时不能添加命令"@,
            )
        } else {
            match arguments_of(command) {
                None => self.said(unclosed_text(open_quote(command)->0, self.language)),
                Some(words) => if words.len() == 0 {
                    self.told("Command cannot be empty"@, "命令不能为空"@)
                } else if mode == CommandFormMode::Edit && original is None {
                    self.told("Original command name is missing"@, "缺少原命令名称"@)
                } else {
                    self.save_started(
                        mode,
                        name,
                        command,
                        match mode {
                            CommandFormMode::Add => add_words(name, words, false),
                            CommandFormMode::Edit => edit_words(original->0, name, words),
                        },
                    )
                },
            }
        }
    }

    /// The state with a custom command being saved by those words.
    pub open spec fn save_started(
        self,
        mode: CommandFormMode,
        name: Seq<char>,
        command: Seq<char>,
        arguments: Seq<Seq<char>>,
    ) -> AppView {
        AppView { running: one_more(self.running), tab: Tab::Tools, ..self }.said(
            match (mode, self.language) {
                (CommandFormMode::Add, Language::English) => "Saving "@ + name
                    + "; the command will not be run"@,
                (CommandFormMode::Add, Language::Chinese) => "正在保存 "@ + name
                    + "；不会执行该命令"@,
                (CommandFormMode::Edit, Language::English) => "Updating "@ + name
                    + "; the command will not be run"@,
                (CommandFormMode::Edit, Language::Chinese) => "正在更新 "@ + name
                    + "；不会执行该命令"@,
            },
        ).logged(
            match (mode, self.language) {
                (CommandFormMode::Add, Language::English) => "\n>>> saving "@ + name
                    + " (not running): "@ + command,
                (CommandFormMode::Add, Language::Chinese) => "\n>>> 正在保存 "@ + name
                    + "（不执行）："@ + command,
                (CommandFormMode::Edit, Language::English) => "\n>>> updating "@ + name
                    + " (not running): "@ + command,
                (CommandFormMode::Edit, Language::Chinese) => "\n>>> 正在更新 "@ + name
                    + "（不执行）："@ + command,
            },
        ).asked(EffectView::Spawn { arguments, name, operation: mode.deed() })
    }

    /// The state with a custom command being removed.
    pub open spec fn delete_started(self, name: Seq<char>) -> AppView {
        AppView { running: one_more(self.running), tab: Tab::Tools, ..self }.logged(
            self.language.pick("\n>>> removing "@, "\n>>> 正在删除 "@) + name,
        ).asked(
            EffectView::Spawn {
                arguments: remove_words(name),
                name,
                operation: Operation::Delete,
            },
        )
    }

    /// The state with a tool being uninstalled.
    pub open spec fn uninstall_started(self, name: Seq<char>) -> AppView {
        AppView { running: one_more(self.running), tab: Tab::Tools, ..self }.logged(
            self.language.pick("\n>>> uninstalling "@, "\n>>> 正在卸载 "@) + name,
        ).asked(
            EffectView::Spawn {
                arguments: uninstall_words(
                    name,
                    text_of(self.config_path),
                    self.process_strategy == ProcessStrategy::Terminate,
                ),
                name,
                operation: Operation::Uninstall,
            },
        )
    }

    /// The state after the form of a custom command is asked for.
    pub open spec fn edit_requested(self) -> AppView {
        if self.running > 0 {
            self.told("Wait for the current operation to finish"@, "请等待当前操作完成"@)
        } else if self.config_path is Some {
            self.told(
                "Custom commands are disabled with --config"@,
                "使用 --config 时不能编辑自定义命令"@,
            )
        } else {
            match self.tools.focus() {
                None => self,
                Some(i) => match self.tools.items[i].kind {
                    ToolKind::BuiltIn => self.told(
                        "Built-in tools cannot be edited"@,
                        "不能编辑内置工具"@,
                    ),
                    ToolKind::Custom => self.asked(
                        EffectView::LoadCustomCommand { name: self.tools.items[i].name@ },
                    ),
                },
            }
        }
    }

    /// The state with the form of a custom command open, once its words were
    /// loaded.
    pub open spec fn edit_opened(self, name: Seq<char>, words: Seq<Seq<char>>) -> AppView {
        self.with_modal(
            ModalView::AddCommand {
                form: CommandFormView {
                    mode: CommandFormMode::Edit,
                    original_name: Some(name),
                    field: 1,
                    name: InputView::fresh(name),
                    command: InputView::fresh(
                        spaced(all_quoted(command_words(words[0], words.skip(1)))),
                    ),
                },
            },
        )
    }

    /// The state after the TOML editor is asked for.
    pub open spec fn toml_requested(self, effect: EffectView) -> AppView {
        if self.running > 0 {
            self.told(
                "Wait for the current operation before editing TOML"@,
                "请等待当前操作完成后再编辑 TOML"@,
            )
        } else {
            self.asked(effect)
        }
    }

    /// The state after the log of the job in focus is asked for.
    pub open spec fn log_toggled(self) -> AppView {
        if self.jobs.index >= self.jobs.items.len() {
            self.told("No job selected"@, "未选择任务"@)
        } else {
            let job = self.jobs.items[self.jobs.index as int];
            if self.jobs.expanded matches Some(id) && id@ == job.id@ {
                AppView { jobs: self.jobs.folded(), ..self }
            } else {
                self.asked(EffectView::ReadJobLog { id: job.id@ })
            }
        }
    }
}

/// Whether the editor was opened with that text and nothing was done in it.
pub open spec fn freshly_opened(editor: TomlEditor, path: Seq<char>, text: Seq<char>) -> bool {
    &&& editor.wf()
    &&& editor.path@ == path
    &&& editor.text@ == text
    &&& editor.saved_text@ == text
    &&& editor.mode == TomlEditorMode::Standard
    &&& editor.cursor == 0
    &&& editor.selection_anchor is None
    &&& editor.undo_stack@.len() == 0
    &&& editor.redo_stack@.len() == 0
    &&& !editor.dirty
}

impl App {
    /// Counts one operation more.
    fn count_operation(&mut self)
        requires
            old(self).wf(),
        ensures
            final(self).wf(),
            final(self)@ == (AppView { running: one_more(old(self).running), ..old(self)@ }),
    {
        if self.running < usize::MAX {
            self.running = self.running + 1;
        }
    }

    /// Starts the update of one tool.
    fn start_update(&mut self, name: &String, target_version: &Option<String>)
        requires
            old(self).wf(),
        ensures
            final(self).wf(),
            final(self)@ == old(self)@.update_started(name@, text_of(*target_version)),
    {
        let target: Option<&str> = match target_version {
            Some(version) => Some(version.as_str()),
            None => None,
        };
        let config: Option<&str> = match &self.config_path {
            Some(path) => Some(path.as_str()),
            None => None,
        };
        let arguments = update_arguments(
            name.as_str(),
            config,
            self.process_strategy.terminates(),
            target,
        );
        let line = match (target, self.language) {
            (Some(version), Language::English) => join4(
                "\n>>> starting ",
                name.as_str(),
                " at version ",
                version,
            ),
            (Some(version), Language::Chinese) => join4(
                "\n>>> 正在将 ",
                name.as_str(),
                " 更新到版本 ",
                version,
            ),
            (None, Language::English) => join2("\n>>> starting ", name.as_str()),
            (None, Language::Chinese) => join2("\n>>> 正在启动 ", name.as_str()),
        };
        self.tools.start(name.as_str());
        self.count_operation();
        self.push_activity(line);
        self.ask(Effect::Spawn { arguments, name: name.clone(), operation: Operation::Update });
    }

    /// Tells the log what a batch of updates is about.
    fn prepare_batch(&mut self, total: usize, current_tools: &Vec<String>)
        requires
            old(self).wf(),
            total >= current_tools@.len(),
        ensures
            final(self).wf(),
            forall|names: Seq<Seq<char>>|
                names.len() + current_tools@.len() == total ==> final(self)@ == #[trigger] old(
                    self,
                )@.batch_prepared(names, texts(current_tools@)),
    {
        let strategy = self.process_strategy;
        let language = self.language;
        self.tools.make_idle();
        self.tools.mark_tools_up_to_date(current_tools);
        self.update_batch = Some(total);
        if current_tools.len() > 0 {
            let line = match language {
                Language::English => join3(
                    "\n=== already up to date: ",
                    join_names(current_tools, ", ").as_str(),
                    " ===",
                ),
                Language::Chinese => join3(
                    "\n=== 已是最新版本：",
                    join_names(current_tools, "，").as_str(),
                    " ===",
                ),
            };
            self.push_activity(line);
        }
        let policy = join3(
            "\nprocess policy: ",
            strategy.label(language),
            match strategy {
                ProcessStrategy::Terminate => language.text(
                    " matching processes will be stopped",
                    "；将终止匹配的进程",
                ),
                ProcessStrategy::Wait => language.text(
                    " matching processes will be waited on",
                    "；将等待匹配的进程退出",
                ),
            },
        );
        self.push_activity(policy);
    }

    /// Starts a batch of updates.
    pub fn start_updates(
        &mut self,
        tools: Vec<String>,
        target_version: Option<String>,
        current_tools: Vec<String>,
    )
        requires
            old(self).wf(),
            tools@.len() + current_tools@.len() <= usize::MAX,
            target_version is Some ==> tools@.len() == 1,
        ensures
            final(self).wf(),
            final(self)@ == old(self)@.updates_started(
                texts(tools@),
                text_of(target_version),
                texts(current_tools@),
            ),
    {
        let ghost names = texts(tools@);
        let ghost target = text_of(target_version);
        self.prepare_batch(tools.len() + current_tools.len(), &current_tools);
        let ghost prepared = self@;
        assert(prepared == old(self)@.batch_prepared(names, texts(current_tools@)));
        let mut i: usize = 0;
        assert(names.take(0) =~= Seq::<Seq<char>>::empty());
        while i < tools.len()
            invariant
                i <= tools@.len(),
                names == texts(tools@),
                target == text_of(target_version),
                self.wf(),
                self@ == prepared.updates_begun(names.take(i as int), target),
            decreases tools@.len() - i,
        {
            assert(names.take(i + 1).drop_last() =~= names.take(i as int));
            assert(names[i as int] == tools@[i as int]@);
            self.start_update(&tools[i], &target_version);
            i += 1;
        }
        assert(names.take(i as int) =~= names);
        let count = count_text(self.running);
        self.message = match self.language {
            Language::English => join3("Started ", count.as_str(), " update(s) in parallel"),
            Language::Chinese => join3("已并行启动 ", count.as_str(), " 项更新"),
        };
        self.tab = Tab::Activity;
    }

    /// Whether dvup itself waits to be replaced.
    fn self_update_queued(&self) -> (r: bool)
        ensures
            r == self_update_waits(self.tools.items@),
    {
        let mut i: usize = 0;
        while i < self.tools.items.len()
            invariant
                i <= self.tools.items@.len(),
                forall|k: int|
                    0 <= k < i ==> (#[trigger] self.tools.items@[k]).name@ != "dvup"@
                        || self.tools.items@[k].run_state != RunState::Queued,
            decreases self.tools.items@.len() - i,
        {
            if self.tools.items[i].run_state == RunState::Queued && same(
                self.tools.items[i].name.as_str(),
                "dvup",
            ) {
                return true;
            }
            i += 1;
        }
        false
    }

    /// What is said of the batch of updates that has ended.
    fn summary(&self, total: usize, elapsed: &str) -> (r: String)
        ensures
            r@ == batch_summary(self.tools.items@, total as nat, elapsed@, self.language),
    {
        let current = count_text(self.tools.count(RunState::UpToDate));
        let updated = count_text(self.tools.count(RunState::Updated));
        let queued = count_text(self.tools.count(RunState::Queued));
        let failed = count_text(self.tools.count(RunState::Failed));
        let total = count_text(total);
        match self.language {
            Language::English => {
                let mut text = join8(
                    "Complete: ",
                    current.as_str(),
                    " current, ",
                    updated.as_str(),
                    " updated, ",
                    queued.as_str(),
                    " queued, ",
                    failed.as_str(),
                );
                text.append(" failed (");
                text.append(total.as_str());
                text.append(" total) in ");
                text.append(elapsed);
                text.append("s");
                text
            },
            Language::Chinese => {
                let mut text = join8(
                    "完成：",
                    current.as_str(),
                    " 项已是最新，",
                    updated.as_str(),
                    " 项已更新，",
                    queued.as_str(),
                    " 项已排队，",
                    failed.as_str(),
                );
                text.append(" 项失败（共 ");
                text.append(total.as_str());
                text.append(" 项），耗时 ");
                text.append(elapsed);
                text.append(" 秒");
                text
            },
        }
    }

    /// Ends the batch of updates, if one runs; it took `elapsed` seconds.
    pub fn finish_update_batch(&mut self, elapsed: &str)
        requires
            old(self).wf(),
        ensures
            final(self).wf(),
            final(self)@ == old(self)@.batch_finished(elapsed@),
    {
        if let Some(total) = self.update_batch {
            self.update_batch = None;
            let summary = self.summary(total, elapsed);
            let failed: usize = self.tools.count(RunState::Failed);
            let queued = self.self_update_queued();
            self.push_activity(join3("\n=== ", summary.as_str(), " ==="));
            if queued {
                self.tell(
                    "dvup self-update is queued; exit dvup to let the worker replace it",
                    "dvup 自更新已排队；请退出 dvup，让后台任务完成替换",
                );
            } else if failed == 0 {
                self.say(summary.as_str());
            } else {
                let advice = self.language.text(
                    ". See Activity for command output and errors",
                    "。请在活动页查看命令输出和错误",
                );
                self.say(join2(summary.as_str(), advice).as_str());
            }
        }
    }

    /// Saves a custom command by those words.
    fn start_save(
        &mut self,
        mode: CommandFormMode,
        name: String,
        command_line: &str,
        arguments: Vec<String>,
    )
        requires
            old(self).wf(),
        ensures
            final(self).wf(),
            final(self)@ == old(self)@.save_started(
                mode,
                name@,
                command_line@,
                texts(arguments@),
            ),
    {
        self.count_operation();
        self.message = match (mode, self.language) {
            (CommandFormMode::Add, Language::English) => join3(
                "Saving ",
                name.as_str(),
                "; the command will not be run",
            ),
            (CommandFormMode::Add, Language::Chinese) => join3(
                "正在保存 ",
                name.as_str(),
                "；不会执行该命令",
            ),
            (CommandFormMode::Edit, Language::English) => join3(
                "Updating ",
                name.as_str(),
                "; the command will not be run",
            ),
            (CommandFormMode::Edit, Language::Chinese) => join3(
                "正在更新 ",
                name.as_str(),
                "；不会执行该命令",
            ),
        };
        let line = match (mode, self.language) {
            (CommandFormMode::Add, Language::English) => join4(
                "\n>>> saving ",
                name.as_str(),
                " (not running): ",
                command_line,
            ),
            (CommandFormMode::Add, Language::Chinese) => join4(
                "\n>>> 正在保存 ",
                name.as_str(),
                "（不执行）：",
                command_line,
            ),
            (CommandFormMode::Edit, Language::English) => join4(
                "\n>>> updating ",
                name.as_str(),
                " (not running): ",
                command_line,
            ),
            (CommandFormMode::Edit, Language::Chinese) => join4(
                "\n>>> 正在更新 ",
                name.as_str(),
                "（不执行）：",
                command_line,
            ),
        };
        self.push_activity(line);
        self.ask(Effect::Spawn { arguments, name, operation: mode.operation() });
        self.tab = Tab::Tools;
    }

    /// Saves a custom command, or tells what is wrong with it.
    pub fn start_add(
        &mut self,
        mode: CommandFormMode,
        original_name: Option<String>,
        name: String,
        command_line: String,
    )
        requires
            old(self).wf(),
        ensures
            final(self).wf(),
            final(self)@ == old(self)@.add_started(
                mode,
                text_of(original_name),
                name@,
                command_line@,
            ),
    {
        if self.config_path.is_some() {
            self.tell(
                "Add is disabled with an explicit --config manifest",
                "使用显式 --config 配置时不能添加命令",
            );
            return;
        }
        let command = match split_command_line(command_line.as_str(), self.language) {
            Ok(words) => words,
            Err(message) => {
                self.message = message;
                return;
            },
        };
        if command.len() == 0 {
            self.tell("Command cannot be empty", "命令不能为空");
            return;
        }
        let arguments = match mode {
            CommandFormMode::Add => add_arguments(name.as_str(), command, false),
            CommandFormMode::Edit => match &original_name {
                Some(original) => edit_arguments(original.as_str(), name.as_str(), command),
                None => {
                    self.tell("Original command name is missing", "缺少原命令名称");
                    return;
                },
            },
        };
        self.start_save(mode, name, command_line.as_str(), arguments);
    }

    /// Removes a custom command.
    pub fn start_delete(&mut self, name: String)
        requires
            old(self).wf(),
        ensures
            final(self).wf(),
            final(self)@ == old(self)@.delete_started(name@),
    {
        self.count_operation();
        let line = join2(self.language.text("\n>>> removing ", "\n>>> 正在删除 "), name.as_str());
        self.push_activity(line);
        let arguments = remove_arguments(name.as_str());
        self.ask(Effect::Spawn { arguments, name, operation: Operation::Delete });
        self.tab = Tab::Tools;
    }

    /// Uninstalls a tool.
    pub fn start_uninstall(&mut self, name: String)
        requires
            old(self).wf(),
        ensures
            final(self).wf(),
            final(self)@ == old(self)@.uninstall_started(name@),
    {
        let config: Option<&str> = match &self.config_path {
            Some(path) => Some(path.as_str()),
            None => None,
        };
        let arguments = uninstall_arguments(
            name.as_str(),
            config,
            self.process_strategy.terminates(),
        );
        self.count_operation();
        let line = join2(
            self.language.text("\n>>> uninstalling ", "\n>>> 正在卸载 "),
            name.as_str(),
        );
        self.push_activity(line);
        self.ask(Effect::Spawn { arguments, name, operation: Operation::Uninstall });
        self.tab = Tab::Tools;
    }

    /// Asks for the command of the tool in focus, to change it.
    pub fn open_edit_command(&mut self)
        requires
            old(self).wf(),
        ensures
            final(self).wf(),
            final(self)@ == old(self)@.edit_requested(),
    {
        if self.running > 0 {
            self.tell("Wait for the current operation to finish", "请等待当前操作完成");
            return;
        }
        if self.config_path.is_some() {
            self.tell(
                "Custom commands are disabled with --config",
                "使用 --config 时不能编辑自定义命令",
            );
            return;
        }
        let custom: Option<Option<String>> = match self.tools.focused_tool() {
            None => None,
            Some(tool) => match tool.kind {
                ToolKind::BuiltIn => Some(None),
                ToolKind::Custom => Some(Some(tool.name.clone())),
            },
        };
        match custom {
            None => {},
            Some(None) => self.tell("Built-in tools cannot be edited", "不能编辑内置工具"),
            Some(Some(name)) => self.ask(Effect::LoadCustomCommand { name }),
        }
    }

    /// Opens the form of a custom command once its words were loaded, or tells
    /// why they could not be.
    pub fn edit_command(&mut self, name: String, loaded: Result<Option<Vec<String>>, String>)
        requires
            old(self).wf(),
            loaded matches Ok(Some(words)) ==> words@.len() > 0,
        ensures
            final(self).wf(),
            match loaded {
                Err(error) => final(self)@ == old(self)@.said(
                    old(self).language.pick(
                        "Could not load custom command: "@,
                        "无法加载自定义命令："@,
                    ) + error@,
                ),
                Ok(None) => final(self)@ == old(self)@.told(
                    "Custom command no longer exists"@,
                    "自定义命令已不存在"@,
                ),
                Ok(Some(words)) => final(self)@ == old(self)@.edit_opened(name@, texts(words@)),
            },
    {
        match loaded {
            Err(error) => self.tell_with(
                "Could not load custom command: ",
                "无法加载自定义命令：",
                error.as_str(),
            ),
            Ok(None) => self.tell("Custom command no longer exists", "自定义命令已不存在"),
            Ok(Some(words)) => {
                let ghost all = texts(words@);
                let mut words = words;
                let program = words.remove(0);
                assert(texts(words@) =~= all.skip(1));
                let line = format_editable_command(program.as_str(), words.as_slice());
                let input = TextInput::new(name.as_str());
                self.modal = Modal::AddCommand {
                    form: CommandForm {
                        mode: CommandFormMode::Edit,
                        original_name: Some(name),
                        field: 1,
                        name: input,
                        command: TextInput::new(line.as_str()),
                    },
                };
            },
        }
    }

    /// The file that the TOML editor opens: the manifest given on the command
    /// line, or else the user's own.
    pub fn toml_editor_path(&self, custom_config_path: &String) -> (r: String)
        ensures
            r@ == match self.config_path {
                Some(path) => path@,
                None => custom_config_path@,
            },
    {
        match &self.config_path {
            Some(path) => path.clone(),
            None => custom_config_path.clone(),
        }
    }

    pub fn open_toml_editor(&mut self)
        requires
            old(self).wf(),
        ensures
            final(self).wf(),
            final(self)@ == old(self)@.toml_requested(EffectView::OpenToml),
    {
        if self.running > 0 {
            self.tell(
                "Wait for the current operation before editing TOML",
                "请等待当前操作完成后再编辑 TOML",
            );
        } else {
            self.ask(Effect::OpenToml);
        }
    }

    pub fn open_toml_in_system_editor(&mut self)
        requires
            old(self).wf(),
        ensures
            final(self).wf(),
            final(self)@ == old(self)@.toml_requested(EffectView::OpenSystemEditor),
    {
        if self.running > 0 {
            self.tell(
                "Wait for the current operation before editing TOML",
                "请等待当前操作完成后再编辑 TOML",
            );
        } else {
            self.ask(Effect::OpenSystemEditor);
        }
    }

    /// The tool that a new TOML file begins with: the one in focus.
    pub fn toml_seed_name(&self) -> (r: Result<String, String>)
        requires
            self.wf(),
        ensures
            match self@.tools.focused_name() {
                Some(name) => r matches Ok(seed) && seed@ == name,
                None => r matches Err(error) && error@ == "no tool is selected"@,
            },
    {
        match self.tools.focused_name() {
            Some(name) => Ok(name),
            None => Err("no tool is selected".to_owned()),
        }
    }

    /// Opens the TOML editor on a text.
    pub fn show_toml_editor(&mut self, path: String, text: String)
        requires
            old(self).wf(),
        ensures
            final(self).wf(),
            final(self)@.modal matches ModalView::TomlEditor { editor } && freshly_opened(
                editor,
                path@,
                text@,
            ),
            final(self)@ == old(self)@.said(
                old(self).language.pick("Editing "@, "正在编辑 "@) + path@,
            ).with_modal(final(self)@.modal),
    {
        self.tell_with("Editing ", "正在编辑 ", path.as_str());
        self.modal = Modal::TomlEditor { editor: TomlEditor::new(path, text) };
    }

    /// Opens the TOML editor once its text was read, or tells why it could not
    /// be.
    pub fn toml_opened(&mut self, opened: Result<(String, String), String>)
        requires
            old(self).wf(),
        ensures
            final(self).wf(),
            match opened {
                Err(error) => final(self)@ == old(self)@.said(
                    old(self).language.pick(
                        "Could not open TOML editor: "@,
                        "无法打开 TOML 编辑器："@,
                    ) + error@,
                ),
                Ok((path, text)) => {
                    &&& final(self)@.modal matches ModalView::TomlEditor { editor }
                    &&& freshly_opened(editor, path@, text@)
                    &&& final(self)@ == old(self)@.said(
                        old(self).language.pick("Editing "@, "正在编辑 "@) + path@,
                    ).with_modal(final(self)@.modal)
                },
            },
    {
        match opened {
            Ok((path, text)) => self.show_toml_editor(path, text),
            Err(error) => self.tell_with(
                "Could not open TOML editor: ",
                "无法打开 TOML 编辑器：",
                error.as_str(),
            ),
        }
    }

    /// Opens the TOML editor on a file given on the command line.
    pub fn open_toml_file(&mut self, path: String, text: String)
        requires
            old(self).wf(),
        ensures
            final(self).wf(),
            final(self)@.modal matches ModalView::TomlEditor { editor } && freshly_opened(
                editor,
                path@,
                text@,
            ),
            final(self)@ == (AppView { config_path: Some(path), ..old(self)@ }).said(
                old(self).language.pick("Editing "@, "正在编辑 "@) + path@,
            ).with_modal(final(self)@.modal),
    {
        self.config_path = Some(path.clone());
        self.show_toml_editor(path, text);
    }

    /// Tells whether the system's editor could be started.
    pub fn system_editor_opened(&mut self, opened: Result<String, String>)
        requires
            old(self).wf(),
        ensures
            final(self).wf(),
            final(self)@ == old(self)@.said(
                match (opened, old(self).language) {
                    (Ok(path), Language::English) => "Opened "@ + path@
                        + " in the system text editor"@,
                    (Ok(path), Language::Chinese) => "已使用系统文本编辑器打开 "@ + path@,
                    (Err(error), Language::English) => "Could not open the system text editor: "@
                        + error@,
                    (Err(error), Language::Chinese) => "无法打开系统文本编辑器："@ + error@,
                },
            ),
    {
        self.message = match (&opened, self.language) {
            (Ok(path), Language::English) => join3(
                "Opened ",
                path.as_str(),
                " in the system text editor",
            ),
            (Ok(path), Language::Chinese) => join2("已使用系统文本编辑器打开 ", path.as_str()),
            (Err(error), Language::English) => join2(
                "Could not open the system text editor: ",
                error.as_str(),
            ),
            (Err(error), Language::Chinese) => join2("无法打开系统文本编辑器：", error.as_str()),
        };
    }

    /// Folds the job in focus, or asks for its log.
    pub fn toggle_job_log(&mut self)
        requires
            old(self).wf(),
        ensures
            final(self).wf(),
            final(self)@ == old(self)@.log_toggled(),
    {
        if self.jobs.index >= self.jobs.items.len() {
            self.tell("No job selected", "未选择任务");
            return;
        }
        let id = self.jobs.items[self.jobs.index].id.clone();
        let unfolded = match &self.jobs.expanded {
            Some(expanded) => same(expanded.as_str(), id.as_str()),
            None => false,
        };
        if unfolded {
            self.jobs.fold();
        } else {
            self.ask(Effect::ReadJobLog { id });
        }
    }

    /// Unfolds a job once its log was read, or tells why it could not be.
    pub fn show_job_log(&mut self, id: String, log: Result<Vec<u8>, String>)
        requires
            old(self).wf(),
        ensures
            final(self).wf(),
            final(self)@ == match log {
                Ok(bytes) => AppView { jobs: old(self).jobs@.unfolded(id, bytes@), ..old(self)@ },
                Err(error) => old(self)@.said(
                    old(self).language.pick("Failed to load job log: "@, "无法加载任务日志："@)
                        + error@,
                ),
            },
    {
        match log {
            Ok(bytes) => self.jobs.unfold(id, &bytes),
            Err(error) => self.tell_with(
                "Failed to load job log: ",
                "无法加载任务日志：",
                error.as_str(),
            ),
        }
    }
}

} // verus!
