//! The dialogs, as they are drawn.

use crate::language::Language;
use crate::number::{count_text, decimal_text};
use crate::search::{lines, texts};
use crate::text::{join2, join3};
use crate::tui::app::{App, AppView};
use crate::tui::arguments::{join_names, joined};
use crate::tui::content::{
    LineView, StyledLine, blank_line, lemma_no_pieces, line_of, line_views, push_line, styled,
};
use crate::tui::form::{
    CommandForm, CommandFormMode, CommandFormView, GITHUB_MONITOR_FORM_FIELD_COUNT, MonitorForm,
    MonitorFormMode, MonitorFormView, ProxyForm, ProxyFormView,
};
use crate::tui::geometry::{Rect, at_most, before, capped, centered, centered_rect};
use crate::tui::input::{InputView, TextInput};
use crate::tui::input_line::{
    choice_hit, choice_hitbox, columns_to_cursor, cursor_cell, field_style, hidden_cursor,
    hidden_text, input_cursor, input_hitbox, input_line, input_value_width, label_look,
    label_style, marker, marker_look, marker_style, marker_text, mask, modal_input_line,
    value_hit, value_width,
};
use crate::tui::keys::{Mouse, MouseKind};
use crate::tui::labels::ProcessStrategy;
use crate::tui::modal::{Hitboxes, Modal, ModalInputHitbox, ModalView};
use crate::tui::modal_mouse::hit_at;
use crate::tui::model::{
    GithubReleaseMonitor, ProxyMode, format_name, policy_name, release_format_label,
    release_update_policy_label, text_of,
};
use crate::tui::style::{Color, Style};
use crate::tui::tables::less;
use vstd::prelude::*;
use vstd::string::*;

verus! {

/// A labeled value.
pub open spec fn value_line(label: Seq<char>, value: Seq<char>, color: Color) -> LineView {
    LineView::of(
        seq![
            styled(label + "  "@, Style::of(Some(Color::Dim), None)),
            styled(value, Style::of(Some(color), None)),
        ],
    )
}

/// A labeled value.
pub fn labeled_value(label: &str, value: &str, color: Color) -> (r: StyledLine)
    ensures
        r@ == value_line(label@, value@, color),
{
    let mut line = blank_line();
    line.put(join2(label, "  ").as_str(), Style::with_fg(Color::Dim));
    line.put(value, Style::with_fg(color));
    line
}

/// The keys that confirm a dialog or leave it.
pub open spec fn action_line(
    language: Language,
    primary: Seq<char>,
    secondary: Seq<char>,
) -> LineView {
    LineView::of(
        seq![
            styled("[Enter/y]"@, Style::of(Some(Color::Success), None).heavy()),
            styled(" "@ + primary + "    "@, Style::of(None, None)),
            styled("[Esc/n]"@, Style::of(Some(Color::Error), None).heavy()),
            styled(" "@ + secondary, Style::of(None, None)),
            styled(
                language.pick("    modal input only"@, "    仅响应当前窗口"@),
                Style::of(Some(Color::Subtle), None),
            ),
        ],
    )
}

/// The keys that confirm a dialog or leave it.
pub fn modal_actions(language: Language, primary: &str, secondary: &str) -> (r: StyledLine)
    ensures
        r@ == action_line(language, primary@, secondary@),
{
    let mut line = blank_line();
    line.put("[Enter/y]", Style::with_fg(Color::Success).bold());
    line.put(join3(" ", primary, "    ").as_str(), Style::plain());
    line.put("[Esc/n]", Style::with_fg(Color::Error).bold());
    line.put(join2(" ", secondary).as_str(), Style::plain());
    line.put(
        language.text("    modal input only", "    仅响应当前窗口"),
        Style::with_fg(Color::Subtle),
    );
    line
}

/// The keys of a form.
pub open spec fn form_action_line(language: Language, multiple_fields: bool) -> LineView {
    if multiple_fields {
        LineView::of(
            seq![
                styled("[Tab/↑↓]"@, Style::of(Some(Color::Accent), None)),
                styled(language.pick(" field    "@, " 切换栏    "@), Style::of(None, None)),
                styled("[Shift+←/→]"@, Style::of(Some(Color::Accent), None)),
                styled(language.pick(" select    "@, " 选择    "@), Style::of(None, None)),
                styled("[Ctrl+A]"@, Style::of(Some(Color::Accent), None)),
                styled(language.pick(" all    "@, " 全选    "@), Style::of(None, None)),
                styled("[Enter]"@, Style::of(Some(Color::Success), None)),
                styled(language.pick(" review    "@, " 预览    "@), Style::of(None, None)),
                styled("[Esc]"@, Style::of(Some(Color::Error), None)),
                styled(language.pick(" cancel"@, " 取消"@), Style::of(None, None)),
            ],
        )
    } else {
        LineView::of(
            seq![
                styled("[Shift+←/→]"@, Style::of(Some(Color::Accent), None)),
                styled(language.pick(" select    "@, " 选择    "@), Style::of(None, None)),
                styled("[Ctrl+A]"@, Style::of(Some(Color::Accent), None)),
                styled(language.pick(" all    "@, " 全选    "@), Style::of(None, None)),
                styled("[Enter]"@, Style::of(Some(Color::Success), None)),
                styled(language.pick(" review    "@, " 预览    "@), Style::of(None, None)),
                styled("[Esc]"@, Style::of(Some(Color::Error), None)),
                styled(language.pick(" cancel"@, " 取消"@), Style::of(None, None)),
            ],
        )
    }
}

/// The keys of a form.
pub fn modal_form_actions(language: Language, multiple_fields: bool) -> (r: StyledLine)
    ensures
        r@ == form_action_line(language, multiple_fields),
{
    let line5 = if multiple_fields {
        let mut line3 = blank_line();
        line3.put("[Tab/↑↓]", Style::with_fg(Color::Accent));
        line3.put(language.text(" field    ", " 切换栏    "), Style::plain());
        line3.put("[Shift+←/→]", Style::with_fg(Color::Accent));
        line3.put(language.text(" select    ", " 选择    "), Style::plain());
        line3.put("[Ctrl+A]", Style::with_fg(Color::Accent));
        line3.put(language.text(" all    ", " 全选    "), Style::plain());
        line3.put("[Enter]", Style::with_fg(Color::Success));
        line3.put(language.text(" review    ", " 预览    "), Style::plain());
        line3.put("[Esc]", Style::with_fg(Color::Error));
        line3.put(language.text(" cancel", " 取消"), Style::plain());
        line3
    } else {
        let mut line4 = blank_line();
        line4.put("[Shift+←/→]", Style::with_fg(Color::Accent));
        line4.put(language.text(" select    ", " 选择    "), Style::plain());
        line4.put("[Ctrl+A]", Style::with_fg(Color::Accent));
        line4.put(language.text(" all    ", " 全选    "), Style::plain());
        line4.put("[Enter]", Style::with_fg(Color::Success));
        line4.put(language.text(" review    ", " 预览    "), Style::plain());
        line4.put("[Esc]", Style::with_fg(Color::Error));
        line4.put(language.text(" cancel", " 取消"), Style::plain());
        line4
    };
    line5
}

/// A line with a choice.
pub open spec fn choice_line(active: bool, label: Seq<char>, value: Seq<char>) -> LineView {
    LineView::of(
        seq![
            styled(marker(active), if active {
                    Style::of(Some(Color::Accent), None)
                } else {
                    Style::of(Some(Color::Subtle), None)
            }),
            styled(label + "  "@, if active {
                    Style::of(Some(Color::Accent), None)
                } else {
                    Style::of(Some(Color::Dim), None)
            }),
            styled("[ "@ + value + " ]"@, if active {
                    Style::of(Some(Color::Success), None).heavy()
                } else {
                    Style::of(Some(Color::Subtle), None).heavy()
            }),
        ],
    )
}

/// A line with a choice.
pub fn choice_text(active: bool, label: &str, value: &str) -> (r: StyledLine)
    ensures
        r@ == choice_line(active, label@, value@),
{
    let mut line = blank_line();
    line.put(marker_text(active), if active {
            Style::with_fg(Color::Accent)
        } else {
            Style::with_fg(Color::Subtle)
    });
    line.put(join2(label, "  ").as_str(), if active {
            Style::with_fg(Color::Accent)
        } else {
            Style::with_fg(Color::Dim)
    });
    line.put(join3("[ ", value, " ]").as_str(), if active {
            Style::with_fg(Color::Success).bold()
        } else {
            Style::with_fg(Color::Subtle).bold()
    });
    line
}

/// The lines of the dialog that confirms installing releases.
pub open spec fn installs_lines(monitors: Seq<Seq<char>>, language: Language) -> Seq<LineView> {
    seq![
        LineView::one(
            language.pick("Download and install "@, "下载并安装所选的 "@) + decimal_text(monitors.len()) + language.pick(
                " selected GitHub repository update(s)?"@,
                " 项 GitHub 仓库更新？"@,
            ),
            Style::of(None, None).heavy(),
        ),
        LineView::blank(),
        value_line(language.pick("Selected"@, "已选择"@), joined(monitors, ", "@), Color::Accent),
        LineView::blank(),
        LineView::one(
            language.pick(
                "Targets are replaced only after download and extraction succeed."@,
                "仅在下载和解压成功后替换目标目录。"@,
            ),
            Style::of(Some(Color::Warning), None),
        ),
        LineView::blank(),
        action_line(
            language,
            language.pick("install"@, "安装"@),
            language.pick("cancel"@, "取消"@),
        ),
    ]
}

/// The lines of the dialog that confirms installing releases.
pub fn installs_text(monitors: &Vec<String>, language: Language) -> (r: Vec<StyledLine>)
    ensures
        line_views(r@) == installs_lines(texts(monitors@), language),
{
    let mut lines: Vec<StyledLine> = Vec::new();
    proof { lemma_no_pieces(); }
    push_line(
        &mut lines,
        line_of(
            join3(
                language.text("Download and install ", "下载并安装所选的 "),
                count_text(monitors.len()).as_str(),
                language.text(" selected GitHub repository update(s)?", " 项 GitHub 仓库更新？"),
            ).as_str(),
            Style::plain().bold(),
        ),
    );
    push_line(&mut lines, blank_line());
    push_line(
        &mut lines,
        labeled_value(
            language.text("Selected", "已选择"),
            join_names(monitors, ", ").as_str(),
            Color::Accent,
        ),
    );
    push_line(&mut lines, blank_line());
    push_line(
        &mut lines,
        line_of(
            language.text(
                "Targets are replaced only after download and extraction succeed.",
                "仅在下载和解压成功后替换目标目录。",
            ),
            Style::with_fg(Color::Warning),
        ),
    );
    push_line(&mut lines, blank_line());
    push_line(
        &mut lines,
        modal_actions(language, language.text("install", "安装"), language.text("cancel", "取消")),
    );
    lines
}

/// The line that names the process policy.
pub open spec fn policy_row(strategy: ProcessStrategy, language: Language) -> LineView {
    LineView::of(
        seq![
            styled(
                language.pick("Process policy"@, "进程策略"@) + "  "@,
                Style::of(Some(Color::Dim), None),
            ),
            styled(strategy.name(language), strategy.look().heavy()),
        ],
    )
}

/// The line that names the process policy.
pub fn policy_text(strategy: ProcessStrategy, language: Language) -> (r: StyledLine)
    ensures
        r@ == policy_row(strategy, language),
{
    let mut line = blank_line();
    line.put(
        join2(language.text("Process policy", "进程策略"), "  ").as_str(),
        Style::with_fg(Color::Dim),
    );
    line.put(strategy.label(language), strategy.style().bold());
    line
}

/// What the process policy means for an update.
pub open spec fn policy_effect(strategy: ProcessStrategy, language: Language) -> Seq<char> {
    match strategy {
        ProcessStrategy::Wait => language.pick(
            "Matching processes will be waited on."@,
            "将等待匹配的进程退出。"@,
        ),
        ProcessStrategy::Terminate => language.pick(
            "Matching processes will be stopped before update."@,
            "将在更新前终止匹配的进程。"@,
        ),
    }
}

fn policy_detail(strategy: ProcessStrategy, language: Language) -> (r: &'static str)
    ensures
        r@ == policy_effect(strategy, language),
{
    match strategy {
        ProcessStrategy::Wait => language.text(
            "Matching processes will be waited on.",
            "将等待匹配的进程退出。",
        ),
        ProcessStrategy::Terminate => language.text(
            "Matching processes will be stopped before update.",
            "将在更新前终止匹配的进程。",
        ),
    }
}

/// The line of the version that was asked for.
pub open spec fn target_line(target: Option<Seq<char>>, language: Language) -> LineView {
    match target {
        Some(version) => value_line(
            language.pick("Target version"@, "目标版本"@),
            version,
            Color::Warning,
        ),
        None => LineView::blank(),
    }
}

fn target_text(target: &Option<String>, language: Language) -> (r: StyledLine)
    ensures
        r@ == target_line(text_of(*target), language),
{
    match target {
        Some(version) => labeled_value(
            language.text("Target version", "目标版本"),
            version.as_str(),
            Color::Warning,
        ),
        None => blank_line(),
    }
}

/// The lines of the dialog that confirms updates.
pub open spec fn updates_lines(
    tools: Seq<Seq<char>>,
    target: Option<Seq<char>>,
    current: Seq<Seq<char>>,
    strategy: ProcessStrategy,
    language: Language,
) -> Seq<LineView> {
    seq![
        LineView::one(
            language.pick("Update "@, "更新 "@) + decimal_text(tools.len()) + language.pick(
                " tool(s)?"@,
                " 个工具？"@,
            ),
            Style::of(None, None).heavy(),
        ),
        LineView::blank(),
        value_line(language.pick("Selected"@, "已选择"@), joined(tools, ", "@), Color::Accent),
        if current.len() == 0 {
            LineView::blank()
        } else {
            value_line(
                language.pick("Already latest"@, "已是最新"@),
                joined(current, ", "@),
                Color::Success,
            )
        },
        target_line(target, language),
        policy_row(strategy, language),
        LineView::one(policy_effect(strategy, language), Style::of(Some(Color::Dim), None)),
        LineView::blank(),
        action_line(
            language,
            language.pick("confirm"@, "确认"@),
            language.pick("cancel"@, "取消"@),
        ),
    ]
}

/// The lines of the dialog that confirms updates.
pub fn updates_text(
    tools: &Vec<String>,
    target: &Option<String>,
    current: &Vec<String>,
    strategy: ProcessStrategy,
    language: Language,
) -> (r: Vec<StyledLine>)
    ensures
        line_views(r@) == updates_lines(
            texts(tools@),
            text_of(*target),
            texts(current@),
            strategy,
            language,
        ),
{
    let mut lines: Vec<StyledLine> = Vec::new();
    proof { lemma_no_pieces(); }
    push_line(
        &mut lines,
        line_of(
            join3(
                language.text("Update ", "更新 "),
                count_text(tools.len()).as_str(),
                language.text(" tool(s)?", " 个工具？"),
            ).as_str(),
            Style::plain().bold(),
        ),
    );
    push_line(&mut lines, blank_line());
    push_line(
        &mut lines,
        labeled_value(
            language.text("Selected", "已选择"),
            join_names(tools, ", ").as_str(),
            Color::Accent,
        ),
    );
    let line2 = if current.len() == 0 {
        blank_line()
    } else {
        labeled_value(
            language.text("Already latest", "已是最新"),
            join_names(current, ", ").as_str(),
            Color::Success,
        )
    };
    push_line(&mut lines, line2);
    push_line(&mut lines, target_text(target, language));
    push_line(&mut lines, policy_text(strategy, language));
    push_line(&mut lines, line_of(policy_detail(strategy, language), Style::with_fg(Color::Dim)));
    push_line(&mut lines, blank_line());
    push_line(
        &mut lines,
        modal_actions(language, language.text("confirm", "确认"), language.text("cancel", "取消")),
    );
    lines
}

/// The lines of the dialog that asks for a version, `width` columns wide.
pub open spec fn version_lines(
    name: Seq<char>,
    version: InputView,
    language: Language,
    width: u16,
) -> Seq<LineView> {
    seq![
        LineView::one(
            language.pick(
                "Update "@ + name + " to an exact version."@,
                "将 "@ + name + " 更新到指定版本。"@,
            ),
            Style::of(Some(Color::Dim), None),
        ),
        LineView::blank(),
        input_line(
            true,
            language.pick("Version"@, "版本"@),
            version,
            "1.2.3"@,
            value_width(width, language.pick("Version"@, "版本"@)),
        ),
        LineView::blank(),
        LineView::one(
            language.pick(
                "The configured update_version command will be used."@,
                "将使用配置中的 update_version 命令。"@,
            ),
            Style::of(Some(Color::Subtle), None),
        ),
        LineView::blank(),
        form_action_line(language, false),
    ]
}

/// The lines of the dialog that asks for a version, `width` columns wide.
pub fn version_text(
    name: &str,
    version: &TextInput,
    language: Language,
    width: u16,
) -> (r: Vec<StyledLine>)
    requires
        version.wf(),
    ensures
        line_views(r@) == version_lines(name@, version@, language, width),
{
    let label = language.text("Version", "版本");
    let intro = match language {
        Language::English => join3("Update ", name, " to an exact version."),
        Language::Chinese => join3("将 ", name, " 更新到指定版本。"),
    };
    let mut lines: Vec<StyledLine> = Vec::new();
    proof { lemma_no_pieces(); }
    push_line(&mut lines, line_of(intro.as_str(), Style::with_fg(Color::Dim)));
    push_line(&mut lines, blank_line());
    push_line(
        &mut lines,
        modal_input_line(true, label, version, "1.2.3", input_value_width(width, label)),
    );
    push_line(&mut lines, blank_line());
    push_line(
        &mut lines,
        line_of(
            language.text(
                "The configured update_version command will be used.",
                "将使用配置中的 update_version 命令。",
            ),
            Style::with_fg(Color::Subtle),
        ),
    );
    push_line(&mut lines, blank_line());
    push_line(&mut lines, modal_form_actions(language, false));
    lines
}

/// The lines of the dialog that confirms a custom command.
pub open spec fn add_lines(
    mode: CommandFormMode,
    name: Seq<char>,
    command: Seq<char>,
    language: Language,
) -> Seq<LineView> {
    seq![
        LineView::one((if mode == CommandFormMode::Add {
                    language.pick("Save this custom update command?"@, "保存这条自定义更新命令？"@)
                } else {
                    language.pick(
                        "Replace this custom update command?"@,
                        "更新这条自定义更新命令？"@,
                    )
            }), Style::of(None, None).heavy()),
        LineView::blank(),
        value_line(language.pick("Name"@, "名称"@), name, Color::Accent),
        value_line(language.pick("Command"@, "命令"@), command, Color::White),
        LineView::blank(),
        LineView::one(
            language.pick(
                "This saves the command only; it will not run now."@,
                "这里只保存命令，本次不会执行。"@,
            ),
            Style::of(Some(Color::Warning), None).heavy(),
        ),
        LineView::blank(),
        action_line(language, language.pick("save"@, "保存"@), language.pick("go back"@, "返回"@)),
    ]
}

/// The lines of the dialog that confirms a custom command.
pub fn add_text(
    mode: CommandFormMode,
    name: &str,
    command: &str,
    language: Language,
) -> (r: Vec<StyledLine>)
    ensures
        line_views(r@) == add_lines(mode, name@, command@, language),
{
    let mut lines: Vec<StyledLine> = Vec::new();
    proof { lemma_no_pieces(); }
    push_line(&mut lines, line_of((if mode == CommandFormMode::Add {
                    language.text("Save this custom update command?", "保存这条自定义更新命令？")
                } else {
                    language.text("Replace this custom update command?", "更新这条自定义更新命令？")
            }), Style::plain().bold()));
    push_line(&mut lines, blank_line());
    push_line(&mut lines, labeled_value(language.text("Name", "名称"), name, Color::Accent));
    push_line(&mut lines, labeled_value(language.text("Command", "命令"), command, Color::White));
    push_line(&mut lines, blank_line());
    push_line(
        &mut lines,
        line_of(
            language.text(
                "This saves the command only; it will not run now.",
                "这里只保存命令，本次不会执行。",
            ),
            Style::with_fg(Color::Warning).bold(),
        ),
    );
    push_line(&mut lines, blank_line());
    push_line(
        &mut lines,
        modal_actions(language, language.text("save", "保存"), language.text("go back", "返回")),
    );
    lines
}

/// The lines of the dialog that confirms a deletion.
pub open spec fn delete_lines(name: Seq<char>, language: Language) -> Seq<LineView> {
    seq![
        LineView::one(
            language.pick("Remove this custom update command?"@, "删除这条自定义更新命令？"@),
            Style::of(None, None).heavy(),
        ),
        LineView::blank(),
        LineView::one(name, Style::of(Some(Color::Error), None)),
        LineView::blank(),
        action_line(language, language.pick("remove"@, "删除"@), language.pick("cancel"@, "取消"@)),
    ]
}

/// The lines of the dialog that confirms a deletion.
pub fn delete_text(name: &str, language: Language) -> (r: Vec<StyledLine>)
    ensures
        line_views(r@) == delete_lines(name@, language),
{
    let mut lines: Vec<StyledLine> = Vec::new();
    proof { lemma_no_pieces(); }
    push_line(
        &mut lines,
        line_of(
            language.text("Remove this custom update command?", "删除这条自定义更新命令？"),
            Style::plain().bold(),
        ),
    );
    push_line(&mut lines, blank_line());
    push_line(&mut lines, line_of(name, Style::with_fg(Color::Error)));
    push_line(&mut lines, blank_line());
    push_line(
        &mut lines,
        modal_actions(language, language.text("remove", "删除"), language.text("cancel", "取消")),
    );
    lines
}

/// The lines of the dialog that confirms uninstalling a tool.
pub open spec fn uninstall_lines(
    name: Seq<char>,
    command: Seq<char>,
    derived: bool,
    language: Language,
) -> Seq<LineView> {
    seq![
        LineView::one(
            language.pick(
                "Uninstall this tool? Its declaration is kept."@,
                "卸载这个工具？声明会保留。"@,
            ),
            Style::of(None, None).heavy(),
        ),
        LineView::blank(),
        value_line(language.pick("Name"@, "名称"@), name, Color::Error),
        value_line(language.pick("Command"@, "命令"@), command, Color::White),
        if derived {
            LineView::one(
                language.pick(
                    "Derived from the update command; the declaration does not hold it."@,
                    "由更新命令推导而来，声明文件中没有这条命令。"@,
                ),
                Style::of(Some(Color::Warning), None).heavy(),
            )
        } else {
            LineView::blank()
        },
        LineView::blank(),
        action_line(
            language,
            language.pick("uninstall"@, "卸载"@),
            language.pick("cancel"@, "取消"@),
        ),
    ]
}

/// The lines of the dialog that confirms uninstalling a tool.
pub fn uninstall_text(name: &str, command: &str, derived: bool, language: Language) -> (r: Vec<
    StyledLine,
>)
    ensures
        line_views(r@) == uninstall_lines(name@, command@, derived, language),
{
    let mut lines: Vec<StyledLine> = Vec::new();
    proof { lemma_no_pieces(); }
    push_line(
        &mut lines,
        line_of(
            language.text(
                "Uninstall this tool? Its declaration is kept.",
                "卸载这个工具？声明会保留。",
            ),
            Style::plain().bold(),
        ),
    );
    push_line(&mut lines, blank_line());
    push_line(
        &mut lines,
        labeled_value(language.text("Name", "名称"), name, Color::Error),
    );
    push_line(
        &mut lines,
        labeled_value(language.text("Command", "命令"), command, Color::White),
    );
    let note = if derived {
        line_of(
            language.text(
                "Derived from the update command; the declaration does not hold it.",
                "由更新命令推导而来，声明文件中没有这条命令。",
            ),
            Style::with_fg(Color::Warning).bold(),
        )
    } else {
        blank_line()
    };
    push_line(&mut lines, note);
    push_line(&mut lines, blank_line());
    push_line(
        &mut lines,
        modal_actions(
            language,
            language.text("uninstall", "卸载"),
            language.text("cancel", "取消"),
        ),
    );
    lines
}

/// The lines of the form of a custom command, `width` columns wide.
pub open spec fn command_lines(
    form: CommandFormView,
    language: Language,
    width: u16,
) -> Seq<LineView> {
    seq![
        LineView::one((if form.mode == CommandFormMode::Add {
                    language.pick(
                        "Create a user-level update command."@,
                        "创建一条用户级更新命令。"@,
                    )
                } else {
                    language.pick(
                        "Edit or rename the selected custom command."@,
                        "编辑或重命名选中的自定义命令。"@,
                    )
            }), Style::of(Some(Color::Dim), None)),
        LineView::blank(),
        input_line(
            form.field == 0,
            language.pick("Name"@, "名称"@),
            form.name,
            "codex"@,
            value_width(width, language.pick("Name"@, "名称"@)),
        ),
        input_line(
            form.field == 1,
            language.pick("Command"@, "命令"@),
            form.command,
            "codex update"@,
            value_width(width, language.pick("Command"@, "命令"@)),
        ),
        LineView::blank(),
        LineView::one(
            language.pick("Examples"@, "示例"@),
            Style::of(Some(Color::Dim), None).heavy(),
        ),
        LineView::one("  codex update"@, Style::of(Some(Color::Subtle), None)),
        LineView::one("  npm install -g package@latest"@, Style::of(Some(Color::Subtle), None)),
        LineView::one("  pnpm add -g package@latest"@, Style::of(Some(Color::Subtle), None)),
        LineView::one("  brew upgrade ripgrep"@, Style::of(Some(Color::Subtle), None)),
        LineView::blank(),
        form_action_line(language, true),
    ]
}

/// The lines of the form of a custom command, `width` columns wide.
pub fn command_text(form: &CommandForm, language: Language, width: u16) -> (r: Vec<StyledLine>)
    requires
        form.wf(),
    ensures
        line_views(r@) == command_lines(form@, language, width),
{
    let name = language.text("Name", "名称");
    let command = language.text("Command", "命令");
    let mut lines: Vec<StyledLine> = Vec::new();
    proof { lemma_no_pieces(); }
    push_line(&mut lines, line_of((if form.mode == CommandFormMode::Add {
                    language.text("Create a user-level update command.", "创建一条用户级更新命令。")
                } else {
                    language.text(
                        "Edit or rename the selected custom command.",
                        "编辑或重命名选中的自定义命令。",
                    )
            }), Style::with_fg(Color::Dim)));
    push_line(&mut lines, blank_line());
    push_line(
        &mut lines,
        modal_input_line(
            form.field == 0,
            name,
            &form.name,
            "codex",
            input_value_width(width, name),
        ),
    );
    push_line(
        &mut lines,
        modal_input_line(
            form.field == 1,
            command,
            &form.command,
            "codex update",
            input_value_width(width, command),
        ),
    );
    push_line(&mut lines, blank_line());
    push_line(
        &mut lines,
        line_of(language.text("Examples", "示例"), Style::with_fg(Color::Dim).bold()),
    );
    push_line(&mut lines, line_of("  codex update", Style::with_fg(Color::Subtle)));
    push_line(
        &mut lines,
        line_of("  npm install -g package@latest", Style::with_fg(Color::Subtle)),
    );
    push_line(&mut lines, line_of("  pnpm add -g package@latest", Style::with_fg(Color::Subtle)));
    push_line(&mut lines, line_of("  brew upgrade ripgrep", Style::with_fg(Color::Subtle)));
    push_line(&mut lines, blank_line());
    push_line(&mut lines, modal_form_actions(language, true));
    lines
}

/// The label of a field of the form of a repository.
pub open spec fn monitor_label(field: int, language: Language) -> Seq<char> {
    if field == 0 {
        language.pick("Name"@, "名称"@)
    } else if field == 1 {
        language.pick("Repository"@, "仓库"@)
    } else if field == 2 {
        language.pick("Asset regex"@, "资产正则"@)
    } else if field == 3 {
        language.pick("Target directory"@, "目标目录"@)
    } else if field == 4 {
        language.pick("Format"@, "格式"@)
    } else if field == 5 {
        language.pick("Update policy"@, "更新策略"@)
    } else if field == 6 {
        language.pick("Clean installer"@, "清理安装包"@)
    } else if field == 7 {
        language.pick("Max download bytes"@, "最大下载字节数"@)
    } else if field == 8 {
        language.pick("Max extracted bytes"@, "最大解压字节数"@)
    } else if field == 9 {
        language.pick("Max extracted files"@, "最大文件数"@)
    } else if field == 10 {
        language.pick("Strip components"@, "剥离路径层级"@)
    } else {
        language.pick("Enabled"@, "启用"@)
    }
}

/// The label of a field of the form of a repository.
pub fn monitor_field_label(field: usize, language: Language) -> (r: &'static str)
    ensures
        r@ == monitor_label(field as int, language),
{
    if field == 0 {
        language.text("Name", "名称")
    } else if field == 1 {
        language.text("Repository", "仓库")
    } else if field == 2 {
        language.text("Asset regex", "资产正则")
    } else if field == 3 {
        language.text("Target directory", "目标目录")
    } else if field == 4 {
        language.text("Format", "格式")
    } else if field == 5 {
        language.text("Update policy", "更新策略")
    } else if field == 6 {
        language.text("Clean installer", "清理安装包")
    } else if field == 7 {
        language.text("Max download bytes", "最大下载字节数")
    } else if field == 8 {
        language.text("Max extracted bytes", "最大解压字节数")
    } else if field == 9 {
        language.text("Max extracted files", "最大文件数")
    } else if field == 10 {
        language.text("Strip components", "剥离路径层级")
    } else {
        language.text("Enabled", "启用")
    }
}

/// The fewest columns that are left behind the labels of the first `n` fields.
pub open spec fn least_width(width: u16, language: Language, n: int) -> int
decreases n,
{
    if n <= 1 {
        value_width(width, monitor_label(0, language))
    } else {
        at_most(
            least_width(width, language, n - 1),
            value_width(width, monitor_label(n - 1, language)),
        )
    }
}

/// The columns for the texts of the form of a repository.
pub open spec fn monitor_width(width: u16, language: Language) -> int {
    least_width(width, language, GITHUB_MONITOR_FORM_FIELD_COUNT as int)
}

/// The columns for the texts of the form of a repository.
pub fn monitor_value_width(width: u16, language: Language) -> (r: usize)
    ensures
        r == monitor_width(width, language),
{
    let mut least: usize = input_value_width(width, monitor_field_label(0, language));
    let mut n: usize = 1;
    while n < GITHUB_MONITOR_FORM_FIELD_COUNT
        invariant
            1 <= n <= GITHUB_MONITOR_FORM_FIELD_COUNT,
            least == least_width(width, language, n as int),
        decreases GITHUB_MONITOR_FORM_FIELD_COUNT - n,
    {
        let here: usize = input_value_width(width, monitor_field_label(n, language));
        if here < least {
            least = here;
        }
        n += 1;
    }
    least
}

/// The word for what becomes of an installer.
pub open spec fn cleanup_word(cleanup: bool, language: Language) -> Seq<char> {
    if cleanup {
        language.pick("enabled"@, "自动清理"@)
    } else {
        language.pick("keep"@, "保留"@)
    }
}

fn cleanup_label(cleanup: bool, language: Language) -> (r: &'static str)
    ensures
        r@ == cleanup_word(cleanup, language),
{
    if cleanup {
        language.text("enabled", "自动清理")
    } else {
        language.text("keep", "保留")
    }
}

/// The word for a repository that is looked at or not.
pub open spec fn monitor_switch(enabled: bool, language: Language) -> Seq<char> {
    if enabled {
        language.pick("enabled"@, "已启用"@)
    } else {
        language.pick("disabled"@, "已停用"@)
    }
}

fn monitor_switch_label(enabled: bool, language: Language) -> (r: &'static str)
    ensures
        r@ == monitor_switch(enabled, language),
{
    if enabled {
        language.text("enabled", "已启用")
    } else {
        language.text("disabled", "已停用")
    }
}

/// The keys of the form of a repository.
pub open spec fn monitor_keys(language: Language) -> LineView {
    LineView::of(
        seq![
            styled("[Tab/↑↓]"@, Style::of(Some(Color::Accent), None)),
            styled(language.pick(" field  "@, " 切换字段  "@), Style::of(None, None)),
            styled("[←/→/Space]"@, Style::of(Some(Color::Accent), None)),
            styled(language.pick(" choice  "@, " 切换选项  "@), Style::of(None, None)),
            styled("[Enter/Ctrl+S]"@, Style::of(Some(Color::Success), None)),
            styled(language.pick(" save  "@, " 保存  "@), Style::of(None, None)),
            styled("[Esc]"@, Style::of(Some(Color::Error), None)),
            styled(language.pick(" back"@, " 返回"@), Style::of(None, None)),
        ],
    )
}

/// The keys of the form of a repository.
pub fn monitor_keys_text(language: Language) -> (r: StyledLine)
    ensures
        r@ == monitor_keys(language),
{
    let mut line = blank_line();
    line.put("[Tab/↑↓]", Style::with_fg(Color::Accent));
    line.put(language.text(" field  ", " 切换字段  "), Style::plain());
    line.put("[←/→/Space]", Style::with_fg(Color::Accent));
    line.put(language.text(" choice  ", " 切换选项  "), Style::plain());
    line.put("[Enter/Ctrl+S]", Style::with_fg(Color::Success));
    line.put(language.text(" save  ", " 保存  "), Style::plain());
    line.put("[Esc]", Style::with_fg(Color::Error));
    line.put(language.text(" back", " 返回"), Style::plain());
    line
}

/// The lines of the form of a repository for what is installed, and where;
/// `placeholder` stands where no target directory is given.
pub open spec fn monitor_source_lines(
    form: MonitorFormView,
    language: Language,
    width: u16,
    placeholder: Seq<char>,
) -> Seq<LineView> {
    seq![
        LineView::one(
            language.pick(
                "Fields are strict: owner/repo, a valid Rust regex, and an absolute target path."@,
                "字段严格校验：owner/repo、有效的 Rust 正则表达式，且目标路径必须为绝对路径。"@,
            ),
            Style::of(Some(Color::Dim), None),
        ),
        LineView::blank(),
        input_line(
            form.field == 0,
            monitor_label(0, language),
            form.name,
            "deno"@,
            monitor_width(width, language),
        ),
        input_line(
            form.field == 1,
            monitor_label(1, language),
            form.repository,
            "denoland/deno"@,
            monitor_width(width, language),
        ),
        input_line(
            form.field == 2,
            monitor_label(2, language),
            form.asset_regex,
            "^deno-.*-x86_64-pc-windows-msvc\\.zip$"@,
            monitor_width(width, language),
        ),
        input_line(
            form.field == 3,
            monitor_label(3, language),
            form.target_directory,
            placeholder,
            monitor_width(width, language),
        ),
    ]
}

fn push_monitor_source(
    lines: &mut Vec<StyledLine>,
    form: &MonitorForm,
    language: Language,
    width: u16,
    placeholder: &str,
)
    requires
        form.wf(),
    ensures
        line_views(final(lines)@) == line_views(old(lines)@) + monitor_source_lines(
            form@,
            language,
            width,
            placeholder@,
        ),
{
    let ghost before = line_views(lines@);
    let columns: usize = monitor_value_width(width, language);
    push_line(
        lines,
        line_of(
            language.text(
                "Fields are strict: owner/repo, a valid Rust regex, and an absolute target path.",
                "字段严格校验：owner/repo、有效的 Rust 正则表达式，且目标路径必须为绝对路径。",
            ),
            Style::with_fg(Color::Dim),
        ),
    );
    push_line(lines, blank_line());
    push_line(
        lines,
        modal_input_line(
            form.field == 0,
            monitor_field_label(0, language),
            &form.name,
            "deno",
            columns,
        ),
    );
    push_line(
        lines,
        modal_input_line(
            form.field == 1,
            monitor_field_label(1, language),
            &form.repository,
            "denoland/deno",
            columns,
        ),
    );
    push_line(
        lines,
        modal_input_line(
            form.field == 2,
            monitor_field_label(2, language),
            &form.asset_regex,
            "^deno-.*-x86_64-pc-windows-msvc\\.zip$",
            columns,
        ),
    );
    push_line(
        lines,
        modal_input_line(
            form.field == 3,
            monitor_field_label(3, language),
            &form.target_directory,
            placeholder,
            columns,
        ),
    );
    assert(line_views(lines@) =~= before + monitor_source_lines(
        form@,
        language,
        width,
        placeholder@,
    ));
}

/// The lines of the form of a repository for how releases are installed.
pub open spec fn monitor_choice_lines(form: MonitorFormView, language: Language) -> Seq<LineView> {
    seq![
        choice_line(form.field == 4, monitor_label(4, language), format_name(form.format)),
        choice_line(
            form.field == 5,
            monitor_label(5, language),
            policy_name(form.update_policy, language),
        ),
        choice_line(
            form.field == 6,
            monitor_label(6, language),
            cleanup_word(form.cleanup_installer, language),
        ),
    ]
}

fn push_monitor_choices(lines: &mut Vec<StyledLine>, form: &MonitorForm, language: Language)
    requires
        form.wf(),
    ensures
        line_views(final(lines)@) == line_views(old(lines)@) + monitor_choice_lines(
            form@,
            language,
        ),
{
    let ghost before = line_views(lines@);
    push_line(
        lines,
        choice_text(
            form.field == 4,
            monitor_field_label(4, language),
            release_format_label(form.format),
        ),
    );
    push_line(
        lines,
        choice_text(
            form.field == 5,
            monitor_field_label(5, language),
            release_update_policy_label(form.update_policy, language),
        ),
    );
    push_line(
        lines,
        choice_text(
            form.field == 6,
            monitor_field_label(6, language),
            cleanup_label(form.cleanup_installer, language),
        ),
    );
    assert(line_views(lines@) =~= before + monitor_choice_lines(form@, language));
}

/// The lines of the form of a repository for the limits of a release.
pub open spec fn monitor_limit_lines(
    form: MonitorFormView,
    language: Language,
    width: u16,
) -> Seq<LineView> {
    seq![
        input_line(
            form.field == 7,
            monitor_label(7, language),
            form.max_download_bytes,
            "536870912"@,
            monitor_width(width, language),
        ),
        input_line(
            form.field == 8,
            monitor_label(8, language),
            form.max_extracted_bytes,
            "2147483648 (file: 0)"@,
            monitor_width(width, language),
        ),
        input_line(
            form.field == 9,
            monitor_label(9, language),
            form.max_extracted_files,
            "10000 (file: 0)"@,
            monitor_width(width, language),
        ),
        input_line(
            form.field == 10,
            monitor_label(10, language),
            form.strip_components,
            "0"@,
            monitor_width(width, language),
        ),
    ]
}

fn push_monitor_limits(
    lines: &mut Vec<StyledLine>,
    form: &MonitorForm,
    language: Language,
    width: u16,
)
    requires
        form.wf(),
    ensures
        line_views(final(lines)@) == line_views(old(lines)@) + monitor_limit_lines(
            form@,
            language,
            width,
        ),
{
    let ghost before = line_views(lines@);
    let columns: usize = monitor_value_width(width, language);
    push_line(
        lines,
        modal_input_line(
            form.field == 7,
            monitor_field_label(7, language),
            &form.max_download_bytes,
            "536870912",
            columns,
        ),
    );
    push_line(
        lines,
        modal_input_line(
            form.field == 8,
            monitor_field_label(8, language),
            &form.max_extracted_bytes,
            "2147483648 (file: 0)",
            columns,
        ),
    );
    push_line(
        lines,
        modal_input_line(
            form.field == 9,
            monitor_field_label(9, language),
            &form.max_extracted_files,
            "10000 (file: 0)",
            columns,
        ),
    );
    push_line(
        lines,
        modal_input_line(
            form.field == 10,
            monitor_field_label(10, language),
            &form.strip_components,
            "0",
            columns,
        ),
    );
    assert(line_views(lines@) =~= before + monitor_limit_lines(form@, language, width));
}

/// The last lines of the form of a repository.
pub open spec fn monitor_end_lines(form: MonitorFormView, language: Language) -> Seq<LineView> {
    seq![
        choice_line(
            form.field == 11,
            monitor_label(11, language),
            monitor_switch(form.enabled, language),
        ),
        LineView::blank(),
        monitor_keys(language),
    ]
}

fn push_monitor_end(lines: &mut Vec<StyledLine>, form: &MonitorForm, language: Language)
    requires
        form.wf(),
    ensures
        line_views(final(lines)@) == line_views(old(lines)@) + monitor_end_lines(form@, language),
{
    let ghost before = line_views(lines@);
    push_line(
        lines,
        choice_text(
            form.field == 11,
            monitor_field_label(11, language),
            monitor_switch_label(form.enabled, language),
        ),
    );
    push_line(lines, blank_line());
    push_line(lines, monitor_keys_text(language));
    assert(line_views(lines@) =~= before + monitor_end_lines(form@, language));
}

/// The lines of the form of a repository, `width` columns wide; `placeholder`
/// stands where no target directory is given.
pub open spec fn monitor_lines(
    form: MonitorFormView,
    language: Language,
    width: u16,
    placeholder: Seq<char>,
) -> Seq<LineView> {
    monitor_source_lines(form, language, width, placeholder) + monitor_choice_lines(form, language)
        + monitor_limit_lines(form, language, width) + monitor_end_lines(form, language)
}

/// The lines of the form of a repository, `width` columns wide.
pub fn monitor_text(
    form: &MonitorForm,
    language: Language,
    width: u16,
    placeholder: &str,
) -> (r: Vec<StyledLine>)
    requires
        form.wf(),
    ensures
        line_views(r@) == monitor_lines(form@, language, width, placeholder@),
{
    let mut lines: Vec<StyledLine> = Vec::new();
    proof {
        lemma_no_pieces();
    }
    push_monitor_source(&mut lines, form, language, width, placeholder);
    assert(line_views(lines@) =~= monitor_source_lines(form@, language, width, placeholder@));
    push_monitor_choices(&mut lines, form, language);
    push_monitor_limits(&mut lines, form, language, width);
    push_monitor_end(&mut lines, form, language);
    lines
}

/// The name and the repository of a monitor, as far as there is one.
pub open spec fn monitor_named(
    monitors: Seq<GithubReleaseMonitor>,
    index: usize,
) -> (Seq<char>, Seq<char>) {
    if index < monitors.len() {
        (monitors[index as int].name@, monitors[index as int].repository@)
    } else {
        ("—"@, "—"@)
    }
}

/// The lines of the dialog that confirms deleting a repository.
pub open spec fn delete_monitor_lines(
    monitors: Seq<GithubReleaseMonitor>,
    index: usize,
    language: Language,
) -> Seq<LineView> {
    seq![
        LineView::one(
            language.pick("Remove this GitHub repository monitor?"@, "删除这项 GitHub 仓库监控？"@),
            Style::of(None, None).heavy(),
        ),
        LineView::blank(),
        value_line(language.pick("Name"@, "名称"@), monitor_named(monitors, index).0, Color::Error),
        value_line(
            language.pick("Repository"@, "仓库"@),
            monitor_named(monitors, index).1,
            Color::Accent,
        ),
        LineView::blank(),
        action_line(language, language.pick("delete"@, "删除"@), language.pick("cancel"@, "取消"@)),
    ]
}

/// The lines of the dialog that confirms deleting a repository.
pub fn delete_monitor_text(
    monitors: &Vec<GithubReleaseMonitor>,
    index: usize,
    language: Language,
) -> (r: Vec<StyledLine>)
    ensures
        line_views(r@) == delete_monitor_lines(monitors@, index, language),
{
    let name = if index < monitors.len() {
        monitors[index].name.as_str()
    } else {
        "—"
    };
    let repository = if index < monitors.len() {
        monitors[index].repository.as_str()
    } else {
        "—"
    };
    let mut lines: Vec<StyledLine> = Vec::new();
    proof { lemma_no_pieces(); }
    push_line(
        &mut lines,
        line_of(
            language.text("Remove this GitHub repository monitor?", "删除这项 GitHub 仓库监控？"),
            Style::plain().bold(),
        ),
    );
    push_line(&mut lines, blank_line());
    push_line(&mut lines, labeled_value(language.text("Name", "名称"), name, Color::Error));
    push_line(
        &mut lines,
        labeled_value(language.text("Repository", "仓库"), repository, Color::Accent),
    );
    push_line(&mut lines, blank_line());
    push_line(
        &mut lines,
        modal_actions(language, language.text("delete", "删除"), language.text("cancel", "取消")),
    );
    lines
}

/// The lines of the dialog of the interval, `width` columns wide.
pub open spec fn interval_lines(
    seconds: InputView,
    language: Language,
    width: u16,
) -> Seq<LineView> {
    seq![
        LineView::one(
            language.pick(
                "How often to check enabled repositories (60–86400 seconds)."@,
                "已启用仓库的检查频率（60–86400 秒）。"@,
            ),
            Style::of(Some(Color::Dim), None),
        ),
        LineView::blank(),
        input_line(
            true,
            language.pick("Seconds"@, "秒数"@),
            seconds,
            "1800"@,
            value_width(width, language.pick("Seconds"@, "秒数"@)),
        ),
        LineView::blank(),
        form_action_line(language, false),
    ]
}

/// The lines of the dialog of the interval, `width` columns wide.
pub fn interval_text(seconds: &TextInput, language: Language, width: u16) -> (r: Vec<StyledLine>)
    requires
        seconds.wf(),
    ensures
        line_views(r@) == interval_lines(seconds@, language, width),
{
    let label = language.text("Seconds", "秒数");
    let mut lines: Vec<StyledLine> = Vec::new();
    proof { lemma_no_pieces(); }
    push_line(
        &mut lines,
        line_of(
            language.text(
                "How often to check enabled repositories (60–86400 seconds).",
                "已启用仓库的检查频率（60–86400 秒）。",
            ),
            Style::with_fg(Color::Dim),
        ),
    );
    push_line(&mut lines, blank_line());
    push_line(
        &mut lines,
        modal_input_line(true, label, seconds, "1800", input_value_width(width, label)),
    );
    push_line(&mut lines, blank_line());
    push_line(&mut lines, modal_form_actions(language, false));
    lines
}

/// The line of the API key, hidden.
pub open spec fn hidden_line(input: InputView, language: Language, width: u16) -> LineView {
    LineView::of(
        seq![
            styled("› "@, Style::of(Some(Color::Accent), None)),
            styled(
                language.pick("API key"@, "API Key"@) + "  "@,
                Style::of(Some(Color::Accent), None),
            ),
            styled(
                hidden_text(input, value_width(width, language.pick("API key"@, "API Key"@))),
                Style::of(Some(Color::Success), Some(Color::Surface)),
            ),
        ],
    )
}

/// The line of the API key, hidden.
pub fn hidden_value(input: &TextInput, language: Language, width: u16) -> (r: StyledLine)
    requires
        input.wf(),
    ensures
        r@ == hidden_line(input@, language, width),
{
    let label = language.text("API key", "API Key");
    let mut line = blank_line();
    line.put("› ", Style::with_fg(Color::Accent));
    line.put(join2(label, "  ").as_str(), Style::with_fg(Color::Accent));
    line.put(
        mask(input, input_value_width(width, label)).as_str(),
        Style::on(Color::Success, Color::Surface),
    );
    line
}

/// The lines of the dialog of the API key, `width` columns wide.
pub open spec fn api_key_lines(
    api_key: InputView,
    language: Language,
    width: u16,
) -> Seq<LineView> {
    seq![
        LineView::one(
            language.pick(
                "Encrypted into settings.toml; plaintext is never persisted."@,
                "加密保存到 settings.toml；绝不持久化明文。"@,
            ),
            Style::of(Some(Color::Dim), None),
        ),
        LineView::blank(),
        hidden_line(api_key, language, width),
        LineView::blank(),
        LineView::one(
            language.pick(
                "[Enter] save · empty input removes · [Esc] cancel"@,
                "[Enter] 保存 · 留空删除 · [Esc] 取消"@,
            ),
            Style::of(Some(Color::Subtle), None),
        ),
    ]
}

/// The lines of the dialog of the API key, `width` columns wide.
pub fn api_key_text(api_key: &TextInput, language: Language, width: u16) -> (r: Vec<StyledLine>)
    requires
        api_key.wf(),
    ensures
        line_views(r@) == api_key_lines(api_key@, language, width),
{
    let mut lines: Vec<StyledLine> = Vec::new();
    proof { lemma_no_pieces(); }
    push_line(
        &mut lines,
        line_of(
            language.text(
                "Encrypted into settings.toml; plaintext is never persisted.",
                "加密保存到 settings.toml；绝不持久化明文。",
            ),
            Style::with_fg(Color::Dim),
        ),
    );
    push_line(&mut lines, blank_line());
    push_line(&mut lines, hidden_value(api_key, language, width));
    push_line(&mut lines, blank_line());
    push_line(
        &mut lines,
        line_of(
            language.text(
                "[Enter] save · empty input removes · [Esc] cancel",
                "[Enter] 保存 · 留空删除 · [Esc] 取消",
            ),
            Style::with_fg(Color::Subtle),
        ),
    );
    lines
}

/// How the name of a mode looks; `chosen` where it is the one.
pub open spec fn mode_look(chosen: bool) -> Style {
    if chosen {
        Style::of(Some(Color::Success), None).heavy()
    } else {
        Style::of(Some(Color::Subtle), None)
    }
}

fn mode_style(chosen: bool) -> (r: Style)
    ensures
        r == mode_look(chosen),
{
    if chosen {
        Style::with_fg(Color::Success).bold()
    } else {
        Style::with_fg(Color::Subtle)
    }
}

/// The line with the modes of the proxy.
pub open spec fn mode_line(mode: ProxyMode, active: bool, language: Language) -> LineView {
    LineView::of(
        seq![
            styled(marker(active), marker_look(active)),
            styled(language.pick("Proxy mode"@, "代理模式"@) + "  "@, label_look(active)),
            styled(if mode == ProxyMode::Environment {
                    "[environment]"@
                } else {
                    " environment "@
                }, mode_look(mode == ProxyMode::Environment)),
            styled("  "@, Style::of(None, None)),
            styled(if mode == ProxyMode::Explicit {
                    "[explicit]"@
                } else {
                    " explicit "@
                }, mode_look(mode == ProxyMode::Explicit)),
            styled("  "@, Style::of(None, None)),
            styled(if mode == ProxyMode::Direct {
                    "[direct]"@
                } else {
                    " direct "@
                }, mode_look(mode == ProxyMode::Direct)),
        ],
    ).over(if active {
            Style::of(None, Some(Color::Surface))
        } else {
            Style::of(None, Some(Color::PanelBg))
    })
}

/// The line with the modes of the proxy.
pub fn mode_text(mode: ProxyMode, active: bool, language: Language) -> (r: StyledLine)
    ensures
        r@ == mode_line(mode, active, language),
{
    let mut line = blank_line();
    line.put(marker_text(active), marker_style(active));
    line.put(join2(language.text("Proxy mode", "代理模式"), "  ").as_str(), label_style(active));
    line.put(if mode == ProxyMode::Environment {
            "[environment]"
        } else {
            " environment "
        }, mode_style(mode == ProxyMode::Environment));
    line.put("  ", Style::plain());
    line.put(if mode == ProxyMode::Explicit {
            "[explicit]"
        } else {
            " explicit "
        }, mode_style(mode == ProxyMode::Explicit));
    line.put("  ", Style::plain());
    line.put(if mode == ProxyMode::Direct {
            "[direct]"
        } else {
            " direct "
        }, mode_style(mode == ProxyMode::Direct));
    line.style = field_style(active);
    line
}

/// A line of text that the mode of the proxy does not use.
pub open spec fn disabled_line(label: Seq<char>, language: Language) -> LineView {
    LineView::of(
        seq![
            styled("  "@, Style::of(None, None)),
            styled(label + "  "@, Style::of(Some(Color::Dim), None)),
            styled(
                language.pick("— explicit mode only"@, "— 仅显式模式可用"@),
                Style::of(Some(Color::Subtle), None),
            ),
        ],
    )
}

/// A line of text that the mode of the proxy does not use.
pub fn disabled_input(label: &str, language: Language) -> (r: StyledLine)
    ensures
        r@ == disabled_line(label@, language),
{
    let mut line = blank_line();
    line.put("  ", Style::plain());
    line.put(join2(label, "  ").as_str(), Style::with_fg(Color::Dim));
    line.put(
        language.text("— explicit mode only", "— 仅显式模式可用"),
        Style::with_fg(Color::Subtle),
    );
    line
}

/// What a mode of the proxy means.
pub open spec fn mode_meaning(mode: ProxyMode, language: Language) -> Seq<char> {
    match mode {
        ProxyMode::Environment => language.pick(
            "Inherit standard proxy variables from the environment."@,
            "继承环境中的标准代理变量。"@,
        ),
        ProxyMode::Explicit => language.pick(
            "Use only the HTTP/HTTPS proxy configured here."@,
            "只使用此处配置的 HTTP/HTTPS 代理。"@,
        ),
        ProxyMode::Direct => language.pick(
            "Connect directly and remove proxy variables from update commands."@,
            "直接连接，并从更新命令中移除代理变量。"@,
        ),
    }
}

fn mode_description(mode: ProxyMode, language: Language) -> (r: &'static str)
    ensures
        r@ == mode_meaning(mode, language),
{
    match mode {
        ProxyMode::Environment => language.text(
            "Inherit standard proxy variables from the environment.",
            "继承环境中的标准代理变量。",
        ),
        ProxyMode::Explicit => language.text(
            "Use only the HTTP/HTTPS proxy configured here.",
            "只使用此处配置的 HTTP/HTTPS 代理。",
        ),
        ProxyMode::Direct => language.text(
            "Connect directly and remove proxy variables from update commands.",
            "直接连接，并从更新命令中移除代理变量。",
        ),
    }
}

/// The keys that move in the form of the proxy.
pub open spec fn proxy_keys(language: Language) -> LineView {
    LineView::of(
        seq![
            styled("[←/→/Space]"@, Style::of(Some(Color::Accent), None)),
            styled(language.pick(" mode    "@, " 模式    "@), Style::of(None, None)),
            styled("[Tab/↑↓]"@, Style::of(Some(Color::Accent), None)),
            styled(language.pick(" field"@, " 切换栏"@), Style::of(None, None)),
        ],
    )
}

/// The keys that move in the form of the proxy.
pub fn proxy_keys_text(language: Language) -> (r: StyledLine)
    ensures
        r@ == proxy_keys(language),
{
    let mut line = blank_line();
    line.put("[←/→/Space]", Style::with_fg(Color::Accent));
    line.put(language.text(" mode    ", " 模式    "), Style::plain());
    line.put("[Tab/↑↓]", Style::with_fg(Color::Accent));
    line.put(language.text(" field", " 切换栏"), Style::plain());
    line
}

/// The keys that save the form of the proxy or leave it.
pub open spec fn proxy_actions(language: Language) -> LineView {
    LineView::of(
        seq![
            styled("[Ctrl+S]"@, Style::of(Some(Color::Success), None)),
            styled(language.pick(" save    "@, " 保存    "@), Style::of(None, None)),
            styled("[Enter]"@, Style::of(Some(Color::Success), None)),
            styled(language.pick(" next/save    "@, " 下一步/保存    "@), Style::of(None, None)),
            styled("[Esc]"@, Style::of(Some(Color::Error), None)),
            styled(language.pick(" cancel"@, " 取消"@), Style::of(None, None)),
        ],
    )
}

/// The keys that save the form of the proxy or leave it.
pub fn proxy_actions_text(language: Language) -> (r: StyledLine)
    ensures
        r@ == proxy_actions(language),
{
    let mut line = blank_line();
    line.put("[Ctrl+S]", Style::with_fg(Color::Success));
    line.put(language.text(" save    ", " 保存    "), Style::plain());
    line.put("[Enter]", Style::with_fg(Color::Success));
    line.put(language.text(" next/save    ", " 下一步/保存    "), Style::plain());
    line.put("[Esc]", Style::with_fg(Color::Error));
    line.put(language.text(" cancel", " 取消"), Style::plain());
    line
}

/// The lines of the form of the proxy, `width` columns wide.
pub open spec fn proxy_lines(form: ProxyFormView, language: Language, width: u16) -> Seq<LineView> {
    seq![
        LineView::one(
            language.pick(
                "Choose how dvup and update commands connect to the network."@,
                "选择 dvup 和更新命令的联网方式。"@,
            ),
            Style::of(Some(Color::Dim), None),
        ),
        LineView::blank(),
        mode_line(form.mode, form.field == 0, language),
        if form.mode == ProxyMode::Explicit {
            input_line(
                form.field == 1,
                language.pick("Proxy URL"@, "代理地址"@),
                form.url,
                "http://127.0.0.1:7890"@,
                value_width(width, language.pick("Proxy URL"@, "代理地址"@)),
            )
        } else {
            disabled_line(language.pick("Proxy URL"@, "代理地址"@), language)
        },
        if form.mode == ProxyMode::Explicit {
            input_line(
                form.field == 2,
                language.pick("No proxy"@, "代理绕过"@),
                form.bypass,
                "localhost, .example.com"@,
                value_width(width, language.pick("No proxy"@, "代理绕过"@)),
            )
        } else {
            disabled_line(language.pick("No proxy"@, "代理绕过"@), language)
        },
        LineView::blank(),
        LineView::one(mode_meaning(form.mode, language), Style::of(Some(Color::Subtle), None)),
        LineView::one(
            language.pick(
                "No fallback. Explicit mode rejects credentials and SOCKS URLs."@,
                "不会回退；显式模式拒绝凭据和 SOCKS 地址。"@,
            ),
            Style::of(Some(Color::Subtle), None),
        ),
        LineView::blank(),
        proxy_keys(language),
        proxy_actions(language),
    ]
}

/// The lines of the form of the proxy, `width` columns wide.
pub fn proxy_text(form: &ProxyForm, language: Language, width: u16) -> (r: Vec<StyledLine>)
    requires
        form.wf(),
    ensures
        line_views(r@) == proxy_lines(form@, language, width),
{
    let explicit = form.proxy_mode == ProxyMode::Explicit;
    let url = language.text("Proxy URL", "代理地址");
    let bypass = language.text("No proxy", "代理绕过");
    let mut lines: Vec<StyledLine> = Vec::new();
    proof { lemma_no_pieces(); }
    push_line(
        &mut lines,
        line_of(
            language.text(
                "Choose how dvup and update commands connect to the network.",
                "选择 dvup 和更新命令的联网方式。",
            ),
            Style::with_fg(Color::Dim),
        ),
    );
    push_line(&mut lines, blank_line());
    push_line(&mut lines, mode_text(form.proxy_mode, form.field == 0, language));
    let line5 = if explicit {
        modal_input_line(
            form.field == 1,
            url,
            &form.proxy_url,
            "http://127.0.0.1:7890",
            input_value_width(width, url),
        )
    } else {
        disabled_input(url, language)
    };
    push_line(&mut lines, line5);
    let line6 = if explicit {
        modal_input_line(
            form.field == 2,
            bypass,
            &form.no_proxy,
            "localhost, .example.com",
            input_value_width(width, bypass),
        )
    } else {
        disabled_input(bypass, language)
    };
    push_line(&mut lines, line6);
    push_line(&mut lines, blank_line());
    push_line(
        &mut lines,
        line_of(mode_description(form.proxy_mode, language), Style::with_fg(Color::Subtle)),
    );
    push_line(
        &mut lines,
        line_of(
            language.text(
                "No fallback. Explicit mode rejects credentials and SOCKS URLs.",
                "不会回退；显式模式拒绝凭据和 SOCKS 地址。",
            ),
            Style::with_fg(Color::Subtle),
        ),
    );
    push_line(&mut lines, blank_line());
    push_line(&mut lines, proxy_keys_text(language));
    push_line(&mut lines, proxy_actions_text(language));
    lines
}

/// The title and the size of a dialog other than the TOML editor.
pub open spec fn dialog_frame(modal: ModalView, language: Language) -> (Seq<char>, u16, u16) {
    match modal {
        ModalView::ConfirmGithubMonitorUpdate { .. } => (
            language.pick("Install GitHub updates"@, "安装 GitHub 更新"@),
            78,
            12,
        ),
        ModalView::ConfirmUpdate { .. } => (
            language.pick("Confirm update"@, "确认更新"@),
            74,
            15,
        ),
        ModalView::TargetVersion { .. } => (
            language.pick("Choose version"@, "指定版本"@),
            68,
            10,
        ),
        ModalView::ConfirmAdd { mode, .. } => (
            if mode == CommandFormMode::Add {
                language.pick("Confirm add"@, "确认添加"@)
            } else {
                language.pick("Confirm edit"@, "确认编辑"@)
            },
            74,
            14,
        ),
        ModalView::ConfirmDelete { .. } => (
            language.pick("Confirm delete"@, "确认删除"@),
            62,
            9,
        ),
        ModalView::ConfirmUninstall { .. } => (
            language.pick("Confirm uninstall"@, "确认卸载"@),
            74,
            13,
        ),
        ModalView::AddCommand { form } => (
            if form.mode == CommandFormMode::Add {
                language.pick("Add command"@, "添加命令"@)
            } else {
                language.pick("Edit command"@, "编辑命令"@)
            },
            80,
            16,
        ),
        ModalView::GithubMonitorForm { form } => (
            if form.mode == MonitorFormMode::Add {
                language.pick("Add GitHub repository monitor"@, "添加 GitHub 仓库监控"@)
            } else {
                language.pick("Edit GitHub repository monitor"@, "编辑 GitHub 仓库监控"@)
            },
            104,
            22,
        ),
        ModalView::ConfirmDeleteGithubMonitor { .. } => (
            language.pick("Delete repository monitor"@, "删除仓库监控"@),
            72,
            10,
        ),
        ModalView::GithubPollInterval { .. } => (
            language.pick("Repository monitor interval"@, "仓库监控间隔"@),
            72,
            10,
        ),
        ModalView::GithubApiKey { .. } => (
            language.pick("GitHub API key"@, "GitHub API Key"@),
            76,
            10,
        ),
        ModalView::NetworkProxy { .. } => (
            language.pick("Network proxy"@, "网络代理"@),
            92,
            15,
        ),
        _ => (Seq::empty(), 0, 0),
    }
}

/// The title and the size of a dialog other than the TOML editor.
pub fn dialog_size(modal: &Modal, language: Language) -> (r: (&'static str, u16, u16))
    ensures
        (r.0@, r.1, r.2) == dialog_frame(modal@, language),
{
    match modal {
        Modal::ConfirmGithubMonitorUpdate { .. } => (
            language.text("Install GitHub updates", "安装 GitHub 更新"),
            78,
            12,
        ),
        Modal::ConfirmUpdate { .. } => (
            language.text("Confirm update", "确认更新"),
            74,
            15,
        ),
        Modal::TargetVersion { .. } => (
            language.text("Choose version", "指定版本"),
            68,
            10,
        ),
        Modal::ConfirmAdd { mode, .. } => (
            if *mode == CommandFormMode::Add {
                language.text("Confirm add", "确认添加")
            } else {
                language.text("Confirm edit", "确认编辑")
            },
            74,
            14,
        ),
        Modal::ConfirmDelete { .. } => (
            language.text("Confirm delete", "确认删除"),
            62,
            9,
        ),
        Modal::ConfirmUninstall { .. } => (
            language.text("Confirm uninstall", "确认卸载"),
            74,
            13,
        ),
        Modal::AddCommand { form } => (
            if form.mode == CommandFormMode::Add {
                language.text("Add command", "添加命令")
            } else {
                language.text("Edit command", "编辑命令")
            },
            80,
            16,
        ),
        Modal::GithubMonitorForm { form } => (
            if form.mode == MonitorFormMode::Add {
                language.text("Add GitHub repository monitor", "添加 GitHub 仓库监控")
            } else {
                language.text("Edit GitHub repository monitor", "编辑 GitHub 仓库监控")
            },
            104,
            22,
        ),
        Modal::ConfirmDeleteGithubMonitor { .. } => (
            language.text("Delete repository monitor", "删除仓库监控"),
            72,
            10,
        ),
        Modal::GithubPollInterval { .. } => (
            language.text("Repository monitor interval", "仓库监控间隔"),
            72,
            10,
        ),
        Modal::GithubApiKey { .. } => (
            language.text("GitHub API key", "GitHub API Key"),
            76,
            10,
        ),
        Modal::NetworkProxy { .. } => (
            language.text("Network proxy", "网络代理"),
            92,
            15,
        ),
        _ => {
            proof {
                reveal_strlit("");
                assert(""@ =~= Seq::<char>::empty());
            }
            ("", 0, 0)
        },
    }
}

/// The cells inside of a frame with a title.
pub open spec fn framed(area: Rect) -> Rect {
    let x = at_most(capped(area.x, 1) as int, area.right_edge() as int) as u16;
    let y = at_most(capped(area.y, 1) as int, area.bottom_edge() as int) as u16;
    Rect { x, y, width: less(area.width, 2), height: less(area.height, 2) }
}

/// The cells for the lines of a dialog in a frame.
pub open spec fn dialog_inner(area: Rect) -> Rect {
    let inner = framed(area);
    let inset = at_most(2, (inner.width / 2) as int) as u16;
    Rect {
        x: capped(inner.x, inset),
        width: less(inner.width, (inset * 2) as u16),
        ..inner
    }
}

/// The cells for the lines of a dialog in a frame.
pub fn panel_content(area: Rect) -> (r: Rect)
    ensures
        r == dialog_inner(area),
{
    let left: u16 = area.x.saturating_add(1);
    let top: u16 = area.y.saturating_add(1);
    let x: u16 = if left < area.right() {
        left
    } else {
        area.right()
    };
    let y: u16 = if top < area.bottom() {
        top
    } else {
        area.bottom()
    };
    let width: u16 = area.width.saturating_sub(2);
    let height: u16 = area.height.saturating_sub(2);
    let inset: u16 = if width / 2 < 2 {
        width / 2
    } else {
        2
    };
    Rect { x: x.saturating_add(inset), y, width: width.saturating_sub(inset * 2), height }
}

/// The lines of a dialog other than the TOML editor, `width` columns wide.
pub open spec fn dialog_lines(app: AppView, width: u16, placeholder: Seq<char>) -> Seq<LineView> {
    match app.modal {
        ModalView::ConfirmGithubMonitorUpdate { monitors } => installs_lines(
            monitors,
            app.language,
        ),
        ModalView::ConfirmUpdate { tools, target_version, current_tools } => updates_lines(
            tools,
            target_version,
            current_tools,
            app.process_strategy,
            app.language,
        ),
        ModalView::TargetVersion { name, version } => version_lines(
            name,
            version,
            app.language,
            width,
        ),
        ModalView::ConfirmAdd { mode, name, command, .. } => add_lines(
            mode,
            name,
            command,
            app.language,
        ),
        ModalView::ConfirmDelete { name } => delete_lines(name, app.language),
        ModalView::ConfirmUninstall { name, command, derived } => uninstall_lines(
            name,
            command,
            derived,
            app.language,
        ),
        ModalView::AddCommand { form } => command_lines(form, app.language, width),
        ModalView::GithubMonitorForm { form } => monitor_lines(
            form,
            app.language,
            width,
            placeholder,
        ),
        ModalView::ConfirmDeleteGithubMonitor { index } => delete_monitor_lines(
            app.github.monitors,
            index,
            app.language,
        ),
        ModalView::GithubPollInterval { seconds } => interval_lines(seconds, app.language, width),
        ModalView::GithubApiKey { api_key } => api_key_lines(api_key, app.language, width),
        ModalView::NetworkProxy { form } => proxy_lines(form, app.language, width),
        _ => Seq::empty(),
    }
}

/// The lines of a dialog other than the TOML editor, `width` columns wide.
pub fn dialog_text(app: &App, width: u16, placeholder: &str) -> (r: Vec<StyledLine>)
    requires
        app.wf(),
    ensures
        line_views(r@) == dialog_lines(app@, width, placeholder@),
{
    match &app.modal {
        Modal::ConfirmGithubMonitorUpdate { monitors } => installs_text(monitors, app.language),
        Modal::ConfirmUpdate { tools, target_version, current_tools } => updates_text(
            tools,
            target_version,
            current_tools,
            app.process_strategy,
            app.language,
        ),
        Modal::TargetVersion { name, version } => version_text(
            name.as_str(),
            version,
            app.language,
            width,
        ),
        Modal::ConfirmAdd { mode, name, command, .. } => add_text(
            *mode,
            name.as_str(),
            command.as_str(),
            app.language,
        ),
        Modal::ConfirmDelete { name } => delete_text(name.as_str(), app.language),
        Modal::ConfirmUninstall { name, command, derived } => uninstall_text(
            name.as_str(),
            command.as_str(),
            *derived,
            app.language,
        ),
        Modal::AddCommand { form } => command_text(form, app.language, width),
        Modal::GithubMonitorForm { form } => monitor_text(form, app.language, width, placeholder),
        Modal::ConfirmDeleteGithubMonitor { index } => delete_monitor_text(
            &app.github.monitors,
            *index,
            app.language,
        ),
        Modal::GithubPollInterval { seconds } => interval_text(seconds, app.language, width),
        Modal::GithubApiKey { api_key } => api_key_text(api_key, app.language, width),
        Modal::NetworkProxy { form } => proxy_text(form, app.language, width),
        _ => {
            proof {
                lemma_no_pieces();
            }
            Vec::new()
        },
    }
}

/// Whether what is noted of a line of text fits it.
pub open spec fn hit_fits(modal: ModalView, hit: ModalInputHitbox) -> bool {
    modal.line(hit.field) matches Some(input) ==> hit.fits(input.chars)
}

/// Whether what is noted of the lines of text fits them.
pub open spec fn hits_fit(modal: ModalView, hits: Seq<ModalInputHitbox>) -> bool {
    forall|i: int| 0 <= i < hits.len() ==> #[trigger] hit_fits(modal, hits[i])
}

/// A place, where there is one.
pub open spec fn where_shown(shown: bool, hit: ModalInputHitbox) -> Seq<ModalInputHitbox> {
    if shown {
        seq![hit]
    } else {
        Seq::empty()
    }
}

fn push_where(
    Ghost(modal): Ghost<ModalView>,
    hits: &mut Vec<ModalInputHitbox>,
    shown: bool,
    hit: ModalInputHitbox,
)
    requires
        hits_fit(modal, old(hits)@),
        hit_fits(modal, hit),
    ensures
        final(hits)@ == old(hits)@ + where_shown(shown, hit),
        hits_fit(modal, final(hits)@),
{
    let ghost before = hits@;
    if shown {
        hits.push(hit);
    }
    assert(hits@ =~= before + where_shown(shown, hit));
}

/// Where the texts of the form of a custom command stand.
pub open spec fn command_hits(
    form: CommandFormView,
    language: Language,
    inner: Rect,
) -> Seq<ModalInputHitbox> {
    let name = language.pick("Name"@, "名称"@);
    let command = language.pick("Command"@, "命令"@);
    let name_width = value_width(inner.width, name);
    let command_width = value_width(inner.width, command);
    where_shown(
        inner.height > 2 && name_width > 0,
        value_hit(inner, name, form.name, 0, 2, name_width),
    ) + where_shown(
        inner.height > 3 && command_width > 0,
        value_hit(inner, command, form.command, 1, 3, command_width),
    )
}

fn command_hitboxes(
    form: &CommandForm,
    language: Language,
    inner: Rect,
) -> (r: Vec<ModalInputHitbox>)
    requires
        form.wf(),
    ensures
        r@ == command_hits(form@, language, inner),
        hits_fit(ModalView::AddCommand { form: form@ }, r@),
{
    let name = language.text("Name", "名称");
    let command = language.text("Command", "命令");
    let name_width: usize = input_value_width(inner.width, name);
    let command_width: usize = input_value_width(inner.width, command);
    let mut hits: Vec<ModalInputHitbox> = Vec::new();
    push_where(
        Ghost(ModalView::AddCommand { form: form@ }),
        &mut hits,
        inner.height > 2 && name_width > 0,
        input_hitbox(inner, name, &form.name, 0, 2, name_width),
    );
    push_where(
        Ghost(ModalView::AddCommand { form: form@ }),
        &mut hits,
        inner.height > 3 && command_width > 0,
        input_hitbox(inner, command, &form.command, 1, 3, command_width),
    );
    assert(hits@ =~= command_hits(form@, language, inner));
    hits
}

/// The cursor in the form of a custom command.
pub open spec fn command_cursor(
    form: CommandFormView,
    language: Language,
    inner: Rect,
) -> Option<(u16, u16)> {
    let (label, input, row) = if form.field == 0 {
        (language.pick("Name"@, "名称"@), form.name, 2u16)
    } else {
        (language.pick("Command"@, "命令"@), form.command, 3u16)
    };
    if inner.width > 0 && inner.height > row {
        Some(
            cursor_cell(
                inner,
                label,
                columns_to_cursor(input, value_width(inner.width, label)),
                row,
            ),
        )
    } else {
        None
    }
}

fn command_cursor_cell(
    form: &CommandForm,
    language: Language,
    inner: Rect,
) -> (r: Option<(u16, u16)>)
    requires
        form.wf(),
    ensures
        r == command_cursor(form@, language, inner),
{
    let (label, input, row) = if form.field == 0 {
        (language.text("Name", "名称"), &form.name, 2u16)
    } else {
        (language.text("Command", "命令"), &form.command, 3u16)
    };
    if inner.width > 0 && inner.height > row {
        Some(input_cursor(inner, label, input, row, input_value_width(inner.width, label)))
    } else {
        None
    }
}

/// Where the texts and the choices of the form of a repository stand.
pub open spec fn monitor_hits(
    form: MonitorFormView,
    language: Language,
    inner: Rect,
) -> Seq<ModalInputHitbox> {
    let width = monitor_width(inner.width, language);
    where_shown(
        inner.height > 2,
        value_hit(inner, monitor_label(0, language), form.name, 0, 2, width),
    ) + where_shown(
        inner.height > 3,
        value_hit(inner, monitor_label(1, language), form.repository, 1, 3, width),
    ) + where_shown(
        inner.height > 4,
        value_hit(inner, monitor_label(2, language), form.asset_regex, 2, 4, width),
    ) + where_shown(
        inner.height > 5,
        value_hit(inner, monitor_label(3, language), form.target_directory, 3, 5, width),
    ) + where_shown(
        inner.height > 9,
        value_hit(inner, monitor_label(7, language), form.max_download_bytes, 7, 9, width),
    ) + where_shown(
        inner.height > 10,
        value_hit(inner, monitor_label(8, language), form.max_extracted_bytes, 8, 10, width),
    ) + where_shown(
        inner.height > 11,
        value_hit(inner, monitor_label(9, language), form.max_extracted_files, 9, 11, width),
    ) + where_shown(
        inner.height > 12,
        value_hit(inner, monitor_label(10, language), form.strip_components, 10, 12, width),
    ) + where_shown(inner.height > 6, choice_hit(inner, 4, 6)) + where_shown(
        inner.height > 7,
        choice_hit(inner, 5, 7),
    ) + where_shown(inner.height > 8, choice_hit(inner, 6, 8)) + where_shown(
        inner.height > 13,
        choice_hit(inner, 11, 13),
    )
}

fn monitor_hitboxes(
    form: &MonitorForm,
    language: Language,
    inner: Rect,
) -> (r: Vec<ModalInputHitbox>)
    requires
        form.wf(),
    ensures
        r@ == monitor_hits(form@, language, inner),
        hits_fit(ModalView::GithubMonitorForm { form: form@ }, r@),
{
    let width: usize = monitor_value_width(inner.width, language);
    let mut hits: Vec<ModalInputHitbox> = Vec::new();
    push_where(
        Ghost(ModalView::GithubMonitorForm { form: form@ }),
        &mut hits,
        inner.height > 2,
        input_hitbox(inner, monitor_field_label(0, language), &form.name, 0, 2, width),
    );
    push_where(
        Ghost(ModalView::GithubMonitorForm { form: form@ }),
        &mut hits,
        inner.height > 3,
        input_hitbox(inner, monitor_field_label(1, language), &form.repository, 1, 3, width),
    );
    push_where(
        Ghost(ModalView::GithubMonitorForm { form: form@ }),
        &mut hits,
        inner.height > 4,
        input_hitbox(inner, monitor_field_label(2, language), &form.asset_regex, 2, 4, width),
    );
    push_where(
        Ghost(ModalView::GithubMonitorForm { form: form@ }),
        &mut hits,
        inner.height > 5,
        input_hitbox(inner, monitor_field_label(3, language), &form.target_directory, 3, 5, width),
    );
    push_where(
        Ghost(ModalView::GithubMonitorForm { form: form@ }),
        &mut hits,
        inner.height > 9,
        input_hitbox(
            inner,
            monitor_field_label(7, language),
            &form.max_download_bytes,
            7,
            9,
            width,
        ),
    );
    push_where(
        Ghost(ModalView::GithubMonitorForm { form: form@ }),
        &mut hits,
        inner.height > 10,
        input_hitbox(
            inner,
            monitor_field_label(8, language),
            &form.max_extracted_bytes,
            8,
            10,
            width,
        ),
    );
    push_where(
        Ghost(ModalView::GithubMonitorForm { form: form@ }),
        &mut hits,
        inner.height > 11,
        input_hitbox(
            inner,
            monitor_field_label(9, language),
            &form.max_extracted_files,
            9,
            11,
            width,
        ),
    );
    push_where(
        Ghost(ModalView::GithubMonitorForm { form: form@ }),
        &mut hits,
        inner.height > 12,
        input_hitbox(
            inner,
            monitor_field_label(10, language),
            &form.strip_components,
            10,
            12,
            width,
        ),
    );
    push_where(
        Ghost(ModalView::GithubMonitorForm { form: form@ }),
        &mut hits,
        inner.height > 6,
        choice_hitbox(inner, 4, 6),
    );
    push_where(
        Ghost(ModalView::GithubMonitorForm { form: form@ }),
        &mut hits,
        inner.height > 7,
        choice_hitbox(inner, 5, 7),
    );
    push_where(
        Ghost(ModalView::GithubMonitorForm { form: form@ }),
        &mut hits,
        inner.height > 8,
        choice_hitbox(inner, 6, 8),
    );
    push_where(
        Ghost(ModalView::GithubMonitorForm { form: form@ }),
        &mut hits,
        inner.height > 13,
        choice_hitbox(inner, 11, 13),
    );
    assert(hits@ =~= monitor_hits(form@, language, inner));
    hits
}

/// The row of a text in the form of a repository.
pub open spec fn monitor_row_of(field: usize) -> u16 {
    (field + 2) as u16
}

/// The cursor in the form of a repository.
pub open spec fn monitor_cursor(
    form: MonitorFormView,
    language: Language,
    inner: Rect,
) -> Option<(u16, u16)> {
    match form.input(form.field) {
        Some(input) => if inner.height > monitor_row_of(form.field) {
            Some(
                cursor_cell(
                    inner,
                    monitor_label(form.field as int, language),
                    columns_to_cursor(input, monitor_width(inner.width, language)),
                    monitor_row_of(form.field),
                ),
            )
        } else {
            None
        },
        None => None,
    }
}

fn monitor_cursor_cell(
    form: &MonitorForm,
    language: Language,
    inner: Rect,
) -> (r: Option<(u16, u16)>)
    requires
        form.wf(),
    ensures
        r == monitor_cursor(form@, language, inner),
{
    match form.line(form.field) {
        Some(input) => {
            let row: u16 = form.field as u16 + 2;
            if inner.height > row {
                Some(
                    input_cursor(
                        inner,
                        monitor_field_label(form.field, language),
                        input,
                        row,
                        monitor_value_width(inner.width, language),
                    ),
                )
            } else {
                None
            }
        },
        None => None,
    }
}

/// Where the modes and the texts of the form of the proxy stand.
pub open spec fn proxy_hits(
    form: ProxyFormView,
    language: Language,
    inner: Rect,
) -> Seq<ModalInputHitbox> {
    let url = language.pick("Proxy URL"@, "代理地址"@);
    let bypass = language.pick("No proxy"@, "代理绕过"@);
    let url_width = value_width(inner.width, url);
    let bypass_width = value_width(inner.width, bypass);
    let explicit = form.mode == ProxyMode::Explicit;
    seq![choice_hit(inner, 0, 2)] + where_shown(
        explicit && inner.height > 3 && url_width > 0,
        value_hit(inner, url, form.url, 1, 3, url_width),
    ) + where_shown(
        explicit && inner.height > 4 && bypass_width > 0,
        value_hit(inner, bypass, form.bypass, 2, 4, bypass_width),
    )
}

fn proxy_hitboxes(form: &ProxyForm, language: Language, inner: Rect) -> (r: Vec<ModalInputHitbox>)
    requires
        form.wf(),
    ensures
        r@ == proxy_hits(form@, language, inner),
        hits_fit(ModalView::NetworkProxy { form: form@ }, r@),
{
    let url = language.text("Proxy URL", "代理地址");
    let bypass = language.text("No proxy", "代理绕过");
    let url_width: usize = input_value_width(inner.width, url);
    let bypass_width: usize = input_value_width(inner.width, bypass);
    let explicit = form.proxy_mode == ProxyMode::Explicit;
    let mut hits: Vec<ModalInputHitbox> = Vec::new();
    hits.push(choice_hitbox(inner, 0, 2));
    push_where(
        Ghost(ModalView::NetworkProxy { form: form@ }),
        &mut hits,
        explicit && inner.height > 3 && url_width > 0,
        input_hitbox(inner, url, &form.proxy_url, 1, 3, url_width),
    );
    push_where(
        Ghost(ModalView::NetworkProxy { form: form@ }),
        &mut hits,
        explicit && inner.height > 4 && bypass_width > 0,
        input_hitbox(inner, bypass, &form.no_proxy, 2, 4, bypass_width),
    );
    assert(hits@ =~= proxy_hits(form@, language, inner));
    hits
}

/// The cursor in the form of the proxy.
pub open spec fn proxy_cursor(
    form: ProxyFormView,
    language: Language,
    inner: Rect,
) -> Option<(u16, u16)> {
    let url = language.pick("Proxy URL"@, "代理地址"@);
    let bypass = language.pick("No proxy"@, "代理绕过"@);
    if form.mode != ProxyMode::Explicit {
        None
    } else if form.field == 1 {
        Some(
            cursor_cell(
                inner,
                url,
                columns_to_cursor(form.url, value_width(inner.width, url)),
                3,
            ),
        )
    } else if form.field == 2 {
        Some(
            cursor_cell(
                inner,
                bypass,
                columns_to_cursor(form.bypass, value_width(inner.width, bypass)),
                4,
            ),
        )
    } else {
        None
    }
}

fn proxy_cursor_cell(form: &ProxyForm, language: Language, inner: Rect) -> (r: Option<(u16, u16)>)
    requires
        form.wf(),
    ensures
        r == proxy_cursor(form@, language, inner),
{
    let url = language.text("Proxy URL", "代理地址");
    let bypass = language.text("No proxy", "代理绕过");
    if form.proxy_mode != ProxyMode::Explicit {
        None
    } else if form.field == 1 {
        let width: usize = input_value_width(inner.width, url);
        Some(input_cursor(inner, url, &form.proxy_url, 3, width))
    } else if form.field == 2 {
        let width: usize = input_value_width(inner.width, bypass);
        Some(input_cursor(inner, bypass, &form.no_proxy, 4, width))
    } else {
        None
    }
}

/// Where the lines of text and the choices of a dialog stand.
pub open spec fn dialog_hits(
    modal: ModalView,
    language: Language,
    inner: Rect,
) -> Seq<ModalInputHitbox> {
    match modal {
        ModalView::TargetVersion { version, .. } => {
            let label = language.pick("Version"@, "版本"@);
            let width = value_width(inner.width, label);
            where_shown(
                inner.height > 2 && width > 0,
                value_hit(inner, label, version, 0, 2, width),
            )
        },
        ModalView::AddCommand { form } => command_hits(form, language, inner),
        ModalView::GithubMonitorForm { form } => monitor_hits(form, language, inner),
        ModalView::GithubPollInterval { seconds } => {
            let label = language.pick("Seconds"@, "秒数"@);
            seq![value_hit(inner, label, seconds, 0, 2, value_width(inner.width, label))]
        },
        ModalView::NetworkProxy { form } => proxy_hits(form, language, inner),
        _ => Seq::empty(),
    }
}

fn dialog_hitboxes(modal: &Modal, language: Language, inner: Rect) -> (r: Vec<ModalInputHitbox>)
    requires
        modal.wf(),
    ensures
        r@ == dialog_hits(modal@, language, inner),
        hits_fit(modal@, r@),
{
    match modal {
        Modal::TargetVersion { version, .. } => {
            let label = language.text("Version", "版本");
            let width: usize = input_value_width(inner.width, label);
            let mut hits: Vec<ModalInputHitbox> = Vec::new();
            push_where(
                Ghost(modal@),
                &mut hits,
                inner.height > 2 && width > 0,
                input_hitbox(inner, label, version, 0, 2, width),
            );
            assert(hits@ =~= dialog_hits(modal@, language, inner));
            hits
        },
        Modal::AddCommand { form } => command_hitboxes(form, language, inner),
        Modal::GithubMonitorForm { form } => monitor_hitboxes(form, language, inner),
        Modal::GithubPollInterval { seconds } => {
            let label = language.text("Seconds", "秒数");
            let width: usize = input_value_width(inner.width, label);
            let mut hits: Vec<ModalInputHitbox> = Vec::new();
            hits.push(input_hitbox(inner, label, seconds, 0, 2, width));
            assert(hits@ =~= dialog_hits(modal@, language, inner));
            hits
        },
        Modal::NetworkProxy { form } => proxy_hitboxes(form, language, inner),
        _ => Vec::new(),
    }
}

/// The cell of the cursor in a dialog, where it has one.
pub open spec fn dialog_cursor(
    modal: ModalView,
    language: Language,
    inner: Rect,
) -> Option<(u16, u16)> {
    match modal {
        ModalView::TargetVersion { version, .. } => {
            let label = language.pick("Version"@, "版本"@);
            let width = value_width(inner.width, label);
            if inner.height > 2 && width > 0 {
                Some(cursor_cell(inner, label, columns_to_cursor(version, width), 2))
            } else {
                None
            }
        },
        ModalView::AddCommand { form } => command_cursor(form, language, inner),
        ModalView::GithubMonitorForm { form } => monitor_cursor(form, language, inner),
        ModalView::GithubPollInterval { seconds } => {
            let label = language.pick("Seconds"@, "秒数"@);
            Some(
                cursor_cell(
                    inner,
                    label,
                    columns_to_cursor(seconds, value_width(inner.width, label)),
                    2,
                ),
            )
        },
        ModalView::GithubApiKey { api_key } => {
            let label = language.pick("API key"@, "API Key"@);
            if inner.height > 2 && inner.width > 0 {
                let seen = api_key.seen(value_width(inner.width, label));
                Some(cursor_cell(inner, label, (api_key.at - seen.0) as nat, 2))
            } else {
                None
            }
        },
        ModalView::NetworkProxy { form } => proxy_cursor(form, language, inner),
        _ => None,
    }
}

fn dialog_cursor_cell(modal: &Modal, language: Language, inner: Rect) -> (r: Option<(u16, u16)>)
    requires
        modal.wf(),
    ensures
        r == dialog_cursor(modal@, language, inner),
{
    match modal {
        Modal::TargetVersion { version, .. } => {
            let label = language.text("Version", "版本");
            let width: usize = input_value_width(inner.width, label);
            if inner.height > 2 && width > 0 {
                Some(input_cursor(inner, label, version, 2, width))
            } else {
                None
            }
        },
        Modal::AddCommand { form } => command_cursor_cell(form, language, inner),
        Modal::GithubMonitorForm { form } => monitor_cursor_cell(form, language, inner),
        Modal::GithubPollInterval { seconds } => {
            let label = language.text("Seconds", "秒数");
            Some(input_cursor(inner, label, seconds, 2, input_value_width(inner.width, label)))
        },
        Modal::GithubApiKey { api_key } => {
            let label = language.text("API key", "API Key");
            if inner.height > 2 && inner.width > 0 {
                Some(hidden_cursor(inner, label, api_key, 2, input_value_width(inner.width, label)))
            } else {
                None
            }
        },
        Modal::NetworkProxy { form } => proxy_cursor_cell(form, language, inner),
        _ => None,
    }
}

/// Whether the lines of a dialog are wrapped.
pub open spec fn dialog_wraps(modal: ModalView) -> bool {
    &&& !(modal is TargetVersion)
    &&& !(modal is ConfirmDeleteGithubMonitor)
    &&& !(modal is GithubPollInterval)
    &&& !(modal is NetworkProxy)
}

/// A dialog as it is drawn: its frame, the cells for its lines, its lines, and
/// where its cursor is.
#[derive(Debug)]
pub struct Dialog {
    pub title: &'static str,
    pub frame: Rect,
    pub inner: Rect,
    pub lines: Vec<StyledLine>,
    pub wraps: bool,
    pub cursor: Option<(u16, u16)>,
}

/// Lays out the dialog in `area` and notes where its lines of text stand. There
/// is nothing to draw without a dialog, and the TOML editor is drawn otherwise.
pub fn draw_modal(app: &mut App, area: Rect, placeholder: &str) -> (r: Option<Dialog>)
    requires
        old(app).wf(),
        area.wf(),
    ensures
        final(app).wf(),
        final(app)@ == (AppView {
            hits: final(app).hits,
            toml_editor_area: None,
            ..old(app)@
        }),
        final(app).hits == (Hitboxes {
            modal_inputs: final(app).hits.modal_inputs,
            ..old(app).hits
        }),
        r is None <==> old(app).modal is Closed || old(app).modal is TomlEditor,
        r is None ==> final(app).hits.modal_inputs@.len() == 0,
        hits_fit(old(app)@.modal, final(app).hits.modal_inputs@),
        r matches Some(dialog) ==> {
            let (title, width, height) = dialog_frame(old(app)@.modal, old(app).language);
            &&& dialog.title@ == title
            &&& dialog.frame == centered(width, height, area)
            &&& dialog.inner == dialog_inner(dialog.frame)
            &&& line_views(dialog.lines@) == dialog_lines(
                old(app)@,
                dialog.inner.width,
                placeholder@,
            )
            &&& dialog.wraps == dialog_wraps(old(app)@.modal)
            &&& dialog.cursor == dialog_cursor(
                old(app)@.modal,
                old(app).language,
                dialog.inner,
            )
            &&& final(app).hits.modal_inputs@ == dialog_hits(
                old(app)@.modal,
                old(app).language,
                dialog.inner,
            )
        },
{
    app.hits.modal_inputs = Vec::new();
    app.toml_editor_area = None;
    if matches!(app.modal, Modal::Closed) || matches!(app.modal, Modal::TomlEditor { .. }) {
        return None;
    }
    let language = app.language;
    let (title, width, height) = dialog_size(&app.modal, language);
    let frame = centered_rect(width, height, area);
    let inner = panel_content(frame);
    let lines = dialog_text(app, inner.width, placeholder);
    let cursor = dialog_cursor_cell(&app.modal, language, inner);
    let wraps = !matches!(app.modal, Modal::TargetVersion { .. }) && !matches!(
        app.modal,
        Modal::ConfirmDeleteGithubMonitor { .. }
    ) && !matches!(app.modal, Modal::GithubPollInterval { .. }) && !matches!(
        app.modal,
        Modal::NetworkProxy { .. }
    );
    app.hits.modal_inputs = dialog_hitboxes(&app.modal, language, inner);
    Some(Dialog { title, frame, inner, lines, wraps, cursor })
}

/// As long as a dialog is as it was drawn, a click finds its lines of text: the
/// places that were noted fit them.
pub proof fn law_clicks_fit_what_was_drawn(app: AppView, mouse: Mouse)
    requires
        hits_fit(app.modal, app.hits.modal_inputs@),
        mouse.kind == MouseKind::LeftDown,
    ensures
        app.mouse_fits(mouse),
{
    let hits = app.hits.modal_inputs@;
    lemma_hit_at(hits, mouse.column, mouse.row);
    if let Some(hit) = hit_at(hits, mouse.column, mouse.row) {
        let i = choose|i: int| 0 <= i < hits.len() && #[trigger] hits[i] == hit;
        assert(hit_fits(app.modal, hits[i]));
    }
}

proof fn lemma_hit_at(hits: Seq<ModalInputHitbox>, column: u16, row: u16)
    ensures
        hit_at(hits, column, row) matches Some(hit) ==> exists|i: int|
            0 <= i < hits.len() && #[trigger] hits[i] == hit,
    decreases hits.len(),
{
    if hits.len() > 0 && !hits[0].area.covers(column, row) {
        lemma_hit_at(hits.drop_first(), column, row);
        if let Some(hit) = hit_at(hits.drop_first(), column, row) {
            let i = choose|i: int| 0 <= i < hits.drop_first().len() && #[trigger] hits.drop_first()[i] == hit;
            assert(hits[i + 1] == hit);
        }
    }
}

} // verus!
