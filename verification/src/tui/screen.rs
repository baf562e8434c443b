//! The frame around the views: titles, the quota, help and messages.

use crate::language::Language;
use crate::number::{count_text, decimal, decimal_text};
use crate::text::{join2, join3, join4, join6};
use crate::tui::app::{App, AppView};
use crate::tui::content::{
    LineView, StyledLine, blank_line, lemma_no_pieces, line_of, line_views, push_line, styled,
};
use crate::tui::geometry::{Rect, tab_hitboxes, tab_hits};
use crate::tui::github::{Github, Quota};
use crate::tui::labels::{InitialLoadProgress, Tab, ToolView};
use crate::tui::modal::Hitboxes;
use crate::tui::style::{Color, Style};
use crate::version::GithubRateLimit;
use vstd::prelude::*;
use vstd::string::*;

verus! {

/// The titles of the tabs.
pub open spec fn tab_names(language: Language) -> Seq<&'static str> {
    match language {
        Language::English => seq!["Tools", "Activity", "Jobs", "Doctor", "Settings"],
        Language::Chinese => seq!["工具", "活动", "任务", "诊断", "设置"],
    }
}

/// The titles of the tabs.
pub fn tab_titles(language: Language) -> (r: Vec<&'static str>)
    ensures
        r@ == tab_names(language),
{
    match language {
        Language::English => vec!["Tools", "Activity", "Jobs", "Doctor", "Settings"],
        Language::Chinese => vec!["工具", "活动", "任务", "诊断", "设置"],
    }
}

/// The titles of the two views of the tools.
pub open spec fn tool_view_names(language: Language) -> Seq<&'static str> {
    match language {
        Language::English => seq!["Command tools", "GitHub repositories"],
        Language::Chinese => seq!["命令工具", "GitHub 仓库"],
    }
}

/// The titles of the two views of the tools.
pub fn tool_view_titles(language: Language) -> (r: Vec<&'static str>)
    ensures
        r@ == tool_view_names(language),
{
    match language {
        Language::English => vec!["Command tools", "GitHub repositories"],
        Language::Chinese => vec!["命令工具", "GitHub 仓库"],
    }
}

/// The line over the tabs: what runs, the process policy, the language and the time.
pub open spec fn header_line(app: AppView) -> LineView {
    LineView::of(
        seq![
            styled(
                app.language.pick(
                    " dvup — "@ + decimal_text(app.running as nat) + " running — policy: "@,
                    " dvup — "@ + decimal_text(app.running as nat) + " 项运行中 — 策略："@,
                ),
                Style::of(None, None),
            ),
            styled(app.process_strategy.name(app.language), app.process_strategy.look()),
            styled(
                app.language.pick(" — language: EN "@, " — 语言：中文 "@),
                Style::of(None, None),
            ),
            styled("— "@ + app.now_text@ + " "@, Style::of(Some(Color::Subtle), None)),
        ],
    )
}

/// The line over the tabs: what runs, the process policy, the language and the time.
pub fn header_title(app: &App) -> (r: StyledLine)
    ensures
        r@ == header_line(app@),
{
    let mut line = blank_line();
    line.put(
        join3(
            " dvup — ",
            count_text(app.running).as_str(),
            app.language.text(" running — policy: ", " 项运行中 — 策略："),
        ).as_str(),
        Style::plain(),
    );
    line.put(app.process_strategy.label(app.language), app.process_strategy.style());
    line.put(app.language.text(" — language: EN ", " — 语言：中文 "), Style::plain());
    line.put(join3("— ", app.now_text.as_str(), " ").as_str(), Style::with_fg(Color::Subtle));
    line
}

/// The two lines of help for a view.
pub open spec fn help_of(tab: Tab, view: ToolView, language: Language) -> (Seq<char>, Seq<char>) {
    match tab {
        Tab::Tools => match view {
            ToolView::Commands => (
                language.pick(
                    "↑↓/hover move · click/Space select · a all · Enter latest · v choose version · Tab GitHub"@,
                    "↑↓/悬停 移动 · 点击/Space 选择 · a 全选 · Enter 更新 · v 指定版本 · Tab GitHub"@,
                ),
                language.pick(
                    "Ctrl+C quit · t TOML · o editor · c add · e edit · d del · r refresh · L 中/EN · ←/→ tab"@,
                    "Ctrl+C 退出 · t TOML · o 编辑器 · c 添加 · e 编辑 · d 删除 · r 刷新 · L 中/EN · ←/→ 标签页"@,
                ),
            ),
            ToolView::Github => (
                language.pick(
                    "↑↓/hover move · click/Space select · a all · Enter install · Tab command tools"@,
                    "↑↓/悬停 移动 · 点击/Space 选择 · a 全选 · Enter 安装 · Tab 命令工具"@,
                ),
                language.pick(
                    "Ctrl+C quit · t TOML · o editor · c add · e edit · d del · r refresh · L 中/EN · ←/→ tab"@,
                    "Ctrl+C 退出 · t TOML · o 编辑器 · c 添加 · e 编辑 · d 删除 · r 刷新 · L 中/EN · ←/→ 标签页"@,
                ),
            ),
        },
        Tab::Activity => (
            language.pick(
                "↑↓ scroll · click execution to expand · Home/End · r refresh"@,
                "↑↓ 滚动 · 点击执行展开 · Home/End · r 刷新"@,
            ),
            language.pick(
                "Ctrl+C quit · ←/→ or click tab · L 中/EN · Shift+Tab policy"@,
                "Ctrl+C 退出 · ←/→ 或点击标签页 · L 中/EN · Shift+Tab 策略"@,
            ),
        ),
        Tab::Jobs => (
            language.pick(
                "↑↓/hover move · click/Enter expand result · PgUp/PgDn scroll · r refresh"@,
                "↑↓/悬停 移动 · 点击/Enter 展开结果 · PgUp/PgDn 滚动 · r 刷新"@,
            ),
            language.pick(
                "Ctrl+C quit · ←/→ or click tab · L 中/EN · Shift+Tab policy"@,
                "Ctrl+C 退出 · ←/→ 或点击标签页 · L 中/EN · Shift+Tab 策略"@,
            ),
        ),
        Tab::Doctor => (
            language.pick(
                "Enter scan/expand · r rescan · ↑↓/hover move · PgUp/PgDn scroll"@,
                "Enter 扫描/展开 · r 重新扫描 · ↑↓/悬停 移动 · PgUp/PgDn 滚动"@,
            ),
            language.pick(
                "Ctrl+C quit · active wins PATH · shadowed is hidden · ←/→ or click tab · L 中/EN"@,
                "Ctrl+C 退出 · active 为当前生效项 · shadowed 为被遮蔽项 · ←/→ 或点击标签页"@,
            ),
        ),
        Tab::Settings => (
            language.pick(
                "↑↓/hover move · click/Space/Enter toggle setting"@,
                "↑↓/悬停 移动 · 点击/Space/Enter 切换设置"@,
            ),
            language.pick(
                "Ctrl+C quit · settings save immediately · ←/→ or click tab · L 中/EN"@,
                "Ctrl+C 退出 · 设置立即保存 · ←/→ 或点击标签页 · L 中/EN"@,
            ),
        ),
    }
}

/// The two lines of help for a view.
pub fn help_texts(tab: Tab, view: ToolView, language: Language) -> (r: (&'static str, &'static str))
    ensures
        (r.0@, r.1@) == help_of(tab, view, language),
{
    match tab {
        Tab::Tools => match view {
            ToolView::Commands => (
                language.text(
                    "↑↓/hover move · click/Space select · a all · Enter latest · v choose version · Tab GitHub",
                    "↑↓/悬停 移动 · 点击/Space 选择 · a 全选 · Enter 更新 · v 指定版本 · Tab GitHub",
                ),
                language.text(
                    "Ctrl+C quit · t TOML · o editor · c add · e edit · d del · r refresh · L 中/EN · ←/→ tab",
                    "Ctrl+C 退出 · t TOML · o 编辑器 · c 添加 · e 编辑 · d 删除 · r 刷新 · L 中/EN · ←/→ 标签页",
                ),
            ),
            ToolView::Github => (
                language.text(
                    "↑↓/hover move · click/Space select · a all · Enter install · Tab command tools",
                    "↑↓/悬停 移动 · 点击/Space 选择 · a 全选 · Enter 安装 · Tab 命令工具",
                ),
                language.text(
                    "Ctrl+C quit · t TOML · o editor · c add · e edit · d del · r refresh · L 中/EN · ←/→ tab",
                    "Ctrl+C 退出 · t TOML · o 编辑器 · c 添加 · e 编辑 · d 删除 · r 刷新 · L 中/EN · ←/→ 标签页",
                ),
            ),
        },
        Tab::Activity => (
            language.text(
                "↑↓ scroll · click execution to expand · Home/End · r refresh",
                "↑↓ 滚动 · 点击执行展开 · Home/End · r 刷新",
            ),
            language.text(
                "Ctrl+C quit · ←/→ or click tab · L 中/EN · Shift+Tab policy",
                "Ctrl+C 退出 · ←/→ 或点击标签页 · L 中/EN · Shift+Tab 策略",
            ),
        ),
        Tab::Jobs => (
            language.text(
                "↑↓/hover move · click/Enter expand result · PgUp/PgDn scroll · r refresh",
                "↑↓/悬停 移动 · 点击/Enter 展开结果 · PgUp/PgDn 滚动 · r 刷新",
            ),
            language.text(
                "Ctrl+C quit · ←/→ or click tab · L 中/EN · Shift+Tab policy",
                "Ctrl+C 退出 · ←/→ 或点击标签页 · L 中/EN · Shift+Tab 策略",
            ),
        ),
        Tab::Doctor => (
            language.text(
                "Enter scan/expand · r rescan · ↑↓/hover move · PgUp/PgDn scroll",
                "Enter 扫描/展开 · r 重新扫描 · ↑↓/悬停 移动 · PgUp/PgDn 滚动",
            ),
            language.text(
                "Ctrl+C quit · active wins PATH · shadowed is hidden · ←/→ or click tab · L 中/EN",
                "Ctrl+C 退出 · active 为当前生效项 · shadowed 为被遮蔽项 · ←/→ 或点击标签页",
            ),
        ),
        Tab::Settings => (
            language.text(
                "↑↓/hover move · click/Space/Enter toggle setting",
                "↑↓/悬停 移动 · 点击/Space/Enter 切换设置",
            ),
            language.text(
                "Ctrl+C quit · settings save immediately · ←/→ or click tab · L 中/EN",
                "Ctrl+C 退出 · 设置立即保存 · ←/→ 或点击标签页 · L 中/EN",
            ),
        ),
    }
}

/// The lines under a view: the message and the help.
pub open spec fn footer_views(app: AppView) -> Seq<LineView> {
    seq![
        LineView::one(" "@ + app.message, Style::of(Some(Color::Warning), None).heavy()),
        LineView::one(
            help_of(app.tab, app.tools.view, app.language).0,
            Style::of(Some(Color::Dim), None),
        ),
        LineView::one(
            help_of(app.tab, app.tools.view, app.language).1,
            Style::of(Some(Color::Subtle), None),
        ),
    ]
}

/// The lines under a view: the message and the help.
pub fn footer_lines(app: &App) -> (r: Vec<StyledLine>)
    ensures
        line_views(r@) == footer_views(app@),
{
    let help = help_texts(app.tab, app.tools.view, app.language);
    let mut lines: Vec<StyledLine> = Vec::new();
    proof { lemma_no_pieces(); }
    push_line(
        &mut lines,
        line_of(join2(" ", app.message.as_str()).as_str(), Style::with_fg(Color::Warning).bold()),
    );
    push_line(&mut lines, line_of(help.0, Style::with_fg(Color::Dim)));
    push_line(&mut lines, line_of(help.1, Style::with_fg(Color::Subtle)));
    lines
}

/// A bar that is filled in the proportion of `used` to `limit`, with a label.
#[derive(Debug)]
pub struct QuotaGauge {
    pub used: u64,
    pub limit: u64,
    pub color: Color,
    pub label: String,
}

/// The colour for what is left of a quota: one for at most a tenth, one for at
/// most a quarter, and one for more.
pub open spec fn quota_color(remaining: int, limit: int) -> Color {
    if remaining * 10 <= limit {
        Color::Error
    } else if remaining * 4 <= limit {
        Color::Warning
    } else {
        Color::Success
    }
}

/// The colour for what is left of the quota.
pub fn github_rate_limit_color(rate: &GithubRateLimit) -> (r: Color)
    ensures
        r == quota_color(rate.remaining as int, rate.limit as int),
{
    let remaining: u128 = rate.remaining as u128;
    let limit: u128 = rate.limit as u128;
    if remaining * 10 <= limit {
        Color::Error
    } else if remaining * 4 <= limit {
        Color::Warning
    } else {
        Color::Success
    }
}

/// What is said of the quota where it is known.
pub open spec fn quota_text(
    rate: GithubRateLimit,
    suffix: Seq<char>,
    language: Language,
) -> Seq<char> {
    "GitHub API  @"@ + rate.owner@ + language.pick(" · used "@, " · 已用 "@) + decimal_text(
        rate.used as nat,
    ) + " / "@ + decimal_text(rate.limit as nat) + language.pick(" · remaining "@, " · 剩余 "@)
    + decimal_text(rate.remaining as nat) + suffix
}

/// What is said behind a quota that is known.
pub open spec fn quota_suffix(quota: Quota, language: Language) -> Seq<char> {
    if quota.loading {
        language.pick(" · refreshing…"@, " · 刷新中…"@)
    } else if quota.error is Some {
        language.pick(" · refresh failed"@, " · 刷新失败"@)
    } else {
        Seq::empty()
    }
}

/// What the bar of the quota shows: how much is used, of how much, in which
/// colour, and what is said of it.
pub open spec fn quota_shown(quota: Quota, language: Language) -> (u64, u64, Color, Seq<char>) {
    match quota.rate_limit {
        Some(rate) => (
            rate.used,
            rate.limit,
            quota_color(rate.remaining as int, rate.limit as int),
            quota_text(rate, quota_suffix(quota, language), language),
        ),
        None => if quota.credential_error is Some {
            (
                0,
                1,
                Color::Error,
                language.pick(
                    "GitHub API · encrypted settings error"@,
                    "GitHub API · 加密配置错误"@,
                ),
            )
        } else if quota.loading {
            (
                0,
                1,
                Color::Accent,
                language.pick(
                    "GitHub API · loading @Token owner and quota…"@,
                    "GitHub API · 正在加载 @Token 主人和配额…"@,
                ),
            )
        } else if quota.error is Some {
            (
                0,
                1,
                Color::Error,
                language.pick(
                    "GitHub API · owner and quota unavailable"@,
                    "GitHub API · 无法获取主人和配额"@,
                ),
            )
        } else {
            (
                0,
                1,
                Color::Subtle,
                language.pick("GitHub API · Token not configured"@, "GitHub API · Token 未配置"@),
            )
        },
    }
}

/// What the bar of the quota shows.
pub fn quota_gauge(quota: &Quota, language: Language) -> (r: QuotaGauge)
    ensures
        (r.used, r.limit, r.color, r.label@) == quota_shown(*quota, language),
{
    if let Some(rate) = &quota.rate_limit {
        let suffix = if quota.loading {
            language.text(" · refreshing…", " · 刷新中…")
        } else if quota.error.is_some() {
            language.text(" · refresh failed", " · 刷新失败")
        } else {
            proof {
                reveal_strlit("");
                assert(""@ =~= Seq::<char>::empty());
            }
            ""
        };
        let counts = join4(
            "GitHub API  @",
            rate.owner.as_str(),
            language.text(" · used ", " · 已用 "),
            decimal(rate.used).as_str(),
        );
        let label = join6(
            counts.as_str(),
            " / ",
            decimal(rate.limit).as_str(),
            language.text(" · remaining ", " · 剩余 "),
            decimal(rate.remaining).as_str(),
            suffix,
        );
        return QuotaGauge {
            used: rate.used,
            limit: rate.limit,
            color: github_rate_limit_color(rate),
            label,
        };
    }
    let (color, label) = if quota.credential_error.is_some() {
        (
            Color::Error,
            language.text("GitHub API · encrypted settings error", "GitHub API · 加密配置错误"),
        )
    } else if quota.loading {
        (
            Color::Accent,
            language.text(
                "GitHub API · loading @Token owner and quota…",
                "GitHub API · 正在加载 @Token 主人和配额…",
            ),
        )
    } else if quota.error.is_some() {
        (
            Color::Error,
            language.text(
                "GitHub API · owner and quota unavailable",
                "GitHub API · 无法获取主人和配额",
            ),
        )
    } else {
        (
            Color::Subtle,
            language.text("GitHub API · Token not configured", "GitHub API · Token 未配置"),
        )
    };
    QuotaGauge { used: 0, limit: 1, color, label: label.to_owned() }
}

/// What is said while the tools are being loaded.
pub open spec fn load_text(
    progress: InitialLoadProgress,
    frame: u64,
    language: Language,
) -> Seq<char> {
    (if frame % 2 == 0 {
            "·"@
        } else {
            "•"@
    }) + " "@ + progress.name(language)
}

/// What is said while the tools are being loaded.
pub fn initial_load_text(
    progress: InitialLoadProgress,
    frame: u64,
    language: Language,
) -> (r: String)
    ensures
        r@ == load_text(progress, frame, language),
{
    let pulse = if frame % 2 == 0 {
        "·"
    } else {
        "•"
    };
    join3(pulse, " ", progress.label(language))
}

/// How much is loaded, in words.
pub fn initial_load_percentage(progress: InitialLoadProgress) -> (r: String)
    ensures
        r@ == decimal_text(progress.percent() as nat) + "%"@,
{
    join2(decimal(progress.percentage() as u64).as_str(), "%")
}

/// Where the first tab stands that stands for `target`.
pub open spec fn place_of(hitboxes: Seq<(Rect, usize)>, target: usize) -> Option<Rect>
decreases hitboxes.len(),
{
    if hitboxes.len() == 0 {
        None
    } else if hitboxes[0].1 == target {
        Some(hitboxes[0].0)
    } else {
        place_of(hitboxes.drop_first(), target)
    }
}

impl App {
    /// Where the tab under the mouse stands.
    pub fn hovered_tab_area(&self) -> (r: Option<Rect>)
        ensures
            r == match self.hovered_tab {
                Some(index) => place_of(self.hits.tabs@, index),
                None => None::<Rect>,
            },
    {
        if let Some(index) = self.hovered_tab {
            let mut i: usize = 0;
            assert(self.hits.tabs@.skip(0) =~= self.hits.tabs@);
            while i < self.hits.tabs.len()
                invariant
                    i <= self.hits.tabs@.len(),
                    self.hovered_tab == Some(index),
                    place_of(self.hits.tabs@.skip(i as int), index) == place_of(self.hits.tabs@, index),
                decreases self.hits.tabs@.len() - i,
            {
                assert(self.hits.tabs@.skip(i as int)[0] == self.hits.tabs@[i as int]);
                assert(self.hits.tabs@.skip(i as int).drop_first() =~= self.hits.tabs@.skip(i + 1));
                if self.hits.tabs[i].1 == index {
                    return Some(self.hits.tabs[i].0);
                }
                i += 1;
            }
        }
        None
    }

    /// Notes where the tabs were drawn.
    pub fn tabs_drawn(&mut self, area: Rect)
        requires
            old(self).wf(),
        ensures
            final(self).wf(),
            final(self).hits.tabs@ == tab_hits(area, tab_names(old(self).language)),
            final(self).hits == (Hitboxes { tabs: final(self).hits.tabs, ..old(self).hits }),
            final(self)@ == (AppView { hits: final(self).hits, ..old(self)@ }),
    {
        let titles = tab_titles(self.language);
        self.hits.tabs = tab_hitboxes(area, titles.as_slice());
    }

    /// Notes where the titles of the two views of the tools were drawn.
    pub fn tool_views_drawn(&mut self, area: Rect)
        requires
            old(self).wf(),
        ensures
            final(self).wf(),
            final(self).hits.tool_views@ == tab_hits(area, tool_view_names(old(self).language)),
            final(self).hits == (
                Hitboxes { tool_views: final(self).hits.tool_views, ..old(self).hits }
            ),
            final(self)@ == (AppView { hits: final(self).hits, ..old(self)@ }),
    {
        let titles = tool_view_titles(self.language);
        self.hits.tool_views = tab_hitboxes(area, titles.as_slice());
    }
}

} // verus!
