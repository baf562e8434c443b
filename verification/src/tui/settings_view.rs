//! The settings, as they are drawn.

use crate::language::Language;
use crate::number::{decimal, decimal_text};
use crate::search::{lines, texts};
use crate::text::{chars_of, join2, join3, string_of};
use crate::tui::app::{App, AppView, NetworkTest, NetworkTestView};
use crate::tui::arguments::{join_names, joined};
use crate::tui::content::{
    LineView, StyledLine, blank_line, lemma_no_pieces, line_of, line_views, push_line, styled,
    tinted,
};
use crate::tui::geometry::{Rect, capped};
use crate::tui::github::Quota;
use crate::tui::modal::Hitboxes;
use crate::tui::model::NetworkSettings;
use crate::tui::settings::SETTINGS_ROW_COUNT;
use crate::tui::style::{Color, Style};
use crate::tui::tables::{check_box, check_mark, less, or_dash, text_or_dash};
use crate::version::NetworkTestResult;
use vstd::prelude::*;
use vstd::string::*;

verus! {

/// The word for a setting that is on or off.
pub open spec fn switch_word(on: bool, language: Language) -> Seq<char> {
    if on {
        language.pick("enabled"@, "已启用"@)
    } else {
        language.pick("disabled"@, "已关闭"@)
    }
}

/// The word for a setting that is on or off.
pub fn enabled_label(enabled: bool, language: Language) -> (r: &'static str)
    ensures
        r@ == switch_word(enabled, language),
{
    if enabled {
        language.text("enabled", "已启用")
    } else {
        language.text("disabled", "已关闭")
    }
}

/// Whether a host could not be reached in a test of the network.
pub open spec fn any_unreached(results: Seq<NetworkTestResult>) -> bool {
    exists|i: int| 0 <= i < results.len() && (#[trigger] results[i]).error is Some
}

/// How the test of the network stands.
pub open spec fn test_state(test: NetworkTestView, language: Language) -> Seq<char> {
    if test.loading {
        language.pick("testing…"@, "测试中…"@)
    } else if test.results.len() == 0 {
        language.pick("press Enter"@, "按 Enter"@)
    } else if any_unreached(test.results) {
        language.pick("failed"@, "有失败"@)
    } else {
        language.pick("passed"@, "已通过"@)
    }
}

fn test_word(test: &NetworkTest, language: Language) -> (r: &'static str)
    ensures
        r@ == test_state(test@, language),
{
    if test.loading {
        return language.text("testing…", "测试中…");
    }
    if test.results.len() == 0 {
        return language.text("press Enter", "按 Enter");
    }
    let mut i: usize = 0;
    while i < test.results.len()
        invariant
            i <= test.results@.len(),
            !test.loading,
            test.results@.len() > 0,
            forall|k: int| 0 <= k < i ==> (#[trigger] test.results@[k]).error is None,
        decreases test.results@.len() - i,
    {
        if test.results[i].error.is_some() {
            return language.text("failed", "有失败");
        }
        i += 1;
    }
    language.text("passed", "已通过")
}

/// How the API key stands.
pub open spec fn key_state(quota: Quota, language: Language) -> Seq<char> {
    if quota.credential_error is Some {
        language.pick("credential error"@, "凭据错误"@)
    } else if quota.key_configured {
        language.pick("stored securely"@, "已安全保存"@)
    } else {
        language.pick("not configured"@, "未配置"@)
    }
}

fn key_word(quota: &Quota, language: Language) -> (r: &'static str)
    ensures
        r@ == key_state(*quota, language),
{
    if quota.credential_error.is_some() {
        language.text("credential error", "凭据错误")
    } else if quota.key_configured {
        language.text("stored securely", "已安全保存")
    } else {
        language.text("not configured", "未配置")
    }
}

/// The hosts that the proxy is not used for.
pub open spec fn bypassed_hosts(network: NetworkSettings) -> Seq<char> {
    if network.no_proxy@.len() == 0 {
        "—"@
    } else {
        joined(texts(network.no_proxy@), ", "@)
    }
}

/// The rows of the settings.
pub open spec fn settings_cells(app: AppView) -> Seq<LineView> {
    seq![
        LineView::of(
            seq![
                styled(
                    check_box(app.settings.auto_diagnose_on_startup) + " "@ + app.language.pick(
                        "Run Doctor diagnostics when TUI starts"@,
                        "进入 TUI 时自动运行 Doctor 诊断"@,
                    ),
                    Style::of(None, None),
                ),
                styled(
                    switch_word(app.settings.auto_diagnose_on_startup, app.language),
                    Style::of(None, None),
                ),
            ],
        ),
        LineView::of(
            seq![
                styled(
                    check_box(app.settings.hide_unsupported_and_missing_tools) + " "@ + app.language.pick(
                        "Hide unsupported or uninstalled tools"@,
                        "隐藏不支持或未安装的工具"@,
                    ),
                    Style::of(None, None),
                ),
                styled(
                    switch_word(app.settings.hide_unsupported_and_missing_tools, app.language),
                    Style::of(None, None),
                ),
            ],
        ),
        LineView::of(
            seq![
                styled(app.language.pick("Proxy mode"@, "代理模式"@), Style::of(None, None)),
                styled(app.settings.network.proxy_mode.name(), Style::of(None, None)),
            ],
        ),
        LineView::of(
            seq![
                styled(app.language.pick("Proxy URL"@, "代理地址"@), Style::of(None, None)),
                styled(or_dash(app.settings.network.proxy_url), Style::of(None, None)),
            ],
        ),
        LineView::of(
            seq![
                styled(app.language.pick("No proxy"@, "代理绕过"@), Style::of(None, None)),
                styled(bypassed_hosts(app.settings.network), Style::of(None, None)),
            ],
        ),
        LineView::of(
            seq![
                styled(
                    app.language.pick("Test registry connections"@, "测试仓库连接"@),
                    Style::of(None, None),
                ),
                styled(test_state(app.network_test, app.language), Style::of(None, None)),
            ],
        ),
        LineView::of(
            seq![
                styled(
                    app.language.pick("GitHub API key"@, "GitHub API Key"@),
                    Style::of(None, None),
                ),
                styled(key_state(app.quota, app.language), Style::of(None, None)),
            ],
        ),
        LineView::of(
            seq![
                styled(
                    app.language.pick("Repository monitor interval"@, "仓库监控间隔"@),
                    Style::of(None, None),
                ),
                styled(
                    decimal_text(
                        app.settings.github.poll_interval_secs as nat,
                    ) + app.language.pick(" seconds"@, " 秒"@),
                    Style::of(None, None),
                ),
            ],
        ),
    ]
}

/// The rows of the settings.
pub fn settings_rows(app: &App) -> (r: Vec<StyledLine>)
    ensures
        line_views(r@) == settings_cells(app@),
{
    let bypassed = if app.settings.network.no_proxy.len() == 0 {
        "—".to_owned()
    } else {
        join_names(&app.settings.network.no_proxy, ", ")
    };
    let mut lines: Vec<StyledLine> = Vec::new();
    proof { lemma_no_pieces(); }
    let mut line1 = blank_line();
    line1.put(
        join3(
            check_mark(app.settings.auto_diagnose_on_startup),
            " ",
            app.language.text(
                "Run Doctor diagnostics when TUI starts",
                "进入 TUI 时自动运行 Doctor 诊断",
            ),
        ).as_str(),
        Style::plain(),
    );
    line1.put(enabled_label(app.settings.auto_diagnose_on_startup, app.language), Style::plain());
    assert(line1@ == settings_cells(app@)[0]);
    push_line(&mut lines, line1);
    let mut line2 = blank_line();
    line2.put(
        join3(
            check_mark(app.settings.hide_unsupported_and_missing_tools),
            " ",
            app.language.text("Hide unsupported or uninstalled tools", "隐藏不支持或未安装的工具"),
        ).as_str(),
        Style::plain(),
    );
    line2.put(
        enabled_label(app.settings.hide_unsupported_and_missing_tools, app.language),
        Style::plain(),
    );
    assert(line2@ == settings_cells(app@)[1]);
    push_line(&mut lines, line2);
    let mut line3 = blank_line();
    line3.put(app.language.text("Proxy mode", "代理模式"), Style::plain());
    line3.put(app.settings.network.proxy_mode.label(), Style::plain());
    assert(line3@ == settings_cells(app@)[2]);
    push_line(&mut lines, line3);
    let mut line4 = blank_line();
    line4.put(app.language.text("Proxy URL", "代理地址"), Style::plain());
    line4.put(text_or_dash(&app.settings.network.proxy_url), Style::plain());
    assert(line4@ == settings_cells(app@)[3]);
    push_line(&mut lines, line4);
    let mut line5 = blank_line();
    line5.put(app.language.text("No proxy", "代理绕过"), Style::plain());
    line5.put(bypassed.as_str(), Style::plain());
    assert(line5@ == settings_cells(app@)[4]);
    push_line(&mut lines, line5);
    let mut line6 = blank_line();
    line6.put(app.language.text("Test registry connections", "测试仓库连接"), Style::plain());
    line6.put(test_word(&app.network_test, app.language), Style::plain());
    assert(line6@ == settings_cells(app@)[5]);
    push_line(&mut lines, line6);
    let mut line7 = blank_line();
    line7.put(app.language.text("GitHub API key", "GitHub API Key"), Style::plain());
    line7.put(key_word(&app.quota, app.language), Style::plain());
    assert(line7@ == settings_cells(app@)[6]);
    push_line(&mut lines, line7);
    let mut line8 = blank_line();
    line8.put(app.language.text("Repository monitor interval", "仓库监控间隔"), Style::plain());
    line8.put(
        join2(
            decimal(app.settings.github.poll_interval_secs).as_str(),
            app.language.text(" seconds", " 秒"),
        ).as_str(),
        Style::plain(),
    );
    assert(line8@ == settings_cells(app@)[7]);
    push_line(&mut lines, line8);
    lines
}

/// `text` with spaces behind it up to ten characters.
pub open spec fn padded(text: Seq<char>) -> Seq<char> {
    if text.len() >= 10 {
        text
    } else {
        text + Seq::new((10 - text.len()) as nat, |i: int| ' ')
    }
}

/// `text` with spaces behind it up to ten characters.
pub fn pad_name(text: &str) -> (r: String)
    ensures
        r@ == padded(text@),
{
    let mut chars = chars_of(text);
    let count: usize = chars.len();
    while chars.len() < 10
        invariant
            count == text@.len(),
            chars@.len() >= count,
            count < 10 ==> chars@.len() <= 10,
            count >= 10 ==> chars@.len() == count,
            forall|k: int| 0 <= k < count ==> chars@[k] == text@[k],
            forall|k: int| count <= k < chars@.len() ==> chars@[k] == ' ',
        decreases 10 - chars@.len(),
    {
        chars.push(' ');
    }
    assert(chars@ =~= padded(text@));
    string_of(chars.as_slice())
}

/// The line of a host in the test of the network.
pub open spec fn test_line(result: NetworkTestResult) -> LineView {
    LineView::of(
        seq![
            tinted(padded(result.name@), Color::Accent),
            match result.error {
                Some(error) => tinted("FAILED  "@ + error@, Color::Error),
                None => tinted(
                    "OK  "@ + decimal_text(result.elapsed_ms as nat) + " ms"@,
                    Color::Success,
                ),
            },
        ],
    )
}

fn test_text(result: &NetworkTestResult) -> (r: StyledLine)
    ensures
        r@ == test_line(*result),
{
    let mut line = blank_line();
    line.tint(pad_name(result.name).as_str(), Color::Accent);
    match &result.error {
        Some(error) => line.tint(join2("FAILED  ", error.as_str()).as_str(), Color::Error),
        None => line.tint(
            join3("OK  ", decimal(result.elapsed_ms).as_str(), " ms").as_str(),
            Color::Success,
        ),
    }
    line
}

/// What the modes of the proxy mean.
pub open spec fn mode_views(language: Language) -> Seq<LineView> {
    seq![
        LineView::one(
            language.pick(
                "environment inherits standard proxy variables; explicit uses only this URL; direct removes all proxy variables. No mode falls back to another."@,
                "environment 继承标准代理变量；explicit 只使用此处地址；direct 会移除全部代理变量。任何模式都不会回退到另一模式。"@,
            ),
            Style::of(Some(Color::Dim), None),
        ),
        LineView::one(
            language.pick(
                "Explicit mode supports HTTP/HTTPS CONNECT only. Proxy credentials and SOCKS are rejected."@,
                "显式模式仅支持 HTTP/HTTPS CONNECT；代理凭据和 SOCKS 会被拒绝。"@,
            ),
            Style::of(Some(Color::Subtle), None),
        ),
    ]
}

/// What the modes of the proxy mean.
pub fn proxy_help(language: Language) -> (r: Vec<StyledLine>)
    ensures
        line_views(r@) == mode_views(language),
{
    let mut lines: Vec<StyledLine> = Vec::new();
    proof { lemma_no_pieces(); }
    push_line(
        &mut lines,
        line_of(
            language.text(
                "environment inherits standard proxy variables; explicit uses only this URL; direct removes all proxy variables. No mode falls back to another.",
                "environment 继承标准代理变量；explicit 只使用此处地址；direct 会移除全部代理变量。任何模式都不会回退到另一模式。",
            ),
            Style::with_fg(Color::Dim),
        ),
    );
    push_line(
        &mut lines,
        line_of(
            language.text(
                "Explicit mode supports HTTP/HTTPS CONNECT only. Proxy credentials and SOCKS are rejected.",
                "显式模式仅支持 HTTP/HTTPS CONNECT；代理凭据和 SOCKS 会被拒绝。",
            ),
            Style::with_fg(Color::Subtle),
        ),
    );
    lines
}

/// The line on how often the repositories are looked at.
pub open spec fn interval_line(seconds: u64, language: Language) -> LineView {
    LineView::one(
        language.pick("GitHub Release metadata refreshes every "@, "GitHub Release 元数据每 "@)
            + decimal_text(seconds as nat) + language.pick(
            " seconds; installation requires confirmation in Tools."@,
            " 秒刷新一次；安装必须在工具页确认。"@,
        ),
        Style::of(Some(Color::Dim), None),
    )
}

/// The line on where the settings are stored.
pub open spec fn storage_line(path: Seq<char>, language: Language) -> LineView {
    LineView::one(
        language.pick("Stored in "@, "保存位置："@) + path,
        Style::of(Some(Color::Subtle), None),
    )
}

/// The lines under the settings, which are stored at `path`.
pub open spec fn settings_notes(app: AppView, path: Seq<char>) -> Seq<LineView> {
    mode_views(app.language) + Seq::new(
        app.network_test.results.len(),
        |i: int| test_line(app.network_test.results[i]),
    ) + (if app.github.monitors.len() > 0 {
            seq![interval_line(app.settings.github.poll_interval_secs, app.language)]
        } else {
            Seq::empty()
    }) + seq![storage_line(path, app.language)]
}

/// The lines under the settings, which are stored at `path`.
pub fn settings_description(app: &App, path: &str) -> (r: Vec<StyledLine>)
    ensures
        line_views(r@) == settings_notes(app@, path@),
{
    let language = app.language;
    let mut lines = proxy_help(language);
    let ghost modes = mode_views(language);
    let ghost results = Seq::new(
        app.network_test.results@.len(),
        |i: int| test_line(app.network_test.results@[i]),
    );
    let mut i: usize = 0;
    assert(line_views(lines@) =~= modes + results.take(0));
    while i < app.network_test.results.len()
        invariant
            i <= app.network_test.results@.len(),
            results == Seq::new(
                app.network_test.results@.len(),
                |i: int| test_line(app.network_test.results@[i]),
            ),
            line_views(lines@) == modes + results.take(i as int),
        decreases app.network_test.results@.len() - i,
    {
        push_line(&mut lines, test_text(&app.network_test.results[i]));
        assert(line_views(lines@) =~= modes + results.take(i + 1));
        i += 1;
    }
    assert(results.take(i as int) =~= results);
    if app.github.monitors.len() > 0 {
        let text = join3(
            language.text("GitHub Release metadata refreshes every ", "GitHub Release 元数据每 "),
            decimal(app.settings.github.poll_interval_secs).as_str(),
            language.text(
                " seconds; installation requires confirmation in Tools.",
                " 秒刷新一次；安装必须在工具页确认。",
            ),
        );
        push_line(&mut lines, line_of(text.as_str(), Style::with_fg(Color::Dim)));
    }
    let stored = join2(language.text("Stored in ", "保存位置："), path);
    push_line(&mut lines, line_of(stored.as_str(), Style::with_fg(Color::Subtle)));
    assert(line_views(lines@) =~= settings_notes(app@, path@));
    lines
}

/// The rows of the settings, and which setting each stands for.
pub open spec fn setting_places(area: Rect) -> Seq<(Rect, usize)> {
    Seq::new(
        SETTINGS_ROW_COUNT as nat,
        |i: int|
        (
            Rect {
                x: capped(area.x, 1),
                y: capped(area.y, (3 + i) as u16),
                width: less(area.width, 2),
                height: 1,
            },
            i as usize,
        ),
    )
}

impl App {
    /// Notes where the settings were drawn.
    pub fn settings_drawn(&mut self, area: Rect)
        requires
            old(self).wf(),
        ensures
            final(self).wf(),
            final(self).hits.settings@ == setting_places(area),
            final(self).hits == (
                Hitboxes { settings: final(self).hits.settings, ..old(self).hits }
            ),
            final(self)@ == (AppView { hits: final(self).hits, ..old(self)@ }),
    {
        let mut hitboxes: Vec<(Rect, usize)> = Vec::new();
        let mut i: usize = 0;
        while i < SETTINGS_ROW_COUNT
            invariant
                i <= SETTINGS_ROW_COUNT,
                hitboxes@ == setting_places(area).take(i as int),
            decreases SETTINGS_ROW_COUNT - i,
        {
            let place = Rect {
                x: area.x.saturating_add(1),
                y: area.y.saturating_add(3 + i as u16),
                width: area.width.saturating_sub(2),
                height: 1,
            };
            hitboxes.push((place, i));
            assert(hitboxes@ =~= setting_places(area).take(i + 1));
            i += 1;
        }
        assert(hitboxes@ =~= setting_places(area));
        self.hits.settings = hitboxes;
    }
}

} // verus!
