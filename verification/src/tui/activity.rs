//! The activity log: what it keeps, and how its lines look.

use crate::language::Language;
use crate::search::{
    begins_with, contains, digit, ends_with, finishes_with, has_text, is_digit_char,
    lemma_texts_push, lines, lowered, starts_with, stripped_of, texts, to_lower, trim,
    trim_matches, trim_start, trimmed, trimmed_start,
};
use crate::terminal::{sanitize_terminal_output, sanitized};
use crate::text::{chars_of, slice};
use crate::tui::style::{Color, Style};
use vstd::prelude::*;
use vstd::string::*;

verus! {

/// How many lines the activity log keeps.
pub const MAX_ACTIVITY_LINES: usize = 1000;

/// Whether `s` begins as `pattern` does, where a zero stands for any digit.
pub open spec fn begins_like(s: Seq<char>, pattern: Seq<char>) -> bool {
    &&& s.len() >= pattern.len()
    &&& forall|i: int|
        0 <= i < pattern.len() ==> if pattern[i] == '0' {
            is_digit_char(#[trigger] s[i])
        } else {
            s[i] == pattern[i]
        }
}

/// `s` without the date and time in brackets at its start.
pub open spec fn without_stamp(s: Seq<char>) -> Seq<char> {
    let pattern = "[0000-00-00 00:00:00] "@;
    if begins_like(s, pattern) {
        s.skip(pattern.len() as int)
    } else {
        s
    }
}

/// `text` without the date and time in brackets at its start.
pub fn strip_timestamp_prefix<'a>(text: &'a str) -> (r: &'a str)
    ensures
        r@ == without_stamp(text@),
{
    let chars = chars_of(text);
    let pattern = chars_of("[0000-00-00 00:00:00] ");
    if chars.len() < pattern.len() {
        return text;
    }
    let mut i: usize = 0;
    while i < pattern.len()
        invariant
            chars@ == text@,
            pattern@ == "[0000-00-00 00:00:00] "@,
            i <= pattern@.len() <= chars@.len(),
            forall|k: int|
                0 <= k < i ==> if pattern@[k] == '0' {
                    is_digit_char(#[trigger] chars@[k])
                } else {
                    chars@[k] == pattern@[k]
                },
        decreases pattern@.len() - i,
    {
        let fits = if pattern[i] == '0' {
            digit(chars[i])
        } else {
            chars[i] == pattern[i]
        };
        if !fits {
            assert(!begins_like(text@, pattern@)) by {
                assert(chars@[i as int] == text@[i as int]);
            }
            return text;
        }
        i += 1;
    }
    let rest = slice(text, pattern.len(), chars.len());
    assert(rest@ =~= text@.skip(pattern@.len() as int));
    rest
}

/// What a line of the log is about.
#[derive(Clone, Copy, Debug, PartialEq, Eq, Structural)]
pub enum ActivityTone {
    Normal,
    Start,
    Success,
    Queued,
    Error,
    Hint,
    Metadata,
}

/// Whether a line tells of a failure.
pub open spec fn line_failed(line: Seq<char>, lower: Seq<char>) -> bool {
    ||| begins_with(lower, "error:"@)
    ||| begins_with(lower, "failure:"@)
    ||| begins_with(line, "错误："@)
    ||| begins_with(line, "刷新失败："@)
    ||| has_text(lower, ": failed ==="@)
    ||| finishes_with(lower, ": failed"@)
    ||| has_text(line, ": 失败 ==="@)
    ||| finishes_with(line, ": 失败"@)
    ||| has_text(lower, " failed with error"@)
    ||| has_text(lower, " failed (exit code"@)
    ||| has_text(lower, "httpforbidden"@)
    ||| (begins_with(lower, "complete:"@) && !has_text(lower, "0 failed"@))
    ||| (begins_with(line, "完成："@) && !has_text(line, "0 项失败"@))
}

fn is_line_failed(line: &str, lower: &String) -> (r: bool)
    ensures
        r == line_failed(line@, lower@),
{
    starts_with(lower.as_str(), "error:")
        || starts_with(lower.as_str(), "failure:")
        || starts_with(line, "错误：")
        || starts_with(line, "刷新失败：")
        || contains(lower.as_str(), ": failed ===")
        || ends_with(lower.as_str(), ": failed")
        || contains(line, ": 失败 ===")
        || ends_with(line, ": 失败")
        || contains(lower.as_str(), " failed with error")
        || contains(lower.as_str(), " failed (exit code")
        || contains(lower.as_str(), "httpforbidden")
        || (starts_with(lower.as_str(), "complete:") && !contains(lower.as_str(), "0 failed"))
        || (starts_with(line, "完成：") && !contains(line, "0 项失败"))
}

/// Whether a line tells of a job that waits.
pub open spec fn line_queued(line: Seq<char>, lower: Seq<char>) -> bool {
    ||| has_text(lower, ": queued ==="@)
    ||| finishes_with(lower, ": queued"@)
    ||| has_text(line, ": 已排队 ==="@)
    ||| finishes_with(line, ": 已排队"@)
    ||| begins_with(lower, "queued "@)
    ||| begins_with(line, "已排队"@)
    ||| has_text(lower, "waiting on process policy"@)
    ||| has_text(line, "等待进程策略"@)
}

fn is_line_queued(line: &str, lower: &String) -> (r: bool)
    ensures
        r == line_queued(line@, lower@),
{
    contains(lower.as_str(), ": queued ===")
        || ends_with(lower.as_str(), ": queued")
        || contains(line, ": 已排队 ===")
        || ends_with(line, ": 已排队")
        || starts_with(lower.as_str(), "queued ")
        || starts_with(line, "已排队")
        || contains(lower.as_str(), "waiting on process policy")
        || contains(line, "等待进程策略")
}

/// Whether a line tells of a success.
pub open spec fn line_succeeded(line: Seq<char>, lower: Seq<char>) -> bool {
    ||| has_text(lower, ": ok ==="@)
    ||| finishes_with(lower, ": ok"@)
    ||| has_text(line, ": 成功 ==="@)
    ||| finishes_with(line, ": 成功"@)
    ||| begins_with(lower, "updated "@)
    ||| begins_with(lower, "added "@)
    ||| begins_with(lower, "removed "@)
    ||| begins_with(line, "已更新"@)
    ||| begins_with(line, "已添加"@)
    ||| begins_with(line, "已删除"@)
    ||| (begins_with(lower, "complete:"@) && has_text(lower, "0 failed"@))
    ||| (begins_with(line, "完成："@) && has_text(line, "0 项失败"@))
}

fn is_line_succeeded(line: &str, lower: &String) -> (r: bool)
    ensures
        r == line_succeeded(line@, lower@),
{
    contains(lower.as_str(), ": ok ===")
        || ends_with(lower.as_str(), ": ok")
        || contains(line, ": 成功 ===")
        || ends_with(line, ": 成功")
        || starts_with(lower.as_str(), "updated ")
        || starts_with(lower.as_str(), "added ")
        || starts_with(lower.as_str(), "removed ")
        || starts_with(line, "已更新")
        || starts_with(line, "已添加")
        || starts_with(line, "已删除")
        || (starts_with(lower.as_str(), "complete:") && contains(lower.as_str(), "0 failed"))
        || (starts_with(line, "完成：") && contains(line, "0 项失败"))
}

/// Whether a line tells that something starts.
pub open spec fn line_started(line: Seq<char>, lower: Seq<char>) -> bool {
    ||| begins_with(lower, ">>> "@)
}

fn is_line_started(line: &str, lower: &String) -> (r: bool)
    ensures
        r == line_started(line@, lower@),
{
    starts_with(lower.as_str(), ">>> ")
}

/// Whether a line gives advice.
pub open spec fn line_hinting(line: Seq<char>, lower: Seq<char>) -> bool {
    ||| begins_with(lower, "please "@)
    ||| begins_with(lower, "powershell "@)
    ||| begins_with(lower, "suggested "@)
    ||| begins_with(lower, "process policy:"@)
    ||| begins_with(line, "请"@)
    ||| begins_with(line, "进程策略："@)
}

fn is_line_hinting(line: &str, lower: &String) -> (r: bool)
    ensures
        r == line_hinting(line@, lower@),
{
    starts_with(lower.as_str(), "please ")
        || starts_with(lower.as_str(), "powershell ")
        || starts_with(lower.as_str(), "suggested ")
        || starts_with(lower.as_str(), "process policy:")
        || starts_with(line, "请")
        || starts_with(line, "进程策略：")
}

/// Whether a line holds a detail of a job.
pub open spec fn line_informing(line: Seq<char>, lower: Seq<char>) -> bool {
    ||| begins_with(lower, "job:"@)
    ||| begins_with(lower, "inspect:"@)
    ||| begins_with(lower, "command:"@)
    ||| begins_with(lower, "resource:"@)
    ||| begins_with(lower, "exit:"@)
    ||| begins_with(line, "任务："@)
    ||| begins_with(line, "查看："@)
    ||| begins_with(line, "命令："@)
    ||| begins_with(line, "资源："@)
    ||| begins_with(line, "退出码："@)
}

fn is_line_informing(line: &str, lower: &String) -> (r: bool)
    ensures
        r == line_informing(line@, lower@),
{
    starts_with(lower.as_str(), "job:")
        || starts_with(lower.as_str(), "inspect:")
        || starts_with(lower.as_str(), "command:")
        || starts_with(lower.as_str(), "resource:")
        || starts_with(lower.as_str(), "exit:")
        || starts_with(line, "任务：")
        || starts_with(line, "查看：")
        || starts_with(line, "命令：")
        || starts_with(line, "资源：")
        || starts_with(line, "退出码：")
}

/// The part of a log line that tells what it is about.
pub open spec fn core_of(text: Seq<char>) -> Seq<char> {
    trimmed(stripped_of(trimmed(without_stamp(text)), '='))
}

/// What a line of the log is about.
pub open spec fn tone_of(text: Seq<char>) -> ActivityTone {
    let line = core_of(text);
    let lower = lowered(line);
    if line_failed(line, lower) {
        ActivityTone::Error
    } else if line_queued(line, lower) {
        ActivityTone::Queued
    } else if line_succeeded(line, lower) {
        ActivityTone::Success
    } else if line_started(line, lower) {
        ActivityTone::Start
    } else if line_hinting(line, lower) {
        ActivityTone::Hint
    } else if line_informing(line, lower) {
        ActivityTone::Metadata
    } else {
        ActivityTone::Normal
    }
}

/// What a line of the log is about.
pub fn activity_tone(text: &str) -> (r: ActivityTone)
    ensures
        r == tone_of(text@),
{
    let unprefixed = strip_timestamp_prefix(text);
    let line = trim(trim_matches(trim(unprefixed), '='));
    let lower = to_lower(line);
    if is_line_failed(line, &lower) {
        ActivityTone::Error
    } else if is_line_queued(line, &lower) {
        ActivityTone::Queued
    } else if is_line_succeeded(line, &lower) {
        ActivityTone::Success
    } else if is_line_started(line, &lower) {
        ActivityTone::Start
    } else if is_line_hinting(line, &lower) {
        ActivityTone::Hint
    } else if is_line_informing(line, &lower) {
        ActivityTone::Metadata
    } else {
        ActivityTone::Normal
    }
}

pub open spec fn tone_look(tone: ActivityTone) -> Style {
    match tone {
        ActivityTone::Normal => Style::of(None, None),
        ActivityTone::Start => Style::of(Some(Color::Accent), None),
        ActivityTone::Success => Style::of(Some(Color::Success), None),
        ActivityTone::Queued | ActivityTone::Hint => Style::of(Some(Color::Warning), None),
        ActivityTone::Error => Style::of(Some(Color::Error), None),
        ActivityTone::Metadata => Style::of(Some(Color::Metadata), None),
    }
}

/// How a line of the log looks.
pub open spec fn line_look(text: Seq<char>) -> Style {
    let style = tone_look(tone_of(text));
    if begins_with(trimmed_start(text), "==="@) || begins_with(trimmed_start(text), ">>>"@) {
        style.heavy()
    } else {
        style
    }
}

/// How a line of the log looks.
pub fn activity_style(text: &str) -> (r: Style)
    ensures
        r == line_look(text@),
{
    let style = match activity_tone(text) {
        ActivityTone::Normal => Style::plain(),
        ActivityTone::Start => Style::with_fg(Color::Accent),
        ActivityTone::Success => Style::with_fg(Color::Success),
        ActivityTone::Queued | ActivityTone::Hint => Style::with_fg(Color::Warning),
        ActivityTone::Error => Style::with_fg(Color::Error),
        ActivityTone::Metadata => Style::with_fg(Color::Metadata),
    };
    let start = trim_start(text);
    if starts_with(start, "===") || starts_with(start, ">>>") {
        style.bold()
    } else {
        style
    }
}

/// What the log says of the outcome of an operation.
pub open spec fn outcome_name(success: bool, queued: bool, language: Language) -> Seq<char> {
    if !success {
        language.pick("FAILED"@, "失败"@)
    } else if queued {
        language.pick("QUEUED"@, "已排队"@)
    } else {
        language.pick("OK"@, "成功"@)
    }
}

/// What the log says of the outcome of an operation.
pub fn activity_outcome_label(success: bool, queued: bool, language: Language) -> (r: &'static str)
    ensures
        r@ == outcome_name(success, queued, language),
{
    if !success {
        language.text("FAILED", "失败")
    } else if queued {
        language.text("QUEUED", "已排队")
    } else {
        language.text("OK", "成功")
    }
}

/// Whether a line of the log heads the output of an operation.
pub open spec fn heads_execution(text: Seq<char>) -> bool {
    let line = trimmed(text);
    let lower = lowered(line);
    ||| begins_with(lower, "=== update "@)
    ||| begins_with(lower, "=== save "@)
    ||| begins_with(lower, "=== remove "@)
    ||| begins_with(line, "=== 更新 "@)
    ||| begins_with(line, "=== 保存 "@)
    ||| begins_with(line, "=== 删除 "@)
}

/// Whether a line of the log heads the output of an operation.
pub fn is_activity_execution_header(text: &str) -> (r: bool)
    ensures
        r == heads_execution(text@),
{
    let line = trim(text);
    let lower = to_lower(line);
    starts_with(lower.as_str(), "=== update ") || starts_with(lower.as_str(), "=== save ")
        || starts_with(lower.as_str(), "=== remove ") || starts_with(line, "=== 更新 ")
        || starts_with(line, "=== 保存 ") || starts_with(line, "=== 删除 ")
}

/// The lines that were logged, when, which of them are unfolded, and which is
/// shown first.
#[derive(Debug)]
pub struct ActivityLog {
    pub lines: Vec<String>,
    pub timestamps: Vec<String>,
    pub expanded: Vec<usize>,
    pub scroll: usize,
}

/// What a log holds.
#[verifier::ext_equal]
pub struct LogView {
    pub lines: Seq<Seq<char>>,
    pub stamps: Seq<Seq<char>>,
    pub expanded: Set<int>,
    pub scroll: int,
}

/// The numbers in a list, as a set.
pub open spec fn number_set(numbers: Seq<usize>) -> Set<int> {
    Set::new(|i: int| exists|k: int| 0 <= k < numbers.len() && #[trigger] numbers[k] == i)
}

impl View for ActivityLog {
    type V = LogView;

    open spec fn view(&self) -> LogView {
        LogView {
            lines: texts(self.lines@),
            stamps: texts(self.timestamps@),
            expanded: number_set(self.expanded@),
            scroll: self.scroll as int,
        }
    }
}

impl LogView {
    /// How many lines are dropped when one more is logged.
    pub open spec fn surplus(self) -> int {
        if self.lines.len() + 1 > MAX_ACTIVITY_LINES {
            self.lines.len() + 1 - MAX_ACTIVITY_LINES
        } else {
            0
        }
    }

    /// The log with one more line; the oldest ones make room for it.
    pub open spec fn logged(self, line: Seq<char>, stamp: Seq<char>) -> LogView {
        let k = self.surplus();
        let lines = self.lines.push(line).skip(k);
        LogView {
            lines,
            stamps: self.stamps.push(stamp).skip(
                if k <= self.stamps.len() + 1 {
                    k
                } else {
                    self.stamps.len() + 1int
                },
            ),
            expanded: Set::new(|i: int| 0 <= i && self.expanded.contains(i + k)),
            scroll: lines.len() - 1,
        }
    }

    /// The log with the first `n` of some lines added.
    pub open spec fn logged_first(self, lines: Seq<Seq<char>>, stamp: Seq<char>, n: int) -> LogView
        decreases n,
    {
        if n <= 0 {
            self
        } else {
            self.logged_first(lines, stamp, n - 1).logged(lines[n - 1], stamp)
        }
    }

    /// The log with the readable lines of some output added.
    pub open spec fn logged_output(self, output: Seq<char>, stamp: Seq<char>) -> LogView {
        self.logged_first(sanitized(output), stamp, sanitized(output).len() as int)
    }
}

/// The log keeps at most a thousand lines, and the newest line is the last one.
pub proof fn law_activity_is_bounded(log: LogView, line: Seq<char>, stamp: Seq<char>)
    ensures
        log.logged(line, stamp).lines.len() <= MAX_ACTIVITY_LINES,
        log.logged(line, stamp).lines.last() == line,
        log.lines.len() < MAX_ACTIVITY_LINES ==> log.logged(line, stamp).lines == log.lines.push(
            line,
        ),
        log.stamps.len() == log.lines.len() ==> log.logged(line, stamp).stamps.len() == log.logged(
            line,
            stamp,
        ).lines.len(),
{
    assert(log.lines.push(line).skip(0) =~= log.lines.push(line));
}

/// Unfolded lines stay unfolded when older lines make room.
pub proof fn law_unfolding_follows_the_line(
    log: LogView,
    line: Seq<char>,
    stamp: Seq<char>,
    i: int,
)
    requires
        log.surplus() <= i < log.lines.len(),
    ensures
        log.logged(line, stamp).lines[i - log.surplus()] == log.lines[i],
        log.logged(line, stamp).expanded.contains(i - log.surplus()) <==> log.expanded.contains(i),
{
}

/// The numbers of a list, each less by `k`, without those below.
fn lowered_by(numbers: &Vec<usize>, k: usize) -> (r: Vec<usize>)
    ensures
        number_set(r@) == Set::new(|i: int| 0 <= i && number_set(numbers@).contains(i + k)),
{
    let mut kept: Vec<usize> = Vec::new();
    let mut j: usize = 0;
    while j < numbers.len()
        invariant
            j <= numbers@.len(),
            forall|i: int| #[trigger]
                number_set(kept@).contains(i) <==> 0 <= i && number_set(
                    numbers@.take(j as int),
                ).contains(i + k),
        decreases numbers@.len() - j,
    {
        let n: usize = numbers[j];
        let ghost before = kept@;
        let ghost seen = numbers@.take(j as int);
        if n >= k {
            kept.push((n - k) as usize);
        }
        assert(numbers@.take(j + 1) =~= seen.push(n));
        assert forall|i: int| #[trigger]
            number_set(kept@).contains(i) <==> 0 <= i && number_set(
                numbers@.take(j + 1),
            ).contains(i + k) by {
            lemma_number_push(seen, n, i + k);
            if n >= k {
                lemma_number_push(before, (n - k) as usize, i);
            }
        }
        j += 1;
    }
    assert(numbers@.take(j as int) =~= numbers@);
    assert(number_set(kept@) =~= Set::new(
        |i: int| 0 <= i && number_set(numbers@).contains(i + k),
    ));
    kept
}

/// A number is among a list with one more exactly if it was there or is that.
pub proof fn lemma_number_push(numbers: Seq<usize>, n: usize, i: int)
    ensures
        number_set(numbers.push(n)).contains(i) <==> number_set(numbers).contains(i) || i == n,
{
    if i == n {
        assert(numbers.push(n)[numbers.len() as int] == i);
    }
    if number_set(numbers).contains(i) {
        let k = choose|k: int| 0 <= k < numbers.len() && #[trigger] numbers[k] == i;
        assert(numbers.push(n)[k] == i);
    }
    if number_set(numbers.push(n)).contains(i) && i != n {
        let k = choose|k: int|
            0 <= k < numbers.push(n).len() && #[trigger] numbers.push(n)[k] == i;
        assert(numbers[k] == i);
    }
}

/// Whether `n` is among `numbers`.
pub fn holds_number(numbers: &Vec<usize>, n: usize) -> (r: bool)
    ensures
        r == number_set(numbers@).contains(n as int),
{
    let mut j: usize = 0;
    while j < numbers.len()
        invariant
            j <= numbers@.len(),
            forall|k: int| 0 <= k < j ==> numbers@[k] != n,
        decreases numbers@.len() - j,
    {
        if numbers[j] == n {
            return true;
        }
        j += 1;
    }
    false
}

/// The numbers of a list but `n`.
fn numbers_without(numbers: &Vec<usize>, n: usize) -> (r: Vec<usize>)
    ensures
        number_set(r@) == number_set(numbers@).remove(n as int),
{
    let mut kept: Vec<usize> = Vec::new();
    let mut j: usize = 0;
    while j < numbers.len()
        invariant
            j <= numbers@.len(),
            forall|i: int| #[trigger]
                number_set(kept@).contains(i) <==> i != n && number_set(
                    numbers@.take(j as int),
                ).contains(i),
        decreases numbers@.len() - j,
    {
        let m: usize = numbers[j];
        let ghost before = kept@;
        let ghost seen = numbers@.take(j as int);
        if m != n {
            kept.push(m);
        }
        assert(numbers@.take(j + 1) =~= seen.push(m));
        assert forall|i: int| #[trigger]
            number_set(kept@).contains(i) <==> i != n && number_set(
                numbers@.take(j + 1),
            ).contains(i) by {
            lemma_number_push(seen, m, i);
            if m != n {
                lemma_number_push(before, m, i);
            }
        }
        j += 1;
    }
    assert(numbers@.take(j as int) =~= numbers@);
    assert(number_set(kept@) =~= number_set(numbers@).remove(n as int));
    kept
}

impl ActivityLog {
    /// Adds a line; the oldest ones make room for it.
    pub fn push(&mut self, line: String, timestamp: &str)
        ensures
            final(self)@ == old(self)@.logged(line@, timestamp@),
    {
        let ghost before = self@;
        let stamp = timestamp.to_owned();
        proof {
            lemma_texts_push(self.lines@, line);
            lemma_texts_push(self.timestamps@, stamp);
        }
        self.lines.push(line);
        self.timestamps.push(stamp);
        let ghost all = self.lines@;
        let ghost stamps = self.timestamps@;
        if self.lines.len() > MAX_ACTIVITY_LINES {
            let surplus: usize = self.lines.len() - MAX_ACTIVITY_LINES;
            self.lines = self.lines.split_off(surplus);
            let cut: usize = if surplus <= self.timestamps.len() {
                surplus
            } else {
                self.timestamps.len()
            };
            self.timestamps = self.timestamps.split_off(cut);
            self.expanded = lowered_by(&self.expanded, surplus);
            assert(texts(self.lines@) =~= texts(all).skip(surplus as int));
            assert(texts(self.timestamps@) =~= texts(stamps).skip(cut as int));
        } else {
            assert(texts(all).skip(0) =~= texts(all));
            assert(texts(stamps).skip(0) =~= texts(stamps));
            assert forall|i: int| number_set(self.expanded@).contains(i) implies 0 <= i by {}
            assert(before.expanded =~= Set::new(
                |i: int| 0 <= i && before.expanded.contains(i + 0),
            ));
        }
        self.scroll = self.lines.len() - 1;
        assert(self@ =~= before.logged(line@, timestamp@));
    }

    /// Adds the readable lines of some output.
    pub fn push_output(&mut self, output: &str, timestamp: &str)
        ensures
            final(self)@ == old(self)@.logged_output(output@, timestamp@),
    {
        let ghost before = self@;
        let lines = sanitize_terminal_output(output);
        let mut i: usize = 0;
        while i < lines.len()
            invariant
                i <= lines@.len(),
                texts(lines@) == sanitized(output@),
                self@ == before.logged_first(sanitized(output@), timestamp@, i as int),
            decreases lines@.len() - i,
        {
            let line = lines[i].clone();
            assert(texts(lines@)[i as int] == line@);
            self.push(line, timestamp);
            i += 1;
        }
    }

    /// Unfolds line `index`, or folds it.
    pub fn toggle(&mut self, index: usize)
        ensures
            final(self)@ == (LogView {
                expanded: if old(self)@.expanded.contains(index as int) {
                    old(self)@.expanded.remove(index as int)
                } else {
                    old(self)@.expanded.insert(index as int)
                },
                ..old(self)@
            }),
    {
        if holds_number(&self.expanded, index) {
            self.expanded = numbers_without(&self.expanded, index);
        } else {
            let ghost before = self.expanded@;
            self.expanded.push(index);
            assert forall|i: int| #[trigger]
                number_set(self.expanded@).contains(i) <==> (number_set(before).contains(i) || i
                    == index) by {
                lemma_number_push(before, index, i);
            }
            assert(number_set(self.expanded@) =~= number_set(before).insert(index as int));
        }
    }
}

} // verus!
