//! What was found of a tool, what a job has printed, and the settings, as they
//! are drawn.

use crate::language::Language;
use crate::number::{count_text, decimal_text};
use crate::search::lines;
use crate::text::{join2, join3, join5, same};
use crate::tui::activity::{activity_style, line_look};
use crate::tui::app::{App, AppView};
use crate::tui::content::{
    LineView, StyledLine, blank_line, lemma_no_pieces, line_of, line_views, push_line, styled,
};
use crate::tui::doctor::{Doctor, DoctorView};
use crate::tui::geometry::{Rect, at_most, before, capped};
use crate::tui::jobs::JobsView;
use crate::tui::model::{
    ExecutableCandidate, ExecutableDiagnosis, JobItem, ToolDiagnosis, count_visible_conflicts,
    doctor_status, shown_conflicts, shown_diagnoses, shown_named, verdict, visible_diagnoses,
    visible_diagnosis_position,
};
use crate::tui::style::{Color, Style};
use crate::tui::tables::less;
use crate::tui::wrapping::{
    content_width, inner_width, last_scroll, limit_scroll, row_of, total_height,
};
use crate::version::shown;
use vstd::prelude::*;
use vstd::string::*;

verus! {

/// The line that names a program.
pub open spec fn program_line(
    executable: ExecutableDiagnosis,
    updater: bool,
    language: Language,
) -> LineView {
    LineView::of(
        seq![
            styled((if updater {
                        language.pick("updater: "@, "更新器："@)
                    } else {
                        language.pick("command: "@, "命令："@)
                }), Style::of(Some(Color::Subtle), None)),
            styled(executable.program@, Style::of(Some(Color::Accent), None).heavy()),
        ],
    )
}

/// The line that names a program.
pub fn program_text(
    executable: &ExecutableDiagnosis,
    updater: bool,
    language: Language,
) -> (r: StyledLine)
    ensures
        r@ == program_line(*executable, updater, language),
{
    let mut line = blank_line();
    line.put((if updater {
                language.text("updater: ", "更新器：")
            } else {
                language.text("command: ", "命令：")
        }), Style::with_fg(Color::Subtle));
    line.put(executable.program.as_str(), Style::with_fg(Color::Accent).bold());
    line
}

/// The line of a place where a program was found; `first` where it wins.
pub open spec fn candidate_line(
    candidate: ExecutableCandidate,
    first: bool,
    language: Language,
) -> LineView {
    LineView::of(
        seq![
            styled((if first {
                        language.pick("active: "@, "当前生效："@)
                    } else {
                        language.pick("shadowed: "@, "被遮蔽："@)
                }), if first {
                    Style::of(Some(Color::Success), None)
                } else {
                    Style::of(Some(Color::Warning), None)
            }),
            styled(candidate.path@, Style::of(None, None)),
            styled("  ["@ + candidate.source@ + "]  "@, Style::of(Some(Color::Dim), None)),
            styled(
                language.pick("version "@, "版本 "@) + version_or_unknown(candidate),
                Style::of(Some(Color::Accent), None),
            ),
        ],
    )
}

/// The line of a place where a program was found; `first` where it wins.
pub fn candidate_text(
    candidate: &ExecutableCandidate,
    first: bool,
    language: Language,
) -> (r: StyledLine)
    ensures
        r@ == candidate_line(*candidate, first, language),
{
    let version = match &candidate.version {
        Some(version) => version.as_str(),
        None => "unknown",
    };
    let mut line = blank_line();
    line.put((if first {
                language.text("active: ", "当前生效：")
            } else {
                language.text("shadowed: ", "被遮蔽：")
        }), if first {
            Style::with_fg(Color::Success)
        } else {
            Style::with_fg(Color::Warning)
    });
    line.put(candidate.path.as_str(), Style::plain());
    line.put(join3("  [", candidate.source.as_str(), "]  ").as_str(), Style::with_fg(Color::Dim));
    line.put(
        join2(language.text("version ", "版本 "), version).as_str(),
        Style::with_fg(Color::Accent),
    );
    line
}

/// The version of a program that was found, as far as it is known.
pub open spec fn version_or_unknown(candidate: ExecutableCandidate) -> Seq<char> {
    match candidate.version {
        Some(version) => version@,
        None => "unknown"@,
    }
}

/// The lines of a program and of the places where it was found.
pub open spec fn executable_lines(
    executable: ExecutableDiagnosis,
    updater: bool,
    language: Language,
) -> Seq<LineView> {
    let name = program_line(executable, updater, language);
    if executable.candidates@.len() == 0 {
        seq![
            name,
            LineView::one(
                language.pick("active: not found"@, "当前生效：未找到"@),
                Style::of(Some(Color::Subtle), None),
            ),
        ]
    } else {
        seq![name] + Seq::new(
            executable.candidates@.len(),
            |i: int| candidate_line(executable.candidates@[i], i == 0, language),
        )
    }
}

/// Adds the lines of a program and of the places where it was found.
pub fn append_doctor_executable_lines(
    lines: &mut Vec<StyledLine>,
    executable: &ExecutableDiagnosis,
    updater: bool,
    language: Language,
)
    ensures
        line_views(final(lines)@) == line_views(old(lines)@) + executable_lines(
            *executable,
            updater,
            language,
        ),
{
    let ghost before = line_views(lines@);
    let ghost name = program_line(*executable, updater, language);
    push_line(lines, program_text(executable, updater, language));
    if executable.candidates.len() == 0 {
        push_line(
            lines,
            line_of(
                language.text("active: not found", "当前生效：未找到"),
                Style::with_fg(Color::Subtle),
            ),
        );
        assert(line_views(lines@) =~= before + executable_lines(*executable, updater, language));
        return;
    }
    let ghost found = Seq::new(
        executable.candidates@.len(),
        |i: int| candidate_line(executable.candidates@[i], i == 0, language),
    );
    let mut i: usize = 0;
    assert(line_views(lines@) =~= before + (seq![name] + found.take(0)));
    while i < executable.candidates.len()
        invariant
            i <= executable.candidates@.len(),
            found == Seq::new(
                executable.candidates@.len(),
                |i: int| candidate_line(executable.candidates@[i], i == 0, language),
            ),
            line_views(lines@) == before + (seq![name] + found.take(i as int)),
        decreases executable.candidates@.len() - i,
    {
        push_line(lines, candidate_text(&executable.candidates[i], i == 0, language));
        assert(line_views(lines@) =~= before + (seq![name] + found.take(i + 1)));
        i += 1;
    }
    assert(found.take(i as int) =~= found);
}

/// The line of what is to be said of a tool.
pub open spec fn status_line(diagnosis: ToolDiagnosis, language: Language) -> LineView {
    LineView::of(
        seq![
            styled(language.pick("status: "@, "状态："@), Style::of(Some(Color::Subtle), None)),
            styled(verdict(diagnosis).name(language), verdict(diagnosis).look()),
        ],
    )
}

/// The line of what is to be said of a tool.
pub fn status_text(diagnosis: &ToolDiagnosis, language: Language) -> (r: StyledLine)
    ensures
        r@ == status_line(*diagnosis, language),
{
    let status = doctor_status(diagnosis);
    let mut line = blank_line();
    line.put(language.text("status: ", "状态："), Style::with_fg(Color::Subtle));
    line.put(status.label(language), status.style());
    line
}

/// Whether two places where a program was found report different versions.
pub open spec fn versions_conflict(diagnosis: ToolDiagnosis) -> bool {
    diagnosis.target.versions_differ || (diagnosis.updater matches Some(updater)
        && updater.versions_differ)
}

/// The lines about a conflict.
pub open spec fn conflict_lines(differ: bool, language: Language) -> Seq<LineView> {
    seq![
        LineView::blank(),
        LineView::one(
            if differ {
                language.pick(
                    "conflict: PATH candidates report different versions"@,
                    "冲突：PATH 候选项报告了不同版本"@,
                )
            } else {
                language.pick(
                    "conflict: multiple installations are visible in PATH"@,
                    "冲突：PATH 中存在多个可见安装"@,
                )
            },
            Style::of(Some(Color::Warning), None).heavy(),
        ),
        LineView::one(
            language.pick(
                "fix: remove the stale installation from PATH or move the intended one first"@,
                "建议：从 PATH 移除旧安装，或把预期安装移动到最前面"@,
            ),
            Style::of(Some(Color::Dim), None),
        ),
    ]
}

/// Adds the lines about a conflict.
fn append_conflict(lines: &mut Vec<StyledLine>, differ: bool, language: Language)
    ensures
        line_views(final(lines)@) == line_views(old(lines)@) + conflict_lines(differ, language),
{
    let ghost before = line_views(lines@);
    let cause = if differ {
        language.text(
            "conflict: PATH candidates report different versions",
            "冲突：PATH 候选项报告了不同版本",
        )
    } else {
        language.text(
            "conflict: multiple installations are visible in PATH",
            "冲突：PATH 中存在多个可见安装",
        )
    };
    push_line(lines, blank_line());
    push_line(lines, line_of(cause, Style::with_fg(Color::Warning).bold()));
    push_line(
        lines,
        line_of(
            language.text(
                "fix: remove the stale installation from PATH or move the intended one first",
                "建议：从 PATH 移除旧安装，或把预期安装移动到最前面",
            ),
            Style::with_fg(Color::Dim),
        ),
    );
    assert(line_views(lines@) =~= before + conflict_lines(differ, language));
}

/// What is said of a tool that the system `os` does not have.
pub open spec fn unsupported_text(os: Seq<char>, language: Language) -> Seq<char> {
    language.pick(
        "unsupported on "@ + os,
        "当前平台 "@ + os + " 不支持此工具"@,
    )
}

/// The lines of the updater of a tool.
pub open spec fn updater_lines(diagnosis: ToolDiagnosis, language: Language) -> Seq<LineView> {
    match diagnosis.updater {
        Some(updater) => seq![LineView::blank()] + executable_lines(updater, true, language),
        None => Seq::empty(),
    }
}

/// The lines of what was found of a tool, on the system `os`.
pub open spec fn diagnosis_lines(
    diagnosis: ToolDiagnosis,
    language: Language,
    os: Seq<char>,
) -> Seq<LineView> {
    let status = seq![status_line(diagnosis, language)];
    if !diagnosis.supported {
        status + seq![
            LineView::one(unsupported_text(os, language), Style::of(Some(Color::Warning), None)),
        ]
    } else {
        status + executable_lines(diagnosis.target, false, language) + updater_lines(
            diagnosis,
            language,
        ) + (if diagnosis.has_conflict {
                conflict_lines(versions_conflict(diagnosis), language)
            } else {
                Seq::empty()
        })
    }
}

/// The lines of what was found of a tool, on the system `os`.
pub fn doctor_detail_lines(diagnosis: &ToolDiagnosis, language: Language, os: &str) -> (r: Vec<
    StyledLine,
>)
    ensures
        line_views(r@) == diagnosis_lines(*diagnosis, language, os@),
{
    let mut lines: Vec<StyledLine> = Vec::new();
    proof {
        lemma_no_pieces();
    }
    push_line(&mut lines, status_text(diagnosis, language));
    let ghost status = seq![status_line(*diagnosis, language)];
    assert(line_views(lines@) =~= status);
    if !diagnosis.supported {
        let text = match language {
            Language::English => join2("unsupported on ", os),
            Language::Chinese => join3("当前平台 ", os, " 不支持此工具"),
        };
        push_line(&mut lines, line_of(text.as_str(), Style::with_fg(Color::Warning)));
        assert(line_views(lines@) =~= diagnosis_lines(*diagnosis, language, os@));
        return lines;
    }
    append_doctor_executable_lines(&mut lines, &diagnosis.target, false, language);
    let ghost found = line_views(lines@);
    let mut differ = diagnosis.target.versions_differ;
    if let Some(updater) = &diagnosis.updater {
        push_line(&mut lines, blank_line());
        append_doctor_executable_lines(&mut lines, updater, true, language);
        differ = differ || updater.versions_differ;
    }
    assert(line_views(lines@) =~= found + updater_lines(*diagnosis, language));
    if diagnosis.has_conflict {
        append_conflict(&mut lines, differ, language);
    }
    assert(line_views(lines@) =~= diagnosis_lines(*diagnosis, language, os@));
    lines
}

/// The title of the list of the diagnoses.
pub open spec fn doctor_title_line(app: AppView) -> LineView {
    LineView::of(
        seq![
            styled(
                app.language.pick(" Doctor  "@, " 安装诊断  "@),
                Style::of(Some(Color::Accent), None).heavy(),
            ),
            styled(scan_state(app.doctor, app.language).0, scan_state(app.doctor, app.language).1),
            styled(scan_summary(app), if shown_conflicts(app.doctor.diagnoses, app.hides()) == 0 {
                    Style::of(Some(Color::Subtle), None)
                } else {
                    Style::of(Some(Color::Warning), None)
            }),
            styled(scan_time(app.doctor), Style::of(Some(Color::Subtle), None)),
        ],
    )
}

/// The title of the list of the diagnoses.
pub fn doctor_title(app: &App) -> (r: StyledLine)
    ensures
        r@ == doctor_title_line(app@),
{
    let hide = app.hides_unavailable();
    let conflicts: usize = count_visible_conflicts(&app.doctor.diagnoses, hide);
    let state = scan_words(&app.doctor, app.language);
    let summary = if app.doctor.never_scanned() {
        let none = String::new();
        assert(none@ =~= Seq::<char>::empty());
        none
    } else {
        join5(
            "  ",
            count_text(app.doctor.visible_count(hide)).as_str(),
            app.language.text(" tools · ", " 工具 · "),
            count_text(conflicts).as_str(),
            app.language.text(" warn", " 冲突"),
        )
    };
    let time = match &app.doctor.checked_at {
        Some(checked) => join3("  ", checked.as_str(), " "),
        None => {
            let none = String::new();
            assert(none@ =~= Seq::<char>::empty());
            none
        },
    };
    let mut line = blank_line();
    line.put(app.language.text(" Doctor  ", " 安装诊断  "), Style::with_fg(Color::Accent).bold());
    line.put(state.0, state.1);
    line.put(summary.as_str(), if conflicts == 0 {
            Style::with_fg(Color::Subtle)
        } else {
            Style::with_fg(Color::Warning)
    });
    line.put(time.as_str(), Style::with_fg(Color::Subtle));
    line
}

/// How the scan stands, and in which colour that is said.
pub open spec fn scan_state(doctor: DoctorView, language: Language) -> (Seq<char>, Style) {
    if doctor.loading {
        (language.pick("● scanning"@, "● 扫描中"@), Style::of(Some(Color::Accent), None))
    } else if doctor.unscanned() {
        (language.pick("● not scanned"@, "● 尚未诊断"@), Style::of(Some(Color::Warning), None))
    } else {
        (language.pick("● ready"@, "● 已完成"@), Style::of(Some(Color::Success), None))
    }
}

fn scan_words(doctor: &Doctor, language: Language) -> (r: (&'static str, Style))
    ensures
        (r.0@, r.1) == scan_state(doctor@, language),
{
    if doctor.loading {
        (language.text("● scanning", "● 扫描中"), Style::with_fg(Color::Accent))
    } else if doctor.never_scanned() {
        (language.text("● not scanned", "● 尚未诊断"), Style::with_fg(Color::Warning))
    } else {
        (language.text("● ready", "● 已完成"), Style::with_fg(Color::Success))
    }
}

/// How many tools were scanned, and how many conflicts were found.
pub open spec fn scan_summary(app: AppView) -> Seq<char> {
    if app.doctor.unscanned() {
        Seq::empty()
    } else {
        "  "@ + decimal_text(
            shown_diagnoses(app.doctor.diagnoses, app.hides()).len(),
        ) + app.language.pick(" tools · "@, " 工具 · "@) + decimal_text(
            shown_conflicts(app.doctor.diagnoses, app.hides()),
        ) + app.language.pick(" warn"@, " 冲突"@)
    }
}

/// When the last scan ended.
pub open spec fn scan_time(doctor: DoctorView) -> Seq<char> {
    match doctor.checked_at {
        Some(checked) => "  "@ + checked@ + " "@,
        None => Seq::empty(),
    }
}

/// What is said before the first scan.
pub open spec fn prompt_views(language: Language) -> Seq<LineView> {
    seq![
        LineView::one(
            language.pick(
                "Installation diagnostics have not been run."@,
                "尚未运行安装冲突诊断。"@,
            ),
            Style::of(Some(Color::Dim), None),
        ),
        LineView::one(
            language.pick(
                "Press Enter to scan; press R to rescan later."@,
                "按 Enter 开始扫描；之后可按 R 重新扫描。"@,
            ),
            Style::of(Some(Color::Accent), None).heavy(),
        ),
    ]
}

/// What is said before the first scan.
pub fn doctor_prompt_lines(language: Language) -> (r: Vec<StyledLine>)
    ensures
        line_views(r@) == prompt_views(language),
{
    let mut lines: Vec<StyledLine> = Vec::new();
    proof { lemma_no_pieces(); }
    push_line(
        &mut lines,
        line_of(
            language.text("Installation diagnostics have not been run.", "尚未运行安装冲突诊断。"),
            Style::with_fg(Color::Dim),
        ),
    );
    push_line(
        &mut lines,
        line_of(
            language.text(
                "Press Enter to scan; press R to rescan later.",
                "按 Enter 开始扫描；之后可按 R 重新扫描。",
            ),
            Style::with_fg(Color::Accent).bold(),
        ),
    );
    lines
}

/// Where it is said that nothing was scanned yet.
pub open spec fn prompt_place(area: Rect) -> Rect {
    let height = at_most(less(area.height, 4) as int, 2) as u16;
    Rect {
        x: capped(area.x, 2),
        y: capped(capped(area.y, 3), less(area.height, (4 + height) as u16) / 2),
        width: less(area.width, 4),
        height,
    }
}

/// Where it is said that nothing was scanned yet.
pub fn doctor_prompt_area(area: Rect) -> (r: Rect)
    ensures
        r == prompt_place(area),
{
    let room: u16 = area.height.saturating_sub(4);
    let height: u16 = if room < 2 {
        room
    } else {
        2
    };
    Rect {
        x: area.x.saturating_add(2),
        y: area.y.saturating_add(3).saturating_add(area.height.saturating_sub(4 + height) / 2),
        width: area.width.saturating_sub(4),
        height,
    }
}

impl AppView {
    /// The unfolded diagnosis, where it is shown.
    pub open spec fn opened_diagnosis(self) -> Option<ToolDiagnosis> {
        match self.doctor.expanded {
            Some(name) => match shown_named(self.doctor.diagnoses, self.hides(), name@) {
                Some(k) => Some(
                    self.doctor.diagnoses[shown_diagnoses(self.doctor.diagnoses, self.hides())[k]],
                ),
                None => None,
            },
            None => None,
        }
    }

    /// The lines of the unfolded diagnosis.
    pub open spec fn doctor_details(self, os: Seq<char>) -> Seq<LineView> {
        match self.opened_diagnosis() {
            Some(diagnosis) => diagnosis_lines(diagnosis, self.language, os),
            None => seq![
                LineView::one(
                    self.language.pick("No diagnosis selected."@, "未选择诊断项。"@),
                    Style::of(Some(Color::Subtle), None),
                ),
            ],
        }
    }

    /// The title over the unfolded diagnosis.
    pub open spec fn doctor_detail_name(self) -> Seq<char> {
        match self.opened_diagnosis() {
            Some(diagnosis) => self.language.pick(
                " Diagnosis — "@,
                " 诊断详情 — "@,
            ) + diagnosis.name@
            + " "@,
            None => self.language.pick(" Diagnosis "@, " 诊断详情 "@),
        }
    }

    /// The unfolded job, where it is listed.
    pub open spec fn opened_job(self) -> Option<JobItem> {
        match self.jobs.expanded {
            Some(id) => job_with_id(self.jobs.items, id@, 0),
            None => None,
        }
    }

    /// The lines of the log of the unfolded job.
    pub open spec fn job_details(self) -> Seq<LineView> {
        if self.jobs.log.len() == 0 {
            seq![
                LineView::one(
                    self.language.pick("No output has been recorded yet."@, "尚未记录任何输出。"@),
                    Style::of(Some(Color::Subtle), None),
                ),
            ]
        } else {
            Seq::new(
                self.jobs.log.len(),
                |i: int|
                    LineView::one(
                        self.jobs.log[i],
                        if self.jobs.selects(i) {
                            Style { bg: Some(Color::SelectionBg), ..line_look(self.jobs.log[i]) }
                        } else {
                            line_look(self.jobs.log[i])
                        },
                    ),
            )
        }
    }

    /// The title over the log of the unfolded job.
    pub open spec fn job_detail_name(self) -> Seq<char> {
        match self.opened_job() {
            Some(job) => self.language.pick(
                " Result — "@,
                " 结果 — "@,
            ) + job.name@ + " / "@ + job.id@
            + " "@,
            None => self.language.pick(" Result "@, " 结果 "@),
        }
    }
}

/// The first job from `i` on that has that id.
pub open spec fn job_with_id(jobs: Seq<JobItem>, id: Seq<char>, i: int) -> Option<JobItem>
decreases jobs.len() - i,
{
    if i >= jobs.len() {
        None
    } else if jobs[i].id@ == id {
        Some(jobs[i])
    } else {
        job_with_id(jobs, id, i + 1)
    }
}

impl App {
    fn find_opened_diagnosis(&self) -> (r: Option<&ToolDiagnosis>)
        ensures
            r is Some <==> self@.opened_diagnosis() is Some,
            r matches Some(diagnosis) ==> self@.opened_diagnosis() == Some(*diagnosis),
    {
        let hide = self.hides_unavailable();
        match &self.doctor.expanded {
            Some(name) => {
                let shown = visible_diagnoses(&self.doctor.diagnoses, hide);
                match visible_diagnosis_position(&self.doctor.diagnoses, hide, name.as_str()) {
                    Some(k) => Some(&self.doctor.diagnoses[shown[k]]),
                    None => None,
                }
            },
            None => None,
        }
    }

    fn find_opened_job(&self) -> (r: Option<&JobItem>)
        ensures
            r is Some <==> self@.opened_job() is Some,
            r matches Some(job) ==> self@.opened_job() == Some(*job),
    {
        if let Some(id) = &self.jobs.expanded {
            let mut i: usize = 0;
            while i < self.jobs.items.len()
                invariant
                    i <= self.jobs.items@.len(),
                    self.jobs.expanded == Some(*id),
                    job_with_id(self.jobs.items@, id@, 0) == job_with_id(
                        self.jobs.items@,
                        id@,
                        i as int,
                    ),
                decreases self.jobs.items@.len() - i,
            {
                if same(self.jobs.items[i].id.as_str(), id.as_str()) {
                    return Some(&self.jobs.items[i]);
                }
                i += 1;
            }
        }
        None
    }

    /// The lines of the unfolded diagnosis, on the system `os`.
    pub fn doctor_details(&self, os: &str) -> (r: Vec<StyledLine>)
        ensures
            line_views(r@) == self@.doctor_details(os@),
    {
        match self.find_opened_diagnosis() {
            Some(diagnosis) => doctor_detail_lines(diagnosis, self.language, os),
            None => {
                let mut lines: Vec<StyledLine> = Vec::new();
                proof {
                    lemma_no_pieces();
                }
                push_line(
                    &mut lines,
                    line_of(
                        self.language.text("No diagnosis selected.", "未选择诊断项。"),
                        Style::with_fg(Color::Subtle),
                    ),
                );
                lines
            },
        }
    }

    /// The title over the unfolded diagnosis.
    pub fn doctor_detail_title(&self) -> (r: String)
        ensures
            r@ == self@.doctor_detail_name(),
    {
        match self.find_opened_diagnosis() {
            Some(diagnosis) => join3(
                self.language.text(" Diagnosis — ", " 诊断详情 — "),
                diagnosis.name.as_str(),
                " ",
            ),
            None => self.language.text(" Diagnosis ", " 诊断详情 ").to_owned(),
        }
    }

    /// The lines of the log of the unfolded job.
    pub fn job_details(&self) -> (r: Vec<StyledLine>)
        ensures
            line_views(r@) == self@.job_details(),
    {
        let mut lines: Vec<StyledLine> = Vec::new();
        proof {
            lemma_no_pieces();
        }
        if self.jobs.log.len() == 0 {
            push_line(
                &mut lines,
                line_of(
                    self.language.text("No output has been recorded yet.", "尚未记录任何输出。"),
                    Style::with_fg(Color::Subtle),
                ),
            );
            return lines;
        }
        let ghost all = self@.job_details();
        let mut i: usize = 0;
        assert(all.take(0) =~= Seq::<LineView>::empty());
        while i < self.jobs.log.len()
            invariant
                i <= self.jobs.log@.len(),
                self.jobs.log@.len() > 0,
                all == self@.job_details(),
                all.len() == self.jobs.log@.len(),
                line_views(lines@) == all.take(i as int),
            decreases self.jobs.log@.len() - i,
        {
            let text = self.jobs.log[i].as_str();
            assert(self@.jobs.log[i as int] == text@);
            assert(all.take(i + 1) =~= all.take(i as int).push(all[i as int]));
            let look = activity_style(text);
            let style = if self.jobs.is_selected(i) {
                Style { bg: Some(Color::SelectionBg), ..look }
            } else {
                look
            };
            push_line(&mut lines, line_of(text, style));
            i += 1;
        }
        assert(all.take(i as int) =~= all);
        lines
    }

    /// The title over the log of the unfolded job.
    pub fn job_detail_title(&self) -> (r: String)
        ensures
            r@ == self@.job_detail_name(),
    {
        match self.find_opened_job() {
            Some(job) => join5(
                self.language.text(" Result — ", " 结果 — "),
                job.name.as_str(),
                " / ",
                job.id.as_str(),
                " ",
            ),
            None => self.language.text(" Result ", " 结果 ").to_owned(),
        }
    }

    /// Scrolls the log of a job back where it has become shorter; gives the number
    /// of rows that its lines take in `area`.
    pub fn job_details_drawn(&mut self, area: Rect, lines: &Vec<StyledLine>) -> (r: usize)
        requires
            old(self).wf(),
        ensures
            final(self).wf(),
            r == row_of(line_views(lines@), inner_width(area), lines@.len() as int),
            final(self)@ == (AppView {
                jobs: JobsView {
                    log_scroll: at_most(
                        old(self).jobs.log_scroll as int,
                        last_scroll(r as int, area),
                    ) as usize,
                    ..old(self)@.jobs
                },
                ..old(self)@
            }),
    {
        let total: usize = total_height(lines, content_width(area));
        self.jobs.log_scroll = limit_scroll(self.jobs.log_scroll, total, area);
        total
    }

    /// Scrolls what was found of a tool back where it has become shorter; gives the
    /// number of rows that its lines take in `area`.
    pub fn doctor_details_drawn(&mut self, area: Rect, lines: &Vec<StyledLine>) -> (r: usize)
        requires
            old(self).wf(),
        ensures
            final(self).wf(),
            r == row_of(line_views(lines@), inner_width(area), lines@.len() as int),
            final(self)@ == (AppView {
                doctor: DoctorView {
                    detail_scroll: at_most(
                        old(self).doctor.detail_scroll as int,
                        last_scroll(r as int, area),
                    ) as usize,
                    ..old(self)@.doctor
                },
                ..old(self)@
            }),
    {
        let total: usize = total_height(lines, content_width(area));
        self.doctor.detail_scroll = limit_scroll(self.doctor.detail_scroll, total, area);
        total
    }
}

} // verus!
