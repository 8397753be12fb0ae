//! The scenarios of the probe: which keys are sent, when the console is
//! resized, and what the screen must show in the end.

use vstd::prelude::*;
use crate::probe;
use crate::screen;
use crate::screen::{logical_lines, PhysicalLine};
use crate::script;
use crate::script::storm_cols;
use crate::text;
use crate::ticks;
use crate::ticks::{count_lines_containing, count_occurrences};
use crate::violations;
use crate::violations::payload_violations;

verus! {

/// How long output is taken in behind each typed character, in milliseconds.
pub const TYPING_DRAIN_MS: u64 = 120;

/// How long one wait for output takes meanwhile, in milliseconds.
pub const TYPING_POLL_MS: u64 = 20;

/// One step of a scenario that drives a pseudo console.
pub enum ProbeStep {
    /// Wait for text to show up, with the usual patience.
    WaitForMarker(String),
    /// The same, going on without it when it does not.
    TryMarker(String),
    /// Wait for the prompt of a slowly starting shell.
    WaitForPrompt { prompt: String, seconds: u64 },
    /// Collect output for one stage.
    Settle(String),
    /// Type, then flush.
    Keys(String),
    /// Resize the console, then the terminal.
    Resize { rows: usize, cols: usize },
    /// Take in output for a short while.
    Drain { window_ms: u64, poll_ms: u64 },
    /// Note the cursor, the buffer and the output of this step.
    Trace { cols: usize },
    /// Resize the console, take in output, and only then resize the terminal.
    RacedResize { rows: usize, cols: usize, window_ms: u64, poll_ms: u64 },
    /// Check the buffer before any resize.
    CheckBaseline,
    /// Check and record the buffer.
    CheckStage(String),
}

/// A step of a scenario as text.
pub enum ProbeStepView {
    WaitForMarker(Seq<char>),
    TryMarker(Seq<char>),
    WaitForPrompt { prompt: Seq<char>, seconds: int },
    Settle(Seq<char>),
    Keys(Seq<char>),
    Resize { rows: int, cols: int },
    Drain { window_ms: int, poll_ms: int },
    Trace { cols: int },
    RacedResize { rows: int, cols: int, window_ms: int, poll_ms: int },
    CheckBaseline,
    CheckStage(Seq<char>),
}

impl View for ProbeStep {
    type V = ProbeStepView;

    open spec fn view(&self) -> ProbeStepView {
        match self {
            ProbeStep::WaitForMarker(s) => ProbeStepView::WaitForMarker(s@),
            ProbeStep::TryMarker(s) => ProbeStepView::TryMarker(s@),
            ProbeStep::WaitForPrompt { prompt, seconds } => ProbeStepView::WaitForPrompt {
                prompt: prompt@,
                seconds: *seconds as int,
            },
            ProbeStep::Settle(s) => ProbeStepView::Settle(s@),
            ProbeStep::Keys(s) => ProbeStepView::Keys(s@),
            ProbeStep::Resize { rows, cols } => ProbeStepView::Resize {
                rows: *rows as int,
                cols: *cols as int,
            },
            ProbeStep::Drain { window_ms, poll_ms } => ProbeStepView::Drain {
                window_ms: *window_ms as int,
                poll_ms: *poll_ms as int,
            },
            ProbeStep::Trace { cols } => ProbeStepView::Trace { cols: *cols as int },
            ProbeStep::RacedResize { rows, cols, window_ms, poll_ms } => {
                ProbeStepView::RacedResize {
                    rows: *rows as int,
                    cols: *cols as int,
                    window_ms: *window_ms as int,
                    poll_ms: *poll_ms as int,
                }
            },
            ProbeStep::CheckBaseline => ProbeStepView::CheckBaseline,
            ProbeStep::CheckStage(s) => ProbeStepView::CheckStage(s@),
        }
    }
}

/// The steps as text.
pub open spec fn steps_view(steps: Seq<ProbeStep>) -> Seq<ProbeStepView> {
    steps.map_values(|s: ProbeStep| s@)
}

/// Adds a step.
fn add_step(steps: &mut Vec<ProbeStep>, step: ProbeStep)
    ensures
        steps_view(final(steps)@) == steps_view(old(steps)@).push(step@),
{
    let ghost before = steps_view(steps@);
    steps.push(step);
    assert(steps_view(steps@) =~= before.push(step@));
}

/// The first `k` single resizes of the main run.
pub open spec fn single_stage_steps(k: nat) -> Seq<ProbeStepView>
    decreases k,
{
    if k == 0 {
        seq![]
    } else {
        let i = k - 1;
        let (rows, cols) = script::single_sizes()[i];
        single_stage_steps(i as nat) + seq![
            ProbeStepView::Resize { rows: rows as int, cols: cols as int },
            ProbeStepView::Settle(script::single_stages()[i]),
            ProbeStepView::CheckStage(script::single_stages()[i]),
        ]
    }
}

/// The first `k` resizes of a drag.
pub open spec fn drag_resizes(k: nat) -> Seq<ProbeStepView>
    decreases k,
{
    if k == 0 {
        seq![]
    } else {
        let i = k - 1;
        drag_resizes(i as nat) + seq![
            ProbeStepView::Resize { rows: 24, cols: script::storm_widths()[i] as int },
            ProbeStepView::Drain { window_ms: 30, poll_ms: 10 },
        ]
    }
}

/// The name of drag number `round`.
pub open spec fn drag_stage(round: nat) -> Seq<char> {
    "风暴"@ + text::decimal(round) + "：拖拽式连续 resize"@
}

/// The first `n` drags of the main run.
pub open spec fn drag_stage_steps(n: nat) -> Seq<ProbeStepView>
    decreases n,
{
    if n == 0 {
        seq![]
    } else {
        drag_stage_steps((n - 1) as nat) + drag_resizes(12) + seq![
            ProbeStepView::Settle(drag_stage(n)),
            ProbeStepView::CheckStage(drag_stage(n)),
        ]
    }
}

/// All steps of the main run.
pub open spec fn harness_steps() -> Seq<ProbeStepView> {
    seq![
        ProbeStepView::WaitForMarker("@@FIXTURE-READY@@"@),
        ProbeStepView::Settle("初始"@),
        ProbeStepView::CheckBaseline,
    ] + single_stage_steps(5) + drag_stage_steps(3)
}

/// The main run: single resizes, then drags of the window edge while output
/// keeps scrolling, every stage checked.
pub fn harness() -> (r: Vec<ProbeStep>)
    ensures
        steps_view(r@) == harness_steps(),
{
    let mut steps: Vec<ProbeStep> = Vec::new();
    assert(steps_view(steps@) =~= seq![]);
    add_step(&mut steps, ProbeStep::WaitForMarker("@@FIXTURE-READY@@".to_owned()));
    add_step(&mut steps, ProbeStep::Settle("初始".to_owned()));
    add_step(&mut steps, ProbeStep::CheckBaseline);
    let ghost ready = steps_view(steps@);
    let sizes: Vec<(usize, usize)> = vec![(24, 40), (24, 120), (10, 120), (30, 120), (24, 80)];
    let stages: Vec<&str> = vec![
        "缩窄 80->40",
        "放宽 40->120",
        "变矮 24->10",
        "变高 10->30",
        "回到 80x24",
    ];
    assert(ready + single_stage_steps(0) =~= ready);
    for i in 0..5usize
        invariant
            sizes@ == script::single_sizes(),
            stages@.len() == 5,
            forall|j: int| 0 <= j < 5 ==> (#[trigger] stages@[j])@ == script::single_stages()[j],
            steps_view(steps@) == ready + single_stage_steps(i as nat),
    {
        let (rows, cols) = sizes[i];
        add_step(&mut steps, ProbeStep::Resize { rows, cols });
        add_step(&mut steps, ProbeStep::Settle(stages[i].to_owned()));
        add_step(&mut steps, ProbeStep::CheckStage(stages[i].to_owned()));
        assert(steps_view(steps@) =~= ready + single_stage_steps((i + 1) as nat));
    }
    let ghost single = ready + single_stage_steps(5);
    assert(single + drag_stage_steps(0) =~= single);
    let widths = storm_cols();
    for n in 0..3usize
        invariant
            widths@ == script::storm_widths(),
            steps_view(steps@) == single + drag_stage_steps(n as nat),
    {
        let ghost start = steps_view(steps@);
        assert(start + drag_resizes(0) =~= start);
        for i in 0..12usize
            invariant
                widths@ == script::storm_widths(),
                steps_view(steps@) == start + drag_resizes(i as nat),
        {
            add_step(&mut steps, ProbeStep::Resize { rows: 24, cols: widths[i] });
            add_step(&mut steps, ProbeStep::Drain { window_ms: 30, poll_ms: 10 });
            assert(steps_view(steps@) =~= start + drag_resizes((i + 1) as nat));
        }
        let mut stage = "风暴".to_owned();
        stage.append(text::decimal_text(n as u64 + 1).as_str());
        stage.append("：拖拽式连续 resize");
        add_step(&mut steps, ProbeStep::Settle(stage.clone()));
        add_step(&mut steps, ProbeStep::CheckStage(stage));
        assert(steps_view(steps@) =~= single + drag_stage_steps((n + 1) as nat));
    }
    assert(steps_view(steps@) =~= harness_steps());
    steps
}

/// How many characters of a command are typed before each resize, so that the
/// whole command is typed when the resizes are over.
pub open spec fn chars_per_step(len: nat, resizes: nat) -> nat {
    (len + resizes - 1) as nat / resizes
}

/// The part of a command that is typed before resize `i`.
pub open spec fn typed_before(command: Seq<char>, resizes: nat, i: int) -> Seq<char> {
    let per = chars_per_step(command.len(), resizes);
    let from = if i * per < command.len() { i * per } else { command.len() as int };
    let to = if (i + 1) * per < command.len() { (i + 1) * per } else { command.len() as int };
    command.subrange(from, to)
}

/// The first `k` resizes of a storm during which `command` is typed.
pub open spec fn typing_storm(
    command: Seq<char>,
    rows: nat,
    widths: Seq<usize>,
    k: nat,
) -> Seq<ProbeStepView>
    decreases k,
{
    if k == 0 {
        seq![]
    } else {
        let i = k - 1;
        typing_storm(command, rows, widths, i as nat) + seq![
            ProbeStepView::Keys(typed_before(command, widths.len(), i)),
            ProbeStepView::Resize { rows: rows as int, cols: widths[i] as int },
            ProbeStepView::Drain { window_ms: 15, poll_ms: 10 },
        ]
    }
}

/// `command` typed piece by piece between resizes of the console.
pub fn type_during_storm(command: &str, rows: usize, widths: &Vec<usize>) -> (r: Vec<ProbeStep>)
    requires
        widths@.len() > 0,
        command@.len() + widths@.len() <= usize::MAX,
    ensures
        steps_view(r@) == typing_storm(command@, rows as nat, widths@, widths@.len()),
{
    let chars = text::chars_of(command);
    let per: usize = (chars.len() + widths.len() - 1) / widths.len();
    let mut steps: Vec<ProbeStep> = Vec::new();
    let mut fed: usize = 0;
    assert(steps_view(steps@) =~= seq![]);
    assert(per == chars_per_step(command@.len(), widths@.len()));
    assert(0 * per == 0);
    for i in 0..widths.len()
        invariant
            chars@ == command@,
            per == chars_per_step(command@.len(), widths@.len()),
            fed == (if i * per < command@.len() { i * per } else { command@.len() as int }),
            fed <= chars@.len(),
            steps_view(steps@) == typing_storm(command@, rows as nat, widths@, i as nat),
    {
        let left: usize = chars.len() - fed;
        let count: usize = if per < left { per } else { left };
        let mut piece = String::new();
        for j in 0..count
            invariant
                chars@ == command@,
                fed + count <= chars@.len(),
                chars@.len() <= usize::MAX,
                piece@ == command@.subrange(fed as int, fed + j),
        {
            piece.push(chars[fed + j]);
            assert(command@.subrange(fed as int, fed + j + 1) =~= command@.subrange(
                fed as int,
                fed + j,
            ).push(command@[fed + j]));
        }
        proof {
            assert((i + 1) * per == i * per + per) by (nonlinear_arith);
            assert(piece@ == typed_before(command@, widths@.len(), i as int));
        }
        fed += count;
        add_step(&mut steps, ProbeStep::Keys(piece));
        add_step(&mut steps, ProbeStep::Resize { rows, cols: widths[i] });
        add_step(&mut steps, ProbeStep::Drain { window_ms: 15, poll_ms: 10 });
        assert(steps_view(steps@) =~= typing_storm(
            command@,
            rows as nat,
            widths@,
            (i + 1) as nat,
        ));
    }
    steps
}

/// Everything that the steps type, in order.
pub open spec fn keys_typed(steps: Seq<ProbeStepView>) -> Seq<char>
    decreases steps.len(),
{
    if steps.len() == 0 {
        seq![]
    } else {
        keys_typed(steps.drop_last()) + (match steps.last() {
            ProbeStepView::Keys(s) => s,
            _ => seq![],
        })
    }
}

/// One more step types its keys behind the rest.
proof fn keys_of_one_more(steps: Seq<ProbeStepView>, s: ProbeStepView)
    ensures
        keys_typed(steps.push(s)) == keys_typed(steps) + (match s {
            ProbeStepView::Keys(t) => t,
            _ => seq![],
        }),
{
    assert(steps.push(s).drop_last() =~= steps);
}

/// After `k` resizes the first `k` pieces of the command are typed.
proof fn storm_types_a_prefix(command: Seq<char>, rows: nat, widths: Seq<usize>, k: nat)
    requires
        widths.len() > 0,
        k <= widths.len(),
    ensures
        ({
            let per = chars_per_step(command.len(), widths.len());
            keys_typed(typing_storm(command, rows, widths, k)) == command.take(
                if k * per < command.len() {
                    (k * per) as int
                } else {
                    command.len() as int
                },
            )
        }),
    decreases k,
{
    let per = chars_per_step(command.len(), widths.len());
    if k == 0 {
        assert(0 * per == 0);
        assert(command.take(0) =~= seq![]);
    } else {
        let i = k - 1;
        storm_types_a_prefix(command, rows, widths, i as nat);
        let s0 = typing_storm(command, rows, widths, i as nat);
        let keys = ProbeStepView::Keys(typed_before(command, widths.len(), i));
        let resize = ProbeStepView::Resize { rows: rows as int, cols: widths[i] as int };
        let drain = ProbeStepView::Drain { window_ms: 15, poll_ms: 10 };
        let s1 = s0.push(keys);
        let s2 = s1.push(resize);
        assert(typing_storm(command, rows, widths, k) =~= s2.push(drain));
        keys_of_one_more(s0, keys);
        keys_of_one_more(s1, resize);
        keys_of_one_more(s2, drain);
        assert(keys_typed(s2.push(drain)) =~= keys_typed(s1));
        assert((i + 1) * per == i * per + per) by (nonlinear_arith);
        assert(i * per >= 0) by (nonlinear_arith)
            requires
                i >= 0,
                per >= 0,
        ;
        let from = if i * per < command.len() { i * per } else { command.len() as int };
        let to = if (i + 1) * per < command.len() { (i + 1) * per } else { command.len() as int };
        assert(command.take(from) + command.subrange(from, to) =~= command.take(to));
    }
}

/// A command typed during a storm is typed completely, once and in order: the
/// pieces put together are the command.
pub proof fn storm_types_the_whole_command(command: Seq<char>, rows: nat, widths: Seq<usize>)
    requires
        widths.len() > 0,
    ensures
        keys_typed(typing_storm(command, rows, widths, widths.len())) == command,
{
    let per = chars_per_step(command.len(), widths.len());
    storm_types_a_prefix(command, rows, widths, widths.len());
    let n = widths.len() as int;
    let total = command.len() + n - 1;
    assert(total / n * n + total % n == total && 0 <= total % n < n) by (nonlinear_arith)
        requires
            n > 0,
    ;
    assert(n * per == total / n * n) by (nonlinear_arith)
        requires
            per == total / n,
    ;
    assert(n * per >= command.len());
    assert(command.take(command.len() as int) =~= command);
}

/// The widths of the storm during which a command is typed at a prompt.
pub open spec fn interactive_widths() -> Seq<usize> {
    seq![76, 70, 62, 55, 48, 42, 48, 56, 64, 72, 80]
}

/// All steps of the scenario in which a command is typed during a storm. The
/// commands spell their marker in two pieces, so that the whole marker shows up
/// in their output only.
pub open spec fn interactive_steps() -> Seq<ProbeStepView> {
    seq![
        ProbeStepView::WaitForPrompt { prompt: "PROBE>"@, seconds: 30 },
        ProbeStepView::Keys("1..12 | % { 'HIST-{0:d2}' -f $_ }\r"@),
        ProbeStepView::WaitForMarker("HIST-12"@),
        ProbeStepView::Settle("交互:历史就绪"@),
    ] + typing_storm("echo ('MAR'+'KER-A1')"@, 24, interactive_widths(), 11) + seq![
        ProbeStepView::Keys("\r"@),
        ProbeStepView::WaitForMarker("MARKER-A1"@),
        ProbeStepView::Settle("交互:风暴中输入执行完毕"@),
        ProbeStepView::Keys("echo ('MAR'+'KER-B2')\r"@),
        ProbeStepView::WaitForMarker("MARKER-B2"@),
        ProbeStepView::Settle("交互:静止对照"@),
    ]
}

/// The steps of the scenario in which a command is typed during a storm.
pub fn interactive_shell_scenario() -> (r: Vec<ProbeStep>)
    ensures
        steps_view(r@) == interactive_steps(),
{
    let mut steps: Vec<ProbeStep> = Vec::new();
    assert(steps_view(steps@) =~= seq![]);
    add_step(&mut steps, ProbeStep::WaitForPrompt { prompt: "PROBE>".to_owned(), seconds: 30 });
    add_step(&mut steps, ProbeStep::Keys("1..12 | % { 'HIST-{0:d2}' -f $_ }\r".to_owned()));
    add_step(&mut steps, ProbeStep::WaitForMarker("HIST-12".to_owned()));
    add_step(&mut steps, ProbeStep::Settle("交互:历史就绪".to_owned()));
    let ghost ready = steps@;
    let widths: Vec<usize> = vec![76, 70, 62, 55, 48, 42, 48, 56, 64, 72, 80];
    proof {
        reveal_strlit("echo ('MAR'+'KER-A1')");
    }
    let mut storm = type_during_storm("echo ('MAR'+'KER-A1')", 24, &widths);
    let ghost typed = storm@;
    steps.append(&mut storm);
    assert(steps_view(ready + typed) =~= steps_view(ready) + steps_view(typed));
    add_step(&mut steps, ProbeStep::Keys("\r".to_owned()));
    add_step(&mut steps, ProbeStep::WaitForMarker("MARKER-A1".to_owned()));
    add_step(&mut steps, ProbeStep::Settle("交互:风暴中输入执行完毕".to_owned()));
    add_step(&mut steps, ProbeStep::Keys("echo ('MAR'+'KER-B2')\r".to_owned()));
    add_step(&mut steps, ProbeStep::WaitForMarker("MARKER-B2".to_owned()));
    add_step(&mut steps, ProbeStep::Settle("交互:静止对照".to_owned()));
    assert(steps_view(steps@) =~= interactive_steps());
    steps
}

/// Whether a wait for the prompt goes on: it is on the screen, the time is up,
/// or more output is wanted.
pub fn wait_for_prompt(
    lines: &Vec<PhysicalLine>,
    prompt: &str,
    elapsed_ns: u128,
    seconds: u64,
) -> (r: probe::WaitStep)
    ensures
        ({
            let shown = probe::some_contains(screen::row_texts(screen::rows(lines@)), prompt@);
            let late = elapsed_ns > seconds as int * 1_000_000_000;
            match r {
                probe::WaitStep::Found => shown,
                probe::WaitStep::TimedOut(message) => {
                    &&& !shown && late
                    &&& message@ == "等待 PROBE> 提示符超时"@
                },
                probe::WaitStep::Receive => !shown && !late,
            }
        }),
{
    if probe::any_contains(&screen::screen_text(lines), prompt) {
        return probe::WaitStep::Found;
    }
    if elapsed_ns > seconds as u128 * 1_000_000_000 {
        return probe::WaitStep::TimedOut("等待 PROBE> 提示符超时".to_owned());
    }
    probe::WaitStep::Receive
}

/// The lines of history that the scenario prints first.
pub open spec fn history_payloads() -> Seq<Seq<char>> {
    Seq::new(12, |i: int| "HIST-"@ + text::zero_padded((i + 1) as nat, 2))
}

/// The lines of history that the scenario prints first.
fn history() -> (r: Vec<String>)
    ensures
        text::texts(r@) == history_payloads(),
{
    let mut out: Vec<String> = Vec::new();
    for i in 0..12usize
        invariant
            out@.len() == i,
            forall|j: int|
                0 <= j < i ==> #[trigger] out@[j]@ == "HIST-"@ + text::zero_padded(
                    (j + 1) as nat,
                    2,
                ),
    {
        let mut line = "HIST-".to_owned();
        line.append(text::zero_padded_text(i as u64 + 1, 2).as_str());
        out.push(line);
    }
    assert(text::texts(out@) =~= history_payloads());
    out
}

/// A report, unless `count` is what it should be.
pub open spec fn unless_equal(count: nat, expected: nat, report: Seq<char>) -> Seq<Seq<char>> {
    if count == expected {
        seq![]
    } else {
        seq![report]
    }
}

/// What is wrong after the scenario in which a command is typed during a storm:
/// damaged history, a command that did not run exactly once, a command line
/// that left a shadow of itself.
pub open spec fn interactive_texts(rows: Seq<screen::LineView>) -> Seq<Seq<char>> {
    let lines = screen::logical(rows);
    let a1 = ticks::occurrences(lines, "MARKER-A1"@);
    let b2 = ticks::occurrences(lines, "MARKER-B2"@);
    let echoes = ticks::lines_containing(lines, "('MAR'+"@);
    violations::violation_texts(rows, history_payloads()) + unless_equal(
        a1,
        1,
        "输出 MARKER-A1 出现 "@ + text::decimal(a1)
            + " 次（期望 1：输入被错乱执行或输出被复制/丢弃）"@,
    ) + unless_equal(
        b2,
        1,
        "对照输出 MARKER-B2 出现 "@ + text::decimal(b2) + " 次（期望 1）"@,
    ) + unless_equal(
        echoes,
        2,
        "含命令回显片段 ('MAR'+ 的逻辑行 "@ + text::decimal(echoes)
            + " 行（期望 2：输入行存在叠影残留或被吞）"@,
    )
}

/// Adds a report, unless `count` is what it should be.
fn report_unless(
    reports: &mut Vec<String>,
    count: usize,
    expected: usize,
    before: &str,
    after: &str,
)
    ensures
        text::texts(final(reports)@) == text::texts(old(reports)@) + unless_equal(
            count as nat,
            expected as nat,
            before@ + text::decimal(count as nat) + after@,
        ),
{
    let ghost start = text::texts(reports@);
    if count != expected {
        let mut report = before.to_owned();
        report.append(text::decimal_text(count as u64).as_str());
        report.append(after);
        reports.push(report);
    }
    assert(text::texts(reports@) =~= start + unless_equal(
        count as nat,
        expected as nat,
        before@ + text::decimal(count as nat) + after@,
    ));
}

/// How often a non-empty needle stands in the logical lines of a buffer.
fn count_in(lines: &Vec<PhysicalLine>, needle: &str) -> (r: usize)
    requires
        needle@.len() > 0,
        text::total_len(screen::row_texts(screen::rows(lines@))) <= usize::MAX,
    ensures
        r == ticks::occurrences(screen::logical(screen::rows(lines@)), needle@),
{
    let joined = logical_lines(lines);
    proof {
        screen::joining_keeps_the_length(screen::rows(lines@));
        ticks::occurrences_fit_the_lines(text::texts(joined@), needle@);
    }
    count_occurrences(&joined, needle)
}

/// What is wrong after the scenario in which a command is typed during a storm.
pub fn interactive_violations(lines: &Vec<PhysicalLine>) -> (r: Vec<String>)
    requires
        screen::countable(screen::rows(lines@)),
    ensures
        text::texts(r@) == interactive_texts(screen::rows(lines@)),
{
    let mut reports = payload_violations(lines, &history());
    proof {
        reveal_strlit("MARKER-A1");
        reveal_strlit("MARKER-B2");
    }
    let a1 = count_in(lines, "MARKER-A1");
    report_unless(
        &mut reports,
        a1,
        1,
        "输出 MARKER-A1 出现 ",
        " 次（期望 1：输入被错乱执行或输出被复制/丢弃）",
    );
    let b2 = count_in(lines, "MARKER-B2");
    report_unless(&mut reports, b2, 1, "对照输出 MARKER-B2 出现 ", " 次（期望 1）");
    let echoes = count_lines_containing(&logical_lines(lines), "('MAR'+");
    report_unless(
        &mut reports,
        echoes,
        2,
        "含命令回显片段 ('MAR'+ 的逻辑行 ",
        " 行（期望 2：输入行存在叠影残留或被吞）",
    );
    reports
}

/// Whether a scenario passed: nothing was wrong in the end.
pub fn scenario_passed(violations: &Vec<String>) -> (r: bool)
    ensures
        r == (violations@.len() == 0),
{
    violations.len() == 0
}

/// The line that is shown for a scenario.
pub open spec fn scenario_line(name: Seq<char>, count: nat) -> Seq<char> {
    "["@ + probe::verdict_word(count == 0) + "] "@ + name + " (违规 "@ + text::decimal(count)
        + " 项)"@
}

/// The line that is shown for a scenario with `count` violations.
pub fn scenario_verdict(name: &str, count: usize) -> (r: String)
    ensures
        r@ == scenario_line(name@, count as nat),
{
    let mut out = "[".to_owned();
    out.append(
        if count == 0 {
            "PASS"
        } else {
            "FAIL"
        },
    );
    out.append("] ");
    out.append(name);
    out.append(" (违规 ");
    out.append(text::decimal_text(count as u64).as_str());
    out.append(" 项)");
    out
}

/// How the scenario that narrows the window and then types is set up.
pub struct NarrowPlan {
    pub rows: usize,
    pub cols: usize,
    /// The shell command that sets the prompt.
    pub prompt_command: String,
    /// What stands right before the typed text.
    pub prompt_tail: String,
    pub name: String,
    pub steps: Vec<ProbeStep>,
}

/// What stands right before the typed text.
pub open spec fn prompt_tail(gui_replay: bool) -> Seq<char> {
    if gui_replay {
        "PROBE-GH> "@
    } else {
        "ABCDEFGH> "@
    }
}

/// What shows that the prompt is there: its tail without the blank behind it.
pub open spec fn prompt_mark(gui_replay: bool) -> Seq<char> {
    if gui_replay {
        "PROBE-GH>"@
    } else {
        "ABCDEFGH>"@
    }
}

/// The mark of the prompt is its tail without the blank behind it.
proof fn the_mark_is_the_trimmed_tail(gui_replay: bool)
    ensures
        text::trimmed_end(prompt_tail(gui_replay)) == prompt_mark(gui_replay),
{
    reveal_strlit("PROBE-GH> ");
    reveal_strlit("ABCDEFGH> ");
    reveal_strlit("PROBE-GH>");
    reveal_strlit("ABCDEFGH>");
    assert(prompt_tail(gui_replay).drop_last() =~= prompt_mark(gui_replay));
    assert(text::white_space(prompt_tail(gui_replay).last()));
    assert(!text::white_space(prompt_mark(gui_replay).last()));
    assert(text::trimmed_end(prompt_mark(gui_replay)) == prompt_mark(gui_replay));
}

/// A resize that leaves a trace.
pub open spec fn traced_resize(cols: nat) -> Seq<ProbeStepView> {
    seq![
        ProbeStepView::Resize { rows: 24, cols: cols as int },
        ProbeStepView::Drain { window_ms: 15, poll_ms: 10 },
        ProbeStepView::Trace { cols: cols as int },
    ]
}

/// `n` traced resizes from width `from` on, each two columns narrower.
pub open spec fn narrowing(from: int, n: nat) -> Seq<ProbeStepView>
    decreases n,
{
    if n == 0 {
        seq![]
    } else {
        narrowing(from, (n - 1) as nat) + traced_resize((from - 2 * (n - 1)) as nat)
    }
}

/// `n` traced resizes from width `from` on, each two columns wider.
pub open spec fn widening(from: int, n: nat) -> Seq<ProbeStepView>
    decreases n,
{
    if n == 0 {
        seq![]
    } else {
        widening(from, (n - 1) as nat) + traced_resize((from + 2 * (n - 1)) as nat)
    }
}

/// The steps up to the typing: wide output, then a drag to the narrowest width
/// and back to a middle one. The replay takes both in one leap each, the
/// terminal lagging behind the console.
pub open spec fn narrow_steps(gui_replay: bool) -> Seq<ProbeStepView> {
    seq![
        ProbeStepView::WaitForMarker(prompt_mark(gui_replay)),
        ProbeStepView::Settle("缩窄后输入:prompt 就绪"@),
        ProbeStepView::Keys("1..30 | % { 'ROW-{0:d2}-' -f $_ + ('x' * 66) }\r"@),
        ProbeStepView::WaitForMarker("ROW-30-"@),
        ProbeStepView::Settle("缩窄后输入:宽输出就绪"@),
    ] + (if gui_replay {
        seq![
            ProbeStepView::RacedResize { rows: 30, cols: 27, window_ms: 300, poll_ms: 20 },
            ProbeStepView::Settle("缩窄后输入:已缩至 27 列"@),
            ProbeStepView::RacedResize { rows: 30, cols: 69, window_ms: 300, poll_ms: 20 },
            ProbeStepView::Settle("缩窄后输入:已放宽至 69 列"@),
        ]
    } else {
        narrowing(76, 26) + seq![ProbeStepView::Settle("缩窄后输入:已缩至 26 列"@)] + widening(
            28,
            15,
        ) + seq![ProbeStepView::Settle("缩窄后输入:已放宽至 56 列"@)]
    })
}

/// Adds a traced resize.
fn add_traced_resize(steps: &mut Vec<ProbeStep>, cols: usize)
    ensures
        steps_view(final(steps)@) == steps_view(old(steps)@) + traced_resize(cols as nat),
{
    let ghost start = steps_view(steps@);
    add_step(steps, ProbeStep::Resize { rows: 24, cols });
    add_step(steps, ProbeStep::Drain { window_ms: 15, poll_ms: 10 });
    add_step(steps, ProbeStep::Trace { cols });
    assert(steps_view(steps@) =~= start + traced_resize(cols as nat));
}

/// The set-up of the scenario that narrows the window and then types.
pub fn narrow_then_type_scenario(gui_replay: bool) -> (r: NarrowPlan)
    ensures
        r.rows == (if gui_replay { 30usize } else { 24usize }),
        r.cols == (if gui_replay { 100usize } else { 80usize }),
        r.prompt_command@ == (if gui_replay {
            "function prompt { 'PROBE-GH> ' }"@
        } else {
            "function prompt { 'PROBE-LONG-PROMPT-0123456789-ABCDEFGH> ' }"@
        }),
        r.prompt_tail@ == prompt_tail(gui_replay),
        r.name@ == (if gui_replay {
            "GUI重放:缩窄放宽后输入"@
        } else {
            "缩窄后输入场景"@
        }),
        steps_view(r.steps@) == narrow_steps(gui_replay),
{
    let tail = if gui_replay {
        "PROBE-GH> ".to_owned()
    } else {
        "ABCDEFGH> ".to_owned()
    };
    let mut steps: Vec<ProbeStep> = Vec::new();
    assert(steps_view(steps@) =~= seq![]);
    proof {
        the_mark_is_the_trimmed_tail(gui_replay);
    }
    add_step(&mut steps, ProbeStep::WaitForMarker(text::trim_end(tail.as_str())));
    add_step(&mut steps, ProbeStep::Settle("缩窄后输入:prompt 就绪".to_owned()));
    add_step(
        &mut steps,
        ProbeStep::Keys("1..30 | % { 'ROW-{0:d2}-' -f $_ + ('x' * 66) }\r".to_owned()),
    );
    add_step(&mut steps, ProbeStep::WaitForMarker("ROW-30-".to_owned()));
    add_step(&mut steps, ProbeStep::Settle("缩窄后输入:宽输出就绪".to_owned()));
    let ghost wide = steps_view(steps@);
    if gui_replay {
        add_step(
            &mut steps,
            ProbeStep::RacedResize { rows: 30, cols: 27, window_ms: 300, poll_ms: 20 },
        );
        add_step(&mut steps, ProbeStep::Settle("缩窄后输入:已缩至 27 列".to_owned()));
        add_step(
            &mut steps,
            ProbeStep::RacedResize { rows: 30, cols: 69, window_ms: 300, poll_ms: 20 },
        );
        add_step(&mut steps, ProbeStep::Settle("缩窄后输入:已放宽至 69 列".to_owned()));
    } else {
        assert(wide + narrowing(76, 0) =~= wide);
        for i in 0..26usize
            invariant
                steps_view(steps@) == wide + narrowing(76, i as nat),
        {
            add_traced_resize(&mut steps, 76 - 2 * i);
            assert(steps_view(steps@) =~= wide + narrowing(76, (i + 1) as nat));
        }
        add_step(&mut steps, ProbeStep::Settle("缩窄后输入:已缩至 26 列".to_owned()));
        let ghost narrow = steps_view(steps@);
        assert(narrow + widening(28, 0) =~= narrow);
        for i in 0..15usize
            invariant
                steps_view(steps@) == narrow + widening(28, i as nat),
        {
            add_traced_resize(&mut steps, 28 + 2 * i);
            assert(steps_view(steps@) =~= narrow + widening(28, (i + 1) as nat));
        }
        add_step(&mut steps, ProbeStep::Settle("缩窄后输入:已放宽至 56 列".to_owned()));
    }
    assert(steps_view(steps@) =~= narrow_steps(gui_replay));
    let prompt_command = if gui_replay {
        "function prompt { 'PROBE-GH> ' }".to_owned()
    } else {
        "function prompt { 'PROBE-LONG-PROMPT-0123456789-ABCDEFGH> ' }".to_owned()
    };
    let name = if gui_replay {
        "GUI重放:缩窄放宽后输入".to_owned()
    } else {
        "缩窄后输入场景".to_owned()
    };
    NarrowPlan {
        rows: if gui_replay {
            30
        } else {
            24
        },
        cols: if gui_replay {
            100
        } else {
            80
        },
        prompt_command,
        prompt_tail: tail,
        name,
        steps,
    }
}

/// The steps behind the typing: the command is run, whatever the screen shows.
pub fn narrow_closing_steps() -> (r: Vec<ProbeStep>)
    ensures
        steps_view(r@) == seq![
            ProbeStepView::Keys("\r"@),
            ProbeStepView::TryMarker("MARKER-C3"@),
            ProbeStepView::Settle("缩窄后输入:执行完毕"@),
        ],
{
    let mut steps: Vec<ProbeStep> = Vec::new();
    assert(steps_view(steps@) =~= seq![]);
    add_step(&mut steps, ProbeStep::Keys("\r".to_owned()));
    add_step(&mut steps, ProbeStep::TryMarker("MARKER-C3".to_owned()));
    add_step(&mut steps, ProbeStep::Settle("缩窄后输入:执行完毕".to_owned()));
    steps
}

/// The trace of a plain resize step.
pub fn resize_trace(cols: usize, x: usize, y: i64, lines: usize, received: usize) -> (r: String)
    ensures
        r@ == "cols="@ + text::right_aligned(cols as nat, 3) + " cursor=("@ + text::decimal(
            x as nat,
        ) + ","@ + text::signed_decimal(y as int) + ") lines="@ + text::decimal(lines as nat)
            + " recv="@ + text::decimal(received as nat) + "\n"@,
{
    let mut out = "cols=".to_owned();
    out.append(text::right_aligned_text(cols as u64, 3).as_str());
    out.append(" cursor=(");
    out.append(text::decimal_text(x as u64).as_str());
    out.append(",");
    out.append(text::signed_decimal_text(y).as_str());
    out.append(") lines=");
    out.append(text::decimal_text(lines as u64).as_str());
    out.append(" recv=");
    out.append(text::decimal_text(received as u64).as_str());
    out.append("\n");
    out
}

/// The trace of a resize step with the terminal lagging behind.
pub fn race_trace(cols: usize, x: usize, y: i64, received: usize) -> (r: String)
    ensures
        r@ == "race cols="@ + text::right_aligned(cols as nat, 3) + " cursor=("@ + text::decimal(
            x as nat,
        ) + ","@ + text::signed_decimal(y as int) + ") pre-resize-recv="@ + text::decimal(
            received as nat,
        ) + "\n"@,
{
    let mut out = "race cols=".to_owned();
    out.append(text::right_aligned_text(cols as u64, 3).as_str());
    out.append(" cursor=(");
    out.append(text::decimal_text(x as u64).as_str());
    out.append(",");
    out.append(text::signed_decimal_text(y).as_str());
    out.append(") pre-resize-recv=");
    out.append(text::decimal_text(received as u64).as_str());
    out.append("\n");
    out
}

/// A command being typed character by character, each checked on the screen.
pub struct Typing {
    pub prompt_tail: String,
    pub command: Vec<char>,
    /// How many characters have been typed.
    pub typed: usize,
    /// Whether the screen failed to show what was typed.
    pub broken: bool,
}

/// The report on typed text that does not stand on the screen in one piece.
pub open spec fn broken_prefix_text(n: nat, expected: Seq<char>) -> Seq<char> {
    "输入第 "@ + text::decimal(n) + " 个字符后前缀断裂：期望连续文本 ["@ + expected
        + "] 不存在"@
}

impl Typing {
    /// No more characters are typed than the command has.
    pub open spec fn well_formed(self) -> bool {
        self.typed <= self.command@.len()
    }

    /// What must stand on the screen in one piece.
    pub open spec fn expected(self) -> Seq<char> {
        self.prompt_tail@ + self.command@.take(self.typed as int)
    }

    /// The command of the narrow scenario, nothing typed yet.
    pub fn new(prompt_tail: String) -> (r: Self)
        ensures
            r.well_formed(),
            r.prompt_tail == prompt_tail,
            r.command@ == "echo ('MAR'+'KER-C3')"@,
            r.typed == 0,
            !r.broken,
    {
        Typing {
            prompt_tail,
            command: text::chars_of("echo ('MAR'+'KER-C3')"),
            typed: 0,
            broken: false,
        }
    }

    /// The next character to type, unless the command is complete or the screen
    /// has failed already.
    pub fn next_char(&mut self) -> (r: Option<char>)
        requires
            old(self).well_formed(),
        ensures
            final(self).well_formed(),
            final(self).prompt_tail == old(self).prompt_tail,
            final(self).command == old(self).command,
            final(self).broken == old(self).broken,
            match r {
                Some(c) => {
                    &&& !old(self).broken && old(self).typed < old(self).command@.len()
                    &&& c == old(self).command@[old(self).typed as int]
                    &&& final(self).typed == old(self).typed + 1
                },
                None => {
                    &&& old(self).broken || old(self).typed == old(self).command@.len()
                    &&& final(self).typed == old(self).typed
                },
            },
    {
        if self.broken || self.typed >= self.command.len() {
            return None;
        }
        let c = self.command[self.typed];
        self.typed = self.typed + 1;
        Some(c)
    }

    /// Checks that the prompt and everything typed stand in one logical line.
    pub fn observe(&mut self, lines: &Vec<PhysicalLine>) -> (r: Option<String>)
        requires
            old(self).well_formed(),
        ensures
            final(self).well_formed(),
            final(self).prompt_tail == old(self).prompt_tail,
            final(self).command == old(self).command,
            final(self).typed == old(self).typed,
            ({
                let shown = probe::some_contains(
                    screen::logical(screen::rows(lines@)),
                    old(self).expected(),
                );
                match r {
                    None => shown && final(self).broken == old(self).broken,
                    Some(report) => {
                        &&& !shown && final(self).broken
                        &&& report@ == broken_prefix_text(
                            old(self).typed as nat,
                            old(self).expected(),
                        )
                    },
                }
            }),
    {
        let mut expected = self.prompt_tail.clone();
        for i in 0..self.typed
            invariant
                self.typed <= self.command@.len(),
                expected@ == self.prompt_tail@ + self.command@.take(i as int),
        {
            expected.push(self.command[i]);
            assert(self.command@.take(i + 1) =~= self.command@.take(i as int).push(
                self.command@[i as int],
            ));
        }
        if probe::any_contains(&logical_lines(lines), expected.as_str()) {
            return None;
        }
        self.broken = true;
        let mut report = "输入第 ".to_owned();
        report.append(text::decimal_text(self.typed as u64).as_str());
        report.append(" 个字符后前缀断裂：期望连续文本 [");
        report.append(expected.as_str());
        report.append("] 不存在");
        Some(report)
    }
}

/// The history row number `i` of the narrow scenario, as it is counted.
pub open spec fn history_row(i: nat) -> Seq<char> {
    "ROW-"@ + text::zero_padded(i, 2) + "-"@
}

/// The report on a history row, unless it stands once.
pub open spec fn history_row_texts(lines: Seq<Seq<char>>, i: nat) -> Seq<Seq<char>> {
    let n = ticks::occurrences(lines, history_row(i));
    unless_equal(
        n,
        1,
        "历史行 "@ + history_row(i) + " 出现 "@ + text::decimal(n) + " 次（期望 1）"@,
    )
}

/// What is wrong after the command of the narrow scenario ran: it did not run
/// exactly once, or the first, a middle or the last row of history is damaged.
pub open spec fn narrow_texts(rows: Seq<screen::LineView>) -> Seq<Seq<char>> {
    let lines = screen::logical(rows);
    let c3 = ticks::occurrences(lines, "MARKER-C3"@);
    unless_equal(
        c3,
        1,
        "输出 MARKER-C3 出现 "@ + text::decimal(c3) + " 次（期望 1：输入被错乱执行）"@,
    ) + history_row_texts(lines, 1) + history_row_texts(lines, 15) + history_row_texts(lines, 30)
}

/// Adds the report on a history row.
fn report_history_row(reports: &mut Vec<String>, lines: &Vec<PhysicalLine>, i: u64)
    requires
        text::total_len(screen::row_texts(screen::rows(lines@))) <= usize::MAX,
    ensures
        text::texts(final(reports)@) == text::texts(old(reports)@) + history_row_texts(
            screen::logical(screen::rows(lines@)),
            i as nat,
        ),
{
    let mut row = "ROW-".to_owned();
    row.append(text::zero_padded_text(i, 2).as_str());
    row.append("-");
    proof {
        reveal_strlit("ROW-");
    }
    let n = count_in(lines, row.as_str());
    let mut before = "历史行 ".to_owned();
    before.append(row.as_str());
    before.append(" 出现 ");
    report_unless(reports, n, 1, before.as_str(), " 次（期望 1）");
}

/// What is wrong after the command of the narrow scenario ran.
pub fn narrow_violations(lines: &Vec<PhysicalLine>) -> (r: Vec<String>)
    requires
        text::total_len(screen::row_texts(screen::rows(lines@))) <= usize::MAX,
    ensures
        text::texts(r@) == narrow_texts(screen::rows(lines@)),
{
    let mut reports: Vec<String> = Vec::new();
    proof {
        reveal_strlit("MARKER-C3");
        assert(text::texts(reports@) =~= seq![]);
    }
    let c3 = count_in(lines, "MARKER-C3");
    report_unless(
        &mut reports,
        c3,
        1,
        "输出 MARKER-C3 出现 ",
        " 次（期望 1：输入被错乱执行）",
    );
    report_history_row(&mut reports, lines, 1);
    report_history_row(&mut reports, lines, 15);
    report_history_row(&mut reports, lines, 30);
    assert(text::texts(reports@) =~= narrow_texts(screen::rows(lines@)));
    reports
}

/// Each single resize of the main run is left to settle and then checked, under the name
/// of its stage.
pub proof fn single_stages_are_checked(k: nat, i: int)
    requires
        0 <= i < k <= 5,
    ensures
        ({
            let steps = single_stage_steps(k);
            let stage = script::single_stages()[i];
            &&& steps.len() == 3 * k
            &&& steps[3 * i] matches ProbeStepView::Resize { rows, cols } && rows
                == script::single_sizes()[i].0 && cols == script::single_sizes()[i].1
            &&& steps[3 * i + 1] == ProbeStepView::Settle(stage)
            &&& steps[3 * i + 2] == ProbeStepView::CheckStage(stage)
        }),
    decreases k,
{
    if k > 1 {
        single_stages_are_checked((k - 1) as nat, if i < k - 1 {
            i
        } else {
            0
        });
    } else {
        assert(single_stage_steps(0).len() == 0);
    }
}

/// A drag of the main run goes through the widths of the edge at the full height, with a
/// short wait behind each.
pub proof fn drags_go_through_their_widths(k: nat, i: int)
    requires
        0 <= i < k <= 12,
    ensures
        ({
            let steps = drag_resizes(k);
            &&& steps.len() == 2 * k
            &&& steps[2 * i] matches ProbeStepView::Resize { rows, cols } && rows == 24 && cols
                == script::storm_widths()[i]
            &&& steps[2 * i + 1] == (ProbeStepView::Drain { window_ms: 30, poll_ms: 10 })
        }),
    decreases k,
{
    if k > 1 {
        drags_go_through_their_widths((k - 1) as nat, if i < k - 1 {
            i
        } else {
            0
        });
    } else {
        assert(drag_resizes(0).len() == 0);
    }
}

/// Every drag of the main run is left to settle and then checked, under a name with its
/// number, before the next one begins.
pub proof fn drags_are_checked(n: nat)
    requires
        n > 0,
    ensures
        ({
            let steps = drag_stage_steps(n);
            let before = drag_stage_steps((n - 1) as nat);
            let stage = "风暴"@ + text::decimal(n) + "：拖拽式连续 resize"@;
            &&& steps.len() == before.len() + 26
            &&& steps.take(before.len() as int) == before
            &&& steps.subrange(before.len() as int, before.len() as int + 24) == drag_resizes(12)
            &&& steps[steps.len() - 2] == ProbeStepView::Settle(stage)
            &&& steps[steps.len() - 1] == ProbeStepView::CheckStage(stage)
        }),
        drag_stage_steps(0).len() == 0,
{
    drags_go_through_their_widths(12, 0);
    let steps = drag_stage_steps(n);
    let before = drag_stage_steps((n - 1) as nat);
    assert(steps.take(before.len() as int) =~= before);
    assert(steps.subrange(before.len() as int, before.len() as int + 24) =~= drag_resizes(12));
}

/// The main run waits for the fixture and checks it before anything is resized; the five
/// single resizes come next, and three drags after them.
pub proof fn the_main_run_checks_first()
    ensures
        ({
            let steps = harness_steps();
            &&& steps.len() == 3 + 15 + drag_stage_steps(3).len()
            &&& steps[0] == ProbeStepView::WaitForMarker("@@FIXTURE-READY@@"@)
            &&& steps[1] is Settle
            &&& steps[2] is CheckBaseline
            &&& steps.subrange(3, 18) == single_stage_steps(5)
            &&& steps.skip(18) == drag_stage_steps(3)
        }),
{
    single_stages_are_checked(5, 0);
    assert(harness_steps().subrange(3, 18) =~= single_stage_steps(5));
    assert(harness_steps().skip(18) =~= drag_stage_steps(3));
}

/// During a storm every piece is typed before the resize with the width of its turn, and a
/// short wait follows.
pub proof fn storms_go_through_their_widths(
    command: Seq<char>,
    rows: nat,
    widths: Seq<usize>,
    k: nat,
    i: int,
)
    requires
        0 <= i < k <= widths.len(),
    ensures
        ({
            let steps = typing_storm(command, rows, widths, k);
            &&& steps.len() == 3 * k
            &&& steps[3 * i] is Keys
            &&& steps[3 * i + 1] matches ProbeStepView::Resize { rows: r, cols } && r == rows
                && cols == widths[i]
            &&& steps[3 * i + 2] == (ProbeStepView::Drain { window_ms: 15, poll_ms: 10 })
        }),
    decreases k,
{
    if k > 1 {
        storms_go_through_their_widths(command, rows, widths, (k - 1) as nat, if i < k - 1 {
            i
        } else {
            0
        });
    } else {
        assert(typing_storm(command, rows, widths, 0).len() == 0);
    }
}

/// A window that is narrowed loses two columns with every resize, one that is widened gains
/// two, at the full height; each resize leaves a trace with its width.
pub proof fn edges_move_by_two_columns(from: int, n: nat, i: int)
    requires
        0 <= i < n,
        from - 2 * n >= 0,
    ensures
        ({
            let down = narrowing(from, n);
            let up = widening(from, n);
            &&& down.len() == 3 * n && up.len() == 3 * n
            &&& down[3 * i] matches ProbeStepView::Resize { rows, cols } && rows == 24 && cols + 2
                * i == from
            &&& down[3 * i + 2] matches ProbeStepView::Trace { cols } && cols + 2 * i == from
            &&& up[3 * i] matches ProbeStepView::Resize { rows, cols } && rows == 24 && cols - 2 * i
                == from
            &&& up[3 * i + 2] matches ProbeStepView::Trace { cols } && cols - 2 * i == from
            &&& down[3 * i + 1] is Drain && up[3 * i + 1] is Drain
        }),
    decreases n,
{
    if n > 1 {
        edges_move_by_two_columns(from, (n - 1) as nat, if i < n - 1 {
            i
        } else {
            0
        });
    } else {
        assert(narrowing(from, 0).len() == 0);
        assert(widening(from, 0).len() == 0);
    }
}

/// What shows that the prompt is there is what stands before the typed text, without the
/// blank between them.
pub proof fn a_blank_follows_the_mark(gui_replay: bool)
    ensures
        prompt_mark(gui_replay) + " "@ == prompt_tail(gui_replay),
        text::trimmed_end(prompt_tail(gui_replay)) == prompt_mark(gui_replay),
{
    the_mark_is_the_trimmed_tail(gui_replay);
    reveal_strlit("PROBE-GH> ");
    reveal_strlit("ABCDEFGH> ");
    reveal_strlit("PROBE-GH>");
    reveal_strlit("ABCDEFGH>");
    reveal_strlit(" ");
    assert(prompt_mark(gui_replay) + " "@ =~= prompt_tail(gui_replay));
}

/// A count is reported if it is not what it should be, and only then.
pub proof fn wrong_counts_are_reported(count: nat, expected: nat, report: Seq<char>)
    ensures
        unless_equal(count, expected, report).len() == 0 <==> count == expected,
        count != expected ==> unless_equal(count, expected, report)[0] == report,
        unless_equal(count, expected, report).len() <= 1,
{
}

/// The scenario in which a command is typed during a storm passes exactly if the history is
/// intact, both commands put out their marker once, and the two command lines stand once
/// each.
pub proof fn interactive_passes_iff_all_ran_once(rows: Seq<screen::LineView>)
    ensures
        interactive_texts(rows).len() == 0 <==> {
            let lines = screen::logical(rows);
            &&& violations::violation_texts(rows, history_payloads()).len() == 0
            &&& ticks::occurrences(lines, "MARKER-A1"@) == 1
            &&& ticks::occurrences(lines, "MARKER-B2"@) == 1
            &&& ticks::lines_containing(lines, "('MAR'+"@) == 2
        },
{
}

/// The lines of history are numbered from one to twelve, in two digits.
pub proof fn history_is_numbered(i: int)
    requires
        1 <= i <= 12,
    ensures
        history_payloads().len() == 12,
        history_payloads()[i - 1] == "HIST-"@ + text::zero_padded(i as nat, 2),
{
}

/// The scenario that narrows the window and then types passes exactly if the command put
/// out its marker once, and the first, the middle and the last row of history stand once.
pub proof fn narrow_passes_iff_all_stand_once(rows: Seq<screen::LineView>)
    ensures
        narrow_texts(rows).len() == 0 <==> {
            let lines = screen::logical(rows);
            &&& ticks::occurrences(lines, "MARKER-C3"@) == 1
            &&& ticks::occurrences(lines, "ROW-"@ + text::zero_padded(1, 2) + "-"@) == 1
            &&& ticks::occurrences(lines, "ROW-"@ + text::zero_padded(15, 2) + "-"@) == 1
            &&& ticks::occurrences(lines, "ROW-"@ + text::zero_padded(30, 2) + "-"@) == 1
        },
{
}

/// The line that is shown for a scenario says that it passed exactly if nothing was wrong,
/// then names it and counts what was.
pub proof fn a_scenario_passes_without_reports(name: Seq<char>, count: nat)
    ensures
        count == 0 ==> scenario_line(name, count) == "[PASS] "@ + name + " (违规 "@
            + text::decimal(0) + " 项)"@,
        count > 0 ==> scenario_line(name, count) == "[FAIL] "@ + name + " (违规 "@
            + text::decimal(count) + " 项)"@,
{
    reveal_strlit("[");
    reveal_strlit("] ");
    reveal_strlit("PASS");
    reveal_strlit("FAIL");
    reveal_strlit("[PASS] ");
    reveal_strlit("[FAIL] ");
    assert("["@ + "PASS"@ + "] "@ =~= "[PASS] "@);
    assert("["@ + "FAIL"@ + "] "@ =~= "[FAIL] "@);
}

/// What must stand on the screen while a command is typed is what stands before it and as
/// many of its characters as are typed: nothing of it at first, and all of it in the end.
pub proof fn typed_text_grows_by_a_character(typing: Typing)
    requires
        typing.typed < typing.command@.len(),
        typing.command@.len() <= usize::MAX,
    ensures
        (Typing { typed: (typing.typed + 1) as usize, ..typing }).expected() == typing.expected().push(
            typing.command@[typing.typed as int],
        ),
        (Typing { typed: 0, ..typing }).expected() == typing.prompt_tail@,
{
    let n = typing.typed as int;
    assert(typing.command@.take(n + 1) =~= typing.command@.take(n).push(typing.command@[n]));
    assert((Typing { typed: (typing.typed + 1) as usize, ..typing }).expected()
        =~= typing.expected().push(typing.command@[n]));
    assert((Typing { typed: 0, ..typing }).expected() =~= typing.prompt_tail@);
}

/// A broken prefix is reported with the number of the character and the text that should
/// stand.
pub proof fn broken_prefixes_are_worded(n: nat, expected: Seq<char>)
    ensures
        broken_prefix_text(n, expected) == "输入第 "@ + text::decimal(n) + (
        " 个字符后前缀断裂：期望连续文本 ["@ + expected + "] 不存在"@),
{
    let head = "输入第 "@ + text::decimal(n);
    assert(broken_prefix_text(n, expected) =~= head + (" 个字符后前缀断裂：期望连续文本 ["@
        + expected + "] 不存在"@));
}

/// The replay takes the window in one leap to its narrowest width and in another to the one
/// at which the command is typed, at its full height, and each of the two stages is named
/// after the width that it has come to.
pub proof fn leaps_are_named_after_their_widths()
    ensures
        ({
            let steps = narrow_steps(true);
            &&& steps.len() == 9
            &&& steps[5] matches ProbeStepView::RacedResize { rows, cols, .. } && rows == 30
                && steps[6] == ProbeStepView::Settle(
                "缩窄后输入:已缩至 "@ + text::decimal(cols as nat) + " 列"@,
            )
            &&& steps[7] matches ProbeStepView::RacedResize { rows, cols, .. } && rows == 30
                && steps[8] == ProbeStepView::Settle(
                "缩窄后输入:已放宽至 "@ + text::decimal(cols as nat) + " 列"@,
            )
        }),
{
    reveal_with_fuel(text::decimal, 3);
    reveal_strlit("缩窄后输入:已缩至 27 列");
    reveal_strlit("缩窄后输入:已放宽至 69 列");
    reveal_strlit("缩窄后输入:已缩至 ");
    reveal_strlit("缩窄后输入:已放宽至 ");
    reveal_strlit(" 列");
    assert(text::decimal(27) =~= seq!['2', '7']);
    assert(text::decimal(69) =~= seq!['6', '9']);
    assert("缩窄后输入:已缩至 27 列"@ =~= "缩窄后输入:已缩至 "@ + text::decimal(27) + " 列"@);
    assert("缩窄后输入:已放宽至 69 列"@ =~= "缩窄后输入:已放宽至 "@ + text::decimal(69)
        + " 列"@);
}

} // verus!
