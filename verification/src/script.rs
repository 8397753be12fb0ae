//! Resize scenarios for a terminal under test. A scenario is a list of steps:
//! what to print, when to resize, and what must hold afterwards.

use vstd::prelude::*;
use crate::fixture;
use crate::fixture::{build_fixture, line_of, tick};
use crate::screen;
use crate::screen::{logical_lines, PhysicalLine};
use crate::text;
use crate::violations;
use crate::violations::payload_violations;

verus! {

/// The size of a terminal in cells and pixels.
#[derive(Clone, Copy, Debug, PartialEq, Eq, Structural)]
pub struct TerminalSize {
    pub rows: usize,
    pub cols: usize,
    pub pixel_width: usize,
    pub pixel_height: usize,
    pub dpi: u32,
}

/// One step of a scenario.
pub enum TermStep {
    /// Switch to the behaviour of a Windows console host.
    EnableConptyQuirks,
    /// Feed text to the terminal.
    Print(String),
    /// Resize the terminal.
    Resize(TerminalSize),
    /// Every payload must still be intact.
    CheckInvariants { payloads: Vec<String>, stage: String },
    /// The cursor must be on the screen.
    CheckCursor { stage: String },
}

/// A step of a scenario as text.
pub enum StepView {
    EnableConptyQuirks,
    Print(Seq<char>),
    Resize(TerminalSize),
    CheckInvariants { payloads: Seq<Seq<char>>, stage: Seq<char> },
    CheckCursor { stage: Seq<char> },
}

impl View for TermStep {
    type V = StepView;

    open spec fn view(&self) -> StepView {
        match self {
            TermStep::EnableConptyQuirks => StepView::EnableConptyQuirks,
            TermStep::Print(s) => StepView::Print(s@),
            TermStep::Resize(size) => StepView::Resize(*size),
            TermStep::CheckInvariants { payloads, stage } => StepView::CheckInvariants {
                payloads: text::texts(payloads@),
                stage: stage@,
            },
            TermStep::CheckCursor { stage } => StepView::CheckCursor { stage: stage@ },
        }
    }
}

/// A terminal under test: the steps to take it through, in order.
pub struct TestTerm {
    pub steps: Vec<TermStep>,
}

impl View for TestTerm {
    type V = Seq<StepView>;

    open spec fn view(&self) -> Seq<StepView> {
        self.steps@.map_values(|s: TermStep| s@)
    }
}

/// The size of a terminal whose cells are 8 by 16 pixels.
pub open spec fn sized(rows: nat, cols: nat, dpi: u32) -> TerminalSize {
    TerminalSize {
        rows: rows as usize,
        cols: cols as usize,
        pixel_width: (cols * 8) as usize,
        pixel_height: (rows * 16) as usize,
        dpi,
    }
}

/// A resize to `rows` by `cols`.
pub open spec fn resize_step(rows: nat, cols: nat) -> StepView {
    StepView::Resize(sized(rows, cols, 0))
}

/// Tick number `n` printed as a line.
pub open spec fn tick_step(n: nat) -> StepView {
    StepView::Print(fixture::tick_payload(n) + "\r\n"@)
}

/// The sizes that a window goes through in single steps.
pub open spec fn single_sizes() -> Seq<(usize, usize)> {
    seq![(24, 40), (24, 120), (10, 120), (30, 120), (24, 80)]
}

/// The names of those steps.
pub open spec fn single_stages() -> Seq<Seq<char>> {
    seq![
        "缩窄 80->40"@,
        "放宽 40->120"@,
        "变矮 24->10"@,
        "变高 10->30"@,
        "回到 80x24"@,
    ]
}

/// The widths that a dragged window edge passes through.
pub open spec fn storm_widths() -> Seq<usize> {
    seq![78, 74, 68, 62, 55, 48, 44, 40, 48, 60, 72, 80]
}

/// The first `k` steps of the standard sequence: resize, then both checks.
pub open spec fn sequence_steps(payloads: Seq<Seq<char>>, k: nat) -> Seq<StepView>
    decreases k,
{
    if k == 0 {
        seq![]
    } else {
        let i = k - 1;
        let (rows, cols) = single_sizes()[i];
        sequence_steps(payloads, i as nat) + seq![
            resize_step(rows as nat, cols as nat),
            StepView::CheckInvariants { payloads, stage: single_stages()[i] },
            StepView::CheckCursor { stage: single_stages()[i] },
        ]
    }
}

/// The first `k` single resizes of the storm, each with two ticks before it and
/// one after it.
pub open spec fn single_steps(k: nat) -> Seq<StepView>
    decreases k,
{
    if k == 0 {
        seq![]
    } else {
        let i = (k - 1) as nat;
        let (rows, cols) = single_sizes()[i as int];
        single_steps(i) + seq![
            tick_step(3 * i),
            tick_step(3 * i + 1),
            resize_step(rows as nat, cols as nat),
            tick_step(3 * i + 2),
        ]
    }
}

/// The first `k` resizes of a drag that starts with tick `first`: every third
/// one comes with a tick.
pub open spec fn drag_steps(first: nat, k: nat) -> Seq<StepView>
    decreases k,
{
    if k == 0 {
        seq![]
    } else {
        let i = (k - 1) as nat;
        drag_steps(first, i) + (if i % 3 == 1 {
            seq![tick_step(first + i / 3)]
        } else {
            seq![]
        }) + seq![resize_step(24, storm_widths()[i as int] as nat)]
    }
}

/// The first `n` drags of the storm, each followed by two ticks.
pub open spec fn drags(n: nat) -> Seq<StepView>
    decreases n,
{
    if n == 0 {
        seq![]
    } else {
        let first = 15 + 6 * (n - 1) as nat;
        drags((n - 1) as nat) + drag_steps(first, 12) + seq![
            tick_step(first + 4),
            tick_step(first + 5),
        ]
    }
}

/// The steps of the whole storm: output and resizes interleaved.
pub open spec fn storm_steps() -> Seq<StepView> {
    seq![StepView::Print(fixture::printed(fixture::payload_texts()))] + single_steps(5) + drags(3)
}

/// What the storm prints.
pub open spec fn storm_payloads() -> Seq<Seq<char>> {
    fixture::payload_texts() + Seq::new(33, |i: int| fixture::tick_payload(i as nat))
}

/// The widths between which a command line is typed.
pub open spec fn typing_widths() -> Seq<usize> {
    seq![60, 40, 30, 47, 80]
}

/// The first `k` resizes at the prompt, each followed by some typed characters.
pub open spec fn typing_steps(k: nat) -> Seq<StepView>
    decreases k,
{
    if k == 0 {
        seq![]
    } else {
        let i = (k - 1) as nat;
        typing_steps(i) + seq![
            resize_step(24, typing_widths()[i as int] as nat),
            StepView::Print("in"@ + text::decimal(i) + "-"@),
        ]
    }
}

/// The name of the typing scenario.
pub open spec fn typing_stage(conpty: bool) -> Seq<char> {
    (if conpty {
        "conpty"@
    } else {
        "plain"@
    }) + " 输入交错"@
}

/// What must be intact after the typing scenario.
pub open spec fn typing_payloads() -> Seq<Seq<char>> {
    fixture::payload_texts() + seq!["PS TEST> in0-in1-in2-in3-in4-done"@, "CMD-OUTPUT-OK"@]
}

/// All steps of the typing scenario.
pub open spec fn input_steps(conpty: bool) -> Seq<StepView> {
    (if conpty {
        seq![StepView::EnableConptyQuirks]
    } else {
        seq![]
    }) + seq![
        StepView::Print(fixture::printed(fixture::payload_texts())),
        StepView::Print("PS TEST> "@),
    ] + typing_steps(5) + seq![
        StepView::Print("done"@),
        StepView::Print("\r\n"@),
        StepView::Print("CMD-OUTPUT-OK\r\n"@),
        StepView::CheckInvariants { payloads: typing_payloads(), stage: typing_stage(conpty) },
        StepView::CheckCursor { stage: typing_stage(conpty) },
    ]
}

impl TestTerm {
    /// A terminal with no steps taken.
    pub fn new() -> (r: Self)
        ensures
            r@ == Seq::<StepView>::empty(),
    {
        let r = TestTerm { steps: Vec::new() };
        assert(r@ =~= Seq::<StepView>::empty());
        r
    }

    /// Takes one more step.
    pub fn step(&mut self, step: TermStep)
        ensures
            final(self)@ == old(self)@.push(step@),
    {
        let ghost before = self@;
        self.steps.push(step);
        assert(self@ =~= before.push(step@));
    }

    /// Feeds text to the terminal.
    pub fn print(&mut self, s: String)
        ensures
            final(self)@ == old(self)@.push(StepView::Print(s@)),
    {
        self.step(TermStep::Print(s));
    }

    /// Resizes the terminal.
    pub fn resize(&mut self, size: TerminalSize)
        ensures
            final(self)@ == old(self)@.push(StepView::Resize(size)),
    {
        self.step(TermStep::Resize(size));
    }

    /// Switches to the behaviour of a Windows console host.
    pub fn enable_conpty_quirks(&mut self)
        ensures
            final(self)@ == old(self)@.push(StepView::EnableConptyQuirks),
    {
        self.step(TermStep::EnableConptyQuirks);
    }

    /// Demands that the payloads are intact.
    pub fn check_invariants(&mut self, payloads: &Vec<String>, stage: &str)
        ensures
            final(self)@ == old(self)@.push(
                StepView::CheckInvariants { payloads: text::texts(payloads@), stage: stage@ },
            ),
    {
        self.step(
            TermStep::CheckInvariants {
                payloads: text::copy_texts(payloads),
                stage: stage.to_owned(),
            },
        );
    }

    /// Demands that the cursor is on the screen.
    pub fn check_cursor(&mut self, stage: &str)
        ensures
            final(self)@ == old(self)@.push(StepView::CheckCursor { stage: stage@ }),
    {
        self.step(TermStep::CheckCursor { stage: stage.to_owned() });
    }
}

/// The size of a terminal under test with `rows` by `cols` cells.
pub fn size(rows: usize, cols: usize) -> (r: TerminalSize)
    requires
        cols * 8 <= usize::MAX,
        rows * 16 <= usize::MAX,
    ensures
        r == sized(rows as nat, cols as nat, 0),
{
    TerminalSize { rows, cols, pixel_width: cols * 8, pixel_height: rows * 16, dpi: 0 }
}

/// Resizes the terminal to `rows` by `cols` cells.
pub fn resize_to(term: &mut TestTerm, rows: usize, cols: usize)
    requires
        cols * 8 <= usize::MAX,
        rows * 16 <= usize::MAX,
    ensures
        final(term)@ == old(term)@.push(resize_step(rows as nat, cols as nat)),
{
    term.resize(size(rows, cols));
}

/// The sizes that a window goes through in single steps.
fn single_step_sizes() -> (r: Vec<(usize, usize)>)
    ensures
        r@ == single_sizes(),
{
    vec![(24, 40), (24, 120), (10, 120), (30, 120), (24, 80)]
}

/// The widths that a dragged window edge passes through.
pub fn storm_cols() -> (r: Vec<usize>)
    ensures
        r@ == storm_widths(),
{
    vec![78, 74, 68, 62, 55, 48, 44, 40, 48, 60, 72, 80]
}

/// Takes the terminal through the standard sequence of sizes, with both checks
/// after each of them.
pub fn run_resize_sequence(term: &mut TestTerm, payloads: &Vec<String>)
    ensures
        final(term)@ == old(term)@ + sequence_steps(text::texts(payloads@), 5),
{
    let sizes = single_step_sizes();
    let stages: Vec<&str> = vec![
        "缩窄 80->40",
        "放宽 40->120",
        "变矮 24->10",
        "变高 10->30",
        "回到 80x24",
    ];
    let ghost start = term@;
    let ghost ps = text::texts(payloads@);
    for i in 0..5usize
        invariant
            sizes@ == single_sizes(),
            stages@.len() == 5,
            forall|j: int| 0 <= j < 5 ==> (#[trigger] stages@[j])@ == single_stages()[j],
            ps == text::texts(payloads@),
            term@ == start + sequence_steps(ps, i as nat),
    {
        let (rows, cols) = sizes[i];
        resize_to(term, rows, cols);
        term.check_invariants(payloads, stages[i]);
        term.check_cursor(stages[i]);
        assert(term@ =~= start + sequence_steps(ps, (i + 1) as nat));
    }
}

/// Prints tick number `n` as a line and notes it as a payload.
fn emit_tick(term: &mut TestTerm, payloads: &mut Vec<String>, n: usize)
    ensures
        final(term)@ == old(term)@.push(tick_step(n as nat)),
        text::texts(final(payloads)@) == text::texts(old(payloads)@).push(
            fixture::tick_payload(n as nat),
        ),
{
    let ghost before = text::texts(payloads@);
    let line = tick(n);
    term.print(line_of(line.as_str()));
    payloads.push(line);
    assert(text::texts(payloads@) =~= before.push(fixture::tick_payload(n as nat)));
}

/// The first `k` ticks.
spec fn ticks_upto(k: nat) -> Seq<Seq<char>> {
    Seq::new(k, |i: int| fixture::tick_payload(i as nat))
}

/// One drag of the window edge, ticks from `first` on.
fn run_drag(term: &mut TestTerm, payloads: &mut Vec<String>, first: usize)
    requires
        first <= 1000,
        text::texts(old(payloads)@) == fixture::payload_texts() + ticks_upto(first as nat),
    ensures
        final(term)@ == old(term)@ + drag_steps(first as nat, 12),
        text::texts(final(payloads)@) == fixture::payload_texts() + ticks_upto((first + 4) as nat),
{
    let widths = storm_cols();
    let ghost start = term@;
    let mut next: usize = first;
    assert(start + drag_steps(first as nat, 0) =~= start);
    for i in 0..12usize
        invariant
            widths@ == storm_widths(),
            first <= 1000,
            next == first + (i + 1) / 3,
            term@ == start + drag_steps(first as nat, i as nat),
            text::texts(payloads@) == fixture::payload_texts() + ticks_upto(next as nat),
    {
        if i % 3 == 1 {
            emit_tick(term, payloads, next);
            proof {
                assert(next == first + i / 3);
                assert(ticks_upto((next + 1) as nat) =~= ticks_upto(next as nat).push(
                    fixture::tick_payload(next as nat),
                ));
                assert(text::texts(payloads@) =~= fixture::payload_texts() + ticks_upto(
                    (next + 1) as nat,
                ));
            }
            next += 1;
        }
        assert(widths@[i as int] <= 80);
        resize_to(term, 24, widths[i]);
        assert(term@ =~= start + drag_steps(first as nat, (i + 1) as nat));
    }
}

/// Prints the fixture and takes the terminal through output interleaved with
/// resizes: single steps first, then the widths of a dragged edge three times
/// over. Returns everything that was printed, line by line.
pub fn run_interleaved_storm(term: &mut TestTerm) -> (payloads: Vec<String>)
    ensures
        final(term)@ == old(term)@ + storm_steps(),
        text::texts(payloads@) == storm_payloads(),
{
    let ghost start = term@;
    let (fixture_text, lines) = build_fixture();
    let mut payloads = lines;
    term.print(fixture_text);
    let ghost printed = start.push(
        StepView::Print(fixture::printed(fixture::payload_texts())),
    );
    let sizes = single_step_sizes();
    assert(fixture::payload_texts() + ticks_upto(0) =~= fixture::payload_texts());
    assert(printed + single_steps(0) =~= printed);
    for i in 0..5usize
        invariant
            sizes@ == single_sizes(),
            term@ == printed + single_steps(i as nat),
            text::texts(payloads@) == fixture::payload_texts() + ticks_upto((3 * i) as nat),
    {
        let (rows, cols) = sizes[i];
        emit_tick(term, &mut payloads, 3 * i);
        emit_tick(term, &mut payloads, 3 * i + 1);
        resize_to(term, rows, cols);
        emit_tick(term, &mut payloads, 3 * i + 2);
        assert(term@ =~= printed + single_steps((i + 1) as nat));
        assert(text::texts(payloads@) =~= fixture::payload_texts() + ticks_upto(
            (3 * (i + 1)) as nat,
        ));
    }
    let ghost single = printed + single_steps(5);
    assert(single + drags(0) =~= single);
    for n in 0..3usize
        invariant
            term@ == single + drags(n as nat),
            text::texts(payloads@) == fixture::payload_texts() + ticks_upto((15 + 6 * n) as nat),
    {
        let first: usize = 15 + 6 * n;
        run_drag(term, &mut payloads, first);
        emit_tick(term, &mut payloads, first + 4);
        emit_tick(term, &mut payloads, first + 5);
        assert(term@ =~= single + drags((n + 1) as nat));
        assert(text::texts(payloads@) =~= fixture::payload_texts() + ticks_upto(
            (15 + 6 * (n + 1)) as nat,
        ));
    }
    assert(term@ =~= start + storm_steps());
    assert(fixture::payload_texts() + ticks_upto(33) =~= storm_payloads());
    payloads
}

/// Takes the terminal through a command typed at a prompt while the window is
/// resized, then checks that the prompt line and all earlier output survived.
pub fn run_input_interleaved(term: &mut TestTerm, conpty: bool)
    ensures
        final(term)@ == old(term)@ + input_steps(conpty),
{
    let ghost start = term@;
    if conpty {
        term.enable_conpty_quirks();
    }
    let (fixture_text, lines) = build_fixture();
    let mut payloads = lines;
    term.print(fixture_text);
    term.print("PS TEST> ".to_owned());
    let widths: Vec<usize> = vec![60, 40, 30, 47, 80];
    let ghost prompt = term@;
    assert(prompt + typing_steps(0) =~= prompt);
    for i in 0..5usize
        invariant
            widths@ == typing_widths(),
            term@ == prompt + typing_steps(i as nat),
    {
        assert(widths@[i as int] <= 80);
        resize_to(term, 24, widths[i]);
        let mut typed = "in".to_owned();
        typed.append(text::decimal_text(i as u64).as_str());
        typed.append("-");
        term.print(typed);
        assert(term@ =~= prompt + typing_steps((i + 1) as nat));
    }
    term.print("done".to_owned());
    term.print("\r\n".to_owned());
    term.print("CMD-OUTPUT-OK\r\n".to_owned());
    payloads.push("PS TEST> in0-in1-in2-in3-in4-done".to_owned());
    payloads.push("CMD-OUTPUT-OK".to_owned());
    assert(text::texts(payloads@) =~= typing_payloads());
    let mut stage = if conpty {
        "conpty".to_owned()
    } else {
        "plain".to_owned()
    };
    stage.append(" 输入交错");
    term.check_invariants(&payloads, stage.as_str());
    term.check_cursor(stage.as_str());
    assert(term@ =~= start + input_steps(conpty));
}

/// What a failed check has to say: the logical lines of the buffer, and the
/// violations.
pub struct InvariantFailure {
    pub dump: Vec<String>,
    pub message: String,
}

/// The heading and the numbered logical lines of a dump.
pub open spec fn dump_texts(lines: Seq<Seq<char>>, stage: Seq<char>) -> Seq<Seq<char>> {
    seq!["--- 阶段 ["@ + stage + "] 逻辑行 dump ---"@] + numbered(lines)
}

/// `lines` with their numbers in front.
pub open spec fn numbered(lines: Seq<Seq<char>>) -> Seq<Seq<char>> {
    Seq::new(
        lines.len(),
        |i: int| text::right_aligned(i as nat, 3) + ": ["@ + lines[i] + "]"@,
    )
}

/// The message of a failed check.
pub open spec fn failure_message(reports: Seq<Seq<char>>, stage: Seq<char>) -> Seq<char> {
    "阶段 ["@ + stage + "] 不变量违规 "@ + text::decimal(reports.len()) + " 项:\n  "@
        + text::joined(reports, "\n  "@)
}

/// `lines` with their numbers in front.
pub fn number_lines(lines: &Vec<String>) -> (r: Vec<String>)
    ensures
        text::texts(r@) == numbered(text::texts(lines@)),
{
    let mut out: Vec<String> = Vec::new();
    for i in 0..lines.len()
        invariant
            out@.len() == i,
            forall|j: int|
                0 <= j < i ==> #[trigger] out@[j]@ == text::right_aligned(j as nat, 3) + ": ["@
                    + lines@[j]@ + "]"@,
    {
        let mut line = text::right_aligned_text(i as u64, 3);
        line.append(": [");
        line.append(lines[i].as_str());
        line.append("]");
        out.push(line);
    }
    assert(text::texts(out@) =~= numbered(text::texts(lines@)));
    out
}

/// Checks that the payloads are intact on a buffer.
pub fn assert_invariants(
    lines: &Vec<PhysicalLine>,
    payloads: &Vec<String>,
    stage: &str,
) -> (r: Result<(), InvariantFailure>)
    requires
        screen::countable(screen::rows(lines@)),
    ensures
        ({
            let rows = screen::rows(lines@);
            let reports = violations::violation_texts(rows, text::texts(payloads@));
            match r {
                Ok(_) => reports.len() == 0,
                Err(failure) => {
                    &&& reports.len() > 0
                    &&& text::texts(failure.dump@) == dump_texts(screen::logical(rows), stage@)
                    &&& failure.message@ == failure_message(reports, stage@)
                },
            }
        }),
{
    let reports = payload_violations(lines, payloads);
    assert(text::texts(reports@).len() == reports@.len());
    if reports.len() == 0 {
        return Ok(());
    }
    let mut heading = "--- 阶段 [".to_owned();
    heading.append(stage);
    heading.append("] 逻辑行 dump ---");
    let mut dump: Vec<String> = Vec::new();
    dump.push(heading);
    let ghost head = dump@;
    let mut rest = number_lines(&logical_lines(lines));
    let ghost tail = rest@;
    dump.append(&mut rest);
    assert(text::texts(head + tail) =~= text::texts(head) + text::texts(tail));
    assert(text::texts(dump@) =~= dump_texts(screen::logical(screen::rows(lines@)), stage@));
    let mut message = "阶段 [".to_owned();
    message.append(stage);
    message.append("] 不变量违规 ");
    message.append(text::decimal_text(reports.len() as u64).as_str());
    message.append(" 项:\n  ");
    message.append(text::join(&reports, "\n  ").as_str());
    Err(InvariantFailure { dump, message })
}

/// Whether a cursor is on a screen. The column behind the last one counts: that
/// is where a cursor rests after a full row.
pub open spec fn cursor_in_bounds(x: int, y: int, cols: int, rows: int) -> bool {
    x <= cols && 0 <= y < rows
}

/// Checks that the cursor is on the screen, the column first.
pub fn assert_cursor_in_bounds(
    x: usize,
    y: i64,
    physical_cols: usize,
    physical_rows: usize,
    stage: &str,
) -> (r: Result<(), String>)
    requires
        physical_rows <= i64::MAX,
    ensures
        r is Ok <==> cursor_in_bounds(x as int, y as int, physical_cols as int, physical_rows as int),
        r matches Err(message) ==> message@ == (if x > physical_cols {
            "阶段 ["@ + stage@ + "] cursor.x="@ + text::decimal(x as nat) + " 超出 cols="@
                + text::decimal(physical_cols as nat)
        } else {
            "阶段 ["@ + stage@ + "] cursor.y="@ + text::signed_decimal(y as int) + " 超出 rows="@
                + text::decimal(physical_rows as nat)
        }),
{
    if x > physical_cols {
        let mut message = "阶段 [".to_owned();
        message.append(stage);
        message.append("] cursor.x=");
        message.append(text::decimal_text(x as u64).as_str());
        message.append(" 超出 cols=");
        message.append(text::decimal_text(physical_cols as u64).as_str());
        return Err(message);
    }
    if y < 0 || y >= physical_rows as i64 {
        let mut message = "阶段 [".to_owned();
        message.append(stage);
        message.append("] cursor.y=");
        message.append(text::signed_decimal_text(y).as_str());
        message.append(" 超出 rows=");
        message.append(text::decimal_text(physical_rows as u64).as_str());
        return Err(message);
    }
    Ok(())
}

/// What one step prints.
pub open spec fn step_output(step: StepView) -> Seq<char> {
    match step {
        StepView::Print(s) => s,
        _ => seq![],
    }
}

/// Everything that the steps print, in order.
pub open spec fn output(steps: Seq<StepView>) -> Seq<char>
    decreases steps.len(),
{
    if steps.len() == 0 {
        seq![]
    } else {
        output(steps.drop_last()) + step_output(steps.last())
    }
}

/// One more step prints its output behind the rest.
proof fn output_of_one_more(steps: Seq<StepView>, s: StepView)
    ensures
        output(steps.push(s)) == output(steps) + step_output(s),
{
    assert(steps.push(s).drop_last() =~= steps);
}

/// Steps one after the other print their outputs one after the other.
proof fn output_of_two_parts(a: Seq<StepView>, b: Seq<StepView>)
    ensures
        output(a + b) == output(a) + output(b),
    decreases b.len(),
{
    if b.len() == 0 {
        assert(a + b =~= a);
        assert(output(a) + output(b) =~= output(a));
    } else {
        output_of_two_parts(a, b.drop_last());
        assert((a + b).drop_last() =~= a + b.drop_last());
        assert(output(a + b) =~= output(a) + output(b));
    }
}

/// Lines one after the other print one after the other.
proof fn printed_of_two_parts(a: Seq<Seq<char>>, b: Seq<Seq<char>>)
    ensures
        fixture::printed(a + b) == fixture::printed(a) + fixture::printed(b),
    decreases b.len(),
{
    if b.len() == 0 {
        assert(a + b =~= a);
        assert(fixture::printed(a) + fixture::printed(b) =~= fixture::printed(a));
    } else {
        printed_of_two_parts(a, b.drop_last());
        assert((a + b).drop_last() =~= a + b.drop_last());
        assert(fixture::printed(a + b) =~= fixture::printed(a) + fixture::printed(b));
    }
}

/// One more tick prints one more line.
proof fn one_more_tick(k: nat)
    ensures
        fixture::printed(ticks_upto(k + 1)) == fixture::printed(ticks_upto(k)) + step_output(
            tick_step(k),
        ),
{
    assert(ticks_upto(k + 1).drop_last() =~= ticks_upto(k));
    assert(fixture::printed(ticks_upto(k + 1)) =~= fixture::printed(ticks_upto(k)) + step_output(
        tick_step(k),
    ));
}

/// The single resizes print their ticks.
proof fn single_steps_print_their_ticks(k: nat)
    ensures
        output(single_steps(k)) == fixture::printed(ticks_upto(3 * k)),
    decreases k,
{
    if k == 0 {
        assert(ticks_upto(0) =~= seq![]);
    } else {
        let i = (k - 1) as nat;
        single_steps_print_their_ticks(i);
        let (rows, cols) = single_sizes()[i as int];
        let s0 = single_steps(i);
        let s1 = s0.push(tick_step(3 * i));
        let s2 = s1.push(tick_step(3 * i + 1));
        let s3 = s2.push(resize_step(rows as nat, cols as nat));
        let s4 = s3.push(tick_step(3 * i + 2));
        assert(single_steps(k) =~= s4);
        output_of_one_more(s0, tick_step(3 * i));
        output_of_one_more(s1, tick_step(3 * i + 1));
        output_of_one_more(s2, resize_step(rows as nat, cols as nat));
        output_of_one_more(s3, tick_step(3 * i + 2));
        assert(output(s3) =~= output(s2));
        one_more_tick(3 * i);
        one_more_tick(3 * i + 1);
        one_more_tick(3 * i + 2);
        assert(3 * k == 3 * i + 2 + 1);
    }
}

/// A drag prints its ticks.
proof fn drag_prints_its_ticks(first: nat, k: nat)
    ensures
        fixture::printed(ticks_upto(first)) + output(drag_steps(first, k)) == fixture::printed(
            ticks_upto(first + (k + 1) / 3),
        ),
    decreases k,
{
    let start = fixture::printed(ticks_upto(first));
    if k == 0 {
        assert(start + output(drag_steps(first, 0)) =~= start);
    } else {
        let i = (k - 1) as nat;
        drag_prints_its_ticks(first, i);
        let s0 = drag_steps(first, i);
        let resize = resize_step(24, storm_widths()[i as int] as nat);
        if i % 3 == 1 {
            let s1 = s0.push(tick_step(first + i / 3));
            assert(drag_steps(first, k) =~= s1.push(resize));
            output_of_one_more(s0, tick_step(first + i / 3));
            output_of_one_more(s1, resize);
            assert(output(s1.push(resize)) =~= output(s1));
            one_more_tick(first + i / 3);
            assert((i + 1) / 3 == i / 3);
            assert((k + 1) / 3 == i / 3 + 1);
            assert(start + output(s1) =~= start + output(s0) + step_output(
                tick_step(first + i / 3),
            ));
        } else {
            assert(drag_steps(first, k) =~= s0.push(resize));
            output_of_one_more(s0, resize);
            assert(output(s0.push(resize)) =~= output(s0));
            assert((k + 1) / 3 == (i + 1) / 3);
        }
    }
}

/// Three texts in a row, grouped either way.
proof fn regroup(a: Seq<char>, b: Seq<char>, c: Seq<char>)
    ensures
        a + (b + c) == (a + b) + c,
{
    assert(a + (b + c) =~= (a + b) + c);
}

/// The drags print their ticks.
proof fn drags_print_their_ticks(n: nat)
    ensures
        fixture::printed(ticks_upto(15)) + output(drags(n)) == fixture::printed(
            ticks_upto(15 + 6 * n),
        ),
    decreases n,
{
    let start = fixture::printed(ticks_upto(15));
    if n == 0 {
        assert(start + output(drags(0)) =~= start);
    } else {
        let m = (n - 1) as nat;
        let first = 15 + 6 * m;
        drags_print_their_ticks(m);
        drag_prints_its_ticks(first, 12);
        let s0 = drags(m) + drag_steps(first, 12);
        let s1 = s0.push(tick_step(first + 4));
        let s2 = s1.push(tick_step(first + 5));
        assert(drags(n) =~= s2);
        output_of_two_parts(drags(m), drag_steps(first, 12));
        output_of_one_more(s0, tick_step(first + 4));
        output_of_one_more(s1, tick_step(first + 5));
        regroup(start, output(drags(m)), output(drag_steps(first, 12)));
        regroup(start, output(s0), step_output(tick_step(first + 4)));
        regroup(start, output(s1), step_output(tick_step(first + 5)));
        one_more_tick(first + 4);
        one_more_tick(first + 5);
    }
}

/// What the storm is checked for is exactly what it printed: its output is the
/// payloads, line by line, each once and in order.
pub proof fn storm_prints_its_payloads()
    ensures
        output(storm_steps()) == fixture::printed(storm_payloads()),
{
    let none = Seq::<StepView>::empty();
    let first = StepView::Print(fixture::printed(fixture::payload_texts()));
    assert(seq![first] =~= none.push(first));
    output_of_one_more(none, first);
    assert(output(none) + step_output(first) =~= step_output(first));
    output_of_two_parts(seq![first], single_steps(5));
    output_of_two_parts(seq![first] + single_steps(5), drags(3));
    single_steps_print_their_ticks(5);
    drags_print_their_ticks(3);
    assert(ticks_upto(33) =~= Seq::new(33, |i: int| fixture::tick_payload(i as nat)));
    printed_of_two_parts(fixture::payload_texts(), ticks_upto(33));
    assert(output(storm_steps()) =~= step_output(first) + (output(single_steps(5)) + output(
        drags(3),
    )));
}

/// A cell is eight pixels wide and sixteen tall.
pub proof fn cells_have_their_pixels(rows: nat, cols: nat, dpi: u32)
    requires
        cols * 8 <= usize::MAX,
        rows * 16 <= usize::MAX,
    ensures
        ({
            let size = sized(rows, cols, dpi);
            &&& size.rows == rows && size.cols == cols && size.dpi == dpi
            &&& size.pixel_width == 8 * size.cols
            &&& size.pixel_height == 16 * size.rows
        }),
        resize_step(rows, cols) == StepView::Resize(sized(rows, cols, 0)),
{
}

/// The single steps start from a window of eighty by twenty-four cells: it gets narrower,
/// wider, lower and higher, one at a time, and then is as it was. A drag of the edge gets
/// narrower and then wider again, down to half the width, and ends where it started, and
/// so do the resizes at the prompt.
pub proof fn windows_come_back()
    ensures
        single_sizes().len() == 5 && single_stages().len() == 5,
        single_sizes()[0].0 == 24 && single_sizes()[0].1 < 80,
        single_sizes()[1].0 == 24 && single_sizes()[1].1 > 80,
        single_sizes()[2].1 == single_sizes()[1].1 && single_sizes()[2].0 < 24,
        single_sizes()[3].1 == single_sizes()[1].1 && single_sizes()[3].0 > 24,
        single_sizes()[4].0 == 24 && single_sizes()[4].1 == 80,
        storm_widths().len() == 12 && storm_widths()[7] == 40 && storm_widths()[11] == 80,
        forall|i: int|
            0 <= i < 7 ==> #[trigger] storm_widths()[i] < 80 && storm_widths()[i]
                > storm_widths()[i + 1],
        forall|i: int| 7 <= i < 11 ==> #[trigger] storm_widths()[i] < storm_widths()[i + 1],
        typing_widths().len() == 5 && typing_widths()[4] == 80,
        forall|i: int| 0 <= i < 4 ==> #[trigger] typing_widths()[i] < 80,
{
}

/// Each size of the standard sequence is checked as soon as it is taken, for all payloads
/// and for the cursor, under the name of its stage.
pub proof fn every_size_is_checked(payloads: Seq<Seq<char>>, k: nat, i: int)
    requires
        0 <= i < k <= 5,
    ensures
        ({
            let steps = sequence_steps(payloads, k);
            let stage = single_stages()[i];
            &&& steps.len() == 3 * k
            &&& steps[3 * i] == resize_step(
                single_sizes()[i].0 as nat,
                single_sizes()[i].1 as nat,
            )
            &&& steps[3 * i + 1] == (StepView::CheckInvariants { payloads, stage })
            &&& steps[3 * i + 2] == (StepView::CheckCursor { stage })
        }),
    decreases k,
{
    if k > 1 {
        every_size_is_checked(payloads, (k - 1) as nat, if i < k - 1 {
            i
        } else {
            0
        });
    } else {
        assert(sequence_steps(payloads, 0).len() == 0);
    }
}

/// The sizes that the steps go through, in order.
pub open spec fn sizes_taken(steps: Seq<StepView>) -> Seq<TerminalSize>
    decreases steps.len(),
{
    if steps.len() == 0 {
        seq![]
    } else {
        sizes_taken(steps.drop_last()) + (match steps.last() {
            StepView::Resize(size) => seq![size],
            _ => seq![],
        })
    }
}

/// One more step takes its size behind the rest.
proof fn size_of_one_more(steps: Seq<StepView>, s: StepView)
    ensures
        sizes_taken(steps.push(s)) == sizes_taken(steps) + (match s {
            StepView::Resize(size) => seq![size],
            _ => seq![],
        }),
{
    assert(steps.push(s).drop_last() =~= steps);
}

/// A drag goes through the widths of the edge, in order and one after the other, at the
/// full height.
pub proof fn a_drag_goes_through_its_widths(first: nat, k: nat)
    requires
        k <= 12,
    ensures
        sizes_taken(drag_steps(first, k)) == Seq::new(
            k,
            |i: int| sized(24, storm_widths()[i] as nat, 0),
        ),
    decreases k,
{
    if k == 0 {
        assert(sizes_taken(drag_steps(first, 0)) =~= Seq::new(
            0,
            |i: int| sized(24, storm_widths()[i] as nat, 0),
        ));
    } else {
        let i = (k - 1) as nat;
        a_drag_goes_through_its_widths(first, i);
        let s0 = drag_steps(first, i);
        let resize = resize_step(24, storm_widths()[i as int] as nat);
        if i % 3 == 1 {
            let s1 = s0.push(tick_step(first + i / 3));
            assert(drag_steps(first, k) =~= s1.push(resize));
            size_of_one_more(s0, tick_step(first + i / 3));
            size_of_one_more(s1, resize);
            assert(sizes_taken(s1) =~= sizes_taken(s0));
        } else {
            assert(drag_steps(first, k) =~= s0.push(resize));
            size_of_one_more(s0, resize);
        }
        assert(sizes_taken(drag_steps(first, k)) =~= Seq::new(
            k,
            |j: int| sized(24, storm_widths()[j] as nat, 0),
        ));
    }
}

/// The single resizes of the storm go through the sizes of the standard sequence.
pub proof fn single_resizes_go_through_their_sizes(k: nat)
    requires
        k <= 5,
    ensures
        sizes_taken(single_steps(k)) == Seq::new(
            k,
            |i: int| sized(single_sizes()[i].0 as nat, single_sizes()[i].1 as nat, 0),
        ),
    decreases k,
{
    let wanted = Seq::new(
        k,
        |i: int| sized(single_sizes()[i].0 as nat, single_sizes()[i].1 as nat, 0),
    );
    if k == 0 {
        assert(sizes_taken(single_steps(0)) =~= wanted);
    } else {
        let i = (k - 1) as nat;
        single_resizes_go_through_their_sizes(i);
        let (rows, cols) = single_sizes()[i as int];
        let s0 = single_steps(i);
        let s1 = s0.push(tick_step(3 * i));
        let s2 = s1.push(tick_step(3 * i + 1));
        let s3 = s2.push(resize_step(rows as nat, cols as nat));
        let s4 = s3.push(tick_step(3 * i + 2));
        assert(single_steps(k) =~= s4);
        size_of_one_more(s0, tick_step(3 * i));
        size_of_one_more(s1, tick_step(3 * i + 1));
        size_of_one_more(s2, resize_step(rows as nat, cols as nat));
        size_of_one_more(s3, tick_step(3 * i + 2));
        assert(sizes_taken(single_steps(k)) =~= wanted);
    }
}

/// What is typed at the prompt, up to resize `k`.
proof fn typing_prints_its_pieces(k: nat)
    ensures
        output(typing_steps(k + 1)) == output(typing_steps(k)) + ("in"@ + text::decimal(k) + "-"@),
        output(typing_steps(0)).len() == 0,
{
    let s0 = typing_steps(k);
    let resize = resize_step(24, typing_widths()[k as int] as nat);
    let typed = StepView::Print("in"@ + text::decimal(k) + "-"@);
    let s1 = s0.push(resize);
    assert(typing_steps(k + 1) =~= s1.push(typed));
    output_of_one_more(s0, resize);
    output_of_one_more(s1, typed);
    assert(output(s1) =~= output(s0));
}

/// What the typing scenario is checked for is exactly what it printed: the fixture, then
/// the command line with all that was typed between the resizes, then its output.
pub proof fn typing_prints_its_payloads(conpty: bool)
    ensures
        output(input_steps(conpty)) == fixture::printed(typing_payloads()),
{
    let none = Seq::<StepView>::empty();
    let lead = if conpty {
        seq![StepView::EnableConptyQuirks]
    } else {
        none
    };
    let fixed = fixture::printed(fixture::payload_texts());
    let opening = lead + seq![StepView::Print(fixed), StepView::Print("PS TEST> "@)];
    let a0 = lead.push(StepView::Print(fixed));
    assert(opening =~= a0.push(StepView::Print("PS TEST> "@)));
    assert(none.push(StepView::EnableConptyQuirks) =~= seq![StepView::EnableConptyQuirks]);
    output_of_one_more(none, StepView::EnableConptyQuirks);
    assert(output(lead) =~= seq![]);
    output_of_one_more(lead, StepView::Print(fixed));
    output_of_one_more(a0, StepView::Print("PS TEST> "@));
    assert(output(opening) =~= fixed + "PS TEST> "@);
    let before = opening + typing_steps(5);
    output_of_two_parts(opening, typing_steps(5));
    let b1 = before.push(StepView::Print("done"@));
    let b2 = b1.push(StepView::Print("\r\n"@));
    let b3 = b2.push(StepView::Print("CMD-OUTPUT-OK\r\n"@));
    let c1 = StepView::CheckInvariants {
        payloads: typing_payloads(),
        stage: typing_stage(conpty),
    };
    let c2 = StepView::CheckCursor { stage: typing_stage(conpty) };
    let b4 = b3.push(c1);
    assert(input_steps(conpty) =~= b4.push(c2));
    output_of_one_more(before, StepView::Print("done"@));
    output_of_one_more(b1, StepView::Print("\r\n"@));
    output_of_one_more(b2, StepView::Print("CMD-OUTPUT-OK\r\n"@));
    output_of_one_more(b3, c1);
    output_of_one_more(b4, c2);
    assert(output(b4.push(c2)) =~= output(b3));
    typing_prints_its_pieces(0);
    typing_prints_its_pieces(1);
    typing_prints_its_pieces(2);
    typing_prints_its_pieces(3);
    typing_prints_its_pieces(4);
    reveal_strlit("in");
    reveal_strlit("-");
    reveal_strlit("done");
    reveal_strlit("PS TEST> ");
    reveal_strlit("\r\n");
    reveal_strlit("CMD-OUTPUT-OK\r\n");
    reveal_strlit("CMD-OUTPUT-OK");
    reveal_strlit("PS TEST> in0-in1-in2-in3-in4-done");
    assert(text::decimal(0) =~= seq!['0']);
    assert(text::decimal(1) =~= seq!['1']);
    assert(text::decimal(2) =~= seq!['2']);
    assert(text::decimal(3) =~= seq!['3']);
    assert(text::decimal(4) =~= seq!['4']);
    let typed = output(typing_steps(5));
    assert(typed =~= seq![
        'i', 'n', '0', '-', 'i', 'n', '1', '-', 'i', 'n', '2', '-', 'i', 'n', '3', '-', 'i', 'n',
        '4', '-',
    ]);
    let line = "PS TEST> in0-in1-in2-in3-in4-done"@;
    assert("PS TEST> "@ + typed + "done"@ =~= line);
    assert("CMD-OUTPUT-OK"@ + "\r\n"@ =~= "CMD-OUTPUT-OK\r\n"@);
    let p0 = fixture::payload_texts();
    fixture::lines_are_printed_one_by_one(p0, line);
    fixture::lines_are_printed_one_by_one(p0.push(line), "CMD-OUTPUT-OK"@);
    assert(typing_payloads() =~= p0.push(line).push("CMD-OUTPUT-OK"@));
    assert(output(b3) =~= fixed + (("PS TEST> "@ + typed + "done"@) + "\r\n"@)
        + "CMD-OUTPUT-OK\r\n"@);
}

/// A terminal that plays the console host says so first, and only then; the scenario ends
/// with both checks, under its name.
pub proof fn typing_is_checked_in_the_end(conpty: bool)
    ensures
        ({
            let steps = input_steps(conpty);
            let stage = typing_stage(conpty);
            &&& steps.len() > 2
            &&& steps[0] is EnableConptyQuirks <==> conpty
            &&& steps[steps.len() - 2] == (StepView::CheckInvariants {
                payloads: typing_payloads(),
                stage,
            })
            &&& steps[steps.len() - 1] == (StepView::CheckCursor { stage })
            &&& conpty ==> stage == "conpty 输入交错"@
            &&& !conpty ==> stage == "plain 输入交错"@
        }),
{
    reveal_strlit("conpty");
    reveal_strlit("plain");
    reveal_strlit(" 输入交错");
    reveal_strlit("conpty 输入交错");
    reveal_strlit("plain 输入交错");
    assert("conpty"@ + " 输入交错"@ =~= "conpty 输入交错"@);
    assert("plain"@ + " 输入交错"@ =~= "plain 输入交错"@);
}

/// Lines are numbered from zero on, in three columns, and stand in brackets behind that.
/// A dump names its stage first.
pub proof fn lines_are_numbered_in_order(lines: Seq<Seq<char>>, stage: Seq<char>, i: int)
    requires
        0 <= i < lines.len(),
    ensures
        numbered(lines).len() == lines.len(),
        numbered(lines)[i] == text::right_aligned(i as nat, 3) + (": ["@ + lines[i] + "]"@),
        dump_texts(lines, stage).len() == lines.len() + 1,
        dump_texts(lines, stage)[0] == "--- 阶段 ["@ + stage + "] 逻辑行 dump ---"@,
        dump_texts(lines, stage)[i + 1] == numbered(lines)[i],
{
    assert(numbered(lines)[i] =~= text::right_aligned(i as nat, 3) + (": ["@ + lines[i] + "]"@));
}

/// The message of a failed check names the stage, counts the reports and gives them, a line
/// each.
pub proof fn failures_are_worded(reports: Seq<Seq<char>>, stage: Seq<char>)
    ensures
        failure_message(reports, stage) == "阶段 ["@ + stage + "] 不变量违规 "@ + text::decimal(
            reports.len(),
        ) + (" 项:\n  "@ + text::joined(reports, "\n  "@)),
{
    let head = "阶段 ["@ + stage + "] 不变量违规 "@ + text::decimal(reports.len());
    let tail = text::joined(reports, "\n  "@);
    assert(head + " 项:\n  "@ + tail =~= head + (" 项:\n  "@ + tail));
}

/// A cursor is off the screen beyond the column behind the last one, above the first row
/// and below the last.
pub proof fn the_cursor_may_rest_behind_the_row(x: int, y: int, cols: int, rows: int)
    ensures
        x > cols || y < 0 || y >= rows ==> !cursor_in_bounds(x, y, cols, rows),
        0 <= y < rows ==> cursor_in_bounds(cols, y, cols, rows),
        0 <= y < rows && x <= cols ==> cursor_in_bounds(x, y, cols, rows),
{
}

/// The stages of the single steps are named after the sizes that they go from and to.
pub proof fn stages_are_named_after_their_sizes()
    ensures
        ({
            let sizes = single_sizes();
            let names = single_stages();
            &&& names[0] == "缩窄 80->"@ + text::decimal(sizes[0].1 as nat)
            &&& names[1] == "放宽 "@ + text::decimal(sizes[0].1 as nat) + "->"@ + text::decimal(
                sizes[1].1 as nat,
            )
            &&& names[2] == "变矮 24->"@ + text::decimal(sizes[2].0 as nat)
            &&& names[3] == "变高 "@ + text::decimal(sizes[2].0 as nat) + "->"@ + text::decimal(
                sizes[3].0 as nat,
            )
            &&& names[4] == "回到 "@ + text::decimal(sizes[4].1 as nat) + "x"@ + text::decimal(
                sizes[4].0 as nat,
            )
        }),
{
    reveal_with_fuel(text::decimal, 3);
    reveal_strlit("缩窄 80->40");
    reveal_strlit("放宽 40->120");
    reveal_strlit("变矮 24->10");
    reveal_strlit("变高 10->30");
    reveal_strlit("回到 80x24");
    reveal_strlit("缩窄 80->");
    reveal_strlit("放宽 ");
    reveal_strlit("->");
    reveal_strlit("变矮 24->");
    reveal_strlit("变高 ");
    reveal_strlit("回到 ");
    reveal_strlit("x");
    assert(text::decimal(40) =~= seq!['4', '0']);
    assert(text::decimal(120) =~= seq!['1', '2', '0']);
    assert(text::decimal(10) =~= seq!['1', '0']);
    assert(text::decimal(30) =~= seq!['3', '0']);
    assert(text::decimal(80) =~= seq!['8', '0']);
    assert(text::decimal(24) =~= seq!['2', '4']);
    assert("缩窄 80->40"@ =~= "缩窄 80->"@ + text::decimal(40));
    assert("放宽 40->120"@ =~= "放宽 "@ + text::decimal(40) + "->"@ + text::decimal(120));
    assert("变矮 24->10"@ =~= "变矮 24->"@ + text::decimal(10));
    assert("变高 10->30"@ =~= "变高 "@ + text::decimal(10) + "->"@ + text::decimal(30));
    assert("回到 80x24"@ =~= "回到 "@ + text::decimal(80) + "x"@ + text::decimal(24));
}

} // verus!
