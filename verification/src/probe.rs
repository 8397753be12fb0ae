//! The probe that drives a real pseudo console: what it sends and when, how it
//! collects the output, and what it reports.

use vstd::prelude::*;
use vstd::utf8;
use crate::fixture;
use crate::screen;
use crate::screen::{logical_lines, screen_text, PhysicalLine};
use crate::script;
use crate::script::{number_lines, TerminalSize};
use crate::text;
use crate::ticks;
use crate::ticks::tick_violations;
use crate::violations;
use crate::violations::payload_violations;

verus! {

/// How long output is collected after each resize, in milliseconds. Output
/// keeps coming all the time, so there is no silence to wait for.
pub const STAGE_DRAIN_MS: u64 = 1500;

/// How long one attempt to receive output waits, in milliseconds.
pub const RECEIVE_POLL_MS: u64 = 200;

/// How long the probe waits for a marker to show up, in nanoseconds.
pub const MARKER_TIMEOUT_NS: u128 = 10_000_000_000;

/// How many tick lines the child process prints.
pub const CHILD_TICKS: u32 = 120;

/// How long the child process rests between two tick lines, in milliseconds.
pub const CHILD_TICK_MS: u64 = 300;

/// The scrollback of the probed terminal, in rows.
pub const SCROLLBACK_ROWS: usize = 10000;

/// The size of a pseudo console.
#[derive(Clone, Copy, Debug, PartialEq, Eq, Structural)]
pub struct PtySize {
    pub rows: u16,
    pub cols: u16,
    pub pixel_width: u16,
    pub pixel_height: u16,
}

/// What one attempt to receive output brought.
pub enum Received {
    Chunk(Vec<u8>),
    Timeout,
    Disconnected,
}

/// What to do after an attempt to receive output.
#[derive(Clone, Copy, Debug, PartialEq, Eq, Structural)]
pub enum PumpStep {
    /// Feed the newly logged bytes to the terminal and go on.
    Feed,
    /// Go on.
    Continue,
    /// Stop: no more output will come.
    Stop,
}

/// What to do while waiting for a marker.
pub enum WaitStep {
    /// The marker is on the screen.
    Found,
    /// Give up, with this message.
    TimedOut(String),
    /// Receive more output.
    Receive,
}

/// The output received so far, with a mark where each stage begins.
pub struct Pump {
    pub raw_log: Vec<u8>,
}

/// The size of the probed terminal.
pub fn term_size(rows: usize, cols: usize) -> (r: TerminalSize)
    requires
        cols * 8 <= usize::MAX,
        rows * 16 <= usize::MAX,
    ensures
        r == script::sized(rows as nat, cols as nat, 96),
{
    TerminalSize { rows, cols, pixel_width: cols * 8, pixel_height: rows * 16, dpi: 96 }
}

/// `n` cut down to sixteen bits.
fn low_16_bits(n: usize) -> (r: u16)
    ensures
        r as int == n as int % 0x10000,
{
    assert((n as u16) as usize == n % 0x10000) by (bit_vector);
    #[verifier::truncate]
    (n as u16)
}

/// The size of the pseudo console. A number that does not fit is cut down to
/// sixteen bits.
pub fn pty_size(rows: usize, cols: usize) -> (r: PtySize)
    requires
        cols * 8 <= usize::MAX,
        rows * 16 <= usize::MAX,
    ensures
        r.rows as int == rows as int % 0x10000,
        r.cols as int == cols as int % 0x10000,
        r.pixel_width as int == (cols * 8) % 0x10000,
        r.pixel_height as int == (rows * 16) % 0x10000,
{
    PtySize {
        rows: low_16_bits(rows),
        cols: low_16_bits(cols),
        pixel_width: low_16_bits(cols * 8),
        pixel_height: low_16_bits(rows * 16),
    }
}

/// The mark that opens a stage in the log.
pub open spec fn stage_mark(stage: Seq<char>) -> Seq<char> {
    "\n@@STAGE:"@ + stage + "@@\n"@
}

/// Appends `more` to `log`.
fn append_bytes(log: &mut Vec<u8>, more: &[u8])
    ensures
        final(log)@ == old(log)@ + more@,
{
    let ghost start = log@;
    for i in 0..more.len()
        invariant
            log@ == start + more@.take(i as int),
    {
        log.push(more[i]);
        assert(more@.take(i + 1) =~= more@.take(i as int).push(more@[i as int]));
    }
    assert(more@.take(more@.len() as int) =~= more@);
}

/// Whether some text contains `marker`.
pub open spec fn some_contains(lines: Seq<Seq<char>>, marker: Seq<char>) -> bool {
    exists|i: int| 0 <= i < lines.len() && #[trigger] text::contains_text(lines[i], marker)
}

/// Whether some line contains `marker`.
pub fn any_contains(lines: &Vec<String>, marker: &str) -> (r: bool)
    ensures
        r == some_contains(text::texts(lines@), marker@),
{
    for i in 0..lines.len()
        invariant
            forall|j: int|
                0 <= j < i ==> !#[trigger] text::contains_text(text::texts(lines@)[j], marker@),
    {
        if text::contains(lines[i].as_str(), marker) {
            assert(text::contains_text(text::texts(lines@)[i as int], marker@));
            return true;
        }
    }
    false
}

impl Pump {
    /// Nothing received yet.
    pub fn new() -> (r: Self)
        ensures
            r.raw_log@ == Seq::<u8>::empty(),
    {
        Pump { raw_log: Vec::new() }
    }

    /// Marks the beginning of a stage in the log.
    pub fn begin_stage(&mut self, stage: &str)
        ensures
            final(self).raw_log@ == old(self).raw_log@ + utf8::encode_utf8(stage_mark(stage@)),
    {
        let mut mark = "\n@@STAGE:".to_owned();
        mark.append(stage);
        mark.append("@@\n");
        append_bytes(&mut self.raw_log, mark.as_str().as_bytes());
    }

    /// Takes in what one attempt to receive output brought, and counts it.
    pub fn settle(&mut self, received: &Received, got: &mut usize) -> (r: PumpStep)
        requires
            received matches Received::Chunk(chunk) ==> *old(got) + chunk@.len() <= usize::MAX,
        ensures
            match received {
                Received::Chunk(chunk) => {
                    &&& r == PumpStep::Feed
                    &&& final(self).raw_log@ == old(self).raw_log@ + chunk@
                    &&& *final(got) == *old(got) + chunk@.len()
                },
                Received::Timeout => {
                    &&& r == PumpStep::Continue
                    &&& final(self).raw_log@ == old(self).raw_log@
                    &&& *final(got) == *old(got)
                },
                Received::Disconnected => {
                    &&& r == PumpStep::Stop
                    &&& final(self).raw_log@ == old(self).raw_log@
                    &&& *final(got) == *old(got)
                },
            },
    {
        match received {
            Received::Chunk(chunk) => {
                append_bytes(&mut self.raw_log, chunk.as_slice());
                *got = *got + chunk.len();
                PumpStep::Feed
            },
            Received::Timeout => PumpStep::Continue,
            Received::Disconnected => PumpStep::Stop,
        }
    }

    /// Decides whether to go on waiting for `marker`: it is on the screen, the
    /// time is up, or more output is wanted.
    pub fn wait_for_marker(lines: &Vec<PhysicalLine>, marker: &str, elapsed_ns: u128) -> (r: WaitStep)
        ensures
            match r {
                WaitStep::Found => some_contains(
                    screen::row_texts(screen::rows(lines@)),
                    marker@,
                ),
                WaitStep::TimedOut(message) => {
                    &&& !some_contains(screen::row_texts(screen::rows(lines@)), marker@)
                    &&& elapsed_ns > MARKER_TIMEOUT_NS
                    &&& message@ == "等待 "@ + marker@ + " 超时"@
                },
                WaitStep::Receive => {
                    &&& !some_contains(screen::row_texts(screen::rows(lines@)), marker@)
                    &&& elapsed_ns <= MARKER_TIMEOUT_NS
                },
            },
    {
        if any_contains(&screen_text(lines), marker) {
            return WaitStep::Found;
        }
        if elapsed_ns > MARKER_TIMEOUT_NS {
            let mut message = "等待 ".to_owned();
            message.append(marker);
            message.append(" 超时");
            return WaitStep::TimedOut(message);
        }
        WaitStep::Receive
    }

    /// The message for output that ends while `marker` is awaited.
    pub fn disconnected(marker: &str) -> (r: String)
        ensures
            r@ == "pty reader 在等待 "@ + marker@ + " 时断开"@,
    {
        let mut message = "pty reader 在等待 ".to_owned();
        message.append(marker);
        message.append(" 时断开");
        message
    }
}

/// What the child process prints before the resizes begin.
pub fn child_mode() -> (r: String)
    ensures
        r@ == fixture::printed(fixture::payload_texts()) + "@@FIXTURE-READY@@"@ + "\r\n"@,
{
    let (fixture_text, _payloads) = fixture::build_fixture();
    let mut out = fixture_text;
    out.append("@@FIXTURE-READY@@");
    out.append("\r\n");
    out
}

/// What the command line asks for.
pub struct HarnessArgs {
    /// Run as the child process inside the pseudo console.
    pub child: bool,
    /// Where reports go.
    pub out_dir: String,
    /// Run only the scenario that narrows the window and then types.
    pub only_narrow: bool,
    /// In that scenario, replay what a window makes of a drag.
    pub gui_replay: bool,
}

/// The position of the first argument that reads `flag`.
pub open spec fn first_position(args: Seq<Seq<char>>, flag: Seq<char>, k: int) -> Option<int>
    decreases args.len() - k,
{
    if k < 0 || k >= args.len() {
        None
    } else if args[k] == flag {
        Some(k)
    } else {
        first_position(args, flag, k + 1)
    }
}

/// The position of the first argument that reads `flag`.
fn position(args: &Vec<String>, flag: &str) -> (r: Option<usize>)
    ensures
        match r {
            Some(i) => first_position(text::texts(args@), flag@, 0) == Some(i as int) && i
                < args@.len(),
            None => first_position(text::texts(args@), flag@, 0) is None,
        },
{
    for i in 0..args.len()
        invariant
            first_position(text::texts(args@), flag@, 0) == first_position(
                text::texts(args@),
                flag@,
                i as int,
            ),
    {
        assert(text::texts(args@)[i as int] == args@[i as int]@);
        if text::same_text(args[i].as_str(), flag) {
            return Some(i);
        }
    }
    None
}

/// Reads the command line. The only mistake it can hold is an `--out-dir`
/// without a path behind it; the child process looks at nothing but its flag.
pub fn parse_args(args: &Vec<String>) -> (r: Result<HarnessArgs, String>)
    ensures
        ({
            let words = text::texts(args@);
            let child = first_position(words, "--child"@, 0) is Some;
            let at = first_position(words, "--out-dir"@, 0);
            match r {
                Ok(parsed) => {
                    &&& child || at is None || at->0 + 1 < words.len()
                    &&& parsed.child == child
                    &&& parsed.out_dir@ == (if !child && at is Some {
                        words[at->0 + 1]
                    } else {
                        "target/resize-verify"@
                    })
                    &&& parsed.only_narrow == (first_position(words, "--only-narrow"@, 0) is Some)
                    &&& parsed.gui_replay == (first_position(words, "--gui-replay"@, 0) is Some)
                },
                Err(message) => {
                    &&& !child && at is Some && at->0 + 1 >= words.len()
                    &&& message@ == "--out-dir 需要一个路径参数"@
                },
            }
        }),
{
    let child = position(args, "--child").is_some();
    let only_narrow = position(args, "--only-narrow").is_some();
    let gui_replay = position(args, "--gui-replay").is_some();
    let mut out_dir = "target/resize-verify".to_owned();
    if !child {
        let count = args.len();
        if let Some(i) = position(args, "--out-dir") {
            if i + 1 >= count {
                return Err("--out-dir 需要一个路径参数".to_owned());
            }
            out_dir = args[i + 1].clone();
            assert(text::texts(args@)[i + 1] == args@[i + 1]@);
        }
    }
    Ok(HarnessArgs { child, out_dir, only_narrow, gui_replay })
}

/// How a run of the probe ended.
#[derive(Clone, Copy, Debug, PartialEq, Eq, Structural)]
pub enum ProbeResult {
    Passed,
    Violated,
    Broken,
}

/// The exit code of the probe: 0 if everything held, 1 if something was
/// violated, 2 if the probe itself failed.
pub fn exit_code(result: ProbeResult) -> (r: i32)
    ensures
        r == (match result {
            ProbeResult::Passed => 0i32,
            ProbeResult::Violated => 1i32,
            ProbeResult::Broken => 2i32,
        }),
{
    match result {
        ProbeResult::Passed => 0,
        ProbeResult::Violated => 1,
        ProbeResult::Broken => 2,
    }
}

/// A screen dump to be written next to the report.
pub struct Snapshot {
    pub file_name: String,
    pub body: String,
}

/// Each of `lines` with a line end, behind `indent`.
pub open spec fn listed(lines: Seq<Seq<char>>, indent: Seq<char>) -> Seq<char>
    decreases lines.len(),
{
    if lines.len() == 0 {
        seq![]
    } else {
        listed(lines.drop_last(), indent) + indent + lines.last() + "\n"@
    }
}

/// Each of `lines` with a line end, behind `indent`.
fn list(lines: &Vec<String>, indent: &str) -> (r: String)
    ensures
        r@ == listed(text::texts(lines@), indent@),
{
    let mut out = String::new();
    let ghost all = text::texts(lines@);
    for i in 0..lines.len()
        invariant
            all == text::texts(lines@),
            out@ == listed(all.take(i as int), indent@),
    {
        assert(all.take(i + 1).drop_last() =~= all.take(i as int));
        out.append(indent);
        out.append(lines[i].as_str());
        out.append("\n");
    }
    assert(all.take(lines@.len() as int) =~= all);
    out
}

/// `PASS` or `FAIL`.
pub open spec fn verdict_word(passed: bool) -> Seq<char> {
    if passed {
        "PASS"@
    } else {
        "FAIL"@
    }
}

/// What the report says about a stage.
pub open spec fn stage_report(
    rows: Seq<screen::LineView>,
    stage: Seq<char>,
    reports: Seq<Seq<char>>,
) -> Seq<char> {
    "\n===== 阶段 ["@ + stage + "] "@ + verdict_word(reports.len() == 0) + " =====\n"@ + listed(
        reports,
        "  违规: "@,
    ) + "  --- 逻辑行 ---\n"@ + listed(script::numbered(screen::logical(rows)), "  "@)
}

/// `stage` with everything but letters and numbers replaced by underscores.
pub open spec fn safe_name(stage: Seq<char>) -> Seq<char> {
    stage.map_values(
        |c: char|
            if text::alphanumeric(c) {
                c
            } else {
                '_'
            },
    )
}

/// `stage` with everything but letters and numbers replaced by underscores.
fn file_safe(stage: &str) -> (r: String)
    ensures
        r@ == safe_name(stage@),
{
    let chars = text::chars_of(stage);
    let mut out = String::new();
    for i in 0..chars.len()
        invariant
            chars@ == stage@,
            out@ == safe_name(stage@.take(i as int)),
    {
        let c = chars[i];
        out.push(
            if text::is_alphanumeric(c) {
                c
            } else {
                '_'
            },
        );
        assert(out@ =~= safe_name(stage@.take(i + 1)));
    }
    assert(stage@.take(stage@.len() as int) =~= stage@);
    out
}

/// Adds a stage to the report: verdict, violations and logical lines. A stage
/// with violations also gets a dump of the physical rows.
pub fn record_stage(
    report: &mut String,
    lines: &Vec<PhysicalLine>,
    stage: &str,
    reports: &Vec<String>,
) -> (r: Option<Snapshot>)
    ensures
        final(report)@ == old(report)@ + stage_report(
            screen::rows(lines@),
            stage@,
            text::texts(reports@),
        ),
        match r {
            Some(snapshot) => {
                &&& reports@.len() > 0
                &&& snapshot.file_name@ == "screen-"@ + safe_name(stage@) + ".txt"@
                &&& snapshot.body@ == listed(
                    script::numbered(screen::row_texts(screen::rows(lines@))),
                    seq![],
                )
            },
            None => reports@.len() == 0,
        },
{
    let ghost start = report@;
    let mut entry = "\n===== 阶段 [".to_owned();
    entry.append(stage);
    entry.append("] ");
    entry.append(
        if reports.len() == 0 {
            "PASS"
        } else {
            "FAIL"
        },
    );
    entry.append(" =====\n");
    entry.append(list(reports, "  违规: ").as_str());
    entry.append("  --- 逻辑行 ---\n");
    entry.append(list(&number_lines(&logical_lines(lines)), "  ").as_str());
    report.append(entry.as_str());
    if reports.len() == 0 {
        return None;
    }
    let mut file_name = "screen-".to_owned();
    file_name.append(file_safe(stage).as_str());
    file_name.append(".txt");
    let body = list(&number_lines(&screen_text(lines)), "");
    proof {
        reveal_strlit("");
        assert(""@ =~= Seq::<char>::empty());
    }
    Some(Snapshot { file_name, body })
}

/// The line that is shown for a stage.
pub open spec fn stage_line(stage: Seq<char>, got: nat, count: nat) -> Seq<char> {
    "["@ + verdict_word(count == 0) + "] "@ + stage + " (ConPTY 重放 "@ + text::decimal(got)
        + " 字节, 违规 "@ + text::decimal(count) + " 项)"@
}

/// What a finished stage has to show.
pub struct StageOutcome {
    pub line: String,
    pub snapshot: Option<Snapshot>,
}

/// The state of a run of the probe.
pub struct Harness {
    /// Whether everything has held so far.
    pub all_ok: bool,
    /// The report so far.
    pub report: String,
}

/// What is wrong with a buffer after a resize: payloads first, then ticks.
pub open spec fn stage_texts(
    rows: Seq<screen::LineView>,
    payloads: Seq<Seq<char>>,
) -> Seq<Seq<char>> {
    let numbers = ticks::all_ticks(screen::logical(rows));
    violations::violation_texts(rows, payloads) + ticks::tick_texts(numbers, numbers.len() as int)
}

/// What is wrong with a buffer after a resize: payloads first, then ticks.
pub fn stage_violations(lines: &Vec<PhysicalLine>, payloads: &Vec<String>) -> (r: Vec<String>)
    requires
        screen::countable(screen::rows(lines@)),
    ensures
        text::texts(r@) == stage_texts(screen::rows(lines@), text::texts(payloads@)),
{
    let mut reports = payload_violations(lines, payloads);
    let ghost first = reports@;
    let mut more = tick_violations(lines);
    let ghost second = more@;
    reports.append(&mut more);
    assert(text::texts(first + second) =~= text::texts(first) + text::texts(second));
    reports
}

impl Harness {
    /// A run with nothing checked yet.
    pub fn new() -> (r: Self)
        ensures
            r.all_ok,
            r.report@ == Seq::<char>::empty(),
    {
        Harness { all_ok: true, report: String::new() }
    }

    /// Checks the buffer before the first resize. Only violations are recorded.
    pub fn baseline(&mut self, lines: &Vec<PhysicalLine>, payloads: &Vec<String>) -> (r: Option<
        Snapshot,
    >)
        requires
            screen::countable(screen::rows(lines@)),
        ensures
            ({
                let rows = screen::rows(lines@);
                let reports = violations::violation_texts(rows, text::texts(payloads@));
                &&& final(self).all_ok == (old(self).all_ok && reports.len() == 0)
                &&& final(self).report@ == (if reports.len() == 0 {
                    old(self).report@
                } else {
                    old(self).report@ + stage_report(rows, "初始(resize 前)"@, reports)
                })
                &&& match r {
                    Some(snapshot) => {
                        &&& reports.len() > 0
                        &&& snapshot.file_name@ == "screen-"@ + safe_name("初始(resize 前)"@)
                            + ".txt"@
                        &&& snapshot.body@ == listed(
                            script::numbered(screen::row_texts(rows)),
                            seq![],
                        )
                    },
                    None => reports.len() == 0,
                }
            }),
    {
        let reports = payload_violations(lines, payloads);
        assert(text::texts(reports@).len() == reports@.len());
        if reports.len() == 0 {
            return None;
        }
        self.all_ok = false;
        record_stage(&mut self.report, lines, "初始(resize 前)", &reports)
    }

    /// Checks and records the buffer after a resize that `got` bytes of output
    /// followed.
    pub fn finish_stage(
        &mut self,
        lines: &Vec<PhysicalLine>,
        payloads: &Vec<String>,
        stage: &str,
        got: usize,
    ) -> (r: StageOutcome)
        requires
            screen::countable(screen::rows(lines@)),
        ensures
            ({
                let rows = screen::rows(lines@);
                let reports = stage_texts(rows, text::texts(payloads@));
                &&& final(self).all_ok == (old(self).all_ok && reports.len() == 0)
                &&& final(self).report@ == old(self).report@ + stage_report(rows, stage@, reports)
                &&& r.line@ == stage_line(stage@, got as nat, reports.len())
                &&& match r.snapshot {
                    Some(snapshot) => {
                        &&& reports.len() > 0
                        &&& snapshot.file_name@ == "screen-"@ + safe_name(stage@) + ".txt"@
                        &&& snapshot.body@ == listed(
                            script::numbered(screen::row_texts(rows)),
                            seq![],
                        )
                    },
                    None => reports.len() == 0,
                }
            }),
    {
        let reports = stage_violations(lines, payloads);
        assert(text::texts(reports@).len() == reports@.len());
        let passed = reports.len() == 0;
        if !passed {
            self.all_ok = false;
        }
        let mut line = "[".to_owned();
        line.append(
            if passed {
                "PASS"
            } else {
                "FAIL"
            },
        );
        line.append("] ");
        line.append(stage);
        line.append(" (ConPTY 重放 ");
        line.append(text::decimal_text(got as u64).as_str());
        line.append(" 字节, 违规 ");
        line.append(text::decimal_text(reports.len() as u64).as_str());
        line.append(" 项)");
        let snapshot = record_stage(&mut self.report, lines, stage, &reports);
        StageOutcome { line, snapshot }
    }

    /// Takes in how a scenario ended; `None` is one that failed to run.
    pub fn finish_scenario(&mut self, verdict: Option<bool>)
        ensures
            final(self).all_ok == (old(self).all_ok && verdict == Some(true)),
            final(self).report == old(self).report,
    {
        match verdict {
            Some(ok) => {
                self.all_ok = self.all_ok && ok;
            },
            None => {
                self.all_ok = false;
            },
        }
    }

    /// The closing line of the run.
    pub fn conclusion(&self) -> (r: String)
        ensures
            r@ == "== 结果: "@ + (if self.all_ok {
                "全部通过 — ConPTY 交互层未检出内容异样"@
            } else {
                "存在违规 — ConPTY 重放与模型 rewrap 的合成结果损坏了旧内容"@
            }) + " =="@,
    {
        let mut out = "== 结果: ".to_owned();
        out.append(
            if self.all_ok {
                "全部通过 — ConPTY 交互层未检出内容异样"
            } else {
                "存在违规 — ConPTY 重放与模型 rewrap 的合成结果损坏了旧内容"
            },
        );
        out.append(" ==");
        out
    }
}

/// A word is found where it first stands among the arguments, and only if it is there.
pub proof fn a_word_is_found_where_it_is_first(args: Seq<Seq<char>>, word: Seq<char>, k: int)
    requires
        0 <= k,
    ensures
        match first_position(args, word, k) {
            Some(i) => k <= i < args.len() && args[i] == word && forall|j: int|
                k <= j < i ==> args[j] != word,
            None => forall|j: int| k <= j < args.len() ==> args[j] != word,
        },
    decreases args.len() - k,
{
    if k < args.len() && args[k] != word {
        a_word_is_found_where_it_is_first(args, word, k + 1);
    }
}

/// Lists are made line by line, each line behind the indent and with its line end.
pub proof fn lists_are_made_line_by_line(above: Seq<Seq<char>>, line: Seq<char>, indent: Seq<char>)
    ensures
        listed(above.push(line), indent) == listed(above, indent) + (indent + line + "\n"@),
        listed(seq![], indent).len() == 0,
{
    assert(above.push(line).drop_last() =~= above);
    assert(listed(above.push(line), indent) =~= listed(above, indent) + (indent + line + "\n"@));
}

/// A safe name is as long as the name of the stage, keeps its letters and numbers where
/// they are, and has an underscore for everything else.
pub proof fn safe_names_keep_letters(stage: Seq<char>)
    ensures
        safe_name(stage).len() == stage.len(),
        forall|i: int|
            0 <= i < stage.len() ==> (if text::alphanumeric(stage[i]) {
                #[trigger] safe_name(stage)[i] == stage[i]
            } else {
                safe_name(stage)[i] as int == 95
            }),
{
}

/// The mark of a stage is a line of its own that names the stage.
pub proof fn a_stage_is_marked_by_its_name(stage: Seq<char>)
    ensures
        stage_mark(stage).len() == stage.len() + 12,
        stage_mark(stage).subrange(9, 9 + stage.len() as int) == stage,
        stage_mark(stage).take(9) == "\n@@STAGE:"@,
        stage_mark(stage).skip(9 + stage.len() as int) == "@@\n"@,
{
    reveal_strlit("\n@@STAGE:");
    reveal_strlit("@@\n");
    assert(stage_mark(stage).subrange(9, 9 + stage.len() as int) =~= stage);
    assert(stage_mark(stage).take(9) =~= "\n@@STAGE:"@);
    assert(stage_mark(stage).skip(9 + stage.len() as int) =~= "@@\n"@);
}

/// A stage passes exactly if nothing is wrong with it, and its line and its report say so;
/// the line gives the number of bytes and then that of the violations.
pub proof fn a_stage_passes_without_reports(
    rows: Seq<screen::LineView>,
    stage: Seq<char>,
    reports: Seq<Seq<char>>,
    got: nat,
    count: nat,
)
    ensures
        count == 0 ==> stage_line(stage, got, count) == "[PASS] "@ + stage + " (ConPTY 重放 "@
            + text::decimal(got) + " 字节, 违规 "@ + text::decimal(0) + " 项)"@,
        count > 0 ==> stage_line(stage, got, count) == "[FAIL] "@ + stage + " (ConPTY 重放 "@
            + text::decimal(got) + " 字节, 违规 "@ + text::decimal(count) + " 项)"@,
        reports.len() == 0 ==> stage_report(rows, stage, reports) == "\n===== 阶段 ["@ + stage
            + "] PASS =====\n"@ + "  --- 逻辑行 ---\n"@ + listed(
            script::numbered(screen::logical(rows)),
            "  "@,
        ),
        reports.len() > 0 ==> stage_report(rows, stage, reports) == "\n===== 阶段 ["@ + stage
            + "] FAIL =====\n"@ + listed(reports, "  违规: "@) + "  --- 逻辑行 ---\n"@ + listed(
            script::numbered(screen::logical(rows)),
            "  "@,
        ),
{
    reveal_strlit("[");
    reveal_strlit("] ");
    reveal_strlit("PASS");
    reveal_strlit("FAIL");
    reveal_strlit("[PASS] ");
    reveal_strlit("[FAIL] ");
    reveal_strlit(" =====\n");
    reveal_strlit("] PASS =====\n");
    reveal_strlit("] FAIL =====\n");
    assert("["@ + "PASS"@ + "] "@ =~= "[PASS] "@);
    assert("["@ + "FAIL"@ + "] "@ =~= "[FAIL] "@);
    let start = "\n===== 阶段 ["@ + stage;
    assert(start + "] "@ + "PASS"@ + " =====\n"@ =~= start + "] PASS =====\n"@);
    assert(start + "] "@ + "FAIL"@ + " =====\n"@ =~= start + "] FAIL =====\n"@);
    if reports.len() == 0 {
        assert(listed(reports, "  违规: "@) == Seq::<char>::empty());
        assert(start + "] PASS =====\n"@ + Seq::<char>::empty() =~= start + "] PASS =====\n"@);
    }
}

} // verus!
