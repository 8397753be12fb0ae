use wezterm_core::fixture::{build_fixture, fixture_payloads, line_of, repeat, tick};
use wezterm_core::probe::{
    any_contains, child_mode, exit_code, parse_args, pty_size, record_stage, stage_violations,
    term_size, Harness, ProbeResult, Pump, PumpStep, Received, WaitStep, MARKER_TIMEOUT_NS,
};
use wezterm_core::scenario::{
    harness, interactive_shell_scenario, interactive_violations, narrow_closing_steps,
    narrow_then_type_scenario, narrow_violations, race_trace, resize_trace, scenario_passed,
    scenario_verdict,
    type_during_storm, wait_for_prompt, ProbeStep, Typing,
};
use wezterm_core::screen::{logical_lines, phys_joined, screen_text, PhysicalLine};
use wezterm_core::script::{
    assert_cursor_in_bounds, assert_invariants, number_lines, resize_to, run_input_interleaved,
    run_interleaved_storm, run_resize_sequence, size, storm_cols, TermStep, TestTerm,
};
use wezterm_core::text::{
    contains, count_matches, decimal_text, find, is_white_space, join, right_aligned_text,
    signed_decimal_text, take_chars, trim_end, zero_padded_text,
};
use wezterm_core::ticks::{count_lines_containing, count_occurrences, tick_violations};
use wezterm_core::violations::payload_violations;

fn row(text: &str, wrapped: bool) -> PhysicalLine {
    PhysicalLine {
        text: text.to_string(),
        wrapped,
    }
}

/// Lays logical lines out on rows of `width` characters.
fn laid_out(lines: &[&str], width: usize) -> Vec<PhysicalLine> {
    let mut rows = vec![];
    for line in lines {
        let chars: Vec<char> = line.chars().collect();
        let chunks: Vec<String> = chars.chunks(width).map(|c| c.iter().collect()).collect();
        if chunks.is_empty() {
            rows.push(row("", false));
        }
        for (i, chunk) in chunks.iter().enumerate() {
            rows.push(row(chunk, i + 1 < chunks.len()));
        }
    }
    rows
}

fn texts(list: &[&str]) -> Vec<String> {
    list.iter().map(|s| s.to_string()).collect()
}

#[test]
fn text_is_searched_like_strings() {
    assert!(contains("abcabc", "cab"));
    assert!(!contains("abcabc", "cc"));
    assert!(contains("abc", ""));
    assert_eq!(find("abcabc", "ca"), Some(2));
    assert_eq!(find("abc", "x"), None);
    assert_eq!(count_matches("aaaa", "aa"), 2);
    assert_eq!(count_matches("中文中文", "中文"), 2);
    assert_eq!(count_matches("abc", "x"), 0);
}

#[test]
fn white_space_is_trimmed_at_the_end_only() {
    assert_eq!(trim_end("  a b \t\u{3000}\u{a0}\n"), "  a b");
    assert_eq!(trim_end("\u{3000}"), "");
    assert_eq!(trim_end("a\u{200b}"), "a\u{200b}");
}

#[test]
fn numbers_are_written_as_they_should() {
    assert_eq!(decimal_text(0), "0");
    assert_eq!(decimal_text(18446744073709551615), "18446744073709551615");
    assert_eq!(zero_padded_text(7, 3), "007");
    assert_eq!(zero_padded_text(1234, 3), "1234");
    assert_eq!(right_aligned_text(7, 3), "  7");
    assert_eq!(right_aligned_text(1234, 3), "1234");
    assert_eq!(signed_decimal_text(-12), "-12");
    assert_eq!(signed_decimal_text(i64::MIN), "-9223372036854775808");
    assert_eq!(signed_decimal_text(5), "5");
}

#[test]
fn text_is_cut_and_joined_by_characters() {
    assert_eq!(take_chars("中文宽字符", 3), "中文宽");
    assert_eq!(take_chars("ab", 5), "ab");
    assert_eq!(join(&texts(&["a", "b", "c"]), "\n  "), "a\n  b\n  c");
    assert_eq!(join(&vec![], ", "), "");
    assert_eq!(repeat("ab", 3), "ababab");
    assert_eq!(line_of("x"), "x\r\n");
    assert_eq!(tick(7), "TICK-007");
}

#[test]
fn wrapped_rows_join_into_logical_lines() {
    let rows = vec![
        row("abc", true),
        row("def", false),
        row("", false),
        row("tail", true),
    ];
    assert_eq!(logical_lines(&rows), vec!["abcdef", "", "tail"]);
    assert_eq!(screen_text(&rows), vec!["abc", "def", "", "tail"]);
}

#[test]
fn logical_lines_survive_any_width() {
    let lines = ["L01|short", "", "中文宽字符换行校验一二三四五六七八九十", "end"];
    for width in 1..25 {
        assert_eq!(logical_lines(&laid_out(&lines, width)), lines);
    }
}

#[test]
fn rows_join_without_trailing_blanks() {
    let rows = vec![row("abc  ", true), row("def\u{3000}", false)];
    assert_eq!(phys_joined(&rows), "abcdef");
}

#[test]
fn intact_payloads_have_no_violations() {
    let (_, payloads) = build_fixture();
    let lines: Vec<&str> = payloads.iter().map(|p| p.as_str()).collect();
    for width in [11, 27, 40, 80, 120] {
        assert!(payload_violations(&laid_out(&lines, width), &payloads).is_empty());
    }
}

#[test]
fn each_violation_is_named() {
    let payloads = texts(&["payload-one", "payload-two", "payload-three"]);
    assert_eq!(
        payload_violations(&laid_out(&["payload-one", "payload-three"], 80), &payloads),
        vec!["断裂(逻辑行未正确拼接): payload-two"]
    );
    assert_eq!(
        payload_violations(&laid_out(&["unrelated"], 80), &texts(&["payload-one"])),
        vec!["丢失: payload-one"]
    );
    assert_eq!(
        payload_violations(
            &laid_out(&["payload-one", "payload-one", "payload-two", "payload-three"], 80),
            &payloads
        ),
        vec!["重复 2 次: payload-one"]
    );
    assert_eq!(
        payload_violations(
            &laid_out(&["payload-two", "payload-one", "payload-three"], 80),
            &payloads
        ),
        vec!["错序: payload-two 在逻辑行 0，先前 payload 在 1"]
    );
}

#[test]
fn every_appearance_counts() {
    assert_eq!(
        payload_violations(&laid_out(&["AB AB"], 80), &texts(&["AB"])),
        vec!["重复 2 次: AB"]
    );
    assert_eq!(
        payload_violations(&laid_out(&["AB AB", "AB"], 4), &texts(&["AB"])),
        vec!["重复 3 次: AB"]
    );
    assert_eq!(
        payload_violations(&laid_out(&["aa"], 80), &texts(&[""])),
        vec!["重复 3 次: "]
    );
}

#[test]
fn order_counts_within_a_line_too() {
    assert!(payload_violations(&laid_out(&["aa bb"], 80), &texts(&["aa", "bb"])).is_empty());
    assert_eq!(
        payload_violations(&laid_out(&["bb aa"], 80), &texts(&["aa", "bb"])),
        vec!["错序: bb 在逻辑行 0，先前 payload 在 0"]
    );
    // A payload that stands twice has no place that another could be before.
    assert_eq!(
        payload_violations(&laid_out(&["bb aa aa"], 80), &texts(&["aa", "bb"])),
        vec!["重复 2 次: aa"]
    );
}

#[test]
fn no_line_of_the_fixture_is_part_of_another() {
    let payloads = fixture_payloads();
    for (i, a) in payloads.iter().enumerate() {
        for (k, b) in payloads.iter().enumerate() {
            assert_eq!(contains(a, b), i == k);
            assert_eq!(find(a, b), if i == k { Some(0) } else { None });
        }
    }
}

#[test]
fn white_space_is_what_it_is_everywhere() {
    for n in 0..=0x10FFFF {
        if let Some(c) = char::from_u32(n) {
            assert_eq!(is_white_space(c), c.is_whitespace());
        }
    }
}

#[test]
fn a_broken_wrap_is_no_loss() {
    // The mark that joins the rows is gone, the text is not.
    let rows = vec![row("abcdefghij", false), row("klmnop", false)];
    assert!(payload_violations(&rows, &texts(&["abcdefghijklmnop"])).is_empty());
    let torn = vec![row("abcdefghij", false), row("xx", false), row("klmnop", false)];
    assert_eq!(
        payload_violations(&torn, &texts(&["abcdefghijklmnop"])),
        vec!["断裂(逻辑行未正确拼接): abcdefghijklmnop"]
    );
}

#[test]
fn ticks_must_grow() {
    assert!(tick_violations(&laid_out(&["TICK-001", "x TICK-002 TICK-003"], 80)).is_empty());
    assert_eq!(
        tick_violations(&laid_out(&["TICK-001", "TICK-003", "TICK-002", "TICK-003"], 80)),
        vec!["错序: TICK-002 出现在 TICK-003 之后", "重复: TICK-003"]
    );
    assert!(tick_violations(&laid_out(&["TICK-1", "TICK-0001", "TICK-00x"], 80)).is_empty());
}

#[test]
fn occurrences_are_counted_over_all_lines() {
    let lines = texts(&["aXbX", "X", "none"]);
    assert_eq!(count_occurrences(&lines, "X"), 3);
    assert_eq!(count_lines_containing(&lines, "X"), 2);
    assert_eq!(count_occurrences(&lines, "Y"), 0);
}

#[test]
fn the_fixture_prints_its_payloads() {
    let (text, payloads) = build_fixture();
    assert_eq!(payloads.len(), 9);
    assert_eq!(payloads[0], "L01|short-01");
    assert_eq!(payloads[8], "L09|TAIL-MARKER");
    assert_eq!(
        payloads[7],
        format!("L08|{}", "中文宽字符换行校验一二三四五六七八九十".repeat(4))
    );
    assert!(payloads[6].starts_with("L07|SEG00-abcdefghij.SEG01-abcdefghij."));
    assert!(payloads[6].ends_with("SEG11-abcdefghij."));
    assert_eq!(text, payloads.iter().map(|p| format!("{p}\r\n")).collect::<String>());
    assert_eq!(fixture_payloads(), payloads);
    assert_eq!(child_mode(), format!("{text}@@FIXTURE-READY@@\r\n"));
}

#[test]
fn sizes_are_in_cells_and_pixels() {
    let s = size(24, 80);
    assert_eq!((s.rows, s.cols, s.pixel_width, s.pixel_height, s.dpi), (24, 80, 640, 384, 0));
    let t = term_size(10, 120);
    assert_eq!((t.rows, t.cols, t.pixel_width, t.pixel_height, t.dpi), (10, 120, 960, 160, 96));
    let p = pty_size(24, 80);
    assert_eq!((p.rows, p.cols, p.pixel_width, p.pixel_height), (24, 80, 640, 384));
    let wide = pty_size(1, 70_000);
    assert_eq!((wide.cols, wide.pixel_width), (4464, 35712));
}

#[test]
fn the_storm_prints_what_it_is_checked_for() {
    let mut term = TestTerm::new();
    let payloads = run_interleaved_storm(&mut term);
    assert_eq!(payloads.len(), 9 + 33);
    assert_eq!(payloads[9], "TICK-000");
    assert_eq!(payloads[41], "TICK-032");
    let mut printed = String::new();
    let mut resizes = 0;
    for step in &term.steps {
        match step {
            TermStep::Print(s) => printed.push_str(s),
            TermStep::Resize(_) => resizes += 1,
            _ => {}
        }
    }
    assert_eq!(printed, payloads.iter().map(|p| format!("{p}\r\n")).collect::<String>());
    assert_eq!(resizes, 5 + 3 * 12);
    assert_eq!(storm_cols(), vec![78, 74, 68, 62, 55, 48, 44, 40, 48, 60, 72, 80]);
}

#[test]
fn resize_sequences_are_checked_at_every_stage() {
    let mut term = TestTerm::new();
    run_resize_sequence(&mut term, &texts(&["p"]));
    assert_eq!(term.steps.len(), 15);
    match &term.steps[0] {
        TermStep::Resize(s) => assert_eq!((s.rows, s.cols), (24, 40)),
        _ => panic!("a resize comes first"),
    }
    match &term.steps[14] {
        TermStep::CheckCursor { stage } => assert_eq!(stage, "回到 80x24"),
        _ => panic!("the cursor is checked last"),
    }
    let mut one = TestTerm::new();
    resize_to(&mut one, 8, 20);
    match &one.steps[0] {
        TermStep::Resize(s) => assert_eq!((s.rows, s.cols, s.pixel_width), (8, 20, 160)),
        _ => panic!("only a resize"),
    }
}

#[test]
fn input_is_interleaved_with_resizes() {
    let mut plain = TestTerm::new();
    run_input_interleaved(&mut plain, false);
    let mut conpty = TestTerm::new();
    run_input_interleaved(&mut conpty, true);
    assert_eq!(conpty.steps.len(), plain.steps.len() + 1);
    assert!(matches!(conpty.steps[0], TermStep::EnableConptyQuirks));
    let mut typed = String::new();
    for step in &plain.steps[1..] {
        if let TermStep::Print(s) = step {
            typed.push_str(s);
        }
    }
    assert_eq!(typed, "PS TEST> in0-in1-in2-in3-in4-done\r\nCMD-OUTPUT-OK\r\n");
}

#[test]
fn a_violated_invariant_fails_with_a_dump() {
    assert!(assert_invariants(&laid_out(&["a"], 8), &texts(&["a"]), "初始").is_ok());
    match assert_invariants(&laid_out(&["a"], 8), &texts(&["b", "c"]), "初始") {
        Ok(()) => panic!("both payloads are lost"),
        Err(failure) => {
            assert_eq!(failure.message, "阶段 [初始] 不变量违规 2 项:\n  丢失: b\n  丢失: c");
            assert_eq!(failure.dump, vec!["--- 阶段 [初始] 逻辑行 dump ---", "  0: [a]"]);
        }
    }
    assert_eq!(number_lines(&texts(&["x", "y"])), vec!["  0: [x]", "  1: [y]"]);
}

#[test]
fn the_cursor_must_stay_on_the_screen() {
    assert!(assert_cursor_in_bounds(80, 0, 80, 24, "s").is_ok());
    assert!(assert_cursor_in_bounds(0, 23, 80, 24, "s").is_ok());
    assert_eq!(
        assert_cursor_in_bounds(81, 0, 80, 24, "s"),
        Err("阶段 [s] cursor.x=81 超出 cols=80".to_string())
    );
    assert_eq!(
        assert_cursor_in_bounds(0, 24, 80, 24, "s"),
        Err("阶段 [s] cursor.y=24 超出 rows=24".to_string())
    );
    assert_eq!(
        assert_cursor_in_bounds(0, -1, 80, 24, "s"),
        Err("阶段 [s] cursor.y=-1 超出 rows=24".to_string())
    );
}

#[test]
fn output_is_pumped_until_it_ends() {
    let mut pump = Pump::new();
    pump.begin_stage("初始");
    assert_eq!(pump.raw_log, "\n@@STAGE:初始@@\n".as_bytes());
    let mut got = 0;
    assert_eq!(pump.settle(&Received::Chunk(vec![1, 2, 3]), &mut got), PumpStep::Feed);
    assert_eq!(pump.settle(&Received::Timeout, &mut got), PumpStep::Continue);
    assert_eq!(pump.settle(&Received::Disconnected, &mut got), PumpStep::Stop);
    assert_eq!(got, 3);
    assert!(pump.raw_log.ends_with(&[1, 2, 3]));
}

#[test]
fn markers_are_awaited_with_patience() {
    let rows = laid_out(&["ready: @@X@@"], 80);
    assert!(matches!(Pump::wait_for_marker(&rows, "@@X@@", u128::MAX), WaitStep::Found));
    assert!(matches!(
        Pump::wait_for_marker(&rows, "@@Y@@", MARKER_TIMEOUT_NS),
        WaitStep::Receive
    ));
    match Pump::wait_for_marker(&rows, "@@Y@@", MARKER_TIMEOUT_NS + 1) {
        WaitStep::TimedOut(message) => assert_eq!(message, "等待 @@Y@@ 超时"),
        _ => panic!("the time is up"),
    }
    assert_eq!(Pump::disconnected("M"), "pty reader 在等待 M 时断开");
    match wait_for_prompt(&rows, "PROBE>", 30_000_000_001, 30) {
        WaitStep::TimedOut(message) => assert_eq!(message, "等待 PROBE> 提示符超时"),
        _ => panic!("the time is up"),
    }
    assert!(matches!(wait_for_prompt(&rows, "PROBE>", 30_000_000_000, 30), WaitStep::Receive));
    assert!(matches!(wait_for_prompt(&rows, "ready", 0, 30), WaitStep::Found));
    assert!(any_contains(&texts(&["a", "b"]), "b"));
    assert!(!any_contains(&texts(&["a", "b"]), "c"));
}

#[test]
fn the_command_line_is_read() {
    let args = |list: &[&str]| parse_args(&texts(list));
    match args(&["probe"]) {
        Ok(a) => assert!(
            !a.child && a.out_dir == "target/resize-verify" && !a.only_narrow && !a.gui_replay
        ),
        Err(_) => panic!("nothing is wrong"),
    }
    match args(&["probe", "--only-narrow", "--gui-replay", "--out-dir", "/x"]) {
        Ok(a) => assert!(a.only_narrow && a.gui_replay && a.out_dir == "/x"),
        Err(_) => panic!("nothing is wrong"),
    }
    match args(&["probe", "--out-dir"]) {
        Ok(_) => panic!("the path is missing"),
        Err(message) => assert_eq!(message, "--out-dir 需要一个路径参数"),
    }
    match args(&["probe", "--child", "--out-dir"]) {
        Ok(a) => assert!(a.child),
        Err(_) => panic!("the child looks at nothing else"),
    }
    assert_eq!(exit_code(ProbeResult::Passed), 0);
    assert_eq!(exit_code(ProbeResult::Violated), 1);
    assert_eq!(exit_code(ProbeResult::Broken), 2);
}

#[test]
fn stages_are_recorded() {
    let mut report = String::new();
    assert!(record_stage(&mut report, &laid_out(&["a"], 8), "一", &vec![]).is_none());
    assert_eq!(report, "\n===== 阶段 [一] PASS =====\n  --- 逻辑行 ---\n    0: [a]\n");
    let rows = vec![row("ab", true), row("c", false)];
    match record_stage(&mut report, &rows, "缩窄 80->40", &texts(&["丢失: x"])) {
        Some(snapshot) => {
            assert_eq!(snapshot.file_name, "screen-缩窄_80__40.txt");
            assert_eq!(snapshot.body, "  0: [ab]\n  1: [c]\n");
        }
        None => panic!("a violated stage is dumped"),
    }
    assert!(report.ends_with(
        "\n===== 阶段 [缩窄 80->40] FAIL =====\n  违规: 丢失: x\n  --- 逻辑行 ---\n    0: [abc]\n"
    ));
}

#[test]
fn a_run_fails_with_its_first_violation() {
    let payloads = texts(&["L01|short-01"]);
    let good = laid_out(&["L01|short-01", "TICK-001"], 80);
    let bad = laid_out(&["L01|short-01", "TICK-001", "TICK-001"], 80);
    assert_eq!(stage_violations(&bad, &payloads), vec!["重复: TICK-001"]);
    let mut run = Harness::new();
    assert!(run.baseline(&good, &payloads).is_none());
    let outcome = run.finish_stage(&good, &payloads, "缩窄 80->40", 12);
    assert_eq!(outcome.line, "[PASS] 缩窄 80->40 (ConPTY 重放 12 字节, 违规 0 项)");
    assert!(run.all_ok);
    assert_eq!(run.conclusion(), "== 结果: 全部通过 — ConPTY 交互层未检出内容异样 ==");
    let outcome = run.finish_stage(&bad, &payloads, "放宽 40->120", 0);
    assert_eq!(outcome.line, "[FAIL] 放宽 40->120 (ConPTY 重放 0 字节, 违规 1 项)");
    assert!(outcome.snapshot.is_some() && !run.all_ok);
    run.finish_scenario(Some(true));
    assert!(!run.all_ok);
    assert_eq!(
        run.conclusion(),
        "== 结果: 存在违规 — ConPTY 重放与模型 rewrap 的合成结果损坏了旧内容 =="
    );
    let mut broken = Harness::new();
    broken.finish_scenario(Some(true));
    assert!(broken.all_ok);
    broken.finish_scenario(None);
    assert!(!broken.all_ok);
    let mut lost = Harness::new();
    assert!(lost.baseline(&laid_out(&["x"], 8), &payloads).is_some());
    assert!(lost.report.starts_with("\n===== 阶段 [初始(resize 前)] FAIL ====="));
}

#[test]
fn the_main_run_has_its_stages() {
    let steps = harness();
    assert_eq!(steps.len(), 3 + 5 * 3 + 3 * (12 * 2 + 2));
    assert!(matches!(&steps[0], ProbeStep::WaitForMarker(m) if m == "@@FIXTURE-READY@@"));
    assert!(matches!(&steps[2], ProbeStep::CheckBaseline));
    assert!(matches!(&steps[3], ProbeStep::Resize { rows: 24, cols: 40 }));
    assert!(matches!(&steps[5], ProbeStep::CheckStage(s) if s == "缩窄 80->40"));
    assert!(matches!(
        &steps[steps.len() - 1],
        ProbeStep::CheckStage(s) if s == "风暴3：拖拽式连续 resize"
    ));
}

#[test]
fn a_storm_types_the_whole_command() {
    let typed = |steps: &[ProbeStep]| -> String {
        let mut out = String::new();
        for step in steps {
            if let ProbeStep::Keys(s) = step {
                out.push_str(s);
            }
        }
        out
    };
    for widths in [vec![1], vec![1, 2, 3], vec![5; 40]] {
        let steps = type_during_storm("echo 你好", 24, &widths);
        assert_eq!(typed(&steps), "echo 你好");
        assert_eq!(steps.len(), widths.len() * 3);
    }
    let steps = interactive_shell_scenario();
    assert_eq!(
        typed(&steps),
        "1..12 | % { 'HIST-{0:d2}' -f $_ }\recho ('MAR'+'KER-A1')\recho ('MAR'+'KER-B2')\r"
    );
    assert!(matches!(&steps[4], ProbeStep::Keys(s) if s == "ec"));
    assert!(matches!(&steps[5], ProbeStep::Resize { rows: 24, cols: 76 }));
}

#[test]
fn the_interactive_scenario_is_judged() {
    let history: Vec<String> = (1..=12).map(|i| format!("HIST-{i:02}")).collect();
    let mut lines: Vec<&str> = history.iter().map(|s| s.as_str()).collect();
    lines.push("PROBE> echo ('MAR'+'KER-A1')");
    lines.push("MARKER-A1");
    lines.push("PROBE> echo ('MAR'+'KER-B2')");
    lines.push("MARKER-B2");
    assert!(interactive_violations(&laid_out(&lines, 20)).is_empty());
    lines.push("MARKER-A1 ('MAR'+");
    lines.remove(15);
    assert_eq!(
        interactive_violations(&laid_out(&lines, 80)),
        vec![
            "输出 MARKER-A1 出现 2 次（期望 1：输入被错乱执行或输出被复制/丢弃）",
            "对照输出 MARKER-B2 出现 0 次（期望 1）",
            "含命令回显片段 ('MAR'+ 的逻辑行 3 行（期望 2：输入行存在叠影残留或被吞）",
        ]
    );
    assert!(scenario_passed(&vec![]) && !scenario_passed(&texts(&["丢失: x"])));
    assert_eq!(scenario_verdict("交互输入场景", 3), "[FAIL] 交互输入场景 (违规 3 项)");
    assert_eq!(scenario_verdict("交互输入场景", 0), "[PASS] 交互输入场景 (违规 0 项)");
}

#[test]
fn the_narrow_scenario_goes_down_and_up() {
    let plan = narrow_then_type_scenario(false);
    assert_eq!((plan.rows, plan.cols), (24, 80));
    assert_eq!(plan.name, "缩窄后输入场景");
    assert_eq!(plan.prompt_tail, "ABCDEFGH> ");
    assert!(matches!(&plan.steps[0], ProbeStep::WaitForMarker(m) if m == "ABCDEFGH>"));
    let widths: Vec<usize> = plan
        .steps
        .iter()
        .filter_map(|s| match s {
            ProbeStep::Resize { cols, .. } => Some(*cols),
            _ => None,
        })
        .collect();
    let mut expected: Vec<usize> = (26..=76).rev().step_by(2).collect();
    expected.extend((28..=56).step_by(2));
    assert_eq!(widths, expected);

    let replay = narrow_then_type_scenario(true);
    assert_eq!((replay.rows, replay.cols), (30, 100));
    assert_eq!(replay.prompt_command, "function prompt { 'PROBE-GH> ' }");
    assert_eq!(replay.name, "GUI重放:缩窄放宽后输入");
    assert!(matches!(
        &replay.steps[5],
        ProbeStep::RacedResize { rows: 30, cols: 27, window_ms: 300, poll_ms: 20 }
    ));
    assert!(matches!(&replay.steps[7], ProbeStep::RacedResize { cols: 69, .. }));
    assert_eq!(narrow_closing_steps().len(), 3);
}

#[test]
fn typed_text_must_stay_in_one_piece() {
    let mut typing = Typing::new("P> ".to_string());
    assert_eq!(typing.next_char(), Some('e'));
    assert!(typing.observe(&laid_out(&["P> e"], 3)).is_none());
    assert_eq!(typing.next_char(), Some('c'));
    let torn = vec![row("P> e", false), row("c", false)];
    assert_eq!(
        typing.observe(&torn),
        Some("输入第 2 个字符后前缀断裂：期望连续文本 [P> ec] 不存在".to_string())
    );
    assert_eq!(typing.next_char(), None);

    let mut whole = Typing::new(String::new());
    let mut text = String::new();
    while let Some(c) = whole.next_char() {
        text.push(c);
        assert!(whole.observe(&laid_out(&[text.as_str()], 80)).is_none());
    }
    assert_eq!(text, "echo ('MAR'+'KER-C3')");
}

#[test]
fn the_narrow_scenario_is_judged() {
    let rows: Vec<String> = (1..=30).map(|i| format!("ROW-{i:02}-{}", "x".repeat(66))).collect();
    let mut lines: Vec<&str> = rows.iter().map(|s| s.as_str()).collect();
    lines.push("MARKER-C3");
    assert!(narrow_violations(&laid_out(&lines, 27)).is_empty());
    lines.remove(14);
    lines.pop();
    assert_eq!(
        narrow_violations(&laid_out(&lines, 80)),
        vec![
            "输出 MARKER-C3 出现 0 次（期望 1：输入被错乱执行）",
            "历史行 ROW-15- 出现 0 次（期望 1）",
        ]
    );
}

#[test]
fn traces_are_written_as_they_should() {
    assert_eq!(
        resize_trace(76, 3, -1, 24, 120),
        "cols= 76 cursor=(3,-1) lines=24 recv=120\n"
    );
    assert_eq!(
        race_trace(27, 0, 9, 0),
        "race cols= 27 cursor=(0,9) pre-resize-recv=0\n"
    );
}
