//! The text that the resize checks print before they resize: short numbered
//! lines, one long ASCII line, one long line of wide characters, and a tail
//! marker.

use vstd::prelude::*;
use crate::text;
use crate::violations;

verus! {

/// `unit` written `n` times.
pub open spec fn repeated(unit: Seq<char>, n: nat) -> Seq<char>
    decreases n,
{
    if n == 0 {
        seq![]
    } else {
        repeated(unit, (n - 1) as nat) + unit
    }
}

/// The short line number `i`.
pub open spec fn short_payload(i: nat) -> Seq<char> {
    "L"@ + text::zero_padded(i, 2) + "|short-"@ + text::zero_padded(i, 2)
}

/// The first `n` segments of the long ASCII line.
pub open spec fn ascii_segments(n: nat) -> Seq<char>
    decreases n,
{
    if n == 0 {
        seq![]
    } else {
        ascii_segments((n - 1) as nat) + "SEG"@ + text::zero_padded((n - 1) as nat, 2)
            + "-abcdefghij."@
    }
}

/// All lines of the fixture, from top to bottom.
pub open spec fn payload_texts() -> Seq<Seq<char>> {
    Seq::new(6, |i: int| short_payload((i + 1) as nat)) + seq![
        "L07|"@ + ascii_segments(12),
        "L08|"@ + repeated("中文宽字符换行校验一二三四五六七八九十"@, 4),
        "L09|TAIL-MARKER"@,
    ]
}

/// `lines` as they are printed, each ended by carriage return and line feed.
pub open spec fn printed(lines: Seq<Seq<char>>) -> Seq<char>
    decreases lines.len(),
{
    if lines.len() == 0 {
        seq![]
    } else {
        printed(lines.drop_last()) + lines.last() + "\r\n"@
    }
}

/// The text of tick number `n`.
pub open spec fn tick_payload(n: nat) -> Seq<char> {
    "TICK-"@ + text::zero_padded(n, 3)
}

/// `unit` written `n` times.
pub fn repeat(unit: &str, n: usize) -> (r: String)
    ensures
        r@ == repeated(unit@, n as nat),
{
    let mut out = String::new();
    for i in 0..n
        invariant
            out@ == repeated(unit@, i as nat),
    {
        out.append(unit);
    }
    out
}

/// The text of tick number `n`.
pub fn tick(n: usize) -> (r: String)
    ensures
        r@ == tick_payload(n as nat),
{
    let mut out = "TICK-".to_owned();
    out.append(text::zero_padded_text(n as u64, 3).as_str());
    out
}

/// `line` as it is printed.
pub fn line_of(line: &str) -> (r: String)
    ensures
        r@ == line@ + "\r\n"@,
{
    let mut out = line.to_owned();
    out.append("\r\n");
    out
}

/// The long ASCII line without its number.
fn long_ascii() -> (r: String)
    ensures
        r@ == ascii_segments(12),
{
    let mut out = String::new();
    for i in 0..12usize
        invariant
            out@ == ascii_segments(i as nat),
    {
        out.append("SEG");
        out.append(text::zero_padded_text(i as u64, 2).as_str());
        out.append("-abcdefghij.");
    }
    out
}

/// The lines of the fixture.
pub fn fixture_payloads() -> (r: Vec<String>)
    ensures
        text::texts(r@) == payload_texts(),
{
    let mut out: Vec<String> = Vec::new();
    for i in 0..6usize
        invariant
            out@.len() == i,
            forall|j: int| 0 <= j < i ==> #[trigger] out@[j]@ == short_payload((j + 1) as nat),
    {
        let mut line = "L".to_owned();
        line.append(text::zero_padded_text(i as u64 + 1, 2).as_str());
        line.append("|short-");
        line.append(text::zero_padded_text(i as u64 + 1, 2).as_str());
        out.push(line);
    }
    let mut ascii = "L07|".to_owned();
    ascii.append(long_ascii().as_str());
    out.push(ascii);
    let mut wide = "L08|".to_owned();
    wide.append(repeat("中文宽字符换行校验一二三四五六七八九十", 4).as_str());
    out.push(wide);
    out.push("L09|TAIL-MARKER".to_owned());
    assert(text::texts(out@) =~= payload_texts());
    out
}

/// The fixture as one text to print, and its lines for checking.
pub fn build_fixture() -> (r: (String, Vec<String>))
    ensures
        text::texts(r.1@) == payload_texts(),
        r.0@ == printed(payload_texts()),
{
    let payloads = fixture_payloads();
    let mut out = String::new();
    let ghost all = text::texts(payloads@);
    for i in 0..payloads.len()
        invariant
            all == text::texts(payloads@),
            out@ == printed(all.take(i as int)),
    {
        assert(all.take(i + 1).drop_last() =~= all.take(i as int));
        out.append(payloads[i].as_str());
        out.append("\r\n");
    }
    assert(all.take(payloads@.len() as int) =~= all);
    (out, payloads)
}

/// Whether `text` holds no bar.
spec fn no_bar(text: Seq<char>) -> bool {
    forall|i: int| 0 <= i < text.len() ==> #[trigger] text[i] != '|'
}

/// Whether `line` begins with a letter, a zero, the digit `d` and a bar, and holds
/// no other bar.
spec fn numbered(line: Seq<char>, d: nat) -> bool {
    &&& line.len() > 3
    &&& line[2] == text::digit_char(d)
    &&& line[3] == '|'
    &&& forall|i: int| 0 <= i < line.len() && i != 3 ==> #[trigger] line[i] != '|'
}

/// Numbers hold no bar.
proof fn numbers_hold_no_bar(n: nat)
    ensures
        no_bar(text::decimal(n)),
        no_bar(text::zero_padded(n, 2)),
    decreases n,
{
    if n >= 10 {
        numbers_hold_no_bar(n / 10);
    }
}

/// The long ASCII line holds no bar behind its number.
proof fn segments_hold_no_bar(n: nat)
    ensures
        no_bar(ascii_segments(n)),
    decreases n,
{
    if n > 0 {
        segments_hold_no_bar((n - 1) as nat);
        numbers_hold_no_bar((n - 1) as nat);
        reveal_strlit("SEG");
        reveal_strlit("-abcdefghij.");
    }
}

/// What holds no bar holds none however often it is written.
proof fn repetitions_hold_no_bar(unit: Seq<char>, n: nat)
    requires
        no_bar(unit),
    ensures
        no_bar(repeated(unit, n)),
    decreases n,
{
    if n > 0 {
        repetitions_hold_no_bar(unit, (n - 1) as nat);
    }
}

/// Every line of the fixture has its number in front, and a bar only behind it.
proof fn lines_are_numbered(k: int)
    requires
        0 <= k < 9,
    ensures
        payload_texts().len() == 9,
        numbered(payload_texts()[k], (k + 1) as nat),
{
    let line = payload_texts()[k];
    if k < 6 {
        let i = (k + 1) as nat;
        assert(line == short_payload(i));
        reveal_strlit("L");
        reveal_strlit("|short-");
        numbers_hold_no_bar(i);
        assert(text::decimal(i) =~= seq![text::digit_char(i)]);
        assert(text::zero_padded(i, 2) =~= seq!['0', text::digit_char(i)]);
    } else if k == 6 {
        reveal_strlit("L07|");
        segments_hold_no_bar(12);
    } else if k == 7 {
        reveal_strlit("L08|");
        reveal_strlit("中文宽字符换行校验一二三四五六七八九十");
        repetitions_hold_no_bar("中文宽字符换行校验一二三四五六七八九十"@, 4);
    } else {
        reveal_strlit("L09|TAIL-MARKER");
    }
}

/// No line of the fixture is part of another, so that each can be counted.
pub proof fn no_payload_is_part_of_another(i: int, k: int)
    requires
        0 <= i < payload_texts().len(),
        0 <= k < payload_texts().len(),
        i != k,
    ensures
        !text::contains_text(payload_texts()[i], payload_texts()[k]),
{
    let hay = payload_texts()[i];
    let needle = payload_texts()[k];
    lines_are_numbered(0);
    lines_are_numbered(i);
    lines_are_numbered(k);
    assert forall|at: int| !text::occurs_at(hay, needle, at) by {
        if text::occurs_at(hay, needle, at) {
            let part = hay.subrange(at, at + needle.len());
            assert(part[3] == hay[at + 3]);
            assert(part[2] == hay[at + 2]);
            assert(at + 3 == 3);
        }
    }
}

/// A screen that shows the fixture, and nothing else, passes the check.
pub proof fn the_printed_fixture_is_intact(flat: Seq<char>)
    ensures
        violations::intact(payload_texts(), flat, payload_texts()),
        violations::findings(
            payload_texts(),
            flat,
            payload_texts(),
            payload_texts().len() as int,
        ).len() == 0,
{
    lines_are_numbered(0);
    assert forall|k: int| 0 <= k < payload_texts().len() implies (
    #[trigger] payload_texts()[k]).len() > 0 by {
        lines_are_numbered(k);
    }
    assert forall|i: int, k: int|
        0 <= i < payload_texts().len() && 0 <= k < payload_texts().len() && i != k implies
        !#[trigger] text::contains_text(payload_texts()[i], payload_texts()[k]) by {
        no_payload_is_part_of_another(i, k);
    }
    violations::printed_payloads_are_intact(payload_texts(), flat);
}

/// A text that is written over and over is as long as that many of it, and each of them
/// stands in it.
pub proof fn repetitions_stand_in_a_row(unit: Seq<char>, n: nat, k: nat)
    requires
        k < n,
    ensures
        repeated(unit, n).len() == n * unit.len(),
        (k + 1) * unit.len() <= n * unit.len(),
        repeated(unit, n).subrange((k * unit.len()) as int, ((k + 1) * unit.len()) as int) == unit,
    decreases n,
{
    let m = (n - 1) as nat;
    let len = unit.len() as int;
    assert(n * len == m * len + len) by (nonlinear_arith)
        requires
            n == m + 1,
    ;
    assert((k + 1) * len == k * len + len) by (nonlinear_arith);
    assert(0 <= k * len && k * len <= m * len) by (nonlinear_arith)
        requires
            0 <= k <= m,
            0 <= len,
    ;
    if m == 0 {
        assert(repeated(unit, 0).len() == 0);
        assert(0 * len == 0);
    } else {
        repetitions_stand_in_a_row(unit, m, if k < m {
            k
        } else {
            0
        });
    }
    let all = repeated(unit, n);
    if k == m {
        assert(all.subrange((k * len) as int, ((k + 1) * len) as int) =~= unit);
    } else {
        let front = repeated(unit, m);
        assert(((k + 1) * len) <= front.len());
        assert(all.subrange((k * len) as int, ((k + 1) * len) as int) =~= front.subrange(
            (k * len) as int,
            ((k + 1) * len) as int,
        ));
    }
}

/// Lines are printed one by one, each with its line end.
pub proof fn lines_are_printed_one_by_one(lines: Seq<Seq<char>>, line: Seq<char>)
    ensures
        printed(lines.push(line)) == printed(lines) + (line + "\r\n"@),
        printed(seq![]).len() == 0,
{
    assert(lines.push(line).drop_last() =~= lines);
    assert(printed(lines.push(line)) =~= printed(lines) + (line + "\r\n"@));
}

/// Every line of the fixture begins with its number in two digits and a bar.
pub proof fn every_line_has_its_number(k: int)
    requires
        0 <= k < 9,
    ensures
        payload_texts().len() == 9,
        payload_texts()[k].len() > 4,
        payload_texts()[k][0] == 'L',
        payload_texts()[k][1] == '0',
        payload_texts()[k][2] as int == 49 + k,
        payload_texts()[k][3] == '|',
{
    lines_are_numbered(k);
    reveal_strlit("L");
    reveal_strlit("|short-");
    reveal_strlit("L07|");
    reveal_strlit("L08|");
    reveal_strlit("L09|TAIL-MARKER");
    reveal_strlit("SEG");
    reveal_strlit("中文宽字符换行校验一二三四五六七八九十");
    if k < 6 {
        let i = (k + 1) as nat;
        assert(payload_texts()[k] == short_payload(i));
        assert(text::decimal(i) =~= seq![text::digit_char(i)]);
        assert(text::zero_padded(i, 2) =~= seq!['0', text::digit_char(i)]);
    } else if k == 6 {
        assert(ascii_segments(12).len() > 0);
    } else if k == 7 {
        let unit = "中文宽字符换行校验一二三四五六七八九十"@;
        repetitions_stand_in_a_row(unit, 4, 0);
        assert(4 * unit.len() > 0);
    }
}

/// The short lines say their number twice, and the long ones go on for so long: twelve
/// numbered segments, and a text of wide characters four times over.
pub proof fn lines_say_what_they_are(k: nat)
    requires
        1 <= k <= 6,
    ensures
        payload_texts()[k - 1] == "L"@ + text::zero_padded(k, 2) + "|short-"@ + text::zero_padded(
            k,
            2,
        ),
        payload_texts()[6].skip(4) == ascii_segments(12),
        payload_texts()[7].skip(4) == repeated("中文宽字符换行校验一二三四五六七八九十"@, 4),
        payload_texts()[8] == "L09|TAIL-MARKER"@,
{
    reveal_strlit("L07|");
    reveal_strlit("L08|");
    assert(payload_texts()[6].skip(4) =~= ascii_segments(12));
    assert(payload_texts()[7].skip(4) =~= repeated("中文宽字符换行校验一二三四五六七八九十"@, 4));
}

/// The segments of the long line are numbered from zero on, one after the other.
pub proof fn segments_are_numbered(n: nat)
    ensures
        ascii_segments(n + 1) == ascii_segments(n) + ("SEG"@ + text::zero_padded(n, 2)
            + "-abcdefghij."@),
        ascii_segments(0).len() == 0,
{
    assert(ascii_segments(n + 1) =~= ascii_segments(n) + ("SEG"@ + text::zero_padded(n, 2)
        + "-abcdefghij."@));
}

} // verus!
