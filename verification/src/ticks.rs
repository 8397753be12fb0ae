//! Checks on the counted output of the probe: tick lines that scroll by while
//! the window is resized, and markers that must appear a known number of times.

use vstd::prelude::*;
use crate::screen;
use crate::screen::{logical_lines, PhysicalLine};
use crate::text;

verus! {

/// Whether `c` is an ASCII digit.
pub open spec fn is_digit(c: char) -> bool {
    '0' as int <= c as int <= '9' as int
}

/// How many ASCII digits stand in a row from position `i`.
pub open spec fn digit_run(line: Seq<char>, i: int) -> nat
    decreases line.len() - i,
{
    if 0 <= i < line.len() && is_digit(line[i]) {
        1 + digit_run(line, i + 1)
    } else {
        0
    }
}

/// The number written by the three digits from position `i`.
pub open spec fn three_digits(line: Seq<char>, i: int) -> int {
    100 * (line[i] as int - '0' as int) + 10 * (line[i + 1] as int - '0' as int) + (line[i + 2]
        as int - '0' as int)
}

/// The tick numbers of a line from position `i` on. A mark that is not followed
/// by exactly three digits is cut off or fused with other text and is skipped.
pub open spec fn ticks_from(line: Seq<char>, i: int) -> Seq<int>
    decreases line.len() - i,
{
    if i + 5 > line.len() {
        seq![]
    } else if text::occurs_at(line, "TICK-"@, i) {
        (if digit_run(line, i + 5) == 3 {
            seq![three_digits(line, i + 5)]
        } else {
            seq![]
        }) + ticks_from(line, i + 5)
    } else {
        ticks_from(line, i + 1)
    }
}

/// The tick numbers of a list of lines, from top to bottom.
pub open spec fn all_ticks(lines: Seq<Seq<char>>) -> Seq<int>
    decreases lines.len(),
{
    if lines.len() == 0 {
        seq![]
    } else {
        all_ticks(lines.drop_last()) + ticks_from(lines.last(), 0)
    }
}

/// The distinct numbers among the first `k` ticks, in the order of their first
/// appearance.
pub open spec fn seen(ticks: Seq<int>, k: int) -> Seq<int>
    decreases k,
{
    if k <= 0 {
        seq![]
    } else if seen(ticks, k - 1).contains(ticks[k - 1]) {
        seen(ticks, k - 1)
    } else {
        seen(ticks, k - 1).push(ticks[k - 1])
    }
}

/// The report on tick `k`: it was seen before, or it is smaller than the one
/// seen last.
pub open spec fn tick_finding(ticks: Seq<int>, k: int) -> Option<Seq<char>> {
    let before = seen(ticks, k);
    let n = ticks[k];
    if before.contains(n) {
        Some("重复: TICK-"@ + text::zero_padded(n as nat, 3))
    } else if before.len() > 0 && n < before.last() {
        Some(
            "错序: TICK-"@ + text::zero_padded(n as nat, 3) + " 出现在 TICK-"@ + text::zero_padded(
                before.last() as nat,
                3,
            ) + " 之后"@,
        )
    } else {
        None
    }
}

/// The reports on the first `k` ticks.
pub open spec fn tick_texts(ticks: Seq<int>, k: int) -> Seq<Seq<char>>
    decreases k,
{
    if k <= 0 {
        seq![]
    } else {
        match tick_finding(ticks, k - 1) {
            Some(t) => tick_texts(ticks, k - 1).push(t),
            None => tick_texts(ticks, k - 1),
        }
    }
}

/// How many disjoint matches of `needle` the lines hold together.
pub open spec fn occurrences(lines: Seq<Seq<char>>, needle: Seq<char>) -> nat
    decreases lines.len(),
{
    if lines.len() == 0 {
        0
    } else {
        occurrences(lines.drop_last(), needle) + text::match_count(lines.last(), needle)
    }
}

/// How many lines contain `needle`.
pub open spec fn lines_containing(lines: Seq<Seq<char>>, needle: Seq<char>) -> nat
    decreases lines.len(),
{
    if lines.len() == 0 {
        0
    } else {
        lines_containing(lines.drop_last(), needle) + (if text::contains_text(
            lines.last(),
            needle,
        ) {
            1nat
        } else {
            0nat
        })
    }
}

/// How many ASCII digits stand in a row from position `at`, but at most four.
fn digits_from(line: &Vec<char>, at: usize) -> (r: usize)
    requires
        at <= line@.len(),
    ensures
        r <= 4,
        r < 4 ==> r == digit_run(line@, at as int),
        r == 4 ==> digit_run(line@, at as int) >= 4,
        forall|j: int| 0 <= j < r ==> is_digit(#[trigger] line@[at + j]),
        at + r <= line@.len(),
{
    let mut n: usize = 0;
    while n < 4 && n < line.len() - at && line[at + n] >= '0' && line[at + n] <= '9'
        invariant
            n <= 4,
            at + n <= line@.len(),
            forall|j: int| 0 <= j < n ==> is_digit(#[trigger] line@[at + j]),
            digit_run(line@, at as int) == n + digit_run(line@, at + n),
        decreases 4 - n,
    {
        n += 1;
    }
    n
}

/// The value of an ASCII digit.
fn digit_value(c: char) -> (r: u32)
    requires
        is_digit(c),
    ensures
        r == c as int - '0' as int,
        r <= 9,
{
    c as u32 - '0' as u32
}

/// The tick numbers of one line.
fn ticks_of(line: &str) -> (r: Vec<u32>)
    ensures
        r@.map_values(|n: u32| n as int) == ticks_from(line@, 0),
        forall|j: int| 0 <= j < r@.len() ==> r@[j] <= 999,
{
    let chars = text::chars_of(line);
    let mark = text::chars_of("TICK-");
    let mut out: Vec<u32> = Vec::new();
    let mut i: usize = 0;
    proof {
        reveal_strlit("TICK-");
        assert(out@.map_values(|n: u32| n as int) + ticks_from(line@, 0) =~= ticks_from(line@, 0));
    }
    while i < chars.len() && 5 <= chars.len() - i
        invariant
            chars@ == line@,
            mark@ == "TICK-"@,
            mark@.len() == 5,
            i <= chars@.len(),
            ticks_from(line@, 0) == out@.map_values(|n: u32| n as int) + ticks_from(
                line@,
                i as int,
            ),
            forall|j: int| 0 <= j < out@.len() ==> out@[j] <= 999,
        decreases chars@.len() - i,
    {
        if text::stands_at(&chars, &mark, i) {
            let ghost before = out@.map_values(|n: u32| n as int);
            let ghost rest = ticks_from(line@, i + 5);
            let n = digits_from(&chars, i + 5);
            if n == 3 {
                assert(is_digit(chars@[i + 5 + 0]));
                assert(is_digit(chars@[i + 5 + 1]));
                assert(is_digit(chars@[i + 5 + 2]));
                let value: u32 = 100 * digit_value(chars[i + 5]) + 10 * digit_value(chars[i + 6])
                    + digit_value(chars[i + 7]);
                out.push(value);
                proof {
                    assert(out@.map_values(|n: u32| n as int) =~= before.push(value as int));
                    assert(before.push(value as int) + rest =~= before + (seq![value as int]
                        + rest));
                }
            } else {
                assert(Seq::<int>::empty() + rest =~= rest);
            }
            i += 5;
        } else {
            i += 1;
        }
    }
    assert(out@.map_values(|n: u32| n as int) + seq![] =~= out@.map_values(|n: u32| n as int));
    out
}

/// The tick numbers of all lines, from top to bottom.
fn ticks_of_lines(lines: &Vec<String>) -> (r: Vec<u32>)
    ensures
        r@.map_values(|n: u32| n as int) == all_ticks(text::texts(lines@)),
{
    let mut out: Vec<u32> = Vec::new();
    let ghost all = text::texts(lines@);
    assert(out@.map_values(|n: u32| n as int) =~= seq![]);
    for i in 0..lines.len()
        invariant
            all == text::texts(lines@),
            out@.map_values(|n: u32| n as int) == all_ticks(all.take(i as int)),
    {
        let ghost before = out@.map_values(|n: u32| n as int);
        let mut more = ticks_of(lines[i].as_str());
        let ghost added = more@.map_values(|n: u32| n as int);
        out.append(&mut more);
        proof {
            assert(out@.map_values(|n: u32| n as int) =~= before + added);
            assert(all.take(i + 1).drop_last() =~= all.take(i as int));
        }
    }
    assert(all.take(lines@.len() as int) =~= all);
    out
}

/// Whether `n` is in `list`.
fn has(list: &Vec<u32>, n: u32) -> (r: bool)
    ensures
        r == list@.map_values(|n: u32| n as int).contains(n as int),
{
    for i in 0..list.len()
        invariant
            forall|j: int| 0 <= j < i ==> list@[j] != n,
    {
        if list[i] == n {
            assert(list@.map_values(|n: u32| n as int)[i as int] == n as int);
            return true;
        }
    }
    false
}

/// The reports on the tick lines of a buffer: every number may appear once, and
/// the numbers must grow from top to bottom.
pub fn tick_violations(lines: &Vec<PhysicalLine>) -> (r: Vec<String>)
    ensures
        text::texts(r@) == ({
            let ticks = all_ticks(screen::logical(screen::rows(lines@)));
            tick_texts(ticks, ticks.len() as int)
        }),
{
    let ticks = ticks_of_lines(&logical_lines(lines));
    let ghost ns = ticks@.map_values(|n: u32| n as int);
    let mut known: Vec<u32> = Vec::new();
    let mut out: Vec<String> = Vec::new();
    assert(known@.map_values(|n: u32| n as int) =~= seq![]);
    assert(text::texts(out@) =~= seq![]);
    for k in 0..ticks.len()
        invariant
            ns == ticks@.map_values(|n: u32| n as int),
            known@.map_values(|n: u32| n as int) == seen(ns, k as int),
            text::texts(out@) == tick_texts(ns, k as int),
    {
        let n = ticks[k];
        let ghost known_before = known@.map_values(|n: u32| n as int);
        let ghost out_before = text::texts(out@);
        if has(&known, n) {
            let mut report = "重复: TICK-".to_owned();
            report.append(text::zero_padded_text(n as u64, 3).as_str());
            out.push(report);
            assert(text::texts(out@) =~= out_before.push(report@));
        } else {
            if known.len() > 0 && n < known[known.len() - 1] {
                let last = known[known.len() - 1];
                let mut report = "错序: TICK-".to_owned();
                report.append(text::zero_padded_text(n as u64, 3).as_str());
                report.append(" 出现在 TICK-");
                report.append(text::zero_padded_text(last as u64, 3).as_str());
                report.append(" 之后");
                out.push(report);
                assert(text::texts(out@) =~= out_before.push(report@));
            }
            known.push(n);
            assert(known@.map_values(|n: u32| n as int) =~= known_before.push(n as int));
        }
        assert(text::texts(out@) =~= tick_texts(ns, k + 1));
    }
    out
}

/// How often `needle` stands in the lines altogether; a line may hold it
/// several times.
pub fn count_occurrences(lines: &Vec<String>, needle: &str) -> (r: usize)
    requires
        occurrences(text::texts(lines@), needle@) <= usize::MAX,
    ensures
        r == occurrences(text::texts(lines@), needle@),
{
    let ghost all = text::texts(lines@);
    let mut total: usize = 0;
    for i in 0..lines.len()
        invariant
            all == text::texts(lines@),
            occurrences(all, needle@) <= usize::MAX,
            total == occurrences(all.take(i as int), needle@),
    {
        proof {
            assert(all.take(i + 1).drop_last() =~= all.take(i as int));
            occurrences_of_a_prefix(all, needle@, i + 1);
        }
        total += text::count_matches(lines[i].as_str(), needle);
    }
    assert(all.take(lines@.len() as int) =~= all);
    total
}

/// How many lines contain `needle`.
pub fn count_lines_containing(lines: &Vec<String>, needle: &str) -> (r: usize)
    ensures
        r == lines_containing(text::texts(lines@), needle@),
{
    let ghost all = text::texts(lines@);
    let mut total: usize = 0;
    for i in 0..lines.len()
        invariant
            all == text::texts(lines@),
            total <= i,
            total == lines_containing(all.take(i as int), needle@),
    {
        assert(all.take(i + 1).drop_last() =~= all.take(i as int));
        if text::contains(lines[i].as_str(), needle) {
            total += 1;
        }
    }
    assert(all.take(lines@.len() as int) =~= all);
    total
}

/// The lines above hold no more matches than all lines together.
proof fn occurrences_of_a_prefix(lines: Seq<Seq<char>>, needle: Seq<char>, k: int)
    requires
        0 <= k <= lines.len(),
    ensures
        occurrences(lines.take(k), needle) <= occurrences(lines, needle),
    decreases lines.len(),
{
    if k < lines.len() {
        occurrences_of_a_prefix(lines.drop_last(), needle, k);
        assert(lines.drop_last().take(k) =~= lines.take(k));
    } else {
        assert(lines.take(k) =~= lines);
    }
}

/// Matches add up over the parts of a buffer: none is counted across a line
/// end, none is lost.
pub proof fn occurrences_add_up(
    above: Seq<Seq<char>>,
    below: Seq<Seq<char>>,
    needle: Seq<char>,
)
    ensures
        occurrences(above + below, needle) == occurrences(above, needle) + occurrences(
            below,
            needle,
        ),
    decreases below.len(),
{
    if below.len() == 0 {
        assert(above + below =~= above);
    } else {
        occurrences_add_up(above, below.drop_last(), needle);
        assert((above + below).drop_last() =~= above + below.drop_last());
    }
}

/// Some of the first `k` ticks have a report exactly if one of them has.
proof fn no_tick_texts_means_none(ticks: Seq<int>, k: int)
    requires
        0 <= k <= ticks.len(),
    ensures
        tick_texts(ticks, k).len() == 0 <==> (forall|j: int|
            0 <= j < k ==> #[trigger] tick_finding(ticks, j) is None),
    decreases k,
{
    if k > 0 {
        no_tick_texts_means_none(ticks, k - 1);
        if tick_texts(ticks, k).len() == 0 {
            assert(tick_finding(ticks, k - 1) is None);
        }
    }
}

/// Whether the first `k` ticks grow strictly.
pub open spec fn growing(ticks: Seq<int>, k: int) -> bool {
    forall|i: int, j: int| 0 <= i < j < k ==> #[trigger] ticks[i] < #[trigger] ticks[j]
}

/// Growing ticks are all distinct, so all of them have been seen.
proof fn growing_ticks_are_all_seen(ticks: Seq<int>, k: int)
    requires
        0 <= k <= ticks.len(),
        growing(ticks, k),
    ensures
        seen(ticks, k) == ticks.take(k),
    decreases k,
{
    if k > 0 {
        growing_ticks_are_all_seen(ticks, k - 1);
        assert(!ticks.take(k - 1).contains(ticks[k - 1]));
        assert(ticks.take(k) =~= ticks.take(k - 1).push(ticks[k - 1]));
    } else {
        assert(ticks.take(0) =~= seq![]);
    }
}

/// Ticks without a report grow strictly.
proof fn quiet_ticks_grow(ticks: Seq<int>, k: int)
    requires
        0 <= k <= ticks.len(),
        forall|j: int| 0 <= j < k ==> #[trigger] tick_finding(ticks, j) is None,
    ensures
        growing(ticks, k),
    decreases k,
{
    if k > 0 {
        quiet_ticks_grow(ticks, k - 1);
        growing_ticks_are_all_seen(ticks, k - 1);
        assert(tick_finding(ticks, k - 1) is None);
        assert forall|i: int, j: int| 0 <= i < j < k implies #[trigger] ticks[i]
            < #[trigger] ticks[j] by {
            if j == k - 1 {
                let before = ticks.take(k - 1);
                assert(before[i] == ticks[i]);
                assert(before.last() == ticks[k - 2]);
                assert(before.contains(before.last()));
                assert(ticks[k - 2] != ticks[k - 1]);
            }
        }
    }
}

/// The tick check says nothing exactly when the numbers grow strictly from top
/// to bottom: none repeated, none out of order.
pub proof fn no_tick_violations_iff_growing(ticks: Seq<int>)
    ensures
        tick_texts(ticks, ticks.len() as int).len() == 0 <==> growing(ticks, ticks.len() as int),
{
    let n = ticks.len() as int;
    no_tick_texts_means_none(ticks, n);
    if tick_texts(ticks, n).len() == 0 {
        quiet_ticks_grow(ticks, n);
    }
    if growing(ticks, n) {
        assert forall|j: int| 0 <= j < n implies #[trigger] tick_finding(ticks, j) is None by {
            growing_ticks_are_all_seen(ticks, j);
            let before = ticks.take(j);
            assert(!before.contains(ticks[j]));
            if j > 0 {
                assert(before.last() == ticks[j - 1]);
            }
        }
    }
}

/// Lines hold no match exactly if none of them contains the needle.
pub proof fn no_occurrences_means_nowhere(lines: Seq<Seq<char>>, needle: Seq<char>)
    ensures
        occurrences(lines, needle) == 0 <==> (forall|i: int|
            0 <= i < lines.len() ==> !#[trigger] text::contains_text(lines[i], needle)),
    decreases lines.len(),
{
    if lines.len() > 0 {
        let above = lines.drop_last();
        no_occurrences_means_nowhere(above, needle);
        text::matches_are_contained(lines.last(), needle);
        assert forall|i: int| 0 <= i < above.len() implies above[i] == #[trigger] lines[i] by {}
        if forall|i: int| 0 <= i < lines.len() ==> !#[trigger] text::contains_text(lines[i], needle) {
            assert(!text::contains_text(lines[lines.len() - 1], needle));
            assert forall|i: int| 0 <= i < above.len() implies !#[trigger] text::contains_text(
                above[i],
                needle,
            ) by {
                assert(!text::contains_text(lines[i], needle));
            }
        }
        if occurrences(lines, needle) == 0 {
            assert forall|i: int| 0 <= i < lines.len() implies !#[trigger] text::contains_text(
                lines[i],
                needle,
            ) by {
                if i < above.len() {
                    assert(!text::contains_text(above[i], needle));
                }
            }
        }
    }
}

/// Lines hold no more matches than they have characters and line ends.
pub proof fn occurrences_fit_the_buffer(lines: Seq<Seq<char>>, needle: Seq<char>)
    ensures
        occurrences(lines, needle) <= text::total_len(lines) + lines.len(),
    decreases lines.len(),
{
    if lines.len() > 0 {
        occurrences_fit_the_buffer(lines.drop_last(), needle);
        if needle.len() > 0 {
            text::matches_fit_the_text(lines.last(), needle);
        }
    }
}

/// Lines hold no more matches of a non-empty needle than characters.
pub proof fn occurrences_fit_the_lines(lines: Seq<Seq<char>>, needle: Seq<char>)
    requires
        needle.len() > 0,
    ensures
        occurrences(lines, needle) <= text::total_len(lines),
    decreases lines.len(),
{
    if lines.len() > 0 {
        occurrences_fit_the_lines(lines.drop_last(), needle);
        text::matches_fit_the_text(lines.last(), needle);
    }
}

/// The number of a tick is written in three digits, and no other three digits spell
/// it.
proof fn tick_numbers_have_three_digits(n: nat)
    requires
        n <= 999,
    ensures
        text::zero_padded(n, 3).len() == 3,
        forall|i: int| 0 <= i < 3 ==> is_digit(#[trigger] text::zero_padded(n, 3)[i]),
        three_digits(text::zero_padded(n, 3), 0) == n,
{
    text::padding_keeps_the_number(n, 3);
    let s = text::zero_padded(n, 3);
    reveal_with_fuel(text::decimal, 4);
    assert(s.len() == 3);
    let one = s.drop_last();
    let two = one.drop_last();
    assert(text::spelled(two.drop_last()) == 0);
    assert(two.last() == s[0] && one.last() == s[1] && s.last() == s[2]);
    assert(48 <= s[0] as int <= 57 && 48 <= s[1] as int <= 57 && 48 <= s[2] as int <= 57);
    assert(text::spelled(two) == s[0] as int - 48);
    assert(text::spelled(one) == 10 * text::spelled(two) + (s[1] as int - 48));
    assert(text::spelled(s) == 10 * text::spelled(one) + (s[2] as int - 48));
}

/// Whether tick number `n` stands in the line at position `i`, with no further digit
/// behind it.
pub open spec fn tick_stands(line: Seq<char>, n: int, i: int) -> bool {
    &&& 0 <= n <= 999
    &&& text::occurs_at(line, "TICK-"@ + text::zero_padded(n as nat, 3), i)
    &&& i + 8 < line.len() ==> !(48 <= line[i + 8] as int <= 57)
}

/// How many digits stand in a row.
proof fn three_digits_in_a_row(line: Seq<char>, i: int)
    requires
        0 <= i <= line.len(),
    ensures
        digit_run(line, i) == 3 <==> {
            &&& i + 3 <= line.len()
            &&& is_digit(line[i]) && is_digit(line[i + 1]) && is_digit(line[i + 2])
            &&& i + 3 < line.len() ==> !is_digit(line[i + 3])
        },
{
    reveal_with_fuel(digit_run, 5);
}

/// A tick stands where its mark does, if the three digits of its number follow.
proof fn a_tick_is_a_mark_and_digits(line: Seq<char>, n: int, i: int)
    requires
        0 <= i,
    ensures
        tick_stands(line, n, i) <==> {
            &&& text::occurs_at(line, "TICK-"@, i)
            &&& digit_run(line, i + 5) == 3
            &&& three_digits(line, i + 5) == n
        },
{
    reveal_strlit("TICK-");
    let mark = "TICK-"@;
    if text::occurs_at(line, mark, i) {
        three_digits_in_a_row(line, i + 5);
    }
    if 0 <= n <= 999 {
        let digits = text::zero_padded(n as nat, 3);
        let whole = mark + digits;
        tick_numbers_have_three_digits(n as nat);
        if text::occurs_at(line, whole, i) {
            let part = line.subrange(i, i + 8);
            assert forall|j: int| 0 <= j < 8 implies line[i + j] == #[trigger] whole[j] by {
                assert(part[j] == line[i + j]);
            }
            assert(line.subrange(i, i + 5) =~= mark);
            assert(is_digit(digits[0]) && is_digit(digits[1]) && is_digit(digits[2]));
            assert(line[i + 5] == whole[5] && line[i + 6] == whole[6] && line[i + 7] == whole[7]);
            three_digits_in_a_row(line, i + 5);
        }
        if text::occurs_at(line, mark, i) && digit_run(line, i + 5) == 3 && three_digits(
            line,
            i + 5,
        ) == n {
            let part = line.subrange(i, i + 5);
            assert forall|j: int| 0 <= j < 5 implies line[i + j] == #[trigger] mark[j] by {
                assert(part[j] == line[i + j]);
            }
            assert(is_digit(digits[0]) && is_digit(digits[1]) && is_digit(digits[2]));
            assert(digits[0] == line[i + 5] && digits[1] == line[i + 6] && digits[2] == line[i
                + 7]);
            assert(line.subrange(i, i + 8) =~= whole);
        }
    }
}

/// Two marks of ticks do not overlap.
proof fn marks_do_not_overlap(line: Seq<char>, i: int, j: int)
    requires
        text::occurs_at(line, "TICK-"@, i),
        i < j < i + 5,
    ensures
        !text::occurs_at(line, "TICK-"@, j),
{
    reveal_strlit("TICK-");
    let mark = "TICK-"@;
    if text::occurs_at(line, mark, j) {
        assert(line.subrange(i, i + 5)[j - i] == line[j]);
        assert(line.subrange(j, j + 5)[0] == line[j]);
        assert(mark[j - i] == mark[0]);
    }
}

/// Every number read from a line is that of a tick that stands there, in the order
/// of their places, and every tick that stands in the line is read.
pub proof fn ticks_are_read_where_they_stand(line: Seq<char>, from: int) -> (at: Seq<int>)
    requires
        0 <= from,
    ensures
        at.len() == ticks_from(line, from).len(),
        forall|k: int|
            0 <= k < at.len() ==> from <= #[trigger] at[k] && tick_stands(
                line,
                ticks_from(line, from)[k],
                at[k],
            ),
        forall|j: int, k: int| 0 <= j < k < at.len() ==> #[trigger] at[j] < #[trigger] at[k],
        forall|n: int, i: int|
            from <= i && #[trigger] tick_stands(line, n, i) ==> exists|k: int|
                0 <= k < at.len() && #[trigger] at[k] == i && ticks_from(line, from)[k] == n,
    decreases line.len() - from,
{
    reveal_strlit("TICK-");
    if from + 5 > line.len() {
        assert forall|n: int, i: int| from <= i implies !#[trigger] tick_stands(line, n, i) by {
            a_tick_is_a_mark_and_digits(line, n, i);
        }
        seq![]
    } else if text::occurs_at(line, "TICK-"@, from) {
        let rest = ticks_are_read_where_they_stand(line, from + 5);
        let tail = ticks_from(line, from + 5);
        let all = ticks_from(line, from);
        let read = digit_run(line, from + 5) == 3;
        let at = if read {
            seq![from] + rest
        } else {
            rest
        };
        let lead = if read {
            1int
        } else {
            0
        };
        assert(all =~= (if read {
            seq![three_digits(line, from + 5)]
        } else {
            seq![]
        }) + tail);
        assert forall|k: int| 0 <= k < at.len() implies from <= #[trigger] at[k] && tick_stands(
            line,
            all[k],
            at[k],
        ) by {
            if k < lead {
                a_tick_is_a_mark_and_digits(line, all[0], from);
            } else {
                assert(from + 5 <= rest[k - lead]);
                assert(all[k] == tail[k - lead]);
            }
        }
        assert forall|n: int, i: int| from <= i && #[trigger] tick_stands(line, n, i) implies exists|
            k: int,
        |
            0 <= k < at.len() && #[trigger] at[k] == i && all[k] == n by {
            a_tick_is_a_mark_and_digits(line, n, i);
            if i == from {
                assert(at[0] == i && all[0] == n);
            } else if i < from + 5 {
                marks_do_not_overlap(line, from, i);
            } else {
                let k = choose|k: int| 0 <= k < rest.len() && #[trigger] rest[k] == i && tail[k] == n;
                assert(at[k + lead] == i && all[k + lead] == n);
            }
        }
        at
    } else {
        let at = ticks_are_read_where_they_stand(line, from + 1);
        assert forall|n: int, i: int| from <= i && #[trigger] tick_stands(line, n, i) implies exists|
            k: int,
        |
            0 <= k < at.len() && #[trigger] at[k] == i && ticks_from(line, from)[k] == n by {
            a_tick_is_a_mark_and_digits(line, n, i);
            assert(i != from);
            let k = choose|k: int|
                0 <= k < at.len() && #[trigger] at[k] == i && ticks_from(line, from + 1)[k] == n;
            assert(at[k] == i);
        }
        at
    }
}

/// The number read from the line of a tick is the one that was printed.
pub proof fn a_printed_tick_is_read_back(n: nat)
    requires
        n <= 999,
    ensures
        ticks_from("TICK-"@ + text::zero_padded(n, 3), 0) == seq![n as int],
{
    reveal_strlit("TICK-");
    let line = "TICK-"@ + text::zero_padded(n, 3);
    tick_numbers_have_three_digits(n);
    assert(line.subrange(0, 8) =~= line);
    assert(tick_stands(line, n as int, 0));
    a_tick_is_a_mark_and_digits(line, n as int, 0);
    assert(ticks_from(line, 5) =~= seq![]);
    assert(ticks_from(line, 0) =~= seq![n as int]);
}

/// The lines of the ticks with the given numbers.
pub open spec fn tick_lines(numbers: Seq<int>) -> Seq<Seq<char>> {
    Seq::new(numbers.len(), |i: int| "TICK-"@ + text::zero_padded(numbers[i] as nat, 3))
}

/// A buffer of ticks, one a line, is read back as the numbers that were printed.
pub proof fn printed_ticks_are_read_back(numbers: Seq<int>)
    requires
        forall|i: int| 0 <= i < numbers.len() ==> 0 <= #[trigger] numbers[i] <= 999,
    ensures
        all_ticks(tick_lines(numbers)) == numbers,
    decreases numbers.len(),
{
    if numbers.len() > 0 {
        let front = numbers.drop_last();
        assert forall|i: int| 0 <= i < front.len() implies 0 <= #[trigger] front[i] <= 999 by {
            assert(front[i] == numbers[i]);
        }
        printed_ticks_are_read_back(front);
        assert(tick_lines(numbers).drop_last() =~= tick_lines(front));
        a_printed_tick_is_read_back(numbers.last() as nat);
        assert(all_ticks(tick_lines(numbers)) =~= numbers);
    }
}

/// A buffer of ticks, one a line, passes the check exactly if every number is larger
/// than the one above it.
pub proof fn printed_ticks_pass_iff_they_grow(numbers: Seq<int>)
    requires
        forall|i: int| 0 <= i < numbers.len() ==> 0 <= #[trigger] numbers[i] <= 999,
    ensures
        ({
            let read = all_ticks(tick_lines(numbers));
            tick_texts(read, read.len() as int).len() == 0 <==> forall|i: int, j: int|
                0 <= i < j < numbers.len() ==> #[trigger] numbers[i] < #[trigger] numbers[j]
        }),
{
    printed_ticks_are_read_back(numbers);
    no_tick_violations_iff_growing(numbers);
}

/// What has been seen is what stands above.
proof fn seen_is_what_stands_above(ticks: Seq<int>, k: int, x: int)
    requires
        0 <= k <= ticks.len(),
    ensures
        seen(ticks, k).contains(x) <==> exists|j: int| 0 <= j < k && #[trigger] ticks[j] == x,
    decreases k,
{
    if k > 0 {
        seen_is_what_stands_above(ticks, k - 1, x);
        seen_is_what_stands_above(ticks, k - 1, ticks[k - 1]);
        let before = seen(ticks, k - 1);
        let now = seen(ticks, k);
        if before.contains(x) && now != before {
            let i = before.index_of(x);
            assert(now[i] == x);
        }
        if x == ticks[k - 1] && now != before {
            assert(now[now.len() - 1] == x);
        }
        if now.contains(x) && x != ticks[k - 1] && now != before {
            let i = now.index_of(x);
            assert(before[i] == x);
        }
    }
}

/// A tick is reported as repeated exactly if its number stands above already, and
/// any other report on it says that it comes behind a larger one.
pub proof fn tick_reports_tell_what_is_wrong(ticks: Seq<int>, k: int)
    requires
        0 <= k < ticks.len(),
        forall|i: int| 0 <= i < ticks.len() ==> 0 <= #[trigger] ticks[i] <= 999,
    ensures
        ({
            let repeated = exists|j: int| 0 <= j < k && #[trigger] ticks[j] == ticks[k];
            let number = text::zero_padded(ticks[k] as nat, 3);
            &&& repeated ==> tick_finding(ticks, k) == Some("重复: TICK-"@ + number)
            &&& !repeated && tick_finding(ticks, k) is Some ==> exists|j: int|
                0 <= j < k && #[trigger] ticks[j] > ticks[k] && tick_finding(ticks, k) == Some(
                    "错序: TICK-"@ + number + " 出现在 TICK-"@ + text::zero_padded(
                        ticks[j] as nat,
                        3,
                    ) + " 之后"@,
                )
            &&& k > 0 && !repeated && ticks[k] < ticks[k - 1] && (forall|j: int|
                0 <= j < k - 1 ==> #[trigger] ticks[j] != ticks[k - 1]) ==> tick_finding(ticks, k)
                is Some
            &&& (forall|j: int| 0 <= j < k ==> #[trigger] ticks[j] < ticks[k]) ==> tick_finding(
                ticks,
                k,
            ) is None
        }),
{
    seen_is_what_stands_above(ticks, k, ticks[k]);
    let before = seen(ticks, k);
    if before.len() > 0 {
        assert(before.contains(before.last()));
        seen_is_what_stands_above(ticks, k, before.last());
    }
    if k > 0 {
        seen_is_what_stands_above(ticks, k - 1, ticks[k - 1]);
    }
}

/// Lines that contain a text are counted one by one.
pub proof fn containing_lines_add_up(above: Seq<Seq<char>>, line: Seq<char>, needle: Seq<char>)
    ensures
        lines_containing(above.push(line), needle) == lines_containing(above, needle) + (
        if exists|i: int| text::occurs_at(line, needle, i) {
            1int
        } else {
            0
        }),
        lines_containing(seq![], needle) == 0,
        occurrences(above.push(line), needle) == occurrences(above, needle) + text::match_count(
            line,
            needle,
        ),
        occurrences(seq![], needle) == 0,
{
    assert(above.push(line).drop_last() =~= above);
}

} // verus!
