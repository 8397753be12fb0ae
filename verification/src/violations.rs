//! The checks that a resize must not fail: every payload printed before is
//! still there, once, in order and in one piece; every tick appears once and
//! in order.

use vstd::prelude::*;
use crate::screen;
use crate::screen::{logical_lines, phys_joined, PhysicalLine};
use crate::text;
use crate::ticks;
use crate::ticks::count_occurrences;

verus! {

/// How many characters of a payload must still stand in some line for the
/// payload to count as split rather than lost.
pub const HEAD_CHARS: usize = 8;

/// What can be wrong with one payload.
pub enum Violation {
    /// No trace of the payload is left.
    Lost { payload: String },
    /// The head of the payload is there, but its line does not join back.
    Split { payload: String },
    /// The payload stands before one that was printed earlier.
    OutOfOrder { payload: String, line: usize, previous: usize },
    /// The payload stands more than once, be it in one line or in several.
    Duplicate { payload: String, count: usize },
}

/// A violation as text.
pub enum ViolationView {
    Lost { payload: Seq<char> },
    Split { payload: Seq<char> },
    OutOfOrder { payload: Seq<char>, line: int, previous: int },
    Duplicate { payload: Seq<char>, count: int },
}

impl View for Violation {
    type V = ViolationView;

    open spec fn view(&self) -> ViolationView {
        match self {
            Violation::Lost { payload } => ViolationView::Lost { payload: payload@ },
            Violation::Split { payload } => ViolationView::Split { payload: payload@ },
            Violation::OutOfOrder { payload, line, previous } => ViolationView::OutOfOrder {
                payload: payload@,
                line: *line as int,
                previous: *previous as int,
            },
            Violation::Duplicate { payload, count } => ViolationView::Duplicate {
                payload: payload@,
                count: *count as int,
            },
        }
    }
}

/// Where in a list of lines a text stands.
pub struct Place {
    pub line: int,
    /// In characters from the front of the line.
    pub column: int,
}

impl Place {
    /// Whether this place comes before another, reading from the top and from
    /// the left.
    pub open spec fn precedes(self, other: Place) -> bool {
        self.line < other.line || (self.line == other.line && self.column < other.column)
    }
}

/// The first place of `payload` from line `k` on.
pub open spec fn place_from(lines: Seq<Seq<char>>, payload: Seq<char>, k: int) -> Option<Place>
    decreases lines.len() - k,
{
    if k < 0 || k >= lines.len() {
        None
    } else {
        match text::index_from(lines[k], payload, 0) {
            Some(column) => Some(Place { line: k, column }),
            None => place_from(lines, payload, k + 1),
        }
    }
}

/// The first place of `payload`.
pub open spec fn place(lines: Seq<Seq<char>>, payload: Seq<char>) -> Option<Place> {
    place_from(lines, payload, 0)
}

/// Whether `payload` appears exactly once.
pub open spec fn stands_once(lines: Seq<Seq<char>>, payload: Seq<char>) -> bool {
    ticks::occurrences(lines, payload) == 1
}

/// Whether no line contains `payload`.
pub open spec fn stands_nowhere(lines: Seq<Seq<char>>, payload: Seq<char>) -> bool {
    forall|i: int| 0 <= i < lines.len() ==> !#[trigger] text::contains_text(lines[i], payload)
}

/// The characters of a payload by which a split one is recognised.
pub open spec fn head(payload: Seq<char>) -> Seq<char> {
    payload.take(if HEAD_CHARS <= payload.len() { HEAD_CHARS as int } else { payload.len() as int })
}

/// The place of the latest of the first `k` payloads that stands once.
pub open spec fn last_place(
    lines: Seq<Seq<char>>,
    payloads: Seq<Seq<char>>,
    k: int,
) -> Option<Place>
    decreases k,
{
    if k <= 0 {
        None
    } else if stands_once(lines, payloads[k - 1]) {
        place(lines, payloads[k - 1])
    } else {
        last_place(lines, payloads, k - 1)
    }
}

/// What is wrong with payload `k`, given the logical lines of the buffer and
/// its flattened text.
pub open spec fn finding(
    lines: Seq<Seq<char>>,
    flat: Seq<char>,
    payloads: Seq<Seq<char>>,
    k: int,
) -> Option<ViolationView> {
    let payload = payloads[k];
    let count = ticks::occurrences(lines, payload);
    if count == 0 {
        if text::contains_text(flat, payload) {
            None
        } else if !stands_nowhere(lines, head(payload)) {
            Some(ViolationView::Split { payload })
        } else {
            Some(ViolationView::Lost { payload })
        }
    } else if count == 1 {
        let here = place(lines, payload)->0;
        match last_place(lines, payloads, k) {
            Some(previous) => if here.precedes(previous) {
                Some(
                    ViolationView::OutOfOrder {
                        payload,
                        line: here.line,
                        previous: previous.line,
                    },
                )
            } else {
                None
            },
            None => None,
        }
    } else {
        Some(ViolationView::Duplicate { payload, count: count as int })
    }
}

/// What is wrong with the first `k` payloads, in their order.
pub open spec fn findings(
    lines: Seq<Seq<char>>,
    flat: Seq<char>,
    payloads: Seq<Seq<char>>,
    k: int,
) -> Seq<ViolationView>
    decreases k,
{
    if k <= 0 {
        seq![]
    } else {
        match finding(lines, flat, payloads, k - 1) {
            Some(v) => findings(lines, flat, payloads, k - 1).push(v),
            None => findings(lines, flat, payloads, k - 1),
        }
    }
}

/// The report text of a violation.
pub open spec fn message(v: ViolationView) -> Seq<char> {
    match v {
        ViolationView::Lost { payload } => "丢失"@ + ": "@ + payload,
        ViolationView::Split { payload } => "断裂(逻辑行未正确拼接)"@ + ": "@ + payload,
        ViolationView::OutOfOrder { payload, line, previous } => "错序"@ + ": "@ + payload
            + " 在逻辑行 "@ + text::decimal(line as nat) + "，先前 payload 在 "@ + text::decimal(
            previous as nat,
        ),
        ViolationView::Duplicate { payload, count } => "重复"@ + " "@ + text::decimal(count as nat)
            + " 次: "@ + payload,
    }
}

/// The report texts of what is wrong with `payloads` on a buffer.
pub open spec fn violation_texts(
    rows: Seq<screen::LineView>,
    payloads: Seq<Seq<char>>,
) -> Seq<Seq<char>> {
    findings(
        screen::logical(rows),
        screen::flattened(rows),
        payloads,
        payloads.len() as int,
    ).map_values(|v: ViolationView| message(v))
}

impl Violation {
    /// The report text of this violation.
    pub fn message(&self) -> (r: String)
        ensures
            r@ == message(self@),
    {
        let mut out = String::new();
        match self {
            Violation::Lost { payload } => {
                out.append("丢失");
                out.append(": ");
                out.append(payload.as_str());
            },
            Violation::Split { payload } => {
                out.append("断裂(逻辑行未正确拼接)");
                out.append(": ");
                out.append(payload.as_str());
            },
            Violation::OutOfOrder { payload, line, previous } => {
                out.append("错序");
                out.append(": ");
                out.append(payload.as_str());
                out.append(" 在逻辑行 ");
                out.append(text::decimal_text(*line as u64).as_str());
                out.append("，先前 payload 在 ");
                out.append(text::decimal_text(*previous as u64).as_str());
            },
            Violation::Duplicate { payload, count } => {
                out.append("重复");
                out.append(" ");
                out.append(text::decimal_text(*count as u64).as_str());
                out.append(" 次: ");
                out.append(payload.as_str());
            },
        }
        out
    }
}

/// The first place of `payload`: its line, and its column there.
fn find_place(lines: &Vec<String>, payload: &str) -> (r: Option<(usize, usize)>)
    ensures
        match r {
            Some((line, column)) => place(text::texts(lines@), payload@) == Some(
                Place { line: line as int, column: column as int },
            ),
            None => place(text::texts(lines@), payload@) is None,
        },
{
    for i in 0..lines.len()
        invariant
            place(text::texts(lines@), payload@) == place_from(
                text::texts(lines@),
                payload@,
                i as int,
            ),
    {
        assert(text::texts(lines@)[i as int] == lines@[i as int]@);
        if let Some(column) = text::find(lines[i].as_str(), payload) {
            return Some((i, column));
        }
    }
    None
}

/// What is wrong with `payloads` on a buffer, in the order of the payloads.
pub fn payload_findings(lines: &Vec<PhysicalLine>, payloads: &Vec<String>) -> (r: Vec<Violation>)
    requires
        screen::countable(screen::rows(lines@)),
    ensures
        r@.map_values(|v: Violation| v@) == findings(
            screen::logical(screen::rows(lines@)),
            screen::flattened(screen::rows(lines@)),
            text::texts(payloads@),
            payloads@.len() as int,
        ),
{
    let joined_lines = logical_lines(lines);
    let flat = phys_joined(lines);
    let ghost ls = screen::logical(screen::rows(lines@));
    let ghost ps = text::texts(payloads@);
    let mut out: Vec<Violation> = Vec::new();
    let mut last_pos: Option<(usize, usize)> = None;
    proof {
        screen::joining_keeps_the_length(screen::rows(lines@));
    }
    assert(out@.map_values(|v: Violation| v@) =~= seq![]);
    for k in 0..payloads.len()
        invariant
            ls == screen::logical(screen::rows(lines@)),
            ps == text::texts(payloads@),
            text::texts(joined_lines@) == ls,
            text::total_len(ls) + ls.len() <= usize::MAX,
            flat@ == screen::flattened(screen::rows(lines@)),
            out@.map_values(|v: Violation| v@) == findings(ls, flat@, ps, k as int),
            last_place(ls, ps, k as int) == (match last_pos {
                Some((line, column)) => Some(Place { line: line as int, column: column as int }),
                None => None::<Place>,
            }),
    {
        let payload = payloads[k].as_str();
        proof {
            assert(ps[k as int] == payload@);
            ticks::occurrences_fit_the_buffer(ls, payload@);
            ticks::no_occurrences_means_nowhere(ls, payload@);
            the_place_is_the_first(ls, payload@, 0);
        }
        let count = count_occurrences(&joined_lines, payload);
        if count == 0 {
            if !text::contains(flat.as_str(), payload) {
                let start = text::take_chars(payload, HEAD_CHARS);
                let trace = find_place(&joined_lines, start.as_str());
                proof {
                    assert(start@ == head(ps[k as int]));
                    the_place_is_the_first(ls, start@, 0);
                }
                if trace.is_some() {
                    out.push(Violation::Split { payload: payloads[k].clone() });
                } else {
                    out.push(Violation::Lost { payload: payloads[k].clone() });
                }
            }
        } else if count == 1 {
            let here = find_place(&joined_lines, payload);
            if let Some((line, column)) = here {
                if let Some((previous, previous_column)) = last_pos {
                    if line < previous || (line == previous && column < previous_column) {
                        out.push(
                            Violation::OutOfOrder { payload: payloads[k].clone(), line, previous },
                        );
                    }
                }
            }
            last_pos = here;
        } else {
            out.push(Violation::Duplicate { payload: payloads[k].clone(), count });
        }
        assert(out@.map_values(|v: Violation| v@) =~= findings(ls, flat@, ps, k + 1));
    }
    out
}

/// The report texts of what is wrong with `payloads` on a buffer: a payload
/// that is gone, that appears more than once, that stands before an earlier
/// one, or whose line no longer joins back. A payload whose line is cut at a
/// wrap mark but whose text still runs on across the rows is in order. An
/// empty list means that the buffer is intact.
pub fn payload_violations(lines: &Vec<PhysicalLine>, payloads: &Vec<String>) -> (r: Vec<String>)
    requires
        screen::countable(screen::rows(lines@)),
    ensures
        text::texts(r@) == violation_texts(screen::rows(lines@), text::texts(payloads@)),
{
    let found = payload_findings(lines, payloads);
    let mut out: Vec<String> = Vec::new();
    for i in 0..found.len()
        invariant
            out@.len() == i,
            forall|j: int| 0 <= j < i ==> #[trigger] out@[j]@ == message(found@[j]@),
    {
        out.push(found[i].message());
    }
    assert(text::texts(out@) =~= found@.map_values(|v: Violation| v@).map_values(
        |v: ViolationView| message(v),
    ));
    out
}

/// Whether a buffer still shows `payloads` as they were printed: each appears
/// exactly once, or in no logical line but still in one piece across the rows,
/// and those that appear do so in their order.
pub open spec fn intact(lines: Seq<Seq<char>>, flat: Seq<char>, payloads: Seq<Seq<char>>) -> bool {
    &&& forall|k: int|
        0 <= k < payloads.len() ==> {
            ||| #[trigger] stands_once(lines, payloads[k])
            ||| stands_nowhere(lines, payloads[k]) && text::contains_text(flat, payloads[k])
        }
    &&& forall|a: int, b: int|
        {
            &&& 0 <= a < b < payloads.len()
            &&& #[trigger] stands_once(lines, payloads[a])
            &&& #[trigger] stands_once(lines, payloads[b])
        } ==> !place(lines, payloads[b])->0.precedes(place(lines, payloads[a])->0)
}

/// The place of a payload is one where it stands, and it stands nowhere before;
/// there is none exactly if no line contains it.
pub proof fn the_place_is_the_first(lines: Seq<Seq<char>>, payload: Seq<char>, k: int)
    requires
        0 <= k <= lines.len(),
    ensures
        match place_from(lines, payload, k) {
            Some(at) => {
                &&& k <= at.line < lines.len()
                &&& text::occurs_at(lines[at.line], payload, at.column)
                &&& text::contains_text(lines[at.line], payload)
                &&& forall|i: int|
                    k <= i < at.line ==> !#[trigger] text::contains_text(lines[i], payload)
                &&& forall|j: int|
                    0 <= j < at.column ==> !text::occurs_at(lines[at.line], payload, j)
            },
            None => forall|i: int|
                k <= i < lines.len() ==> !#[trigger] text::contains_text(lines[i], payload),
        },
    decreases lines.len() - k,
{
    if k < lines.len() {
        text::the_index_is_the_first(lines[k], payload, 0);
        if text::index_from(lines[k], payload, 0) is None {
            the_place_is_the_first(lines, payload, k + 1);
            assert forall|j: int| !text::occurs_at(lines[k], payload, j) by {}
            assert(!text::contains_text(lines[k], payload));
        }
    }
}

/// A payload that stands once has a place.
proof fn what_stands_has_a_place(lines: Seq<Seq<char>>, payload: Seq<char>)
    ensures
        stands_once(lines, payload) ==> place(lines, payload) is Some,
        stands_nowhere(lines, payload) <==> ticks::occurrences(lines, payload) == 0,
{
    ticks::no_occurrences_means_nowhere(lines, payload);
    the_place_is_the_first(lines, payload, 0);
}

/// No findings among the first `k` payloads means none for each of them.
proof fn no_findings_means_none(
    lines: Seq<Seq<char>>,
    flat: Seq<char>,
    payloads: Seq<Seq<char>>,
    k: int,
)
    requires
        0 <= k <= payloads.len(),
    ensures
        findings(lines, flat, payloads, k).len() == 0 <==> (forall|j: int|
            0 <= j < k ==> #[trigger] finding(lines, flat, payloads, j) is None),
    decreases k,
{
    if k > 0 {
        no_findings_means_none(lines, flat, payloads, k - 1);
        if findings(lines, flat, payloads, k).len() == 0 {
            assert(finding(lines, flat, payloads, k - 1) is None);
        }
    }
}

/// As long as nothing is out of order, no earlier payload has a place behind the
/// last one.
proof fn last_place_is_the_last(
    lines: Seq<Seq<char>>,
    flat: Seq<char>,
    payloads: Seq<Seq<char>>,
    k: int,
)
    requires
        0 <= k <= payloads.len(),
        forall|j: int| 0 <= j < k ==> #[trigger] finding(lines, flat, payloads, j) is None,
    ensures
        forall|a: int|
            0 <= a < k && #[trigger] stands_once(lines, payloads[a]) ==> {
                &&& last_place(lines, payloads, k) is Some
                &&& !last_place(lines, payloads, k)->0.precedes(place(lines, payloads[a])->0)
            },
    decreases k,
{
    if k > 0 {
        last_place_is_the_last(lines, flat, payloads, k - 1);
        what_stands_has_a_place(lines, payloads[k - 1]);
        assert(finding(lines, flat, payloads, k - 1) is None);
    }
}

/// The last place is that of some earlier payload that stands once.
proof fn last_place_is_a_place(lines: Seq<Seq<char>>, payloads: Seq<Seq<char>>, k: int)
    requires
        0 <= k <= payloads.len(),
        last_place(lines, payloads, k) is Some,
    ensures
        exists|a: int|
            0 <= a < k && #[trigger] stands_once(lines, payloads[a]) && place(lines, payloads[a])
                == last_place(lines, payloads, k),
    decreases k,
{
    if k > 0 {
        if !stands_once(lines, payloads[k - 1]) {
            last_place_is_a_place(lines, payloads, k - 1);
        }
    }
}

/// The check says nothing exactly when the buffer is intact: no payload lost,
/// repeated, out of order or split.
pub proof fn no_violations_iff_intact(
    lines: Seq<Seq<char>>,
    flat: Seq<char>,
    payloads: Seq<Seq<char>>,
)
    ensures
        findings(lines, flat, payloads, payloads.len() as int).len() == 0 <==> intact(
            lines,
            flat,
            payloads,
        ),
{
    let n = payloads.len() as int;
    no_findings_means_none(lines, flat, payloads, n);
    if findings(lines, flat, payloads, n).len() == 0 {
        assert forall|k: int| 0 <= k < n implies {
            ||| #[trigger] stands_once(lines, payloads[k])
            ||| stands_nowhere(lines, payloads[k]) && text::contains_text(flat, payloads[k])
        } by {
            what_stands_has_a_place(lines, payloads[k]);
            assert(finding(lines, flat, payloads, k) is None);
        }
        assert forall|a: int, b: int|
            {
                &&& 0 <= a < b < payloads.len()
                &&& #[trigger] stands_once(lines, payloads[a])
                &&& #[trigger] stands_once(lines, payloads[b])
            } implies !place(lines, payloads[b])->0.precedes(place(lines, payloads[a])->0) by {
            last_place_is_the_last(lines, flat, payloads, b);
            assert(finding(lines, flat, payloads, b) is None);
        }
    }
    if intact(lines, flat, payloads) {
        assert forall|k: int| 0 <= k < n implies #[trigger] finding(lines, flat, payloads, k)
            is None by {
            what_stands_has_a_place(lines, payloads[k]);
            assert(stands_once(lines, payloads[k]) || stands_nowhere(lines, payloads[k]));
            if stands_once(lines, payloads[k]) && last_place(lines, payloads, k) is Some {
                last_place_is_a_place(lines, payloads, k);
                let a = choose|a: int|
                    0 <= a < k && #[trigger] stands_once(lines, payloads[a]) && place(
                        lines,
                        payloads[a],
                    ) == last_place(lines, payloads, k);
                assert(stands_once(lines, payloads[a]));
            }
        }
    }
}

/// Among lines none of which is part of another, each stands in itself alone.
proof fn a_line_stands_in_itself(lines: Seq<Seq<char>>, k: int, n: int)
    requires
        0 <= k < lines.len(),
        0 <= n <= lines.len(),
        lines[k].len() > 0,
        forall|i: int|
            0 <= i < lines.len() && i != k ==> !#[trigger] text::contains_text(lines[i], lines[k]),
    ensures
        ticks::occurrences(lines.take(n), lines[k]) == (if k < n {
            1nat
        } else {
            0nat
        }),
    decreases n,
{
    if n > 0 {
        a_line_stands_in_itself(lines, k, n - 1);
        assert(lines.take(n).drop_last() =~= lines.take(n - 1));
        assert(lines.take(n).last() == lines[n - 1]);
        if n - 1 == k {
            text::a_text_holds_itself_once(lines[k]);
        } else {
            assert(!text::contains_text(lines[n - 1], lines[k]));
            text::matches_are_contained(lines[n - 1], lines[k]);
        }
    }
}

/// A buffer that shows nothing but the payloads, a line each, is intact, as long
/// as no payload is empty or part of another.
pub proof fn printed_payloads_are_intact(payloads: Seq<Seq<char>>, flat: Seq<char>)
    requires
        forall|k: int| 0 <= k < payloads.len() ==> (#[trigger] payloads[k]).len() > 0,
        forall|i: int, k: int|
            0 <= i < payloads.len() && 0 <= k < payloads.len() && i != k
                ==> !#[trigger] text::contains_text(payloads[i], payloads[k]),
    ensures
        intact(payloads, flat, payloads),
        findings(payloads, flat, payloads, payloads.len() as int).len() == 0,
{
    assert forall|k: int| 0 <= k < payloads.len() implies {
        &&& #[trigger] stands_once(payloads, payloads[k])
        &&& place(payloads, payloads[k]) == Some(Place { line: k, column: 0 })
    } by {
        assert(payloads[k].len() > 0);
        a_line_stands_in_itself(payloads, k, payloads.len() as int);
        assert(payloads.take(payloads.len() as int) =~= payloads);
        text::a_text_holds_itself_once(payloads[k]);
        the_place_is_the_first(payloads, payloads[k], 0);
        what_stands_has_a_place(payloads, payloads[k]);
        let at = place(payloads, payloads[k])->0;
        assert(at.line == k);
    }
    no_violations_iff_intact(payloads, flat, payloads);
}

/// The flattened text matters only for payloads that no line contains.
proof fn findings_ignore_the_flat_text(
    lines: Seq<Seq<char>>,
    flat: Seq<char>,
    other: Seq<char>,
    payloads: Seq<Seq<char>>,
    k: int,
)
    requires
        0 <= k <= payloads.len(),
        forall|j: int| 0 <= j < payloads.len() ==> !#[trigger] stands_nowhere(lines, payloads[j]),
    ensures
        findings(lines, flat, payloads, k) == findings(lines, other, payloads, k),
    decreases k,
{
    if k > 0 {
        findings_ignore_the_flat_text(lines, flat, other, payloads, k - 1);
        what_stands_has_a_place(lines, payloads[k - 1]);
        assert(!stands_nowhere(lines, payloads[k - 1]));
    }
}

/// The width of the rows does not matter: two layouts of the same lines, with
/// every payload in some line, have the same violations.
pub proof fn violations_ignore_the_width(
    before: Seq<Seq<Seq<char>>>,
    after: Seq<Seq<Seq<char>>>,
    payloads: Seq<Seq<char>>,
)
    requires
        forall|i: int| 0 <= i < before.len() ==> #[trigger] before[i].len() > 0,
        forall|i: int| 0 <= i < after.len() ==> #[trigger] after[i].len() > 0,
        before.map_values(|s: Seq<Seq<char>>| text::concat(s)) == after.map_values(
            |s: Seq<Seq<char>>| text::concat(s),
        ),
        forall|j: int|
            0 <= j < payloads.len() ==> !#[trigger] stands_nowhere(
                screen::logical(screen::laid_out(before)),
                payloads[j],
            ),
    ensures
        violation_texts(screen::laid_out(before), payloads) == violation_texts(
            screen::laid_out(after),
            payloads,
        ),
{
    screen::logical_lines_survive_rewrap(before, after);
    findings_ignore_the_flat_text(
        screen::logical(screen::laid_out(before)),
        screen::flattened(screen::laid_out(before)),
        screen::flattened(screen::laid_out(after)),
        payloads,
        payloads.len() as int,
    );
}

/// What a payload is recognised by is its front: eight characters, or all of it if it has
/// no more.
pub proof fn a_payload_is_known_by_its_front(payload: Seq<char>)
    ensures
        payload.len() >= 8 ==> head(payload).len() == 8,
        payload.len() < 8 ==> head(payload) == payload,
        forall|i: int| 0 <= i < head(payload).len() ==> #[trigger] head(payload)[i] == payload[i],
{
}

/// A payload is reported lost if it appears nowhere, whole or across the rows, nor does
/// its front; split if its front does; repeated, with the number of times, if it appears
/// more than once; and out of order, with its line and the other's, if it appears once,
/// before the latest of the payloads ahead of it that does. Nothing else is reported.
pub proof fn reports_tell_what_is_wrong(
    lines: Seq<Seq<char>>,
    flat: Seq<char>,
    payloads: Seq<Seq<char>>,
    k: int,
)
    requires
        0 <= k < payloads.len(),
    ensures
        ({
            let payload = payloads[k];
            let count = ticks::occurrences(lines, payload);
            let runs_on = exists|i: int| text::occurs_at(flat, payload, i);
            let front = exists|i: int, j: int|
                0 <= i < lines.len() && #[trigger] text::occurs_at(lines[i], head(payload), j);
            let found = finding(lines, flat, payloads, k);
            &&& count == 0 && runs_on ==> found is None
            &&& count == 0 && !runs_on && front ==> found == Some(ViolationView::Split { payload })
            &&& count == 0 && !runs_on && !front ==> found == Some(ViolationView::Lost { payload })
            &&& count > 1 ==> found == Some(
                ViolationView::Duplicate { payload, count: count as int },
            )
            &&& count == 1 && found is Some ==> {
                let here = place(lines, payload)->0;
                let before = last_place(lines, payloads, k)->0;
                &&& here.line < before.line || (here.line == before.line && here.column
                    < before.column)
                &&& found == Some(
                    ViolationView::OutOfOrder { payload, line: here.line, previous: before.line },
                )
            }
            &&& count == 1 && found is None && last_place(lines, payloads, k) is Some ==> {
                let here = place(lines, payload)->0;
                let before = last_place(lines, payloads, k)->0;
                here.line > before.line || (here.line == before.line && here.column
                    >= before.column)
            }
        }),
{
    let payload = payloads[k];
    let front = exists|i: int, j: int|
        0 <= i < lines.len() && #[trigger] text::occurs_at(lines[i], head(payload), j);
    if front {
        let (i, j) = choose|i: int, j: int|
            0 <= i < lines.len() && #[trigger] text::occurs_at(lines[i], head(payload), j);
        assert(text::contains_text(lines[i], head(payload)));
    }
    if !stands_nowhere(lines, head(payload)) {
        let i = choose|i: int|
            0 <= i < lines.len() && #[trigger] text::contains_text(lines[i], head(payload));
        assert(text::contains_text(lines[i], head(payload)));
    }
}

/// Reports come in the order of the payloads, one for each that something is wrong with.
pub proof fn reports_follow_the_payloads(
    lines: Seq<Seq<char>>,
    flat: Seq<char>,
    payloads: Seq<Seq<char>>,
    k: int,
)
    requires
        0 <= k < payloads.len(),
    ensures
        findings(lines, flat, payloads, 0).len() == 0,
        finding(lines, flat, payloads, k) is None ==> findings(lines, flat, payloads, k + 1)
            == findings(lines, flat, payloads, k),
        finding(lines, flat, payloads, k) is Some ==> findings(lines, flat, payloads, k + 1)
            == findings(lines, flat, payloads, k) + seq![finding(lines, flat, payloads, k)->0],
{
}

/// Every report names the payload it is about, behind what is wrong with it.
pub proof fn reports_are_worded(payload: Seq<char>, line: nat, previous: nat, count: nat)
    ensures
        message(ViolationView::Lost { payload }) == "丢失: "@ + payload,
        message(ViolationView::Split { payload }) == "断裂(逻辑行未正确拼接): "@ + payload,
        message(
            ViolationView::OutOfOrder { payload, line: line as int, previous: previous as int },
        ) == "错序: "@ + payload + " 在逻辑行 "@ + text::decimal(line)
            + "，先前 payload 在 "@ + text::decimal(previous),
        message(ViolationView::Duplicate { payload, count: count as int }) == "重复 "@
            + text::decimal(count) + " 次: "@ + payload,
{
    reveal_strlit("丢失");
    reveal_strlit("断裂(逻辑行未正确拼接)");
    reveal_strlit("错序");
    reveal_strlit("重复");
    reveal_strlit(": ");
    reveal_strlit(" ");
    reveal_strlit("丢失: ");
    reveal_strlit("断裂(逻辑行未正确拼接): ");
    reveal_strlit("错序: ");
    reveal_strlit("重复 ");
    assert("丢失"@ + ": "@ =~= "丢失: "@);
    assert("断裂(逻辑行未正确拼接)"@ + ": "@ =~= "断裂(逻辑行未正确拼接): "@);
    assert("错序"@ + ": "@ =~= "错序: "@);
    assert("重复"@ + " "@ =~= "重复 "@);
}

/// A place comes before another if it is in a line above, or further left in the same
/// line; of two places one comes first, unless they are the same.
pub proof fn places_are_in_reading_order(a: Place, b: Place)
    ensures
        a.line < b.line ==> a.precedes(b),
        a.line == b.line && a.column < b.column ==> a.precedes(b),
        a.precedes(b) ==> !b.precedes(a),
        a.precedes(b) || b.precedes(a) || a == b,
{
}

} // verus!
