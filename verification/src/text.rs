//! Text primitives shared by the screen checks: substring search, match
//! counting, trailing-space trimming and decimal formatting, all stated over
//! sequences of characters.

use vstd::prelude::*;

verus! {

/// What [`char::is_alphanumeric`] answers for `c`.
pub uninterp spec fn alphanumeric(c: char) -> bool;

/// `char::is_alphanumeric` of std: whether `c` is a Unicode letter or number.
/// The answer depends on `c` alone and is named, not described.
#[verifier::external_body]
pub(crate) fn is_alphanumeric(c: char) -> (r: bool)
    ensures
        r == alphanumeric(c),
{
    c.is_alphanumeric()
}

/// `String::push` of std: the character goes to the end of the string.
pub assume_specification[ String::push ](s: &mut String, ch: char)
    ensures
        final(s)@ == old(s)@.push(ch),
;

/// Whether `c` is white space: the characters that have the Unicode property of
/// that name.
pub open spec fn white_space(c: char) -> bool {
    let n = c as int;
    ||| 0x9 <= n <= 0xD
    ||| n == 0x20
    ||| n == 0x85
    ||| n == 0xA0
    ||| n == 0x1680
    ||| 0x2000 <= n <= 0x200A
    ||| n == 0x2028
    ||| n == 0x2029
    ||| n == 0x202F
    ||| n == 0x205F
    ||| n == 0x3000
}

/// Whether `c` is white space.
pub fn is_white_space(c: char) -> (r: bool)
    ensures
        r == white_space(c),
{
    let n: u32 = c as u32;
    (0x9 <= n && n <= 0xD) || n == 0x20 || n == 0x85 || n == 0xA0 || n == 0x1680 || (0x2000 <= n
        && n <= 0x200A) || n == 0x2028 || n == 0x2029 || n == 0x202F || n == 0x205F || n == 0x3000
}

/// Whether `needle` stands in `hay` at position `i`.
pub open spec fn occurs_at(hay: Seq<char>, needle: Seq<char>, i: int) -> bool {
    &&& 0 <= i
    &&& i + needle.len() <= hay.len()
    &&& hay.subrange(i, i + needle.len()) == needle
}

/// Whether `needle` stands anywhere in `hay`.
pub open spec fn contains_text(hay: Seq<char>, needle: Seq<char>) -> bool {
    exists|i: int| occurs_at(hay, needle, i)
}

/// The first position from `i` on at which `needle` stands in `hay`.
pub open spec fn index_from(hay: Seq<char>, needle: Seq<char>, i: int) -> Option<int>
    decreases hay.len() + 1 - i,
{
    if i < 0 || i + needle.len() > hay.len() {
        None
    } else if occurs_at(hay, needle, i) {
        Some(i)
    } else {
        index_from(hay, needle, i + 1)
    }
}

/// How many disjoint matches of `needle` a scan of `hay` from the left finds.
/// The empty needle matches at every character boundary.
pub open spec fn match_count(hay: Seq<char>, needle: Seq<char>) -> nat
    decreases hay.len(),
{
    if needle.len() == 0 {
        hay.len() + 1
    } else if hay.len() < needle.len() {
        0
    } else if hay.subrange(0, needle.len() as int) == needle {
        1 + match_count(hay.skip(needle.len() as int), needle)
    } else {
        match_count(hay.skip(1), needle)
    }
}

/// `text` without its trailing white space.
pub open spec fn trimmed_end(text: Seq<char>) -> Seq<char>
    decreases text.len(),
{
    if text.len() > 0 && white_space(text.last()) {
        trimmed_end(text.drop_last())
    } else {
        text
    }
}

/// The decimal digit `d`.
pub open spec fn digit_char(d: nat) -> char {
    if d == 0 {
        '0'
    } else if d == 1 {
        '1'
    } else if d == 2 {
        '2'
    } else if d == 3 {
        '3'
    } else if d == 4 {
        '4'
    } else if d == 5 {
        '5'
    } else if d == 6 {
        '6'
    } else if d == 7 {
        '7'
    } else if d == 8 {
        '8'
    } else {
        '9'
    }
}

/// The decimal digits of `n`, without leading zeros.
pub open spec fn decimal(n: nat) -> Seq<char>
    decreases n,
{
    if n < 10 {
        seq![digit_char(n)]
    } else {
        decimal(n / 10).push(digit_char(n % 10))
    }
}

/// `text` filled up with `fill` on the left to at least `width` characters.
pub open spec fn padded_left(text: Seq<char>, width: nat, fill: char) -> Seq<char> {
    if text.len() >= width {
        text
    } else {
        Seq::new((width - text.len()) as nat, |i: int| fill) + text
    }
}

/// The decimal digits of `n`, filled up with zeros to `width`.
pub open spec fn zero_padded(n: nat, width: nat) -> Seq<char> {
    padded_left(decimal(n), width, '0')
}

/// The decimal digits of `n`, right-aligned in `width` columns.
pub open spec fn right_aligned(n: nat, width: nat) -> Seq<char> {
    padded_left(decimal(n), width, ' ')
}

/// The decimal form of a signed number.
pub open spec fn signed_decimal(n: int) -> Seq<char> {
    if n < 0 {
        seq!['-'] + decimal((-n) as nat)
    } else {
        decimal(n as nat)
    }
}

/// The texts of a list of strings.
pub open spec fn texts(list: Seq<String>) -> Seq<Seq<char>> {
    list.map_values(|s: String| s@)
}

/// All texts of `list` one after the other.
pub open spec fn concat(list: Seq<Seq<char>>) -> Seq<char>
    decreases list.len(),
{
    if list.len() == 0 {
        seq![]
    } else {
        concat(list.drop_last()) + list.last()
    }
}

/// `list` with `sep` between neighbours.
pub open spec fn joined(list: Seq<Seq<char>>, sep: Seq<char>) -> Seq<char>
    decreases list.len(),
{
    if list.len() == 0 {
        seq![]
    } else if list.len() == 1 {
        list[0]
    } else {
        joined(list.drop_last(), sep) + sep + list.last()
    }
}

/// The characters of `s`.
pub fn chars_of(s: &str) -> (r: Vec<char>)
    ensures
        r@ == s@,
{
    let mut out: Vec<char> = Vec::new();
    for c in it: s.chars()
        invariant
            out@ == it.seq().take(it.index() as int),
            it.seq() == s@,
    {
        out.push(c);
    }
    out
}

/// The string made of `chars`.
pub fn string_of(chars: &Vec<char>) -> (r: String)
    ensures
        r@ == chars@,
{
    let mut out = String::new();
    for i in 0..chars.len()
        invariant
            out@ == chars@.take(i as int),
    {
        out.push(chars[i]);
        assert(chars@.take(i + 1) =~= chars@.take(i as int).push(chars@[i as int]));
    }
    assert(chars@.take(chars@.len() as int) =~= chars@);
    out
}

/// Whether two strings hold the same text.
pub fn same_text(a: &str, b: &str) -> (r: bool)
    ensures
        r == (a@ == b@),
{
    a.to_owned() == b.to_owned()
}

/// Whether `needle` stands in `hay` at position `at`.
pub fn stands_at(hay: &Vec<char>, needle: &Vec<char>, at: usize) -> (r: bool)
    ensures
        r == occurs_at(hay@, needle@, at as int),
{
    if needle.len() > hay.len() || at > hay.len() - needle.len() {
        return false;
    }
    for k in 0..needle.len()
        invariant
            at + needle@.len() <= hay@.len(),
            hay@.len() <= usize::MAX,
            forall|j: int| 0 <= j < k ==> hay@[at + j] == needle@[j],
    {
        if hay[at + k] != needle[k] {
            assert(hay@.subrange(at as int, at + needle@.len())[k as int] != needle@[k as int]);
            return false;
        }
    }
    assert(hay@.subrange(at as int, at + needle@.len()) =~= needle@);
    true
}

/// The first position at which `needle` stands in `hay`.
pub fn find(hay: &str, needle: &str) -> (r: Option<usize>)
    ensures
        match r {
            Some(at) => index_from(hay@, needle@, 0) == Some(at as int),
            None => index_from(hay@, needle@, 0) is None,
        },
{
    let h = chars_of(hay);
    let n = chars_of(needle);
    if n.len() > h.len() {
        return None;
    }
    let last: usize = h.len() - n.len();
    for i in 0..last
        invariant
            h@ == hay@,
            n@ == needle@,
            last + n@.len() == h@.len(),
            index_from(hay@, needle@, 0) == index_from(hay@, needle@, i as int),
    {
        if stands_at(&h, &n, i) {
            return Some(i);
        }
    }
    if stands_at(&h, &n, last) {
        Some(last)
    } else {
        assert(index_from(hay@, needle@, last + 1) is None);
        None
    }
}

/// Whether `needle` stands anywhere in `hay`.
pub fn contains(hay: &str, needle: &str) -> (r: bool)
    ensures
        r == contains_text(hay@, needle@),
{
    proof {
        the_index_is_the_first(hay@, needle@, 0);
        assert forall|j: int| occurs_at(hay@, needle@, j) implies j >= 0 by {}
    }
    find(hay, needle).is_some()
}

/// How many disjoint matches of `needle` a scan of `hay` from the left finds.
/// The empty needle matches at every character boundary.
pub fn count_matches(hay: &str, needle: &str) -> (r: usize)
    requires
        needle@.len() > 0 || hay@.len() < usize::MAX,
    ensures
        r == match_count(hay@, needle@),
{
    let h = chars_of(hay);
    let n = chars_of(needle);
    if n.len() == 0 {
        return h.len() + 1;
    }
    let mut i: usize = 0;
    let mut found: usize = 0;
    assert(h@.skip(0) =~= h@);
    while i < h.len() && n.len() <= h.len() - i
        invariant
            h@ == hay@,
            n@ == needle@,
            n@.len() > 0,
            found <= i <= h@.len(),
            match_count(hay@, needle@) == found + match_count(h@.skip(i as int), n@),
        decreases h@.len() - i,
    {
        let ghost rest = h@.skip(i as int);
        proof {
            assert(rest.subrange(0, n@.len() as int) =~= h@.subrange(i as int, i + n@.len()));
            assert(rest.skip(n@.len() as int) =~= h@.skip(i + n@.len()));
            assert(rest.skip(1) =~= h@.skip(i + 1));
        }
        if stands_at(&h, &n, i) {
            found += 1;
            i += n.len();
        } else {
            i += 1;
        }
    }
    found
}

/// `text` without its trailing white space.
pub fn trim_end(text: &str) -> (r: String)
    ensures
        r@ == trimmed_end(text@),
{
    let mut chars = chars_of(text);
    while chars.len() > 0 && is_white_space(chars[chars.len() - 1])
        invariant
            trimmed_end(text@) == trimmed_end(chars@),
        decreases chars@.len(),
    {
        let ghost before = chars@;
        chars.pop();
        assert(chars@ =~= before.drop_last());
    }
    string_of(&chars)
}

/// The first `n` characters of `text`, or all of them.
pub fn take_chars(text: &str, n: usize) -> (r: String)
    ensures
        r@ == text@.take(if n <= text@.len() { n as int } else { text@.len() as int }),
{
    let chars = chars_of(text);
    let mut out = String::new();
    let end: usize = if n <= chars.len() { n } else { chars.len() };
    for i in 0..end
        invariant
            end <= chars@.len(),
            out@ == chars@.take(i as int),
    {
        out.push(chars[i]);
        assert(chars@.take(i + 1) =~= chars@.take(i as int).push(chars@[i as int]));
    }
    out
}

/// The decimal digit `d`.
fn digit(d: u64) -> (r: char)
    requires
        d < 10,
    ensures
        r == digit_char(d as nat),
{
    if d == 0 {
        '0'
    } else if d == 1 {
        '1'
    } else if d == 2 {
        '2'
    } else if d == 3 {
        '3'
    } else if d == 4 {
        '4'
    } else if d == 5 {
        '5'
    } else if d == 6 {
        '6'
    } else if d == 7 {
        '7'
    } else if d == 8 {
        '8'
    } else {
        '9'
    }
}

/// The decimal digits of `n`.
fn decimal_chars(n: u64) -> (r: Vec<char>)
    ensures
        r@ == decimal(n as nat),
    decreases n,
{
    let mut out: Vec<char> = if n < 10 {
        Vec::new()
    } else {
        decimal_chars(n / 10)
    };
    out.push(digit(n % 10));
    out
}

/// `n` in decimal, filled up with `fill` on the left to at least `width`
/// characters.
fn padded(n: u64, width: usize, fill: char) -> (r: String)
    ensures
        r@ == padded_left(decimal(n as nat), width as nat, fill),
{
    let digits = decimal_chars(n);
    let mut out = String::new();
    if digits.len() < width {
        let gap: usize = width - digits.len();
        for i in 0..gap
            invariant
                out@ == Seq::new(i as nat, |j: int| fill),
        {
            out.push(fill);
            assert(Seq::new((i + 1) as nat, |j: int| fill) =~= Seq::new(
                i as nat,
                |j: int| fill,
            ).push(fill));
        }
    }
    let ghost filling = out@;
    for i in 0..digits.len()
        invariant
            out@ == filling + digits@.take(i as int),
    {
        out.push(digits[i]);
        assert(digits@.take(i + 1) =~= digits@.take(i as int).push(digits@[i as int]));
    }
    assert(digits@.take(digits@.len() as int) =~= digits@);
    assert(filling + digits@ =~= padded_left(digits@, width as nat, fill));
    out
}

/// `n` in decimal.
pub fn decimal_text(n: u64) -> (r: String)
    ensures
        r@ == decimal(n as nat),
{
    padded(n, 0, ' ')
}

/// `n` in decimal, filled up with zeros to `width` characters.
pub fn zero_padded_text(n: u64, width: usize) -> (r: String)
    ensures
        r@ == zero_padded(n as nat, width as nat),
{
    padded(n, width, '0')
}

/// `n` in decimal, right-aligned in `width` columns.
pub fn right_aligned_text(n: u64, width: usize) -> (r: String)
    ensures
        r@ == right_aligned(n as nat, width as nat),
{
    padded(n, width, ' ')
}

/// A signed number in decimal.
pub fn signed_decimal_text(n: i64) -> (r: String)
    ensures
        r@ == signed_decimal(n as int),
{
    if n >= 0 {
        decimal_text(n as u64)
    } else {
        let mut out = String::new();
        out.push('-');
        let magnitude: u64 = (-(n + 1)) as u64 + 1;
        out.append(decimal_text(magnitude).as_str());
        assert(Seq::<char>::empty().push('-') =~= seq!['-']);
        out
    }
}

/// `list` with `sep` between neighbours.
pub fn join(list: &Vec<String>, sep: &str) -> (r: String)
    ensures
        r@ == joined(texts(list@), sep@),
{
    let mut out = String::new();
    for i in 0..list.len()
        invariant
            out@ == joined(texts(list@).take(i as int), sep@),
    {
        let ghost upto = texts(list@).take(i + 1);
        assert(upto.drop_last() =~= texts(list@).take(i as int));
        if i > 0 {
            out.append(sep);
        }
        out.append(list[i].as_str());
        assert(out@ =~= joined(upto, sep@));
    }
    assert(texts(list@).take(list@.len() as int) =~= texts(list@));
    out
}

/// A copy of a list of strings with the same texts.
pub fn copy_texts(list: &Vec<String>) -> (r: Vec<String>)
    ensures
        texts(r@) == texts(list@),
{
    let mut out: Vec<String> = Vec::new();
    for i in 0..list.len()
        invariant
            out@.len() == i,
            forall|j: int| 0 <= j < i ==> #[trigger] out@[j]@ == list@[j]@,
    {
        out.push(list[i].clone());
    }
    assert(texts(out@) =~= texts(list@));
    out
}

/// How many characters the texts of `list` have together.
pub open spec fn total_len(list: Seq<Seq<char>>) -> nat
    decreases list.len(),
{
    if list.len() == 0 {
        0
    } else {
        total_len(list.drop_last()) + list.last().len()
    }
}

/// What is found is a match, and there is none before it; where nothing is
/// found there is none.
pub proof fn the_index_is_the_first(hay: Seq<char>, needle: Seq<char>, i: int)
    requires
        0 <= i,
    ensures
        match index_from(hay, needle, i) {
            Some(at) => i <= at && occurs_at(hay, needle, at) && forall|j: int|
                i <= j < at ==> !occurs_at(hay, needle, j),
            None => forall|j: int| i <= j ==> !occurs_at(hay, needle, j),
        },
    decreases hay.len() + 1 - i,
{
    if i + needle.len() <= hay.len() && !occurs_at(hay, needle, i) {
        the_index_is_the_first(hay, needle, i + 1);
    }
}

/// A text holds a match of everything that it contains, and of nothing else.
pub proof fn matches_are_contained(hay: Seq<char>, needle: Seq<char>)
    ensures
        match_count(hay, needle) > 0 <==> contains_text(hay, needle),
    decreases hay.len(),
{
    if needle.len() == 0 {
        assert(hay.subrange(0, 0) =~= needle);
        assert(occurs_at(hay, needle, 0));
    } else if hay.len() >= needle.len() {
        if hay.subrange(0, needle.len() as int) == needle {
            assert(occurs_at(hay, needle, 0));
        } else {
            let rest = hay.skip(1);
            matches_are_contained(rest, needle);
            assert forall|i: int| 0 <= i implies #[trigger] occurs_at(rest, needle, i) == occurs_at(
                hay,
                needle,
                i + 1,
            ) by {
                if i + needle.len() <= rest.len() {
                    assert(rest.subrange(i, i + needle.len()) =~= hay.subrange(
                        i + 1,
                        i + 1 + needle.len(),
                    ));
                }
            }
            if contains_text(hay, needle) {
                let i = choose|i: int| occurs_at(hay, needle, i);
                assert(i != 0);
                assert(occurs_at(rest, needle, i - 1));
            }
            if contains_text(rest, needle) {
                let i = choose|i: int| occurs_at(rest, needle, i);
                assert(occurs_at(hay, needle, i + 1));
            }
        }
    }
}

/// A text that is not empty stands in itself once, at the front.
pub proof fn a_text_holds_itself_once(text: Seq<char>)
    requires
        text.len() > 0,
    ensures
        match_count(text, text) == 1,
        index_from(text, text, 0) == Some(0int),
{
    assert(text.subrange(0, text.len() as int) =~= text);
    assert(match_count(text.skip(text.len() as int), text) == 0);
}

/// A text holds no more disjoint matches of a non-empty needle than characters.
pub proof fn matches_fit_the_text(hay: Seq<char>, needle: Seq<char>)
    requires
        needle.len() > 0,
    ensures
        match_count(hay, needle) <= hay.len(),
    decreases hay.len(),
{
    if hay.len() >= needle.len() {
        if hay.subrange(0, needle.len() as int) == needle {
            matches_fit_the_text(hay.skip(needle.len() as int), needle);
        } else {
            matches_fit_the_text(hay.skip(1), needle);
        }
    }
}

/// The lengths of two lists of texts add up.
pub proof fn total_len_adds_up(a: Seq<Seq<char>>, b: Seq<Seq<char>>)
    ensures
        total_len(a + b) == total_len(a) + total_len(b),
    decreases b.len(),
{
    if b.len() == 0 {
        assert(a + b =~= a);
    } else {
        total_len_adds_up(a, b.drop_last());
        assert((a + b).drop_last() =~= a + b.drop_last());
    }
}

/// The number that a row of decimal digits spells.
pub open spec fn spelled(digits: Seq<char>) -> int
    decreases digits.len(),
{
    if digits.len() == 0 {
        0
    } else {
        10 * spelled(digits.drop_last()) + (digits.last() as int - 48)
    }
}

/// Whether all characters are decimal digits.
pub open spec fn all_digits(s: Seq<char>) -> bool {
    forall|i: int| 0 <= i < s.len() ==> 48 <= #[trigger] s[i] as int <= 57
}

/// A number is written in decimal digits that spell it, without leading zeros.
pub proof fn digits_spell_the_number(n: nat)
    ensures
        all_digits(decimal(n)),
        spelled(decimal(n)) == n,
        decimal(n).len() > 0,
        n > 0 ==> decimal(n)[0] as int != 48,
        n == 0 ==> decimal(n).len() == 1,
    decreases n,
{
    if n < 10 {
        assert(decimal(n).drop_last() =~= seq![]);
        assert(spelled(decimal(n).drop_last()) == 0);
    } else {
        digits_spell_the_number(n / 10);
        assert(decimal(n).drop_last() =~= decimal(n / 10));
    }
}

/// Zeros in front change nothing in what is spelled.
proof fn leading_zeros_spell_nothing(k: nat, digits: Seq<char>)
    ensures
        spelled(Seq::new(k, |i: int| '0') + digits) == spelled(digits),
    decreases k, digits.len(),
{
    let zeros = Seq::new(k, |i: int| '0');
    let all = zeros + digits;
    if digits.len() > 0 {
        leading_zeros_spell_nothing(k, digits.drop_last());
        assert(all.drop_last() =~= zeros + digits.drop_last());
    } else if k > 0 {
        leading_zeros_spell_nothing((k - 1) as nat, digits);
        assert(all.drop_last() =~= Seq::new((k - 1) as nat, |i: int| '0') + digits);
    } else {
        assert(all =~= digits);
    }
}

/// A number filled up with zeros spells itself still, in as many digits as were
/// asked for, or more where it needs more.
pub proof fn padding_keeps_the_number(n: nat, width: nat)
    ensures
        all_digits(zero_padded(n, width)),
        spelled(zero_padded(n, width)) == n,
        zero_padded(n, width).len() >= width,
        zero_padded(n, width).len() > width ==> zero_padded(n, width) == decimal(n),
{
    digits_spell_the_number(n);
    if decimal(n).len() < width {
        let gap = (width - decimal(n).len()) as nat;
        leading_zeros_spell_nothing(gap, decimal(n));
        assert(zero_padded(n, width) =~= Seq::new(gap, |i: int| '0') + decimal(n));
    }
}

/// Two numbers that look the same are the same, filled up or not.
pub proof fn numbers_look_different(n: nat, m: nat, width: nat)
    requires
        n != m,
    ensures
        decimal(n) != decimal(m),
        zero_padded(n, width) != zero_padded(m, width),
{
    digits_spell_the_number(n);
    digits_spell_the_number(m);
    padding_keeps_the_number(n, width);
    padding_keeps_the_number(m, width);
}

/// A number in columns stands at their right end, behind blanks.
pub proof fn aligned_numbers_stand_right(n: nat, width: nat)
    ensures
        ({
            let all = right_aligned(n, width);
            let digits = decimal(n);
            &&& all.len() == if digits.len() < width {
                width
            } else {
                digits.len()
            }
            &&& all.skip(all.len() - digits.len()) == digits
            &&& forall|i: int| 0 <= i < all.len() - digits.len() ==> all[i] == ' '
        }),
{
    assert(right_aligned(n, width).skip(right_aligned(n, width).len() - decimal(n).len())
        =~= decimal(n));
}

/// A negative number is a minus in front of digits that spell its magnitude, any
/// other is digits alone.
pub proof fn signs_stand_in_front(n: int)
    ensures
        n < 0 ==> signed_decimal(n).len() > 0 && signed_decimal(n)[0] == '-' && all_digits(
            signed_decimal(n).skip(1),
        ) && spelled(signed_decimal(n).skip(1)) == -n,
        n >= 0 ==> all_digits(signed_decimal(n)) && spelled(signed_decimal(n)) == n,
{
    if n < 0 {
        digits_spell_the_number((-n) as nat);
        assert(signed_decimal(n).skip(1) =~= decimal((-n) as nat));
    } else {
        digits_spell_the_number(n as nat);
    }
}

/// What is trimmed off is white space at the end, all of it and nothing else.
pub proof fn only_white_space_is_trimmed(text: Seq<char>)
    ensures
        trimmed_end(text).len() <= text.len(),
        trimmed_end(text) == text.take(trimmed_end(text).len() as int),
        forall|i: int|
            trimmed_end(text).len() <= i < text.len() ==> white_space(#[trigger] text[i]),
        trimmed_end(text).len() > 0 ==> !white_space(trimmed_end(text).last()),
    decreases text.len(),
{
    if text.len() > 0 && white_space(text.last()) {
        let front = text.drop_last();
        only_white_space_is_trimmed(front);
        assert(trimmed_end(text) =~= text.take(trimmed_end(text).len() as int));
        assert forall|i: int| trimmed_end(text).len() <= i < text.len() implies white_space(
            #[trigger] text[i],
        ) by {
            if i < front.len() {
                assert(front[i] == text[i]);
            }
        }
    } else {
        assert(text.take(text.len() as int) =~= text);
    }
}

/// Texts one after the other: none is lost, none is moved.
pub proof fn texts_follow_each_other(a: Seq<Seq<char>>, b: Seq<Seq<char>>, one: Seq<char>)
    ensures
        concat(a + b) == concat(a) + concat(b),
        concat(seq![one]) == one,
    decreases b.len(),
{
    assert(seq![one].drop_last() =~= seq![]);
    assert(concat(seq![one].drop_last()) == Seq::<char>::empty());
    assert(concat(seq![one]) =~= one);
    if b.len() == 0 {
        assert(a + b =~= a);
        assert(concat(a) + concat(b) =~= concat(a));
    } else {
        texts_follow_each_other(a, b.drop_last(), one);
        assert((a + b).drop_last() =~= a + b.drop_last());
        assert(concat(a + b) =~= concat(a) + concat(b));
    }
}

/// Between two lists of texts, joined, stands the separator once.
pub proof fn separators_stand_between(a: Seq<Seq<char>>, b: Seq<Seq<char>>, sep: Seq<char>)
    requires
        a.len() > 0,
        b.len() > 0,
    ensures
        joined(a + b, sep) == joined(a, sep) + sep + joined(b, sep),
        a.len() == 1 ==> joined(a, sep) == a[0],
    decreases b.len(),
{
    assert((a + b).drop_last() =~= a + b.drop_last());
    if b.len() == 1 {
        assert(a + b.drop_last() =~= a);
    } else {
        separators_stand_between(a, b.drop_last(), sep);
        assert(joined(a + b, sep) =~= joined(a, sep) + sep + joined(b, sep));
    }
}

/// Whether `needle` stands in `hay` at each of the positions, and none of these
/// matches overlaps another.
pub open spec fn disjoint_matches(hay: Seq<char>, needle: Seq<char>, at: Seq<int>) -> bool {
    &&& forall|i: int| 0 <= i < at.len() ==> occurs_at(hay, needle, #[trigger] at[i])
    &&& forall|i: int, j: int|
        0 <= i < j < at.len() ==> #[trigger] at[i] + needle.len() <= #[trigger] at[j]
}

/// A match in what is left of a text is one in the text.
proof fn matches_behind(hay: Seq<char>, needle: Seq<char>, k: int, i: int)
    requires
        0 <= k <= hay.len(),
        0 <= i,
    ensures
        occurs_at(hay.skip(k), needle, i) == occurs_at(hay, needle, k + i),
{
    if k + i + needle.len() <= hay.len() {
        assert(hay.skip(k).subrange(i, i + needle.len()) =~= hay.subrange(
            k + i,
            k + i + needle.len(),
        ));
    }
}

/// No selection of matches that do not overlap is larger than the count.
pub proof fn no_more_matches_than_counted(hay: Seq<char>, needle: Seq<char>, at: Seq<int>)
    requires
        needle.len() > 0,
        disjoint_matches(hay, needle, at),
    ensures
        at.len() <= match_count(hay, needle),
    decreases hay.len(),
{
    if at.len() > 0 {
        assert(occurs_at(hay, needle, at[0]));
        let step = if hay.subrange(0, needle.len() as int) == needle {
            needle.len() as int
        } else {
            1
        };
        let first = if step == needle.len() && hay.subrange(0, needle.len() as int) == needle {
            1int
        } else {
            0
        };
        let rest = Seq::new((at.len() - first) as nat, |i: int| at[i + first] - step);
        assert forall|i: int| 0 <= i < rest.len() implies occurs_at(
            hay.skip(step),
            needle,
            #[trigger] rest[i],
        ) by {
            assert(occurs_at(hay, needle, at[i + first]));
            if first == 1 {
                assert(at[0] + needle.len() <= at[i + first]);
            } else {
                assert(at[i + first] != 0);
            }
            matches_behind(hay, needle, step, rest[i]);
        }
        assert forall|i: int, j: int| 0 <= i < j < rest.len() implies #[trigger] rest[i]
            + needle.len() <= #[trigger] rest[j] by {
            assert(at[i + first] + needle.len() <= at[j + first]);
        }
        no_more_matches_than_counted(hay.skip(step), needle, rest);
    }
}

/// There are as many matches that do not overlap as are counted.
pub proof fn the_counted_matches_stand(hay: Seq<char>, needle: Seq<char>) -> (at: Seq<int>)
    requires
        needle.len() > 0,
    ensures
        disjoint_matches(hay, needle, at),
        at.len() == match_count(hay, needle),
    decreases hay.len(),
{
    if hay.len() < needle.len() {
        seq![]
    } else {
        let found = hay.subrange(0, needle.len() as int) == needle;
        let step = if found {
            needle.len() as int
        } else {
            1
        };
        let rest = the_counted_matches_stand(hay.skip(step), needle);
        let moved = Seq::new(rest.len(), |i: int| rest[i] + step);
        let at = if found {
            seq![0int] + moved
        } else {
            moved
        };
        let lead = if found {
            1int
        } else {
            0
        };
        assert forall|i: int| 0 <= i < at.len() implies occurs_at(hay, needle, #[trigger] at[i]) by {
            if i >= lead {
                assert(occurs_at(hay.skip(step), needle, rest[i - lead]));
                matches_behind(hay, needle, step, rest[i - lead]);
            }
        }
        assert forall|i: int, j: int| 0 <= i < j < at.len() implies #[trigger] at[i]
            + needle.len() <= #[trigger] at[j] by {
            assert(occurs_at(hay.skip(step), needle, rest[j - lead]));
            if i >= lead {
                assert(rest[i - lead] + needle.len() <= rest[j - lead]);
            }
        }
        at
    }
}

/// The white space is the tab, the four line ends beside it, the blank, the line end of
/// eight bits, the blank that does not break, and the blanks and separators that scripts
/// and typesetting have besides: twenty-five characters in all.
pub proof fn white_space_is_listed(c: char)
    ensures
        white_space(c) <==> seq![
            '\t', '\n', '\u{b}', '\u{c}', '\r', ' ', '\u{85}', '\u{a0}', '\u{1680}',
            '\u{2000}', '\u{2001}', '\u{2002}', '\u{2003}', '\u{2004}', '\u{2005}',
            '\u{2006}', '\u{2007}', '\u{2008}', '\u{2009}', '\u{200a}', '\u{2028}',
            '\u{2029}', '\u{202f}', '\u{205f}', '\u{3000}',
        ].contains(c),
{
    let all = seq![
        '\t', '\n', '\u{b}', '\u{c}', '\r', ' ', '\u{85}', '\u{a0}', '\u{1680}',
        '\u{2000}', '\u{2001}', '\u{2002}', '\u{2003}', '\u{2004}', '\u{2005}',
        '\u{2006}', '\u{2007}', '\u{2008}', '\u{2009}', '\u{200a}', '\u{2028}',
        '\u{2029}', '\u{202f}', '\u{205f}', '\u{3000}',
    ];
    let n = c as int;
    if 0x9 <= n <= 0xD {
        assert(all[n - 0x9] == c);
    } else if 0x2000 <= n <= 0x200A {
        assert(all[n - 0x2000 + 9] == c);
    } else if white_space(c) {
        assert(all[5] == c || all[6] == c || all[7] == c || all[8] == c || all[20] == c || all[21]
            == c || all[22] == c || all[23] == c || all[24] == c);
    }
}

/// Nothing is found before every character and at the end.
pub proof fn nothing_is_found_everywhere(hay: Seq<char>, c: char)
    ensures
        match_count(seq![], seq![]) == 1,
        match_count(hay.push(c), seq![]) == match_count(hay, seq![]) + 1,
{
}

} // verus!
