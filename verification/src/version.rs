//! The grammar and the ordering of version strings.
//!
//! A version is a dotted numeric base, optionally followed by an underscore
//! and a revision number, as in `3.2.4_4`. Everything here works on sequences
//! of characters; the string-facing functions live in `helpers`.

use vstd::prelude::*;
use crate::text::{char_is_digit, digit_value, is_digit};

verus! {

/// Whether every character of `s` is a decimal digit.
pub open spec fn all_digits(s: Seq<char>) -> bool {
    forall|i: int| 0 <= i < s.len() ==> is_digit(#[trigger] s[i])
}

/// The number that the digits of `s` denote in base ten.
pub open spec fn decimal_value(s: Seq<char>) -> nat
    decreases s.len(),
{
    if s.len() == 0 {
        0
    } else {
        decimal_value(s.drop_last()) * 10 + digit_value(s.last())
    }
}

/// The number that an unsigned digit string denotes: at least one digit and
/// nothing else, with a value that fits in 32 bits.
pub open spec fn digits_number(digits: Seq<char>) -> Option<u32> {
    if digits.len() > 0 && all_digits(digits) && decimal_value(digits) <= u32::MAX {
        Some(decimal_value(digits) as u32)
    } else {
        None
    }
}

/// The number that `s` denotes as an unsigned 32-bit decimal: an optional
/// leading `+`, then an unsigned digit string. Anything else denotes no
/// number.
pub open spec fn parse_number(s: Seq<char>) -> Option<u32> {
    if s.len() > 0 && s[0] == '+' {
        digits_number(s.skip(1))
    } else {
        digits_number(s)
    }
}

/// The position of the first `.` in `s`, or the length of `s` if it has none.
pub open spec fn first_dot(s: Seq<char>) -> int
    decreases s.len(),
{
    if s.len() == 0 || s[0] == '.' {
        0
    } else {
        1 + first_dot(s.skip(1))
    }
}

/// The numeric components of a dotted base: `s` is cut at every `.`, and each
/// piece that denotes a number contributes it; the other pieces are dropped.
pub open spec fn numeric_components(s: Seq<char>) -> Seq<u32>
    decreases s.len(),
{
    let k = first_dot(s);
    let head = match parse_number(s.take(k)) {
        Some(n) => seq![n],
        None => Seq::<u32>::empty(),
    };
    if 0 <= k < s.len() {
        head + numeric_components(s.skip(k + 1))
    } else {
        head
    }
}

/// The position of the last `_` in `s`, or -1 if it has none.
pub open spec fn last_underscore(s: Seq<char>) -> int
    decreases s.len(),
{
    if s.len() == 0 {
        -1
    } else if s.last() == '_' {
        s.len() - 1
    } else {
        last_underscore(s.drop_last())
    }
}

/// The base of a version: what stands before its last `_`, or all of it.
pub open spec fn version_base(s: Seq<char>) -> Seq<char> {
    let p = last_underscore(s);
    if p < 0 {
        s
    } else {
        s.take(p)
    }
}

/// The revision of a version: the number after its last `_`; 0 where there is
/// no `_` or what follows it denotes no number.
pub open spec fn version_revision(s: Seq<char>) -> u32 {
    let p = last_underscore(s);
    if p < 0 {
        0
    } else {
        match parse_number(s.skip(p + 1)) {
            Some(n) => n,
            None => 0,
        }
    }
}

/// Component `i` of `parts`, with every missing component read as zero.
pub open spec fn component_at(parts: Seq<u32>, i: int) -> int {
    if 0 <= i < parts.len() {
        parts[i] as int
    } else {
        0
    }
}

/// The longer of the two lengths.
pub open spec fn longer_len(a: Seq<u32>, b: Seq<u32>) -> int {
    if a.len() >= b.len() {
        a.len() as int
    } else {
        b.len() as int
    }
}

/// Compares two component lists from position `i` on: -1, 0 or 1 according
/// to the first position at which they differ, 0 if there is none.
pub open spec fn components_order_from(a: Seq<u32>, b: Seq<u32>, i: int) -> int
    decreases longer_len(a, b) - i,
{
    if i < 0 || i >= longer_len(a, b) {
        0
    } else if component_at(a, i) < component_at(b, i) {
        -1
    } else if component_at(a, i) > component_at(b, i) {
        1
    } else {
        components_order_from(a, b, i + 1)
    }
}

/// The order of two dotted bases: -1, 0 or 1.
pub open spec fn base_order(a: Seq<char>, b: Seq<char>) -> int {
    components_order_from(numeric_components(a), numeric_components(b), 0)
}

/// The order of two versions: that of their bases, and between equal bases
/// that of their revisions. -1 means `a` is older, 1 that it is newer.
pub open spec fn version_order(a: Seq<char>, b: Seq<char>) -> int {
    let by_base = base_order(version_base(a), version_base(b));
    if by_base != 0 {
        by_base
    } else if version_revision(a) < version_revision(b) {
        -1
    } else if version_revision(a) > version_revision(b) {
        1
    } else {
        0
    }
}

/// From `i` on, a component list compares equal to itself.
proof fn lemma_components_order_same(a: Seq<u32>, i: int)
    ensures
        components_order_from(a, a, i) == 0,
    decreases longer_len(a, a) - i,
{
    if 0 <= i < longer_len(a, a) {
        lemma_components_order_same(a, i + 1);
    }
}

/// Swapping the two lists flips the sign of their order.
proof fn lemma_components_order_flip(a: Seq<u32>, b: Seq<u32>, i: int)
    ensures
        components_order_from(b, a, i) == -components_order_from(a, b, i),
        -1 <= components_order_from(a, b, i) <= 1,
    decreases longer_len(a, b) - i,
{
    assert(longer_len(a, b) == longer_len(b, a));
    if 0 <= i < longer_len(a, b) && component_at(a, i) == component_at(b, i) {
        lemma_components_order_flip(a, b, i + 1);
    }
}

/// The longest of three lengths.
pub open spec fn longest_len(a: Seq<u32>, b: Seq<u32>, c: Seq<u32>) -> int {
    if longer_len(a, b) >= c.len() {
        longer_len(a, b)
    } else {
        c.len() as int
    }
}

/// From `i` on, the order of component lists is transitive.
proof fn lemma_components_order_chain(a: Seq<u32>, b: Seq<u32>, c: Seq<u32>, i: int)
    requires
        0 <= i,
        components_order_from(a, b, i) <= 0,
        components_order_from(b, c, i) <= 0,
    ensures
        components_order_from(a, c, i) <= 0,
        components_order_from(a, b, i) < 0 || components_order_from(b, c, i) < 0
            ==> components_order_from(a, c, i) < 0,
    decreases longest_len(a, b, c) - i,
{
    if i < longest_len(a, b, c) {
        let x = component_at(a, i);
        let y = component_at(b, i);
        let z = component_at(c, i);
        assert(x <= y && y <= z);
        if x == z {
            assert(components_order_from(a, b, i) == components_order_from(a, b, i + 1));
            assert(components_order_from(b, c, i) == components_order_from(b, c, i + 1));
            assert(components_order_from(a, c, i) == components_order_from(a, c, i + 1));
            lemma_components_order_chain(a, b, c, i + 1);
        }
    }
}

/// The order of versions compares every pair: the result is -1, 0 or 1, a
/// version is equal to itself, and swapping the two versions flips the sign.
pub proof fn version_order_is_total(a: Seq<char>, b: Seq<char>)
    ensures
        -1 <= version_order(a, b) <= 1,
        version_order(a, a) == 0,
        version_order(b, a) == -version_order(a, b),
{
    let ca = numeric_components(version_base(a));
    let cb = numeric_components(version_base(b));
    lemma_components_order_same(ca, 0);
    lemma_components_order_flip(ca, cb, 0);
}

/// The order of versions is transitive: where `a` is not newer than `b` and
/// `b` not newer than `c`, `a` is not newer than `c`; and `a` is older than
/// `c` as soon as one of the two steps is strict.
pub proof fn version_order_is_transitive(a: Seq<char>, b: Seq<char>, c: Seq<char>)
    ensures
        version_order(a, b) <= 0 && version_order(b, c) <= 0 ==> version_order(a, c) <= 0,
        version_order(a, b) <= 0 && version_order(b, c) <= 0 && (version_order(a, b) < 0
            || version_order(b, c) < 0) ==> version_order(a, c) < 0,
{
    let ca = numeric_components(version_base(a));
    let cb = numeric_components(version_base(b));
    let cc = numeric_components(version_base(c));
    lemma_components_order_flip(ca, cb, 0);
    lemma_components_order_flip(cb, cc, 0);
    lemma_components_order_flip(ca, cc, 0);
    if version_order(a, b) <= 0 && version_order(b, c) <= 0 {
        lemma_components_order_chain(ca, cb, cc, 0);
    }
}

/// Two lists compare equal from `i` on exactly when they agree at every
/// position from `i` on, missing components read as zero.
proof fn lemma_components_order_equal(a: Seq<u32>, b: Seq<u32>, i: int)
    requires
        0 <= i,
    ensures
        components_order_from(a, b, i) == 0 <==> (forall|j: int|
            i <= j ==> component_at(a, j) == component_at(b, j)),
    decreases longer_len(a, b) - i,
{
    if i < longer_len(a, b) {
        if component_at(a, i) == component_at(b, i) {
            lemma_components_order_equal(a, b, i + 1);
            if components_order_from(a, b, i) == 0 {
                assert forall|j: int| i <= j implies component_at(a, j) == component_at(b, j) by {
                    if j > i {
                        assert(i + 1 <= j);
                    }
                }
            }
        } else {
            assert(i <= i);
        }
    }
}

/// Two versions are of equal rank exactly when their bases have the same
/// numeric components, missing ones read as zero, and their revisions are
/// the same number.
pub proof fn version_order_equal_means_same_numbers(a: Seq<char>, b: Seq<char>)
    ensures
        version_order(a, b) == 0 <==> {
            &&& forall|j: int|
                0 <= j ==> component_at(numeric_components(version_base(a)), j) == component_at(
                    numeric_components(version_base(b)),
                    j,
                )
            &&& version_revision(a) == version_revision(b)
        },
{
    lemma_components_order_equal(
        numeric_components(version_base(a)),
        numeric_components(version_base(b)),
        0,
    );
}

/// A prefix never denotes more than the whole.
proof fn lemma_decimal_value_prefix(s: Seq<char>, k: int)
    requires
        0 <= k <= s.len(),
    ensures
        decimal_value(s.take(k)) <= decimal_value(s),
    decreases s.len(),
{
    if k == s.len() {
        assert(s.take(k) =~= s);
    } else {
        assert(s.drop_last().take(k) =~= s.take(k));
        lemma_decimal_value_prefix(s.drop_last(), k);
    }
}

/// Where `s` has a `.` at `k` and none before, or no `.` at all and `k` is its
/// length, `k` is its first dot.
proof fn lemma_first_dot(s: Seq<char>, k: int)
    requires
        0 <= k <= s.len(),
        forall|j: int| 0 <= j < k ==> s[j] != '.',
        k == s.len() || s[k] == '.',
    ensures
        first_dot(s) == k,
    decreases k,
{
    if k > 0 {
        let rest = s.skip(1);
        assert forall|j: int| 0 <= j < k - 1 implies rest[j] != '.' by {
            assert(rest[j] == s[j + 1]);
        }
        lemma_first_dot(rest, k - 1);
    }
}

/// Where `s` has a `_` at `p` and none after, `p` is its last underscore;
/// where it has none at all, there is no last underscore.
proof fn lemma_last_underscore(s: Seq<char>, p: int)
    requires
        -1 <= p < s.len(),
        forall|j: int| p < j < s.len() ==> s[j] != '_',
        p >= 0 ==> s[p] == '_',
    ensures
        last_underscore(s) == p,
    decreases s.len(),
{
    if s.len() > 0 && p < s.len() - 1 {
        let front = s.drop_last();
        assert forall|j: int| p < j < front.len() implies front[j] != '_' by {
            assert(front[j] == s[j]);
        }
        if p >= 0 {
            assert(front[p] == s[p]);
        }
        lemma_last_underscore(front, p);
    }
}

/// Reads the characters `chars[from..to]` as an unsigned 32-bit decimal.
pub(crate) fn parse_number_in(chars: &Vec<char>, from: usize, to: usize) -> (number: Option<u32>)
    requires
        from <= to <= chars.len(),
    ensures
        number == parse_number(chars@.subrange(from as int, to as int)),
{
    let ghost piece = chars@.subrange(from as int, to as int);
    let mut start: usize = from;
    if start < to && chars[start] == '+' {
        start = start + 1;
    }
    let ghost digits = chars@.subrange(start as int, to as int);
    proof {
        if start > from {
            assert(piece[0] == '+');
            assert(piece.skip(1) =~= digits);
        } else {
            assert(piece =~= digits);
            if piece.len() > 0 {
                assert(piece[0] == chars@[from as int]);
            }
        }
    }
    if start == to {
        return None;
    }
    let mut value: u64 = 0;
    let mut i: usize = start;
    while i < to
        invariant
            start <= i <= to <= chars.len(),
            digits == chars@.subrange(start as int, to as int),
            parse_number(chars@.subrange(from as int, to as int)) == digits_number(digits),
            all_digits(digits.take(i - start)),
            value == decimal_value(digits.take(i - start)),
            value <= u32::MAX,
        decreases to - i,
    {
        let c = chars[i];
        assert(digits[i - start] == c);
        if !char_is_digit(c) {
            return None;
        }
        let code: u32 = c as u32;
        let digit: u64 = (code - 48) as u64;
        let next: u64 = value * 10 + digit;
        proof {
            let shorter = digits.take(i - start);
            let longer = digits.take(i - start + 1);
            assert(longer.drop_last() =~= shorter);
            assert(longer.last() == c);
            assert(next == decimal_value(longer));
            assert forall|j: int| 0 <= j < longer.len() implies is_digit(#[trigger] longer[j]) by {
                if j < shorter.len() {
                    assert(longer[j] == shorter[j]);
                }
            }
            lemma_decimal_value_prefix(digits, i - start + 1);
        }
        if next > 0xffff_ffff {
            return None;
        }
        value = next;
        i = i + 1;
    }
    proof {
        assert(digits.take(i - start) =~= digits);
    }
    Some(value as u32)
}

/// Cuts a dotted base at its dots and collects the pieces that are numbers.
pub fn parse_components(chars: &Vec<char>) -> (parts: Vec<u32>)
    ensures
        parts@ == numeric_components(chars@),
{
    let n = chars.len();
    let mut parts: Vec<u32> = Vec::new();
    let mut start: usize = 0;
    let mut done = false;
    proof {
        assert(chars@.skip(0) =~= chars@);
    }
    while !done
        invariant
            n == chars.len(),
            start <= n,
            done ==> parts@ == numeric_components(chars@),
            !done ==> numeric_components(chars@) == parts@ + numeric_components(
                chars@.skip(start as int),
            ),
        decreases n - start + (if done { 0int } else { 1int }),
    {
        let mut end: usize = start;
        while end < n && chars[end] != '.'
            invariant
                n == chars.len(),
                start <= end <= n,
                forall|j: int| start <= j < end ==> chars@[j] != '.',
            decreases n - end,
        {
            end = end + 1;
        }
        let piece = parse_number_in(chars, start, end);
        let ghost rest = chars@.skip(start as int);
        let ghost before = parts@;
        proof {
            assert forall|j: int| 0 <= j < end - start implies rest[j] != '.' by {
                assert(rest[j] == chars@[start + j]);
            }
            lemma_first_dot(rest, end - start);
            assert(rest.take(end - start) =~= chars@.subrange(start as int, end as int));
        }
        match piece {
            Some(number) => {
                parts.push(number);
            },
            None => {},
        }
        if end == n {
            done = true;
            proof {
                assert(before + numeric_components(rest) =~= parts@);
            }
        } else {
            proof {
                assert(rest.skip(end - start + 1) =~= chars@.skip(end + 1));
                let head = match parse_number(rest.take(end - start)) {
                    Some(number) => seq![number],
                    None => Seq::<u32>::empty(),
                };
                assert(before + (head + numeric_components(chars@.skip(end + 1))) =~= parts@
                    + numeric_components(chars@.skip(end + 1)));
            }
            start = end + 1;
        }
    }
    parts
}

/// Finds the last `_` among `chars`.
pub fn find_last_underscore(chars: &Vec<char>) -> (position: Option<usize>)
    ensures
        match position {
            Some(p) => p < chars.len() && p == last_underscore(chars@),
            None => last_underscore(chars@) == -1,
        },
{
    let mut i: usize = chars.len();
    while i > 0
        invariant
            i <= chars.len(),
            forall|j: int| i <= j < chars.len() ==> chars@[j] != '_',
        decreases i,
    {
        i = i - 1;
        if chars[i] == '_' {
            proof {
                lemma_last_underscore(chars@, i as int);
            }
            return Some(i);
        }
    }
    proof {
        lemma_last_underscore(chars@, -1);
    }
    None
}

/// Compares two component lists position by position, a missing component
/// counting as zero; the sign of the result is their order.
pub fn compare_components(a: &Vec<u32>, b: &Vec<u32>) -> (sign: i8)
    ensures
        sign == components_order_from(a@, b@, 0),
{
    let max_len = if a.len() >= b.len() {
        a.len()
    } else {
        b.len()
    };
    let mut i: usize = 0;
    while i < max_len
        invariant
            i <= max_len,
            max_len == longer_len(a@, b@),
            components_order_from(a@, b@, 0) == components_order_from(a@, b@, i as int),
        decreases max_len - i,
    {
        let a_part: u32 = if i < a.len() {
            a[i]
        } else {
            0
        };
        let b_part: u32 = if i < b.len() {
            b[i]
        } else {
            0
        };
        assert(a_part == component_at(a@, i as int));
        assert(b_part == component_at(b@, i as int));
        if a_part < b_part {
            return -1;
        }
        if a_part > b_part {
            return 1;
        }
        i = i + 1;
    }
    0
}

} // verus!
