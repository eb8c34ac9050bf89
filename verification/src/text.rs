//! Plain-text helpers: decimal rendering and parsing, list joining,
//! ASCII case folding and whitespace trimming.

use vstd::prelude::*;
use crate::strutil::{push_char, str_eq};

verus! {

/// The character for one decimal digit.
pub open spec fn dec_digit_char(d: nat) -> char {
    if d == 0 {
        '0'
    } else if d == 1 {
        '1'
    } else if d == 2 {
        '2'
    } else if d == 3 {
        '3'
    } else if d == 4 {
        '4'
    } else if d == 5 {
        '5'
    } else if d == 6 {
        '6'
    } else if d == 7 {
        '7'
    } else if d == 8 {
        '8'
    } else {
        '9'
    }
}

/// The canonical decimal rendering of an unsigned number: no sign, no
/// leading zeros (except for the number zero itself).
pub open spec fn u64_dec(v: nat) -> Seq<char>
    decreases v,
{
    if v < 10 {
        seq![dec_digit_char(v)]
    } else {
        u64_dec(v / 10) + seq![dec_digit_char(v % 10)]
    }
}

/// The canonical decimal rendering of a signed number: a leading minus
/// sign for negative values, then the magnitude.
pub open spec fn i64_dec(v: int) -> Seq<char> {
    if v >= 0 {
        u64_dec(v as nat)
    } else {
        seq!['-'] + u64_dec((-v) as nat)
    }
}

/// Whether a character is a decimal digit.
pub open spec fn is_dec_digit(c: char) -> bool {
    '0' <= c <= '9'
}

/// The numeric value of a decimal digit character.
pub open spec fn digit_val(c: char) -> nat {
    (c as nat - '0' as nat) as nat
}

/// The number a digit string denotes, read left to right.
pub open spec fn dec_value(s: Seq<char>) -> nat
    decreases s.len(),
{
    if s.len() == 0 {
        0
    } else {
        dec_value(s.drop_last()) * 10 + digit_val(s.last())
    }
}

/// Whether a string is a nonempty run of decimal digits.
pub open spec fn is_digits(s: Seq<char>) -> bool {
    s.len() > 0 && forall|i: int| 0 <= i < s.len() ==> is_dec_digit(#[trigger] s[i])
}

/// Renders one digit.
fn dec_digit(d: u64) -> (c: char)
    requires
        d < 10,
    ensures
        c == dec_digit_char(d as nat),
{
    if d == 0 {
        '0'
    } else if d == 1 {
        '1'
    } else if d == 2 {
        '2'
    } else if d == 3 {
        '3'
    } else if d == 4 {
        '4'
    } else if d == 5 {
        '5'
    } else if d == 6 {
        '6'
    } else if d == 7 {
        '7'
    } else if d == 8 {
        '8'
    } else {
        '9'
    }
}

/// Renders an unsigned number in decimal.
pub fn u64_to_string(v: u64) -> (r: String)
    ensures
        r@ == u64_dec(v as nat),
    decreases v,
{
    if v < 10 {
        let mut s = String::new();
        push_char(&mut s, dec_digit(v));
        proof {
            assert(s@ =~= u64_dec(v as nat));
        }
        s
    } else {
        let mut s = u64_to_string(v / 10);
        push_char(&mut s, dec_digit(v % 10));
        proof {
            assert(s@ =~= u64_dec(v as nat));
        }
        s
    }
}

/// Renders a signed number in decimal.
pub fn i64_to_string(v: i64) -> (r: String)
    ensures
        r@ == i64_dec(v as int),
{
    if v >= 0 {
        u64_to_string(v as u64)
    } else {
        let m: u64 = (-(v as i128)) as u64;
        let mut s = String::new();
        push_char(&mut s, '-');
        let digits = u64_to_string(m);
        s.append(digits.as_str());
        proof {
            assert(s@ =~= i64_dec(v as int));
        }
        s
    }
}

/// Reads a nonempty digit string back as a number. Returns `None` exactly
/// when the text is empty, holds a non-digit, or denotes a value above
/// `u64::MAX`.
pub fn parse_u64(s: &str) -> (r: Option<u64>)
    ensures
        match r {
            Some(v) => is_digits(s@) && dec_value(s@) == v as nat,
            None => !is_digits(s@) || dec_value(s@) > u64::MAX,
        },
{
    let n = s.unicode_len();
    if n == 0 {
        return None;
    }
    let mut acc: u64 = 0;
    let mut i: usize = 0;
    proof {
        assert(s@.take(0) =~= Seq::<char>::empty());
    }
    while i < n
        invariant
            n == s@.len(),
            i <= n,
            acc as nat == dec_value(s@.take(i as int)),
            forall|j: int| 0 <= j < i ==> is_dec_digit(#[trigger] s@[j]),
        decreases n - i,
    {
        let c = s.get_char(i);
        if c < '0' || c > '9' {
            proof {
                assert(!is_dec_digit(s@[i as int]));
            }
            return None;
        }
        let d: u64 = (c as u32 - '0' as u32) as u64;
        let wide: u128 = acc as u128 * 10 + d as u128;
        if wide > u64::MAX as u128 {
            proof {
                assert(s@.take(i + 1).drop_last() =~= s@.take(i as int));
                assert(s@.take(i + 1).last() == s@[i as int]);
                assert(digit_val(s@[i as int]) == d as nat);
                assert(dec_value(s@.take(i + 1)) > u64::MAX);
                lemma_dec_value_grows(s@, i + 1, n as int);
                assert(s@.take(n as int) =~= s@);
            }
            return None;
        }
        acc = wide as u64;
        proof {
            assert(s@.take(i + 1).drop_last() =~= s@.take(i as int));
            assert(s@.take(i + 1).last() == s@[i as int]);
        }
        i = i + 1;
    }
    proof {
        assert(s@.take(n as int) =~= s@);
    }
    Some(acc)
}

/// The digit characters carry exactly their digit values.
proof fn lemma_digit_char_val(d: nat)
    requires
        d < 10,
    ensures
        digit_val(dec_digit_char(d)) == d,
        is_dec_digit(dec_digit_char(d)),
{
}

/// A longer digit prefix never denotes a smaller number, so once a prefix
/// overflows, the whole string does.
proof fn lemma_dec_value_grows(s: Seq<char>, i: int, n: int)
    requires
        0 <= i <= n <= s.len(),
    ensures
        dec_value(s.take(n)) >= dec_value(s.take(i)),
    decreases n - i,
{
    if i < n {
        lemma_dec_value_grows(s, i + 1, n);
        assert(s.take(i + 1).drop_last() =~= s.take(i));
        assert(dec_value(s.take(i + 1)) >= dec_value(s.take(i)));
    } else {
        assert(s.take(n) =~= s.take(i));
    }
}

/// Rendering and reading back are inverse: the canonical decimal form of a
/// number is all digits and denotes that same number.
pub proof fn lemma_dec_round_trip(v: nat)
    ensures
        is_digits(u64_dec(v)),
        dec_value(u64_dec(v)) == v,
    decreases v,
{
    if v < 10 {
        let w = u64_dec(v);
        assert(w == seq![dec_digit_char(v)]);
        assert(w.drop_last() =~= Seq::<char>::empty());
        assert(w.last() == dec_digit_char(v));
        lemma_digit_char_val(v);
        assert(dec_value(Seq::<char>::empty()) == 0);
        assert(dec_value(w) == 0 * 10 + digit_val(dec_digit_char(v)));
    } else {
        lemma_dec_round_trip(v / 10);
        lemma_digit_char_val(v % 10);
        let w = u64_dec(v / 10) + seq![dec_digit_char(v % 10)];
        assert(u64_dec(v) == w);
        assert(w.drop_last() =~= u64_dec(v / 10));
        assert(w.last() == dec_digit_char(v % 10));
        assert(dec_value(w) == dec_value(u64_dec(v / 10)) * 10 + digit_val(
            dec_digit_char(v % 10),
        ));
        assert(dec_value(w) == (v / 10) * 10 + v % 10);
    }
}

/// The joined form of a list of parts with a separator between neighbours.
pub open spec fn join_seq(parts: Seq<Seq<char>>, sep: Seq<char>) -> Seq<char>
    decreases parts.len(),
{
    if parts.len() == 0 {
        Seq::empty()
    } else if parts.len() == 1 {
        parts[0]
    } else {
        parts[0] + sep + join_seq(parts.drop_first(), sep)
    }
}

proof fn lemma_join_seq_snoc(parts: Seq<Seq<char>>, sep: Seq<char>, x: Seq<char>)
    ensures
        join_seq(parts.push(x), sep) == if parts.len() == 0 {
            x
        } else {
            join_seq(parts, sep) + sep + x
        },
    decreases parts.len(),
{
    let p = parts.push(x);
    if parts.len() == 0 {
        assert(p.len() == 1);
        assert(p[0] == x);
    } else if parts.len() == 1 {
        assert(p.drop_first().len() == 1);
        assert(p.drop_first()[0] == x);
        assert(join_seq(p.drop_first(), sep) == x);
        assert(p[0] == parts[0]);
        assert(join_seq(p, sep) == p[0] + sep + join_seq(p.drop_first(), sep));
        assert(join_seq(parts, sep) == parts[0]);
    } else {
        assert(p.drop_first() =~= parts.drop_first().push(x));
        assert(p[0] == parts[0]);
        lemma_join_seq_snoc(parts.drop_first(), sep, x);
        assert(join_seq(p, sep) == parts[0] + sep + (join_seq(parts.drop_first(), sep) + sep + x));
        assert(parts[0] + sep + (join_seq(parts.drop_first(), sep) + sep + x) =~= (parts[0] + sep
            + join_seq(parts.drop_first(), sep)) + sep + x);
    }
}

/// Joins the parts with the separator between neighbours.
pub fn join_with(parts: &Vec<String>, sep: &str) -> (r: String)
    ensures
        r@ == join_seq(parts.deep_view(), sep@),
{
    let mut out = String::new();
    let mut i: usize = 0;
    proof {
        assert(parts.deep_view().take(0) =~= Seq::<Seq<char>>::empty());
    }
    while i < parts.len()
        invariant
            i <= parts.len(),
            out@ == join_seq(parts.deep_view().take(i as int), sep@),
        decreases parts.len() - i,
    {
        if i > 0 {
            out.append(sep);
        }
        out.append(parts[i].as_str());
        proof {
            lemma_join_seq_snoc(parts.deep_view().take(i as int), sep@, parts.deep_view()[i as int]);
            assert(parts.deep_view().take(i + 1) =~= parts.deep_view().take(i as int).push(
                parts.deep_view()[i as int],
            ));
            assert(parts.deep_view()[i as int] == parts[i as int]@);
        }
        i = i + 1;
    }
    proof {
        assert(parts.deep_view().take(parts.len() as int) =~= parts.deep_view());
    }
    out
}

/// The segments of a string split on a separator character: one more
/// segment than there are separators, in order, separators not included.
pub open spec fn split_char(s: Seq<char>, sep: char) -> Seq<Seq<char>>
    decreases s.len(),
{
    if s.len() == 0 {
        seq![Seq::<char>::empty()]
    } else {
        let rest = split_char(s.drop_first(), sep);
        if s[0] == sep {
            seq![Seq::<char>::empty()] + rest
        } else {
            seq![seq![s[0]] + rest[0]] + rest.drop_first()
        }
    }
}

/// Splitting yields at least one segment.
pub proof fn lemma_split_char_nonempty(s: Seq<char>, sep: char)
    ensures
        split_char(s, sep).len() >= 1,
    decreases s.len(),
{
    if s.len() > 0 {
        lemma_split_char_nonempty(s.drop_first(), sep);
    }
}

/// A partly-read split: the pending segment prefix joined onto the first
/// remaining segment, followed by the other remaining segments.
pub open spec fn prepend_first(p: Seq<char>, parts: Seq<Seq<char>>) -> Seq<Seq<char>> {
    seq![p + parts[0]] + parts.drop_first()
}

/// Splits a string on a separator character.
pub fn split_string(s: &str, sep: char) -> (r: Vec<String>)
    ensures
        r.deep_view() == split_char(s@, sep),
{
    let n = s.unicode_len();
    let mut out: Vec<String> = Vec::new();
    let mut cur = String::new();
    let mut i: usize = 0;
    proof {
        assert(s@.skip(0) =~= s@);
    }
    while i < n
        invariant
            n == s@.len(),
            i <= n,
            split_char(s@, sep) == out.deep_view() + prepend_first(
                cur@,
                split_char(s@.skip(i as int), sep),
            ),
        decreases n - i,
    {
        let c = s.get_char(i);
        proof {
            assert(s@.skip(i as int)[0] == s@[i as int]);
            assert(s@.skip(i as int).drop_first() =~= s@.skip(i + 1));
            lemma_split_char_nonempty(s@.skip(i + 1), sep);
        }
        if c == sep {
            let ghost rest = split_char(s@.skip(i + 1), sep);
            proof {
                assert(split_char(s@.skip(i as int), sep) == seq![Seq::<char>::empty()] + rest);
                assert(prepend_first(cur@, seq![Seq::<char>::empty()] + rest) =~~= seq![cur@]
                    + prepend_first(Seq::<char>::empty(), rest));
                assert(cur@ + (seq![Seq::<char>::empty()] + rest)[0] =~= cur@);
                assert((seq![Seq::<char>::empty()] + rest).drop_first() =~= rest);
                assert(Seq::<char>::empty() + rest[0] =~= rest[0]);
                assert(seq![rest[0]] + rest.drop_first() =~~= rest);
            }
            out.push(cur);
            cur = String::new();
            proof {
                assert(prepend_first(Seq::<char>::empty(), rest) =~~= rest);
                assert(out.deep_view() + prepend_first(cur@, rest) =~~= split_char(s@, sep));
            }
        } else {
            let ghost rest = split_char(s@.skip(i + 1), sep);
            proof {
                assert(split_char(s@.skip(i as int), sep) == seq![seq![s@[i as int]] + rest[0]]
                    + rest.drop_first());
                assert(cur@ + (seq![s@[i as int]] + rest[0]) =~= cur@.push(s@[i as int]) + rest[0]);
                assert(prepend_first(cur@, split_char(s@.skip(i as int), sep)) =~~= prepend_first(
                    cur@.push(s@[i as int]),
                    rest,
                ));
            }
            push_char(&mut cur, c);
        }
        i = i + 1;
    }
    proof {
        assert(s@.skip(n as int) =~= Seq::<char>::empty());
        assert(split_char(Seq::<char>::empty(), sep) == seq![Seq::<char>::empty()]);
        assert(cur@ + Seq::<char>::empty() =~= cur@);
        assert(prepend_first(cur@, seq![Seq::<char>::empty()]) =~~= seq![cur@]);
    }
    out.push(cur);
    proof {
        assert(out.deep_view() =~~= split_char(s@, sep));
    }
    out
}

/// The string with every occurrence of a marker replaced, scanning left to
/// right without rescanning replaced text.
pub open spec fn replace_marker(s: Seq<char>, marker: Seq<char>, to: Seq<char>) -> Seq<char>
    decreases s.len(),
{
    if marker.len() == 0 || s.len() < marker.len() {
        s
    } else if s.take(marker.len() as int) == marker {
        to + replace_marker(s.skip(marker.len() as int), marker, to)
    } else {
        seq![s[0]] + replace_marker(s.drop_first(), marker, to)
    }
}

/// Replaces every occurrence of the marker.
pub fn replace_all(s: &str, marker: &str, to: &str) -> (r: String)
    requires
        marker@.len() > 0,
    ensures
        r@ == replace_marker(s@, marker@, to@),
{
    let n = s.unicode_len();
    let m = marker.unicode_len();
    let mut out = String::new();
    let mut i: usize = 0;
    proof {
        assert(s@.skip(0) =~= s@);
    }
    while i < n
        invariant
            n == s@.len(),
            m == marker@.len(),
            m > 0,
            i <= n,
            replace_marker(s@, marker@, to@) == out@ + replace_marker(
                s@.skip(i as int),
                marker@,
                to@,
            ),
        decreases n - i,
    {
        let window_matches = if m <= n - i {
            let window = s.substring_char(i, i + m);
            str_eq(window, marker)
        } else {
            false
        };
        if window_matches {
            proof {
                assert(s@.skip(i as int).take(m as int) =~= s@.subrange(i as int, i + m));
                assert(s@.skip(i as int).skip(m as int) =~= s@.skip(i + m));
                assert(out@ + (to@ + replace_marker(s@.skip(i + m), marker@, to@)) =~= (out@ + to@)
                    + replace_marker(s@.skip(i + m), marker@, to@));
            }
            out.append(to);
            i = i + m;
        } else {
            proof {
                if i + m <= n {
                    assert(s@.skip(i as int).take(m as int) =~= s@.subrange(i as int, i + m));
                }
                assert(s@.skip(i as int)[0] == s@[i as int]);
                assert(s@.skip(i as int).drop_first() =~= s@.skip(i + 1));
                assert(seq![s@[i as int]] + s@.skip(i + 1) =~= s@.skip(i as int));
                assert(out@ + (seq![s@[i as int]] + replace_marker(s@.skip(i + 1), marker@, to@))
                    =~= out@.push(s@[i as int]) + replace_marker(s@.skip(i + 1), marker@, to@));
            }
            let c = s.get_char(i);
            push_char(&mut out, c);
            i = i + 1;
        }
    }
    proof {
        assert(s@.skip(n as int) =~= Seq::<char>::empty());
        assert(out@ + Seq::<char>::empty() =~= out@);
    }
    out
}

/// ASCII lowercase of one character; anything outside `A`..`Z` is kept.
pub open spec fn lower_char(c: char) -> char {
    if 'A' <= c <= 'Z' {
        ((c as u8) + 32) as char
    } else {
        c
    }
}

/// ASCII lowercase of a whole string.
pub open spec fn lower_seq(s: Seq<char>) -> Seq<char> {
    s.map_values(|c: char| lower_char(c))
}

/// Folds ASCII upper-case letters to lower case, leaving every other
/// character as it is.
pub fn ascii_lower(s: &str) -> (r: String)
    ensures
        r@ == lower_seq(s@),
{
    let n = s.unicode_len();
    let mut out = String::new();
    let mut i: usize = 0;
    while i < n
        invariant
            n == s@.len(),
            i <= n,
            out@ == lower_seq(s@.take(i as int)),
        decreases n - i,
    {
        let c = s.get_char(i);
        if c >= 'A' && c <= 'Z' {
            let b: u8 = (c as u8) + 32;
            push_char(&mut out, b as char);
        } else {
            push_char(&mut out, c);
        }
        proof {
            assert(out@ =~= lower_seq(s@.take(i + 1)));
        }
        i = i + 1;
    }
    proof {
        assert(s@.take(n as int) =~= s@);
    }
    out
}

/// Whether a character is blank space for the purpose of trimming.
pub open spec fn is_space(c: char) -> bool {
    c == ' ' || c == '\t' || c == '\n' || c == '\r'
}

/// Whether a string is nothing but blank space.
pub open spec fn is_blank(s: Seq<char>) -> bool {
    forall|i: int| 0 <= i < s.len() ==> is_space(#[trigger] s[i])
}

/// The string with leading and trailing blank space removed: the subrange
/// from its first non-space character to its last.
pub open spec fn trim_spec(s: Seq<char>) -> Seq<char>
    decreases s.len(),
{
    if s.len() == 0 {
        s
    } else if is_space(s[0]) {
        trim_spec(s.drop_first())
    } else if is_space(s.last()) {
        trim_spec(s.drop_last())
    } else {
        s
    }
}

/// Removes leading and trailing blank space.
pub fn trim_spaces(s: &str) -> (r: String)
    ensures
        r@ == trim_spec(s@),
{
    let n = s.unicode_len();
    let mut lo: usize = 0;
    proof {
        assert(s@.subrange(0, n as int) =~= s@);
    }
    while lo < n && is_space_char(s.get_char(lo))
        invariant
            n == s@.len(),
            lo <= n,
            trim_spec(s@) == trim_spec(s@.subrange(lo as int, n as int)),
        decreases n - lo,
    {
        proof {
            assert(s@.subrange(lo as int, n as int)[0] == s@[lo as int]);
            assert(s@.subrange(lo as int, n as int).drop_first() =~= s@.subrange(
                lo + 1,
                n as int,
            ));
        }
        lo = lo + 1;
    }
    let mut hi: usize = n;
    while hi > lo && is_space_char(s.get_char(hi - 1))
        invariant
            n == s@.len(),
            lo <= hi <= n,
            lo < n ==> !is_space(s@[lo as int]),
            trim_spec(s@) == trim_spec(s@.subrange(lo as int, hi as int)),
        decreases hi,
    {
        proof {
            let sub = s@.subrange(lo as int, hi as int);
            assert(sub[0] == s@[lo as int]);
            assert(sub.last() == s@[hi - 1]);
            assert(sub.drop_last() =~= s@.subrange(lo as int, hi - 1));
        }
        hi = hi - 1;
    }
    let r = s.substring_char(lo, hi);
    proof {
        let sub = s@.subrange(lo as int, hi as int);
        if sub.len() > 0 {
            assert(sub[0] == s@[lo as int]);
            assert(sub.last() == s@[hi - 1]);
        }
        assert(trim_spec(sub) == sub);
    }
    r.to_owned()
}

/// Decides [`is_space`] for one character.
fn is_space_char(c: char) -> (r: bool)
    ensures
        r == is_space(c),
{
    c == ' ' || c == '\t' || c == '\n' || c == '\r'
}

} // verus!
