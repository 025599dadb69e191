//! Lexical checks on what may name a host: a permissive host-name shape and
//! the dotted-quad form of an IPv4 address.
//!
//! The host-name check only tells a plausible bare host from garbage. It does
//! not ask whether a name resolves, and it is wider than the dotted-quad
//! check: `010.0.0.5` is no dotted quad, yet it has the shape of a host name.

use crate::text::{
    all_digits, char_is_alnum, char_is_digit, chars_of, digits_value, first_at, is_alnum,
    is_digit, is_first_at, lemma_contains_has_first, lemma_digits_value_grows,
    lemma_digits_value_push, lemma_first_at, split,
};
use vstd::prelude::*;

verus! {

/// The longest host token that is accepted, in characters.
pub const MAX_HOSTNAME_LEN: usize = 253;

/// `c` may occur in a host token: an ASCII letter or digit, `-` or `.`.
pub open spec fn is_host_char(c: char) -> bool {
    is_alnum(c) || c == '-' || c == '.'
}

/// `s` has the shape of a host name: not empty and at most 253 characters;
/// only ASCII letters and digits, `-` and `.`; neither `-` nor `.` at either
/// end; no two `.` in a row.
pub open spec fn valid_hostname(s: Seq<char>) -> bool {
    &&& 0 < s.len() <= MAX_HOSTNAME_LEN
    &&& forall|i: int| 0 <= i < s.len() ==> is_host_char(#[trigger] s[i])
    &&& s.first() != '-' && s.first() != '.'
    &&& s.last() != '-' && s.last() != '.'
    &&& forall|i: int| 0 < i < s.len() ==> !(s[i - 1] == '.' && #[trigger] s[i] == '.')
}

/// `p` is one part of a dotted quad: a decimal numeral of at most 255,
/// written without a sign and without a leading zero (so zero is `0` only).
pub open spec fn is_octet(p: Seq<char>) -> bool {
    &&& p.len() > 0
    &&& all_digits(p)
    &&& digits_value(p) <= 255
    &&& p.len() > 1 ==> p[0] != '0'
}

/// `s` is a dotted-quad IPv4 address: exactly four parts between dots, each
/// of them an octet.
pub open spec fn valid_ipv4(s: Seq<char>) -> bool {
    let parts = split(s, '.');
    &&& parts.len() == 4
    &&& forall|k: int| 0 <= k < parts.len() ==> is_octet(#[trigger] parts[k])
}

/// The model of a list of parts: each part as its sequence of characters.
pub open spec fn parts_model(parts: Seq<Vec<char>>) -> Seq<Seq<char>> {
    Seq::new(parts.len(), |k: int| parts[k]@)
}

/// An octet has at most three digits.
pub proof fn lemma_octet_is_short(p: Seq<char>)
    requires
        is_octet(p),
    ensures
        1 <= p.len() <= 3,
{
    if p.len() >= 4 {
        assert(digits_value(p.take(1)) >= 1);
        assert(p.take(2).drop_last() =~= p.take(1));
        assert(digits_value(p.take(2)) >= 10);
        assert(p.take(3).drop_last() =~= p.take(2));
        assert(digits_value(p.take(3)) >= 100);
        assert(p.take(4).drop_last() =~= p.take(3));
        lemma_digits_value_grows(p, 4);
    }
}

/// Cutting `s` at its first `sep`: the first part, which holds no `sep`, and
/// the rest, whose parts are the other parts of `s`.
proof fn lemma_split_step(s: Seq<char>, sep: char)
    requires
        split(s, sep).len() > 1,
    ensures
        s.contains(sep),
        is_first_at(s, sep, first_at(s, sep)),
        split(s, sep)[0] == s.subrange(0, first_at(s, sep)),
        split(s.subrange(first_at(s, sep) + 1, s.len() as int), sep) == split(s, sep).skip(1),
{
    lemma_contains_has_first(s, sep);
}

/// Text with a `sep` in it has two parts or more.
proof fn lemma_split_with_sep(s: Seq<char>, sep: char)
    requires
        s.contains(sep),
    ensures
        split(s, sep).len() >= 2,
{
    lemma_contains_has_first(s, sep);
    let rest = s.subrange(first_at(s, sep) + 1, s.len() as int);
    if rest.contains(sep) {
        lemma_contains_has_first(rest, sep);
    }
    assert(split(rest, sep).len() >= 1);
}

/// A dotted quad has the shape of a host name. So the address form never
/// lets in a token that the host-name form keeps out.
pub proof fn lemma_ipv4_is_hostname(s: Seq<char>)
    requires
        valid_ipv4(s),
    ensures
        valid_hostname(s),
{
    let parts = split(s, '.');
    // The three dots, and what follows each of them.
    lemma_split_step(s, '.');
    let d0 = first_at(s, '.');
    let r1 = s.subrange(d0 + 1, s.len() as int);
    lemma_split_step(r1, '.');
    let d1 = d0 + 1 + first_at(r1, '.');
    let r2 = s.subrange(d1 + 1, s.len() as int);
    assert(r2 =~= r1.subrange(first_at(r1, '.') + 1, r1.len() as int));
    lemma_split_step(r2, '.');
    let d2 = d1 + 1 + first_at(r2, '.');
    let r3 = s.subrange(d2 + 1, s.len() as int);
    assert(r3 =~= r2.subrange(first_at(r2, '.') + 1, r2.len() as int));
    if r3.contains('.') {
        lemma_split_with_sep(r3, '.');
    }
    // The four parts are octets, so each is one to three digits.
    assert(parts[0] =~= s.subrange(0, d0));
    assert(parts[1] =~= s.subrange(d0 + 1, d1));
    assert(parts[2] =~= s.subrange(d1 + 1, d2));
    assert(parts[3] =~= r3);
    lemma_octet_is_short(parts[0]);
    lemma_octet_is_short(parts[1]);
    lemma_octet_is_short(parts[2]);
    lemma_octet_is_short(parts[3]);
    // So `s` holds digits everywhere but at the three dots.
    assert forall|i: int| 0 <= i < s.len() && i != d0 && i != d1 && i != d2 implies is_digit(
        #[trigger] s[i],
    ) by {
        if i < d0 {
            assert(s[i] == parts[0][i]);
        } else if i < d1 {
            assert(s[i] == parts[1][i - d0 - 1]);
        } else if i < d2 {
            assert(s[i] == parts[2][i - d1 - 1]);
        } else {
            assert(s[i] == parts[3][i - d2 - 1]);
        }
    }
    assert(s[d0] == '.' && s[d1] == '.' && s[d2] == '.');
}

/// The parts of `chars` between occurrences of `sep`.
pub fn split_chars(chars: &Vec<char>, sep: char) -> (parts: Vec<Vec<char>>)
    ensures
        parts_model(parts@) == split(chars@, sep),
{
    let n: usize = chars.len();
    let ghost s = chars@;
    let mut parts: Vec<Vec<char>> = Vec::new();
    let mut current: Vec<char> = Vec::new();
    let ghost mut start: int = 0;
    let mut i: usize = 0;
    assert(s.skip(0) =~= s);
    while i < n
        invariant
            s == chars@,
            n == s.len(),
            0 <= start <= i <= n,
            current@ == s.subrange(start, i as int),
            !current@.contains(sep),
            split(s, sep) == parts_model(parts@) + split(s.skip(start), sep),
        decreases n - i,
    {
        let c = chars[i];
        if c == sep {
            proof {
                // The part that ends here is the first part of what was left.
                let tail = s.skip(start);
                let at = i as int - start;
                assert forall|j: int| 0 <= j < at implies tail[j] != sep by {
                    assert(current@.contains(current@[j]));
                }
                lemma_first_at(tail, sep, at);
                assert(tail.subrange(0, at) =~= current@);
                assert(tail.subrange(at + 1, tail.len() as int) =~= s.skip(i as int + 1));
            }
            parts.push(current);
            current = Vec::new();
            proof {
                start = i as int + 1;
            }
        } else {
            let ghost before = current@;
            current.push(c);
            assert(!current@.contains(sep)) by {
                if current@.contains(sep) {
                    let w = choose|j: int| 0 <= j < current@.len() && current@[j] == sep;
                    assert(before[w] == sep);
                }
            }
        }
        i += 1;
    }
    assert(s.skip(start) =~= current@);
    parts.push(current);
    parts
}

/// Tests whether `part` is one part of a dotted quad.
pub fn part_is_octet(part: &Vec<char>) -> (b: bool)
    ensures
        b == is_octet(part@),
{
    let n: usize = part.len();
    if n == 0 {
        return false;
    }
    if n > 1 && part[0] == '0' {
        return false;
    }
    let mut value: u32 = 0;
    let mut i: usize = 0;
    while i < n
        invariant
            n == part@.len(),
            i <= n,
            all_digits(part@.take(i as int)),
            value == digits_value(part@.take(i as int)),
            value <= 255,
        decreases n - i,
    {
        let c = part[i];
        if !char_is_digit(c) {
            return false;
        }
        let digit: u32 = c as u32 - '0' as u32;
        proof {
            assert(part@.take(i as int + 1) =~= part@.take(i as int).push(c));
            lemma_digits_value_push(part@.take(i as int), c);
        }
        value = value * 10 + digit;
        if value > 255 {
            proof {
                lemma_digits_value_grows(part@, i as int + 1);
            }
            return false;
        }
        i += 1;
    }
    assert(part@.take(n as int) =~= part@);
    true
}

/// Tests whether `ip` is a dotted-quad IPv4 address: four parts between
/// dots, each a decimal numeral of at most 255 without a leading zero.
pub fn is_valid_ip_address(ip: &str) -> (b: bool)
    ensures
        b == valid_ipv4(ip@),
{
    let chars = chars_of(ip);
    let parts = split_chars(&chars, '.');
    if parts.len() != 4 {
        return false;
    }
    let mut k: usize = 0;
    while k < 4
        invariant
            k <= 4,
            parts@.len() == 4,
            parts_model(parts@) == split(ip@, '.'),
            forall|j: int| 0 <= j < k ==> is_octet(#[trigger] split(ip@, '.')[j]),
        decreases 4 - k,
    {
        assert(parts_model(parts@)[k as int] == parts@[k as int]@);
        if !part_is_octet(&parts[k]) {
            return false;
        }
        k += 1;
    }
    true
}

/// Tests whether `hostname` has the shape of a host name.
///
/// A dotted quad passes as well, but only because it has that shape already:
/// the address form is never what lets a token in.
pub fn is_valid_hostname(hostname: &str) -> (b: bool)
    ensures
        b == valid_hostname(hostname@),
{
    let chars = chars_of(hostname);
    let n: usize = chars.len();
    if n == 0 || n > MAX_HOSTNAME_LEN {
        return false;
    }
    let mut i: usize = 0;
    while i < n
        invariant
            chars@ == hostname@,
            n == chars@.len(),
            0 < n <= MAX_HOSTNAME_LEN,
            i <= n,
            forall|j: int| 0 <= j < i ==> is_host_char(#[trigger] chars@[j]),
            i > 0 ==> chars@.first() != '-' && chars@.first() != '.',
            i == n ==> chars@.last() != '-' && chars@.last() != '.',
            forall|j: int| 0 < j < i ==> !(chars@[j - 1] == '.' && #[trigger] chars@[j] == '.'),
        decreases n - i,
    {
        let c = chars[i];
        if char_is_alnum(c) {
        } else if c == '-' {
            if i == 0 || i == n - 1 {
                return false;
            }
        } else if c == '.' {
            if i == 0 || i == n - 1 {
                return false;
            }
            if chars[i - 1] == '.' {
                return false;
            }
        } else {
            return false;
        }
        i += 1;
    }
    true
}

} // verus!
