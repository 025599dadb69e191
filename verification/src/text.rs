//! Small verified building blocks over text: character classes, searching,
//! slicing by character position, and decimal numerals.
//!
//! A `&str` or `String` is modelled by its view, the sequence of its
//! characters (`Seq<char>`). Every function here states its result over that
//! sequence.

use vstd::prelude::*;
use vstd::string::*;

verus! {

/// `c` is an ASCII letter or an ASCII digit.
pub open spec fn is_alnum(c: char) -> bool {
    ('a' <= c && c <= 'z') || ('A' <= c && c <= 'Z') || ('0' <= c && c <= '9')
}

/// `c` is one of the ten ASCII digits.
pub open spec fn is_digit(c: char) -> bool {
    '0' <= c && c <= '9'
}

/// The number that the digit `c` stands for.
pub open spec fn digit_value(c: char) -> nat
    recommends
        is_digit(c),
{
    (c as nat - '0' as nat) as nat
}

/// Every character of `s` is an ASCII digit.
pub open spec fn all_digits(s: Seq<char>) -> bool {
    forall|i: int| 0 <= i < s.len() ==> is_digit(#[trigger] s[i])
}

/// The number that the decimal numeral `s` denotes, most significant digit
/// first. The empty numeral denotes zero.
pub open spec fn digits_value(s: Seq<char>) -> nat
    decreases s.len(),
{
    if s.len() == 0 {
        0
    } else {
        digits_value(s.drop_last()) * 10 + digit_value(s.last())
    }
}

/// `i` is the position of the first occurrence of `c` in `s`.
pub open spec fn is_first_at(s: Seq<char>, c: char, i: int) -> bool {
    &&& 0 <= i < s.len()
    &&& s[i] == c
    &&& forall|j: int| 0 <= j < i ==> s[j] != c
}

/// The position of the first occurrence of `c` in `s`, where there is one.
pub open spec fn first_at(s: Seq<char>, c: char) -> int {
    choose|i: int| is_first_at(s, c, i)
}

/// What stands before the first `c` in `s`.
pub open spec fn before_first(s: Seq<char>, c: char) -> Seq<char>
    recommends
        s.contains(c),
{
    s.subrange(0, first_at(s, c))
}

/// What stands after the first `c` in `s`.
pub open spec fn after_first(s: Seq<char>, c: char) -> Seq<char>
    recommends
        s.contains(c),
{
    s.subrange(first_at(s, c) + 1, s.len() as int)
}

/// The first occurrence is unique: whoever has found it knows `first_at`.
pub proof fn lemma_first_at(s: Seq<char>, c: char, i: int)
    requires
        is_first_at(s, c, i),
    ensures
        s.contains(c),
        first_at(s, c) == i,
{
    assert(is_first_at(s, c, first_at(s, c)));
}

/// A sequence that holds `c` has a first occurrence of it.
pub proof fn lemma_contains_has_first(s: Seq<char>, c: char)
    requires
        s.contains(c),
    ensures
        is_first_at(s, c, first_at(s, c)),
    decreases s.len(),
{
    let w = choose|i: int| 0 <= i < s.len() && s[i] == c;
    if exists|j: int| 0 <= j < w && s[j] == c {
        let j = choose|j: int| 0 <= j < w && s[j] == c;
        let t = s.take(w);
        assert(t[j] == c);
        lemma_contains_has_first(t, c);
        let k = first_at(t, c);
        assert forall|m: int| 0 <= m < k implies s[m] != c by {
            assert(t[m] != c);
        }
        assert(is_first_at(s, c, k));
    } else {
        assert(is_first_at(s, c, w));
    }
}

/// Joining `left`, one `c` and `right` is split again at that `c`, provided
/// `left` holds no `c` itself.
pub proof fn lemma_split_of_join(left: Seq<char>, c: char, right: Seq<char>)
    requires
        !left.contains(c),
    ensures
        (left + seq![c] + right).contains(c),
        before_first(left + seq![c] + right, c) == left,
        after_first(left + seq![c] + right, c) == right,
{
    lemma_first_at(left + seq![c] + right, c, left.len() as int);
}

/// The parts of `s` between occurrences of `sep`, in order. A sequence
/// without `sep` is its own single part; `n` occurrences give `n + 1` parts,
/// some of which may be empty.
pub open spec fn split(s: Seq<char>, sep: char) -> Seq<Seq<char>>
    decreases s.len(),
{
    if s.contains(sep) {
        proof {
            lemma_contains_has_first(s, sep);
        }
        seq![before_first(s, sep)] + split(after_first(s, sep), sep)
    } else {
        seq![s]
    }
}

/// One more digit at the end: ten times the value so far, plus the digit.
pub proof fn lemma_digits_value_push(s: Seq<char>, c: char)
    ensures
        digits_value(s.push(c)) == digits_value(s) * 10 + digit_value(c),
{
    assert(s.push(c).drop_last() =~= s);
}

/// The character that writes the digit `d`.
pub open spec fn digit_char(d: nat) -> char
    recommends
        d < 10,
{
    if d == 0 {
        '0'
    } else if d == 1 {
        '1'
    } else if d == 2 {
        '2'
    } else if d == 3 {
        '3'
    } else if d == 4 {
        '4'
    } else if d == 5 {
        '5'
    } else if d == 6 {
        '6'
    } else if d == 7 {
        '7'
    } else if d == 8 {
        '8'
    } else {
        '9'
    }
}

/// The decimal numeral of `n`: no sign, and no leading zero but for zero
/// itself.
pub open spec fn decimal(n: nat) -> Seq<char>
    decreases n,
{
    if n < 10 {
        seq![digit_char(n)]
    } else {
        decimal(n / 10).push(digit_char(n % 10))
    }
}

/// A number is the value of its own numeral, which holds digits only and
/// begins with a zero for zero alone.
pub proof fn lemma_decimal_round_trip(n: nat)
    ensures
        decimal(n).len() > 0,
        all_digits(decimal(n)),
        digits_value(decimal(n)) == n,
        decimal(n).len() > 1 ==> decimal(n)[0] != '0',
    decreases n,
{
    if n < 10 {
        assert(digits_value(decimal(n).drop_last()) == 0);
    } else {
        let head = decimal(n / 10);
        lemma_decimal_round_trip(n / 10);
        lemma_digits_value_push(head, digit_char(n % 10));
        if head.len() == 1 {
            assert(digits_value(head.drop_last()) == 0);
        }
    }
}

/// `c` is white space: one of the characters with the Unicode property
/// `White_Space`.
pub open spec fn is_whitespace(c: char) -> bool {
    let n = c as u32;
    ||| 0x09 <= n <= 0x0D
    ||| n == 0x20
    ||| n == 0x85
    ||| n == 0xA0
    ||| n == 0x1680
    ||| 0x2000 <= n <= 0x200A
    ||| n == 0x2028
    ||| n == 0x2029
    ||| n == 0x202F
    ||| n == 0x205F
    ||| n == 0x3000
}

/// `s` without the white space at its beginning.
pub open spec fn trim_start(s: Seq<char>) -> Seq<char>
    decreases s.len(),
{
    if s.len() > 0 && is_whitespace(s.first()) {
        trim_start(s.drop_first())
    } else {
        s
    }
}

/// `s` without the white space at its end.
pub open spec fn trim_end(s: Seq<char>) -> Seq<char>
    decreases s.len(),
{
    if s.len() > 0 && is_whitespace(s.last()) {
        trim_end(s.drop_last())
    } else {
        s
    }
}

/// `s` without the white space at its beginning and at its end.
pub open spec fn trimmed(s: Seq<char>) -> Seq<char> {
    trim_end(trim_start(s))
}

/// The lower-case form of `s` as `str::to_lowercase` of the standard library
/// gives it, by the case mappings of Unicode.
pub uninterp spec fn lowercase_of(s: Seq<char>) -> Seq<char>;

/// `s` without the `+` that it may begin with.
pub open spec fn unsigned_part(s: Seq<char>) -> Seq<char> {
    if s.len() > 0 && s[0] == '+' {
        s.skip(1)
    } else {
        s
    }
}

/// The number that `s` denotes as a numeral of at most `max`: an optional
/// `+`, then one digit or more. Any other text denotes nothing.
pub open spec fn parsed_number(s: Seq<char>, max: nat) -> Option<nat> {
    let digits = unsigned_part(s);
    if digits.len() > 0 && all_digits(digits) && digits_value(digits) <= max {
        Some(digits_value(digits))
    } else {
        None
    }
}

/// The numeral of a number is read back as that number.
pub proof fn lemma_decimal_is_read_back(n: nat, max: nat)
    requires
        n <= max,
    ensures
        parsed_number(decimal(n), max) == Some(n),
{
    lemma_decimal_round_trip(n);
    assert(is_digit(decimal(n)[0]));
}

/// A numeral is worth at least as much as any of its beginnings.
pub proof fn lemma_digits_value_grows(s: Seq<char>, k: int)
    requires
        0 <= k <= s.len(),
    ensures
        digits_value(s.take(k)) <= digits_value(s),
    decreases s.len() - k,
{
    if k < s.len() {
        lemma_digits_value_grows(s, k + 1);
        assert(s.take(k + 1).drop_last() =~= s.take(k));
    } else {
        assert(s.take(k) =~= s);
    }
}

/// Tests whether `c` is an ASCII letter or digit.
pub fn char_is_alnum(c: char) -> (b: bool)
    ensures
        b == is_alnum(c),
{
    ('a' <= c && c <= 'z') || ('A' <= c && c <= 'Z') || ('0' <= c && c <= '9')
}

/// Tests whether `c` is an ASCII digit.
pub fn char_is_digit(c: char) -> (b: bool)
    ensures
        b == is_digit(c),
{
    '0' <= c && c <= '9'
}

/// The text of the digit `d`.
pub fn digit_text(d: u32) -> (text: &'static str)
    requires
        d < 10,
    ensures
        text@ == seq![digit_char(d as nat)],
{
    proof {
        reveal_strlit("0");
        reveal_strlit("1");
        reveal_strlit("2");
        reveal_strlit("3");
        reveal_strlit("4");
        reveal_strlit("5");
        reveal_strlit("6");
        reveal_strlit("7");
        reveal_strlit("8");
        reveal_strlit("9");
    }
    let text = if d == 0 {
        "0"
    } else if d == 1 {
        "1"
    } else if d == 2 {
        "2"
    } else if d == 3 {
        "3"
    } else if d == 4 {
        "4"
    } else if d == 5 {
        "5"
    } else if d == 6 {
        "6"
    } else if d == 7 {
        "7"
    } else if d == 8 {
        "8"
    } else {
        "9"
    };
    text
}

/// The decimal numeral of `n`.
pub fn decimal_text(n: u32) -> (text: String)
    ensures
        text@ == decimal(n as nat),
    decreases n,
{
    if n < 10 {
        String::from_str(digit_text(n))
    } else {
        let mut text = decimal_text(n / 10);
        text.append(digit_text(n % 10));
        text
    }
}

/// The characters of `s`, in order.
pub fn chars_of(s: &str) -> (v: Vec<char>)
    ensures
        v@ == s@,
{
    let mut v: Vec<char> = Vec::new();
    for c in it: s.chars()
        invariant
            it.seq() == s@,
            v@ == it.seq().take(it.index() as int),
    {
        v.push(c);
    }
    v
}

/// Whether two strings hold the same characters.
pub fn same_text(a: &str, b: &str) -> (r: bool)
    ensures
        r == (a@ == b@),
{
    String::from_str(a) == String::from_str(b)
}

/// The position of the first `c` among `chars`, or `None` where there is none.
pub fn find_char(chars: &Vec<char>, c: char) -> (r: Option<usize>)
    ensures
        match r {
            Some(i) => is_first_at(chars@, c, i as int),
            None => !chars@.contains(c),
        },
{
    let n: usize = chars.len();
    let mut i: usize = 0;
    while i < n
        invariant
            n == chars@.len(),
            i <= n,
            forall|j: int| 0 <= j < i ==> chars@[j] != c,
        decreases n - i,
    {
        if chars[i] == c {
            return Some(i);
        }
        i += 1;
    }
    None
}

/// Whether `c` occurs in `s`.
pub fn contains_char(s: &str, c: char) -> (r: bool)
    ensures
        r == s@.contains(c),
{
    let chars = chars_of(s);
    find_char(&chars, c).is_some()
}

/// Tests whether `c` is white space.
pub fn char_is_whitespace(c: char) -> (b: bool)
    ensures
        b == is_whitespace(c),
{
    let n: u32 = c as u32;
    (0x09 <= n && n <= 0x0D) || n == 0x20 || n == 0x85 || n == 0xA0 || n == 0x1680 || (0x2000 <= n
        && n <= 0x200A) || n == 0x2028 || n == 0x2029 || n == 0x202F || n == 0x205F || n == 0x3000
}

/// `s` without the white space at its beginning and at its end.
pub fn trim(s: &str) -> (r: &str)
    ensures
        r@ == trimmed(s@),
{
    let chars = chars_of(s);
    let n: usize = chars.len();
    let mut from: usize = 0;
    assert(s@.skip(0) =~= s@);
    while from < n && char_is_whitespace(chars[from])
        invariant
            chars@ == s@,
            n == s@.len(),
            from <= n,
            trim_start(s@) == trim_start(s@.skip(from as int)),
        decreases n - from,
    {
        assert(s@.skip(from as int).drop_first() =~= s@.skip(from as int + 1));
        from += 1;
    }
    let mut to: usize = n;
    while to > from && char_is_whitespace(chars[to - 1])
        invariant
            chars@ == s@,
            n == s@.len(),
            from <= to <= n,
            trimmed(s@) == trim_end(s@.subrange(from as int, to as int)),
        decreases to,
    {
        assert(s@.subrange(from as int, to as int).drop_last() =~= s@.subrange(
            from as int,
            to as int - 1,
        ));
        to -= 1;
    }
    s.substring_char(from, to)
}

/// The lower-case form of `s`: `str::to_lowercase` of the standard library.
/// The contract gives the result its name and says no more of it.
#[verifier::external_body]
pub(crate) fn to_lowercase(s: &str) -> (r: String)
    ensures
        r@ == lowercase_of(s@),
{
    s.to_lowercase()
}

/// Reads `s` as a numeral of at most `max`: an optional `+`, then one digit
/// or more, leading zeros allowed.
pub fn parse_number(s: &str, max: u32) -> (r: Option<u32>)
    ensures
        match r {
            Some(n) => parsed_number(s@, max as nat) == Some(n as nat),
            None => parsed_number(s@, max as nat) is None,
        },
{
    let chars = chars_of(s);
    let n: usize = chars.len();
    let start: usize = if n > 0 && chars[0] == '+' {
        1
    } else {
        0
    };
    let ghost digits = unsigned_part(s@);
    if start == n {
        return None;
    }
    let mut value: u64 = 0;
    let mut i: usize = start;
    while i < n
        invariant
            chars@ == s@,
            n == s@.len(),
            start <= i <= n,
            digits == unsigned_part(s@),
            digits == s@.skip(start as int),
            all_digits(digits.take(i - start)),
            value == digits_value(digits.take(i - start)),
            value <= max,
        decreases n - i,
    {
        let c = chars[i];
        if !char_is_digit(c) {
            assert(digits[i - start] == c);
            return None;
        }
        let digit: u64 = (c as u32 - '0' as u32) as u64;
        proof {
            assert(digits.take(i - start + 1) =~= digits.take(i - start).push(c));
            lemma_digits_value_push(digits.take(i - start), c);
        }
        value = value * 10 + digit;
        if value > max as u64 {
            proof {
                lemma_digits_value_grows(digits, i - start + 1);
            }
            return None;
        }
        i += 1;
    }
    assert(digits.take(n - start) =~= digits);
    Some(value as u32)
}

} // verus!
