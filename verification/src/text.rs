//! Characters, segments and decimal numbers.

use vstd::prelude::*;

verus! {

/// `String::push` appends one character to the end of the string.
pub assume_specification[ String::push ](s: &mut String, c: char)
    ensures
        final(s)@ == old(s)@.push(c),
;

/// Whether `c` is one of the ten ASCII decimal digits.
pub open spec fn is_digit(c: char) -> bool {
    48 <= c as u32 <= 57
}

/// The number that the digit `c` stands for; zero for any other character.
pub open spec fn digit_value(c: char) -> nat {
    if is_digit(c) {
        (c as u32 - 48) as nat
    } else {
        0
    }
}

/// Whether `s` holds decimal digits only.
pub open spec fn all_digits(s: Seq<char>) -> bool {
    forall|i: int| 0 <= i < s.len() ==> is_digit(#[trigger] s[i])
}

/// The number that `s` denotes when read as decimal digits, most significant first.
pub open spec fn digits_value(s: Seq<char>) -> nat
    decreases s.len(),
{
    if s.len() == 0 {
        0
    } else {
        digits_value(s.drop_last()) * 10 + digit_value(s.last())
    }
}

/// The value of a non-empty run of decimal digits, where it fits in 64 bits.
pub open spec fn digits_u64(s: Seq<char>) -> Option<u64> {
    if s.len() > 0 && all_digits(s) && digits_value(s) <= u64::MAX {
        Some(digits_value(s) as u64)
    } else {
        None
    }
}

/// The value of an unsigned decimal number: an optional plus sign, then one or
/// more digits, no more than 64 bits wide.
pub open spec fn unsigned_u64(s: Seq<char>) -> Option<u64> {
    if s.len() > 0 && s[0] == '+' {
        digits_u64(s.skip(1))
    } else {
        digits_u64(s)
    }
}

/// The character that writes the digit `d`, for `d` below ten.
pub open spec fn digit_char(d: nat) -> char {
    ((48 + d) as u8) as char
}

/// The decimal digits of `n`, most significant first, without leading zeros.
pub open spec fn decimal(n: nat) -> Seq<char>
    decreases n,
{
    if n < 10 {
        seq![digit_char(n)]
    } else {
        decimal(n / 10).push(digit_char(n % 10))
    }
}

/// The first position at or after `from` at which `s` holds `c`, or the length
/// of `s` where there is none.
pub open spec fn index_from(s: Seq<char>, from: int, c: char) -> int
    decreases s.len() - from,
{
    if from >= s.len() {
        s.len() as int
    } else if s[from] == c {
        from
    } else {
        index_from(s, from + 1, c)
    }
}

/// The key that a board's index names first: the text before the first full
/// stop of the first line, read as an unsigned decimal number. There is none
/// where the index is empty, its first line holds no full stop, or that text
/// is no such number.
pub open spec fn leading_key(index: Seq<char>) -> Option<u64> {
    let line_end = index_from(index, 0, '\n');
    let stop = index_from(index, 0, '.');
    if stop < line_end {
        unsigned_u64(index.subrange(0, stop))
    } else {
        None
    }
}

/// Whether `s` begins with `p`.
pub open spec fn has_prefix(s: Seq<char>, p: Seq<char>) -> bool {
    p.len() <= s.len() && s.take(p.len() as int) == p
}

/// Whether `s` is one segment of a path: not empty, and without a slash.
pub open spec fn is_segment(s: Seq<char>) -> bool {
    s.len() > 0 && forall|i: int| 0 <= i < s.len() ==> #[trigger] s[i] != '/'
}

/// `index_from` lies between `from` and the end, skips no occurrence of `c`,
/// and stops on one unless it reaches the end.
pub proof fn lemma_index_from(s: Seq<char>, from: int, c: char)
    requires
        0 <= from <= s.len(),
    ensures
        from <= index_from(s, from, c) <= s.len(),
        forall|j: int| from <= j < index_from(s, from, c) ==> s[j] != c,
        index_from(s, from, c) < s.len() ==> s[index_from(s, from, c)] == c,
    decreases s.len() - from,
{
    if from < s.len() && s[from] != c {
        lemma_index_from(s, from + 1, c);
    }
}

/// A position that holds `c` and has no `c` between `from` and itself is the
/// one that `index_from` finds.
pub proof fn lemma_index_from_is(s: Seq<char>, from: int, c: char, at: int)
    requires
        0 <= from <= at <= s.len(),
        forall|j: int| from <= j < at ==> s[j] != c,
        at < s.len() ==> s[at] == c,
    ensures
        index_from(s, from, c) == at,
    decreases at - from,
{
    if from < at {
        lemma_index_from_is(s, from + 1, c, at);
    }
}

/// A text that reads as an unsigned number is one segment: it is not empty
/// and holds no slash.
pub proof fn lemma_unsigned_is_segment(s: Seq<char>)
    requires
        unsigned_u64(s) is Some,
    ensures
        is_segment(s),
{
    assert forall|i: int| 0 <= i < s.len() implies #[trigger] s[i] != '/' by {
        if s[0] == '+' {
            if i > 0 {
                assert(is_digit(s.skip(1)[i - 1]));
            }
        } else {
            assert(is_digit(s[i]));
        }
    }
}

/// An index whose first line holds no full stop names no key; an empty index
/// is one such.
pub proof fn index_without_stop_names_no_key(index: Seq<char>)
    requires
        forall|i: int| 0 <= i < index_from(index, 0, '\n') ==> index[i] != '.',
    ensures
        leading_key(index) is None,
{
    lemma_index_from(index, 0, '.');
    lemma_index_from(index, 0, '\n');
}

/// The value of a run of digits is no smaller than that of any of its prefixes.
pub proof fn lemma_digits_value_prefix(s: Seq<char>, k: int)
    requires
        0 <= k <= s.len(),
    ensures
        digits_value(s.take(k)) <= digits_value(s),
    decreases s.len(),
{
    if k == s.len() {
        assert(s.take(k) == s);
    } else {
        lemma_digits_value_prefix(s.drop_last(), k);
        assert(s.drop_last().take(k) == s.take(k));
    }
}

/// What `decimal` writes is a non-empty run of digits that denotes the number
/// written, so reading it gives the number back.
pub proof fn lemma_decimal_reads_back(n: nat)
    ensures
        decimal(n).len() > 0,
        all_digits(decimal(n)),
        digits_value(decimal(n)) == n,
        n <= u64::MAX ==> unsigned_u64(decimal(n)) == Some(n as u64),
    decreases n,
{
    let c = digit_char(n % 10);
    assert(is_digit(c) && digit_value(c) == n % 10);
    if n < 10 {
        assert(decimal(n).drop_last() == Seq::<char>::empty());
        assert(digits_value(decimal(n).drop_last()) == 0);
    } else {
        lemma_decimal_reads_back(n / 10);
        assert(decimal(n).drop_last() == decimal(n / 10));
    }
    assert(decimal(n)[0] != '+');
}

/// The characters of `s`, in order.
pub fn to_chars(s: &str) -> (out: Vec<char>)
    ensures
        out@ == s@,
{
    let mut out: Vec<char> = Vec::new();
    for c in it: s.chars()
        invariant
            it.seq() == s@,
            out@ == it.seq().take(it.index()),
    {
        out.push(c);
    }
    out
}

/// The characters `v[from..to]` as a string.
pub fn to_text(v: &[char], from: usize, to: usize) -> (out: String)
    requires
        from <= to <= v@.len(),
    ensures
        out@ == v@.subrange(from as int, to as int),
{
    let mut out = String::new();
    let mut i: usize = from;
    while i < to
        invariant
            from <= i <= to <= v@.len(),
            out@ == v@.subrange(from as int, i as int),
        decreases to - i,
    {
        out.push(v[i]);
        i += 1;
    }
    out
}

/// Finds the first `c` in `v` at or after `from`.
pub fn find_char(v: &[char], from: usize, c: char) -> (at: usize)
    requires
        from <= v@.len(),
    ensures
        at == index_from(v@, from as int, c),
        from <= at <= v@.len(),
{
    let mut i: usize = from;
    while i < v.len() && v[i] != c
        invariant
            from <= i <= v@.len(),
            index_from(v@, from as int, c) == index_from(v@, i as int, c),
        decreases v@.len() - i,
    {
        i += 1;
    }
    proof {
        lemma_index_from(v@, from as int, c);
    }
    i
}

/// Tells whether `v` begins with the characters of `p`.
pub fn starts_with(v: &[char], p: &[char]) -> (yes: bool)
    ensures
        yes == has_prefix(v@, p@),
{
    if p.len() > v.len() {
        return false;
    }
    let mut i: usize = 0;
    while i < p.len()
        invariant
            i <= p@.len() <= v@.len(),
            v@.take(i as int) == p@.take(i as int),
        decreases p@.len() - i,
    {
        if v[i] != p[i] {
            proof {
                assert(v@.take(p@.len() as int)[i as int] != p@[i as int]);
            }
            return false;
        }
        proof {
            assert(v@.take(i + 1) == v@.take(i as int).push(v@[i as int]));
            assert(p@.take(i + 1) == p@.take(i as int).push(p@[i as int]));
        }
        i += 1;
    }
    proof {
        assert(p@.take(p@.len() as int) == p@);
    }
    true
}

/// Tells whether `a` and `b` hold the same characters.
pub fn same_text(a: &str, b: &str) -> (yes: bool)
    ensures
        yes == (a@ == b@),
{
    let x = to_chars(a);
    let y = to_chars(b);
    let yes = x.len() == y.len() && starts_with(x.as_slice(), y.as_slice());
    proof {
        assert(x@.take(x@.len() as int) == x@);
    }
    yes
}

/// Tells whether `s` begins with `p`.
pub fn text_starts_with(s: &str, p: &str) -> (yes: bool)
    ensures
        yes == has_prefix(s@, p@),
{
    let x = to_chars(s);
    let y = to_chars(p);
    starts_with(x.as_slice(), y.as_slice())
}

/// Reads `v[from..to]` as a run of decimal digits.
pub fn parse_digits(v: &[char], from: usize, to: usize) -> (r: Option<u64>)
    requires
        from <= to <= v@.len(),
    ensures
        r == digits_u64(v@.subrange(from as int, to as int)),
{
    let ghost s = v@.subrange(from as int, to as int);
    if from == to {
        return None;
    }
    let mut acc: u64 = 0;
    let mut i: usize = from;
    while i < to
        invariant
            from <= i <= to <= v@.len(),
            s == v@.subrange(from as int, to as int),
            all_digits(s.take(i - from)),
            acc == digits_value(s.take(i - from)),
        decreases to - i,
    {
        let c = v[i];
        let ghost next = s.take(i - from + 1);
        proof {
            assert(next.drop_last() == s.take(i - from));
            assert(next.last() == c);
            lemma_digits_value_prefix(s, i - from + 1);
        }
        let code: u32 = c as u32;
        if code < 48 || code > 57 {
            proof {
                assert(!is_digit(s[i - from]));
            }
            return None;
        }
        let d: u64 = (code - 48) as u64;
        if acc > (u64::MAX - d) / 10 {
            return None;
        }
        acc = acc * 10 + d;
        i += 1;
    }
    proof {
        assert(s.take(to - from) == s);
    }
    Some(acc)
}

/// Reads `v[from..to]` as an unsigned decimal number with an optional plus sign.
pub fn parse_unsigned(v: &[char], from: usize, to: usize) -> (r: Option<u64>)
    requires
        from <= to <= v@.len(),
    ensures
        r == unsigned_u64(v@.subrange(from as int, to as int)),
{
    let ghost s = v@.subrange(from as int, to as int);
    if from < to && v[from] == '+' {
        proof {
            assert(s.skip(1) == v@.subrange(from + 1, to as int));
        }
        parse_digits(v, from + 1, to)
    } else {
        parse_digits(v, from, to)
    }
}

/// Reads the key that a board's index names first.
pub fn read_leading_key(index: &str) -> (r: Option<u64>)
    ensures
        r == leading_key(index@),
{
    let chars = to_chars(index);
    let line_end = find_char(chars.as_slice(), 0, '\n');
    let stop = find_char(chars.as_slice(), 0, '.');
    if stop < line_end {
        parse_unsigned(chars.as_slice(), 0, stop)
    } else {
        None
    }
}

/// Appends the decimal digits of `n` to `out`.
pub fn push_decimal(out: &mut String, n: u64)
    ensures
        final(out)@ == old(out)@ + decimal(n as nat),
    decreases n,
{
    if n >= 10 {
        push_decimal(out, n / 10);
    }
    let d: u8 = (n % 10) as u8;
    out.push((48 + d) as char);
}

} // verus!
