//! Character-level text handling for stat cards: comparing names, reading
//! the decimal numbers inside "3+", "6\"" and "Rapid Fire 1", and writing
//! them back out.

use vstd::prelude::*;

verus! {

/// Whether `c` is one of the ASCII digits `0` to `9`.
pub open spec fn is_digit(c: char) -> bool {
    '0' <= c && c <= '9'
}

/// The value of the digit `c`.
pub open spec fn digit_value(c: char) -> nat {
    (c as int - '0' as int) as nat
}

/// Every character of `s` is a digit.
pub open spec fn all_digits(s: Seq<char>) -> bool {
    forall|i: int| 0 <= i < s.len() ==> is_digit(#[trigger] s[i])
}

/// The number that the digits of `s` spell out in base ten.
pub open spec fn digits_value(s: Seq<char>) -> nat
    decreases s.len(),
{
    if s.len() == 0 {
        0
    } else {
        digits_value(s.drop_last()) * 10 + digit_value(s.last())
    }
}

/// The part of `s` that holds the digits of an unsigned number: a single
/// leading `+` sign is allowed and skipped.
pub open spec fn unsigned_digits(s: Seq<char>) -> Seq<char> {
    if s.len() > 0 && s[0] == '+' {
        s.drop_first()
    } else {
        s
    }
}

/// The unsigned number that `s` spells out, the way Rust's `str::parse`
/// reads one: an optional `+`, then at least one digit and nothing else.
pub open spec fn parse_unsigned(s: Seq<char>) -> Option<nat> {
    let d = unsigned_digits(s);
    if d.len() > 0 && all_digits(d) {
        Some(digits_value(d))
    } else {
        None
    }
}

/// `parse_unsigned`, refused when the number exceeds `limit`
/// (parsing into an integer type whose largest value is `limit`).
pub open spec fn parse_bounded(s: Seq<char>, limit: nat) -> Option<nat> {
    match parse_unsigned(s) {
        Some(v) => if v <= limit {
            Some(v)
        } else {
            None
        },
        None => None,
    }
}

/// `s` with every trailing `+` removed.
pub open spec fn trim_plus(s: Seq<char>) -> Seq<char>
    decreases s.len(),
{
    if s.len() > 0 && s.last() == '+' {
        trim_plus(s.drop_last())
    } else {
        s
    }
}

/// The digit character for `d` (taken modulo ten).
pub open spec fn digit_char(d: nat) -> char {
    let d = d % 10;
    if d == 0 {
        '0'
    } else if d == 1 {
        '1'
    } else if d == 2 {
        '2'
    } else if d == 3 {
        '3'
    } else if d == 4 {
        '4'
    } else if d == 5 {
        '5'
    } else if d == 6 {
        '6'
    } else if d == 7 {
        '7'
    } else if d == 8 {
        '8'
    } else {
        '9'
    }
}

/// The decimal notation of `n`, without sign or leading zeros.
pub open spec fn decimal(n: nat) -> Seq<char>
    decreases n,
{
    if n < 10 {
        seq![digit_char(n)]
    } else {
        decimal(n / 10) + seq![digit_char(n % 10)]
    }
}

/// `s` starts with `p`.
pub open spec fn starts_with(s: Seq<char>, p: Seq<char>) -> bool {
    p.len() <= s.len() && s.subrange(0, p.len() as int) == p
}

/// `digit_char` gives a digit whose value is `d` modulo ten.
pub proof fn lemma_digit_char(d: nat)
    ensures
        is_digit(digit_char(d)),
        digit_value(digit_char(d)) == d % 10,
{
}

/// Decimal notation is made of digits only, and reading it back gives the number.
pub proof fn lemma_decimal_digits(n: nat)
    ensures
        decimal(n).len() > 0,
        all_digits(decimal(n)),
        digits_value(decimal(n)) == n,
    decreases n,
{
    lemma_digit_char(n);
    if n >= 10 {
        lemma_decimal_digits(n / 10);
        let s = decimal(n);
        assert(s.drop_last() =~= decimal(n / 10));
        assert(all_digits(s)) by {
            assert forall|i: int| 0 <= i < s.len() implies is_digit(#[trigger] s[i]) by {
                if i < s.len() - 1 {
                    assert(s[i] == decimal(n / 10)[i]);
                }
            }
        }
        lemma_digit_char(n % 10);
        assert(s.last() == digit_char(n % 10));
        assert((n % 10) % 10 == n % 10);
        assert(digits_value(s) == digits_value(decimal(n / 10)) * 10 + digit_value(s.last()));
        assert(n == (n / 10) * 10 + n % 10);
    } else {
        assert(decimal(n).drop_last() =~= Seq::<char>::empty());
        assert(digits_value(decimal(n).drop_last()) == 0);
        assert(n % 10 == n);
    }
}

/// Reading the decimal notation of `n` gives `n` back.
pub proof fn lemma_parse_decimal(n: nat)
    ensures
        parse_unsigned(decimal(n)) == Some(n),
{
    lemma_decimal_digits(n);
    assert(is_digit(decimal(n)[0]));
}

/// A digit string never ends in `+`, so trimming leaves it alone.
pub proof fn lemma_trim_digits(s: Seq<char>)
    requires
        s.len() > 0,
        all_digits(s),
    ensures
        trim_plus(s) == s,
{
    assert(is_digit(s[s.len() - 1]));
}

/// Trimming `+` signs off a digit string followed by `+` signs gives the digits.
pub proof fn lemma_trim_digits_plus(d: Seq<char>)
    requires
        d.len() > 0,
        all_digits(d),
    ensures
        trim_plus(d + seq!['+']) == d,
{
    assert((d + seq!['+']).drop_last() =~= d);
    lemma_trim_digits(d);
}

/// The one-character string for the digit `d`.
fn digit_str(d: u32) -> (r: &'static str)
    requires
        d < 10,
    ensures
        r@ == seq![digit_char(d as nat)],
{
    if d == 0 {
        proof { reveal_strlit("0"); }
        "0"
    } else if d == 1 {
        proof { reveal_strlit("1"); }
        "1"
    } else if d == 2 {
        proof { reveal_strlit("2"); }
        "2"
    } else if d == 3 {
        proof { reveal_strlit("3"); }
        "3"
    } else if d == 4 {
        proof { reveal_strlit("4"); }
        "4"
    } else if d == 5 {
        proof { reveal_strlit("5"); }
        "5"
    } else if d == 6 {
        proof { reveal_strlit("6"); }
        "6"
    } else if d == 7 {
        proof { reveal_strlit("7"); }
        "7"
    } else if d == 8 {
        proof { reveal_strlit("8"); }
        "8"
    } else {
        proof { reveal_strlit("9"); }
        "9"
    }
}

/// Appends the decimal notation of `n` to `out`.
pub fn push_decimal(out: &mut String, n: u32)
    ensures
        final(out)@ == old(out)@ + decimal(n as nat),
    decreases n,
{
    if n >= 10 {
        push_decimal(out, n / 10);
    }
    out.append(digit_str(n % 10));
    proof {
        assert(digit_char((n % 10) as nat) == digit_char(n as nat));
        if n >= 10 {
            assert(decimal(n as nat) == decimal((n / 10) as nat) + seq![digit_char((n % 10) as nat)]);
        }
    }
    assert(final(out)@ =~= old(out)@ + decimal(n as nat));
}

/// Whether two texts are the same, character for character.
pub fn text_eq(a: &str, b: &str) -> (r: bool)
    ensures
        r == (a@ == b@),
{
    let n = a.unicode_len();
    if n != b.unicode_len() {
        return false;
    }
    let mut i: usize = 0;
    while i < n
        invariant
            n == a@.len(),
            n == b@.len(),
            i <= n,
            forall|j: int| 0 <= j < i ==> a@[j] == b@[j],
        decreases n - i,
    {
        if a.get_char(i) != b.get_char(i) {
            return false;
        }
        i = i + 1;
    }
    assert(a@ =~= b@);
    true
}

/// Whether `s` starts with `p`.
pub fn text_starts_with(s: &str, p: &str) -> (r: bool)
    ensures
        r == starts_with(s@, p@),
{
    let n = s.unicode_len();
    let m = p.unicode_len();
    if m > n {
        return false;
    }
    let mut i: usize = 0;
    while i < m
        invariant
            n == s@.len(),
            m == p@.len(),
            m <= n,
            i <= m,
            forall|j: int| 0 <= j < i ==> s@[j] == p@[j],
        decreases m - i,
    {
        if s.get_char(i) != p.get_char(i) {
            assert(s@.subrange(0, m as int)[i as int] != p@[i as int]);
            return false;
        }
        i = i + 1;
    }
    assert(s@.subrange(0, m as int) =~= p@);
    true
}

/// The length of `s` once the `+` signs at its end are dropped.
pub fn trimmed_plus_len(s: &str) -> (r: usize)
    ensures
        r <= s@.len(),
        trim_plus(s@) == s@.subrange(0, r as int),
{
    let mut end = s.unicode_len();
    assert(s@.subrange(0, end as int) =~= s@);
    while end > 0 && s.get_char(end - 1) == '+'
        invariant
            end <= s@.len(),
            trim_plus(s@) == trim_plus(s@.subrange(0, end as int)),
        decreases end,
    {
        assert(s@.subrange(0, end as int).drop_last() =~= s@.subrange(0, end - 1));
        end = end - 1;
    }
    end
}

/// Reads the unsigned number written in `s@[start..end]` as `str::parse`
/// would into an integer type whose largest value is `limit`.
pub fn parse_range(s: &str, start: usize, end: usize, limit: u32) -> (r: Option<u32>)
    requires
        start <= end <= s@.len(),
    ensures
        match parse_bounded(s@.subrange(start as int, end as int), limit as nat) {
            Some(v) => r == Some(v as u32),
            None => r is None,
        },
{
    let ghost t = s@.subrange(start as int, end as int);
    let mut i = start;
    if i < end && s.get_char(i) == '+' {
        i = i + 1;
    }
    let ghost d = s@.subrange(i as int, end as int);
    assert(d =~= unsigned_digits(t));
    if i == end {
        return None;
    }
    let cap: u64 = limit as u64 + 1;
    let mut acc: u64 = 0;
    let mut j = i;
    assert(d.subrange(0, 0) =~= Seq::<char>::empty());
    while j < end
        invariant
            start <= i < end <= s@.len(),
            i <= j <= end,
            d == s@.subrange(i as int, end as int),
            t == s@.subrange(start as int, end as int),
            d == unsigned_digits(t),
            cap == limit + 1,
            forall|k: int| 0 <= k < j - i ==> is_digit(#[trigger] d[k]),
            acc == if digits_value(d.subrange(0, j - i)) < cap {
                digits_value(d.subrange(0, j - i))
            } else {
                cap as nat
            },
        decreases end - j,
    {
        let c = s.get_char(j);
        assert(c == d[j - i]);
        if !('0' <= c && c <= '9') {
            assert(!all_digits(d));
            return None;
        }
        let ghost before = d.subrange(0, j - i);
        let ghost after = d.subrange(0, j + 1 - i);
        assert(after.drop_last() =~= before);
        assert(after.last() == c);
        let dv = (c as u32) - ('0' as u32);
        acc = acc * 10 + dv as u64;
        if acc > cap {
            acc = cap;
        }
        j = j + 1;
    }
    assert(d.subrange(0, end - i) =~= d);
    assert(all_digits(d));
    if acc > limit as u64 {
        None
    } else {
        Some(acc as u32)
    }
}

} // verus!
