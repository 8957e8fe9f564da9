//! Small text helpers: decimal numerals, prefix tests, and trimming of
//! white space.

use vstd::prelude::*;
use vstd::string::*;

verus! {

/// The character that writes the digit `d`.
pub open spec fn digit_char(d: nat) -> char {
    if d == 0 {
        '0'
    } else if d == 1 {
        '1'
    } else if d == 2 {
        '2'
    } else if d == 3 {
        '3'
    } else if d == 4 {
        '4'
    } else if d == 5 {
        '5'
    } else if d == 6 {
        '6'
    } else if d == 7 {
        '7'
    } else if d == 8 {
        '8'
    } else {
        '9'
    }
}

/// The decimal numeral of `n`, most significant digit first, without
/// leading zeros (`0` is written "0").
pub open spec fn decimal(n: nat) -> Seq<char>
    decreases n,
{
    if n < 10 {
        seq![digit_char(n)]
    } else {
        decimal(n / 10).push(digit_char(n % 10))
    }
}

fn digit_str(d: u64) -> (res: &'static str)
    requires
        d < 10,
    ensures
        res@ == seq![digit_char(d as nat)],
{
    proof {
        reveal_strlit("0");
        reveal_strlit("1");
        reveal_strlit("2");
        reveal_strlit("3");
        reveal_strlit("4");
        reveal_strlit("5");
        reveal_strlit("6");
        reveal_strlit("7");
        reveal_strlit("8");
        reveal_strlit("9");
    }
    let res = if d == 0 {
        "0"
    } else if d == 1 {
        "1"
    } else if d == 2 {
        "2"
    } else if d == 3 {
        "3"
    } else if d == 4 {
        "4"
    } else if d == 5 {
        "5"
    } else if d == 6 {
        "6"
    } else if d == 7 {
        "7"
    } else if d == 8 {
        "8"
    } else {
        "9"
    };
    assert(res@ =~= seq![digit_char(d as nat)]);
    res
}

/// Appends the decimal numeral of `n` to `out`.
pub fn append_decimal(out: &mut String, n: u64)
    ensures
        final(out)@ == old(out)@ + decimal(n as nat),
    decreases n,
{
    if n >= 10 {
        append_decimal(out, n / 10);
    }
    out.append(digit_str(n % 10));
    assert(out@ =~= old(out)@ + decimal(n as nat));
}

/// The decimal numeral of `n` as a string.
pub fn decimal_string(n: u64) -> (res: String)
    ensures
        res@ == decimal(n as nat),
{
    let mut out = String::new();
    append_decimal(&mut out, n);
    assert(out@ =~= decimal(n as nat));
    out
}

/// Whether `s` begins with `prefix`, character by character.
pub fn has_prefix(s: &str, prefix: &str) -> (res: bool)
    ensures
        res == prefix@.is_prefix_of(s@),
{
    let n = prefix.unicode_len();
    if s.unicode_len() < n {
        return false;
    }
    let mut i: usize = 0;
    while i < n
        invariant
            n == prefix@.len(),
            n <= s@.len(),
            i <= n,
            forall|k: int| 0 <= k < i ==> s@[k] == prefix@[k],
        decreases n - i,
    {
        if s.get_char(i) != prefix.get_char(i) {
            assert(s@.subrange(0, n as int)[i as int] != prefix@[i as int]);
            return false;
        }
        i += 1;
    }
    assert(s@.subrange(0, n as int) =~= prefix@);
    true
}

/// Whether `c` is white space: a character with the Unicode property
/// `White_Space`.
pub open spec fn is_space(c: char) -> bool {
    let u = c as u32;
    ||| 0x09 <= u <= 0x0D
    ||| u == 0x20
    ||| u == 0x85
    ||| u == 0xA0
    ||| u == 0x1680
    ||| 0x2000 <= u <= 0x200A
    ||| u == 0x2028
    ||| u == 0x2029
    ||| u == 0x202F
    ||| u == 0x205F
    ||| u == 0x3000
}

/// How many characters of white space `s` begins with.
pub open spec fn leading_spaces(s: Seq<char>) -> nat
    decreases s.len(),
{
    if s.len() > 0 && is_space(s.first()) {
        1 + leading_spaces(s.drop_first())
    } else {
        0
    }
}

/// How many characters of white space `s` ends with.
pub open spec fn trailing_spaces(s: Seq<char>) -> nat
    decreases s.len(),
{
    if s.len() > 0 && is_space(s.last()) {
        1 + trailing_spaces(s.drop_last())
    } else {
        0
    }
}

/// `s` without the white space at its two ends.
pub open spec fn trimmed(s: Seq<char>) -> Seq<char> {
    let start = leading_spaces(s);
    if start == s.len() {
        Seq::empty()
    } else {
        s.subrange(start as int, s.len() - trailing_spaces(s))
    }
}

/// If `s` begins with `n` characters of white space and goes on with
/// something else, or ends there, it begins with exactly `n` of them.
pub proof fn lemma_leading_spaces(s: Seq<char>, n: nat)
    requires
        n <= s.len(),
        forall|k: int| 0 <= k < n ==> is_space(#[trigger] s[k]),
        n < s.len() ==> !is_space(s[n as int]),
    ensures
        leading_spaces(s) == n,
    decreases n,
{
    if n > 0 {
        let rest = s.drop_first();
        assert forall|k: int| 0 <= k < n - 1 implies is_space(#[trigger] rest[k]) by {
            assert(rest[k] == s[k + 1]);
        }
        lemma_leading_spaces(rest, (n - 1) as nat);
    }
}

/// If `s` ends with `n` characters of white space and has something else
/// before them, or nothing, it ends with exactly `n` of them.
pub proof fn lemma_trailing_spaces(s: Seq<char>, n: nat)
    requires
        n <= s.len(),
        forall|k: int| s.len() - n <= k < s.len() ==> is_space(#[trigger] s[k]),
        n < s.len() ==> !is_space(s[s.len() - n - 1]),
    ensures
        trailing_spaces(s) == n,
    decreases n,
{
    if n > 0 {
        let rest = s.drop_last();
        assert forall|k: int| rest.len() - (n - 1) <= k < rest.len() implies is_space(
            #[trigger] rest[k],
        ) by {
            assert(rest[k] == s[k]);
        }
        lemma_trailing_spaces(rest, (n - 1) as nat);
    }
}

/// Whether `c` is white space.
pub fn is_space_char(c: char) -> (res: bool)
    ensures
        res == is_space(c),
{
    let u = c as u32;
    (0x09 <= u && u <= 0x0D) || u == 0x20 || u == 0x85 || u == 0xA0 || u == 0x1680 || (0x2000 <= u
        && u <= 0x200A) || u == 0x2028 || u == 0x2029 || u == 0x202F || u == 0x205F || u
        == 0x3000
}

/// The part of `s` between the white space at its two ends.
pub fn trim(s: &str) -> (res: &str)
    ensures
        res@ == trimmed(s@),
{
    let n = s.unicode_len();
    let mut start: usize = 0;
    while start < n && is_space_char(s.get_char(start))
        invariant
            n == s@.len(),
            start <= n,
            forall|k: int| 0 <= k < start ==> is_space(#[trigger] s@[k]),
        decreases n - start,
    {
        start += 1;
    }
    proof {
        lemma_leading_spaces(s@, start as nat);
    }
    if start == n {
        let res = s.substring_char(n, n);
        assert(res@ =~= Seq::<char>::empty());
        return res;
    }
    let mut end: usize = n;
    while end > start && is_space_char(s.get_char(end - 1))
        invariant
            n == s@.len(),
            start < n,
            start <= end <= n,
            !is_space(s@[start as int]),
            forall|k: int| end <= k < n ==> is_space(#[trigger] s@[k]),
        decreases end,
    {
        end -= 1;
    }
    proof {
        lemma_trailing_spaces(s@, (n - end) as nat);
    }
    s.substring_char(start, end)
}

} // verus!
