//! Text helpers with exact meanings: trimming, comparing without regard to
//! case, and writing numbers in decimal.

use vstd::prelude::*;
use vstd::string::*;

verus! {

/// White space as `char::is_whitespace` defines it.
pub open spec fn is_space_spec(c: char) -> bool {
    let n = c as u32;
    ||| 0x09 <= n <= 0x0D
    ||| n == 0x20
    ||| n == 0x85
    ||| n == 0xA0
    ||| n == 0x1680
    ||| 0x2000 <= n <= 0x200A
    ||| n == 0x2028
    ||| n == 0x2029
    ||| n == 0x202F
    ||| n == 0x205F
    ||| n == 0x3000
}

pub fn is_space(c: char) -> (b: bool)
    ensures
        b == is_space_spec(c),
{
    let n: u32 = c as u32;
    (0x09 <= n && n <= 0x0D) || n == 0x20 || n == 0x85 || n == 0xA0 || n == 0x1680 || (0x2000 <= n
        && n <= 0x200A) || n == 0x2028 || n == 0x2029 || n == 0x202F || n == 0x205F || n == 0x3000
}

/// `s` without the white space it starts with.
pub open spec fn trim_start_spec(s: Seq<char>) -> Seq<char>
    decreases s.len(),
{
    if s.len() > 0 && is_space_spec(s.first()) {
        trim_start_spec(s.drop_first())
    } else {
        s
    }
}

/// `s` without the white space it ends with.
pub open spec fn trim_end_spec(s: Seq<char>) -> Seq<char>
    decreases s.len(),
{
    if s.len() > 0 && is_space_spec(s.last()) {
        trim_end_spec(s.drop_last())
    } else {
        s
    }
}

/// `s` without the white space at either end.
pub open spec fn trimmed(s: Seq<char>) -> Seq<char> {
    trim_end_spec(trim_start_spec(s))
}

/// Removes the white space at both ends of `s`.
pub fn trim(s: &str) -> (t: String)
    ensures
        t@ == trimmed(s@),
{
    let n = s.unicode_len();
    let mut start: usize = 0;
    assert(s@.subrange(0, n as int) =~= s@);
    while start < n && is_space(s.get_char(start))
        invariant
            n == s@.len(),
            start <= n,
            trim_start_spec(s@) == trim_start_spec(s@.subrange(start as int, n as int)),
        decreases n - start,
    {
        proof {
            let rest = s@.subrange(start as int, n as int);
            assert(rest.first() == s@[start as int]);
            assert(rest.drop_first() =~= s@.subrange(start + 1, n as int));
        }
        start = start + 1;
    }
    proof {
        let rest = s@.subrange(start as int, n as int);
        if start < n {
            assert(rest.first() == s@[start as int]);
        }
        assert(s@.subrange(0, n as int) =~= s@);
        assert(trim_start_spec(s@) == rest);
    }
    let mut end: usize = n;
    while end > start && is_space(s.get_char(end - 1))
        invariant
            n == s@.len(),
            start <= end <= n,
            trim_end_spec(s@.subrange(start as int, n as int)) == trim_end_spec(
                s@.subrange(start as int, end as int),
            ),
        decreases end - start,
    {
        proof {
            let rest = s@.subrange(start as int, end as int);
            assert(rest.last() == s@[end - 1]);
            assert(rest.drop_last() =~= s@.subrange(start as int, end - 1));
        }
        end = end - 1;
    }
    proof {
        let rest = s@.subrange(start as int, end as int);
        if end > start {
            assert(rest.last() == s@[end - 1]);
        }
        assert(trim_end_spec(rest) == rest);
    }
    String::from_str(s.substring_char(start, end))
}

/// The lower case form of an upper case ASCII letter; any other character
/// as it is.
pub open spec fn lower_spec(c: char) -> char {
    if 0x41 <= c as u32 <= 0x5A {
        ((c as u32) + 0x20) as char
    } else {
        c
    }
}

pub fn lower(c: char) -> (l: char)
    ensures
        l == lower_spec(c),
{
    let n: u32 = c as u32;
    if 0x41 <= n && n <= 0x5A {
        let b: u8 = (n + 0x20) as u8;
        b as char
    } else {
        c
    }
}

/// `s` with its upper case ASCII letters in lower case.
pub open spec fn lowered(s: Seq<char>) -> Seq<char> {
    Seq::new(s.len(), |i: int| lower_spec(s[i]))
}

/// Whether `s` is `word` up to the case of its ASCII letters, for a `word`
/// written in lower case.
pub fn matches_ignoring_case(s: &str, word: &str) -> (b: bool)
    ensures
        b == (lowered(s@) == word@),
{
    let n = s.unicode_len();
    if n != word.unicode_len() {
        return false;
    }
    let mut i: usize = 0;
    while i < n
        invariant
            n == s@.len(),
            n == word@.len(),
            i <= n,
            forall|j: int| 0 <= j < i ==> lower_spec(s@[j]) == word@[j],
        decreases n - i,
    {
        if lower(s.get_char(i)) != word.get_char(i) {
            assert(lowered(s@)[i as int] != word@[i as int]);
            return false;
        }
        i = i + 1;
    }
    assert(lowered(s@) =~= word@);
    true
}

/// The character of a decimal digit.
pub open spec fn digit_spec(d: int) -> char {
    (0x30 + d) as char
}

/// `n` in decimal, without leading zeros.
pub open spec fn decimal_spec(n: nat) -> Seq<char>
    decreases n,
{
    if n < 10 {
        seq![digit_spec(n as int)]
    } else {
        decimal_spec(n / 10).push(digit_spec((n % 10) as int))
    }
}

fn digit(d: u64) -> (s: &'static str)
    requires
        d < 10,
    ensures
        s@ == seq![digit_spec(d as int)],
{
    proof {
        reveal_strlit("0");
        reveal_strlit("1");
        reveal_strlit("2");
        reveal_strlit("3");
        reveal_strlit("4");
        reveal_strlit("5");
        reveal_strlit("6");
        reveal_strlit("7");
        reveal_strlit("8");
        reveal_strlit("9");
    }
    let s = if d == 0 {
        "0"
    } else if d == 1 {
        "1"
    } else if d == 2 {
        "2"
    } else if d == 3 {
        "3"
    } else if d == 4 {
        "4"
    } else if d == 5 {
        "5"
    } else if d == 6 {
        "6"
    } else if d == 7 {
        "7"
    } else if d == 8 {
        "8"
    } else {
        "9"
    };
    assert(s@ =~= seq![digit_spec(d as int)]);
    s
}

/// Writes `n` in decimal.
pub fn decimal(n: u64) -> (s: String)
    ensures
        s@ == decimal_spec(n as nat),
{
    let mut out = String::from_str(digit(n % 10));
    let mut rest: u64 = n / 10;
    while rest > 0
        invariant
            decimal_spec(n as nat) == if rest > 0 {
                decimal_spec(rest as nat) + out@
            } else {
                out@
            },
        decreases rest,
    {
        let head = String::from_str(digit(rest % 10));
        proof {
            let d = seq![digit_spec((rest % 10) as int)];
            if rest >= 10 {
                assert(decimal_spec(rest as nat) == decimal_spec((rest / 10) as nat).push(
                    digit_spec((rest % 10) as int),
                ));
                assert(decimal_spec(rest as nat) + out@ =~= decimal_spec((rest / 10) as nat) + (d
                    + out@));
            } else {
                assert(decimal_spec(rest as nat) + out@ =~= d + out@);
            }
        }
        out = head.concat(out.as_str());
        rest = rest / 10;
    }
    out
}

} // verus!
