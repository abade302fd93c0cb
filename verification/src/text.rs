//! Text building blocks: decimal numerals, boolean words and joined lists.

use vstd::prelude::*;
use vstd::string::*;

verus! {

/// The character that writes the digit `d` in base ten.
pub open spec fn digit_char(d: int) -> char {
    if d == 0 {
        '0'
    } else if d == 1 {
        '1'
    } else if d == 2 {
        '2'
    } else if d == 3 {
        '3'
    } else if d == 4 {
        '4'
    } else if d == 5 {
        '5'
    } else if d == 6 {
        '6'
    } else if d == 7 {
        '7'
    } else if d == 8 {
        '8'
    } else {
        '9'
    }
}

/// The base-ten numeral of `n`, most significant digit first, without
/// leading zeros.
pub open spec fn decimal_text(n: nat) -> Seq<char>
    decreases n,
{
    if n < 10 {
        seq![digit_char(n as int)]
    } else {
        decimal_text(n / 10).push(digit_char((n % 10) as int))
    }
}

/// The base-ten numeral of a possibly negative integer: a minus sign, where
/// needed, then the numeral of the magnitude.
pub open spec fn signed_decimal_text(n: int) -> Seq<char> {
    if n < 0 {
        seq!['-'] + decimal_text((-n) as nat)
    } else {
        decimal_text(n as nat)
    }
}

/// The word that stands for a boolean.
pub open spec fn bool_text(b: bool) -> Seq<char> {
    if b {
        "true"@
    } else {
        "false"@
    }
}

fn digit_str(d: u64) -> (s: &'static str)
    requires
        d < 10,
    ensures
        s@ == seq![digit_char(d as int)],
{
    proof {
        reveal_strlit("0");
        reveal_strlit("1");
        reveal_strlit("2");
        reveal_strlit("3");
        reveal_strlit("4");
        reveal_strlit("5");
        reveal_strlit("6");
        reveal_strlit("7");
        reveal_strlit("8");
        reveal_strlit("9");
    }
    let s = if d == 0 {
        "0"
    } else if d == 1 {
        "1"
    } else if d == 2 {
        "2"
    } else if d == 3 {
        "3"
    } else if d == 4 {
        "4"
    } else if d == 5 {
        "5"
    } else if d == 6 {
        "6"
    } else if d == 7 {
        "7"
    } else if d == 8 {
        "8"
    } else {
        "9"
    };
    assert(s@ =~= seq![digit_char(d as int)]);
    s
}

/// Appends the base-ten numeral of `n` to `out`.
pub fn push_decimal(out: &mut String, n: u64)
    ensures
        final(out)@ == old(out)@ + decimal_text(n as nat),
    decreases n,
{
    if n >= 10 {
        push_decimal(out, n / 10);
    }
    out.append(digit_str(n % 10));
    assert(out@ =~= old(out)@ + decimal_text(n as nat));
}

/// The base-ten numeral of a 32-bit signed integer.
pub fn i32_to_string(n: i32) -> (s: String)
    ensures
        s@ == signed_decimal_text(n as int),
{
    let wide: i64 = n as i64;
    let mut s = String::new();
    if wide < 0 {
        proof {
            reveal_strlit("-");
        }
        s.append("-");
        push_decimal(&mut s, (-wide) as u64);
        assert(s@ =~= signed_decimal_text(n as int));
    } else {
        push_decimal(&mut s, wide as u64);
        assert(s@ =~= signed_decimal_text(n as int));
    }
    s
}

/// The word that stands for a boolean: `true` or `false`.
pub fn bool_to_string(b: bool) -> (s: String)
    ensures
        s@ == bool_text(b),
{
    if b {
        String::from_str("true")
    } else {
        String::from_str("false")
    }
}

/// Whether two strings hold the same text.
pub fn same_text(a: &str, b: &str) -> (same: bool)
    ensures
        same == (a@ == b@),
{
    let left = String::from_str(a);
    let right = String::from_str(b);
    left == right
}

/// The parts written one after another with `sep` between neighbours.
pub open spec fn join_text(parts: Seq<Seq<char>>, sep: Seq<char>) -> Seq<char>
    decreases parts.len(),
{
    if parts.len() == 0 {
        Seq::empty()
    } else if parts.len() == 1 {
        parts[0]
    } else {
        join_text(parts.drop_last(), sep) + sep + parts.last()
    }
}

/// Joins the parts with `sep` between neighbours.
pub fn join(parts: &Vec<String>, sep: &str) -> (out: String)
    ensures
        out@ == join_text(parts.deep_view(), sep@),
{
    let mut out = String::new();
    let mut i: usize = 0;
    while i < parts.len()
        invariant
            i <= parts.len(),
            out@ == join_text(parts.deep_view().take(i as int), sep@),
        decreases parts.len() - i,
    {
        let ghost before = parts.deep_view().take(i as int);
        let ghost after = parts.deep_view().take(i + 1);
        assert(after.drop_last() =~= before);
        assert(after.last() == parts[i as int]@);
        if i > 0 {
            out.append(sep);
        }
        out.append(parts[i].as_str());
        assert(out@ =~= join_text(after, sep@));
        i += 1;
    }
    assert(parts.deep_view().take(i as int) =~= parts.deep_view());
    out
}

} // verus!
