//! Diagnostic text for the embedded-null failure, with an exact
//! character-level statement of its contents.

use vstd::prelude::*;
use vstd::string::StringExecFns;

verus! {

/// The decimal digit character for `d`, which must be below ten.
pub open spec fn dec_digit(d: nat) -> char {
    if d == 0 {
        '0'
    } else if d == 1 {
        '1'
    } else if d == 2 {
        '2'
    } else if d == 3 {
        '3'
    } else if d == 4 {
        '4'
    } else if d == 5 {
        '5'
    } else if d == 6 {
        '6'
    } else if d == 7 {
        '7'
    } else if d == 8 {
        '8'
    } else {
        '9'
    }
}

/// The decimal rendering of `n`: most significant digit first, no leading
/// zeros, a single `'0'` for zero.
pub open spec fn dec_str(n: nat) -> Seq<char>
    decreases n,
{
    if n < 10 {
        seq![dec_digit(n)]
    } else {
        dec_str(n / 10).push(dec_digit(n % 10))
    }
}

/// The one-character string slice holding the decimal digit for `d`.
fn digit_str(d: usize) -> (s: &'static str)
    requires
        d < 10,
    ensures
        s@ == seq![dec_digit(d as nat)],
{
    proof {
        reveal_strlit("0");
        reveal_strlit("1");
        reveal_strlit("2");
        reveal_strlit("3");
        reveal_strlit("4");
        reveal_strlit("5");
        reveal_strlit("6");
        reveal_strlit("7");
        reveal_strlit("8");
        reveal_strlit("9");
    }
    match d {
        0 => "0",
        1 => "1",
        2 => "2",
        3 => "3",
        4 => "4",
        5 => "5",
        6 => "6",
        7 => "7",
        8 => "8",
        _ => "9",
    }
}

/// Renders `n` in decimal, matching `dec_str` exactly.
pub fn to_decimal(n: usize) -> (s: String)
    ensures
        s@ == dec_str(n as nat),
    decreases n,
{
    if n < 10 {
        digit_str(n).to_owned()
    } else {
        let mut s = to_decimal(n / 10);
        s.append(digit_str(n % 10));
        proof {
            assert(dec_str(n as nat) =~= dec_str((n / 10) as nat) + seq![
                dec_digit((n % 10) as nat),
            ]);
        }
        s
    }
}

/// The diagnostic for a literal, as written in source, whose byte
/// representation has its first null byte at offset `p`:
/// the literal text, then ` contains a null byte at position `, then `p`
/// in decimal.
pub open spec fn diagnostic_text(literal: Seq<char>, p: nat) -> Seq<char> {
    literal + " contains a null byte at position "@ + dec_str(p)
}

/// Builds the embedded-null diagnostic for the literal written as
/// `literal` whose first null byte stands at offset `p`.
pub fn null_diagnostic(literal: &str, p: usize) -> (m: String)
    ensures
        m@ == diagnostic_text(literal@, p as nat),
{
    let mut m = literal.to_owned();
    m.append(" contains a null byte at position ");
    let digits = to_decimal(p);
    m.append(digits.as_str());
    m
}

} // verus!
