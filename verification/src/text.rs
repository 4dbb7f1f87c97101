use vstd::prelude::*;
use vstd::string::StringExecFns;

verus! {

/// The text that std's `Debug` formatting writes for a string: the string in
/// double quotes, with the characters that need it escaped.
pub uninterp spec fn debug_text(s: Seq<char>) -> Seq<char>;

/// Formats a string slice with std's `Debug` implementation for `str`
/// (`{:?}`). The result depends on the characters alone; the contract gives
/// it the name [`debug_text`] and claims nothing else of it.
#[verifier::external_body]
pub(crate) fn debug_string(s: &str) -> (r: String)
    ensures
        r@ == debug_text(s@),
{
    format!("{:?}", s)
}

/// The character of a decimal digit.
pub open spec fn digit_char(d: nat) -> char {
    if d == 0 {
        '0'
    } else if d == 1 {
        '1'
    } else if d == 2 {
        '2'
    } else if d == 3 {
        '3'
    } else if d == 4 {
        '4'
    } else if d == 5 {
        '5'
    } else if d == 6 {
        '6'
    } else if d == 7 {
        '7'
    } else if d == 8 {
        '8'
    } else {
        '9'
    }
}

/// A number in decimal, without leading zeros.
pub open spec fn decimal_digits(n: nat) -> Seq<char>
    decreases n,
{
    if n < 10 {
        seq![digit_char(n)]
    } else {
        decimal_digits(n / 10).push(digit_char(n % 10))
    }
}

fn digit_str(d: u128) -> (r: &'static str)
    requires
        d < 10,
    ensures
        r@ == seq![digit_char(d as nat)],
{
    proof {
        reveal_strlit("0");
        reveal_strlit("1");
        reveal_strlit("2");
        reveal_strlit("3");
        reveal_strlit("4");
        reveal_strlit("5");
        reveal_strlit("6");
        reveal_strlit("7");
        reveal_strlit("8");
        reveal_strlit("9");
    }
    let r: &'static str = if d == 0 {
        "0"
    } else if d == 1 {
        "1"
    } else if d == 2 {
        "2"
    } else if d == 3 {
        "3"
    } else if d == 4 {
        "4"
    } else if d == 5 {
        "5"
    } else if d == 6 {
        "6"
    } else if d == 7 {
        "7"
    } else if d == 8 {
        "8"
    } else {
        "9"
    };
    assert(r@ =~= seq![digit_char(d as nat)]);
    r
}

/// Writes a number in decimal.
pub fn decimal_string(n: u128) -> (r: String)
    ensures
        r@ == decimal_digits(n as nat),
{
    let mut rest: u128 = n / 10;
    let mut out: String = String::from_str(digit_str(n % 10));
    while rest > 0
        invariant
            decimal_digits(n as nat) == if rest == 0 {
                out@
            } else {
                decimal_digits(rest as nat) + out@
            },
        decreases rest,
    {
        let head: String = String::from_str(digit_str(rest % 10));
        proof {
            let d = seq![digit_char((rest % 10) as nat)];
            if rest >= 10 {
                assert(decimal_digits(rest as nat) + out@ =~= decimal_digits((rest / 10) as nat)
                    + (d + out@));
            } else {
                assert(decimal_digits(rest as nat) + out@ =~= d + out@);
            }
        }
        out = head.concat(out.as_str());
        rest = rest / 10;
    }
    out
}

} // verus!
