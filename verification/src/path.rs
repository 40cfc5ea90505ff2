//! The key derivation path of the benchmark wallet.

use vstd::prelude::*;
use vstd::string::StringExecFns;

verus! {

/// The account whose wallet the contract benchmark uses.
pub const BENCHMARK_ACCOUNT: u32 = 0;

/// The character for a digit below ten.
pub open spec fn digit_char(digit: nat) -> char {
    if digit == 0 {
        '0'
    } else if digit == 1 {
        '1'
    } else if digit == 2 {
        '2'
    } else if digit == 3 {
        '3'
    } else if digit == 4 {
        '4'
    } else if digit == 5 {
        '5'
    } else if digit == 6 {
        '6'
    } else if digit == 7 {
        '7'
    } else if digit == 8 {
        '8'
    } else {
        '9'
    }
}

/// A number written in decimal, without leading zeros.
pub open spec fn decimal(n: nat) -> Seq<char>
    decreases n,
{
    if n < 10 {
        seq![digit_char(n)]
    } else {
        decimal(n / 10) + seq![digit_char(n % 10)]
    }
}

/// The derivation path of the wallet of account `account_index`.
pub open spec fn derivation_path_text(account_index: u32) -> Seq<char> {
    "m/44'/1179993420'/"@ + decimal(account_index as nat) + "'/0/0"@
}

fn digit_text(digit: u32) -> (text: &'static str)
    requires
        digit < 10,
    ensures
        text@ == seq![digit_char(digit as nat)],
{
    proof {
        reveal_strlit("0");
        reveal_strlit("1");
        reveal_strlit("2");
        reveal_strlit("3");
        reveal_strlit("4");
        reveal_strlit("5");
        reveal_strlit("6");
        reveal_strlit("7");
        reveal_strlit("8");
        reveal_strlit("9");
    }
    let text = if digit == 0 {
        "0"
    } else if digit == 1 {
        "1"
    } else if digit == 2 {
        "2"
    } else if digit == 3 {
        "3"
    } else if digit == 4 {
        "4"
    } else if digit == 5 {
        "5"
    } else if digit == 6 {
        "6"
    } else if digit == 7 {
        "7"
    } else if digit == 8 {
        "8"
    } else {
        "9"
    };
    assert(text@ =~= seq![digit_char(digit as nat)]);
    text
}

/// Writes `n` in decimal.
pub fn decimal_text(n: u32) -> (text: String)
    ensures
        text@ == decimal(n as nat),
{
    let mut text = String::from_str(digit_text(n % 10));
    let mut rest = n / 10;
    while rest > 0
        invariant
            decimal(n as nat) == if rest > 0 {
                decimal(rest as nat) + text@
            } else {
                text@
            },
        decreases rest,
    {
        let ghost low = text@;
        text = String::from_str(digit_text(rest % 10)).concat(text.as_str());
        proof {
            let digit = seq![digit_char((rest % 10) as nat)];
            assert(text@ == digit + low);
            if rest >= 10 {
                assert(decimal(rest as nat) == decimal((rest / 10) as nat) + digit);
                assert((decimal((rest / 10) as nat) + digit) + low =~= decimal((rest / 10) as nat)
                    + (digit + low));
            }
        }
        rest = rest / 10;
    }
    text
}

/// The derivation path of the wallet of account `account_index`.
pub fn derivation_path(account_index: u32) -> (path: String)
    ensures
        path@ == derivation_path_text(account_index),
{
    let number = decimal_text(account_index);
    String::from_str("m/44'/1179993420'/").concat(number.as_str()).concat("'/0/0")
}

} // verus!
