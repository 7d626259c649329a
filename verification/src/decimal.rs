//! Row counts written out in decimal, for the messages of errors.

use vstd::prelude::*;

verus! {

/// The character of one decimal digit.
pub open spec fn digit_char(d: int) -> char {
    if d == 0 {
        '0'
    } else if d == 1 {
        '1'
    } else if d == 2 {
        '2'
    } else if d == 3 {
        '3'
    } else if d == 4 {
        '4'
    } else if d == 5 {
        '5'
    } else if d == 6 {
        '6'
    } else if d == 7 {
        '7'
    } else if d == 8 {
        '8'
    } else {
        '9'
    }
}

/// The decimal numeral of `n`, most significant digit first, without leading
/// zeros.
pub open spec fn decimal(n: nat) -> Seq<char>
    decreases n,
{
    if n < 10 {
        seq![digit_char(n as int)]
    } else {
        decimal(n / 10).push(digit_char((n % 10) as int))
    }
}

/// The digits of `low`, which were taken least significant first, as
/// characters in the order of a numeral.
pub open spec fn numeral_tail(low: Seq<u8>) -> Seq<char> {
    Seq::new(low.len(), |i: int| digit_char(low[low.len() - 1 - i] as int))
}

fn digit_text(d: u8) -> (text: &'static str)
    requires
        d < 10,
    ensures
        text@ == seq![digit_char(d as int)],
{
    proof {
        reveal_strlit("0");
        reveal_strlit("1");
        reveal_strlit("2");
        reveal_strlit("3");
        reveal_strlit("4");
        reveal_strlit("5");
        reveal_strlit("6");
        reveal_strlit("7");
        reveal_strlit("8");
        reveal_strlit("9");
    }
    let text = if d == 0 {
        "0"
    } else if d == 1 {
        "1"
    } else if d == 2 {
        "2"
    } else if d == 3 {
        "3"
    } else if d == 4 {
        "4"
    } else if d == 5 {
        "5"
    } else if d == 6 {
        "6"
    } else if d == 7 {
        "7"
    } else if d == 8 {
        "8"
    } else {
        "9"
    };
    assert(text@ =~= seq![digit_char(d as int)]);
    text
}

/// Writes `n` in decimal.
pub fn decimal_text(n: u64) -> (text: String)
    ensures
        text@ == decimal(n as nat),
{
    let mut low: Vec<u8> = Vec::new();
    let mut rest: u64 = n;
    while rest >= 10
        invariant
            decimal(n as nat) == decimal(rest as nat) + numeral_tail(low@),
            forall|k: int| 0 <= k < low.len() ==> low@[k] < 10,
        decreases rest,
    {
        let d: u8 = (rest % 10) as u8;
        let ghost before = low@;
        low.push(d);
        proof {
            assert(numeral_tail(low@) =~= seq![digit_char(d as int)] + numeral_tail(before));
            assert(decimal(rest as nat) == decimal((rest / 10) as nat).push(digit_char(d as int)));
            assert(decimal((rest / 10) as nat).push(digit_char(d as int)) + numeral_tail(before)
                =~= decimal((rest / 10) as nat) + numeral_tail(low@));
        }
        rest = rest / 10;
    }
    let mut text: String = digit_text(rest as u8).to_owned();
    assert(text@ == decimal(rest as nat));
    let mut j: usize = low.len();
    while j > 0
        invariant
            j <= low.len(),
            forall|k: int| 0 <= k < low.len() ==> low@[k] < 10,
            text@ == decimal(rest as nat) + numeral_tail(low@).take(low.len() - j),
        decreases j,
    {
        j -= 1;
        text.append(digit_text(low[j]));
        assert(text@ =~= decimal(rest as nat) + numeral_tail(low@).take(low.len() - j));
    }
    assert(numeral_tail(low@).take(low.len() as int) == numeral_tail(low@));
    text
}

} // verus!
