//! Small text builders for the descriptions of pay rules.

use vstd::prelude::*;
use vstd::string::StringExecFns;

verus! {

/// The character of a decimal digit.
pub open spec fn digit_char(d: nat) -> char {
    if d == 0 {
        '0'
    } else if d == 1 {
        '1'
    } else if d == 2 {
        '2'
    } else if d == 3 {
        '3'
    } else if d == 4 {
        '4'
    } else if d == 5 {
        '5'
    } else if d == 6 {
        '6'
    } else if d == 7 {
        '7'
    } else if d == 8 {
        '8'
    } else {
        '9'
    }
}

/// The decimal numeral of `n`, without leading zeros.
pub open spec fn decimal(n: nat) -> Seq<char>
    decreases n,
{
    if n < 10 {
        seq![digit_char(n)]
    } else {
        decimal(n / 10).push(digit_char(n % 10))
    }
}

/// `n` copies of `token`, one after another.
pub open spec fn repeated(token: Seq<char>, n: nat) -> Seq<char>
    decreases n,
{
    if n == 0 {
        Seq::empty()
    } else {
        repeated(token, (n - 1) as nat) + token
    }
}

/// The parts one after another, with `separator` between each two.
pub open spec fn joined(parts: Seq<Seq<char>>, separator: Seq<char>) -> Seq<char>
    decreases parts.len(),
{
    if parts.len() == 0 {
        Seq::empty()
    } else if parts.len() == 1 {
        parts[0]
    } else {
        joined(parts.drop_last(), separator) + separator + parts.last()
    }
}

fn digit_text(d: u64) -> (text: &'static str)
    requires
        d < 10,
    ensures
        text@ == seq![digit_char(d as nat)],
{
    proof {
        reveal_strlit("0");
        reveal_strlit("1");
        reveal_strlit("2");
        reveal_strlit("3");
        reveal_strlit("4");
        reveal_strlit("5");
        reveal_strlit("6");
        reveal_strlit("7");
        reveal_strlit("8");
        reveal_strlit("9");
    }
    let text: &'static str = if d == 0 {
        "0"
    } else if d == 1 {
        "1"
    } else if d == 2 {
        "2"
    } else if d == 3 {
        "3"
    } else if d == 4 {
        "4"
    } else if d == 5 {
        "5"
    } else if d == 6 {
        "6"
    } else if d == 7 {
        "7"
    } else if d == 8 {
        "8"
    } else {
        "9"
    };
    assert(text@ =~= seq![digit_char(d as nat)]);
    text
}

/// Writes `n` as a decimal numeral.
pub fn decimal_string(n: u64) -> (text: String)
    ensures
        text@ == decimal(n as nat),
    decreases n,
{
    if n < 10 {
        String::from_str(digit_text(n))
    } else {
        let mut text: String = decimal_string(n / 10);
        text.append(digit_text(n % 10));
        proof {
            assert(text@ =~= decimal(n as nat));
        }
        text
    }
}

/// Writes `token` `n` times in a row.
pub fn repeat_text(token: &str, n: usize) -> (text: String)
    ensures
        text@ == repeated(token@, n as nat),
{
    let mut text: String = String::new();
    let mut k: usize = 0;
    while k < n
        invariant
            k <= n,
            text@ == repeated(token@, k as nat),
        decreases n - k,
    {
        text.append(token);
        k = k + 1;
    }
    text
}

/// Writes the parts in a row, with `separator` between each two.
pub fn join_text(parts: &Vec<String>, separator: &str) -> (text: String)
    ensures
        text@ == joined(Seq::new(parts@.len(), |i: int| parts@[i]@), separator@),
{
    let ghost views = Seq::new(parts@.len(), |i: int| parts@[i]@);
    let mut text: String = String::new();
    let mut k: usize = 0;
    while k < parts.len()
        invariant
            k <= parts.len(),
            views == Seq::new(parts@.len(), |i: int| parts@[i]@),
            text@ == joined(views.take(k as int), separator@),
        decreases parts.len() - k,
    {
        proof {
            assert(views.take(k + 1).drop_last() =~= views.take(k as int));
            assert(views.take(k + 1).last() == parts@[k as int]@);
        }
        if k > 0 {
            text.append(separator);
        }
        text.append(parts[k].as_str());
        proof {
            assert(text@ =~= joined(views.take(k + 1), separator@));
        }
        k = k + 1;
    }
    proof {
        assert(views.take(k as int) =~= views);
    }
    text
}

/// The last `width` decimal digits of `n`, with leading zeros where `n` has
/// fewer digits.
pub open spec fn padded_decimal(n: nat, width: nat) -> Seq<char>
    decreases width,
{
    if width == 0 {
        Seq::empty()
    } else {
        padded_decimal(n / 10, (width - 1) as nat).push(digit_char(n % 10))
    }
}

/// The decimal places of a fraction that is written with `width` digits,
/// without the zeros at its end; nothing for a fraction of 0.
pub open spec fn decimal_places(fraction: nat, width: nat) -> Seq<char>
    decreases width,
{
    if width == 0 {
        Seq::empty()
    } else if fraction % 10 == 0 {
        decimal_places(fraction / 10, (width - 1) as nat)
    } else {
        padded_decimal(fraction, width)
    }
}

/// A fraction of `width` digits is written with `width` decimal places at
/// most.
pub proof fn lemma_decimal_places_len(fraction: nat, width: nat)
    ensures
        decimal_places(fraction, width).len() <= width,
        padded_decimal(fraction, width).len() == width,
    decreases width,
{
    if width > 0 {
        lemma_decimal_places_len(fraction / 10, (width - 1) as nat);
    }
}

/// Writes the last `width` decimal digits of `n`, with leading zeros.
pub fn padded_decimal_string(n: u64, width: u8) -> (text: String)
    ensures
        text@ == padded_decimal(n as nat, width as nat),
    decreases width,
{
    if width == 0 {
        String::new()
    } else {
        let mut text: String = padded_decimal_string(n / 10, width - 1);
        text.append(digit_text(n % 10));
        proof {
            assert(text@ =~= padded_decimal(n as nat, width as nat));
        }
        text
    }
}

/// Writes the decimal places of a fraction of `width` digits, without the
/// zeros at its end.
pub fn decimal_places_string(fraction: u64, width: u8) -> (text: String)
    ensures
        text@ == decimal_places(fraction as nat, width as nat),
    decreases width,
{
    if width == 0 {
        String::new()
    } else if fraction % 10 == 0 {
        decimal_places_string(fraction / 10, width - 1)
    } else {
        padded_decimal_string(fraction, width)
    }
}

} // verus!
