//! Rendering of numbers and lists as text.
//!
//! Everything here is stated over `Seq<char>`, the view of a `String`.

use vstd::prelude::*;
use vstd::string::*;

verus! {

/// The character that shows the decimal digit `d`.
pub open spec fn digit_char(d: int) -> char {
    if d == 0 {
        '0'
    } else if d == 1 {
        '1'
    } else if d == 2 {
        '2'
    } else if d == 3 {
        '3'
    } else if d == 4 {
        '4'
    } else if d == 5 {
        '5'
    } else if d == 6 {
        '6'
    } else if d == 7 {
        '7'
    } else if d == 8 {
        '8'
    } else {
        '9'
    }
}

/// The decimal digits of `n`, most significant first, without leading zeros.
pub open spec fn nat_text(n: nat) -> Seq<char>
    decreases n,
{
    if n < 10 {
        seq![digit_char(n as int)]
    } else {
        nat_text(n / 10).push(digit_char((n % 10) as int))
    }
}

/// The magnitude of `v`.
pub open spec fn magnitude(v: int) -> nat {
    if v < 0 {
        (-v) as nat
    } else {
        v as nat
    }
}

/// The fraction of an amount, for a count of hundredths below one hundred:
/// nothing where there is none, else a point and the digits without a zero
/// at the end.
pub open spec fn fraction_text(hundredths: nat) -> Seq<char> {
    if hundredths == 0 {
        Seq::<char>::empty()
    } else if hundredths % 10 == 0 {
        seq!['.', digit_char((hundredths / 10) as int)]
    } else {
        seq!['.', digit_char((hundredths / 10) as int), digit_char((hundredths % 10) as int)]
    }
}

/// An amount of hundredths written as the shortest decimal number: the sign
/// where it is negative, the whole part, and a fraction only where there is
/// one. `5000` reads `50`, `-1250` reads `-12.5`, `5` reads `0.05`, `0`
/// reads `0`.
pub open spec fn money_text(v: int) -> Seq<char> {
    let m = magnitude(v);
    let sign = if v < 0 {
        seq!['-']
    } else {
        Seq::<char>::empty()
    };
    sign + nat_text(m / 100) + fraction_text(m % 100)
}

/// The lines joined by single line feeds, with none at the end.
pub open spec fn join_lines(lines: Seq<Seq<char>>) -> Seq<char>
    decreases lines.len(),
{
    if lines.len() == 0 {
        Seq::<char>::empty()
    } else if lines.len() == 1 {
        lines[0]
    } else {
        join_lines(lines.drop_last()) + seq!['\n'] + lines.last()
    }
}

/// The one-character string for a decimal digit.
fn digit_str(d: u64) -> (s: &'static str)
    requires
        d < 10,
    ensures
        s@ == seq![digit_char(d as int)],
{
    proof {
        reveal_strlit("0");
        reveal_strlit("1");
        reveal_strlit("2");
        reveal_strlit("3");
        reveal_strlit("4");
        reveal_strlit("5");
        reveal_strlit("6");
        reveal_strlit("7");
        reveal_strlit("8");
        reveal_strlit("9");
    }
    let s: &'static str = if d == 0 {
        "0"
    } else if d == 1 {
        "1"
    } else if d == 2 {
        "2"
    } else if d == 3 {
        "3"
    } else if d == 4 {
        "4"
    } else if d == 5 {
        "5"
    } else if d == 6 {
        "6"
    } else if d == 7 {
        "7"
    } else if d == 8 {
        "8"
    } else {
        "9"
    };
    s
}

/// Writes `n` in decimal.
pub fn render_nat(n: u64) -> (s: String)
    ensures
        s@ == nat_text(n as nat),
    decreases n,
{
    if n < 10 {
        String::from_str(digit_str(n))
    } else {
        let mut s = render_nat(n / 10);
        s.append(digit_str(n % 10));
        s
    }
}

/// Writes an amount of hundredths as the shortest decimal number.
pub fn render_money(v: i64) -> (s: String)
    ensures
        s@ == money_text(v as int),
{
    let m: u64 = if v >= 0 {
        v as u64
    } else {
        (-(v + 1)) as u64 + 1
    };
    let mut s = if v < 0 {
        String::from_str("-")
    } else {
        String::new()
    };
    proof {
        reveal_strlit("-");
        reveal_strlit(".");
    }
    let whole = render_nat(m / 100);
    s.append(whole.as_str());
    let fraction: u64 = m % 100;
    if fraction != 0 {
        s.append(".");
        s.append(digit_str(fraction / 10));
        if fraction % 10 != 0 {
            s.append(digit_str(fraction % 10));
        }
    }
    s
}

/// The lines as sequences of characters.
pub open spec fn line_views(lines: Seq<String>) -> Seq<Seq<char>> {
    Seq::new(lines.len(), |i: int| lines[i]@)
}

/// Joins the lines with single line feeds.
pub fn join_with_newlines(lines: &Vec<String>) -> (s: String)
    ensures
        s@ == join_lines(line_views(lines@)),
{
    let ghost views = line_views(lines@);
    let mut s = String::new();
    let mut i: usize = 0;
    while i < lines.len()
        invariant
            i <= lines.len(),
            views == line_views(lines@),
            s@ == join_lines(views.take(i as int)),
        decreases lines.len() - i,
    {
        proof {
            reveal_strlit("\n");
            let next = views.take(i as int + 1);
            assert(next.drop_last() =~= views.take(i as int));
        }
        if i > 0 {
            s.append("\n");
        }
        s.append(lines[i].as_str());
        i += 1;
    }
    assert(views.take(i as int) =~= views);
    s
}

} // verus!
