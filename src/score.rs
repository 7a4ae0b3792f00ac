//! The krill/death ratio shown in the score bar and in the final report.
use vstd::prelude::*;

verus! {

/// The text shown for the ratio before the whale has ever been harpooned.
pub const UNDEFINED_RATIO: &'static str = "\u{221E}";

/// The decimal digit `d`, for `0 <= d < 10`.
pub open spec fn digit_char(d: int) -> char {
    seq!['0', '1', '2', '3', '4', '5', '6', '7', '8', '9'][d]
}

/// `n` written in decimal, without leading zeros.
pub open spec fn decimal(n: nat) -> Seq<char>
    decreases n,
{
    if n < 10 {
        seq![digit_char(n as int)]
    } else {
        decimal(n / 10).push(digit_char((n % 10) as int))
    }
}

/// `t` thousandths written with exactly three decimal places.
pub open spec fn three_places(t: nat) -> Seq<char> {
    decimal(t / 1000) + seq![
        '.',
        digit_char(((t / 100) % 10) as int),
        digit_char(((t / 10) % 10) as int),
        digit_char((t % 10) as int),
    ]
}

/// `k / h` in thousandths, rounded to the nearest; an exact half goes to the
/// even neighbour.
pub open spec fn ratio_thousandths(k: nat, h: nat) -> nat
    recommends
        h > 0,
{
    let q = (k * 1000) / h;
    let r = (k * 1000) % h;
    if 2 * r > h {
        q + 1
    } else if 2 * r < h {
        q
    } else if q % 2 == 0 {
        q
    } else {
        q + 1
    }
}

/// The ratio of `k` krill to `h` harpoons as text: three decimal places, or
/// the infinity sign while `h` is zero.
pub open spec fn ratio_text(k: nat, h: nat) -> Seq<char> {
    if h == 0 {
        seq!['\u{221E}']
    } else {
        three_places(ratio_thousandths(k, h))
    }
}

/// The text of one decimal digit.
fn digit_text(d: u128) -> (r: &'static str)
    requires
        d < 10,
    ensures
        r@ == seq![digit_char(d as int)],
{
    proof {
        reveal_strlit("0");
        reveal_strlit("1");
        reveal_strlit("2");
        reveal_strlit("3");
        reveal_strlit("4");
        reveal_strlit("5");
        reveal_strlit("6");
        reveal_strlit("7");
        reveal_strlit("8");
        reveal_strlit("9");
    }
    if d == 0 {
        "0"
    } else if d == 1 {
        "1"
    } else if d == 2 {
        "2"
    } else if d == 3 {
        "3"
    } else if d == 4 {
        "4"
    } else if d == 5 {
        "5"
    } else if d == 6 {
        "6"
    } else if d == 7 {
        "7"
    } else if d == 8 {
        "8"
    } else {
        "9"
    }
}

/// Appends `n` in decimal to `s`.
fn append_decimal(s: &mut String, n: u128)
    ensures
        final(s)@ == old(s)@ + decimal(n as nat),
    decreases n,
{
    if n >= 10 {
        append_decimal(s, n / 10);
    }
    s.append(digit_text(n % 10));
    proof {
        if n >= 10 {
            assert(decimal(n as nat) == decimal((n / 10) as nat).push(digit_char((n % 10) as int)));
        }
    }
    assert(final(s)@ =~= old(s)@ + decimal(n as nat));
}

/// `krill / harpoons` in thousandths, rounded to the nearest, halves to even.
pub fn thousandths(krill: usize, harpoons: usize) -> (r: u128)
    requires
        harpoons > 0,
    ensures
        r == ratio_thousandths(krill as nat, harpoons as nat),
{
    let scaled: u128 = krill as u128 * 1000;
    let h: u128 = harpoons as u128;
    let q: u128 = scaled / h;
    let r: u128 = scaled % h;
    assert(q <= scaled) by (nonlinear_arith)
        requires q == scaled / h, h > 0;
    if 2 * r > h {
        q + 1
    } else if 2 * r < h {
        q
    } else if q % 2 == 0 {
        q
    } else {
        q + 1
    }
}

/// The ratio of `krill` to `harpoons` as text, as [`ratio_text`] says.
pub fn ratio_string(krill: usize, harpoons: usize) -> (r: String)
    ensures
        r@ == ratio_text(krill as nat, harpoons as nat),
{
    if harpoons == 0 {
        proof {
            reveal_strlit("\u{221E}");
        }
        return String::from_str(UNDEFINED_RATIO);
    }
    let t = thousandths(krill, harpoons);
    let mut s = String::new();
    append_decimal(&mut s, t / 1000);
    proof {
        reveal_strlit(".");
    }
    s.append(".");
    s.append(digit_text((t / 100) % 10));
    s.append(digit_text((t / 10) % 10));
    s.append(digit_text(t % 10));
    assert(s@ =~= three_places(t as nat));
    s
}

} // verus!
