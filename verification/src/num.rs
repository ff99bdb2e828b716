//! Powers of ten and decimal rendering of amounts.

use vstd::prelude::*;

verus! {

use vstd::string::StringExecFns;

/// `10^e` as a mathematical natural.
pub open spec fn pow10_spec(e: nat) -> nat
    decreases e,
{
    if e == 0 {
        1
    } else {
        10 * pow10_spec((e - 1) as nat)
    }
}

pub proof fn lemma_pow10_pos(e: nat)
    ensures
        pow10_spec(e) >= 1,
    decreases e,
{
    if e > 0 {
        lemma_pow10_pos((e - 1) as nat);
    }
}

pub proof fn lemma_pow10_mono(i: nat, j: nat)
    requires
        i <= j,
    ensures
        pow10_spec(i) <= pow10_spec(j),
    decreases j,
{
    if i < j {
        lemma_pow10_mono(i, (j - 1) as nat);
        lemma_pow10_pos((j - 1) as nat);
    }
}

/// Every power up to `10^38` fits a 128-bit unsigned amount.
pub proof fn lemma_pow10_fits_u128(e: nat)
    requires
        e <= 38,
    ensures
        pow10_spec(e) <= 100_000_000_000_000_000_000_000_000_000_000_000_000,
{
    lemma_pow10_mono(e, 38);
    reveal_with_fuel(pow10_spec, 40);
    assert(pow10_spec(38) == 100_000_000_000_000_000_000_000_000_000_000_000_000);
}

/// `10^e` over 128-bit amounts; `e` is bounded so that the result fits.
pub fn pow10(e: u8) -> (r: u128)
    requires
        e <= 38,
    ensures
        r == pow10_spec(e as nat),
{
    let mut r: u128 = 1;
    let mut i: u8 = 0;
    while i < e
        invariant
            i <= e <= 38,
            r == pow10_spec(i as nat),
        decreases e - i,
    {
        proof {
            lemma_pow10_fits_u128((i + 1) as nat);
        }
        r = r * 10;
        i = i + 1;
    }
    r
}

/// The character for one decimal digit.
pub open spec fn dec_digit(d: nat) -> char {
    ((48 + d) as u8) as char
}

/// The decimal rendering of a natural number, most significant digit first,
/// with no leading zeros (a single `'0'` for zero).
pub open spec fn dec_str(n: nat) -> Seq<char>
    decreases n,
{
    if n < 10 {
        seq![dec_digit(n)]
    } else {
        dec_str(n / 10).push(dec_digit(n % 10))
    }
}

fn dec_digit_str(d: u128) -> (r: &'static str)
    requires
        d < 10,
    ensures
        r@ =~= seq![dec_digit(d as nat)],
{
    proof {
        reveal_strlit("0");
        reveal_strlit("1");
        reveal_strlit("2");
        reveal_strlit("3");
        reveal_strlit("4");
        reveal_strlit("5");
        reveal_strlit("6");
        reveal_strlit("7");
        reveal_strlit("8");
        reveal_strlit("9");
    }
    match d {
        0 => "0",
        1 => "1",
        2 => "2",
        3 => "3",
        4 => "4",
        5 => "5",
        6 => "6",
        7 => "7",
        8 => "8",
        _ => "9",
    }
}

/// Renders a 128-bit amount in decimal.
pub fn u128_to_dec(n: u128) -> (r: String)
    ensures
        r@ == dec_str(n as nat),
    decreases n,
{
    if n < 10 {
        String::from_str(dec_digit_str(n))
    } else {
        let mut s = u128_to_dec(n / 10);
        s.append(dec_digit_str(n % 10));
        proof {
            assert(s@ =~= dec_str(n as nat));
        }
        s
    }
}

} // verus!
