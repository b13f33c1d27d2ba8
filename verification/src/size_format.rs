//! Byte counts rendered for people.
//!
//! Both renderings divide `bytes as f64` by a power of 1024 and print the
//! quotient with a fixed number of decimals. Dividing a double by a power of
//! two is exact, so what is printed is the exact value of `bytes as f64`
//! over the unit, rounded to the precision with ties going to the even digit.
//! Here that value is computed with integers and printed digit by digit.

use vstd::prelude::*;
use crate::text::{decimal, padded_digits, push_decimal, push_padded_digits, push_str, string_of};

verus! {

pub const KIB: u64 = 1024;

pub const MIB: u64 = 1048576;

pub const GIB: u64 = 1073741824;

/// Spacing of the doubles around `n`: 1 below 2^53, doubling with each binade above.
pub open spec fn f64_ulp(n: nat) -> nat
    decreases n,
{
    if n < 0x20_0000_0000_0000 {
        1
    } else {
        2 * f64_ulp(n / 2)
    }
}

/// `a / d` rounded to the nearest integer, ties to the even one.
pub open spec fn div_round_half_even(a: nat, d: nat) -> nat
    recommends
        d > 0,
{
    let q = a / d;
    let r = a % d;
    if 2 * r < d {
        q
    } else if 2 * r > d {
        q + 1
    } else if q % 2 == 0 {
        q
    } else {
        q + 1
    }
}

/// The exact value of `n as f64`: `n` rounded to a multiple of its ulp, ties to even.
pub open spec fn f64_value(n: nat) -> nat {
    div_round_half_even(n, f64_ulp(n)) * f64_ulp(n)
}

pub open spec fn pow10(p: nat) -> nat
    decreases p,
{
    if p == 0 {
        1
    } else {
        10 * pow10((p - 1) as nat)
    }
}

/// `v / 10^places` printed with exactly `places` decimals.
pub open spec fn fixed_point(v: nat, places: nat) -> Seq<char> {
    decimal(v / pow10(places)) + seq!['.'] + padded_digits(v % pow10(places), places)
}

/// `{:.places}` of `x / unit` where `x` is an exact double and `unit` a power of two.
pub open spec fn scaled(x: nat, unit: nat, places: nat) -> Seq<char> {
    fixed_point(div_round_half_even(x * pow10(places), unit), places)
}

/// What `format_bytes` prints for `bytes`.
pub open spec fn spec_format_bytes(bytes: u64) -> Seq<char> {
    let x = f64_value(bytes as nat);
    if bytes >= GIB {
        scaled(x, GIB as nat, 2) + " GB"@
    } else if bytes >= MIB {
        scaled(x, MIB as nat, 2) + " MB"@
    } else if bytes >= KIB {
        scaled(x, KIB as nat, 2) + " KB"@
    } else {
        decimal(bytes as nat) + " B"@
    }
}

/// What `fmt_bytes` prints for `n`.
pub open spec fn spec_fmt_bytes(n: u64) -> Seq<char> {
    let x = f64_value(n as nat);
    if n < KIB {
        decimal(n as nat) + " B"@
    } else if x < MIB {
        scaled(x, KIB as nat, 1) + " KiB"@
    } else {
        scaled(x, MIB as nat, 2) + " MiB"@
    }
}

/// Below 2^53 every count is a double, so the size printed is the count itself
/// over the unit, rounded half to even.
pub proof fn law_small_counts_are_exact(n: nat)
    requires
        n < 0x20_0000_0000_0000,
    ensures
        f64_value(n) == n,
{
    assert(f64_ulp(n) == 1);
    assert(n / 1 == n && n % 1 == 0) by (nonlinear_arith);
}

/// `a / d` rounded half to even.
pub fn div_round_half_even_u128(a: u128, d: u128) -> (r: u128)
    requires
        d > 0,
        a < 0x1_0000_0000_0000_0000_0000_0000,
    ensures
        r == div_round_half_even(a as nat, d as nat),
{
    let q = a / d;
    let rem = a % d;
    if rem < d - rem {
        q
    } else if rem > d - rem {
        q + 1
    } else if q % 2 == 0 {
        q
    } else {
        q + 1
    }
}

/// `n as f64`, as an exact integer.
pub fn f64_value_of(n: u64) -> (r: u128)
    ensures
        r == f64_value(n as nat),
        r < 0x2_0000_0000_0000_0000,
{
    let mut m: u64 = n;
    let mut u: u64 = 1;
    while m >= 0x20_0000_0000_0000
        invariant
            1 <= u <= 4096,
            u * f64_ulp(m as nat) == f64_ulp(n as nat),
            u * m <= n,
        decreases m,
    {
        assert(u < 2048) by (nonlinear_arith)
            requires
                u * m <= n,
                m >= 0x20_0000_0000_0000,
                n <= 0xffff_ffff_ffff_ffff,
        ;
        assert(f64_ulp(m as nat) == 2 * f64_ulp((m / 2) as nat));
        assert((2 * u) * (m / 2) <= u * m) by (nonlinear_arith);
        assert(u * (2 * f64_ulp((m / 2) as nat)) == (2 * u) * f64_ulp((m / 2) as nat))
            by (nonlinear_arith);
        m = m / 2;
        u = u * 2;
    }
    assert(f64_ulp(m as nat) == 1);
    assert(u * f64_ulp(m as nat) == u) by (nonlinear_arith)
        requires
            f64_ulp(m as nat) == 1,
    ;
    let q = div_round_half_even_u128(n as u128, u as u128);
    let ghost uu = u as nat;
    let ghost nn = n as nat;
    assert(q * uu <= nn + uu) by (nonlinear_arith)
        requires
            q <= nn / uu + 1,
            uu >= 1,
    ;
    q * (u as u128)
}

/// Appends `v / 10^places` with exactly `places` decimals (`places` is 1 or 2).
fn push_fixed_point(out: &mut Vec<char>, v: u128, places: u32)
    requires
        places == 1 || places == 2,
    ensures
        final(out)@ == old(out)@ + fixed_point(v as nat, places as nat),
{
    let scale: u128 = if places == 1 {
        10
    } else {
        100
    };
    assert(pow10(places as nat) == scale) by {
        reveal_with_fuel(pow10, 3);
    }
    push_decimal(out, v / scale);
    out.push('.');
    push_padded_digits(out, v % scale, places);
    assert(old(out)@ + fixed_point(v as nat, places as nat) =~= old(out)@ + decimal(
        (v / scale) as nat,
    ) + seq!['.'] + padded_digits((v % scale) as nat, places as nat));
}

/// Appends `{:.places}` of `x / unit`.
fn push_scaled(out: &mut Vec<char>, x: u128, unit: u128, places: u32)
    requires
        places == 1 || places == 2,
        x < 0x2_0000_0000_0000_0000,
        unit > 0,
    ensures
        final(out)@ == old(out)@ + scaled(x as nat, unit as nat, places as nat),
{
    let scale: u128 = if places == 1 {
        10
    } else {
        100
    };
    assert(pow10(places as nat) == scale) by {
        reveal_with_fuel(pow10, 3);
    }
    let v = div_round_half_even_u128(x * scale, unit);
    push_fixed_point(out, v, places);
}

/// Human-readable size with two decimals in B, KB, MB or GB (powers of 1024).
pub fn format_bytes(bytes: u64) -> (s: String)
    ensures
        s@ == spec_format_bytes(bytes),
{
    let x = f64_value_of(bytes);
    let mut out: Vec<char> = Vec::new();
    if bytes >= GIB {
        push_scaled(&mut out, x, GIB as u128, 2);
        push_str(&mut out, " GB");
    } else if bytes >= MIB {
        push_scaled(&mut out, x, MIB as u128, 2);
        push_str(&mut out, " MB");
    } else if bytes >= KIB {
        push_scaled(&mut out, x, KIB as u128, 2);
        push_str(&mut out, " KB");
    } else {
        push_decimal(&mut out, bytes as u128);
        push_str(&mut out, " B");
    }
    assert(out@ =~= spec_format_bytes(bytes));
    string_of(&out)
}

/// Human-readable size for the activator's log: bytes, KiB with one decimal, or MiB with two.
pub fn fmt_bytes(n: u64) -> (s: String)
    ensures
        s@ == spec_fmt_bytes(n),
{
    let x = f64_value_of(n);
    let mut out: Vec<char> = Vec::new();
    if n < KIB {
        push_decimal(&mut out, n as u128);
        push_str(&mut out, " B");
    } else if x < MIB as u128 {
        push_scaled(&mut out, x, KIB as u128, 1);
        push_str(&mut out, " KiB");
    } else {
        push_scaled(&mut out, x, MIB as u128, 2);
        push_str(&mut out, " MiB");
    }
    assert(out@ =~= spec_fmt_bytes(n));
    string_of(&out)
}

} // verus!
