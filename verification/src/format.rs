//! How a transfer's figures are shown: the rate in binary magnitudes, the time
//! that is left in hours, minutes and seconds, the share that is done as a
//! fixed-point percentage.

use crate::progress::PERCENT_FULL;
use crate::text::{decimal, decimal_padded, push_decimal, push_decimal_padded};
use vstd::arithmetic::div_mod::lemma_fundamental_div_mod_converse;
use vstd::prelude::*;
use vstd::string::*;

verus! {

/// Bytes in one KiB.
pub const KIB: u64 = 1024;

/// Bytes in one MiB.
pub const MIB: u64 = 1_048_576;

/// Bytes in one GiB.
pub const GIB: u64 = 1_073_741_824;

/// `n / unit` in hundredths, rounded to the nearest hundredth; a value that lies
/// exactly between two hundredths goes to the even one.
pub open spec fn hundredths(n: nat, unit: nat) -> nat
    recommends
        unit > 0,
{
    let whole = (n * 100) / unit;
    let rest = (n * 100) % unit;
    if 2 * rest > unit || (2 * rest == unit && whole % 2 == 1) {
        whole + 1
    } else {
        whole
    }
}

/// A count of hundredths written with two decimal places: `h = 1234` is `12.34`.
pub open spec fn two_places(h: nat) -> Seq<char> {
    decimal(h / 100) + seq!['.'] + decimal_padded(h % 100)
}

/// The text of a rate of `n` bytes per second: two decimal places of GiB/s, MiB/s
/// or KiB/s from the largest of these units that `n` reaches, whole B/s below 1 KiB.
pub open spec fn speed_text(n: nat) -> Seq<char> {
    if n >= GIB {
        two_places(hundredths(n, GIB as nat)) + " GiB/s"@
    } else if n >= MIB {
        two_places(hundredths(n, MIB as nat)) + " MiB/s"@
    } else if n >= KIB {
        two_places(hundredths(n, KIB as nat)) + " KiB/s"@
    } else {
        decimal(n) + " B/s"@
    }
}

/// The text of `s` seconds: hours, minutes and seconds from one hour on, minutes
/// and seconds from one minute on, seconds alone below that. Minutes and seconds
/// behind a larger unit take two digits.
pub open spec fn eta_text(s: nat) -> Seq<char> {
    if s >= 3600 {
        decimal(s / 3600) + "h "@ + decimal_padded((s % 3600) / 60) + "m "@ + decimal_padded(
            s % 60,
        ) + "s"@
    } else if s >= 60 {
        decimal(s / 60) + "m "@ + decimal_padded(s % 60) + "s"@
    } else {
        decimal(s) + "s"@
    }
}

/// `bytes / total` in thousandths of a percent, rounded down.
pub open spec fn share_of(bytes: nat, total: nat) -> int
    recommends
        total > 0,
{
    (bytes * PERCENT_FULL) / (total as int)
}

/// The share `bytes / total` in thousandths of a percent, rounded down: 0 where
/// `total` is 0, and the largest `u64` where the share does not fit.
pub open spec fn percentage_of(bytes: nat, total: nat) -> nat {
    if total == 0 {
        0
    } else if share_of(bytes, total) > u64::MAX {
        u64::MAX as nat
    } else {
        share_of(bytes, total) as nat
    }
}

fn scaled_hundredths(n: u64, unit: u64) -> (h: u64)
    requires
        KIB <= unit <= GIB,
        n >= unit,
    ensures
        h == hundredths(n as nat, unit as nat),
{
    let whole: u64 = n / unit;
    let rest: u64 = n % unit;
    proof {
        vstd::arithmetic::div_mod::lemma_fundamental_div_mod(n as int, unit as int);
        vstd::arithmetic::div_mod::lemma_mod_bound(n as int, unit as int);
        assert(whole * 1024 <= u64::MAX) by (nonlinear_arith)
            requires
                n == unit * whole + rest,
                0 <= rest < unit,
                1024 <= unit <= n,
                n <= u64::MAX,
                0 <= whole,
        ;
    }
    let part: u64 = (rest * 100) / unit;
    let left: u64 = (rest * 100) % unit;
    proof {
        vstd::arithmetic::div_mod::lemma_fundamental_div_mod(rest * 100, unit as int);
        vstd::arithmetic::div_mod::lemma_mod_bound(rest * 100, unit as int);
        assert(part < 100) by (nonlinear_arith)
            requires
                rest * 100 == unit * part + left,
                0 <= left,
                0 <= rest < unit,
                0 <= part,
        ;
    }
    let base: u64 = whole * 100 + part;
    proof {
        assert(n * 100 == base * unit + left) by (nonlinear_arith)
            requires
                n == unit * whole + rest,
                rest * 100 == unit * part + left,
                base == whole * 100 + part,
        ;
        lemma_fundamental_div_mod_converse(n * 100, unit as int, base as int, left as int);
    }
    if 2 * left > unit || (2 * left == unit && base % 2 == 1) {
        base + 1
    } else {
        base
    }
}

fn push_two_places(out: &mut String, h: u64)
    ensures
        final(out)@ == old(out)@ + two_places(h as nat),
{
    proof {
        reveal_strlit(".");
    }
    push_decimal(out, h / 100);
    out.append(".");
    push_decimal_padded(out, h % 100);
    assert(out@ =~= old(out)@ + two_places(h as nat));
}

/// Formats a rate of `bytes_per_sec` bytes per second.
pub fn format_speed(bytes_per_sec: u64) -> (text: String)
    ensures
        text@ == speed_text(bytes_per_sec as nat),
{
    let mut out = String::new();
    if bytes_per_sec >= GIB {
        let h = scaled_hundredths(bytes_per_sec, GIB);
        push_two_places(&mut out, h);
        out.append(" GiB/s");
    } else if bytes_per_sec >= MIB {
        let h = scaled_hundredths(bytes_per_sec, MIB);
        push_two_places(&mut out, h);
        out.append(" MiB/s");
    } else if bytes_per_sec >= KIB {
        let h = scaled_hundredths(bytes_per_sec, KIB);
        push_two_places(&mut out, h);
        out.append(" KiB/s");
    } else {
        push_decimal(&mut out, bytes_per_sec);
        out.append(" B/s");
    }
    assert(out@ =~= speed_text(bytes_per_sec as nat));
    out
}

/// Formats a time of `seconds` seconds that is left.
pub fn format_eta(seconds: u64) -> (text: String)
    ensures
        text@ == eta_text(seconds as nat),
{
    let mut out = String::new();
    if seconds >= 3600 {
        push_decimal(&mut out, seconds / 3600);
        out.append("h ");
        push_decimal_padded(&mut out, (seconds % 3600) / 60);
        out.append("m ");
        push_decimal_padded(&mut out, seconds % 60);
        out.append("s");
    } else if seconds >= 60 {
        push_decimal(&mut out, seconds / 60);
        out.append("m ");
        push_decimal_padded(&mut out, seconds % 60);
        out.append("s");
    } else {
        push_decimal(&mut out, seconds);
        out.append("s");
    }
    assert(out@ =~= eta_text(seconds as nat));
    out
}

/// The share of `total` bytes that `bytes` bytes are, in thousandths of a percent.
pub fn percentage(bytes: u64, total: u64) -> (p: u64)
    ensures
        p == percentage_of(bytes as nat, total as nat),
{
    if total == 0 {
        return 0;
    }
    assert(bytes * PERCENT_FULL <= u128::MAX) by {
        assert(PERCENT_FULL == 100_000);
    }
    let wide: u128 = (bytes as u128) * (PERCENT_FULL as u128);
    let share: u128 = wide / (total as u128);
    if share > u64::MAX as u128 {
        u64::MAX
    } else {
        share as u64
    }
}

/// A share is 0 where the total is unknown and `bytes / total` to the thousandth
/// of a percent, rounded down, otherwise; it stays within 100 % as long as no
/// more is done than the total, and is 100 % when all of it is done.
pub proof fn lemma_percentage_bounds(bytes: nat, total: nat)
    requires
        bytes <= u64::MAX,
        total <= u64::MAX,
    ensures
        total == 0 ==> percentage_of(bytes, total) == 0,
        total > 0 && bytes <= total ==> {
            let p = percentage_of(bytes, total);
            &&& p <= PERCENT_FULL
            &&& p * total <= bytes * PERCENT_FULL < (p + 1) * total
        },
        total > 0 && bytes == total ==> percentage_of(bytes, total) == PERCENT_FULL,
{
    if total > 0 && bytes <= total {
        let scaled: int = bytes * PERCENT_FULL;
        let q: int = share_of(bytes, total);
        vstd::arithmetic::div_mod::lemma_fundamental_div_mod(scaled, total as int);
        vstd::arithmetic::div_mod::lemma_mod_bound(scaled, total as int);
        let r: int = scaled % (total as int);
        assert(0 <= q <= PERCENT_FULL && q * total <= scaled < (q + 1) * total) by (nonlinear_arith)
            requires
                scaled == total * q + r,
                0 <= r < total,
                scaled == bytes * PERCENT_FULL,
                0 <= bytes <= total,
        ;
        if bytes == total {
            assert(q == PERCENT_FULL) by (nonlinear_arith)
                requires
                    scaled == total * q + r,
                    0 <= r < total,
                    scaled == total * PERCENT_FULL,
            ;
        }
    }
}

} // verus!
