//! Amounts written for people: byte counts in binary units and prices in
//! the chain's coin.

use vstd::prelude::*;
use crate::text::{decimal, zero_padded, push_decimal, push_zero_padded};

verus! {

/// Bytes in one KiB.
pub const KIB: u64 = 0x400;

/// Bytes in one MiB.
pub const MIB: u64 = 0x10_0000;

/// Bytes in one GiB.
pub const GIB: u64 = 0x4000_0000;

/// Bytes in one TiB.
pub const TIB: u64 = 0x100_0000_0000;

/// Bytes in one PiB.
pub const PIB: u64 = 0x4_0000_0000_0000;

/// Bytes in one EiB.
pub const EIB: u64 = 0x1000_0000_0000_0000;

/// MIST in one SUI.
pub const MIST_PER_SUI: u64 = 1_000_000_000;

/// Prices below this many MIST are written in MIST, all others in SUI.
pub const MIST_DISPLAY_LIMIT: u64 = 1_000_000;

/// The largest binary unit that is not larger than `n`, for `n` of at least
/// one KiB.
pub open spec fn byte_unit(n: u64) -> u64 {
    if n < MIB {
        KIB
    } else if n < GIB {
        MIB
    } else if n < TIB {
        GIB
    } else if n < PIB {
        TIB
    } else if n < EIB {
        PIB
    } else {
        EIB
    }
}

/// The name under which a binary unit is written.
pub open spec fn byte_unit_name(unit: u64) -> Seq<char> {
    if unit == KIB {
        " KiB"@
    } else if unit == MIB {
        " MiB"@
    } else if unit == GIB {
        " GiB"@
    } else if unit == TIB {
        " TiB"@
    } else if unit == PIB {
        " PiB"@
    } else {
        " EiB"@
    }
}

/// A count of whole units followed by two decimals, cut off, not rounded.
pub open spec fn two_decimals(n: u64, unit: u64) -> Seq<char>
    recommends
        unit > 0,
{
    decimal((n / unit) as nat) + "."@ + zero_padded(((n % unit) * 100 / (unit as int)) as nat, 2)
}

/// A byte count as people read it: below one KiB the plain number and
/// `B`, above it the count in the largest unit that fits, with two decimals.
pub open spec fn human_bytes(n: u64) -> Seq<char> {
    if n < KIB {
        decimal(n as nat) + " B"@
    } else {
        two_decimals(n, byte_unit(n)) + byte_unit_name(byte_unit(n))
    }
}

/// A price as people read it: small prices in MIST, all others in SUI with
/// three decimals, cut off, not rounded.
pub open spec fn human_mist(n: u64) -> Seq<char> {
    if n < MIST_DISPLAY_LIMIT {
        decimal(n as nat) + " MIST"@
    } else {
        decimal((n / MIST_PER_SUI) as nat) + "."@ + zero_padded(
            ((n % MIST_PER_SUI) / 1_000_000) as nat,
            3,
        ) + " SUI"@
    }
}

fn select_byte_unit(n: u64) -> (unit: u64)
    requires
        n >= KIB,
    ensures
        unit == byte_unit(n),
        KIB <= unit <= n,
{
    if n < MIB {
        KIB
    } else if n < GIB {
        MIB
    } else if n < TIB {
        GIB
    } else if n < PIB {
        TIB
    } else if n < EIB {
        PIB
    } else {
        EIB
    }
}

fn push_byte_unit_name(out: &mut String, unit: u64)
    ensures
        final(out)@ == old(out)@ + byte_unit_name(unit),
{
    if unit == KIB {
        out.append(" KiB");
    } else if unit == MIB {
        out.append(" MiB");
    } else if unit == GIB {
        out.append(" GiB");
    } else if unit == TIB {
        out.append(" TiB");
    } else if unit == PIB {
        out.append(" PiB");
    } else {
        out.append(" EiB");
    }
}

/// Appends [`human_bytes`] of `n` to `out`.
pub fn push_human_bytes(out: &mut String, n: u64)
    ensures
        final(out)@ == old(out)@ + human_bytes(n),
{
    if n < KIB {
        push_decimal(out, n);
        out.append(" B");
        assert(out@ =~= old(out)@ + human_bytes(n));
    } else {
        let unit: u64 = select_byte_unit(n);
        let rest: u128 = (n % unit) as u128;
        let hundredths: u128 = rest * 100 / (unit as u128);
        assert(hundredths < 100 && hundredths == (n % unit) * 100 / (unit as int))
            by (nonlinear_arith)
            requires
                hundredths == (rest * 100) / (unit as int),
                rest == n % unit,
                rest < unit,
                unit > 0,
        ;
        push_decimal(out, n / unit);
        out.append(".");
        push_zero_padded(out, hundredths as u64, 2);
        push_byte_unit_name(out, unit);
        assert(out@ =~= old(out)@ + human_bytes(n));
    }
}

/// Appends [`human_mist`] of `n` to `out`.
pub fn push_human_mist(out: &mut String, n: u64)
    ensures
        final(out)@ == old(out)@ + human_mist(n),
{
    if n < MIST_DISPLAY_LIMIT {
        push_decimal(out, n);
        out.append(" MIST");
        assert(out@ =~= old(out)@ + human_mist(n));
    } else {
        push_decimal(out, n / MIST_PER_SUI);
        out.append(".");
        push_zero_padded(out, (n % MIST_PER_SUI) / 1_000_000, 3);
        out.append(" SUI");
        assert(out@ =~= old(out)@ + human_mist(n));
    }
}

/// A byte count as people read it, see [`human_bytes`].
pub fn format_bytes(n: u64) -> (r: String)
    ensures
        r@ == human_bytes(n),
{
    let mut out = String::new();
    push_human_bytes(&mut out, n);
    assert(out@ =~= human_bytes(n));
    out
}

/// A price as people read it, see [`human_mist`].
pub fn format_mist(n: u64) -> (r: String)
    ensures
        r@ == human_mist(n),
{
    let mut out = String::new();
    push_human_mist(&mut out, n);
    assert(out@ =~= human_mist(n));
    out
}

} // verus!
