//! Binary-prefixed byte counts (`B`, `KiB`, `MiB`, `GiB`, `TiB`).
use crate::decimal::{dec_digits, push_decimal, push_two_digits, two_digits};
use vstd::arithmetic::div_mod::*;
use vstd::prelude::*;
use vstd::string::*;

verus! {

/// Bytes in one kibibyte.
pub const KIB: u64 = 0x400;

/// Bytes in one mebibyte.
pub const MIB: u64 = 0x10_0000;

/// Bytes in one gibibyte.
pub const GIB: u64 = 0x4000_0000;

/// Bytes in one tebibyte.
pub const TIB: u64 = 0x100_0000_0000;

/// The rank of the unit a byte count is shown in: 0 for bytes, 1 for KiB, up to 4 for TiB.
pub open spec fn iec_rank(v: nat) -> nat {
    if v < KIB {
        0
    } else if v < MIB {
        1
    } else if v < GIB {
        2
    } else if v < TIB {
        3
    } else {
        4
    }
}

/// The number of bytes in the unit of a rank.
pub open spec fn rank_size(k: nat) -> nat {
    if k == 0 {
        1
    } else if k == 1 {
        KIB as nat
    } else if k == 2 {
        MIB as nat
    } else if k == 3 {
        GIB as nat
    } else {
        TIB as nat
    }
}

/// The suffix printed for a rank.
pub open spec fn rank_suffix(k: nat) -> Seq<char> {
    if k == 0 {
        seq!['B']
    } else if k == 1 {
        seq!['K', 'i', 'B']
    } else if k == 2 {
        seq!['M', 'i', 'B']
    } else if k == 3 {
        seq!['G', 'i', 'B']
    } else {
        seq!['T', 'i', 'B']
    }
}

/// `n / d` rounded to the nearest integer, ties to the even neighbour.
pub open spec fn round_half_even(n: nat, d: nat) -> nat
    recommends
        d > 0,
{
    let q = n / d;
    let r = n % d;
    if 2 * r > d || (2 * r == d && q % 2 == 1) {
        q + 1
    } else {
        q
    }
}

/// A byte count in hundredths of its unit, rounded to the nearest hundredth.
pub open spec fn iec_hundredths(v: nat) -> nat {
    round_half_even(100 * v, rank_size(iec_rank(v)))
}

/// The text of a byte count: whole bytes below one kibibyte, otherwise the
/// count in its unit with exactly two decimals, then the unit's suffix.
pub open spec fn iec_text(v: nat) -> Seq<char> {
    if iec_rank(v) == 0 {
        dec_digits(v) + rank_suffix(0)
    } else {
        let h = iec_hundredths(v);
        dec_digits(h / 100) + seq!['.'] + two_digits(h % 100) + rank_suffix(iec_rank(v))
    }
}

/// Rounding a quotient to the nearest integer keeps the order of the dividends.
pub proof fn lemma_round_half_even_monotonic(n: nat, m: nat, d: nat)
    requires
        n <= m,
        d > 0,
    ensures
        round_half_even(n, d) <= round_half_even(m, d),
{
    lemma_div_is_ordered(n as int, m as int, d as int);
    lemma_fundamental_div_mod(n as int, d as int);
    lemma_fundamental_div_mod(m as int, d as int);
    lemma_mod_bound(n as int, d as int);
    lemma_mod_bound(m as int, d as int);
    let qn = n / d;
    let qm = m / d;
    if qn == qm {
        assert(d * (n / d) == d * (m / d));
    }
}

/// A larger byte count is never shown smaller: it is shown in a larger unit,
/// or in the same unit with at least as many hundredths.
pub proof fn lemma_format_iec_monotonic(v: nat, w: nat)
    requires
        v <= w,
    ensures
        iec_rank(v) <= iec_rank(w),
        iec_rank(v) == iec_rank(w) ==> iec_hundredths(v) <= iec_hundredths(w),
{
    if iec_rank(v) == iec_rank(w) {
        lemma_round_half_even_monotonic(100 * v, 100 * w, rank_size(iec_rank(v)));
    }
}

/// Renders a byte count with a binary prefix: `1023B`, `1.00KiB`, `1.50MiB`.
pub fn format_iec(value: u64) -> (r: String)
    ensures
        r@ == iec_text(value as nat),
{
    proof {
        reveal_strlit("B");
        reveal_strlit("KiB");
        reveal_strlit("MiB");
        reveal_strlit("GiB");
        reveal_strlit("TiB");
        reveal_strlit(".");
    }
    let mut out = String::new();
    if value < KIB {
        push_decimal(&mut out, value);
        out.append("B");
        assert(out@ =~= iec_text(value as nat));
        return out;
    }
    let (unit, suffix): (u64, &str) = if value < MIB {
        (KIB, "KiB")
    } else if value < GIB {
        (MIB, "MiB")
    } else if value < TIB {
        (GIB, "GiB")
    } else {
        (TIB, "TiB")
    };
    assert(unit as nat == rank_size(iec_rank(value as nat)));
    assert(suffix@ == rank_suffix(iec_rank(value as nat)));
    let n: u128 = value as u128 * 100;
    let d: u128 = unit as u128;
    let q: u128 = n / d;
    let rem: u128 = n % d;
    let h: u128 = if 2 * rem > d || (2 * rem == d && q % 2 == 1) {
        q + 1
    } else {
        q
    };
    proof {
        assert(h as nat == iec_hundredths(value as nat));
        lemma_div_is_ordered_by_denominator(n as int, 1, d as int);
        lemma_div_is_ordered(h as int, 100 * value as int + 1, 100);
        assert((100 * value as int + 1) / 100 == value as int);
    }
    push_decimal(&mut out, (h / 100) as u64);
    out.append(".");
    push_two_digits(&mut out, (h % 100) as u64);
    out.append(suffix);
    assert(out@ =~= iec_text(value as nat));
    out
}

} // verus!
