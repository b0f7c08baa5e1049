use vstd::prelude::*;

use crate::text::{decimal, push_decimal};

verus! {

/// Size helpers shared by every backend.
pub struct Utils;

/// `1024` raised to the power `k`.
pub open spec fn pow1024(k: nat) -> nat
    decreases k,
{
    if k == 0 {
        1
    } else {
        1024 * pow1024((k - 1) as nat)
    }
}

/// Index of the largest unit in which `b`, starting the search from unit
/// `k`, is no longer above 1024 units of the next one down.
pub open spec fn unit_index_from(b: nat, k: nat) -> nat
    decreases 4 - k,
{
    if k < 4 && b > pow1024(k + 1) {
        unit_index_from(b, k + 1)
    } else {
        k
    }
}

/// The unit `format_size` uses for `b` bytes: 0 for B up to 4 for TB.
pub open spec fn unit_index(b: nat) -> nat {
    unit_index_from(b, 0)
}

pub open spec fn unit_name(k: nat) -> Seq<char> {
    if k == 0 {
        seq!['B']
    } else if k == 1 {
        seq!['K', 'B']
    } else if k == 2 {
        seq!['M', 'B']
    } else if k == 3 {
        seq!['G', 'B']
    } else {
        seq!['T', 'B']
    }
}

/// `n / d` rounded to the nearest integer, ties to the even one.
pub open spec fn div_round_even(n: nat, d: nat) -> nat
    recommends
        d > 0,
{
    let q = n / d;
    let r = n % d;
    if 2 * r > d {
        q + 1
    } else if 2 * r < d {
        q
    } else if q % 2 == 0 {
        q
    } else {
        q + 1
    }
}

/// Hundredths of the chosen unit that `b` bytes amount to.
pub open spec fn hundredths(b: nat) -> nat {
    div_round_even(100 * b, pow1024(unit_index(b)))
}

/// Two digits of a fraction below 100, with a leading zero when needed.
pub open spec fn two_digits(f: nat) -> Seq<char> {
    if f < 10 {
        seq!['0'] + decimal(f)
    } else {
        decimal(f)
    }
}

/// The text `format_size` gives for `b` bytes: the amount in the largest
/// fitting unit with two decimals, a space, and the unit.
pub open spec fn size_text(b: nat) -> Seq<char> {
    let h = hundredths(b);
    decimal(h / 100) + seq!['.'] + two_digits(h % 100) + seq![' '] + unit_name(unit_index(b))
}

/// The byte count a measurement reports once `len` more bytes are found;
/// the sum stays at `u64::MAX` rather than wrap.
pub open spec fn capped_add(total: int, len: int) -> int {
    if total + len > u64::MAX {
        u64::MAX as int
    } else {
        total + len
    }
}

proof fn lemma_pow1024_small(k: nat)
    requires
        k <= 5,
    ensures
        pow1024(k) <= 1125899906842624,
        k <= 4 ==> pow1024(k) <= 1099511627776,
        pow1024(k) >= 1,
{
    reveal_with_fuel(pow1024, 6);
}

proof fn lemma_unit_index_from_at_least(b: nat, k: nat)
    requires
        k <= 4,
    ensures
        k <= unit_index_from(b, k) <= 4,
    decreases 4 - k,
{
    if k < 4 && b > pow1024(k + 1) {
        lemma_unit_index_from_at_least(b, k + 1);
    }
}

proof fn lemma_unit_index_from_monotone(b1: nat, b2: nat, k: nat)
    requires
        b1 <= b2,
        k <= 4,
    ensures
        unit_index_from(b1, k) <= unit_index_from(b2, k),
    decreases 4 - k,
{
    lemma_unit_index_from_at_least(b2, k);
    if k < 4 && b1 > pow1024(k + 1) {
        lemma_unit_index_from_monotone(b1, b2, k + 1);
    }
}

/// The unit that `format_size` picks never gets smaller as the byte count
/// grows.
pub proof fn lemma_unit_index_monotone(b1: nat, b2: nat)
    requires
        b1 <= b2,
    ensures
        unit_index(b1) <= unit_index(b2),
        unit_index(b2) <= 4,
{
    lemma_unit_index_from_monotone(b1, b2, 0);
    lemma_unit_index_from_at_least(b2, 0);
}

fn unit_str(k: usize) -> (r: &'static str)
    requires
        k <= 4,
    ensures
        r@ == unit_name(k as nat),
{
    if k == 0 {
        proof { reveal_strlit("B"); }
        "B"
    } else if k == 1 {
        proof { reveal_strlit("KB"); }
        "KB"
    } else if k == 2 {
        proof { reveal_strlit("MB"); }
        "MB"
    } else if k == 3 {
        proof { reveal_strlit("GB"); }
        "GB"
    } else {
        proof { reveal_strlit("TB"); }
        "TB"
    }
}

impl Utils {
    /// Renders a byte count in the largest unit (B, KB, MB, GB, TB) in which
    /// it stays above 1024 of the unit below, with two decimals.
    pub fn format_size(size: u64) -> (r: String)
        ensures
            r@ == size_text(size as nat),
    {
        let b = size as u128;
        let mut k: usize = 0;
        let mut d: u128 = 1;
        proof {
            reveal_with_fuel(pow1024, 1);
            lemma_unit_index_from_at_least(b as nat, 0);
        }
        while k < 4 && b > d * 1024
            invariant
                k <= 4,
                d as nat == pow1024(k as nat),
                d <= 1099511627776,
                unit_index_from(b as nat, k as nat) == unit_index(b as nat),
            decreases 4 - k,
        {
            proof {
                lemma_pow1024_small(k as nat);
                lemma_pow1024_small((k + 1) as nat);
            }
            d = d * 1024;
            k = k + 1;
        }
        proof {
            lemma_pow1024_small(k as nat);
            lemma_pow1024_small((k + 1) as nat);
        }
        let n: u128 = 100 * b;
        let q = n / d;
        let rem = n % d;
        let h: u128 = if 2 * rem > d {
            q + 1
        } else if 2 * rem < d {
            q
        } else if q % 2 == 0 {
            q
        } else {
            q + 1
        };
        assert(h as nat == hundredths(size as nat));
        let mut out = String::new();
        push_decimal(&mut out, h / 100);
        out.append(".");
        let f = h % 100;
        if f < 10 {
            out.append("0");
        }
        push_decimal(&mut out, f);
        out.append(" ");
        out.append(unit_str(k));
        proof {
            reveal_strlit(".");
            reveal_strlit("0");
            reveal_strlit(" ");
            assert(out@ =~= size_text(size as nat));
        }
        out
    }

    /// Adds the length of one more file to a running directory total,
    /// staying at `u64::MAX` rather than wrap.
    pub fn add_file_size(total: u64, len: u64) -> (r: u64)
        ensures
            r as int == capped_add(total as int, len as int),
    {
        total.saturating_add(len)
    }
}

} // verus!
