//! Rendering byte counts in human-readable binary units.
//!
//! Sizes below 1024 are rendered in bytes; above that, with two decimal
//! places in KB, MB or GB (1024-based). The two decimal places are the exact
//! hundredths of the scaled value, rounded to the nearest with ties going to
//! the even value.

use vstd::prelude::*;

use crate::strutil::char_to_string;

verus! {

pub const KB: u64 = 1024;

pub const MB: u64 = 1024 * 1024;

pub const GB: u64 = 1024 * 1024 * 1024;

/// The character of one decimal digit.
pub open spec fn digit_char(d: nat) -> char {
    if d == 0 {
        '0'
    } else if d == 1 {
        '1'
    } else if d == 2 {
        '2'
    } else if d == 3 {
        '3'
    } else if d == 4 {
        '4'
    } else if d == 5 {
        '5'
    } else if d == 6 {
        '6'
    } else if d == 7 {
        '7'
    } else if d == 8 {
        '8'
    } else {
        '9'
    }
}

/// The decimal digits of `n`, most significant first.
pub open spec fn dec_str(n: nat) -> Seq<char>
    decreases n,
{
    if n < 10 {
        seq![digit_char(n)]
    } else {
        dec_str(n / 10) + seq![digit_char(n % 10)]
    }
}

/// `100 * size / unit`, rounded to the nearest integer with ties going to
/// the even value.
pub open spec fn spec_hundredths(size: nat, unit: nat) -> nat
    recommends
        unit > 0,
{
    let q = size * 100 / unit;
    let r = size * 100 % unit;
    if 2 * r > unit {
        q + 1
    } else if 2 * r < unit {
        q
    } else if q % 2 == 1 {
        q + 1
    } else {
        q
    }
}

/// The scaled value with two decimal places: whole part, '.', hundredths.
pub open spec fn spec_scaled(size: nat, unit: nat) -> Seq<char> {
    let h = spec_hundredths(size, unit);
    let frac = h % 100;
    dec_str(h / 100) + seq!['.', digit_char(frac / 10), digit_char(frac % 10)]
}

/// Which unit a size is rendered in: 0 for B, 1 for KB, 2 for MB, 3 for GB.
pub open spec fn spec_unit_rank(size: nat) -> nat {
    if size < KB {
        0
    } else if size < MB {
        1
    } else if size < GB {
        2
    } else {
        3
    }
}

/// The suffix naming a unit.
pub open spec fn spec_unit_suffix(rank: nat) -> Seq<char> {
    if rank == 0 {
        " B"@
    } else if rank == 1 {
        " KB"@
    } else if rank == 2 {
        " MB"@
    } else {
        " GB"@
    }
}

/// How many bytes one step of a unit holds.
pub open spec fn spec_unit_of(rank: nat) -> nat {
    if rank <= 1 {
        KB as nat
    } else if rank == 2 {
        MB as nat
    } else {
        GB as nat
    }
}

/// The full human-readable rendering of a byte count.
pub open spec fn spec_format_size(size: nat) -> Seq<char> {
    let rank = spec_unit_rank(size);
    if rank == 0 {
        dec_str(size) + spec_unit_suffix(0)
    } else {
        spec_scaled(size, spec_unit_of(rank)) + spec_unit_suffix(rank)
    }
}

/// The character of one decimal digit.
fn digit_exec(d: u64) -> (r: char)
    requires
        d < 10,
    ensures
        r == digit_char(d as nat),
{
    if d == 0 {
        '0'
    } else if d == 1 {
        '1'
    } else if d == 2 {
        '2'
    } else if d == 3 {
        '3'
    } else if d == 4 {
        '4'
    } else if d == 5 {
        '5'
    } else if d == 6 {
        '6'
    } else if d == 7 {
        '7'
    } else if d == 8 {
        '8'
    } else {
        '9'
    }
}

/// The decimal digits of `n`, most significant first.
fn dec_str_exec(n: u64) -> (s: String)
    ensures
        s@ == dec_str(n as nat),
    decreases n,
{
    if n < 10 {
        char_to_string(digit_exec(n))
    } else {
        let mut s = dec_str_exec(n / 10);
        let one = char_to_string(digit_exec(n % 10));
        s.append(one.as_str());
        proof {
            assert(s@ =~= dec_str(n as nat));
        }
        s
    }
}

/// `100 * size / unit`, rounded half to even.
fn hundredths(size: u64, unit: u64) -> (h: u64)
    requires
        unit == KB || unit == MB || unit == GB,
    ensures
        h == spec_hundredths(size as nat, unit as nat),
{
    let n: u128 = (size as u128) * 100;
    let u: u128 = unit as u128;
    let q: u128 = n / u;
    let r: u128 = n % u;
    proof {
        vstd::arithmetic::div_mod::lemma_fundamental_div_mod(n as int, u as int);
        assert(q * 1024 <= n) by (nonlinear_arith)
            requires
                n == u * q + r,
                r >= 0,
                u >= 1024,
                q >= 0,
        ;
    }
    let round_up: bool = if 2 * r > u {
        true
    } else if 2 * r < u {
        false
    } else {
        q % 2 == 1
    };
    let h: u128 = if round_up {
        q + 1
    } else {
        q
    };
    h as u64
}

/// Appends the scaled value with two decimal places.
fn append_scaled(out: &mut String, size: u64, unit: u64)
    requires
        unit == KB || unit == MB || unit == GB,
    ensures
        final(out)@ == old(out)@ + spec_scaled(size as nat, unit as nat),
{
    let h = hundredths(size, unit);
    let frac = h % 100;
    let s = dec_str_exec(h / 100);
    out.append(s.as_str());
    let dot = char_to_string('.');
    out.append(dot.as_str());
    let d1 = char_to_string(digit_exec(frac / 10));
    let d2 = char_to_string(digit_exec(frac % 10));
    out.append(d1.as_str());
    out.append(d2.as_str());
    proof {
        assert(out@ =~= old(out)@ + spec_scaled(size as nat, unit as nat));
    }
}

/// Renders a byte count with binary units and two decimal places.
pub fn format_file_size(size: u64) -> (r: String)
    ensures
        r@ == spec_format_size(size as nat),
{
    let mut out = String::new();
    if size < KB {
        let s = dec_str_exec(size);
        out.append(s.as_str());
        out.append(" B");
        proof {
            reveal_strlit(" B");
            assert(out@ =~= spec_format_size(size as nat));
        }
    } else if size < MB {
        append_scaled(&mut out, size, KB);
        out.append(" KB");
        proof {
            reveal_strlit(" KB");
            assert(out@ =~= spec_format_size(size as nat));
        }
    } else if size < GB {
        append_scaled(&mut out, size, MB);
        out.append(" MB");
        proof {
            reveal_strlit(" MB");
            assert(out@ =~= spec_format_size(size as nat));
        }
    } else {
        append_scaled(&mut out, size, GB);
        out.append(" GB");
        proof {
            reveal_strlit(" GB");
            assert(out@ =~= spec_format_size(size as nat));
        }
    }
    out
}

/// As the size grows, the unit of the rendering never goes down.
pub proof fn lemma_unit_monotonic(a: nat, b: nat)
    requires
        a <= b,
    ensures
        spec_unit_rank(a) <= spec_unit_rank(b),
{
}

/// The rendering of a size ends in the suffix naming the size's unit.
pub proof fn lemma_format_size_unit(size: nat)
    ensures
        exists|p: Seq<char>|
            spec_format_size(size) == p + spec_unit_suffix(spec_unit_rank(size)),
{
    let rank = spec_unit_rank(size);
    if rank == 0 {
        assert(spec_format_size(size) == dec_str(size) + spec_unit_suffix(rank));
    } else {
        assert(spec_format_size(size) == spec_scaled(size, spec_unit_of(rank))
            + spec_unit_suffix(rank));
    }
}

} // verus!
