//! Floating-point values: carried through unchanged as bit patterns, and the whole-number
//! value an integer takes as a double.

use vstd::prelude::*;

verus! {

/// A double-precision value, held as its IEEE 754 bit pattern: the library only carries such
/// values from record to response, or from request to store, and never computes with them.
#[derive(Debug, Clone, Copy, PartialEq, Eq, Structural)]
pub struct FloatBits {
    pub bits: u64,
}

/// The spacing of doubles near a magnitude `a` below 2^64: 1 below 2^53, doubling at each
/// further power of two.
pub open spec fn double_spacing(a: int) -> int {
    if a < 0x20000000000000 {
        1
    } else if a < 0x40000000000000 {
        2
    } else if a < 0x80000000000000 {
        4
    } else if a < 0x100000000000000 {
        8
    } else if a < 0x200000000000000 {
        16
    } else if a < 0x400000000000000 {
        32
    } else if a < 0x800000000000000 {
        64
    } else if a < 0x1000000000000000 {
        128
    } else if a < 0x2000000000000000 {
        256
    } else if a < 0x4000000000000000 {
        512
    } else if a < 0x8000000000000000 {
        1024
    } else {
        2048
    }
}

/// `a`, rounded to a multiple of `spacing`: to the nearer one, and to the one with an even
/// quotient on a tie.
pub open spec fn round_at(a: int, spacing: int) -> int {
    let q = a / spacing;
    let r = a % spacing;
    if r * 2 > spacing || (r * 2 == spacing && q % 2 == 1) {
        (q + 1) * spacing
    } else {
        q * spacing
    }
}

/// A non-negative magnitude below 2^64, rounded to the nearest double (ties to even).
pub open spec fn round_to_double(a: int) -> int {
    round_at(a, double_spacing(a))
}

/// The value an integer takes as the nearest double, as Rust's `as f64` gives it: the
/// magnitude rounded to nearest, ties to even, with the sign kept.
pub open spec fn double_value(x: int) -> int {
    if x >= 0 {
        round_to_double(x)
    } else {
        -round_to_double(-x)
    }
}

/// The magnitude `a`, rounded to the nearest double.
fn round_magnitude(a: u64) -> (v: u64)
    requires
        a <= 0x8000000000000000,
    ensures
        v == round_to_double(a as int),
        v <= 0x8000000000000000,
        a < 0x7fff_ffff_ffff_fc00 ==> v <= 0x7fff_ffff_ffff_fc00,
{
    if a < 0x20000000000000 {
        a
    } else if a < 0x40000000000000 {
        let q = a / 2;
        let r = a % 2;
        if r * 2 > 2 || (r * 2 == 2 && q % 2 == 1) {
            (q + 1) * 2
        } else {
            q * 2
        }
    } else if a < 0x80000000000000 {
        let q = a / 4;
        let r = a % 4;
        if r * 2 > 4 || (r * 2 == 4 && q % 2 == 1) {
            (q + 1) * 4
        } else {
            q * 4
        }
    } else if a < 0x100000000000000 {
        let q = a / 8;
        let r = a % 8;
        if r * 2 > 8 || (r * 2 == 8 && q % 2 == 1) {
            (q + 1) * 8
        } else {
            q * 8
        }
    } else if a < 0x200000000000000 {
        let q = a / 16;
        let r = a % 16;
        if r * 2 > 16 || (r * 2 == 16 && q % 2 == 1) {
            (q + 1) * 16
        } else {
            q * 16
        }
    } else if a < 0x400000000000000 {
        let q = a / 32;
        let r = a % 32;
        if r * 2 > 32 || (r * 2 == 32 && q % 2 == 1) {
            (q + 1) * 32
        } else {
            q * 32
        }
    } else if a < 0x800000000000000 {
        let q = a / 64;
        let r = a % 64;
        if r * 2 > 64 || (r * 2 == 64 && q % 2 == 1) {
            (q + 1) * 64
        } else {
            q * 64
        }
    } else if a < 0x1000000000000000 {
        let q = a / 128;
        let r = a % 128;
        if r * 2 > 128 || (r * 2 == 128 && q % 2 == 1) {
            (q + 1) * 128
        } else {
            q * 128
        }
    } else if a < 0x2000000000000000 {
        let q = a / 256;
        let r = a % 256;
        if r * 2 > 256 || (r * 2 == 256 && q % 2 == 1) {
            (q + 1) * 256
        } else {
            q * 256
        }
    } else if a < 0x4000000000000000 {
        let q = a / 512;
        let r = a % 512;
        if r * 2 > 512 || (r * 2 == 512 && q % 2 == 1) {
            (q + 1) * 512
        } else {
            q * 512
        }
    } else if a < 0x8000000000000000 {
        let q = a / 1024;
        let r = a % 1024;
        if r * 2 > 1024 || (r * 2 == 1024 && q % 2 == 1) {
            (q + 1) * 1024
        } else {
            q * 1024
        }
    } else {
        let q = a / 2048;
        let r = a % 2048;
        if r * 2 > 2048 || (r * 2 == 2048 && q % 2 == 1) {
            (q + 1) * 2048
        } else {
            q * 2048
        }
    }
}

/// The value of `x as f64`, as an integer: every double this large is a whole number. The
/// bound leaves out the few values just below `i64::MAX` that round up to 2^63.
pub fn double_value_of(x: i64) -> (v: i64)
    requires
        x < 0x7fff_ffff_ffff_fc00,
    ensures
        v == double_value(x as int),
{
    if x >= 0 {
        round_magnitude(x as u64) as i64
    } else {
        let a = (-(x as i128)) as u64;
        let m = round_magnitude(a);
        (-(m as i128)) as i64
    }
}

} // verus!
