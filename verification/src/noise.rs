//! Reproducible pseudo-random words.
//!
//! Chance in this library is a hash of ids and dates, so that the same day
//! plays out the same way in every run. A word is a 32-bit slice of the hash;
//! the caller reads it as a fraction.

#[allow(unused_imports)]
use vstd::prelude::*;

verus! {

/// Adds `x` times `factor` to `acc`, modulo two to the power 64.
pub open spec fn mixed(acc: int, x: int, factor: int) -> int {
    (acc + x * factor) % 0x1_0000_0000_0000_0000
}

/// The 32 bits of `h` above the lowest ones, where `divisor` is two to the power of their
/// number.
pub open spec fn slice(h: int, divisor: int) -> int {
    (h / divisor) % 0x1_0000_0000
}

/// The low 64 bits of a signed number.
pub open spec fn word(x: int) -> int {
    x % 0x1_0000_0000_0000_0000
}

/// Adds `x` times `factor` to `acc`, modulo two to the power 64.
pub fn mix(acc: u64, x: u64, factor: u64) -> (r: u64)
    ensures
        r == mixed(acc as int, x as int, factor as int),
{
    let product: u64 = x.wrapping_mul(factor);
    proof {
        let p = x as int * factor as int;
        assert(product == p % 0x1_0000_0000_0000_0000);
        vstd::arithmetic::div_mod::lemma_add_mod_noop_right(
            acc as int,
            p,
            0x1_0000_0000_0000_0000,
        );
    }
    acc.wrapping_add(product)
}

/// The 32 bits of `h` above the lowest ones, where `divisor` is two to the power of their
/// number.
pub fn slice_of(h: u64, divisor: u64) -> (r: u32)
    requires
        divisor > 0,
    ensures
        r == slice(h as int, divisor as int),
{
    ((h / divisor) % 0x1_0000_0000) as u32
}

/// The low 64 bits of a signed number.
pub fn to_word(x: i32) -> (r: u64)
    ensures
        r == word(x as int),
{
    if x >= 0 {
        x as u64
    } else {
        let distance: u64 = (-(x as i64)) as u64;
        (0xffff_ffff_ffff_ffff - distance) + 1
    }
}

} // verus!
