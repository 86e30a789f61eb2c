//! Narrowing to the 32-bit integers of a host runtime.

use vstd::prelude::*;

verus! {

/// The 32-bit two's-complement reading of `i`: the one integer from
/// -2^31 up to, not including, 2^31 that differs from `i` by a multiple of
/// 2^32.
pub open spec fn wrapped(i: int) -> int {
    let low: int = i % 0x1_0000_0000;
    if low < 0x8000_0000 {
        low
    } else {
        low - 0x1_0000_0000
    }
}

/// Narrows a cell's integer for a host that takes 32 bits. An integer out of
/// that range wraps: it is never refused and never clamped.
pub fn narrow_integer(i: i64) -> (n: i32)
    ensures
        n == wrapped(i as int),
        i32::MIN <= i <= i32::MAX ==> n == i,
{
    let n: i32 = #[verifier::truncate] (i as i32);
    proof {
        let wide: i64 = n as i64;
        let low: i64 = i & 0xffff_ffff;
        assert(wide & 0xffff_ffff == low) by (bit_vector)
            requires
                wide == (i as i32) as i64,
                low == i & 0xffff_ffff,
        ;
        assert(0 <= low < 0x1_0000_0000 && low == i % 0x1_0000_0000) by (bit_vector)
            requires
                low == i & 0xffff_ffff,
        ;
        assert(low == wide % 0x1_0000_0000) by (bit_vector)
            requires
                low == wide & 0xffff_ffff,
        ;
    }
    n
}

/// Narrows a declared width or height for a host that takes 32 bits, by the
/// rule of [`narrow_integer`].
pub fn narrow_extent(extent: usize) -> (n: i32)
    ensures
        n == wrapped(extent as int),
        extent <= i32::MAX ==> n == extent,
{
    let wide: u64 = extent as u64;
    let n: i32 = #[verifier::truncate] (wide as i32);
    proof {
        let back: i64 = n as i64;
        let low: u64 = wide & 0xffff_ffff;
        assert(back & 0xffff_ffff == low) by (bit_vector)
            requires
                back == (wide as i32) as i64,
                low == wide & 0xffff_ffff,
        ;
        assert(0 <= low < 0x1_0000_0000 && low == wide % 0x1_0000_0000) by (bit_vector)
            requires
                low == wide & 0xffff_ffff,
        ;
        assert(low == back % 0x1_0000_0000) by (bit_vector)
            requires
                low == back & 0xffff_ffff,
        ;
    }
    n
}

/// What wrapping keeps: the result is in range, differs from `i` by a
/// multiple of 2^32, and is `i` itself where `i` is in range.
pub proof fn lemma_wrapped(i: int)
    ensures
        i32::MIN <= wrapped(i) <= i32::MAX,
        (wrapped(i) - i) % 0x1_0000_0000 == 0,
        i32::MIN <= i <= i32::MAX ==> wrapped(i) == i,
{
    let low: int = i % 0x1_0000_0000;
    assert((low - i) % 0x1_0000_0000 == 0 && (low - 0x1_0000_0000 - i) % 0x1_0000_0000 == 0)
        by (nonlinear_arith)
        requires
            low == i % 0x1_0000_0000,
    ;
}

} // verus!
