//! How many mip levels a texture gets.

use vstd::prelude::*;
use vstd::arithmetic::power2::{pow2, lemma_pow2_unfold, lemma2_to64};
use crate::format::Interpolation;

verus! {

/// The largest `k` with `2^k <= n`; `0` for `n == 0`, where no such `k` exists.
pub open spec fn floor_log2(n: nat) -> nat
    decreases n,
{
    if n <= 1 {
        0
    } else {
        1 + floor_log2(n / 2)
    }
}

pub open spec fn max3(a: nat, b: nat, c: nat) -> nat {
    if a >= b && a >= c {
        a
    } else if b >= c {
        b
    } else {
        c
    }
}

/// Level count of a `width` x `height` x `depth` texture: one level when no
/// mip filter is asked for, otherwise the full chain down to a single texel
/// along the longest axis.
pub open spec fn mip_level_count(
    mip_map_filter: Option<Interpolation>,
    width: u32,
    height: u32,
    depth: u32,
) -> nat {
    if mip_map_filter is None {
        1
    } else {
        floor_log2(max3(width as nat, height as nat, depth as nat)) + 1
    }
}

/// `floor_log2` is the integer part of the binary logarithm:
/// `2^floor_log2(n) <= n < 2^(floor_log2(n) + 1)` for every positive `n`.
pub proof fn lemma_floor_log2_brackets(n: nat)
    requires
        n >= 1,
    ensures
        pow2(floor_log2(n)) <= n < pow2(floor_log2(n) + 1),
    decreases n,
{
    lemma2_to64();
    if n > 1 {
        lemma_floor_log2_brackets(n / 2);
        lemma_pow2_unfold(floor_log2(n));
        lemma_pow2_unfold(floor_log2(n) + 1);
    }
}

/// Only one exponent brackets `n`: whatever `k` has `2^k <= n < 2^(k+1)` is
/// `floor_log2(n)`.
pub proof fn lemma_floor_log2_unique(n: nat, k: nat)
    requires
        pow2(k) <= n < pow2(k + 1),
    ensures
        k == floor_log2(n),
    decreases k,
{
    lemma2_to64();
    if k == 0 {
        assert(n == 1);
    } else {
        lemma_pow2_unfold(k);
        lemma_pow2_unfold(k + 1);
        lemma_floor_log2_unique(n / 2, (k - 1) as nat);
    }
}

pub proof fn lemma_floor_log2_monotonic(a: nat, b: nat)
    requires
        a <= b,
    ensures
        floor_log2(a) <= floor_log2(b),
    decreases b,
{
    if a > 1 {
        lemma_floor_log2_monotonic(a / 2, b / 2);
    }
}

/// Without a mip filter a texture has exactly its base level, whatever its size.
pub proof fn lemma_unfiltered_has_one_level(width: u32, height: u32, depth: u32)
    ensures
        mip_level_count(None, width, height, depth) == 1,
{
}

/// With a mip filter the level count is `floor(log2(m)) + 1` for the longest
/// extent `m`: it is at least one, `2^(levels - 1) <= m < 2^levels`, and so
/// the last level is exactly one texel long along that axis.
pub proof fn lemma_filtered_level_count(
    filter: Interpolation,
    width: u32,
    height: u32,
    depth: u32,
)
    requires
        width >= 1 || height >= 1 || depth >= 1,
    ensures
        ({
            let m = max3(width as nat, height as nat, depth as nat);
            let levels = mip_level_count(Some(filter), width, height, depth);
            &&& levels == floor_log2(m) + 1
            &&& 1 <= levels <= 32
            &&& pow2((levels - 1) as nat) <= m < pow2(levels)
            &&& m / pow2((levels - 1) as nat) == 1
        }),
{
    let m = max3(width as nat, height as nat, depth as nat);
    let levels = mip_level_count(Some(filter), width, height, depth);
    lemma_floor_log2_brackets(m);
    lemma_floor_log2_monotonic(m, 0xffff_ffff);
    lemma_floor_log2_u32_max();
    let p = pow2((levels - 1) as nat);
    lemma_pow2_unfold(levels);
    assert(m / p == 1) by (nonlinear_arith)
        requires
            p <= m < 2 * p,
            p > 0,
    ;
}

proof fn lemma_floor_log2_u32_max()
    ensures
        floor_log2(0xffff_ffff) == 31,
{
    lemma2_to64();
    lemma_floor_log2_unique(0xffff_ffff, 31);
}

/// Number of mip levels to allocate for a texture of the given extents.
pub fn calculate_number_of_mip_maps(
    mip_map_filter: Option<Interpolation>,
    width: u32,
    height: u32,
    depth: u32,
) -> (levels: u32)
    ensures
        levels == mip_level_count(mip_map_filter, width, height, depth),
        1 <= levels <= 32,
        mip_map_filter is None ==> levels == 1,
{
    if mip_map_filter.is_none() {
        return 1;
    }
    let mut longest: u32 = width;
    if height > longest {
        longest = height;
    }
    if depth > longest {
        longest = depth;
    }
    let ghost m = longest as nat;
    let mut rest: u32 = longest;
    let mut levels: u32 = 1;
    proof {
        lemma_floor_log2_monotonic(m, 0xffff_ffff);
        lemma_floor_log2_u32_max();
    }
    while rest > 1
        invariant
            levels >= 1,
            floor_log2(rest as nat) + levels == floor_log2(m) + 1,
            floor_log2(m) <= 31,
        decreases rest,
    {
        rest = rest / 2;
        levels = levels + 1;
    }
    levels
}

} // verus!
