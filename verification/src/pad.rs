//! Sector padding: how many zero bytes extend a region to a block boundary.

use vstd::prelude::*;
use vstd::arithmetic::div_mod::{
    lemma_fundamental_div_mod, lemma_mod_division_less_than_divisor, lemma_mod_multiples_basic,
    lemma_mod_self_0, lemma_small_mod,
};

verus! {

/// The number of zero-fill bytes that extend a region of `n` bytes to the
/// next multiple of `block`; zero when `n` is already a multiple.
pub open spec fn spec_pad_len(n: int, block: int) -> int {
    (block - n % block) % block
}

/// Padding rounds the region length up to an exact multiple of `block`,
/// and never adds a whole block.
pub proof fn lemma_pad_len_aligns(n: int, block: int)
    requires
        n >= 0,
        block > 0,
    ensures
        0 <= spec_pad_len(n, block) < block,
        (n + spec_pad_len(n, block)) % block == 0,
{
    let m = n % block;
    lemma_mod_division_less_than_divisor(n, block);
    if m == 0 {
        lemma_mod_self_0(block);
        assert(spec_pad_len(n, block) == 0);
        assert((n + 0) % block == 0);
    } else {
        lemma_small_mod((block - m) as nat, block as nat);
        assert(spec_pad_len(n, block) == block - m);
        lemma_fundamental_div_mod(n, block);
        assert(n == block * (n / block) + m);
        assert(block * (n / block + 1) == block * (n / block) + block) by (nonlinear_arith);
        assert(n + (block - m) == block * (n / block + 1));
        lemma_mod_multiples_basic(n / block + 1, block);
    }
}

/// Number of zero bytes needed after a region of `n` bytes so that the
/// padded region's length is a multiple of `block`.
pub fn pad_len(n: u64, block: u64) -> (r: u64)
    requires
        block > 0,
    ensures
        r == spec_pad_len(n as int, block as int),
        r < block,
        (n + r) % (block as int) == 0,
{
    proof {
        lemma_pad_len_aligns(n as int, block as int);
        lemma_mod_division_less_than_divisor(n as int, block as int);
    }
    (block - n % block) % block
}

} // verus!
