//! Signed, cyclic indexing into a sequence of known length.

use vstd::prelude::*;
use vstd::arithmetic::div_mod::{
    lemma_fundamental_div_mod_converse,
    lemma_mod_add_multiples_vanish,
    lemma_mod_sub_multiples_vanish,
};

verus! {

/// The position that a signed index `n` addresses in a sequence of `len`
/// items: the Euclidean remainder of `n` by `len`. Negative indices count
/// back from the end, and indices outside `[-len, len)` wrap around.
pub open spec fn effective_index(n: int, len: int) -> int
    recommends
        len > 0,
{
    n % len
}

/// `effective_index(n, len)` is the one position in `[0, len)` that differs
/// from `n` by a multiple of `len`.
pub proof fn lemma_effective_index_unique(n: int, len: int, q: int, r: int)
    requires
        len > 0,
        0 <= r < len,
        n == q * len + r,
    ensures
        effective_index(n, len) == r,
{
    lemma_fundamental_div_mod_converse(n, len, q, r);
}

/// The effective index lies inside the sequence. An index that already
/// lies inside it is left alone, and a negative one down to `-len` counts
/// back from the end: `-1` addresses the last item, `-len` the first.
pub proof fn lemma_effective_index_range(n: int, len: int)
    requires
        len > 0,
    ensures
        0 <= effective_index(n, len) < len,
        0 <= n < len ==> effective_index(n, len) == n,
        -len <= n < 0 ==> effective_index(n, len) == n + len,
{
    if 0 <= n < len {
        lemma_effective_index_unique(n, len, 0, n);
    }
    if -len <= n < 0 {
        lemma_effective_index_unique(n, len, -1, n + len);
    }
}

/// Shifting an index by the length of the sequence, either way, addresses
/// the same position.
pub proof fn lemma_effective_index_cyclic(n: int, len: int)
    requires
        len > 0,
    ensures
        effective_index(n + len, len) == effective_index(n, len),
        effective_index(n - len, len) == effective_index(n, len),
{
    lemma_mod_add_multiples_vanish(n, len);
    lemma_mod_sub_multiples_vanish(n, len);
}

/// Resolves a signed index against a sequence of `len` items.
pub fn normalize_index(n: i32, len: usize) -> (position: usize)
    requires
        len > 0,
    ensures
        position as int == effective_index(n as int, len as int),
        position < len,
{
    proof {
        lemma_effective_index_range(n as int, len as int);
    }
    if len <= 0x7fff_ffff {
        let modulus: i32 = len as i32;
        n.checked_rem_euclid(modulus).unwrap() as usize
    } else if n >= 0 {
        n as usize
    } else {
        let back: usize = (-(n as i64)) as usize;
        len - back
    }
}

} // verus!
