//! Circular playlist-cursor arithmetic.
//!
//! The cursor is an index into the playlist, always in `[0, len)`. Advancing
//! past the last track wraps to the first; retreating from the first wraps to
//! the last.

use vstd::arithmetic::div_mod::{
    lemma_fundamental_div_mod, lemma_fundamental_div_mod_converse_mod, lemma_mod_bound,
    lemma_small_mod,
};
use vstd::prelude::*;

verus! {

/// The index one step forward from `i` in a circular playlist of length `len`.
pub open spec fn next_of(i: int, len: int) -> int {
    if i + 1 >= len {
        0
    } else {
        i + 1
    }
}

/// The index one step backward from `i` in a circular playlist of length `len`.
pub open spec fn prev_of(i: int, len: int) -> int {
    if i == 0 {
        len - 1
    } else {
        i - 1
    }
}

/// The cursor after `n` single-step advances from `i`.
pub open spec fn advanced_by(i: int, len: int, n: nat) -> int
    decreases n,
{
    if n == 0 {
        i
    } else {
        next_of(advanced_by(i, len, (n - 1) as nat), len)
    }
}

/// Advancing a valid cursor `n` times lands on `(i + n) % len`.
pub proof fn lemma_advanced_by_mod(i: int, len: int, n: nat)
    requires
        0 <= i < len,
    ensures
        advanced_by(i, len, n) == (i + n) % len,
    decreases n,
{
    if n == 0 {
        lemma_small_mod(i as nat, len as nat);
    } else {
        lemma_advanced_by_mod(i, len, (n - 1) as nat);
        let a = (i + n - 1) % len;
        lemma_mod_bound(i + n - 1, len);
        lemma_fundamental_div_mod(i + n - 1, len);
        let q = (i + n - 1) / len;
        if a + 1 >= len {
            assert(i + n == (q + 1) * len + 0) by (nonlinear_arith)
                requires
                    i + n - 1 == len * q + a,
                    a + 1 == len,
            ;
            lemma_fundamental_div_mod_converse_mod(i + n, len, q + 1, 0);
        } else {
            assert(i + n == q * len + (a + 1)) by (nonlinear_arith)
                requires
                    i + n - 1 == len * q + a,
            ;
            lemma_fundamental_div_mod_converse_mod(i + n, len, q, a + 1);
        }
    }
}

/// One full revolution: advancing a valid cursor `len` times returns it to
/// its starting index.
pub proof fn lemma_advance_full_cycle(i: int, len: int)
    requires
        0 <= i < len,
    ensures
        advanced_by(i, len, len as nat) == i,
{
    lemma_advanced_by_mod(i, len, len as nat);
    lemma_fundamental_div_mod(i + len, len);
    lemma_fundamental_div_mod_converse_mod(i + len, len, 1, i);
}

} // verus!
