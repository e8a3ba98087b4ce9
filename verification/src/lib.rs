//! Frequency-domain mask for the FFT-based analytic-signal (Hilbert)
//! transform.
//!
//! The analytic signal of a real sequence of length `n` is obtained by
//! taking the forward discrete Fourier transform, multiplying each
//! spectral bin by a real mask value, taking the inverse transform and
//! dividing by `n`.  The mask is the whole of the decision logic: it
//! keeps the DC bin (and, for even lengths, the Nyquist bin) unscaled,
//! doubles the positive-frequency bins and zeroes the
//! negative-frequency bins.  The mask depends only on the length `n`
//! and the bin index, never on the input samples.
//!
//! This crate builds that mask and proves its defining properties; the
//! surrounding floating-point pipeline drives the Fourier transforms
//! and applies the mask it gets from here.

use vstd::arithmetic::div_mod::lemma_mod_self_0;
use vstd::arithmetic::div_mod::lemma_small_mod;
use vstd::prelude::*;

verus! {

/// The analytic-signal mask value at bin `k` of a length-`n` transform.
///
/// For even `n`: 1 at bin 0 and at the Nyquist bin `n / 2`, 2 at bins
/// `1 .. n / 2`, 0 at bins above `n / 2`.  For odd `n`: 1 at bin 0,
/// 2 at bins `1 ..= (n - 1) / 2`, 0 at the rest.
pub open spec fn mask_spec(n: int, k: int) -> int {
    if n % 2 == 0 {
        if k == 0 || k == n / 2 {
            1
        } else if 1 <= k && k < n / 2 {
            2
        } else {
            0
        }
    } else {
        if k == 0 {
            1
        } else if 1 <= k && k <= (n - 1) / 2 {
            2
        } else {
            0
        }
    }
}

/// The mask value at one bin, as an executable computation.
pub fn mask_entry(n: usize, k: usize) -> (v: u8)
    requires
        1 <= n,
        k < n,
    ensures
        v == mask_spec(n as int, k as int),
{
    if n % 2 == 0 {
        if k == 0 || k == n / 2 {
            1
        } else if k < n / 2 {
            2
        } else {
            0
        }
    } else {
        if k == 0 {
            1
        } else if k <= (n - 1) / 2 {
            2
        } else {
            0
        }
    }
}

/// The full frequency mask for a length-`n` transform: one value per
/// bin, each pinned to `mask_spec`.  The mask is a function of `n`
/// alone, so the output carries no trace of any input signal.
pub fn hilbert_mask(n: usize) -> (h: Vec<u8>)
    requires
        1 <= n,
    ensures
        h@.len() == n,
        forall|k: int| 0 <= k < n ==> #[trigger] h@[k] == mask_spec(n as int, k),
{
    let mut h: Vec<u8> = Vec::new();
    let mut k: usize = 0;
    while k < n
        invariant
            k <= n,
            1 <= n,
            h@.len() == k,
            forall|j: int| 0 <= j < k ==> #[trigger] h@[j] == mask_spec(n as int, j),
        decreases n - k,
    {
        let v = mask_entry(n, k);
        h.push(v);
        k = k + 1;
    }
    h
}

/// Every mask value is 0, 1 or 2: the spectrum is only ever kept,
/// doubled or dropped, never scaled by anything else.
pub proof fn lemma_mask_values(n: int, k: int)
    requires
        1 <= n,
        0 <= k < n,
    ensures
        mask_spec(n, k) == 0 || mask_spec(n, k) == 1 || mask_spec(n, k) == 2,
{
}

/// Mirror symmetry: the mask values at bin `k` and at the reflected
/// bin `(n - k) % n` always add to 2.  Averaging a spectrum with its
/// reflected conjugate recovers the spectrum of the real part, so this
/// is exactly the bin-level fact that makes the real part of the
/// analytic signal reproduce the input samples.
pub proof fn lemma_mask_mirror(n: int, k: int)
    requires
        1 <= n,
        0 <= k < n,
    ensures
        mask_spec(n, k) + mask_spec(n, (n - k) % n) == 2,
{
    if k == 0 {
        lemma_mod_self_0(n);
    } else {
        lemma_small_mod((n - k) as nat, n as nat);
    }
}

} // verus!
