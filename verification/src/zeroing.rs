//! Overwriting memory with zeros.

use vstd::prelude::*;

verus! {

/// The all-zero byte sequence of length `len`.
pub open spec fn zeroed(len: nat) -> Seq<u8> {
    Seq::new(len, |i: int| 0u8)
}

/// Presents `region` to `std::hint::black_box`, which asks the optimiser to
/// assume that every byte of it may be read. Nothing is claimed of the call;
/// the region is borrowed shared and so stays as it is.
#[verifier::external_body]
fn observe(region: &[u8]) {
    std::hint::black_box(region);
}

/// Issues `std::sync::atomic::fence` with sequentially consistent ordering,
/// an ordering with which the fence does not panic. Nothing is claimed of the
/// call.
#[verifier::external_body]
fn full_fence() {
    std::sync::atomic::fence(std::sync::atomic::Ordering::SeqCst);
}

/// Sets every byte of `region` to zero.
///
/// The length of the region is left as it is, and an empty region is fine.
/// After the stores the region is shown to an optimisation barrier, so that
/// the compiler does not take them for dead when nothing reads the region
/// again, and a sequentially consistent fence is issued before returning.
///
/// The stores themselves are ordinary ones: a volatile store needs a raw
/// pointer, and this library has no `unsafe` in it.
pub fn memzero(region: &mut [u8])
    ensures
        final(region)@ == zeroed(old(region)@.len()),
{
    let len: usize = region.len();
    let mut i: usize = 0;
    while i < len
        invariant
            i <= len,
            len == region@.len(),
            len == old(region)@.len(),
            forall|j: int| 0 <= j < i ==> region@[j] == 0u8,
        decreases len - i,
    {
        region[i] = 0u8;
        i = i + 1;
    }
    observe(region);
    full_fence();
}

} // verus!
