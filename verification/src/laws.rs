//! How the operations of the library compose.
//!
//! Each law takes the values that a run of the operations yields and relates
//! them through the operations' own contracts: `call_ensures(f, args, out)`
//! reads "`out` is what a call of `f` on `args` returned".

use crate::container::SafeBox;
use crate::zeroing::memzero;
use crate::zeroing::zeroed;
use vstd::prelude::*;

verus! {

/// Reading a box right after it was built from `v` gives `v`.
pub proof fn lemma_new_reads_back<T: Copy>(v: T, s: SafeBox<T>, r: &T)
    requires
        call_ensures(SafeBox::<T>::new, (v,), s),
        call_ensures(SafeBox::<T>::get_ref, (&s,), r),
    ensures
        *r == v,
{
}

/// Reading a box right after it was built by `default` gives a default value
/// of `T`.
pub proof fn lemma_default_reads_back<T: Default + Copy>(s: SafeBox<T>, r: &T)
    requires
        call_ensures(<SafeBox<T> as Default>::default, (), s),
        call_ensures(SafeBox::<T>::get_ref, (&s,), r),
    ensures
        T::default.ensures((), *r),
{
}

/// Reading a box right after it was built from `len` copies of `v` gives
/// `len` elements, each equal to `v`. `len` may be zero.
pub proof fn lemma_new_slice_reads_back<T: Copy>(v: T, len: usize, s: SafeBox<[T]>, r: &[T])
    requires
        call_ensures(SafeBox::<[T]>::new_slice, (v, len), s),
        call_ensures(SafeBox::<[T]>::get_ref, (&s,), r),
    ensures
        r@.len() == len,
        forall|i: int| 0 <= i < len ==> r@[i] == v,
{
}

/// Reading a box right after it was built by a generator gives `len`
/// elements, each of them a result of the generator.
pub proof fn lemma_new_slice_with_reads_back<T: Copy, F: Fn() -> T>(
    len: usize,
    f: F,
    s: SafeBox<[T]>,
    r: &[T],
)
    requires
        call_ensures(SafeBox::<[T]>::new_slice_with::<F>, (len, f), s),
        call_ensures(SafeBox::<[T]>::get_ref, (&s,), r),
    ensures
        r@.len() == len,
        forall|i: int| 0 <= i < len ==> f.ensures((), #[trigger] r@[i]),
{
}

/// What was left behind the mutable reference is what the next read gives.
pub proof fn lemma_write_then_read<T: ?Sized>(s: &mut SafeBox<T>, w: &mut T, r: &T)
    requires
        call_ensures(SafeBox::<T>::get_mut, (s,), w),
        call_ensures(SafeBox::<T>::get_ref, (&*final(s),), r),
    ensures
        r == &*final(w),
{
}

/// A duplicate of a single value reads as its source does.
pub proof fn lemma_clone_reads_equal<T: Copy>(s: SafeBox<T>, c: SafeBox<T>, rs: &T, rc: &T)
    requires
        call_ensures(<SafeBox<T> as Clone>::clone, (&s,), c),
        call_ensures(SafeBox::<T>::get_ref, (&s,), rs),
        call_ensures(SafeBox::<T>::get_ref, (&c,), rc),
    ensures
        *rc == *rs,
{
}

/// A duplicate of a sequence reads as its source does.
pub proof fn lemma_clone_slice_reads_equal<T: Copy>(
    s: SafeBox<[T]>,
    c: SafeBox<[T]>,
    rs: &[T],
    rc: &[T],
)
    requires
        call_ensures(<SafeBox<[T]> as Clone>::clone, (&s,), c),
        call_ensures(SafeBox::<[T]>::get_ref, (&s,), rs),
        call_ensures(SafeBox::<[T]>::get_ref, (&c,), rc),
    ensures
        rc@ == rs@,
{
}

/// Writing to a duplicate leaves its source alone: the duplicate reads what
/// was written, and the source still reads what the duplicate started from.
pub proof fn lemma_clone_is_independent<T: Copy>(
    s: SafeBox<T>,
    c: &mut SafeBox<T>,
    w: &mut T,
    rs: &T,
    rc: &T,
)
    requires
        call_ensures(<SafeBox<T> as Clone>::clone, (&s,), *c),
        call_ensures(SafeBox::<T>::get_mut, (c,), w),
        call_ensures(SafeBox::<T>::get_ref, (&s,), rs),
        call_ensures(SafeBox::<T>::get_ref, (&*final(c),), rc),
    ensures
        *rc == *final(w),
        *rs == *old(w),
{
}

/// The same for a sequence.
pub proof fn lemma_clone_slice_is_independent<T: Copy>(
    s: SafeBox<[T]>,
    c: &mut SafeBox<[T]>,
    w: &mut [T],
    rs: &[T],
    rc: &[T],
)
    requires
        call_ensures(<SafeBox<[T]> as Clone>::clone, (&s,), *c),
        call_ensures(SafeBox::<[T]>::get_mut, (c,), w),
        call_ensures(SafeBox::<[T]>::get_ref, (&s,), rs),
        call_ensures(SafeBox::<[T]>::get_ref, (&*final(c),), rc),
    ensures
        rc@ == final(w)@,
        rs@ == old(w)@,
{
}

/// A box of bytes that was handed to [`memzero`] through its mutable
/// reference reads as zeros, as many as it held before.
pub proof fn lemma_wiped_reads_zero(s: &mut SafeBox<[u8]>, w: &mut [u8], r: &[u8])
    requires
        call_ensures(SafeBox::<[u8]>::get_mut, (s,), w),
        call_ensures(memzero, (w,), ()),
        call_ensures(SafeBox::<[u8]>::get_ref, (&*final(s),), r),
    ensures
        r@ == zeroed(old(s)@.len()),
{
}

} // verus!
