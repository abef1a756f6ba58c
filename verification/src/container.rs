//! The box itself.

use vstd::prelude::*;
use vstd::slice::slice_to_vec;

verus! {

/// A heap allocation that holds a secret.
///
/// The content is either one value of a `Copy` type or a sequence of such
/// values whose length is fixed when the box is built. `Copy` keeps out
/// anything that owns a resource or has a destructor, which is what makes it
/// sound to duplicate the content bit by bit and to overwrite it with zeros.
///
/// A reference to the content is only ever obtained by calling
/// [`SafeBox::get_ref`] or [`SafeBox::get_mut`] by name. The box implements
/// neither `Deref` nor `DerefMut`, so the content cannot be moved out of its
/// allocation. Moving or swapping the box itself is harmless: only the
/// pointer travels.
///
/// The box has no destructor of its own. A box of bytes is wiped by handing
/// [`SafeBox::get_mut`] to [`memzero`](crate::zeroing::memzero); wiping
/// content of any other type means looking at it as raw bytes, which is left
/// to the caller.
pub struct SafeBox<T: ?Sized>(Box<T>);

/// Turns `items` into a boxed slice with `Vec::into_boxed_slice`, which drops
/// any excess capacity and keeps the elements and their order.
#[verifier::external_body]
fn into_boxed_slice<T>(items: Vec<T>) -> (boxed: Box<[T]>)
    ensures
        boxed@ == items@,
{
    items.into_boxed_slice()
}

impl<T: ?Sized> SafeBox<T> {
    /// What the box holds.
    pub closed spec fn content(&self) -> &T {
        &*self.0
    }

    /// A `&T` reference to the content.
    ///
    /// A secret has to be read at some point to be of use, and this is the
    /// only way to read it. Whoever copies the content out through the
    /// reference is responsible for that copy: nothing in this library wipes
    /// it.
    pub fn get_ref(&self) -> (r: &T)
        ensures
            r == self.content(),
    {
        &*self.0
    }

    /// A `&mut T` reference to the content.
    ///
    /// The reference starts out at the current content, and whatever it holds
    /// when the borrow ends is the new content of the box. It is meant for
    /// writing the secret in place. Swapping or replacing the content through
    /// it would leave a copy behind that nothing wipes.
    pub fn get_mut(&mut self) -> (r: &mut T)
        ensures
            &*r == old(self).content(),
            final(self).content() == &*final(r),
    {
        &mut *self.0
    }
}

impl<T: Copy> View for SafeBox<T> {
    type V = T;

    /// The value in the box.
    open spec fn view(&self) -> T {
        *self.content()
    }
}

impl<T> View for SafeBox<[T]> {
    type V = Seq<T>;

    /// The elements in the box, in order.
    open spec fn view(&self) -> Seq<T> {
        self.content()@
    }
}

impl<T: Copy> SafeBox<T> {
    /// Allocates a box that holds `v`.
    ///
    /// Since `v` is passed by value, it is best to build the box from a
    /// harmless value and to write the secret through [`SafeBox::get_mut`],
    /// so that as few copies of it as possible ever exist.
    pub fn new(v: T) -> (s: Self)
        ensures
            s@ == v,
    {
        SafeBox(Box::new(v))
    }
}

impl<T: Default + Copy> Default for SafeBox<T> {
    /// Allocates a box that holds the default value of `T`.
    fn default() -> (s: Self)
        ensures
            T::default.ensures((), s@),
    {
        SafeBox::<T>::new(T::default())
    }
}

impl<T: Copy> SafeBox<[T]> {
    /// Allocates a box of `len` elements, each of them a copy of `v`.
    pub fn new_slice(v: T, len: usize) -> (s: Self)
        ensures
            s@ == Seq::new(len as nat, |i: int| v),
    {
        let mut items: Vec<T> = Vec::with_capacity(len);
        let mut i: usize = 0;
        while i < len
            invariant
                i <= len,
                items@ == Seq::new(i as nat, |j: int| v),
            decreases len - i,
        {
            items.push(v);
            i = i + 1;
        }
        SafeBox(into_boxed_slice(items))
    }

    /// Allocates a box of `len` elements and calls `f` once for each of them,
    /// from the first to the last.
    ///
    /// Each result goes straight into the storage that becomes the box. `f`
    /// may well give a different value at every call, such as a random one.
    pub fn new_slice_with<F: Fn() -> T>(len: usize, f: F) -> (s: Self)
        requires
            f.requires(()),
        ensures
            s@.len() == len,
            forall|i: int| 0 <= i < len ==> f.ensures((), #[trigger] s@[i]),
    {
        let mut items: Vec<T> = Vec::with_capacity(len);
        let mut i: usize = 0;
        while i < len
            invariant
                i <= len,
                items@.len() == i,
                f.requires(()),
                forall|j: int| 0 <= j < i ==> f.ensures((), #[trigger] items@[j]),
            decreases len - i,
        {
            items.push(f());
            i = i + 1;
        }
        SafeBox(into_boxed_slice(items))
    }
}

impl<T: Copy> Clone for SafeBox<T> {
    /// Allocates a second box and copies the value into it.
    fn clone(&self) -> (c: Self)
        ensures
            c@ == self@,
    {
        SafeBox(Box::new(*self.0))
    }
}

impl<T: Copy> Clone for SafeBox<[T]> {
    /// Allocates a second box of the same length and copies the elements
    /// into it in one go.
    fn clone(&self) -> (c: Self)
        ensures
            c@ == self@,
    {
        SafeBox(into_boxed_slice(slice_to_vec(&self.0)))
    }
}

} // verus!
