//! A box for secrets: plain, bitwise-copyable data that lives in one heap
//! allocation, is only reached through accessors that are called by name, and
//! can be overwritten with zeros once it is no longer needed.
//!
//! Two pieces make up the library:
//!
//! * [`memzero`] overwrites a byte region with zeros, then keeps the stores
//!   from being optimised away and issues a sequentially consistent fence.
//! * [`SafeBox`] owns the allocation. It is built from a value, from a
//!   repeated value or from a generator, hands out `&T` and `&mut T` only
//!   through [`SafeBox::get_ref`] and [`SafeBox::get_mut`] (there is no
//!   `Deref`, so the content never moves out), and duplicates itself by
//!   copying its content into a fresh allocation.
//!
//! Every function carries a contract over the content of the box, and the
//! module [`laws`] states how the operations compose.
//!
//! The library is free of `unsafe`. That is why [`memzero`] takes bytes, and
//! why the box has no destructor: to wipe content of any type when the box is
//! dropped, a caller wraps the box in a guard of its own whose `Drop` looks at
//! the content as bytes.
//!
//! Swapping to disk, other threads of the same address space and hibernation
//! images are outside of what this library protects against.

pub mod container;
pub mod laws;
pub mod zeroing;

pub use crate::container::SafeBox;
pub use crate::zeroing::memzero;
