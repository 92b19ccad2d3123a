//! A minimal numeric-array library whose storage can live in host memory or
//! on an accelerator device, with copy-on-write sharing: reshaping never
//! copies the underlying data, and a write through one owner of a shared
//! buffer transparently obtains a private copy first.

use vstd::prelude::*;

pub mod buffer;
pub mod tensor;

verus! {

/// The recoverable failures this library reports.
#[derive(Clone, Copy, Debug, PartialEq, Eq, Structural)]
pub enum Error {
    /// The backend could not satisfy an allocation or fill request.
    AllocationFailure,
    /// A supplied length or shape disagrees with the element count it must
    /// match; the operand is left unmodified.
    SizeMismatch,
}

/// The bridge an element type must supply to be stored in a buffer: it is a
/// plain copyable value with a distinguished zero.
pub trait Prm: Sized + Copy {
    /// The zero value, as the contracts speak of it.
    spec fn zero_spec() -> Self;

    /// The zero value used by zero-initialized allocation.
    fn zero() -> (r: Self)
        ensures
            r == Self::zero_spec(),
    ;
}

impl Prm for u8 {
    open spec fn zero_spec() -> u8 {
        0
    }

    fn zero() -> (r: u8) {
        0
    }
}

impl Prm for u16 {
    open spec fn zero_spec() -> u16 {
        0
    }

    fn zero() -> (r: u16) {
        0
    }
}

impl Prm for u32 {
    open spec fn zero_spec() -> u32 {
        0
    }

    fn zero() -> (r: u32) {
        0
    }
}

impl Prm for u64 {
    open spec fn zero_spec() -> u64 {
        0
    }

    fn zero() -> (r: u64) {
        0
    }
}

impl Prm for usize {
    open spec fn zero_spec() -> usize {
        0
    }

    fn zero() -> (r: usize) {
        0
    }
}

impl Prm for i8 {
    open spec fn zero_spec() -> i8 {
        0
    }

    fn zero() -> (r: i8) {
        0
    }
}

impl Prm for i16 {
    open spec fn zero_spec() -> i16 {
        0
    }

    fn zero() -> (r: i16) {
        0
    }
}

impl Prm for i32 {
    open spec fn zero_spec() -> i32 {
        0
    }

    fn zero() -> (r: i32) {
        0
    }
}

impl Prm for i64 {
    open spec fn zero_spec() -> i64 {
        0
    }

    fn zero() -> (r: i64) {
        0
    }
}

impl Prm for isize {
    open spec fn zero_spec() -> isize {
        0
    }

    fn zero() -> (r: isize) {
        0
    }
}

} // verus!
