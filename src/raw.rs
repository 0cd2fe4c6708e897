//! Conversions between values and the `intptr_t` slots of a raw message.
use vstd::prelude::*;

use crate::intptr_t;

verus! {

/// For types, which can be represented as `intptr_t`.
pub trait AsRawPtr {
    /// The `intptr_t` that stands for this value.
    spec fn raw_ptr_spec(&self) -> intptr_t;

    /// Conversion method.
    fn as_raw_ptr(&self) -> (r: intptr_t)
        ensures
            r == self.raw_ptr_spec(),
    ;
}

impl AsRawPtr for i8 {
    open spec fn raw_ptr_spec(&self) -> intptr_t {
        *self as intptr_t
    }

    fn as_raw_ptr(&self) -> (r: intptr_t) {
        *self as intptr_t
    }
}

impl AsRawPtr for u8 {
    open spec fn raw_ptr_spec(&self) -> intptr_t {
        *self as intptr_t
    }

    fn as_raw_ptr(&self) -> (r: intptr_t) {
        *self as intptr_t
    }
}

impl AsRawPtr for i16 {
    open spec fn raw_ptr_spec(&self) -> intptr_t {
        *self as intptr_t
    }

    fn as_raw_ptr(&self) -> (r: intptr_t) {
        *self as intptr_t
    }
}

impl AsRawPtr for u16 {
    open spec fn raw_ptr_spec(&self) -> intptr_t {
        *self as intptr_t
    }

    fn as_raw_ptr(&self) -> (r: intptr_t) {
        *self as intptr_t
    }
}

impl AsRawPtr for i32 {
    open spec fn raw_ptr_spec(&self) -> intptr_t {
        *self as intptr_t
    }

    fn as_raw_ptr(&self) -> (r: intptr_t) {
        *self as intptr_t
    }
}

impl AsRawPtr for u32 {
    /// On a 32-bit target the value wraps around, as a C cast does.
    open spec fn raw_ptr_spec(&self) -> intptr_t {
        *self as intptr_t
    }

    fn as_raw_ptr(&self) -> (r: intptr_t) {
        *self as intptr_t
    }
}

impl AsRawPtr for i64 {
    open spec fn raw_ptr_spec(&self) -> intptr_t {
        *self as intptr_t
    }

    fn as_raw_ptr(&self) -> (r: intptr_t) {
        *self as intptr_t
    }
}

impl AsRawPtr for u64 {
    open spec fn raw_ptr_spec(&self) -> intptr_t {
        *self as intptr_t
    }

    fn as_raw_ptr(&self) -> (r: intptr_t) {
        *self as intptr_t
    }
}

impl AsRawPtr for usize {
    open spec fn raw_ptr_spec(&self) -> intptr_t {
        *self as intptr_t
    }

    fn as_raw_ptr(&self) -> (r: intptr_t) {
        *self as intptr_t
    }
}

impl AsRawPtr for bool {
    open spec fn raw_ptr_spec(&self) -> intptr_t {
        if *self {
            1
        } else {
            0
        }
    }

    fn as_raw_ptr(&self) -> (r: intptr_t) {
        if *self {
            1
        } else {
            0
        }
    }
}

/// For conversion from `intptr_t`.
pub trait FromRawPtr: Sized {
    /// The value that `value` stands for.
    spec fn from_raw_ptr_spec(value: intptr_t) -> Self;

    /// Conversion method.
    fn from_raw_ptr(value: intptr_t) -> (r: Self)
        ensures
            r == Self::from_raw_ptr_spec(value),
    ;
}

impl FromRawPtr for i8 {
    open spec fn from_raw_ptr_spec(value: intptr_t) -> Self {
        value as i8
    }

    fn from_raw_ptr(value: intptr_t) -> (r: Self) {
        value as i8
    }
}

impl FromRawPtr for u8 {
    open spec fn from_raw_ptr_spec(value: intptr_t) -> Self {
        value as u8
    }

    fn from_raw_ptr(value: intptr_t) -> (r: Self) {
        value as u8
    }
}

impl FromRawPtr for i16 {
    open spec fn from_raw_ptr_spec(value: intptr_t) -> Self {
        value as i16
    }

    fn from_raw_ptr(value: intptr_t) -> (r: Self) {
        value as i16
    }
}

impl FromRawPtr for u16 {
    open spec fn from_raw_ptr_spec(value: intptr_t) -> Self {
        value as u16
    }

    fn from_raw_ptr(value: intptr_t) -> (r: Self) {
        value as u16
    }
}

impl FromRawPtr for i32 {
    open spec fn from_raw_ptr_spec(value: intptr_t) -> Self {
        value as i32
    }

    fn from_raw_ptr(value: intptr_t) -> (r: Self) {
        value as i32
    }
}

impl FromRawPtr for u32 {
    open spec fn from_raw_ptr_spec(value: intptr_t) -> Self {
        value as u32
    }

    fn from_raw_ptr(value: intptr_t) -> (r: Self) {
        value as u32
    }
}

impl FromRawPtr for i64 {
    open spec fn from_raw_ptr_spec(value: intptr_t) -> Self {
        value as i64
    }

    fn from_raw_ptr(value: intptr_t) -> (r: Self) {
        value as i64
    }
}

impl FromRawPtr for u64 {
    open spec fn from_raw_ptr_spec(value: intptr_t) -> Self {
        value as u64
    }

    fn from_raw_ptr(value: intptr_t) -> (r: Self) {
        value as u64
    }
}

impl FromRawPtr for usize {
    open spec fn from_raw_ptr_spec(value: intptr_t) -> Self {
        value as usize
    }

    fn from_raw_ptr(value: intptr_t) -> (r: Self) {
        value as usize
    }
}

impl FromRawPtr for bool {
    open spec fn from_raw_ptr_spec(value: intptr_t) -> Self {
        value != 0
    }

    fn from_raw_ptr(value: intptr_t) -> (r: Self) {
        value != 0
    }
}

/// Raw pointer to value: an `intptr_t` that the host handed over, read as whatever type the
/// context calls for.
#[derive(Clone, Copy, Debug, PartialEq, Eq, Structural)]
pub struct ValuePtr(pub intptr_t);

impl ValuePtr {
    /// Get value.
    ///
    /// See `FromRawPtr` for implemented types.
    pub fn get<T: FromRawPtr>(&self) -> (r: T)
        ensures
            r == T::from_raw_ptr_spec(self.0),
    {
        T::from_raw_ptr(self.0)
    }
}

impl FromRawPtr for ValuePtr {
    open spec fn from_raw_ptr_spec(value: intptr_t) -> Self {
        ValuePtr(value)
    }

    fn from_raw_ptr(value: intptr_t) -> (r: Self) {
        ValuePtr(value)
    }
}

} // verus!
