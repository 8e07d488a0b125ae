//! Conversions between newtypes and the plain values they wrap.
use vstd::prelude::*;

verus! {

/// Borrows the wrapped value.
pub trait AsInner<T> {
    fn as_inner(&self) -> &T;
}

/// Mutably borrows the wrapped value.
pub trait AsInnerMut<T>: AsInner<T> {
    fn as_inner_mut(&mut self) -> &mut T;
}

/// Unwraps the wrapped value.
pub trait IntoInner<T> {
    fn into_inner(self) -> T;
}

/// Wraps a plain value.
pub trait FromInner<T>: Sized {
    fn from_inner(inner: T) -> Self;
}

} // verus!
