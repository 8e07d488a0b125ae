//! Interfaces, classes and the per-thread runtime handle.
use vstd::prelude::*;

verus! {

/// Handle for the component runtime on the current thread, handed out by the runtime's
/// initializers once the runtime reports success.
#[derive(Debug)]
pub struct Com;

/// A globally unique identifier of an interface or a class.
#[derive(Copy, Clone, Debug, PartialEq, Eq)]
pub struct Guid {
    pub data1: u32,
    pub data2: u16,
    pub data3: u16,
    pub data4: [u8; 8],
}

/// Marker for virtual function tables.
pub trait ComVtbl: Sized {
}

/// An interface: a table of virtual functions identified by an interface id.
pub trait ComInterface: Sized {
    type Vtbl: ComVtbl;

    /// Returns the table of virtual functions.
    fn vtbl(&self) -> &Self::Vtbl;

    /// Returns the interface id.
    fn iid() -> Guid;
}

/// Declares that an interface extends another one.
pub trait ComInherit: ComInterface {
    type Super: ComInterface;
}

/// A class, identified by a class id.
pub trait ComClass {
    /// Returns the class id.
    fn clsid() -> Guid;
}

/// Declares that a class implements the interface `I`.
pub trait ComClassInterface<I: ComInterface>: ComClass {
}

} // verus!
