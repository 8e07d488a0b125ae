//! Safe handles over the component object model's value types: result codes,
//! 16-bit booleans, length-prefixed strings, safe-array views and the tagged
//! variant container.
pub mod array;
pub mod barray;
pub mod bool;
pub mod bstr;
pub mod code;
pub mod com;
pub mod currency;
pub mod date;
pub mod decimal;
pub mod facility;
pub mod hr;
pub mod inner;
pub mod timeout;
pub mod types;
pub mod variant;
pub mod vt;

pub use hr::{HResult, SCode, Severity};
pub use inner::{AsInner, AsInnerMut, FromInner, IntoInner};
pub use variant::{ByRef, Payload, Tag, Type, Variant};
