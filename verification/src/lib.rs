//! Nul-terminated UTF-8 strings.
//!
//! The core type, [`DStr`], wraps a byte buffer that is at once valid UTF-8
//! text and a C-style nul-terminated string: exactly one zero byte, placed at
//! the very end.  Because the length is stored alongside the data, every
//! length query is a subtraction, never a scan.  [`DString`] is the owned,
//! growable companion; the error enums say exactly why a candidate buffer was
//! rejected.

pub mod dstr;
pub mod dstring;
pub mod error;
pub mod mem;
pub mod utf8;

pub use dstr::DStr;
pub use dstring::DString;
pub use error::{FromBytesError, FromStrError, Utf8Error};
