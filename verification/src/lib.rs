//! Verified core of the bindings to the Axis VDO (video capture) API.
//!
//! The modules hold what the bindings decide: the error codes and errors, the
//! video formats and frame types, the checks on the strings handed to the C API,
//! and how the outcome of each call into the API becomes a `Result`.

pub mod call;
pub mod cstr;
pub mod error;
pub mod format;
mod text;

pub use call::{check_gerror, Operation};
pub use error::{Error, ErrorCode};
pub use format::{Format, FrameType};
