//! Top-level error types.

use vstd::prelude::*;

verus! {

/// The failure that the program reports when any of its features fails.
#[derive(Debug, Clone, Copy, PartialEq, Eq)]
pub struct AppError;

/// A hint shown to the user beside a failure.
pub struct Suggestion(pub &'static str);

/// A numeric code attached to a failure.
pub struct ErrorCode(pub u16);

} // verus!
