use crate::errors::MumbleError;
use vstd::prelude::*;

verus! {

/// The result of an operation that fails with a message.
pub type MumbleResult<T> = Result<T, MumbleError>;

} // verus!
