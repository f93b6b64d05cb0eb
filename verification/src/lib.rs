//! Attach a side-effecting hook to a fallible function: the hook fires exactly
//! once, at the moment the escaping error is converted into the unified
//! [`Error`] container, and the original error reaches the caller unchanged.

mod errors;
mod hooking;

pub use errors::AggregateError;
pub use errors::Error;
pub use errors::IntoBoxed;
pub use errors::OpaqueError;
pub use hooking::hook_outcome;
pub use hooking::SameAs;
pub use hooking::SecretStructDoNotUseOrYouWillBeFired;
pub use hooking::SecretTraitDoNotUseOrYouWillBeFired;
pub use hooking::Shape;

use vstd::prelude::*;

verus! {

/// Outcome type of a hooked function: on failure it carries the unified
/// error container.
pub type HookResult<T> = core::result::Result<T, Error>;

} // verus!
