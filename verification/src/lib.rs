mod clock;
pub mod endpoints;
pub mod json;
pub mod port;
pub mod rfc3339;

use vstd::prelude::*;

verus! {

/// Port the service listens on when the environment supplies none, or an
/// unusable one.
pub const DEFAULT_PORT: u16 = 8004;

} // verus!
