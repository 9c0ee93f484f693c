//! Fixed texts and defaults.

use vstd::prelude::*;

verus! {

/// The port of the admin interface when none is configured.
pub const DEFAULT_API_PORT: &'static str = "8870";

/// The body sent to a peer that is not admitted.
pub const DENY_RESPONSE: &'static str = "the request is denied";

/// The body sent when no route takes a request.
pub const NOT_FOUND: &'static str = "the request has no matching route";

} // verus!
