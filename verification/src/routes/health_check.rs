//! The liveness probe.

use crate::response::Response;
use vstd::prelude::*;

verus! {

/// Answers the liveness probe: always 200 with an empty body, whatever was
/// handled before.
pub fn health_check() -> (r: Response)
    ensures
        r.is_bare(200),
        r.body@.len() == 0,
{
    Response::ok()
}

} // verus!
