//! The manager handles. A manager owns no long-lived state: every list, add
//! and delete owns a short-lived platform socket or call for its duration, so
//! the handles anchor the API while the translation work lives in the codec
//! modules and the reads and writes with the surrounding I/O shell.

use crate::route::RouteError;
use vstd::prelude::*;

verus! {

/// The synchronous manager handle.
pub struct RouteManager {}

impl RouteManager {
    /// Creates a new RouteManager.
    pub fn new() -> (r: Result<RouteManager, RouteError>)
        ensures
            r is Ok,
    {
        Ok(RouteManager {  })
    }
}

/// The asynchronous manager handle. Its operations share the synchronous
/// semantics; suspension is the I/O shell's.
pub struct AsyncRouteManager {}

impl AsyncRouteManager {
    /// Creates a new AsyncRouteManager.
    pub fn new() -> (r: Result<AsyncRouteManager, RouteError>)
        ensures
            r is Ok,
    {
        Ok(AsyncRouteManager {  })
    }
}

} // verus!
