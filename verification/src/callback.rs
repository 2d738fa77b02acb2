//! The capability token of hook callbacks.

use vstd::prelude::*;

verus! {

/// Capability token carried into hook callbacks. Endpoint operations on the
/// callback side require it; it is made by the dispatch path of a hook site
/// only, never by plugin code.
#[derive(Debug)]
pub struct CallbackCtx {
    private: (),
}

impl CallbackCtx {
    pub(crate) fn new() -> Self {
        CallbackCtx { private: () }
    }
}

} // verus!
