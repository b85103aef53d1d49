//! The two capabilities of a module: building a handler, and handling a request.

use vstd::prelude::*;
use crate::event::ModuleRequest;
use crate::response::{EventResponse, SystemError};

verus! {

/// Handles one module request.
pub trait Service {
    /// The outcomes that `call` may give for `request`. A handler that states
    /// nothing may give any.
    open spec fn may_respond(
        &self,
        request: ModuleRequest,
        outcome: Result<EventResponse, SystemError>,
    ) -> bool {
        true
    }

    /// Handles `request`.
    fn call(&self, request: ModuleRequest) -> (outcome: Result<EventResponse, SystemError>)
        ensures
            self.may_respond(request, outcome),
    ;
}

/// Builds a fresh handler for each request.
pub trait ServiceFactory {
    type Service: Service;

    /// The outcomes that `new_service` may give. A factory that states nothing
    /// may give any.
    open spec fn may_build(&self, outcome: Result<Self::Service, SystemError>) -> bool {
        true
    }

    /// Builds a handler.
    fn new_service(&self) -> (outcome: Result<Self::Service, SystemError>)
        ensures
            self.may_build(outcome),
    ;
}

} // verus!
