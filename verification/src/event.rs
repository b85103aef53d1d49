//! Event identifiers and the request that a module's handler receives.

use vstd::prelude::*;
use vstd::string::StringExecFns;

verus! {

/// Names the module that should handle a request. Two identifiers are the same
/// event exactly when their names are the same text.
#[derive(Debug)]
pub struct Event {
    name: String,
}

impl View for Event {
    type V = Seq<char>;

    closed spec fn view(&self) -> Seq<char> {
        self.name@
    }
}

impl Event {
    /// The identifier with the given name.
    pub fn new(name: &str) -> (event: Event)
        ensures
            event@ == name@,
    {
        Event { name: String::from_str(name) }
    }

    /// The name, as text.
    pub fn name(&self) -> (name: &str)
        ensures
            name@ == self@,
    {
        self.name.as_str()
    }

    /// Whether both identifiers name the same event.
    pub fn same(&self, other: &Event) -> (same: bool)
        ensures
            same == (self@ == other@),
    {
        self.name == other.name
    }

    /// A second identifier for the same event.
    pub fn duplicate(&self) -> (copy: Event)
        ensures
            copy@ == self@,
    {
        Event { name: self.name.clone() }
    }
}

/// What a module's handler sees of a request: the event and the body.
pub struct ModuleRequestView {
    pub event: Seq<char>,
    pub payload: Option<Seq<u8>>,
}

/// The request handed to a module's handler. It carries nothing of the
/// submitter's own context.
#[derive(Debug)]
pub struct ModuleRequest {
    event: Event,
    payload: Option<Vec<u8>>,
}

impl View for ModuleRequest {
    type V = ModuleRequestView;

    closed spec fn view(&self) -> ModuleRequestView {
        ModuleRequestView {
            event: self.event@,
            payload: match self.payload {
                Some(body) => Some(body@),
                None => None,
            },
        }
    }
}

impl ModuleRequest {
    /// A request for `event` without a body.
    pub fn new(event: Event) -> (request: ModuleRequest)
        ensures
            request@ == (ModuleRequestView { event: event@, payload: None }),
    {
        ModuleRequest { event, payload: None }
    }

    /// The same request with `payload` as its body, in place of any earlier one.
    pub fn payload(self, payload: Vec<u8>) -> (request: ModuleRequest)
        ensures
            request@ == (ModuleRequestView { event: self@.event, payload: Some(payload@) }),
    {
        ModuleRequest { event: self.event, payload: Some(payload) }
    }

    /// The event that the request is for.
    pub fn event(&self) -> (event: &Event)
        ensures
            event@ == self@.event,
    {
        &self.event
    }

    /// The body, if the request has one.
    pub fn body(&self) -> (body: Option<&Vec<u8>>)
        ensures
            match body {
                Some(bytes) => self@.payload == Some(bytes@),
                None => self@.payload.is_none(),
            },
    {
        self.payload.as_ref()
    }
}

} // verus!
