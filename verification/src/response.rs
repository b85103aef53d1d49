//! Responses, failures, and the total conversion from one to the other.

use vstd::prelude::*;

verus! {

/// A response as a plain value: the body, and the diagnostic of a failure.
pub struct ResponseView {
    pub payload: Seq<u8>,
    pub error: Option<Seq<char>>,
}

/// The outcome of handling one request. A failure is a response too: it has an
/// empty body and carries a diagnostic.
#[derive(Debug)]
pub struct EventResponse {
    payload: Vec<u8>,
    error: Option<String>,
}

impl View for EventResponse {
    type V = ResponseView;

    closed spec fn view(&self) -> ResponseView {
        ResponseView {
            payload: self.payload@,
            error: match self.error {
                Some(message) => Some(message@),
                None => None,
            },
        }
    }
}

/// The successful response with the given body.
pub open spec fn success_response(payload: Seq<u8>) -> ResponseView {
    ResponseView { payload, error: None }
}

/// The failure response with the given diagnostic.
pub open spec fn failure_response(message: Seq<char>) -> ResponseView {
    ResponseView { payload: Seq::empty(), error: Some(message) }
}

impl EventResponse {
    /// A successful response with `payload` as its body.
    pub fn ok(payload: Vec<u8>) -> (response: EventResponse)
        ensures
            response@ == success_response(payload@),
    {
        EventResponse { payload, error: None }
    }

    /// A failure response that carries `message`.
    pub fn failure(message: String) -> (response: EventResponse)
        ensures
            response@ == failure_response(message@),
    {
        EventResponse { payload: Vec::new(), error: Some(message) }
    }

    /// Whether the response reports a failure.
    pub fn is_error(&self) -> (failed: bool)
        ensures
            failed == self@.error.is_some(),
    {
        self.error.is_some()
    }

    /// The body.
    pub fn payload(&self) -> (body: &Vec<u8>)
        ensures
            body@ == self@.payload,
    {
        &self.payload
    }

    /// The diagnostic of a failure.
    pub fn error_message(&self) -> (message: Option<&str>)
        ensures
            match message {
                Some(text) => self@.error == Some(text@),
                None => self@.error.is_none(),
            },
    {
        match &self.error {
            Some(text) => Some(text.as_str()),
            None => None,
        }
    }

    /// An independent response with the same body and diagnostic.
    pub fn duplicate(&self) -> (copy: EventResponse)
        ensures
            copy@ == self@,
    {
        let mut payload: Vec<u8> = Vec::new();
        let mut i: usize = 0;
        while i < self.payload.len()
            invariant
                i <= self.payload.len(),
                payload@ == self.payload@.take(i as int),
            decreases self.payload.len() - i,
        {
            payload.push(self.payload[i]);
            i += 1;
            assert(self.payload@.take(i as int) =~= self.payload@.take(i - 1).push(
                self.payload@[i - 1],
            ));
        }
        assert(self.payload@.take(self.payload.len() as int) =~= self.payload@);
        let error = match &self.error {
            Some(text) => Some(text.clone()),
            None => None,
        };
        EventResponse { payload, error }
    }
}

/// A failure of routing or of a module's factory or handler.
#[derive(Debug)]
pub struct SystemError {
    message: String,
}

impl View for SystemError {
    type V = Seq<char>;

    closed spec fn view(&self) -> Seq<char> {
        self.message@
    }
}

impl SystemError {
    /// A failure with the given diagnostic.
    pub fn new(message: String) -> (error: SystemError)
        ensures
            error@ == message@,
    {
        SystemError { message }
    }

    /// The diagnostic.
    pub fn message(&self) -> (message: &str)
        ensures
            message@ == self@,
    {
        self.message.as_str()
    }

    /// The failure as a response. Every failure has one.
    pub fn into_response(self) -> (response: EventResponse)
        ensures
            response@ == failure_response(self@),
    {
        EventResponse::failure(self.message)
    }
}

/// What the completion path receives for a handler's outcome: the handler's own
/// response, or the response that stands for its failure.
pub open spec fn settled(outcome: Result<EventResponse, SystemError>) -> ResponseView {
    match outcome {
        Ok(response) => response@,
        Err(error) => failure_response(error@),
    }
}

/// Turns a handler's outcome into the response to deliver. A response passes
/// through unchanged; a failure becomes a failure response.
pub fn settle(outcome: Result<EventResponse, SystemError>) -> (response: EventResponse)
    ensures
        response@ == settled(outcome),
        outcome matches Ok(given) ==> response == given,
{
    match outcome {
        Ok(response) => response,
        Err(error) => error.into_response(),
    }
}

} // verus!
