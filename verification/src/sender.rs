//! Submission: the request envelope, the routing handler, and the dispatcher.

use std::rc::Rc;
use tokio::sync::mpsc::{UnboundedReceiver, UnboundedSender};
use vstd::prelude::*;
use vstd::string::StringExecFns;
use crate::channel;
use crate::event::{Event, ModuleRequest, ModuleRequestView};
use crate::response::{failure_response, settle, settled, EventResponse, ResponseView, SystemError};
use crate::service::{Service, ServiceFactory};
use crate::system::ModuleMap;

verus! {

/// What a submitter hands in: its own context, the event, an optional body, and
/// an optional callback that receives the context and the response.
pub struct SenderRequest<T, F: FnOnce(T, EventResponse)> {
    pub config: T,
    pub event: Event,
    pub payload: Option<Vec<u8>>,
    pub callback: Option<F>,
}

impl<T, F: FnOnce(T, EventResponse)> SenderRequest<T, F> {
    /// A request for `event` with the submitter's `config`, without body or
    /// callback.
    pub fn new(config: T, event: Event) -> (request: Self)
        ensures
            request.config == config,
            request.event == event,
            request.payload.is_none(),
            request.callback.is_none(),
    {
        SenderRequest { config, event, payload: None, callback: None }
    }

    /// The same request with `payload` as its body.
    pub fn payload(self, payload: Vec<u8>) -> (request: Self)
        ensures
            request.config == self.config,
            request.event == self.event,
            request.payload == Some(payload),
            request.callback == self.callback,
    {
        SenderRequest {
            config: self.config,
            event: self.event,
            payload: Some(payload),
            callback: self.callback,
        }
    }

    /// The same request with `callback` to receive the response.
    pub fn callback(self, callback: F) -> (request: Self)
        ensures
            request.config == self.config,
            request.event == self.event,
            request.payload == self.payload,
            request.callback == Some(callback),
    {
        SenderRequest {
            config: self.config,
            event: self.event,
            payload: self.payload,
            callback: Some(callback),
        }
    }

    /// What a module sees of this request: the event and the body, nothing of
    /// the context or the callback.
    pub open spec fn module_view(self) -> ModuleRequestView {
        ModuleRequestView {
            event: self.event@,
            payload: match self.payload {
                Some(body) => Some(body@),
                None => None,
            },
        }
    }

    /// The callback, if there is one, may be called with this request's context
    /// and any response.
    pub open spec fn callback_ready(self) -> bool {
        self.callback matches Some(callback) ==> forall|response: EventResponse|
            call_requires(callback, (self.config, response))
    }

    /// The callback, if there is one, has run on this request's context and a
    /// copy of `response`.
    pub open spec fn callback_ran(self, response: ResponseView) -> bool {
        self.callback matches Some(callback) ==> exists|copy: EventResponse|
            copy@ == response && #[trigger] call_ensures(callback, (self.config, copy), ())
    }
}

/// The diagnostic for an event that has no module.
pub open spec fn miss_message(event: Seq<char>) -> Seq<char> {
    "Can not find the module to handle the request:"@ + event
}

/// `response` is what `module` may answer to `request`: the settled outcome of a
/// handler that the module built, called on exactly `request`, or the failure
/// response of a failed build.
pub open spec fn module_answers<M: ServiceFactory>(
    module: M,
    request: ModuleRequestView,
    response: ResponseView,
) -> bool {
    exists|built: Result<M::Service, SystemError>| #[trigger]
        module.may_build(built) && match built {
            Ok(service) => handler_answers(service, request, response),
            Err(error) => response == failure_response(error@),
        }
}

/// `response` is the settled outcome of a call of `service` on exactly `request`.
pub open spec fn handler_answers<S: Service>(
    service: S,
    request: ModuleRequestView,
    response: ResponseView,
) -> bool {
    exists|handed: ModuleRequest, outcome: Result<EventResponse, SystemError>|
        handed@ == request && #[trigger] service.may_respond(handed, outcome) && response
            == settled(outcome)
}

/// `response` is what routing `request` through `modules` may give: the miss
/// response where the event has no module, and otherwise an answer of the module
/// registered for the event.
pub open spec fn routed<M: ServiceFactory>(
    modules: Map<Seq<char>, M>,
    request: ModuleRequestView,
    response: ResponseView,
) -> bool {
    if modules.contains_key(request.event) {
        module_answers(modules[request.event], request, response)
    } else {
        response == failure_response(miss_message(request.event))
    }
}

/// An event without a module gets one response, the miss: a failure whose
/// diagnostic ends in the event's name and that no module had a part in.
pub proof fn miss_is_a_failure<M: ServiceFactory>(
    modules: Map<Seq<char>, M>,
    request: ModuleRequestView,
    response: ResponseView,
)
    requires
        !modules.contains_key(request.event),
        routed(modules, request, response),
    ensures
        response == failure_response(miss_message(request.event)),
        response.error.is_some(),
        response.error.unwrap().len() >= request.event.len(),
        response.error.unwrap().subrange(
            response.error.unwrap().len() - request.event.len(),
            response.error.unwrap().len() as int,
        ) == request.event,
{
    let message = miss_message(request.event);
    assert(message.subrange(message.len() - request.event.len(), message.len() as int)
        =~= request.event);
}

/// A registered event is answered by the module registered for it and by no
/// other, on a request made of the event and the body; a response that its
/// handler gives comes back unchanged.
pub proof fn hit_is_the_modules_answer<M: ServiceFactory>(
    modules: Map<Seq<char>, M>,
    request: ModuleRequestView,
    response: ResponseView,
)
    requires
        modules.contains_key(request.event),
        routed(modules, request, response),
    ensures
        module_answers(modules[request.event], request, response),
        forall|given: EventResponse| #[trigger] settled(Ok(given)) == given@,
{
}

/// Two submissions of the same event and body put the same request before the
/// module, whatever their contexts and callbacks are: the responses that routing
/// may give are the same for both.
pub proof fn context_stays_with_the_submitter<M: ServiceFactory, T, F: FnOnce(T, EventResponse), U, G: FnOnce(U, EventResponse)>(
    modules: Map<Seq<char>, M>,
    first: SenderRequest<T, F>,
    second: SenderRequest<U, G>,
    response: ResponseView,
)
    requires
        first.event@ == second.event@,
        first.payload is Some == second.payload is Some,
        first.payload is Some ==> first.payload.unwrap()@ == second.payload.unwrap()@,
    ensures
        first.module_view() == second.module_view(),
        routed(modules, first.module_view(), response) == routed(
            modules,
            second.module_view(),
            response,
        ),
{
}

/// The failure for an event that has no module.
pub fn routing_miss(event: &Event) -> (error: SystemError)
    ensures
        error@ == miss_message(event@),
{
    let message = String::from_str("Can not find the module to handle the request:").concat(
        event.name(),
    );
    SystemError::new(message)
}

/// Delivers a handler's outcome: settles it, hands a copy to the callback with
/// the submitter's context if there is a callback, and returns the response.
pub fn complete<T, F: FnOnce(T, EventResponse)>(
    outcome: Result<EventResponse, SystemError>,
    config: T,
    callback: Option<F>,
) -> (response: EventResponse)
    requires
        callback matches Some(f) ==> forall|r: EventResponse| call_requires(f, (config, r)),
    ensures
        response@ == settled(outcome),
        callback matches Some(f) ==> exists|copy: EventResponse|
            copy@ == response@ && #[trigger] call_ensures(f, (config, copy), ()),
{
    let response = settle(outcome);
    if let Some(f) = callback {
        let copy = response.duplicate();
        f(config, copy);
        assert(call_ensures(f, (config, copy), ()));
    }
    response
}

/// The routing handler: looks the event up and lets its module answer.
pub struct SenderService<M> {
    module_map: Rc<ModuleMap<M>>,
}

impl<M: ServiceFactory> SenderService<M> {
    /// The registry that this handler routes through.
    pub closed spec fn modules(&self) -> Map<Seq<char>, M> {
        self.module_map.view()
    }

    /// A routing handler over `module_map`.
    pub fn over(module_map: Rc<ModuleMap<M>>) -> (service: Self)
        ensures
            service.modules() == module_map.view(),
    {
        SenderService { module_map }
    }

    /// The module registered for `event`, if there is one.
    pub fn lookup(&self, event: &Event) -> (found: Option<&M>)
        ensures
            match found {
                Some(module) => self.modules().contains_key(event@) && self.modules()[event@]
                    == *module,
                None => !self.modules().contains_key(event@),
            },
    {
        self.module_map.get(event)
    }

    /// Asks the module registered for the request's event, if there is one, to
    /// handle `request`. A miss and a failed build are failures like a handler's
    /// own.
    pub fn dispatch(&self, request: ModuleRequest) -> (outcome: Result<EventResponse, SystemError>)
        ensures
            routed(self.modules(), request@, settled(outcome)),
    {
        match self.lookup(request.event()) {
            Some(module) => match module.new_service() {
                Ok(service) => {
                    let outcome = service.call(request);
                    assert(handler_answers(service, request@, settled(outcome)));
                    assert(module.may_build(Ok(service)));
                    outcome
                },
                Err(error) => {
                    assert(module.may_build(Err(error)));
                    Err(error)
                },
            },
            None => Err(routing_miss(request.event())),
        }
    }

    /// Routes one request and completes it. The module registered for the event
    /// answers a request made of the event and the body alone; where there is
    /// none, the response is the miss. The callback, if any, receives the
    /// submitter's context and a copy of the response that is returned.
    pub fn call<T, F: FnOnce(T, EventResponse)>(&self, data: SenderRequest<T, F>) -> (response:
        EventResponse)
        requires
            data.callback_ready(),
        ensures
            routed(self.modules(), data.module_view(), response@),
            data.callback_ran(response@),
    {
        let SenderRequest { config, event, payload, callback } = data;
        let mut request = ModuleRequest::new(event);
        if let Some(body) = payload {
            request = request.payload(body);
        }
        let outcome = self.dispatch(request);
        complete(outcome, config, callback)
    }
}

/// The dispatcher: where requests are submitted.
#[verifier::reject_recursive_types(T)]
#[verifier::reject_recursive_types(F)]
pub struct Sender<M, T, F: FnOnce(T, EventResponse)> {
    module_map: Rc<ModuleMap<M>>,
    data_tx: UnboundedSender<SenderRequest<T, F>>,
    data_rx: Option<UnboundedReceiver<SenderRequest<T, F>>>,
}

impl<M: ServiceFactory, T, F: FnOnce(T, EventResponse)> Sender<M, T, F> {
    /// The registry that requests are routed through.
    pub closed spec fn modules(&self) -> Map<Seq<char>, M> {
        self.module_map.view()
    }

    /// The receiving end of the queue, while the dispatcher still holds it.
    pub closed spec fn receiver(&self) -> Option<UnboundedReceiver<SenderRequest<T, F>>> {
        self.data_rx
    }

    /// A dispatcher over `module_map` with a new, empty queue, both ends of
    /// which it holds.
    pub fn new(module_map: Rc<ModuleMap<M>>) -> (sender: Self)
        ensures
            sender.modules() == module_map.view(),
            sender.receiver().is_some(),
    {
        let (data_tx, data_rx) = channel::open::<SenderRequest<T, F>>();
        Sender { module_map, data_tx, data_rx: Some(data_rx) }
    }

    /// A fresh routing handler over the same registry.
    pub fn new_service(&self) -> (service: SenderService<M>)
        ensures
            service.modules() == self.modules(),
    {
        SenderService::over(channel::share(&self.module_map))
    }

    /// Queues `data` for the runner and returns at once. Says whether the queue
    /// took the request: it does not once its receiving end is gone, and the
    /// request is then dropped.
    pub fn async_send(&self, data: SenderRequest<T, F>) -> (queued: bool) {
        channel::send(&self.data_tx, data)
    }

    /// Routes `data` now, past the queue, and returns the response.
    pub fn sync_send(&self, data: SenderRequest<T, F>) -> (response: EventResponse)
        requires
            data.callback_ready(),
        ensures
            routed(self.modules(), data.module_view(), response@),
            data.callback_ran(response@),
    {
        let service = self.new_service();
        service.call(data)
    }

    /// Whether the dispatcher still holds the receiving end.
    pub fn has_rx(&self) -> (held: bool)
        ensures
            held == self.receiver().is_some(),
    {
        self.data_rx.is_some()
    }

    /// Gives the receiving end away. It can be taken once.
    pub fn take_rx(&mut self) -> (rx: UnboundedReceiver<SenderRequest<T, F>>)
        requires
            old(self).receiver().is_some(),
        ensures
            old(self).receiver() == Some(rx),
            final(self).receiver().is_none(),
            final(self).modules() == old(self).modules(),
    {
        self.data_rx.take().unwrap()
    }
}

} // verus!
