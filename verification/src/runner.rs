//! The runner: takes requests from the queue, one by one, until it is closed.

use std::rc::Rc;
use tokio::sync::mpsc::UnboundedReceiver;
use vstd::prelude::*;
use crate::channel;
use crate::channel::QueueEvent;
use crate::response::EventResponse;
use crate::sender::{routed, SenderRequest, SenderService};
use crate::service::ServiceFactory;
use crate::system::ModuleMap;

verus! {

/// Where the runner stands. Once terminated it stays so.
#[derive(Clone, Copy, Debug, PartialEq, Eq, Structural)]
pub enum RunnerState {
    Running,
    Terminated,
}

/// What the runner asks for after one report of the queue.
pub enum RunnerAction<R> {
    /// Hand the request to a unit of work of its own, and ask the queue again.
    Spawn(R),
    /// Nothing to do until the queue has news.
    Wait,
    /// The runner is done.
    Finish,
}

/// One step of the runner: the state it moves to and what it asks for.
pub open spec fn step<R>(state: RunnerState, event: QueueEvent<R>) -> (
    RunnerState,
    RunnerAction<R>,
) {
    match state {
        RunnerState::Terminated => (RunnerState::Terminated, RunnerAction::Finish),
        RunnerState::Running => match event {
            QueueEvent::Request(request) => (RunnerState::Running, RunnerAction::Spawn(request)),
            QueueEvent::Empty => (RunnerState::Running, RunnerAction::Wait),
            QueueEvent::Closed => (RunnerState::Terminated, RunnerAction::Finish),
        },
    }
}

/// The state of a runner that started running and has seen the first `n` of
/// `events`.
pub open spec fn state_after<R>(events: Seq<QueueEvent<R>>, n: int) -> RunnerState
    decreases n,
{
    if n <= 0 {
        RunnerState::Running
    } else {
        step(state_after(events, n - 1), events[n - 1]).0
    }
}

/// What a runner that started running asks for at the report `events[i]`.
pub open spec fn action_at<R>(events: Seq<QueueEvent<R>>, i: int) -> RunnerAction<R> {
    step(state_after(events, i), events[i]).1
}

/// The queue reported its closure at some report before `events[n]`.
pub open spec fn closed_before<R>(events: Seq<QueueEvent<R>>, n: int) -> bool {
    exists|j: int| 0 <= j < n && j < events.len() && #[trigger] events[j] is Closed
}

/// A runner has terminated exactly when the queue has reported its closure.
pub proof fn terminated_iff_closed<R>(events: Seq<QueueEvent<R>>, n: int)
    requires
        0 <= n <= events.len(),
    ensures
        (state_after(events, n) == RunnerState::Terminated) == closed_before(events, n),
    decreases n,
{
    if n > 0 {
        terminated_iff_closed(events, n - 1);
        if events[n - 1] is Closed {
            assert(closed_before(events, n));
        } else if closed_before(events, n) {
            let j = choose|j: int| 0 <= j < n && j < events.len() && #[trigger] events[j] is Closed;
            assert(events[j] is Closed && 0 <= j < n - 1);
            assert(closed_before(events, n - 1));
        } else if closed_before(events, n - 1) {
            let j = choose|j: int|
                0 <= j < n - 1 && j < events.len() && #[trigger] events[j] is Closed;
            assert(events[j] is Closed && 0 <= j < n);
        }
    }
}

/// A request that leaves the queue is spawned at that report, once, unless the
/// queue had reported its closure before: then it is dropped.
pub proof fn request_spawned_once_unless_closed<R>(events: Seq<QueueEvent<R>>, i: int)
    requires
        0 <= i < events.len(),
        events[i] is Request,
    ensures
        action_at(events, i) == if closed_before(events, i) {
            RunnerAction::Finish
        } else {
            RunnerAction::Spawn(events[i]->Request_0)
        },
{
    terminated_iff_closed(events, i);
}

/// While the queue has not reported its closure, the runner keeps running and
/// answers each report by itself: every request among the first `n` reports is
/// spawned, in the order in which the requests left the queue.
pub proof fn all_spawned_before_closure<R>(events: Seq<QueueEvent<R>>, n: int)
    requires
        0 <= n <= events.len(),
        !closed_before(events, n),
    ensures
        state_after(events, n) == RunnerState::Running,
        forall|i: int|
            0 <= i < n ==> #[trigger] action_at(events, i) == step(
                RunnerState::Running,
                events[i],
            ).1,
        forall|i: int|
            0 <= i < n && events[i] is Request ==> #[trigger] action_at(events, i)
                == RunnerAction::Spawn(events[i]->Request_0),
{
    terminated_iff_closed(events, n);
    assert forall|i: int| 0 <= i < n implies #[trigger] action_at(events, i) == step(
        RunnerState::Running,
        events[i],
    ).1 by {
        terminated_iff_closed(events, i);
        if closed_before(events, i) {
            let j = choose|j: int| 0 <= j < i && j < events.len() && #[trigger] events[j] is Closed;
            assert(events[j] is Closed && 0 <= j < n);
        }
    }
}

/// Once the queue has reported its closure the runner has terminated for good:
/// it asks only to finish, and a request reported later is never spawned.
pub proof fn closure_ends_the_runner<R>(events: Seq<QueueEvent<R>>, j: int, i: int)
    requires
        0 <= j < i,
        j < events.len(),
        events[j] is Closed,
    ensures
        state_after(events, i) == RunnerState::Terminated,
        action_at(events, i) == RunnerAction::<R>::Finish,
        step(RunnerState::Terminated, events[i]) == (
            RunnerState::Terminated,
            RunnerAction::<R>::Finish,
        ),
    decreases i,
{
    if i - 1 > j {
        closure_ends_the_runner(events, j, i - 1);
    } else {
        assert(step(state_after(events, j), events[j]).0 == RunnerState::Terminated);
    }
}

/// The consumer: holds the receiving end of the queue and the registry.
#[verifier::reject_recursive_types(T)]
#[verifier::reject_recursive_types(F)]
pub struct SenderRunner<M, T, F: FnOnce(T, EventResponse)> {
    module_map: Rc<ModuleMap<M>>,
    data_rx: UnboundedReceiver<SenderRequest<T, F>>,
    state: RunnerState,
}

impl<M: ServiceFactory, T, F: FnOnce(T, EventResponse)> SenderRunner<M, T, F> {
    /// The registry that requests are routed through.
    pub closed spec fn modules(&self) -> Map<Seq<char>, M> {
        self.module_map.view()
    }

    /// Where the runner stands.
    pub closed spec fn spec_state(&self) -> RunnerState {
        self.state
    }

    /// The receiving end of the queue, which the runner holds.
    pub closed spec fn queue(&self) -> UnboundedReceiver<SenderRequest<T, F>> {
        self.data_rx
    }

    /// A running runner over `module_map` that drains `data_rx`.
    pub fn new(module_map: Rc<ModuleMap<M>>, data_rx: UnboundedReceiver<SenderRequest<T, F>>) -> (runner:
        Self)
        ensures
            runner.modules() == module_map.view(),
            runner.queue() == data_rx,
            runner.spec_state() == RunnerState::Running,
    {
        SenderRunner { module_map, data_rx, state: RunnerState::Running }
    }

    /// Where the runner stands.
    pub fn state(&self) -> (state: RunnerState)
        ensures
            state == self.spec_state(),
    {
        self.state
    }

    /// Whether the runner is done.
    pub fn is_terminated(&self) -> (done: bool)
        ensures
            done == (self.spec_state() == RunnerState::Terminated),
    {
        match self.state {
            RunnerState::Terminated => true,
            RunnerState::Running => false,
        }
    }

    /// A fresh routing handler over the runner's registry.
    pub fn new_service(&self) -> (service: SenderService<M>)
        ensures
            service.modules() == self.modules(),
    {
        SenderService::over(channel::share(&self.module_map))
    }

    /// The runner's own receiving end, for a caller that waits on it. What the
    /// caller leaves behind the reference is the receiving end that the runner
    /// holds afterwards; registry and state stay as they are.
    pub fn receiver(&mut self) -> (rx: &mut UnboundedReceiver<SenderRequest<T, F>>)
        ensures
            *rx == old(self).queue(),
            final(self).queue() == *final(rx),
            final(self).modules() == old(self).modules(),
            final(self).spec_state() == old(self).spec_state(),
    {
        &mut self.data_rx
    }

    /// Takes one report of the queue and decides: a request is to be spawned,
    /// an empty queue waited on, and a closed queue ends the runner. A runner
    /// that has ended asks for nothing more.
    pub fn on_event(&mut self, event: QueueEvent<SenderRequest<T, F>>) -> (action: RunnerAction<
        SenderRequest<T, F>,
    >)
        ensures
            (final(self).spec_state(), action) == step(old(self).spec_state(), event),
            final(self).modules() == old(self).modules(),
            final(self).queue() == old(self).queue(),
    {
        match self.state {
            RunnerState::Terminated => RunnerAction::Finish,
            RunnerState::Running => match event {
                QueueEvent::Request(request) => RunnerAction::Spawn(request),
                QueueEvent::Empty => RunnerAction::Wait,
                QueueEvent::Closed => {
                    self.state = RunnerState::Terminated;
                    RunnerAction::Finish
                },
            },
        }
    }

    /// Asks the queue once, without waiting, and decides on what it reports. A
    /// runner that has ended does not ask.
    pub fn poll_queue(&mut self) -> (action: RunnerAction<SenderRequest<T, F>>)
        ensures
            exists|event: QueueEvent<SenderRequest<T, F>>|
                (final(self).spec_state(), action) == #[trigger] step(
                    old(self).spec_state(),
                    event,
                ),
            old(self).spec_state() == RunnerState::Terminated ==> action is Finish,
            final(self).modules() == old(self).modules(),
    {
        match self.state {
            RunnerState::Terminated => {
                assert((self.spec_state(), RunnerAction::<SenderRequest<T, F>>::Finish) == step(
                    self.spec_state(),
                    QueueEvent::<SenderRequest<T, F>>::Closed,
                ));
                RunnerAction::Finish
            },
            RunnerState::Running => {
                let event = channel::try_receive(&mut self.data_rx);
                self.on_event(event)
            },
        }
    }

    /// What the unit of work spawned for `request` does: routes it through a
    /// fresh handler and completes it.
    pub fn handle(&self, request: SenderRequest<T, F>) -> (response: EventResponse)
        requires
            request.callback_ready(),
        ensures
            routed(self.modules(), request.module_view(), response@),
            request.callback_ran(response@),
    {
        let service = self.new_service();
        service.call(request)
    }
}

} // verus!
