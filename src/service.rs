use vstd::prelude::*;

use crate::ids::{ClientId, MessageRecipient};
use crate::messages::{MessageFromServer, MessagePayload, ServiceEvent};

verus! {

/// A room service: user logic that reacts to clients joining, leaving and
/// sending, and to its own one-shot timer. It acts on the room only through
/// the context it is handed.
///
/// `received` is the service's account of the calls it has taken, oldest
/// first; each operation adds its own call to it.
pub trait StateroomService {
    spec fn received(&self) -> CallLog;

    fn connect(&mut self, client_id: ClientId, ctx: &mut ServiceActorContext)
        ensures
            final(self).received() == old(self).received().push(ServiceCall::Connect(client_id)),
    ;

    fn disconnect(&mut self, client_id: ClientId, ctx: &mut ServiceActorContext)
        ensures
            final(self).received() == old(self).received().push(
                ServiceCall::Disconnect(client_id),
            ),
    ;

    fn message(&mut self, client_id: ClientId, message: &str, ctx: &mut ServiceActorContext)
        ensures
            final(self).received() == old(self).received().push(
                ServiceCall::Message(client_id, message@),
            ),
    ;

    fn binary(&mut self, client_id: ClientId, message: &[u8], ctx: &mut ServiceActorContext)
        ensures
            final(self).received() == old(self).received().push(
                ServiceCall::Binary(client_id, message@),
            ),
    ;

    fn timer(&mut self, ctx: &mut ServiceActorContext)
        ensures
            final(self).received() == old(self).received().push(ServiceCall::Timer),
    ;
}

/// One call of a service operation, with its arguments as values.
pub ghost enum ServiceCall {
    Connect(ClientId),
    Disconnect(ClientId),
    Message(ClientId, Seq<char>),
    Binary(ClientId, Seq<u8>),
    Timer,
}

/// A service's calls, oldest first.
pub type CallLog = Seq<ServiceCall>;

/// The service operation that delivers `event`.
pub open spec fn call_of(event: ServiceEvent) -> ServiceCall {
    match event {
        ServiceEvent::Connect(c) => ServiceCall::Connect(c),
        ServiceEvent::Disconnect(c) => ServiceCall::Disconnect(c),
        ServiceEvent::Message(c, t) => ServiceCall::Message(c, t@),
        ServiceEvent::Binary(c, b) => ServiceCall::Binary(c, b@),
        ServiceEvent::Timer => ServiceCall::Timer,
    }
}

/// The service calls that deliver `events`, in the same order.
pub open spec fn calls_of(events: Seq<ServiceEvent>) -> Seq<ServiceCall> {
    events.map_values(|e: ServiceEvent| call_of(e))
}

/// Something a service asked its context for during a call.
#[derive(Clone, Debug, PartialEq, Eq)]
pub enum ContextRequest {
    /// Send a message to the room's clients.
    Send(MessageFromServer),
    /// Replace the service's timer; zero only cancels it.
    SetTimer(u32),
}

/// The context handed to a service: it queues the service's sends and timer
/// requests, in the order they were made, for the actor to pass on.
pub struct ServiceActorContext {
    requests: Vec<ContextRequest>,
}

impl ServiceActorContext {
    /// The requests queued so far, oldest first.
    pub closed spec fn queued(&self) -> Seq<ContextRequest> {
        self.requests@
    }

    pub fn new() -> (r: ServiceActorContext)
        ensures
            r.queued() == Seq::<ContextRequest>::empty(),
    {
        ServiceActorContext { requests: Vec::new() }
    }

    fn try_send(&mut self, message: MessageFromServer)
        ensures
            final(self).queued() == old(self).queued().push(ContextRequest::Send(message)),
    {
        self.requests.push(ContextRequest::Send(message));
    }

    /// Queues a text message to `recipient`.
    pub fn send_message(&mut self, recipient: MessageRecipient, message: &str)
        ensures
            final(self).queued().len() == old(self).queued().len() + 1,
            final(self).queued().drop_last() == old(self).queued(),
            sends_text(final(self).queued().last(), recipient, message@),
    {
        let text = message.to_owned();
        self.try_send(MessageFromServer::new(recipient, text));
    }

    /// Queues a binary message to `recipient`.
    pub fn send_binary(&mut self, recipient: MessageRecipient, message: &[u8])
        ensures
            final(self).queued().len() == old(self).queued().len() + 1,
            final(self).queued().drop_last() == old(self).queued(),
            sends_bytes(final(self).queued().last(), recipient, message@),
    {
        let bytes = vstd::slice::slice_to_vec(message);
        self.try_send(MessageFromServer::new_binary(recipient, bytes));
    }

    /// Queues a request to replace the timer with one firing after
    /// `ms_delay` milliseconds; zero cancels the timer.
    pub fn set_timer(&mut self, ms_delay: u32)
        ensures
            final(self).queued() == old(self).queued().push(ContextRequest::SetTimer(ms_delay)),
    {
        self.requests.push(ContextRequest::SetTimer(ms_delay));
    }

    /// Hands out the queued requests, oldest first, and empties the queue.
    pub fn take_requests(&mut self) -> (r: Vec<ContextRequest>)
        ensures
            r@ == old(self).queued(),
            final(self).queued() == Seq::<ContextRequest>::empty(),
    {
        let mut r: Vec<ContextRequest> = Vec::new();
        std::mem::swap(&mut r, &mut self.requests);
        r
    }
}

/// Whether `req` sends the text `text` to `to`.
pub open spec fn sends_text(req: ContextRequest, to: MessageRecipient, text: Seq<char>) -> bool {
    match req {
        ContextRequest::Send(m) => m.to_client == to && match m.data {
            MessagePayload::Text(s) => s@ == text,
            MessagePayload::Binary(_) => false,
        },
        ContextRequest::SetTimer(_) => false,
    }
}

/// Whether `req` sends the bytes `bytes` to `to`.
pub open spec fn sends_bytes(req: ContextRequest, to: MessageRecipient, bytes: Seq<u8>) -> bool {
    match req {
        ContextRequest::Send(m) => m.to_client == to && match m.data {
            MessagePayload::Binary(b) => b@ == bytes,
            MessagePayload::Text(_) => false,
        },
        ContextRequest::SetTimer(_) => false,
    }
}

/// What the actor's driver must do with its scheduler after a timer request.
#[derive(Clone, Copy, Debug, PartialEq, Eq, Structural)]
pub struct TimerAction {
    /// Cancel the timer scheduled before.
    pub cancel_previous: bool,
    /// Schedule the timer to fire after this many milliseconds.
    pub schedule_ms: Option<u32>,
}

/// Whether a timer is pending after a request for `ms` milliseconds.
pub open spec fn pending_after_set(ms: u32) -> bool {
    ms > 0
}

/// The scheduler work for a timer request of `ms` milliseconds when a timer
/// was (`pending`) or was not pending before.
pub open spec fn timer_action_spec(pending: bool, ms: u32) -> TimerAction {
    TimerAction { cancel_previous: pending, schedule_ms: if ms > 0 { Some(ms) } else { None } }
}

/// Whether a firing of the timer reaches the service: only while a timer
/// is pending. No timer is pending after a firing.
pub open spec fn fire_reaches_service(pending: bool) -> bool {
    pending
}

/// Hosts one service instance: calls it for each event, in order, keeps the
/// context it writes to, and tracks whether its one timer is pending.
pub struct ServiceActor<J> {
    service: J,
    context: ServiceActorContext,
    timer_pending: bool,
}

impl<J: StateroomService> ServiceActor<J> {
    /// The hosted service.
    pub closed spec fn service_spec(&self) -> J {
        self.service
    }

    /// The calls the hosted service has taken so far, oldest first.
    pub open spec fn seen(&self) -> Seq<ServiceCall> {
        self.service_spec().received()
    }

    pub closed spec fn timer_pending_spec(&self) -> bool {
        self.timer_pending
    }

    pub closed spec fn context_spec(&self) -> ServiceActorContext {
        self.context
    }

    /// An actor hosting `service`, with no timer pending and nothing queued.
    pub fn new(service: J) -> (r: Self)
        ensures
            r.service_spec() == service,
            !r.timer_pending_spec(),
            r.context_spec().queued() == Seq::<ContextRequest>::empty(),
    {
        ServiceActor { service, context: ServiceActorContext::new(), timer_pending: false }
    }

    /// The hosted service.
    pub fn service(&self) -> (r: &J)
        ensures
            *r == self.service_spec(),
    {
        &self.service
    }

    /// Delivers one event to the service through the matching operation.
    pub fn handle_event(&mut self, event: ServiceEvent)
        ensures
            final(self).seen() == old(self).seen().push(call_of(event)),
            final(self).timer_pending_spec() == old(self).timer_pending_spec(),
    {
        match event {
            ServiceEvent::Connect(c) => self.service.connect(c, &mut self.context),
            ServiceEvent::Disconnect(c) => self.service.disconnect(c, &mut self.context),
            ServiceEvent::Message(c, text) => self.service.message(
                c,
                text.as_str(),
                &mut self.context,
            ),
            ServiceEvent::Binary(c, bytes) => self.service.binary(
                c,
                bytes.as_slice(),
                &mut self.context,
            ),
            ServiceEvent::Timer => self.service.timer(&mut self.context),
        }
    }

    /// Delivers events to the service one after another; the service takes
    /// exactly the matching calls, in this order.
    pub fn handle_all(&mut self, events: Vec<ServiceEvent>)
        ensures
            final(self).seen() == old(self).seen() + calls_of(events@),
            final(self).timer_pending_spec() == old(self).timer_pending_spec(),
    {
        let ghost all = events@;
        let mut rest = events;
        let ghost start = self.seen();
        let ghost done: Seq<ServiceEvent> = Seq::empty();
        while rest.len() > 0
            invariant
                self.timer_pending_spec() == old(self).timer_pending_spec(),
                start == old(self).seen(),
                done + rest@ == all,
                self.seen() == start + calls_of(done),
            decreases rest@.len(),
        {
            let ghost before = rest@;
            let ev = rest.remove(0);
            proof {
                assert(before =~= seq![ev] + rest@);
                assert(done.push(ev) + rest@ =~= all);
                assert(calls_of(done.push(ev)) =~= calls_of(done).push(call_of(ev)));
            }
            self.handle_event(ev);
            proof {
                done = done.push(ev);
            }
        }
        assert(done =~= all);
    }

    /// Handles a timer request: the timer pending before is cancelled, and a
    /// new one is scheduled unless `ms_delay` is zero.
    pub fn set_timer(&mut self, ms_delay: u32) -> (r: TimerAction)
        ensures
            r == timer_action_spec(old(self).timer_pending_spec(), ms_delay),
            final(self).timer_pending_spec() == pending_after_set(ms_delay),
            final(self).seen() == old(self).seen(),
    {
        let cancel = self.timer_pending;
        if ms_delay > 0 {
            self.timer_pending = true;
            TimerAction { cancel_previous: cancel, schedule_ms: Some(ms_delay) }
        } else {
            self.timer_pending = false;
            TimerAction { cancel_previous: cancel, schedule_ms: None }
        }
    }

    /// Handles the firing of the scheduled timer: the service's `timer` is
    /// called when a timer was pending, and none is pending after.
    pub fn timer_finished(&mut self) -> (called: bool)
        ensures
            called == fire_reaches_service(old(self).timer_pending_spec()),
            !final(self).timer_pending_spec(),
            final(self).seen() == if called {
                old(self).seen().push(ServiceCall::Timer)
            } else {
                old(self).seen()
            },
    {
        if self.timer_pending {
            self.timer_pending = false;
            self.handle_event(ServiceEvent::Timer);
            true
        } else {
            false
        }
    }

    /// Hands out what the service asked of its context, oldest first.
    pub fn take_requests(&mut self) -> (r: Vec<ContextRequest>)
        ensures
            r@ == old(self).context_spec().queued(),
            final(self).context_spec().queued() == Seq::<ContextRequest>::empty(),
            final(self).seen() == old(self).seen(),
            final(self).timer_pending_spec() == old(self).timer_pending_spec(),
    {
        self.context.take_requests()
    }
}

} // verus!
