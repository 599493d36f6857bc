//! Change notifiers: the life of one subscription to the change events of a
//! resource domain, and of the handler that the subscription owns.
//!
//! The notifier decides and the caller acts. It says what is to be handed to
//! the system at registration, whether a delivered event reaches the handler,
//! which subscription handle is to be cancelled, and when the handler may be
//! freed. The handler is in one place at any time: at home in the notifier,
//! lent out for one invocation, or given up.

use vstd::prelude::*;
use core::marker::PhantomData;
use crate::Error;
use crate::NO_ERROR;

verus! {

/// The kind of a change event.
#[derive(Clone, Copy, Debug, PartialEq, Eq, Structural)]
pub enum NotificationType {
    /// A property of an instance changed.
    Parameter,
    /// An instance was added.
    AddInstance,
    /// An instance was removed.
    DeleteInstance,
    /// The event that the system may send once at registration.
    Initial,
}

impl NotificationType {
    /// The kind that a native number names, if it names one.
    pub open spec fn of_native(code: u32) -> Option<NotificationType> {
        if code == 0 {
            Some(NotificationType::Parameter)
        } else if code == 1 {
            Some(NotificationType::AddInstance)
        } else if code == 2 {
            Some(NotificationType::DeleteInstance)
        } else if code == 3 {
            Some(NotificationType::Initial)
        } else {
            None
        }
    }

    /// The native number of a kind.
    pub open spec fn native(self) -> u32 {
        match self {
            NotificationType::Parameter => 0,
            NotificationType::AddInstance => 1,
            NotificationType::DeleteInstance => 2,
            NotificationType::Initial => 3,
        }
    }

    /// Reads the kind from the number that the system passes with an event.
    pub fn from_native(code: u32) -> (kind: Option<NotificationType>)
        ensures
            kind == Self::of_native(code),
    {
        if code == 0 {
            Some(NotificationType::Parameter)
        } else if code == 1 {
            Some(NotificationType::AddInstance)
        } else if code == 2 {
            Some(NotificationType::DeleteInstance)
        } else if code == 3 {
            Some(NotificationType::Initial)
        } else {
            None
        }
    }

    /// The number by which the system knows this kind.
    pub fn to_native(self) -> (code: u32)
        ensures
            code == self.native(),
    {
        match self {
            NotificationType::Parameter => 0,
            NotificationType::AddInstance => 1,
            NotificationType::DeleteInstance => 2,
            NotificationType::Initial => 3,
        }
    }
}

/// Where a subscription stands.
#[derive(Clone, Copy, Debug, PartialEq, Eq, Structural)]
pub enum Phase {
    /// The outcome of the registration call is not known yet.
    Unregistered,
    /// The system delivers events under the subscription handle.
    Registered,
    /// The registration failed or was cancelled. No step leads on from here.
    Cancelled,
}

/// Where the handler is.
pub enum HandlerSlot<H> {
    /// At home: the notifier owns it.
    Owned(H),
    /// Lent out for one invocation that has not come back yet.
    Lent,
    /// Given up to the caller, to be freed.
    Released,
}

/// What is handed to the system's registration call.
#[derive(Clone, Copy, Debug, PartialEq, Eq, Structural)]
pub struct Registration {
    /// The address family whose events are asked for; 0 asks for all.
    pub family: u16,
    /// Whether an initial event is asked for.
    pub initial_notification: bool,
}

/// A registration that did not come about: why, and the handler if it was
/// at home, to be freed at once.
#[derive(Debug, PartialEq, Eq)]
pub struct Rejected<H> {
    pub error: Error,
    pub handler: Option<H>,
}

/// One invocation to make: the handler, lent, and what it is called with.
#[derive(Debug, PartialEq, Eq)]
pub struct Delivery<H, R> {
    pub handler: H,
    pub kind: NotificationType,
    pub row: R,
}

/// What a notifier is: the family it subscribes to, its phase, the
/// subscription handle that the system gave (null before it gave one), and
/// the place of the handler.
pub struct Subscription<H> {
    pub family: u16,
    pub phase: Phase,
    pub handle: usize,
    pub slot: HandlerSlot<H>,
}

impl<H> Subscription<H> {
    /// A subscription before registration, its handler at home.
    pub open spec fn initial(family: u16, handler: H) -> Subscription<H> {
        Subscription {
            family,
            phase: Phase::Unregistered,
            handle: 0,
            slot: HandlerSlot::Owned(handler),
        }
    }

    /// The subscription with another handle.
    pub open spec fn with_handle(self, handle: usize) -> Subscription<H> {
        Subscription { family: self.family, phase: self.phase, handle, slot: self.slot }
    }

    /// The subscription in another phase.
    pub open spec fn with_phase(self, phase: Phase) -> Subscription<H> {
        Subscription { family: self.family, phase, handle: self.handle, slot: self.slot }
    }

    /// The subscription with the handler in another place.
    pub open spec fn with_slot(self, slot: HandlerSlot<H>) -> Subscription<H> {
        Subscription { family: self.family, phase: self.phase, handle: self.handle, slot }
    }

    /// The handler, if it is at home.
    pub open spec fn owned(self) -> Option<H> {
        match self.slot {
            HandlerSlot::Owned(handler) => Some(handler),
            _ => None,
        }
    }

    /// The subscription after the outcome of the registration call.
    ///
    /// Only an unregistered subscription takes an outcome. On success it is
    /// registered under the handle. On failure it is cancelled and a handler
    /// at home is given up.
    pub open spec fn after_register(self, status: u32, handle: usize) -> Subscription<H> {
        if self.phase != Phase::Unregistered {
            self
        } else if status == NO_ERROR {
            self.with_phase(Phase::Registered).with_handle(handle)
        } else if self.slot is Owned {
            self.with_phase(Phase::Cancelled).with_slot(HandlerSlot::Released)
        } else {
            self.with_phase(Phase::Cancelled)
        }
    }

    /// What the outcome of the registration call comes to.
    pub open spec fn register_result(self, status: u32) -> Result<(), Rejected<H>> {
        if self.phase != Phase::Unregistered {
            Err(Rejected { error: Error::InvalidInternalState, handler: None })
        } else if status == NO_ERROR {
            Ok(())
        } else {
            Err(Rejected { error: Error::OsStatus(status), handler: self.owned() })
        }
    }

    /// The invocation that a delivered event leads to: one, if the event has
    /// a payload and the handler is at home.
    pub open spec fn delivery<R>(self, kind: NotificationType, row: Option<R>) -> Option<
        Delivery<H, R>,
    > {
        match (row, self.slot) {
            (Some(payload), HandlerSlot::Owned(handler)) => Some(
                Delivery { handler, kind, row: payload },
            ),
            _ => None,
        }
    }

    /// The subscription after the start of a delivery: the handler lent, if
    /// an invocation is due.
    pub open spec fn after_begin<R>(self, row: Option<R>) -> Subscription<H> {
        if row is Some && self.slot is Owned {
            self.with_slot(HandlerSlot::Lent)
        } else {
            self
        }
    }

    /// The subscription after an invocation has come back: the handler at
    /// home again, if it was lent.
    pub open spec fn after_end(self, handler: H) -> Subscription<H> {
        if self.slot is Lent {
            self.with_slot(HandlerSlot::Owned(handler))
        } else {
            self
        }
    }

    /// The handler that is handed back to the caller because none was lent.
    pub open spec fn unexpected(self, handler: H) -> Option<H> {
        if self.slot is Lent {
            None
        } else {
            Some(handler)
        }
    }

    /// The subscription handle that a cancellation has to cancel: that of a
    /// registered subscription, unless it is null.
    pub open spec fn to_cancel(self) -> Option<usize> {
        if self.phase == Phase::Registered && self.handle != 0 {
            Some(self.handle)
        } else {
            None
        }
    }

    /// The subscription after a cancellation.
    pub open spec fn after_cancel(self) -> Subscription<H> {
        self.with_phase(Phase::Cancelled)
    }

    /// The handler that a release gives up: that of a cancelled
    /// subscription, if it is at home.
    pub open spec fn to_free(self) -> Option<H> {
        if self.phase == Phase::Cancelled {
            self.owned()
        } else {
            None
        }
    }

    /// The subscription after a release.
    pub open spec fn after_release(self) -> Subscription<H> {
        if self.phase == Phase::Cancelled && self.slot is Owned {
            self.with_slot(HandlerSlot::Released)
        } else {
            self
        }
    }
}

/// One subscription to the change events of the resource domain whose rows
/// are `R`, with a handler `H` that it owns from its creation until it gives
/// the handler up.
pub struct ChangeNotifier<H, R> {
    family: u16,
    phase: Phase,
    handle: usize,
    slot: HandlerSlot<H>,
    rows: PhantomData<R>,
}

impl<H, R> ChangeNotifier<H, R> {
    /// The notifier as a value.
    pub closed spec fn view(&self) -> Subscription<H> {
        Subscription {
            family: self.family,
            phase: self.phase,
            handle: self.handle,
            slot: self.slot,
        }
    }

    /// An unregistered notifier for the events of one address family, or of
    /// all with family 0. It owns the handler from here on.
    pub fn with_family(family: u16, handler: H) -> (notifier: Self)
        ensures
            notifier@ == Subscription::initial(family, handler),
    {
        ChangeNotifier {
            family,
            phase: Phase::Unregistered,
            handle: 0,
            slot: HandlerSlot::Owned(handler),
            rows: PhantomData,
        }
    }

    /// Where the subscription stands.
    pub fn phase(&self) -> (phase: Phase)
        ensures
            phase == self@.phase,
    {
        self.phase
    }

    /// What to hand to the system's registration call: the family that the
    /// notifier was made for, and no initial event.
    pub fn registration(&self) -> (request: Registration)
        ensures
            request == (Registration { family: self@.family, initial_notification: false }),
    {
        Registration { family: self.family, initial_notification: false }
    }

    /// Records how the registration call ended: the status that the system
    /// returned and the subscription handle that it gave.
    ///
    /// On success the notifier is registered. On failure it is cancelled for
    /// good and hands its handler back, to be freed at once. A notifier that
    /// is not unregistered refuses the outcome and stays as it is.
    pub fn register(&mut self, status: u32, handle: usize) -> (res: Result<(), Rejected<H>>)
        ensures
            final(self)@ == old(self)@.after_register(status, handle),
            res == old(self)@.register_result(status),
    {
        match self.phase {
            Phase::Unregistered => {
                if status == NO_ERROR {
                    self.phase = Phase::Registered;
                    self.handle = handle;
                    Ok(())
                } else {
                    self.phase = Phase::Cancelled;
                    let handler = self.take_owned();
                    Err(Rejected { error: Error::OsStatus(status), handler })
                }
            },
            _ => Err(Rejected { error: Error::InvalidInternalState, handler: None }),
        }
    }

    /// Takes the handler out if it is at home, and marks it given up.
    fn take_owned(&mut self) -> (handler: Option<H>)
        ensures
            handler == old(self)@.owned(),
            final(self)@ == (if old(self)@.slot is Owned {
                old(self)@.with_slot(HandlerSlot::Released)
            } else {
                old(self)@
            }),
    {
        let mut slot = HandlerSlot::Released;
        core::mem::swap(&mut self.slot, &mut slot);
        match slot {
            HandlerSlot::Owned(handler) => Some(handler),
            other => {
                self.slot = other;
                None
            },
        }
    }

    /// Starts the delivery of one event: its kind and a copy of the changed
    /// record, or no record where the system sent none.
    ///
    /// An event with a record, arriving while the handler is at home, leads
    /// to one invocation: the handler is lent out with the kind and the
    /// record, and `end_delivery` takes it back. Any other event is passed
    /// over and changes nothing.
    pub fn begin_delivery(&mut self, kind: NotificationType, row: Option<R>) -> (res: Option<
        Delivery<H, R>,
    >)
        ensures
            res == old(self)@.delivery(kind, row),
            final(self)@ == old(self)@.after_begin(row),
    {
        match row {
            Some(payload) => {
                let mut slot = HandlerSlot::Lent;
                core::mem::swap(&mut self.slot, &mut slot);
                match slot {
                    HandlerSlot::Owned(handler) => Some(Delivery { handler, kind, row: payload }),
                    other => {
                        self.slot = other;
                        None
                    },
                }
            },
            None => None,
        }
    }

    /// Starts the delivery of one event as the system passes it: the copy of
    /// the changed record, if there is one, and the native number of the
    /// event's kind. A number that names no kind is passed over; any other
    /// event is begun as `begin_delivery` says.
    pub fn callback(&mut self, row: Option<R>, ntype: u32) -> (res: Option<Delivery<H, R>>)
        ensures
            NotificationType::of_native(ntype) matches Some(kind) ==> res == old(self)@.delivery(
                kind,
                row,
            ) && final(self)@ == old(self)@.after_begin(row),
            NotificationType::of_native(ntype) is None ==> res is None && final(self)@ == old(
                self,
            )@,
    {
        match NotificationType::from_native(ntype) {
            Some(kind) => self.begin_delivery(kind, row),
            None => None,
        }
    }

    /// Ends a delivery: takes the handler back as the invocation left it,
    /// without freeing it. A handler that comes while none is lent is handed
    /// back to the caller.
    pub fn end_delivery(&mut self, handler: H) -> (res: Option<H>)
        ensures
            res == old(self)@.unexpected(handler),
            final(self)@ == old(self)@.after_end(handler),
    {
        match self.slot {
            HandlerSlot::Lent => {
                self.slot = HandlerSlot::Owned(handler);
                None
            },
            _ => Some(handler),
        }
    }

    /// Cancels the subscription and returns the handle that the system's
    /// cancel call is to be given, if the notifier was registered under one
    /// that is not null. The notifier is cancelled for good afterwards.
    pub fn cancel(&mut self) -> (res: Option<usize>)
        ensures
            res == old(self)@.to_cancel(),
            final(self)@ == old(self)@.after_cancel(),
    {
        let res = match self.phase {
            Phase::Registered => {
                if self.handle != 0 {
                    Some(self.handle)
                } else {
                    None
                }
            },
            _ => None,
        };
        self.phase = Phase::Cancelled;
        res
    }

    /// Gives the handler up to be freed. Only a cancelled notifier whose
    /// handler is at home does so, and only once: before cancellation, during
    /// an invocation and after the handler has left, nothing is returned and
    /// nothing changes.
    pub fn release(&mut self) -> (res: Option<H>)
        ensures
            res == old(self)@.to_free(),
            final(self)@ == old(self)@.after_release(),
    {
        match self.phase {
            Phase::Cancelled => self.take_owned(),
            _ => None,
        }
    }
}

/// One step in the use of a notifier.
pub enum Operation<H, R> {
    /// The registration call ended with this status and this handle.
    Register { status: u32, handle: usize },
    /// The system delivered an event of this kind, with or without a record.
    BeginDelivery { kind: NotificationType, row: Option<R> },
    /// An invocation came back and left the handler like this.
    EndDelivery { handler: H },
    /// The subscription is cancelled.
    Cancel,
    /// The handler is asked for, to be freed.
    Release,
}

/// One event with its whole delivery: its kind, its payload if it has one,
/// and the handler as the invocation leaves it.
pub struct Notification<H, R> {
    pub kind: NotificationType,
    pub row: Option<R>,
    pub after: H,
}

/// How many of the events have a payload.
pub open spec fn payloads<H, R>(events: Seq<Notification<H, R>>) -> nat
    decreases events.len(),
{
    if events.len() == 0 {
        0
    } else {
        (if events.first().row is Some { 1nat } else { 0nat }) + payloads(events.drop_first())
    }
}

/// The handler after all the events: as the last invocation left it, or
/// `handler` itself if no event had a payload.
pub open spec fn last_handler<H, R>(handler: H, events: Seq<Notification<H, R>>) -> H
    decreases events.len(),
{
    if events.len() == 0 {
        handler
    } else if events.first().row is Some {
        last_handler(events.first().after, events.drop_first())
    } else {
        last_handler(handler, events.drop_first())
    }
}

impl<H> Subscription<H> {
    /// The subscription after one step.
    pub open spec fn apply<R>(self, op: Operation<H, R>) -> Subscription<H> {
        match op {
            Operation::Register { status, handle } => self.after_register(status, handle),
            Operation::BeginDelivery { kind, row } => self.after_begin(row),
            Operation::EndDelivery { handler } => self.after_end(handler),
            Operation::Cancel => self.after_cancel(),
            Operation::Release => self.after_release(),
        }
    }

    /// Whether the step gives the handler up to be freed.
    pub open spec fn gives_up<R>(self, op: Operation<H, R>) -> bool {
        match op {
            Operation::Register { status, handle } => self.register_result(status) matches Err(
                rejected,
            ) && rejected.handler is Some,
            Operation::Release => self.to_free() is Some,
            _ => false,
        }
    }

    /// Whether the step leads to an invocation of the handler.
    pub open spec fn invokes<R>(self, op: Operation<H, R>) -> bool {
        match op {
            Operation::BeginDelivery { kind, row } => self.delivery(kind, row) is Some,
            _ => false,
        }
    }

    /// The subscription after the steps, one after the other.
    pub open spec fn run<R>(self, ops: Seq<Operation<H, R>>) -> Subscription<H>
        decreases ops.len(),
    {
        if ops.len() == 0 {
            self
        } else {
            self.apply(ops.first()).run(ops.drop_first())
        }
    }

    /// How many of the steps give the handler up.
    pub open spec fn given_up<R>(self, ops: Seq<Operation<H, R>>) -> nat
        decreases ops.len(),
    {
        if ops.len() == 0 {
            0
        } else {
            (if self.gives_up(ops.first()) { 1nat } else { 0nat }) + self.apply(
                ops.first(),
            ).given_up(ops.drop_first())
        }
    }

    /// How many of the steps lead to an invocation.
    pub open spec fn invoked<R>(self, ops: Seq<Operation<H, R>>) -> nat
        decreases ops.len(),
    {
        if ops.len() == 0 {
            0
        } else {
            (if self.invokes(ops.first()) { 1nat } else { 0nat }) + self.apply(
                ops.first(),
            ).invoked(ops.drop_first())
        }
    }

    /// The subscription after the whole delivery of one event: begun, and
    /// ended with the handler as the invocation left it if one was made.
    pub open spec fn deliver<R>(self, event: Notification<H, R>) -> Subscription<H> {
        if self.delivery(event.kind, event.row) is Some {
            self.after_begin(event.row).after_end(event.after)
        } else {
            self.after_begin(event.row)
        }
    }

    /// The subscription after the whole delivery of each event in turn.
    pub open spec fn deliver_all<R>(self, events: Seq<Notification<H, R>>) -> Subscription<H>
        decreases events.len(),
    {
        if events.len() == 0 {
            self
        } else {
            self.deliver(events.first()).deliver_all(events.drop_first())
        }
    }

    /// How many invocations the delivery of the events makes.
    pub open spec fn invocations<R>(self, events: Seq<Notification<H, R>>) -> nat
        decreases events.len(),
    {
        if events.len() == 0 {
            0
        } else {
            (if self.delivery(events.first().kind, events.first().row) is Some {
                1nat
            } else {
                0nat
            }) + self.deliver(events.first()).invocations(events.drop_first())
        }
    }
}

/// No step leads out of the cancelled phase.
pub proof fn lemma_cancelled_is_final<H, R>(state: Subscription<H>, ops: Seq<Operation<H, R>>)
    requires
        state.phase == Phase::Cancelled,
    ensures
        state.run(ops).phase == Phase::Cancelled,
    decreases ops.len(),
{
    if ops.len() > 0 {
        lemma_cancelled_is_final(state.apply(ops.first()), ops.drop_first());
    }
}

/// Once the handler has been given up, no step brings it back, invokes it
/// or gives it up again.
pub proof fn lemma_released_is_final<H, R>(state: Subscription<H>, ops: Seq<Operation<H, R>>)
    requires
        state.slot is Released,
    ensures
        state.run(ops).slot is Released,
        state.invoked(ops) == 0,
        state.given_up(ops) == 0,
    decreases ops.len(),
{
    if ops.len() > 0 {
        lemma_released_is_final(state.apply(ops.first()), ops.drop_first());
    }
}

/// Whatever the steps and their order, the handler is given up at most
/// once.
pub proof fn lemma_given_up_at_most_once<H, R>(state: Subscription<H>, ops: Seq<Operation<H, R>>)
    ensures
        state.given_up(ops) <= 1,
    decreases ops.len(),
{
    if ops.len() > 0 {
        let next = state.apply(ops.first());
        if state.gives_up(ops.first()) {
            assert(next.slot is Released);
            lemma_released_is_final(next, ops.drop_first());
        } else {
            lemma_given_up_at_most_once(next, ops.drop_first());
        }
    }
}

/// The handler is never given up while an invocation has not come back,
/// nor while the subscription is registered; an unregistered subscription
/// gives it up only when its registration fails.
pub proof fn lemma_given_up_only_when_idle<H, R>(state: Subscription<H>, op: Operation<H, R>)
    requires
        state.gives_up(op),
    ensures
        state.slot is Owned,
        state.phase != Phase::Registered,
        state.phase == Phase::Unregistered ==> op is Register && op->status != NO_ERROR,
        state.apply(op).phase == Phase::Cancelled,
{
}

/// Events delivered one after the other to a notifier whose handler is at
/// home invoke the handler once for each event with a payload and for no
/// other, leave the subscription as it was, and leave the handler at home,
/// as the last invocation left it.
pub proof fn lemma_one_invocation_per_payload<H, R>(
    state: Subscription<H>,
    events: Seq<Notification<H, R>>,
)
    requires
        state.slot is Owned,
    ensures
        state.invocations(events) == payloads(events),
        state.deliver_all(events) == state.with_slot(
            HandlerSlot::Owned(last_handler(state.owned()->0, events)),
        ),
    decreases events.len(),
{
    if events.len() > 0 {
        let next = state.deliver(events.first());
        lemma_one_invocation_per_payload(next, events.drop_first());
    }
}

/// A notifier that is registered, receives any number of events and is
/// then dropped: the handler is invoked once for each event with a payload,
/// the cancellation names the subscription handle unless it is null, and
/// the release that follows gives up the handler as the last invocation
/// left it. Nothing is given up a second time, and no later event is
/// delivered.
pub proof fn lemma_register_deliver_drop<H, R>(
    family: u16,
    handler: H,
    handle: usize,
    events: Seq<Notification<H, R>>,
    late: Notification<H, R>,
)
    ensures
        ({
            let registered = Subscription::initial(family, handler).after_register(
                NO_ERROR,
                handle,
            );
            let delivered = registered.deliver_all(events);
            let cancelled = delivered.after_cancel();
            let released = cancelled.after_release();
            &&& Subscription::initial(family, handler).register_result(NO_ERROR) is Ok
            &&& registered.phase == Phase::Registered
            &&& registered.invocations(events) == payloads(events)
            &&& delivered.to_free() is None
            &&& delivered.to_cancel() == (if handle != 0 {
                Some(handle)
            } else {
                None
            })
            &&& cancelled.to_free() == Some(last_handler(handler, events))
            &&& released.to_free() is None
            &&& released.to_cancel() is None
            &&& released.delivery(late.kind, late.row) is None
        }),
{
    let registered = Subscription::initial(family, handler).after_register(NO_ERROR, handle);
    lemma_one_invocation_per_payload(registered, events);
}

/// A notifier that is cancelled before any event was delivered never
/// invokes its handler and gives up, once, the very handler that it was
/// made with.
pub proof fn lemma_cancel_before_any_event<H, R>(
    family: u16,
    handler: H,
    handle: usize,
    late: Notification<H, R>,
)
    ensures
        ({
            let registered = Subscription::initial(family, handler).after_register(
                NO_ERROR,
                handle,
            );
            let cancelled = registered.after_cancel();
            let released = cancelled.after_release();
            &&& registered.invocations(Seq::<Notification<H, R>>::empty()) == 0
            &&& cancelled.to_free() == Some(handler)
            &&& released.to_free() is None
            &&& released.delivery(late.kind, late.row) is None
        }),
{
}

/// A registration that fails leaves no subscription and no handler behind:
/// the handler comes back with the error, to be freed at once, and the
/// notifier invokes and gives up nothing afterwards.
pub proof fn lemma_failed_registration_owns_nothing<H, R>(
    family: u16,
    handler: H,
    status: u32,
    handle: usize,
    ops: Seq<Operation<H, R>>,
)
    requires
        status != NO_ERROR,
    ensures
        ({
            let start = Subscription::initial(family, handler);
            let failed = start.after_register(status, handle);
            &&& start.register_result(status) == Err::<(), Rejected<H>>(
                Rejected { error: Error::OsStatus(status), handler: Some(handler) },
            )
            &&& failed.phase == Phase::Cancelled
            &&& failed.to_cancel() is None
            &&& failed.invoked(ops) == 0
            &&& failed.given_up(ops) == 0
        }),
{
    let failed = Subscription::initial(family, handler).after_register(status, handle);
    lemma_released_is_final(failed, ops);
}

/// Every kind has a native number of its own that reads back as the kind.
pub proof fn lemma_native_round_trip(kind: NotificationType, code: u32)
    ensures
        NotificationType::of_native(kind.native()) == Some(kind),
        NotificationType::of_native(code) matches Some(named) ==> named.native() == code,
{
}

} // verus!
