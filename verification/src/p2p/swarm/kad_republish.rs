//! Decisions of the stream that republishes our own DHT record.
//!
//! The stream reacts to three Kademlia events (routing updated, put-record
//! succeeded, put-record failed) and to its own interval timer:
//!
//! - the first routing update triggers one republish;
//! - after a successful put the timer is (re)started with the long period,
//!   after a failed put with the short one;
//! - every tick of the timer triggers a republish.
//!
//! The waker, the timer and the clock belong to the caller, which performs
//! the [`PollStep`] that [`KadRepublishState::poll_step`] returns.

use vstd::prelude::*;

verus! {

/// Why the stream has been woken.
#[derive(Debug, Clone, Copy, PartialEq, Eq)]
pub enum WhyThisIsPolled {
    /// Nothing has happened yet.
    FirstTime,
    /// Kademlia's routing table was updated.
    RoutingUpdated,
    /// Putting our record succeeded.
    PutRecordOk,
    /// Putting our record failed.
    PutRecordError,
    /// The interval timer drives the stream.
    IntervalTriggered,
}

/// Which period a (re)started interval timer uses.
#[derive(Debug, Clone, Copy, PartialEq, Eq)]
pub enum IntervalKind {
    /// The period used after a successful put.
    AfterSuccess,
    /// The period used after a failed put.
    AfterFailure,
}

/// What the caller of `poll_next` must do.
#[derive(Debug, Clone, Copy, PartialEq, Eq)]
pub enum PollStep {
    /// Register the task's waker and report `Pending`.
    RegisterWaker,
    /// Report that a republish is due (`Ready(Some(()))`).
    Republish,
    /// Report `Pending`.
    Wait,
    /// Start a new interval timer with the given period, first tick one
    /// period from now, and poll it: a tick means a republish is due.
    StartIntervalAndPoll(IntervalKind),
    /// Poll the running interval timer: a tick means a republish is due.
    PollInterval,
}

/// The decision state of the republish stream.
pub struct KadRepublishState {
    why_this_has_been_polled: Option<WhyThisIsPolled>,
    is_routing_updated_first_time: bool,
    interval: Option<IntervalKind>,
}

impl KadRepublishState {
    /// The reason recorded by the last event or poll.
    pub closed spec fn why(self) -> Option<WhyThisIsPolled> {
        self.why_this_has_been_polled
    }

    /// Whether the first routing update has yet to trigger its republish.
    pub closed spec fn routing_first_time(self) -> bool {
        self.is_routing_updated_first_time
    }

    /// The period of the running interval timer, if one was started.
    pub closed spec fn interval_kind(self) -> Option<IntervalKind> {
        self.interval
    }

    /// A reason is always recorded, and the stream only relies on its timer
    /// once one is running.
    pub open spec fn wf(self) -> bool {
        &&& self.why() is Some
        &&& self.why() == Some(WhyThisIsPolled::IntervalTriggered) ==> self.interval_kind() is Some
    }

    /// The state of a fresh stream.
    pub closed spec fn spec_new() -> Self {
        KadRepublishState {
            why_this_has_been_polled: Some(WhyThisIsPolled::FirstTime),
            is_routing_updated_first_time: true,
            interval: None,
        }
    }

    /// A fresh stream: nothing has happened, no timer runs.
    pub fn new() -> (s: Self)
        ensures
            s == Self::spec_new(),
            s.wf(),
            s.why() == Some(WhyThisIsPolled::FirstTime),
            s.routing_first_time(),
            s.interval_kind() is None,
    {
        KadRepublishState {
            why_this_has_been_polled: Some(WhyThisIsPolled::FirstTime),
            is_routing_updated_first_time: true,
            interval: None,
        }
    }

    /// Whether the first routing update has yet to trigger its republish.
    pub fn is_routing_updated_first_time(&self) -> (b: bool)
        ensures
            b == self.routing_first_time(),
    {
        self.is_routing_updated_first_time
    }

    /// Records a Kademlia event; returns whether the task must be woken.
    ///
    /// A routing update counts only while the first one has not been acted
    /// on; put results always count; other reasons are ignored.
    pub fn send_event(&mut self, event: WhyThisIsPolled) -> (wake: bool)
        requires
            old(self).wf(),
        ensures
            final(self).wf(),
            (*final(self), wake) == spec_send_event(*old(self), event),
    {
        match event {
            WhyThisIsPolled::RoutingUpdated => {
                if self.is_routing_updated_first_time {
                    self.why_this_has_been_polled = Some(WhyThisIsPolled::RoutingUpdated);
                    true
                } else {
                    false
                }
            },
            WhyThisIsPolled::PutRecordOk => {
                self.why_this_has_been_polled = Some(WhyThisIsPolled::PutRecordOk);
                true
            },
            WhyThisIsPolled::PutRecordError => {
                self.why_this_has_been_polled = Some(WhyThisIsPolled::PutRecordError);
                true
            },
            _ => false,
        }
    }

    /// Decides what a poll of the stream does, and moves to the next state.
    pub fn poll_step(&mut self) -> (step: PollStep)
        requires
            old(self).wf(),
        ensures
            final(self).wf(),
            (*final(self), step) == spec_poll_step(*old(self)),
            old(self).why() == Some(WhyThisIsPolled::IntervalTriggered) ==> step
                == PollStep::PollInterval && *final(self) == *old(self),
    {
        match self.why_this_has_been_polled {
            Some(WhyThisIsPolled::FirstTime) => PollStep::RegisterWaker,
            Some(WhyThisIsPolled::RoutingUpdated) => {
                if self.is_routing_updated_first_time {
                    self.is_routing_updated_first_time = false;
                    PollStep::Republish
                } else {
                    PollStep::Wait
                }
            },
            Some(WhyThisIsPolled::PutRecordOk) => {
                self.why_this_has_been_polled = Some(WhyThisIsPolled::IntervalTriggered);
                self.interval = Some(IntervalKind::AfterSuccess);
                PollStep::StartIntervalAndPoll(IntervalKind::AfterSuccess)
            },
            Some(WhyThisIsPolled::PutRecordError) => {
                self.why_this_has_been_polled = Some(WhyThisIsPolled::IntervalTriggered);
                self.interval = Some(IntervalKind::AfterFailure);
                PollStep::StartIntervalAndPoll(IntervalKind::AfterFailure)
            },
            Some(WhyThisIsPolled::IntervalTriggered) => PollStep::PollInterval,
            None => PollStep::Wait,
        }
    }
}

/// The state after recording `event`, and whether the task must be woken.
pub open spec fn spec_send_event(s: KadRepublishState, event: WhyThisIsPolled) -> (
    KadRepublishState,
    bool,
) {
    match event {
        WhyThisIsPolled::RoutingUpdated => if s.routing_first_time() {
            (s.with_why(WhyThisIsPolled::RoutingUpdated), true)
        } else {
            (s, false)
        },
        WhyThisIsPolled::PutRecordOk => (s.with_why(WhyThisIsPolled::PutRecordOk), true),
        WhyThisIsPolled::PutRecordError => (s.with_why(WhyThisIsPolled::PutRecordError), true),
        _ => (s, false),
    }
}

/// The state after a poll, and what the poll does.
pub open spec fn spec_poll_step(s: KadRepublishState) -> (KadRepublishState, PollStep) {
    match s.why() {
        Some(WhyThisIsPolled::FirstTime) => (s, PollStep::RegisterWaker),
        Some(WhyThisIsPolled::RoutingUpdated) => if s.routing_first_time() {
            (s.with_routing_done(), PollStep::Republish)
        } else {
            (s, PollStep::Wait)
        },
        Some(WhyThisIsPolled::PutRecordOk) => (
            s.with_interval(IntervalKind::AfterSuccess),
            PollStep::StartIntervalAndPoll(IntervalKind::AfterSuccess),
        ),
        Some(WhyThisIsPolled::PutRecordError) => (
            s.with_interval(IntervalKind::AfterFailure),
            PollStep::StartIntervalAndPoll(IntervalKind::AfterFailure),
        ),
        Some(WhyThisIsPolled::IntervalTriggered) => (s, PollStep::PollInterval),
        None => (s, PollStep::Wait),
    }
}

impl KadRepublishState {
    /// This state with `why` recorded as the reason.
    pub closed spec fn with_why(self, why: WhyThisIsPolled) -> Self {
        KadRepublishState { why_this_has_been_polled: Some(why), ..self }
    }

    /// This state with the first routing update acted on.
    pub closed spec fn with_routing_done(self) -> Self {
        KadRepublishState { is_routing_updated_first_time: false, ..self }
    }

    /// This state driven by a fresh timer of period `kind`.
    pub closed spec fn with_interval(self, kind: IntervalKind) -> Self {
        KadRepublishState {
            why_this_has_been_polled: Some(WhyThisIsPolled::IntervalTriggered),
            interval: Some(kind),
            ..self
        }
    }

    /// What the state-changing helpers change, and what they keep.
    pub broadcast proof fn lemma_with(self, why: WhyThisIsPolled, kind: IntervalKind)
        ensures
            #[trigger] self.with_why(why).why() == Some(why),
            self.with_why(why).routing_first_time() == self.routing_first_time(),
            self.with_why(why).interval_kind() == self.interval_kind(),
            #[trigger] self.with_interval(kind).why() == Some(WhyThisIsPolled::IntervalTriggered),
            self.with_interval(kind).interval_kind() == Some(kind),
            self.with_interval(kind).routing_first_time() == self.routing_first_time(),
    {
    }

    /// What acting on the first routing update changes, and what it keeps.
    pub broadcast proof fn lemma_with_routing_done(self)
        ensures
            #[trigger] self.with_routing_done().routing_first_time() == false,
            self.with_routing_done().why() == self.why(),
            self.with_routing_done().interval_kind() == self.interval_kind(),
    {
    }
}

/// Law: the first routing update causes exactly one republish. After a
/// fresh stream records a routing update, the next poll republishes, and
/// from then on routing updates neither wake the task nor change the state.
pub proof fn lemma_first_routing_update_republishes_once(later: KadRepublishState)
    requires
        later.wf(),
        !later.routing_first_time(),
    ensures
        ({
            let fresh = KadRepublishState::spec_new();
            let (s1, woke) = spec_send_event(fresh, WhyThisIsPolled::RoutingUpdated);
            let (s2, step) = spec_poll_step(s1);
            &&& woke
            &&& step == PollStep::Republish
            &&& !s2.routing_first_time()
        }),
        spec_send_event(later, WhyThisIsPolled::RoutingUpdated) == (later, false),
{
}

/// Law: no event and no poll makes routing updates count again once the
/// first one has been acted on, and every step keeps the state well formed.
pub proof fn lemma_steps_keep_invariants(s: KadRepublishState, event: WhyThisIsPolled)
    requires
        s.wf(),
    ensures
        spec_send_event(s, event).0.wf(),
        spec_poll_step(s).0.wf(),
        !s.routing_first_time() ==> !spec_send_event(s, event).0.routing_first_time(),
        !s.routing_first_time() ==> !spec_poll_step(s).0.routing_first_time(),
{
    s.lemma_with(event, IntervalKind::AfterSuccess);
    s.lemma_with(event, IntervalKind::AfterFailure);
    s.lemma_with_routing_done();
}

/// Law: a put result followed by a poll leaves the stream driven by a timer
/// whose period matches the result.
pub proof fn lemma_put_result_sets_timer(s: KadRepublishState)
    requires
        s.wf(),
    ensures
        ({
            let (a, _) = spec_send_event(s, WhyThisIsPolled::PutRecordOk);
            let (b, step) = spec_poll_step(a);
            step == PollStep::StartIntervalAndPoll(IntervalKind::AfterSuccess) && b.interval_kind()
                == Some(IntervalKind::AfterSuccess) && b.why() == Some(
                WhyThisIsPolled::IntervalTriggered,
            )
        }),
        ({
            let (a, _) = spec_send_event(s, WhyThisIsPolled::PutRecordError);
            let (b, step) = spec_poll_step(a);
            step == PollStep::StartIntervalAndPoll(IntervalKind::AfterFailure) && b.interval_kind()
                == Some(IntervalKind::AfterFailure) && b.why() == Some(
                WhyThisIsPolled::IntervalTriggered,
            )
        }),
{
    s.lemma_with(WhyThisIsPolled::PutRecordOk, IntervalKind::AfterSuccess);
    s.lemma_with(WhyThisIsPolled::PutRecordError, IntervalKind::AfterFailure);
    s.with_why(WhyThisIsPolled::PutRecordOk).lemma_with(
        WhyThisIsPolled::PutRecordOk,
        IntervalKind::AfterSuccess,
    );
    s.with_why(WhyThisIsPolled::PutRecordError).lemma_with(
        WhyThisIsPolled::PutRecordError,
        IntervalKind::AfterFailure,
    );
}

/// Law: once a timer drives the stream, whichever period it has, a poll
/// polls that timer (each tick republishes) and leaves the state unchanged.
pub proof fn lemma_timer_driven_polls_poll_the_timer(s: KadRepublishState)
    requires
        s.wf(),
        s.why() == Some(WhyThisIsPolled::IntervalTriggered),
    ensures
        spec_poll_step(s) == (s, PollStep::PollInterval),
        s.interval_kind() is Some,
{
}

/// Every op among `ops` is a poll.
pub open spec fn only_polls(ops: Seq<KadOp>) -> bool {
    forall|i: int| 0 <= i < ops.len() ==> #[trigger] ops[i] == KadOp::Poll
}

/// Law: after a put result, the first poll starts the timer of the matching
/// period (the short one after a failure) and every later poll, as long as
/// no event comes, polls that timer: the record keeps being republished on
/// every tick.
pub proof fn lemma_put_result_then_timer_drives(
    s: KadRepublishState,
    failed: bool,
    ops: Seq<KadOp>,
)
    requires
        s.wf(),
        ops.len() > 0,
        only_polls(ops),
    ensures
        ({
            let event = if failed {
                WhyThisIsPolled::PutRecordError
            } else {
                WhyThisIsPolled::PutRecordOk
            };
            let kind = if failed {
                IntervalKind::AfterFailure
            } else {
                IntervalKind::AfterSuccess
            };
            let trace = spec_poll_trace(spec_send_event(s, event).0, ops);
            &&& trace.len() == ops.len()
            &&& trace[0] == PollStep::StartIntervalAndPoll(kind)
            &&& forall|i: int| 1 <= i < trace.len() ==> #[trigger] trace[i] == PollStep::PollInterval
        }),
{
    let event = if failed {
        WhyThisIsPolled::PutRecordError
    } else {
        WhyThisIsPolled::PutRecordOk
    };
    let kind = if failed {
        IntervalKind::AfterFailure
    } else {
        IntervalKind::AfterSuccess
    };
    lemma_put_result_sets_timer(s);
    let a = spec_send_event(s, event).0;
    let b = spec_poll_step(a).0;
    assert(ops[0] == KadOp::Poll);
    lemma_only_polls_rest(ops);
    lemma_timer_trace(b, ops.drop_first());
    assert(spec_poll_trace(a, ops) == seq![PollStep::StartIntervalAndPoll(kind)] + spec_poll_trace(
        b,
        ops.drop_first(),
    ));
}

proof fn lemma_only_polls_rest(ops: Seq<KadOp>)
    requires
        ops.len() > 0,
        only_polls(ops),
    ensures
        only_polls(ops.drop_first()),
{
    assert forall|i: int| 0 <= i < ops.drop_first().len() implies #[trigger] ops.drop_first()[i]
        == KadOp::Poll by {
        assert(ops.drop_first()[i] == ops[i + 1]);
    }
}

/// While a timer drives the stream and only polls come, every poll polls it.
proof fn lemma_timer_trace(s: KadRepublishState, ops: Seq<KadOp>)
    requires
        s.wf(),
        s.why() == Some(WhyThisIsPolled::IntervalTriggered),
        only_polls(ops),
    ensures
        spec_poll_trace(s, ops).len() == ops.len(),
        forall|i: int|
            0 <= i < spec_poll_trace(s, ops).len() ==> #[trigger] spec_poll_trace(s, ops)[i]
                == PollStep::PollInterval,
    decreases ops.len(),
{
    if ops.len() > 0 {
        assert(ops[0] == KadOp::Poll);
        lemma_only_polls_rest(ops);
        lemma_timer_trace(s, ops.drop_first());
        let rest = spec_poll_trace(s, ops.drop_first());
        assert(spec_poll_trace(s, ops) == seq![PollStep::PollInterval] + rest);
    }
}

/// One thing that happens to the republish stream: a Kademlia event, or a
/// poll.
#[derive(Debug, Clone, Copy, PartialEq, Eq)]
pub enum KadOp {
    /// An event is recorded.
    Event(WhyThisIsPolled),
    /// The stream is polled.
    Poll,
}

/// What each poll among `ops` does, starting from `s`, in order.
pub open spec fn spec_poll_trace(s: KadRepublishState, ops: Seq<KadOp>) -> Seq<PollStep>
    decreases ops.len(),
{
    if ops.len() == 0 {
        Seq::empty()
    } else {
        match ops[0] {
            KadOp::Event(e) => spec_poll_trace(spec_send_event(s, e).0, ops.drop_first()),
            KadOp::Poll => {
                let (next, step) = spec_poll_step(s);
                seq![step] + spec_poll_trace(next, ops.drop_first())
            },
        }
    }
}

/// The polls among `ops` before its first event.
pub open spec fn polls_before_first_event(ops: Seq<KadOp>) -> nat
    decreases ops.len(),
{
    if ops.len() == 0 {
        0
    } else {
        match ops[0] {
            KadOp::Poll => 1 + polls_before_first_event(ops.drop_first()),
            KadOp::Event(_) => 0,
        }
    }
}

/// Every event among `ops` is a routing update.
pub open spec fn only_routing_updates(ops: Seq<KadOp>) -> bool {
    forall|i: int| 0 <= i < ops.len() ==> (#[trigger] ops[i] matches KadOp::Event(e) ==> e
        == WhyThisIsPolled::RoutingUpdated)
}

proof fn lemma_only_routing_rest(ops: Seq<KadOp>)
    requires
        ops.len() > 0,
        only_routing_updates(ops),
    ensures
        only_routing_updates(ops.drop_first()),
{
    assert forall|i: int| 0 <= i < ops.drop_first().len() implies (#[trigger] ops.drop_first()[i] matches KadOp::Event(e)
        ==> e == WhyThisIsPolled::RoutingUpdated) by {
        assert(ops.drop_first()[i] == ops[i + 1]);
    }
}

/// After the republish: every poll waits.
proof fn lemma_trace_after_republish(s: KadRepublishState, ops: Seq<KadOp>)
    requires
        s.why() == Some(WhyThisIsPolled::RoutingUpdated),
        !s.routing_first_time(),
        only_routing_updates(ops),
    ensures
        forall|i: int| 0 <= i < spec_poll_trace(s, ops).len() ==> #[trigger] spec_poll_trace(s, ops)[i]
            == PollStep::Wait,
    decreases ops.len(),
{
    if ops.len() > 0 {
        lemma_only_routing_rest(ops);
        lemma_trace_after_republish(s, ops.drop_first());
        assert(ops[0] matches KadOp::Event(e) ==> e == WhyThisIsPolled::RoutingUpdated);
    }
}

/// After a routing update is recorded, before the poll that acts on it.
proof fn lemma_trace_after_update(s: KadRepublishState, ops: Seq<KadOp>)
    requires
        s.why() == Some(WhyThisIsPolled::RoutingUpdated),
        s.routing_first_time(),
        only_routing_updates(ops),
    ensures
        spec_poll_trace(s, ops).len() > 0 ==> spec_poll_trace(s, ops)[0] == PollStep::Republish,
        forall|i: int| 0 < i < spec_poll_trace(s, ops).len() ==> #[trigger] spec_poll_trace(s, ops)[i]
            == PollStep::Wait,
    decreases ops.len(),
{
    s.lemma_with(WhyThisIsPolled::RoutingUpdated, IntervalKind::AfterSuccess);
    s.lemma_with_routing_done();
    if ops.len() > 0 {
        lemma_only_routing_rest(ops);
        assert(ops[0] matches KadOp::Event(e) ==> e == WhyThisIsPolled::RoutingUpdated);
        match ops[0] {
            KadOp::Event(e) => {
                assert(s.with_why(WhyThisIsPolled::RoutingUpdated) == s);
                lemma_trace_after_update(s, ops.drop_first());
            },
            KadOp::Poll => {
                lemma_trace_after_republish(s.with_routing_done(), ops.drop_first());
                let rest = spec_poll_trace(s.with_routing_done(), ops.drop_first());
                assert(spec_poll_trace(s, ops) == seq![PollStep::Republish] + rest);
                assert forall|i: int| 0 < i < spec_poll_trace(s, ops).len() implies #[trigger] spec_poll_trace(s, ops)[i]
                    == PollStep::Wait by {
                    assert(spec_poll_trace(s, ops)[i] == rest[i - 1]);
                }
            },
        }
    }
}

/// From a fresh stream: the polls before the first event only register the
/// waker.
proof fn lemma_trace_from_fresh(ops: Seq<KadOp>)
    requires
        only_routing_updates(ops),
    ensures
        ({
            let t = spec_poll_trace(KadRepublishState::spec_new(), ops);
            let m = polls_before_first_event(ops) as int;
            &&& m <= t.len()
            &&& forall|i: int| 0 <= i < m ==> #[trigger] t[i] == PollStep::RegisterWaker
            &&& m < t.len() ==> t[m] == PollStep::Republish
            &&& forall|i: int| m < i < t.len() ==> #[trigger] t[i] == PollStep::Wait
        }),
    decreases ops.len(),
{
    let fresh = KadRepublishState::spec_new();
    if ops.len() > 0 {
        lemma_only_routing_rest(ops);
        assert(ops[0] matches KadOp::Event(e) ==> e == WhyThisIsPolled::RoutingUpdated);
        match ops[0] {
            KadOp::Event(e) => {
                let s = fresh.with_why(WhyThisIsPolled::RoutingUpdated);
                fresh.lemma_with(WhyThisIsPolled::RoutingUpdated, IntervalKind::AfterSuccess);
                lemma_trace_after_update(s, ops.drop_first());
                assert(spec_poll_trace(fresh, ops) == spec_poll_trace(s, ops.drop_first()));
            },
            KadOp::Poll => {
                lemma_trace_from_fresh(ops.drop_first());
                let rest = spec_poll_trace(fresh, ops.drop_first());
                let t = spec_poll_trace(fresh, ops);
                assert(t == seq![PollStep::RegisterWaker] + rest);
                assert forall|i: int| 0 < i < t.len() implies #[trigger] t[i] == rest[i - 1] by {}
            },
        }
    }
}

/// Law: over any interleaving of routing updates and polls on a fresh
/// stream, the polls before the first routing update only register the
/// waker (the stream stays pending), the first poll after it republishes,
/// and every later poll waits.
pub proof fn lemma_republish_trace(ops: Seq<KadOp>)
    requires
        only_routing_updates(ops),
    ensures
        ({
            let t = spec_poll_trace(KadRepublishState::spec_new(), ops);
            let m = polls_before_first_event(ops) as int;
            &&& m <= t.len()
            &&& forall|i: int| 0 <= i < m ==> #[trigger] t[i] == PollStep::RegisterWaker
            &&& m < t.len() ==> t[m] == PollStep::Republish
            &&& forall|i: int| m < i < t.len() ==> #[trigger] t[i] == PollStep::Wait
        }),
{
    lemma_trace_from_fresh(ops);
}

} // verus!
