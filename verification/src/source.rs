//! The event stream of a session.
//!
//! The stream is a cycle of native steps: dispatch, fetch, and, when nothing
//! was fetched, a wait on the readiness descriptor. [`EventIterator`] decides
//! the order. It names the step to take, is told what came of it, and either
//! names the next step, hands out an event, or ends the stream. Whoever holds
//! the session takes the steps, and blocks in the wait.
use vstd::prelude::*;
use crate::decode::decoded;
use crate::events::{Event, EventView};
use crate::raw::{EventKind, LibInputEvent};
use crate::session::LibInput;

verus! {

/// Where the stream stands.
#[derive(Clone, Copy, Debug, PartialEq, Eq, Structural)]
pub enum Phase {
    /// Nothing is under way: the next step is a dispatch.
    Ready,
    /// A dispatch was made: the next step is a fetch.
    Dispatched,
    /// The fetch found nothing: the next step is a wait.
    Blocked,
    /// The stream is over.
    Ended,
}

/// The native step that the stream asks for.
#[derive(Clone, Copy, Debug, PartialEq, Eq, Structural)]
pub enum Request {
    /// Pull what the kernel has into the session's queue.
    Dispatch,
    /// Take the next event off the queue and read it as its kind's plan
    /// says.
    Fetch,
    /// Wait, without a time limit, until the descriptor is readable.
    Wait(i32),
    /// Nothing more: the stream is over.
    Stop,
}

/// What came of a native step.
#[derive(Debug)]
pub enum Reply {
    /// The dispatch was made.
    Dispatched,
    /// What the fetch found: an event, or nothing.
    Fetched(Option<LibInputEvent>),
    /// What the wait returned: -1 or less when it failed.
    Woke(i32),
}

/// What the stream does with a reply.
#[derive(Debug)]
pub enum Outcome {
    /// No event yet: take the next step.
    Continue,
    /// The next event of the stream.
    Yield(Event),
    /// The stream is over.
    End,
    /// The native layer handed out the "no event" tag in place of an event.
    /// It has broken its protocol, and the stream is over.
    Violation,
}

/// An [`Outcome`], with its event as mathematical values.
pub enum OutcomeView {
    Continue,
    Yield(EventView),
    End,
    Violation,
}

impl View for Outcome {
    type V = OutcomeView;

    open spec fn view(&self) -> OutcomeView {
        match *self {
            Outcome::Continue => OutcomeView::Continue,
            Outcome::Yield(event) => OutcomeView::Yield(event@),
            Outcome::End => OutcomeView::End,
            Outcome::Violation => OutcomeView::Violation,
        }
    }
}

/// The step that a phase asks for, on a session with the given descriptor.
pub open spec fn request_of(phase: Phase, descriptor: i32) -> Request {
    match phase {
        Phase::Ready => Request::Dispatch,
        Phase::Dispatched => Request::Fetch,
        Phase::Blocked => Request::Wait(descriptor),
        Phase::Ended => Request::Stop,
    }
}

/// The phase after a reply. A reply that does not answer the step of the
/// phase changes nothing. A wake-up after a wait leads back to a dispatch,
/// whether or not anything is there to fetch.
pub open spec fn next_phase(phase: Phase, reply: Reply) -> Phase {
    match (phase, reply) {
        (Phase::Ready, Reply::Dispatched) => Phase::Dispatched,
        (Phase::Dispatched, Reply::Fetched(Some(raw))) => if raw.kind == EventKind::NoEvent {
            Phase::Ended
        } else {
            Phase::Ready
        },
        (Phase::Dispatched, Reply::Fetched(None)) => Phase::Blocked,
        (Phase::Blocked, Reply::Woke(ret)) => if ret <= -1 {
            Phase::Ended
        } else {
            Phase::Ready
        },
        _ => phase,
    }
}

/// What the stream does with a reply in a phase.
pub open spec fn outcome_of(phase: Phase, reply: Reply) -> OutcomeView {
    match (phase, reply) {
        (Phase::Ended, _) => OutcomeView::End,
        (Phase::Dispatched, Reply::Fetched(Some(raw))) => if raw.kind == EventKind::NoEvent {
            OutcomeView::Violation
        } else {
            OutcomeView::Yield(decoded(raw))
        },
        (Phase::Blocked, Reply::Woke(ret)) => if ret <= -1 {
            OutcomeView::End
        } else {
            OutcomeView::Continue
        },
        _ => OutcomeView::Continue,
    }
}

/// The phase of a fresh stream after a run of replies.
pub open spec fn phase_after(replies: Seq<Reply>) -> Phase
    decreases replies.len(),
{
    if replies.len() == 0 {
        Phase::Ready
    } else {
        next_phase(phase_after(replies.drop_last()), replies.last())
    }
}

/// True when the stream hands out an event on reply `i` of the run.
pub open spec fn yields_at(replies: Seq<Reply>, i: int) -> bool {
    outcome_of(phase_after(replies.take(i)), replies[i]) is Yield
}

/// True when reply `i` of the run reports a dispatch that the stream had
/// asked for.
pub open spec fn dispatches_at(replies: Seq<Reply>, i: int) -> bool {
    phase_after(replies.take(i)) == Phase::Ready && replies[i] is Dispatched
}

/// A stream that waits for its fetch has had a dispatch, and has handed out
/// nothing since.
proof fn lemma_fetch_follows_dispatch(replies: Seq<Reply>) -> (j: int)
    requires
        phase_after(replies) == Phase::Dispatched,
    ensures
        0 <= j < replies.len(),
        dispatches_at(replies, j),
        forall|k: int| j < k < replies.len() ==> !yields_at(replies, k),
    decreases replies.len(),
{
    let before = replies.drop_last();
    let n = before.len() as int;
    assert(replies.take(n) =~= before);
    if phase_after(before) == Phase::Ready {
        n
    } else {
        let j = lemma_fetch_follows_dispatch(before);
        assert(replies.take(j) =~= before.take(j));
        assert forall|k: int| j < k < replies.len() implies !yields_at(replies, k) by {
            if k < n {
                assert(replies.take(k) =~= before.take(k));
                assert(!yields_at(before, k));
            }
        }
        j
    }
}

/// No event without a dispatch: whenever the stream hands out an event, a
/// dispatch was made earlier in the run, and nothing was handed out between
/// that dispatch and the event. So every event has a dispatch of its own
/// since the event before it.
pub proof fn lemma_dispatch_before_every_yield(replies: Seq<Reply>, i: int)
    requires
        0 <= i < replies.len(),
        yields_at(replies, i),
    ensures
        exists|j: int|
            0 <= j < i && #[trigger] dispatches_at(replies, j) && forall|k: int|
                j < k < i ==> !yields_at(replies, k),
{
    let before = replies.take(i);
    let j = lemma_fetch_follows_dispatch(before);
    assert(before.take(j) =~= replies.take(j));
    assert forall|k: int| j < k < i implies !yields_at(replies, k) by {
        assert(before.take(k) =~= replies.take(k));
        assert(!yields_at(before, k));
    }
    assert(dispatches_at(replies, j));
}

/// Once over, the stream stays over, whatever it is told.
pub proof fn lemma_ended_stays_ended(replies: Seq<Reply>, more: Seq<Reply>)
    requires
        phase_after(replies) == Phase::Ended,
    ensures
        phase_after(replies + more) == Phase::Ended,
    decreases more.len(),
{
    if more.len() == 0 {
        assert(replies + more =~= replies);
    } else {
        lemma_ended_stays_ended(replies, more.drop_last());
        assert((replies + more).drop_last() =~= replies + more.drop_last());
    }
}

/// A failed wait ends the stream at once and for good: the reply that
/// reports it gives `End`, and so does every reply after it, whatever it
/// reports. No later readiness brings the stream back.
pub proof fn lemma_failed_wait_ends_the_stream(replies: Seq<Reply>, ret: i32, more: Seq<Reply>)
    requires
        phase_after(replies) == Phase::Blocked,
        ret <= -1,
    ensures
        outcome_of(phase_after(replies), Reply::Woke(ret)) is End,
        forall|i: int|
            0 <= i < more.len() ==> outcome_of(
                phase_after(replies.push(Reply::Woke(ret)) + more.take(i)),
                #[trigger] more[i],
            ) is End,
        request_of(phase_after(replies.push(Reply::Woke(ret)) + more), 0) is Stop,
{
    let ended = replies.push(Reply::Woke(ret));
    assert(ended.drop_last() =~= replies);
    assert(phase_after(ended) == Phase::Ended);
    assert forall|i: int| 0 <= i < more.len() implies outcome_of(
        phase_after(ended + more.take(i)),
        #[trigger] more[i],
    ) is End by {
        lemma_ended_stays_ended(ended, more.take(i));
    }
    lemma_ended_stays_ended(ended, more);
}

/// A wake-up is no promise of an event: a stream that wakes and then fetches
/// nothing waits again, after exactly one dispatch and one fetch, without
/// handing anything out.
pub proof fn lemma_empty_wake_waits_again(replies: Seq<Reply>, ret: i32)
    requires
        phase_after(replies) == Phase::Blocked,
        ret > -1,
    ensures
        ({
            let woke = replies.push(Reply::Woke(ret));
            let dispatched = woke.push(Reply::Dispatched);
            let fetched = dispatched.push(Reply::Fetched(None));
            &&& request_of(phase_after(woke), 0) is Dispatch
            &&& request_of(phase_after(dispatched), 0) is Fetch
            &&& request_of(phase_after(fetched), 0) is Wait
            &&& outcome_of(phase_after(replies), Reply::Woke(ret)) is Continue
            &&& outcome_of(phase_after(woke), Reply::Dispatched) is Continue
            &&& outcome_of(phase_after(dispatched), Reply::Fetched(None)) is Continue
        }),
{
    let woke = replies.push(Reply::Woke(ret));
    let dispatched = woke.push(Reply::Dispatched);
    let fetched = dispatched.push(Reply::Fetched(None));
    assert(woke.drop_last() =~= replies);
    assert(dispatched.drop_last() =~= woke);
    assert(fetched.drop_last() =~= dispatched);
}

/// An iterator over the events of a session. It does not block itself: the
/// wait that it asks for does.
#[derive(Debug)]
pub struct EventIterator {
    phase: Phase,
    descriptor: i32,
}

impl EventIterator {
    /// Where the stream stands.
    pub closed spec fn phase(&self) -> Phase {
        self.phase
    }

    /// The readiness descriptor that the stream waits on.
    pub closed spec fn descriptor(&self) -> i32 {
        self.descriptor
    }

    /// A fresh stream over the given session.
    pub fn new(input: &LibInput) -> (r: EventIterator)
        ensures
            r.phase() == Phase::Ready,
            r.descriptor() == input.spec_fd(),
    {
        EventIterator { phase: Phase::Ready, descriptor: input.get_fd() }
    }

    /// The step to take now.
    pub fn request(&self) -> (r: Request)
        ensures
            r == request_of(self.phase(), self.descriptor()),
    {
        match self.phase {
            Phase::Ready => Request::Dispatch,
            Phase::Dispatched => Request::Fetch,
            Phase::Blocked => Request::Wait(self.descriptor),
            Phase::Ended => Request::Stop,
        }
    }

    /// Takes in what came of the step, and says what the stream does with
    /// it. An event that was fetched is decoded and handed out. A reply that
    /// does not answer the step asked for is ignored.
    pub fn advance(&mut self, reply: Reply) -> (r: Outcome)
        ensures
            final(self).phase() == next_phase(old(self).phase(), reply),
            final(self).descriptor() == old(self).descriptor(),
            r@ == outcome_of(old(self).phase(), reply),
    {
        match self.phase {
            Phase::Ended => Outcome::End,
            Phase::Ready => {
                match reply {
                    Reply::Dispatched => {
                        self.phase = Phase::Dispatched;
                    },
                    _ => {},
                }
                Outcome::Continue
            },
            Phase::Dispatched => match reply {
                Reply::Fetched(Some(raw)) => {
                    if raw.violates_protocol() {
                        self.phase = Phase::Ended;
                        Outcome::Violation
                    } else {
                        self.phase = Phase::Ready;
                        Outcome::Yield(Event::from(raw))
                    }
                },
                Reply::Fetched(None) => {
                    self.phase = Phase::Blocked;
                    Outcome::Continue
                },
                _ => Outcome::Continue,
            },
            Phase::Blocked => match reply {
                Reply::Woke(ret) => {
                    if ret <= -1 {
                        self.phase = Phase::Ended;
                        Outcome::End
                    } else {
                        self.phase = Phase::Ready;
                        Outcome::Continue
                    }
                },
                _ => Outcome::Continue,
            },
        }
    }
}

impl LibInput {
    /// A fresh stream over this session's events.
    pub fn events(&mut self) -> (r: EventIterator)
        ensures
            *final(self) == *old(self),
            r.phase() == Phase::Ready,
            r.descriptor() == old(self).spec_fd(),
    {
        EventIterator::new(self)
    }
}

} // verus!
