//! Opening a session.
//!
//! A session is brought up in native steps, each of which can fail, and a
//! failure has to give back what the earlier steps acquired. [`Bootstrap`]
//! decides the order: it names the step to take, is told how the step went,
//! and names the next. Whoever holds the native handles takes the steps.
use vstd::prelude::*;
use crate::options::tools_context;
use crate::raw::{is_blank, EventKind, LibInputEvent};

verus! {

/// Why a session could not be opened.
#[derive(Clone, Copy, Debug, PartialEq, Eq, Structural)]
pub enum SessionError {
    /// The enumeration backend did not start.
    AccessInitFailed,
    /// No context could be made over the backend.
    ContextInitFailed,
    /// The seat could not be bound to the context.
    SeatAssignFailed,
}

/// The native step that the bootstrap asks for.
#[derive(Clone, Copy, Debug, PartialEq, Eq, Structural)]
pub enum BootRequest {
    /// Start the enumeration backend.
    StartBackend,
    /// Make the context over the backend, with the access callbacks and the
    /// options.
    CreateContext,
    /// Bind the seat of the options to the context.
    AssignSeat,
    /// Give the backend back. A context that was made keeps its own hold on
    /// it.
    ReleaseBackend,
    /// Give the context back.
    ReleaseContext,
    /// Ask the context for its readiness descriptor.
    ReadDescriptor,
    /// Nothing more: the bootstrap has its outcome.
    Finish,
}

/// How a native step went.
#[derive(Clone, Copy, Debug, PartialEq, Eq, Structural)]
pub enum BootReply {
    /// Whether the backend started.
    Backend(bool),
    /// Whether a context was made.
    Context(bool),
    /// The status of the seat assignment: zero when the seat was bound.
    Seat(i32),
    /// The backend or the context was given back.
    Released,
    /// The readiness descriptor.
    Descriptor(i32),
}

/// Where a bootstrap stands.
pub struct BootState {
    /// The step that is asked for and not yet answered.
    pub pending: BootRequest,
    /// Whether the backend was acquired and not yet given back.
    pub backend_held: bool,
    /// Whether the context was acquired and not yet given back.
    pub context_held: bool,
    /// The failure, once a step has failed.
    pub failure: Option<SessionError>,
    /// The readiness descriptor, once it was read; 0 before.
    pub descriptor: i32,
}

/// A bootstrap before its first step.
pub open spec fn boot_start() -> BootState {
    BootState {
        pending: BootRequest::StartBackend,
        backend_held: false,
        context_held: false,
        failure: None,
        descriptor: 0,
    }
}

/// The step that follows the release of the backend: after a failed seat
/// assignment the context is still to be given back; after a failed context
/// there is nothing left; without a failure the descriptor is read.
pub open spec fn after_backend_release(failure: Option<SessionError>) -> BootRequest {
    match failure {
        Some(SessionError::SeatAssignFailed) => BootRequest::ReleaseContext,
        Some(_) => BootRequest::Finish,
        None => BootRequest::ReadDescriptor,
    }
}

/// Where a bootstrap stands after a reply. A reply that does not answer the
/// pending step changes nothing.
pub open spec fn boot_step(s: BootState, reply: BootReply) -> BootState {
    match (s.pending, reply) {
        (BootRequest::StartBackend, BootReply::Backend(started)) => if started {
            BootState { pending: BootRequest::CreateContext, backend_held: true, ..s }
        } else {
            BootState {
                pending: BootRequest::Finish,
                failure: Some(SessionError::AccessInitFailed),
                ..s
            }
        },
        (BootRequest::CreateContext, BootReply::Context(made)) => if made {
            BootState { pending: BootRequest::AssignSeat, context_held: true, ..s }
        } else {
            BootState {
                pending: BootRequest::ReleaseBackend,
                failure: Some(SessionError::ContextInitFailed),
                ..s
            }
        },
        (BootRequest::AssignSeat, BootReply::Seat(status)) => if status == 0 {
            BootState { pending: BootRequest::ReleaseBackend, ..s }
        } else {
            BootState {
                pending: BootRequest::ReleaseBackend,
                failure: Some(SessionError::SeatAssignFailed),
                ..s
            }
        },
        (BootRequest::ReleaseBackend, BootReply::Released) => BootState {
            pending: after_backend_release(s.failure),
            backend_held: false,
            ..s
        },
        (BootRequest::ReleaseContext, BootReply::Released) => BootState {
            pending: BootRequest::Finish,
            context_held: false,
            ..s
        },
        (BootRequest::ReadDescriptor, BootReply::Descriptor(fd)) => BootState {
            pending: BootRequest::Finish,
            descriptor: fd,
            ..s
        },
        _ => s,
    }
}

/// Where a bootstrap stands after a run of replies, from its start.
pub open spec fn boot_run(replies: Seq<BootReply>) -> BootState
    decreases replies.len(),
{
    if replies.len() == 0 {
        boot_start()
    } else {
        boot_step(boot_run(replies.drop_last()), replies.last())
    }
}

/// What holds of a bootstrap at every point of every run: what is held goes
/// with the step that is pending.
pub open spec fn boot_consistent(s: BootState) -> bool {
    match s.pending {
        BootRequest::StartBackend => !s.backend_held && !s.context_held && s.failure is None,
        BootRequest::CreateContext => s.backend_held && !s.context_held && s.failure is None,
        BootRequest::AssignSeat => s.backend_held && s.context_held && s.failure is None,
        BootRequest::ReleaseBackend => {
            &&& s.backend_held
            &&& s.failure != Some(SessionError::AccessInitFailed)
            &&& s.context_held <==> s.failure != Some(SessionError::ContextInitFailed)
        },
        BootRequest::ReleaseContext => {
            &&& !s.backend_held
            &&& s.context_held
            &&& s.failure == Some(SessionError::SeatAssignFailed)
        },
        BootRequest::ReadDescriptor => !s.backend_held && s.context_held && s.failure is None,
        BootRequest::Finish => !s.backend_held && (s.context_held <==> s.failure is None),
    }
}

/// A reply, whatever it is, leaves a consistent bootstrap consistent.
pub proof fn lemma_boot_step_consistent(s: BootState, reply: BootReply)
    requires
        boot_consistent(s),
    ensures
        boot_consistent(boot_step(s, reply)),
{
}

/// Every run of replies, whatever they are, leaves the bootstrap consistent.
pub proof fn lemma_boot_consistent(replies: Seq<BootReply>)
    ensures
        boot_consistent(boot_run(replies)),
    decreases replies.len(),
{
    if replies.len() > 0 {
        lemma_boot_consistent(replies.drop_last());
        lemma_boot_step_consistent(boot_run(replies.drop_last()), replies.last());
    }
}

/// Nothing leaks: when a run has come to its end, the backend has been given
/// back, and the context is held exactly when the session was opened. After
/// a failure nothing that was acquired on the way is still held.
pub proof fn lemma_finished_boot_holds_only_the_session(replies: Seq<BootReply>)
    requires
        boot_run(replies).pending == BootRequest::Finish,
    ensures
        !boot_run(replies).backend_held,
        boot_run(replies).failure is Some ==> !boot_run(replies).context_held,
        boot_run(replies).failure is None ==> boot_run(replies).context_held,
{
    lemma_boot_consistent(replies);
}

/// Nothing is given back twice or without having been acquired: a release
/// is asked for only of what is held.
pub proof fn lemma_release_only_of_what_is_held(replies: Seq<BootReply>)
    ensures
        boot_run(replies).pending == BootRequest::ReleaseBackend ==> boot_run(
            replies,
        ).backend_held,
        boot_run(replies).pending == BootRequest::ReleaseContext ==> boot_run(
            replies,
        ).context_held,
{
    lemma_boot_consistent(replies);
}

/// A finished bootstrap stays finished, with the same outcome, whatever it
/// is told afterwards.
pub proof fn lemma_finished_boot_stays(s: BootState, reply: BootReply)
    requires
        s.pending == BootRequest::Finish,
    ensures
        boot_step(s, reply) == s,
{
}

impl SessionError {
    /// The failure in words.
    pub fn message(&self) -> (r: &'static str)
        ensures
            r@ == match *self {
                SessionError::AccessInitFailed => "Failed to initialize udev"@,
                SessionError::ContextInitFailed => "Failed to initialize context with udev"@,
                SessionError::SeatAssignFailed => "Failed to assign seat"@,
            },
    {
        match self {
            SessionError::AccessInitFailed => "Failed to initialize udev",
            SessionError::ContextInitFailed => "Failed to initialize context with udev",
            SessionError::SeatAssignFailed => "Failed to assign seat",
        }
    }
}

/// The opening of one session, step by step.
pub struct Bootstrap {
    context: tools_context,
    pending: BootRequest,
    backend_held: bool,
    context_held: bool,
    failure: Option<SessionError>,
    descriptor: i32,
}

impl View for Bootstrap {
    type V = BootState;

    closed spec fn view(&self) -> BootState {
        BootState {
            pending: self.pending,
            backend_held: self.backend_held,
            context_held: self.context_held,
            failure: self.failure,
            descriptor: self.descriptor,
        }
    }
}

impl Bootstrap {
    /// The options that the session is opened with.
    pub closed spec fn spec_context(&self) -> tools_context {
        self.context
    }

    /// A bootstrap with the given options, before its first step.
    pub fn new(context: tools_context) -> (r: Bootstrap)
        ensures
            r@ == boot_start(),
            boot_consistent(r@),
            r.spec_context() == context,
    {
        Bootstrap {
            context,
            pending: BootRequest::StartBackend,
            backend_held: false,
            context_held: false,
            failure: None,
            descriptor: 0,
        }
    }

    /// The options that the session is opened with.
    pub fn context(&self) -> (r: &tools_context)
        ensures
            *r == self.spec_context(),
    {
        &self.context
    }

    /// The step to take now.
    pub fn request(&self) -> (r: BootRequest)
        ensures
            r == self@.pending,
    {
        self.pending
    }

    /// Takes in how the pending step went. A reply that does not answer the
    /// pending step is ignored, and the same step stays pending.
    pub fn advance(&mut self, reply: BootReply)
        ensures
            final(self)@ == boot_step(old(self)@, reply),
            boot_consistent(old(self)@) ==> boot_consistent(final(self)@),
            final(self).spec_context() == old(self).spec_context(),
    {
        proof {
            if boot_consistent(self@) {
                lemma_boot_step_consistent(self@, reply);
            }
        }
        match (self.pending, reply) {
            (BootRequest::StartBackend, BootReply::Backend(started)) => {
                if started {
                    self.backend_held = true;
                    self.pending = BootRequest::CreateContext;
                } else {
                    self.failure = Some(SessionError::AccessInitFailed);
                    self.pending = BootRequest::Finish;
                }
            },
            (BootRequest::CreateContext, BootReply::Context(made)) => {
                if made {
                    self.context_held = true;
                    self.pending = BootRequest::AssignSeat;
                } else {
                    self.failure = Some(SessionError::ContextInitFailed);
                    self.pending = BootRequest::ReleaseBackend;
                }
            },
            (BootRequest::AssignSeat, BootReply::Seat(status)) => {
                if status != 0 {
                    self.failure = Some(SessionError::SeatAssignFailed);
                }
                self.pending = BootRequest::ReleaseBackend;
            },
            (BootRequest::ReleaseBackend, BootReply::Released) => {
                self.backend_held = false;
                self.pending = match self.failure {
                    Some(SessionError::SeatAssignFailed) => BootRequest::ReleaseContext,
                    Some(_) => BootRequest::Finish,
                    None => BootRequest::ReadDescriptor,
                };
            },
            (BootRequest::ReleaseContext, BootReply::Released) => {
                self.context_held = false;
                self.pending = BootRequest::Finish;
            },
            (BootRequest::ReadDescriptor, BootReply::Descriptor(fd)) => {
                self.descriptor = fd;
                self.pending = BootRequest::Finish;
            },
            _ => {},
        }
    }
}

/// An open session: the one holder of its native context.
#[derive(Debug)]
pub struct LibInput {
    context: tools_context,
    descriptor: i32,
}

impl LibInput {
    /// The readiness descriptor of the session.
    pub closed spec fn spec_fd(&self) -> i32 {
        self.descriptor
    }

    /// The options that the session was opened with.
    pub closed spec fn spec_context(&self) -> tools_context {
        self.context
    }

    /// The outcome of a finished bootstrap: the failure if a step failed,
    /// and otherwise the session, with the bootstrap's options and the
    /// descriptor that was read.
    ///
    /// Of a bootstrap that was driven from its start, and so is consistent,
    /// the outcome also says what is still held: the backend never, and the
    /// context exactly when a session comes back, whose it then is. A
    /// failure leaves nothing behind.
    pub fn new_from_udev(boot: Bootstrap) -> (r: Result<LibInput, SessionError>)
        requires
            boot@.pending == BootRequest::Finish,
        ensures
            match boot@.failure {
                Some(e) => r == Err::<LibInput, SessionError>(e),
                None => r matches Ok(session) && session.spec_fd() == boot@.descriptor
                    && session.spec_context() == boot.spec_context(),
            },
            boot_consistent(boot@) ==> !boot@.backend_held && (r is Ok <==> boot@.context_held),
    {
        match boot.failure {
            Some(e) => Err(e),
            None => Ok(LibInput { context: boot.context, descriptor: boot.descriptor }),
        }
    }

    /// The descriptor that becomes readable when events may be waiting. It
    /// belongs to the session and is not the caller's to close.
    pub fn get_fd(&self) -> (r: i32)
        ensures
            r == self.spec_fd(),
    {
        self.descriptor
    }

    /// The options that the session was opened with.
    pub fn context(&self) -> (r: &tools_context)
        ensures
            *r == self.spec_context(),
    {
        &self.context
    }

    /// Starts the record of what a fetch found. A fetch that found nothing
    /// has no kind tag and gives no record; one that found an event gives
    /// the blank record of the event's kind, to be filled in as the plan for
    /// that kind says.
    pub fn get_event(&self, tag: Option<EventKind>) -> (r: Option<LibInputEvent>)
        ensures
            r is Some <==> tag is Some,
            r matches Some(raw) ==> is_blank(raw, tag->Some_0),
    {
        match tag {
            None => None,
            Some(kind) => Some(LibInputEvent::new_from(kind)),
        }
    }

    /// Judges what a wait on the descriptor returned: a result of -1 or
    /// less is a failure, and anything else is none.
    pub fn poll(&mut self, ret: i32) -> (r: Option<&'static str>)
        ensures
            *final(self) == *old(self),
            r is Some <==> ret <= -1,
            r matches Some(s) ==> s@ == "Failed to poll."@,
    {
        if ret <= -1 {
            return Some("Failed to poll.");
        }
        None
    }
}

} // verus!
