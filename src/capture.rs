use vstd::prelude::*;
use crate::config::Config;
use crate::event::NetworkEvent;
use crate::translate::{translation_of, Payload};

verus! {

/// Name under which the capture module registers.
pub const MODULE_NAME: &'static str = "bmc-optimizer";

/// Whether the capture module runs unless configured otherwise.
pub const DEFAULT_ENABLED: bool = true;

/// Why attaching the capture program failed.
#[derive(Debug, Clone, Copy, PartialEq, Eq, Structural)]
pub enum AttachError {
    /// The kernel program image could not be loaded.
    ImageLoad,
    /// The ingress hook could not be attached to the interface.
    HookAttach,
    /// The attached program could not be started.
    Start,
}

/// Where the attach of the capture program stands.
#[derive(Debug, Clone, Copy, PartialEq, Eq, Structural)]
pub enum AttachState {
    Unattached,
    ProvisioningQdisc,
    LoadingImage,
    AttachingHook,
    Starting,
    Attached,
    Detached,
    Failed(AttachError),
}

/// What the environment reports to the attach sequence: the request to
/// begin, the outcome of the step last asked for, or the owner's teardown.
#[derive(Debug, Clone, Copy, PartialEq, Eq, Structural)]
pub enum AttachEvent {
    Begin,
    Succeeded,
    Failed,
    Teardown,
}

/// What the attach sequence asks the environment to do next.
#[derive(Debug, Clone, Copy, PartialEq, Eq, Structural)]
pub enum AttachAction {
    /// Create the ingress queueing discipline on the interface.
    ProvisionQdisc,
    /// Load the kernel program image.
    LoadImage,
    /// Attach the program as an ingress hook on the interface.
    AttachHook,
    /// Start the program so that it emits events.
    StartProgram,
    /// Attach is complete; events may flow.
    Ready,
    /// Attach failed; release what was acquired and report the error.
    Abort(AttachError),
    /// Detach the program and release the interface resources.
    Release,
    /// Nothing to do.
    Idle,
}

/// The attach sequence: provisioning the queueing discipline is best effort,
/// a failed image load, hook attach or start is fatal, and teardown releases
/// the resources once, from any state that may hold some.
pub open spec fn next(s: AttachState, e: AttachEvent) -> (AttachState, AttachAction) {
    match (s, e) {
        (AttachState::Unattached, AttachEvent::Begin) => (
            AttachState::ProvisioningQdisc,
            AttachAction::ProvisionQdisc,
        ),
        (AttachState::ProvisioningQdisc, AttachEvent::Succeeded)
        | (AttachState::ProvisioningQdisc, AttachEvent::Failed) => (
            AttachState::LoadingImage,
            AttachAction::LoadImage,
        ),
        (AttachState::LoadingImage, AttachEvent::Succeeded) => (
            AttachState::AttachingHook,
            AttachAction::AttachHook,
        ),
        (AttachState::LoadingImage, AttachEvent::Failed) => (
            AttachState::Failed(AttachError::ImageLoad),
            AttachAction::Abort(AttachError::ImageLoad),
        ),
        (AttachState::AttachingHook, AttachEvent::Succeeded) => (
            AttachState::Starting,
            AttachAction::StartProgram,
        ),
        (AttachState::AttachingHook, AttachEvent::Failed) => (
            AttachState::Failed(AttachError::HookAttach),
            AttachAction::Abort(AttachError::HookAttach),
        ),
        (AttachState::Starting, AttachEvent::Succeeded) => (
            AttachState::Attached,
            AttachAction::Ready,
        ),
        (AttachState::Starting, AttachEvent::Failed) => (
            AttachState::Failed(AttachError::Start),
            AttachAction::Abort(AttachError::Start),
        ),
        (AttachState::ProvisioningQdisc, AttachEvent::Teardown)
        | (AttachState::LoadingImage, AttachEvent::Teardown)
        | (AttachState::AttachingHook, AttachEvent::Teardown)
        | (AttachState::Starting, AttachEvent::Teardown)
        | (AttachState::Attached, AttachEvent::Teardown) => (
            AttachState::Detached,
            AttachAction::Release,
        ),
        _ => (s, AttachAction::Idle),
    }
}

/// The state reached from `s` through `events`, in order.
pub open spec fn run(s: AttachState, events: Seq<AttachEvent>) -> AttachState
    decreases events.len(),
{
    if events.len() == 0 {
        s
    } else {
        run(next(s, events[0]).0, events.drop_first())
    }
}

/// What a session in state `s` hands on for a record: its translation when
/// the program is attached and the record translates, nothing otherwise.
pub open spec fn delivery(s: AttachState, record: NetworkEvent, buffer: Seq<u8>) -> Option<
    Payload,
> {
    if s == AttachState::Attached {
        match translation_of(record, buffer) {
            Ok(p) => Some(p),
            Err(_) => None,
        }
    } else {
        None
    }
}

/// `n + 1`, held at the largest `u64`.
pub open spec fn bumped(n: u64) -> u64 {
    if n < u64::MAX {
        (n + 1) as u64
    } else {
        n
    }
}

/// Decides the next step of the attach sequence.
pub fn step(s: AttachState, e: AttachEvent) -> (r: (AttachState, AttachAction))
    ensures
        r == next(s, e),
{
    match (s, e) {
        (AttachState::Unattached, AttachEvent::Begin) => (
            AttachState::ProvisioningQdisc,
            AttachAction::ProvisionQdisc,
        ),
        (AttachState::ProvisioningQdisc, AttachEvent::Succeeded)
        | (AttachState::ProvisioningQdisc, AttachEvent::Failed) => (
            AttachState::LoadingImage,
            AttachAction::LoadImage,
        ),
        (AttachState::LoadingImage, AttachEvent::Succeeded) => (
            AttachState::AttachingHook,
            AttachAction::AttachHook,
        ),
        (AttachState::LoadingImage, AttachEvent::Failed) => (
            AttachState::Failed(AttachError::ImageLoad),
            AttachAction::Abort(AttachError::ImageLoad),
        ),
        (AttachState::AttachingHook, AttachEvent::Succeeded) => (
            AttachState::Starting,
            AttachAction::StartProgram,
        ),
        (AttachState::AttachingHook, AttachEvent::Failed) => (
            AttachState::Failed(AttachError::HookAttach),
            AttachAction::Abort(AttachError::HookAttach),
        ),
        (AttachState::Starting, AttachEvent::Succeeded) => (
            AttachState::Attached,
            AttachAction::Ready,
        ),
        (AttachState::Starting, AttachEvent::Failed) => (
            AttachState::Failed(AttachError::Start),
            AttachAction::Abort(AttachError::Start),
        ),
        (AttachState::ProvisioningQdisc, AttachEvent::Teardown)
        | (AttachState::LoadingImage, AttachEvent::Teardown)
        | (AttachState::AttachingHook, AttachEvent::Teardown)
        | (AttachState::Starting, AttachEvent::Teardown)
        | (AttachState::Attached, AttachEvent::Teardown) => (
            AttachState::Detached,
            AttachAction::Release,
        ),
        _ => (s, AttachAction::Idle),
    }
}

fn bump(n: u64) -> (r: u64)
    ensures
        r == bumped(n),
{
    if n < u64::MAX {
        n + 1
    } else {
        n
    }
}

/// One capture of one interface: the attach state of its program and the
/// tally of the records it has handed on and dropped.
#[derive(Debug)]
pub struct CaptureSession {
    state: AttachState,
    interface: String,
    emitted: u64,
    dropped: u64,
}

impl CaptureSession {
    pub closed spec fn spec_state(&self) -> AttachState {
        self.state
    }

    pub closed spec fn spec_interface(&self) -> Seq<char> {
        self.interface@
    }

    pub closed spec fn spec_emitted(&self) -> u64 {
        self.emitted
    }

    pub closed spec fn spec_dropped(&self) -> u64 {
        self.dropped
    }

    /// A session for the configured interface, not yet attached.
    pub fn new(config: &Config) -> (r: CaptureSession)
        ensures
            r.spec_state() == AttachState::Unattached,
            r.spec_interface() == config.spec_interface(),
            r.spec_emitted() == 0,
            r.spec_dropped() == 0,
    {
        CaptureSession {
            state: AttachState::Unattached,
            interface: config.interface().clone(),
            emitted: 0,
            dropped: 0,
        }
    }

    /// Advances the attach sequence by one reported event and returns the
    /// action to perform next.
    pub fn handle(&mut self, e: AttachEvent) -> (r: AttachAction)
        ensures
            (final(self).spec_state(), r) == next(old(self).spec_state(), e),
            final(self).spec_interface() == old(self).spec_interface(),
            final(self).spec_emitted() == old(self).spec_emitted(),
            final(self).spec_dropped() == old(self).spec_dropped(),
    {
        let (s, a) = step(self.state, e);
        self.state = s;
        a
    }

    /// Takes one record from the attached program: returns its payload, or
    /// counts it as dropped when its data reference does not resolve. A
    /// session that is not attached hands on nothing and counts nothing.
    pub fn deliver(&mut self, record: &NetworkEvent, buffer: &[u8]) -> (r: Option<Payload>)
        ensures
            r == delivery(old(self).spec_state(), *record, buffer@),
            final(self).spec_state() == old(self).spec_state(),
            final(self).spec_interface() == old(self).spec_interface(),
            final(self).spec_emitted() == (if r is Some {
                bumped(old(self).spec_emitted())
            } else {
                old(self).spec_emitted()
            }),
            final(self).spec_dropped() == (if old(self).spec_state() == AttachState::Attached
                && r is None {
                bumped(old(self).spec_dropped())
            } else {
                old(self).spec_dropped()
            }),
    {
        match self.state {
            AttachState::Attached => {},
            _ => {
                return None;
            },
        }
        match record.try_into_payload(buffer) {
            Ok(p) => {
                self.emitted = bump(self.emitted);
                Some(p)
            },
            Err(_) => {
                self.dropped = bump(self.dropped);
                None
            },
        }
    }

    pub fn state(&self) -> (r: AttachState)
        ensures
            r == self.spec_state(),
    {
        self.state
    }

    /// Name of the interface the session captures on.
    pub fn interface(&self) -> (r: &String)
        ensures
            r@ == self.spec_interface(),
    {
        &self.interface
    }

    /// Number of records handed on as payloads.
    pub fn emitted(&self) -> (r: u64)
        ensures
            r == self.spec_emitted(),
    {
        self.emitted
    }

    /// Number of records dropped because they did not translate.
    pub fn dropped(&self) -> (r: u64)
        ensures
            r == self.spec_dropped(),
    {
        self.dropped
    }
}

/// The capture module: attaches the ingress program to the configured
/// interface and translates what it reports.
pub struct BmcOptimizerModule;

impl BmcOptimizerModule {
    /// Sets up the module's capture session and begins the attach sequence;
    /// the returned action is the first step to perform.
    pub fn init_state(&self, config: &Config) -> (r: (CaptureSession, AttachAction))
        ensures
            r.0.spec_state() == AttachState::ProvisioningQdisc,
            r.1 == AttachAction::ProvisionQdisc,
            r.0.spec_interface() == config.spec_interface(),
            r.0.spec_emitted() == 0,
            r.0.spec_dropped() == 0,
    {
        let mut session = CaptureSession::new(config);
        let action = session.handle(AttachEvent::Begin);
        (session, action)
    }
}

/// A failed attach is final: no later event leaves the failed state.
pub proof fn lemma_failure_is_final(err: AttachError, later: Seq<AttachEvent>)
    ensures
        run(AttachState::Failed(err), later) == AttachState::Failed(err),
    decreases later.len(),
{
    if later.len() > 0 {
        lemma_failure_is_final(err, later.drop_first());
    }
}

/// When the ingress hook cannot be attached (as on an interface that does
/// not exist), the sequence aborts with the hook-attach error, whatever came
/// of provisioning the queueing discipline, and no record is handed on
/// afterwards, whatever events follow.
pub proof fn lemma_failed_attach_emits_nothing(
    qdisc: AttachEvent,
    later: Seq<AttachEvent>,
    record: NetworkEvent,
    buffer: Seq<u8>,
)
    requires
        qdisc == AttachEvent::Succeeded || qdisc == AttachEvent::Failed,
    ensures
        next(
            run(AttachState::Unattached, seq![AttachEvent::Begin, qdisc, AttachEvent::Succeeded]),
            AttachEvent::Failed,
        ) == (AttachState::Failed(AttachError::HookAttach), AttachAction::Abort(
            AttachError::HookAttach,
        )),
        run(
            AttachState::Unattached,
            seq![AttachEvent::Begin, qdisc, AttachEvent::Succeeded, AttachEvent::Failed] + later,
        ) == AttachState::Failed(AttachError::HookAttach),
        delivery(
            run(
                AttachState::Unattached,
                seq![AttachEvent::Begin, qdisc, AttachEvent::Succeeded, AttachEvent::Failed]
                    + later,
            ),
            record,
            buffer,
        ) is None,
{
    let head = seq![AttachEvent::Begin, qdisc, AttachEvent::Succeeded];
    let h1 = seq![qdisc, AttachEvent::Succeeded];
    let h2 = seq![AttachEvent::Succeeded];
    assert(head.drop_first() =~= h1);
    assert(h1.drop_first() =~= h2);
    assert(h2.drop_first() =~= Seq::<AttachEvent>::empty());
    assert(run(AttachState::AttachingHook, h2.drop_first()) == AttachState::AttachingHook);
    assert(run(AttachState::LoadingImage, h2) == AttachState::AttachingHook);
    assert(run(AttachState::ProvisioningQdisc, h1) == AttachState::AttachingHook);
    assert(run(AttachState::Unattached, head) == AttachState::AttachingHook);
    let all = seq![AttachEvent::Begin, qdisc, AttachEvent::Succeeded, AttachEvent::Failed] + later;
    let a1 = seq![qdisc, AttachEvent::Succeeded, AttachEvent::Failed] + later;
    let a2 = seq![AttachEvent::Succeeded, AttachEvent::Failed] + later;
    let a3 = seq![AttachEvent::Failed] + later;
    assert(all.drop_first() =~= a1);
    assert(a1.drop_first() =~= a2);
    assert(a2.drop_first() =~= a3);
    assert(a3.drop_first() =~= later);
    lemma_failure_is_final(AttachError::HookAttach, later);
    assert(run(AttachState::AttachingHook, a3) == AttachState::Failed(AttachError::HookAttach));
    assert(run(AttachState::LoadingImage, a2) == AttachState::Failed(AttachError::HookAttach));
    assert(run(AttachState::ProvisioningQdisc, a1) == AttachState::Failed(
        AttachError::HookAttach,
    ));
}

/// Teardown releases the program's resources at most once: a second
/// teardown asks for nothing.
pub proof fn lemma_release_once(s: AttachState)
    ensures
        next(next(s, AttachEvent::Teardown).0, AttachEvent::Teardown).1 == AttachAction::Idle,
{
}

} // verus!
