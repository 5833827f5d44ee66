//! The session kernel of `libmcp`: which requests are pending, and what may
//! be dispatched again after a worker was lost.

use vstd::prelude::*;

use libmcp::{
    ExecutionKnowledge, HostRejection, HostSessionKernel, HostSessionKernelSnapshot,
    ReplayContract, RequestDisposition, SessionPhase,
};

use crate::frame::{Frame, FrameKindView, FrameView, frame_reading};
use crate::json::{JsonView, json_of};

verus! {

/// `libmcp::HostSessionKernel`: the collection of pending requests.
#[verifier::external_type_specification]
#[verifier::external_body]
pub struct ExHostSessionKernel(libmcp::HostSessionKernel);

/// `libmcp::HostSessionKernelSnapshot`: the same collection, at rest.
#[verifier::external_type_specification]
#[verifier::external_body]
pub struct ExHostSessionKernelSnapshot(libmcp::HostSessionKernelSnapshot);

/// `libmcp::ReplayContract`, whose variants are public.
#[verifier::external_type_specification]
pub struct ExReplayContract(libmcp::ReplayContract);

/// `libmcp::ExecutionKnowledge`, whose variants are public.
#[verifier::external_type_specification]
pub struct ExExecutionKnowledge(libmcp::ExecutionKnowledge);

/// `libmcp::RequestDisposition`, whose variants are public.
#[verifier::external_type_specification]
pub struct ExRequestDisposition(libmcp::RequestDisposition);

/// `libmcp::SessionPhase`, whose variants are public.
#[verifier::external_type_specification]
pub struct ExSessionPhase(libmcp::SessionPhase);

/// One pending request.
pub struct Invocation {
    /// The bytes of the request.
    pub payload: Seq<u8>,
    /// Whether it is the `initialize` request.
    pub initialize: bool,
    pub contract: ReplayContract,
    pub knowledge: ExecutionKnowledge,
    /// How often it was dispatched again.
    pub attempts: u8,
    /// What recovery has scheduled for it.
    pub scheduled: Option<RequestDisposition>,
}

/// The `initialize` request that opened the session.
pub struct Seed {
    pub id: JsonView,
    pub payload: Seq<u8>,
    /// The notification that completed the handshake.
    pub initialized: Option<Seq<u8>>,
}

/// The state of the public session.
pub struct KernelSession {
    pub phase: SessionPhase,
    pub seed: Option<Seed>,
    /// The bytes of the frames that wait for dispatch.
    pub queue: Seq<Seq<u8>>,
    pub next_sequence: nat,
}

/// The pending requests of a kernel, by identifier.
pub uninterp spec fn kernel_pending(kernel: HostSessionKernel) -> Map<JsonView, Invocation>;

/// The session state of a kernel.
pub uninterp spec fn kernel_session(kernel: HostSessionKernel) -> KernelSession;

/// The pending requests that a snapshot keeps, by identifier.
pub uninterp spec fn snapshot_pending(snapshot: HostSessionKernelSnapshot) -> Map<
    JsonView,
    Invocation,
>;

/// The session state that a snapshot keeps.
pub uninterp spec fn snapshot_session(snapshot: HostSessionKernelSnapshot) -> KernelSession;

/// Pending requests and session state together.
pub struct KernelView {
    pub pending: Map<JsonView, Invocation>,
    pub session: KernelSession,
}

/// What a kernel holds.
pub open spec fn kernel_view(kernel: HostSessionKernel) -> KernelView {
    KernelView { pending: kernel_pending(kernel), session: kernel_session(kernel) }
}

/// What a snapshot holds.
pub open spec fn snapshot_view(snapshot: HostSessionKernelSnapshot) -> KernelView {
    KernelView { pending: snapshot_pending(snapshot), session: snapshot_session(snapshot) }
}

/// A kernel that has seen nothing.
pub open spec fn cold_view() -> KernelView {
    KernelView {
        pending: Map::empty(),
        session: KernelSession {
            phase: SessionPhase::Cold,
            seed: None,
            queue: Seq::empty(),
            next_sequence: 0,
        },
    }
}

/// The method that opens a session.
pub open spec fn opens_session(method: Seq<char>) -> bool {
    method == "initialize"@
}

/// The notifications that complete the handshake.
pub open spec fn completes_handshake(method: Seq<char>) -> bool {
    method == "initialized"@ || method == "notifications/initialized"@
}

/// The kernel after it has seen a frame of the client; nothing where the frame
/// does not fit the phase of the session.
pub open spec fn observed(kernel: KernelView, frame: FrameView) -> Option<KernelView> {
    match frame.kind {
        FrameKindView::Request { id, method } if opens_session(method) => {
            if kernel.session.phase != SessionPhase::Cold || kernel.session.seed is Some {
                None
            } else {
                Some(
                    KernelView {
                        session: KernelSession {
                            seed: Some(Seed { id, payload: frame.payload, initialized: None }),
                            ..kernel.session
                        },
                        ..kernel
                    },
                )
            }
        },
        FrameKindView::Notification { method } if completes_handshake(method) => {
            match kernel.session.seed {
                Some(seed) if kernel.session.phase == SessionPhase::AwaitingInitialized => Some(
                    KernelView {
                        session: KernelSession {
                            phase: SessionPhase::Live,
                            seed: Some(Seed { initialized: Some(frame.payload), ..seed }),
                            ..kernel.session
                        },
                        ..kernel
                    },
                ),
                _ => None,
            }
        },
        _ => Some(kernel),
    }
}

/// Whether the `initialize` request of `frame` may be dispatched.
pub open spec fn may_open(kernel: KernelView, frame: FrameView) -> bool {
    &&& kernel.session.phase == SessionPhase::Cold
    &&& kernel.session.seed matches Some(seed) ==> seed.payload == frame.payload
}

/// Whether the request of `frame` can become the only pending request.
pub open spec fn begin_accepts(kernel: KernelView, frame: FrameView) -> bool {
    match frame.kind {
        FrameKindView::Request { id, method } => {
            &&& kernel.pending == Map::<JsonView, Invocation>::empty()
            &&& kernel.session.next_sequence < u64::MAX
            &&& opens_session(method) ==> may_open(kernel, frame)
        },
        _ => false,
    }
}

/// The reasons for which `frame` cannot become the only pending request.
///
/// While a request is pending, a frame with an identifier that is no integer
/// and no text may be refused for either of two reasons.
pub open spec fn begin_refusal(
    kernel: KernelView,
    frame: FrameView,
    rejection: HostRejection,
) -> bool {
    match frame.kind {
        FrameKindView::Request { id, method } => {
            if kernel.pending == Map::<JsonView, Invocation>::empty() {
                rejection == HostRejection::InvalidExecutionState
            } else if kernel.pending.dom().contains(id) {
                rejection == HostRejection::DuplicateRequestId
            } else {
                ||| rejection == HostRejection::PendingCapacityExhausted
                ||| id is Fraction && rejection == HostRejection::DuplicateRequestId
            }
        },
        _ => rejection == HostRejection::InvalidRequestFrame,
    }
}

/// The kernel once the request of `frame` is pending.
pub open spec fn begun(
    kernel: KernelView,
    frame: FrameView,
    contract: ReplayContract,
) -> KernelView {
    match frame.kind {
        FrameKindView::Request { id, method } => {
            let session = KernelSession {
                next_sequence: kernel.session.next_sequence + 1,
                ..kernel.session
            };
            KernelView {
                pending: kernel.pending.insert(
                    id,
                    Invocation {
                        payload: frame.payload,
                        initialize: opens_session(method),
                        contract,
                        knowledge: ExecutionKnowledge::InFlight,
                        attempts: 0,
                        scheduled: None,
                    },
                ),
                session: if opens_session(method) {
                    KernelSession {
                        phase: SessionPhase::Initializing,
                        seed: match kernel.session.seed {
                            Some(seed) => Some(seed),
                            None => Some(Seed { id, payload: frame.payload, initialized: None }),
                        },
                        ..session
                    }
                } else {
                    session
                },
            }
        },
        _ => kernel,
    }
}

/// The kernel once the only pending request `id` is answered; it does not wait
/// for another dispatch any more.
pub open spec fn completed(kernel: KernelView, id: JsonView, has_error: bool) -> KernelView {
    KernelView {
        pending: kernel.pending.remove(id),
        session: if !kernel.pending[id].initialize {
            KernelSession { queue: Seq::empty(), ..kernel.session }
        } else if has_error {
            KernelSession {
                phase: SessionPhase::Cold,
                seed: None,
                queue: Seq::empty(),
                ..kernel.session
            }
        } else {
            KernelSession {
                phase: SessionPhase::AwaitingInitialized,
                queue: Seq::empty(),
                ..kernel.session
            }
        },
    }
}

/// Whether the pending request `id` can be answered.
pub open spec fn completable(kernel: KernelView, id: JsonView) -> bool {
    let request = kernel.pending[id];
    &&& request.knowledge is InFlight || request.knowledge is OutcomeUnknown
    &&& request.initialize ==> kernel.session.phase == SessionPhase::Initializing
}

/// What comes of a response with an identifier that is an integer or a text.
pub open spec fn completion(kernel: KernelView, frame: FrameView) -> Result<(), HostRejection> {
    match frame.kind {
        FrameKindView::Response { id, has_error } => if !kernel.pending.dom().contains(id) {
            Err(HostRejection::RequestNotPending)
        } else if !completable(kernel, id) {
            Err(HostRejection::InvalidExecutionState)
        } else {
            Ok(())
        },
        _ => Err(HostRejection::InvalidRequestFrame),
    }
}

/// `after` is the kernel once the response in `frame` was taken.
pub open spec fn completes(kernel: KernelView, after: KernelView, frame: FrameView) -> bool {
    frame.kind matches FrameKindView::Response { id, has_error } && exists|key: JsonView|
        kernel.pending.dom().contains(key) && (!(id is Fraction) ==> key == id) && after
            == #[trigger] completed(kernel, key, has_error)
}

/// Whether the frame is a response to an identifier that is no integer and no
/// text.
pub open spec fn answers_fraction(frame: FrameView) -> bool {
    frame.kind matches FrameKindView::Response { id, has_error } && id is Fraction
}

/// The only pending request, under its identifier.
pub open spec fn only_pending(kernel: KernelView, id: JsonView, request: Invocation) -> bool {
    kernel.pending == Map::<JsonView, Invocation>::empty().insert(id, request)
}

/// What becomes of a request whose worker was lost: scheduled, or rejected.
pub open spec fn after_loss(
    request: Invocation,
    max_attempts: nat,
    queue_capacity: nat,
) -> Result<RequestDisposition, HostRejection> {
    match request.contract {
        ReplayContract::NeverReplay => Err(HostRejection::AmbiguousOutcome),
        ReplayContract::Convergent if request.attempts >= max_attempts => Err(
            HostRejection::ReplayBudgetExhausted,
        ),
        _ if queue_capacity == 0 => Err(HostRejection::QueueOverflow),
        ReplayContract::Convergent => Ok(RequestDisposition::Replay),
        ReplayContract::ProbeRequired => Ok(RequestDisposition::HoldForProbe),
    }
}

/// `libmcp::HostSessionKernel::cold`: a kernel that has seen nothing.
pub assume_specification[ libmcp::HostSessionKernel::cold ]() -> (kernel: libmcp::HostSessionKernel)
    ensures
        kernel_pending(kernel) == cold_view().pending,
        kernel_session(kernel) == cold_view().session,
;

/// `libmcp::HostSessionKernel::session_phase`: the phase of the session.
pub assume_specification[ libmcp::HostSessionKernel::session_phase ](
    kernel: &libmcp::HostSessionKernel,
) -> (phase: libmcp::SessionPhase)
    ensures
        phase == kernel_session(*kernel).phase,
;

/// `libmcp::HostSessionKernel::initialization_seed`: whether the session has
/// seen an `initialize` request.
#[verifier::external_body]
pub(crate) fn seed_captured(kernel: &HostSessionKernel) -> (captured: bool)
    ensures
        captured == kernel_session(*kernel).seed is Some,
{
    kernel.initialization_seed().is_some()
}

/// `libmcp::HostSessionKernel::observe_client_frame`: an `initialize` request
/// is kept as the seed of a cold session, the notification that completes the
/// handshake makes the session live, a frame that does not fit is refused and
/// changes nothing, and any other frame is let through.
#[verifier::external_body]
pub(crate) fn observe_client_frame(kernel: &mut HostSessionKernel, frame: &Frame) -> (outcome: Result<
    (),
    HostRejection,
>)
    ensures
        outcome == (match observed(kernel_view(*old(kernel)), frame@) {
            Some(_) => Ok::<(), HostRejection>(()),
            None => Err::<(), HostRejection>(HostRejection::InvalidExecutionState),
        }),
        kernel_view(*final(kernel)) == (match observed(kernel_view(*old(kernel)), frame@) {
            Some(after) => after,
            None => kernel_view(*old(kernel)),
        }),
{
    kernel.observe_client_frame(frame.message())
}

/// `libmcp::HostSessionKernel::begin_request_dispatch` with room for one
/// pending request and nothing queued: refuses a frame that is no request,
/// any request while one is pending, and an `initialize` request that does
/// not fit the session; otherwise the request is pending and in flight.
///
/// Which of the two refusals comes while a request is pending is left open
/// for an identifier that is no integer and no text.
#[verifier::external_body]
pub(crate) fn begin_request_dispatch(
    kernel: &mut HostSessionKernel,
    frame: &Frame,
    contract: ReplayContract,
    pending_capacity: usize,
) -> (outcome: Result<(), HostRejection>)
    requires
        pending_capacity == 1,
        kernel_session(*old(kernel)).queue.len() == 0,
    ensures
        outcome is Ok <==> begin_accepts(kernel_view(*old(kernel)), frame@),
        outcome is Err ==> begin_refusal(kernel_view(*old(kernel)), frame@, outcome->Err_0),
        kernel_view(*final(kernel)) == (if outcome is Ok {
            begun(kernel_view(*old(kernel)), frame@, contract)
        } else {
            kernel_view(*old(kernel))
        }),
{
    kernel.begin_request_dispatch(frame.message(), contract, pending_capacity).map(|_| ())
}

/// `libmcp::HostSessionKernel::pending_request` with
/// `libmcp::PendingRequest::replay_attempts`: how often the pending request
/// with this identifier was dispatched again; nothing where none is pending.
///
/// Nothing is said of an identifier that is no integer and no text and stands
/// for no pending request, while another is pending.
#[verifier::external_body]
pub(crate) fn pending_attempts(kernel: &HostSessionKernel, id: &serde_json::Value) -> (attempts: Option<
    u8,
>)
    ensures
        kernel_pending(*kernel).dom().contains(json_of(*id)) ==> attempts == Some(
            kernel_pending(*kernel)[json_of(*id)].attempts,
        ),
        !kernel_pending(*kernel).dom().contains(json_of(*id)) && (!(json_of(*id) is Fraction)
            || kernel_pending(*kernel) == Map::<JsonView, Invocation>::empty()) ==> attempts is None,
{
    let id = libmcp::RequestId::from_json_value(id)?;
    kernel.pending_request(&id).map(libmcp::PendingRequest::replay_attempts)
}

/// `libmcp::HostSessionKernel::complete_response` with nothing queued but the
/// only pending request: the request that the response answers is no longer
/// pending nor queued; a response to `initialize` opens the session further,
/// or closes it where it is an error.
/// A response that answers no pending request is refused and changes nothing.
///
/// For an identifier that is no integer and no text only this is said: where
/// the response is taken, one request is no longer pending.
#[verifier::external_body]
pub(crate) fn complete_response(kernel: &mut HostSessionKernel, frame: &Frame) -> (outcome: Result<
    (),
    HostRejection,
>)
    requires
        kernel_session(*old(kernel)).queue.len() == 0 || exists|id: JsonView, request: Invocation|
            #[trigger] only_pending(kernel_view(*old(kernel)), id, request) && kernel_session(
                *old(kernel),
            ).queue == seq![request.payload],
    ensures
        !answers_fraction(frame@) ==> outcome == completion(kernel_view(*old(kernel)), frame@),
        outcome is Ok ==> completes(kernel_view(*old(kernel)), kernel_view(*final(kernel)), frame@),
        outcome is Err ==> kernel_view(*final(kernel)) == kernel_view(*old(kernel)),
{
    kernel.complete_response(frame.message()).map(|_| ())
}

/// `libmcp::HostSessionKernel::requeue_pending_for_replay` with at most one
/// request pending, its outcome not known yet, and nothing queued: the request
/// is scheduled and queued, or rejected and no longer pending. The reason of
/// the rejection is returned.
#[verifier::external_body]
pub(crate) fn requeue_pending_for_replay(
    kernel: &mut HostSessionKernel,
    max_attempts: u8,
    queue_capacity: usize,
) -> (rejected: Option<HostRejection>)
    requires
        kernel_session(*old(kernel)).queue.len() == 0,
        kernel_pending(*old(kernel)) == Map::<JsonView, Invocation>::empty() || exists|
            id: JsonView,
            request: Invocation,
        |
            #[trigger] only_pending(kernel_view(*old(kernel)), id, request) && (
            request.knowledge is InFlight || request.knowledge is OutcomeUnknown),
    ensures
        kernel_pending(*old(kernel)) == Map::<JsonView, Invocation>::empty() ==> rejected is None,
        kernel_pending(*old(kernel)) == Map::<JsonView, Invocation>::empty() ==> kernel_view(
            *final(kernel),
        ) == kernel_view(*old(kernel)),
        (forall|id: JsonView, request: Invocation| #[trigger]
            only_pending(kernel_view(*old(kernel)), id, request) ==> rejected == after_loss(
                request,
                max_attempts as nat,
                queue_capacity as nat,
            ).err()),
        (forall|id: JsonView, request: Invocation| #[trigger]
            only_pending(kernel_view(*old(kernel)), id, request) ==> kernel_view(*final(kernel)) == (
            match after_loss(request, max_attempts as nat, queue_capacity as nat) {
                Err(_) => KernelView { pending: Map::empty(), ..kernel_view(*old(kernel)) },
                Ok(disposition) => KernelView {
                    pending: Map::<JsonView, Invocation>::empty().insert(
                        id,
                        Invocation {
                            knowledge: ExecutionKnowledge::OutcomeUnknown,
                            scheduled: Some(disposition),
                            ..request
                        },
                    ),
                    session: KernelSession {
                        queue: seq![request.payload],
                        ..kernel_session(*old(kernel))
                    },
                },
            })),
{
    let budget = libmcp::ReplayBudget { max_attempts, queue_capacity };
    kernel.requeue_pending_for_replay(budget).rejected.into_iter().next().map(|r| r.reason)
}

/// What the kernel allows to be dispatched next.
pub(crate) enum Dispatch {
    /// A pending request, once more: its bytes.
    Replay(Vec<u8>),
    /// Anything else.
    Other,
}

/// `libmcp::HostSessionKernel::pop_next_dispatch` with nothing queued, or one
/// scheduled request: a request that is scheduled for replay is in flight once
/// more, and the attempt counts; otherwise nothing changes.
#[verifier::external_body]
pub(crate) fn pop_next_dispatch(kernel: &mut HostSessionKernel) -> (outcome: Result<
    Dispatch,
    HostRejection,
>)
    requires
        kernel_session(*old(kernel)).queue.len() == 0 || exists|id: JsonView, request: Invocation|
            #[trigger] only_pending(kernel_view(*old(kernel)), id, request) && kernel_session(
                *old(kernel),
            ).queue == seq![request.payload] && (request.scheduled == Some(
                RequestDisposition::Replay,
            ) || request.scheduled == Some(RequestDisposition::HoldForProbe))
                && request.knowledge is OutcomeUnknown && request.attempts < u8::MAX,
    ensures
        kernel_session(*old(kernel)).queue.len() == 0 ==> (outcome matches Ok(dispatch)
            && dispatch is Other),
        kernel_session(*old(kernel)).queue.len() == 0 ==> kernel_view(*final(kernel)) == kernel_view(
            *old(kernel),
        ),
        (forall|id: JsonView, request: Invocation| #[trigger]
            only_pending(kernel_view(*old(kernel)), id, request) && kernel_session(
                *old(kernel),
            ).queue.len() > 0 ==> (outcome matches Ok(dispatch) && (if request.scheduled == Some(
                RequestDisposition::Replay,
            ) {
                dispatch matches Dispatch::Replay(payload) && payload@ == request.payload
            } else {
                dispatch is Other
            }))),
        (forall|id: JsonView, request: Invocation| #[trigger]
            only_pending(kernel_view(*old(kernel)), id, request) && kernel_session(
                *old(kernel),
            ).queue.len() > 0 ==> kernel_view(*final(kernel)) == (if request.scheduled == Some(
                RequestDisposition::Replay,
            ) {
                KernelView {
                    pending: Map::<JsonView, Invocation>::empty().insert(
                        id,
                        Invocation {
                            knowledge: ExecutionKnowledge::InFlight,
                            attempts: (request.attempts + 1) as u8,
                            scheduled: None,
                            ..request
                        },
                    ),
                    session: KernelSession { queue: Seq::empty(), ..kernel_session(*old(kernel)) },
                }
            } else {
                kernel_view(*old(kernel))
            })),
{
    kernel.pop_next_dispatch().map(|outcome| match outcome {
        libmcp::DispatchQueueOutcome::Replay(frame) => Dispatch::Replay(frame.payload().to_vec()),
        libmcp::DispatchQueueOutcome::ClientFrame(_) => Dispatch::Other,
        libmcp::DispatchQueueOutcome::HeldForProbe { .. } => Dispatch::Other,
        libmcp::DispatchQueueOutcome::Empty => Dispatch::Other,
    })
}

/// At most one request is pending, and its outcome is not known.
pub open spec fn few_pending(kernel: KernelView) -> bool {
    kernel.pending == Map::<JsonView, Invocation>::empty() || exists|
        id: JsonView,
        request: Invocation,
    | #[trigger]
        only_pending(kernel, id, request) && (request.knowledge is InFlight
            || request.knowledge is OutcomeUnknown)
}

/// No pending request waits for another dispatch, and none was dispatched
/// again more often than this.
pub open spec fn idle_pending(kernel: KernelView, max_attempts: nat) -> bool {
    forall|id: JsonView| #[trigger]
        kernel.pending.dom().contains(id) ==> kernel.pending[id].scheduled is None
            && kernel.pending[id].attempts <= max_attempts
}

/// The bytes of the pending requests are within a limit.
pub open spec fn pending_within(kernel: KernelView, max_frame_bytes: nat) -> bool {
    forall|id: JsonView| #[trigger]
        kernel.pending.dom().contains(id) ==> kernel.pending[id].payload.len() <= max_frame_bytes
}

/// No pending request is the one that opens the session.
pub open spec fn no_pending_opening(kernel: KernelView) -> bool {
    forall|id: JsonView| #[trigger]
        kernel.pending.dom().contains(id) ==> !kernel.pending[id].initialize
}

/// The frames of the seed are what they are kept as.
pub open spec fn seed_reads(session: KernelSession) -> bool {
    session.seed matches Some(seed) ==> {
        &&& frame_reading(seed.payload) matches Ok(frame) && (frame.kind matches
            FrameKindView::Request { id, method } && opens_session(method) && (!(
        seed.id is Fraction) ==> id == seed.id))
        &&& seed.initialized matches Some(payload) ==> (frame_reading(payload) matches Ok(frame)
            && (frame.kind matches FrameKindView::Notification { method } && completes_handshake(
            method,
        )))
    }
}

/// The pending request is the one that opens the session.
pub open spec fn opening(
    kernel: KernelView,
    seed: Seed,
    id: JsonView,
    request: Invocation,
) -> bool {
    &&& only_pending(kernel, id, request)
    &&& !(seed.id is Fraction) ==> id == seed.id
    &&& request.initialize
    &&& request.payload == seed.payload
}

/// The phase of the session agrees with its seed and the pending requests.
pub open spec fn sound(kernel: KernelView) -> bool {
    &&& seed_reads(kernel.session)
    &&& match kernel.session.phase {
        SessionPhase::Cold => no_pending_opening(kernel) && (
        kernel.session.seed matches Some(seed) ==> seed.initialized is None),
        SessionPhase::Initializing => kernel.session.seed matches Some(seed)
            && seed.initialized is None && exists|id: JsonView, request: Invocation| #[trigger]
            opening(kernel, seed, id, request),
        SessionPhase::AwaitingInitialized => no_pending_opening(kernel) && (
        kernel.session.seed matches Some(seed) && seed.initialized is None),
        SessionPhase::Live => no_pending_opening(kernel) && (
        kernel.session.seed matches Some(seed) && seed.initialized is Some),
    }
}

/// A snapshot that can be taken back: nothing is queued, at most one request is
/// pending and does not wait for another dispatch, the session is sound, its
/// identifier is read back as it is, and all frames are within the limit.
pub open spec fn takes_back(kernel: KernelView, max_frame_bytes: nat, max_attempts: nat) -> bool {
    &&& few_pending(kernel)
    &&& idle_pending(kernel, max_attempts)
    &&& pending_within(kernel, max_frame_bytes)
    &&& kernel.session.queue.len() == 0
    &&& sound(kernel)
    &&& kernel.session.seed matches Some(seed) ==> {
        &&& !(seed.id is Fraction)
        &&& seed.payload.len() <= max_frame_bytes
        &&& seed.initialized matches Some(payload) ==> payload.len() <= max_frame_bytes
    }
}

/// Whether a snapshot has the form that this version of the kernel writes: its
/// version is the current one, and each pending request is kept once, under
/// the identifier and the method of its own frame, with a number below the
/// next one.
pub uninterp spec fn snapshot_current(snapshot: HostSessionKernelSnapshot) -> bool;

/// `libmcp::HostSessionKernel::snapshot`: the snapshot holds what the kernel
/// holds, in the form that this version writes.
#[verifier::external_body]
pub(crate) fn take_snapshot(kernel: &HostSessionKernel) -> (snapshot: HostSessionKernelSnapshot)
    ensures
        snapshot_pending(snapshot) == kernel_pending(*kernel),
        snapshot_session(snapshot) == kernel_session(*kernel),
        snapshot_current(snapshot),
{
    kernel.snapshot()
}

/// What a kernel that was taken back is like: it holds what the snapshot held,
/// nothing is queued or waits for another dispatch, and the session is sound.
pub open spec fn taken_back(
    kernel: HostSessionKernel,
    snapshot: HostSessionKernelSnapshot,
    max_attempts: nat,
) -> bool {
    &&& kernel_view(kernel) == snapshot_view(snapshot)
    &&& kernel_session(kernel).queue.len() == 0
    &&& few_pending(kernel_view(kernel))
    &&& idle_pending(kernel_view(kernel), max_attempts)
    &&& sound(kernel_view(kernel))
}

/// `libmcp::HostSessionKernelSnapshot::restore` with
/// `libmcp::SnapshotLimits::try_new`, for at most one pending request and none
/// queued: the kernel holds what the snapshot holds. A snapshot in the form
/// that this version writes is taken back where its session is sound, its
/// frames are within the limit, and the pending request, if there is one, does
/// not wait for another dispatch and was not dispatched again too often.
/// Nothing is said of why another one is refused.
#[verifier::external_body]
pub(crate) fn restore_snapshot(
    snapshot: HostSessionKernelSnapshot,
    max_pending: usize,
    max_queued: usize,
    max_frame_bytes: usize,
    max_replay_attempts: u8,
) -> (kernel: Result<HostSessionKernel, String>)
    requires
        max_pending == 1,
        max_queued == 0,
        max_frame_bytes > 0,
    ensures
        kernel is Ok ==> taken_back(kernel->Ok_0, snapshot, max_replay_attempts as nat),
        snapshot_current(snapshot) && takes_back(
            snapshot_view(snapshot),
            max_frame_bytes as nat,
            max_replay_attempts as nat,
        ) ==> kernel is Ok,
{
    libmcp::SnapshotLimits::try_new(max_pending, max_queued, max_frame_bytes, max_replay_attempts)
        .map_err(|error| error.to_string())
        .and_then(|limits| snapshot.restore(limits).map_err(|error| error.to_string()))
}

} // verus!
