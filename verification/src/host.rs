//! The host of a public session: it admits each frame of the client, answers
//! it itself or has the worker answer it, and survives the loss of a worker.
//!
//! Whatever the host needs from outside (a worker process, the file system,
//! the clock) is asked for as a step; what came of it is handed back, and the
//! next step follows.

use vstd::prelude::*;

use libmcp::{
    ExecutionKnowledge, HostRejection, HostSessionKernel, ReplayContract, RequestDisposition,
    RolloutState, SessionPhase,
};

use crate::catalog::{DispatchTarget, tool_named, tool_spec};
use crate::fault::{
    ErrorDetail, FaultRecord, FaultRecordView, FaultStage, Generation, internal_record,
    invalid_input_record, invalid_request_record, jsonrpc_error_json, not_initialized_record,
    parse_error_record, rejection_record, retried_record, rollout_record, tool_failure_json,
    unavailable_record,
};
use crate::frame::{
    Frame, FrameFault, FrameFaultView, FrameKind, FrameKindView, FrameView, encode, error_object,
    exact_id, frame_reading, nests_within, response_json, shallow, well_read,
};
use crate::json::{Json, JsonView, json_value};
use crate::kernel::{
    Dispatch, Invocation, KernelSession, KernelView, begin_accepts, begin_refusal,
    begin_request_dispatch, begun, completable, complete_response, completed, few_pending,
    idle_pending, kernel_view, no_pending_opening, observe_client_frame, observed, cold_view,
    only_pending, opening, opens_session, pending_attempts, pop_next_dispatch, requeue_pending_for_replay,
    restore_snapshot, seed_captured, snapshot_current, snapshot_view, sound, take_snapshot,
    takes_back,
};
use crate::output::{
    Presentation, presentation_split, split_presentation, success_json, tool_success,
};
use crate::path::LocalPath;
use crate::protocol::{
    HostRequestId, HostStateSeed, OperationView, ProjectBinding, WorkerOperation,
};
use crate::reports::{
    ResolvedProjectBinding, bind_output, binding_view, health_output, project_bind_output,
    system_health_output, system_telemetry_output, telemetry_output,
};
use crate::routing::{
    ToolMeta, contract_of, elapsed_ms, envelope_of, initialize_json, initialize_result,
    jsonrpc_error, jsonrpc_result, operation_key, operation_key_of, replay_contract, text_arguments,
    text_fields, tool_call_envelope, tool_list, tool_list_json, tool_meta, tool_meta_of,
    worker_asked, worker_dispatch,
};
use crate::store::LayoutView;
use crate::supervisor::{
    ReplyOutcome, SendOutcome, SpawnOutcome, SpawnPlan, WorkerSupervisor, WorkerView, after_reply,
    after_send, reply_result, send_fault, spawn_fault,
};
use crate::telemetry::{
    HealthReport, LedgerView, ServerTelemetry, TelemetryReport, TelemetryView, error_counted,
    lists_methods, new_ledger, uptime, worker_states,
};
use crate::order::ranked;
use crate::text::{concat, concat3, same_text};

verus! {

/// How many requests may be pending.
pub const PENDING_CAPACITY: usize = 1;

/// How many requests may wait for another dispatch.
pub const RECOVERY_QUEUE_CAPACITY: usize = 1;

/// How often a request may be dispatched again.
pub const MAX_REPLAY_ATTEMPTS: u8 = 1;

/// The identifiers of the requests to the worker: counted up, from one on.
pub struct RequestNumbers {
    next: u64,
}

impl View for RequestNumbers {
    type V = u64;

    closed spec fn view(&self) -> u64 {
        self.next
    }
}

impl RequestNumbers {
    #[verifier::type_invariant]
    spec fn well_formed(self) -> bool {
        self.next > 0
    }

    /// Counting goes on here, but never before one.
    pub fn starting_at(next: u64) -> (numbers: Self)
        ensures
            numbers@ == (if next == 0 {
                1
            } else {
                next
            }),
    {
        RequestNumbers {
            next: if next == 0 {
                1
            } else {
                next
            },
        }
    }

    /// The next identifier.
    pub fn next(&self) -> (next: u64)
        ensures
            next == self@,
            next > 0,
    {
        proof {
            use_type_invariant(self);
        }
        self.next
    }
}

/// What a host knows.
pub struct HostState {
    pub binding: Option<ProjectBinding>,
    pub kernel: HostSessionKernel,
    pub telemetry: ServerTelemetry,
    /// The identifiers of the requests to the worker.
    pub numbers: RequestNumbers,
    pub worker: WorkerSupervisor,
    /// The operation to roll forward after, once.
    pub force_rollout_key: Option<String>,
    pub force_rollout_consumed: bool,
    pub rollout_requested: bool,
    /// The operation to lose a worker in, once.
    pub crash_once_key: Option<String>,
    pub crash_once_consumed: bool,
    /// The moment before which no rollout is tried.
    pub retry_not_before: Option<u64>,
}

/// What a host knows, in plain values.
pub struct HostView {
    pub binding: Option<LayoutView>,
    pub kernel: KernelView,
    pub telemetry: TelemetryView,
    pub next_request_id: u64,
    pub worker: WorkerView,
    pub force_rollout_key: Option<Seq<char>>,
    pub force_rollout_consumed: bool,
    pub rollout_requested: bool,
    pub crash_once_key: Option<Seq<char>>,
    pub crash_once_consumed: bool,
    pub retry_not_before: Option<u64>,
}

impl View for HostState {
    type V = HostView;

    open spec fn view(&self) -> HostView {
        HostView {
            binding: binding_view(self.binding),
            kernel: kernel_view(self.kernel),
            telemetry: self.telemetry@,
            next_request_id: self.numbers@,
            worker: self.worker@,
            force_rollout_key: crate::output::optional_text(self.force_rollout_key),
            force_rollout_consumed: self.force_rollout_consumed,
            rollout_requested: self.rollout_requested,
            crash_once_key: crate::output::optional_text(self.crash_once_key),
            crash_once_consumed: self.crash_once_consumed,
            retry_not_before: self.retry_not_before,
        }
    }
}

impl HostView {
    /// With other counters.
    pub open spec fn with_ledger(self, ledger: LedgerView) -> HostView {
        HostView { telemetry: TelemetryView { ledger, ..self.telemetry }, ..self }
    }

    /// The counters.
    pub open spec fn ledger(self) -> LedgerView {
        self.telemetry.ledger
    }

    /// The generation of the worker.
    pub open spec fn generation(self) -> Generation {
        self.worker.generation
    }
}

/// The method of a request or a notification.
pub open spec fn method_of(frame: FrameView) -> Seq<char> {
    match frame.kind {
        FrameKindView::Request { id, method } => method,
        FrameKindView::Notification { method } => method,
        FrameKindView::Response { .. } => ""@,
    }
}

/// The identifier of a request.
pub open spec fn id_of(frame: FrameView) -> Option<JsonView> {
    match frame.kind {
        FrameKindView::Request { id, method } => Some(id),
        _ => None,
    }
}

/// What the counters of a frame are kept under.
pub open spec fn key_of(frame: FrameView) -> Seq<char> {
    operation_key_of(method_of(frame), frame.params())
}

/// What the counters of the call of a tool are kept under.
pub open spec fn tool_operation(name: Seq<char>) -> Seq<char> {
    "tools/call:"@ + name
}

/// The call of a tool of the worker, in plain values.
pub struct CallView {
    pub frame: FrameView,
    pub name: Seq<char>,
    pub replay: ReplayContract,
    pub arguments: JsonView,
}

impl CallView {
    /// What the counters of the call are kept under.
    pub open spec fn operation(self) -> Seq<char> {
        tool_operation(self.name)
    }
}

/// What the next worker is started for, once one was lost.
pub enum Restart {
    /// Another dispatch of the call, under this identifier.
    Replay(HostRequestId),
    /// Nothing but to take the place of the one that was lost; the call is
    /// answered with this rejection.
    Abandon(HostRejection),
}

/// What a worker is started for.
pub enum SpawnStage {
    /// The first dispatch of a call.
    First,
    /// This dispatch, where the worker that was to get it has gone meanwhile.
    Dispatch(Attempt),
    /// To take the place of the one that was lost.
    Restart(Restart),
}

/// One dispatch of a call.
#[derive(Clone, Copy, Debug)]
pub struct Attempt {
    pub id: HostRequestId,
    /// Whether the call was dispatched before.
    pub replayed: bool,
}

/// Which arguments a document does not hold.
#[derive(Clone, Copy, Debug)]
pub enum ArgumentShape {
    /// The call of a tool: a name and its arguments.
    ToolCall,
    /// A path.
    ProjectBind,
}

/// What came of a request: an answer, no answer, or a fault.
pub type Outcome = Result<Option<JsonView>, FaultRecordView>;

/// What a host does next, in plain values.
pub enum StepView {
    /// The frame needs no answer, and does not count.
    Silent(HostView),
    /// The bytes are no message; the answer.
    Answer(HostView, JsonView),
    /// The request has come to its end.
    Settle(HostView, FrameView, Outcome),
    /// The arguments for an operation have another shape; say how.
    Explain(HostView, FrameView, Seq<char>, ArgumentShape, JsonView),
    /// Find the project of a path.
    Bind(HostView, FrameView, Presentation, Seq<char>),
    /// Look at the health of the host.
    Health(HostView, FrameView, Presentation),
    /// Look at the telemetry of the host.
    Telemetry(HostView, FrameView, Presentation),
    /// See whether the worker still runs, before this dispatch or before the
    /// call is pending at all.
    Probe(HostView, CallView, Option<Attempt>),
    /// Start a worker of this generation.
    Spawn(HostView, CallView, SpawnStage, Generation),
    /// Send the call to the worker.
    Send(HostView, CallView, Attempt),
    /// Wait for the answer of the worker.
    Read(HostView, CallView, Attempt),
    /// The counters are exhausted, or do not belong to this session.
    Halt,
}

/// A request that ends in a fault.
pub open spec fn failed(host: HostView, frame: FrameView, fault: FaultRecordView) -> StepView {
    StepView::Settle(host, frame, Err(fault))
}

/// A fault for a refusal of the kernel to dispatch a request.
pub open spec fn refused(
    kernel: KernelView,
    frame: FrameView,
    generation: Generation,
    operation: Seq<char>,
    fault: FaultRecordView,
) -> bool {
    exists|rejection: HostRejection| #[trigger]
        begin_refusal(kernel, frame, rejection) && fault == rejection_record(
            generation,
            FaultStage::Host,
            operation,
            rejection,
        )
}

/// The answer to a frame that needs neither the worker nor a tool; nothing
/// where it is the call of a tool.
pub open spec fn direct_outcome(host: HostView, method: Seq<char>) -> Option<Outcome> {
    if method == "initialize"@ {
        Some(Ok(Some(initialize_json())))
    } else if method == "notifications/initialized"@ {
        if host.kernel.session.seed is Some {
            Some(Ok(None))
        } else {
            Some(
                Err(
                    not_initialized_record(
                        host.generation(),
                        FaultStage::Host,
                        "notifications/initialized"@,
                        "received initialized notification before initialize"@,
                    ),
                ),
            )
        }
    } else if method == "notifications/cancelled"@ {
        Some(Ok(None))
    } else if method == "ping"@ {
        Some(Ok(Some(JsonView::Object(Map::empty()))))
    } else if host.kernel.session.phase != SessionPhase::Live {
        Some(
            Err(
                not_initialized_record(
                    host.generation(),
                    FaultStage::Host,
                    method,
                    "client must call initialize and notifications/initialized before normal operations"@,
                ),
            ),
        )
    } else if method == "tools/list"@ {
        Some(Ok(Some(tool_list_json())))
    } else if method == "tools/call"@ {
        None
    } else {
        Some(
            Err(
                invalid_input_record(
                    host.generation(),
                    FaultStage::Protocol,
                    method,
                    "method `"@ + method + "` is not implemented"@,
                ),
            ),
        )
    }
}

/// What follows the call of a tool of the host.
pub open spec fn host_tool_step(
    host: HostView,
    frame: FrameView,
    name: Seq<char>,
    arguments: JsonView,
) -> StepView {
    let operation = tool_operation(name);
    match presentation_split(arguments, operation, host.generation(), FaultStage::Host) {
        Err(fault) => failed(host, frame, fault),
        Ok((presentation, rest)) => if name == "project.bind"@ {
            match text_fields(rest, seq!["path"@]) {
                Some(fields) => StepView::Bind(host, frame, presentation, fields[0]),
                None => StepView::Explain(
                    host,
                    frame,
                    operation,
                    ArgumentShape::ProjectBind,
                    rest,
                ),
            }
        } else if name == "system.health"@ {
            StepView::Health(host, frame, presentation)
        } else if name == "system.telemetry"@ {
            StepView::Telemetry(host, frame, presentation)
        } else {
            failed(
                host,
                frame,
                invalid_input_record(
                    host.generation(),
                    FaultStage::Host,
                    operation,
                    "unknown host tool `"@ + name + "`"@,
                ),
            )
        },
    }
}

/// What follows the call of a tool.
pub open spec fn tool_step(host: HostView, frame: FrameView) -> StepView {
    match envelope_of(frame.params()) {
        None => StepView::Explain(
            host,
            frame,
            "tools/call"@,
            ArgumentShape::ToolCall,
            frame.params(),
        ),
        Some(envelope) => match tool_named(envelope.name) {
            None => failed(
                host,
                frame,
                invalid_input_record(
                    host.generation(),
                    FaultStage::Host,
                    tool_operation(envelope.name),
                    "unknown tool `"@ + envelope.name + "`"@,
                ),
            ),
            Some(tool) => match tool.dispatch {
                DispatchTarget::Host => host_tool_step(
                    host,
                    frame,
                    envelope.name,
                    envelope.arguments,
                ),
                DispatchTarget::Worker => call_step(
                    host,
                    CallView {
                        frame,
                        name: tool.name,
                        replay: tool.replay,
                        arguments: envelope.arguments,
                    },
                ),
            },
        },
    }
}

/// What follows a frame that was admitted.
pub open spec fn dispatch_step(host: HostView, frame: FrameView) -> StepView {
    match direct_outcome(host, method_of(frame)) {
        Some(outcome) => StepView::Settle(host, frame, outcome),
        None => tool_step(host, frame),
    }
}

/// The host once a request for this operation counts.
pub open spec fn admitted(host: HostView, frame: FrameView) -> HostView {
    host.with_ledger(host.ledger().with_request(key_of(frame)))
}

/// `step` is what follows a frame.
pub open spec fn frame_step(host: HostView, frame: FrameView, step: StepView) -> bool {
    if frame.kind is Response {
        step == StepView::Silent(host)
    } else if !host.ledger().request_fits(key_of(frame)) {
        step == StepView::Halt
    } else {
        let counted = admitted(host, frame);
        match observed(host.kernel, frame) {
            None => step == failed(
                counted,
                frame,
                rejection_record(
                    host.generation(),
                    FaultStage::Protocol,
                    key_of(frame),
                    HostRejection::InvalidExecutionState,
                ),
            ),
            Some(kernel) => {
                let seen = HostView { kernel, ..counted };
                if frame.kind is Notification || worker_asked(method_of(frame), frame.params()) {
                    step == dispatch_step(seen, frame)
                } else if begin_accepts(kernel, frame) {
                    step == dispatch_step(
                        HostView {
                            kernel: begun(
                                kernel,
                                frame,
                                contract_of(method_of(frame), frame.params()),
                            ),
                            ..seen
                        },
                        frame,
                    )
                } else {
                    step matches StepView::Settle(after, same, Err(fault)) && after == seen && same
                        == frame && refused(
                        kernel,
                        frame,
                        host.generation(),
                        key_of(frame),
                        fault,
                    )
                }
            },
        }
    }
}

/// `step` is what follows some bytes of the client.
pub open spec fn payload_step(host: HostView, payload: Seq<u8>, step: StepView) -> bool {
    match frame_reading(payload) {
        Ok(frame) => frame_step(host, frame, step),
        Err(FrameFaultView::InvalidJson(detail)) => step == StepView::Answer(
            host,
            response_json(
                JsonView::Null,
                true,
                jsonrpc_error_json(
                    parse_error_record(
                        host.generation(),
                        "jsonrpc.parse"@,
                        "parse error: "@ + detail,
                    ),
                ),
            ),
        ),
        Err(FrameFaultView::Malformed(detail)) => step == StepView::Answer(
            host,
            response_json(
                JsonView::Null,
                true,
                jsonrpc_error_json(
                    invalid_request_record(host.generation(), "jsonrpc.request"@, detail),
                ),
            ),
        ),
    }
}

/// Whether an operation is the one of a key that was not used up.
pub open spec fn key_due(key: Option<Seq<char>>, consumed: bool, operation: Seq<char>) -> bool {
    key == Some(operation) && !consumed
}

/// The host once it has seen to it that a worker is lost in this operation,
/// where that is due.
pub open spec fn armed(host: HostView, operation: Seq<char>) -> HostView {
    if key_due(host.crash_once_key, host.crash_once_consumed, operation) {
        HostView {
            crash_once_consumed: true,
            worker: WorkerView { crash_armed: true, ..host.worker },
            ..host
        }
    } else {
        host
    }
}

/// What follows the call of a tool of the worker.
pub open spec fn call_step(host: HostView, call: CallView) -> StepView {
    match host.binding {
        None => failed(
            host,
            call.frame,
            unavailable_record(
                host.generation(),
                FaultStage::Host,
                call.operation(),
                "project is not bound; call project.bind with the target project root or a nested path inside it"@,
            ),
        ),
        Some(binding) => {
            let bound = armed(
                HostView { worker: host.worker.rebound(binding.worktree_root), ..host },
                call.operation(),
            );
            if bound.worker.attached {
                StepView::Probe(bound, call, None)
            } else {
                spawn_step(bound, call, SpawnStage::First)
            }
        },
    }
}

/// What follows where no worker is there.
pub open spec fn spawn_step(host: HostView, call: CallView, stage: SpawnStage) -> StepView {
    match host.worker.spawn_refusal() {
        Some(fault) => spawn_failed(host, call, stage, fault),
        None => StepView::Spawn(host, call, stage, host.worker.next_generation()->0),
    }
}

/// What follows where no worker could be started.
pub open spec fn spawn_failed(
    host: HostView,
    call: CallView,
    stage: SpawnStage,
    fault: FaultRecordView,
) -> StepView {
    match stage {
        SpawnStage::First => failed(host, call.frame, fault),
        SpawnStage::Dispatch(attempt) => lost_step(host, call, attempt, fault),
        SpawnStage::Restart(restart) => restart_failed(host, call, restart, fault),
    }
}

/// What follows where a worker was lost and the next one is due.
pub open spec fn restart_step(host: HostView, call: CallView, restart: Restart) -> StepView {
    match host.worker.spawn_refusal() {
        Some(fault) => restart_failed(host, call, restart, fault),
        None => StepView::Spawn(
            host,
            call,
            SpawnStage::Restart(restart),
            host.worker.next_generation()->0,
        ),
    }
}

/// What follows where a worker was lost and the next one could not be started.
pub open spec fn restart_failed(
    host: HostView,
    call: CallView,
    restart: Restart,
    fault: FaultRecordView,
) -> StepView {
    match restart {
        Restart::Replay(_) => failed(host, call.frame, retried_record(fault)),
        Restart::Abandon(rejection) => if host.ledger().recovery_fault_fits(
            call.operation(),
            fault.fault,
        ) {
            failed(
                host.with_ledger(
                    host.ledger().with_recovery_fault(call.operation(), fault.fault),
                ),
                call.frame,
                abandoned_fault(host, call, rejection),
            )
        } else {
            StepView::Halt
        },
    }
}

/// The fault of a call that is not dispatched again.
pub open spec fn abandoned_fault(
    host: HostView,
    call: CallView,
    rejection: HostRejection,
) -> FaultRecordView {
    rejection_record(host.generation(), FaultStage::Host, call.operation(), rejection)
}

/// The host once the counters know of the worker that has started.
pub open spec fn replaced(host: HostView) -> Option<HostView> {
    let generation = host.generation().value as nat;
    if host.ledger().replacement_fits(generation) {
        Some(host.with_ledger(host.ledger().with_replacement(generation)))
    } else {
        None
    }
}

/// `step` is what follows where a worker is there for the first dispatch.
pub open spec fn ready_step(host: HostView, call: CallView, step: StepView) -> bool {
    if begin_accepts(host.kernel, call.frame) {
        step == begun_step(
            HostView { kernel: begun(host.kernel, call.frame, call.replay), ..host },
            call,
        )
    } else {
        step matches StepView::Settle(after, frame, Err(fault)) && after == host && frame
            == call.frame && refused(
            host.kernel,
            call.frame,
            host.generation(),
            call.operation(),
            fault,
        )
    }
}

/// What follows where the call is pending.
pub open spec fn begun_step(host: HostView, call: CallView) -> StepView {
    if host.next_request_id == u64::MAX {
        failed(
            host,
            call.frame,
            internal_record(
                host.generation(),
                FaultStage::Host,
                call.operation(),
                "private worker request identifier space is exhausted"@,
            ),
        )
    } else {
        execute_step(
            HostView { next_request_id: (host.next_request_id + 1) as u64, ..host },
            call,
            Attempt { id: HostRequestId { value: host.next_request_id }, replayed: false },
        )
    }
}

/// What follows where a dispatch is due: the worker that gets it must still
/// run.
pub open spec fn execute_step(host: HostView, call: CallView, attempt: Attempt) -> StepView {
    if host.worker.attached {
        StepView::Probe(host, call, Some(attempt))
    } else {
        spawn_step(host, call, SpawnStage::Dispatch(attempt))
    }
}

/// `step` is what follows where it is known whether the worker runs.
pub open spec fn probe_step(
    host: HostView,
    call: CallView,
    attempt: Option<Attempt>,
    running: bool,
    step: StepView,
) -> bool {
    let seen = HostView { worker: host.worker.observed(running), ..host };
    match attempt {
        None => if seen.worker.attached {
            ready_step(seen, call, step)
        } else {
            step == spawn_step(seen, call, SpawnStage::First)
        },
        Some(attempt) => if seen.worker.attached {
            step == StepView::Send(seen, call, attempt)
        } else {
            step == spawn_step(seen, call, SpawnStage::Dispatch(attempt))
        },
    }
}

/// The kernel once the only pending request waits for another dispatch.
pub open spec fn rescheduled(kernel: KernelView, id: JsonView) -> KernelView {
    let request = kernel.pending[id];
    KernelView {
        pending: Map::<JsonView, Invocation>::empty().insert(
            id,
            Invocation {
                knowledge: ExecutionKnowledge::OutcomeUnknown,
                scheduled: Some(RequestDisposition::Replay),
                ..request
            },
        ),
        session: KernelSession { queue: seq![request.payload], ..kernel.session },
    }
}

/// The kernel once the request that waited is dispatched again.
pub open spec fn redispatched(kernel: KernelView, id: JsonView) -> KernelView {
    let request = kernel.pending[id];
    KernelView {
        pending: Map::<JsonView, Invocation>::empty().insert(
            id,
            Invocation {
                knowledge: ExecutionKnowledge::InFlight,
                attempts: (request.attempts + 1) as u8,
                scheduled: None,
                ..request
            },
        ),
        session: KernelSession { queue: Seq::empty(), ..kernel.session },
    }
}

/// The kernel once the pending request was given up.
pub open spec fn given_up(kernel: KernelView) -> KernelView {
    KernelView { pending: Map::empty(), ..kernel }
}

/// `step` is what follows where it is known whether the worker has started.
pub open spec fn spawned_step(
    host: HostView,
    call: CallView,
    stage: SpawnStage,
    generation: Generation,
    outcome: SpawnOutcome,
    step: StepView,
) -> bool {
    match spawn_fault(generation, outcome) {
        Some(fault) => step == spawn_failed(host, call, stage, fault),
        None => {
            let started = HostView { worker: host.worker.started(generation), ..host };
            match stage {
                SpawnStage::First => if generation.value > host.generation().value {
                    match replaced(started) {
                        Some(after) => ready_step(after, call, step),
                        None => step == StepView::Halt,
                    }
                } else {
                    ready_step(started, call, step)
                },
                SpawnStage::Dispatch(attempt) => step == StepView::Send(started, call, attempt),
                SpawnStage::Restart(Restart::Replay(id)) => step == replay_step(started, call, id),
                SpawnStage::Restart(Restart::Abandon(rejection)) => match replaced(started) {
                    Some(after) => step == failed(
                        after,
                        call.frame,
                        abandoned_fault(after, call, rejection),
                    ),
                    None => step == StepView::Halt,
                },
            }
        },
    }
}

/// What follows where a worker is there for another dispatch.
pub open spec fn replay_step(host: HostView, call: CallView, id: HostRequestId) -> StepView {
    match replaced(host) {
        None => StepView::Halt,
        Some(after) => if !after.ledger().replay_fits(call.operation()) {
            StepView::Halt
        } else {
            execute_step(
                HostView {
                    kernel: redispatched(after.kernel, id_of(call.frame)->0),
                    ..after.with_ledger(after.ledger().with_replay(call.operation()))
                },
                call,
                Attempt { id, replayed: true },
            )
        },
    }
}

/// What follows where the call was sent, or not.
pub open spec fn sent_step(
    host: HostView,
    call: CallView,
    attempt: Attempt,
    outcome: SendOutcome,
) -> StepView {
    let after = HostView { worker: after_send(host.worker, outcome), ..host };
    match send_fault(host.worker, outcome) {
        None => StepView::Read(after, call, attempt),
        Some(fault) => lost_step(after, call, attempt, fault),
    }
}

/// What follows where the answer was read, or not.
pub open spec fn read_step(
    host: HostView,
    call: CallView,
    attempt: Attempt,
    outcome: ReplyOutcome,
) -> StepView {
    let after = HostView { worker: after_reply(host.worker, outcome), ..host };
    match reply_result(host.generation(), outcome) {
        Ok(result) => StepView::Settle(after, call.frame, Ok(Some(result))),
        Err(fault) => lost_step(after, call, attempt, fault),
    }
}

/// What follows where a dispatch came to nothing.
pub open spec fn lost_step(
    host: HostView,
    call: CallView,
    attempt: Attempt,
    fault: FaultRecordView,
) -> StepView {
    if !fault.retryable {
        failed(
            host,
            call.frame,
            if attempt.replayed {
                retried_record(fault)
            } else {
                fault
            },
        )
    } else if !host.ledger().recovery_fault_fits(call.operation(), fault.fault) {
        StepView::Halt
    } else {
        let counted = host.with_ledger(
            host.ledger().with_recovery_fault(call.operation(), fault.fault),
        );
        if attempt.replayed {
            failed(
                HostView { kernel: given_up(host.kernel), ..counted },
                call.frame,
                retried_record(
                    abandoned_fault(host, call, HostRejection::ReplayBudgetExhausted),
                ),
            )
        } else if call.replay is Convergent {
            restart_step(
                HostView {
                    kernel: rescheduled(host.kernel, id_of(call.frame)->0),
                    worker: host.worker.without_process(),
                    ..counted
                },
                call,
                Restart::Replay(attempt.id),
            )
        } else {
            restart_step(
                HostView {
                    kernel: given_up(host.kernel),
                    worker: host.worker.without_process(),
                    ..counted
                },
                call,
                Restart::Abandon(HostRejection::AmbiguousOutcome),
            )
        }
    }
}

/// Between two frames: nothing waits for dispatch, at most one request is
/// pending, it was dispatched twice at most, and the session is sound.
pub open spec fn quiet(kernel: KernelView) -> bool {
    &&& kernel.session.queue.len() == 0
    &&& few_pending(kernel)
    &&& idle_pending(kernel, MAX_REPLAY_ATTEMPTS as nat)
    &&& sound(kernel)
}

/// The calls that the worker gets: they are requests or notifications, and
/// none of them waits for a probe.
pub open spec fn worker_call(call: CallView) -> bool {
    &&& well_read(call.frame)
    &&& !(call.frame.kind is Response)
    &&& method_of(call.frame) == "tools/call"@
    &&& !(call.replay is ProbeRequired)
}

/// The pending request of a call in one of its dispatches.
pub open spec fn dispatched(call: CallView, attempt: Attempt) -> Invocation {
    Invocation {
        payload: call.frame.payload,
        initialize: false,
        contract: call.replay,
        knowledge: ExecutionKnowledge::InFlight,
        attempts: if attempt.replayed {
            1
        } else {
            0
        },
        scheduled: None,
    }
}

/// The call is pending, and nothing else is.
pub open spec fn serving(kernel: KernelView, call: CallView, attempt: Attempt) -> bool {
    &&& worker_call(call)
    &&& id_of(call.frame) is Some
    &&& kernel.session.queue.len() == 0
    &&& sound(kernel)
    &&& only_pending(kernel, id_of(call.frame)->0, dispatched(call, attempt))
    &&& attempt.replayed ==> call.replay is Convergent
}

/// The call waits for another dispatch.
pub open spec fn waiting(kernel: KernelView, call: CallView) -> bool {
    &&& worker_call(call)
    &&& call.replay is Convergent
    &&& id_of(call.frame) is Some
    &&& sound(kernel)
    &&& kernel.session.queue == seq![call.frame.payload]
    &&& only_pending(
        kernel,
        id_of(call.frame)->0,
        Invocation {
            knowledge: ExecutionKnowledge::OutcomeUnknown,
            scheduled: Some(RequestDisposition::Replay),
            ..dispatched(call, Attempt { id: HostRequestId { value: 0 }, replayed: false })
        },
    )
}

/// A request that has come to its end: nothing waits for dispatch but the
/// request itself, where it failed.
pub open spec fn settling(kernel: KernelView, frame: FrameView, outcome: Outcome) -> bool {
    &&& well_read(frame)
    &&& !(frame.kind is Response)
    &&& few_pending(kernel)
    &&& sound(kernel)
    &&& (kernel.session.queue.len() == 0 && idle_pending(kernel, MAX_REPLAY_ATTEMPTS as nat)) || (
    outcome is Err && id_of(frame) is Some && exists|
        request: Invocation,
    | #[trigger]
        only_pending(kernel, id_of(frame)->0, request) && kernel.session.queue
            == seq![request.payload])
}

proof fn lemma_few_pending(before: KernelView, after: KernelView)
    requires
        few_pending(before),
        after.pending == before.pending,
    ensures
        few_pending(after),
{
    if before.pending != Map::<JsonView, Invocation>::empty() {
        let (id, request) = choose|id: JsonView, request: Invocation| #[trigger]
            only_pending(before, id, request) && (request.knowledge is InFlight
                || request.knowledge is OutcomeUnknown);
        assert(only_pending(after, id, request));
    }
}

proof fn lemma_observed(kernel: KernelView, frame: FrameView)
    requires
        quiet(kernel),
        well_read(frame),
    ensures
        observed(kernel, frame) matches Some(after) ==> quiet(after) && after.pending
            == kernel.pending,
{
    if let Some(after) = observed(kernel, frame) {
        lemma_few_pending(kernel, after);
        if after != kernel {
            assert(no_pending_opening(kernel) ==> no_pending_opening(after));
        }
    }
}

proof fn lemma_pending_not_opening(kernel: KernelView)
    requires
        sound(kernel),
        kernel.session.phase == SessionPhase::Initializing,
    ensures
        kernel.pending != Map::<JsonView, Invocation>::empty(),
{
    let seed = kernel.session.seed->0;
    let (id, request) = choose|id: JsonView, request: Invocation| #[trigger]
        opening(kernel, seed, id, request);
    assert(kernel.pending.dom().contains(id));
}

proof fn lemma_begun(kernel: KernelView, frame: FrameView, contract: ReplayContract)
    requires
        quiet(kernel),
        well_read(frame),
        begin_accepts(kernel, frame),
    ensures
        quiet(begun(kernel, frame, contract)),
        only_pending(
            begun(kernel, frame, contract),
            id_of(frame)->0,
            Invocation {
                payload: frame.payload,
                initialize: opens_session(method_of(frame)),
                contract,
                knowledge: ExecutionKnowledge::InFlight,
                attempts: 0,
                scheduled: None,
            },
        ),
{
    let after = begun(kernel, frame, contract);
    let id = id_of(frame)->0;
    let request = after.pending[id];
    assert(only_pending(after, id, request));
    if kernel.session.phase == SessionPhase::Initializing {
        lemma_pending_not_opening(kernel);
    }
    if opens_session(method_of(frame)) {
        let seed = after.session.seed->0;
        assert(opening(after, seed, id, request));
    } else {
        assert(no_pending_opening(after));
    }
}

proof fn lemma_only_key(kernel: KernelView, key: JsonView)
    requires
        few_pending(kernel),
        kernel.pending.dom().contains(key),
    ensures
        only_pending(kernel, key, kernel.pending[key]),
        kernel.pending[key].knowledge is InFlight || kernel.pending[key].knowledge is OutcomeUnknown,
        kernel.pending.remove(key) == Map::<JsonView, Invocation>::empty(),
{
    let (id, request) = choose|id: JsonView, request: Invocation| #[trigger]
        only_pending(kernel, id, request) && (request.knowledge is InFlight
            || request.knowledge is OutcomeUnknown);
    assert(key == id);
    assert(kernel.pending.remove(key) =~= Map::<JsonView, Invocation>::empty());
}

proof fn lemma_completed(kernel: KernelView, key: JsonView, has_error: bool)
    requires
        few_pending(kernel),
        sound(kernel),
        kernel.pending.dom().contains(key),
    ensures
        quiet(completed(kernel, key, has_error)),
        completable(kernel, key),
{
    lemma_only_key(kernel, key);
    if kernel.session.phase == SessionPhase::Initializing {
        let seed = kernel.session.seed->0;
        let (id, request) = choose|id: JsonView, request: Invocation| #[trigger]
            opening(kernel, seed, id, request);
        assert(key == id);
    }
    let after = completed(kernel, key, has_error);
    assert(after.pending == Map::<JsonView, Invocation>::empty());
    assert(no_pending_opening(after));
}

proof fn lemma_given_up(kernel: KernelView, call: CallView, attempt: Attempt)
    requires
        serving(kernel, call, attempt),
    ensures
        quiet(given_up(kernel)),
{
    let id = id_of(call.frame)->0;
    lemma_tool_call_opens_nothing(kernel, call, attempt);
    assert(no_pending_opening(given_up(kernel)));
}

proof fn lemma_tool_call_opens_nothing(kernel: KernelView, call: CallView, attempt: Attempt)
    requires
        serving(kernel, call, attempt),
    ensures
        kernel.session.phase != SessionPhase::Initializing,
{
    if kernel.session.phase == SessionPhase::Initializing {
        let seed = kernel.session.seed->0;
        let (id, request) = choose|id: JsonView, request: Invocation| #[trigger]
            opening(kernel, seed, id, request);
        assert(kernel.pending.dom().contains(id));
        assert(kernel.pending[id] == dispatched(call, attempt));
    }
}

proof fn lemma_rescheduled(kernel: KernelView, call: CallView, attempt: Attempt)
    requires
        serving(kernel, call, attempt),
        call.replay is Convergent,
        !attempt.replayed,
    ensures
        waiting(rescheduled(kernel, id_of(call.frame)->0), call),
{
    lemma_tool_call_opens_nothing(kernel, call, attempt);
    let id = id_of(call.frame)->0;
    assert(kernel.pending[id] == dispatched(call, attempt));
    assert(no_pending_opening(rescheduled(kernel, id)));
}

proof fn lemma_redispatched(kernel: KernelView, call: CallView, id: HostRequestId)
    requires
        waiting(kernel, call),
    ensures
        serving(redispatched(kernel, id_of(call.frame)->0), call, Attempt { id, replayed: true }),
{
    let request_id = id_of(call.frame)->0;
    if kernel.session.phase == SessionPhase::Initializing {
        let seed = kernel.session.seed->0;
        let (key, request) = choose|key: JsonView, request: Invocation| #[trigger]
            opening(kernel, seed, key, request);
        assert(kernel.pending.dom().contains(key));
    }
    assert(no_pending_opening(redispatched(kernel, request_id)));
}

proof fn lemma_serving_is_quiet(kernel: KernelView, call: CallView, attempt: Attempt)
    requires
        serving(kernel, call, attempt),
    ensures
        quiet(kernel),
{
    assert(only_pending(kernel, id_of(call.frame)->0, dispatched(call, attempt)));
}

proof fn lemma_waiting_settles(kernel: KernelView, call: CallView, fault: FaultRecordView)
    requires
        waiting(kernel, call),
    ensures
        settling(kernel, call.frame, Err(fault)),
{
    let id = id_of(call.frame)->0;
    let request = kernel.pending[id];
    assert(only_pending(kernel, id, request));
    assert(request.payload == call.frame.payload);
}

/// A frame of the client that the host deals with.
struct Request {
    frame: Frame,
    id: Option<Json>,
    method: String,
    key: String,
}

/// The view of an optional document.
pub open spec fn optional_json(json: Option<Json>) -> Option<JsonView> {
    match json {
        Some(json) => Some(json@),
        None => None,
    }
}

impl Request {
    #[verifier::type_invariant]
    spec fn well_formed(self) -> bool {
        &&& well_read(self.frame@)
        &&& !(self.frame@.kind is Response)
        &&& optional_json(self.id) == id_of(self.frame@)
        &&& self.method@ == method_of(self.frame@)
        &&& self.key@ == key_of(self.frame@)
    }
}

/// A call of a tool of the worker that the host deals with.
struct Call {
    request: Request,
    operation: String,
    replay: ReplayContract,
    tool: WorkerOperation,
}

impl Call {
    spec fn view(&self) -> CallView {
        CallView {
            frame: self.request.frame@,
            name: self.tool.name@,
            replay: self.replay,
            arguments: self.tool.arguments@,
        }
    }

    #[verifier::type_invariant]
    spec fn well_formed(self) -> bool {
        &&& worker_call(self.view())
        &&& self.operation@ == tool_operation(self.tool.name@)
    }
}

/// What came of a request, as a value.
pub open spec fn outcome_view(outcome: Result<Option<Json>, FaultRecord>) -> Outcome {
    match outcome {
        Ok(answer) => Ok(optional_json(answer)),
        Err(fault) => Err(fault@),
    }
}

/// A host between two frames.
pub struct HostRuntime {
    state: HostState,
}

impl View for HostRuntime {
    type V = HostView;

    closed spec fn view(&self) -> HostView {
        self.state@
    }
}

impl HostRuntime {
    #[verifier::type_invariant]
    spec fn well_formed(self) -> bool {
        quiet(self.state@.kernel)
    }
}

/// A request that has come to its end, before it is counted and answered.
pub struct Settlement {
    state: HostState,
    request: Request,
    outcome: Result<Option<Json>, FaultRecord>,
}

impl Settlement {
    #[verifier::type_invariant]
    spec fn well_formed(self) -> bool {
        settling(self.state@.kernel, self.request.frame@, outcome_view(self.outcome))
    }
}

/// Arguments that have another shape than an operation takes.
pub struct Explanation {
    state: HostState,
    request: Request,
    operation: String,
    shape: ArgumentShape,
    arguments: Json,
}

impl Explanation {
    #[verifier::type_invariant]
    spec fn well_formed(self) -> bool {
        quiet(self.state@.kernel)
    }
}

/// A path whose project is to be found.
pub struct BindTask {
    state: HostState,
    request: Request,
    presentation: Presentation,
    path: String,
}

impl BindTask {
    #[verifier::type_invariant]
    spec fn well_formed(self) -> bool {
        quiet(self.state@.kernel)
    }
}

/// A look at the host that is to be taken.
pub struct StatusTask {
    state: HostState,
    request: Request,
    presentation: Presentation,
}

impl StatusTask {
    #[verifier::type_invariant]
    spec fn well_formed(self) -> bool {
        quiet(self.state@.kernel)
    }
}

/// A worker that is to be looked at.
pub struct ProbeTask {
    state: HostState,
    call: Call,
    attempt: Option<Attempt>,
}

/// What holds while a worker is looked at, before this dispatch or before the
/// call is pending at all.
pub open spec fn probing(kernel: KernelView, call: CallView, attempt: Option<Attempt>) -> bool {
    match attempt {
        Some(attempt) => serving(kernel, call, attempt),
        None => quiet(kernel),
    }
}

impl ProbeTask {
    #[verifier::type_invariant]
    spec fn well_formed(self) -> bool {
        probing(self.state@.kernel, self.call.view(), self.attempt)
    }
}

/// A worker that is to be started.
pub struct SpawnTask {
    state: HostState,
    call: Call,
    stage: SpawnStage,
    plan: SpawnPlan,
}

/// What holds while a worker is started for this.
pub open spec fn spawning(kernel: KernelView, call: CallView, stage: SpawnStage) -> bool {
    match stage {
        SpawnStage::First => quiet(kernel),
        SpawnStage::Dispatch(attempt) => serving(kernel, call, attempt),
        SpawnStage::Restart(restart) => restarting(kernel, call, restart),
    }
}

/// What holds while the next worker is started, once one was lost.
pub open spec fn restarting(kernel: KernelView, call: CallView, restart: Restart) -> bool {
    match restart {
        Restart::Replay(_) => waiting(kernel, call),
        Restart::Abandon(_) => quiet(kernel),
    }
}

impl SpawnTask {
    #[verifier::type_invariant]
    spec fn well_formed(self) -> bool {
        &&& spawning(self.state@.kernel, self.call.view(), self.stage)
        &&& self.plan.executable@ == self.state@.worker.executable
        &&& self.state@.worker.root == Some(self.plan.project_root@)
    }
}

/// A call that is to be sent to the worker.
pub struct SendTask {
    state: HostState,
    call: Call,
    attempt: Attempt,
}

impl SendTask {
    #[verifier::type_invariant]
    spec fn well_formed(self) -> bool {
        serving(self.state@.kernel, self.call.view(), self.attempt)
    }
}

/// An answer of the worker that is to be waited for.
pub struct ReadTask {
    state: HostState,
    call: Call,
    attempt: Attempt,
}

impl ReadTask {
    #[verifier::type_invariant]
    spec fn well_formed(self) -> bool {
        serving(self.state@.kernel, self.call.view(), self.attempt)
    }
}

/// What a host does next.
pub enum HostStep {
    /// The frame needs no answer, and does not count.
    Silent(HostRuntime),
    /// The bytes are no message; the answer.
    Answer(HostRuntime, Json),
    /// The request has come to its end.
    Settle(Settlement),
    /// The arguments for an operation have another shape; say how.
    Explain(Explanation),
    /// Find the project of a path.
    Bind(BindTask),
    /// Look at the health of the host.
    Health(StatusTask),
    /// Look at the telemetry of the host.
    Telemetry(StatusTask),
    /// See whether the worker still runs.
    Probe(ProbeTask),
    /// Start a worker.
    Spawn(SpawnTask),
    /// Send the call to the worker.
    Send(SendTask),
    /// Wait for the answer of the worker.
    Read(ReadTask),
    /// The counters are exhausted, or do not belong to this session.
    Halt,
}

impl View for HostStep {
    type V = StepView;

    open spec fn view(&self) -> StepView {
        match *self {
            HostStep::Silent(host) => StepView::Silent(host@),
            HostStep::Answer(host, answer) => StepView::Answer(host@, answer@),
            HostStep::Settle(end) => StepView::Settle(end.view().0, end.view().1, end.view().2),
            HostStep::Explain(task) => StepView::Explain(
                task.view().0,
                task.view().1,
                task.view().2,
                task.view().3,
                task.view().4,
            ),
            HostStep::Bind(task) => StepView::Bind(
                task.view().0,
                task.view().1,
                task.view().2,
                task.view().3,
            ),
            HostStep::Health(task) => StepView::Health(
                task.view().0,
                task.view().1,
                task.view().2,
            ),
            HostStep::Telemetry(task) => StepView::Telemetry(
                task.view().0,
                task.view().1,
                task.view().2,
            ),
            HostStep::Probe(task) => StepView::Probe(
                task.view().0,
                task.view().1,
                task.view().2,
            ),
            HostStep::Spawn(task) => StepView::Spawn(
                task.view().0,
                task.view().1,
                task.view().2,
                task.view().3,
            ),
            HostStep::Send(task) => StepView::Send(
                task.view().0,
                task.view().1,
                task.view().2,
            ),
            HostStep::Read(task) => StepView::Read(
                task.view().0,
                task.view().1,
                task.view().2,
            ),
            HostStep::Halt => StepView::Halt,
        }
    }
}

fn settle_with(state: HostState, request: Request, outcome: Result<Option<Json>, FaultRecord>) -> (step:
    HostStep)
    requires
        settling(state@.kernel, request.frame@, outcome_view(outcome)),
    ensures
        step@ == StepView::Settle(state@, request.frame@, outcome_view(outcome)),
{
    HostStep::Settle(Settlement { state, request, outcome })
}

fn fail_with(state: HostState, request: Request, fault: FaultRecord) -> (step: HostStep)
    requires
        settling(state@.kernel, request.frame@, Err(fault@)),
    ensures
        step@ == failed(state@, request.frame@, fault@),
{
    settle_with(state, request, Err(fault))
}

fn refuse_with(state: HostState, request: Request, operation: &str, rejection: HostRejection) -> (step:
    HostStep)
    requires
        quiet(state@.kernel),
    ensures
        step@ == failed(
            state@,
            request.frame@,
            rejection_record(state@.generation(), FaultStage::Host, operation@, rejection),
        ),
{
    proof {
        use_type_invariant(&request);
    }
    let fault = FaultRecord::host_rejection(
        state.worker.generation(),
        FaultStage::Host,
        operation,
        rejection,
    );
    fail_with(state, request, fault)
}

impl HostRuntime {
    /// Deals with some bytes of the client.
    pub fn handle_payload(self, payload: Vec<u8>) -> (step: HostStep)
        ensures
            payload_step(self@, payload@, step@),
    {
        let generation = self.state.worker.generation();
        match Frame::parse(payload) {
            Ok(frame) => self.handle_frame(frame),
            Err(FrameFault::InvalidJson(detail)) => {
                let fault = FaultRecord::parse_error(
                    generation,
                    "jsonrpc.parse",
                    concat("parse error: ", detail.as_str()).as_str(),
                );
                HostStep::Answer(self, jsonrpc_error(Json::Null, fault))
            },
            Err(FrameFault::Malformed(detail)) => {
                let fault = FaultRecord::invalid_request(
                    generation,
                    "jsonrpc.request",
                    detail.as_str(),
                );
                HostStep::Answer(self, jsonrpc_error(Json::Null, fault))
            },
        }
    }

    /// Deals with a frame of the client.
    pub fn handle_frame(self, frame: Frame) -> (step: HostStep)
        ensures
            frame_step(self@, frame@, step@),
    {
        proof {
            use_type_invariant(&self);
        }
        let (id, method) = match frame.kind() {
            FrameKind::Request { id, method } => (Some(id), method),
            FrameKind::Notification { method } => (None, method),
            FrameKind::Response => {
                return HostStep::Silent(self);
            },
        };
        let mut state = self.state;
        let params = frame.params();
        let key = operation_key(method.as_str(), &params);
        if !state.telemetry.record_request(key.as_str()) {
            return HostStep::Halt;
        }
        let for_worker = worker_dispatch(method.as_str(), &params);
        let contract = replay_contract(method.as_str(), &params);
        let is_request = id.is_some();
        let request = Request { frame, id, method, key };
        proof {
            lemma_observed(self@.kernel, frame@);
        }
        if let Err(rejection) = observe_client_frame(&mut state.kernel, &request.frame) {
            let fault = FaultRecord::host_rejection(
                state.worker.generation(),
                FaultStage::Protocol,
                request.key.as_str(),
                rejection,
            );
            return fail_with(state, request, fault);
        }
        if is_request && !for_worker {
            let ghost before = state@.kernel;
            match begin_request_dispatch(
                &mut state.kernel,
                &request.frame,
                contract,
                PENDING_CAPACITY,
            ) {
                Ok(()) => {
                    proof {
                        lemma_begun(before, frame@, contract);
                    }
                },
                Err(rejection) => {
                    let operation = request.key.clone();
                    assert(begin_refusal(before, frame@, rejection));
                    return refuse_with(state, request, operation.as_str(), rejection);
                },
            }
        }
        dispatch(state, request, params)
    }
}

/// Whether the client may go beyond the handshake.
fn session_initialized(state: &HostState) -> (yes: bool)
    ensures
        yes == (state@.kernel.session.phase == SessionPhase::Live),
{
    match state.kernel.session_phase() {
        SessionPhase::Live => true,
        _ => false,
    }
}

fn dispatch(state: HostState, request: Request, params: Json) -> (step: HostStep)
    requires
        quiet(state@.kernel),
        params@ == request.frame@.params(),
    ensures
        step@ == dispatch_step(state@, request.frame@),
{
    proof {
        use_type_invariant(&request);
    }
    let generation = state.worker.generation();
    let method = request.method.clone();
    if same_text(method.as_str(), "initialize") {
        settle_with(state, request, Ok(Some(initialize_result())))
    } else if same_text(method.as_str(), "notifications/initialized") {
        if seed_captured(&state.kernel) {
            settle_with(state, request, Ok(None))
        } else {
            let fault = FaultRecord::not_initialized(
                generation,
                FaultStage::Host,
                "notifications/initialized",
                "received initialized notification before initialize",
            );
            fail_with(state, request, fault)
        }
    } else if same_text(method.as_str(), "notifications/cancelled") {
        settle_with(state, request, Ok(None))
    } else if same_text(method.as_str(), "ping") {
        settle_with(state, request, Ok(Some(Json::empty_object())))
    } else if !session_initialized(&state) {
        let fault = FaultRecord::not_initialized(
            generation,
            FaultStage::Host,
            method.as_str(),
            "client must call initialize and notifications/initialized before normal operations",
        );
        fail_with(state, request, fault)
    } else if same_text(method.as_str(), "tools/list") {
        settle_with(state, request, Ok(Some(tool_list())))
    } else if same_text(method.as_str(), "tools/call") {
        dispatch_tool_call(state, request, params)
    } else {
        let fault = FaultRecord::invalid_input(
            generation,
            FaultStage::Protocol,
            method.as_str(),
            concat3("method `", method.as_str(), "` is not implemented").as_str(),
        );
        fail_with(state, request, fault)
    }
}

fn dispatch_tool_call(state: HostState, request: Request, params: Json) -> (step: HostStep)
    requires
        quiet(state@.kernel),
        method_of(request.frame@) == "tools/call"@,
        params@ == request.frame@.params(),
    ensures
        step@ == tool_step(state@, request.frame@),
{
    proof {
        use_type_invariant(&request);
    }
    let envelope = match tool_call_envelope(&params) {
        Some(envelope) => envelope,
        None => {
            return HostStep::Explain(
                Explanation {
                    state,
                    request,
                    operation: "tools/call".to_owned(),
                    shape: ArgumentShape::ToolCall,
                    arguments: params,
                },
            );
        },
    };
    match tool_spec(envelope.name.as_str()) {
        None => {
            let fault = FaultRecord::invalid_input(
                state.worker.generation(),
                FaultStage::Host,
                concat("tools/call:", envelope.name.as_str()).as_str(),
                concat3("unknown tool `", envelope.name.as_str(), "`").as_str(),
            );
            fail_with(state, request, fault)
        },
        Some(tool) => match tool.dispatch {
            DispatchTarget::Host => handle_host_tool(
                state,
                request,
                envelope.name,
                envelope.arguments,
            ),
            DispatchTarget::Worker => {
                let operation = concat("tools/call:", tool.name);
                let call = Call {
                    request,
                    operation,
                    replay: tool.replay,
                    tool: WorkerOperation {
                        name: tool.name.to_owned(),
                        arguments: envelope.arguments,
                    },
                };
                dispatch_worker_operation(state, call)
            },
        },
    }
}

fn handle_host_tool(state: HostState, request: Request, name: String, arguments: Json) -> (step:
    HostStep)
    requires
        quiet(state@.kernel),
    ensures
        step@ == host_tool_step(state@, request.frame@, name@, arguments@),
{
    proof {
        use_type_invariant(&request);
    }
    let generation = state.worker.generation();
    let operation = concat("tools/call:", name.as_str());
    let (presentation, rest) = match split_presentation(
        arguments,
        operation.as_str(),
        generation,
        FaultStage::Host,
    ) {
        Ok(split) => split,
        Err(fault) => {
            return fail_with(state, request, fault);
        },
    };
    if same_text(name.as_str(), "project.bind") {
        let fields = vec!["path"];
        assert(crate::routing::field_names(fields@) =~= seq!["path"@]);
        match text_arguments(&rest, &fields) {
            Some(found) => {
                let path = found[0].clone();
                assert(crate::text::texts(found@)[0] == found@[0]@);
                HostStep::Bind(BindTask { state, request, presentation, path })
            },
            None => HostStep::Explain(
                Explanation {
                    state,
                    request,
                    operation,
                    shape: ArgumentShape::ProjectBind,
                    arguments: rest,
                },
            ),
        }
    } else if same_text(name.as_str(), "system.health") {
        HostStep::Health(StatusTask { state, request, presentation })
    } else if same_text(name.as_str(), "system.telemetry") {
        HostStep::Telemetry(StatusTask { state, request, presentation })
    } else {
        let fault = FaultRecord::invalid_input(
            generation,
            FaultStage::Host,
            operation.as_str(),
            concat3("unknown host tool `", name.as_str(), "`").as_str(),
        );
        fail_with(state, request, fault)
    }
}

/// Whether an operation is the one of a key that was not used up.
fn is_key_due(key: &Option<String>, consumed: bool, operation: &str) -> (due: bool)
    ensures
        due == key_due(crate::output::optional_text(*key), consumed, operation@),
{
    match key {
        Some(key) => same_text(key.as_str(), operation) && !consumed,
        None => false,
    }
}

/// Whether a worker is to be lost in this operation; that comes once.
fn should_crash_worker_once(state: &mut HostState, operation: &str) -> (yes: bool)
    ensures
        yes == key_due(
            old(state)@.crash_once_key,
            old(state)@.crash_once_consumed,
            operation@,
        ),
        final(state)@ == (HostView {
            crash_once_consumed: old(state)@.crash_once_consumed || yes,
            ..old(state)@
        }),
{
    let due = is_key_due(&state.crash_once_key, state.crash_once_consumed, operation);
    if due {
        state.crash_once_consumed = true;
    }
    due
}

fn dispatch_worker_operation(state: HostState, call: Call) -> (step: HostStep)
    requires
        quiet(state@.kernel),
    ensures
        step@ == call_step(state@, call.view()),
{
    proof {
        use_type_invariant(&call);
    }
    let mut state = state;
    let root = match &state.binding {
        Some(binding) => binding.worktree_root.duplicate(),
        None => {
            let fault = FaultRecord::unavailable(
                state.worker.generation(),
                FaultStage::Host,
                call.operation.as_str(),
                "project is not bound; call project.bind with the target project root or a nested path inside it",
            );
            return fail_with(state, call.request, fault);
        },
    };
    state.worker.rebind(root);
    if should_crash_worker_once(&mut state, call.operation.as_str()) {
        state.worker.arm_crash_once();
    }
    if state.worker.attached() {
        HostStep::Probe(ProbeTask { state, call, attempt: None })
    } else {
        start_worker(state, call, SpawnStage::First)
    }
}

fn start_worker(state: HostState, call: Call, stage: SpawnStage) -> (step: HostStep)
    requires
        spawning(state@.kernel, call.view(), stage),
    ensures
        step@ == spawn_step(state@, call.view(), stage),
{
    match state.worker.ensure_worker() {
        Ok(plan) => HostStep::Spawn(SpawnTask { state, call, stage, plan }),
        Err(fault) => worker_missing(state, call, stage, fault),
    }
}

fn worker_missing(state: HostState, call: Call, stage: SpawnStage, fault: FaultRecord) -> (step:
    HostStep)
    requires
        spawning(state@.kernel, call.view(), stage),
    ensures
        step@ == spawn_failed(state@, call.view(), stage, fault@),
{
    proof {
        use_type_invariant(&call);
    }
    match stage {
        SpawnStage::First => fail_with(state, call.request, fault),
        SpawnStage::Dispatch(attempt) => dispatch_lost(state, call, attempt, fault),
        SpawnStage::Restart(restart) => restart_missing(state, call, restart, fault),
    }
}

fn restart_worker(state: HostState, call: Call, restart: Restart) -> (step: HostStep)
    requires
        restarting(state@.kernel, call.view(), restart),
    ensures
        step@ == restart_step(state@, call.view(), restart),
{
    match state.worker.ensure_worker() {
        Ok(plan) => HostStep::Spawn(
            SpawnTask { state, call, stage: SpawnStage::Restart(restart), plan },
        ),
        Err(fault) => restart_missing(state, call, restart, fault),
    }
}

fn restart_missing(state: HostState, call: Call, restart: Restart, fault: FaultRecord) -> (step:
    HostStep)
    requires
        restarting(state@.kernel, call.view(), restart),
    ensures
        step@ == restart_failed(state@, call.view(), restart, fault@),
{
    proof {
        use_type_invariant(&call);
    }
    let mut state = state;
    match restart {
        Restart::Replay(_) => {
            let fault = fault.mark_retried();
            proof {
                lemma_waiting_settles(state@.kernel, call.view(), fault@);
            }
            fail_with(state, call.request, fault)
        },
        Restart::Abandon(rejection) => {
            if !state.telemetry.record_recovery_fault(call.operation.as_str(), &fault) {
                return HostStep::Halt;
            }
            refuse_with(state, call.request, call.operation.as_str(), rejection)
        },
    }
}

fn first_dispatch(state: HostState, call: Call) -> (step: HostStep)
    requires
        quiet(state@.kernel),
    ensures
        ready_step(state@, call.view(), step@),
{
    proof {
        use_type_invariant(&call);
        reveal_strlit("tools/call");
        reveal_strlit("initialize");
        assert("tools/call"@[0] == 't' && "initialize"@[0] == 'i');
    }
    let mut state = state;
    let ghost before = state@.kernel;
    let contract = match call.replay {
        ReplayContract::Convergent => ReplayContract::Convergent,
        ReplayContract::ProbeRequired => ReplayContract::ProbeRequired,
        ReplayContract::NeverReplay => ReplayContract::NeverReplay,
    };
    match begin_request_dispatch(
        &mut state.kernel,
        &call.request.frame,
        contract,
        PENDING_CAPACITY,
    ) {
        Err(rejection) => {
            assert(begin_refusal(before, call.view().frame, rejection));
            refuse_with(state, call.request, call.operation.as_str(), rejection)
        },
        Ok(()) => {
            proof {
                lemma_begun(before, call.view().frame, contract);
            }
            match allocate_request_id(&mut state, call.operation.as_str()) {
                Ok(id) => execute(state, call, Attempt { id, replayed: false }),
                Err(fault) => fail_with(state, call.request, fault),
            }
        },
    }
}

fn execute(state: HostState, call: Call, attempt: Attempt) -> (step: HostStep)
    requires
        serving(state@.kernel, call.view(), attempt),
    ensures
        step@ == execute_step(state@, call.view(), attempt),
{
    if state.worker.attached() {
        HostStep::Probe(ProbeTask { state, call, attempt: Some(attempt) })
    } else {
        start_worker(state, call, SpawnStage::Dispatch(attempt))
    }
}

/// The identifier of the next request to the worker, while numbers last.
fn allocate_request_id(state: &mut HostState, operation: &str) -> (id: Result<
    HostRequestId,
    FaultRecord,
>)
    ensures
        match id {
            Ok(id) => old(state)@.next_request_id < u64::MAX && id.value
                == old(state)@.next_request_id && final(state)@ == (HostView {
                next_request_id: (id.value + 1) as u64,
                ..old(state)@
            }),
            Err(fault) => old(state)@.next_request_id == u64::MAX && fault@ == internal_record(
                old(state)@.generation(),
                FaultStage::Host,
                operation@,
                "private worker request identifier space is exhausted"@,
            ) && final(state)@ == old(state)@,
        },
{
    let value = state.numbers.next();
    if value == u64::MAX {
        return Err(
            FaultRecord::internal(
                state.worker.generation(),
                FaultStage::Host,
                operation,
                "private worker request identifier space is exhausted",
            ),
        );
    }
    state.numbers = RequestNumbers::starting_at(value + 1);
    Ok(HostRequestId { value })
}

impl Explanation {
    /// The host, the frame, the operation, the shape and the document of the
    /// step.
    pub closed spec fn view(&self) -> (HostView, FrameView, Seq<char>, ArgumentShape, JsonView) {
        (
            self.state@,
            self.request.frame@,
            self.operation@,
            self.shape,
            self.arguments@,
        )
    }

    /// Which arguments the document does not hold.
    pub fn shape(&self) -> (shape: ArgumentShape)
        ensures
            shape == self.view().3,
    {
        self.shape
    }

    /// The document.
    pub fn arguments(&self) -> (arguments: &Json)
        ensures
            arguments@ == self.view().4,
    {
        &self.arguments
    }

    /// Takes what is wrong with the arguments, in words.
    pub fn explained(self, detail: String) -> (next: HostStep)
        ensures
            next@ == failed(
                self.view().0,
                self.view().1,
                invalid_input_record(
                    self.view().0.generation(),
                    FaultStage::Protocol,
                    self.view().2,
                    "invalid params: "@ + detail@,
                ),
            ),
    {
        proof {
            use_type_invariant(&self);
            use_type_invariant(&self.request);
        }
        let fault = FaultRecord::invalid_input(
            self.state.worker.generation(),
            FaultStage::Protocol,
            self.operation.as_str(),
            concat("invalid params: ", detail.as_str()).as_str(),
        );
        fail_with(self.state, self.request, fault)
    }
}

/// What came of looking for the project of a path.
pub enum BindReport {
    /// Why there is none.
    Unresolved(String),
    /// The project, and whether its log could be opened, or why not.
    Resolved(ResolvedProjectBinding, Result<(), String>),
}

/// What follows where the project of a path is known, or not.
pub open spec fn bind_step(
    host: HostView,
    frame: FrameView,
    presentation: Presentation,
    report: BindReport,
) -> StepView {
    match report {
        BindReport::Unresolved(detail) => failed(
            host,
            frame,
            invalid_input_record(
                host.generation(),
                FaultStage::Host,
                "tools/call:project.bind"@,
                detail@,
            ),
        ),
        BindReport::Resolved(resolved, log) => {
            let refreshed = HostView {
                worker: host.worker.refreshed(resolved.binding@.worktree_root),
                ..host
            };
            match log {
                Err(detail) => failed(
                    refreshed,
                    frame,
                    internal_record(
                        host.generation(),
                        FaultStage::Host,
                        "tools/call:project.bind"@,
                        detail@,
                    ),
                ),
                Ok(_) => StepView::Settle(
                    HostView { binding: Some(resolved.binding@), ..refreshed },
                    frame,
                    Ok(Some(success_json(bind_output(resolved.status@), presentation))),
                ),
            }
        },
    }
}

impl BindTask {
    /// The host, the frame, the presentation and the path of the step.
    pub closed spec fn view(&self) -> (HostView, FrameView, Presentation, Seq<char>) {
        (self.state@, self.request.frame@, self.presentation, self.path@)
    }

    /// The path whose project is to be found.
    pub fn path(&self) -> (path: &str)
        ensures
            path@ == self.view().3,
    {
        self.path.as_str()
    }

    /// Takes the project of the path, or why there is none.
    pub fn bound(self, report: BindReport) -> (next: HostStep)
        ensures
            next@ == bind_step(self.view().0, self.view().1, self.view().2, report),
    {
        proof {
            use_type_invariant(&self);
            use_type_invariant(&self.request);
        }
        let mut state = self.state;
        let request = self.request;
        let generation = state.worker.generation();
        let (resolved, log) = match report {
            BindReport::Unresolved(detail) => {
                let fault = FaultRecord::invalid_input(
                    generation,
                    FaultStage::Host,
                    "tools/call:project.bind",
                    detail.as_str(),
                );
                return fail_with(state, request, fault);
            },
            BindReport::Resolved(resolved, log) => (resolved, log),
        };
        state.worker.refresh_binding(resolved.binding.worktree_root.duplicate());
        if let Err(detail) = log {
            let fault = FaultRecord::internal(
                generation,
                FaultStage::Host,
                "tools/call:project.bind",
                detail.as_str(),
            );
            return fail_with(state, request, fault);
        }
        state.binding = Some(resolved.binding);
        let shown = match project_bind_output(&resolved.status, generation) {
            Ok(output) => tool_success(
                output,
                self.presentation,
                generation,
                FaultStage::Host,
                "tools/call:project.bind",
            ),
            Err(fault) => Err(fault),
        };
        match shown {
            Ok(json) => settle_with(state, request, Ok(Some(json))),
            Err(fault) => fail_with(state, request, fault),
        }
    }
}

/// What was seen of the host from outside.
pub struct HealthSight {
    /// Whether another program file has taken the place of this one, or why
    /// that is not known.
    pub rollout_pending: Result<bool, String>,
    /// Whether the process of the worker runs.
    pub worker_running: bool,
    /// Whether the program file lies where it stays.
    pub launch_path_stable: bool,
    pub now_unix_ms: u64,
}

/// The state of the rollout.
pub open spec fn rollout_state(pending: bool) -> RolloutState {
    if pending {
        RolloutState::Pending
    } else {
        RolloutState::Stable
    }
}

/// The report shows the health of this host.
pub open spec fn shows_health(
    host: HostView,
    report: HealthReport,
    pending: bool,
    now_unix_ms: u64,
) -> bool {
    let states = worker_states(host.worker.attached);
    report.shows(
        host.ledger().session,
        uptime(host.telemetry.started_unix_ms, now_unix_ms),
        states.0,
        states.1,
        rollout_state(pending),
    )
}

/// `step` is what follows a look at the health of the host.
pub open spec fn health_step(
    host: HostView,
    frame: FrameView,
    presentation: Presentation,
    sight: HealthSight,
    step: StepView,
) -> bool {
    match sight.rollout_pending {
        Err(detail) => step == failed(
            host,
            frame,
            rollout_record(host.generation(), "tools/call:system.health"@, detail@),
        ),
        Ok(pending) => {
            let seen = HostView { worker: host.worker.observed(sight.worker_running), ..host };
            exists|report: HealthReport| #[trigger]
                shows_health(seen, report, pending, sight.now_unix_ms) && step == StepView::Settle(
                    seen,
                    frame,
                    Ok(
                        Some(
                            success_json(
                                health_output(
                                    report,
                                    seen.binding,
                                    seen.worker.attached,
                                    sight.launch_path_stable,
                                ),
                                presentation,
                            ),
                        ),
                    ),
                )
        },
    }
}

/// The report and the rows show the telemetry of this host.
pub open spec fn shows_telemetry(
    host: HostView,
    report: TelemetryReport,
    rows: Seq<crate::telemetry::MethodRow>,
    now_unix_ms: u64,
) -> bool {
    let states = worker_states(host.worker.attached);
    &&& report.shows(
        host.ledger(),
        uptime(host.telemetry.started_unix_ms, now_unix_ms),
        states.0,
        states.1,
    )
    &&& lists_methods(host.ledger().methods, rows)
    &&& ranked(rows)
}

/// `step` is what follows a look at the telemetry of the host.
pub open spec fn telemetry_step(
    host: HostView,
    frame: FrameView,
    presentation: Presentation,
    worker_running: bool,
    now_unix_ms: u64,
    step: StepView,
) -> bool {
    let seen = HostView { worker: host.worker.observed(worker_running), ..host };
    exists|report: TelemetryReport, rows: Seq<crate::telemetry::MethodRow>| #[trigger]
        shows_telemetry(seen, report, rows, now_unix_ms) && step == StepView::Settle(
            seen,
            frame,
            Ok(
                Some(
                    success_json(
                        telemetry_output(report, rows, seen.telemetry.host_rollouts),
                        presentation,
                    ),
                ),
            ),
        )
}

impl StatusTask {
    /// The host, the frame and the presentation of the step.
    pub closed spec fn view(&self) -> (HostView, FrameView, Presentation) {
        (self.state@, self.request.frame@, self.presentation)
    }

    /// Whether a worker process is held, so that it matters whether it runs.
    pub fn worker_attached(&self) -> (attached: bool)
        ensures
            attached == self.view().0.worker.attached,
    {
        self.state.worker.attached()
    }

    /// Takes what was seen of the host, and shows its health.
    pub fn health(self, sight: HealthSight) -> (next: HostStep)
        ensures
            health_step(
                self.view().0,
                self.view().1,
                self.view().2,
                sight,
                next@,
            ),
    {
        proof {
            use_type_invariant(&self);
            use_type_invariant(&self.request);
        }
        let mut state = self.state;
        let request = self.request;
        let generation = state.worker.generation();
        let rollout = match sight.rollout_pending {
            Err(detail) => {
                let fault = FaultRecord::rollout(
                    generation,
                    "tools/call:system.health",
                    detail.as_str(),
                );
                return fail_with(state, request, fault);
            },
            Ok(true) => RolloutState::Pending,
            Ok(false) => RolloutState::Stable,
        };
        let alive = state.worker.is_alive(sight.worker_running);
        let report = state.telemetry.health_snapshot(rollout, alive, sight.now_unix_ms);
        assert(shows_health(state@, report, sight.rollout_pending->Ok_0, sight.now_unix_ms));
        let shown = match system_health_output(
            report,
            &state.binding,
            alive,
            sight.launch_path_stable,
            generation,
        ) {
            Ok(output) => tool_success(
                output,
                self.presentation,
                generation,
                FaultStage::Host,
                "tools/call:system.health",
            ),
            Err(fault) => Err(fault),
        };
        match shown {
            Ok(json) => settle_with(state, request, Ok(Some(json))),
            Err(fault) => fail_with(state, request, fault),
        }
    }

    /// Takes what was seen of the host, and shows its telemetry.
    pub fn telemetry(self, worker_running: bool, now_unix_ms: u64) -> (next: HostStep)
        ensures
            telemetry_step(
                self.view().0,
                self.view().1,
                self.view().2,
                worker_running,
                now_unix_ms,
                next@,
            ),
    {
        proof {
            use_type_invariant(&self);
            use_type_invariant(&self.request);
        }
        let mut state = self.state;
        let request = self.request;
        let generation = state.worker.generation();
        let alive = state.worker.is_alive(worker_running);
        let report = state.telemetry.telemetry_snapshot(alive, now_unix_ms);
        let rows = state.telemetry.ranked_methods(alive, now_unix_ms);
        assert(shows_telemetry(state@, report, rows@, now_unix_ms));
        let shown = match system_telemetry_output(
            report,
            &rows,
            state.telemetry.host_rollouts(),
            generation,
        ) {
            Ok(output) => tool_success(
                output,
                self.presentation,
                generation,
                FaultStage::Host,
                "tools/call:system.telemetry",
            ),
            Err(fault) => Err(fault),
        };
        match shown {
            Ok(json) => settle_with(state, request, Ok(Some(json))),
            Err(fault) => fail_with(state, request, fault),
        }
    }
}

impl ProbeTask {
    /// The host, the call and the dispatch of the step.
    pub closed spec fn view(&self) -> (HostView, CallView, Option<Attempt>) {
        (self.state@, self.call.view(), self.attempt)
    }

    /// Takes whether the process of the worker runs.
    pub fn observed(self, running: bool) -> (next: HostStep)
        ensures
            probe_step(self.view().0, self.view().1, self.view().2, running, next@),
    {
        proof {
            use_type_invariant(&self);
        }
        let mut state = self.state;
        let alive = state.worker.is_alive(running);
        match self.attempt {
            None => if alive {
                first_dispatch(state, self.call)
            } else {
                start_worker(state, self.call, SpawnStage::First)
            },
            Some(attempt) => if alive {
                HostStep::Send(SendTask { state, call: self.call, attempt })
            } else {
                start_worker(state, self.call, SpawnStage::Dispatch(attempt))
            },
        }
    }
}

impl SpawnTask {
    /// The host, the call, the stage and the generation of the step.
    pub closed spec fn view(&self) -> (HostView, CallView, SpawnStage, Generation) {
        (self.state@, self.call.view(), self.stage, self.plan.generation)
    }

    /// The worker to start. A process that is still held is let go first.
    pub fn plan(&self) -> (plan: &SpawnPlan)
        ensures
            plan.generation == self.view().3,
            plan.executable@ == self.view().0.worker.executable,
            self.view().0.worker.root == Some(plan.project_root@),
    {
        proof {
            use_type_invariant(self);
        }
        &self.plan
    }

    /// Takes what came of starting the worker.
    pub fn spawned(self, outcome: SpawnOutcome) -> (next: HostStep)
        ensures
            spawned_step(
                self.view().0,
                self.view().1,
                self.view().2,
                self.view().3,
                outcome,
                next@,
            ),
    {
        proof {
            use_type_invariant(&self);
            use_type_invariant(&self.call);
        }
        let mut state = self.state;
        let call = self.call;
        let before = state.worker.generation();
        let generation = self.plan.generation;
        if let Err(fault) = state.worker.spawned(generation, outcome) {
            return worker_missing(state, call, self.stage, fault);
        }
        match self.stage {
            SpawnStage::First => {
                if generation.value > before.value {
                    if !state.telemetry.replace_worker(generation) {
                        return HostStep::Halt;
                    }
                }
                first_dispatch(state, call)
            },
            SpawnStage::Dispatch(attempt) => HostStep::Send(SendTask { state, call, attempt }),
            SpawnStage::Restart(Restart::Replay(id)) => second_dispatch(state, call, id),
            SpawnStage::Restart(Restart::Abandon(rejection)) => {
                if !state.telemetry.replace_worker(generation) {
                    return HostStep::Halt;
                }
                refuse_with(state, call.request, call.operation.as_str(), rejection)
            },
        }
    }
}

fn second_dispatch(state: HostState, call: Call, id: HostRequestId) -> (step: HostStep)
    requires
        waiting(state@.kernel, call.view()),
    ensures
        step@ == replay_step(state@, call.view(), id),
{
    proof {
        use_type_invariant(&call);
    }
    let mut state = state;
    let generation = state.worker.generation();
    if !state.telemetry.replace_worker(generation) {
        return HostStep::Halt;
    }
    let ghost kernel = state@.kernel;
    let ghost key = id_of(call.view().frame)->0;
    proof {
        assert(only_pending(kernel, key, kernel.pending[key]));
        lemma_redispatched(kernel, call.view(), id);
    }
    let payload = match pop_next_dispatch(&mut state.kernel) {
        Ok(Dispatch::Replay(payload)) => payload,
        Ok(Dispatch::Other) => {
            assert(false);
            let fault = FaultRecord::internal(
                generation,
                FaultStage::Host,
                call.operation.as_str(),
                "recovery kernel did not authorize the scheduled replay",
            );
            return fail_with(state, call.request, fault);
        },
        Err(rejection) => {
            assert(false);
            return refuse_with(state, call.request, call.operation.as_str(), rejection);
        },
    };
    assert(state@.kernel == redispatched(kernel, key));
    if !crate::path::same_bytes(&payload, call.request.frame.payload()) {
        assert(false);
        let fault = FaultRecord::internal(
            generation,
            FaultStage::Host,
            call.operation.as_str(),
            "recovery kernel returned a divergent replay frame",
        );
        return fail_with(state, call.request, fault);
    }
    if !state.telemetry.record_replay(call.operation.as_str()) {
        return HostStep::Halt;
    }
    execute(state, call, Attempt { id, replayed: true })
}

impl SendTask {
    /// The host, the call and the dispatch of the step.
    pub closed spec fn view(&self) -> (HostView, CallView, Attempt) {
        (self.state@, self.call.view(), self.attempt)
    }

    /// The request to send, in its wire form.
    pub fn request(&self) -> (json: Json)
        ensures
            json@ == crate::protocol::worker_request_json(
                self.view().2.id,
                OperationView { name: self.view().1.name, arguments: self.view().1.arguments },
            ),
    {
        self.call.tool.request_json(self.attempt.id)
    }

    /// Takes what came of sending the request.
    pub fn sent(self, outcome: SendOutcome) -> (next: HostStep)
        ensures
            next@ == sent_step(self.view().0, self.view().1, self.view().2, outcome),
    {
        proof {
            use_type_invariant(&self);
        }
        let mut state = self.state;
        match state.worker.sent(outcome) {
            Ok(()) => HostStep::Read(
                ReadTask { state, call: self.call, attempt: self.attempt },
            ),
            Err(fault) => dispatch_lost(state, self.call, self.attempt, fault),
        }
    }
}

impl ReadTask {
    /// The host, the call and the dispatch of the step.
    pub closed spec fn view(&self) -> (HostView, CallView, Attempt) {
        (self.state@, self.call.view(), self.attempt)
    }

    /// Takes what came of waiting for the answer.
    pub fn answered(self, outcome: ReplyOutcome) -> (next: HostStep)
        ensures
            next@ == read_step(self.view().0, self.view().1, self.view().2, outcome),
    {
        proof {
            use_type_invariant(&self);
            use_type_invariant(&self.call);
            lemma_serving_is_quiet(self.state@.kernel, self.call.view(), self.attempt);
        }
        let mut state = self.state;
        match state.worker.answered(outcome) {
            Ok(result) => settle_with(state, self.call.request, Ok(Some(result))),
            Err(fault) => dispatch_lost(state, self.call, self.attempt, fault),
        }
    }
}

fn dispatch_lost(state: HostState, call: Call, attempt: Attempt, fault: FaultRecord) -> (step:
    HostStep)
    requires
        serving(state@.kernel, call.view(), attempt),
    ensures
        step@ == lost_step(state@, call.view(), attempt, fault@),
{
    proof {
        use_type_invariant(&call);
        lemma_serving_is_quiet(state@.kernel, call.view(), attempt);
        lemma_given_up(state@.kernel, call.view(), attempt);
    }
    let mut state = state;
    let ghost kernel = state@.kernel;
    let ghost key = id_of(call.view().frame)->0;
    if !fault.retryable {
        let fault = if attempt.replayed {
            fault.mark_retried()
        } else {
            fault
        };
        return fail_with(state, call.request, fault);
    }
    if !state.telemetry.record_recovery_fault(call.operation.as_str(), &fault) {
        return HostStep::Halt;
    }
    assert(only_pending(kernel, key, dispatched(call.view(), attempt)));
    assert(kernel.pending[key] == dispatched(call.view(), attempt));
    let rejected = requeue_pending_for_replay(
        &mut state.kernel,
        MAX_REPLAY_ATTEMPTS,
        RECOVERY_QUEUE_CAPACITY,
    );
    let convergent = match call.replay {
        ReplayContract::Convergent => true,
        _ => false,
    };
    if attempt.replayed {
        let rejection = match rejected {
            Some(rejection) => rejection,
            None => {
                assert(false);
                let fault = FaultRecord::internal(
                    state.worker.generation(),
                    FaultStage::Host,
                    call.operation.as_str(),
                    "recovery kernel accepted a replay beyond the attempt budget",
                );
                return fail_with(state, call.request, fault);
            },
        };
        assert(state@.kernel == given_up(kernel));
        let fault = FaultRecord::host_rejection(
            state.worker.generation(),
            FaultStage::Host,
            call.operation.as_str(),
            rejection,
        ).mark_retried();
        fail_with(state, call.request, fault)
    } else if convergent {
        proof {
            lemma_rescheduled(kernel, call.view(), attempt);
        }
        assert(rejected is None);
        assert(state@.kernel == rescheduled(kernel, key));
        state.worker.restart();
        restart_worker(state, call, Restart::Replay(attempt.id))
    } else {
        let rejection = match rejected {
            Some(rejection) => rejection,
            None => {
                assert(false);
                HostRejection::AmbiguousOutcome
            },
        };
        assert(state@.kernel == given_up(kernel));
        state.worker.restart();
        restart_worker(state, call, Restart::Abandon(rejection))
    }
}

/// The record of the call of a tool that has come to its end.
pub struct ToolCompletion {
    pub id: Json,
    pub meta: ToolMeta,
    pub latency_ms: u64,
    pub replay_attempts: u8,
    /// What went wrong, where the call failed.
    pub error: Option<ErrorDetail>,
}

/// What is answered: whether it is an error object, and the result or error.
pub open spec fn answer_of(frame: FrameView, outcome: Outcome) -> Option<(bool, JsonView)> {
    if id_of(frame) is None {
        None
    } else {
        match outcome {
            Ok(Some(result)) => Some((false, result)),
            Ok(None) => None,
            Err(fault) => if method_of(frame) == "tools/call"@ {
                Some((false, tool_failure_json(fault)))
            } else {
                Some((true, jsonrpc_error_json(fault)))
            },
        }
    }
}

/// The response to a request.
pub open spec fn response_of(frame: FrameView, outcome: Outcome) -> Option<JsonView> {
    match answer_of(frame, outcome) {
        Some((has_error, body)) => Some(response_json(id_of(frame)->0, has_error, body)),
        None => None,
    }
}

/// The counters once a request has come to its end; nothing where it cannot
/// be counted.
pub open spec fn outcome_counted(
    ledger: LedgerView,
    key: Seq<char>,
    outcome: Outcome,
    latency_ms: u64,
) -> Option<LedgerView> {
    match outcome {
        Ok(_) => if ledger.success_fits(key, latency_ms) {
            Some(ledger.with_success(key, latency_ms))
        } else {
            None
        },
        Err(fault) => error_counted(ledger, key, fault, latency_ms),
    }
}

/// `after` is the kernel once one pending request was answered.
pub open spec fn some_completion(kernel: KernelView, after: KernelView) -> bool {
    exists|key: JsonView, has_error: bool|
        kernel.pending.dom().contains(key) && after == #[trigger] completed(kernel, key, has_error)
}

/// `after` is the kernel once this was answered; nothing where the kernel does
/// not take the answer.
///
/// The kernel takes no answer that nests too deep. An identifier that is no
/// integer and no text may be read back as another one.
pub open spec fn kernel_settled(
    kernel: KernelView,
    frame: FrameView,
    answer: Option<(bool, JsonView)>,
    after: Option<KernelView>,
) -> bool {
    match answer {
        None => after == Some(kernel),
        Some((has_error, body)) => {
            let id = id_of(frame)->0;
            if kernel.pending.dom().contains(id) {
                if !shallow(body) {
                    after is None
                } else if exact_id(id) {
                    after == Some(completed(kernel, id, has_error))
                } else {
                    after matches Some(taken) ==> some_completion(kernel, taken)
                }
            } else if exact_id(id) || kernel.pending == Map::<JsonView, Invocation>::empty() {
                after == Some(kernel)
            } else {
                after matches Some(taken) ==> taken == kernel || some_completion(kernel, taken)
            }
        },
    }
}

/// The host once a request was answered; nothing where the kernel does not
/// take the answer, or a rollout that is due cannot be counted.
pub open spec fn finished(host: HostView, key: Seq<char>, kernel: Option<KernelView>) -> Option<
    HostView,
> {
    match kernel {
        None => None,
        Some(kernel) => {
            let answered = HostView { kernel, ..host };
            if !key_due(host.force_rollout_key, host.force_rollout_consumed, key) {
                Some(answered)
            } else if host.telemetry.host_rollouts == u64::MAX {
                None
            } else {
                Some(
                    HostView {
                        force_rollout_consumed: true,
                        rollout_requested: true,
                        telemetry: TelemetryView {
                            host_rollouts: (host.telemetry.host_rollouts + 1) as u64,
                            ..host.telemetry
                        },
                        ..answered
                    },
                )
            }
        },
    }
}

/// `attempts` is how often a request was dispatched again.
///
/// Nothing is said of an identifier that is no integer and no text while
/// another request is pending.
pub open spec fn attempts_of(kernel: KernelView, id: JsonView, attempts: u8) -> bool {
    if kernel.pending.dom().contains(id) {
        attempts == kernel.pending[id].attempts
    } else {
        exact_id(id) || kernel.pending == Map::<JsonView, Invocation>::empty() ==> attempts == 0
    }
}

/// `error` tells of a fault.
pub open spec fn tells_of(error: Option<ErrorDetail>, outcome: Outcome) -> bool {
    match (error, outcome) {
        (None, Ok(_)) => true,
        (Some(detail), Err(fault)) => {
            &&& detail.code matches Some(code) && code as int == fault.jsonrpc_code
            &&& detail.kind matches Some(kind) && kind@ == fault.fault.code
            &&& detail.message matches Some(message) && message@ == fault.fault.detail
        },
        _ => false,
    }
}

/// `completion` is the record of a request that names a tool; there is none of
/// others.
pub open spec fn completion_of(
    kernel: KernelView,
    frame: FrameView,
    outcome: Outcome,
    latency_ms: u64,
    completion: Option<ToolCompletion>,
) -> bool {
    match (id_of(frame), tool_meta_of(frame.body)) {
        (Some(id), Some(meta)) => completion matches Some(record) && record.id@ == id
            && record.meta@ == meta && record.latency_ms == latency_ms && attempts_of(
            kernel,
            id,
            record.replay_attempts,
        ) && tells_of(record.error, outcome),
        _ => completion is None,
    }
}

/// What follows a request that has come to its end.
pub enum Settled {
    /// The host goes on; the response, if there is one, and the record of the
    /// call of a tool.
    Done { host: HostRuntime, response: Option<Json>, completion: Option<ToolCompletion> },
    /// The counters are exhausted, or the kernel does not take the answer.
    Halt,
}

/// `settled` is what follows a request that has come to its end.
pub open spec fn settle_step(
    host: HostView,
    frame: FrameView,
    outcome: Outcome,
    latency_ms: u64,
    settled: Settled,
) -> bool {
    match outcome_counted(host.ledger(), key_of(frame), outcome, latency_ms) {
        None => settled is Halt,
        Some(ledger) => exists|kernel: Option<KernelView>| #[trigger]
            kernel_settled(host.kernel, frame, answer_of(frame, outcome), kernel) && (
            match finished(host.with_ledger(ledger), key_of(frame), kernel) {
                None => settled is Halt,
                Some(after) => settled matches Settled::Done {
                    host: next,
                    response,
                    completion,
                } && next@ == after && optional_json(response) == response_of(frame, outcome)
                    && completion_of(host.kernel, frame, outcome, latency_ms, completion),
            }),
    }
}

proof fn lemma_error_object(fault: FaultRecord)
    ensures
        error_object(jsonrpc_error_json(fault@)),
{
    reveal_strlit("code");
    reveal_strlit("message");
    reveal_strlit("data");
    assert("code"@[0] == 'c' && "message"@[0] == 'm' && "data"@[0] == 'd');
    let members = jsonrpc_error_json(fault@)->Object_0;
    assert(members.dom().contains("code"@));
    assert(members.dom().contains("message"@));
}

proof fn lemma_response_depth(id: JsonView, has_error: bool, body: JsonView)
    requires
        !shallow(body),
    ensures
        !nests_within(response_json(id, has_error, body), 127),
{
    let name = if has_error {
        "error"@
    } else {
        "result"@
    };
    let members = response_json(id, has_error, body)->Object_0;
    assert(members.dom().contains(name));
    assert(members[name] == body);
}

/// Tells the kernel what is answered; says whether it took the answer.
fn complete_public_response(kernel: &mut HostSessionKernel, response: &Json) -> (taken: bool)
    requires
        few_pending(kernel_view(*old(kernel))),
        sound(kernel_view(*old(kernel))),
        kernel_view(*old(kernel)).session.queue.len() == 0 || exists|
            id: JsonView,
            request: Invocation,
        | #[trigger]
            only_pending(kernel_view(*old(kernel)), id, request) && kernel_view(
                *old(kernel),
            ).session.queue == seq![request.payload],
    ensures
        taken ==> some_completion(kernel_view(*old(kernel)), kernel_view(*final(kernel))),
        (forall|id: JsonView, has_error: bool, body: JsonView|
            response@ == #[trigger] response_json(id, has_error, body) && exact_id(id) && (
            has_error ==> error_object(body)) && shallow(body) && kernel_view(
                *old(kernel),
            ).pending.dom().contains(id) ==> taken && kernel_view(*final(kernel)) == completed(
                kernel_view(*old(kernel)),
                id,
                has_error,
            )),
        (forall|id: JsonView, has_error: bool, body: JsonView|
            response@ == #[trigger] response_json(id, has_error, body) && !shallow(body)
                ==> !taken),
{
    let ghost before = kernel_view(*kernel);
    proof {
        assert forall|id: JsonView, has_error: bool, body: JsonView|
            response@ == #[trigger] response_json(id, has_error, body) && !shallow(
                body,
            ) implies !nests_within(response@, 127) by {
            lemma_response_depth(id, has_error, body);
        }
    }
    let value = json_value(response);
    match encode(&value) {
        Some(bytes) => match Frame::parse(bytes) {
            Ok(frame) => {
                proof {
                    assert forall|id: JsonView, has_error: bool, body: JsonView|
                        response@ == #[trigger] response_json(id, has_error, body) && exact_id(id)
                            && (has_error ==> error_object(body)) && shallow(body)
                            && before.pending.dom().contains(id) implies frame@.kind == (
                    FrameKindView::Response { id, has_error }) && completable(before, id) by {
                        assert(crate::frame::reads_as_response(bytes@, id, has_error));
                        lemma_completed(before, id, has_error);
                    }
                }
                match complete_response(kernel, &frame) {
                    Ok(()) => {
                        proof {
                            let key = choose|key: JsonView|
                                before.pending.dom().contains(key) && (!(
                                frame@.kind->Response_id is Fraction) ==> key
                                    == frame@.kind->Response_id) && kernel_view(*kernel)
                                    == #[trigger] completed(
                                    before,
                                    key,
                                    frame@.kind->Response_has_error,
                                );
                            assert(some_completion(before, kernel_view(*kernel)));
                        }
                        true
                    },
                    Err(_) => false,
                }
            },
            Err(_) => false,
        },
        None => false,
    }
}

impl Settlement {
    /// The host, the frame and the outcome of the step.
    pub closed spec fn view(&self) -> (HostView, FrameView, Outcome) {
        (self.state@, self.request.frame@, outcome_view(self.outcome))
    }

    /// Whether the worker process is still held; otherwise it is let go.
    pub fn worker_attached(&self) -> (attached: bool)
        ensures
            attached == self.view().0.worker.attached,
    {
        self.state.worker.attached()
    }

    /// Counts and answers the request, after this time.
    pub fn settle(self, elapsed_millis: u128) -> (settled: Settled)
        ensures
            settle_step(
                self.view().0,
                self.view().1,
                self.view().2,
                if elapsed_millis > u64::MAX {
                    u64::MAX
                } else {
                    elapsed_millis as u64
                },
                settled,
            ),
    {
        proof {
            use_type_invariant(&self);
            use_type_invariant(&self.request);
        }
        let latency_ms = elapsed_ms(elapsed_millis);
        let mut state = self.state;
        let request = self.request;
        let outcome = self.outcome;
        let ghost before = state@;
        let ghost frame = request.frame@;
        let ghost result = outcome_view(outcome);
        let counted = match &outcome {
            Ok(_) => state.telemetry.record_success(request.key.as_str(), latency_ms),
            Err(fault) => state.telemetry.record_error(request.key.as_str(), fault, latency_ms),
        };
        if !counted {
            return Settled::Halt;
        }
        let completion = tool_completion(&state, &request, &outcome, latency_ms);
        let response = public_response(&request, outcome);
        let ghost answer = answer_of(frame, result);
        if let Some(response) = &response {
            if let Some(id) = &request.id {
                let pending = pending_attempts(&state.kernel, &json_value(id)).is_some();
                if pending {
                    proof {
                        if outcome is Err {
                            lemma_error_object(outcome->Err_0);
                        }
                        if before.kernel.session.queue.len() > 0 {
                            let waiting_request = choose|waiting_request: Invocation| #[trigger]
                                only_pending(before.kernel, id_of(frame)->0, waiting_request)
                                    && before.kernel.session.queue == seq![
                                    waiting_request.payload,
                                ];
                            assert(only_pending(
                                before.kernel,
                                id_of(frame)->0,
                                waiting_request,
                            ));
                        }
                    }
                    if !complete_public_response(&mut state.kernel, response) {
                        assert(kernel_settled(before.kernel, frame, answer, None));
                        return Settled::Halt;
                    }
                    proof {
                        let (key, has_error) = choose|key: JsonView, has_error: bool|
                            before.kernel.pending.dom().contains(key) && state@.kernel
                                == #[trigger] completed(before.kernel, key, has_error);
                        lemma_completed(before.kernel, key, has_error);
                    }
                } else {
                    assert(before.kernel.session.queue.len() == 0) by {
                        if before.kernel.session.queue.len() > 0 {
                            assert(before.kernel.pending.dom().contains(id_of(frame)->0));
                        }
                    }
                }
            }
        }
        assert(kernel_settled(before.kernel, frame, answer, Some(state@.kernel)));
        assert(quiet(state@.kernel));
        if should_force_rollout(&state, request.key.as_str()) {
            state.force_rollout_consumed = true;
            if !state.telemetry.record_rollout() {
                return Settled::Halt;
            }
            state.rollout_requested = true;
        }
        Settled::Done { host: HostRuntime { state }, response, completion }
    }
}

/// Whether a rollout is due after this operation.
fn should_force_rollout(state: &HostState, operation: &str) -> (yes: bool)
    ensures
        yes == key_due(state@.force_rollout_key, state@.force_rollout_consumed, operation@),
{
    is_key_due(&state.force_rollout_key, state.force_rollout_consumed, operation)
}

/// The record of a request that names a tool.
fn tool_completion(
    state: &HostState,
    request: &Request,
    outcome: &Result<Option<Json>, FaultRecord>,
    latency_ms: u64,
) -> (completion: Option<ToolCompletion>)
    ensures
        completion_of(
            state@.kernel,
            request.frame@,
            outcome_view(*outcome),
            latency_ms,
            completion,
        ),
{
    proof {
        use_type_invariant(request);
    }
    match &request.id {
        None => None,
        Some(id) => match tool_meta(&request.frame) {
            None => None,
            Some(meta) => {
                let replay_attempts = match pending_attempts(&state.kernel, &json_value(id)) {
                    Some(attempts) => attempts,
                    None => 0,
                };
                let error = match outcome {
                    Ok(_) => None,
                    Err(fault) => Some(fault.error_detail()),
                };
                Some(
                    ToolCompletion { id: id.duplicate(), meta, latency_ms, replay_attempts, error },
                )
            },
        },
    }
}

/// The response to a request.
fn public_response(request: &Request, outcome: Result<Option<Json>, FaultRecord>) -> (response: Option<
    Json,
>)
    ensures
        optional_json(response) == response_of(request.frame@, outcome_view(outcome)),
{
    proof {
        use_type_invariant(request);
    }
    match &request.id {
        None => None,
        Some(id) => match outcome {
            Ok(Some(result)) => Some(jsonrpc_result(id.duplicate(), result)),
            Ok(None) => None,
            Err(fault) => if same_text(request.method.as_str(), "tools/call") {
                Some(jsonrpc_result(id.duplicate(), fault.into_tool_result()))
            } else {
                Some(jsonrpc_error(id.duplicate(), fault))
            },
        },
    }
}

/// The bytes that a frame may have: 8 MiB.
pub const MAX_FRAME_BYTES: usize = 8388608;

/// How long a rollout that failed is not tried again.
pub const ROLLOUT_RETRY_DELAY_MS: u64 = 5000;

/// `libmcp::FrameLimit::DEFAULT`: the bytes that a frame may have.
#[verifier::external_body]
fn frame_limit() -> (limit: usize)
    ensures
        limit == MAX_FRAME_BYTES,
{
    libmcp::FrameLimit::DEFAULT.get()
}

/// What a host is started with.
pub struct HostSetup {
    /// The program file of the worker.
    pub executable: LocalPath,
    /// The project to bind at once.
    pub binding: Option<ProjectBinding>,
    /// The operation to roll forward after, once.
    pub force_rollout_key: Option<String>,
    /// The operation to lose a worker in, once.
    pub crash_once_key: Option<String>,
    pub now_unix_ms: u64,
}

/// The worker of a host that starts, bound where the host is.
pub open spec fn initial_worker(
    executable: Seq<u8>,
    generation: Generation,
    has_spawned: bool,
    binding: Option<LayoutView>,
) -> WorkerView {
    WorkerView {
        executable,
        generation,
        has_spawned,
        crash_armed: false,
        root: match binding {
            Some(binding) => Some(binding.worktree_root),
            None => None,
        },
        attached: false,
    }
}

/// A host that starts a session.
pub open spec fn fresh_host(setup: HostSetup) -> HostView {
    HostView {
        binding: binding_view(setup.binding),
        kernel: cold_view(),
        telemetry: TelemetryView {
            started_unix_ms: setup.now_unix_ms,
            host_rollouts: 0,
            ledger: new_ledger(1),
        },
        next_request_id: 1,
        worker: initial_worker(
            setup.executable@,
            Generation { value: 1 },
            false,
            binding_view(setup.binding),
        ),
        force_rollout_key: crate::output::optional_text(setup.force_rollout_key),
        force_rollout_consumed: false,
        rollout_requested: false,
        crash_once_key: crate::output::optional_text(setup.crash_once_key),
        crash_once_consumed: false,
        retry_not_before: None,
    }
}

/// A host that goes on with the session of its predecessor.
pub open spec fn resumed_host(setup: HostSetup, seed: HostStateSeed) -> HostView {
    HostView {
        binding: binding_view(setup.binding),
        kernel: snapshot_view(seed.session_kernel),
        telemetry: seed.telemetry@,
        next_request_id: if seed.next_request_id == 0 {
            1
        } else {
            seed.next_request_id
        },
        worker: initial_worker(
            setup.executable@,
            seed.worker_generation,
            seed.worker_spawned,
            binding_view(setup.binding),
        ),
        force_rollout_key: crate::output::optional_text(setup.force_rollout_key),
        force_rollout_consumed: seed.force_rollout_consumed,
        rollout_requested: false,
        crash_once_key: crate::output::optional_text(setup.crash_once_key),
        crash_once_consumed: seed.crash_once_consumed,
        retry_not_before: None,
    }
}

/// The path of the project to bind at the start: that of the predecessor, or
/// else the one that was asked for.
pub open spec fn first_path(
    restored: Option<HostStateSeed>,
    initial_project: Option<Seq<u8>>,
) -> Option<Seq<u8>> {
    match restored {
        Some(HostStateSeed { binding: Some(seed), .. }) => Some(seed.requested_path@),
        _ => initial_project,
    }
}

/// The view of an optional path.
pub open spec fn optional_path(path: Option<LocalPath>) -> Option<Seq<u8>> {
    match path {
        Some(path) => Some(path@),
        None => None,
    }
}

/// What a host hands to its successor: it does so between two frames.
pub open spec fn hands_over(host: HostView, seed: HostStateSeed) -> bool {
    &&& quiet(host.kernel)
    &&& snapshot_view(seed.session_kernel) == host.kernel
    &&& snapshot_current(seed.session_kernel)
    &&& seed.telemetry@ == host.telemetry
    &&& seed.next_request_id == host.next_request_id
    &&& seed.next_request_id > 0
    &&& seed.worker_generation == host.worker.generation
    &&& seed.worker_spawned == host.worker.has_spawned
    &&& seed.force_rollout_consumed == host.force_rollout_consumed
    &&& seed.crash_once_consumed == host.crash_once_consumed
    &&& match host.binding {
        Some(binding) => seed.binding matches Some(bound) && bound.requested_path@
            == binding.requested_path && bound.project_root@ == binding.project_root
            && bound.worktree_root@ == binding.worktree_root && bound.state_identity@
            == binding.state_identity,
        None => seed.binding is None,
    }
}

/// The path of the project to bind at the start: that of the predecessor, or
/// else the one that was asked for.
pub fn path_to_bind(restored: &Option<HostStateSeed>, initial_project: Option<LocalPath>) -> (path:
    Option<LocalPath>)
    ensures
        optional_path(path) == first_path(*restored, optional_path(initial_project)),
{
    match restored {
        Some(seed) => match &seed.binding {
            Some(binding) => Some(binding.requested_path.duplicate()),
            None => initial_project,
        },
        None => initial_project,
    }
}

/// What follows a look at whether to roll forward.
pub enum RolloutStep {
    /// Nothing more; the host goes on.
    Wait(HostRuntime),
    /// See to it that this program file can be launched again.
    Arm(HostRuntime),
    /// Hand the session to a successor.
    Handoff(HostRuntime, HostStateSeed),
    /// The counters are exhausted.
    Halt,
}

/// What came of handing the session to a successor.
pub enum Handoff {
    /// The successor goes on.
    Relinquished,
    /// This host goes on.
    Retained,
    /// Why the session was not handed over.
    Failed(String),
}

/// The host once a rollout was put off.
pub open spec fn deferred(host: HostView, now_ms: u64) -> HostView {
    HostView {
        retry_not_before: if now_ms + ROLLOUT_RETRY_DELAY_MS > u64::MAX {
            None
        } else {
            Some((now_ms + ROLLOUT_RETRY_DELAY_MS) as u64)
        },
        ..host
    }
}

/// Whether a rollout is put off at this moment.
pub open spec fn put_off(host: HostView, now_ms: u64) -> bool {
    host.retry_not_before matches Some(deadline) && now_ms < deadline
}

/// `step` is what follows once it is known whether a successor is ready.
pub open spec fn release_step(
    host: HostView,
    ready: Result<bool, String>,
    now_ms: u64,
    step: RolloutStep,
) -> bool {
    match ready {
        Err(_) => step matches RolloutStep::Wait(after) && after@ == deferred(host, now_ms),
        Ok(ready) => if host.rollout_requested && !ready {
            step matches RolloutStep::Arm(after) && after@ == host
        } else if !ready {
            step matches RolloutStep::Wait(after) && after@ == host
        } else if host.rollout_requested {
            step matches RolloutStep::Handoff(after, seed) && after@ == host && hands_over(
                host,
                seed,
            )
        } else if host.telemetry.host_rollouts == u64::MAX {
            step is Halt
        } else {
            let counted = HostView {
                telemetry: TelemetryView {
                    host_rollouts: (host.telemetry.host_rollouts + 1) as u64,
                    ..host.telemetry
                },
                ..host
            };
            step matches RolloutStep::Handoff(after, seed) && after@ == counted && hands_over(
                counted,
                seed,
            )
        },
    }
}

impl HostRuntime {
    /// A host that starts a session, or goes on with that of a predecessor.
    pub fn new(setup: HostSetup, restored: Option<HostStateSeed>) -> (host: Result<Self, String>)
        ensures
            match restored {
                None => host matches Ok(host) && host@ == fresh_host(setup),
                Some(seed) => {
                    &&& host matches Ok(host) ==> host@ == resumed_host(setup, seed)
                    &&& snapshot_current(seed.session_kernel) && takes_back(
                        snapshot_view(seed.session_kernel),
                        MAX_FRAME_BYTES as nat,
                        MAX_REPLAY_ATTEMPTS as nat,
                    ) ==> host is Ok
                },
            },
    {
        let mut worker;
        let kernel;
        let telemetry;
        let numbers;
        let force_rollout_consumed;
        let crash_once_consumed;
        match restored {
            None => {
                kernel = HostSessionKernel::cold();
                telemetry = ServerTelemetry::started_at(setup.now_unix_ms);
                numbers = RequestNumbers::starting_at(1);
                worker = WorkerSupervisor::new(setup.executable, Generation::genesis(), false);
                force_rollout_consumed = false;
                crash_once_consumed = false;
            },
            Some(seed) => {
                kernel = match restore_snapshot(
                    seed.session_kernel,
                    PENDING_CAPACITY,
                    0,
                    frame_limit(),
                    MAX_REPLAY_ATTEMPTS,
                ) {
                    Ok(kernel) => kernel,
                    Err(error) => {
                        return Err(error);
                    },
                };
                telemetry = seed.telemetry;
                numbers = RequestNumbers::starting_at(seed.next_request_id);
                worker = WorkerSupervisor::new(
                    setup.executable,
                    seed.worker_generation,
                    seed.worker_spawned,
                );
                force_rollout_consumed = seed.force_rollout_consumed;
                crash_once_consumed = seed.crash_once_consumed;
            },
        }
        if let Some(binding) = &setup.binding {
            worker.rebind(binding.worktree_root.duplicate());
        }
        let state = HostState {
            binding: setup.binding,
            kernel,
            telemetry,
            numbers,
            worker,
            force_rollout_key: setup.force_rollout_key,
            force_rollout_consumed,
            rollout_requested: false,
            crash_once_key: setup.crash_once_key,
            crash_once_consumed,
            retry_not_before: None,
        };
        Ok(HostRuntime { state })
    }

    /// The project that the session is bound to.
    pub fn binding(&self) -> (binding: &Option<ProjectBinding>)
        ensures
            binding_view(*binding) == self@.binding,
    {
        &self.state.binding
    }

    /// Whether a worker process is held.
    pub fn worker_attached(&self) -> (attached: bool)
        ensures
            attached == self@.worker.attached,
    {
        self.state.worker.attached()
    }

    /// Whether it is time to see whether to roll forward.
    pub fn maybe_roll_forward(self, now_ms: u64) -> (looked: (Self, bool))
        ensures
            looked.1 == !put_off(self@, now_ms),
            looked.0@ == (if put_off(self@, now_ms) {
                self@
            } else {
                HostView { retry_not_before: None, ..self@ }
            }),
    {
        proof {
            use_type_invariant(&self);
        }
        let mut state = self.state;
        if let Some(deadline) = state.retry_not_before {
            if now_ms < deadline {
                return (HostRuntime { state }, false);
            }
        }
        state.retry_not_before = None;
        (HostRuntime { state }, true)
    }

    /// Takes whether a successor is ready, or why that is not known.
    pub fn release_observed(self, ready: Result<bool, String>, now_ms: u64) -> (step: RolloutStep)
        ensures
            release_step(self@, ready, now_ms, step),
    {
        proof {
            use_type_invariant(&self);
        }
        let ready = match ready {
            Ok(ready) => ready,
            Err(_) => {
                return RolloutStep::Wait(self.defer_rollout(now_ms));
            },
        };
        if self.state.rollout_requested && !ready {
            return RolloutStep::Arm(self);
        }
        if !ready {
            return RolloutStep::Wait(self);
        }
        let mut state = self.state;
        if !state.rollout_requested {
            if !state.telemetry.record_rollout() {
                return RolloutStep::Halt;
            }
        }
        let host = HostRuntime { state };
        let seed = host.roll_forward();
        RolloutStep::Handoff(host, seed)
    }

    /// Takes whether this program file can be launched again, or why not.
    pub fn relaunch_armed(self, armed: Result<(), String>, now_ms: u64) -> (step: RolloutStep)
        ensures
            match armed {
                Err(_) => step matches RolloutStep::Wait(after) && after@ == deferred(
                    self@,
                    now_ms,
                ),
                Ok(_) => step matches RolloutStep::Handoff(after, seed) && after@ == self@
                    && hands_over(self@, seed),
            },
    {
        match armed {
            Err(_) => RolloutStep::Wait(self.defer_rollout(now_ms)),
            Ok(()) => {
                let seed = self.roll_forward();
                RolloutStep::Handoff(self, seed)
            },
        }
    }

    /// Takes what came of handing the session over; says whether a successor
    /// goes on with it.
    pub fn handed_off(self, outcome: Handoff, now_ms: u64) -> (after: (Self, bool))
        ensures
            after.1 == outcome is Relinquished,
            after.0@ == (if outcome is Failed {
                deferred(self@, now_ms)
            } else {
                self@
            }),
    {
        match outcome {
            Handoff::Relinquished => (self, true),
            Handoff::Retained => (self, false),
            Handoff::Failed(_) => (self.defer_rollout(now_ms), false),
        }
    }

    /// What the host hands to its successor.
    pub fn roll_forward(&self) -> (seed: HostStateSeed)
        ensures
            hands_over(self@, seed),
    {
        proof {
            use_type_invariant(self);
        }
        let binding = match &self.state.binding {
            Some(binding) => Some(binding.seed()),
            None => None,
        };
        HostStateSeed {
            session_kernel: take_snapshot(&self.state.kernel),
            telemetry: self.state.telemetry.duplicate(),
            next_request_id: self.state.numbers.next(),
            binding,
            worker_generation: self.state.worker.generation(),
            worker_spawned: self.state.worker.has_spawned(),
            force_rollout_consumed: self.state.force_rollout_consumed,
            crash_once_consumed: self.state.crash_once_consumed,
        }
    }

    /// Puts a rollout off.
    fn defer_rollout(self, now_ms: u64) -> (host: Self)
        ensures
            host@ == deferred(self@, now_ms),
    {
        proof {
            use_type_invariant(&self);
        }
        let mut state = self.state;
        state.retry_not_before = if now_ms > u64::MAX - ROLLOUT_RETRY_DELAY_MS {
            None
        } else {
            Some(now_ms + ROLLOUT_RETRY_DELAY_MS)
        };
        HostRuntime { state }
    }
}

} // verus!
