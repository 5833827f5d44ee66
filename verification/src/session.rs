//! Laws of a public session: what holds across the steps of the host.

use vstd::prelude::*;

use libmcp::{HostRejection, ReplayContract, SessionPhase};

use crate::catalog::tool_named;
use crate::fault::{
    FaultRecordView, FaultStage, Generation, invalid_input_record, not_initialized_record,
};
use crate::frame::{FrameKindView, FrameView, exact_id, response_json, shallow};
use crate::host::{
    Attempt, BindReport, CallView, HealthSight, HostSetup, HostView, Outcome, Restart, Settled,
    SpawnStage, StepView, MAX_FRAME_BYTES, MAX_REPLAY_ATTEMPTS, abandoned_fault, admitted,
    answer_of, armed, bind_step, call_step, direct_outcome, dispatch_step, execute_step, failed,
    first_path, frame_step, hands_over, health_step, host_tool_step, id_of, kernel_settled,
    key_of, lost_step, method_of, optional_json, outcome_counted, probe_step, read_step,
    ready_step, redispatched, replaced, response_of, resumed_host, sent_step, settle_step,
    spawn_failed, spawn_step, spawned_step, telemetry_step,
};
use crate::json::JsonView;
use crate::kernel::{
    Invocation, KernelView, Seed, begin_accepts, begun, cold_view, completed, completes_handshake,
    observed, opens_session, pending_within, snapshot_current, snapshot_view, takes_back,
};
use crate::output::Presentation;
use crate::protocol::{HostRequestId, HostStateSeed, WorkerOutcome};
use crate::reports::binding_view;
use crate::routing::{contract_of, envelope_of};
use crate::supervisor::{
    ReplyOutcome, SendOutcome, SpawnOutcome, after_reply, after_send, reply_result, send_fault,
    spawn_fault,
};
use crate::telemetry::{LedgerView, MethodCounters};
use crate::tools::{has_text, lemma_words};

verus! {

/// The counters know the generation of the worker.
pub open spec fn in_step(host: HostView) -> bool {
    host.ledger().session.generation == host.worker.generation.value
}

/// The host in a step, if there is one, is in step with its worker.
pub open spec fn step_in_step(step: StepView) -> bool {
    match step {
        StepView::Silent(host) => in_step(host),
        StepView::Answer(host, _) => in_step(host),
        StepView::Settle(host, _, _) => in_step(host),
        StepView::Explain(host, _, _, _, _) => in_step(host),
        StepView::Bind(host, _, _, _) => in_step(host),
        StepView::Health(host, _, _) => in_step(host),
        StepView::Telemetry(host, _, _) => in_step(host),
        StepView::Probe(host, _, _) => in_step(host),
        StepView::Spawn(host, _, _, _) => in_step(host),
        StepView::Send(host, _, _) => in_step(host),
        StepView::Read(host, _, _) => in_step(host),
        StepView::Halt => true,
    }
}

/// Whatever the host does with a frame, its counters keep to the generation of
/// its worker.
pub proof fn law_frames_keep_step(host: HostView, frame: FrameView, step: StepView)
    requires
        in_step(host),
        frame_step(host, frame, step),
    ensures
        step_in_step(step),
{
}

proof fn lemma_loss_keeps_step(
    host: HostView,
    call: CallView,
    attempt: Attempt,
    fault: FaultRecordView,
)
    requires
        in_step(host),
    ensures
        step_in_step(lost_step(host, call, attempt, fault)),
{
}

/// Whatever comes of a dispatch to the worker, the counters keep to its
/// generation.
pub proof fn law_dispatches_keep_step(
    host: HostView,
    call: CallView,
    attempt: Attempt,
    sent: SendOutcome,
    answered: ReplyOutcome,
)
    requires
        in_step(host),
    ensures
        step_in_step(sent_step(host, call, attempt, sent)),
        step_in_step(read_step(host, call, attempt, answered)),
{
    let after = HostView { worker: after_send(host.worker, sent), ..host };
    if let Some(fault) = send_fault(host.worker, sent) {
        lemma_loss_keeps_step(after, call, attempt, fault);
    }
    let after = HostView { worker: after_reply(host.worker, answered), ..host };
    if let Err(fault) = reply_result(host.generation(), answered) {
        lemma_loss_keeps_step(after, call, attempt, fault);
    }
}

/// Whatever comes of looking for or starting a worker, the counters keep to
/// its generation; only a worker that is started right before a dispatch is
/// not made known to them.
pub proof fn law_workers_keep_step(
    host: HostView,
    call: CallView,
    attempt: Option<Attempt>,
    stage: SpawnStage,
    running: bool,
    outcome: SpawnOutcome,
    probed: StepView,
    spawned: StepView,
)
    requires
        in_step(host),
        host.worker.next_generation() is Some,
        !(stage is Dispatch && outcome is Started),
        probe_step(host, call, attempt, running, probed),
        spawned_step(
            host,
            call,
            stage,
            host.worker.next_generation()->0,
            outcome,
            spawned,
        ),
    ensures
        step_in_step(probed),
        step_in_step(spawned),
{
}

/// Whatever a tool of the host was told, and however a request ends, the
/// counters keep to the generation of the worker.
pub proof fn law_ends_keep_step(
    host: HostView,
    frame: FrameView,
    presentation: Presentation,
    report: BindReport,
    sight: HealthSight,
    shown: StepView,
    listed: StepView,
    outcome: Outcome,
    latency_ms: u64,
    settled: Settled,
)
    requires
        in_step(host),
        health_step(host, frame, presentation, sight, shown),
        telemetry_step(
            host,
            frame,
            presentation,
            sight.worker_running,
            sight.now_unix_ms,
            listed,
        ),
        settle_step(host, frame, outcome, latency_ms, settled),
    ensures
        step_in_step(bind_step(host, frame, presentation, report)),
        step_in_step(shown),
        step_in_step(listed),
        settled matches Settled::Done { host: next, .. } ==> in_step(next@),
{
}

/// The counters of a method have room.
pub open spec fn roomy_counts(counts: MethodCounters) -> bool {
    &&& counts.requests < u64::MAX
    &&& counts.in_flight < u64::MAX
    &&& counts.successes < u64::MAX
    &&& counts.errors < u64::MAX
    &&& counts.response_errors < u64::MAX
    &&& counts.recovery_errors < u64::MAX
    &&& counts.recovery_faults < u64::MAX
    &&& counts.retries < u64::MAX
    &&& counts.latency_samples < u64::MAX
}

/// The counters of a session, and those of a method, have room.
pub open spec fn roomy(ledger: LedgerView, method: Seq<char>) -> bool {
    let totals = ledger.session.totals;
    &&& roomy_counts(ledger.counts(method))
    &&& totals.requests < u64::MAX
    &&& totals.successes < u64::MAX
    &&& totals.errors < u64::MAX
    &&& totals.response_errors < u64::MAX
    &&& totals.recovery_errors < u64::MAX
    &&& totals.recovery_faults < u64::MAX
    &&& totals.retries < u64::MAX
    &&& ledger.session.restarts < u64::MAX
    &&& ledger.session.consecutive_failures < u32::MAX
}

/// The host halts on a frame only where the counters have no room for it.
pub proof fn law_frames_do_not_halt(host: HostView, frame: FrameView, step: StepView)
    requires
        crate::frame::well_read(frame),
        roomy(host.ledger(), key_of(frame)),
        frame_step(host, frame, step),
    ensures
        !(step is Halt),
{
    if !(frame.kind is Response) {
        lemma_key_not_blank(frame);
    }
}

proof fn lemma_key_not_blank(frame: FrameView)
    requires
        crate::frame::well_read(frame),
        !(frame.kind is Response),
    ensures
        !crate::text::blank(key_of(frame)),
{
    reveal_strlit("tools/call");
    reveal_strlit("tools/call:");
    assert("tools/call"@[0] == 't');
    assert("tools/call:"@[0] == 't');
    let key = key_of(frame);
    if method_of(frame) == "tools/call"@ {
        assert(key[0] == 't');
    }
}

/// While the counters have room and are in step with the worker, the loss of a
/// worker does not halt the host: the call is dispatched again, or a worker is
/// started in the place of the lost one, or the call fails.
pub proof fn law_losses_do_not_halt(
    host: HostView,
    call: CallView,
    attempt: Attempt,
    fault: FaultRecordView,
)
    requires
        in_step(host),
        host.ledger().live(call.operation()),
        roomy(host.ledger(), call.operation()),
        fault.fault.generation == host.generation(),
        crate::fault::snake_code(fault.fault.code),
        host.worker.spawn_refusal() is None,
    ensures
        !(lost_step(host, call, attempt, fault) is Halt),
{
}

/// A call that may converge survives the loss of its worker: it is sent to
/// the next worker under the same identifier, and the answer of that worker is
/// the answer of the call.
pub proof fn law_convergent_call_survives_a_loss(
    host: HostView,
    call: CallView,
    id: HostRequestId,
    fault: FaultRecordView,
    step: StepView,
    probed: StepView,
    result: crate::json::Json,
)
    requires
        call.replay is Convergent,
        fault.retryable,
        host.ledger().recovery_fault_fits(call.operation(), fault.fault),
        roomy(host.ledger(), call.operation()),
        in_step(host),
        host.worker.has_spawned,
        host.worker.spawn_refusal() is None,
    ensures
        ({
            let lost = lost_step(host, call, Attempt { id, replayed: false }, fault);
            let again = Attempt { id, replayed: true };
            lost matches StepView::Spawn(after, same, stage, generation) && same == call && stage
                == SpawnStage::Restart(Restart::Replay(id)) && generation.value
                == host.generation().value + 1 && (spawned_step(
                after,
                call,
                stage,
                generation,
                SpawnOutcome::Started,
                step,
            ) ==> (step matches StepView::Probe(ready, second, attempt) && second == call && attempt
                == Some(again) && (probe_step(ready, call, attempt, true, probed) ==> (
            probed matches StepView::Send(next, third, sent) && third == call && sent == again
                && read_step(
                next,
                call,
                sent,
                ReplyOutcome::Answered(WorkerOutcome::Success(result)),
            ) == StepView::Settle(next, call.frame, Ok(Some(result@)))))))
        }),
{
}

/// A call that finds its worker gone before it is sent goes to the next worker
/// instead, under the same identifier.
pub proof fn law_call_outlives_an_idle_worker(
    host: HostView,
    call: CallView,
    attempt: Attempt,
    probed: StepView,
    step: StepView,
)
    requires
        host.worker.spawn_refusal() is None,
        probe_step(host, call, Some(attempt), false, probed),
    ensures
        probed matches StepView::Spawn(after, same, stage, generation) && same == call && stage
            == SpawnStage::Dispatch(attempt) && (spawned_step(
            after,
            call,
            stage,
            generation,
            SpawnOutcome::Started,
            step,
        ) ==> (step matches StepView::Send(next, second, sent) && second == call && sent == attempt
            && next.worker.attached && next.kernel == host.kernel)),
{
}

/// A worker that is to be lost is lost once: the next request that is sent to
/// it ends in a transport fault that recovery may follow, no worker is held any
/// more, and nothing is armed. The next dispatch starts another worker, which
/// gets the call and whose answer is the answer of the call.
pub proof fn law_armed_crash_comes_once(
    host: HostView,
    call: CallView,
    attempt: Attempt,
    running: bool,
    spawned: StepView,
    result: crate::json::Json,
)
    requires
        host.worker.crash_armed,
    ensures
        ({
            let lost = HostView { worker: after_send(host.worker, SendOutcome::Sent), ..host };
            &&& send_fault(host.worker, SendOutcome::Sent) matches Some(fault) && fault.retryable
                && fault.stage is Transport && fault.fault.class is Transport && fault.fault.detail
                == "worker crashed before replying"@ && fault.fault.generation == host.generation()
                && sent_step(host, call, attempt, SendOutcome::Sent) == lost_step(
                lost,
                call,
                attempt,
                fault,
            )
            &&& !lost.worker.crash_armed
            &&& !lost.worker.attached
            &&& !lost.worker.observed(running).attached
            &&& host.worker.spawn_refusal() is None ==> (execute_step(
                lost,
                call,
                attempt,
            ) matches StepView::Spawn(after, same, stage, generation) && after == lost && same
                == call && Some(generation) == host.worker.next_generation() && (spawned_step(
                after,
                call,
                stage,
                generation,
                SpawnOutcome::Started,
                spawned,
            ) ==> (spawned matches StepView::Send(next, second, again) && second == call && again
                == attempt && next.worker.attached && sent_step(
                next,
                call,
                again,
                SendOutcome::Sent,
            ) == StepView::Read(next, call, again) && read_step(
                next,
                call,
                again,
                ReplyOutcome::Answered(WorkerOutcome::Success(result)),
            ) == StepView::Settle(next, call.frame, Ok(Some(result@))))))
        }),
{
}

/// A step that sends a call to the worker, or is on the way to it.
pub open spec fn may_send(step: StepView) -> bool {
    match step {
        StepView::Probe(_, _, _) => true,
        StepView::Spawn(_, _, SpawnStage::Restart(Restart::Abandon(_)), _) => false,
        StepView::Spawn(_, _, _, _) => true,
        StepView::Send(_, _, _) => true,
        StepView::Read(_, _, _) => true,
        _ => false,
    }
}

/// A call that does not converge is sent to the worker once: after a dispatch
/// that came to nothing it is never sent again.
pub proof fn law_other_calls_are_sent_once(
    host: HostView,
    call: CallView,
    attempt: Attempt,
    fault: FaultRecordView,
    rejection: HostRejection,
    generation: Generation,
    outcome: SpawnOutcome,
    step: StepView,
)
    requires
        !(call.replay is Convergent),
        spawned_step(
            host,
            call,
            SpawnStage::Restart(Restart::Abandon(rejection)),
            generation,
            outcome,
            step,
        ),
    ensures
        !may_send(lost_step(host, call, attempt, fault)),
        !may_send(step),
{
}

/// The loss of a worker in a call that does not converge is told to the
/// client: the outcome is ambiguous.
pub proof fn law_other_calls_end_ambiguous(
    host: HostView,
    call: CallView,
    attempt: Attempt,
    fault: FaultRecordView,
    step: StepView,
)
    requires
        !(call.replay is Convergent),
        !attempt.replayed,
        fault.retryable,
        host.ledger().recovery_fault_fits(call.operation(), fault.fault),
        roomy(host.ledger(), call.operation()),
        in_step(host),
        host.worker.has_spawned,
        host.worker.spawn_refusal() is None,
    ensures
        lost_step(host, call, attempt, fault) matches StepView::Spawn(
            after,
            same,
            stage,
            generation,
        ) && same == call && (spawned_step(
            after,
            call,
            stage,
            generation,
            SpawnOutcome::Started,
            step,
        ) ==> (step matches StepView::Settle(end, frame, Err(told)) && frame == call.frame && told
            == abandoned_fault(end, call, HostRejection::AmbiguousOutcome))),
{
}

/// No call is sent to the worker a third time.
pub proof fn law_no_third_dispatch(
    host: HostView,
    call: CallView,
    attempt: Attempt,
    fault: FaultRecordView,
)
    requires
        attempt.replayed,
    ensures
        !may_send(lost_step(host, call, attempt, fault)),
        lost_step(host, call, attempt, fault) matches StepView::Settle(_, _, outcome)
            ==> (outcome matches Err(told) && told.retried),
{
}

/// A request gets one answer, under its own identifier, and a notification
/// gets none. A request without an answer is one of two notifications that
/// was sent as a request.
pub proof fn law_answers(frame: FrameView, outcome: Outcome)
    ensures
        id_of(frame) is None ==> response_of(frame, outcome) is None,
        id_of(frame) is Some && !(outcome matches Ok(None)) ==> response_of(frame, outcome) is Some,
        response_of(frame, outcome) matches Some(response) ==> response.member("id"@) == id_of(
            frame,
        ),
{
    reveal_strlit("id");
    reveal_strlit("jsonrpc");
    reveal_strlit("error");
    reveal_strlit("result");
    assert("id"@.len() == 2 && "error"@.len() == 5 && "result"@.len() == 6);
    if let Some((has_error, body)) = answer_of(frame, outcome) {
        let response = response_json(id_of(frame)->0, has_error, body);
        assert(response->Object_0.dom().contains("id"@));
    }
}

/// A method whose requests are not answered.
pub open spec fn silent_method(method: Seq<char>) -> bool {
    method == "notifications/initialized"@ || method == "notifications/cancelled"@
}

/// Only two methods are not answered.
pub proof fn law_silent_methods(host: HostView, method: Seq<char>)
    ensures
        direct_outcome(host, method) matches Some(Ok(None)) ==> silent_method(method),
{
}

/// A request that was answered is no longer pending, as long as its identifier
/// is an integer or a text.
pub proof fn law_answered_request_is_not_pending(
    host: HostView,
    frame: FrameView,
    outcome: Outcome,
    latency_ms: u64,
    settled: Settled,
)
    requires
        settle_step(host, frame, outcome, latency_ms, settled),
        answer_of(frame, outcome) is Some,
        id_of(frame) matches Some(id) && exact_id(id),
    ensures
        settled matches Settled::Done { host: next, .. } ==> !next@.kernel.pending.dom().contains(
            id_of(frame)->0,
        ),
{
    if let Settled::Done { host: next, response, completion } = settled {
        let ledger = outcome_counted(host.ledger(), key_of(frame), outcome, latency_ms)->0;
        let kernel = choose|kernel: Option<KernelView>| #[trigger]
            kernel_settled(host.kernel, frame, answer_of(frame, outcome), kernel) && (
            match crate::host::finished(host.with_ledger(ledger), key_of(frame), kernel) {
                None => settled is Halt,
                Some(after) => settled matches Settled::Done { host: next, response, completion }
                    && next@ == after && optional_json(response) == response_of(
                    frame,
                    outcome,
                ) && crate::host::completion_of(
                    host.kernel,
                    frame,
                    outcome,
                    latency_ms,
                    completion,
                ),
            });
        assert(kernel_settled(host.kernel, frame, answer_of(frame, outcome), kernel));
    }
}

/// A request of the client that has come to its end does not halt the host
/// while the counters have room, its identifier is an integer or a text, and
/// the answer does not nest too deep.
pub proof fn law_settling_does_not_halt(
    host: HostView,
    frame: FrameView,
    outcome: Outcome,
    latency_ms: u64,
    settled: Settled,
)
    requires
        settle_step(host, frame, outcome, latency_ms, settled),
        host.ledger().live(key_of(frame)),
        roomy(host.ledger(), key_of(frame)),
        host.ledger().counts(key_of(frame)).latency_total + latency_ms <= u64::MAX,
        host.telemetry.host_rollouts < u64::MAX,
        id_of(frame) matches Some(id) ==> exact_id(id),
        answer_of(frame, outcome) matches Some((_, body)) ==> shallow(body),
    ensures
        settled is Done,
{
    assert(outcome_counted(host.ledger(), key_of(frame), outcome, latency_ms) is Some);
    let ledger = outcome_counted(host.ledger(), key_of(frame), outcome, latency_ms)->0;
    assert(host.with_ledger(ledger).telemetry.host_rollouts == host.telemetry.host_rollouts);
}

/// Before the handshake is complete no tool is listed or called.
pub proof fn law_no_tools_before_the_handshake(host: HostView, frame: FrameView)
    requires
        host.kernel.session.phase != SessionPhase::Live,
        method_of(frame) == "tools/list"@ || method_of(frame) == "tools/call"@,
    ensures
        dispatch_step(host, frame) == failed(
            host,
            frame,
            not_initialized_record(
                host.generation(),
                FaultStage::Host,
                method_of(frame),
                "client must call initialize and notifications/initialized before normal operations"@,
            ),
        ),
{
    reveal_strlit("tools/list");
    reveal_strlit("tools/call");
    reveal_strlit("initialize");
    reveal_strlit("notifications/initialized");
    reveal_strlit("notifications/cancelled");
    reveal_strlit("ping");
    assert("tools/list"@[0] == 't' && "tools/call"@[0] == 't' && "initialize"@[0] == 'i'
        && "notifications/initialized"@[0] == 'n' && "notifications/cancelled"@[0] == 'n'
        && "ping"@[0] == 'p');
}

/// A cold session is live once `initialize` was answered with a result and the
/// client has sent the notification that completes the handshake; both frames
/// are kept.
pub proof fn law_handshake_opens_the_session(
    opening: FrameView,
    contract: ReplayContract,
    closing: FrameView,
)
    requires
        opening.kind matches FrameKindView::Request { id, method } && opens_session(method),
        closing.kind matches FrameKindView::Notification { method } && completes_handshake(method),
    ensures
        observed(cold_view(), opening) matches Some(seen) && begin_accepts(seen, opening) && (
        observed(
            completed(begun(seen, opening, contract), id_of(opening)->0, false),
            closing,
        ) matches Some(live) && live.session.phase == SessionPhase::Live && live.session.seed
            == Some(
            Seed {
                id: id_of(opening)->0,
                payload: opening.payload,
                initialized: Some(closing.payload),
            },
        ) && live.pending == Map::<JsonView, Invocation>::empty()),
{
    let seen = observed(cold_view(), opening)->0;
    let after = completed(begun(seen, opening, contract), id_of(opening)->0, false);
    assert(after.pending =~= Map::<JsonView, Invocation>::empty());
}

/// A session that is not bound to a project refuses the tools of the worker,
/// and nothing changes.
pub proof fn law_unbound_calls_fail(host: HostView, call: CallView)
    requires
        host.binding is None,
    ensures
        call_step(host, call) matches StepView::Settle(after, frame, Err(fault)) && after == host
            && frame == call.frame && fault.jsonrpc_code == -32004 && !fault.retryable,
{
}

/// A successor goes on with the session as it was: the handshake and the
/// pending requests, the counters, the numbers of requests and workers, and
/// what was used up. Only the worker process is not taken over, and no rollout
/// is due. The project to bind is that of the predecessor, whatever was asked
/// for at the start.
pub proof fn law_rollout_keeps_the_session(
    host: HostView,
    seed: HostStateSeed,
    setup: HostSetup,
    initial_project: Option<Seq<u8>>,
)
    requires
        hands_over(host, seed),
    ensures
        ({
            let next = resumed_host(setup, seed);
            &&& next.kernel == host.kernel
            &&& next.telemetry == host.telemetry
            &&& next.next_request_id == host.next_request_id
            &&& next.worker.generation == host.worker.generation
            &&& next.worker.has_spawned == host.worker.has_spawned
            &&& !next.worker.attached
            &&& !next.rollout_requested
            &&& next.force_rollout_consumed == host.force_rollout_consumed
            &&& next.crash_once_consumed == host.crash_once_consumed
            &&& in_step(host) ==> in_step(next)
            &&& host.binding matches Some(bound) ==> first_path(Some(seed), initial_project)
                == Some(bound.requested_path) && ((binding_view(setup.binding) matches Some(found)
                && first_path(Some(seed), initial_project) == Some(found.requested_path)) ==> (
            next.binding matches Some(again) && again.requested_path == bound.requested_path))
            &&& host.binding is None ==> first_path(Some(seed), initial_project) == initial_project
        }),
{
}

/// `next` is what may follow `step`, whatever the outside says.
pub open spec fn step_follows(step: StepView, next: StepView) -> bool {
    match step {
        StepView::Explain(host, frame, operation, _, _) => exists|detail: Seq<char>|
            next == failed(
                host,
                frame,
                #[trigger] invalid_input_record(
                    host.generation(),
                    FaultStage::Protocol,
                    operation,
                    "invalid params: "@ + detail,
                ),
            ),
        StepView::Bind(host, frame, presentation, _) => exists|report: BindReport|
            next == #[trigger] bind_step(host, frame, presentation, report),
        StepView::Health(host, frame, presentation) => exists|sight: HealthSight| #[trigger]
            health_step(host, frame, presentation, sight, next),
        StepView::Telemetry(host, frame, presentation) => exists|running: bool, now: u64| #[trigger]
            telemetry_step(host, frame, presentation, running, now, next),
        StepView::Probe(host, call, attempt) => exists|running: bool| #[trigger]
            probe_step(host, call, attempt, running, next),
        StepView::Spawn(host, call, stage, generation) => exists|outcome: SpawnOutcome| #[trigger]
            spawned_step(host, call, stage, generation, outcome, next),
        StepView::Send(host, call, attempt) => exists|outcome: SendOutcome|
            next == #[trigger] sent_step(host, call, attempt, outcome),
        StepView::Read(host, call, attempt) => exists|outcome: ReplyOutcome|
            next == #[trigger] read_step(host, call, attempt, outcome),
        _ => false,
    }
}

/// The steps follow each other, from a frame on.
pub open spec fn follows_frame(host: HostView, frame: FrameView, steps: Seq<StepView>) -> bool {
    &&& steps.len() > 0
    &&& frame_step(host, frame, steps[0])
    &&& forall|i: int|
        0 < i < steps.len() ==> step_follows(steps[i - 1], #[trigger] steps[i])
}

/// The steps that follow a frame end in a settlement of its request after this
/// time, and `settled` is what follows that.
pub open spec fn settles_frame(
    host: HostView,
    frame: FrameView,
    steps: Seq<StepView>,
    latency_ms: u64,
    settled: Settled,
) -> bool {
    &&& follows_frame(host, frame, steps)
    &&& steps.last() matches StepView::Settle(end, asked, outcome) && settle_step(
        end,
        asked,
        outcome,
        latency_ms,
        settled,
    )
}

/// Two hosts agree on the forced rollout and on how many rollouts there were.
pub open spec fn same_rollouts(one: HostView, other: HostView) -> bool {
    &&& one.force_rollout_key == other.force_rollout_key
    &&& one.force_rollout_consumed == other.force_rollout_consumed
    &&& one.rollout_requested == other.rollout_requested
    &&& one.telemetry.host_rollouts == other.telemetry.host_rollouts
}

/// The parameters in a message.
pub open spec fn given_params(frame: FrameView) -> JsonView {
    match frame.body {
        JsonView::Object(members) => if members.dom().contains("params"@) {
            members["params"@]
        } else {
            JsonView::Object(Map::empty())
        },
        _ => JsonView::Object(Map::empty()),
    }
}

/// The call is the one that the frame asks for: the tool that it names, with
/// the arguments that it gives, as they are. The tool is one of those that work
/// on issues, and only one that reads may be called again.
pub open spec fn asked_in(call: CallView, frame: FrameView) -> bool {
    &&& call.frame == frame
    &&& method_of(frame) == "tools/call"@
    &&& match given_params(frame) {
        JsonView::Object(members) => has_text(members, "name"@, call.name) && call.arguments == (
        if members.dom().contains("arguments"@) {
            members["arguments"@]
        } else {
            JsonView::Object(Map::empty())
        }),
        JsonView::Array(items) => (items.len() == 1 || items.len() == 2) && items[0]
            == JsonView::Text(call.name) && call.arguments == (if items.len() == 2 {
            items[1]
        } else {
            JsonView::Object(Map::empty())
        }),
        _ => false,
    }
    &&& call.name == "issue.save"@ || call.name == "issue.delete"@ || call.name == "issue.list"@
        || call.name == "issue.read"@
    &&& call.replay is Convergent <==> call.name == "issue.list"@ || call.name == "issue.read"@
    &&& call.replay is NeverReplay <==> call.name == "issue.save"@ || call.name == "issue.delete"@
}

/// The frame names this tool.
pub open spec fn names_tool(frame: FrameView, name: Seq<char>) -> bool {
    match given_params(frame) {
        JsonView::Object(members) => has_text(members, "name"@, name),
        JsonView::Array(items) => items.len() > 0 && items[0] == JsonView::Text(name),
        _ => false,
    }
}

/// Two hosts agree on the forced rollout, on how many rollouts there were and
/// on the project that the session is bound to.
pub open spec fn same_session(one: HostView, other: HostView) -> bool {
    &&& same_rollouts(one, other)
    &&& one.binding == other.binding
    &&& one.crash_once_key == other.crash_once_key
}

/// A step for this frame, with the rollouts of this host, and with its project
/// unless the frame binds another.
pub open spec fn serves(step: StepView, host: HostView, frame: FrameView) -> bool {
    match step {
        StepView::Silent(now) => same_session(now, host),
        StepView::Answer(now, _) => same_session(now, host),
        StepView::Settle(now, asked, outcome) => same_rollouts(now, host) && asked == frame && (
        outcome matches Ok(None) ==> silent_method(method_of(frame))) && (now.binding
            == host.binding || names_tool(frame, "project.bind"@)),
        StepView::Explain(now, asked, _, _, _) => same_session(now, host) && asked == frame,
        StepView::Bind(now, asked, _, _) => same_session(now, host) && asked == frame
            && names_tool(frame, "project.bind"@),
        StepView::Health(now, asked, _) => same_session(now, host) && asked == frame,
        StepView::Telemetry(now, asked, _) => same_session(now, host) && asked == frame,
        StepView::Probe(now, call, _) => same_session(now, host) && asked_in(call, frame),
        StepView::Spawn(now, call, _, _) => same_session(now, host) && asked_in(call, frame),
        StepView::Send(now, call, _) => same_session(now, host) && asked_in(call, frame),
        StepView::Read(now, call, _) => same_session(now, host) && asked_in(call, frame),
        StepView::Halt => true,
    }
}

proof fn lemma_loss_serves(
    now: HostView,
    call: CallView,
    attempt: Attempt,
    fault: FaultRecordView,
    host: HostView,
)
    requires
        same_session(now, host),
        asked_in(call, call.frame),
    ensures
        serves(lost_step(now, call, attempt, fault), host, call.frame),
{
}

proof fn lemma_spawn_serves(now: HostView, call: CallView, stage: SpawnStage, host: HostView)
    requires
        same_session(now, host),
        asked_in(call, call.frame),
    ensures
        serves(spawn_step(now, call, stage), host, call.frame),
        forall|fault: FaultRecordView|
            serves(#[trigger] spawn_failed(now, call, stage, fault), host, call.frame),
{
    assert forall|fault: FaultRecordView| serves(
        #[trigger] spawn_failed(now, call, stage, fault),
        host,
        call.frame,
    ) by {
        if let SpawnStage::Dispatch(attempt) = stage {
            lemma_loss_serves(now, call, attempt, fault, host);
        }
    }
}

proof fn lemma_execution_serves(now: HostView, call: CallView, attempt: Attempt, host: HostView)
    requires
        same_session(now, host),
        asked_in(call, call.frame),
    ensures
        serves(execute_step(now, call, attempt), host, call.frame),
{
    lemma_spawn_serves(now, call, SpawnStage::Dispatch(attempt), host);
}

proof fn lemma_ready_serves(now: HostView, call: CallView, next: StepView, host: HostView)
    requires
        same_session(now, host),
        asked_in(call, call.frame),
        ready_step(now, call, next),
    ensures
        serves(next, host, call.frame),
{
    let pending = HostView { kernel: begun(now.kernel, call.frame, call.replay), ..now };
    let numbered = HostView { next_request_id: (now.next_request_id + 1) as u64, ..pending };
    let attempt = Attempt { id: HostRequestId { value: now.next_request_id }, replayed: false };
    lemma_execution_serves(numbered, call, attempt, host);
}

proof fn lemma_start_serves(
    now: HostView,
    call: CallView,
    stage: SpawnStage,
    generation: Generation,
    outcome: SpawnOutcome,
    next: StepView,
    host: HostView,
)
    requires
        same_session(now, host),
        asked_in(call, call.frame),
        spawned_step(now, call, stage, generation, outcome, next),
    ensures
        serves(next, host, call.frame),
{
    match spawn_fault(generation, outcome) {
        Some(_) => lemma_spawn_serves(now, call, stage, host),
        None => {
            let started = HostView { worker: now.worker.started(generation), ..now };
            let known = replaced(started);
            match stage {
                SpawnStage::First => if generation.value > now.generation().value {
                    if let Some(after) = known {
                        lemma_ready_serves(after, call, next, host);
                    }
                } else {
                    lemma_ready_serves(started, call, next, host);
                },
                SpawnStage::Restart(Restart::Replay(id)) => {
                    if let Some(after) = known {
                        let again = HostView {
                            kernel: redispatched(after.kernel, id_of(call.frame)->0),
                            ..after.with_ledger(after.ledger().with_replay(call.operation()))
                        };
                        lemma_execution_serves(again, call, Attempt { id, replayed: true }, host);
                    }
                },
                _ => {},
            }
        },
    }
}

#[verifier::rlimit(30)]
proof fn lemma_next_serves(step: StepView, next: StepView, host: HostView, frame: FrameView)
    requires
        serves(step, host, frame),
        step_follows(step, next),
    ensures
        serves(next, host, frame),
{
    match step {
        StepView::Probe(now, call, attempt) => {
            let running = choose|running: bool| #[trigger]
                probe_step(now, call, attempt, running, next);
            let seen = HostView { worker: now.worker.observed(running), ..now };
            match attempt {
                None => if seen.worker.attached {
                    lemma_ready_serves(seen, call, next, host);
                } else {
                    lemma_spawn_serves(seen, call, SpawnStage::First, host);
                },
                Some(attempt) => lemma_spawn_serves(
                    seen,
                    call,
                    SpawnStage::Dispatch(attempt),
                    host,
                ),
            }
        },
        StepView::Spawn(now, call, stage, generation) => {
            let outcome = choose|outcome: SpawnOutcome| #[trigger]
                spawned_step(now, call, stage, generation, outcome, next);
            lemma_start_serves(now, call, stage, generation, outcome, next, host);
        },
        StepView::Send(now, call, attempt) => {
            let outcome = choose|outcome: SendOutcome|
                next == #[trigger] sent_step(now, call, attempt, outcome);
            let after = HostView { worker: after_send(now.worker, outcome), ..now };
            if let Some(fault) = send_fault(now.worker, outcome) {
                lemma_loss_serves(after, call, attempt, fault, host);
            }
        },
        StepView::Read(now, call, attempt) => {
            let outcome = choose|outcome: ReplyOutcome|
                next == #[trigger] read_step(now, call, attempt, outcome);
            let after = HostView { worker: after_reply(now.worker, outcome), ..now };
            if let Err(fault) = reply_result(now.generation(), outcome) {
                lemma_loss_serves(after, call, attempt, fault, host);
            }
        },
        _ => {},
    }
}

proof fn lemma_call_serves(now: HostView, call: CallView, host: HostView)
    requires
        same_session(now, host),
        asked_in(call, call.frame),
    ensures
        serves(call_step(now, call), host, call.frame),
{
    if let Some(binding) = now.binding {
        let bound = armed(
            HostView { worker: now.worker.rebound(binding.worktree_root), ..now },
            call.operation(),
        );
        assert(same_session(bound, host));
        lemma_spawn_serves(bound, call, SpawnStage::First, host);
    }
}

proof fn lemma_call_asked(frame: FrameView, call: CallView)
    requires
        method_of(frame) == "tools/call"@,
        envelope_of(frame.params()) matches Some(envelope) && call.arguments == envelope.arguments
            && (tool_named(envelope.name) matches Some(tool) && tool.dispatch is Worker && call.name
            == tool.name && call.replay == tool.replay),
        call.frame == frame,
    ensures
        asked_in(call, frame),
{
    lemma_words();
    reveal_strlit("project.bind");
    reveal_strlit("issue.save");
    reveal_strlit("issue.delete");
    reveal_strlit("issue.list");
    reveal_strlit("issue.read");
    assert("project.bind"@[0] == 'p');
    assert("issue.save"@[0] == 'i' && "issue.delete"@[0] == 'i' && "issue.list"@[0] == 'i'
        && "issue.read"@[0] == 'i');
    assert(given_params(frame) == frame.params());
}

proof fn lemma_dispatch_serves(now: HostView, frame: FrameView, host: HostView)
    requires
        same_session(now, host),
    ensures
        serves(dispatch_step(now, frame), host, frame),
{
    match direct_outcome(now, method_of(frame)) {
        Some(_) => law_silent_methods(now, method_of(frame)),
        None => {
            if let Some(envelope) = envelope_of(frame.params()) {
                if let Some(tool) = tool_named(envelope.name) {
                    let call = CallView {
                        frame,
                        name: tool.name,
                        replay: tool.replay,
                        arguments: envelope.arguments,
                    };
                    if tool.dispatch is Worker {
                        lemma_call_asked(frame, call);
                        lemma_call_serves(now, call, host);
                    }
                    if tool.dispatch is Host && envelope.name == "project.bind"@ {
                        assert(given_params(frame) == frame.params());
                        assert(names_tool(frame, "project.bind"@));
                    }
                    assert(serves(
                        host_tool_step(now, frame, envelope.name, envelope.arguments),
                        host,
                        frame,
                    ));
                }
            }
        },
    }
}

proof fn lemma_frame_serves(host: HostView, frame: FrameView, step: StepView)
    requires
        frame_step(host, frame, step),
    ensures
        serves(step, host, frame),
{
    let counted = admitted(host, frame);
    if let Some(kernel) = observed(host.kernel, frame) {
        let seen = HostView { kernel, ..counted };
        let contract = contract_of(method_of(frame), frame.params());
        let pending = HostView { kernel: begun(kernel, frame, contract), ..seen };
        lemma_dispatch_serves(seen, frame, host);
        lemma_dispatch_serves(pending, frame, host);
    }
}

/// No step between a frame and the settlement of its request touches the
/// forced rollout or the number of rollouts, nor the project that the session
/// is bound to, unless the frame binds another. None is for another frame: a
/// worker is only ever asked for the call that the frame asks for.
pub proof fn law_steps_serve_their_frame(
    host: HostView,
    frame: FrameView,
    steps: Seq<StepView>,
    at: int,
)
    requires
        follows_frame(host, frame, steps),
        0 <= at < steps.len(),
    ensures
        serves(steps[at], host, frame),
    decreases at,
{
    if at == 0 {
        lemma_frame_serves(host, frame, steps[0]);
    } else {
        law_steps_serve_their_frame(host, frame, steps, at - 1);
        lemma_next_serves(steps[at - 1], steps[at], host, frame);
    }
}

/// A forced rollout that was used up comes no more, and none comes of another
/// operation than the one of its key: a frame that is settled leaves the number
/// of rollouts and the request for one as they were.
pub proof fn law_used_up_rollout_stays_used_up(
    host: HostView,
    frame: FrameView,
    steps: Seq<StepView>,
    latency_ms: u64,
    settled: Settled,
)
    requires
        host.force_rollout_consumed || host.force_rollout_key != Some(key_of(frame)),
        settles_frame(host, frame, steps, latency_ms, settled),
    ensures
        settled matches Settled::Done { host: next, .. } ==> same_rollouts(next@, host),
{
    law_steps_serve_their_frame(host, frame, steps, steps.len() - 1);
}

/// A forced rollout comes once. The first frame with its key uses it up: a
/// rollout is requested and counted, and the request is answered all the same.
/// A later frame, with the same key or another, leaves the count as it is.
pub proof fn law_forced_rollout_comes_once(
    host: HostView,
    frame: FrameView,
    steps: Seq<StepView>,
    latency_ms: u64,
    settled: Settled,
    later: FrameView,
    later_steps: Seq<StepView>,
    later_latency_ms: u64,
    later_settled: Settled,
)
    requires
        host.force_rollout_key == Some(key_of(frame)),
        !host.force_rollout_consumed,
        settles_frame(host, frame, steps, latency_ms, settled),
        settled matches Settled::Done { host: next, .. } ==> settles_frame(
            next@,
            later,
            later_steps,
            later_latency_ms,
            later_settled,
        ),
    ensures
        settled matches Settled::Done { host: next, response, .. } ==> {
            &&& next@.force_rollout_consumed
            &&& next@.rollout_requested
            &&& next@.telemetry.host_rollouts == host.telemetry.host_rollouts + 1
            &&& steps.last() matches StepView::Settle(_, _, outcome) && optional_json(response)
                == response_of(frame, outcome)
            &&& id_of(frame) is Some && !silent_method(method_of(frame)) ==> response is Some
            &&& later_settled matches Settled::Done { host: last, .. } ==> same_rollouts(
                last@,
                next@,
            )
        },
{
    law_steps_serve_their_frame(host, frame, steps, steps.len() - 1);
    if let Settled::Done { host: next, .. } = settled {
        law_used_up_rollout_stays_used_up(
            next@,
            later,
            later_steps,
            later_latency_ms,
            later_settled,
        );
    }
}

/// A worker is to be lost in the operation of the key, once, and in no other.
pub proof fn law_crash_is_armed_by_its_key(host: HostView, call: CallView)
    requires
        host.binding is Some,
    ensures
        ({
            let due = host.crash_once_key == Some("tools/call:"@ + call.name)
                && !host.crash_once_consumed;
            match call_step(host, call) {
                StepView::Probe(now, _, _) => now.worker.crash_armed == (host.worker.crash_armed
                    || due) && now.crash_once_consumed == (host.crash_once_consumed || due),
                StepView::Spawn(now, _, _, _) => now.worker.crash_armed == (
                host.worker.crash_armed || due) && now.crash_once_consumed == (
                host.crash_once_consumed || due),
                StepView::Settle(_, _, outcome) => outcome is Err,
                _ => false,
            }
        }),
{
}

/// Every request of a method is answered, failed, or in flight.
pub open spec fn balanced(counts: MethodCounters) -> bool {
    counts.requests == counts.successes + counts.errors + counts.in_flight
}

/// The counters of every method balance.
pub open spec fn balanced_ledger(ledger: LedgerView) -> bool {
    forall|method: Seq<char>| #[trigger]
        ledger.methods.dom().contains(method) ==> balanced(ledger.methods[method])
}

/// A successor takes every session over whose frames are within the limit and
/// whose handshake was opened under an integer or a text, with the pending
/// request where there is one.
pub proof fn law_session_is_taken_over(host: HostView, seed: HostStateSeed)
    requires
        hands_over(host, seed),
        pending_within(host.kernel, MAX_FRAME_BYTES as nat),
        host.kernel.session.seed matches Some(opened) ==> !(opened.id is Fraction)
            && opened.payload.len() <= MAX_FRAME_BYTES && (
        opened.initialized matches Some(payload) ==> payload.len() <= MAX_FRAME_BYTES),
    ensures
        snapshot_current(seed.session_kernel),
        takes_back(
            snapshot_view(seed.session_kernel),
            MAX_FRAME_BYTES as nat,
            MAX_REPLAY_ATTEMPTS as nat,
        ),
{
}

/// The counters go on to balance, whatever is counted.
pub proof fn law_counters_balance(
    ledger: LedgerView,
    method: Seq<char>,
    outcome: Outcome,
    latency_ms: u64,
    fault: crate::fault::FaultView,
    generation: nat,
)
    requires
        balanced_ledger(ledger),
    ensures
        balanced_ledger(ledger.with_request(method)),
        outcome_counted(ledger, method, outcome, latency_ms) matches Some(after)
            ==> balanced_ledger(after),
        ledger.recovery_fault_fits(method, fault) ==> balanced_ledger(
            ledger.with_recovery_fault(method, fault),
        ),
        ledger.replay_fits(method) ==> balanced_ledger(ledger.with_replay(method)),
        balanced_ledger(ledger.with_replacement(generation)),
{
}

} // verus!
