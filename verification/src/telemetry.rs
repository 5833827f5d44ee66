//! Session telemetry: the operational ledger of `libmcp` and its ranking.

use libmcp::{FaultClass, LifecycleState, OperationalLedger, RolloutState, WorkerHandshakePhase};
use serde_json::to_value;
use vstd::prelude::*;

use crate::fault::{
    Fault, FaultRecord, FaultRecordView, FaultStage, FaultView, Generation, fault_json, snake_code,
};
use crate::json::{Json, JsonView, json_from_value};
use crate::order::{
    Ranked, lemma_text_le_total, lemma_text_le_transitive, ranked, sort, text_at_most, text_le,
};
use crate::text::blank;

verus! {

/// `libmcp::OperationalLedger`: the collection of counters by method.
#[verifier::external_type_specification]
#[verifier::external_body]
pub struct ExOperationalLedger(libmcp::OperationalLedger);

/// `libmcp::LifecycleState`, whose variants are public.
#[verifier::external_type_specification]
pub struct ExLifecycleState(libmcp::LifecycleState);

/// `libmcp::WorkerHandshakePhase`, whose variants are public.
#[verifier::external_type_specification]
pub struct ExWorkerHandshakePhase(libmcp::WorkerHandshakePhase);

/// `libmcp::RolloutState`, whose variants are public.
#[verifier::external_type_specification]
pub struct ExRolloutState(libmcp::RolloutState);

/// The counters of one method.
pub struct MethodCounters {
    pub requests: nat,
    pub in_flight: nat,
    pub successes: nat,
    pub errors: nat,
    pub response_errors: nat,
    pub recovery_errors: nat,
    pub recovery_faults: nat,
    pub retries: nat,
    pub latency_samples: nat,
    pub latency_total: nat,
    pub last_latency: Option<u64>,
    pub max_latency: nat,
    pub last_error: Option<Seq<char>>,
}

/// The counters over all methods.
pub struct TotalCounters {
    pub requests: nat,
    pub successes: nat,
    pub errors: nat,
    pub response_errors: nat,
    pub recovery_errors: nat,
    pub recovery_faults: nat,
    pub retries: nat,
}

/// What a ledger holds besides the counters of the methods.
pub struct LedgerSession {
    /// The generation of the active worker.
    pub generation: nat,
    pub consecutive_failures: nat,
    pub restarts: nat,
    pub totals: TotalCounters,
    pub last_fault: Option<FaultView>,
}

/// The counters of a ledger, by method.
pub uninterp spec fn ledger_methods(ledger: OperationalLedger) -> Map<Seq<char>, MethodCounters>;

/// What a ledger holds besides.
pub uninterp spec fn ledger_session(ledger: OperationalLedger) -> LedgerSession;

/// The counters and the rest together.
pub struct LedgerView {
    pub methods: Map<Seq<char>, MethodCounters>,
    pub session: LedgerSession,
}

/// What a ledger holds.
pub open spec fn ledger_view(ledger: OperationalLedger) -> LedgerView {
    LedgerView { methods: ledger_methods(ledger), session: ledger_session(ledger) }
}

/// The counters of a method that was never called.
pub open spec fn no_counts() -> MethodCounters {
    MethodCounters {
        requests: 0,
        in_flight: 0,
        successes: 0,
        errors: 0,
        response_errors: 0,
        recovery_errors: 0,
        recovery_faults: 0,
        retries: 0,
        latency_samples: 0,
        latency_total: 0,
        last_latency: None,
        max_latency: 0,
        last_error: None,
    }
}

/// A ledger before the first request.
pub open spec fn new_ledger(generation: nat) -> LedgerView {
    LedgerView {
        methods: Map::empty(),
        session: LedgerSession {
            generation,
            consecutive_failures: 0,
            restarts: 0,
            totals: TotalCounters {
                requests: 0,
                successes: 0,
                errors: 0,
                response_errors: 0,
                recovery_errors: 0,
                recovery_faults: 0,
                retries: 0,
            },
            last_fault: None,
        },
    }
}

impl LedgerView {
    /// The counters of a method.
    pub open spec fn counts(self, method: Seq<char>) -> MethodCounters {
        if self.methods.dom().contains(method) {
            self.methods[method]
        } else {
            no_counts()
        }
    }

    /// Whether a request of this method waits for its outcome.
    pub open spec fn live(self, method: Seq<char>) -> bool {
        !blank(method) && self.methods.dom().contains(method) && self.methods[method].in_flight > 0
    }

    /// The ledger with other counters for one method.
    pub open spec fn with_counts(self, method: Seq<char>, counts: MethodCounters) -> LedgerView {
        LedgerView { methods: self.methods.insert(method, counts), ..self }
    }

    /// The ledger with other totals.
    pub open spec fn with_totals(self, totals: TotalCounters) -> LedgerView {
        LedgerView { session: LedgerSession { totals, ..self.session }, ..self }
    }

    /// Room for one more request of this method.
    pub open spec fn request_fits(self, method: Seq<char>) -> bool {
        let counts = self.counts(method);
        &&& !blank(method)
        &&& counts.requests < u64::MAX
        &&& counts.in_flight < u64::MAX
        &&& self.session.totals.requests < u64::MAX
    }

    /// One more request of this method.
    pub open spec fn with_request(self, method: Seq<char>) -> LedgerView {
        let counts = self.counts(method);
        let totals = self.session.totals;
        self.with_counts(
            method,
            MethodCounters {
                requests: counts.requests + 1,
                in_flight: counts.in_flight + 1,
                ..counts
            },
        ).with_totals(TotalCounters { requests: totals.requests + 1, ..totals })
    }

    /// Room for one more latency.
    pub open spec fn latency_fits(self, method: Seq<char>, latency: nat) -> bool {
        let counts = self.counts(method);
        &&& counts.latency_samples < u64::MAX
        &&& counts.latency_total + latency <= u64::MAX
    }

    /// The counters after one more latency.
    pub open spec fn timed(self, method: Seq<char>, latency: u64) -> MethodCounters {
        let counts = self.counts(method);
        MethodCounters {
            latency_samples: counts.latency_samples + 1,
            latency_total: counts.latency_total + latency as nat,
            last_latency: Some(latency),
            max_latency: if latency > counts.max_latency {
                latency as nat
            } else {
                counts.max_latency
            },
            ..counts
        }
    }

    /// A success of this method can be counted.
    pub open spec fn success_fits(self, method: Seq<char>, latency: u64) -> bool {
        &&& self.live(method)
        &&& self.latency_fits(method, latency as nat)
        &&& self.counts(method).successes < u64::MAX
        &&& self.session.totals.successes < u64::MAX
    }

    /// One more success; the run of failures ends.
    pub open spec fn with_success(self, method: Seq<char>, latency: u64) -> LedgerView {
        let counts = self.timed(method, latency);
        let totals = self.session.totals;
        let counted = self.with_counts(
            method,
            MethodCounters {
                successes: counts.successes + 1,
                in_flight: (counts.in_flight - 1) as nat,
                ..counts
            },
        );
        LedgerView {
            session: LedgerSession {
                consecutive_failures: 0,
                totals: TotalCounters { successes: totals.successes + 1, ..totals },
                ..counted.session
            },
            ..counted
        }
    }

    /// An error of this method can be counted.
    pub open spec fn error_fits(self, method: Seq<char>) -> bool {
        &&& self.live(method)
        &&& self.counts(method).errors < u64::MAX
        &&& self.session.totals.errors < u64::MAX
    }

    /// One more error of the host itself.
    pub open spec fn with_error(
        self,
        method: Seq<char>,
        latency: u64,
        detail: Seq<char>,
    ) -> LedgerView {
        let counts = self.timed(method, latency);
        let totals = self.session.totals;
        self.with_counts(
            method,
            MethodCounters {
                errors: counts.errors + 1,
                in_flight: (counts.in_flight - 1) as nat,
                last_error: Some(detail),
                ..counts
            },
        ).with_totals(TotalCounters { errors: totals.errors + 1, ..totals })
    }

    /// A response error of this method can be counted.
    pub open spec fn response_error_fits(self, method: Seq<char>) -> bool {
        &&& self.error_fits(method)
        &&& self.counts(method).response_errors < u64::MAX
        &&& self.session.totals.response_errors < u64::MAX
    }

    /// One more error that the worker answered with.
    pub open spec fn with_response_error(
        self,
        method: Seq<char>,
        latency: u64,
        detail: Seq<char>,
    ) -> LedgerView {
        let counts = self.timed(method, latency);
        let totals = self.session.totals;
        self.with_counts(
            method,
            MethodCounters {
                response_errors: counts.response_errors + 1,
                errors: counts.errors + 1,
                in_flight: (counts.in_flight - 1) as nat,
                last_error: Some(detail),
                ..counts
            },
        ).with_totals(
            TotalCounters {
                response_errors: totals.response_errors + 1,
                errors: totals.errors + 1,
                ..totals
            },
        )
    }

    /// A recovery error of this method can be counted.
    pub open spec fn recovery_error_fits(self, method: Seq<char>) -> bool {
        &&& self.error_fits(method)
        &&& self.counts(method).recovery_errors < u64::MAX
        &&& self.session.totals.recovery_errors < u64::MAX
    }

    /// One more error that recovery caused.
    pub open spec fn with_recovery_error(self, method: Seq<char>, detail: Seq<char>) -> LedgerView {
        let counts = self.counts(method);
        let totals = self.session.totals;
        self.with_counts(
            method,
            MethodCounters {
                recovery_errors: counts.recovery_errors + 1,
                errors: counts.errors + 1,
                in_flight: (counts.in_flight - 1) as nat,
                last_error: Some(detail),
                ..counts
            },
        ).with_totals(
            TotalCounters {
                recovery_errors: totals.recovery_errors + 1,
                errors: totals.errors + 1,
                ..totals
            },
        )
    }

    /// A fault that triggers recovery can be counted.
    pub open spec fn recovery_fault_fits(self, method: Seq<char>, fault: FaultView) -> bool {
        &&& fault.generation.value as nat == self.session.generation
        &&& snake_code(fault.code)
        &&& self.live(method)
        &&& self.counts(method).recovery_faults < u64::MAX
        &&& self.session.totals.recovery_faults < u64::MAX
        &&& self.session.consecutive_failures < u32::MAX
    }

    /// One more fault that triggers recovery.
    pub open spec fn with_recovery_fault(self, method: Seq<char>, fault: FaultView) -> LedgerView {
        let counts = self.counts(method);
        let totals = self.session.totals;
        let counted = self.with_counts(
            method,
            MethodCounters {
                recovery_faults: counts.recovery_faults + 1,
                last_error: Some(fault.detail),
                ..counts
            },
        );
        LedgerView {
            session: LedgerSession {
                consecutive_failures: self.session.consecutive_failures + 1,
                totals: TotalCounters { recovery_faults: totals.recovery_faults + 1, ..totals },
                last_fault: Some(fault),
                ..counted.session
            },
            ..counted
        }
    }

    /// A replay of this method can be counted.
    pub open spec fn replay_fits(self, method: Seq<char>) -> bool {
        &&& self.live(method)
        &&& self.counts(method).retries < u64::MAX
        &&& self.session.totals.retries < u64::MAX
    }

    /// One more replay.
    pub open spec fn with_replay(self, method: Seq<char>) -> LedgerView {
        let counts = self.counts(method);
        let totals = self.session.totals;
        self.with_counts(
            method,
            MethodCounters { retries: counts.retries + 1, ..counts },
        ).with_totals(TotalCounters { retries: totals.retries + 1, ..totals })
    }

    /// A worker of this generation can replace the active one.
    pub open spec fn replacement_fits(self, generation: nat) -> bool {
        &&& generation > self.session.generation
        &&& self.session.restarts < u64::MAX
    }

    /// A worker of this generation is the active one.
    pub open spec fn with_replacement(self, generation: nat) -> LedgerView {
        LedgerView {
            session: LedgerSession {
                generation,
                restarts: self.session.restarts + 1,
                ..self.session
            },
            ..self
        }
    }
}

/// `libmcp::OperationalLedger::new`: a ledger before the first request.
#[verifier::external_body]
fn open_ledger() -> (ledger: OperationalLedger)
    ensures
        ledger_methods(ledger) == new_ledger(1).methods,
        ledger_session(ledger) == new_ledger(1).session,
{
    OperationalLedger::new(libmcp::Generation::genesis())
}

/// `libmcp::OperationalLedger::record_request`, for a method that
/// `libmcp::RpcMethod::try_new` takes (any that is not blank): counts the
/// request where no counter is exhausted; otherwise changes nothing.
#[verifier::external_body]
fn ledger_request(ledger: &mut OperationalLedger, method: &str) -> (recorded: bool)
    ensures
        recorded == ledger_view(*old(ledger)).request_fits(method@),
        ledger_view(*final(ledger)) == (if recorded {
            ledger_view(*old(ledger)).with_request(method@)
        } else {
            ledger_view(*old(ledger))
        }),
{
    libmcp::RpcMethod::try_new(method).is_ok_and(|method| ledger.record_request(method).is_ok())
}

/// `libmcp::OperationalLedger::record_success`: counts the success of a
/// request that waits for its outcome; otherwise changes nothing.
#[verifier::external_body]
fn ledger_success(ledger: &mut OperationalLedger, method: &str, latency_ms: u64) -> (recorded: bool)
    ensures
        recorded == ledger_view(*old(ledger)).success_fits(method@, latency_ms),
        ledger_view(*final(ledger)) == (if recorded {
            ledger_view(*old(ledger)).with_success(method@, latency_ms)
        } else {
            ledger_view(*old(ledger))
        }),
{
    libmcp::RpcMethod::try_new(method)
        .is_ok_and(|method| ledger.record_success(&method, latency_ms).is_ok())
}

/// `libmcp::OperationalLedger::record_error`: counts an error of the host.
#[verifier::external_body]
fn ledger_error(
    ledger: &mut OperationalLedger,
    method: &str,
    latency_ms: u64,
    detail: &str,
) -> (recorded: bool)
    ensures
        recorded == (ledger_view(*old(ledger)).error_fits(method@) && ledger_view(
            *old(ledger),
        ).latency_fits(method@, latency_ms as nat)),
        ledger_view(*final(ledger)) == (if recorded {
            ledger_view(*old(ledger)).with_error(method@, latency_ms, detail@)
        } else {
            ledger_view(*old(ledger))
        }),
{
    libmcp::RpcMethod::try_new(method)
        .is_ok_and(|method| ledger.record_error(&method, latency_ms, detail).is_ok())
}

/// `libmcp::OperationalLedger::record_response_error`: counts an error that
/// the worker answered with.
#[verifier::external_body]
fn ledger_response_error(
    ledger: &mut OperationalLedger,
    method: &str,
    latency_ms: u64,
    detail: &str,
) -> (recorded: bool)
    ensures
        recorded == (ledger_view(*old(ledger)).response_error_fits(method@) && ledger_view(
            *old(ledger),
        ).latency_fits(method@, latency_ms as nat)),
        ledger_view(*final(ledger)) == (if recorded {
            ledger_view(*old(ledger)).with_response_error(method@, latency_ms, detail@)
        } else {
            ledger_view(*old(ledger))
        }),
{
    libmcp::RpcMethod::try_new(method)
        .is_ok_and(|method| ledger.record_response_error(&method, latency_ms, detail).is_ok())
}

/// `libmcp::OperationalLedger::record_recovery_error`: counts an error that
/// recovery caused.
#[verifier::external_body]
fn ledger_recovery_error(ledger: &mut OperationalLedger, method: &str, detail: &str) -> (recorded:
    bool)
    ensures
        recorded == ledger_view(*old(ledger)).recovery_error_fits(method@),
        ledger_view(*final(ledger)) == (if recorded {
            ledger_view(*old(ledger)).with_recovery_error(method@, detail@)
        } else {
            ledger_view(*old(ledger))
        }),
{
    libmcp::RpcMethod::try_new(method)
        .is_ok_and(|method| ledger.record_recovery_error(&method, detail).is_ok())
}

/// `libmcp::OperationalLedger::record_recovery_fault`: counts a fault of the
/// active generation that triggers recovery of this method.
#[verifier::external_body]
fn ledger_recovery_fault(ledger: &mut OperationalLedger, method: &str, fault: &Fault) -> (recorded:
    bool)
    ensures
        recorded == ledger_view(*old(ledger)).recovery_fault_fits(method@, fault@),
        ledger_view(*final(ledger)) == (if recorded {
            ledger_view(*old(ledger)).with_recovery_fault(method@, fault@)
        } else {
            ledger_view(*old(ledger))
        }),
{
    let (Ok(method), Ok(generation), Ok(code)) = (
        libmcp::RpcMethod::try_new(method),
        libmcp::Generation::try_new(fault.generation.value),
        libmcp::FaultCode::try_new(fault.code.as_str()),
    ) else {
        return false;
    };
    let fault =
        libmcp::Fault::new(generation, fault.class, code, fault.recovery_hint, fault.detail.as_str());
    ledger.record_recovery_fault(Some(&method), fault).is_ok()
}

/// `libmcp::OperationalLedger::record_replay`: counts one more dispatch of a
/// request that waits for its outcome.
#[verifier::external_body]
fn ledger_replay(ledger: &mut OperationalLedger, method: &str) -> (recorded: bool)
    ensures
        recorded == ledger_view(*old(ledger)).replay_fits(method@),
        ledger_view(*final(ledger)) == (if recorded {
            ledger_view(*old(ledger)).with_replay(method@)
        } else {
            ledger_view(*old(ledger))
        }),
{
    libmcp::RpcMethod::try_new(method).is_ok_and(|method| ledger.record_replay(&method).is_ok())
}

/// `libmcp::OperationalLedger::replace_worker`: takes a later generation as
/// the active one.
#[verifier::external_body]
fn ledger_replace_worker(ledger: &mut OperationalLedger, generation: Generation) -> (recorded: bool)
    ensures
        recorded == ledger_view(*old(ledger)).replacement_fits(generation.value as nat),
        ledger_view(*final(ledger)) == (if recorded {
            ledger_view(*old(ledger)).with_replacement(generation.value as nat)
        } else {
            ledger_view(*old(ledger))
        }),
{
    libmcp::Generation::try_new(generation.value)
        .is_ok_and(|generation| ledger.replace_worker(generation).is_ok())
}

/// `libmcp::OperationalLedger::clone`: a ledger with the same contents.
#[verifier::external_body]
fn copy_ledger(ledger: &OperationalLedger) -> (copy: OperationalLedger)
    ensures
        ledger_view(copy) == ledger_view(*ledger),
{
    ledger.clone()
}

/// The wire form of a lifecycle state.
pub open spec fn lifecycle_text(state: LifecycleState) -> Seq<char> {
    match state {
        LifecycleState::Cold => "cold"@,
        LifecycleState::Starting => "starting"@,
        LifecycleState::Ready => "ready"@,
        LifecycleState::Recovering => "recovering"@,
    }
}

/// The wire form of a handshake phase.
pub open spec fn handshake_text(phase: WorkerHandshakePhase) -> Seq<char> {
    match phase {
        WorkerHandshakePhase::Absent => "absent"@,
        WorkerHandshakePhase::Starting => "starting"@,
        WorkerHandshakePhase::Initializing => "initializing"@,
        WorkerHandshakePhase::Ready => "ready"@,
        WorkerHandshakePhase::Failed => "failed"@,
    }
}

/// The wire form of a rollout state.
pub open spec fn rollout_text(state: RolloutState) -> Seq<char> {
    match state {
        RolloutState::Stable => "stable"@,
        RolloutState::Pending => "pending"@,
        RolloutState::Reloading => "reloading"@,
    }
}

/// The members of an object, with the last fault where there was one.
pub open spec fn with_last_fault(
    members: Map<Seq<char>, JsonView>,
    last_fault: Option<FaultView>,
) -> Map<Seq<char>, JsonView> {
    match last_fault {
        Some(fault) => members.insert("last_fault"@, fault_json(fault)),
        None => members,
    }
}

/// The health document of a session.
pub open spec fn health_json(
    session: LedgerSession,
    uptime_ms: u64,
    state: LifecycleState,
    handshake: WorkerHandshakePhase,
    rollout: RolloutState,
) -> JsonView {
    JsonView::Object(
        with_last_fault(
            map![
                "state"@ => JsonView::Text(lifecycle_text(state)),
                "worker_handshake"@ => JsonView::Text(handshake_text(handshake)),
                "generation"@ => JsonView::Unsigned(session.generation),
                "uptime_ms"@ => JsonView::Unsigned(uptime_ms as nat),
                "consecutive_failures"@ => JsonView::Unsigned(session.consecutive_failures),
                "restart_count"@ => JsonView::Unsigned(session.restarts),
                "rollout"@ => JsonView::Text(rollout_text(rollout)),
            ],
            session.last_fault,
        ),
    )
}

/// The mean of the latencies of a method, rounded down.
pub open spec fn mean_latency(counts: MethodCounters) -> nat {
    if counts.latency_samples == 0 {
        0
    } else {
        counts.latency_total / counts.latency_samples
    }
}

/// The telemetry document of one method.
pub open spec fn method_json(method: Seq<char>, counts: MethodCounters) -> JsonView {
    let members = map![
        "method"@ => JsonView::Text(method),
        "request_count"@ => JsonView::Unsigned(counts.requests),
        "success_count"@ => JsonView::Unsigned(counts.successes),
        "error_count"@ => JsonView::Unsigned(counts.errors),
        "response_error_count"@ => JsonView::Unsigned(counts.response_errors),
        "recovery_error_count"@ => JsonView::Unsigned(counts.recovery_errors),
        "recovery_fault_count"@ => JsonView::Unsigned(counts.recovery_faults),
        "retry_count"@ => JsonView::Unsigned(counts.retries),
        "max_latency_ms"@ => JsonView::Unsigned(counts.max_latency),
        "avg_latency_ms"@ => JsonView::Unsigned(mean_latency(counts)),
    ];
    let members = match counts.last_latency {
        Some(latency) => members.insert("last_latency_ms"@, JsonView::Unsigned(latency as nat)),
        None => members,
    };
    JsonView::Object(
        match counts.last_error {
            Some(detail) => members.insert("last_error"@, JsonView::Text(detail)),
            None => members,
        },
    )
}

/// The telemetry document of a session; `names` are the methods in order.
pub open spec fn telemetry_json(
    ledger: LedgerView,
    names: Seq<Seq<char>>,
    uptime_ms: u64,
    state: LifecycleState,
    handshake: WorkerHandshakePhase,
) -> JsonView {
    let session = ledger.session;
    let totals = session.totals;
    JsonView::Object(
        with_last_fault(
            map![
                "uptime_ms"@ => JsonView::Unsigned(uptime_ms as nat),
                "state"@ => JsonView::Text(lifecycle_text(state)),
                "worker_handshake"@ => JsonView::Text(handshake_text(handshake)),
                "generation"@ => JsonView::Unsigned(session.generation),
                "consecutive_failures"@ => JsonView::Unsigned(session.consecutive_failures),
                "restart_count"@ => JsonView::Unsigned(session.restarts),
                "totals"@ => JsonView::Object(map![
                    "request_count"@ => JsonView::Unsigned(totals.requests),
                    "success_count"@ => JsonView::Unsigned(totals.successes),
                    "error_count"@ => JsonView::Unsigned(totals.errors),
                    "response_error_count"@ => JsonView::Unsigned(totals.response_errors),
                    "recovery_error_count"@ => JsonView::Unsigned(totals.recovery_errors),
                    "recovery_fault_count"@ => JsonView::Unsigned(totals.recovery_faults),
                    "retry_count"@ => JsonView::Unsigned(totals.retries),
                ]),
                "methods"@ => JsonView::Array(
                    names.map_values(|name: Seq<char>| method_json(name, ledger.methods[name])),
                ),
            ],
            session.last_fault,
        ),
    )
}

/// The counters over all methods, at one moment.
#[derive(Clone, Copy, Debug)]
pub struct Totals {
    pub requests: u64,
    pub successes: u64,
    pub errors: u64,
    pub response_errors: u64,
    pub recovery_errors: u64,
    pub recovery_faults: u64,
    pub retries: u64,
}

impl View for Totals {
    type V = TotalCounters;

    open spec fn view(&self) -> TotalCounters {
        TotalCounters {
            requests: self.requests as nat,
            successes: self.successes as nat,
            errors: self.errors as nat,
            response_errors: self.response_errors as nat,
            recovery_errors: self.recovery_errors as nat,
            recovery_faults: self.recovery_faults as nat,
            retries: self.retries as nat,
        }
    }
}

/// The counters of one method, at one moment.
#[derive(Debug)]
pub struct MethodRow {
    pub method: String,
    pub requests: u64,
    pub errors: u64,
    pub response_errors: u64,
    pub recovery_errors: u64,
    pub recovery_faults: u64,
    pub retries: u64,
}

impl MethodRow {
    /// The row shows these counters.
    pub open spec fn shows(self, counts: MethodCounters) -> bool {
        &&& self.requests == counts.requests
        &&& self.errors == counts.errors
        &&& self.response_errors == counts.response_errors
        &&& self.recovery_errors == counts.recovery_errors
        &&& self.recovery_faults == counts.recovery_faults
        &&& self.retries == counts.retries
    }
}

/// The rows are those of the methods, each once.
pub open spec fn lists_methods(
    methods: Map<Seq<char>, MethodCounters>,
    rows: Seq<MethodRow>,
) -> bool {
    &&& forall|i: int|
        0 <= i < rows.len() ==> methods.dom().contains((#[trigger] rows[i]).method@)
            && rows[i].shows(methods[rows[i].method@])
    &&& forall|i: int, j: int|
        #![trigger rows[i], rows[j]]
        0 <= i < j < rows.len() ==> rows[i].method@ != rows[j].method@
    &&& forall|method: Seq<char>| #[trigger]
        methods.dom().contains(method) ==> exists|i: int|
            0 <= i < rows.len() && (#[trigger] rows[i]).method@ == method
}

/// The methods of the rows.
pub open spec fn row_names(rows: Seq<MethodRow>) -> Seq<Seq<char>> {
    rows.map_values(|row: MethodRow| row.method@)
}

/// The rows stand in the dictionary order of their methods.
pub open spec fn in_name_order(rows: Seq<MethodRow>) -> bool {
    forall|i: int, j: int|
        #![trigger rows[i], rows[j]]
        0 <= i <= j < rows.len() ==> text_le(rows[i].method@, rows[j].method@)
}

/// What a ledger shows at one moment.
pub struct TelemetryReport {
    pub totals: Totals,
    pub restarts: u64,
    pub methods: Vec<MethodRow>,
    pub document: Json,
}

impl TelemetryReport {
    /// The report shows this ledger.
    pub open spec fn shows(
        self,
        ledger: LedgerView,
        uptime_ms: u64,
        state: LifecycleState,
        handshake: WorkerHandshakePhase,
    ) -> bool {
        &&& self.totals@ == ledger.session.totals
        &&& self.restarts == ledger.session.restarts
        &&& lists_methods(ledger.methods, self.methods@)
        &&& in_name_order(self.methods@)
        &&& self.document@ == telemetry_json(
            ledger,
            row_names(self.methods@),
            uptime_ms,
            state,
            handshake,
        )
    }
}

/// The health of a session at one moment.
pub struct HealthReport {
    pub state: LifecycleState,
    pub rollout: RolloutState,
    pub generation: u64,
    pub document: Json,
}

impl HealthReport {
    /// The report shows this session.
    pub open spec fn shows(
        self,
        session: LedgerSession,
        uptime_ms: u64,
        state: LifecycleState,
        handshake: WorkerHandshakePhase,
        rollout: RolloutState,
    ) -> bool {
        &&& self.state == state
        &&& self.rollout == rollout
        &&& self.generation == session.generation
        &&& self.document@ == health_json(session, uptime_ms, state, handshake, rollout)
    }
}

/// `libmcp::OperationalLedger::health_snapshot`: the states that it was given,
/// the generation of the worker, and all of it as a JSON document.
#[verifier::external_body]
fn ledger_health(
    ledger: &OperationalLedger,
    uptime_ms: u64,
    state: LifecycleState,
    handshake: WorkerHandshakePhase,
    rollout: RolloutState,
) -> (report: HealthReport)
    ensures
        report.shows(ledger_view(*ledger).session, uptime_ms, state, handshake, rollout),
{
    let health = ledger.health_snapshot(uptime_ms, state, handshake, Some(rollout));
    let document = json_from_value(&to_value(&health).unwrap_or_default());
    HealthReport { state: health.state, rollout, generation: health.generation.get(), document }
}

/// `libmcp::OperationalLedger::telemetry_snapshot`: the totals, the number of
/// restarts, the methods in the order of their names, and all of it as a JSON
/// document.
#[verifier::external_body]
fn ledger_telemetry(
    ledger: &OperationalLedger,
    uptime_ms: u64,
    state: LifecycleState,
    handshake: WorkerHandshakePhase,
) -> (report: TelemetryReport)
    ensures
        report.shows(ledger_view(*ledger), uptime_ms, state, handshake),
{
    let shot = ledger.telemetry_snapshot(uptime_ms, state, handshake);
    let t = &shot.totals;
    let totals = Totals { requests: t.request_count(), successes: t.success_count(),
        errors: t.error_count(), response_errors: t.response_error_count(),
        recovery_errors: t.recovery_error_count(), recovery_faults: t.recovery_fault_count(),
        retries: t.retry_count() };
    let methods = shot.methods.iter().map(|m| MethodRow { method: m.method().to_string(),
        requests: m.request_count(), errors: m.error_count(),
        response_errors: m.response_error_count(), recovery_errors: m.recovery_error_count(),
        recovery_faults: m.recovery_fault_count(), retries: m.retry_count() }).collect();
    let document = json_from_value(&to_value(&shot).unwrap_or_default());
    TelemetryReport { totals, restarts: shot.restart_count, methods, document }
}

impl Ranked for MethodRow {
    /// Most requests first, then most recovery faults, then most errors, then
    /// by name.
    open spec fn at_most(&self, other: &Self) -> bool {
        if self.requests != other.requests {
            self.requests > other.requests
        } else if self.recovery_faults != other.recovery_faults {
            self.recovery_faults > other.recovery_faults
        } else if self.errors != other.errors {
            self.errors > other.errors
        } else {
            text_le(self.method@, other.method@)
        }
    }

    proof fn at_most_total(left: &Self, right: &Self) {
        lemma_text_le_total(left.method@, right.method@);
    }

    proof fn at_most_transitive(first: &Self, second: &Self, third: &Self) {
        if text_le(first.method@, second.method@) && text_le(second.method@, third.method@) {
            lemma_text_le_transitive(first.method@, second.method@, third.method@);
        }
    }

    fn is_at_most(&self, other: &Self) -> (yes: bool) {
        if self.requests != other.requests {
            self.requests > other.requests
        } else if self.recovery_faults != other.recovery_faults {
            self.recovery_faults > other.recovery_faults
        } else if self.errors != other.errors {
            self.errors > other.errors
        } else {
            text_at_most(self.method.as_str(), other.method.as_str())
        }
    }
}

proof fn lemma_sorted_lists_methods(
    methods: Map<Seq<char>, MethodCounters>,
    rows: Seq<MethodRow>,
    sorted: Seq<MethodRow>,
)
    requires
        lists_methods(methods, rows),
        sorted.to_multiset() == rows.to_multiset(),
    ensures
        lists_methods(methods, sorted),
{
    rows.to_multiset_ensures();
    sorted.to_multiset_ensures();
    assert(rows.no_duplicates());
    rows.lemma_multiset_has_no_duplicates();
    sorted.lemma_multiset_has_no_duplicates_conv();
    assert forall|i: int| 0 <= i < sorted.len() implies rows.contains(#[trigger] sorted[i]) by {
        assert(sorted.contains(sorted[i]));
        assert(sorted.to_multiset().count(sorted[i]) > 0);
    }
    assert forall|i: int, j: int|
        #![trigger sorted[i], sorted[j]]
        0 <= i < j < sorted.len() implies sorted[i].method@ != sorted[j].method@ by {
        let a = choose|k: int| 0 <= k < rows.len() && rows[k] == sorted[i];
        let b = choose|k: int| 0 <= k < rows.len() && rows[k] == sorted[j];
        assert(rows.contains(sorted[i]) && rows.contains(sorted[j]));
        assert(rows[a] == sorted[i] && rows[b] == sorted[j]);
    }
    assert forall|method: Seq<char>| #[trigger] methods.dom().contains(method) implies exists|
        i: int,
    | 0 <= i < sorted.len() && (#[trigger] sorted[i]).method@ == method by {
        let k = choose|k: int| 0 <= k < rows.len() && (#[trigger] rows[k]).method@ == method;
        assert(rows.contains(rows[k]));
        assert(rows.to_multiset().count(rows[k]) > 0);
        assert(sorted.contains(rows[k]));
    }
}

/// The telemetry of one public session.
pub struct ServerTelemetry {
    pub started_unix_ms: u64,
    pub host_rollouts: u64,
    pub ledger: OperationalLedger,
}

/// The telemetry of a session, in plain values.
pub struct TelemetryView {
    pub started_unix_ms: u64,
    pub host_rollouts: u64,
    pub ledger: LedgerView,
}

impl View for ServerTelemetry {
    type V = TelemetryView;

    open spec fn view(&self) -> TelemetryView {
        TelemetryView {
            started_unix_ms: self.started_unix_ms,
            host_rollouts: self.host_rollouts,
            ledger: ledger_view(self.ledger),
        }
    }
}

/// Whether a fault of this class comes of recovery.
pub open spec fn recovery_class(class: FaultClass) -> bool {
    class is Transport || class is Process || class is Timeout || class is Replay
        || class is Rollout || class is AmbiguousOutcome
}

/// The ledger after a request has failed; nothing where it cannot be counted.
pub open spec fn error_counted(
    ledger: LedgerView,
    method: Seq<char>,
    record: FaultRecordView,
    latency_ms: u64,
) -> Option<LedgerView> {
    let detail = record.fault.detail;
    if recovery_class(record.fault.class) {
        if ledger.recovery_error_fits(method) {
            Some(ledger.with_recovery_error(method, detail))
        } else {
            None
        }
    } else if !ledger.latency_fits(method, latency_ms as nat) {
        None
    } else if record.stage is Worker || record.stage is Store {
        if ledger.response_error_fits(method) {
            Some(ledger.with_response_error(method, latency_ms, detail))
        } else {
            None
        }
    } else if ledger.error_fits(method) {
        Some(ledger.with_error(method, latency_ms, detail))
    } else {
        None
    }
}

/// The states of a worker that runs, or does not.
pub open spec fn worker_states(worker_alive: bool) -> (LifecycleState, WorkerHandshakePhase) {
    if worker_alive {
        (LifecycleState::Ready, WorkerHandshakePhase::Ready)
    } else {
        (LifecycleState::Cold, WorkerHandshakePhase::Absent)
    }
}

/// The time since the start, as far as the clock did not go back.
pub open spec fn uptime(started_unix_ms: u64, now_unix_ms: u64) -> u64 {
    if now_unix_ms >= started_unix_ms {
        (now_unix_ms - started_unix_ms) as u64
    } else {
        0
    }
}

/// Whether a fault comes of recovery.
pub fn recovery_error(fault: &FaultRecord) -> (yes: bool)
    ensures
        yes == recovery_class(fault@.fault.class),
{
    match fault.fault.class {
        FaultClass::Transport
        | FaultClass::Process
        | FaultClass::Timeout
        | FaultClass::Replay
        | FaultClass::Rollout
        | FaultClass::AmbiguousOutcome => true,
        _ => false,
    }
}

/// The states of a worker that runs, or does not.
pub fn worker_state(worker_alive: bool) -> (states: (LifecycleState, WorkerHandshakePhase))
    ensures
        states == worker_states(worker_alive),
{
    if worker_alive {
        (LifecycleState::Ready, WorkerHandshakePhase::Ready)
    } else {
        (LifecycleState::Cold, WorkerHandshakePhase::Absent)
    }
}

/// The clock in milliseconds, from the time since the Unix epoch: zero before
/// the epoch, and the greatest value once milliseconds no longer fit.
pub fn unix_ms_now(since_epoch_ms: Option<u128>) -> (now: u64)
    ensures
        now == (match since_epoch_ms {
            None => 0u64,
            Some(millis) => if millis > u64::MAX {
                u64::MAX
            } else {
                millis as u64
            },
        }),
{
    match since_epoch_ms {
        None => 0,
        Some(millis) => if millis > u64::MAX as u128 {
            u64::MAX
        } else {
            millis as u64
        },
    }
}

impl ServerTelemetry {
    /// The telemetry of a session that starts now.
    pub fn started_at(now_unix_ms: u64) -> (telemetry: Self)
        ensures
            telemetry@ == (TelemetryView {
                started_unix_ms: now_unix_ms,
                host_rollouts: 0,
                ledger: new_ledger(1),
            }),
    {
        ServerTelemetry { started_unix_ms: now_unix_ms, host_rollouts: 0, ledger: open_ledger() }
    }

    /// The same telemetry once more.
    pub fn duplicate(&self) -> (copy: Self)
        ensures
            copy@ == self@,
    {
        ServerTelemetry {
            started_unix_ms: self.started_unix_ms,
            host_rollouts: self.host_rollouts,
            ledger: copy_ledger(&self.ledger),
        }
    }

    /// Counts a request; says whether it could be counted.
    #[must_use]
    pub fn record_request(&mut self, operation: &str) -> (recorded: bool)
        ensures
            recorded == old(self)@.ledger.request_fits(operation@),
            final(self)@ == (if recorded {
                TelemetryView {
                    ledger: old(self)@.ledger.with_request(operation@),
                    ..old(self)@
                }
            } else {
                old(self)@
            }),
    {
        ledger_request(&mut self.ledger, operation)
    }

    /// Counts the success of a request; says whether it could be counted.
    #[must_use]
    pub fn record_success(&mut self, operation: &str, latency_ms: u64) -> (recorded: bool)
        ensures
            recorded == old(self)@.ledger.success_fits(operation@, latency_ms),
            final(self)@ == (if recorded {
                TelemetryView {
                    ledger: old(self)@.ledger.with_success(operation@, latency_ms),
                    ..old(self)@
                }
            } else {
                old(self)@
            }),
    {
        ledger_success(&mut self.ledger, operation, latency_ms)
    }

    /// Counts the failure of a request; says whether it could be counted.
    #[must_use]
    pub fn record_error(&mut self, operation: &str, fault: &FaultRecord, latency_ms: u64) -> (recorded:
        bool)
        ensures
            recorded == error_counted(old(self)@.ledger, operation@, fault@, latency_ms) is Some,
            final(self)@ == (match error_counted(
                old(self)@.ledger,
                operation@,
                fault@,
                latency_ms,
            ) {
                Some(ledger) => TelemetryView { ledger, ..old(self)@ },
                None => old(self)@,
            }),
    {
        if recovery_error(fault) {
            ledger_recovery_error(&mut self.ledger, operation, fault.message())
        } else {
            match fault.stage {
                FaultStage::Worker | FaultStage::Store => ledger_response_error(
                    &mut self.ledger,
                    operation,
                    latency_ms,
                    fault.message(),
                ),
                _ => ledger_error(&mut self.ledger, operation, latency_ms, fault.message()),
            }
        }
    }

    /// Counts a fault that triggers recovery; says whether it could be counted.
    #[must_use]
    pub fn record_recovery_fault(&mut self, operation: &str, fault: &FaultRecord) -> (recorded:
        bool)
        ensures
            recorded == old(self)@.ledger.recovery_fault_fits(operation@, fault@.fault),
            final(self)@ == (if recorded {
                TelemetryView {
                    ledger: old(self)@.ledger.with_recovery_fault(operation@, fault@.fault),
                    ..old(self)@
                }
            } else {
                old(self)@
            }),
    {
        ledger_recovery_fault(&mut self.ledger, operation, &fault.fault)
    }

    /// Counts one more dispatch of a request; says whether it could be counted.
    #[must_use]
    pub fn record_replay(&mut self, operation: &str) -> (recorded: bool)
        ensures
            recorded == old(self)@.ledger.replay_fits(operation@),
            final(self)@ == (if recorded {
                TelemetryView {
                    ledger: old(self)@.ledger.with_replay(operation@),
                    ..old(self)@
                }
            } else {
                old(self)@
            }),
    {
        ledger_replay(&mut self.ledger, operation)
    }

    /// Takes a worker of a later generation as the active one; says whether it
    /// could.
    #[must_use]
    pub fn replace_worker(&mut self, generation: Generation) -> (recorded: bool)
        ensures
            recorded == old(self)@.ledger.replacement_fits(generation.value as nat),
            final(self)@ == (if recorded {
                TelemetryView {
                    ledger: old(self)@.ledger.with_replacement(generation.value as nat),
                    ..old(self)@
                }
            } else {
                old(self)@
            }),
    {
        ledger_replace_worker(&mut self.ledger, generation)
    }

    /// Counts a rollout of the host; says whether it could be counted.
    #[must_use]
    pub fn record_rollout(&mut self) -> (recorded: bool)
        ensures
            recorded == (old(self)@.host_rollouts < u64::MAX),
            final(self)@ == (if recorded {
                TelemetryView {
                    host_rollouts: (old(self)@.host_rollouts + 1) as u64,
                    ..old(self)@
                }
            } else {
                old(self)@
            }),
    {
        if self.host_rollouts == u64::MAX {
            return false;
        }
        self.host_rollouts = self.host_rollouts + 1;
        true
    }

    /// How often the host rolled forward.
    pub fn host_rollouts(&self) -> (rollouts: u64)
        ensures
            rollouts == self@.host_rollouts,
    {
        self.host_rollouts
    }

    /// The health of the session.
    pub fn health_snapshot(
        &self,
        rollout: RolloutState,
        worker_alive: bool,
        now_unix_ms: u64,
    ) -> (report: HealthReport)
        ensures
            report.shows(
                self@.ledger.session,
                uptime(self@.started_unix_ms, now_unix_ms),
                worker_states(worker_alive).0,
                worker_states(worker_alive).1,
                rollout,
            ),
    {
        let (state, handshake) = worker_state(worker_alive);
        ledger_health(&self.ledger, self.uptime_ms(now_unix_ms), state, handshake, rollout)
    }

    /// The telemetry of the session.
    pub fn telemetry_snapshot(&self, worker_alive: bool, now_unix_ms: u64) -> (report: TelemetryReport)
        ensures
            report.shows(
                self@.ledger,
                uptime(self@.started_unix_ms, now_unix_ms),
                worker_states(worker_alive).0,
                worker_states(worker_alive).1,
            ),
    {
        let (state, handshake) = worker_state(worker_alive);
        ledger_telemetry(&self.ledger, self.uptime_ms(now_unix_ms), state, handshake)
    }

    /// The methods of the session, the busiest first.
    pub fn ranked_methods(&self, worker_alive: bool, now_unix_ms: u64) -> (rows: Vec<MethodRow>)
        ensures
            ranked(rows@),
            lists_methods(self@.ledger.methods, rows@),
    {
        let report = self.telemetry_snapshot(worker_alive, now_unix_ms);
        let rows = sort(report.methods);
        proof {
            lemma_sorted_lists_methods(self@.ledger.methods, report.methods@, rows@);
        }
        rows
    }

    /// The time since the session started.
    pub fn uptime_ms(&self, now_unix_ms: u64) -> (millis: u64)
        ensures
            millis == uptime(self@.started_unix_ms, now_unix_ms),
    {
        if now_unix_ms >= self.started_unix_ms {
            now_unix_ms - self.started_unix_ms
        } else {
            0
        }
    }
}

} // verus!
