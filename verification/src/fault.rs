//! Faults: what went wrong, at which stage, and how a client is told.

use vstd::prelude::*;

use libmcp::{FaultClass, HostRejection, RecoveryHint};

use crate::json::{Json, JsonView, Members};

verus! {

/// The ordinal of a worker process within one public session; the first is one.
#[derive(Clone, Copy, Debug, PartialEq, Eq, Structural)]
pub struct Generation {
    pub value: u64,
}

impl Generation {
    /// The first generation.
    pub fn genesis() -> (generation: Self)
        ensures
            generation.value == 1,
    {
        Generation { value: 1 }
    }

    /// The generation with the given ordinal; zero names none.
    pub fn try_new(value: u64) -> (generation: Option<Self>)
        ensures
            generation == (if value == 0 {
                None
            } else {
                Some(Generation { value })
            }),
    {
        if value == 0 {
            None
        } else {
            Some(Generation { value })
        }
    }

    /// The ordinal.
    pub fn get(self) -> (value: u64)
        ensures
            value == self.value,
    {
        self.value
    }

    /// The generation after this one, while ordinals last.
    pub fn next(self) -> (generation: Option<Self>)
        ensures
            generation == (if self.value == u64::MAX {
                None
            } else {
                Some(Generation { value: (self.value + 1) as u64 })
            }),
    {
        if self.value == u64::MAX {
            None
        } else {
            Some(Generation { value: self.value + 1 })
        }
    }
}

/// Where a fault was noticed.
#[derive(Clone, Copy, Debug, PartialEq, Eq, Structural)]
pub enum FaultStage {
    Host,
    Worker,
    Store,
    Transport,
    Protocol,
    Rollout,
}

/// An operational fault.
#[derive(Debug)]
pub struct Fault {
    pub generation: Generation,
    pub class: FaultClass,
    pub code: String,
    pub recovery_hint: Option<RecoveryHint>,
    pub detail: String,
}

/// A fault with what a client needs to know of it.
#[derive(Debug)]
pub struct FaultRecord {
    pub fault: Fault,
    pub stage: FaultStage,
    pub operation: String,
    pub jsonrpc_code: i64,
    pub retryable: bool,
    pub retried: bool,
}

/// What the telemetry log keeps of a failed tool call.
#[derive(Debug)]
pub struct ErrorDetail {
    pub code: Option<i64>,
    pub kind: Option<String>,
    pub message: Option<String>,
}

/// An operational fault, in plain values.
pub struct FaultView {
    pub generation: Generation,
    pub class: FaultClass,
    pub code: Seq<char>,
    pub recovery_hint: Option<RecoveryHint>,
    pub detail: Seq<char>,
}

/// A fault record, in plain values.
pub struct FaultRecordView {
    pub fault: FaultView,
    pub stage: FaultStage,
    pub operation: Seq<char>,
    pub jsonrpc_code: int,
    pub retryable: bool,
    pub retried: bool,
}

impl View for Fault {
    type V = FaultView;

    open spec fn view(&self) -> FaultView {
        FaultView {
            generation: self.generation,
            class: self.class,
            code: self.code@,
            recovery_hint: self.recovery_hint,
            detail: self.detail@,
        }
    }
}

impl View for FaultRecord {
    type V = FaultRecordView;

    open spec fn view(&self) -> FaultRecordView {
        FaultRecordView {
            fault: self.fault@,
            stage: self.stage,
            operation: self.operation@,
            jsonrpc_code: self.jsonrpc_code as int,
            retryable: self.retryable,
            retried: self.retried,
        }
    }
}

/// A fresh record: retryable exactly when the worker should be replaced, and
/// not retried yet.
pub open spec fn fault_record(
    generation: Generation,
    class: FaultClass,
    code: Seq<char>,
    recovery_hint: Option<RecoveryHint>,
    stage: FaultStage,
    operation: Seq<char>,
    detail: Seq<char>,
    jsonrpc_code: int,
) -> FaultRecordView {
    FaultRecordView {
        fault: FaultView { generation, class, code, recovery_hint, detail },
        stage,
        operation,
        jsonrpc_code,
        retryable: recovery_hint == Some(RecoveryHint::ReplaceWorker),
        retried: false,
    }
}

/// The record of input that a client must correct.
pub open spec fn invalid_input_record(
    generation: Generation,
    stage: FaultStage,
    operation: Seq<char>,
    detail: Seq<char>,
) -> FaultRecordView {
    fault_record(
        generation,
        FaultClass::Protocol,
        "invalid_input"@,
        None,
        stage,
        operation,
        detail,
        -32602,
    )
}

/// The record of a call that came before the session was initialized.
pub open spec fn not_initialized_record(
    generation: Generation,
    stage: FaultStage,
    operation: Seq<char>,
    detail: Seq<char>,
) -> FaultRecordView {
    fault_record(
        generation,
        FaultClass::Protocol,
        "not_initialized"@,
        None,
        stage,
        operation,
        detail,
        -32002,
    )
}

/// The record of a missing resource.
pub open spec fn unavailable_record(
    generation: Generation,
    stage: FaultStage,
    operation: Seq<char>,
    detail: Seq<char>,
) -> FaultRecordView {
    fault_record(
        generation,
        FaultClass::Resource,
        "unavailable"@,
        None,
        stage,
        operation,
        detail,
        -32004,
    )
}

/// The record of a broken exchange with the worker.
pub open spec fn transport_record(
    generation: Generation,
    stage: FaultStage,
    operation: Seq<char>,
    detail: Seq<char>,
) -> FaultRecordView {
    fault_record(
        generation,
        FaultClass::Transport,
        "transport_failure"@,
        Some(RecoveryHint::ReplaceWorker),
        stage,
        operation,
        detail,
        -32603,
    )
}

/// The record of a worker process that could not be run.
pub open spec fn process_record(
    generation: Generation,
    stage: FaultStage,
    operation: Seq<char>,
    detail: Seq<char>,
) -> FaultRecordView {
    fault_record(
        generation,
        FaultClass::Process,
        "process_failure"@,
        Some(RecoveryHint::ReplaceWorker),
        stage,
        operation,
        detail,
        -32603,
    )
}

/// The record of a broken internal expectation.
pub open spec fn internal_record(
    generation: Generation,
    stage: FaultStage,
    operation: Seq<char>,
    detail: Seq<char>,
) -> FaultRecordView {
    fault_record(
        generation,
        FaultClass::Invariant,
        "internal_failure"@,
        None,
        stage,
        operation,
        detail,
        -32603,
    )
}

/// The record of a failed rollout.
pub open spec fn rollout_record(
    generation: Generation,
    operation: Seq<char>,
    detail: Seq<char>,
) -> FaultRecordView {
    fault_record(
        generation,
        FaultClass::Rollout,
        "rollout_failure"@,
        Some(RecoveryHint::RollForward),
        FaultStage::Rollout,
        operation,
        detail,
        -32603,
    )
}

/// The record of a frame that is no JSON.
pub open spec fn parse_error_record(
    generation: Generation,
    operation: Seq<char>,
    detail: Seq<char>,
) -> FaultRecordView {
    fault_record(
        generation,
        FaultClass::Protocol,
        "parse_error"@,
        None,
        FaultStage::Protocol,
        operation,
        detail,
        -32700,
    )
}

/// The record of a frame that is no JSON-RPC message.
pub open spec fn invalid_request_record(
    generation: Generation,
    operation: Seq<char>,
    detail: Seq<char>,
) -> FaultRecordView {
    fault_record(
        generation,
        FaultClass::Protocol,
        "invalid_request"@,
        None,
        FaultStage::Protocol,
        operation,
        detail,
        -32600,
    )
}

/// The fault class of a rejection.
pub open spec fn rejection_class(rejection: HostRejection) -> FaultClass {
    match rejection {
        HostRejection::QueueOverflow => FaultClass::Resource,
        HostRejection::ReplayBudgetExhausted => FaultClass::Replay,
        HostRejection::DuplicateRequestId => FaultClass::Protocol,
        HostRejection::PendingCapacityExhausted => FaultClass::Resource,
        HostRejection::InvalidRequestFrame => FaultClass::Protocol,
        HostRejection::AmbiguousOutcome => FaultClass::AmbiguousOutcome,
        HostRejection::RequestNotPending => FaultClass::Invariant,
        HostRejection::InvalidExecutionState => FaultClass::Invariant,
    }
}

/// The fault code of a rejection.
pub open spec fn rejection_fault_code(rejection: HostRejection) -> Seq<char> {
    match rejection {
        HostRejection::QueueOverflow => "queue_overflow"@,
        HostRejection::ReplayBudgetExhausted => "replay_budget_exhausted"@,
        HostRejection::DuplicateRequestId => "duplicate_request_id"@,
        HostRejection::PendingCapacityExhausted => "pending_capacity_exhausted"@,
        HostRejection::InvalidRequestFrame => "invalid_request_frame"@,
        HostRejection::AmbiguousOutcome => "ambiguous_outcome"@,
        HostRejection::RequestNotPending => "request_not_pending"@,
        HostRejection::InvalidExecutionState => "invalid_execution_state"@,
    }
}

/// The JSON-RPC error code of a rejection.
pub open spec fn rejection_rpc_code(rejection: HostRejection) -> int {
    match rejection {
        HostRejection::QueueOverflow => -32097,
        HostRejection::ReplayBudgetExhausted => -32095,
        HostRejection::DuplicateRequestId => -32600,
        HostRejection::PendingCapacityExhausted => -32096,
        HostRejection::InvalidRequestFrame => -32600,
        HostRejection::AmbiguousOutcome => -32094,
        HostRejection::RequestNotPending => -32600,
        HostRejection::InvalidExecutionState => -32603,
    }
}

/// The message of a rejection.
pub open spec fn rejection_text(rejection: HostRejection) -> Seq<char> {
    match rejection {
        HostRejection::QueueOverflow => "worker queue overflow during recovery"@,
        HostRejection::ReplayBudgetExhausted =>
            "worker restart replay budget exhausted for request"@,
        HostRejection::DuplicateRequestId => "public request id is already outstanding"@,
        HostRejection::PendingCapacityExhausted => "pending request capacity exhausted"@,
        HostRejection::InvalidRequestFrame => "frame is not a JSON-RPC request"@,
        HostRejection::AmbiguousOutcome =>
            "request outcome is ambiguous and replay is forbidden"@,
        HostRejection::RequestNotPending => "request id is not pending"@,
        HostRejection::InvalidExecutionState =>
            "request execution state transition is invalid"@,
    }
}

/// The record of a request that the session kernel turned away.
pub open spec fn rejection_record(
    generation: Generation,
    stage: FaultStage,
    operation: Seq<char>,
    rejection: HostRejection,
) -> FaultRecordView {
    fault_record(
        generation,
        rejection_class(rejection),
        rejection_fault_code(rejection),
        None,
        stage,
        operation,
        rejection_text(rejection),
        rejection_rpc_code(rejection),
    )
}

/// The record after a retry.
pub open spec fn retried_record(record: FaultRecordView) -> FaultRecordView {
    FaultRecordView { retried: true, ..record }
}

/// `libmcp::HostRejection`, whose variants are public.
#[verifier::external_type_specification]
pub struct ExHostRejection(libmcp::HostRejection);

/// `libmcp::FaultClass`, whose variants are public.
#[verifier::external_type_specification]
pub struct ExFaultClass(libmcp::FaultClass);

/// `libmcp::RecoveryHint`, whose variants are public.
#[verifier::external_type_specification]
pub struct ExRecoveryHint(libmcp::RecoveryHint);

/// `libmcp::HostRejection::code`: the JSON-RPC code of each rejection.
pub assume_specification[ libmcp::HostRejection::code ](rejection: libmcp::HostRejection) -> (code: i64)
    ensures
        code == rejection_rpc_code(rejection),
;

/// `libmcp::HostRejection::message`: the message of each rejection.
pub assume_specification[ libmcp::HostRejection::message ](
    rejection: libmcp::HostRejection,
) -> (message: &'static str)
    ensures
        message@ == rejection_text(rejection),
;

/// A fault code that `libmcp` takes: lower case letters, digits and `_`, at
/// least one of them.
pub open spec fn snake_code(code: Seq<char>) -> bool {
    &&& code.len() > 0
    &&& forall|i: int|
        0 <= i < code.len() ==> {
            ||| 'a' <= #[trigger] code[i] <= 'z'
            ||| '0' <= code[i] <= '9'
            ||| code[i] == '_'
        }
}

/// `libmcp::FaultCode::try_new`: takes a code exactly when it is in snake
/// case, and keeps its text.
#[verifier::external_body]
fn fault_code(code: &str) -> (kept: Option<String>)
    ensures
        kept is Some <==> snake_code(code@),
        kept matches Some(text) ==> text@ == code@,
{
    match libmcp::FaultCode::try_new(code) {
        Ok(code) => Some(code.as_str().to_owned()),
        Err(_) => None,
    }
}

impl FaultRecord {
    fn new(
        generation: Generation,
        class: FaultClass,
        code: &'static str,
        recovery_hint: Option<RecoveryHint>,
        stage: FaultStage,
        operation: &str,
        detail: &str,
        jsonrpc_code: i64,
    ) -> (record: Self)
        requires
            snake_code(code@),
        ensures
            record@ == fault_record(
                generation,
                class,
                code@,
                recovery_hint,
                stage,
                operation@,
                detail@,
                jsonrpc_code as int,
            ),
    {
        let retryable = match recovery_hint {
            Some(RecoveryHint::ReplaceWorker) => true,
            _ => false,
        };
        let kept = fault_code(code);
        let code = match kept {
            Some(text) => text,
            None => code.to_owned(),
        };
        FaultRecord {
            fault: Fault { generation, class, code, recovery_hint, detail: detail.to_owned() },
            stage,
            operation: operation.to_owned(),
            jsonrpc_code,
            retryable,
            retried: false,
        }
    }

    /// A frame that is no JSON.
    pub fn parse_error(generation: Generation, operation: &str, detail: &str) -> (record: Self)
        ensures
            record@ == parse_error_record(generation, operation@, detail@),
    {
        proof {
            reveal_strlit("parse_error");
        }
        Self::new(
            generation,
            FaultClass::Protocol,
            "parse_error",
            None,
            FaultStage::Protocol,
            operation,
            detail,
            -32700,
        )
    }

    /// A frame that is no JSON-RPC message.
    pub fn invalid_request(generation: Generation, operation: &str, detail: &str) -> (record: Self)
        ensures
            record@ == invalid_request_record(generation, operation@, detail@),
    {
        proof {
            reveal_strlit("invalid_request");
        }
        Self::new(
            generation,
            FaultClass::Protocol,
            "invalid_request",
            None,
            FaultStage::Protocol,
            operation,
            detail,
            -32600,
        )
    }

    /// A request that the session kernel turned away.
    pub fn host_rejection(
        generation: Generation,
        stage: FaultStage,
        operation: &str,
        rejection: HostRejection,
    ) -> (record: Self)
        ensures
            record@ == rejection_record(generation, stage, operation@, rejection),
    {
        proof {
            reveal_strlit("queue_overflow");
            reveal_strlit("replay_budget_exhausted");
            reveal_strlit("duplicate_request_id");
            reveal_strlit("pending_capacity_exhausted");
            reveal_strlit("invalid_request_frame");
            reveal_strlit("ambiguous_outcome");
            reveal_strlit("request_not_pending");
            reveal_strlit("invalid_execution_state");
        }
        let (class, code) = match rejection {
            HostRejection::QueueOverflow => (FaultClass::Resource, "queue_overflow"),
            HostRejection::ReplayBudgetExhausted => (FaultClass::Replay, "replay_budget_exhausted"),
            HostRejection::DuplicateRequestId => (FaultClass::Protocol, "duplicate_request_id"),
            HostRejection::PendingCapacityExhausted => (
                FaultClass::Resource,
                "pending_capacity_exhausted",
            ),
            HostRejection::InvalidRequestFrame => (FaultClass::Protocol, "invalid_request_frame"),
            HostRejection::AmbiguousOutcome => (FaultClass::AmbiguousOutcome, "ambiguous_outcome"),
            HostRejection::RequestNotPending => (FaultClass::Invariant, "request_not_pending"),
            HostRejection::InvalidExecutionState => (
                FaultClass::Invariant,
                "invalid_execution_state",
            ),
        };
        Self::new(
            generation,
            class,
            code,
            None,
            stage,
            operation,
            rejection.message(),
            rejection.code(),
        )
    }

    /// Input that a client must correct.
    pub fn invalid_input(
        generation: Generation,
        stage: FaultStage,
        operation: &str,
        detail: &str,
    ) -> (record: Self)
        ensures
            record@ == invalid_input_record(generation, stage, operation@, detail@),
    {
        proof {
            reveal_strlit("invalid_input");
        }
        Self::new(
            generation,
            FaultClass::Protocol,
            "invalid_input",
            None,
            stage,
            operation,
            detail,
            -32602,
        )
    }

    /// A call that came before the session was initialized.
    pub fn not_initialized(
        generation: Generation,
        stage: FaultStage,
        operation: &str,
        detail: &str,
    ) -> (record: Self)
        ensures
            record@ == not_initialized_record(generation, stage, operation@, detail@),
    {
        proof {
            reveal_strlit("not_initialized");
        }
        Self::new(
            generation,
            FaultClass::Protocol,
            "not_initialized",
            None,
            stage,
            operation,
            detail,
            -32002,
        )
    }

    /// A missing resource.
    pub fn unavailable(
        generation: Generation,
        stage: FaultStage,
        operation: &str,
        detail: &str,
    ) -> (record: Self)
        ensures
            record@ == unavailable_record(generation, stage, operation@, detail@),
    {
        proof {
            reveal_strlit("unavailable");
        }
        Self::new(
            generation,
            FaultClass::Resource,
            "unavailable",
            None,
            stage,
            operation,
            detail,
            -32004,
        )
    }

    /// A broken exchange with the worker.
    pub fn transport(
        generation: Generation,
        stage: FaultStage,
        operation: &str,
        detail: &str,
    ) -> (record: Self)
        ensures
            record@ == transport_record(generation, stage, operation@, detail@),
    {
        proof {
            reveal_strlit("transport_failure");
        }
        Self::new(
            generation,
            FaultClass::Transport,
            "transport_failure",
            Some(RecoveryHint::ReplaceWorker),
            stage,
            operation,
            detail,
            -32603,
        )
    }

    /// A worker process that could not be run.
    pub fn process(
        generation: Generation,
        stage: FaultStage,
        operation: &str,
        detail: &str,
    ) -> (record: Self)
        ensures
            record@ == process_record(generation, stage, operation@, detail@),
    {
        proof {
            reveal_strlit("process_failure");
        }
        Self::new(
            generation,
            FaultClass::Process,
            "process_failure",
            Some(RecoveryHint::ReplaceWorker),
            stage,
            operation,
            detail,
            -32603,
        )
    }

    /// A broken internal expectation.
    pub fn internal(
        generation: Generation,
        stage: FaultStage,
        operation: &str,
        detail: &str,
    ) -> (record: Self)
        ensures
            record@ == internal_record(generation, stage, operation@, detail@),
    {
        proof {
            reveal_strlit("internal_failure");
        }
        Self::new(
            generation,
            FaultClass::Invariant,
            "internal_failure",
            None,
            stage,
            operation,
            detail,
            -32603,
        )
    }

    /// A failed rollout.
    pub fn rollout(generation: Generation, operation: &str, detail: &str) -> (record: Self)
        ensures
            record@ == rollout_record(generation, operation@, detail@),
    {
        proof {
            reveal_strlit("rollout_failure");
        }
        Self::new(
            generation,
            FaultClass::Rollout,
            "rollout_failure",
            Some(RecoveryHint::RollForward),
            FaultStage::Rollout,
            operation,
            detail,
            -32603,
        )
    }

    /// A second copy of the record.
    pub fn duplicate(&self) -> (copy: Self)
        ensures
            copy@ == self@,
    {
        FaultRecord {
            fault: Fault {
                generation: self.fault.generation,
                class: self.fault.class,
                code: self.fault.code.clone(),
                recovery_hint: self.fault.recovery_hint,
                detail: self.fault.detail.clone(),
            },
            stage: self.stage,
            operation: self.operation.clone(),
            jsonrpc_code: self.jsonrpc_code,
            retryable: self.retryable,
            retried: self.retried,
        }
    }

    /// The record after a retry.
    pub fn mark_retried(self) -> (record: Self)
        ensures
            record@ == retried_record(self@),
    {
        let mut record = self;
        record.retried = true;
        record
    }

    /// What to tell a reader of the fault.
    pub fn message(&self) -> (message: &str)
        ensures
            message@ == self@.fault.detail,
    {
        self.fault.detail.as_str()
    }

    /// The parts of the fault that the telemetry log keeps.
    pub fn error_detail(&self) -> (detail: ErrorDetail)
        ensures
            detail.code == Some(self.jsonrpc_code),
            detail.kind matches Some(kind) && kind@ == self@.fault.code,
            detail.message matches Some(message) && message@ == self@.fault.detail,
    {
        ErrorDetail {
            code: Some(self.jsonrpc_code),
            kind: Some(self.fault.code.clone()),
            message: Some(self.message().to_owned()),
        }
    }
}

/// The wire name of a fault class.
pub open spec fn class_text(class: FaultClass) -> Seq<char> {
    match class {
        FaultClass::Transport => "transport"@,
        FaultClass::Process => "process"@,
        FaultClass::Protocol => "protocol"@,
        FaultClass::Timeout => "timeout"@,
        FaultClass::Downstream => "downstream"@,
        FaultClass::Resource => "resource"@,
        FaultClass::Replay => "replay"@,
        FaultClass::Rollout => "rollout"@,
        FaultClass::AmbiguousOutcome => "ambiguous_outcome"@,
        FaultClass::Invariant => "invariant"@,
    }
}

/// The wire name of a recovery hint.
pub open spec fn hint_text(hint: RecoveryHint) -> Seq<char> {
    match hint {
        RecoveryHint::KeepWorker => "keep_worker"@,
        RecoveryHint::ReplaceWorker => "replace_worker"@,
        RecoveryHint::RollForward => "roll_forward"@,
        RecoveryHint::AbortHost => "abort_host"@,
    }
}

/// The wire name of a stage.
pub open spec fn stage_text(stage: FaultStage) -> Seq<char> {
    match stage {
        FaultStage::Host => "Host"@,
        FaultStage::Worker => "Worker"@,
        FaultStage::Store => "Store"@,
        FaultStage::Transport => "Transport"@,
        FaultStage::Protocol => "Protocol"@,
        FaultStage::Rollout => "Rollout"@,
    }
}

/// An integer as a JSON document.
pub open spec fn integer_json(value: int) -> JsonView {
    if value < 0 {
        JsonView::Negative(value)
    } else {
        JsonView::Unsigned(value as nat)
    }
}

/// The wire form of a fault; a missing hint is left out.
pub open spec fn fault_json(fault: FaultView) -> JsonView {
    let members = map![
        "generation"@ => JsonView::Unsigned(fault.generation.value as nat),
        "class"@ => JsonView::Text(class_text(fault.class)),
        "code"@ => JsonView::Text(fault.code),
        "detail"@ => JsonView::Text(fault.detail),
    ];
    JsonView::Object(
        match fault.recovery_hint {
            Some(hint) => members.insert("recovery_hint"@, JsonView::Text(hint_text(hint))),
            None => members,
        },
    )
}

/// The wire form of a fault record.
pub open spec fn fault_record_json(record: FaultRecordView) -> JsonView {
    JsonView::Object(
        map![
            "fault"@ => fault_json(record.fault),
            "stage"@ => JsonView::Text(stage_text(record.stage)),
            "operation"@ => JsonView::Text(record.operation),
            "jsonrpc_code"@ => integer_json(record.jsonrpc_code),
            "retryable"@ => JsonView::Bool(record.retryable),
            "retried"@ => JsonView::Bool(record.retried),
        ],
    )
}

/// The JSON-RPC error object of a fault record.
pub open spec fn jsonrpc_error_json(record: FaultRecordView) -> JsonView {
    JsonView::Object(
        map![
            "code"@ => integer_json(record.jsonrpc_code),
            "message"@ => JsonView::Text(record.fault.detail),
            "data"@ => fault_record_json(record),
        ],
    )
}

/// Content of one block of text.
pub open spec fn text_content_json(text: Seq<char>) -> JsonView {
    JsonView::Array(
        seq![
            JsonView::Object(map!["type"@ => JsonView::Text("text"@), "text"@ => JsonView::Text(text)]),
        ],
    )
}

/// The result of a tool call that failed.
pub open spec fn tool_failure_json(record: FaultRecordView) -> JsonView {
    JsonView::Object(
        map![
            "content"@ => text_content_json(record.fault.detail),
            "structuredContent"@ => fault_record_json(record),
            "isError"@ => JsonView::Bool(true),
        ],
    )
}

fn class_name(class: FaultClass) -> (name: &'static str)
    ensures
        name@ == class_text(class),
{
    match class {
        FaultClass::Transport => "transport",
        FaultClass::Process => "process",
        FaultClass::Protocol => "protocol",
        FaultClass::Timeout => "timeout",
        FaultClass::Downstream => "downstream",
        FaultClass::Resource => "resource",
        FaultClass::Replay => "replay",
        FaultClass::Rollout => "rollout",
        FaultClass::AmbiguousOutcome => "ambiguous_outcome",
        FaultClass::Invariant => "invariant",
    }
}

fn hint_name(hint: RecoveryHint) -> (name: &'static str)
    ensures
        name@ == hint_text(hint),
{
    match hint {
        RecoveryHint::KeepWorker => "keep_worker",
        RecoveryHint::ReplaceWorker => "replace_worker",
        RecoveryHint::RollForward => "roll_forward",
        RecoveryHint::AbortHost => "abort_host",
    }
}

fn stage_name(stage: FaultStage) -> (name: &'static str)
    ensures
        name@ == stage_text(stage),
{
    match stage {
        FaultStage::Host => "Host",
        FaultStage::Worker => "Worker",
        FaultStage::Store => "Store",
        FaultStage::Transport => "Transport",
        FaultStage::Protocol => "Protocol",
        FaultStage::Rollout => "Rollout",
    }
}

/// An integer as a JSON document.
pub fn integer(value: i64) -> (json: Json)
    ensures
        json@ == integer_json(value as int),
{
    if value < 0 {
        Json::Negative(value)
    } else {
        Json::Unsigned(value as u64)
    }
}

/// Content of one block of text.
pub fn text_content(text: &str) -> (json: Json)
    ensures
        json@ == text_content_json(text@),
{
    let mut block = Members::new();
    block.put_text("type", "text");
    block.put_text("text", text);
    Json::array_of_one(block.object())
}

impl Fault {
    /// The wire form of the fault.
    pub fn to_json(&self) -> (json: Json)
        ensures
            json@ == fault_json(self@),
    {
        let mut members = Members::new();
        members.put("generation", Json::Unsigned(self.generation.value));
        members.put_text("class", class_name(self.class));
        members.put_text("code", self.code.as_str());
        members.put_text("detail", self.detail.as_str());
        if let Some(hint) = self.recovery_hint {
            members.put_text("recovery_hint", hint_name(hint));
        }
        members.object()
    }
}

impl FaultRecord {
    /// The wire form of the record.
    pub fn to_json(&self) -> (json: Json)
        ensures
            json@ == fault_record_json(self@),
    {
        let mut members = Members::new();
        members.put("fault", self.fault.to_json());
        members.put_text("stage", stage_name(self.stage));
        members.put_text("operation", self.operation.as_str());
        members.put("jsonrpc_code", integer(self.jsonrpc_code));
        members.put("retryable", Json::Bool(self.retryable));
        members.put("retried", Json::Bool(self.retried));
        members.object()
    }

    /// The JSON-RPC error object that reports the fault.
    pub fn into_jsonrpc_error(self) -> (json: Json)
        ensures
            json@ == jsonrpc_error_json(self@),
    {
        let mut members = Members::new();
        members.put("code", integer(self.jsonrpc_code));
        members.put_text("message", self.message());
        members.put("data", self.to_json());
        members.object()
    }

    /// The tool result that reports the fault.
    pub fn into_tool_result(self) -> (json: Json)
        ensures
            json@ == tool_failure_json(self@),
    {
        let mut members = Members::new();
        members.put("content", text_content(self.message()));
        members.put("structuredContent", self.to_json());
        members.put("isError", Json::Bool(true));
        members.object()
    }
}

} // verus!
