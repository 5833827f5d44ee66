//! What the host and its worker say to each other, and what a host hands to
//! its successor.

use vstd::prelude::*;

use libmcp::HostSessionKernelSnapshot;

use crate::fault::{FaultRecord, Generation};
use crate::json::{Json, JsonView, Members};
use crate::path::LocalPath;
use crate::store::{LayoutView, ProjectLayout};
use crate::telemetry::ServerTelemetry;

verus! {

/// The version of the protocol that the server speaks.
pub const PROTOCOL_VERSION: &'static str = "2025-11-25";

/// The name of the server.
pub const SERVER_NAME: &'static str = "jira-at-home";

/// The version of the server.
pub const SERVER_VERSION: &'static str = "0.1.0";

/// The environment variable that names the state of a predecessor.
pub const HOST_STATE_ENV: &'static str = "JIRA_AT_HOME_MCP_HOST_STATE";

/// The environment variable that names the operation to roll forward after.
pub const FORCE_ROLLOUT_ENV: &'static str = "JIRA_AT_HOME_MCP_TEST_FORCE_ROLLOUT_KEY";

/// The environment variable that names the operation to lose a worker in.
pub const CRASH_ONCE_ENV: &'static str = "JIRA_AT_HOME_MCP_TEST_HOST_CRASH_ONCE_KEY";

/// The identifier of a request to the worker.
#[derive(Clone, Copy, Debug, PartialEq, Eq, Structural)]
pub struct HostRequestId {
    pub value: u64,
}

/// What the worker is asked to do.
pub struct WorkerOperation {
    /// The tool.
    pub name: String,
    pub arguments: Json,
}

/// What the worker is asked to do, in plain values.
pub struct OperationView {
    pub name: Seq<char>,
    pub arguments: JsonView,
}

impl View for WorkerOperation {
    type V = OperationView;

    open spec fn view(&self) -> OperationView {
        OperationView { name: self.name@, arguments: self.arguments@ }
    }
}

/// The wire form of a request to the worker.
pub open spec fn worker_request_json(id: HostRequestId, operation: OperationView) -> JsonView {
    JsonView::Object(
        map![
            "kind"@ => JsonView::Text("execute"@),
            "id"@ => JsonView::Unsigned(id.value as nat),
            "operation"@ => JsonView::Object(map![
                "kind"@ => JsonView::Text("call_tool"@),
                "name"@ => JsonView::Text(operation.name),
                "arguments"@ => operation.arguments,
            ]),
        ],
    )
}

impl WorkerOperation {
    /// The wire form of the request to carry the operation out.
    pub fn request_json(&self, id: HostRequestId) -> (json: Json)
        ensures
            json@ == worker_request_json(id, self@),
    {
        let mut operation = Members::new();
        operation.put_text("kind", "call_tool");
        operation.put_text("name", self.name.as_str());
        operation.put("arguments", self.arguments.duplicate());
        let mut members = Members::new();
        members.put_text("kind", "execute");
        members.put("id", Json::Unsigned(id.value));
        members.put("operation", operation.object());
        members.object()
    }
}

/// What came of an operation of the worker.
pub enum WorkerOutcome {
    Success(Json),
    Fault(FaultRecord),
}

/// The wire form of the answer of a worker.
pub open spec fn worker_response_json(id: HostRequestId, outcome: WorkerOutcome) -> JsonView {
    JsonView::Object(
        map![
            "id"@ => JsonView::Unsigned(id.value as nat),
            "outcome"@ => match outcome {
                WorkerOutcome::Success(result) => JsonView::Object(map![
                    "status"@ => JsonView::Text("success"@),
                    "result"@ => result@,
                ]),
                WorkerOutcome::Fault(fault) => JsonView::Object(map![
                    "status"@ => JsonView::Text("fault"@),
                    "fault"@ => crate::fault::fault_record_json(fault@),
                ]),
            },
        ],
    )
}

impl WorkerOutcome {
    /// The wire form of the answer with this outcome.
    pub fn response_json(&self, id: HostRequestId) -> (json: Json)
        ensures
            json@ == worker_response_json(id, *self),
    {
        let mut outcome = Members::new();
        match self {
            WorkerOutcome::Success(result) => {
                outcome.put_text("status", "success");
                outcome.put("result", result.duplicate());
            },
            WorkerOutcome::Fault(fault) => {
                outcome.put_text("status", "fault");
                outcome.put("fault", fault.to_json());
            },
        }
        let mut members = Members::new();
        members.put("id", Json::Unsigned(id.value));
        members.put("outcome", outcome.object());
        members.object()
    }
}

/// The project that a session is bound to.
pub struct ProjectBinding {
    pub requested_path: LocalPath,
    pub project_root: LocalPath,
    pub worktree_root: LocalPath,
    pub state_identity: LocalPath,
    pub issues_root: LocalPath,
    pub state_root: LocalPath,
}

impl View for ProjectBinding {
    type V = LayoutView;

    open spec fn view(&self) -> LayoutView {
        LayoutView {
            requested_path: self.requested_path@,
            project_root: self.project_root@,
            worktree_root: self.worktree_root@,
            state_identity: self.state_identity@,
            issues_root: self.issues_root@,
            state_root: self.state_root@,
        }
    }
}

impl ProjectBinding {
    /// The binding to the project with this layout.
    pub fn from_layout(layout: ProjectLayout) -> (binding: Self)
        ensures
            binding@ == layout@,
    {
        ProjectBinding {
            requested_path: layout.requested_path,
            project_root: layout.project_root,
            worktree_root: layout.worktree_root,
            state_identity: layout.state_identity,
            issues_root: layout.issues_root,
            state_root: layout.state_root,
        }
    }

    /// What a successor needs to bind the project again.
    pub fn seed(&self) -> (seed: ProjectBindingSeed)
        ensures
            seed.requested_path@ == self@.requested_path,
            seed.project_root@ == self@.project_root,
            seed.worktree_root@ == self@.worktree_root,
            seed.state_identity@ == self@.state_identity,
    {
        ProjectBindingSeed {
            requested_path: self.requested_path.duplicate(),
            project_root: self.project_root.duplicate(),
            worktree_root: self.worktree_root.duplicate(),
            state_identity: self.state_identity.duplicate(),
        }
    }
}

/// What a successor needs to bind a project again.
pub struct ProjectBindingSeed {
    pub requested_path: LocalPath,
    pub project_root: LocalPath,
    pub worktree_root: LocalPath,
    pub state_identity: LocalPath,
}

/// What a host hands to its successor.
pub struct HostStateSeed {
    pub session_kernel: HostSessionKernelSnapshot,
    pub telemetry: ServerTelemetry,
    pub next_request_id: u64,
    pub binding: Option<ProjectBindingSeed>,
    pub worker_generation: Generation,
    pub worker_spawned: bool,
    pub force_rollout_consumed: bool,
    pub crash_once_consumed: bool,
}

} // verus!
