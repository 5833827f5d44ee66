//! Laws of a session as its client sees it: what a request comes to, and what
//! is answered.

use vstd::prelude::*;

use libmcp::SessionPhase;

use crate::catalog::{
    ToolView, catalog, definition, issue_delete_tool, issue_list_tool, issue_read_tool,
    issue_save_tool, project_bind_tool, system_health_tool, system_telemetry_tool, tool_named,
};
use crate::fault::{FaultRecord, FaultRecordView, FaultStage, Generation};
use crate::frame::{Frame, FrameFaultView, FrameView, frame_reading};
use crate::host::{
    BindReport, BindTask, CallView, Explanation, Handoff, HealthSight, HostRuntime, HostSetup,
    HostStep, HostView, ReadTask, RolloutStep, SendTask, Settled, Settlement, SpawnStage,
    StatusTask, StepView, ToolCompletion, admitted, call_step, direct_outcome, dispatch_step,
    hands_over, host_tool_step, id_of, key_of, method_of, ready_step, shows_health,
    shows_telemetry, spawned_step,
};
use crate::issue::{IssueCategory, StoreError};
use crate::json::{Json, JsonView};
use crate::kernel::{
    Invocation, begin_accepts, begun, cold_view, observed, opens_session, snapshot_view,
};
use crate::order::{Ranked, ranked};
use crate::output::{Presentation, success_json};
use crate::path::{components, lossy_text};
use crate::protocol::{HostRequestId, HostStateSeed, WorkerOutcome};
use crate::reports::{
    ResolvedProjectBinding, health_lines, health_output, hot, line_if, resolve_project_binding,
    row_json, row_line, telemetry_lines, telemetry_output,
};
use crate::routing::{contract_of, envelope_of, tool_meta_of, worker_asked};
use crate::session::{asked_in, given_params};
use crate::store::{EntryProbe, IssueStore, ProjectStatus};
use crate::supervisor::{
    ReplyOutcome, SendOutcome, SpawnOutcome, SpawnPlan, WorkerSupervisor, WorkerView, after_reply,
    after_send, reply_result, send_fault, spawn_fault,
};
use crate::telemetry::{HealthReport, MethodCounters, MethodRow, TelemetryReport, lists_methods};
use crate::text::{decimal_text, joined_lines};
use crate::tools::{
    are_notes, document_of, gives, has_text, lemma_given, lemma_members, lemma_notes_found,
    lemma_words, lies_in, says, shown_as, speaks, speaks_as,
};

verus! {

/// The response is one to the request with this identifier.
pub open spec fn responds(response: JsonView, id: JsonView) -> bool {
    &&& response is Object
    &&& has_text(response->Object_0, "jsonrpc"@, "2.0"@)
    &&& response->Object_0.dom().contains("id"@)
    &&& response->Object_0["id"@] == id
}

/// The response holds this result, and no error.
pub open spec fn gives_result(response: JsonView, result: JsonView) -> bool {
    &&& response is Object
    &&& response->Object_0.dom().contains("result"@)
    &&& response->Object_0["result"@] == result
    &&& !response->Object_0.dom().contains("error"@)
}

/// The response holds an error with this code and this message, and no result.
pub open spec fn gives_error(response: JsonView, code: int, message: Seq<char>) -> bool {
    &&& response is Object
    &&& !response->Object_0.dom().contains("result"@)
    &&& response->Object_0.dom().contains("error"@)
    &&& response->Object_0["error"@] matches JsonView::Object(error) && has_text(
        error,
        "message"@,
        message,
    ) && error.dom().contains("code"@) && error["code"@] == (if code < 0 {
        JsonView::Negative(code)
    } else {
        JsonView::Unsigned(code as nat)
    })
}

/// The result of a tool that failed: it is marked as an error, and its text
/// says what went wrong.
pub open spec fn tells_failure(result: JsonView, fault: FaultRecordView) -> bool {
    &&& result is Object
    &&& result->Object_0.dom().contains("isError"@)
    &&& result->Object_0["isError"@] == JsonView::Bool(true)
    &&& speaks(result, fault.fault.detail)
    &&& result->Object_0.dom().contains("structuredContent"@)
    &&& document_of(result) matches JsonView::Object(record) && record.dom().contains("fault"@)
        && record["fault"@] is Object && has_text(
        record["fault"@]->Object_0,
        "code"@,
        fault.fault.code,
    ) && has_text(record["fault"@]->Object_0, "detail"@, fault.fault.detail) && has_text(
        record,
        "operation"@,
        fault.operation,
    ) && record.dom().contains("retried"@) && record["retried"@] == JsonView::Bool(fault.retried)
        && record.dom().contains("retryable"@) && record["retryable"@] == JsonView::Bool(
        fault.retryable,
    )
}

proof fn lemma_response_words()
    ensures
        "jsonrpc"@ != "id"@,
        "jsonrpc"@ != "result"@,
        "jsonrpc"@ != "error"@,
        "id"@ != "result"@,
        "id"@ != "error"@,
        "result"@ != "error"@,
        "code"@ != "message"@,
        "code"@ != "data"@,
        "message"@ != "data"@,
        "code"@ != "detail"@,
        "code"@ != "class"@,
        "code"@ != "generation"@,
        "code"@ != "recovery_hint"@,
        "detail"@ != "recovery_hint"@,
        "detail"@ != "class"@,
        "detail"@ != "generation"@,
        "fault"@ != "stage"@,
        "fault"@ != "operation"@,
        "fault"@ != "jsonrpc_code"@,
        "fault"@ != "retryable"@,
        "fault"@ != "retried"@,
        "operation"@ != "jsonrpc_code"@,
        "operation"@ != "retryable"@,
        "operation"@ != "retried"@,
        "retryable"@ != "retried"@,
        "kind"@ != "id"@,
        "kind"@ != "operation"@,
        "id"@ != "operation"@,
        "kind"@ != "name"@,
        "kind"@ != "arguments"@,
        "name"@ != "arguments"@,
{
    reveal_strlit("jsonrpc");
    reveal_strlit("id");
    reveal_strlit("result");
    reveal_strlit("error");
    reveal_strlit("code");
    reveal_strlit("message");
    reveal_strlit("data");
    reveal_strlit("detail");
    reveal_strlit("class");
    reveal_strlit("generation");
    reveal_strlit("recovery_hint");
    reveal_strlit("fault");
    reveal_strlit("stage");
    reveal_strlit("operation");
    reveal_strlit("jsonrpc_code");
    reveal_strlit("retryable");
    reveal_strlit("retried");
    reveal_strlit("kind");
    reveal_strlit("name");
    reveal_strlit("arguments");
    assert("jsonrpc"@.len() == 7 && "id"@.len() == 2 && "result"@.len() == 6 && "error"@.len() == 5);
    assert("code"@.len() == 4 && "message"@.len() == 7 && "data"@.len() == 4 && "detail"@.len() == 6
        && "class"@.len() == 5 && "generation"@.len() == 10 && "recovery_hint"@.len() == 13);
    assert("fault"@.len() == 5 && "stage"@.len() == 5 && "operation"@.len() == 9
        && "jsonrpc_code"@.len() == 12 && "retryable"@.len() == 9 && "retried"@.len() == 7);
    assert("code"@[0] == 'c' && "data"@[0] == 'd' && "fault"@[0] == 'f' && "stage"@[0] == 's');
    assert("operation"@[0] == 'o' && "retryable"@[0] == 'r');
    assert("kind"@.len() == 4 && "name"@.len() == 4 && "arguments"@.len() == 9);
    assert("kind"@[0] == 'k' && "name"@[0] == 'n');
}

/// What the worker is asked: to carry out the tool of the call, with its
/// arguments as they are, under the identifier of the dispatch.
pub proof fn law_worker_is_asked_for_the_call(task: &SendTask, request: Json)
    requires
        call_ensures(SendTask::request, (task,), request),
    ensures
        request@ matches JsonView::Object(members) && has_text(members, "kind"@, "execute"@)
            && members.dom().contains("id"@) && members["id"@] == JsonView::Unsigned(
            task.view().2.id.value as nat,
        ) && members.dom().contains("operation"@) && (members["operation"@] matches JsonView::Object(
            operation,
        ) && has_text(operation, "kind"@, "call_tool"@) && has_text(
            operation,
            "name"@,
            task.view().1.name,
        ) && operation.dom().contains("arguments"@) && operation["arguments"@]
            == task.view().1.arguments),
{
    lemma_response_words();
}

/// What the worker answers is what the client gets: the result of the worker
/// is the result in the response, under the identifier of the request.
pub proof fn law_answer_of_the_worker_is_the_response(
    task: ReadTask,
    result: Json,
    end: Settlement,
    elapsed_millis: u128,
    host: HostRuntime,
    response: Option<Json>,
    completion: Option<ToolCompletion>,
)
    requires
        call_ensures(
            ReadTask::answered,
            (task, ReplyOutcome::Answered(WorkerOutcome::Success(result))),
            HostStep::Settle(end),
        ),
        call_ensures(
            Settlement::settle,
            (end, elapsed_millis),
            Settled::Done { host, response, completion },
        ),
        id_of(task.view().1.frame) is Some,
    ensures
        response matches Some(json) && responds(json@, id_of(task.view().1.frame)->0)
            && gives_result(json@, result@),
        host@.binding == task.view().0.binding,
        host@.worker == task.view().0.worker,
        host@.next_request_id == task.view().0.next_request_id,
{
    lemma_response_words();
    assert(HostStep::Settle(end)@ is Settle);
}

/// What a client is told of a request that came to nothing: a tool that failed
/// gives a result that is marked as an error, and any other request an error.
pub proof fn law_faults_are_told(
    end: Settlement,
    fault: FaultRecordView,
    elapsed_millis: u128,
    host: HostRuntime,
    response: Option<Json>,
    completion: Option<ToolCompletion>,
)
    requires
        end.view().2 == Err::<Option<JsonView>, FaultRecordView>(fault),
        call_ensures(
            Settlement::settle,
            (end, elapsed_millis),
            Settled::Done { host, response, completion },
        ),
        id_of(end.view().1) is Some,
    ensures
        response matches Some(json) && responds(json@, id_of(end.view().1)->0) && (if method_of(
            end.view().1,
        ) == "tools/call"@ {
            gives_result(json@, json@->Object_0["result"@]) && tells_failure(
                json@->Object_0["result"@],
                fault,
            )
        } else {
            gives_error(json@, fault.jsonrpc_code, fault.fault.detail)
        }),
{
    lemma_response_words();
    lemma_members();
}

/// A request without an answer gets none, and neither does a notification.
pub proof fn law_silence(
    end: Settlement,
    elapsed_millis: u128,
    host: HostRuntime,
    response: Option<Json>,
    completion: Option<ToolCompletion>,
)
    requires
        call_ensures(
            Settlement::settle,
            (end, elapsed_millis),
            Settled::Done { host, response, completion },
        ),
        id_of(end.view().1) is None || (end.view().2 matches Ok(None)),
    ensures
        response is None,
{
}

/// A result is answered as it is.
pub proof fn law_results_are_told(
    end: Settlement,
    result: JsonView,
    elapsed_millis: u128,
    host: HostRuntime,
    response: Option<Json>,
    completion: Option<ToolCompletion>,
)
    requires
        end.view().2 == Ok::<Option<JsonView>, FaultRecordView>(Some(result)),
        call_ensures(
            Settlement::settle,
            (end, elapsed_millis),
            Settled::Done { host, response, completion },
        ),
        id_of(end.view().1) is Some,
    ensures
        response matches Some(json) && responds(json@, id_of(end.view().1)->0) && gives_result(
            json@,
            result,
        ),
{
    lemma_response_words();
}

/// A live session that takes a request: nothing is pending, and the counters
/// have room.
pub open spec fn takes(host: HostView, frame: FrameView) -> bool {
    &&& host.kernel.session.phase == SessionPhase::Live
    &&& host.kernel.pending == Map::<JsonView, Invocation>::empty()
    &&& host.kernel.session.next_sequence < u64::MAX
    &&& host.ledger().request_fits(key_of(frame))
    &&& id_of(frame) is Some
}

/// The frame calls this tool with these arguments.
pub open spec fn calls(frame: FrameView, name: Seq<char>, arguments: JsonView) -> bool {
    &&& method_of(frame) == "tools/call"@
    &&& given_params(frame) matches JsonView::Object(members) && has_text(members, "name"@, name)
        && arguments == (if members.dom().contains("arguments"@) {
        members["arguments"@]
    } else {
        JsonView::Object(Map::empty())
    })
}

proof fn lemma_tool_words()
    ensures
        "project.bind"@ != "issue.save"@,
        "project.bind"@ != "issue.delete"@,
        "project.bind"@ != "issue.list"@,
        "project.bind"@ != "issue.read"@,
        "project.bind"@ != "system.health"@,
        "project.bind"@ != "system.telemetry"@,
        "system.health"@ != "issue.save"@,
        "system.health"@ != "issue.delete"@,
        "system.health"@ != "issue.list"@,
        "system.health"@ != "issue.read"@,
        "system.telemetry"@ != "issue.save"@,
        "system.telemetry"@ != "issue.delete"@,
        "system.telemetry"@ != "issue.list"@,
        "system.telemetry"@ != "issue.read"@,
        "system.health"@ != "system.telemetry"@,
        "tools/call"@ != "initialize"@,
        "tools/call"@ != "notifications/initialized"@,
        "tools/call"@ != "notifications/cancelled"@,
        "tools/call"@ != "ping"@,
        "tools/call"@ != "tools/list"@,
        "tools/list"@ != "initialize"@,
        "tools/list"@ != "notifications/initialized"@,
        "tools/list"@ != "notifications/cancelled"@,
        "tools/list"@ != "ping"@,
        "ping"@ != "initialize"@,
        "ping"@ != "notifications/initialized"@,
        "ping"@ != "notifications/cancelled"@,
        "path"@ != "render"@,
        "path"@ != "detail"@,
{
    reveal_strlit("project.bind");
    reveal_strlit("issue.save");
    reveal_strlit("issue.delete");
    reveal_strlit("issue.list");
    reveal_strlit("issue.read");
    reveal_strlit("system.health");
    reveal_strlit("system.telemetry");
    reveal_strlit("tools/call");
    reveal_strlit("tools/list");
    reveal_strlit("initialize");
    reveal_strlit("notifications/initialized");
    reveal_strlit("notifications/cancelled");
    reveal_strlit("ping");
    reveal_strlit("path");
    reveal_strlit("render");
    reveal_strlit("detail");
    assert("project.bind"@[0] == 'p' && "issue.save"@[0] == 'i' && "issue.delete"@[0] == 'i'
        && "issue.list"@[0] == 'i' && "issue.read"@[0] == 'i' && "system.health"@[0] == 's'
        && "system.telemetry"@[0] == 's');
    assert("system.health"@.len() == 13 && "system.telemetry"@.len() == 16);
    assert("tools/call"@[6] == 'c' && "tools/list"@[6] == 'l' && "tools/call"@[0] == 't'
        && "tools/list"@[0] == 't' && "initialize"@[0] == 'i' && "notifications/initialized"@[0]
        == 'n' && "notifications/cancelled"@[0] == 'n' && "ping"@[0] == 'p');
    assert("path"@.len() == 4 && "render"@.len() == 6 && "detail"@.len() == 6);
}

/// A tool that works on issues is for the worker of the project that the
/// session is bound to, with the arguments as they are: the worker is looked
/// at, or one is started. Without a project the call fails.
pub proof fn law_issue_tools_go_to_the_worker(
    host: HostRuntime,
    frame: Frame,
    step: HostStep,
    name: Seq<char>,
    arguments: JsonView,
)
    requires
        call_ensures(HostRuntime::handle_frame, (host, frame), step),
        takes(host@, frame@),
        calls(frame@, name, arguments),
        name == "issue.save"@ || name == "issue.delete"@ || name == "issue.list"@ || name
            == "issue.read"@,
        host@.worker.next_generation() is Some,
    ensures
        host@.binding matches Some(bound) ==> {
            ||| step@ matches StepView::Probe(now, call, None) && asked_in(call, frame@)
                && call.name == name && call.arguments == arguments && now.worker.attached
                && components(now.worker.root->0) == components(bound.worktree_root)
            ||| step@ matches StepView::Spawn(now, call, SpawnStage::First, _) && asked_in(
                call,
                frame@,
            ) && call.name == name && call.arguments == arguments && components(
                now.worker.root->0,
            ) == components(bound.worktree_root)
        },
        host@.binding is None ==> (step@ matches StepView::Settle(now, asked, Err(fault)) && asked
            == frame@ && fault.jsonrpc_code == -32004 && now.binding is None),
{
    lemma_tool_words();
    lemma_words();
    assert(frame@.params() == given_params(frame@));
    assert(worker_asked(method_of(frame@), frame@.params()));
    assert(!opens_session(method_of(frame@))) by {
        lemma_tool_words();
    }
    assert(observed(host@.kernel, frame@) == Some(host@.kernel));
}

/// A call that binds a project looks for the project of the path that it
/// gives, as it is.
pub proof fn law_bind_looks_for_its_path(
    host: HostRuntime,
    frame: Frame,
    step: HostStep,
    arguments: JsonView,
    presentation: Presentation,
    path: Seq<char>,
)
    requires
        call_ensures(HostRuntime::handle_frame, (host, frame), step),
        takes(host@, frame@),
        calls(frame@, "project.bind"@, arguments),
        gives(arguments, seq!["path"@], seq![path]),
        shown_as(arguments, presentation),
    ensures
        step@ matches StepView::Bind(now, asked, shown, found) && asked == frame@ && found == path
            && shown == presentation && now.binding == host@.binding,
{
    lemma_tool_words();
    assert(frame@.params() == given_params(frame@));
    assert(observed(host@.kernel, frame@) == Some(host@.kernel));
    lemma_given(
        arguments,
        presentation,
        "tools/call:"@ + "project.bind"@,
        host@.generation(),
        FaultStage::Host,
        seq!["path"@],
    );
    assert(seq![path][0] == path);
}

/// A call for the health or the telemetry of the host is one for just that.
pub proof fn law_status_tools_look_at_the_host(
    host: HostRuntime,
    frame: Frame,
    step: HostStep,
    name: Seq<char>,
    arguments: JsonView,
    presentation: Presentation,
)
    requires
        call_ensures(HostRuntime::handle_frame, (host, frame), step),
        takes(host@, frame@),
        calls(frame@, name, arguments),
        shown_as(arguments, presentation),
    ensures
        name == "system.health"@ ==> (step@ matches StepView::Health(now, asked, shown) && asked
            == frame@ && shown == presentation && now.binding == host@.binding && now.worker
            == host@.worker),
        name == "system.telemetry"@ ==> (step@ matches StepView::Telemetry(now, asked, shown)
            && asked == frame@ && shown == presentation && now.worker == host@.worker),
{
    lemma_tool_words();
    assert(frame@.params() == given_params(frame@));
    assert(observed(host@.kernel, frame@) == Some(host@.kernel));
    lemma_given(
        arguments,
        presentation,
        "tools/call:"@ + name,
        host@.generation(),
        FaultStage::Host,
        seq!["path"@],
    );
}

/// How many issues a project has: as many as its directories have files of
/// issues.
pub proof fn law_status_counts_the_files(
    store: &IssueStore,
    features: Vec<EntryProbe>,
    bugs: Vec<EntryProbe>,
    status: Result<ProjectStatus, StoreError>,
    state: Seq<Seq<u8>>,
)
    requires
        lies_in(store@, state),
        are_notes(features@, state, IssueCategory::Feature),
        are_notes(bugs@, state, IssueCategory::Bug),
        call_ensures(
            IssueStore::status,
            (
                store,
                Ok::<Vec<EntryProbe>, String>(features),
                Ok::<Vec<EntryProbe>, String>(bugs),
            ),
            status,
        ),
    ensures
        status matches Ok(status) && status.issue_count == features@.len() + bugs@.len(),
{
    lemma_notes_found(store@, state, IssueCategory::Feature, features@);
    lemma_notes_found(store@, state, IssueCategory::Bug, bugs@);
}

proof fn lemma_bind_words()
    ensures
        "project_root"@ != "issues_root"@,
        "project_root"@ != "state_root"@,
        "project_root"@ != "issue_count"@,
        "project_root"@ != "worktree_root"@,
        "project_root"@ != "state_identity"@,
        "project_root"@ != "requested_path"@,
        "issues_root"@ != "state_root"@,
        "issues_root"@ != "issue_count"@,
        "issues_root"@ != "worktree_root"@,
        "issues_root"@ != "state_identity"@,
        "issues_root"@ != "requested_path"@,
        "state_root"@ != "issue_count"@,
        "state_root"@ != "worktree_root"@,
        "state_root"@ != "state_identity"@,
        "state_root"@ != "requested_path"@,
        "issue_count"@ != "worktree_root"@,
        "issue_count"@ != "state_identity"@,
        "issue_count"@ != "requested_path"@,
        "worktree_root"@ != "state_identity"@,
        "worktree_root"@ != "requested_path"@,
        "state_identity"@ != "requested_path"@,
{
    reveal_strlit("project_root");
    reveal_strlit("issues_root");
    reveal_strlit("state_root");
    reveal_strlit("issue_count");
    reveal_strlit("worktree_root");
    reveal_strlit("state_identity");
    reveal_strlit("requested_path");
    assert("project_root"@.len() == 12 && "issues_root"@.len() == 11 && "state_root"@.len() == 10
        && "issue_count"@.len() == 11 && "worktree_root"@.len() == 13 && "state_identity"@.len()
        == 14 && "requested_path"@.len() == 14);
    assert("issues_root"@[5] == 's' && "issue_count"@[5] == '_');
    assert("state_identity"@[0] == 's' && "requested_path"@[0] == 'r');
}

/// A line behind some text, where a condition holds.
pub open spec fn more_if(condition: bool, line: Seq<char>) -> Seq<char> {
    if condition {
        "\n"@ + line
    } else {
        seq![]
    }
}

/// A session is bound to the project that was found, and the client is told
/// which it is, where its issues lie and how many there are. A worker of before
/// is let go, and the next one is one of that project.
pub proof fn law_bind_is_answered(
    task: BindTask,
    store: &IssueStore,
    status: ProjectStatus,
    resolved: ResolvedProjectBinding,
    step: HostStep,
)
    requires
        call_ensures(resolve_project_binding, (store, status), resolved),
        call_ensures(BindTask::bound, (task, BindReport::Resolved(resolved, Ok(()))), step),
    ensures
        step@ matches StepView::Settle(host, asked, Ok(Some(result))) && asked == task.view().1 && {
            let full = task.view().2.detail is Full;
            let project = lossy_text(store@.project_root);
            let worktree = lossy_text(store@.worktree_root);
            let identity = lossy_text(store@.state_identity);
            let requested = lossy_text(store@.requested_path);
            &&& host.binding == Some(store@)
            &&& host.worker.root == Some(store@.worktree_root)
            &&& !host.worker.attached
            &&& host.kernel == task.view().0.kernel
            &&& host.telemetry == task.view().0.telemetry
            &&& says(result, "project_root"@, JsonView::Text(project))
            &&& says(result, "issues_root"@, JsonView::Text(lossy_text(store@.issues_root)))
            &&& says(result, "state_root"@, JsonView::Text(lossy_text(store@.state_root)))
            &&& says(result, "issue_count"@, JsonView::Unsigned(status.issue_count as nat))
            &&& full || worktree != project ==> says(
                result,
                "worktree_root"@,
                JsonView::Text(worktree),
            )
            &&& full || identity != project ==> says(
                result,
                "state_identity"@,
                JsonView::Text(identity),
            )
            &&& full || requested != project ==> says(
                result,
                "requested_path"@,
                JsonView::Text(requested),
            )
            &&& speaks_as(
                result,
                task.view().2,
                "bound project "@ + project + more_if(worktree != project, "worktree: "@ + worktree)
                    + more_if(identity != project, "identity: "@ + identity) + more_if(
                    true,
                    "issues: "@ + lossy_text(store@.issues_root),
                ) + more_if(true, "state: "@ + lossy_text(store@.state_root)) + more_if(
                    true,
                    "issues tracked: "@ + decimal_text(status.issue_count as nat),
                ),
                None,
            )
        },
{
    lemma_bind_words();
    lemma_members();
    let found = resolved.status@;
    let project = found.project_root;
    let head = seq!["bound project "@ + project];
    let one = line_if(found.worktree_root != project, "worktree: "@ + found.worktree_root);
    let two = line_if(found.state_identity != project, "identity: "@ + found.state_identity);
    let rest = seq![
        "issues: "@ + found.issues_root,
        "state: "@ + found.state_root,
        "issues tracked: "@ + decimal_text(found.issue_count),
    ];
    lemma_one_line(head[0]);
    lemma_more_line(head, found.worktree_root != project, "worktree: "@ + found.worktree_root);
    lemma_more_line(
        head + one,
        found.state_identity != project,
        "identity: "@ + found.state_identity,
    );
    lemma_more_line(head + one + two, true, rest[0]);
    lemma_more_line(head + one + two + seq![rest[0]], true, rest[1]);
    lemma_more_line(head + one + two + seq![rest[0]] + seq![rest[1]], true, rest[2]);
    assert(head + one + two + seq![rest[0]] + seq![rest[1]] + seq![rest[2]] =~= head + one + two
        + rest);
}

proof fn lemma_one_line(line: Seq<char>)
    ensures
        joined_lines(seq![line]) == line,
{
}

proof fn lemma_more_line(lines: Seq<Seq<char>>, condition: bool, line: Seq<char>)
    requires
        lines.len() > 0,
    ensures
        joined_lines(lines + line_if(condition, line)) == joined_lines(lines) + more_if(
            condition,
            line,
        ),
        line_if(true, line) == seq![line],
{
    let longer = lines + line_if(condition, line);
    if condition {
        assert(longer.drop_last() =~= lines);
        assert(longer.last() == line);
        assert(joined_lines(lines) + "\n"@ + line =~= joined_lines(lines) + ("\n"@ + line));
    } else {
        assert(longer =~= lines);
        assert(joined_lines(lines) + more_if(condition, line) =~= joined_lines(lines));
    }
}

/// A project that was not found leaves the session as it was bound.
pub proof fn law_failed_bind_changes_nothing(task: BindTask, detail: String, step: HostStep)
    requires
        call_ensures(BindTask::bound, (task, BindReport::Unresolved(detail)), step),
    ensures
        step@ matches StepView::Settle(host, asked, Err(fault)) && asked == task.view().1 && host
            == task.view().0 && fault.fault.detail == detail@ && fault.fault.code
            == "invalid_input"@ && fault.jsonrpc_code == -32602,
{
}

proof fn lemma_health_words()
    ensures
        "ready"@ != "bound"@,
        "ready"@ != "worker_generation"@,
        "ready"@ != "worker_alive"@,
        "ready"@ != "rollout_pending"@,
        "ready"@ != "launch_path_stable"@,
        "ready"@ != "project_root"@,
        "ready"@ != "issues_root"@,
        "ready"@ != "worktree_root"@,
        "bound"@ != "worker_generation"@,
        "bound"@ != "worker_alive"@,
        "bound"@ != "rollout_pending"@,
        "bound"@ != "launch_path_stable"@,
        "bound"@ != "project_root"@,
        "bound"@ != "issues_root"@,
        "bound"@ != "worktree_root"@,
        "worker_generation"@ != "worker_alive"@,
        "worker_generation"@ != "rollout_pending"@,
        "worker_generation"@ != "launch_path_stable"@,
        "worker_generation"@ != "project_root"@,
        "worker_generation"@ != "issues_root"@,
        "worker_generation"@ != "worktree_root"@,
        "worker_alive"@ != "rollout_pending"@,
        "worker_alive"@ != "launch_path_stable"@,
        "worker_alive"@ != "project_root"@,
        "worker_alive"@ != "issues_root"@,
        "worker_alive"@ != "worktree_root"@,
        "worker_alive"@ != "health"@,
        "worker_alive"@ != "binding"@,
        "rollout_pending"@ != "launch_path_stable"@,
        "rollout_pending"@ != "project_root"@,
        "rollout_pending"@ != "issues_root"@,
        "rollout_pending"@ != "worktree_root"@,
        "launch_path_stable"@ != "project_root"@,
        "launch_path_stable"@ != "issues_root"@,
        "launch_path_stable"@ != "worktree_root"@,
        "launch_path_stable"@ != "health"@,
        "launch_path_stable"@ != "binding"@,
        "health"@ != "binding"@,
{
    reveal_strlit("ready");
    reveal_strlit("bound");
    reveal_strlit("worker_generation");
    reveal_strlit("worker_alive");
    reveal_strlit("rollout_pending");
    reveal_strlit("launch_path_stable");
    reveal_strlit("project_root");
    reveal_strlit("issues_root");
    reveal_strlit("worktree_root");
    reveal_strlit("health");
    reveal_strlit("binding");
    assert("ready"@.len() == 5 && "bound"@.len() == 5 && "worker_generation"@.len() == 17
        && "worker_alive"@.len() == 12 && "rollout_pending"@.len() == 15
        && "launch_path_stable"@.len() == 18 && "project_root"@.len() == 12 && "issues_root"@.len()
        == 11 && "worktree_root"@.len() == 13 && "health"@.len() == 6 && "binding"@.len() == 7);
    assert("ready"@[0] == 'r' && "bound"@[0] == 'b');
    assert("worker_alive"@[0] == 'w' && "project_root"@[0] == 'p');
}

/// What a client is told of the health of the host: whether the worker it
/// holds runs, which generation it is, what the session is bound to, and what
/// was seen of the program file.
pub proof fn law_health_is_answered(
    task: StatusTask,
    sight: HealthSight,
    pending: bool,
    step: HostStep,
)
    requires
        call_ensures(StatusTask::health, (task, sight), step),
        sight.rollout_pending == Ok::<bool, String>(pending),
    ensures
        step@ matches StepView::Settle(host, asked, Ok(Some(result))) && asked == task.view().1 && {
            let before = task.view().0;
            let alive = before.worker.attached && sight.worker_running;
            let stable = JsonView::Bool(sight.launch_path_stable);
            &&& host.binding == before.binding
            &&& host.worker.attached == alive
            &&& host.kernel == before.kernel
            &&& host.telemetry == before.telemetry
            &&& says(result, "worker_alive"@, JsonView::Bool(alive))
            &&& says(result, "launch_path_stable"@, stable)
            &&& task.view().2.detail is Concise ==> {
                &&& says(result, "ready"@, JsonView::Bool(alive))
                &&& says(result, "bound"@, JsonView::Bool(before.binding is Some))
                &&& says(
                    result,
                    "worker_generation"@,
                    JsonView::Unsigned(before.ledger().session.generation),
                )
                &&& says(result, "rollout_pending"@, JsonView::Bool(pending))
                &&& before.binding matches Some(bound) ==> says(
                    result,
                    "project_root"@,
                    JsonView::Text(lossy_text(bound.project_root)),
                ) && says(
                    result,
                    "issues_root"@,
                    JsonView::Text(lossy_text(bound.issues_root)),
                ) && (components(bound.worktree_root) != components(bound.project_root) ==> says(
                    result,
                    "worktree_root"@,
                    JsonView::Text(lossy_text(bound.worktree_root)),
                ))
            }
            &&& task.view().2.detail is Full ==> {
                let binding = document_of(result)->Object_0["binding"@];
                &&& says(result, "binding"@, binding)
                &&& before.binding is None ==> binding is Null
                &&& before.binding matches Some(bound) ==> binding is Object && has_text(
                    binding->Object_0,
                    "project_root"@,
                    lossy_text(bound.project_root),
                ) && has_text(
                    binding->Object_0,
                    "worktree_root"@,
                    lossy_text(bound.worktree_root),
                ) && has_text(
                    binding->Object_0,
                    "state_identity"@,
                    lossy_text(bound.state_identity),
                ) && has_text(binding->Object_0, "issues_root"@, lossy_text(bound.issues_root))
                    && has_text(binding->Object_0, "state_root"@, lossy_text(bound.state_root))
                    && has_text(
                    binding->Object_0,
                    "requested_path"@,
                    lossy_text(bound.requested_path),
                )
            }
        },
{
    lemma_health_words();
    lemma_bind_words();
    lemma_members();
}

/// A number under a name.
pub open spec fn has_count(members: Map<Seq<char>, JsonView>, name: Seq<char>, count: nat) -> bool {
    members.dom().contains(name) && members[name] == JsonView::Unsigned(count)
}

/// The item shows these counters of this method.
pub open spec fn shows_method(
    item: JsonView,
    method: Seq<char>,
    counts: MethodCounters,
) -> bool {
    &&& item is Object
    &&& has_text(item->Object_0, "method"@, method)
    &&& has_count(item->Object_0, "requests"@, counts.requests)
    &&& has_count(item->Object_0, "errors"@, counts.errors)
    &&& has_count(item->Object_0, "response_errors"@, counts.response_errors)
    &&& has_count(item->Object_0, "recovery_errors"@, counts.recovery_errors)
    &&& has_count(item->Object_0, "recovery_faults"@, counts.recovery_faults)
    &&& has_count(item->Object_0, "retries"@, counts.retries)
}

/// The method that an item shows.
pub open spec fn method_in(item: JsonView) -> Seq<char> {
    item->Object_0["method"@]->Text_0
}

/// The method is shown in one of these items.
pub open spec fn method_shown(items: Seq<JsonView>, method: Seq<char>) -> bool {
    exists|i: int| 0 <= i < items.len() && method_in(#[trigger] items[i]) == method
}

/// The items show the busiest methods: six, or all where there are not so
/// many, those with the most requests first, and no method twice.
pub open spec fn shows_busiest(
    items: Seq<JsonView>,
    methods: Map<Seq<char>, MethodCounters>,
) -> bool {
    &&& items.len() <= 6
    &&& forall|i: int|
        0 <= i < items.len() ==> methods.dom().contains(method_in(#[trigger] items[i]))
            && shows_method(items[i], method_in(items[i]), methods[method_in(items[i])])
    &&& forall|i: int, j: int|
        #![trigger items[i], items[j]]
        0 <= i < j < items.len() ==> method_in(items[i]) != method_in(items[j])
            && methods[method_in(items[i])].requests >= methods[method_in(items[j])].requests
    &&& forall|method: Seq<char>, i: int|
        #![trigger methods.dom().contains(method), items[i]]
        methods.dom().contains(method) && !method_shown(items, method) && 0 <= i < items.len()
            ==> methods[method].requests <= methods[method_in(items[i])].requests
    &&& forall|method: Seq<char>| #[trigger]
        methods.dom().contains(method) && !method_shown(items, method) ==> items.len() == 6
}

proof fn lemma_count_words()
    ensures
        "method"@ != "requests"@,
        "method"@ != "errors"@,
        "method"@ != "response_errors"@,
        "method"@ != "recovery_errors"@,
        "method"@ != "recovery_faults"@,
        "method"@ != "retries"@,
        "requests"@ != "successes"@,
        "requests"@ != "errors"@,
        "requests"@ != "response_errors"@,
        "requests"@ != "recovery_errors"@,
        "requests"@ != "recovery_faults"@,
        "requests"@ != "retries"@,
        "requests"@ != "worker_restarts"@,
        "requests"@ != "host_rollouts"@,
        "requests"@ != "hot_methods"@,
        "successes"@ != "errors"@,
        "successes"@ != "response_errors"@,
        "successes"@ != "recovery_errors"@,
        "successes"@ != "recovery_faults"@,
        "successes"@ != "retries"@,
        "successes"@ != "worker_restarts"@,
        "successes"@ != "host_rollouts"@,
        "successes"@ != "hot_methods"@,
        "errors"@ != "response_errors"@,
        "errors"@ != "recovery_errors"@,
        "errors"@ != "recovery_faults"@,
        "errors"@ != "retries"@,
        "errors"@ != "worker_restarts"@,
        "errors"@ != "host_rollouts"@,
        "errors"@ != "hot_methods"@,
        "response_errors"@ != "recovery_errors"@,
        "response_errors"@ != "recovery_faults"@,
        "response_errors"@ != "retries"@,
        "response_errors"@ != "worker_restarts"@,
        "response_errors"@ != "host_rollouts"@,
        "response_errors"@ != "hot_methods"@,
        "recovery_errors"@ != "recovery_faults"@,
        "recovery_errors"@ != "retries"@,
        "recovery_errors"@ != "worker_restarts"@,
        "recovery_errors"@ != "host_rollouts"@,
        "recovery_errors"@ != "hot_methods"@,
        "recovery_faults"@ != "retries"@,
        "recovery_faults"@ != "worker_restarts"@,
        "recovery_faults"@ != "host_rollouts"@,
        "recovery_faults"@ != "hot_methods"@,
        "retries"@ != "worker_restarts"@,
        "retries"@ != "host_rollouts"@,
        "retries"@ != "hot_methods"@,
        "worker_restarts"@ != "host_rollouts"@,
        "worker_restarts"@ != "hot_methods"@,
        "host_rollouts"@ != "hot_methods"@,
        "telemetry"@ != "host_rollouts"@,
{
    reveal_strlit("method");
    reveal_strlit("requests");
    reveal_strlit("successes");
    reveal_strlit("errors");
    reveal_strlit("response_errors");
    reveal_strlit("recovery_errors");
    reveal_strlit("recovery_faults");
    reveal_strlit("retries");
    reveal_strlit("worker_restarts");
    reveal_strlit("host_rollouts");
    reveal_strlit("hot_methods");
    reveal_strlit("telemetry");
    assert("method"@.len() == 6 && "requests"@.len() == 8 && "successes"@.len() == 9
        && "errors"@.len() == 6 && "response_errors"@.len() == 15 && "recovery_errors"@.len() == 15
        && "recovery_faults"@.len() == 15 && "retries"@.len() == 7 && "worker_restarts"@.len() == 15
        && "host_rollouts"@.len() == 13 && "hot_methods"@.len() == 11 && "telemetry"@.len() == 9);
    assert("method"@[0] == 'm' && "errors"@[0] == 'e');
    assert("response_errors"@[2] == 's' && "recovery_errors"@[2] == 'c' && "recovery_faults"@[2]
        == 'c' && "worker_restarts"@[2] == 'r');
    assert("recovery_errors"@[9] == 'e' && "recovery_faults"@[9] == 'f');
}

proof fn lemma_busiest(rows: Seq<MethodRow>, methods: Map<Seq<char>, MethodCounters>)
    requires
        lists_methods(methods, rows),
        ranked(rows),
    ensures
        shows_busiest(hot(rows).map_values(|row: MethodRow| row_json(row)), methods),
{
    lemma_count_words();
    let shown = hot(rows);
    let items = shown.map_values(|row: MethodRow| row_json(row));
    assert forall|i: int| 0 <= i < items.len() implies methods.dom().contains(
        method_in(#[trigger] items[i]),
    ) && shows_method(items[i], method_in(items[i]), methods[method_in(items[i])]) && method_in(
        items[i],
    ) == rows[i].method@ by {
        assert(shown[i] == rows[i]);
        assert(items[i] == row_json(rows[i]));
        assert(method_in(items[i]) == rows[i].method@);
    }
    assert forall|i: int, j: int|
        #![trigger items[i], items[j]]
        0 <= i < j < items.len() implies method_in(items[i]) != method_in(items[j])
        && methods[method_in(items[i])].requests >= methods[method_in(items[j])].requests by {
        assert(rows[i].at_most(&rows[j]));
        assert(rows[i].method@ != rows[j].method@);
    }
    assert forall|method: Seq<char>| #[trigger]
        methods.dom().contains(method) && !method_shown(items, method) implies exists|j: int|
        items.len() <= j < rows.len() && (#[trigger] rows[j]).method@ == method by {
        let j = choose|j: int| 0 <= j < rows.len() && (#[trigger] rows[j]).method@ == method;
        if j < items.len() {
            assert(method_in(items[j]) == method);
        }
    }
    assert forall|method: Seq<char>, i: int|
        #![trigger methods.dom().contains(method), items[i]]
        methods.dom().contains(method) && !method_shown(items, method) && 0 <= i
            < items.len() implies methods[method].requests <= methods[method_in(
        items[i],
    )].requests by {
        let j = choose|j: int|
            items.len() <= j < rows.len() && (#[trigger] rows[j]).method@ == method;
        assert(rows[i].at_most(&rows[j]));
    }
}

/// What a client is told of the telemetry of the host: the counters as they
/// are, and the busiest methods with theirs.
pub proof fn law_telemetry_is_answered(
    task: StatusTask,
    worker_running: bool,
    now_unix_ms: u64,
    step: HostStep,
)
    requires
        call_ensures(StatusTask::telemetry, (task, worker_running, now_unix_ms), step),
    ensures
        step@ matches StepView::Settle(host, asked, Ok(Some(result))) && asked == task.view().1 && {
            let before = task.view().0;
            let totals = before.ledger().session.totals;
            let rollouts = before.telemetry.host_rollouts as nat;
            &&& host.binding == before.binding
            &&& host.kernel == before.kernel
            &&& host.telemetry == before.telemetry
            &&& says(result, "host_rollouts"@, JsonView::Unsigned(rollouts))
            &&& task.view().2.detail is Concise ==> {
                let items = document_of(result)->Object_0["hot_methods"@]->Array_0;
                &&& says(result, "requests"@, JsonView::Unsigned(totals.requests))
                &&& says(result, "successes"@, JsonView::Unsigned(totals.successes))
                &&& says(result, "errors"@, JsonView::Unsigned(totals.errors))
                &&& says(result, "response_errors"@, JsonView::Unsigned(totals.response_errors))
                &&& says(result, "recovery_errors"@, JsonView::Unsigned(totals.recovery_errors))
                &&& says(result, "recovery_faults"@, JsonView::Unsigned(totals.recovery_faults))
                &&& says(result, "retries"@, JsonView::Unsigned(totals.retries))
                &&& says(
                    result,
                    "worker_restarts"@,
                    JsonView::Unsigned(before.ledger().session.restarts),
                )
                &&& says(result, "hot_methods"@, JsonView::Array(items))
                &&& shows_busiest(items, before.ledger().methods)
            }
        },
{
    lemma_count_words();
    lemma_members();
    let before = task.view().0;
    let seen = HostView { worker: before.worker.observed(worker_running), ..before };
    let (report, rows) = choose|report: TelemetryReport, rows: Seq<MethodRow>| #[trigger]
        shows_telemetry(seen, report, rows, now_unix_ms) && step@ == StepView::Settle(
            seen,
            task.view().1,
            Ok(
                Some(
                    success_json(
                        telemetry_output(report, rows, seen.telemetry.host_rollouts),
                        task.view().2,
                    ),
                ),
            ),
        );
    assert(shows_telemetry(seen, report, rows, now_unix_ms));
    lemma_busiest(rows, before.ledger().methods);
}

/// A rollout that failed is put off for five seconds, and tried again then.
pub proof fn law_failed_rollouts_wait(
    host: HostRuntime,
    detail: String,
    failed_at: u64,
    after: (HostRuntime, bool),
    now_ms: u64,
    looked: (HostRuntime, bool),
)
    requires
        call_ensures(HostRuntime::handed_off, (host, Handoff::Failed(detail), failed_at), after),
        call_ensures(HostRuntime::maybe_roll_forward, (after.0, now_ms), looked),
        failed_at + 5000 <= u64::MAX,
    ensures
        !after.1,
        looked.1 <==> now_ms >= failed_at + 5000,
        looked.0@.kernel == host@.kernel,
        looked.0@.binding == host@.binding,
        looked.0@.telemetry == host@.telemetry,
        looked.0@.worker == host@.worker,
        looked.0@.rollout_requested == host@.rollout_requested,
{
}

/// When a session is handed to a successor: where one is ready, and where a
/// rollout was asked for and this program file can be launched again. Otherwise
/// the host goes on. Each rollout counts once.
pub proof fn law_when_rollouts_come(
    host: HostRuntime,
    ready: bool,
    now_ms: u64,
    step: RolloutStep,
)
    requires
        call_ensures(
            HostRuntime::release_observed,
            (host, Ok::<bool, String>(ready), now_ms),
            step,
        ),
        host@.telemetry.host_rollouts < u64::MAX,
    ensures
        ready ==> (step matches RolloutStep::Handoff(after, seed) && hands_over(after@, seed)
            && after@.telemetry.host_rollouts == host@.telemetry.host_rollouts + (
        if host@.rollout_requested {
            0int
        } else {
            1int
        }) && after@.kernel == host@.kernel && after@.binding == host@.binding),
        !ready && host@.rollout_requested ==> (step matches RolloutStep::Arm(after) && after@
            == host@),
        !ready && !host@.rollout_requested ==> (step matches RolloutStep::Wait(after) && after@
            == host@),
{
}

/// The next worker is of the next generation: the first worker of a session is
/// of the generation that it starts with, and each later one of a higher one.
pub proof fn law_generations_grow(worker: &WorkerSupervisor, plan: Result<SpawnPlan, FaultRecord>)
    requires
        call_ensures(WorkerSupervisor::ensure_worker, (worker,), plan),
    ensures
        plan matches Ok(plan) ==> {
            &&& worker@.root == Some(plan.project_root@)
            &&& plan.executable@ == worker@.executable
            &&& plan.generation.value == worker@.generation.value + (if worker@.has_spawned {
                1int
            } else {
                0int
            })
        },
        worker@.root is Some && worker@.generation.value < u64::MAX ==> plan is Ok,
        worker@.root is None ==> plan is Err,
{
}

/// Once a worker has started it is held, and its generation is the one of the
/// session.
pub proof fn law_started_workers_are_held(worker: WorkerView, generation: Generation)
    ensures
        spawn_fault(generation, SpawnOutcome::Started) is None,
        worker.started(generation).attached,
        worker.started(generation).has_spawned,
        worker.started(generation).generation == generation,
        worker.started(generation).root == worker.root,
        worker.started(generation).crash_armed == worker.crash_armed,
{
}

/// A worker of another project is let go; one of the same project stays.
pub proof fn law_workers_stay_with_their_project(worker: WorkerView, root: Seq<u8>)
    ensures
        worker.rebound(root).attached ==> worker.attached && components(worker.root->0)
            == components(root),
        worker.root is Some && components(worker.root->0) == components(root) ==> worker.rebound(
            root,
        ) == worker,
        components(worker.rebound(root).root->0) == components(root),
        worker.rebound(root).generation == worker.generation,
        worker.rebound(root).has_spawned == worker.has_spawned,
{
}

/// The answers to the requests that need no tool: the handshake, a ping and
/// the list of the tools.
pub proof fn law_plain_requests(host: HostRuntime, frame: Frame, step: HostStep)
    requires
        call_ensures(HostRuntime::handle_frame, (host, frame), step),
        takes(host@, frame@),
    ensures
        method_of(frame@) == "ping"@ ==> (step@ matches StepView::Settle(_, asked, Ok(Some(result)))
            && asked == frame@ && result == JsonView::Object(
            Map::<Seq<char>, JsonView>::empty(),
        )),
        method_of(frame@) == "tools/list"@ ==> (step@ matches StepView::Settle(
            _,
            asked,
            Ok(Some(result)),
        ) && asked == frame@ && result is Object && result->Object_0.dom().contains("tools"@) && (
        result->Object_0["tools"@] matches JsonView::Array(tools) && lists_tools(tools))),
{
    lemma_tool_words();
    if method_of(frame@) == "ping"@ || method_of(frame@) == "tools/list"@ {
        assert(observed(host@.kernel, frame@) == Some(host@.kernel));
    }
    lemma_tools_listed();
}

/// A session that nobody has opened yet is opened by `initialize`: the answer
/// says which protocol is spoken, and who speaks.
pub proof fn law_initialize_is_answered(host: HostRuntime, frame: Frame, step: HostStep)
    requires
        call_ensures(HostRuntime::handle_frame, (host, frame), step),
        host@.kernel == cold_view(),
        host@.ledger().request_fits(key_of(frame@)),
        id_of(frame@) is Some,
        method_of(frame@) == "initialize"@,
    ensures
        step@ matches StepView::Settle(now, asked, Ok(Some(result))) && asked == frame@
            && now.kernel.session.seed is Some && result is Object && has_text(
            result->Object_0,
            "protocolVersion"@,
            "2025-11-25"@,
        ) && result->Object_0.dom().contains("capabilities"@)
            && result->Object_0["capabilities"@] is Object
            && result->Object_0["capabilities"@]->Object_0.dom().contains("tools"@)
            && result->Object_0.dom().contains("serverInfo"@) && (
        result->Object_0["serverInfo"@] matches JsonView::Object(server) && has_text(
            server,
            "name"@,
            "jira-at-home"@,
        )),
{
    lemma_tool_words();
    reveal_strlit("protocolVersion");
    reveal_strlit("capabilities");
    reveal_strlit("serverInfo");
    reveal_strlit("instructions");
    reveal_strlit("name");
    reveal_strlit("version");
    assert("protocolVersion"@.len() == 15 && "capabilities"@.len() == 12 && "serverInfo"@.len()
        == 10 && "instructions"@.len() == 12 && "name"@.len() == 4 && "version"@.len() == 7);
    assert("capabilities"@[0] == 'c' && "instructions"@[0] == 'i');
    assert(observed(host@.kernel, frame@) is Some);
}

/// One tool in the list: its name, and the arguments that it needs.
pub open spec fn lists_tool(tool: JsonView, name: Seq<char>, required: Seq<Seq<char>>) -> bool {
    &&& tool is Object
    &&& has_text(tool->Object_0, "name"@, name)
    &&& tool->Object_0.dom().contains("inputSchema"@)
    &&& tool->Object_0["inputSchema"@] matches JsonView::Object(schema) && if required.len() == 0 {
        !schema.dom().contains("required"@)
    } else {
        schema.dom().contains("required"@) && (schema["required"@] matches JsonView::Array(names)
            && names.len() == required.len() && forall|i: int|
            0 <= i < names.len() ==> #[trigger] names[i] == JsonView::Text(required[i]))
    }
}

/// The seven tools, in the order in which clients see them, each with the
/// arguments that it needs.
pub open spec fn lists_tools(tools: Seq<JsonView>) -> bool {
    &&& tools.len() == 7
    &&& lists_tool(tools[0], "project.bind"@, seq!["path"@])
    &&& lists_tool(tools[1], "issue.save"@, seq!["category"@, "slug"@, "body"@])
    &&& lists_tool(tools[2], "issue.delete"@, seq!["category"@, "slug"@])
    &&& lists_tool(tools[3], "issue.list"@, seq![])
    &&& lists_tool(tools[4], "issue.read"@, seq!["category"@, "slug"@])
    &&& lists_tool(tools[5], "system.health"@, seq![])
    &&& lists_tool(tools[6], "system.telemetry"@, seq![])
}

proof fn lemma_tools_listed()
    ensures
        lists_tools(catalog().map_values(|tool: ToolView| definition(tool))),
{
    lemma_tool_words();
    lemma_words();
    reveal_strlit("name");
    reveal_strlit("description");
    reveal_strlit("inputSchema");
    reveal_strlit("annotations");
    reveal_strlit("type");
    reveal_strlit("properties");
    reveal_strlit("required");
    reveal_strlit("additionalProperties");
    assert("name"@.len() == 4 && "description"@.len() == 11 && "inputSchema"@.len() == 11
        && "annotations"@.len() == 11 && "type"@.len() == 4 && "properties"@.len() == 10
        && "required"@.len() == 8 && "additionalProperties"@.len() == 20);
    assert("description"@[0] == 'd' && "inputSchema"@[0] == 'i' && "annotations"@[0] == 'a');
    assert("name"@[0] == 'n' && "type"@[0] == 't');
    let tools = catalog().map_values(|tool: ToolView| definition(tool));
    assert(tools[0] == definition(project_bind_tool()));
    assert(tools[1] == definition(issue_save_tool()));
    assert(tools[2] == definition(issue_delete_tool()));
    assert(tools[3] == definition(issue_list_tool()));
    assert(tools[4] == definition(issue_read_tool()));
    assert(tools[5] == definition(system_health_tool()));
    assert(tools[6] == definition(system_telemetry_tool()));
}

/// A host that starts without a predecessor: nothing has happened yet, the
/// first worker is of the first generation, and the session is bound to the
/// project that was found at the start, if there was one.
pub proof fn law_cold_start(setup: HostSetup, host: Result<HostRuntime, String>)
    requires
        call_ensures(HostRuntime::new, (setup, None::<HostStateSeed>), host),
    ensures
        host matches Ok(host) && {
            &&& host@.kernel == cold_view()
            &&& host@.telemetry.host_rollouts == 0
            &&& host@.telemetry.started_unix_ms == setup.now_unix_ms
            &&& host@.ledger().session.totals.requests == 0
            &&& host@.ledger().session.restarts == 0
            &&& host@.next_request_id == 1
            &&& host@.worker.generation.value == 1
            &&& !host@.worker.has_spawned
            &&& !host@.worker.attached
            &&& !host@.worker.crash_armed
            &&& host@.worker.executable == setup.executable@
            &&& !host@.rollout_requested
            &&& !host@.force_rollout_consumed
            &&& !host@.crash_once_consumed
            &&& setup.binding matches Some(binding) ==> host@.binding == Some(binding@)
                && host@.worker.root == Some(binding@.worktree_root)
            &&& setup.binding is None ==> host@.binding is None && host@.worker.root is None
        },
{
}

/// Bytes that are no message are answered with an error without an identifier,
/// and leave the session as it is.
pub proof fn law_bytes_that_are_no_message(host: HostRuntime, payload: Vec<u8>, step: HostStep)
    requires
        call_ensures(HostRuntime::handle_payload, (host, payload), step),
    ensures
        frame_reading(payload@) matches Err(FrameFaultView::InvalidJson(detail)) ==> (
        step@ matches StepView::Answer(now, answer) && now == host@ && responds(
            answer,
            JsonView::Null,
        ) && gives_error(answer, -32700, "parse error: "@ + detail)),
        frame_reading(payload@) matches Err(FrameFaultView::Malformed(detail)) ==> (
        step@ matches StepView::Answer(now, answer) && now == host@ && responds(
            answer,
            JsonView::Null,
        ) && gives_error(answer, -32600, detail)),
{
    lemma_response_words();
}

/// A method that is not known is refused, and so is a tool.
pub proof fn law_unknown_names_are_refused(
    host: HostRuntime,
    frame: Frame,
    step: HostStep,
    name: Seq<char>,
    arguments: JsonView,
)
    requires
        call_ensures(HostRuntime::handle_frame, (host, frame), step),
        takes(host@, frame@),
    ensures
        ({
            let method = method_of(frame@);
            method != "initialize"@ && method != "notifications/initialized"@ && method
                != "notifications/cancelled"@ && method != "ping"@ && method != "tools/list"@
                && method != "tools/call"@ ==> (step@ matches StepView::Settle(now, _, Err(fault))
                && fault.jsonrpc_code == -32602 && fault.fault.detail == "method `"@ + method
                + "` is not implemented"@ && now.binding == host@.binding)
        }),
        calls(frame@, name, arguments) && name != "project.bind"@ && name != "issue.save"@ && name
            != "issue.delete"@ && name != "issue.list"@ && name != "issue.read"@ && name
            != "system.health"@ && name != "system.telemetry"@ ==> (step@ matches StepView::Settle(
            now,
            _,
            Err(fault),
        ) && fault.jsonrpc_code == -32602 && fault.fault.detail == "unknown tool `"@ + name + "`"@
            && now.binding == host@.binding && now.worker == host@.worker),
{
    lemma_tool_words();
    assert(frame@.params() == given_params(frame@));
    if method_of(frame@) != "initialize"@ {
        assert(observed(host@.kernel, frame@) == Some(host@.kernel));
    }
}

/// What goes wrong between the host and its worker is a fault of transport
/// that recovery may follow; only what the worker itself says is passed on as
/// it is. Where the worker has gone it is no longer held.
pub proof fn law_lost_exchanges(
    worker: WorkerView,
    sent: SendOutcome,
    answered: ReplyOutcome,
)
    ensures
        send_fault(worker, sent) is None <==> sent is Sent && !worker.crash_armed,
        send_fault(worker, sent) matches Some(fault) ==> fault.retryable && !fault.retried
            && fault.fault.class is Transport && fault.fault.generation == worker.generation,
        reply_result(worker.generation, answered) is Ok <==> (answered matches ReplyOutcome::Answered(
            WorkerOutcome::Success(_),
        )),
        answered matches ReplyOutcome::Answered(WorkerOutcome::Success(result)) ==> reply_result(
            worker.generation,
            answered,
        ) == Ok::<JsonView, FaultRecordView>(result@),
        answered matches ReplyOutcome::Answered(WorkerOutcome::Fault(fault)) ==> reply_result(
            worker.generation,
            answered,
        ) == Err::<JsonView, FaultRecordView>(fault@),
        !(answered is Answered) ==> (reply_result(worker.generation, answered) matches Err(fault)
            && fault.retryable && fault.fault.class is Transport && fault.fault.generation
            == worker.generation),
        after_reply(worker, answered).attached <==> worker.attached && !(answered is Closed),
        after_reply(worker, answered).generation == worker.generation,
        after_reply(worker, answered).root == worker.root,
        after_send(worker, sent).attached <==> worker.attached && !(sent is Sent
            && worker.crash_armed),
        after_send(worker, sent).generation == worker.generation,
        after_send(worker, sent).root == worker.root,
{
}

/// The record of a call that has come to its end: whose it is, which tool it
/// names, how long it took, and what went wrong, if anything did.
pub proof fn law_completions(
    end: Settlement,
    elapsed_millis: u128,
    host: HostRuntime,
    response: Option<Json>,
    completion: Option<ToolCompletion>,
)
    requires
        call_ensures(
            Settlement::settle,
            (end, elapsed_millis),
            Settled::Done { host, response, completion },
        ),
        id_of(end.view().1) is Some,
        tool_meta_of(end.view().1.body) is Some,
    ensures
        completion matches Some(record) && record.id@ == id_of(end.view().1)->0 && record.meta@
            == tool_meta_of(end.view().1.body)->0 && record.latency_ms == (if elapsed_millis
            > 18446744073709551615u128 {
            18446744073709551615int
        } else {
            elapsed_millis as int
        }) && (record.error is Some <==> end.view().2 is Err) && (
        end.view().2 matches Err(fault) ==> record.error->0.message is Some
            && record.error->0.message->0@ == fault.fault.detail && record.error->0.kind is Some
            && record.error->0.kind->0@ == fault.fault.code && record.error->0.code is Some
            && record.error->0.code->0 as int == fault.jsonrpc_code),
{
}

/// What the counters of a request are kept under: its method, and for the call
/// of a tool the tool too.
pub proof fn law_counters_are_kept_by_tool(frame: FrameView, name: Seq<char>, arguments: JsonView)
    ensures
        calls(frame, name, arguments) ==> key_of(frame) == "tools/call:"@ + name,
        method_of(frame) != "tools/call"@ ==> key_of(frame) == method_of(frame),
{
    assert(frame.params() == given_params(frame));
}

/// What the worker answers, in its wire form: the identifier of the request,
/// and the result or what went wrong.
pub proof fn law_worker_answers(outcome: &WorkerOutcome, id: HostRequestId, json: Json)
    requires
        call_ensures(WorkerOutcome::response_json, (outcome, id), json),
    ensures
        json@ matches JsonView::Object(members) && has_count(members, "id"@, id.value as nat)
            && members.dom().contains("outcome"@) && members["outcome"@] is Object,
        ({
            let said = json@->Object_0["outcome"@]->Object_0;
            match outcome {
                WorkerOutcome::Success(result) => has_text(said, "status"@, "success"@)
                    && said.dom().contains("result"@) && said["result"@] == result@,
                WorkerOutcome::Fault(fault) => has_text(said, "status"@, "fault"@)
                    && said.dom().contains("fault"@) && (said["fault"@] matches JsonView::Object(
                    record,
                ) && has_text(record, "operation"@, fault@.operation)),
            }
        }),
{
    lemma_response_words();
    reveal_strlit("id");
    reveal_strlit("outcome");
    reveal_strlit("status");
    reveal_strlit("result");
    reveal_strlit("fault");
    assert("id"@.len() == 2 && "outcome"@.len() == 7 && "status"@.len() == 6 && "result"@.len() == 6
        && "fault"@.len() == 5);
    assert("status"@[0] == 's' && "result"@[0] == 'r');
}

/// The end of a request keeps the session: the project, the worker, the
/// numbers of requests, and what is to be lost once.
pub proof fn law_ends_keep_the_session(
    end: Settlement,
    elapsed_millis: u128,
    host: HostRuntime,
    response: Option<Json>,
    completion: Option<ToolCompletion>,
)
    requires
        call_ensures(
            Settlement::settle,
            (end, elapsed_millis),
            Settled::Done { host, response, completion },
        ),
    ensures
        host@.binding == end.view().0.binding,
        host@.worker == end.view().0.worker,
        host@.next_request_id == end.view().0.next_request_id,
        host@.crash_once_key == end.view().0.crash_once_key,
        host@.crash_once_consumed == end.view().0.crash_once_consumed,
        host@.force_rollout_key == end.view().0.force_rollout_key,
        host@.retry_not_before == end.view().0.retry_not_before,
        host@.telemetry.started_unix_ms == end.view().0.telemetry.started_unix_ms,
{
}

/// The text on the health of the host.
pub open spec fn health_text(
    host: HostView,
    alive: bool,
    pending: bool,
    launch_path_stable: bool,
) -> Seq<char> {
    let first = (if alive {
        "ready"@
    } else {
        "not-ready"@
    }) + " | "@ + (if host.binding is Some {
        "bound"@
    } else {
        "unbound"@
    });
    let project = match host.binding {
        None => seq![],
        Some(bound) => more_if(true, "project: "@ + lossy_text(bound.project_root)) + more_if(
            components(bound.worktree_root) != components(bound.project_root),
            "worktree: "@ + lossy_text(bound.worktree_root),
        ) + more_if(true, "issues: "@ + lossy_text(bound.issues_root)),
    };
    first + project + more_if(
        true,
        "worker: gen "@ + decimal_text(host.ledger().session.generation) + (if alive {
            " alive"@
        } else {
            " dead"@
        }),
    ) + more_if(
        true,
        "binary: "@ + (if launch_path_stable {
            "stable"@
        } else {
            "unstable"@
        }) + (if pending {
            " rollout-pending"@
        } else {
            ""@
        }),
    )
}

/// What a client reads of the health of the host.
pub proof fn law_health_is_spoken(
    task: StatusTask,
    sight: HealthSight,
    pending: bool,
    step: HostStep,
)
    requires
        call_ensures(StatusTask::health, (task, sight), step),
        sight.rollout_pending == Ok::<bool, String>(pending),
    ensures
        step@ matches StepView::Settle(_, _, Ok(Some(result))) && speaks_as(
            result,
            task.view().2,
            health_text(
                task.view().0,
                task.view().0.worker.attached && sight.worker_running,
                pending,
                sight.launch_path_stable,
            ),
            None,
        ),
{
    lemma_members();
    let before = task.view().0;
    let seen = HostView { worker: before.worker.observed(sight.worker_running), ..before };
    let report = choose|report: HealthReport| #[trigger]
        shows_health(seen, report, pending, sight.now_unix_ms) && step@ == StepView::Settle(
            seen,
            task.view().1,
            Ok(
                Some(
                    success_json(
                        health_output(
                            report,
                            seen.binding,
                            seen.worker.attached,
                            sight.launch_path_stable,
                        ),
                        task.view().2,
                    ),
                ),
            ),
        );
    assert(shows_health(seen, report, pending, sight.now_unix_ms));
    lemma_health_text(seen, report, pending, sight.launch_path_stable);
    assert(health_text(before, seen.worker.attached, pending, sight.launch_path_stable)
        == health_text(seen, seen.worker.attached, pending, sight.launch_path_stable));
}

#[verifier::rlimit(30)]
proof fn lemma_health_text(
    host: HostView,
    report: HealthReport,
    pending: bool,
    launch_path_stable: bool,
)
    requires
        report.state is Ready <==> host.worker.attached,
        report.rollout is Pending <==> pending,
        report.generation == host.ledger().session.generation,
    ensures
        joined_lines(health_lines(report, host.binding, host.worker.attached, launch_path_stable))
            == health_text(host, host.worker.attached, pending, launch_path_stable),
{
    let lines = health_lines(report, host.binding, host.worker.attached, launch_path_stable);
    let head = seq![lines[0]];
    let worker = lines[lines.len() - 2];
    let binary = lines[lines.len() - 1];
    lemma_one_line(lines[0]);
    match host.binding {
        None => {
            lemma_more_line(head, true, worker);
            lemma_more_line(head + seq![worker], true, binary);
            assert(lines =~= head + seq![worker] + seq![binary]);
            assert(joined_lines(lines) =~= health_text(
                host,
                host.worker.attached,
                pending,
                launch_path_stable,
            ));
        },
        Some(bound) => {
            let apart = components(bound.worktree_root) != components(bound.project_root);
            let project = "project: "@ + lossy_text(bound.project_root);
            let worktree = "worktree: "@ + lossy_text(bound.worktree_root);
            let issues = "issues: "@ + lossy_text(bound.issues_root);
            let one = head + seq![project];
            let two = one + line_if(apart, worktree);
            let three = two + seq![issues];
            let four = three + seq![worker];
            lemma_more_line(head, true, project);
            lemma_more_line(one, apart, worktree);
            lemma_more_line(two, true, issues);
            lemma_more_line(three, true, worker);
            lemma_more_line(four, true, binary);
            assert(lines =~= four + seq![binary]);
            assert(joined_lines(lines) =~= health_text(
                host,
                host.worker.attached,
                pending,
                launch_path_stable,
            ));
        },
    }
}

/// The host in a step that follows a frame.
pub open spec fn host_in(step: StepView) -> Option<HostView> {
    match step {
        StepView::Silent(host) => Some(host),
        StepView::Answer(host, _) => Some(host),
        StepView::Settle(host, _, _) => Some(host),
        StepView::Explain(host, _, _, _, _) => Some(host),
        StepView::Bind(host, _, _, _) => Some(host),
        StepView::Health(host, _, _) => Some(host),
        StepView::Telemetry(host, _, _) => Some(host),
        StepView::Probe(host, _, _) => Some(host),
        StepView::Spawn(host, _, _, _) => Some(host),
        StepView::Send(host, _, _) => Some(host),
        StepView::Read(host, _, _) => Some(host),
        StepView::Halt => None,
    }
}

proof fn lemma_dispatch_keeps_counters(host: HostView, frame: FrameView)
    ensures
        host_in(dispatch_step(host, frame)) matches Some(now) && now.telemetry == host.telemetry,
{
    if direct_outcome(host, method_of(frame)) is None {
        if let Some(envelope) = envelope_of(frame.params()) {
            if let Some(tool) = tool_named(envelope.name) {
                let call = CallView {
                    frame,
                    name: tool.name,
                    replay: tool.replay,
                    arguments: envelope.arguments,
                };
                assert(host_in(call_step(host, call)) matches Some(now) && now.telemetry
                    == host.telemetry);
                assert(host_in(
                    host_tool_step(host, frame, envelope.name, envelope.arguments),
                ) matches Some(now) && now.telemetry == host.telemetry);
            }
        }
    }
}

/// Every request counts once, under its method or its tool, and no other
/// method is touched.
pub proof fn law_requests_are_counted(
    host: HostRuntime,
    frame: Frame,
    step: HostStep,
    key: Seq<char>,
    other: Seq<char>,
)
    requires
        call_ensures(HostRuntime::handle_frame, (host, frame), step),
        takes(host@, frame@),
        key == key_of(frame@),
        other != key,
    ensures
        host_in(step@) matches Some(now) && {
            let before = host@.ledger();
            let after = now.ledger();
            &&& after.counts(key).requests == before.counts(key).requests + 1
            &&& after.counts(key).in_flight == before.counts(key).in_flight + 1
            &&& after.counts(key).successes == before.counts(key).successes
            &&& after.counts(key).errors == before.counts(key).errors
            &&& after.session.totals.requests == before.session.totals.requests + 1
            &&& after.session.totals.errors == before.session.totals.errors
            &&& after.counts(other) == before.counts(other)
        },
{
    let counted = admitted(host@, frame@);
    if let Some(kernel) = observed(host@.kernel, frame@) {
        let seen = HostView { kernel, ..counted };
        let contract = contract_of(method_of(frame@), frame@.params());
        let pending = HostView { kernel: begun(kernel, frame@, contract), ..seen };
        lemma_dispatch_keeps_counters(seen, frame@);
        lemma_dispatch_keeps_counters(pending, frame@);
    }
    assert(host_in(step@) matches Some(now) && now.telemetry == counted.telemetry);
}

/// Every request that has come to its end counts once, as a success or as an
/// error: as one of recovery where that is what went wrong, and as one of the
/// worker where the worker told of it. No other method is touched.
pub proof fn law_outcomes_are_counted(
    end: Settlement,
    elapsed_millis: u128,
    host: HostRuntime,
    response: Option<Json>,
    completion: Option<ToolCompletion>,
    key: Seq<char>,
    other: Seq<char>,
)
    requires
        call_ensures(
            Settlement::settle,
            (end, elapsed_millis),
            Settled::Done { host, response, completion },
        ),
        key == key_of(end.view().1),
        other != key,
    ensures
        ({
            let before = end.view().0.ledger();
            let after = host@.ledger();
            let failed = end.view().2 is Err;
            let recovery = end.view().2 matches Err(fault) && (fault.fault.class is Transport
                || fault.fault.class is Process || fault.fault.class is Timeout
                || fault.fault.class is Replay || fault.fault.class is Rollout
                || fault.fault.class is AmbiguousOutcome);
            let told = !recovery && (end.view().2 matches Err(fault) && (fault.stage is Worker
                || fault.stage is Store));
            &&& after.counts(key).requests == before.counts(key).requests
            &&& after.counts(key).in_flight == before.counts(key).in_flight - 1
            &&& after.counts(key).successes == before.counts(key).successes + (if failed {
                0int
            } else {
                1int
            })
            &&& after.counts(key).errors == before.counts(key).errors + (if failed {
                1int
            } else {
                0int
            })
            &&& after.counts(key).recovery_errors == before.counts(key).recovery_errors + (
            if recovery {
                1int
            } else {
                0int
            })
            &&& after.counts(key).response_errors == before.counts(key).response_errors + (
            if told {
                1int
            } else {
                0int
            })
            &&& after.session.totals.successes == before.session.totals.successes + (if failed {
                0int
            } else {
                1int
            })
            &&& after.session.totals.errors == before.session.totals.errors + (if failed {
                1int
            } else {
                0int
            })
            &&& after.session.totals.requests == before.session.totals.requests
            &&& after.session.restarts == before.session.restarts
            &&& after.session.generation == before.session.generation
            &&& after.counts(other) == before.counts(other)
        }),
{
}

/// What is wrong with arguments is told to the client in words.
pub proof fn law_explanations_are_told(task: Explanation, detail: String, step: HostStep)
    requires
        call_ensures(Explanation::explained, (task, detail), step),
    ensures
        step@ matches StepView::Settle(host, asked, Err(fault)) && host == task.view().0 && asked
            == task.view().1 && fault.fault.detail == "invalid params: "@ + detail@
            && fault.jsonrpc_code == -32602 && fault.operation == task.view().2 && !fault.retryable,
{
}

/// A project whose log cannot be opened is not bound, and the client is told.
pub proof fn law_bind_without_a_log(
    task: BindTask,
    resolved: ResolvedProjectBinding,
    detail: String,
    step: HostStep,
)
    requires
        call_ensures(
            BindTask::bound,
            (task, BindReport::Resolved(resolved, Err::<(), String>(detail))),
            step,
        ),
    ensures
        step@ matches StepView::Settle(host, asked, Err(fault)) && asked == task.view().1
            && host.binding == task.view().0.binding && fault.fault.detail == detail@
            && fault.fault.code == "internal_failure"@ && fault.jsonrpc_code == -32603,
{
}

/// Where it cannot be seen whether a rollout is due, the client is told that in
/// place of the health of the host.
pub proof fn law_health_without_a_sight(
    task: StatusTask,
    sight: HealthSight,
    detail: String,
    step: HostStep,
)
    requires
        call_ensures(StatusTask::health, (task, sight), step),
        sight.rollout_pending == Err::<bool, String>(detail),
    ensures
        step@ matches StepView::Settle(host, asked, Err(fault)) && asked == task.view().1 && host
            == task.view().0 && fault.fault.detail == detail@ && fault.fault.code
            == "rollout_failure"@ && fault.jsonrpc_code == -32603,
{
}

/// Where a rollout cannot be prepared it is put off for five seconds, and the
/// host goes on as it is.
pub proof fn law_rollouts_that_cannot_be_prepared(
    host: HostRuntime,
    detail: String,
    more: String,
    now_ms: u64,
    observed_step: RolloutStep,
    armed_step: RolloutStep,
    ready_step: RolloutStep,
)
    requires
        call_ensures(
            HostRuntime::release_observed,
            (host, Err::<bool, String>(detail), now_ms),
            observed_step,
        ),
        call_ensures(
            HostRuntime::relaunch_armed,
            (host, Err::<(), String>(more), now_ms),
            armed_step,
        ),
        call_ensures(
            HostRuntime::relaunch_armed,
            (host, Ok::<(), String>(()), now_ms),
            ready_step,
        ),
        now_ms + 5000 <= u64::MAX,
    ensures
        observed_step matches RolloutStep::Wait(after) && after@ == (HostView {
            retry_not_before: Some((now_ms + 5000) as u64),
            ..host@
        }),
        armed_step matches RolloutStep::Wait(after) && after@ == (HostView {
            retry_not_before: Some((now_ms + 5000) as u64),
            ..host@
        }),
        ready_step matches RolloutStep::Handoff(after, seed) && after@ == host@ && hands_over(
            host@,
            seed,
        ),
{
}

/// What a host hands to its successor is what it knows.
pub proof fn law_what_is_handed_over(host: &HostRuntime, seed: HostStateSeed)
    requires
        call_ensures(HostRuntime::roll_forward, (host,), seed),
    ensures
        snapshot_view(seed.session_kernel) == host@.kernel,
        seed.telemetry@ == host@.telemetry,
        seed.next_request_id == host@.next_request_id,
        seed.worker_generation == host@.worker.generation,
        seed.worker_spawned == host@.worker.has_spawned,
        seed.force_rollout_consumed == host@.force_rollout_consumed,
        seed.crash_once_consumed == host@.crash_once_consumed,
        host@.binding is Some <==> seed.binding is Some,
        host@.binding matches Some(bound) ==> seed.binding->0.requested_path@
            == bound.requested_path,
{
}

/// A worker that does not start for the first dispatch of a call ends the call,
/// with why it did not; the host goes on as it is.
pub proof fn law_failed_starts(
    host: HostView,
    call: CallView,
    generation: Generation,
    detail: String,
    step: StepView,
    piped: StepView,
)
    requires
        spawned_step(
            host,
            call,
            SpawnStage::First,
            generation,
            SpawnOutcome::Failed(detail),
            step,
        ),
        spawned_step(
            host,
            call,
            SpawnStage::First,
            generation,
            SpawnOutcome::NoStdin,
            piped,
        ),
    ensures
        step matches StepView::Settle(now, asked, Err(fault)) && now == host && asked == call.frame
            && fault.fault.detail == "failed to spawn worker: "@ + detail@ && fault.fault.code
            == "process_failure"@ && fault.fault.generation == generation && fault.retryable,
        piped matches StepView::Settle(now, asked, Err(fault)) && now == host && asked == call.frame
            && fault.fault.code == "internal_failure"@ && !fault.retryable,
{
}

/// The first dispatch of a call takes the next number, which is used for no
/// other call.
pub proof fn law_calls_are_numbered(host: HostView, call: CallView, step: StepView)
    requires
        ready_step(host, call, step),
        begin_accepts(host.kernel, call.frame),
        host.next_request_id < u64::MAX,
        host.worker.attached,
    ensures
        step matches StepView::Probe(now, same, Some(attempt)) && same == call
            && attempt.id.value == host.next_request_id && !attempt.replayed && now.next_request_id
            == host.next_request_id + 1 && now.binding == host.binding && now.worker == host.worker
            && now.telemetry == host.telemetry,
{
}

/// A worker that was bound anew is not held; one that is seen to have gone is
/// not held either.
pub proof fn law_workers_are_let_go(worker: WorkerView, root: Seq<u8>, running: bool)
    ensures
        !worker.refreshed(root).attached,
        worker.refreshed(root).root == Some(root),
        worker.refreshed(root).generation == worker.generation,
        worker.refreshed(root).has_spawned == worker.has_spawned,
        worker.observed(running).attached <==> worker.attached && running,
        worker.observed(running).root == worker.root,
        worker.observed(running).generation == worker.generation,
        worker.observed(running).has_spawned == worker.has_spawned,
        !worker.without_process().attached,
        worker.without_process().root == worker.root,
        worker.without_process().generation == worker.generation,
        worker.without_process().has_spawned == worker.has_spawned,
{
}

/// The text on the totals, on the workers and on the busiest methods.
pub open spec fn telemetry_text(host: HostView, rows: Seq<MethodRow>) -> Seq<char> {
    let totals = host.ledger().session.totals;
    "requests="@ + decimal_text(totals.requests) + " success="@ + decimal_text(totals.successes)
        + " error="@ + decimal_text(totals.errors) + " response_error="@ + decimal_text(
        totals.response_errors,
    ) + " recovery_error="@ + decimal_text(totals.recovery_errors) + " recovery_fault="@
        + decimal_text(totals.recovery_faults) + " retry="@ + decimal_text(totals.retries)
        + more_if(
        true,
        "worker_restarts="@ + decimal_text(host.ledger().session.restarts) + " host_rollouts="@
            + decimal_text(host.telemetry.host_rollouts as nat),
    ) + more_if(rows.len() > 0, "hot methods:"@) + method_lines(
        rows.take(if rows.len() > 6 {
            6
        } else {
            rows.len() as int
        }),
    )
}

/// A line for each method.
pub open spec fn method_lines(rows: Seq<MethodRow>) -> Seq<char>
    decreases rows.len(),
{
    if rows.len() == 0 {
        seq![]
    } else {
        let row = rows.last();
        method_lines(rows.drop_last()) + more_if(
            true,
            row.method@ + " req="@ + decimal_text(row.requests as nat) + " err="@ + decimal_text(
                row.errors as nat,
            ) + " recovery="@ + decimal_text(row.recovery_faults as nat) + " retry="@
                + decimal_text(row.retries as nat),
        )
    }
}

proof fn lemma_method_lines(lines: Seq<Seq<char>>, rows: Seq<MethodRow>)
    requires
        lines.len() > 0,
    ensures
        joined_lines(lines + rows.map_values(|row: MethodRow| row_line(row))) == joined_lines(lines)
            + method_lines(rows),
    decreases rows.len(),
{
    let more = rows.map_values(|row: MethodRow| row_line(row));
    if rows.len() == 0 {
        assert(lines + more =~= lines);
        assert(joined_lines(lines) + method_lines(rows) =~= joined_lines(lines));
    } else {
        let fewer = rows.drop_last().map_values(|row: MethodRow| row_line(row));
        lemma_method_lines(lines, rows.drop_last());
        lemma_more_line(lines + fewer, true, row_line(rows.last()));
        assert(lines + more =~= lines + fewer + seq![row_line(rows.last())]);
        assert(joined_lines(lines + more) =~= joined_lines(lines) + method_lines(rows));
    }
}

/// What a client reads of the telemetry of the host.
pub proof fn law_telemetry_is_spoken(
    task: StatusTask,
    worker_running: bool,
    now_unix_ms: u64,
    step: HostStep,
)
    requires
        call_ensures(StatusTask::telemetry, (task, worker_running, now_unix_ms), step),
    ensures
        step@ matches StepView::Settle(_, _, Ok(Some(result))) && exists|rows: Seq<MethodRow>|
            lists_methods(task.view().0.ledger().methods, rows) && ranked(rows)
                && #[trigger] speaks_as(
                result,
                task.view().2,
                telemetry_text(task.view().0, rows),
                None,
            ),
{
    lemma_members();
    let before = task.view().0;
    let seen = HostView { worker: before.worker.observed(worker_running), ..before };
    let (report, rows) = choose|report: TelemetryReport, rows: Seq<MethodRow>| #[trigger]
        shows_telemetry(seen, report, rows, now_unix_ms) && step@ == StepView::Settle(
            seen,
            task.view().1,
            Ok(
                Some(
                    success_json(
                        telemetry_output(report, rows, seen.telemetry.host_rollouts),
                        task.view().2,
                    ),
                ),
            ),
        );
    assert(shows_telemetry(seen, report, rows, now_unix_ms));
    lemma_telemetry_text(before, report, rows);
    let result = success_json(
        telemetry_output(report, rows, seen.telemetry.host_rollouts),
        task.view().2,
    );
    assert(speaks_as(result, task.view().2, telemetry_text(before, rows), None));
}

proof fn lemma_telemetry_text(host: HostView, report: TelemetryReport, rows: Seq<MethodRow>)
    requires
        report.totals@ == host.ledger().session.totals,
        report.restarts == host.ledger().session.restarts,
    ensures
        joined_lines(
            telemetry_lines(report.totals@, report.restarts, rows, host.telemetry.host_rollouts),
        ) == telemetry_text(host, rows),
{
    let lines = telemetry_lines(
        report.totals@,
        report.restarts,
        rows,
        host.telemetry.host_rollouts,
    );
    let shown = hot(rows);
    let head = seq![lines[0]];
    let two = head + seq![lines[1]];
    let three = two + line_if(rows.len() > 0, "hot methods:"@);
    lemma_one_line(lines[0]);
    lemma_more_line(head, true, lines[1]);
    lemma_more_line(two, rows.len() > 0, "hot methods:"@);
    lemma_method_lines(three, shown);
    assert(shown =~= rows.take(if rows.len() > 6 {
        6
    } else {
        rows.len() as int
    }));
    assert(lines =~= three + shown.map_values(|row: MethodRow| row_line(row)));
}

} // verus!
