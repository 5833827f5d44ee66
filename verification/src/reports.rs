//! The results of the tools that the host carries out itself.

use vstd::prelude::*;

use libmcp::{LifecycleState, RolloutState, SurfaceKind};

use crate::fault::{FaultRecord, FaultStage, Generation};
use crate::json::{Json, JsonView, Members, items_view};
use crate::output::{ToolOutput, ToolOutputView, fallback_detailed_tool_output};
use crate::path::{LocalPath, components, lossy_text};
use crate::protocol::ProjectBinding;
use crate::store::{IssueStore, LayoutView, ProjectStatus};
use crate::telemetry::{HealthReport, MethodRow, TelemetryReport, TotalCounters};
use crate::text::{concat, concat3, decimal, decimal_text, join_lines, joined_lines, same_text, texts};

verus! {

/// What a client is told of a project that was bound.
pub struct ProjectBindStatus {
    pub requested_path: String,
    pub project_root: String,
    pub worktree_root: String,
    pub state_identity: String,
    pub issues_root: String,
    pub state_root: String,
    pub issue_count: usize,
}

/// What a client is told of a project that was bound, in plain values.
pub struct BindStatusView {
    pub requested_path: Seq<char>,
    pub project_root: Seq<char>,
    pub worktree_root: Seq<char>,
    pub state_identity: Seq<char>,
    pub issues_root: Seq<char>,
    pub state_root: Seq<char>,
    pub issue_count: nat,
}

impl View for ProjectBindStatus {
    type V = BindStatusView;

    open spec fn view(&self) -> BindStatusView {
        BindStatusView {
            requested_path: self.requested_path@,
            project_root: self.project_root@,
            worktree_root: self.worktree_root@,
            state_identity: self.state_identity@,
            issues_root: self.issues_root@,
            state_root: self.state_root@,
            issue_count: self.issue_count as nat,
        }
    }
}

/// A project that was bound.
pub struct ResolvedProjectBinding {
    pub binding: ProjectBinding,
    pub status: ProjectBindStatus,
}

/// What a client is told of a project with this layout.
pub open spec fn bind_status(layout: LayoutView, issue_count: nat) -> BindStatusView {
    BindStatusView {
        requested_path: lossy_text(layout.requested_path),
        project_root: lossy_text(layout.project_root),
        worktree_root: lossy_text(layout.worktree_root),
        state_identity: lossy_text(layout.state_identity),
        issues_root: lossy_text(layout.issues_root),
        state_root: lossy_text(layout.state_root),
        issue_count,
    }
}

/// The binding to the project of a store.
pub fn resolve_project_binding(store: &IssueStore, status: ProjectStatus) -> (resolved:
    ResolvedProjectBinding)
    ensures
        resolved.binding@ == store@,
        resolved.status@ == bind_status(store@, status.issue_count as nat),
{
    let layout = store.layout().duplicate();
    let status = ProjectBindStatus {
        requested_path: layout.requested_path.display(),
        project_root: layout.project_root.display(),
        worktree_root: layout.worktree_root.display(),
        state_identity: layout.state_identity.display(),
        issues_root: layout.issues_root.display(),
        state_root: layout.state_root.display(),
        issue_count: status.issue_count,
    };
    ResolvedProjectBinding { binding: ProjectBinding::from_layout(layout), status }
}

/// The binding that a successor goes on with.
pub fn restore_binding(resolved: ResolvedProjectBinding) -> (binding: ProjectBinding)
    ensures
        binding@ == resolved.binding@,
{
    resolved.binding
}

/// The members of an object, and one more where a condition holds.
pub open spec fn with_if(
    members: Map<Seq<char>, JsonView>,
    condition: bool,
    name: Seq<char>,
    value: JsonView,
) -> Map<Seq<char>, JsonView> {
    if condition {
        members.insert(name, value)
    } else {
        members
    }
}

/// One line, where a condition holds.
pub open spec fn line_if(condition: bool, line: Seq<char>) -> Seq<Seq<char>> {
    if condition {
        seq![line]
    } else {
        seq![]
    }
}

/// The concise document of a project that was bound.
pub open spec fn bind_concise(status: BindStatusView) -> JsonView {
    let members = map![
        "project_root"@ => JsonView::Text(status.project_root),
        "issues_root"@ => JsonView::Text(status.issues_root),
        "state_root"@ => JsonView::Text(status.state_root),
        "issue_count"@ => JsonView::Unsigned(status.issue_count),
    ];
    let members = with_if(
        members,
        status.worktree_root != status.project_root,
        "worktree_root"@,
        JsonView::Text(status.worktree_root),
    );
    let members = with_if(
        members,
        status.state_identity != status.project_root,
        "state_identity"@,
        JsonView::Text(status.state_identity),
    );
    JsonView::Object(
        with_if(
            members,
            status.requested_path != status.project_root,
            "requested_path"@,
            JsonView::Text(status.requested_path),
        ),
    )
}

/// The full document of a project that was bound.
pub open spec fn bind_full(status: BindStatusView) -> JsonView {
    JsonView::Object(
        map![
            "requested_path"@ => JsonView::Text(status.requested_path),
            "project_root"@ => JsonView::Text(status.project_root),
            "worktree_root"@ => JsonView::Text(status.worktree_root),
            "state_identity"@ => JsonView::Text(status.state_identity),
            "issues_root"@ => JsonView::Text(status.issues_root),
            "state_root"@ => JsonView::Text(status.state_root),
            "issue_count"@ => JsonView::Unsigned(status.issue_count),
        ],
    )
}

/// The lines on a project that was bound.
pub open spec fn bind_lines(status: BindStatusView) -> Seq<Seq<char>> {
    seq!["bound project "@ + status.project_root] + line_if(
        status.worktree_root != status.project_root,
        "worktree: "@ + status.worktree_root,
    ) + line_if(
        status.state_identity != status.project_root,
        "identity: "@ + status.state_identity,
    ) + seq![
        "issues: "@ + status.issues_root,
        "state: "@ + status.state_root,
        "issues tracked: "@ + decimal_text(status.issue_count),
    ]
}

/// The result of binding a project.
pub open spec fn bind_output(status: BindStatusView) -> ToolOutputView {
    ToolOutputView {
        concise: bind_concise(status),
        full: bind_full(status),
        concise_text: joined_lines(bind_lines(status)),
        full_text: None,
    }
}

/// The result of binding a project.
pub fn project_bind_output(status: &ProjectBindStatus, generation: Generation) -> (output: Result<
    ToolOutput,
    FaultRecord,
>)
    ensures
        output matches Ok(output) && output@ == bind_output(status@),
{
    let other_worktree = !same_text(status.worktree_root.as_str(), status.project_root.as_str());
    let other_identity = !same_text(status.state_identity.as_str(), status.project_root.as_str());
    let other_path = !same_text(status.requested_path.as_str(), status.project_root.as_str());
    let issue_count = status.issue_count as u64;
    let mut concise = Members::new();
    concise.put_text("project_root", status.project_root.as_str());
    concise.put_text("issues_root", status.issues_root.as_str());
    concise.put_text("state_root", status.state_root.as_str());
    concise.put("issue_count", Json::Unsigned(issue_count));
    if other_worktree {
        concise.put_text("worktree_root", status.worktree_root.as_str());
    }
    if other_identity {
        concise.put_text("state_identity", status.state_identity.as_str());
    }
    if other_path {
        concise.put_text("requested_path", status.requested_path.as_str());
    }
    let mut full = Members::new();
    full.put_text("requested_path", status.requested_path.as_str());
    full.put_text("project_root", status.project_root.as_str());
    full.put_text("worktree_root", status.worktree_root.as_str());
    full.put_text("state_identity", status.state_identity.as_str());
    full.put_text("issues_root", status.issues_root.as_str());
    full.put_text("state_root", status.state_root.as_str());
    full.put("issue_count", Json::Unsigned(issue_count));
    let mut lines: Vec<String> = Vec::new();
    lines.push(concat("bound project ", status.project_root.as_str()));
    if other_worktree {
        lines.push(concat("worktree: ", status.worktree_root.as_str()));
    }
    if other_identity {
        lines.push(concat("identity: ", status.state_identity.as_str()));
    }
    lines.push(concat("issues: ", status.issues_root.as_str()));
    lines.push(concat("state: ", status.state_root.as_str()));
    lines.push(concat("issues tracked: ", decimal(issue_count).as_str()));
    assert(texts(lines@) =~= bind_lines(status@));
    fallback_detailed_tool_output(
        concise.object(),
        full.object(),
        join_lines(&lines),
        None,
        SurfaceKind::Mutation,
        generation,
        FaultStage::Host,
        "tools/call:project.bind",
    )
}

/// The worktree of a binding is not the project root.
pub open spec fn linked_worktree(binding: LayoutView) -> bool {
    components(binding.worktree_root) != components(binding.project_root)
}

/// The concise document on the health of the host.
pub open spec fn health_concise(
    health: HealthReport,
    binding: Option<LayoutView>,
    worker_alive: bool,
    launch_path_stable: bool,
) -> JsonView {
    let members = map![
        "ready"@ => JsonView::Bool(health.state is Ready),
        "bound"@ => JsonView::Bool(binding is Some),
        "worker_generation"@ => JsonView::Unsigned(health.generation as nat),
        "worker_alive"@ => JsonView::Bool(worker_alive),
        "rollout_pending"@ => JsonView::Bool(health.rollout is Pending),
        "launch_path_stable"@ => JsonView::Bool(launch_path_stable),
    ];
    JsonView::Object(
        match binding {
            None => members,
            Some(binding) => with_if(
                members.insert(
                    "project_root"@,
                    JsonView::Text(lossy_text(binding.project_root)),
                ).insert("issues_root"@, JsonView::Text(lossy_text(binding.issues_root))),
                linked_worktree(binding),
                "worktree_root"@,
                JsonView::Text(lossy_text(binding.worktree_root)),
            ),
        },
    )
}

/// The document on a binding.
pub open spec fn binding_json(binding: Option<LayoutView>) -> JsonView {
    match binding {
        None => JsonView::Null,
        Some(binding) => JsonView::Object(
            map![
                "requested_path"@ => JsonView::Text(lossy_text(binding.requested_path)),
                "project_root"@ => JsonView::Text(lossy_text(binding.project_root)),
                "worktree_root"@ => JsonView::Text(lossy_text(binding.worktree_root)),
                "state_identity"@ => JsonView::Text(lossy_text(binding.state_identity)),
                "issues_root"@ => JsonView::Text(lossy_text(binding.issues_root)),
                "state_root"@ => JsonView::Text(lossy_text(binding.state_root)),
            ],
        ),
    }
}

/// The full document on the health of the host.
pub open spec fn health_full(
    health: HealthReport,
    binding: Option<LayoutView>,
    worker_alive: bool,
    launch_path_stable: bool,
) -> JsonView {
    JsonView::Object(
        map![
            "health"@ => health.document@,
            "binding"@ => binding_json(binding),
            "worker_alive"@ => JsonView::Bool(worker_alive),
            "launch_path_stable"@ => JsonView::Bool(launch_path_stable),
        ],
    )
}

/// The lines on the health of the host.
pub open spec fn health_lines(
    health: HealthReport,
    binding: Option<LayoutView>,
    worker_alive: bool,
    launch_path_stable: bool,
) -> Seq<Seq<char>> {
    let state = if health.state is Ready {
        "ready"@
    } else {
        "not-ready"@
    };
    let bound = if binding is Some {
        "bound"@
    } else {
        "unbound"@
    };
    let project = match binding {
        None => seq![],
        Some(binding) => seq!["project: "@ + lossy_text(binding.project_root)] + line_if(
            linked_worktree(binding),
            "worktree: "@ + lossy_text(binding.worktree_root),
        ) + seq!["issues: "@ + lossy_text(binding.issues_root)],
    };
    let alive = if worker_alive {
        " alive"@
    } else {
        " dead"@
    };
    let stable = if launch_path_stable {
        "stable"@
    } else {
        "unstable"@
    };
    let pending = if health.rollout is Pending {
        " rollout-pending"@
    } else {
        ""@
    };
    seq![state + " | "@ + bound] + project + seq![
        "worker: gen "@ + decimal_text(health.generation as nat) + alive,
        "binary: "@ + stable + pending,
    ]
}

/// The result of asking for the health of the host.
pub open spec fn health_output(
    health: HealthReport,
    binding: Option<LayoutView>,
    worker_alive: bool,
    launch_path_stable: bool,
) -> ToolOutputView {
    ToolOutputView {
        concise: health_concise(health, binding, worker_alive, launch_path_stable),
        full: health_full(health, binding, worker_alive, launch_path_stable),
        concise_text: joined_lines(health_lines(health, binding, worker_alive, launch_path_stable)),
        full_text: None,
    }
}

/// The layout of an optional binding.
pub open spec fn binding_view(binding: Option<ProjectBinding>) -> Option<LayoutView> {
    match binding {
        Some(binding) => Some(binding@),
        None => None,
    }
}

fn put_path(members: &mut Members, name: &str, path: &LocalPath)
    ensures
        final(members)@ == old(members)@.insert(name@, JsonView::Text(lossy_text(path@))),
{
    let text = path.display();
    members.put_text(name, text.as_str());
}

fn path_line(label: &str, path: &LocalPath) -> (line: String)
    ensures
        line@ == label@ + lossy_text(path@),
{
    let text = path.display();
    concat(label, text.as_str())
}

/// The result of asking for the health of the host.
pub fn system_health_output(
    health: HealthReport,
    binding: &Option<ProjectBinding>,
    worker_alive: bool,
    launch_path_stable: bool,
    generation: Generation,
) -> (output: Result<ToolOutput, FaultRecord>)
    ensures
        output matches Ok(output) && output@ == health_output(
            health,
            binding_view(*binding),
            worker_alive,
            launch_path_stable,
        ),
{
    let ready = match health.state {
        LifecycleState::Ready => true,
        _ => false,
    };
    let rollout_pending = match health.rollout {
        RolloutState::Pending => true,
        _ => false,
    };
    let worker_generation = health.generation;
    let mut concise = Members::new();
    concise.put("ready", Json::Bool(ready));
    concise.put("bound", Json::Bool(binding.is_some()));
    concise.put("worker_generation", Json::Unsigned(worker_generation));
    concise.put("worker_alive", Json::Bool(worker_alive));
    concise.put("rollout_pending", Json::Bool(rollout_pending));
    concise.put("launch_path_stable", Json::Bool(launch_path_stable));
    let mut lines: Vec<String> = Vec::new();
    lines.push(
        concat3(
            if ready {
                "ready"
            } else {
                "not-ready"
            },
            " | ",
            if binding.is_some() {
                "bound"
            } else {
                "unbound"
            },
        ),
    );
    let mut bound = Json::Null;
    if let Some(binding) = binding {
        let linked = !binding.worktree_root.same_path(&binding.project_root);
        put_path(&mut concise, "project_root", &binding.project_root);
        put_path(&mut concise, "issues_root", &binding.issues_root);
        if linked {
            put_path(&mut concise, "worktree_root", &binding.worktree_root);
        }
        let mut members = Members::new();
        put_path(&mut members, "requested_path", &binding.requested_path);
        put_path(&mut members, "project_root", &binding.project_root);
        put_path(&mut members, "worktree_root", &binding.worktree_root);
        put_path(&mut members, "state_identity", &binding.state_identity);
        put_path(&mut members, "issues_root", &binding.issues_root);
        put_path(&mut members, "state_root", &binding.state_root);
        bound = members.object();
        lines.push(path_line("project: ", &binding.project_root));
        if linked {
            lines.push(path_line("worktree: ", &binding.worktree_root));
        }
        lines.push(path_line("issues: ", &binding.issues_root));
    }
    lines.push(
        concat3(
            "worker: gen ",
            decimal(worker_generation).as_str(),
            if worker_alive {
                " alive"
            } else {
                " dead"
            },
        ),
    );
    lines.push(
        concat3(
            "binary: ",
            if launch_path_stable {
                "stable"
            } else {
                "unstable"
            },
            if rollout_pending {
                " rollout-pending"
            } else {
                ""
            },
        ),
    );
    assert(texts(lines@) =~= health_lines(
        health,
        binding_view(*binding),
        worker_alive,
        launch_path_stable,
    ));
    let mut full = Members::new();
    full.put("health", health.document);
    full.put("binding", bound);
    full.put("worker_alive", Json::Bool(worker_alive));
    full.put("launch_path_stable", Json::Bool(launch_path_stable));
    fallback_detailed_tool_output(
        concise.object(),
        full.object(),
        join_lines(&lines),
        None,
        SurfaceKind::Ops,
        generation,
        FaultStage::Host,
        "tools/call:system.health",
    )
}

/// How many methods are shown as the busiest.
pub const HOT_METHODS: usize = 6;

/// The busiest of some ranked methods.
pub open spec fn hot(rows: Seq<MethodRow>) -> Seq<MethodRow> {
    if rows.len() > HOT_METHODS {
        rows.take(HOT_METHODS as int)
    } else {
        rows
    }
}

/// The concise document of one method.
pub open spec fn row_json(row: MethodRow) -> JsonView {
    JsonView::Object(
        map![
            "method"@ => JsonView::Text(row.method@),
            "requests"@ => JsonView::Unsigned(row.requests as nat),
            "errors"@ => JsonView::Unsigned(row.errors as nat),
            "response_errors"@ => JsonView::Unsigned(row.response_errors as nat),
            "recovery_errors"@ => JsonView::Unsigned(row.recovery_errors as nat),
            "recovery_faults"@ => JsonView::Unsigned(row.recovery_faults as nat),
            "retries"@ => JsonView::Unsigned(row.retries as nat),
        ],
    )
}

/// The concise document on the telemetry of the host.
pub open spec fn telemetry_concise(
    totals: TotalCounters,
    restarts: u64,
    rows: Seq<MethodRow>,
    host_rollouts: u64,
) -> JsonView {
    JsonView::Object(
        map![
            "requests"@ => JsonView::Unsigned(totals.requests),
            "successes"@ => JsonView::Unsigned(totals.successes),
            "errors"@ => JsonView::Unsigned(totals.errors),
            "response_errors"@ => JsonView::Unsigned(totals.response_errors),
            "recovery_errors"@ => JsonView::Unsigned(totals.recovery_errors),
            "recovery_faults"@ => JsonView::Unsigned(totals.recovery_faults),
            "retries"@ => JsonView::Unsigned(totals.retries),
            "worker_restarts"@ => JsonView::Unsigned(restarts as nat),
            "host_rollouts"@ => JsonView::Unsigned(host_rollouts as nat),
            "hot_methods"@ => JsonView::Array(
                hot(rows).map_values(|row: MethodRow| row_json(row)),
            ),
        ],
    )
}

/// The full document on the telemetry of the host.
pub open spec fn telemetry_full(document: JsonView, host_rollouts: u64) -> JsonView {
    JsonView::Object(
        map![
            "telemetry"@ => document,
            "host_rollouts"@ => JsonView::Unsigned(host_rollouts as nat),
        ],
    )
}

/// The line on the totals.
pub open spec fn totals_line(totals: TotalCounters) -> Seq<char> {
    "requests="@ + decimal_text(totals.requests) + " success="@ + decimal_text(totals.successes)
        + " error="@ + decimal_text(totals.errors) + " response_error="@ + decimal_text(
        totals.response_errors,
    ) + " recovery_error="@ + decimal_text(totals.recovery_errors) + " recovery_fault="@
        + decimal_text(totals.recovery_faults) + " retry="@ + decimal_text(totals.retries)
}

/// The line on one method.
pub open spec fn row_line(row: MethodRow) -> Seq<char> {
    row.method@ + " req="@ + decimal_text(row.requests as nat) + " err="@ + decimal_text(
        row.errors as nat,
    ) + " recovery="@ + decimal_text(row.recovery_faults as nat) + " retry="@ + decimal_text(
        row.retries as nat,
    )
}

/// The lines on the telemetry of the host.
pub open spec fn telemetry_lines(
    totals: TotalCounters,
    restarts: u64,
    rows: Seq<MethodRow>,
    host_rollouts: u64,
) -> Seq<Seq<char>> {
    seq![
        totals_line(totals),
        "worker_restarts="@ + decimal_text(restarts as nat) + " host_rollouts="@ + decimal_text(
            host_rollouts as nat,
        ),
    ] + line_if(rows.len() > 0, "hot methods:"@) + hot(rows).map_values(
        |row: MethodRow| row_line(row),
    )
}

/// The result of asking for the telemetry of the host.
pub open spec fn telemetry_output(
    report: TelemetryReport,
    rows: Seq<MethodRow>,
    host_rollouts: u64,
) -> ToolOutputView {
    ToolOutputView {
        concise: telemetry_concise(report.totals@, report.restarts, rows, host_rollouts),
        full: telemetry_full(report.document@, host_rollouts),
        concise_text: joined_lines(
            telemetry_lines(report.totals@, report.restarts, rows, host_rollouts),
        ),
        full_text: None,
    }
}

fn put_count(members: &mut Members, name: &str, count: u64)
    ensures
        final(members)@ == old(members)@.insert(name@, JsonView::Unsigned(count as nat)),
{
    members.put(name, Json::Unsigned(count));
}

/// A text, a label and a count, one after the other.
fn labelled(text: &str, label: &str, count: u64) -> (longer: String)
    ensures
        longer@ == text@ + label@ + decimal_text(count as nat),
{
    concat3(text, label, decimal(count).as_str())
}

fn method_row_json(row: &MethodRow) -> (json: Json)
    ensures
        json@ == row_json(*row),
{
    let mut members = Members::new();
    members.put_text("method", row.method.as_str());
    put_count(&mut members, "requests", row.requests);
    put_count(&mut members, "errors", row.errors);
    put_count(&mut members, "response_errors", row.response_errors);
    put_count(&mut members, "recovery_errors", row.recovery_errors);
    put_count(&mut members, "recovery_faults", row.recovery_faults);
    put_count(&mut members, "retries", row.retries);
    members.object()
}

fn method_row_line(row: &MethodRow) -> (line: String)
    ensures
        line@ == row_line(*row),
{
    let line = labelled(row.method.as_str(), " req=", row.requests);
    let line = labelled(line.as_str(), " err=", row.errors);
    let line = labelled(line.as_str(), " recovery=", row.recovery_faults);
    labelled(line.as_str(), " retry=", row.retries)
}

/// The result of asking for the telemetry of the host.
pub fn system_telemetry_output(
    report: TelemetryReport,
    ranked_methods: &Vec<MethodRow>,
    host_rollouts: u64,
    generation: Generation,
) -> (output: Result<ToolOutput, FaultRecord>)
    ensures
        output matches Ok(output) && output@ == telemetry_output(
            report,
            ranked_methods@,
            host_rollouts,
        ),
{
    let totals = report.totals;
    let line = concat("requests=", decimal(totals.requests).as_str());
    let line = labelled(line.as_str(), " success=", totals.successes);
    let line = labelled(line.as_str(), " error=", totals.errors);
    let line = labelled(line.as_str(), " response_error=", totals.response_errors);
    let line = labelled(line.as_str(), " recovery_error=", totals.recovery_errors);
    let line = labelled(line.as_str(), " recovery_fault=", totals.recovery_faults);
    let line = labelled(line.as_str(), " retry=", totals.retries);
    let restarts = concat("worker_restarts=", decimal(report.restarts).as_str());
    let mut lines: Vec<String> = Vec::new();
    lines.push(line);
    lines.push(labelled(restarts.as_str(), " host_rollouts=", host_rollouts));
    if ranked_methods.len() > 0 {
        lines.push("hot methods:".to_owned());
    }
    let ghost head = texts(lines@);
    assert(head =~= telemetry_lines(
        report.totals@,
        report.restarts,
        seq![],
        host_rollouts,
    ) + line_if(ranked_methods@.len() > 0, "hot methods:"@));
    let ghost shown = hot(ranked_methods@);
    let mut items: Vec<Json> = Vec::new();
    let mut at: usize = 0;
    while at < ranked_methods.len() && at < HOT_METHODS
        invariant
            at <= ranked_methods.len(),
            at <= HOT_METHODS,
            shown == hot(ranked_methods@),
            items@.len() == at,
            forall|i: int| 0 <= i < at ==> (#[trigger] items@[i])@ == row_json(shown[i]),
            texts(lines@) == head + shown.take(at as int).map_values(
                |row: MethodRow| row_line(row),
            ),
        decreases ranked_methods.len() - at,
    {
        let ghost before = texts(lines@);
        items.push(method_row_json(&ranked_methods[at]));
        lines.push(method_row_line(&ranked_methods[at]));
        assert(shown[at as int] == ranked_methods@[at as int]);
        assert(texts(lines@) =~= before.push(row_line(shown[at as int])));
        assert(shown.take(at as int + 1) =~= shown.take(at as int).push(shown[at as int]));
        assert(texts(lines@) =~= head + shown.take(at as int + 1).map_values(
            |row: MethodRow| row_line(row),
        ));
        at = at + 1;
    }
    assert(shown.take(at as int) =~= shown);
    assert(items_view(items@) =~= shown.map_values(|row: MethodRow| row_json(row)));
    assert(texts(lines@) =~= telemetry_lines(
        report.totals@,
        report.restarts,
        ranked_methods@,
        host_rollouts,
    ));
    let mut concise = Members::new();
    put_count(&mut concise, "requests", totals.requests);
    put_count(&mut concise, "successes", totals.successes);
    put_count(&mut concise, "errors", totals.errors);
    put_count(&mut concise, "response_errors", totals.response_errors);
    put_count(&mut concise, "recovery_errors", totals.recovery_errors);
    put_count(&mut concise, "recovery_faults", totals.recovery_faults);
    put_count(&mut concise, "retries", totals.retries);
    put_count(&mut concise, "worker_restarts", report.restarts);
    put_count(&mut concise, "host_rollouts", host_rollouts);
    concise.put("hot_methods", Json::array(items));
    let mut full = Members::new();
    full.put("telemetry", report.document);
    put_count(&mut full, "host_rollouts", host_rollouts);
    fallback_detailed_tool_output(
        concise.object(),
        full.object(),
        join_lines(&lines),
        None,
        SurfaceKind::Ops,
        generation,
        FaultStage::Host,
        "tools/call:system.telemetry",
    )
}

} // verus!
