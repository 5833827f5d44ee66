//! Whole sessions: a host and a worker over files in memory.

use std::collections::BTreeMap;

use jira_at_home::anchor::{
    CommonProbe, CommonStep, MarkerProbe, MarkerStep, ProjectAnchor, ProjectProbe,
    resolve_project_anchor,
};
use jira_at_home::fault::{FaultRecord, FaultStage, Generation};
use jira_at_home::host::{
    ArgumentShape, BindReport, Handoff, HealthSight, HostRuntime, HostSetup, HostStep, RolloutStep,
    Settled, ToolCompletion, path_to_bind,
};
use jira_at_home::issue::IssueCategory;
use jira_at_home::json::Json;
use jira_at_home::path::LocalPath;
use jira_at_home::protocol::{HostStateSeed, WorkerOperation, WorkerOutcome};
use jira_at_home::reports::{ResolvedProjectBinding, resolve_project_binding, restore_binding};
use jira_at_home::service::{IssueArguments, WorkerService, WorkerStep, generation_from_wire};
use jira_at_home::store::{
    DeleteProbe, EntryProbe, IssueStore, ProjectLayout, ReadProbe, Timestamp,
};
use jira_at_home::supervisor::{ReplyOutcome, SendOutcome, SpawnOutcome};
use serde_json::Value;

fn value(json: &Json) -> Value {
    json.to_value()
}

fn json(value: &Value) -> Json {
    Json::from_value(value)
}

fn parsed(text: &str) -> Value {
    serde_json::from_str(text).unwrap()
}

fn text_of(path: &LocalPath) -> String {
    path.display()
}

const STATE_DIR: &str = "/home/user/.local/state";

/// Files in memory, and a worker that works on them.
struct World {
    files: BTreeMap<String, String>,
    git_markers: Vec<String>,
    worker: Option<WorkerService>,
    asked: Option<WorkerOperation>,
    deaf_workers: u32,
    spawns: Vec<u64>,
    sends: Vec<Value>,
    rollout_pending: Result<bool, String>,
    clock: i64,
}

impl World {
    fn new() -> Self {
        World {
            files: BTreeMap::new(),
            git_markers: Vec::new(),
            worker: None,
            asked: None,
            deaf_workers: 0,
            spawns: Vec::new(),
            sends: Vec::new(),
            rollout_pending: Ok(false),
            clock: 0,
        }
    }

    fn now(&mut self) -> Timestamp {
        self.clock += 1;
        Timestamp { seconds: self.clock, nanos: 0 }
    }

    fn entries(&mut self, layout: &ProjectLayout, category: IssueCategory) -> Vec<EntryProbe> {
        let root = text_of(&layout.issue_category_root(category));
        self.files
            .keys()
            .filter(|path| path.starts_with(&format!("{root}/")))
            .map(|path| EntryProbe::Found {
                path: LocalPath::from_text(path),
                is_file: true,
                modified: Ok(Timestamp { seconds: 9, nanos: 0 }),
            })
            .collect()
    }

    fn anchor(&self, requested: &LocalPath) -> ProjectAnchor {
        let probe = ProjectProbe::Directory(requested.duplicate());
        let mut search = resolve_project_anchor(requested, probe).ok().unwrap();
        loop {
            let marker = search.marker();
            let probe = if self.git_markers.contains(&text_of(&marker)) {
                MarkerProbe::Directory(Ok(marker))
            } else {
                MarkerProbe::Absent
            };
            match search.observe(probe) {
                MarkerStep::Search(next) => search = next,
                MarkerStep::Common(common) => match common.observe(CommonProbe::Missing) {
                    CommonStep::Found(anchor) => return anchor,
                    _ => panic!("the common directory is the one inside the worktree"),
                },
                MarkerStep::Found(anchor) => return anchor,
                _ => panic!("there are no git files here"),
            }
        }
    }

    fn layout(&self, requested: &LocalPath) -> ProjectLayout {
        let anchor = self.anchor(requested);
        let base = LocalPath::from_text(STATE_DIR);
        ProjectLayout::bind(requested.duplicate(), anchor, &base)
    }

    fn resolve(&mut self, requested: &LocalPath) -> ResolvedProjectBinding {
        let layout = self.layout(requested);
        let features = self.entries(&layout, IssueCategory::Feature);
        let bugs = self.entries(&layout, IssueCategory::Bug);
        let store = IssueStore::bind(layout);
        let status = store.status(Ok(features), Ok(bugs)).ok().unwrap();
        resolve_project_binding(&store, status)
    }

    fn work(&mut self, operation: WorkerOperation) -> WorkerOutcome {
        let service = self.worker.take().unwrap();
        let outcome = match service.execute(operation) {
            WorkerStep::Finish(outcome) => outcome,
            WorkerStep::Explain(run, shape, _) => {
                let detail = match shape {
                    IssueArguments::Save => "expected category, slug and body",
                    IssueArguments::Key => "expected category and slug",
                };
                service.explained(run, detail.to_owned())
            },
            WorkerStep::Save(run, plan) => {
                let body = String::from_utf8(plan.contents().to_vec()).unwrap();
                let existed = self.files.insert(text_of(&plan.path), body).is_some();
                let now = self.now();
                service.saved(run, plan, existed, Ok(now))
            },
            WorkerStep::List(run) => {
                let layout = service.store().layout().duplicate();
                let features = self.entries(&layout, IssueCategory::Feature);
                let bugs = self.entries(&layout, IssueCategory::Bug);
                service.listed(run, Ok(features), Ok(bugs))
            },
            WorkerStep::Read(run, key, path) => {
                let probe = match self.files.get(&text_of(&path)) {
                    None => ReadProbe::Missing,
                    Some(body) => ReadProbe::Text {
                        body: body.clone(),
                        modified: Ok(Timestamp { seconds: 9, nanos: 0 }),
                    },
                };
                service.read(run, key, probe)
            },
            WorkerStep::Delete(run, key, path) => {
                let probe = match self.files.get(&text_of(&path)) {
                    None => DeleteProbe::Missing,
                    Some(body) => DeleteProbe::Found(body.len() as u64),
                };
                match service.delete(&run, key, probe) {
                    Err(outcome) => outcome,
                    Ok(plan) => {
                        assert!(self.files.remove(&text_of(&plan.path)).is_some());
                        let now = self.now();
                        service.deleted(run, plan, Ok(now))
                    },
                }
            },
        };
        self.worker = Some(service);
        outcome
    }
}

struct Session {
    host: Option<HostRuntime>,
    world: World,
    last_completion: Option<ToolCompletion>,
}

impl Session {
    fn start(project: Option<&str>, force: Option<&str>, crash: Option<&str>) -> Self {
        Self::start_in(World::new(), project, force, crash)
    }

    fn start_in(
        mut world: World,
        project: Option<&str>,
        force: Option<&str>,
        crash: Option<&str>,
    ) -> Self {
        let path = path_to_bind(&None, project.map(LocalPath::from_text));
        let binding = path.map(|path| world.resolve(&path).binding);
        let setup = HostSetup {
            executable: LocalPath::from_text("/usr/bin/jira-at-home"),
            binding,
            force_rollout_key: force.map(str::to_owned),
            crash_once_key: crash.map(str::to_owned),
            now_unix_ms: 1000,
        };
        let host = HostRuntime::new(setup, None).ok();
        Session { host, world, last_completion: None }
    }

    fn run(&mut self, mut step: HostStep) -> Option<Value> {
        loop {
            step = match step {
                HostStep::Silent(host) => {
                    self.host = Some(host);
                    return None;
                },
                HostStep::Answer(host, answer) => {
                    self.host = Some(host);
                    return Some(value(&answer));
                },
                HostStep::Settle(end) => {
                    if !end.worker_attached() {
                        self.world.worker = None;
                    }
                    match end.settle(7) {
                        Settled::Done { host, response, completion } => {
                            self.host = Some(host);
                            self.last_completion = completion;
                            return response.as_ref().map(value);
                        },
                        Settled::Halt => panic!("the host halts"),
                    }
                },
                HostStep::Explain(task) => {
                    let detail = match task.shape() {
                        ArgumentShape::ToolCall => "missing field `name`",
                        ArgumentShape::ProjectBind => "missing field `path`",
                    };
                    task.explained(detail.to_owned())
                },
                HostStep::Bind(task) => {
                    if task.path().contains("missing") {
                        let detail = format!("project path `{}` does not exist", task.path());
                        task.bound(BindReport::Unresolved(detail))
                    } else {
                        let path = LocalPath::from_text(task.path());
                        let resolved = self.world.resolve(&path);
                        task.bound(BindReport::Resolved(resolved, Ok(())))
                    }
                },
                HostStep::Health(task) => {
                    let worker_running = self.world.worker.is_some();
                    task.health(HealthSight {
                        rollout_pending: self.world.rollout_pending.clone(),
                        worker_running,
                        launch_path_stable: true,
                        now_unix_ms: 1500,
                    })
                },
                HostStep::Telemetry(task) => {
                    let worker_running = self.world.worker.is_some();
                    task.telemetry(worker_running, 1500)
                },
                HostStep::Probe(task) => {
                    let running = self.world.worker.is_some();
                    task.observed(running)
                },
                HostStep::Spawn(task) => {
                    let plan = task.plan();
                    let generation = plan.generation;
                    let layout = self.world.layout(&plan.project_root);
                    self.world.spawns.push(generation.get());
                    self.world.worker = Some(WorkerService::new(
                        IssueStore::bind(layout),
                        generation_from_wire(generation.get()),
                    ));
                    task.spawned(SpawnOutcome::Started)
                },
                HostStep::Send(task) => {
                    let request = value(&task.request());
                    assert_eq!(request["kind"], "execute");
                    assert_eq!(request["operation"]["kind"], "call_tool");
                    self.world.asked = Some(WorkerOperation {
                        name: request["operation"]["name"].as_str().unwrap().to_owned(),
                        arguments: json(&request["operation"]["arguments"]),
                    });
                    self.world.sends.push(request);
                    task.sent(SendOutcome::Sent)
                },
                HostStep::Read(task) => {
                    if self.world.deaf_workers > 0 {
                        self.world.deaf_workers -= 1;
                        self.world.worker = None;
                        task.answered(ReplyOutcome::Closed)
                    } else {
                        let operation = self.world.asked.take().unwrap();
                        let outcome = self.world.work(operation);
                        task.answered(ReplyOutcome::Answered(outcome))
                    }
                },
                HostStep::Halt => panic!("the host halts"),
            };
        }
    }

    fn message(&mut self, text: &str) -> Option<Value> {
        let host = self.host.take().unwrap();
        let step = host.handle_payload(text.as_bytes().to_vec());
        self.run(step)
    }

    fn initialize(&mut self) -> Value {
        self.message(
            r#"{"jsonrpc":"2.0","id":1,"method":"initialize","params":{"protocolVersion":"2025-11-25","capabilities":{},"clientInfo":{"name":"mcp-hardening-test","version":"0"}}}"#,
        )
        .unwrap()
    }

    fn notify_initialized(&mut self) {
        assert!(self.message(r#"{"jsonrpc":"2.0","method":"notifications/initialized"}"#).is_none());
    }

    fn open(&mut self) {
        let _ = self.initialize();
        self.notify_initialized();
    }

    fn call(&mut self, id: u64, name: &str, arguments: &str) -> Value {
        self.message(&format!(
            r#"{{"jsonrpc":"2.0","id":{id},"method":"tools/call","params":{{"name":"{name}","arguments":{arguments}}}}}"#
        ))
        .unwrap()
    }

    fn roll_over(self, force: Option<&str>, crash: Option<&str>) -> Self {
        let Session { host, mut world, .. } = self;
        let host = host.unwrap();
        let seed = host.roll_forward();
        let restored = Some(seed);
        let path = path_to_bind(&restored, None);
        let binding = path.map(|path| restore_binding(world.resolve(&path)));
        world.worker = None;
        let setup = HostSetup {
            executable: LocalPath::from_text("/usr/bin/jira-at-home"),
            binding,
            force_rollout_key: force.map(str::to_owned),
            crash_once_key: crash.map(str::to_owned),
            now_unix_ms: 2000,
        };
        let host = HostRuntime::new(setup, restored).ok();
        assert!(host.is_some());
        Session { host, world, last_completion: None }
    }
}

fn content(response: &Value) -> &Value {
    assert_eq!(response["result"]["isError"], Value::Bool(false), "{response}");
    &response["result"]["structuredContent"]
}

fn fault(response: &Value) -> &Value {
    assert_eq!(response["result"]["isError"], Value::Bool(true), "{response}");
    &response["result"]["structuredContent"]
}

#[test]
fn cold_start_exposes_basic_toolset_and_binding_surface() {
    let mut world = World::new();
    world.git_markers.push("/work/cold_start/.git".to_owned());
    let mut session = Session::start_in(world, None, None, None);
    let initialize = session.initialize();
    assert_eq!(initialize["result"]["protocolVersion"], "2025-11-25");
    session.notify_initialized();

    let tools =
        session.message(r#"{"jsonrpc":"2.0","id":2,"method":"tools/list","params":{}}"#).unwrap();
    let names: Vec<&str> = tools["result"]["tools"]
        .as_array()
        .unwrap()
        .iter()
        .map(|tool| tool["name"].as_str().unwrap())
        .collect();
    assert!(names.contains(&"project.bind"));
    assert!(names.contains(&"issue.save"));
    assert!(names.contains(&"issue.list"));
    assert!(names.contains(&"issue.read"));
    assert!(names.contains(&"system.health"));
    assert!(names.contains(&"system.telemetry"));

    let health = session.call(3, "system.health", "{}");
    assert_eq!(content(&health)["bound"], Value::Bool(false));

    let bind = session.call(4, "project.bind", r#"{"path":"/work/cold_start/nested/deeper"}"#);
    assert_eq!(content(&bind)["project_root"], "/work/cold_start");
    assert_eq!(content(&bind)["issue_count"], 0);

    let rebound = session.call(5, "system.health", "{}");
    assert_eq!(content(&rebound)["bound"], Value::Bool(true));
}

#[test]
fn save_list_and_read_roundtrip_through_state_backed_issue_dir() {
    let mut session = Session::start(None, None, None);
    session.open();
    let bind = session.call(2, "project.bind", r#"{"path":"/work/roundtrip"}"#);
    let state_root = content(&bind)["state_root"].as_str().unwrap().to_owned();
    assert_eq!(state_root, "/home/user/.local/state/jira_at_home/projects/work/roundtrip");

    let body = "# Feral Machine\n\nMake note parking brutally small.";
    let save = session.call(
        3,
        "issue.save",
        r##"{"category":"feature","slug":"feral-machine","body":"# Feral Machine\n\nMake note parking brutally small."}"##,
    );
    assert_eq!(content(&save)["path"], "issues/feature/feral-machine.md");
    assert_eq!(content(&save)["status"], "created");

    let saved_path = format!("{state_root}/issues/feature/feral-machine.md");
    assert_eq!(session.world.files.get(&saved_path).unwrap(), body);
    assert!(!session.world.files.keys().any(|path| path.starts_with("/work/roundtrip")));

    let list = session.call(4, "issue.list", "{}");
    assert_eq!(content(&list)["count"], 1);
    assert_eq!(content(&list)["issues"][0]["slug"], "feral-machine");
    assert!(content(&list)["issues"][0].get("body").is_none());

    let read = session.call(
        5,
        "issue.read",
        r#"{"category":"feature","slug":"feral-machine","render":"json","detail":"full"}"#,
    );
    assert_eq!(content(&read)["body"], body);
    assert_eq!(content(&read)["path"], "issues/feature/feral-machine.md");

    let completion = session.last_completion.as_ref().unwrap();
    assert_eq!(completion.meta.tool_name, "issue.read");
    assert_eq!(completion.latency_ms, 7);
    assert!(completion.error.is_none());
}

#[test]
fn convergent_issue_list_survives_worker_crash() {
    let mut session = Session::start(Some("/work/retry"), None, Some("tools/call:issue.list"));
    session.open();
    let save = session.call(
        2,
        "issue.save",
        r#"{"category":"feature","slug":"one-shot","body":"body"}"#,
    );
    let _ = content(&save);

    let list = session.call(3, "issue.list", "{}");
    assert_eq!(content(&list)["count"], 1);
    assert_eq!(session.last_completion.as_ref().unwrap().replay_attempts, 1);

    let telemetry =
        session.call(4, "system.telemetry", r#"{"render":"json","detail":"full"}"#);
    assert_eq!(content(&telemetry)["telemetry"]["totals"]["retry_count"], 1);
    assert!(content(&telemetry)["telemetry"]["restart_count"].as_u64().unwrap() >= 1);

    // The crash comes once.
    let again = session.call(5, "issue.list", "{}");
    assert_eq!(content(&again)["count"], 1);
    assert_eq!(session.world.spawns, vec![1, 2]);
}

#[test]
fn host_rollout_reexec_preserves_session_and_binding() {
    let mut session = Session::start(Some("/work/rollout"), Some("tools/call:issue.list"), None);
    session.open();
    let save = session.call(
        2,
        "issue.save",
        r#"{"category":"bug","slug":"after-rollout","body":"body"}"#,
    );
    let _ = content(&save);
    let list = session.call(3, "issue.list", "{}");
    assert_eq!(content(&list)["count"], 1);

    // The rollout that was asked for is due now.
    let host = session.host.take().unwrap();
    let (host, due) = host.maybe_roll_forward(10);
    assert!(due);
    let host = match host.release_observed(Ok(false), 10) {
        RolloutStep::Arm(host) => host,
        _ => panic!("the program file is launched again"),
    };
    let host = match host.relaunch_armed(Ok(()), 10) {
        RolloutStep::Handoff(host, _) => host,
        _ => panic!("the session is handed over"),
    };
    session.host = Some(host);
    let mut session = session.roll_over(Some("tools/call:issue.list"), None);

    let health = session.call(4, "system.health", "{}");
    assert_eq!(content(&health)["bound"], Value::Bool(true));
    let read = session.call(5, "issue.read", r#"{"category":"bug","slug":"after-rollout"}"#);
    assert_eq!(content(&read)["body"], "body");
    let telemetry =
        session.call(6, "system.telemetry", r#"{"render":"json","detail":"full"}"#);
    assert!(content(&telemetry)["host_rollouts"].as_u64().unwrap() >= 1);
    // The successor starts the next worker, and numbers its requests on.
    assert_eq!(session.world.spawns, vec![1, 2]);
    assert_eq!(session.world.sends.last().unwrap()["id"], 3);
    // The key is used up.
    let list = session.call(7, "issue.list", "{}");
    assert_eq!(content(&list)["count"], 1);
    let host = session.host.take().unwrap();
    match host.release_observed(Ok(false), 20) {
        RolloutStep::Wait(_) => {},
        _ => panic!("no second rollout is due"),
    }
}

#[test]
fn writers_are_never_sent_twice() {
    let mut session = Session::start(Some("/work/writers"), None, Some("tools/call:issue.save"));
    session.open();
    let save =
        session.call(2, "issue.save", r#"{"category":"feature","slug":"once","body":"body"}"#);
    let told = fault(&save);
    assert_eq!(told["fault"]["code"], "ambiguous_outcome");
    assert_eq!(told["fault"]["class"], "ambiguous_outcome");
    assert_eq!(told["retried"], Value::Bool(false));
    assert_eq!(session.world.sends.len(), 1);
    assert_eq!(session.world.spawns, vec![1, 2]);

    // The worker that took the place of the lost one goes on.
    let list = session.call(3, "issue.list", "{}");
    assert_eq!(content(&list)["count"], 0);
    assert_eq!(session.world.spawns, vec![1, 2]);
}

#[test]
fn a_convergent_call_is_sent_twice_at_most() {
    let mut session = Session::start(Some("/work/twice"), None, None);
    session.open();
    session.world.deaf_workers = 2;
    let list = session.call(2, "issue.list", "{}");
    let told = fault(&list);
    assert_eq!(told["fault"]["code"], "replay_budget_exhausted");
    assert_eq!(told["retried"], Value::Bool(true));
    assert_eq!(session.world.sends.len(), 2);
    assert_eq!(session.world.sends[0], session.world.sends[1]);

    let telemetry =
        session.call(3, "system.telemetry", r#"{"render":"json","detail":"full"}"#);
    let totals = &content(&telemetry)["telemetry"]["totals"];
    assert_eq!(totals["recovery_fault_count"], 2);
    assert_eq!(totals["recovery_error_count"], 1);
    assert_eq!(totals["retry_count"], 1);

    let list = session.call(4, "issue.list", "{}");
    assert_eq!(content(&list)["count"], 0);
    assert_eq!(session.world.spawns, vec![1, 2, 3]);
}

#[test]
fn deleted_issues_are_gone() {
    let mut session = Session::start(Some("/work/delete"), None, None);
    session.open();
    let _ = session.call(2, "issue.save", r#"{"category":"bug","slug":"gone","body":"body"}"#);
    let _ = session.call(3, "issue.save", r#"{"category":"feature","slug":"gone","body":"other"}"#);
    let delete = session.call(4, "issue.delete", r#"{"category":"bug","slug":"gone"}"#);
    assert_eq!(content(&delete)["status"], "deleted");
    assert_eq!(content(&delete)["path"], "issues/bug/gone.md");
    let read = session.call(5, "issue.read", r#"{"category":"bug","slug":"gone"}"#);
    assert_eq!(fault(&read)["fault"]["detail"], "issue `bug/gone` does not exist");
    let read = session.call(6, "issue.read", r#"{"category":"feature","slug":"gone"}"#);
    assert_eq!(content(&read)["body"], "other");
    let delete = session.call(7, "issue.delete", r#"{"category":"bug","slug":"gone"}"#);
    assert_eq!(fault(&delete)["fault"]["detail"], "issue `bug/gone` does not exist");
    let list = session.call(8, "issue.list", "{}");
    assert_eq!(content(&list)["count"], 1);
}

#[test]
fn saving_again_overwrites() {
    let mut session = Session::start(Some("/work/again"), None, None);
    session.open();
    let _ = session.call(2, "issue.save", r#"{"category":"bug","slug":"a","body":"first"}"#);
    let save = session.call(3, "issue.save", r#"{"category":"bug","slug":"a","body":"second"}"#);
    assert_eq!(content(&save)["status"], "updated");
    let read = session.call(4, "issue.read", r#"{"category":"bug","slug":"a"}"#);
    assert_eq!(content(&read)["body"], "second");
}

#[test]
fn a_list_is_in_order() {
    let mut session = Session::start(Some("/work/order"), None, None);
    session.open();
    for (id, category, slug) in
        [(2, "bug", "a"), (3, "feature", "z"), (4, "feature", "b"), (5, "bug", "0")]
    {
        let arguments = format!(r#"{{"category":"{category}","slug":"{slug}","body":"x"}}"#);
        let _ = content(&session.call(id, "issue.save", &arguments)).clone();
    }
    let list = session.call(6, "issue.list", r#"{"detail":"full"}"#);
    let paths: Vec<&str> = content(&list)["issues"]
        .as_array()
        .unwrap()
        .iter()
        .map(|issue| issue["path"].as_str().unwrap())
        .collect();
    assert_eq!(
        paths,
        vec![
            "issues/feature/b.md",
            "issues/feature/z.md",
            "issues/bug/0.md",
            "issues/bug/a.md"
        ]
    );
    assert_eq!(
        content(&list)["issues"][0],
        parsed(
            r#"{"slug":"b","path":"issues/feature/b.md","updated_at":"1970-01-01T00:00:09Z"}"#
        )
    );
    let list = session.call(7, "issue.list", "{}");
    assert_eq!(list["result"]["content"][0]["text"], "4 issue(s)\nb\nz\n0\na");
    assert_eq!(
        content(&list)["issues"][3],
        parsed(r#"{"slug":"a","updated_at":"1970-01-01T00:00:09Z"}"#)
    );
}

#[test]
fn bad_arguments_are_refused() {
    let mut session = Session::start(Some("/work/bad"), None, None);
    session.open();
    let cases = [
        (
            "issue.save",
            r#"{"category":"chore","slug":"a","body":"x"}"#,
            "invalid issue category `chore`; expected `feature` or `bug`",
        ),
        (
            "issue.save",
            r#"{"category":"bug","slug":"","body":"x"}"#,
            "invalid issue slug: slug must not be empty",
        ),
        (
            "issue.save",
            r#"{"category":"bug","slug":"-a","body":"x"}"#,
            "invalid issue slug: slug must not start or end with `-`",
        ),
        (
            "issue.save",
            r#"{"category":"bug","slug":"A","body":"x"}"#,
            "invalid issue slug: slug must use lowercase ascii letters, digits, and `-` only",
        ),
        (
            "issue.save",
            r#"{"category":"bug","slug":"a--b","body":"x"}"#,
            "invalid issue slug: slug must not contain empty `-` segments",
        ),
        (
            "issue.save",
            r#"{"category":"bug","slug":"a","body":" \n\t"}"#,
            "issue body must not be blank",
        ),
        (
            "issue.save",
            r#"{"slug":"a","body":"x"}"#,
            "invalid params: expected category, slug and body",
        ),
        ("issue.read", r#"{"slug":"a"}"#, "invalid params: expected category and slug"),
        ("issue.nope", "{}", "unknown tool `issue.nope`"),
        ("project.bind", "{}", "invalid params: missing field `path`"),
        ("project.bind", r#"{"path":"/missing"}"#, "project path `/missing` does not exist"),
    ];
    for (at, (name, arguments, detail)) in cases.iter().enumerate() {
        let response = session.call(10 + at as u64, name, arguments);
        assert_eq!(fault(&response)["fault"]["detail"], *detail);
        assert_eq!(fault(&response)["jsonrpc_code"], -32602);
        assert_eq!(response["result"]["content"][0]["text"], *detail);
    }
    let response = session
        .message(r#"{"jsonrpc":"2.0","id":90,"method":"tools/call","params":{}}"#)
        .unwrap();
    assert_eq!(fault(&response)["fault"]["detail"], "invalid params: missing field `name`");
    assert_eq!(fault(&response)["operation"], "tools/call");
}

#[test]
fn presentation_is_chosen_by_the_client() {
    let mut session = Session::start(Some("/work/present"), None, None);
    session.open();
    let plain = session.call(2, "issue.list", "{}");
    assert_eq!(plain["result"]["content"][0]["text"], "0 issue(s)");
    let pretty = session.call(3, "issue.list", r#"{"render":"structured"}"#);
    assert_eq!(
        pretty["result"]["content"][0]["text"],
        "{\n  \"count\": 0,\n  \"issues\": []\n}"
    );
    let full = session.call(4, "issue.list", r#"{"detail":"verbose"}"#);
    assert_eq!(full["result"]["content"][0]["text"], "count: 0\nissues: []");
    let wrong = session.call(5, "issue.list", r#"{"render":"loud"}"#);
    let detail = fault(&wrong)["fault"]["detail"].as_str().unwrap();
    assert!(detail.starts_with("invalid render mode: unknown variant `loud`"));
    let wrong = session.call(6, "system.health", r#"{"detail":7}"#);
    let detail = fault(&wrong)["fault"]["detail"].as_str().unwrap();
    assert!(detail.starts_with("invalid detail level: "));
    assert_eq!(fault(&wrong)["stage"], "Host");
}

#[test]
fn reading_shows_the_issue_as_text() {
    let mut session = Session::start(Some("/work/text"), None, None);
    session.open();
    let save = session.call(2, "issue.save", r#"{"category":"bug","slug":"a","body":"be\nbo"}"#);
    assert_eq!(
        save["result"]["content"][0]["text"],
        "saved issue a\nstatus: created\npath: issues/bug/a.md\nupdated: 1970-01-01T00:00:01Z"
    );
    assert_eq!(
        *content(&save),
        parsed(
            r#"{"slug":"a","status":"created","path":"issues/bug/a.md","updated_at":"1970-01-01T00:00:01Z"}"#
        )
    );
    let read = session.call(3, "issue.read", r#"{"category":"bug","slug":"a"}"#);
    assert_eq!(
        *content(&read),
        parsed(r#"{"slug":"a","updated_at":"1970-01-01T00:00:09Z","body":"be\nbo"}"#)
    );
    assert_eq!(
        read["result"]["content"][0]["text"],
        "issue a\nupdated: 1970-01-01T00:00:09Z\n\nbe\nbo"
    );
    let read = session.call(4, "issue.read", r#"{"category":"bug","slug":"a","detail":"full"}"#);
    assert_eq!(
        read["result"]["content"][0]["text"],
        "issue a\npath: issues/bug/a.md\nupdated: 1970-01-01T00:00:09Z\nbytes: 5\n\nbe\nbo"
    );
    let delete = session.call(5, "issue.delete", r#"{"category":"bug","slug":"a"}"#);
    assert_eq!(
        delete["result"]["content"][0]["text"],
        "deleted issue a\npath: issues/bug/a.md\ndeleted: 1970-01-01T00:00:02Z"
    );
}

#[test]
fn the_handshake_comes_first() {
    let mut session = Session::start(Some("/work/hand"), None, None);
    let early = session.call(1, "issue.list", "{}");
    assert_eq!(fault(&early)["jsonrpc_code"], -32002);
    let early =
        session.message(r#"{"jsonrpc":"2.0","id":2,"method":"tools/list"}"#).unwrap();
    assert_eq!(early["error"]["code"], -32002);
    assert_eq!(
        early["error"]["message"],
        "client must call initialize and notifications/initialized before normal operations"
    );
    // A notification is never answered, not even a wrong one.
    assert!(session.message(r#"{"jsonrpc":"2.0","method":"notifications/initialized"}"#).is_none());
    let pong = session.message(r#"{"jsonrpc":"2.0","id":3,"method":"ping"}"#).unwrap();
    assert_eq!(pong, parsed(r#"{"jsonrpc":"2.0","id":3,"result":{}}"#));

    session.open();
    let second = session.message(r#"{"jsonrpc":"2.0","id":4,"method":"initialize"}"#).unwrap();
    assert_eq!(second["error"]["data"]["fault"]["code"], "invalid_execution_state");
    assert_eq!(second["error"]["data"]["stage"], "Protocol");
    let list = session.call(5, "issue.list", "{}");
    assert_eq!(content(&list)["count"], 0);
}

#[test]
fn unbound_sessions_refuse_issue_tools() {
    let mut session = Session::start(None, None, None);
    session.open();
    let list = session.call(2, "issue.list", "{}");
    assert_eq!(fault(&list)["jsonrpc_code"], -32004);
    assert_eq!(
        fault(&list)["fault"]["detail"],
        "project is not bound; call project.bind with the target project root or a nested path inside it"
    );
    assert!(session.world.spawns.is_empty());
}

#[test]
fn bytes_that_are_no_message_are_answered() {
    let mut session = Session::start(None, None, None);
    let wrong = session.message("{").unwrap();
    assert_eq!(wrong["id"], Value::Null);
    assert_eq!(wrong["error"]["code"], -32700);
    assert!(wrong["error"]["message"].as_str().unwrap().starts_with("parse error: "));
    let wrong = session.message(r#"{"jsonrpc":"1.0","id":1,"method":"ping"}"#).unwrap();
    assert_eq!(wrong["id"], Value::Null);
    assert_eq!(wrong["error"]["code"], -32600);
    // Responses of the client are let go.
    assert!(session.message(r#"{"jsonrpc":"2.0","id":1,"result":{}}"#).is_none());
}

#[test]
fn identifiers_are_answered_as_they_came() {
    let mut session = Session::start(None, None, None);
    session.open();
    for id in ["\"seven\"", "7", "-7", "18446744073709551615"] {
        let pong = session
            .message(&format!(r#"{{"jsonrpc":"2.0","id":{id},"method":"ping"}}"#))
            .unwrap();
        assert_eq!(pong["id"], parsed(id));
    }
    let unknown = session.message(r#"{"jsonrpc":"2.0","id":8,"method":"nope"}"#).unwrap();
    assert_eq!(unknown["error"]["code"], -32602);
    assert_eq!(unknown["error"]["message"], "method `nope` is not implemented");
    assert_eq!(unknown["error"]["data"]["operation"], "nope");
}

#[test]
fn a_request_that_is_not_answered_stays_pending() {
    let mut session = Session::start(None, None, None);
    session.open();
    let silent = session.message(r#"{"jsonrpc":"2.0","id":2,"method":"notifications/cancelled"}"#);
    assert!(silent.is_none());
    let blocked = session.message(r#"{"jsonrpc":"2.0","id":3,"method":"ping"}"#).unwrap();
    assert_eq!(blocked["error"]["data"]["fault"]["code"], "pending_capacity_exhausted");
    let blocked = session.message(r#"{"jsonrpc":"2.0","id":2,"method":"ping"}"#).unwrap();
    assert_eq!(blocked["error"]["data"]["fault"]["code"], "duplicate_request_id");
}

#[test]
fn a_pending_request_outlives_a_rollout() {
    let mut session = Session::start(None, None, None);
    session.open();
    let silent = session.message(r#"{"jsonrpc":"2.0","id":2,"method":"notifications/cancelled"}"#);
    assert!(silent.is_none());
    let mut session = session.roll_over(None, None);
    let blocked = session.message(r#"{"jsonrpc":"2.0","id":2,"method":"ping"}"#).unwrap();
    assert_eq!(blocked["error"]["data"]["fault"]["code"], "duplicate_request_id");
}

#[test]
fn the_count_follows_saves_and_deletions() {
    let mut session = Session::start(Some("/work/count"), None, None);
    session.open();
    let mut id = 2;
    let mut count_after = |name: &str, arguments: &str| -> u64 {
        let _ = session.call(id, name, arguments);
        let list = session.call(id + 1, "issue.list", "{}");
        id += 2;
        content(&list)["count"].as_u64().unwrap()
    };
    let save = |slug: &str| format!(r#"{{"category":"bug","slug":"{slug}","body":"x"}}"#);
    assert_eq!(count_after("issue.save", &save("a")), 1);
    assert_eq!(count_after("issue.save", &save("b")), 2);
    assert_eq!(count_after("issue.save", &save("a")), 2);
    assert_eq!(count_after("issue.delete", r#"{"category":"feature","slug":"a"}"#), 2);
    assert_eq!(count_after("issue.delete", r#"{"category":"bug","slug":"a"}"#), 1);
    let bind = session.call(40, "project.bind", r#"{"path":"/work/count"}"#);
    assert_eq!(content(&bind)["issue_count"], 1);
}

#[test]
fn arguments_may_come_in_order() {
    let mut session = Session::start(None, None, None);
    session.open();
    let health = session
        .message(r#"{"jsonrpc":"2.0","id":2,"method":"tools/call","params":["system.health",{}]}"#)
        .unwrap();
    assert_eq!(content(&health)["bound"], Value::Bool(false));
    let bind = session
        .message(
            r#"{"jsonrpc":"2.0","id":3,"method":"tools/call","params":["project.bind",["/work/array"]]}"#,
        )
        .unwrap();
    assert_eq!(content(&bind)["project_root"], "/work/array");
    // A call of a worker tool in this form is taken for a host call first.
    let list = session
        .message(r#"{"jsonrpc":"2.0","id":4,"method":"tools/call","params":["issue.list"]}"#)
        .unwrap();
    assert_eq!(fault(&list)["fault"]["code"], "duplicate_request_id");
    assert_eq!(fault(&list)["operation"], "tools/call:issue.list");
}

#[test]
fn health_shows_the_host() {
    let mut session = Session::start(Some("/work/health"), None, None);
    session.open();
    let health = session.call(2, "system.health", "{}");
    assert_eq!(
        health["result"]["content"][0]["text"],
        "not-ready | bound\nproject: /work/health\nissues: /home/user/.local/state/jira_at_home/projects/work/health/issues\nworker: gen 1 dead\nbinary: stable"
    );
    let _ = session.call(3, "issue.list", "{}");
    session.world.rollout_pending = Ok(true);
    let health = session.call(4, "system.health", r#"{"detail":"full"}"#);
    let full = content(&health);
    assert_eq!(full["health"]["state"], "ready");
    assert_eq!(full["health"]["worker_handshake"], "ready");
    assert_eq!(full["health"]["rollout"], "pending");
    assert_eq!(full["health"]["generation"], 1);
    assert_eq!(full["health"]["uptime_ms"], 500);
    assert_eq!(full["binding"]["project_root"], "/work/health");
    assert_eq!(full["worker_alive"], Value::Bool(true));
    session.world.rollout_pending = Err("no release".to_owned());
    let health = session.call(5, "system.health", "{}");
    assert_eq!(fault(&health)["fault"]["code"], "rollout_failure");
    assert_eq!(fault(&health)["fault"]["recovery_hint"], "roll_forward");
}

#[test]
fn telemetry_ranks_the_methods() {
    let mut session = Session::start(Some("/work/hot"), None, None);
    session.open();
    for id in 2..5 {
        let _ = session.call(id, "issue.list", "{}");
    }
    let _ = session.call(5, "issue.read", r#"{"category":"bug","slug":"none"}"#);
    let telemetry = session.call(6, "system.telemetry", "{}");
    let hot = content(&telemetry)["hot_methods"].as_array().unwrap();
    assert_eq!(hot[0]["method"], "tools/call:issue.list");
    assert_eq!(hot[0]["requests"], 3);
    assert_eq!(hot[1]["method"], "tools/call:issue.read");
    assert_eq!(hot[1]["response_errors"], 1);
    assert_eq!(hot[2]["method"], "initialize");
    assert_eq!(content(&telemetry)["requests"], 7);
    assert_eq!(content(&telemetry)["successes"], 5);
    assert_eq!(content(&telemetry)["errors"], 1);
    assert_eq!(
        telemetry["result"]["content"][0]["text"].as_str().unwrap().lines().next().unwrap(),
        "requests=7 success=5 error=1 response_error=1 recovery_error=0 recovery_fault=0 retry=0"
    );
}

#[test]
fn a_worker_that_cannot_start_fails_the_call() {
    let mut session = Session::start(Some("/work/spawn"), None, None);
    session.open();
    let host = session.host.take().unwrap();
    let step = host.handle_payload(
        br#"{"jsonrpc":"2.0","id":2,"method":"tools/call","params":{"name":"issue.list"}}"#.to_vec(),
    );
    let step = match step {
        HostStep::Spawn(task) => task.spawned(SpawnOutcome::Failed("no such file".to_owned())),
        _ => panic!("a worker is started"),
    };
    let response = session.run(step).unwrap();
    assert_eq!(fault(&response)["fault"]["detail"], "failed to spawn worker: no such file");
    assert_eq!(fault(&response)["fault"]["code"], "process_failure");
    assert_eq!(fault(&response)["retryable"], Value::Bool(true));
    // Nothing is pending, and the next call starts a worker of the same generation.
    let list = session.call(3, "issue.list", "{}");
    assert_eq!(content(&list)["count"], 0);
    assert_eq!(session.world.spawns, vec![1]);
}

#[test]
fn a_replay_without_a_worker_is_marked() {
    let mut session = Session::start(Some("/work/again"), None, None);
    session.open();
    let _ = session.call(2, "issue.list", "{}");
    session.world.worker = None;
    let host = session.host.take().unwrap();
    let step = host.handle_payload(
        br#"{"jsonrpc":"2.0","id":3,"method":"tools/call","params":{"name":"issue.list"}}"#.to_vec(),
    );
    let step = match step {
        HostStep::Probe(task) => task.observed(true),
        _ => panic!("the worker is looked at"),
    };
    let step = match step {
        HostStep::Probe(task) => task.observed(true),
        _ => panic!("the worker is looked at right before the call is sent"),
    };
    let step = match step {
        HostStep::Send(task) => task.sent(SendOutcome::FlushFailed("broken pipe".to_owned())),
        _ => panic!("the call is sent"),
    };
    let step = match step {
        HostStep::Spawn(task) => {
            assert_eq!(task.plan().generation.get(), 2);
            task.spawned(SpawnOutcome::NoStdout)
        },
        _ => panic!("the next worker is started"),
    };
    let response = session.run(step).unwrap();
    let told = fault(&response);
    assert_eq!(told["fault"]["detail"], "worker stdout pipe was not created");
    assert_eq!(told["retried"], Value::Bool(true));
    // The request does not wait for another dispatch any more.
    let list = session.call(4, "issue.list", "{}");
    assert_eq!(content(&list)["count"], 0);
}

#[test]
fn a_worker_that_goes_before_the_call_is_sent_is_replaced() {
    let mut session = Session::start(Some("/work/idle"), None, None);
    session.open();
    let _ = session.call(2, "issue.list", "{}");
    let host = session.host.take().unwrap();
    let step = host.handle_payload(
        br#"{"jsonrpc":"2.0","id":3,"method":"tools/call","params":{"name":"issue.save","arguments":{"category":"bug","slug":"a","body":"x"}}}"#
            .to_vec(),
    );
    let step = match step {
        HostStep::Probe(task) => task.observed(true),
        _ => panic!("the worker is looked at"),
    };
    session.world.worker = None;
    let save = session.run(step).unwrap();
    assert_eq!(content(&save)["status"], "created");
    assert_eq!(session.world.spawns, vec![1, 2]);
    assert_eq!(session.world.sends.len(), 2);
    assert_eq!(session.last_completion.as_ref().unwrap().replay_attempts, 0);
}

#[test]
fn forced_rollouts_come_once() {
    let mut session = Session::start(Some("/work/once"), Some("tools/call:issue.list"), None);
    session.open();
    let count = |session: &mut Session, id: u64| -> u64 {
        let telemetry =
            session.call(id, "system.telemetry", r#"{"render":"json","detail":"full"}"#);
        content(&telemetry)["host_rollouts"].as_u64().unwrap()
    };
    assert_eq!(count(&mut session, 2), 0);
    let list = session.call(3, "issue.list", "{}");
    assert_eq!(content(&list)["count"], 0);
    assert_eq!(count(&mut session, 4), 1);
    let list = session.call(5, "issue.list", "{}");
    assert_eq!(content(&list)["count"], 0);
    assert_eq!(count(&mut session, 6), 1);
    let (_, due) = session.host.take().unwrap().maybe_roll_forward(10);
    assert!(due);
}

fn settled_with(result: Json) -> Settled {
    let mut session = Session::start(Some("/work/deep"), None, None);
    session.open();
    let host = session.host.take().unwrap();
    let step = host.handle_payload(
        br#"{"jsonrpc":"2.0","id":2,"method":"tools/call","params":{"name":"issue.list"}}"#.to_vec(),
    );
    let step = match step {
        HostStep::Spawn(task) => task.spawned(SpawnOutcome::Started),
        _ => panic!("a worker is started"),
    };
    let step = match step {
        HostStep::Probe(task) => task.observed(true),
        _ => panic!("the worker is looked at right before the call is sent"),
    };
    let step = match step {
        HostStep::Send(task) => task.sent(SendOutcome::Sent),
        _ => panic!("the call is sent"),
    };
    let answer = ReplyOutcome::Answered(WorkerOutcome::Success(result));
    let step = match step {
        HostStep::Read(task) => task.answered(answer),
        _ => panic!("the answer is waited for"),
    };
    match step {
        HostStep::Settle(end) => end.settle(7),
        _ => panic!("the call has come to its end"),
    }
}

#[test]
fn answers_that_nest_too_deep_halt_the_host() {
    let nested = |levels: u32| -> Json {
        let mut document = Value::from(1);
        for _ in 0..levels {
            document = Value::Array(vec![document]);
        }
        json(&document)
    };
    match settled_with(nested(126)) {
        Settled::Done { host, response, .. } => {
            assert!(response.is_some());
            // The request is answered: its identifier is free again.
            let step = host.handle_payload(br#"{"jsonrpc":"2.0","id":2,"method":"ping"}"#.to_vec());
            match step {
                HostStep::Settle(end) => match end.settle(1) {
                    Settled::Done { response, .. } => {
                        assert!(value(&response.unwrap()).get("error").is_none());
                    }
                    Settled::Halt => panic!("a ping is answered"),
                },
                _ => panic!("a ping is answered at once"),
            }
        }
        Settled::Halt => panic!("the kernel takes the answer"),
    }
    assert!(matches!(settled_with(nested(127)), Settled::Halt));
}

#[test]
fn faults_of_the_worker_are_passed_on() {
    let mut session = Session::start(Some("/work/fault"), None, None);
    session.open();
    let host = session.host.take().unwrap();
    let step = host.handle_payload(
        br#"{"jsonrpc":"2.0","id":2,"method":"tools/call","params":{"name":"issue.list"}}"#.to_vec(),
    );
    let step = match step {
        HostStep::Spawn(task) => task.spawned(SpawnOutcome::Started),
        _ => panic!("a worker is started"),
    };
    let step = match step {
        HostStep::Probe(task) => task.observed(true),
        _ => panic!("the worker is looked at right before the call is sent"),
    };
    let step = match step {
        HostStep::Send(task) => task.sent(SendOutcome::Sent),
        _ => panic!("the call is sent"),
    };
    let told = FaultRecord::internal(
        Generation::genesis(),
        FaultStage::Store,
        "tools/call:issue.list",
        "disk is full",
    );
    let step = match step {
        HostStep::Read(task) => task.answered(ReplyOutcome::Answered(WorkerOutcome::Fault(told))),
        _ => panic!("the answer is waited for"),
    };
    let response = session.run(step).unwrap();
    assert_eq!(fault(&response)["fault"]["detail"], "disk is full");
    assert_eq!(fault(&response)["stage"], "Store");
    assert_eq!(fault(&response)["retried"], Value::Bool(false));
    let completion = session.last_completion.as_ref().unwrap();
    let error = completion.error.as_ref().unwrap();
    assert_eq!(error.code, Some(-32603));
    assert_eq!(error.kind.as_deref(), Some("internal_failure"));
    assert_eq!(error.message.as_deref(), Some("disk is full"));
}

#[test]
fn rollouts_are_put_off_after_a_failure() {
    let session = Session::start(None, None, None);
    let host = session.host.unwrap();
    let (host, due) = host.maybe_roll_forward(100);
    assert!(due);
    let host = match host.release_observed(Err("no manifest".to_owned()), 100) {
        RolloutStep::Wait(host) => host,
        _ => panic!("the host goes on"),
    };
    let (host, due) = host.maybe_roll_forward(5099);
    assert!(!due);
    let (host, due) = host.maybe_roll_forward(5100);
    assert!(due);
    let (host, seed) = match host.release_observed(Ok(true), 5100) {
        RolloutStep::Handoff(host, seed) => (host, seed),
        _ => panic!("the session is handed over"),
    };
    assert_eq!(seed.telemetry.host_rollouts(), 1);
    let (host, gone) = host.handed_off(Handoff::Failed("refused".to_owned()), 5200);
    assert!(!gone);
    let (host, due) = host.maybe_roll_forward(6000);
    assert!(!due);
    let (host, gone) = host.handed_off(Handoff::Retained, 6000);
    assert!(!gone);
    let (_, gone) = host.handed_off(Handoff::Relinquished, 6000);
    assert!(gone);
}

#[test]
fn a_predecessor_names_the_project_to_bind() {
    let initial = LocalPath::from_text("/work/initial");
    let path = path_to_bind(&None, Some(initial)).unwrap();
    assert_eq!(path.display(), "/work/initial");
    let session = Session::start(Some("/work/before"), None, None);
    let seed: HostStateSeed = session.host.unwrap().roll_forward();
    let path = path_to_bind(&Some(seed), Some(LocalPath::from_text("/work/initial"))).unwrap();
    assert_eq!(path.display(), "/work/before");
}

#[test]
fn binding_again_lets_the_worker_go() {
    let mut session = Session::start(Some("/work/first"), None, None);
    session.open();
    let _ = session.call(2, "issue.save", r#"{"category":"bug","slug":"a","body":"x"}"#);
    assert!(session.world.worker.is_some());
    let _ = session.call(3, "project.bind", r#"{"path":"/work/second"}"#);
    assert!(session.world.worker.is_none());
    let list = session.call(4, "issue.list", "{}");
    assert_eq!(content(&list)["count"], 0);
    assert_eq!(session.world.spawns, vec![1, 2]);
    let bind = session.call(5, "project.bind", r#"{"path":"/work/first"}"#);
    assert_eq!(content(&bind)["issue_count"], 1);
    let completion = session.last_completion.as_ref().unwrap();
    assert_eq!(completion.meta.path_hint.as_deref(), Some("/work/first"));
    assert!(completion.meta.lsp_method.is_none());
}

#[test]
fn linked_worktrees_see_the_same_issues() {
    let mut world = World::new();
    world.git_markers.push("/work/main/.git".to_owned());
    let mut session = Session::start_in(world, Some("/work/main/deep/inside"), None, None);
    session.open();
    let _ = session.call(2, "issue.save", r#"{"category":"bug","slug":"a","body":"x"}"#);
    let bind = session.call(3, "project.bind", r#"{"path":"/work/main/other"}"#);
    assert_eq!(content(&bind)["project_root"], "/work/main");
    assert_eq!(content(&bind)["requested_path"], "/work/main/other");
    assert_eq!(content(&bind)["issue_count"], 1);
}

#[test]
fn counters_balance() {
    let mut session = Session::start(Some("/work/balance"), None, None);
    session.open();
    let _ = session.call(2, "issue.list", "{}");
    let _ = session.call(3, "issue.nope", "{}");
    session.world.deaf_workers = 1;
    let _ = session.call(4, "issue.list", "{}");
    let telemetry = session.call(5, "system.telemetry", r#"{"detail":"full"}"#);
    let totals = &content(&telemetry)["telemetry"]["totals"];
    let count = |name: &str| totals[name].as_u64().unwrap();
    // The call that asks is still open.
    assert_eq!(count("request_count"), count("success_count") + count("error_count") + 1);
    assert_eq!(count("error_count"), 1);
}
