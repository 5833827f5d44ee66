//! Tools, telemetry, the worker process and what goes over the wire.

use jira_at_home::binary::{BinaryRuntime, fingerprint_binary};
use jira_at_home::catalog::{DispatchTarget, tool_definitions, tool_schema, tool_spec};
use jira_at_home::fault::{FaultRecord, FaultStage, Generation};
use jira_at_home::issue::StoreError;
use jira_at_home::json::Json;
use jira_at_home::output::{
    Presentation, ToolOutput, chosen_presentation, fallback_detailed_tool_output,
    projection_fault, split_presentation, tool_success, with_common_presentation,
};
use jira_at_home::path::LocalPath;
use jira_at_home::protocol::{HostRequestId, WorkerOperation, WorkerOutcome};
use jira_at_home::reports::system_telemetry_output;
use jira_at_home::routing::{
    elapsed_ms, initialize_result, operation_key, replay_contract, text_arguments,
    tool_call_envelope, worker_dispatch,
};
use jira_at_home::service::{generation_from_wire, store_fault};
use jira_at_home::supervisor::{ReplyOutcome, SendOutcome, SpawnOutcome, WorkerSupervisor};
use jira_at_home::telemetry::{ServerTelemetry, recovery_error, unix_ms_now, worker_state};
use libmcp::{
    DetailLevel, LifecycleState, RenderMode, ReplayContract, RolloutState, SurfaceKind,
    WorkerHandshakePhase,
};
use serde_json::Value;

fn parsed(text: &str) -> Value {
    serde_json::from_str(text).unwrap()
}

fn json(text: &str) -> Json {
    Json::from_value(&parsed(text))
}

fn path(text: &str) -> LocalPath {
    LocalPath::from_text(text)
}

fn first() -> Generation {
    Generation::genesis()
}

fn detail<T>(result: Result<T, FaultRecord>) -> String {
    match result {
        Ok(_) => panic!("a fault is expected"),
        Err(fault) => fault.fault.detail,
    }
}

#[test]
fn the_catalog_lists_every_tool() {
    let definitions = tool_definitions();
    let names: Vec<String> = definitions
        .iter()
        .map(|tool| tool.get_text("name").unwrap().to_owned())
        .collect();
    assert_eq!(
        names,
        vec![
            "project.bind",
            "issue.save",
            "issue.delete",
            "issue.list",
            "issue.read",
            "system.health",
            "system.telemetry"
        ]
    );
    for name in &names {
        let tool = tool_spec(name).unwrap();
        assert_eq!(tool.name, name);
    }
    assert!(tool_spec("issue").is_none());
}

#[test]
fn only_readers_are_replayed() {
    for (name, dispatch, replayed, read_only) in [
        ("project.bind", DispatchTarget::Host, false, false),
        ("issue.save", DispatchTarget::Worker, false, false),
        ("issue.list", DispatchTarget::Worker, true, true),
        ("issue.read", DispatchTarget::Worker, true, true),
        ("issue.delete", DispatchTarget::Worker, false, false),
        ("system.health", DispatchTarget::Host, false, true),
        ("system.telemetry", DispatchTarget::Host, false, true),
    ] {
        let tool = tool_spec(name).unwrap();
        assert_eq!(tool.dispatch, dispatch, "{name}");
        if dispatch == DispatchTarget::Worker {
            assert_eq!(matches!(tool.replay, ReplayContract::Convergent), replayed, "{name}");
        }
        let annotations = tool.annotation_json().to_value();
        assert_eq!(annotations["readOnlyHint"], Value::Bool(read_only), "{name}");
    }
    let delete = tool_spec("issue.delete").unwrap().annotation_json().to_value();
    assert_eq!(delete["destructiveHint"], Value::Bool(true));
}

#[test]
fn schemas_name_the_arguments() {
    let save = tool_schema("issue.save").to_value();
    assert_eq!(save["required"], parsed(r#"["category","slug","body"]"#));
    assert_eq!(save["properties"]["category"]["enum"], parsed(r#"["feature","bug"]"#));
    assert_eq!(save["properties"]["render"]["enum"], parsed(r#"["porcelain","json"]"#));
    assert_eq!(save["properties"]["detail"]["enum"], parsed(r#"["concise","full"]"#));
    assert_eq!(save["additionalProperties"], Value::Bool(false));
    let open = with_common_presentation(json(
        r#"{"type":"object","properties":{"a":{}},"additionalProperties":true}"#,
    ));
    assert_eq!(open.to_value()["additionalProperties"], Value::Bool(true));
    assert_eq!(open.to_value()["properties"].as_object().unwrap().len(), 3);
    assert_eq!(with_common_presentation(json("7")).to_value(), parsed("7"));
}

#[test]
fn presentation_is_taken_out_of_the_arguments() {
    let stage = FaultStage::Worker;
    let (presentation, rest) =
        split_presentation(json(r#"{"slug":"a","render":"json","detail":"full"}"#), "op", first(), stage)
            .ok()
            .unwrap();
    assert!(matches!(presentation.render, RenderMode::Json));
    assert!(matches!(presentation.detail, DetailLevel::Full));
    assert_eq!(rest.to_value(), parsed(r#"{"slug":"a"}"#));

    let (presentation, rest) = split_presentation(json("[1]"), "op", first(), stage).ok().unwrap();
    assert!(matches!(presentation.render, RenderMode::Porcelain));
    assert!(matches!(presentation.detail, DetailLevel::Concise));
    assert_eq!(rest.to_value(), parsed("[1]"));

    for (name, json_mode) in
        [("porcelain", false), ("text", false), ("plain", false), ("plain_text", false),
         ("json", true), ("structured", true)]
    {
        let arguments = json(&format!(r#"{{"render":"{name}"}}"#));
        let (presentation, _) = split_presentation(arguments, "op", first(), stage).ok().unwrap();
        assert_eq!(matches!(presentation.render, RenderMode::Json), json_mode, "{name}");
    }
    for (name, full) in
        [("concise", false), ("summary", false), ("compact", false), ("full", true),
         ("verbose", true), ("detailed", true)]
    {
        let arguments = json(&format!(r#"{{"detail":{{"{name}":null}}}}"#));
        let (presentation, _) = split_presentation(arguments, "op", first(), stage).ok().unwrap();
        assert_eq!(matches!(presentation.detail, DetailLevel::Full), full, "{name}");
    }
    let both = json(r#"{"render":1,"detail":2}"#);
    assert!(detail(split_presentation(both, "op", first(), stage)).starts_with("invalid render mode: "));
    assert_eq!(
        detail(chosen_presentation(
            Ok(RenderMode::Json),
            Err("no".to_owned()),
            "op",
            first(),
            stage
        )),
        "invalid detail level: no"
    );
}

#[test]
fn results_are_shown_as_they_were_asked_for() {
    let output = || -> ToolOutput {
        fallback_detailed_tool_output(
            json(r#"{"a":1}"#),
            json(r#"{"a":1,"b":"two"}"#),
            "one".to_owned(),
            None,
            SurfaceKind::Read,
            first(),
            FaultStage::Worker,
            "op",
        )
        .ok()
        .unwrap()
    };
    let show = |presentation: Presentation| -> Value {
        tool_success(output(), presentation, first(), FaultStage::Worker, "op")
            .ok()
            .unwrap()
            .to_value()
    };
    let concise = show(Presentation::default());
    assert_eq!(concise["content"][0]["text"], "one");
    assert_eq!(concise["structuredContent"], parsed(r#"{"a":1}"#));
    assert_eq!(concise["isError"], Value::Bool(false));
    let full = show(Presentation { render: RenderMode::Porcelain, detail: DetailLevel::Full });
    assert_eq!(full["content"][0]["text"], "a: 1\nb: \"two\"");
    assert_eq!(full["structuredContent"], parsed(r#"{"a":1,"b":"two"}"#));
    let pretty = show(Presentation { render: RenderMode::Json, detail: DetailLevel::Concise });
    assert_eq!(pretty["content"][0]["text"], "{\n  \"a\": 1\n}");
    assert_eq!(projection_fault("wrong", first(), FaultStage::Host, "op").message(), "wrong");
}

#[test]
fn long_full_texts_are_cut() {
    let items: Vec<String> = (0..100).map(|item| format!(r#""m{item:03}":{item}"#)).collect();
    let full = json(&format!("{{{}}}", items.join(",")));
    let output = ToolOutput::from_values(Json::Null, full, String::new(), None);
    assert!(output.porcelain_text(&DetailLevel::Full).lines().count() <= 41);
    assert_eq!(output.porcelain_text(&DetailLevel::Concise), "");
    assert!(matches!(output.structured(&DetailLevel::Concise), Json::Null));
    let fixed =
        ToolOutput::from_values(Json::Null, Json::Null, String::new(), Some("own".to_owned()));
    assert_eq!(fixed.porcelain_text(&DetailLevel::Full), "own");
}

#[test]
fn calls_are_routed_by_their_tool() {
    let list = json(r#"{"name":"issue.list"}"#);
    assert_eq!(operation_key("tools/call", &list), "tools/call:issue.list");
    assert_eq!(operation_key("tools/call", &json("{}")), "tools/call");
    assert_eq!(operation_key("ping", &list), "ping");
    assert!(worker_dispatch("tools/call", &list));
    assert!(!worker_dispatch("ping", &list));
    assert!(!worker_dispatch("tools/call", &json(r#"{"name":"system.health"}"#)));
    assert!(matches!(replay_contract("ping", &json("{}")), ReplayContract::Convergent));
    assert!(matches!(replay_contract("tools/call", &list), ReplayContract::Convergent));
    for params in [r#"{"name":"issue.save"}"#, r#"{"name":"nope"}"#, "{}"] {
        assert!(matches!(
            replay_contract("tools/call", &json(params)),
            ReplayContract::NeverReplay
        ));
    }
}

#[test]
fn arguments_are_read_by_name_or_in_order() {
    let call = tool_call_envelope(&json(r#"{"name":"a","arguments":{"b":1},"c":2}"#)).unwrap();
    assert_eq!(call.name, "a");
    assert_eq!(call.arguments.to_value(), parsed(r#"{"b":1}"#));
    let call = tool_call_envelope(&json(r#"["a"]"#)).unwrap();
    assert_eq!(call.arguments.to_value(), parsed("{}"));
    assert!(tool_call_envelope(&json("[]")).is_none());
    assert!(tool_call_envelope(&json(r#"["a",{},1]"#)).is_none());
    assert!(tool_call_envelope(&json(r#"{"name":1}"#)).is_none());
    let fields = vec!["category", "slug"];
    let found = text_arguments(&json(r#"{"slug":"s","category":"bug","x":1}"#), &fields);
    assert_eq!(found, Some(vec!["bug".to_owned(), "s".to_owned()]));
    let found = text_arguments(&json(r#"["bug","s"]"#), &fields);
    assert_eq!(found, Some(vec!["bug".to_owned(), "s".to_owned()]));
    assert!(text_arguments(&json(r#"["bug"]"#), &fields).is_none());
    assert!(text_arguments(&json(r#"{"slug":"s"}"#), &fields).is_none());
    assert!(text_arguments(&json("null"), &fields).is_none());
}

#[test]
fn the_server_introduces_itself() {
    let result = initialize_result().to_value();
    assert_eq!(result["protocolVersion"], "2025-11-25");
    assert_eq!(result["serverInfo"], parsed(r#"{"name":"jira-at-home","version":"0.1.0"}"#));
    assert_eq!(result["capabilities"], parsed(r#"{"tools":{"listChanged":false}}"#));
}

#[test]
fn durations_and_clocks_are_capped() {
    assert_eq!(elapsed_ms(12), 12);
    assert_eq!(elapsed_ms(u128::MAX), u64::MAX);
    assert_eq!(unix_ms_now(None), 0);
    assert_eq!(unix_ms_now(Some(5)), 5);
    assert_eq!(unix_ms_now(Some(1 << 64)), u64::MAX);
    assert_eq!(generation_from_wire(0).get(), 1);
    assert_eq!(generation_from_wire(9).get(), 9);
}

#[test]
fn telemetry_counts_requests() {
    let mut telemetry = ServerTelemetry::started_at(100);
    assert!(telemetry.record_request("a"));
    assert!(telemetry.record_request("a"));
    assert!(telemetry.record_request("b"));
    assert!(telemetry.record_request("c"));
    assert!(telemetry.record_request("c"));
    assert!(!telemetry.record_request(" "));
    assert!(telemetry.record_success("a", 4));
    let broken = FaultRecord::internal(first(), FaultStage::Store, "b", "disk");
    assert!(telemetry.record_error("b", &broken, 5));
    let host = FaultRecord::unavailable(first(), FaultStage::Host, "c", "unbound");
    assert!(telemetry.record_error("c", &host, 6));
    let lost = FaultRecord::transport(first(), FaultStage::Transport, "a", "gone");
    assert!(telemetry.record_recovery_fault("a", &lost));
    assert!(telemetry.record_replay("a"));
    assert!(telemetry.record_error("a", &lost, 7));
    assert!(telemetry.replace_worker(first().next().unwrap()));
    assert!(!telemetry.replace_worker(first()));
    assert!(telemetry.record_rollout());
    assert_eq!(telemetry.host_rollouts(), 1);

    let report = telemetry.telemetry_snapshot(true, 350);
    assert_eq!(report.totals.requests, 5);
    assert_eq!(report.totals.successes, 1);
    assert_eq!(report.totals.errors, 3);
    assert_eq!(report.totals.response_errors, 1);
    assert_eq!(report.totals.recovery_errors, 1);
    assert_eq!(report.totals.recovery_faults, 1);
    assert_eq!(report.totals.retries, 1);
    assert_eq!(report.restarts, 1);
    let names: Vec<&str> = report.methods.iter().map(|row| row.method.as_str()).collect();
    assert_eq!(names, vec!["a", "b", "c"]);
    let document = report.document.to_value();
    assert_eq!(document["totals"]["request_count"], 5);
    assert_eq!(document["uptime_ms"], 250);

    let ranked = telemetry.ranked_methods(true, 350);
    let names: Vec<&str> = ranked.iter().map(|row| row.method.as_str()).collect();
    assert_eq!(names, vec!["a", "c", "b"]);
    assert_eq!(telemetry.duplicate().ranked_methods(true, 350).len(), 3);
    let output = system_telemetry_output(report, &ranked, 1, first()).ok().unwrap();
    let text = output.porcelain_text(&DetailLevel::Concise);
    assert_eq!(
        text.lines().take(3).collect::<Vec<_>>(),
        vec![
            "requests=5 success=1 error=3 response_error=1 recovery_error=1 recovery_fault=1 retry=1",
            "worker_restarts=1 host_rollouts=1",
            "hot methods:"
        ]
    );
}

#[test]
fn telemetry_has_a_wire_form() {
    let mut telemetry = ServerTelemetry::started_at(100);
    assert!(telemetry.record_request("a"));
    assert!(telemetry.record_success("a", 4));
    assert!(telemetry.record_request("a"));
    assert!(telemetry.record_success("a", 7));
    assert!(telemetry.record_request("b"));
    let lost = FaultRecord::transport(first(), FaultStage::Transport, "worker.read", "gone");
    assert!(telemetry.record_recovery_fault("b", &lost));
    assert_eq!(
        telemetry.telemetry_snapshot(false, 103).document.to_value(),
        parsed(
            r#"{"uptime_ms":3,"state":"cold","worker_handshake":"absent","generation":1,
                "consecutive_failures":1,"restart_count":0,
                "totals":{"request_count":3,"success_count":2,"error_count":0,
                    "response_error_count":0,"recovery_error_count":0,
                    "recovery_fault_count":1,"retry_count":0},
                "methods":[
                    {"method":"a","request_count":2,"success_count":2,"error_count":0,
                     "response_error_count":0,"recovery_error_count":0,
                     "recovery_fault_count":0,"retry_count":0,"last_latency_ms":7,
                     "max_latency_ms":7,"avg_latency_ms":5},
                    {"method":"b","request_count":1,"success_count":0,"error_count":0,
                     "response_error_count":0,"recovery_error_count":0,
                     "recovery_fault_count":1,"retry_count":0,"max_latency_ms":0,
                     "avg_latency_ms":0,"last_error":"gone"}],
                "last_fault":{"generation":1,"class":"transport","code":"transport_failure",
                    "recovery_hint":"replace_worker","detail":"gone"}}"#
        )
    );
    assert_eq!(
        telemetry.health_snapshot(RolloutState::Stable, true, 99).document.to_value(),
        parsed(
            r#"{"state":"ready","worker_handshake":"ready","generation":1,"uptime_ms":0,
                "consecutive_failures":1,"restart_count":0,"rollout":"stable",
                "last_fault":{"generation":1,"class":"transport","code":"transport_failure",
                    "recovery_hint":"replace_worker","detail":"gone"}}"#
        )
    );
}

#[test]
fn health_follows_the_worker() {
    let telemetry = ServerTelemetry::started_at(100);
    assert_eq!(telemetry.uptime_ms(70), 0);
    let health = telemetry.health_snapshot(RolloutState::Pending, true, 120);
    assert!(matches!(health.state, LifecycleState::Ready));
    assert!(matches!(health.rollout, RolloutState::Pending));
    assert_eq!(health.generation, 1);
    let document = health.document.to_value();
    assert_eq!(document["uptime_ms"], 20);
    assert_eq!(document["rollout"], "pending");
    assert!(matches!(
        worker_state(false),
        (LifecycleState::Cold, WorkerHandshakePhase::Absent)
    ));
    let lost = FaultRecord::process(first(), FaultStage::Transport, "a", "gone");
    assert!(recovery_error(&lost));
    assert!(!recovery_error(&FaultRecord::internal(first(), FaultStage::Store, "a", "d")));
}

#[test]
fn a_worker_is_started_once_a_project_is_bound() {
    let mut worker = WorkerSupervisor::new(path("/bin/x"), first(), false);
    assert_eq!(
        detail(worker.ensure_worker()),
        "project is not bound; call project.bind before using issue tools"
    );
    worker.rebind(path("/w"));
    let plan = worker.ensure_worker().ok().unwrap();
    assert_eq!(plan.project_root.display(), "/w");
    assert_eq!(plan.generation.get(), 1);
    assert_eq!(
        detail(worker.spawned(plan.generation, SpawnOutcome::Failed("no file".to_owned()))),
        "failed to spawn worker: no file"
    );
    assert_eq!(
        detail(worker.spawned(plan.generation, SpawnOutcome::NoStdin)),
        "worker stdin pipe was not created"
    );
    assert!(!worker.attached());
    assert!(worker.spawned(plan.generation, SpawnOutcome::Started).is_ok());
    assert!(worker.attached() && worker.has_spawned());
    worker.rebind(path("/w/."));
    assert!(worker.attached());
    worker.refresh_binding(path("/w"));
    assert!(!worker.attached());
    assert_eq!(worker.ensure_worker().ok().unwrap().generation.get(), 2);
    assert!(!worker.is_alive(true));
}

#[test]
fn the_last_generation_has_no_successor() {
    let last = Generation::try_new(u64::MAX).unwrap();
    let mut worker = WorkerSupervisor::new(path("/bin/x"), last, true);
    worker.rebind(path("/w"));
    assert_eq!(detail(worker.ensure_worker()), "worker generation space is exhausted");
}

#[test]
fn pipes_to_the_worker_may_break() {
    let mut worker = WorkerSupervisor::new(path("/bin/x"), first(), false);
    worker.rebind(path("/w"));
    assert!(worker.spawned(first(), SpawnOutcome::Started).is_ok());
    assert!(worker.is_alive(true));
    for (outcome, told) in [
        (SendOutcome::NoStdin, "worker stdin is not available"),
        (SendOutcome::EncodeFailed("e".to_owned()), "failed to encode worker request: e"),
        (SendOutcome::FrameFailed("e".to_owned()), "failed to frame worker request: e"),
        (SendOutcome::FlushFailed("e".to_owned()), "failed to flush worker request: e"),
    ] {
        assert_eq!(detail(worker.sent(outcome)), told);
        assert!(worker.attached());
    }
    for (outcome, told) in [
        (ReplyOutcome::NoStdout, "worker stdout is not available"),
        (ReplyOutcome::ReadFailed("e".to_owned()), "failed to read worker response: e"),
        (ReplyOutcome::Invalid("e".to_owned()), "invalid worker response: e"),
    ] {
        assert_eq!(detail(worker.answered(outcome)), told);
        assert!(worker.attached());
    }
    assert!(worker.sent(SendOutcome::Sent).is_ok());
    let answer = ReplyOutcome::Answered(WorkerOutcome::Success(Json::Bool(true)));
    assert!(matches!(worker.answered(answer), Ok(Json::Bool(true))));
    assert_eq!(detail(worker.answered(ReplyOutcome::Closed)), "worker exited before replying");
    assert!(!worker.attached());

    assert!(worker.spawned(first().next().unwrap(), SpawnOutcome::Started).is_ok());
    worker.arm_crash_once();
    assert_eq!(detail(worker.sent(SendOutcome::Sent)), "worker crashed before replying");
    assert!(!worker.attached());
    assert!(worker.spawned(Generation::try_new(3).unwrap(), SpawnOutcome::Started).is_ok());
    assert!(worker.sent(SendOutcome::Sent).is_ok());
    worker.restart();
    assert!(!worker.attached());
    assert_eq!(worker.generation().get(), 3);
}

#[test]
fn requests_and_answers_have_a_wire_form() {
    let operation = WorkerOperation { name: "issue.list".to_owned(), arguments: json("{}") };
    assert_eq!(
        operation.request_json(HostRequestId { value: 4 }).to_value(),
        parsed(
            r#"{"kind":"execute","id":4,"operation":{"kind":"call_tool","name":"issue.list","arguments":{}}}"#
        )
    );
    let answer = WorkerOutcome::Success(Json::Null).response_json(HostRequestId { value: 4 });
    assert_eq!(
        answer.to_value(),
        parsed(r#"{"id":4,"outcome":{"status":"success","result":null}}"#)
    );
    let fault = FaultRecord::internal(first(), FaultStage::Worker, "op", "d");
    let answer = WorkerOutcome::Fault(fault).response_json(HostRequestId { value: 5 }).to_value();
    assert_eq!(answer["outcome"]["status"], "fault");
    assert_eq!(answer["outcome"]["fault"]["fault"]["detail"], "d");
}

#[test]
fn refusals_of_the_store_are_faults() {
    let fault = store_fault(first(), "op", StoreError::Io("disk".to_owned()));
    assert_eq!(fault.stage, FaultStage::Store);
    assert_eq!(fault.jsonrpc_code, -32603);
    let fault = store_fault(first(), "op", StoreError::EmptyIssueBody);
    assert_eq!(fault.stage, FaultStage::Worker);
    assert_eq!(fault.jsonrpc_code, -32602);
    assert_eq!(fault.message(), "issue body must not be blank");
}

#[test]
fn a_new_program_file_is_noticed() {
    let started = fingerprint_binary(10, Ok(77));
    let runtime = BinaryRuntime::new(path("/usr/bin/x"), started).ok().unwrap();
    assert!(runtime.launch_path_stable);
    assert_eq!(runtime.rollout_pending(fingerprint_binary(10, Ok(77))), Ok(false));
    assert_eq!(runtime.rollout_pending(fingerprint_binary(10, Ok(78))), Ok(true));
    assert_eq!(runtime.rollout_pending(fingerprint_binary(11, Ok(77))), Ok(true));
    assert_eq!(
        runtime.rollout_pending(fingerprint_binary(11, Err("before epoch".to_owned()))),
        Err("invalid binary mtime: before epoch".to_owned())
    );
    let build = BinaryRuntime::new(path("/w/target/debug/x"), fingerprint_binary(1, Ok(1)));
    assert!(!build.ok().unwrap().launch_path_stable);
    assert!(BinaryRuntime::new(path("/x"), Err("gone".to_owned())).is_err());
}
