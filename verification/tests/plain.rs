//! Text, documents, paths, faults and the order of lists.

use jira_at_home::fault::{FaultRecord, FaultStage, Generation};
use jira_at_home::frame::{Frame, FrameFault, FrameKind};
use jira_at_home::json::{Json, Members};
use jira_at_home::order::text_at_most;
use jira_at_home::path::{LocalPath, extension, file_stem};
use jira_at_home::text;
use jira_at_home::text::{decimal, is_blank, join_lines, same_text, signed_decimal, trim};
use libmcp::HostRejection;
use serde_json::Value;

fn parsed(text: &str) -> Value {
    serde_json::from_str(text).unwrap()
}

fn path(text: &str) -> LocalPath {
    LocalPath::from_text(text)
}

fn shown(path: Option<LocalPath>) -> Option<String> {
    path.map(|path| path.display())
}

#[test]
fn blank_text_is_white_space() {
    assert!(is_blank(""));
    assert!(is_blank(" \t\r\n"));
    assert!(is_blank("\u{3000}\u{a0}"));
    assert!(!is_blank(" x "));
    assert_eq!(trim("  a b\n"), "a b");
    assert_eq!(trim("\u{2003}a\u{2003}"), "a");
    assert_eq!(trim(" \n"), "");
}

#[test]
fn texts_are_put_together() {
    assert_eq!(text::concat("a", "b"), "ab");
    assert_eq!(text::concat3("a", "", "c"), "ac");
    assert_eq!(join_lines(&vec!["a".to_owned(), "b".to_owned()]), "a\nb");
    assert_eq!(join_lines(&vec![]), "");
    assert!(same_text("issue", "issue"));
    assert!(!same_text("issue", "issues"));
}

#[test]
fn numbers_are_written_in_decimal() {
    assert_eq!(decimal(0), "0");
    assert_eq!(decimal(1024), "1024");
    assert_eq!(decimal(u64::MAX), "18446744073709551615");
    assert_eq!(signed_decimal(-7), "-7");
    assert_eq!(signed_decimal(i64::MIN), "-9223372036854775808");
    assert_eq!(signed_decimal(i64::MAX), "9223372036854775807");
}

#[test]
fn texts_are_ordered_as_in_a_dictionary() {
    assert!(text_at_most("a", "a"));
    assert!(text_at_most("a", "a-b"));
    assert!(text_at_most("a-b", "a0"));
    assert!(!text_at_most("b", "a"));
    assert!(text_at_most("", "a"));
    assert!(text_at_most("z", "\u{e9}"));
}

#[test]
fn documents_pass_through_serde_json() {
    let text = r#"{"a":[null,true,0,18446744073709551615,-1,1.5,"x"],"b":{"c":{}}}"#;
    let json = Json::from_value(&parsed(text));
    assert_eq!(json.to_value(), parsed(text));
    assert_eq!(json.duplicate().to_value(), parsed(text));
    match json.get("a") {
        Some(Json::Array(items)) => {
            assert!(matches!(items[2], Json::Unsigned(0)));
            assert!(matches!(items[4], Json::Negative(-1)));
            assert!(matches!(items[5], Json::Fraction(_)));
        },
        _ => panic!("an array is expected"),
    }
    assert_eq!(Json::Negative(5).to_value(), parsed("5"));
}

#[test]
fn the_later_of_two_members_counts() {
    let mut members = Members::new();
    members.put("a", Json::Bool(false));
    members.put_text("b", "x");
    members.put("a", Json::Bool(true));
    let object = members.object();
    assert!(matches!(object.get("a"), Some(Json::Bool(true))));
    assert_eq!(object.get_text("b"), Some("x"));
    assert_eq!(object.get_text("a"), None);
    assert!(object.get("c").is_none());
    assert_eq!(object.to_value(), parsed(r#"{"a":true,"b":"x"}"#));
    assert_eq!(object.without("a").to_value(), parsed(r#"{"b":"x"}"#));
}

#[test]
fn frames_say_what_they_are() {
    let frame = Frame::parse(
        br#"{"jsonrpc":"2.0","id":-4,"method":"tools/call","params":{"name":"x"}}"#.to_vec(),
    )
    .ok()
    .unwrap();
    match frame.kind() {
        FrameKind::Request { id, method } => {
            assert_eq!(id.to_value(), parsed("-4"));
            assert_eq!(method, "tools/call");
        },
        _ => panic!("a request is expected"),
    }
    assert_eq!(frame.params().to_value(), parsed(r#"{"name":"x"}"#));
    assert_eq!(frame.payload().len(), 69);

    let frame = Frame::parse(br#"{"jsonrpc":"2.0","method":"x"}"#.to_vec()).ok().unwrap();
    assert!(matches!(frame.kind(), FrameKind::Notification { .. }));
    assert_eq!(frame.params().to_value(), parsed("{}"));
    let frame =
        Frame::parse(br#"{"jsonrpc":"2.0","id":1,"result":null}"#.to_vec()).ok().unwrap();
    assert!(matches!(frame.kind(), FrameKind::Response));

    assert!(matches!(Frame::parse(b"[".to_vec()), Err(FrameFault::InvalidJson(_))));
    assert!(matches!(Frame::parse(b"[]".to_vec()), Err(FrameFault::Malformed(_))));
    assert!(matches!(
        Frame::parse(br#"{"jsonrpc":"2.0","method":" "}"#.to_vec()),
        Err(FrameFault::Malformed(_))
    ));
}

#[test]
fn paths_are_joined_and_taken_apart() {
    assert_eq!(path("/a").join("b").display(), "/a/b");
    assert_eq!(path("/a/").join("b").display(), "/a/b");
    assert_eq!(path("/a").join("/b").display(), "/b");
    assert_eq!(path("").join("b").display(), "b");
    assert!(path("/a").is_absolute());
    assert!(!path("a").is_absolute());
    assert_eq!(shown(path("/a/b").parent()), Some("/a".to_owned()));
    assert_eq!(shown(path("/a").parent()), Some("/".to_owned()));
    assert_eq!(shown(path("/").parent()), None);
    assert_eq!(shown(path("a").parent()), Some("".to_owned()));
    assert_eq!(shown(path("").parent()), None);
    assert_eq!(path("/a/b.md").file_name(), Some(b"b.md".to_vec()));
    assert_eq!(path("/a/b/").file_name(), Some(b"b".to_vec()));
    assert_eq!(path("/a/..").file_name(), None);
    assert_eq!(path("/").file_name(), None);
}

#[test]
fn paths_are_compared_by_their_parts() {
    assert!(path("/a//b/.").same_path(&path("/a/b")));
    assert!(!path("./a").same_path(&path("a")));
    assert!(!path("/a/../b").same_path(&path("/b")));
    assert_eq!(shown(path("/a/b/c").strip_prefix(&path("/a"))), Some("b/c".to_owned()));
    assert_eq!(shown(path("/a/b").strip_prefix(&path("/a/b"))), Some("".to_owned()));
    assert_eq!(shown(path("/ab/c").strip_prefix(&path("/a"))), None);
    assert_eq!(
        path("/a/./b/../c").normal_names(),
        vec![b"a".to_vec(), b"b".to_vec(), b"c".to_vec()]
    );
}

#[test]
fn file_names_have_stems_and_extensions() {
    assert_eq!(file_stem(&b"a.b.md".to_vec()), b"a.b".to_vec());
    assert_eq!(extension(&b"a.b.md".to_vec()), Some(b"md".to_vec()));
    assert_eq!(file_stem(&b".md".to_vec()), b".md".to_vec());
    assert_eq!(extension(&b".md".to_vec()), None);
    assert_eq!(extension(&b"md".to_vec()), None);
    assert_eq!(extension(&b"a.".to_vec()), Some(b"".to_vec()));
}

#[test]
fn bytes_that_are_no_text_are_shown_with_marks() {
    assert_eq!(LocalPath::from_bytes(vec![47, 97, 255]).display(), "/a\u{fffd}");
}

#[test]
fn generations_go_up() {
    let first = Generation::genesis();
    assert_eq!(first.get(), 1);
    assert_eq!(first.next().unwrap().get(), 2);
    assert!(Generation::try_new(0).is_none());
    assert!(Generation::try_new(u64::MAX).unwrap().next().is_none());
}

#[test]
fn faults_have_a_wire_form() {
    let generation = Generation::genesis();
    let fault = FaultRecord::transport(generation, FaultStage::Transport, "worker.read", "gone");
    assert_eq!(fault.message(), "gone");
    assert_eq!(
        fault.to_json().to_value(),
        parsed(
            r#"{"fault":{"generation":1,"class":"transport","code":"transport_failure","recovery_hint":"replace_worker","detail":"gone"},"stage":"Transport","operation":"worker.read","jsonrpc_code":-32603,"retryable":true,"retried":false}"#
        )
    );
    let marked = fault.mark_retried();
    assert!(marked.retried);
    let error = marked.duplicate().into_jsonrpc_error().to_value();
    assert_eq!(error["code"], -32603);
    assert_eq!(error["message"], "gone");
    assert_eq!(error["data"]["retried"], Value::Bool(true));
    let result = marked.into_tool_result().to_value();
    assert_eq!(result["isError"], Value::Bool(true));
    assert_eq!(result["content"], parsed(r#"[{"type":"text","text":"gone"}]"#));
}

#[test]
fn every_fault_has_its_code() {
    let g = Generation::genesis();
    let stage = FaultStage::Host;
    let cases = [
        (FaultRecord::parse_error(g, "op", "d"), "parse_error", "protocol", -32700),
        (FaultRecord::invalid_request(g, "op", "d"), "invalid_request", "protocol", -32600),
        (FaultRecord::invalid_input(g, stage, "op", "d"), "invalid_input", "protocol", -32602),
        (FaultRecord::not_initialized(g, stage, "op", "d"), "not_initialized", "protocol", -32002),
        (FaultRecord::unavailable(g, stage, "op", "d"), "unavailable", "resource", -32004),
        (FaultRecord::transport(g, stage, "op", "d"), "transport_failure", "transport", -32603),
        (FaultRecord::process(g, stage, "op", "d"), "process_failure", "process", -32603),
        (FaultRecord::internal(g, stage, "op", "d"), "internal_failure", "invariant", -32603),
        (FaultRecord::rollout(g, "op", "d"), "rollout_failure", "rollout", -32603),
    ];
    for (fault, code, class, number) in cases {
        assert_eq!(fault.jsonrpc_code, number, "{code}");
        let wire = fault.to_json().to_value();
        assert_eq!(wire["fault"]["code"], code);
        assert_eq!(wire["fault"]["class"], class, "{code}");
        let detail = fault.error_detail();
        assert_eq!(detail.kind.as_deref(), Some(code));
    }
}

#[test]
fn rejections_keep_their_code_and_message() {
    let g = Generation::genesis();
    let cases = [
        (HostRejection::QueueOverflow, "queue_overflow", "resource"),
        (HostRejection::ReplayBudgetExhausted, "replay_budget_exhausted", "replay"),
        (HostRejection::DuplicateRequestId, "duplicate_request_id", "protocol"),
        (HostRejection::PendingCapacityExhausted, "pending_capacity_exhausted", "resource"),
        (HostRejection::InvalidRequestFrame, "invalid_request_frame", "protocol"),
        (HostRejection::AmbiguousOutcome, "ambiguous_outcome", "ambiguous_outcome"),
        (HostRejection::RequestNotPending, "request_not_pending", "invariant"),
        (HostRejection::InvalidExecutionState, "invalid_execution_state", "invariant"),
    ];
    for (rejection, code, class) in cases {
        let fault = FaultRecord::host_rejection(g, FaultStage::Protocol, "op", rejection);
        assert_eq!(fault.jsonrpc_code, rejection.code());
        assert_eq!(fault.message(), rejection.message());
        let wire = fault.to_json().to_value();
        assert_eq!(wire["fault"]["code"], code);
        assert_eq!(wire["fault"]["class"], class);
    }
}
