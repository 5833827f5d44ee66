//! What a request asks for, and in which form it is answered.

use vstd::prelude::*;

use libmcp::ReplayContract;

use crate::catalog::{
    DispatchTarget, ToolView, catalog, definition, tool_definitions, tool_named, tool_spec,
};
use crate::fault::{FaultRecord, jsonrpc_error_json};
use crate::frame::{Frame, response_json};
use crate::json::{Json, JsonView, Members, items_view};
use crate::protocol::{PROTOCOL_VERSION, SERVER_NAME, SERVER_VERSION};
use crate::text::{blank, concat, same_text};

verus! {

/// What the counters of a request are kept under: its method, and for the call
/// of a tool that of the tool too.
pub open spec fn operation_key_of(method: Seq<char>, params: JsonView) -> Seq<char> {
    if method == "tools/call"@ {
        match params.text_member("name"@) {
            Some(name) => "tools/call:"@ + name,
            None => "tools/call"@,
        }
    } else {
        method
    }
}

/// The tool that a request names.
pub open spec fn tool_asked(method: Seq<char>, params: JsonView) -> Option<ToolView> {
    if method == "tools/call"@ {
        match params.text_member("name"@) {
            Some(name) => tool_named(name),
            None => None,
        }
    } else {
        None
    }
}

/// Whether a request is for the worker.
pub open spec fn worker_asked(method: Seq<char>, params: JsonView) -> bool {
    tool_asked(method, params) matches Some(tool) && tool.dispatch is Worker
}

/// Whether a request may be dispatched again.
pub open spec fn contract_of(method: Seq<char>, params: JsonView) -> ReplayContract {
    if method != "tools/call"@ {
        ReplayContract::Convergent
    } else {
        match tool_asked(method, params) {
            Some(tool) => tool.replay,
            None => ReplayContract::NeverReplay,
        }
    }
}

/// What the counters of a request are kept under.
pub fn operation_key(method: &str, params: &Json) -> (key: String)
    ensures
        key@ == operation_key_of(method@, params@),
        !blank(method@) ==> !blank(key@),
{
    if same_text(method, "tools/call") {
        proof {
            reveal_strlit("tools/call");
            reveal_strlit("tools/call:");
            assert("tools/call"@[0] == 't');
            assert("tools/call:"@[0] == 't');
        }
        match params.get_text("name") {
            Some(name) => {
                let key = concat("tools/call:", name);
                assert(key@[0] == 't');
                key
            },
            None => "tools/call".to_owned(),
        }
    } else {
        method.to_owned()
    }
}

/// Whether a request is for the worker.
pub fn worker_dispatch(method: &str, params: &Json) -> (yes: bool)
    ensures
        yes == worker_asked(method@, params@),
{
    if !same_text(method, "tools/call") {
        return false;
    }
    match params.get_text("name") {
        Some(name) => match tool_spec(name) {
            Some(tool) => tool.dispatch == DispatchTarget::Worker,
            None => false,
        },
        None => false,
    }
}

/// Whether a request may be dispatched again.
pub fn replay_contract(method: &str, params: &Json) -> (contract: ReplayContract)
    ensures
        contract == contract_of(method@, params@),
{
    if !same_text(method, "tools/call") {
        return ReplayContract::Convergent;
    }
    match params.get_text("name") {
        Some(name) => match tool_spec(name) {
            Some(tool) => tool.replay,
            None => ReplayContract::NeverReplay,
        },
        None => ReplayContract::NeverReplay,
    }
}

/// The call of a tool.
pub struct ToolCallEnvelope {
    pub name: String,
    pub arguments: Json,
}

/// The call of a tool, in plain values.
pub struct EnvelopeView {
    pub name: Seq<char>,
    pub arguments: JsonView,
}

impl View for ToolCallEnvelope {
    type V = EnvelopeView;

    open spec fn view(&self) -> EnvelopeView {
        EnvelopeView { name: self.name@, arguments: self.arguments@ }
    }
}

/// The call of a tool that parameters hold: a name and, where they are given,
/// its arguments, as an object or in this order.
pub open spec fn envelope_of(params: JsonView) -> Option<EnvelopeView> {
    match params {
        JsonView::Object(_) => match params.text_member("name"@) {
            Some(name) => Some(
                EnvelopeView {
                    name,
                    arguments: match params.member("arguments"@) {
                        Some(arguments) => arguments,
                        None => JsonView::Object(Map::empty()),
                    },
                },
            ),
            None => None,
        },
        JsonView::Array(items) => if (items.len() == 1 || items.len() == 2)
            && items[0].text() is Some {
            Some(
                EnvelopeView {
                    name: items[0].text()->0,
                    arguments: if items.len() == 2 {
                        items[1]
                    } else {
                        JsonView::Object(Map::empty())
                    },
                },
            )
        } else {
            None
        },
        _ => None,
    }
}

/// The call of a tool that parameters hold.
pub fn tool_call_envelope(params: &Json) -> (envelope: Option<ToolCallEnvelope>)
    ensures
        match envelope {
            Some(envelope) => envelope_of(params@) == Some(envelope@),
            None => envelope_of(params@) is None,
        },
{
    match params {
        Json::Object(_) => match params.get_text("name") {
            Some(name) => {
                let arguments = match params.get("arguments") {
                    Some(arguments) => arguments.duplicate(),
                    None => Json::empty_object(),
                };
                Some(ToolCallEnvelope { name: name.to_owned(), arguments })
            },
            None => None,
        },
        Json::Array(items) => {
            assert(items_view(items@).len() == items@.len());
            if items.len() != 1 && items.len() != 2 {
                return None;
            }
            assert(items_view(items@)[0] == items@[0]@);
            match items[0].as_text() {
                Some(name) => {
                    let arguments = if items.len() == 2 {
                        assert(items_view(items@)[1] == items@[1]@);
                        items[1].duplicate()
                    } else {
                        Json::empty_object()
                    };
                    Some(ToolCallEnvelope { name: name.to_owned(), arguments })
                },
                None => None,
            }
        },
        _ => None,
    }
}

/// The texts that arguments hold for the given fields: by name in an object, or
/// in this order in an array of that length.
pub open spec fn text_fields(arguments: JsonView, fields: Seq<Seq<char>>) -> Option<
    Seq<Seq<char>>,
> {
    match arguments {
        JsonView::Object(_) => if forall|i: int|
            0 <= i < fields.len() ==> arguments.text_member(#[trigger] fields[i]) is Some {
            Some(fields.map_values(|field: Seq<char>| arguments.text_member(field)->0))
        } else {
            None
        },
        JsonView::Array(items) => if items.len() == fields.len() && forall|i: int|
            0 <= i < items.len() ==> (#[trigger] items[i]).text() is Some {
            Some(items.map_values(|item: JsonView| item.text()->0))
        } else {
            None
        },
        _ => None,
    }
}

/// The names of some fields.
pub open spec fn field_names(fields: Seq<&str>) -> Seq<Seq<char>> {
    fields.map_values(|field: &str| field@)
}

/// The texts that arguments hold for the given fields.
pub fn text_arguments(arguments: &Json, fields: &Vec<&str>) -> (found: Option<Vec<String>>)
    ensures
        match found {
            Some(found) => text_fields(arguments@, field_names(fields@)) == Some(
                crate::text::texts(found@),
            ) && found@.len() == fields@.len(),
            None => text_fields(arguments@, field_names(fields@)) is None,
        },
{
    let ghost names = field_names(fields@);
    match arguments {
        Json::Object(_) => {
            let mut found: Vec<String> = Vec::new();
            let mut at: usize = 0;
            while at < fields.len()
                invariant
                    at <= fields.len(),
                    arguments@ is Object,
                    names == field_names(fields@),
                    names.len() == fields@.len(),
                    found@.len() == at,
                    forall|i: int|
                        0 <= i < at ==> arguments@.text_member(#[trigger] names[i]) == Some(
                            found@[i]@,
                        ),
                decreases fields.len() - at,
            {
                assert(names[at as int] == fields@[at as int]@);
                match arguments.get_text(fields[at]) {
                    Some(text) => found.push(text.to_owned()),
                    None => {
                        assert(arguments@.text_member(names[at as int]) is None);
                        return None;
                    },
                }
                at = at + 1;
            }
            assert(crate::text::texts(found@) =~= names.map_values(
                |field: Seq<char>| arguments@.text_member(field)->0,
            ));
            Some(found)
        },
        Json::Array(items) => {
            let ghost views = items_view(items@);
            assert(arguments@ == JsonView::Array(views));
            assert(views.len() == items@.len());
            assert(names.len() == fields@.len());
            if items.len() != fields.len() {
                return None;
            }
            let mut found: Vec<String> = Vec::new();
            let mut at: usize = 0;
            while at < items.len()
                invariant
                    at <= items.len(),
                    items.len() == fields.len(),
                    views == items_view(items@),
                    views.len() == items@.len(),
                    names.len() == items@.len(),
                    names == field_names(fields@),
                    arguments@ == JsonView::Array(views),
                    found@.len() == at,
                    forall|i: int|
                        0 <= i < at ==> (#[trigger] views[i]).text() == Some(found@[i]@),
                decreases items.len() - at,
            {
                assert(views[at as int] == items@[at as int]@);
                match items[at].as_text() {
                    Some(text) => found.push(text.to_owned()),
                    None => {
                        assert(views[at as int].text() is None);
                        return None;
                    },
                }
                at = at + 1;
            }
            assert(crate::text::texts(found@) =~= views.map_values(
                |item: JsonView| item.text()->0,
            ));
            Some(found)
        },
        _ => None,
    }
}

/// The answer to the request that opens a session.
pub open spec fn initialize_json() -> JsonView {
    JsonView::Object(
        map![
            "protocolVersion"@ => JsonView::Text("2025-11-25"@),
            "capabilities"@ => JsonView::Object(map![
                "tools"@ => JsonView::Object(map!["listChanged"@ => JsonView::Bool(false)]),
            ]),
            "serverInfo"@ => JsonView::Object(map![
                "name"@ => JsonView::Text("jira-at-home"@),
                "version"@ => JsonView::Text("0.1.0"@),
            ]),
            "instructions"@ => JsonView::Text(
                "Bind the session with project.bind, then use issue.save to park categorized notes in the bound state directory under issues/<category>/<slug>.md. The mandatory closed category set is `feature` or `bug`; issue.read and issue.delete require both category and slug, while issue.list enumerates everything still parked."@,
            ),
        ],
    )
}

/// The answer to the request that opens a session.
pub fn initialize_result() -> (json: Json)
    ensures
        json@ == initialize_json(),
{
    let mut tools = Members::new();
    tools.put("listChanged", Json::Bool(false));
    let mut capabilities = Members::new();
    capabilities.put("tools", tools.object());
    let mut server = Members::new();
    server.put_text("name", SERVER_NAME);
    server.put_text("version", SERVER_VERSION);
    let mut members = Members::new();
    members.put_text("protocolVersion", PROTOCOL_VERSION);
    members.put("capabilities", capabilities.object());
    members.put("serverInfo", server.object());
    members.put_text(
        "instructions",
        "Bind the session with project.bind, then use issue.save to park categorized notes in the bound state directory under issues/<category>/<slug>.md. The mandatory closed category set is `feature` or `bug`; issue.read and issue.delete require both category and slug, while issue.list enumerates everything still parked.",
    );
    members.object()
}

/// The answer to the request for the tools.
pub open spec fn tool_list_json() -> JsonView {
    JsonView::Object(
        map!["tools"@ => JsonView::Array(
            catalog().map_values(|tool: ToolView| definition(tool)),
        )],
    )
}

/// The answer to the request for the tools.
pub fn tool_list() -> (json: Json)
    ensures
        json@ == tool_list_json(),
{
    let mut members = Members::new();
    members.put("tools", Json::array(tool_definitions()));
    members.object()
}

/// A response with a result.
pub fn jsonrpc_result(id: Json, result: Json) -> (response: Json)
    ensures
        response@ == response_json(id@, false, result@),
{
    let mut members = Members::new();
    members.put_text("jsonrpc", "2.0");
    members.put("id", id);
    members.put("result", result);
    members.object()
}

/// A response with an error.
pub fn jsonrpc_error(id: Json, fault: FaultRecord) -> (response: Json)
    ensures
        response@ == response_json(id@, true, jsonrpc_error_json(fault@)),
{
    let mut members = Members::new();
    members.put_text("jsonrpc", "2.0");
    members.put("id", id);
    members.put("error", fault.into_jsonrpc_error());
    members.object()
}

/// A duration in milliseconds; the greatest value once it no longer fits.
pub fn elapsed_ms(millis: u128) -> (elapsed: u64)
    ensures
        elapsed == (if millis > u64::MAX {
            u64::MAX
        } else {
            millis as u64
        }),
{
    if millis > u64::MAX as u128 {
        u64::MAX
    } else {
        millis as u64
    }
}

/// What a frame that names a tool says of it.
pub struct ToolMeta {
    pub tool_name: String,
    pub lsp_method: Option<String>,
    pub path_hint: Option<String>,
}

/// What a frame that names a tool says of it, in plain values.
pub struct ToolMetaView {
    pub tool_name: Seq<char>,
    pub lsp_method: Option<Seq<char>>,
    pub path_hint: Option<Seq<char>>,
}

impl View for ToolMeta {
    type V = ToolMetaView;

    open spec fn view(&self) -> ToolMetaView {
        ToolMetaView {
            tool_name: self.tool_name@,
            lsp_method: crate::output::optional_text(self.lsp_method),
            path_hint: crate::output::optional_text(self.path_hint),
        }
    }
}

/// What the body of a message says of the tool that it names.
pub uninterp spec fn tool_meta_of(body: JsonView) -> Option<ToolMetaView>;

/// The tool that the parameters of a message name.
pub open spec fn tool_name_in(body: JsonView) -> Option<Seq<char>> {
    match body.member("params"@) {
        Some(params) => match params.text_member("name"@) {
            Some(name) => if blank(name) {
                None
            } else {
                Some(name)
            },
            None => None,
        },
        None => None,
    }
}

/// The name in what is said of a tool.
pub open spec fn meta_name(meta: Option<ToolMetaView>) -> Option<Seq<char>> {
    match meta {
        Some(meta) => Some(meta.tool_name),
        None => None,
    }
}

/// What is said of a tool, in plain values.
pub open spec fn optional_meta(meta: Option<ToolMeta>) -> Option<ToolMetaView> {
    match meta {
        Some(meta) => Some(meta@),
        None => None,
    }
}

/// `libmcp::parse_tool_call_meta` for `tools/call`: a function of the message;
/// there is something to say exactly where the parameters name a tool.
#[verifier::external_body]
pub(crate) fn tool_meta(frame: &Frame) -> (meta: Option<ToolMeta>)
    ensures
        optional_meta(meta) == tool_meta_of(frame@.body),
        meta_name(optional_meta(meta)) == tool_name_in(frame@.body),
{
    libmcp::parse_tool_call_meta(frame.message(), &libmcp::RpcMethod::tools_call()).map(|meta| {
        ToolMeta {
            tool_name: meta.tool_name.as_str().to_owned(),
            lsp_method: meta.lsp_method.map(|method| method.as_str().to_owned()),
            path_hint: meta.path_hint,
        }
    })
}

} // verus!
