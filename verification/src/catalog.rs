//! The tools that the server offers.

use vstd::prelude::*;

use libmcp::ReplayContract;

use crate::json::{Json, JsonView, Members, items_view};
use crate::output::{presented_schema, with_common_presentation};
use crate::text::same_text;

verus! {

/// Who carries a tool out.
#[derive(Clone, Copy, Debug, PartialEq, Eq, Structural)]
pub enum DispatchTarget {
    Host,
    Worker,
}

/// One tool.
pub struct ToolSpec {
    pub name: &'static str,
    pub description: &'static str,
    pub dispatch: DispatchTarget,
    pub replay: ReplayContract,
}

/// One tool, in plain values.
pub struct ToolView {
    pub name: Seq<char>,
    pub description: Seq<char>,
    pub dispatch: DispatchTarget,
    pub replay: ReplayContract,
}

impl View for ToolSpec {
    type V = ToolView;

    open spec fn view(&self) -> ToolView {
        ToolView {
            name: self.name@,
            description: self.description@,
            dispatch: self.dispatch,
            replay: self.replay,
        }
    }
}

/// Binds the session to a project.
pub open spec fn project_bind_tool() -> ToolView {
    ToolView {
        name: "project.bind"@,
        description: "Bind this MCP session to a project root or a nested path inside one."@,
        dispatch: DispatchTarget::Host,
        replay: ReplayContract::NeverReplay,
    }
}

/// Writes an issue.
pub open spec fn issue_save_tool() -> ToolView {
    ToolView {
        name: "issue.save"@,
        description:
            "Create or overwrite one categorized issue note at `issues/<category>/<slug>.md` under the bound project's external state root."@,
        dispatch: DispatchTarget::Worker,
        replay: ReplayContract::NeverReplay,
    }
}

/// Deletes an issue.
pub open spec fn issue_delete_tool() -> ToolView {
    ToolView {
        name: "issue.delete"@,
        description:
            "Delete one issue note by category and slug from the bound project's external state root."@,
        dispatch: DispatchTarget::Worker,
        replay: ReplayContract::NeverReplay,
    }
}

/// Lists the issues.
pub open spec fn issue_list_tool() -> ToolView {
    ToolView {
        name: "issue.list"@,
        description:
            "List the currently parked issues across the closed category set `feature | bug`. There is no close state; deleting an issue removes its file entirely."@,
        dispatch: DispatchTarget::Worker,
        replay: ReplayContract::Convergent,
    }
}

/// Reads an issue.
pub open spec fn issue_read_tool() -> ToolView {
    ToolView {
        name: "issue.read"@,
        description: "Read one issue note by category and slug."@,
        dispatch: DispatchTarget::Worker,
        replay: ReplayContract::Convergent,
    }
}

/// Reads the health of the host.
pub open spec fn system_health_tool() -> ToolView {
    ToolView {
        name: "system.health"@,
        description:
            "Read MCP host health, binding state, worker generation, and rollout state."@,
        dispatch: DispatchTarget::Host,
        replay: ReplayContract::Convergent,
    }
}

/// Reads the telemetry of the host.
pub open spec fn system_telemetry_tool() -> ToolView {
    ToolView {
        name: "system.telemetry"@,
        description: "Read aggregate MCP host telemetry and top hot methods for this session."@,
        dispatch: DispatchTarget::Host,
        replay: ReplayContract::Convergent,
    }
}

/// The tools, in the order in which clients see them.
pub open spec fn catalog() -> Seq<ToolView> {
    seq![
        project_bind_tool(),
        issue_save_tool(),
        issue_delete_tool(),
        issue_list_tool(),
        issue_read_tool(),
        system_health_tool(),
        system_telemetry_tool(),
    ]
}

/// The tool with this name.
pub open spec fn tool_named(name: Seq<char>) -> Option<ToolView> {
    if name == "project.bind"@ {
        Some(project_bind_tool())
    } else if name == "issue.save"@ {
        Some(issue_save_tool())
    } else if name == "issue.delete"@ {
        Some(issue_delete_tool())
    } else if name == "issue.list"@ {
        Some(issue_list_tool())
    } else if name == "issue.read"@ {
        Some(issue_read_tool())
    } else if name == "system.health"@ {
        Some(system_health_tool())
    } else if name == "system.telemetry"@ {
        Some(system_telemetry_tool())
    } else {
        None
    }
}

/// The names of the tools differ.
proof fn lemma_names_differ()
    ensures
        forall|i: int, j: int|
            #![trigger catalog()[i], catalog()[j]]
            0 <= i < j < 7 ==> catalog()[i].name != catalog()[j].name,
{
    reveal_strlit("project.bind");
    reveal_strlit("issue.save");
    reveal_strlit("issue.delete");
    reveal_strlit("issue.list");
    reveal_strlit("issue.read");
    reveal_strlit("system.health");
    reveal_strlit("system.telemetry");
    let lengths = seq![12nat, 10, 12, 10, 10, 13, 16];
    assert forall|i: int| 0 <= i < 7 implies (#[trigger] catalog()[i]).name.len() == lengths[i] by {}
    assert("project.bind"@[0] == 'p' && "issue.delete"@[0] == 'i');
    assert("issue.save"@[6] == 's' && "issue.list"@[6] == 'l' && "issue.read"@[6] == 'r');
}

/// Each tool of the catalog is the one that a lookup by its name finds, and a
/// lookup finds nothing else.
pub proof fn law_catalog_lookup(name: Seq<char>)
    ensures
        forall|i: int|
            0 <= i < catalog().len() && (#[trigger] catalog()[i]).name == name ==> tool_named(name)
                == Some(catalog()[i]),
        tool_named(name) matches Some(tool) ==> tool.name == name && catalog().contains(tool),
{
    assert(catalog()[0] == project_bind_tool());
    assert(catalog()[1] == issue_save_tool());
    assert(catalog()[2] == issue_delete_tool());
    assert(catalog()[3] == issue_list_tool());
    assert(catalog()[4] == issue_read_tool());
    assert(catalog()[5] == system_health_tool());
    assert(catalog()[6] == system_telemetry_tool());
    assert forall|i: int|
        0 <= i < catalog().len() && (#[trigger] catalog()[i]).name == name implies tool_named(name)
        == Some(catalog()[i]) by {
        lemma_names_differ();
    }
}

/// Every tool that may be dispatched again reads only; every tool that writes
/// is never dispatched again.
pub proof fn law_writers_are_never_replayed()
    ensures
        tool_named("issue.save"@) matches Some(tool) && tool.replay is NeverReplay,
        tool_named("issue.delete"@) matches Some(tool) && tool.replay is NeverReplay,
        tool_named("project.bind"@) matches Some(tool) && tool.replay is NeverReplay,
        forall|name: Seq<char>|
            (#[trigger] tool_named(name) matches Some(tool) && !(tool.replay is NeverReplay)) ==> (
            name == "issue.list"@ || name == "issue.read"@ || name == "system.health"@ || name
                == "system.telemetry"@),
{
    lemma_names_differ();
    assert(catalog()[0].name != catalog()[1].name);
    assert(catalog()[0].name != catalog()[2].name);
    assert(catalog()[1].name != catalog()[2].name);
}

/// The text of a dispatch target.
pub open spec fn dispatch_text(dispatch: DispatchTarget) -> Seq<char> {
    match dispatch {
        DispatchTarget::Host => "host"@,
        DispatchTarget::Worker => "worker"@,
    }
}

/// The text of a replay contract.
pub open spec fn replay_text(replay: ReplayContract) -> Seq<char> {
    match replay {
        ReplayContract::Convergent => "convergent"@,
        ReplayContract::ProbeRequired => "probe_required"@,
        ReplayContract::NeverReplay => "never_replay"@,
    }
}

/// What clients are told of a tool besides its schema.
pub open spec fn annotations(tool: ToolView) -> JsonView {
    JsonView::Object(
        map![
            "title"@ => JsonView::Text(tool.name),
            "readOnlyHint"@ => JsonView::Bool(tool.replay is Convergent),
            "destructiveHint"@ => JsonView::Bool(tool.replay is NeverReplay),
            "jiraAtHome"@ => JsonView::Object(map![
                "dispatch"@ => JsonView::Text(dispatch_text(tool.dispatch)),
                "replayContract"@ => JsonView::Text(replay_text(tool.replay)),
            ]),
        ],
    )
}

/// A text property of a schema.
pub open spec fn text_property(description: Seq<char>) -> JsonView {
    JsonView::Object(
        map!["type"@ => JsonView::Text("string"@), "description"@ => JsonView::Text(description)],
    )
}

/// The category property of a schema.
pub open spec fn category_property() -> JsonView {
    JsonView::Object(
        map![
            "type"@ => JsonView::Text("string"@),
            "description"@ => JsonView::Text("Mandatory issue category."@),
            "enum"@ => JsonView::Array(seq![
                JsonView::Text("feature"@),
                JsonView::Text("bug"@),
            ]),
        ],
    )
}

/// The schema of an object with required properties.
pub open spec fn object_schema(
    properties: Map<Seq<char>, JsonView>,
    required: Seq<JsonView>,
) -> JsonView {
    JsonView::Object(
        map![
            "type"@ => JsonView::Text("object"@),
            "properties"@ => JsonView::Object(properties),
            "required"@ => JsonView::Array(required),
        ],
    )
}

/// The schema of the arguments of a tool; nothing is known of other names.
pub open spec fn schema_of(name: Seq<char>) -> JsonView {
    if name == "project.bind"@ {
        presented_schema(
            object_schema(
                map!["path"@ => text_property(
                    "Project root or any nested path inside the target project."@,
                )],
                seq![JsonView::Text("path"@)],
            ),
        )
    } else if name == "issue.save"@ {
        presented_schema(
            object_schema(
                map![
                    "category"@ => category_property(),
                    "slug"@ => text_property(
                        "Stable slug. Stored at `issues/<category>/<slug>.md` under the bound project's external state root."@,
                    ),
                    "body"@ => text_property("Freeform issue body. Markdown is fine."@),
                ],
                seq![
                    JsonView::Text("category"@),
                    JsonView::Text("slug"@),
                    JsonView::Text("body"@),
                ],
            ),
        )
    } else if name == "issue.delete"@ {
        presented_schema(
            object_schema(
                map![
                    "category"@ => category_property(),
                    "slug"@ => text_property(
                        "Issue slug to delete within the selected category."@,
                    ),
                ],
                seq![JsonView::Text("category"@), JsonView::Text("slug"@)],
            ),
        )
    } else if name == "issue.read"@ {
        presented_schema(
            object_schema(
                map![
                    "category"@ => category_property(),
                    "slug"@ => text_property("Issue slug to read within the selected category."@),
                ],
                seq![JsonView::Text("category"@), JsonView::Text("slug"@)],
            ),
        )
    } else if name == "issue.list"@ || name == "system.health"@ || name == "system.telemetry"@ {
        presented_schema(
            JsonView::Object(
                map![
                    "type"@ => JsonView::Text("object"@),
                    "properties"@ => JsonView::Object(Map::empty()),
                ],
            ),
        )
    } else {
        JsonView::Null
    }
}

/// What clients are told of a tool.
pub open spec fn definition(tool: ToolView) -> JsonView {
    JsonView::Object(
        map![
            "name"@ => JsonView::Text(tool.name),
            "description"@ => JsonView::Text(tool.description),
            "inputSchema"@ => schema_of(tool.name),
            "annotations"@ => annotations(tool),
        ],
    )
}

impl ToolSpec {
    /// What clients are told of the tool besides its schema.
    pub fn annotation_json(&self) -> (json: Json)
        ensures
            json@ == annotations(self@),
    {
        let mut details = Members::new();
        details.put_text(
            "dispatch",
            match self.dispatch {
                DispatchTarget::Host => "host",
                DispatchTarget::Worker => "worker",
            },
        );
        details.put_text(
            "replayContract",
            match self.replay {
                ReplayContract::Convergent => "convergent",
                ReplayContract::ProbeRequired => "probe_required",
                ReplayContract::NeverReplay => "never_replay",
            },
        );
        let mut members = Members::new();
        members.put_text("title", self.name);
        members.put(
            "readOnlyHint",
            Json::Bool(
                match self.replay {
                    ReplayContract::Convergent => true,
                    _ => false,
                },
            ),
        );
        members.put(
            "destructiveHint",
            Json::Bool(
                match self.replay {
                    ReplayContract::NeverReplay => true,
                    _ => false,
                },
            ),
        );
        members.put("jiraAtHome", details.object());
        members.object()
    }
}

/// The tool with this name.
pub fn tool_spec(name: &str) -> (tool: Option<ToolSpec>)
    ensures
        match tool {
            Some(tool) => tool_named(name@) == Some(tool@),
            None => tool_named(name@) is None,
        },
{
    if same_text(name, "project.bind") {
        Some(
            ToolSpec {
                name: "project.bind",
                description: "Bind this MCP session to a project root or a nested path inside one.",
                dispatch: DispatchTarget::Host,
                replay: ReplayContract::NeverReplay,
            },
        )
    } else if same_text(name, "issue.save") {
        Some(
            ToolSpec {
                name: "issue.save",
                description:
                    "Create or overwrite one categorized issue note at `issues/<category>/<slug>.md` under the bound project's external state root.",
                dispatch: DispatchTarget::Worker,
                replay: ReplayContract::NeverReplay,
            },
        )
    } else if same_text(name, "issue.delete") {
        Some(
            ToolSpec {
                name: "issue.delete",
                description:
                    "Delete one issue note by category and slug from the bound project's external state root.",
                dispatch: DispatchTarget::Worker,
                replay: ReplayContract::NeverReplay,
            },
        )
    } else if same_text(name, "issue.list") {
        Some(
            ToolSpec {
                name: "issue.list",
                description:
                    "List the currently parked issues across the closed category set `feature | bug`. There is no close state; deleting an issue removes its file entirely.",
                dispatch: DispatchTarget::Worker,
                replay: ReplayContract::Convergent,
            },
        )
    } else if same_text(name, "issue.read") {
        Some(
            ToolSpec {
                name: "issue.read",
                description: "Read one issue note by category and slug.",
                dispatch: DispatchTarget::Worker,
                replay: ReplayContract::Convergent,
            },
        )
    } else if same_text(name, "system.health") {
        Some(
            ToolSpec {
                name: "system.health",
                description:
                    "Read MCP host health, binding state, worker generation, and rollout state.",
                dispatch: DispatchTarget::Host,
                replay: ReplayContract::Convergent,
            },
        )
    } else if same_text(name, "system.telemetry") {
        Some(
            ToolSpec {
                name: "system.telemetry",
                description:
                    "Read aggregate MCP host telemetry and top hot methods for this session.",
                dispatch: DispatchTarget::Host,
                replay: ReplayContract::Convergent,
            },
        )
    } else {
        None
    }
}

/// What clients are told of all tools.
pub fn tool_definitions() -> (definitions: Vec<Json>)
    ensures
        items_view(definitions@) == catalog().map_values(|tool: ToolView| definition(tool)),
{
    let names = vec![
        "project.bind",
        "issue.save",
        "issue.delete",
        "issue.list",
        "issue.read",
        "system.health",
        "system.telemetry",
    ];
    proof {
        lemma_names_differ();
        assert forall|i: int| 0 <= i < 7 implies tool_named((#[trigger] names@[i])@) == Some(
            catalog()[i],
        ) && catalog()[i].name == names@[i]@ by {
            assert forall|j: int| 0 <= j < i implies (#[trigger] catalog()[j]).name
                != catalog()[i].name by {}
            assert(catalog()[0].name == "project.bind"@);
            assert(catalog()[1].name == "issue.save"@);
            assert(catalog()[2].name == "issue.delete"@);
            assert(catalog()[3].name == "issue.list"@);
            assert(catalog()[4].name == "issue.read"@);
            assert(catalog()[5].name == "system.health"@);
            assert(catalog()[6].name == "system.telemetry"@);
        }
    }
    let mut definitions: Vec<Json> = Vec::new();
    let mut at: usize = 0;
    while at < names.len()
        invariant
            at <= names.len(),
            names@.len() == 7,
            catalog().len() == 7,
            definitions@.len() == at,
            forall|i: int|
                0 <= i < 7 ==> tool_named((#[trigger] names@[i])@) == Some(catalog()[i])
                    && catalog()[i].name == names@[i]@,
            forall|i: int|
                0 <= i < at ==> (#[trigger] definitions@[i])@ == definition(catalog()[i]),
        decreases names.len() - at,
    {
        let ghost tool_view = catalog()[at as int];
        assert(tool_named(names@[at as int]@) == Some(tool_view));
        match tool_spec(names[at]) {
            Some(tool) => {
                let mut members = Members::new();
                members.put_text("name", tool.name);
                members.put_text("description", tool.description);
                members.put("inputSchema", tool_schema(tool.name));
                members.put("annotations", tool.annotation_json());
                definitions.push(members.object());
            },
            None => {},
        }
        at = at + 1;
    }
    assert(items_view(definitions@) =~= catalog().map_values(|tool: ToolView| definition(tool)));
    definitions
}

fn text_property_json(description: &str) -> (json: Json)
    ensures
        json@ == text_property(description@),
{
    let mut members = Members::new();
    members.put_text("type", "string");
    members.put_text("description", description);
    members.object()
}

fn category_property_json() -> (json: Json)
    ensures
        json@ == category_property(),
{
    let categories = Json::text_array(&vec!["feature", "bug"]);
    assert(categories@ == JsonView::Array(
        seq![JsonView::Text("feature"@), JsonView::Text("bug"@)],
    )) by {
        assert(categories@->Array_0 =~= seq![JsonView::Text("feature"@), JsonView::Text("bug"@)]);
    }
    let mut members = Members::new();
    members.put_text("type", "string");
    members.put_text("description", "Mandatory issue category.");
    members.put("enum", categories);
    members.object()
}

fn object_schema_json(properties: Members, required: Json) -> (json: Json)
    requires
        required@ is Array,
    ensures
        json@ == object_schema(properties@, required@->Array_0),
{
    let mut members = Members::new();
    members.put_text("type", "object");
    members.put("properties", properties.object());
    members.put("required", required);
    members.object()
}

/// The schema of the arguments of a tool; nothing is known of other names.
pub fn tool_schema(name: &str) -> (schema: Json)
    ensures
        schema@ == schema_of(name@),
{
    if same_text(name, "project.bind") {
        let mut properties = Members::new();
        properties.put(
            "path",
            text_property_json("Project root or any nested path inside the target project."),
        );
        let required = Json::text_array(&vec!["path"]);
        assert(required@->Array_0 =~= seq![JsonView::Text("path"@)]);
        with_common_presentation(object_schema_json(properties, required))
    } else if same_text(name, "issue.save") {
        let mut properties = Members::new();
        properties.put("category", category_property_json());
        properties.put(
            "slug",
            text_property_json(
                "Stable slug. Stored at `issues/<category>/<slug>.md` under the bound project's external state root.",
            ),
        );
        properties.put("body", text_property_json("Freeform issue body. Markdown is fine."));
        let required = Json::text_array(&vec!["category", "slug", "body"]);
        assert(required@->Array_0 =~= seq![
            JsonView::Text("category"@),
            JsonView::Text("slug"@),
            JsonView::Text("body"@),
        ]);
        with_common_presentation(object_schema_json(properties, required))
    } else if same_text(name, "issue.delete") {
        let mut properties = Members::new();
        properties.put("category", category_property_json());
        properties.put(
            "slug",
            text_property_json("Issue slug to delete within the selected category."),
        );
        let required = Json::text_array(&vec!["category", "slug"]);
        assert(required@->Array_0 =~= seq![JsonView::Text("category"@), JsonView::Text("slug"@)]);
        with_common_presentation(object_schema_json(properties, required))
    } else if same_text(name, "issue.read") {
        let mut properties = Members::new();
        properties.put("category", category_property_json());
        properties.put(
            "slug",
            text_property_json("Issue slug to read within the selected category."),
        );
        let required = Json::text_array(&vec!["category", "slug"]);
        assert(required@->Array_0 =~= seq![JsonView::Text("category"@), JsonView::Text("slug"@)]);
        with_common_presentation(object_schema_json(properties, required))
    } else if same_text(name, "issue.list") || same_text(name, "system.health") || same_text(
        name,
        "system.telemetry",
    ) {
        let mut members = Members::new();
        members.put_text("type", "object");
        members.put("properties", Json::empty_object());
        with_common_presentation(members.object())
    } else {
        Json::Null
    }
}

} // verus!
