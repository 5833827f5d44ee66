//! How the result of a tool is presented to a client.

use vstd::prelude::*;

use libmcp::{DetailLevel, RenderMode, SurfaceKind};

use crate::fault::{
    FaultRecord, FaultRecordView, FaultStage, Generation, internal_record, invalid_input_record,
    text_content, text_content_json,
};
use crate::json::{Json, JsonView, Members, json_from_value, json_of, json_value};
use crate::text::concat;

verus! {

/// `libmcp::RenderMode`, whose variants are public.
#[verifier::external_type_specification]
pub struct ExRenderMode(libmcp::RenderMode);

/// `libmcp::DetailLevel`, whose variants are public.
#[verifier::external_type_specification]
pub struct ExDetailLevel(libmcp::DetailLevel);

/// `libmcp::SurfaceKind`, whose variants are public.
#[verifier::external_type_specification]
pub struct ExSurfaceKind(libmcp::SurfaceKind);

/// The lines that a full text rendering may have.
pub const FULL_PORCELAIN_MAX_LINES: usize = 40;

/// The characters that one fragment of a full text rendering may have.
pub const FULL_PORCELAIN_MAX_INLINE_CHARS: usize = 512;

/// How a client wants a result: as text or as JSON, and in which detail.
pub struct Presentation {
    pub render: RenderMode,
    pub detail: DetailLevel,
}

/// The presentation where a client asks for none.
pub open spec fn default_presentation() -> Presentation {
    Presentation { render: RenderMode::Porcelain, detail: DetailLevel::Concise }
}

impl Default for Presentation {
    fn default() -> (presentation: Self)
        ensures
            presentation == default_presentation(),
    {
        Presentation { render: RenderMode::Porcelain, detail: DetailLevel::Concise }
    }
}

/// The result of a tool in two details, each as a document and as text.
pub struct ToolOutput {
    pub concise: Json,
    pub full: Json,
    pub concise_text: String,
    /// The full text, where it is not rendered from the full document.
    pub full_text: Option<String>,
}

/// The result of a tool, in plain values.
pub struct ToolOutputView {
    pub concise: JsonView,
    pub full: JsonView,
    pub concise_text: Seq<char>,
    pub full_text: Option<Seq<char>>,
}

/// The text of an optional text.
pub open spec fn optional_text(text: Option<String>) -> Option<Seq<char>> {
    match text {
        Some(text) => Some(text@),
        None => None,
    }
}

impl View for ToolOutput {
    type V = ToolOutputView;

    open spec fn view(&self) -> ToolOutputView {
        ToolOutputView {
            concise: self.concise@,
            full: self.full@,
            concise_text: self.concise_text@,
            full_text: optional_text(self.full_text),
        }
    }
}

/// The render mode with this name.
pub open spec fn render_named(name: Seq<char>) -> Option<RenderMode> {
    if name == "porcelain"@ || name == "text"@ || name == "plain"@ || name == "plain_text"@ {
        Some(RenderMode::Porcelain)
    } else if name == "json"@ || name == "structured"@ {
        Some(RenderMode::Json)
    } else {
        None
    }
}

/// The detail level with this name.
pub open spec fn detail_named(name: Seq<char>) -> Option<DetailLevel> {
    if name == "concise"@ || name == "summary"@ || name == "compact"@ {
        Some(DetailLevel::Concise)
    } else if name == "full"@ || name == "verbose"@ || name == "detailed"@ {
        Some(DetailLevel::Full)
    } else {
        None
    }
}

/// `name` is the only member, and it is null.
pub open spec fn only_null_member(members: Map<Seq<char>, JsonView>, name: Seq<char>) -> bool {
    members == Map::<Seq<char>, JsonView>::empty().insert(name, JsonView::Null)
}

/// The name of the variant that a document stands for: a text is the name
/// itself, and an object with one null member has it as the member's name.
pub open spec fn variant_name(json: JsonView) -> Option<Seq<char>> {
    match json {
        JsonView::Text(name) => Some(name),
        JsonView::Object(members) => if exists|name: Seq<char>|
            only_null_member(members, name) {
            Some(choose|name: Seq<char>| only_null_member(members, name))
        } else {
            None
        },
        _ => None,
    }
}

/// The render mode that a document stands for.
pub open spec fn render_chosen(json: JsonView) -> Option<RenderMode> {
    match variant_name(json) {
        Some(name) => render_named(name),
        None => None,
    }
}

/// The detail level that a document stands for.
pub open spec fn detail_chosen(json: JsonView) -> Option<DetailLevel> {
    match variant_name(json) {
        Some(name) => detail_named(name),
        None => None,
    }
}

/// Why a document stands for no render mode, in the parser's words.
pub uninterp spec fn render_refusal(json: JsonView) -> Seq<char>;

/// Why a document stands for no detail level, in the parser's words.
pub uninterp spec fn detail_refusal(json: JsonView) -> Seq<char>;

/// `serde_json::from_value` for a `libmcp::RenderMode`: takes the names of the
/// two modes and their aliases, and gives a message otherwise.
#[verifier::external_body]
fn read_render(value: &serde_json::Value) -> (mode: Result<RenderMode, String>)
    ensures
        mode.ok() == render_chosen(json_of(*value)),
        mode is Err ==> mode->Err_0@ == render_refusal(json_of(*value)),
{
    serde_json::from_value::<RenderMode>(value.clone()).map_err(|error| error.to_string())
}

/// `serde_json::from_value` for a `libmcp::DetailLevel`: takes the names of
/// the two levels and their aliases, and gives a message otherwise.
#[verifier::external_body]
fn read_detail(value: &serde_json::Value) -> (level: Result<DetailLevel, String>)
    ensures
        level.ok() == detail_chosen(json_of(*value)),
        level is Err ==> level->Err_0@ == detail_refusal(json_of(*value)),
{
    serde_json::from_value::<DetailLevel>(value.clone()).map_err(|error| error.to_string())
}

/// The render mode that the arguments ask for, or why they ask for none.
pub open spec fn render_asked(arguments: JsonView) -> Result<RenderMode, Seq<char>> {
    match arguments.member("render"@) {
        None => Ok(RenderMode::Porcelain),
        Some(json) => match render_chosen(json) {
            Some(mode) => Ok(mode),
            None => Err(render_refusal(json)),
        },
    }
}

/// The detail level that the arguments ask for, or why they ask for none.
pub open spec fn detail_asked(arguments: JsonView) -> Result<DetailLevel, Seq<char>> {
    match arguments.member("detail"@) {
        None => Ok(DetailLevel::Concise),
        Some(json) => match detail_chosen(json) {
            Some(level) => Ok(level),
            None => Err(detail_refusal(json)),
        },
    }
}

/// The presentation, or the fault of the first choice that is none.
pub open spec fn presentation_or_fault(
    render: Result<RenderMode, Seq<char>>,
    detail: Result<DetailLevel, Seq<char>>,
    operation: Seq<char>,
    generation: Generation,
    stage: FaultStage,
) -> Result<Presentation, FaultRecordView> {
    match (render, detail) {
        (Ok(render), Ok(detail)) => Ok(Presentation { render, detail }),
        (Err(refusal), _) => Err(
            invalid_input_record(generation, stage, operation, "invalid render mode: "@ + refusal),
        ),
        (_, Err(refusal)) => Err(
            invalid_input_record(generation, stage, operation, "invalid detail level: "@ + refusal),
        ),
    }
}

/// What the arguments ask for, and what is left of them.
pub open spec fn presentation_split(
    arguments: JsonView,
    operation: Seq<char>,
    generation: Generation,
    stage: FaultStage,
) -> Result<(Presentation, JsonView), FaultRecordView> {
    match arguments {
        JsonView::Object(members) => match presentation_or_fault(
            render_asked(arguments),
            detail_asked(arguments),
            operation,
            generation,
            stage,
        ) {
            Ok(presentation) => Ok(
                (presentation, JsonView::Object(members.remove("render"@).remove("detail"@))),
            ),
            Err(fault) => Err(fault),
        },
        _ => Ok((default_presentation(), arguments)),
    }
}

/// A choice and its refusal, as plain values.
pub open spec fn choice_view<T>(choice: Result<T, String>) -> Result<T, Seq<char>> {
    match choice {
        Ok(value) => Ok(value),
        Err(refusal) => Err(refusal@),
    }
}

/// The presentation, or the fault of the first choice that is none.
pub fn chosen_presentation(
    render: Result<RenderMode, String>,
    detail: Result<DetailLevel, String>,
    operation: &str,
    generation: Generation,
    stage: FaultStage,
) -> (chosen: Result<Presentation, FaultRecord>)
    ensures
        match chosen {
            Ok(presentation) => presentation_or_fault(
                choice_view(render),
                choice_view(detail),
                operation@,
                generation,
                stage,
            ) == Ok::<Presentation, FaultRecordView>(presentation),
            Err(fault) => presentation_or_fault(
                choice_view(render),
                choice_view(detail),
                operation@,
                generation,
                stage,
            ) == Err::<Presentation, FaultRecordView>(fault@),
        },
{
    match render {
        Err(refusal) => Err(
            FaultRecord::invalid_input(
                generation,
                stage,
                operation,
                concat("invalid render mode: ", refusal.as_str()).as_str(),
            ),
        ),
        Ok(render) => match detail {
            Err(refusal) => Err(
                FaultRecord::invalid_input(
                    generation,
                    stage,
                    operation,
                    concat("invalid detail level: ", refusal.as_str()).as_str(),
                ),
            ),
            Ok(detail) => Ok(Presentation { render, detail }),
        },
    }
}

/// Takes the presentation out of the arguments of a tool.
pub fn split_presentation(
    arguments: Json,
    operation: &str,
    generation: Generation,
    stage: FaultStage,
) -> (split: Result<(Presentation, Json), FaultRecord>)
    ensures
        match split {
            Ok((presentation, rest)) => presentation_split(
                arguments@,
                operation@,
                generation,
                stage,
            ) == Ok::<(Presentation, JsonView), FaultRecordView>((presentation, rest@)),
            Err(fault) => presentation_split(arguments@, operation@, generation, stage) == Err::<
                (Presentation, JsonView),
                FaultRecordView,
            >(fault@),
        },
{
    match &arguments {
        Json::Object(_) => {},
        _ => {
            return Ok((Presentation::default(), arguments));
        },
    }
    let render = match arguments.get("render") {
        Some(value) => read_render(&json_value(value)),
        None => Ok(RenderMode::Porcelain),
    };
    let detail = match arguments.get("detail") {
        Some(value) => read_detail(&json_value(value)),
        None => Ok(DetailLevel::Concise),
    };
    match chosen_presentation(render, detail, operation, generation, stage) {
        Ok(presentation) => {
            let rest = arguments.without("render").without("detail");
            Ok((presentation, rest))
        },
        Err(fault) => Err(fault),
    }
}

/// The two documents come out as they went in.
pub open spec fn projects(
    projected: Result<(serde_json::Value, serde_json::Value), String>,
    concise: JsonView,
    full: JsonView,
) -> bool {
    projected matches Ok(documents) && json_of(documents.0) == concise && json_of(documents.1)
        == full
}

/// `libmcp::FallbackJsonProjection::new` with its two projections: the
/// documents come out as they went in.
#[verifier::external_body]
fn project(concise: &serde_json::Value, full: &serde_json::Value, kind: SurfaceKind) -> (projected: Result<
    (serde_json::Value, serde_json::Value),
    String,
>)
    ensures
        projects(projected, json_of(*concise), json_of(*full)),
{
    let fallback = libmcp::FallbackJsonProjection::new(concise, full, kind)
        .map_err(|error| error.to_string())?;
    let concise = libmcp::StructuredProjection::concise_projection(&fallback)
        .map_err(|error| error.to_string())?;
    let full = libmcp::StructuredProjection::full_projection(&fallback)
        .map_err(|error| error.to_string())?;
    Ok((concise, full))
}

/// The result of a tool from its two documents and its texts.
pub fn fallback_detailed_tool_output(
    concise: Json,
    full: Json,
    concise_text: String,
    full_text: Option<String>,
    kind: SurfaceKind,
    generation: Generation,
    stage: FaultStage,
    operation: &str,
) -> (output: Result<ToolOutput, FaultRecord>)
    ensures
        output matches Ok(output) && output@ == (ToolOutputView {
            concise: concise@,
            full: full@,
            concise_text: concise_text@,
            full_text: optional_text(full_text),
        }),
{
    match project(&json_value(&concise), &json_value(&full), kind) {
        Ok((concise, full)) => Ok(
            ToolOutput::from_values(
                json_from_value(&concise),
                json_from_value(&full),
                concise_text,
                full_text,
            ),
        ),
        Err(error) => Err(projection_fault(error.as_str(), generation, stage, operation)),
    }
}

/// The fault of a result that cannot be presented.
pub fn projection_fault(error: &str, generation: Generation, stage: FaultStage, operation: &str) -> (fault:
    FaultRecord)
    ensures
        fault@ == internal_record(generation, stage, operation@, error@),
{
    FaultRecord::internal(generation, stage, operation, error)
}

/// The text rendering of a document within bounds.
pub uninterp spec fn porcelain(json: JsonView, max_lines: nat, max_inline_chars: nat) -> Seq<char>;

/// `libmcp::render_json_porcelain` with `libmcp::JsonPorcelainConfig::try_new`:
/// the text rendering of a document within bounds.
#[verifier::external_body]
fn render_porcelain(value: &serde_json::Value, max_lines: usize, max_inline_chars: usize) -> (text:
    String)
    requires
        max_lines > 0,
        max_inline_chars >= 3,
    ensures
        text@ == porcelain(json_of(*value), max_lines as nat, max_inline_chars as nat),
{
    libmcp::JsonPorcelainConfig::try_new(max_lines, max_inline_chars)
        .map_or_else(|_| String::new(), |config| libmcp::render_json_porcelain(value, config))
}

/// The indented JSON text of a document.
pub uninterp spec fn pretty_text(json: JsonView) -> Seq<char>;

/// `serde_json::to_string_pretty` of a `Value`: its indented JSON text.
#[verifier::external_body]
fn render_pretty(value: &serde_json::Value) -> (text: Result<String, String>)
    ensures
        text is Ok,
        text->Ok_0@ == pretty_text(json_of(*value)),
{
    serde_json::to_string_pretty(value).map_err(|error| error.to_string())
}

impl ToolOutputView {
    /// The document in this detail.
    pub open spec fn document(self, detail: DetailLevel) -> JsonView {
        match detail {
            DetailLevel::Concise => self.concise,
            DetailLevel::Full => self.full,
        }
    }

    /// The text in this detail.
    pub open spec fn plain_text(self, detail: DetailLevel) -> Seq<char> {
        match detail {
            DetailLevel::Concise => self.concise_text,
            DetailLevel::Full => match self.full_text {
                Some(text) => text,
                None => porcelain(
                    self.full,
                    FULL_PORCELAIN_MAX_LINES as nat,
                    FULL_PORCELAIN_MAX_INLINE_CHARS as nat,
                ),
            },
        }
    }

    /// The text that a client sees.
    pub open spec fn shown_text(self, presentation: Presentation) -> Seq<char> {
        match presentation.render {
            RenderMode::Porcelain => self.plain_text(presentation.detail),
            RenderMode::Json => pretty_text(self.document(presentation.detail)),
        }
    }
}

/// What a client is told of a tool that succeeded.
pub open spec fn tool_success_json(text: Seq<char>, structured: JsonView) -> JsonView {
    JsonView::Object(
        map![
            "content"@ => text_content_json(text),
            "structuredContent"@ => structured,
            "isError"@ => JsonView::Bool(false),
        ],
    )
}

/// What a client is told of this result.
pub open spec fn success_json(output: ToolOutputView, presentation: Presentation) -> JsonView {
    tool_success_json(output.shown_text(presentation), output.document(presentation.detail))
}

impl ToolOutput {
    /// The result of a tool.
    pub fn from_values(
        concise: Json,
        full: Json,
        concise_text: String,
        full_text: Option<String>,
    ) -> (output: Self)
        ensures
            output@ == (ToolOutputView {
                concise: concise@,
                full: full@,
                concise_text: concise_text@,
                full_text: optional_text(full_text),
            }),
    {
        ToolOutput { concise, full, concise_text, full_text }
    }

    /// The document in this detail.
    pub fn structured(&self, detail: &DetailLevel) -> (document: &Json)
        ensures
            document@ == self@.document(*detail),
    {
        match detail {
            DetailLevel::Concise => &self.concise,
            DetailLevel::Full => &self.full,
        }
    }

    /// The text in this detail.
    pub fn porcelain_text(&self, detail: &DetailLevel) -> (text: String)
        ensures
            text@ == self@.plain_text(*detail),
    {
        match detail {
            DetailLevel::Concise => self.concise_text.clone(),
            DetailLevel::Full => match &self.full_text {
                Some(text) => text.clone(),
                None => render_porcelain(
                    &json_value(&self.full),
                    FULL_PORCELAIN_MAX_LINES,
                    FULL_PORCELAIN_MAX_INLINE_CHARS,
                ),
            },
        }
    }
}

/// What a client is told of a tool that succeeded.
pub fn tool_result(text: &str, structured: Json) -> (result: Json)
    ensures
        result@ == tool_success_json(text@, structured@),
{
    let mut members = Members::new();
    members.put("content", text_content(text));
    members.put("structuredContent", structured);
    members.put("isError", Json::Bool(false));
    members.object()
}

/// What a client is told of this result.
pub fn tool_success(
    output: ToolOutput,
    presentation: Presentation,
    generation: Generation,
    stage: FaultStage,
    operation: &str,
) -> (result: Result<Json, FaultRecord>)
    ensures
        result matches Ok(json) && json@ == success_json(output@, presentation),
{
    let structured = output.structured(&presentation.detail).duplicate();
    let text = match presentation.render {
        RenderMode::Porcelain => output.porcelain_text(&presentation.detail),
        RenderMode::Json => match render_pretty(&json_value(&structured)) {
            Ok(text) => text,
            Err(error) => {
                return Err(FaultRecord::internal(generation, stage, operation, error.as_str()));
            },
        },
    };
    Ok(tool_result(text.as_str(), structured))
}

/// The schema of the render property.
pub open spec fn render_property() -> JsonView {
    JsonView::Object(
        map![
            "type"@ => JsonView::Text("string"@),
            "enum"@ => JsonView::Array(seq![
                JsonView::Text("porcelain"@),
                JsonView::Text("json"@),
            ]),
            "description"@ => JsonView::Text(
                "Output rendering. Defaults to porcelain for model-friendly summaries."@,
            ),
        ],
    )
}

/// The schema of the detail property.
pub open spec fn detail_property() -> JsonView {
    JsonView::Object(
        map![
            "type"@ => JsonView::Text("string"@),
            "enum"@ => JsonView::Array(seq![
                JsonView::Text("concise"@),
                JsonView::Text("full"@),
            ]),
            "description"@ => JsonView::Text(
                "Output detail level. Concise is the default model-facing summary; full retains more structure."@,
            ),
        ],
    )
}

/// A schema with the two properties of the presentation.
pub open spec fn presented_schema(schema: JsonView) -> JsonView {
    match schema {
        JsonView::Object(members) => {
            let properties = match schema.member("properties"@) {
                Some(JsonView::Object(properties)) => JsonView::Object(
                    properties.insert("render"@, render_property()).insert(
                        "detail"@,
                        detail_property(),
                    ),
                ),
                Some(other) => other,
                None => JsonView::Object(
                    map!["render"@ => render_property(), "detail"@ => detail_property()],
                ),
            };
            let members = members.insert("properties"@, properties);
            JsonView::Object(
                if members.dom().contains("additionalProperties"@) {
                    members
                } else {
                    members.insert("additionalProperties"@, JsonView::Bool(false))
                },
            )
        },
        _ => schema,
    }
}

/// `libmcp::with_presentation_properties`: adds the two properties of the
/// presentation to the schema of an object, and closes it where it says
/// nothing of other properties.
#[verifier::external_body]
fn add_presentation(schema: serde_json::Value) -> (presented: serde_json::Value)
    ensures
        json_of(presented) == presented_schema(json_of(schema)),
{
    libmcp::with_presentation_properties(schema)
}

/// A schema with the two properties of the presentation.
pub fn with_common_presentation(schema: Json) -> (presented: Json)
    ensures
        presented@ == presented_schema(schema@),
{
    json_from_value(&add_presentation(json_value(&schema)))
}

} // verus!
