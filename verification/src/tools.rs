//! Laws of the tools that work on issues: from the arguments of a call to the
//! file operation that it asks for, and from what came of that to what the
//! client is told.

use vstd::prelude::*;

use libmcp::{DetailLevel, RenderMode};
use vstd::multiset::Multiset;
use vstd::utf8::{
    encode_utf8, encode_utf8_decode_utf8, is_ascii_chars, is_ascii_chars_encode_utf8,
};

use crate::anchor::ProjectAnchor;
use crate::fault::{FaultRecord, FaultRecordView, FaultStage};
use crate::issue::{
    IssueCategory, IssueKey, IssueSlug, KeyView, StoreError, StoreErrorView, hyphens_meet,
    slug_of_path, valid_slug,
};
use crate::json::{Json, JsonView};
use crate::migration::law_issue_files_are_named_by_slugs;
use crate::notebook::{
    Disk, law_issue_path_names_its_slug, law_issue_paths_differ, lemma_category_name,
    lemma_file_name, lemma_issues_name, lemma_normal_names,
};
use crate::order::{Ranked, ranked, text_le};
use crate::output::{
    Presentation, porcelain, presentation_split, pretty_text, split_presentation, success_json,
};
use crate::path::{
    LocalPath, components, joined, law_root_paths, law_strip_leaves_the_rest, lemma_root_path_grows,
    lossy_text, plain_name, plain_names, relative_path, root_path,
};
use crate::protocol::WorkerOutcome;
use crate::routing::text_fields;
use crate::service::{
    IssueArguments, ToolRun, WorkerService, WorkerStep, concise_item, full_item, list_output, outcome_of,
    relative_text,
};
use crate::store::{
    DeletePlan, DeleteProbe, EntryProbe, IssueSummary, LayoutView, ProjectLayout, ReadProbe,
    SavePlan, SummaryView, Timestamp, category_root_of, entries_outcome, issue_path_of,
    joined_all, list_outcome, rfc3339, summaries,
};
use crate::text::{decimal_text, joined_lines, signed_decimal_text, white_space};

verus! {

/// The members hold this text under this name.
pub open spec fn has_text(
    members: Map<Seq<char>, JsonView>,
    name: Seq<char>,
    text: Seq<char>,
) -> bool {
    members.dom().contains(name) && members[name] == JsonView::Text(text)
}

/// The arguments give these texts for these names: each under its name, or all
/// of them in this order.
pub open spec fn gives(
    arguments: JsonView,
    names: Seq<Seq<char>>,
    given: Seq<Seq<char>>,
) -> bool {
    &&& names.len() == given.len()
    &&& match arguments {
        JsonView::Object(members) => forall|i: int|
            0 <= i < names.len() ==> has_text(members, #[trigger] names[i], given[i]),
        JsonView::Array(items) => items.len() == given.len() && forall|i: int|
            0 <= i < items.len() ==> #[trigger] items[i] == JsonView::Text(given[i]),
        _ => false,
    }
}

/// The arguments ask for this presentation: text unless JSON is asked for, and
/// concise unless everything is asked for.
pub open spec fn shown_as(arguments: JsonView, presentation: Presentation) -> bool {
    match arguments {
        JsonView::Object(members) => {
            &&& match presentation.render {
                RenderMode::Porcelain => !members.dom().contains("render"@) || has_text(
                    members,
                    "render"@,
                    "porcelain"@,
                ),
                RenderMode::Json => has_text(members, "render"@, "json"@),
            }
            &&& match presentation.detail {
                DetailLevel::Concise => !members.dom().contains("detail"@) || has_text(
                    members,
                    "detail"@,
                    "concise"@,
                ),
                DetailLevel::Full => has_text(members, "detail"@, "full"@),
            }
        },
        _ => presentation.render is Porcelain && presentation.detail is Concise,
    }
}

/// The word for a category.
pub open spec fn word_of(category: IssueCategory) -> Seq<char> {
    match category {
        IssueCategory::Feature => "feature"@,
        IssueCategory::Bug => "bug"@,
    }
}

/// A small letter or a digit.
pub open spec fn letter_or_digit(c: char) -> bool {
    'a' <= c <= 'z' || '0' <= c <= '9'
}

/// A slug: small letters and digits, with single hyphens between them.
pub open spec fn proper_slug(slug: Seq<char>) -> bool {
    &&& slug.len() > 0
    &&& forall|i: int|
        0 <= i < slug.len() ==> letter_or_digit(#[trigger] slug[i]) || (slug[i] == '-' && 0 < i
            < slug.len() - 1 && letter_or_digit(slug[i - 1]) && letter_or_digit(slug[i + 1]))
}

/// A text that is not blank.
pub open spec fn filled(text: Seq<char>) -> bool {
    exists|i: int| 0 <= i < text.len() && !white_space(#[trigger] text[i])
}

/// The names on the way from the state of a project to the file of an issue.
pub open spec fn note_names(category: IssueCategory, slug: Seq<char>) -> Seq<Seq<u8>> {
    seq![
        encode_utf8("issues"@),
        encode_utf8(word_of(category)),
        encode_utf8(slug + ".md"@),
    ]
}

/// The state of the project lies in the directory with these names, and its
/// issues in `issues` there.
pub open spec fn lies_in(layout: LayoutView, state: Seq<Seq<u8>>) -> bool {
    &&& plain_names(state)
    &&& layout.state_root == root_path(state)
    &&& layout.issues_root == root_path(state.push(encode_utf8("issues"@)))
}

/// The names of the arguments for an issue.
pub open spec fn key_names() -> Seq<Seq<char>> {
    seq!["category"@, "slug"@]
}

/// The names of the arguments for an issue and its body.
pub open spec fn note_argument_names() -> Seq<Seq<char>> {
    seq!["category"@, "slug"@, "body"@]
}

/// The names of the arguments of the tool with this name.
pub open spec fn argument_names(tool: Seq<char>) -> Seq<Seq<char>> {
    if tool == "issue.save"@ {
        note_argument_names()
    } else {
        key_names()
    }
}

pub(crate) proof fn lemma_words()
    ensures
        "category"@ != "render"@,
        "category"@ != "detail"@,
        "slug"@ != "render"@,
        "slug"@ != "detail"@,
        "body"@ != "render"@,
        "body"@ != "detail"@,
        "render"@ != "detail"@,
        "slug"@ != "body"@,
        "category"@ != "slug"@,
        "category"@ != "body"@,
        "feature"@ != "bug"@,
        "issue.save"@ != "issue.list"@,
        "issue.save"@ != "issue.read"@,
        "issue.save"@ != "issue.delete"@,
        "issue.list"@ != "issue.read"@,
        "issue.list"@ != "issue.delete"@,
        "issue.read"@ != "issue.delete"@,
        "porcelain"@ != "json"@,
        "porcelain"@ != "structured"@,
        "text"@ != "json"@,
        "plain"@ != "json"@,
        "plain_text"@ != "json"@,
        "concise"@ != "full"@,
        "summary"@ != "full"@,
        "compact"@ != "full"@,
{
    reveal_strlit("category");
    reveal_strlit("slug");
    reveal_strlit("body");
    reveal_strlit("render");
    reveal_strlit("detail");
    reveal_strlit("feature");
    reveal_strlit("bug");
    reveal_strlit("issue.save");
    reveal_strlit("issue.list");
    reveal_strlit("issue.read");
    reveal_strlit("issue.delete");
    reveal_strlit("porcelain");
    reveal_strlit("json");
    reveal_strlit("structured");
    reveal_strlit("text");
    reveal_strlit("plain");
    reveal_strlit("plain_text");
    reveal_strlit("concise");
    reveal_strlit("full");
    reveal_strlit("summary");
    reveal_strlit("compact");
    assert("slug"@[0] == 's' && "body"@[0] == 'b' && "render"@[0] == 'r' && "detail"@[0] == 'd');
    assert("issue.save"@[6] == 's' && "issue.list"@[6] == 'l' && "issue.read"@[6] == 'r'
        && "issue.delete"@[6] == 'd');
    assert("text"@[0] == 't' && "json"@[0] == 'j');
    assert("category"@.len() == 8 && "render"@.len() == 6 && "feature"@.len() == 7 && "bug"@.len()
        == 3);
    assert("porcelain"@.len() == 9 && "structured"@.len() == 10);
    assert("concise"@.len() == 7 && "summary"@.len() == 7 && "compact"@.len() == 7 && "full"@.len()
        == 4);
}

/// What is left of the arguments gives the texts that the arguments give.
pub(crate) proof fn lemma_given(
    arguments: JsonView,
    presentation: Presentation,
    operation: Seq<char>,
    generation: crate::fault::Generation,
    stage: FaultStage,
    names: Seq<Seq<char>>,
)
    requires
        forall|i: int|
            0 <= i < names.len() ==> #[trigger] names[i] != "render"@ && names[i] != "detail"@,
        names.len() > 0,
    ensures
        forall|given: Seq<Seq<char>>|
            #![trigger gives(arguments, names, given)]
            (presentation_split(arguments, operation, generation, stage) matches Ok((_, rest))
                && gives(arguments, names, given)) ==> text_fields(
                presentation_split(arguments, operation, generation, stage)->Ok_0.1,
                names,
            ) == Some(given),
        presentation_split(arguments, operation, generation, stage) matches Ok((_, rest))
            ==> (text_fields(rest, names) matches Some(found) ==> gives(arguments, names, found)),
        shown_as(arguments, presentation) ==> (presentation_split(
            arguments,
            operation,
            generation,
            stage,
        ) matches Ok((chosen, _)) && chosen == presentation),
{
    lemma_words();
    let split = presentation_split(arguments, operation, generation, stage);
    if let Ok((_, rest)) = split {
        assert forall|given: Seq<Seq<char>>| #[trigger]
            gives(arguments, names, given) implies text_fields(rest, names) == Some(given) by {
            match arguments {
                JsonView::Object(members) => {
                    assert forall|i: int| 0 <= i < names.len() implies rest.text_member(
                        #[trigger] names[i],
                    ) == Some(given[i]) by {
                        assert(has_text(members, names[i], given[i]));
                    }
                    assert(text_fields(rest, names)->0 =~= given);
                },
                JsonView::Array(items) => {
                    assert forall|i: int| 0 <= i < items.len() implies (
                    #[trigger] items[i]).text() == Some(given[i]) by {}
                    assert(text_fields(rest, names)->0 =~= given);
                },
                _ => {},
            }
        }
        if let Some(found) = text_fields(rest, names) {
            match arguments {
                JsonView::Object(members) => {
                    assert forall|i: int| 0 <= i < names.len() implies has_text(
                        members,
                        #[trigger] names[i],
                        found[i],
                    ) by {
                        assert(rest.text_member(names[i]) is Some);
                    }
                },
                JsonView::Array(items) => {
                    assert forall|i: int| 0 <= i < items.len() implies #[trigger] items[i]
                        == JsonView::Text(found[i]) by {
                        assert(items[i].text() is Some);
                    }
                },
                _ => {},
            }
        }
    }
}

/// A slug is taken exactly where it is made of small letters and digits with
/// single hyphens between them, and is kept as it is.
pub proof fn law_slugs(raw: String, slug: Result<IssueSlug, StoreError>)
    requires
        call_ensures(IssueSlug::parse, (raw,), slug),
    ensures
        slug is Ok <==> proper_slug(raw@),
        slug matches Ok(slug) ==> slug@ == raw@,
{
    lemma_proper_slug(raw@);
}

pub(crate) proof fn lemma_proper_slug(raw: Seq<char>)
    ensures
        valid_slug(raw) <==> proper_slug(raw),
{
    if valid_slug(raw) {
        assert forall|i: int| 0 <= i < raw.len() implies letter_or_digit(#[trigger] raw[i]) || (
        raw[i] == '-' && 0 < i < raw.len() - 1 && letter_or_digit(raw[i - 1]) && letter_or_digit(
            raw[i + 1],
        )) by {
            if raw[i] == '-' {
                assert(!hyphens_meet(raw, i));
                assert(!hyphens_meet(raw, i - 1));
            }
        }
    }
    if proper_slug(raw) {
        assert(raw[0] != '-');
        assert(raw[raw.len() - 1] != '-');
        assert forall|i: int| !#[trigger] hyphens_meet(raw, i) by {
            if hyphens_meet(raw, i) {
                assert(letter_or_digit(raw[i + 1]));
            }
        }
    }
}

/// The file of an issue lies where its names lead.
pub(crate) proof fn lemma_note_place(
    layout: LayoutView,
    state: Seq<Seq<u8>>,
    category: IssueCategory,
    slug: Seq<char>,
)
    requires
        lies_in(layout, state),
        proper_slug(slug),
    ensures
        issue_path_of(layout.issues_root, KeyView { category, slug }) == root_path(
            state + note_names(category, slug),
        ),
        plain_names(state + note_names(category, slug)),
{
    let names = note_names(category, slug);
    lemma_proper_slug(slug);
    lemma_issues_name();
    lemma_category_name(category);
    lemma_file_name(slug);
    let whole = state + names;
    assert forall|i: int| 0 <= i < whole.len() implies plain_name(#[trigger] whole[i]) by {
        if i < state.len() {
            assert(whole[i] == state[i]);
        }
    }
    let middle = whole.drop_last();
    assert(middle.last() == names[1]);
    assert(whole.last() == names[2]);
    lemma_root_path_grows(whole);
    lemma_root_path_grows(middle);
    assert(middle.drop_last() =~= state.push(names[0]));
}

/// A call that saves an issue plans to write exactly the text that it gives,
/// whatever its length, to the file of the issue that it names.
pub proof fn law_save_writes_what_it_is_given(
    service: &WorkerService,
    name: &str,
    arguments: Json,
    step: WorkerStep,
    plan: SavePlan,
    bytes: &[u8],
    presentation: Presentation,
    category: IssueCategory,
    slug: Seq<char>,
    body: Seq<char>,
    state: Seq<Seq<u8>>,
)
    requires
        call_ensures(WorkerService::call_tool, (service, name, arguments), step),
        name@ == "issue.save"@,
        gives(arguments@, note_argument_names(), seq![word_of(category), slug, body]),
        shown_as(arguments@, presentation),
        proper_slug(slug),
        filled(body),
        lies_in(service.layout(), state),
        step matches WorkerStep::Save(_, planned) ==> planned == plan,
        call_ensures(SavePlan::contents, (&plan,), bytes),
    ensures
        step matches WorkerStep::Save(run, _) && run.presentation == presentation && run.operation@
            == "tools/call:"@ + "issue.save"@,
        plan.key@ == (KeyView { category, slug }),
        plan.path@ == root_path(state + note_names(category, slug)),
        bytes@ == encode_utf8(body),
{
    lemma_words();
    lemma_proper_slug(slug);
    lemma_note_place(service.layout(), state, category, slug);
    lemma_given(
        arguments@,
        presentation,
        "tools/call:"@ + name@,
        service.generation(),
        FaultStage::Worker,
        note_argument_names(),
    );
    let i = choose|i: int| 0 <= i < body.len() && !white_space(#[trigger] body[i]);
    assert(seq![word_of(category), slug, body][2] == body);
}

/// A call that reads an issue looks at the file of the issue that it names.
pub proof fn law_read_opens_what_it_names(
    service: &WorkerService,
    name: &str,
    arguments: Json,
    step: WorkerStep,
    presentation: Presentation,
    category: IssueCategory,
    slug: Seq<char>,
    state: Seq<Seq<u8>>,
)
    requires
        call_ensures(WorkerService::call_tool, (service, name, arguments), step),
        name@ == "issue.read"@,
        gives(arguments@, key_names(), seq![word_of(category), slug]),
        shown_as(arguments@, presentation),
        proper_slug(slug),
        lies_in(service.layout(), state),
    ensures
        step matches WorkerStep::Read(run, key, path) && run.presentation == presentation
            && run.operation@ == "tools/call:"@ + "issue.read"@ && key@ == (KeyView {
            category,
            slug,
        }) && path@ == root_path(state + note_names(category, slug)),
{
    lemma_words();
    lemma_proper_slug(slug);
    lemma_note_place(service.layout(), state, category, slug);
    lemma_given(
        arguments@,
        presentation,
        "tools/call:"@ + name@,
        service.generation(),
        FaultStage::Worker,
        key_names(),
    );
}

/// A call that deletes an issue, of either category, sets out to delete the
/// file of the issue that it names.
pub proof fn law_delete_removes_what_it_names(
    service: &WorkerService,
    name: &str,
    arguments: Json,
    step: WorkerStep,
    presentation: Presentation,
    category: IssueCategory,
    slug: Seq<char>,
    state: Seq<Seq<u8>>,
)
    requires
        call_ensures(WorkerService::call_tool, (service, name, arguments), step),
        name@ == "issue.delete"@,
        gives(arguments@, key_names(), seq![word_of(category), slug]),
        shown_as(arguments@, presentation),
        proper_slug(slug),
        lies_in(service.layout(), state),
    ensures
        step matches WorkerStep::Delete(run, key, path) && run.presentation == presentation
            && run.operation@ == "tools/call:"@ + "issue.delete"@ && key@ == (KeyView {
            category,
            slug,
        }) && path@ == root_path(state + note_names(category, slug)),
{
    lemma_words();
    lemma_proper_slug(slug);
    lemma_note_place(service.layout(), state, category, slug);
    lemma_given(
        arguments@,
        presentation,
        "tools/call:"@ + name@,
        service.generation(),
        FaultStage::Worker,
        key_names(),
    );
}

/// A call that lists the issues looks at the directories, whatever else it is
/// given.
pub proof fn law_list_looks_at_the_directories(
    service: &WorkerService,
    name: &str,
    arguments: Json,
    step: WorkerStep,
    presentation: Presentation,
)
    requires
        call_ensures(WorkerService::call_tool, (service, name, arguments), step),
        name@ == "issue.list"@,
        shown_as(arguments@, presentation),
    ensures
        step matches WorkerStep::List(run) && run.presentation == presentation && run.operation@
            == "tools/call:"@ + "issue.list"@,
{
    lemma_words();
    lemma_given(
        arguments@,
        presentation,
        "tools/call:"@ + name@,
        service.generation(),
        FaultStage::Worker,
        key_names(),
    );
}

/// No file is touched that was not asked for: each step of the worker is the
/// one of the tool with that name, for the issue that the arguments name.
pub proof fn law_nothing_is_done_unasked(
    service: &WorkerService,
    name: &str,
    arguments: Json,
    step: WorkerStep,
    state: Seq<Seq<u8>>,
)
    requires
        call_ensures(WorkerService::call_tool, (service, name, arguments), step),
        lies_in(service.layout(), state),
    ensures
        step matches WorkerStep::Save(_, plan) ==> name@ == "issue.save"@ && gives(
            arguments@,
            note_argument_names(),
            seq![word_of(plan.key@.category), plan.key@.slug, plan.body@],
        ) && proper_slug(plan.key@.slug) && filled(plan.body@) && plan.path@ == root_path(
            state + note_names(plan.key@.category, plan.key@.slug),
        ),
        step matches WorkerStep::Read(_, key, path) ==> name@ == "issue.read"@ && gives(
            arguments@,
            key_names(),
            seq![word_of(key@.category), key@.slug],
        ) && proper_slug(key@.slug) && path@ == root_path(
            state + note_names(key@.category, key@.slug),
        ),
        step matches WorkerStep::Delete(_, key, path) ==> name@ == "issue.delete"@ && gives(
            arguments@,
            key_names(),
            seq![word_of(key@.category), key@.slug],
        ) && proper_slug(key@.slug) && path@ == root_path(
            state + note_names(key@.category, key@.slug),
        ),
        step is List ==> name@ == "issue.list"@,
        step matches WorkerStep::Finish(outcome) ==> outcome is Fault,
        name@ != "issue.save"@ && name@ != "issue.read"@ && name@ != "issue.delete"@ && name@
            != "issue.list"@ ==> step is Finish,
{
    lemma_words();
    let presentation = Presentation { render: RenderMode::Porcelain, detail: DetailLevel::Concise };
    let names = argument_names(name@);
    let operation = "tools/call:"@ + name@;
    lemma_given(
        arguments@,
        presentation,
        operation,
        service.generation(),
        FaultStage::Worker,
        names,
    );
    let split = presentation_split(
        arguments@,
        operation,
        service.generation(),
        FaultStage::Worker,
    );
    let found = text_fields(split->Ok_0.1, names)->0;
    match step {
        WorkerStep::Save(_, plan) => {
            lemma_proper_slug(plan.key@.slug);
            lemma_note_place(service.layout(), state, plan.key@.category, plan.key@.slug);
            assert(found =~= seq![word_of(plan.key@.category), plan.key@.slug, plan.body@]);
        },
        WorkerStep::Read(_, key, _) => {
            lemma_proper_slug(key@.slug);
            lemma_note_place(service.layout(), state, key@.category, key@.slug);
            assert(found =~= seq![word_of(key@.category), key@.slug]);
        },
        WorkerStep::Delete(_, key, _) => {
            lemma_proper_slug(key@.slug);
            lemma_note_place(service.layout(), state, key@.category, key@.slug);
            assert(found =~= seq![word_of(key@.category), key@.slug]);
        },
        _ => {},
    }
}

/// The fault of arguments that are no good.
pub open spec fn bad_input(fault: FaultRecordView, detail: Seq<char>) -> bool {
    &&& fault.fault.code == "invalid_input"@
    &&& fault.jsonrpc_code == -32602
    &&& fault.fault.detail == detail
    &&& !fault.retryable
    &&& !fault.retried
}

/// A call with a category that is none, or with a slug or a body that is no
/// good, is refused, and the client is told why.
pub proof fn law_bad_arguments_are_refused(
    service: &WorkerService,
    name: &str,
    arguments: Json,
    step: WorkerStep,
    presentation: Presentation,
    given: Seq<Seq<char>>,
)
    requires
        call_ensures(WorkerService::call_tool, (service, name, arguments), step),
        name@ == "issue.save"@ || name@ == "issue.read"@ || name@ == "issue.delete"@,
        shown_as(arguments@, presentation),
        gives(arguments@, argument_names(name@), given),
    ensures
        given[0] != "feature"@ && given[0] != "bug"@ ==> (step matches WorkerStep::Finish(
            WorkerOutcome::Fault(fault),
        ) && bad_input(
            fault@,
            "invalid issue category `"@ + given[0] + "`; expected `feature` or `bug`"@,
        )),
        (given[0] == "feature"@ || given[0] == "bug"@) && !proper_slug(given[1]) ==> (
        step matches WorkerStep::Finish(WorkerOutcome::Fault(fault)) && exists|detail: Seq<char>|
            bad_input(fault@, #[trigger] ("invalid issue slug: "@ + detail))),
        name@ == "issue.save"@ && (given[0] == "feature"@ || given[0] == "bug"@) && proper_slug(
            given[1],
        ) && !filled(given[2]) ==> (step matches WorkerStep::Finish(WorkerOutcome::Fault(fault))
            && bad_input(fault@, "issue body must not be blank"@)),
{
    lemma_words();
    lemma_proper_slug(given[1]);
    lemma_given(
        arguments@,
        presentation,
        "tools/call:"@ + name@,
        service.generation(),
        FaultStage::Worker,
        argument_names(name@),
    );
    if step matches WorkerStep::Finish(WorkerOutcome::Fault(fault)) {
        let detail = crate::issue::slug_fault(given[1])->0;
        assert(crate::issue::store_error_text(StoreErrorView::InvalidSlug(detail))
            == "invalid issue slug: "@ + detail);
    }
}

/// A moment as clients see it: in RFC 3339 from the year 0 to the year 9999,
/// and as seconds since the Unix epoch outside of that.
pub open spec fn shown_time(at: Timestamp) -> Seq<char> {
    if -62167219200 <= at.seconds < 253402300800 && at.nanos < 1000000000 {
        rfc3339(at.seconds as int, at.nanos as int)
    } else {
        signed_decimal_text(at.seconds as int)
    }
}

/// The document in a result.
pub open spec fn document_of(result: JsonView) -> JsonView {
    result->Object_0["structuredContent"@]
}

/// The result holds a document and is no error.
pub open spec fn succeeds(result: JsonView) -> bool {
    &&& result is Object
    &&& result->Object_0.dom().contains("structuredContent"@)
    &&& result->Object_0.dom().contains("isError"@)
    &&& result->Object_0["isError"@] == JsonView::Bool(false)
    &&& document_of(result) is Object
}

/// The document in a result holds this under this name.
pub open spec fn says(result: JsonView, name: Seq<char>, value: JsonView) -> bool {
    &&& succeeds(result)
    &&& document_of(result)->Object_0.dom().contains(name)
    &&& document_of(result)->Object_0[name] == value
}

/// The result is one block of this text.
pub open spec fn speaks(result: JsonView, text: Seq<char>) -> bool {
    &&& result is Object
    &&& result->Object_0.dom().contains("content"@)
    &&& result->Object_0["content"@] matches JsonView::Array(blocks) && blocks.len() == 1
        && blocks[0] is Object && has_text(blocks[0]->Object_0, "type"@, "text"@) && has_text(
        blocks[0]->Object_0,
        "text"@,
        text,
    )
}

/// The result speaks as the presentation asks: where that is JSON, it is the
/// document as indented JSON; otherwise it is this short text, or what stands
/// for everything.
pub open spec fn speaks_as(
    result: JsonView,
    presentation: Presentation,
    short: Seq<char>,
    long: Option<Seq<char>>,
) -> bool {
    match (presentation.render, presentation.detail) {
        (RenderMode::Json, _) => speaks(result, pretty_text(document_of(result))),
        (RenderMode::Porcelain, DetailLevel::Concise) => speaks(result, short),
        (RenderMode::Porcelain, DetailLevel::Full) => speaks(
            result,
            match long {
                Some(text) => text,
                None => porcelain(document_of(result), 40, 512),
            },
        ),
    }
}

/// The file of an issue, as clients see it.
pub open spec fn shown_path(category: IssueCategory, slug: Seq<char>) -> Seq<char> {
    lossy_text(relative_path(note_names(category, slug)))
}

proof fn lemma_shown_path(state: Seq<Seq<u8>>, category: IssueCategory, slug: Seq<char>)
    requires
        plain_names(state + note_names(category, slug)),
    ensures
        relative_text(root_path(state + note_names(category, slug)), root_path(state))
            == shown_path(category, slug),
{
    law_strip_leaves_the_rest(state, note_names(category, slug));
}

pub(crate) proof fn lemma_members()
    ensures
        "slug"@ != "status"@,
        "slug"@ != "path"@,
        "slug"@ != "updated_at"@,
        "slug"@ != "deleted_at"@,
        "slug"@ != "bytes"@,
        "slug"@ != "body"@,
        "status"@ != "path"@,
        "status"@ != "updated_at"@,
        "status"@ != "deleted_at"@,
        "status"@ != "bytes"@,
        "path"@ != "updated_at"@,
        "path"@ != "deleted_at"@,
        "path"@ != "bytes"@,
        "path"@ != "body"@,
        "updated_at"@ != "bytes"@,
        "updated_at"@ != "body"@,
        "deleted_at"@ != "bytes"@,
        "body"@ != "bytes"@,
        "count"@ != "issues"@,
        "content"@ != "structuredContent"@,
        "content"@ != "isError"@,
        "structuredContent"@ != "isError"@,
        "type"@ != "text"@,
{
    reveal_strlit("slug");
    reveal_strlit("status");
    reveal_strlit("path");
    reveal_strlit("updated_at");
    reveal_strlit("deleted_at");
    reveal_strlit("bytes");
    reveal_strlit("body");
    reveal_strlit("count");
    reveal_strlit("issues");
    reveal_strlit("content");
    reveal_strlit("structuredContent");
    reveal_strlit("isError");
    reveal_strlit("type");
    reveal_strlit("text");
    assert("slug"@.len() == 4 && "path"@.len() == 4 && "body"@.len() == 4 && "bytes"@.len() == 5
        && "status"@.len() == 6 && "updated_at"@.len() == 10 && "deleted_at"@.len() == 10);
    assert("slug"@[0] == 's' && "path"@[0] == 'p' && "body"@[0] == 'b');
    assert("count"@.len() == 5 && "issues"@.len() == 6 && "content"@.len() == 7
        && "structuredContent"@.len() == 17 && "isError"@.len() == 7);
    assert("content"@[0] == 'c' && "isError"@[0] == 'i');
    assert("type"@[1] == 'y' && "text"@[1] == 'e');
}

/// What a client is told of an issue that was saved: which, whether it is new,
/// where it lies, when it was written and how long it is.
pub proof fn law_save_is_answered(
    service: &WorkerService,
    run: ToolRun,
    plan: SavePlan,
    existed: bool,
    written: Result<Timestamp, String>,
    outcome: WorkerOutcome,
    category: IssueCategory,
    slug: Seq<char>,
    state: Seq<Seq<u8>>,
)
    requires
        call_ensures(WorkerService::saved, (service, run, plan, existed, written), outcome),
        lies_in(service.layout(), state),
        proper_slug(slug),
        plan.key@ == (KeyView { category, slug }),
        plan.path@ == root_path(state + note_names(category, slug)),
    ensures
        written matches Ok(at) ==> (outcome matches WorkerOutcome::Success(result) && {
            let status = if existed {
                "updated"@
            } else {
                "created"@
            };
            &&& says(result@, "slug"@, JsonView::Text(slug))
            &&& says(result@, "status"@, JsonView::Text(status))
            &&& says(result@, "path"@, JsonView::Text(shown_path(category, slug)))
            &&& says(result@, "updated_at"@, JsonView::Text(shown_time(at)))
            &&& run.presentation.detail is Full ==> says(
                result@,
                "bytes"@,
                JsonView::Unsigned(encode_utf8(plan.body@).len()),
            )
            &&& speaks_as(
                result@,
                run.presentation,
                "saved issue "@ + slug + "\nstatus: "@ + status + "\npath: "@ + shown_path(
                    category,
                    slug,
                ) + "\nupdated: "@ + shown_time(at),
                None,
            )
        }),
        written matches Err(detail) ==> (outcome matches WorkerOutcome::Fault(fault)
            && fault@.fault.detail == detail@ && fault@.fault.code == "internal_failure"@
            && fault@.jsonrpc_code == -32603),
{
    lemma_note_place(service.layout(), state, category, slug);
    lemma_shown_path(state, category, slug);
    lemma_members();
    if let Ok(at) = written {
        let status = if existed {
            "updated"@
        } else {
            "created"@
        };
        lemma_save_text(slug, status, shown_path(category, slug), shown_time(at));
    }
}

proof fn lemma_save_text(
    slug: Seq<char>,
    status: Seq<char>,
    path: Seq<char>,
    time: Seq<char>,
)
    ensures
        joined_lines(
            seq!["saved issue "@ + slug, "status: "@ + status, "path: "@ + path, "updated: "@ + time],
        ) == "saved issue "@ + slug + "\nstatus: "@ + status + "\npath: "@ + path + "\nupdated: "@
            + time,
{
    let lines = seq![
        "saved issue "@ + slug,
        "status: "@ + status,
        "path: "@ + path,
        "updated: "@ + time,
    ];
    lemma_four_lines(lines);
    reveal_strlit("\n");
    reveal_strlit("status: ");
    reveal_strlit("path: ");
    reveal_strlit("updated: ");
    reveal_strlit("\nstatus: ");
    reveal_strlit("\npath: ");
    reveal_strlit("\nupdated: ");
    assert("\n"@ + "status: "@ =~= "\nstatus: "@);
    assert("\n"@ + "path: "@ =~= "\npath: "@);
    assert("\n"@ + "updated: "@ =~= "\nupdated: "@);
    assert(lines[0] + "\n"@ + lines[1] + "\n"@ + lines[2] + "\n"@ + lines[3] =~= lines[0] + ("\n"@
        + "status: "@) + status + ("\n"@ + "path: "@) + path + ("\n"@ + "updated: "@) + time);
}

proof fn lemma_three_lines(lines: Seq<Seq<char>>)
    requires
        lines.len() == 3,
    ensures
        joined_lines(lines) == lines[0] + "\n"@ + lines[1] + "\n"@ + lines[2],
{
    let two = lines.drop_last();
    assert(two.last() == lines[1]);
    assert(two.drop_last().len() == 1);
    assert(two.drop_last()[0] == lines[0]);
    assert(joined_lines(two.drop_last()) == lines[0]);
    assert(joined_lines(two) == lines[0] + "\n"@ + lines[1]);
}

proof fn lemma_four_lines(lines: Seq<Seq<char>>)
    requires
        lines.len() == 4,
    ensures
        joined_lines(lines) == lines[0] + "\n"@ + lines[1] + "\n"@ + lines[2] + "\n"@ + lines[3],
{
    lemma_three_lines(lines.drop_last());
}

/// What a client is told of an issue that is read: the body is the text of its
/// file, all of it; the time is that at which the file was last written. An
/// issue that is not there is not read.
pub proof fn law_read_is_answered(
    service: &WorkerService,
    run: ToolRun,
    key: IssueKey,
    probe: ReadProbe,
    outcome: WorkerOutcome,
    category: IssueCategory,
    slug: Seq<char>,
    state: Seq<Seq<u8>>,
)
    requires
        call_ensures(WorkerService::read, (service, run, key, probe), outcome),
        lies_in(service.layout(), state),
        proper_slug(slug),
        key@ == (KeyView { category, slug }),
    ensures
        probe matches ReadProbe::Text { body, modified: Ok(at) } ==> (
        outcome matches WorkerOutcome::Success(result) && {
            &&& says(result@, "slug"@, JsonView::Text(slug))
            &&& says(result@, "updated_at"@, JsonView::Text(shown_time(at)))
            &&& says(result@, "body"@, JsonView::Text(body@))
            &&& run.presentation.detail is Full ==> says(
                result@,
                "path"@,
                JsonView::Text(shown_path(category, slug)),
            ) && says(result@, "bytes"@, JsonView::Unsigned(encode_utf8(body@).len()))
            &&& speaks_as(
                result@,
                run.presentation,
                "issue "@ + slug + "\nupdated: "@ + shown_time(at) + "\n\n"@ + body@,
                Some(
                    "issue "@ + slug + "\npath: "@ + shown_path(category, slug) + "\nupdated: "@
                        + shown_time(at) + "\nbytes: "@ + decimal_text(encode_utf8(body@).len())
                        + "\n\n"@ + body@,
                ),
            )
        }),
        probe matches ReadProbe::Text { modified: Err(detail), .. } ==> (
        outcome matches WorkerOutcome::Fault(fault) && fault@.fault.detail == detail@
            && fault@.fault.code == "internal_failure"@),
        probe is Missing ==> (outcome matches WorkerOutcome::Fault(fault) && bad_input(
            fault@,
            "issue `"@ + (word_of(category) + "/"@ + slug) + "` does not exist"@,
        )),
        probe matches ReadProbe::Failed(detail) ==> (outcome matches WorkerOutcome::Fault(fault)
            && fault@.fault.detail == detail@ && fault@.fault.code == "internal_failure"@),
{
    lemma_note_place(service.layout(), state, category, slug);
    lemma_shown_path(state, category, slug);
    lemma_members();
}

/// Whether an issue is deleted: where its file is there and can be looked at,
/// that file is removed; where it is not there, the client is told so.
pub proof fn law_delete_takes_the_file(
    service: &WorkerService,
    run: &ToolRun,
    key: IssueKey,
    probe: DeleteProbe,
    plan: Result<DeletePlan, WorkerOutcome>,
    category: IssueCategory,
    slug: Seq<char>,
    state: Seq<Seq<u8>>,
)
    requires
        call_ensures(WorkerService::delete, (service, run, key, probe), plan),
        lies_in(service.layout(), state),
        proper_slug(slug),
        key@ == (KeyView { category, slug }),
    ensures
        probe matches DeleteProbe::Found(length) ==> length <= usize::MAX ==> (plan matches Ok(plan)
            && plan.key@ == (KeyView { category, slug }) && plan.path@ == root_path(
            state + note_names(category, slug),
        ) && plan.bytes == length),
        probe is Missing ==> (plan matches Err(WorkerOutcome::Fault(fault)) && bad_input(
            fault@,
            "issue `"@ + (word_of(category) + "/"@ + slug) + "` does not exist"@,
        )),
        probe matches DeleteProbe::Failed(detail) ==> (plan matches Err(
            WorkerOutcome::Fault(fault),
        ) && fault@.fault.detail == detail@ && fault@.fault.code == "internal_failure"@),
{
    lemma_note_place(service.layout(), state, category, slug);
}

/// What a client is told of an issue that was deleted: which, that it is
/// deleted, where it lay, when it was deleted and how long it was.
pub proof fn law_delete_is_answered(
    service: &WorkerService,
    run: ToolRun,
    plan: DeletePlan,
    removed: Result<Timestamp, String>,
    outcome: WorkerOutcome,
    category: IssueCategory,
    slug: Seq<char>,
    state: Seq<Seq<u8>>,
)
    requires
        call_ensures(WorkerService::deleted, (service, run, plan, removed), outcome),
        lies_in(service.layout(), state),
        proper_slug(slug),
        plan.key@ == (KeyView { category, slug }),
        plan.path@ == root_path(state + note_names(category, slug)),
    ensures
        removed matches Ok(at) ==> (outcome matches WorkerOutcome::Success(result) && {
            &&& says(result@, "slug"@, JsonView::Text(slug))
            &&& says(result@, "status"@, JsonView::Text("deleted"@))
            &&& says(result@, "path"@, JsonView::Text(shown_path(category, slug)))
            &&& says(result@, "deleted_at"@, JsonView::Text(shown_time(at)))
            &&& run.presentation.detail is Full ==> says(
                result@,
                "bytes"@,
                JsonView::Unsigned(plan.bytes as nat),
            )
            &&& speaks_as(
                result@,
                run.presentation,
                "deleted issue "@ + slug + "\npath: "@ + shown_path(category, slug)
                    + "\ndeleted: "@ + shown_time(at),
                None,
            )
        }),
        removed matches Err(detail) ==> (outcome matches WorkerOutcome::Fault(fault)
            && fault@.fault.detail == detail@ && fault@.fault.code == "internal_failure"@
            && fault@.jsonrpc_code == -32603),
{
    lemma_note_place(service.layout(), state, category, slug);
    lemma_shown_path(state, category, slug);
    lemma_members();
    if let Ok(at) = removed {
        let lines = seq![
            "deleted issue "@ + slug,
            "path: "@ + shown_path(category, slug),
            "deleted: "@ + shown_time(at),
        ];
        lemma_three_lines(lines);
        reveal_strlit("\n");
        reveal_strlit("path: ");
        reveal_strlit("deleted: ");
        reveal_strlit("\npath: ");
        reveal_strlit("\ndeleted: ");
        assert("\n"@ + "path: "@ =~= "\npath: "@);
        assert("\n"@ + "deleted: "@ =~= "\ndeleted: "@);
        assert(lines[0] + "\n"@ + lines[1] + "\n"@ + lines[2] =~= lines[0] + ("\n"@ + "path: "@)
            + shown_path(category, slug) + ("\n"@ + "deleted: "@) + shown_time(at));
    }
}

/// The entry is the file of this issue, last written at this moment.
pub open spec fn entry_of(
    entry: EntryProbe,
    state: Seq<Seq<u8>>,
    category: IssueCategory,
    slug: Seq<char>,
    at: Timestamp,
) -> bool {
    &&& proper_slug(slug)
    &&& entry matches EntryProbe::Found { path, is_file: true, modified: Ok(moment) } && path@
        == root_path(state + note_names(category, slug)) && moment == at
}

/// The entry is the file of some issue of a category.
pub open spec fn is_note(
    entry: EntryProbe,
    state: Seq<Seq<u8>>,
    category: IssueCategory,
) -> bool {
    exists|slug: Seq<char>, at: Timestamp| entry_of(entry, state, category, slug, at)
}

/// The entries are files of issues of a category.
pub open spec fn are_notes(
    entries: Seq<EntryProbe>,
    state: Seq<Seq<u8>>,
    category: IssueCategory,
) -> bool {
    forall|j: int| 0 <= j < entries.len() ==> is_note(#[trigger] entries[j], state, category)
}

/// One issue in a list that is shown: its slug and when its file was last
/// written, and where it lies where everything is asked for.
pub open spec fn item_of(
    item: JsonView,
    full: bool,
    category: IssueCategory,
    slug: Seq<char>,
    at: Timestamp,
) -> bool {
    &&& item matches JsonView::Object(members) && has_text(members, "slug"@, slug) && has_text(
        members,
        "updated_at"@,
        shown_time(at),
    ) && (full ==> has_text(members, "path"@, shown_path(category, slug)))
}

/// The item shows the issue in this entry.
pub open spec fn shows_note(
    item: JsonView,
    full: bool,
    entry: EntryProbe,
    state: Seq<Seq<u8>>,
    category: IssueCategory,
) -> bool {
    exists|slug: Seq<char>, at: Timestamp|
        entry_of(entry, state, category, slug, at) && #[trigger] item_of(
            item,
            full,
            category,
            slug,
            at,
        )
}

/// The item shows the issue in one of these entries.
pub open spec fn shows_one_of(
    item: JsonView,
    full: bool,
    entries: Seq<EntryProbe>,
    state: Seq<Seq<u8>>,
    category: IssueCategory,
) -> bool {
    exists|j: int|
        0 <= j < entries.len() && shows_note(item, full, #[trigger] entries[j], state, category)
}

/// One of these items shows the issue in the entry.
pub open spec fn shown_in(
    items: Seq<JsonView>,
    full: bool,
    entry: EntryProbe,
    state: Seq<Seq<u8>>,
    category: IssueCategory,
) -> bool {
    exists|i: int|
        0 <= i < items.len() && shows_note(#[trigger] items[i], full, entry, state, category)
}

/// The items show the issues in these entries: each item one, and each entry
/// in some item.
pub open spec fn shows_notes(
    items: Seq<JsonView>,
    full: bool,
    entries: Seq<EntryProbe>,
    state: Seq<Seq<u8>>,
    category: IssueCategory,
) -> bool {
    &&& items.len() == entries.len()
    &&& forall|i: int|
        0 <= i < items.len() ==> shows_one_of(#[trigger] items[i], full, entries, state, category)
    &&& forall|j: int|
        0 <= j < entries.len() ==> shown_in(items, full, #[trigger] entries[j], state, category)
}

/// One text stands before another in the dictionary: it is the beginning of
/// the other, or has the smaller character where they first differ.
pub open spec fn stands_before(left: Seq<char>, right: Seq<char>) -> bool {
    exists|n: int|
        0 <= n <= left.len() && n <= right.len() && left.take(n) == #[trigger] right.take(n) && (n
            == left.len() || (n < right.len() && left[n] < right[n]))
}

/// The slugs in the items stand in the order of the dictionary.
pub open spec fn slugs_in_order(items: Seq<JsonView>) -> bool {
    forall|i: int, k: int, first: Seq<char>, second: Seq<char>|
        0 <= i < k < items.len() && #[trigger] has_text(items[i]->Object_0, "slug"@, first)
            && #[trigger] has_text(items[k]->Object_0, "slug"@, second) ==> stands_before(
            first,
            second,
        )
}

proof fn lemma_stands_before(left: Seq<char>, right: Seq<char>)
    requires
        text_le(left, right),
    ensures
        stands_before(left, right),
    decreases left.len(),
{
    if left.len() == 0 {
        assert(left.take(0) =~= right.take(0));
    } else if left[0] != right[0] {
        assert(left.take(0) =~= right.take(0));
    } else {
        let l = left.drop_first();
        let r = right.drop_first();
        lemma_stands_before(l, r);
        let n = choose|n: int|
            0 <= n <= l.len() && n <= r.len() && l.take(n) == #[trigger] r.take(n) && (n == l.len()
                || (n < r.len() && l[n] < r[n]));
        assert(left.take(n + 1) =~= right.take(n + 1)) by {
            assert forall|i: int| 0 <= i < n + 1 implies left[i] == right[i] by {
                if i > 0 {
                    assert(l.take(n)[i - 1] == r.take(n)[i - 1]);
                }
            }
        }
    }
}

spec fn features_in(found: Seq<SummaryView>) -> nat
    decreases found.len(),
{
    if found.len() == 0 {
        0
    } else {
        features_in(found.drop_last()) + (if found.last().key.category is Feature {
            1nat
        } else {
            0
        })
    }
}

proof fn lemma_features_counted(found: Seq<SummaryView>)
    ensures
        features_in(found) == found.to_multiset().filter(
            |summary: SummaryView| summary.key.category is Feature,
        ).len(),
    decreases found.len(),
{
    broadcast use vstd::multiset::group_multiset_axioms;

    let pick = |summary: SummaryView| summary.key.category is Feature;
    found.to_multiset_ensures();
    if found.len() == 0 {
        assert(found.to_multiset().filter(pick) =~= Multiset::empty());
    } else {
        let rest = found.drop_last();
        rest.to_multiset_ensures();
        lemma_features_counted(rest);
        assert(rest.push(found.last()) =~= found);
        assert(found.to_multiset() =~= rest.to_multiset().insert(found.last()));
        if pick(found.last()) {
            assert(found.to_multiset().filter(pick) =~= rest.to_multiset().filter(pick).insert(
                found.last(),
            ));
        } else {
            assert(found.to_multiset().filter(pick) =~= rest.to_multiset().filter(pick));
        }
    }
}

/// Where the features stand first, they stand up to their number.
proof fn lemma_features_first(found: Seq<SummaryView>)
    requires
        forall|i: int, j: int|
            #![trigger found[i], found[j]]
            0 <= i <= j < found.len() && found[j].key.category is Feature
                ==> found[i].key.category is Feature,
    ensures
        forall|i: int|
            0 <= i < found.len() ==> ((#[trigger] found[i]).key.category is Feature <==> i
                < features_in(found)),
        features_in(found) <= found.len(),
    decreases found.len(),
{
    if found.len() > 0 {
        let rest = found.drop_last();
        assert forall|i: int, j: int|
            #![trigger rest[i], rest[j]]
            0 <= i <= j < rest.len()
                && rest[j].key.category is Feature implies rest[i].key.category is Feature by {
            assert(found[i] == rest[i] && found[j] == rest[j]);
        }
        lemma_features_first(rest);
        assert(found.last() == found[found.len() - 1]);
        assert forall|i: int| 0 <= i < found.len() implies ((
        #[trigger] found[i]).key.category is Feature <==> i < features_in(found)) by {
            if i < rest.len() {
                assert(found[i] == rest[i]);
                if found.last().key.category is Feature {
                    assert(found[i].key.category is Feature);
                    let last = rest.len() - 1;
                    assert(found[last].key.category is Feature);
                    assert(rest[last] == found[last]);
                }
            } else if found.last().key.category is Feature && rest.len() > 0 {
                let last = rest.len() - 1;
                assert(found[last].key.category is Feature);
                assert(rest[last] == found[last]);
            }
        }
    }
}

proof fn lemma_features_split(first: Seq<SummaryView>, second: Seq<SummaryView>)
    requires
        forall|i: int| 0 <= i < first.len() ==> (#[trigger] first[i]).key.category is Feature,
        forall|i: int| 0 <= i < second.len() ==> (#[trigger] second[i]).key.category is Bug,
    ensures
        features_in(first + second) == first.len(),
{
    let whole = first + second;
    assert forall|i: int, j: int|
        #![trigger whole[i], whole[j]]
        0 <= i <= j < whole.len() && whole[j].key.category is Feature implies
        whole[i].key.category is Feature by {
        if j >= first.len() {
            assert(whole[j] == second[j - first.len()]);
        } else {
            assert(whole[i] == first[i]);
        }
    }
    lemma_features_first(whole);
    if features_in(whole) < first.len() {
        assert(whole[features_in(whole) as int] == first[features_in(whole) as int]);
    }
    if features_in(whole) > first.len() {
        assert(whole[first.len() as int] == second[0]);
    }
}

/// The entries of a category mean the issues in them.
pub(crate) proof fn lemma_notes_found(
    layout: LayoutView,
    state: Seq<Seq<u8>>,
    category: IssueCategory,
    entries: Seq<EntryProbe>,
)
    requires
        lies_in(layout, state),
        are_notes(entries, state, category),
    ensures
        entries_outcome(category, entries) matches Ok(found) && found.len() == entries.len()
            && forall|j: int|
            0 <= j < entries.len() ==> (#[trigger] found[j]).key.category == category && found[j].path
                == root_path(state + note_names(category, found[j].key.slug)) && entry_of(
                entries[j],
                state,
                category,
                found[j].key.slug,
                found[j].updated_at,
            ),
    decreases entries.len(),
{
    if entries.len() > 0 {
        let rest = entries.drop_last();
        assert forall|j: int| 0 <= j < rest.len() implies is_note(
            #[trigger] rest[j],
            state,
            category,
        ) by {
            assert(rest[j] == entries[j]);
        }
        lemma_notes_found(layout, state, category, rest);
        let last = entries[entries.len() - 1];
        assert(is_note(last, state, category));
        let (slug, at) = choose|slug: Seq<char>, at: Timestamp|
            entry_of(last, state, category, slug, at);
        lemma_proper_slug(slug);
        lemma_note_place(layout, state, category, slug);
        law_issue_path_names_its_slug(layout.issues_root, KeyView { category, slug });
        let found = entries_outcome(category, entries)->Ok_0;
        assert forall|j: int| 0 <= j < entries.len() implies (
        #[trigger] found[j]).key.category == category && found[j].path == root_path(
            state + note_names(category, found[j].key.slug),
        ) && entry_of(entries[j], state, category, found[j].key.slug, found[j].updated_at) by {
            if j < rest.len() {
                assert(found[j] == entries_outcome(category, rest)->Ok_0[j]);
                assert(rest[j] == entries[j]);
            }
        }
    }
}

/// All of some issues are among others.
#[verifier::opaque]
spec fn among(some: Seq<SummaryView>, others: Seq<SummaryView>) -> bool {
    forall|i: int| 0 <= i < some.len() ==> others.contains(#[trigger] some[i])
}

proof fn lemma_among(some: Seq<SummaryView>, others: Seq<SummaryView>, i: int) -> (j: int)
    requires
        among(some, others),
        0 <= i < some.len(),
    ensures
        0 <= j < others.len(),
        others[j] == some[i],
{
    reveal(among);
    assert(others.contains(some[i]));
    choose|j: int| 0 <= j < others.len() && others[j] == some[i]
}

/// The issues stand in the order of their slugs.
#[verifier::opaque]
spec fn by_slug(shown: Seq<SummaryView>) -> bool {
    forall|i: int, k: int|
        0 <= i < k < shown.len() ==> stands_before(
            #[trigger] shown[i].key.slug,
            #[trigger] shown[k].key.slug,
        )
}

/// The issues of one category in a list that is shown.
proof fn lemma_part_shown(
    layout: LayoutView,
    state: Seq<Seq<u8>>,
    category: IssueCategory,
    entries: Seq<EntryProbe>,
    found: Seq<SummaryView>,
    shown: Seq<SummaryView>,
    items: Seq<JsonView>,
    full: bool,
)
    requires
        lies_in(layout, state),
        items.len() == shown.len(),
        shown.len() == entries.len(),
        found.len() == entries.len(),
        forall|j: int|
            0 <= j < entries.len() ==> (#[trigger] found[j]).path == root_path(
                state + note_names(category, found[j].key.slug),
            ) && entry_of(
                entries[j],
                state,
                category,
                found[j].key.slug,
                found[j].updated_at,
            ),
        among(shown, found),
        among(found, shown),
        forall|i: int|
            0 <= i < items.len() ==> #[trigger] items[i] == if full {
                full_item(shown[i], layout.state_root)
            } else {
                concise_item(shown[i])
            },
    ensures
        shows_notes(items, full, entries, state, category),
{
    lemma_members();
    assert forall|i: int, j: int|
        0 <= i < items.len() && 0 <= j < entries.len() && shown[i] == found[j] implies shows_note(
        #[trigger] items[i],
        full,
        #[trigger] entries[j],
        state,
        category,
    ) by {
        let slug = found[j].key.slug;
        lemma_note_place(layout, state, category, slug);
        lemma_shown_path(state, category, slug);
        assert(item_of(items[i], full, category, slug, found[j].updated_at));
    }
    assert forall|i: int| 0 <= i < items.len() implies shows_one_of(
        #[trigger] items[i],
        full,
        entries,
        state,
        category,
    ) by {
        let j = lemma_among(shown, found, i);
        assert(shows_note(items[i], full, entries[j], state, category));
    }
    assert forall|j: int| 0 <= j < entries.len() implies shown_in(
        items,
        full,
        #[trigger] entries[j],
        state,
        category,
    ) by {
        let i = lemma_among(found, shown, j);
        assert(shows_note(items[i], full, entries[j], state, category));
    }
}

/// Sorting puts the features first and then the bugs, each by its slug.
proof fn lemma_sorted_parts(
    issues: Seq<IssueSummary>,
    first: Seq<SummaryView>,
    second: Seq<SummaryView>,
)
    requires
        ranked(issues),
        summaries(issues).to_multiset() == (first + second).to_multiset(),
        forall|i: int| 0 <= i < first.len() ==> (#[trigger] first[i]).key.category is Feature,
        forall|i: int| 0 <= i < second.len() ==> (#[trigger] second[i]).key.category is Bug,
    ensures
        ({
            let shown = summaries(issues);
            let fronts = shown.take(first.len() as int);
            let backs = shown.skip(first.len() as int);
            &&& shown.len() == first.len() + second.len()
            &&& among(fronts, first)
            &&& among(first, fronts)
            &&& among(backs, second)
            &&& among(second, backs)
            &&& by_slug(fronts)
            &&& by_slug(backs)
        }),
{
    let shown = summaries(issues);
    let found = first + second;
    let n = first.len() as int;
    assert(shown.len() == found.len() && among(shown, found) && among(found, shown)) by {
        shown.to_multiset_ensures();
        found.to_multiset_ensures();
        reveal(among);
        assert forall|i: int| 0 <= i < shown.len() implies found.contains(#[trigger] shown[i]) by {
            assert(shown.contains(shown[i]));
            assert(shown.to_multiset().count(shown[i]) > 0);
        }
        assert forall|j: int| 0 <= j < found.len() implies shown.contains(#[trigger] found[j]) by {
            assert(found.contains(found[j]));
            assert(found.to_multiset().count(found[j]) > 0);
        }
    }
    assert forall|i: int, j: int|
        #![trigger shown[i], shown[j]]
        0 <= i <= j < shown.len()
            && shown[j].key.category is Feature implies shown[i].key.category is Feature by {
        assert(issues[i].at_most(&issues[j]));
    }
    lemma_features_first(shown);
    lemma_features_split(first, second);
    lemma_features_counted(shown);
    lemma_features_counted(found);
    assert(features_in(shown) == n);
    let fronts = shown.take(n);
    let backs = shown.skip(n);
    assert(among(fronts, first)) by {
        reveal(among);
        assert forall|i: int| 0 <= i < fronts.len() implies first.contains(
            #[trigger] fronts[i],
        ) by {
            assert(fronts[i] == shown[i]);
            let j = lemma_among(shown, found, i);
            if j >= n {
                assert(found[j] == second[j - n]);
            } else {
                assert(found[j] == first[j]);
            }
        }
    }
    assert(among(first, fronts)) by {
        reveal(among);
        assert forall|j: int| 0 <= j < first.len() implies fronts.contains(#[trigger] first[j]) by {
            assert(found[j] == first[j]);
            let i = lemma_among(found, shown, j);
            assert(fronts[i] == first[j]);
        }
    }
    assert(among(backs, second)) by {
        reveal(among);
        assert forall|i: int| 0 <= i < backs.len() implies second.contains(#[trigger] backs[i]) by {
            assert(backs[i] == shown[i + n]);
            let j = lemma_among(shown, found, i + n);
            if j < n {
                assert(found[j] == first[j]);
            } else {
                assert(found[j] == second[j - n]);
            }
        }
    }
    assert(among(second, backs)) by {
        reveal(among);
        assert forall|j: int| 0 <= j < second.len() implies backs.contains(
            #[trigger] second[j],
        ) by {
            assert(found[j + n] == second[j]);
            let i = lemma_among(found, shown, j + n);
            assert(backs[i - n] == second[j]);
        }
    }
    assert(by_slug(fronts)) by {
        reveal(by_slug);
        assert forall|i: int, k: int| 0 <= i < k < fronts.len() implies stands_before(
            #[trigger] fronts[i].key.slug,
            #[trigger] fronts[k].key.slug,
        ) by {
            assert(issues[i].at_most(&issues[k]));
            lemma_stands_before(shown[i].key.slug, shown[k].key.slug);
        }
    }
    assert(by_slug(backs)) by {
        reveal(by_slug);
        assert forall|i: int, k: int| 0 <= i < k < backs.len() implies stands_before(
            #[trigger] backs[i].key.slug,
            #[trigger] backs[k].key.slug,
        ) by {
            assert(issues[i + n].at_most(&issues[k + n]));
            lemma_stands_before(shown[i + n].key.slug, shown[k + n].key.slug);
        }
    }
}

/// A line for each item, with its slug.
pub open spec fn slug_lines(items: Seq<JsonView>) -> Seq<char>
    decreases items.len(),
{
    if items.len() == 0 {
        seq![]
    } else {
        slug_lines(items.drop_last()) + "\n"@ + items.last()->Object_0["slug"@]->Text_0
    }
}

/// The document of a list holds one item for each issue, in their order.
proof fn lemma_list_document(
    shown: Seq<SummaryView>,
    state_root: Seq<u8>,
    presentation: Presentation,
)
    ensures
        ({
            let result = success_json(list_output(shown, state_root), presentation);
            let items = document_of(result)->Object_0["issues"@]->Array_0;
            &&& says(result, "issues"@, JsonView::Array(items))
            &&& says(result, "count"@, JsonView::Unsigned(shown.len()))
            &&& speaks_as(
                result,
                presentation,
                decimal_text(shown.len()) + " issue(s)"@ + slug_lines(items),
                None,
            )
            &&& items.len() == shown.len()
            &&& forall|i: int|
                0 <= i < items.len() ==> #[trigger] items[i] == (
                if presentation.detail is Full {
                    full_item(shown[i], state_root)
                } else {
                    concise_item(shown[i])
                })
        }),
{
    lemma_members();
    let result = success_json(list_output(shown, state_root), presentation);
    let items = document_of(result)->Object_0["issues"@]->Array_0;
    let slugs = shown.map_values(|issue: SummaryView| issue.key.slug);
    lemma_item_slugs(shown, items, state_root, presentation.detail is Full);
    lemma_slug_lines(decimal_text(shown.len()) + " issue(s)"@, slugs, items);
}

proof fn lemma_slug_lines(head: Seq<char>, slugs: Seq<Seq<char>>, items: Seq<JsonView>)
    requires
        slugs.len() == items.len(),
        forall|i: int|
            0 <= i < items.len() ==> has_text((#[trigger] items[i])->Object_0, "slug"@, slugs[i]),
    ensures
        joined_lines(seq![head] + slugs) == head + slug_lines(items),
    decreases slugs.len(),
{
    let lines = seq![head] + slugs;
    if slugs.len() == 0 {
        assert(lines.len() == 1);
        assert(head + slug_lines(items) =~= head);
    } else {
        assert(lines.drop_last() =~= seq![head] + slugs.drop_last());
        assert(lines.last() == slugs.last());
        assert forall|i: int| 0 <= i < items.len() - 1 implies has_text(
            (#[trigger] items.drop_last()[i])->Object_0,
            "slug"@,
            slugs.drop_last()[i],
        ) by {
            assert(items.drop_last()[i] == items[i]);
        }
        lemma_slug_lines(head, slugs.drop_last(), items.drop_last());
        assert(has_text(items[items.len() - 1]->Object_0, "slug"@, slugs[slugs.len() - 1]));
        assert(joined_lines(lines) =~= head + slug_lines(items));
    }
}

/// Each item of a list names its issue by its slug.
proof fn lemma_item_slugs(
    shown: Seq<SummaryView>,
    items: Seq<JsonView>,
    state_root: Seq<u8>,
    full: bool,
)
    requires
        items.len() == shown.len(),
        forall|i: int|
            0 <= i < items.len() ==> #[trigger] items[i] == (if full {
                full_item(shown[i], state_root)
            } else {
                concise_item(shown[i])
            }),
    ensures
        forall|i: int|
            0 <= i < items.len() ==> has_text(
                (#[trigger] items[i])->Object_0,
                "slug"@,
                shown[i].key.slug,
            ),
{
    lemma_members();
}

proof fn lemma_list_parts(
    layout: LayoutView,
    state: Seq<Seq<u8>>,
    features: Seq<EntryProbe>,
    bugs: Seq<EntryProbe>,
    first: Seq<SummaryView>,
    second: Seq<SummaryView>,
    issues: Seq<IssueSummary>,
    items: Seq<JsonView>,
    full: bool,
)
    requires
        lies_in(layout, state),
        are_notes(features, state, IssueCategory::Feature),
        are_notes(bugs, state, IssueCategory::Bug),
        entries_outcome(IssueCategory::Feature, features) == Ok::<
            Seq<SummaryView>,
            StoreErrorView,
        >(first),
        entries_outcome(IssueCategory::Bug, bugs) == Ok::<Seq<SummaryView>, StoreErrorView>(
            second,
        ),
        ranked(issues),
        summaries(issues).to_multiset() == (first + second).to_multiset(),
        items.len() == summaries(issues).len(),
        forall|i: int|
            0 <= i < items.len() ==> #[trigger] items[i] == (if full {
                full_item(summaries(issues)[i], layout.state_root)
            } else {
                concise_item(summaries(issues)[i])
            }),
    ensures
        items.len() == features.len() + bugs.len(),
        shows_notes(
            items.take(features.len() as int),
            full,
            features,
            state,
            IssueCategory::Feature,
        ),
        shows_notes(items.skip(features.len() as int), full, bugs, state, IssueCategory::Bug),
        slugs_in_order(items.take(features.len() as int)),
        slugs_in_order(items.skip(features.len() as int)),
{
    let n = features.len() as int;
    lemma_notes_found(layout, state, IssueCategory::Feature, features);
    lemma_notes_found(layout, state, IssueCategory::Bug, bugs);
    let shown = summaries(issues);
    lemma_sorted_parts(issues, first, second);
    lemma_half_shown(
        layout,
        state,
        IssueCategory::Feature,
        features,
        first,
        shown.take(n),
        items.take(n),
        full,
    );
    lemma_half_shown(
        layout,
        state,
        IssueCategory::Bug,
        bugs,
        second,
        shown.skip(n),
        items.skip(n),
        full,
    );
}

/// The issues of one category in a list that is shown, in their order.
#[verifier::rlimit(60)]
#[verifier::spinoff_prover]
proof fn lemma_half_shown(
    layout: LayoutView,
    state: Seq<Seq<u8>>,
    category: IssueCategory,
    entries: Seq<EntryProbe>,
    found: Seq<SummaryView>,
    shown: Seq<SummaryView>,
    items: Seq<JsonView>,
    full: bool,
)
    requires
        lies_in(layout, state),
        are_notes(entries, state, category),
        entries_outcome(category, entries) == Ok::<Seq<SummaryView>, StoreErrorView>(found),
        items.len() == shown.len(),
        shown.len() == entries.len(),
        among(shown, found),
        among(found, shown),
        forall|i: int|
            0 <= i < items.len() ==> #[trigger] items[i] == (if full {
                full_item(shown[i], layout.state_root)
            } else {
                concise_item(shown[i])
            }),
        by_slug(shown),
    ensures
        shows_notes(items, full, entries, state, category),
        slugs_in_order(items),
{
    assert(shows_notes(items, full, entries, state, category)) by {
        lemma_notes_found(layout, state, category, entries);
        lemma_part_shown(layout, state, category, entries, found, shown, items, full);
    }
    assert(slugs_in_order(items)) by {
        lemma_item_slugs(shown, items, layout.state_root, full);
        lemma_in_order(items, shown);
    }
}

/// A list shows every issue once, features before bugs and each by its slug,
/// and of each when its own file was last written.
pub proof fn law_list_is_answered(
    service: &WorkerService,
    run: ToolRun,
    features: Vec<EntryProbe>,
    bugs: Vec<EntryProbe>,
    outcome: WorkerOutcome,
    state: Seq<Seq<u8>>,
)
    requires
        call_ensures(
            WorkerService::listed,
            (
                service,
                run,
                Ok::<Vec<EntryProbe>, String>(features),
                Ok::<Vec<EntryProbe>, String>(bugs),
            ),
            outcome,
        ),
        lies_in(service.layout(), state),
        are_notes(features@, state, IssueCategory::Feature),
        are_notes(bugs@, state, IssueCategory::Bug),
    ensures
        outcome matches WorkerOutcome::Success(result) && {
            let full = run.presentation.detail is Full;
            let items = document_of(result@)->Object_0["issues"@]->Array_0;
            &&& says(result@, "issues"@, JsonView::Array(items))
            &&& says(result@, "count"@, JsonView::Unsigned(features@.len() + bugs@.len()))
            &&& items.len() == features@.len() + bugs@.len()
            &&& speaks_as(
                result@,
                run.presentation,
                decimal_text(items.len()) + " issue(s)"@ + slug_lines(items),
                None,
            )
            &&& shows_notes(
                items.take(features@.len() as int),
                full,
                features@,
                state,
                IssueCategory::Feature,
            )
            &&& shows_notes(
                items.skip(features@.len() as int),
                full,
                bugs@,
                state,
                IssueCategory::Bug,
            )
            &&& slugs_in_order(items.take(features@.len() as int))
            &&& slugs_in_order(items.skip(features@.len() as int))
        },
{
    let layout = service.layout();
    let full = run.presentation.detail is Full;
    let n = features@.len() as int;
    lemma_notes_found(layout, state, IssueCategory::Feature, features@);
    lemma_notes_found(layout, state, IssueCategory::Bug, bugs@);
    let first = entries_outcome(IssueCategory::Feature, features@)->Ok_0;
    let second = entries_outcome(IssueCategory::Bug, bugs@)->Ok_0;
    let found = first + second;
    assert(list_outcome(
        Ok::<Vec<EntryProbe>, String>(features),
        Ok::<Vec<EntryProbe>, String>(bugs),
    ) == Ok::<Seq<SummaryView>, StoreErrorView>(found));
    let issues = choose|issues: Seq<IssueSummary>| #[trigger]
        ranked(issues) && summaries(issues).to_multiset() == found.to_multiset() && outcome_of(
            outcome,
        ) == Ok::<JsonView, FaultRecordView>(
            success_json(list_output(summaries(issues), layout.state_root), run.presentation),
        );
    let shown = summaries(issues);
    let items = document_of(outcome->Success_0@)->Object_0["issues"@]->Array_0;
    lemma_list_document(shown, layout.state_root, run.presentation);
    lemma_list_parts(layout, state, features@, bugs@, first, second, issues, items, full);
}

proof fn lemma_in_order(items: Seq<JsonView>, shown: Seq<SummaryView>)
    requires
        items.len() == shown.len(),
        forall|i: int|
            0 <= i < items.len() ==> has_text(
                (#[trigger] items[i])->Object_0,
                "slug"@,
                shown[i].key.slug,
            ),
        by_slug(shown),
    ensures
        slugs_in_order(items),
{
    reveal(by_slug);
    assert forall|i: int, k: int, first: Seq<char>, second: Seq<char>|
        0 <= i < k < items.len() && #[trigger] has_text(items[i]->Object_0, "slug"@, first)
            && #[trigger] has_text(items[k]->Object_0, "slug"@, second) implies stands_before(
        first,
        second,
    ) by {
        assert(has_text(items[i]->Object_0, "slug"@, shown[i].key.slug));
        assert(has_text(items[k]->Object_0, "slug"@, shown[k].key.slug));
        assert(stands_before(shown[i].key.slug, shown[k].key.slug));
    }
}

/// A directory that cannot be read, or an entry that is no file, has no time
/// or is not named by a slug, is told to the client in place of a list.
pub proof fn law_list_is_whole_or_refused(
    service: &WorkerService,
    run: ToolRun,
    features: Result<Vec<EntryProbe>, String>,
    bugs: Result<Vec<EntryProbe>, String>,
    outcome: WorkerOutcome,
    listing: Seq<EntryProbe>,
    at: int,
    names: Seq<Seq<u8>>,
)
    requires
        call_ensures(WorkerService::listed, (service, run, features, bugs), outcome),
        plain_names(names),
        (features matches Ok(entries) && listing == entries@) || (bugs matches Ok(entries)
            && listing == entries@),
        0 <= at < listing.len(),
        listing[at] matches EntryProbe::Found { path, .. } ==> path@ == root_path(names),
    ensures
        features matches Err(detail) ==> (outcome matches WorkerOutcome::Fault(fault)
            && fault@.fault.detail == detail@ && fault@.fault.code == "internal_failure"@),
        bugs is Err ==> outcome is Fault,
        outcome is Success ==> (listing[at] matches EntryProbe::Found {
            path,
            is_file: true,
            modified: Ok(_),
        } && names.len() > 0 && exists|slug: Seq<char>|
            proper_slug(slug) && names.last() == #[trigger] encode_utf8(slug + ".md"@)),
{
    law_issue_files_are_named_by_slugs(names);
    if let Ok(entries) = features {
        lemma_entry_is_good(IssueCategory::Feature, entries@, at);
    }
    if let Ok(entries) = bugs {
        lemma_entry_is_good(IssueCategory::Bug, entries@, at);
    }
    if outcome is Success {
        let slug = slug_of_path(root_path(names))->Ok_0;
        lemma_proper_slug(slug);
        assert(names.last() == encode_utf8(slug + ".md"@));
    }
}

proof fn lemma_entry_is_good(category: IssueCategory, entries: Seq<EntryProbe>, at: int)
    ensures
        0 <= at < entries.len() && entries_outcome(category, entries) is Ok ==> (
        entries[at] matches EntryProbe::Found { path, is_file: true, modified: Ok(_) }
            && slug_of_path(path@) is Ok),
    decreases entries.len(),
{
    if 0 <= at < entries.len() && entries_outcome(category, entries) is Ok {
        if at < entries.len() - 1 {
            assert(entries.drop_last()[at] == entries[at]);
            lemma_entry_is_good(category, entries.drop_last(), at);
        }
    }
}

/// The probe says what is in the file at a path, and when it was written.
pub open spec fn sees(disk: Disk, path: Seq<u8>, probe: ReadProbe) -> bool {
    match probe {
        ReadProbe::Missing => !disk.dom().contains(components(path)),
        ReadProbe::Text { body, modified: Ok(_) } => disk.dom().contains(components(path))
            && encode_utf8(body@) == disk[components(path)],
        _ => false,
    }
}

proof fn lemma_one_text(left: Seq<char>, right: Seq<char>)
    requires
        encode_utf8(left) == encode_utf8(right),
    ensures
        left == right,
{
    encode_utf8_decode_utf8(left);
    encode_utf8_decode_utf8(right);
}

/// What was saved is read: a call that saves an issue, its file written, and a
/// call that reads it give back the text that was given, whatever was there
/// before.
pub proof fn law_what_was_saved_is_read(
    service: &WorkerService,
    save: &str,
    save_arguments: Json,
    save_step: WorkerStep,
    plan: SavePlan,
    bytes: &[u8],
    disk: Disk,
    read: &str,
    read_arguments: Json,
    run: ToolRun,
    key: IssueKey,
    path: LocalPath,
    probe: ReadProbe,
    outcome: WorkerOutcome,
    save_presentation: Presentation,
    presentation: Presentation,
    category: IssueCategory,
    slug: Seq<char>,
    body: Seq<char>,
    state: Seq<Seq<u8>>,
)
    requires
        lies_in(service.layout(), state),
        proper_slug(slug),
        filled(body),
        save@ == "issue.save"@,
        gives(save_arguments@, note_argument_names(), seq![word_of(category), slug, body]),
        shown_as(save_arguments@, save_presentation),
        call_ensures(WorkerService::call_tool, (service, save, save_arguments), save_step),
        save_step matches WorkerStep::Save(_, planned) ==> planned == plan,
        call_ensures(SavePlan::contents, (&plan,), bytes),
        read@ == "issue.read"@,
        gives(read_arguments@, key_names(), seq![word_of(category), slug]),
        shown_as(read_arguments@, presentation),
        call_ensures(
            WorkerService::call_tool,
            (service, read, read_arguments),
            WorkerStep::Read(run, key, path),
        ),
        sees(disk.insert(components(plan.path@), bytes@), path@, probe),
        call_ensures(WorkerService::read, (service, run, key, probe), outcome),
    ensures
        save_step is Save,
        outcome matches WorkerOutcome::Success(result) && says(
            result@,
            "body"@,
            JsonView::Text(body),
        ) && says(result@, "slug"@, JsonView::Text(slug)),
{
    law_save_writes_what_it_is_given(
        service,
        save,
        save_arguments,
        save_step,
        plan,
        bytes,
        save_presentation,
        category,
        slug,
        body,
        state,
    );
    let step = WorkerStep::Read(run, key, path);
    law_read_opens_what_it_names(
        service,
        read,
        read_arguments,
        step,
        presentation,
        category,
        slug,
        state,
    );
    law_read_is_answered(service, run, key, probe, outcome, category, slug, state);
    if let ReadProbe::Text { body: text, modified: Ok(_) } = probe {
        lemma_one_text(text@, body);
    }
}

/// What was deleted is gone: a call that deletes an issue, its file there and
/// removed, and a call that reads it tell the client that it does not exist.
pub proof fn law_what_was_deleted_is_gone(
    service: &WorkerService,
    delete: &str,
    delete_arguments: Json,
    delete_run: ToolRun,
    delete_key: IssueKey,
    delete_path: LocalPath,
    length: u64,
    plan: DeletePlan,
    disk: Disk,
    read: &str,
    read_arguments: Json,
    run: ToolRun,
    key: IssueKey,
    path: LocalPath,
    probe: ReadProbe,
    outcome: WorkerOutcome,
    delete_presentation: Presentation,
    presentation: Presentation,
    category: IssueCategory,
    slug: Seq<char>,
    state: Seq<Seq<u8>>,
)
    requires
        lies_in(service.layout(), state),
        proper_slug(slug),
        delete@ == "issue.delete"@,
        gives(delete_arguments@, key_names(), seq![word_of(category), slug]),
        shown_as(delete_arguments@, delete_presentation),
        call_ensures(
            WorkerService::call_tool,
            (service, delete, delete_arguments),
            WorkerStep::Delete(delete_run, delete_key, delete_path),
        ),
        call_ensures(
            WorkerService::delete,
            (service, &delete_run, delete_key, DeleteProbe::Found(length)),
            Ok(plan),
        ),
        read@ == "issue.read"@,
        gives(read_arguments@, key_names(), seq![word_of(category), slug]),
        shown_as(read_arguments@, presentation),
        call_ensures(
            WorkerService::call_tool,
            (service, read, read_arguments),
            WorkerStep::Read(run, key, path),
        ),
        sees(disk.remove(components(plan.path@)), path@, probe),
        call_ensures(WorkerService::read, (service, run, key, probe), outcome),
    ensures
        delete_path@ == path@,
        plan.path@ == path@,
        outcome matches WorkerOutcome::Fault(fault) && bad_input(
            fault@,
            "issue `"@ + (word_of(category) + "/"@ + slug) + "` does not exist"@,
        ),
{
    law_delete_removes_what_it_names(
        service,
        delete,
        delete_arguments,
        WorkerStep::Delete(delete_run, delete_key, delete_path),
        delete_presentation,
        category,
        slug,
        state,
    );
    law_delete_takes_the_file(
        service,
        &delete_run,
        delete_key,
        DeleteProbe::Found(length),
        Ok(plan),
        category,
        slug,
        state,
    );
    law_read_opens_what_it_names(
        service,
        read,
        read_arguments,
        WorkerStep::Read(run, key, path),
        presentation,
        category,
        slug,
        state,
    );
    law_read_is_answered(service, run, key, probe, outcome, category, slug, state);
}

/// Two issues never share a file: with another category or another slug, the
/// file is another.
pub proof fn law_notes_lie_apart(
    state: Seq<Seq<u8>>,
    first: IssueCategory,
    first_slug: Seq<char>,
    second: IssueCategory,
    second_slug: Seq<char>,
    layout: LayoutView,
)
    requires
        lies_in(layout, state),
        proper_slug(first_slug),
        proper_slug(second_slug),
    ensures
        components(root_path(state + note_names(first, first_slug))) == components(
            root_path(state + note_names(second, second_slug)),
        ) <==> first == second && first_slug == second_slug,
{
    lemma_proper_slug(first_slug);
    lemma_proper_slug(second_slug);
    lemma_note_place(layout, state, first, first_slug);
    lemma_note_place(layout, state, second, second_slug);
    law_issue_paths_differ(
        layout.issues_root,
        KeyView { category: first, slug: first_slug },
        KeyView { category: second, slug: second_slug },
    );
}

proof fn lemma_joined_names(base: Seq<Seq<u8>>, names: Seq<Seq<u8>>)
    requires
        plain_names(base + names),
    ensures
        joined_all(root_path(base), names) == root_path(base + names),
    decreases names.len(),
{
    let whole = base + names;
    if names.len() == 0 {
        assert(whole =~= base);
    } else {
        assert(whole.drop_last() =~= base + names.drop_last());
        lemma_root_path_grows(whole);
        lemma_joined_names(base, names.drop_last());
    }
}

/// The layout of a project: its state lies in the directory for states, in
/// `jira_at_home` and `projects`, under the names of what all its worktrees
/// share, and its issues lie in there.
pub proof fn law_layout_of_a_project(
    requested: LocalPath,
    anchor: ProjectAnchor,
    state_dir: &LocalPath,
    layout: ProjectLayout,
    states: Seq<Seq<u8>>,
    identity: Seq<Seq<u8>>,
)
    requires
        call_ensures(ProjectLayout::bind, (requested, anchor, state_dir), layout),
        plain_names(states),
        plain_names(identity),
        state_dir@ == root_path(states),
        anchor.state_identity@ == root_path(identity),
    ensures
        lies_in(
            layout@,
            states + seq![encode_utf8("jira_at_home"@), encode_utf8("projects"@)] + identity,
        ),
        layout@.requested_path == requested@,
        layout@.project_root == anchor.project_root@,
        layout@.worktree_root == anchor.worktree_root@,
        layout@.state_identity == anchor.state_identity@,
{
    let text = "jira_at_home"@;
    let more = "projects"@;
    reveal_strlit("jira_at_home");
    reveal_strlit("projects");
    assert(is_ascii_chars(text) && is_ascii_chars(more));
    is_ascii_chars_encode_utf8(text);
    is_ascii_chars_encode_utf8(more);
    assert(text.len() == 12 && more.len() == 8);
    assert forall|i: int| 0 <= i < text.len() implies #[trigger] encode_utf8(text)[i] != 47u8 by {
        assert(text[i] != '/');
    }
    assert forall|i: int| 0 <= i < more.len() implies #[trigger] encode_utf8(more)[i] != 47u8 by {
        assert(more[i] != '/');
    }
    let first = states.push(encode_utf8(text));
    let second = first.push(encode_utf8(more));
    let state = states + seq![encode_utf8(text), encode_utf8(more)] + identity;
    assert(state =~= second + identity);
    assert forall|i: int| 0 <= i < state.len() implies plain_name(#[trigger] state[i]) by {
        if i < states.len() {
            assert(state[i] == states[i]);
        } else if i >= states.len() + 2 {
            assert(state[i] == identity[i - states.len() - 2]);
        }
    }
    assert forall|i: int| 0 <= i < second.len() implies plain_name(#[trigger] second[i]) by {
        assert(second[i] == state[i]);
    }
    assert forall|i: int| 0 <= i < first.len() implies plain_name(#[trigger] first[i]) by {
        assert(first[i] == state[i]);
    }
    assert(first.drop_last() =~= states);
    assert(second.drop_last() =~= first);
    lemma_root_path_grows(first);
    lemma_root_path_grows(second);
    lemma_joined_names(second, identity);
    law_root_paths(identity);
    lemma_normal_names(identity);
    lemma_issues_name();
    let issues = state.push(encode_utf8("issues"@));
    assert(issues.drop_last() =~= state);
    assert forall|i: int| 0 <= i < issues.len() implies plain_name(#[trigger] issues[i]) by {
        if i < state.len() {
            assert(issues[i] == state[i]);
        }
    }
    lemma_root_path_grows(issues);
}

/// A presentation may be asked for by other names too.
pub proof fn law_presentation_names(
    arguments: Json,
    operation: &str,
    generation: crate::fault::Generation,
    stage: FaultStage,
    split: Result<(Presentation, Json), FaultRecord>,
    members: Map<Seq<char>, JsonView>,
    render: Seq<char>,
    detail: Seq<char>,
)
    requires
        call_ensures(split_presentation, (arguments, operation, generation, stage), split),
        arguments@ == JsonView::Object(members),
        has_text(members, "render"@, render),
        has_text(members, "detail"@, detail),
    ensures
        split is Ok <==> (render == "porcelain"@ || render == "text"@ || render == "plain"@
            || render == "plain_text"@ || render == "json"@ || render == "structured"@) && (detail
            == "concise"@ || detail == "summary"@ || detail == "compact"@ || detail == "full"@
            || detail == "verbose"@ || detail == "detailed"@),
        split matches Ok((presentation, rest)) ==> {
            &&& presentation.render is Json <==> render == "json"@ || render == "structured"@
            &&& presentation.detail is Full <==> detail == "full"@ || detail == "verbose"@ || detail
                == "detailed"@
            &&& rest@ == JsonView::Object(members.remove("render"@).remove("detail"@))
        },
        split matches Err(fault) ==> fault@.fault.code == "invalid_input"@ && fault@.jsonrpc_code
            == -32602,
{
    lemma_words();
    reveal_strlit("porcelain");
    reveal_strlit("text");
    reveal_strlit("plain");
    reveal_strlit("plain_text");
    reveal_strlit("json");
    reveal_strlit("structured");
    reveal_strlit("concise");
    reveal_strlit("summary");
    reveal_strlit("compact");
    reveal_strlit("full");
    reveal_strlit("verbose");
    reveal_strlit("detailed");
    assert("porcelain"@[0] == 'p' && "text"@[0] == 't' && "plain"@[0] == 'p' && "plain_text"@[0]
        == 'p' && "json"@[0] == 'j' && "structured"@[0] == 's');
    assert("concise"@[0] == 'c' && "summary"@[0] == 's' && "compact"@[0] == 'c' && "full"@[0] == 'f'
        && "verbose"@[0] == 'v' && "detailed"@[0] == 'd');
}

/// A call that does not give all its arguments as texts touches no file: what
/// is wrong is to be explained.
pub proof fn law_missing_arguments_are_explained(
    service: &WorkerService,
    name: &str,
    arguments: Json,
    step: WorkerStep,
    presentation: Presentation,
)
    requires
        call_ensures(WorkerService::call_tool, (service, name, arguments), step),
        name@ == "issue.save"@ || name@ == "issue.read"@ || name@ == "issue.delete"@,
        shown_as(arguments@, presentation),
        forall|given: Seq<Seq<char>>|
            !#[trigger] gives(arguments@, argument_names(name@), given),
    ensures
        step matches WorkerStep::Explain(run, shape, _) && run.presentation == presentation
            && run.operation@ == "tools/call:"@ + name@ && (shape == IssueArguments::Save <==> name@
            == "issue.save"@),
{
    lemma_words();
    lemma_given(
        arguments@,
        presentation,
        "tools/call:"@ + name@,
        service.generation(),
        FaultStage::Worker,
        argument_names(name@),
    );
}

/// The directories that a project needs: that of its issues, one for each
/// category, and one for the session.
pub proof fn law_directories(
    layout: &ProjectLayout,
    directories: Vec<LocalPath>,
    state: Seq<Seq<u8>>,
)
    requires
        call_ensures(ProjectLayout::directories, (layout,), directories),
        lies_in(layout@, state),
    ensures
        directories@.len() == 4,
        directories@[0]@ == root_path(state + seq![encode_utf8("issues"@)]),
        directories@[1]@ == root_path(
            state + seq![encode_utf8("issues"@), encode_utf8("feature"@)],
        ),
        directories@[2]@ == root_path(state + seq![encode_utf8("issues"@), encode_utf8("bug"@)]),
        directories@[3]@ == root_path(state + seq![encode_utf8("mcp"@)]),
{
    let issues = state.push(encode_utf8("issues"@));
    let paths = seq![
        layout@.issues_root,
        category_root_of(layout@.issues_root, IssueCategory::Feature),
        category_root_of(layout@.issues_root, IssueCategory::Bug),
        joined(layout@.state_root, encode_utf8("mcp"@)),
    ];
    assert(paths.len() == 4);
    assert(paths[0] == directories@[0]@ && paths[1] == directories@[1]@ && paths[2]
        == directories@[2]@ && paths[3] == directories@[3]@);
    assert(state + seq![encode_utf8("issues"@)] =~= issues);
    lemma_issues_name();
    lemma_category_name(IssueCategory::Feature);
    lemma_category_name(IssueCategory::Bug);
    lemma_next_name(state, encode_utf8("issues"@));
    lemma_next_name(issues, encode_utf8("feature"@));
    lemma_next_name(issues, encode_utf8("bug"@));
    assert(state + seq![encode_utf8("issues"@), encode_utf8("feature"@)] =~= issues.push(
        encode_utf8("feature"@),
    ));
    assert(state + seq![encode_utf8("issues"@), encode_utf8("bug"@)] =~= issues.push(
        encode_utf8("bug"@),
    ));
    let text = "mcp"@;
    reveal_strlit("mcp");
    assert(is_ascii_chars(text));
    is_ascii_chars_encode_utf8(text);
    assert(text.len() == 3);
    assert forall|i: int| 0 <= i < text.len() implies #[trigger] encode_utf8(text)[i] != 47u8 by {
        assert(text[i] != '/');
    }
    lemma_next_name(state, encode_utf8(text));
    assert(state + seq![encode_utf8(text)] =~= state.push(encode_utf8(text)));
}

proof fn lemma_next_name(names: Seq<Seq<u8>>, name: Seq<u8>)
    requires
        plain_names(names),
        plain_name(name),
    ensures
        root_path(names.push(name)) == joined(root_path(names), name),
        plain_names(names.push(name)),
{
    let longer = names.push(name);
    assert(longer.drop_last() =~= names);
    assert forall|i: int| 0 <= i < longer.len() implies plain_name(#[trigger] longer[i]) by {
        if i < names.len() {
            assert(longer[i] == names[i]);
        }
    }
    lemma_root_path_grows(longer);
}

/// What is said where the store refuses a request.
pub proof fn law_messages(error: &StoreError, text: String)
    requires
        call_ensures(StoreError::message, (error,), text),
    ensures
        match error {
            StoreError::IssueTooLarge(key, bytes) => text@ == "issue `"@ + key@
                + "` is too large for this platform ("@ + decimal_text(*bytes as nat)
                + " bytes)"@,
            StoreError::MissingProjectPath(path) => text@ == "project path `"@ + path@
                + "` does not exist"@,
            StoreError::ProjectPathNotDirectory(path) => text@ == "project path `"@ + path@
                + "` does not resolve to a directory"@,
            StoreError::InvalidCategory(raw) => text@ == "invalid issue category `"@ + raw@
                + "`; expected `feature` or `bug`"@,
            StoreError::InvalidSlug(detail) => text@ == "invalid issue slug: "@ + detail@,
            StoreError::EmptyIssueBody => text@ == "issue body must not be blank"@,
            StoreError::IssueNotFound(key) => text@ == "issue `"@ + key@ + "` does not exist"@,
            StoreError::MalformedIssueEntry(path, detail) => text@ == "malformed issue entry `"@
                + path@ + "`: "@ + detail@,
            StoreError::MalformedGitIndirection(path, detail) => text@
                == "malformed git indirection `"@ + path@ + "`: "@ + detail@,
            StoreError::LegacyMigrationConflict { legacy_source, target } => text@
                == "cannot migrate legacy worktree issue `"@ + legacy_source@ + "` to `"@ + target@
                + "` because both exist with different bodies"@,
            StoreError::Io(detail) => text@ == detail@,
        },
{
}

} // verus!
