//! The worker: it carries out the tools that work on issues.
//!
//! The file operations that a tool needs are asked for as a step; what came of
//! them is handed back, and the result follows.

use vstd::prelude::*;

use libmcp::SurfaceKind;

use crate::fault::{
    FaultRecord, FaultRecordView, FaultStage, Generation, internal_record, invalid_input_record,
};
use crate::issue::{
    IssueBody, IssueCategory, IssueKey, IssueSlug, KeyView, StoreError, StoreErrorView,
    category_named, slug_fault, store_error_text,
};
use crate::json::{Json, JsonView, Members, items_view};
use crate::output::{
    Presentation, ToolOutput, ToolOutputView, fallback_detailed_tool_output, presentation_split,
    split_presentation, success_json, tool_success,
};
use crate::order::ranked;
use crate::path::{LocalPath, lossy_text, stripped};
use crate::protocol::{WorkerOperation, WorkerOutcome};
use crate::routing::{field_names, text_arguments, text_fields};
use crate::store::{
    DeletePlan, DeleteProbe, DeleteReceipt, DeleteView, EntryProbe, IssueRecord, IssueStore,
    IssueSummary, LayoutView, ReadProbe, RecordView, SavePlan, SaveReceipt, SaveView, SummaryView,
    Timestamp, delete_refusal, format_timestamp, issue_path_of, list_outcome, read_outcome,
    summaries, timestamp_text,
};
use crate::text::{
    blank, concat, concat3, decimal, decimal_text, join_lines, joined_lines, same_text, texts,
};

verus! {

/// The generation with this ordinal on the wire; there is none before the
/// first.
pub fn generation_from_wire(raw: u64) -> (generation: Generation)
    ensures
        generation.value == (if raw == 0 {
            1
        } else {
            raw
        }),
{
    match Generation::try_new(raw) {
        Some(generation) => generation,
        None => Generation::genesis(),
    }
}

/// The fault for a refusal of the store.
pub open spec fn store_fault_record(
    generation: Generation,
    operation: Seq<char>,
    error: StoreErrorView,
) -> FaultRecordView {
    match error {
        StoreErrorView::Io(detail) => internal_record(
            generation,
            FaultStage::Store,
            operation,
            detail,
        ),
        _ => invalid_input_record(
            generation,
            FaultStage::Worker,
            operation,
            store_error_text(error),
        ),
    }
}

/// The fault for a refusal of the store.
pub fn store_fault(generation: Generation, operation: &str, error: StoreError) -> (fault: FaultRecord)
    ensures
        fault@ == store_fault_record(generation, operation@, error@),
{
    let message = error.message();
    match error {
        StoreError::Io(_) => FaultRecord::internal(
            generation,
            FaultStage::Store,
            operation,
            message.as_str(),
        ),
        _ => FaultRecord::invalid_input(
            generation,
            FaultStage::Worker,
            operation,
            message.as_str(),
        ),
    }
}

/// A path as text, from a directory on where it lies in that directory.
pub open spec fn relative_text(path: Seq<u8>, root: Seq<u8>) -> Seq<char> {
    match stripped(path, root) {
        Some(rest) => lossy_text(rest),
        None => lossy_text(path),
    }
}

/// A path as text, from a directory on where it lies in that directory.
pub fn relative_issue_path(path: &LocalPath, root: &LocalPath) -> (text: String)
    ensures
        text@ == relative_text(path@, root@),
{
    match path.strip_prefix(root) {
        Some(rest) => rest.display(),
        None => path.display(),
    }
}

/// What became of an issue that was saved.
pub open spec fn save_status(created: bool) -> Seq<char> {
    if created {
        "created"@
    } else {
        "updated"@
    }
}

/// The result of saving an issue.
pub open spec fn save_output(receipt: SaveView, state_root: Seq<u8>) -> ToolOutputView {
    let path = relative_text(receipt.path, state_root);
    let members = map![
        "slug"@ => JsonView::Text(receipt.key.slug),
        "status"@ => JsonView::Text(save_status(receipt.created)),
        "path"@ => JsonView::Text(path),
        "updated_at"@ => JsonView::Text(timestamp_text(receipt.updated_at)),
    ];
    ToolOutputView {
        concise: JsonView::Object(members),
        full: JsonView::Object(members.insert("bytes"@, JsonView::Unsigned(receipt.bytes))),
        concise_text: joined_lines(
            seq![
                "saved issue "@ + receipt.key.slug,
                "status: "@ + save_status(receipt.created),
                "path: "@ + path,
                "updated: "@ + timestamp_text(receipt.updated_at),
            ],
        ),
        full_text: None,
    }
}

/// The result of deleting an issue.
pub open spec fn delete_output(receipt: DeleteView, state_root: Seq<u8>) -> ToolOutputView {
    let path = relative_text(receipt.path, state_root);
    let members = map![
        "slug"@ => JsonView::Text(receipt.key.slug),
        "status"@ => JsonView::Text("deleted"@),
        "path"@ => JsonView::Text(path),
        "deleted_at"@ => JsonView::Text(timestamp_text(receipt.deleted_at)),
    ];
    ToolOutputView {
        concise: JsonView::Object(members),
        full: JsonView::Object(members.insert("bytes"@, JsonView::Unsigned(receipt.bytes))),
        concise_text: joined_lines(
            seq![
                "deleted issue "@ + receipt.key.slug,
                "path: "@ + path,
                "deleted: "@ + timestamp_text(receipt.deleted_at),
            ],
        ),
        full_text: None,
    }
}

/// One issue in a concise list.
pub open spec fn concise_item(issue: SummaryView) -> JsonView {
    JsonView::Object(
        map![
            "slug"@ => JsonView::Text(issue.key.slug),
            "updated_at"@ => JsonView::Text(timestamp_text(issue.updated_at)),
        ],
    )
}

/// One issue in a full list.
pub open spec fn full_item(issue: SummaryView, state_root: Seq<u8>) -> JsonView {
    JsonView::Object(
        map![
            "slug"@ => JsonView::Text(issue.key.slug),
            "path"@ => JsonView::Text(relative_text(issue.path, state_root)),
            "updated_at"@ => JsonView::Text(timestamp_text(issue.updated_at)),
        ],
    )
}

/// A list of issues.
pub open spec fn list_json(items: Seq<JsonView>) -> JsonView {
    JsonView::Object(
        map!["count"@ => JsonView::Unsigned(items.len()), "issues"@ => JsonView::Array(items)],
    )
}

/// The result of listing issues.
pub open spec fn list_output(issues: Seq<SummaryView>, state_root: Seq<u8>) -> ToolOutputView {
    ToolOutputView {
        concise: list_json(issues.map_values(|issue: SummaryView| concise_item(issue))),
        full: list_json(issues.map_values(|issue: SummaryView| full_item(issue, state_root))),
        concise_text: joined_lines(
            seq![decimal_text(issues.len()) + " issue(s)"@] + issues.map_values(
                |issue: SummaryView| issue.key.slug,
            ),
        ),
        full_text: None,
    }
}

/// The result of reading an issue.
pub open spec fn read_output(record: RecordView, state_root: Seq<u8>) -> ToolOutputView {
    let path = relative_text(record.path, state_root);
    let updated = timestamp_text(record.updated_at);
    let members = map![
        "slug"@ => JsonView::Text(record.key.slug),
        "updated_at"@ => JsonView::Text(updated),
        "body"@ => JsonView::Text(record.body),
    ];
    ToolOutputView {
        concise: JsonView::Object(members),
        full: JsonView::Object(
            members.insert("path"@, JsonView::Text(path)).insert(
                "bytes"@,
                JsonView::Unsigned(record.bytes),
            ),
        ),
        concise_text: "issue "@ + record.key.slug + "\nupdated: "@ + updated + "\n\n"@
            + record.body,
        full_text: Some(
            "issue "@ + record.key.slug + "\npath: "@ + path + "\nupdated: "@ + updated
                + "\nbytes: "@ + decimal_text(record.bytes) + "\n\n"@ + record.body,
        ),
    }
}

fn issue_save_output(
    receipt: &SaveReceipt,
    state_root: &LocalPath,
    generation: Generation,
    operation: &str,
) -> (output: Result<ToolOutput, FaultRecord>)
    ensures
        output matches Ok(output) && output@ == save_output(receipt@, state_root@),
{
    let path = relative_issue_path(&receipt.path, state_root);
    let status = if receipt.created {
        "created"
    } else {
        "updated"
    };
    let updated = format_timestamp(receipt.updated_at);
    let mut concise = Members::new();
    concise.put_text("slug", receipt.key.slug.as_str());
    concise.put_text("status", status);
    concise.put_text("path", path.as_str());
    concise.put_text("updated_at", updated.as_str());
    let mut full = Members::new();
    full.put_text("slug", receipt.key.slug.as_str());
    full.put_text("status", status);
    full.put_text("path", path.as_str());
    full.put_text("updated_at", updated.as_str());
    full.put("bytes", Json::Unsigned(receipt.bytes as u64));
    let mut lines: Vec<String> = Vec::new();
    lines.push(concat("saved issue ", receipt.key.slug.as_str()));
    lines.push(concat("status: ", status));
    lines.push(concat("path: ", path.as_str()));
    lines.push(concat("updated: ", updated.as_str()));
    assert(texts(lines@) =~= seq![
        "saved issue "@ + receipt@.key.slug,
        "status: "@ + save_status(receipt@.created),
        "path: "@ + path@,
        "updated: "@ + updated@,
    ]);
    fallback_detailed_tool_output(
        concise.object(),
        full.object(),
        join_lines(&lines),
        None,
        SurfaceKind::Mutation,
        generation,
        FaultStage::Worker,
        operation,
    )
}

fn issue_delete_output(
    receipt: &DeleteReceipt,
    state_root: &LocalPath,
    generation: Generation,
    operation: &str,
) -> (output: Result<ToolOutput, FaultRecord>)
    ensures
        output matches Ok(output) && output@ == delete_output(receipt@, state_root@),
{
    let path = relative_issue_path(&receipt.path, state_root);
    let deleted = format_timestamp(receipt.deleted_at);
    let mut concise = Members::new();
    concise.put_text("slug", receipt.key.slug.as_str());
    concise.put_text("status", "deleted");
    concise.put_text("path", path.as_str());
    concise.put_text("deleted_at", deleted.as_str());
    let mut full = Members::new();
    full.put_text("slug", receipt.key.slug.as_str());
    full.put_text("status", "deleted");
    full.put_text("path", path.as_str());
    full.put_text("deleted_at", deleted.as_str());
    full.put("bytes", Json::Unsigned(receipt.bytes as u64));
    let mut lines: Vec<String> = Vec::new();
    lines.push(concat("deleted issue ", receipt.key.slug.as_str()));
    lines.push(concat("path: ", path.as_str()));
    lines.push(concat("deleted: ", deleted.as_str()));
    assert(texts(lines@) =~= seq![
        "deleted issue "@ + receipt@.key.slug,
        "path: "@ + path@,
        "deleted: "@ + deleted@,
    ]);
    fallback_detailed_tool_output(
        concise.object(),
        full.object(),
        join_lines(&lines),
        None,
        SurfaceKind::Mutation,
        generation,
        FaultStage::Worker,
        operation,
    )
}

fn issue_list_output(
    issues: &Vec<IssueSummary>,
    state_root: &LocalPath,
    generation: Generation,
    operation: &str,
) -> (output: Result<ToolOutput, FaultRecord>)
    ensures
        output matches Ok(output) && output@ == list_output(summaries(issues@), state_root@),
{
    let ghost views = summaries(issues@);
    let mut concise_items: Vec<Json> = Vec::new();
    let mut full_items: Vec<Json> = Vec::new();
    let mut lines: Vec<String> = Vec::new();
    let count = issues.len() as u64;
    lines.push(concat(decimal(count).as_str(), " issue(s)"));
    let mut at: usize = 0;
    while at < issues.len()
        invariant
            at <= issues.len(),
            views == summaries(issues@),
            views.len() == issues@.len(),
            concise_items@.len() == at,
            full_items@.len() == at,
            lines@.len() == at + 1,
            lines@[0]@ == decimal_text(views.len()) + " issue(s)"@,
            forall|i: int|
                0 <= i < at ==> (#[trigger] concise_items@[i])@ == concise_item(views[i]),
            forall|i: int|
                0 <= i < at ==> (#[trigger] full_items@[i])@ == full_item(views[i], state_root@),
            forall|i: int| 0 < i <= at ==> (#[trigger] lines@[i])@ == views[i - 1].key.slug,
        decreases issues.len() - at,
    {
        let issue = &issues[at];
        assert(views[at as int] == issue@);
        let updated = format_timestamp(issue.updated_at);
        let mut concise = Members::new();
        concise.put_text("slug", issue.key.slug.as_str());
        concise.put_text("updated_at", updated.as_str());
        concise_items.push(concise.object());
        let mut full = Members::new();
        full.put_text("slug", issue.key.slug.as_str());
        full.put_text("path", relative_issue_path(&issue.path, state_root).as_str());
        full.put_text("updated_at", updated.as_str());
        full_items.push(full.object());
        lines.push(issue.key.slug.as_str().to_owned());
        at = at + 1;
    }
    assert(items_view(concise_items@) =~= views.map_values(
        |issue: SummaryView| concise_item(issue),
    ));
    assert(items_view(full_items@) =~= views.map_values(
        |issue: SummaryView| full_item(issue, state_root@),
    ));
    assert(texts(lines@) =~= seq![decimal_text(views.len()) + " issue(s)"@] + views.map_values(
        |issue: SummaryView| issue.key.slug,
    ));
    let mut concise = Members::new();
    concise.put("count", Json::Unsigned(count));
    concise.put("issues", Json::array(concise_items));
    let mut full = Members::new();
    full.put("count", Json::Unsigned(count));
    full.put("issues", Json::array(full_items));
    fallback_detailed_tool_output(
        concise.object(),
        full.object(),
        join_lines(&lines),
        None,
        SurfaceKind::List,
        generation,
        FaultStage::Worker,
        operation,
    )
}

fn issue_read_output(
    record: &IssueRecord,
    state_root: &LocalPath,
    generation: Generation,
    operation: &str,
) -> (output: Result<ToolOutput, FaultRecord>)
    ensures
        output matches Ok(output) && output@ == read_output(record@, state_root@),
{
    let path = relative_issue_path(&record.path, state_root);
    let updated = format_timestamp(record.updated_at);
    let bytes = record.bytes as u64;
    let mut concise = Members::new();
    concise.put_text("slug", record.key.slug.as_str());
    concise.put_text("updated_at", updated.as_str());
    concise.put_text("body", record.body.as_str());
    let mut full = Members::new();
    full.put_text("slug", record.key.slug.as_str());
    full.put_text("updated_at", updated.as_str());
    full.put_text("body", record.body.as_str());
    full.put_text("path", path.as_str());
    full.put("bytes", Json::Unsigned(bytes));
    let head = concat("issue ", record.key.slug.as_str());
    let text = concat3(head.as_str(), "\nupdated: ", updated.as_str());
    let concise_text = concat3(text.as_str(), "\n\n", record.body.as_str());
    let text = concat3(head.as_str(), "\npath: ", path.as_str());
    let text = concat3(text.as_str(), "\nupdated: ", updated.as_str());
    let text = concat3(text.as_str(), "\nbytes: ", decimal(bytes).as_str());
    let full_text = concat3(text.as_str(), "\n\n", record.body.as_str());
    fallback_detailed_tool_output(
        concise.object(),
        full.object(),
        concise_text,
        Some(full_text),
        SurfaceKind::Read,
        generation,
        FaultStage::Worker,
        operation,
    )
}

/// The call of a tool that the worker carries out.
pub struct ToolRun {
    pub operation: String,
    pub presentation: Presentation,
}

/// Which arguments a document does not hold.
#[derive(Clone, Copy, Debug, PartialEq, Eq, Structural)]
pub enum IssueArguments {
    /// A category, a slug and a body.
    Save,
    /// A category and a slug.
    Key,
}

/// What the worker does next.
pub enum WorkerStep {
    /// The call has come to its end.
    Finish(WorkerOutcome),
    /// The arguments have another shape; say how.
    Explain(ToolRun, IssueArguments, Json),
    /// Write an issue.
    Save(ToolRun, SavePlan),
    /// Look at the directories of the categories.
    List(ToolRun),
    /// Read the file of an issue.
    Read(ToolRun, IssueKey, LocalPath),
    /// Look at the file of an issue that is to be deleted.
    Delete(ToolRun, IssueKey, LocalPath),
}

/// What a call of a tool asks the worker to do.
pub enum Errand {
    Failed(FaultRecordView),
    Explain(Presentation, IssueArguments, JsonView),
    Save(Presentation, KeyView, Seq<char>),
    List(Presentation),
    Read(Presentation, KeyView),
    Delete(Presentation, KeyView),
}

/// The key that a category and a slug give, or what is wrong with them.
pub open spec fn key_named(category: Seq<char>, slug: Seq<char>) -> Result<
    KeyView,
    StoreErrorView,
> {
    match category_named(category) {
        None => Err(StoreErrorView::InvalidCategory(category)),
        Some(found) => match slug_fault(slug) {
            Some(detail) => Err(StoreErrorView::InvalidSlug(detail)),
            None => Ok(KeyView { category: found, slug }),
        },
    }
}

/// What a call of a tool asks the worker to do.
pub open spec fn errand(generation: Generation, name: Seq<char>, arguments: JsonView) -> Errand {
    let operation = "tools/call:"@ + name;
    match presentation_split(arguments, operation, generation, FaultStage::Worker) {
        Err(fault) => Errand::Failed(fault),
        Ok((presentation, rest)) => if name == "issue.save"@ {
            match text_fields(rest, seq!["category"@, "slug"@, "body"@]) {
                None => Errand::Explain(presentation, IssueArguments::Save, rest),
                Some(fields) => match key_named(fields[0], fields[1]) {
                    Err(error) => Errand::Failed(store_fault_record(generation, operation, error)),
                    Ok(key) => if blank(fields[2]) {
                        Errand::Failed(
                            store_fault_record(
                                generation,
                                operation,
                                StoreErrorView::EmptyIssueBody,
                            ),
                        )
                    } else {
                        Errand::Save(presentation, key, fields[2])
                    },
                },
            }
        } else if name == "issue.list"@ {
            Errand::List(presentation)
        } else if name == "issue.read"@ || name == "issue.delete"@ {
            match text_fields(rest, seq!["category"@, "slug"@]) {
                None => Errand::Explain(presentation, IssueArguments::Key, rest),
                Some(fields) => match key_named(fields[0], fields[1]) {
                    Err(error) => Errand::Failed(store_fault_record(generation, operation, error)),
                    Ok(key) => if name == "issue.read"@ {
                        Errand::Read(presentation, key)
                    } else {
                        Errand::Delete(presentation, key)
                    },
                },
            }
        } else {
            Errand::Failed(
                invalid_input_record(
                    generation,
                    FaultStage::Worker,
                    operation,
                    "unknown worker tool `"@ + name + "`"@,
                ),
            )
        },
    }
}

/// The step does what a call asks for, on the issues under this root.
pub open spec fn runs(
    step: WorkerStep,
    errand: Errand,
    operation: Seq<char>,
    issues_root: Seq<u8>,
) -> bool {
    match step {
        WorkerStep::Finish(WorkerOutcome::Fault(fault)) => errand == Errand::Failed(fault@),
        WorkerStep::Finish(WorkerOutcome::Success(_)) => false,
        WorkerStep::Explain(run, shape, arguments) => run.operation@ == operation && errand
            == Errand::Explain(run.presentation, shape, arguments@),
        WorkerStep::Save(run, plan) => run.operation@ == operation && plan.path@ == issue_path_of(
            issues_root,
            plan.key@,
        ) && errand == Errand::Save(run.presentation, plan.key@, plan.body@),
        WorkerStep::List(run) => run.operation@ == operation && errand == Errand::List(
            run.presentation,
        ),
        WorkerStep::Read(run, key, path) => run.operation@ == operation && path@ == issue_path_of(
            issues_root,
            key@,
        ) && errand == Errand::Read(run.presentation, key@),
        WorkerStep::Delete(run, key, path) => run.operation@ == operation && path@ == issue_path_of(
            issues_root,
            key@,
        ) && errand == Errand::Delete(run.presentation, key@),
    }
}

fn parse_key(category: String, slug: String) -> (key: Result<IssueKey, StoreError>)
    ensures
        match key {
            Ok(key) => key_named(category@, slug@) == Ok::<KeyView, StoreErrorView>(key@),
            Err(error) => key_named(category@, slug@) == Err::<KeyView, StoreErrorView>(error@),
        },
{
    match IssueCategory::parse(category) {
        Err(error) => Err(error),
        Ok(category) => match IssueSlug::parse(slug) {
            Err(error) => Err(error),
            Ok(slug) => Ok(IssueKey::new(category, slug)),
        },
    }
}

/// The worker of one project.
pub struct WorkerService {
    store: IssueStore,
    generation: Generation,
}

/// What the outcome of a call says.
pub open spec fn outcome_of(outcome: WorkerOutcome) -> Result<JsonView, FaultRecordView> {
    match outcome {
        WorkerOutcome::Success(result) => Ok(result@),
        WorkerOutcome::Fault(fault) => Err(fault@),
    }
}

impl WorkerService {
    /// Where the project of the worker is.
    pub closed spec fn layout(&self) -> LayoutView {
        self.store@
    }

    /// The generation of the worker.
    pub closed spec fn generation(&self) -> Generation {
        self.generation
    }

    /// The worker of the project of a store.
    pub fn new(store: IssueStore, generation: Generation) -> (service: Self)
        ensures
            service.layout() == store@,
            service.generation() == generation,
    {
        WorkerService { store, generation }
    }

    /// The issues of the project.
    pub fn store(&self) -> (store: &IssueStore)
        ensures
            store@ == self.layout(),
    {
        &self.store
    }

    /// Carries out an operation.
    pub fn execute(&self, operation: WorkerOperation) -> (step: WorkerStep)
        ensures
            runs(
                step,
                errand(self.generation(), operation.name@, operation.arguments@),
                "tools/call:"@ + operation.name@,
                self.layout().issues_root,
            ),
    {
        self.call_tool(operation.name.as_str(), operation.arguments)
    }

    /// Carries out the call of a tool.
    pub fn call_tool(&self, name: &str, arguments: Json) -> (step: WorkerStep)
        ensures
            runs(
                step,
                errand(self.generation(), name@, arguments@),
                "tools/call:"@ + name@,
                self.layout().issues_root,
            ),
    {
        let generation = self.generation;
        let operation = concat("tools/call:", name);
        let (presentation, rest) = match split_presentation(
            arguments,
            operation.as_str(),
            generation,
            FaultStage::Worker,
        ) {
            Ok(split) => split,
            Err(fault) => {
                return WorkerStep::Finish(WorkerOutcome::Fault(fault));
            },
        };
        let run = ToolRun { operation, presentation };
        if same_text(name, "issue.save") {
            let fields = vec!["category", "slug", "body"];
            assert(field_names(fields@) =~= seq!["category"@, "slug"@, "body"@]);
            let found = match text_arguments(&rest, &fields) {
                Some(found) => found,
                None => {
                    return WorkerStep::Explain(run, IssueArguments::Save, rest);
                },
            };
            assert(texts(found@)[0] == found@[0]@);
            assert(texts(found@)[1] == found@[1]@);
            assert(texts(found@)[2] == found@[2]@);
            let key = match parse_key(found[0].clone(), found[1].clone()) {
                Ok(key) => key,
                Err(error) => {
                    return self.refuse(&run, error);
                },
            };
            match IssueBody::parse(found[2].clone()) {
                Ok(body) => WorkerStep::Save(run, self.store.save(key, body)),
                Err(error) => self.refuse(&run, error),
            }
        } else if same_text(name, "issue.list") {
            WorkerStep::List(run)
        } else if same_text(name, "issue.read") || same_text(name, "issue.delete") {
            let fields = vec!["category", "slug"];
            assert(field_names(fields@) =~= seq!["category"@, "slug"@]);
            let found = match text_arguments(&rest, &fields) {
                Some(found) => found,
                None => {
                    return WorkerStep::Explain(run, IssueArguments::Key, rest);
                },
            };
            assert(texts(found@)[0] == found@[0]@);
            assert(texts(found@)[1] == found@[1]@);
            let key = match parse_key(found[0].clone(), found[1].clone()) {
                Ok(key) => key,
                Err(error) => {
                    return self.refuse(&run, error);
                },
            };
            let path = self.store.layout().issue_path(&key);
            if same_text(name, "issue.read") {
                WorkerStep::Read(run, key, path)
            } else {
                WorkerStep::Delete(run, key, path)
            }
        } else {
            WorkerStep::Finish(
                WorkerOutcome::Fault(
                    FaultRecord::invalid_input(
                        generation,
                        FaultStage::Worker,
                        run.operation.as_str(),
                        concat3("unknown worker tool `", name, "`").as_str(),
                    ),
                ),
            )
        }
    }

    fn refuse(&self, run: &ToolRun, error: StoreError) -> (step: WorkerStep)
        ensures
            step matches WorkerStep::Finish(WorkerOutcome::Fault(fault)) && fault@
                == store_fault_record(self.generation(), run.operation@, error@),
    {
        WorkerStep::Finish(
            WorkerOutcome::Fault(store_fault(self.generation, run.operation.as_str(), error)),
        )
    }

    fn present(&self, run: ToolRun, output: Result<ToolOutput, FaultRecord>) -> (outcome: WorkerOutcome)
        requires
            output is Ok,
        ensures
            outcome_of(outcome) == Ok::<JsonView, FaultRecordView>(
                success_json(output->Ok_0@, run.presentation),
            ),
    {
        match output {
            Err(fault) => WorkerOutcome::Fault(fault),
            Ok(output) => match tool_success(
                output,
                run.presentation,
                self.generation,
                FaultStage::Worker,
                run.operation.as_str(),
            ) {
                Ok(result) => WorkerOutcome::Success(result),
                Err(fault) => WorkerOutcome::Fault(fault),
            },
        }
    }

    fn fail(&self, run: &ToolRun, error: StoreError) -> (outcome: WorkerOutcome)
        ensures
            outcome_of(outcome) == Err::<JsonView, FaultRecordView>(
                store_fault_record(self.generation(), run.operation@, error@),
            ),
    {
        WorkerOutcome::Fault(store_fault(self.generation, run.operation.as_str(), error))
    }

    /// Takes what is wrong with the arguments, in words.
    pub fn explained(&self, run: ToolRun, detail: String) -> (outcome: WorkerOutcome)
        ensures
            outcome_of(outcome) == Err::<JsonView, FaultRecordView>(
                invalid_input_record(
                    self.generation(),
                    FaultStage::Protocol,
                    run.operation@,
                    "invalid params: "@ + detail@,
                ),
            ),
    {
        WorkerOutcome::Fault(
            FaultRecord::invalid_input(
                self.generation,
                FaultStage::Protocol,
                run.operation.as_str(),
                concat("invalid params: ", detail.as_str()).as_str(),
            ),
        )
    }

    /// Takes what came of writing an issue.
    pub fn saved(
        &self,
        run: ToolRun,
        plan: SavePlan,
        existed: bool,
        written: Result<Timestamp, String>,
    ) -> (outcome: WorkerOutcome)
        ensures
            outcome_of(outcome) == (match written {
                Ok(updated_at) => Ok::<JsonView, FaultRecordView>(
                    success_json(
                        save_output(
                            SaveView {
                                key: plan.key@,
                                path: plan.path@,
                                created: !existed,
                                updated_at,
                                bytes: vstd::utf8::encode_utf8(plan.body@).len(),
                            },
                            self.layout().state_root,
                        ),
                        run.presentation,
                    ),
                ),
                Err(detail) => Err::<JsonView, FaultRecordView>(
                    store_fault_record(
                        self.generation(),
                        run.operation@,
                        StoreErrorView::Io(detail@),
                    ),
                ),
            }),
    {
        match plan.finish(existed, written) {
            Ok(receipt) => {
                let output = issue_save_output(
                    &receipt,
                    &self.store.layout().state_root,
                    self.generation,
                    run.operation.as_str(),
                );
                self.present(run, output)
            },
            Err(error) => self.fail(&run, error),
        }
    }

    /// Takes what is in the directories of the two categories.
    pub fn listed(
        &self,
        run: ToolRun,
        features: Result<Vec<EntryProbe>, String>,
        bugs: Result<Vec<EntryProbe>, String>,
    ) -> (outcome: WorkerOutcome)
        ensures
            match list_outcome(features, bugs) {
                Ok(found) => exists|issues: Seq<IssueSummary>| #[trigger]
                    ranked(issues) && summaries(issues).to_multiset() == found.to_multiset()
                        && outcome_of(outcome) == Ok::<JsonView, FaultRecordView>(
                        success_json(
                            list_output(summaries(issues), self.layout().state_root),
                            run.presentation,
                        ),
                    ),
                Err(error) => outcome_of(outcome) == Err::<JsonView, FaultRecordView>(
                    store_fault_record(self.generation(), run.operation@, error),
                ),
            },
    {
        match self.store.list(features, bugs) {
            Ok(issues) => {
                assert(ranked(issues@));
                let output = issue_list_output(
                    &issues,
                    &self.store.layout().state_root,
                    self.generation,
                    run.operation.as_str(),
                );
                self.present(run, output)
            },
            Err(error) => self.fail(&run, error),
        }
    }

    /// Takes what is in the file of an issue.
    pub fn read(&self, run: ToolRun, key: IssueKey, probe: ReadProbe) -> (outcome: WorkerOutcome)
        ensures
            outcome_of(outcome) == (match read_outcome(self.layout().issues_root, key@, probe) {
                Ok(record) => Ok::<JsonView, FaultRecordView>(
                    success_json(
                        read_output(record, self.layout().state_root),
                        run.presentation,
                    ),
                ),
                Err(error) => Err::<JsonView, FaultRecordView>(
                    store_fault_record(self.generation(), run.operation@, error),
                ),
            }),
    {
        match self.store.read(key, probe) {
            Ok(record) => {
                let output = issue_read_output(
                    &record,
                    &self.store.layout().state_root,
                    self.generation,
                    run.operation.as_str(),
                );
                self.present(run, output)
            },
            Err(error) => self.fail(&run, error),
        }
    }

    /// Takes what is known of the file of an issue that is to be deleted: the
    /// deletion, or why the issue is not deleted.
    pub fn delete(&self, run: &ToolRun, key: IssueKey, probe: DeleteProbe) -> (plan: Result<
        DeletePlan,
        WorkerOutcome,
    >)
        ensures
            match plan {
                Ok(plan) => delete_refusal(key@, probe) is None && plan.key@ == key@ && plan.path@
                    == issue_path_of(self.layout().issues_root, key@) && probe
                    == DeleteProbe::Found(plan.bytes as u64),
                Err(outcome) => delete_refusal(key@, probe) matches Some(error) && outcome_of(
                    outcome,
                ) == Err::<JsonView, FaultRecordView>(
                    store_fault_record(self.generation(), run.operation@, error),
                ),
            },
    {
        match self.store.delete(key, probe) {
            Ok(plan) => Ok(plan),
            Err(error) => Err(self.fail(run, error)),
        }
    }

    /// Takes what came of deleting an issue.
    pub fn deleted(&self, run: ToolRun, plan: DeletePlan, removed: Result<Timestamp, String>) -> (outcome:
        WorkerOutcome)
        ensures
            outcome_of(outcome) == (match removed {
                Ok(deleted_at) => Ok::<JsonView, FaultRecordView>(
                    success_json(
                        delete_output(
                            DeleteView {
                                key: plan.key@,
                                path: plan.path@,
                                deleted_at,
                                bytes: plan.bytes as nat,
                            },
                            self.layout().state_root,
                        ),
                        run.presentation,
                    ),
                ),
                Err(detail) => Err::<JsonView, FaultRecordView>(
                    store_fault_record(
                        self.generation(),
                        run.operation@,
                        StoreErrorView::Io(detail@),
                    ),
                ),
            }),
    {
        match plan.finish(removed) {
            Ok(receipt) => {
                let output = issue_delete_output(
                    &receipt,
                    &self.store.layout().state_root,
                    self.generation,
                    run.operation.as_str(),
                );
                self.present(run, output)
            },
            Err(error) => self.fail(&run, error),
        }
    }
}

} // verus!
