//! The issues of a project: where they are kept, and what comes of reading,
//! writing, listing and deleting them.
//!
//! The file operations themselves are carried out elsewhere; this module says
//! which, and takes what came of them as plain values.

use vstd::prelude::*;

use vstd::utf8::encode_utf8;

use crate::anchor::{AnchorView, ProjectAnchor};
use crate::issue::{
    IssueBody, IssueCategory, IssueKey, KeyView, StoreError, StoreErrorView, category_text,
    key_text, slug_of_path,
};
use crate::order::{
    Ranked, lemma_mapped_multiset, lemma_text_le_total, lemma_text_le_transitive, ranked, sort,
    text_at_most, text_le,
};
use crate::path::{LocalPath, components, joined, lossy_text, normal_names_of};
use crate::text::{concat, signed_decimal, signed_decimal_text};

verus! {

/// The directory of the issues within the state of a project.
pub const ISSUES_DIR_NAME: &'static str = "issues";

/// A moment, in seconds and nanoseconds since the Unix epoch.
#[derive(Clone, Copy, Debug)]
pub struct Timestamp {
    pub seconds: i64,
    pub nanos: u32,
}

/// The RFC 3339 text of a moment, in UTC.
pub uninterp spec fn rfc3339(seconds: int, nanos: int) -> Seq<char>;

/// The first second of the year 0, since the Unix epoch.
pub const YEAR_ZERO: i64 = -62167219200;

/// The first second of the year 10000, since the Unix epoch.
pub const YEAR_TEN_THOUSAND: i64 = 253402300800;

/// The moments that RFC 3339 can write: the years 0 to 9999.
pub open spec fn rfc3339_writes(seconds: int, nanos: int) -> bool {
    YEAR_ZERO <= seconds < YEAR_TEN_THOUSAND && nanos < 1_000_000_000
}

/// `time::OffsetDateTime::format` with `Rfc3339`, of the moment that
/// `from_unix_timestamp` and `replace_nanosecond` give: it is written exactly
/// where its year has at most four digits and is not negative.
#[verifier::external_body]
fn write_rfc3339(seconds: i64, nanos: u32) -> (text: Option<String>)
    ensures
        text is Some <==> rfc3339_writes(seconds as int, nanos as int),
        text is Some ==> text->0@ == rfc3339(seconds as int, nanos as int),
{
    let moment = time::OffsetDateTime::from_unix_timestamp(seconds).ok()?;
    let moment = moment.replace_nanosecond(nanos).ok()?;
    moment.format(&time::format_description::well_known::Rfc3339).ok()
}

/// A moment as text: in RFC 3339, or as seconds where that cannot write it.
pub open spec fn timestamp_text(timestamp: Timestamp) -> Seq<char> {
    if rfc3339_writes(timestamp.seconds as int, timestamp.nanos as int) {
        rfc3339(timestamp.seconds as int, timestamp.nanos as int)
    } else {
        signed_decimal_text(timestamp.seconds as int)
    }
}

/// A moment as text: in RFC 3339, or as seconds where that cannot write it.
pub fn format_timestamp(timestamp: Timestamp) -> (text: String)
    ensures
        text@ == timestamp_text(timestamp),
{
    timestamp_or_seconds(write_rfc3339(timestamp.seconds, timestamp.nanos), timestamp.seconds)
}

/// The text, or the seconds where there is none.
pub fn timestamp_or_seconds(written: Option<String>, seconds: i64) -> (text: String)
    ensures
        text@ == (match written {
            Some(text) => text@,
            None => signed_decimal_text(seconds as int),
        }),
{
    match written {
        Some(text) => text,
        None => signed_decimal(seconds),
    }
}

/// A path with some names behind it, one after the other.
pub open spec fn joined_all(base: Seq<u8>, names: Seq<Seq<u8>>) -> Seq<u8>
    decreases names.len(),
{
    if names.len() == 0 {
        base
    } else {
        joined(joined_all(base, names.drop_last()), names.last())
    }
}

/// Where the states of all projects are kept.
pub open spec fn projects_dir(state_dir: Seq<u8>) -> Seq<u8> {
    joined(joined(state_dir, encode_utf8("jira_at_home"@)), encode_utf8("projects"@))
}

/// Where the state of a project is kept.
pub open spec fn state_path(state_dir: Seq<u8>, project_root: Seq<u8>) -> Seq<u8> {
    joined_all(projects_dir(state_dir), normal_names_of(components(project_root)))
}

/// The directory for the states of programs: the user's, or the one for
/// temporary files.
pub fn state_base(state_dir: Option<LocalPath>, temp_dir: LocalPath) -> (base: LocalPath)
    ensures
        base == (match state_dir {
            Some(dir) => dir,
            None => temp_dir,
        }),
{
    match state_dir {
        Some(dir) => dir,
        None => temp_dir,
    }
}

/// Where the state of a project is kept: under a directory for each ordinary
/// name in the path of the project.
pub fn external_state_path(state_dir: &LocalPath, project_root: &LocalPath) -> (path: LocalPath)
    ensures
        path@ == state_path(state_dir@, project_root@),
{
    let names = project_root.normal_names();
    let ghost all = normal_names_of(components(project_root@));
    let mut path = state_dir.join("jira_at_home").join("projects");
    let mut at: usize = 0;
    assert(all.take(0) =~= seq![]);
    assert(all.len() == names@.len());
    while at < names.len()
        invariant
            at <= names.len(),
            all.len() == names@.len(),
            names@.map_values(|name: Vec<u8>| name@) == all,
            path@ == joined_all(projects_dir(state_dir@), all.take(at as int)),
        decreases names.len() - at,
    {
        assert(all[at as int] == names@[at as int]@);
        assert(all.take(at as int + 1).drop_last() =~= all.take(at as int));
        path = path.join_bytes(&names[at]);
        at = at + 1;
    }
    assert(all.take(all.len() as int) =~= all);
    path
}

/// Where a project and its issues are.
pub struct ProjectLayout {
    pub requested_path: LocalPath,
    pub project_root: LocalPath,
    pub worktree_root: LocalPath,
    pub state_identity: LocalPath,
    pub issues_root: LocalPath,
    pub state_root: LocalPath,
}

/// Where a project and its issues are, in plain values.
pub struct LayoutView {
    pub requested_path: Seq<u8>,
    pub project_root: Seq<u8>,
    pub worktree_root: Seq<u8>,
    pub state_identity: Seq<u8>,
    pub issues_root: Seq<u8>,
    pub state_root: Seq<u8>,
}

impl View for ProjectLayout {
    type V = LayoutView;

    open spec fn view(&self) -> LayoutView {
        LayoutView {
            requested_path: self.requested_path@,
            project_root: self.project_root@,
            worktree_root: self.worktree_root@,
            state_identity: self.state_identity@,
            issues_root: self.issues_root@,
            state_root: self.state_root@,
        }
    }
}

/// The directory of the issues of one category.
pub open spec fn category_root_of(issues_root: Seq<u8>, category: IssueCategory) -> Seq<u8> {
    joined(issues_root, encode_utf8(category_text(category)))
}

/// The name of the file of an issue.
pub open spec fn issue_file_name(slug: Seq<char>) -> Seq<u8> {
    encode_utf8(slug + ".md"@)
}

/// The file of an issue.
pub open spec fn issue_path_of(issues_root: Seq<u8>, key: KeyView) -> Seq<u8> {
    joined(category_root_of(issues_root, key.category), issue_file_name(key.slug))
}

/// The layout of a project with this anchor: its state is kept by its state
/// identity.
pub open spec fn layout_of(
    requested_path: Seq<u8>,
    anchor: AnchorView,
    state_dir: Seq<u8>,
) -> LayoutView {
    let state_root = state_path(state_dir, anchor.state_identity);
    LayoutView {
        requested_path,
        project_root: anchor.project_root,
        worktree_root: anchor.worktree_root,
        state_identity: anchor.state_identity,
        issues_root: joined(state_root, encode_utf8("issues"@)),
        state_root,
    }
}

/// Where the state of a project with this anchor is kept: by its state
/// identity, which all worktrees of a repository have in common.
pub fn state_root_of(state_dir: &LocalPath, anchor: &ProjectAnchor) -> (root: LocalPath)
    ensures
        root@ == state_path(state_dir@, anchor@.state_identity),
{
    external_state_path(state_dir, &anchor.state_identity)
}

/// The file of an issue under this root.
pub fn issue_file(issues_root: &LocalPath, category: IssueCategory, slug: &str) -> (path: LocalPath)
    ensures
        path@ == issue_path_of(issues_root@, KeyView { category, slug: slug@ }),
{
    let name = concat(slug, ".md");
    issues_root.join(category.as_str()).join(name.as_str())
}

impl ProjectLayout {
    /// The layout of a project with this anchor.
    pub fn bind(requested_path: LocalPath, anchor: ProjectAnchor, state_dir: &LocalPath) -> (layout:
        Self)
        ensures
            layout@ == layout_of(requested_path@, anchor@, state_dir@),
    {
        let state_root = state_root_of(state_dir, &anchor);
        let issues_root = state_root.join(ISSUES_DIR_NAME);
        ProjectLayout {
            requested_path,
            project_root: anchor.project_root,
            worktree_root: anchor.worktree_root,
            state_identity: anchor.state_identity,
            issues_root,
            state_root,
        }
    }

    /// The directories that the state of the project needs.
    pub fn directories(&self) -> (all: Vec<LocalPath>)
        ensures
            all@.map_values(|path: LocalPath| path@) == seq![
                self@.issues_root,
                category_root_of(self@.issues_root, IssueCategory::Feature),
                category_root_of(self@.issues_root, IssueCategory::Bug),
                joined(self@.state_root, encode_utf8("mcp"@)),
            ],
    {
        let mut all: Vec<LocalPath> = Vec::new();
        all.push(self.issues_root.duplicate());
        all.push(self.issue_category_root(IssueCategory::Feature));
        all.push(self.issue_category_root(IssueCategory::Bug));
        all.push(self.state_root.join("mcp"));
        assert(all@.map_values(|path: LocalPath| path@) =~= seq![
            self@.issues_root,
            category_root_of(self@.issues_root, IssueCategory::Feature),
            category_root_of(self@.issues_root, IssueCategory::Bug),
            joined(self@.state_root, encode_utf8("mcp"@)),
        ]);
        all
    }

    /// The directory of the issues of one category.
    pub fn issue_category_root(&self, category: IssueCategory) -> (path: LocalPath)
        ensures
            path@ == category_root_of(self@.issues_root, category),
    {
        self.issues_root.join(category.as_str())
    }

    /// The file of an issue.
    pub fn issue_path(&self, key: &IssueKey) -> (path: LocalPath)
        ensures
            path@ == issue_path_of(self@.issues_root, key@),
    {
        issue_file(&self.issues_root, key.category, key.slug.as_str())
    }

    /// The same layout once more.
    pub fn duplicate(&self) -> (copy: Self)
        ensures
            copy@ == self@,
    {
        ProjectLayout {
            requested_path: self.requested_path.duplicate(),
            project_root: self.project_root.duplicate(),
            worktree_root: self.worktree_root.duplicate(),
            state_identity: self.state_identity.duplicate(),
            issues_root: self.issues_root.duplicate(),
            state_root: self.state_root.duplicate(),
        }
    }
}

/// How many issues a project has.
#[derive(Clone, Copy, Debug)]
pub struct ProjectStatus {
    pub issue_count: usize,
}

/// One issue in a list.
pub struct IssueSummary {
    pub key: IssueKey,
    pub path: LocalPath,
    pub updated_at: Timestamp,
}

/// One issue in a list, in plain values.
pub struct SummaryView {
    pub key: KeyView,
    pub path: Seq<u8>,
    pub updated_at: Timestamp,
}

impl View for IssueSummary {
    type V = SummaryView;

    open spec fn view(&self) -> SummaryView {
        SummaryView { key: self.key@, path: self.path@, updated_at: self.updated_at }
    }
}

/// The views of a list.
pub open spec fn summaries(list: Seq<IssueSummary>) -> Seq<SummaryView> {
    list.map_values(|summary: IssueSummary| summary@)
}

/// One issue.
pub struct IssueRecord {
    pub key: IssueKey,
    pub body: String,
    pub path: LocalPath,
    pub updated_at: Timestamp,
    pub bytes: usize,
}

/// One issue, in plain values.
pub struct RecordView {
    pub key: KeyView,
    pub body: Seq<char>,
    pub path: Seq<u8>,
    pub updated_at: Timestamp,
    pub bytes: nat,
}

impl View for IssueRecord {
    type V = RecordView;

    open spec fn view(&self) -> RecordView {
        RecordView {
            key: self.key@,
            body: self.body@,
            path: self.path@,
            updated_at: self.updated_at,
            bytes: self.bytes as nat,
        }
    }
}

/// What came of writing an issue.
pub struct SaveReceipt {
    pub key: IssueKey,
    pub path: LocalPath,
    pub created: bool,
    pub updated_at: Timestamp,
    pub bytes: usize,
}

/// What came of writing an issue, in plain values.
pub struct SaveView {
    pub key: KeyView,
    pub path: Seq<u8>,
    pub created: bool,
    pub updated_at: Timestamp,
    pub bytes: nat,
}

impl View for SaveReceipt {
    type V = SaveView;

    open spec fn view(&self) -> SaveView {
        SaveView {
            key: self.key@,
            path: self.path@,
            created: self.created,
            updated_at: self.updated_at,
            bytes: self.bytes as nat,
        }
    }
}

/// What came of deleting an issue.
pub struct DeleteReceipt {
    pub key: IssueKey,
    pub path: LocalPath,
    pub deleted_at: Timestamp,
    pub bytes: usize,
}

/// What came of deleting an issue, in plain values.
pub struct DeleteView {
    pub key: KeyView,
    pub path: Seq<u8>,
    pub deleted_at: Timestamp,
    pub bytes: nat,
}

impl View for DeleteReceipt {
    type V = DeleteView;

    open spec fn view(&self) -> DeleteView {
        DeleteView {
            key: self.key@,
            path: self.path@,
            deleted_at: self.deleted_at,
            bytes: self.bytes as nat,
        }
    }
}

/// What the file system says of one entry of a directory.
pub enum EntryProbe {
    /// Why the entry cannot be looked at.
    Failed(String),
    Found {
        path: LocalPath,
        is_file: bool,
        /// When it was last written, or why that is not known.
        modified: Result<Timestamp, String>,
    },
}

/// What the file system says of the file of an issue.
pub enum ReadProbe {
    /// No file is there.
    Missing,
    /// Why it cannot be read.
    Failed(String),
    Text {
        body: String,
        /// When it was last written, or why that is not known.
        modified: Result<Timestamp, String>,
    },
}

/// What the file system says of the file of an issue that is to be deleted.
pub enum DeleteProbe {
    /// No file is there.
    Missing,
    /// Why it cannot be looked at.
    Failed(String),
    /// Its length in bytes.
    Found(u64),
}

/// An issue that is about to be written.
pub struct SavePlan {
    pub key: IssueKey,
    pub path: LocalPath,
    pub body: String,
}

/// An issue that is about to be deleted.
pub struct DeletePlan {
    pub key: IssueKey,
    pub path: LocalPath,
    pub bytes: usize,
}

/// What one entry of the directory of a category means.
pub open spec fn entry_outcome(category: IssueCategory, entry: EntryProbe) -> Result<
    SummaryView,
    StoreErrorView,
> {
    match entry {
        EntryProbe::Failed(detail) => Err(StoreErrorView::Io(detail@)),
        EntryProbe::Found { path, is_file, modified } => if !is_file {
            Err(
                StoreErrorView::MalformedIssueEntry(
                    lossy_text(path@),
                    "issue category directory may contain only `.md` files"@,
                ),
            )
        } else {
            match slug_of_path(path@) {
                Err(error) => Err(error),
                Ok(slug) => match modified {
                    Err(detail) => Err(StoreErrorView::Io(detail@)),
                    Ok(updated_at) => Ok(
                        SummaryView { key: KeyView { category, slug }, path: path@, updated_at },
                    ),
                },
            }
        },
    }
}

/// What the entries of the directory of a category mean: the issues in it, or
/// the first thing that is wrong.
pub open spec fn entries_outcome(category: IssueCategory, entries: Seq<EntryProbe>) -> Result<
    Seq<SummaryView>,
    StoreErrorView,
>
    decreases entries.len(),
{
    if entries.len() == 0 {
        Ok(seq![])
    } else {
        match entries_outcome(category, entries.drop_last()) {
            Err(error) => Err(error),
            Ok(found) => match entry_outcome(category, entries.last()) {
                Err(error) => Err(error),
                Ok(summary) => Ok(found.push(summary)),
            },
        }
    }
}

/// What a directory of a category means, where it can be read.
pub open spec fn listing_outcome(
    category: IssueCategory,
    listing: Result<Vec<EntryProbe>, String>,
) -> Result<Seq<SummaryView>, StoreErrorView> {
    match listing {
        Err(detail) => Err(StoreErrorView::Io(detail@)),
        Ok(entries) => entries_outcome(category, entries@),
    }
}

/// What the two directories mean: all issues, or the first thing that is
/// wrong.
pub open spec fn list_outcome(
    features: Result<Vec<EntryProbe>, String>,
    bugs: Result<Vec<EntryProbe>, String>,
) -> Result<Seq<SummaryView>, StoreErrorView> {
    match listing_outcome(IssueCategory::Feature, features) {
        Err(error) => Err(error),
        Ok(found) => match listing_outcome(IssueCategory::Bug, bugs) {
            Err(error) => Err(error),
            Ok(more) => Ok(found + more),
        },
    }
}

/// What comes of reading an issue.
pub open spec fn read_outcome(issues_root: Seq<u8>, key: KeyView, probe: ReadProbe) -> Result<
    RecordView,
    StoreErrorView,
> {
    match probe {
        ReadProbe::Missing => Err(StoreErrorView::IssueNotFound(key_text(key))),
        ReadProbe::Failed(detail) => Err(StoreErrorView::Io(detail@)),
        ReadProbe::Text { body, modified } => match modified {
            Err(detail) => Err(StoreErrorView::Io(detail@)),
            Ok(updated_at) => Ok(
                RecordView {
                    key,
                    body: body@,
                    path: issue_path_of(issues_root, key),
                    updated_at,
                    bytes: encode_utf8(body@).len(),
                },
            ),
        },
    }
}

/// Why an issue cannot be deleted, if it cannot.
pub open spec fn delete_refusal(key: KeyView, probe: DeleteProbe) -> Option<StoreErrorView> {
    match probe {
        DeleteProbe::Missing => Some(StoreErrorView::IssueNotFound(key_text(key))),
        DeleteProbe::Failed(detail) => Some(StoreErrorView::Io(detail@)),
        DeleteProbe::Found(length) => if length > usize::MAX {
            Some(StoreErrorView::IssueTooLarge(key_text(key), length))
        } else {
            None
        },
    }
}

/// The order of issues: features first, then by slug.
pub open spec fn key_le(left: KeyView, right: KeyView) -> bool {
    if left.category != right.category {
        left.category is Feature
    } else {
        text_le(left.slug, right.slug)
    }
}

impl Ranked for IssueSummary {
    open spec fn at_most(&self, other: &Self) -> bool {
        key_le(self@.key, other@.key)
    }

    proof fn at_most_total(left: &Self, right: &Self) {
        lemma_text_le_total(left@.key.slug, right@.key.slug);
    }

    proof fn at_most_transitive(first: &Self, second: &Self, third: &Self) {
        if first@.key.category == second@.key.category && second@.key.category
            == third@.key.category {
            lemma_text_le_transitive(first@.key.slug, second@.key.slug, third@.key.slug);
        }
    }

    fn is_at_most(&self, other: &Self) -> (yes: bool) {
        match (self.key.category, other.key.category) {
            (IssueCategory::Feature, IssueCategory::Bug) => true,
            (IssueCategory::Bug, IssueCategory::Feature) => false,
            _ => text_at_most(self.key.slug.as_str(), other.key.slug.as_str()),
        }
    }
}

/// The issues of one project.
pub struct IssueStore {
    layout: ProjectLayout,
}

impl View for IssueStore {
    type V = LayoutView;

    closed spec fn view(&self) -> LayoutView {
        self.layout@
    }
}

impl IssueStore {
    /// The issues of the project with this layout.
    pub fn bind(layout: ProjectLayout) -> (store: Self)
        ensures
            store@ == layout@,
    {
        IssueStore { layout }
    }

    /// Where the project and its issues are.
    pub fn layout(&self) -> (layout: &ProjectLayout)
        ensures
            layout@ == self@,
    {
        &self.layout
    }

    /// How many issues the project has.
    pub fn status(
        &self,
        features: Result<Vec<EntryProbe>, String>,
        bugs: Result<Vec<EntryProbe>, String>,
    ) -> (status: Result<ProjectStatus, StoreError>)
        ensures
            match status {
                Ok(status) => list_outcome(features, bugs) matches Ok(found) && status.issue_count
                    == found.len(),
                Err(error) => list_outcome(features, bugs) == Err::<
                    Seq<SummaryView>,
                    StoreErrorView,
                >(error@),
            },
    {
        match self.list(features, bugs) {
            Ok(issues) => {
                proof {
                    summaries(issues@).to_multiset_ensures();
                    list_outcome(features, bugs)->Ok_0.to_multiset_ensures();
                }
                Ok(ProjectStatus { issue_count: issues.len() })
            },
            Err(error) => Err(error),
        }
    }

    /// Prepares the writing of an issue.
    pub fn save(&self, key: IssueKey, body: IssueBody) -> (plan: SavePlan)
        ensures
            plan.key@ == key@,
            plan.path@ == issue_path_of(self@.issues_root, key@),
            plan.body@ == body@,
    {
        let path = self.layout.issue_path(&key);
        SavePlan { key, path, body: body.into_inner() }
    }

    /// The issues in their order, from the entries of the two directories.
    pub fn list(
        &self,
        features: Result<Vec<EntryProbe>, String>,
        bugs: Result<Vec<EntryProbe>, String>,
    ) -> (issues: Result<Vec<IssueSummary>, StoreError>)
        ensures
            match issues {
                Ok(issues) => list_outcome(features, bugs) matches Ok(found) && ranked(issues@)
                    && summaries(issues@).to_multiset() == found.to_multiset(),
                Err(error) => list_outcome(features, bugs) == Err::<
                    Seq<SummaryView>,
                    StoreErrorView,
                >(error@),
            },
    {
        let mut issues: Vec<IssueSummary> = Vec::new();
        match collect_issues(IssueCategory::Feature, features) {
            Err(error) => {
                return Err(error);
            },
            Ok(mut found) => issues.append(&mut found),
        }
        let ghost first = summaries(issues@);
        match collect_issues(IssueCategory::Bug, bugs) {
            Err(error) => {
                return Err(error);
            },
            Ok(mut found) => {
                let ghost second = summaries(found@);
                issues.append(&mut found);
                assert(summaries(issues@) =~= first + second);
            },
        }
        assert(list_outcome(features, bugs) == Ok::<Seq<SummaryView>, StoreErrorView>(
            summaries(issues@),
        ));
        let sorted = sort(issues);
        proof {
            lemma_mapped_multiset(
                sorted@,
                issues@,
                |summary: IssueSummary| summary@,
            );
        }
        Ok(sorted)
    }

    /// What comes of reading an issue.
    pub fn read(&self, key: IssueKey, probe: ReadProbe) -> (record: Result<IssueRecord, StoreError>)
        ensures
            match record {
                Ok(record) => read_outcome(self@.issues_root, key@, probe) == Ok::<
                    RecordView,
                    StoreErrorView,
                >(record@),
                Err(error) => read_outcome(self@.issues_root, key@, probe) == Err::<
                    RecordView,
                    StoreErrorView,
                >(error@),
            },
    {
        match probe {
            ReadProbe::Missing => Err(StoreError::IssueNotFound(key.text())),
            ReadProbe::Failed(detail) => Err(StoreError::Io(detail)),
            ReadProbe::Text { body, modified } => match modified {
                Err(detail) => Err(StoreError::Io(detail)),
                Ok(updated_at) => {
                    let path = self.layout.issue_path(&key);
                    let bytes = body.as_str().as_bytes().len();
                    Ok(IssueRecord { key, body, path, updated_at, bytes })
                },
            },
        }
    }

    /// Prepares the deletion of an issue.
    pub fn delete(&self, key: IssueKey, probe: DeleteProbe) -> (plan: Result<
        DeletePlan,
        StoreError,
    >)
        ensures
            match plan {
                Ok(plan) => delete_refusal(key@, probe) is None && plan.key@ == key@ && plan.path@
                    == issue_path_of(self@.issues_root, key@) && probe == DeleteProbe::Found(
                    plan.bytes as u64,
                ),
                Err(error) => delete_refusal(key@, probe) == Some(error@),
            },
    {
        match probe {
            DeleteProbe::Missing => Err(StoreError::IssueNotFound(key.text())),
            DeleteProbe::Failed(detail) => Err(StoreError::Io(detail)),
            DeleteProbe::Found(length) => if length > usize::MAX as u64 {
                Err(StoreError::IssueTooLarge(key.text(), length))
            } else {
                let path = self.layout.issue_path(&key);
                Ok(DeletePlan { key, path, bytes: length as usize })
            },
        }
    }
}

impl SavePlan {
    /// The bytes to write.
    pub fn contents(&self) -> (bytes: &[u8])
        ensures
            bytes@ == encode_utf8(self.body@),
    {
        self.body.as_str().as_bytes()
    }

    /// What came of writing the issue: whether its file existed before, and
    /// when it was written, or why it was not.
    pub fn finish(self, existed: bool, written: Result<Timestamp, String>) -> (receipt: Result<
        SaveReceipt,
        StoreError,
    >)
        ensures
            match written {
                Ok(updated_at) => receipt matches Ok(receipt) && receipt@ == (SaveView {
                    key: self.key@,
                    path: self.path@,
                    created: !existed,
                    updated_at,
                    bytes: encode_utf8(self.body@).len(),
                }),
                Err(detail) => receipt matches Err(error) && error@ == StoreErrorView::Io(detail@),
            },
    {
        match written {
            Err(detail) => Err(StoreError::Io(detail)),
            Ok(updated_at) => {
                let bytes = self.body.as_str().as_bytes().len();
                Ok(
                    SaveReceipt {
                        key: self.key,
                        path: self.path,
                        created: !existed,
                        updated_at,
                        bytes,
                    },
                )
            },
        }
    }
}

impl DeletePlan {
    /// What came of deleting the issue: when it was deleted, or why it was
    /// not.
    pub fn finish(self, removed: Result<Timestamp, String>) -> (receipt: Result<
        DeleteReceipt,
        StoreError,
    >)
        ensures
            match removed {
                Ok(deleted_at) => receipt matches Ok(receipt) && receipt@ == (DeleteView {
                    key: self.key@,
                    path: self.path@,
                    deleted_at,
                    bytes: self.bytes as nat,
                }),
                Err(detail) => receipt matches Err(error) && error@ == StoreErrorView::Io(detail@),
            },
    {
        match removed {
            Err(detail) => Err(StoreError::Io(detail)),
            Ok(deleted_at) => Ok(
                DeleteReceipt { key: self.key, path: self.path, deleted_at, bytes: self.bytes },
            ),
        }
    }
}

/// The issue that one entry of the directory of a category stands for.
pub fn issue_entry(category: IssueCategory, entry: EntryProbe) -> (summary: Result<
    IssueSummary,
    StoreError,
>)
    ensures
        match summary {
            Ok(summary) => entry_outcome(category, entry) == Ok::<SummaryView, StoreErrorView>(
                summary@,
            ),
            Err(error) => entry_outcome(category, entry) == Err::<SummaryView, StoreErrorView>(
                error@,
            ),
        },
{
    match entry {
        EntryProbe::Failed(detail) => Err(StoreError::Io(detail)),
        EntryProbe::Found { path, is_file, modified } => {
            if !is_file {
                return Err(
                    StoreError::MalformedIssueEntry(
                        path.display(),
                        "issue category directory may contain only `.md` files".to_owned(),
                    ),
                );
            }
            match IssueKey::from_issue_path(&path, category) {
                Err(error) => Err(error),
                Ok(key) => match modified {
                    Err(detail) => Err(StoreError::Io(detail)),
                    Ok(updated_at) => Ok(IssueSummary { key, path, updated_at }),
                },
            }
        },
    }
}

fn collect_issues(category: IssueCategory, listing: Result<Vec<EntryProbe>, String>) -> (issues: Result<
    Vec<IssueSummary>,
    StoreError,
>)
    ensures
        match issues {
            Ok(issues) => listing_outcome(category, listing) == Ok::<
                Seq<SummaryView>,
                StoreErrorView,
            >(summaries(issues@)),
            Err(error) => listing_outcome(category, listing) == Err::<
                Seq<SummaryView>,
                StoreErrorView,
            >(error@),
        },
{
    let mut rest = match listing {
        Err(detail) => {
            return Err(StoreError::Io(detail));
        },
        Ok(entries) => entries,
    };
    let ghost entries = rest@;
    let mut issues: Vec<IssueSummary> = Vec::new();
    let ghost mut seen: int = 0;
    assert(entries.take(0) =~= seq![]);
    assert(summaries(issues@) =~= seq![]);
    assert(entries.skip(0) =~= entries);
    while rest.len() > 0
        invariant
            0 <= seen <= entries.len(),
            rest@ == entries.skip(seen),
            listing_outcome(category, listing) == entries_outcome(category, entries),
            entries_outcome(category, entries.take(seen)) == Ok::<
                Seq<SummaryView>,
                StoreErrorView,
            >(summaries(issues@)),
        decreases rest.len(),
    {
        let entry = rest.remove(0);
        proof {
            assert(entry == entries[seen]);
            assert(entries.take(seen + 1).drop_last() =~= entries.take(seen));
            assert(entries.take(seen + 1).last() == entry);
            seen = seen + 1;
            assert(rest@ =~= entries.skip(seen));
        }
        match issue_entry(category, entry) {
            Err(error) => {
                proof {
                    lemma_first_error(category, entries, seen);
                }
                return Err(error);
            },
            Ok(summary) => {
                let ghost before = summaries(issues@);
                issues.push(summary);
                assert(summaries(issues@) =~= before.push(summary@));
            },
        }
    }
    assert(entries.take(seen) =~= entries);
    Ok(issues)
}

proof fn lemma_first_error(category: IssueCategory, entries: Seq<EntryProbe>, at: int)
    requires
        0 <= at <= entries.len(),
        entries_outcome(category, entries.take(at)) is Err,
    ensures
        entries_outcome(category, entries) == entries_outcome(category, entries.take(at)),
    decreases entries.len() - at,
{
    if at == entries.len() {
        assert(entries.take(at) =~= entries);
    } else {
        assert(entries.take(at + 1).drop_last() =~= entries.take(at));
        lemma_first_error(category, entries, at + 1);
    }
}

} // verus!
