//! Moving the issues that a linked worktree kept for itself to the state that
//! all worktrees of its repository share.

use vstd::prelude::*;

use vstd::utf8::{decode_utf8_encode_utf8, encode_utf8};

use crate::anchor::{AnchorView, ProjectAnchor};
use crate::issue::{
    IssueCategory, IssueKey, KeyView, StoreError, StoreErrorView, category_text, slug_of_path,
    valid_slug,
};
use crate::notebook::{
    Disk, contents, kept, law_issue_paths_differ, law_state_place, lemma_category_name,
    lemma_file_name, lemma_issues_name,
};
use crate::path::{
    ComponentView, DOT, LocalPath, component, components, extension_of, file_name_of, joined,
    last_dot, law_join_adds_a_component, law_root_paths, lossy_text, named_components, plain_name,
    plain_names, root_path, same_bytes, spans, stem_of,
};
use crate::store::{
    ISSUES_DIR_NAME, ProjectLayout, category_root_of, external_state_path, issue_file,
    issue_file_name, issue_path_of, state_path, state_root_of,
};

verus! {

/// What the file system says of an entry of a directory that is left behind.
pub enum LegacyProbe {
    /// Why the entry cannot be looked at.
    Failed(String),
    Found { path: LocalPath, is_file: bool },
}

/// What the file system says of the place that an issue moves to.
pub enum TargetProbe {
    /// Nothing is there.
    Absent,
    /// Something is there; the bytes of the issue and of what is there, or why
    /// they cannot be read.
    Present { source: Result<Vec<u8>, String>, target: Result<Vec<u8>, String> },
}

/// An issue that moves.
pub struct IssueMove {
    pub source: LocalPath,
    pub target: LocalPath,
}

/// The issues of one category, before and after they move.
pub struct CategoryMove {
    pub category: IssueCategory,
    pub source: LocalPath,
    pub target: LocalPath,
}

/// What becomes of an issue that moves.
pub enum MigrationStep {
    /// The file takes its new name.
    Rename,
    /// The same issue is already there; the file is removed.
    RemoveSource,
    Failed(StoreError),
}

/// Where a worktree kept issues for itself, if that is another place than the
/// shared one.
pub open spec fn legacy_root_of(
    anchor: AnchorView,
    state_dir: Seq<u8>,
    shared_state_root: Seq<u8>,
) -> Option<Seq<u8>> {
    let legacy = state_path(state_dir, anchor.worktree_root);
    if components(anchor.worktree_root) == components(anchor.state_identity) || components(legacy)
        == components(shared_state_root) {
        None
    } else {
        Some(legacy)
    }
}

/// The directory of the issues of a category under this state root.
pub open spec fn category_dir(state_root: Seq<u8>, category: IssueCategory) -> Seq<u8> {
    category_root_of(joined(state_root, encode_utf8("issues"@)), category)
}

/// What an entry that is left behind means: an issue that moves, nothing, or
/// what is wrong with it.
pub open spec fn legacy_outcome(
    category: IssueCategory,
    shared_state_root: Seq<u8>,
    entry: LegacyProbe,
) -> Result<Option<(Seq<u8>, Seq<u8>)>, StoreErrorView> {
    match entry {
        LegacyProbe::Failed(detail) => Err(StoreErrorView::Io(detail@)),
        LegacyProbe::Found { path, is_file } => if !is_file {
            Ok(None)
        } else {
            match slug_of_path(path@) {
                Err(error) => Err(error),
                Ok(slug) => Ok(
                    Some(
                        (
                            path@,
                            issue_path_of(
                                joined(shared_state_root, encode_utf8("issues"@)),
                                KeyView { category, slug },
                            ),
                        ),
                    ),
                ),
            }
        },
    }
}

/// Where a worktree kept issues for itself, if that is another place than the
/// shared one.
pub fn migrate_legacy_worktree_state(
    anchor: &ProjectAnchor,
    state_dir: &LocalPath,
    shared_state_root: &LocalPath,
) -> (legacy: Option<LocalPath>)
    ensures
        match legacy {
            Some(legacy) => legacy_root_of(anchor@, state_dir@, shared_state_root@) == Some(
                legacy@,
            ),
            None => legacy_root_of(anchor@, state_dir@, shared_state_root@) is None,
        },
{
    if anchor.worktree_root.same_path(&anchor.state_identity) {
        return None;
    }
    let legacy = external_state_path(state_dir, &anchor.worktree_root);
    if legacy.same_path(shared_state_root) {
        return None;
    }
    Some(legacy)
}

/// The directories between which the issues of a category move.
pub fn category_move(
    category: IssueCategory,
    legacy_root: &LocalPath,
    shared_state_root: &LocalPath,
) -> (directories: CategoryMove)
    ensures
        directories.category == category,
        directories.source@ == category_dir(legacy_root@, category),
        directories.target@ == category_dir(shared_state_root@, category),
{
    CategoryMove {
        category,
        source: legacy_root.join(ISSUES_DIR_NAME).join(category.as_str()),
        target: shared_state_root.join(ISSUES_DIR_NAME).join(category.as_str()),
    }
}

/// What an entry that is left behind means.
pub fn legacy_entry(
    category: IssueCategory,
    shared_state_root: &LocalPath,
    entry: LegacyProbe,
) -> (found: Result<Option<IssueMove>, StoreError>)
    ensures
        match found {
            Ok(Some(issue)) => legacy_outcome(category, shared_state_root@, entry) == Ok::<
                Option<(Seq<u8>, Seq<u8>)>,
                StoreErrorView,
            >(Some((issue.source@, issue.target@))),
            Ok(None) => legacy_outcome(category, shared_state_root@, entry) == Ok::<
                Option<(Seq<u8>, Seq<u8>)>,
                StoreErrorView,
            >(None),
            Err(error) => legacy_outcome(category, shared_state_root@, entry) == Err::<
                Option<(Seq<u8>, Seq<u8>)>,
                StoreErrorView,
            >(error@),
        },
{
    match entry {
        LegacyProbe::Failed(detail) => Err(StoreError::Io(detail)),
        LegacyProbe::Found { path, is_file } => {
            if !is_file {
                return Ok(None);
            }
            match IssueKey::from_issue_path(&path, category) {
                Err(error) => Err(error),
                Ok(key) => {
                    let issues_root = shared_state_root.join(ISSUES_DIR_NAME);
                    let target = issue_file(&issues_root, category, key.slug.as_str());
                    Ok(Some(IssueMove { source: path, target }))
                },
            }
        },
    }
}

/// What becomes of an issue that moves, in plain values.
pub enum MigrationView {
    Rename,
    RemoveSource,
    Failed(StoreErrorView),
}

impl View for MigrationStep {
    type V = MigrationView;

    open spec fn view(&self) -> MigrationView {
        match *self {
            MigrationStep::Rename => MigrationView::Rename,
            MigrationStep::RemoveSource => MigrationView::RemoveSource,
            MigrationStep::Failed(error) => MigrationView::Failed(error@),
        }
    }
}

/// What becomes of an issue that moves: it never takes the place of another
/// one.
pub open spec fn migration(source: Seq<u8>, target: Seq<u8>, probe: TargetProbe) -> MigrationView {
    match probe {
        TargetProbe::Absent => MigrationView::Rename,
        TargetProbe::Present { source: Err(detail), .. } => MigrationView::Failed(
            StoreErrorView::Io(detail@),
        ),
        TargetProbe::Present { target: Err(detail), .. } => MigrationView::Failed(
            StoreErrorView::Io(detail@),
        ),
        TargetProbe::Present { source: Ok(old), target: Ok(new) } => if old@ == new@ {
            MigrationView::RemoveSource
        } else {
            MigrationView::Failed(
                StoreErrorView::LegacyMigrationConflict {
                    legacy_source: lossy_text(source),
                    target: lossy_text(target),
                },
            )
        },
    }
}

/// What becomes of an issue that moves.
pub fn migrate_legacy_issue(issue: &IssueMove, probe: TargetProbe) -> (step: MigrationStep)
    ensures
        step@ == migration(issue.source@, issue.target@, probe),
{
    match probe {
        TargetProbe::Absent => MigrationStep::Rename,
        TargetProbe::Present { source, target } => match source {
            Err(detail) => MigrationStep::Failed(StoreError::Io(detail)),
            Ok(old) => match target {
                Err(detail) => MigrationStep::Failed(StoreError::Io(detail)),
                Ok(new) => if same_bytes(&old, &new) {
                    MigrationStep::RemoveSource
                } else {
                    MigrationStep::Failed(
                        StoreError::LegacyMigrationConflict {
                            legacy_source: issue.source.display(),
                            target: issue.target.display(),
                        },
                    )
                },
            },
        },
    }
}

/// The probe says what is in the two files.
pub open spec fn shows_target(
    disk: Disk,
    source: Seq<ComponentView>,
    target: Seq<ComponentView>,
    probe: TargetProbe,
) -> bool {
    match probe {
        TargetProbe::Absent => !disk.dom().contains(target),
        TargetProbe::Present { source: old, target: new } => disk.dom().contains(target) && (
        old matches Ok(bytes) ==> bytes@ == disk[source]) && (new matches Ok(bytes) ==> bytes@
            == disk[target]),
    }
}

/// The files after a step of the migration.
pub open spec fn migrated(
    disk: Disk,
    source: Seq<ComponentView>,
    target: Seq<ComponentView>,
    step: MigrationView,
) -> Disk {
    match step {
        MigrationView::Rename => disk.remove(source).insert(target, disk[source]),
        MigrationView::RemoveSource => disk.remove(source),
        MigrationView::Failed(_) => disk,
    }
}

/// Migration loses no issue: the body of an issue that moves is found in its
/// new place, no other file changes, and where the new place holds another
/// body nothing changes at all.
pub proof fn law_migration_loses_nothing(
    disk: Disk,
    source: Seq<u8>,
    target: Seq<u8>,
    probe: TargetProbe,
)
    requires
        disk.dom().contains(components(source)),
        components(source) != components(target),
        shows_target(disk, components(source), components(target), probe),
    ensures
        ({
            let step = migration(source, target, probe);
            let after = migrated(disk, components(source), components(target), step);
            match step {
                MigrationView::Failed(_) => after == disk,
                _ => after.dom().contains(components(target)) && after[components(target)]
                    == disk[components(source)] && (disk.dom().contains(components(target)) ==> disk[components(target)]
                    == disk[components(source)]) && forall|other: Seq<ComponentView>|
                    other != components(source) && other != components(target) ==> (
                    #[trigger] after.dom().contains(other) == disk.dom().contains(other)
                        && after[other] == disk[other]),
            }
        }),
{
}

/// A migration up to some entry: the files as they then are, and whether it
/// stopped before that entry because of something that is wrong.
pub struct MigrationRun {
    pub disk: Disk,
    pub stopped: bool,
}

/// What the migration of one entry does to the files; it stops at an entry
/// that is no issue and where the new place holds another body.
pub open spec fn entry_migrated(
    disk: Disk,
    shared_state_root: Seq<u8>,
    entry: (IssueCategory, LegacyProbe),
    probe: TargetProbe,
) -> MigrationRun {
    match legacy_outcome(entry.0, shared_state_root, entry.1) {
        Err(_) => MigrationRun { disk, stopped: true },
        Ok(None) => MigrationRun { disk, stopped: false },
        Ok(Some((source, target))) => {
            let step = migration(source, target, probe);
            MigrationRun {
                disk: migrated(disk, components(source), components(target), step),
                stopped: step is Failed,
            }
        },
    }
}

/// The migration of all entries, one after the other.
pub open spec fn migration_run(
    disk: Disk,
    shared_state_root: Seq<u8>,
    entries: Seq<(IssueCategory, LegacyProbe)>,
    probes: Seq<TargetProbe>,
) -> MigrationRun
    decreases entries.len(),
{
    if entries.len() == 0 {
        MigrationRun { disk, stopped: false }
    } else {
        let before = migration_run(
            disk,
            shared_state_root,
            entries.drop_last(),
            probes.drop_last(),
        );
        if before.stopped {
            before
        } else {
            entry_migrated(before.disk, shared_state_root, entries.last(), probes.last())
        }
    }
}

/// Each probe says what is in the two files when the turn of its entry comes.
pub open spec fn shows_targets(
    disk: Disk,
    shared_state_root: Seq<u8>,
    entries: Seq<(IssueCategory, LegacyProbe)>,
    probes: Seq<TargetProbe>,
) -> bool
    decreases entries.len(),
{
    entries.len() == 0 || {
        let before = migration_run(
            disk,
            shared_state_root,
            entries.drop_last(),
            probes.drop_last(),
        );
        let entry = entries.last();
        &&& shows_targets(disk, shared_state_root, entries.drop_last(), probes.drop_last())
        &&& !before.stopped ==> (legacy_outcome(entry.0, shared_state_root, entry.1) matches Ok(
            Some((source, target)),
        ) ==> shows_target(before.disk, components(source), components(target), probes.last()))
    }
}

/// The entry is the file with this name in the directory of its category.
pub open spec fn names_file(
    legacy_root: Seq<u8>,
    entry: (IssueCategory, LegacyProbe),
    name: Seq<u8>,
) -> bool {
    &&& plain_name(name)
    &&& entry.1 matches LegacyProbe::Found { path, is_file } && is_file && path@ == joined(
        category_dir(legacy_root, entry.0),
        name,
    )
}

/// The entry is a file.
pub open spec fn file_entry(entry: (IssueCategory, LegacyProbe)) -> bool {
    entry.1 matches LegacyProbe::Found { is_file, .. } && is_file
}

/// The path of an entry.
pub open spec fn legacy_path(entry: (IssueCategory, LegacyProbe)) -> Seq<u8> {
    match entry.1 {
        LegacyProbe::Found { path, .. } => path@,
        LegacyProbe::Failed(_) => seq![],
    }
}

/// The entries that are files are files of the directories that the worktree
/// kept its issues in, and each file is one entry.
pub open spec fn are_legacy_files(
    disk: Disk,
    legacy_root: Seq<u8>,
    entries: Seq<(IssueCategory, LegacyProbe)>,
) -> bool {
    &&& forall|i: int|
        0 <= i < entries.len() && file_entry(#[trigger] entries[i]) ==> disk.dom().contains(
            components(legacy_path(entries[i])),
        ) && exists|name: Seq<u8>| names_file(legacy_root, entries[i], name)
    &&& forall|i: int, j: int|
        #![trigger entries[i], entries[j]]
        0 <= i < j < entries.len() && file_entry(entries[i]) && file_entry(entries[j])
            ==> legacy_path(entries[i]) != legacy_path(entries[j])
}

/// A file of the directory of a category.
pub open spec fn legacy_file(
    legacy_root: Seq<u8>,
    category: IssueCategory,
    name: Seq<u8>,
) -> Seq<ComponentView> {
    components(joined(category_dir(legacy_root, category), name))
}

/// The file with this name is among the entries of its category.
pub open spec fn among_legacy(
    legacy_root: Seq<u8>,
    category: IssueCategory,
    name: Seq<u8>,
    entries: Seq<(IssueCategory, LegacyProbe)>,
) -> bool {
    exists|i: int|
        0 <= i < entries.len() && (#[trigger] entries[i]).0 == category && names_file(
            legacy_root,
            entries[i],
            name,
        )
}

/// The entries show the directories that the worktree kept its issues in: all
/// files there are among them, unless some entry could not be looked at.
pub open spec fn shows_legacy(
    disk: Disk,
    legacy_root: Seq<u8>,
    entries: Seq<(IssueCategory, LegacyProbe)>,
) -> bool {
    &&& are_legacy_files(disk, legacy_root, entries)
    &&& (exists|i: int| 0 <= i < entries.len() && (#[trigger] entries[i]).1 is Failed) || (forall|
        category: IssueCategory,
        name: Seq<u8>,
    |
        plain_name(name) && disk.dom().contains(#[trigger] legacy_file(legacy_root, category, name))
            ==> among_legacy(legacy_root, category, name, entries))
}

/// The directory of the issues under this state root.
pub open spec fn issues_dir(state_root: Seq<u8>) -> Seq<u8> {
    joined(state_root, encode_utf8("issues"@))
}

/// The path is the file of some issue under this state root.
pub open spec fn is_issue_file(state_root: Seq<u8>, path: Seq<ComponentView>) -> bool {
    exists|key: KeyView|
        valid_slug(key.slug) && path == #[trigger] components(
            issue_path_of(issues_dir(state_root), key),
        )
}

/// An issue of the worktree that moved: it is kept in the shared state, with
/// the body that it had.
pub open spec fn has_moved(
    before: Disk,
    after: Disk,
    legacy_root: Seq<u8>,
    shared_state_root: Seq<u8>,
    key: KeyView,
) -> bool {
    &&& !kept(after, issues_dir(legacy_root), key)
    &&& kept(after, issues_dir(shared_state_root), key)
    &&& contents(after, issues_dir(shared_state_root), key) == contents(
        before,
        issues_dir(legacy_root),
        key,
    )
}

/// An issue of the worktree that did not move: it is where it was, with the
/// body that it had.
pub open spec fn has_stayed(
    before: Disk,
    after: Disk,
    legacy_root: Seq<u8>,
    key: KeyView,
) -> bool {
    &&& kept(after, issues_dir(legacy_root), key)
    &&& contents(after, issues_dir(legacy_root), key) == contents(
        before,
        issues_dir(legacy_root),
        key,
    )
}

/// Whatever else there is stays: each file that is no issue of the worktree,
/// those of the shared state among them, is there with what it held, and
/// nothing new is there but the issues that moved.
pub open spec fn others_stay(
    before: Disk,
    after: Disk,
    legacy_root: Seq<u8>,
    shared_state_root: Seq<u8>,
) -> bool {
    &&& forall|path: Seq<ComponentView>| #[trigger]
        before.dom().contains(path) && !is_issue_file(legacy_root, path) ==> after.dom().contains(
            path,
        ) && after[path] == before[path]
    &&& forall|path: Seq<ComponentView>| #[trigger]
        after.dom().contains(path) ==> before.dom().contains(path) || exists|key: KeyView|
            valid_slug(key.slug) && kept(before, issues_dir(legacy_root), key) && has_moved(
                before,
                after,
                legacy_root,
                shared_state_root,
                key,
            ) && path == #[trigger] components(issue_path_of(issues_dir(shared_state_root), key))
}

/// Something is wrong with an entry: it cannot be looked at, it is a file that
/// is no issue, a body cannot be read, or the shared state holds the issue
/// with another body.
pub open spec fn stops_at(
    disk: Disk,
    shared_state_root: Seq<u8>,
    entry: (IssueCategory, LegacyProbe),
    probe: TargetProbe,
) -> bool {
    match legacy_outcome(entry.0, shared_state_root, entry.1) {
        Err(_) => true,
        Ok(None) => false,
        Ok(Some((source, target))) => {
            ||| probe matches TargetProbe::Present { source: Err(_), .. }
            ||| probe matches TargetProbe::Present { target: Err(_), .. }
            ||| disk.dom().contains(components(target)) && disk[components(target)]
                != disk[components(source)]
        },
    }
}

/// Some entry is the file of this issue.
spec fn lists_issue(
    legacy_root: Seq<u8>,
    entries: Seq<(IssueCategory, LegacyProbe)>,
    key: KeyView,
) -> bool {
    exists|i: int|
        0 <= i < entries.len() && (#[trigger] entries[i]).0 == key.category && file_entry(
            entries[i],
        ) && legacy_path(entries[i]) == issue_path_of(issues_dir(legacy_root), key)
}

proof fn lemma_last_dot(name: Seq<u8>)
    ensures
        -1 <= last_dot(name) < name.len(),
        last_dot(name) >= 0 ==> name[last_dot(name)] == DOT,
    decreases name.len(),
{
    if name.len() > 0 {
        lemma_last_dot(name.drop_last());
    }
}

proof fn lemma_name_parts(name: Seq<u8>)
    requires
        extension_of(name) is Some,
    ensures
        name == stem_of(name) + seq![DOT] + extension_of(name)->0,
{
    lemma_last_dot(name);
    assert(name =~= stem_of(name) + seq![DOT] + extension_of(name)->0);
}

proof fn lemma_place(state_root: Seq<u8>, category: IssueCategory, name: Seq<u8>)
    requires
        plain_name(name),
    ensures
        legacy_file(state_root, category, name) == components(state_root).push(
            ComponentView::Normal(encode_utf8("issues"@)),
        ).push(ComponentView::Normal(encode_utf8(category_text(category)))).push(
            ComponentView::Normal(name),
        ),
{
    lemma_issues_name();
    lemma_category_name(category);
    law_join_adds_a_component(state_root, encode_utf8("issues"@));
    law_join_adds_a_component(issues_dir(state_root), encode_utf8(category_text(category)));
    law_join_adds_a_component(category_dir(state_root, category), name);
}

/// Files of the two states are never one file.
proof fn lemma_places_differ(
    legacy_root: Seq<u8>,
    shared_state_root: Seq<u8>,
    category: IssueCategory,
    name: Seq<u8>,
    key: KeyView,
)
    requires
        components(legacy_root) != components(shared_state_root),
        plain_name(name),
        valid_slug(key.slug),
    ensures
        legacy_file(legacy_root, category, name) != components(
            issue_path_of(issues_dir(shared_state_root), key),
        ),
{
    lemma_file_name(key.slug);
    lemma_place(legacy_root, category, name);
    lemma_place(shared_state_root, key.category, issue_file_name(key.slug));
    let left = legacy_file(legacy_root, category, name);
    let right = legacy_file(shared_state_root, key.category, issue_file_name(key.slug));
    if left == right {
        assert(left.take(left.len() - 3) =~= components(legacy_root));
        assert(right.take(right.len() - 3) =~= components(shared_state_root));
    }
}

/// A file that has the path of an issue has its name.
proof fn lemma_named_by_slug(legacy_root: Seq<u8>, category: IssueCategory, name: Seq<u8>)
    requires
        plain_name(name),
    ensures
        slug_of_path(joined(category_dir(legacy_root, category), name)) matches Ok(slug)
            ==> valid_slug(slug) && name == issue_file_name(slug),
{
    let path = joined(category_dir(legacy_root, category), name);
    if let Ok(slug) = slug_of_path(path) {
        lemma_place(legacy_root, category, name);
        assert(components(path).last() == ComponentView::Normal(name));
        let last = spans(path).last();
        assert(component(path.subrange(last.start, last.end)) == ComponentView::Normal(name));
        assert(file_name_of(path) == Some(name));
        lemma_name_parts(name);
        decode_utf8_encode_utf8(stem_of(name));
        lemma_file_name(slug);
        lemma_name_parts(issue_file_name(slug));
    }
}

/// What holds of a migration after each entry.
spec fn migration_keeps(
    disk: Disk,
    run: MigrationRun,
    legacy_root: Seq<u8>,
    shared_state_root: Seq<u8>,
    entries: Seq<(IssueCategory, LegacyProbe)>,
    probes: Seq<TargetProbe>,
) -> bool {
    &&& forall|key: KeyView|
        valid_slug(key.slug) && #[trigger] kept(disk, issues_dir(legacy_root), key) ==> has_stayed(
            disk,
            run.disk,
            legacy_root,
            key,
        ) || has_moved(disk, run.disk, legacy_root, shared_state_root, key)
    &&& forall|key: KeyView|
        valid_slug(key.slug) && !#[trigger] lists_issue(legacy_root, entries, key) ==> kept(
            run.disk,
            issues_dir(legacy_root),
            key,
        ) == kept(disk, issues_dir(legacy_root), key)
    &&& forall|key: KeyView|
        valid_slug(key.slug) && #[trigger] lists_issue(legacy_root, entries, key) && !run.stopped
            ==> !kept(run.disk, issues_dir(legacy_root), key)
    &&& others_stay(disk, run.disk, legacy_root, shared_state_root)
    &&& run.stopped ==> exists|i: int|
        0 <= i < entries.len() && stops_at(
            disk,
            shared_state_root,
            #[trigger] entries[i],
            probes[i],
        )
    &&& !run.stopped ==> forall|i: int|
        0 <= i < entries.len() ==> legacy_outcome(
            (#[trigger] entries[i]).0,
            shared_state_root,
            entries[i].1,
        ) is Ok
}

proof fn lemma_listed_before(
    legacy_root: Seq<u8>,
    entries: Seq<(IssueCategory, LegacyProbe)>,
    key: KeyView,
)
    requires
        entries.len() > 0,
    ensures
        lists_issue(legacy_root, entries, key) <==> lists_issue(
            legacy_root,
            entries.drop_last(),
            key,
        ) || (entries.last().0 == key.category && file_entry(entries.last()) && legacy_path(
            entries.last(),
        ) == issue_path_of(issues_dir(legacy_root), key)),
{
    let rest = entries.drop_last();
    if lists_issue(legacy_root, rest, key) {
        let i = choose|i: int|
            0 <= i < rest.len() && (#[trigger] rest[i]).0 == key.category && file_entry(rest[i])
                && legacy_path(rest[i]) == issue_path_of(issues_dir(legacy_root), key);
        assert(entries[i] == rest[i]);
    }
    if lists_issue(legacy_root, entries, key) {
        let i = choose|i: int|
            0 <= i < entries.len() && (#[trigger] entries[i]).0 == key.category && file_entry(
                entries[i],
            ) && legacy_path(entries[i]) == issue_path_of(issues_dir(legacy_root), key);
        if i < rest.len() {
            assert(entries[i] == rest[i]);
        }
    }
    assert(entries[entries.len() - 1] == entries.last());
}

/// One issue moves.
proof fn lemma_step_keeps(
    disk: Disk,
    before: MigrationRun,
    legacy_root: Seq<u8>,
    shared_state_root: Seq<u8>,
    entries: Seq<(IssueCategory, LegacyProbe)>,
    probes: Seq<TargetProbe>,
    key: KeyView,
)
    requires
        components(legacy_root) != components(shared_state_root),
        entries.len() > 0,
        entries.len() == probes.len(),
        valid_slug(key.slug),
        entries.last().0 == key.category,
        file_entry(entries.last()),
        legacy_path(entries.last()) == issue_path_of(issues_dir(legacy_root), key),
        slug_of_path(legacy_path(entries.last())) == Ok::<Seq<char>, StoreErrorView>(key.slug),
        kept(disk, issues_dir(legacy_root), key),
        !lists_issue(legacy_root, entries.drop_last(), key),
        !before.stopped,
        migration_keeps(
            disk,
            before,
            legacy_root,
            shared_state_root,
            entries.drop_last(),
            probes.drop_last(),
        ),
        shows_target(
            before.disk,
            components(issue_path_of(issues_dir(legacy_root), key)),
            components(issue_path_of(issues_dir(shared_state_root), key)),
            probes.last(),
        ),
    ensures
        migration_keeps(
            disk,
            entry_migrated(before.disk, shared_state_root, entries.last(), probes.last()),
            legacy_root,
            shared_state_root,
            entries,
            probes,
        ),
{
    let old = issues_dir(legacy_root);
    let new = issues_dir(shared_state_root);
    let source = components(issue_path_of(old, key));
    let target = components(issue_path_of(new, key));
    let rest = entries.drop_last();
    let probe = probes.last();
    let run = entry_migrated(before.disk, shared_state_root, entries.last(), probe);
    let step = migration(issue_path_of(old, key), issue_path_of(new, key), probe);
    assert(key == (KeyView { category: key.category, slug: key.slug }));
    assert(run.disk == migrated(before.disk, source, target, step));
    assert(kept(before.disk, old, key));
    assert(has_stayed(disk, before.disk, legacy_root, key));
    assert forall|other: KeyView| valid_slug(other.slug) implies #[trigger] components(
        issue_path_of(old, other),
    ) != target && components(issue_path_of(new, other)) != source && (components(
        issue_path_of(old, other),
    ) == source <==> other == key) && (components(issue_path_of(new, other)) == target <==> other
        == key) by {
        lemma_file_name(other.slug);
        lemma_file_name(key.slug);
        lemma_places_differ(
            legacy_root,
            shared_state_root,
            other.category,
            issue_file_name(other.slug),
            key,
        );
        lemma_places_differ(
            legacy_root,
            shared_state_root,
            key.category,
            issue_file_name(key.slug),
            other,
        );
        law_issue_paths_differ(old, other, key);
        law_issue_paths_differ(new, other, key);
    }
    assert forall|other: KeyView|
        valid_slug(other.slug) && #[trigger] kept(disk, old, other) implies has_stayed(
        disk,
        run.disk,
        legacy_root,
        other,
    ) || has_moved(disk, run.disk, legacy_root, shared_state_root, other) by {
        assert(has_stayed(disk, before.disk, legacy_root, other) || has_moved(
            disk,
            before.disk,
            legacy_root,
            shared_state_root,
            other,
        ));
        assert(components(issue_path_of(old, other)) != target);
    }
    assert forall|other: KeyView|
        valid_slug(other.slug) && !#[trigger] lists_issue(legacy_root, entries, other) implies kept(
        run.disk,
        old,
        other,
    ) == kept(disk, old, other) by {
        lemma_listed_before(legacy_root, entries, other);
        assert(components(issue_path_of(old, other)) != target);
    }
    assert forall|other: KeyView|
        valid_slug(other.slug) && #[trigger] lists_issue(legacy_root, entries, other)
            && !run.stopped implies !kept(run.disk, old, other) by {
        lemma_listed_before(legacy_root, entries, other);
        assert(components(issue_path_of(old, other)) != target);
    }
    assert(is_issue_file(legacy_root, source));
    assert forall|path: Seq<ComponentView>| #[trigger] run.disk.dom().contains(path) implies disk.dom().contains(
        path,
    ) || exists|other: KeyView|
        valid_slug(other.slug) && kept(disk, old, other) && has_moved(
            disk,
            run.disk,
            legacy_root,
            shared_state_root,
            other,
        ) && path == #[trigger] components(issue_path_of(new, other)) by {
        if before.disk.dom().contains(path) {
            if !disk.dom().contains(path) {
                let other = choose|other: KeyView|
                    valid_slug(other.slug) && kept(disk, old, other) && has_moved(
                        disk,
                        before.disk,
                        legacy_root,
                        shared_state_root,
                        other,
                    ) && path == #[trigger] components(issue_path_of(new, other));
                assert(components(issue_path_of(old, other)) != target);
                assert(has_moved(disk, run.disk, legacy_root, shared_state_root, other));
            }
        } else {
            assert(has_moved(disk, run.disk, legacy_root, shared_state_root, key));
        }
    }
    if run.stopped {
        if before.disk.dom().contains(target) {
            assert(disk.dom().contains(target));
            assert(!is_issue_file(legacy_root, target));
        }
        assert(stops_at(
            disk,
            shared_state_root,
            entries[entries.len() - 1],
            probes[entries.len() - 1],
        ));
    }
    assert(others_stay(disk, run.disk, legacy_root, shared_state_root));
    assert forall|i: int| 0 <= i < entries.len() implies legacy_outcome(
        (#[trigger] entries[i]).0,
        shared_state_root,
        entries[i].1,
    ) is Ok by {
        if i < rest.len() {
            assert(rest[i] == entries[i]);
        }
    }
}

proof fn lemma_migration_keeps(
    disk: Disk,
    legacy_root: Seq<u8>,
    shared_state_root: Seq<u8>,
    entries: Seq<(IssueCategory, LegacyProbe)>,
    probes: Seq<TargetProbe>,
)
    requires
        components(legacy_root) != components(shared_state_root),
        entries.len() == probes.len(),
        are_legacy_files(disk, legacy_root, entries),
        shows_targets(disk, shared_state_root, entries, probes),
    ensures
        migration_keeps(
            disk,
            migration_run(disk, shared_state_root, entries, probes),
            legacy_root,
            shared_state_root,
            entries,
            probes,
        ),
    decreases entries.len(),
{
    if entries.len() > 0 {
        let rest = entries.drop_last();
        let entry = entries.last();
        let before = migration_run(disk, shared_state_root, rest, probes.drop_last());
        let run = migration_run(disk, shared_state_root, entries, probes);
        assert forall|i: int| 0 <= i < rest.len() implies #[trigger] rest[i] == entries[i] by {}
        assert(are_legacy_files(disk, legacy_root, rest));
        lemma_migration_keeps(disk, legacy_root, shared_state_root, rest, probes.drop_last());
        assert(entries[entries.len() - 1] == entry);
        assert forall|key: KeyView| #[trigger] lists_issue(
            legacy_root,
            entries,
            key,
        ) implies lists_issue(legacy_root, rest, key) || file_entry(entry) by {
            lemma_listed_before(legacy_root, entries, key);
        }
        assert forall|key: KeyView| #[trigger] lists_issue(
            legacy_root,
            rest,
            key,
        ) implies lists_issue(legacy_root, entries, key) by {
            lemma_listed_before(legacy_root, entries, key);
        }
        match legacy_outcome(entry.0, shared_state_root, entry.1) {
            Ok(Some((source, target))) if !before.stopped => {
                let name = choose|name: Seq<u8>| names_file(legacy_root, entry, name);
                assert(file_entry(entries[entries.len() - 1]));
                lemma_named_by_slug(legacy_root, entry.0, name);
                let key = KeyView { category: entry.0, slug: slug_of_path(source)->Ok_0 };
                if lists_issue(legacy_root, rest, key) {
                    let i = choose|i: int|
                        0 <= i < rest.len() && (#[trigger] rest[i]).0 == key.category
                            && file_entry(rest[i]) && legacy_path(rest[i]) == issue_path_of(
                            issues_dir(legacy_root),
                            key,
                        );
                    assert(legacy_path(entries[i]) != legacy_path(entries[entries.len() - 1]));
                }
                lemma_step_keeps(
                    disk,
                    before,
                    legacy_root,
                    shared_state_root,
                    entries,
                    probes,
                    key,
                );
            },
            _ => {
                assert(run.disk == before.disk);
                assert forall|key: KeyView|
                    valid_slug(key.slug) && !#[trigger] lists_issue(
                        legacy_root,
                        entries,
                        key,
                    ) implies kept(run.disk, issues_dir(legacy_root), key) == kept(
                    disk,
                    issues_dir(legacy_root),
                    key,
                ) by {
                    assert(!lists_issue(legacy_root, rest, key));
                }
                if before.stopped {
                    let i = choose|i: int|
                        0 <= i < rest.len() && stops_at(
                            disk,
                            shared_state_root,
                            #[trigger] rest[i],
                            probes.drop_last()[i],
                        );
                    assert(stops_at(disk, shared_state_root, entries[i], probes[i]));
                } else if run.stopped {
                    assert(stops_at(
                        disk,
                        shared_state_root,
                        entries[entries.len() - 1],
                        probes[entries.len() - 1],
                    ));
                }
                if !run.stopped {
                    assert(!file_entry(entry));
                    assert forall|i: int| 0 <= i < entries.len() implies legacy_outcome(
                        (#[trigger] entries[i]).0,
                        shared_state_root,
                        entries[i].1,
                    ) is Ok by {
                        if i < rest.len() {
                            assert(rest[i] == entries[i]);
                        }
                    }
                }
            },
        }
    }
}

/// A whole migration: every issue that the worktree kept for itself ends in
/// the shared state with the body that it had, no file is left where they
/// were, and every other file keeps what it held, those of the shared state
/// among them. A migration stops only at an entry that something is wrong
/// with, and loses nothing then either: each issue has moved or is still
/// where it was.
pub proof fn law_whole_migration(
    disk: Disk,
    legacy_root: Seq<u8>,
    shared_state_root: Seq<u8>,
    entries: Seq<(IssueCategory, LegacyProbe)>,
    probes: Seq<TargetProbe>,
)
    requires
        components(legacy_root) != components(shared_state_root),
        entries.len() == probes.len(),
        shows_legacy(disk, legacy_root, entries),
        shows_targets(disk, shared_state_root, entries, probes),
    ensures
        ({
            let run = migration_run(disk, shared_state_root, entries, probes);
            &&& forall|key: KeyView|
                valid_slug(key.slug) && #[trigger] kept(disk, issues_dir(legacy_root), key)
                    ==> has_moved(disk, run.disk, legacy_root, shared_state_root, key) || (
                run.stopped && has_stayed(disk, run.disk, legacy_root, key))
            &&& others_stay(disk, run.disk, legacy_root, shared_state_root)
            &&& run.stopped ==> exists|i: int|
                0 <= i < entries.len() && stops_at(
                    disk,
                    shared_state_root,
                    #[trigger] entries[i],
                    probes[i],
                )
            &&& !run.stopped ==> forall|category: IssueCategory, name: Seq<u8>|
                plain_name(name) ==> !run.disk.dom().contains(
                    #[trigger] legacy_file(legacy_root, category, name),
                )
        }),
{
    let run = migration_run(disk, shared_state_root, entries, probes);
    lemma_migration_keeps(disk, legacy_root, shared_state_root, entries, probes);
    if !run.stopped {
        if exists|i: int| 0 <= i < entries.len() && (#[trigger] entries[i]).1 is Failed {
            let i = choose|i: int| 0 <= i < entries.len() && (#[trigger] entries[i]).1 is Failed;
            assert(legacy_outcome(entries[i].0, shared_state_root, entries[i].1) is Ok);
        }
        assert forall|category: IssueCategory, name: Seq<u8>| plain_name(
            name,
        ) implies !run.disk.dom().contains(#[trigger] legacy_file(legacy_root, category, name)) by {
            let path = legacy_file(legacy_root, category, name);
            if run.disk.dom().contains(path) {
                if !disk.dom().contains(path) {
                    let key = choose|key: KeyView|
                        valid_slug(key.slug) && kept(disk, issues_dir(legacy_root), key)
                            && has_moved(
                            disk,
                            run.disk,
                            legacy_root,
                            shared_state_root,
                            key,
                        ) && path == #[trigger] components(
                            issue_path_of(issues_dir(shared_state_root), key),
                        );
                    lemma_places_differ(legacy_root, shared_state_root, category, name, key);
                }
                assert(among_legacy(legacy_root, category, name, entries));
                let i = choose|i: int|
                    0 <= i < entries.len() && (#[trigger] entries[i]).0 == category && names_file(
                        legacy_root,
                        entries[i],
                        name,
                    );
                assert(legacy_outcome(entries[i].0, shared_state_root, entries[i].1) is Ok);
                lemma_named_by_slug(legacy_root, category, name);
                let key = KeyView {
                    category,
                    slug: slug_of_path(legacy_path(entries[i]))->Ok_0,
                };
                assert(lists_issue(legacy_root, entries, key));
                assert(!kept(run.disk, issues_dir(legacy_root), key));
            }
        }
        assert forall|key: KeyView|
            valid_slug(key.slug) && #[trigger] kept(
                disk,
                issues_dir(legacy_root),
                key,
            ) implies has_moved(disk, run.disk, legacy_root, shared_state_root, key) by {
            lemma_file_name(key.slug);
            assert(!run.disk.dom().contains(
                legacy_file(legacy_root, key.category, issue_file_name(key.slug)),
            ));
        }
    }
}

/// A second migration changes nothing.
pub proof fn law_second_migration_changes_nothing(
    disk: Disk,
    legacy_root: Seq<u8>,
    shared_state_root: Seq<u8>,
    entries: Seq<(IssueCategory, LegacyProbe)>,
    probes: Seq<TargetProbe>,
    entries_after: Seq<(IssueCategory, LegacyProbe)>,
    probes_after: Seq<TargetProbe>,
)
    requires
        components(legacy_root) != components(shared_state_root),
        entries.len() == probes.len(),
        shows_legacy(disk, legacy_root, entries),
        shows_targets(disk, shared_state_root, entries, probes),
        !migration_run(disk, shared_state_root, entries, probes).stopped,
        shows_legacy(
            migration_run(disk, shared_state_root, entries, probes).disk,
            legacy_root,
            entries_after,
        ),
    ensures
        ({
            let run = migration_run(disk, shared_state_root, entries, probes);
            migration_run(run.disk, shared_state_root, entries_after, probes_after).disk
                == run.disk
        }),
{
    let run = migration_run(disk, shared_state_root, entries, probes);
    law_whole_migration(disk, legacy_root, shared_state_root, entries, probes);
    assert forall|i: int| 0 <= i < entries_after.len() implies !file_entry(
        #[trigger] entries_after[i],
    ) by {
        if file_entry(entries_after[i]) {
            let name = choose|name: Seq<u8>| names_file(legacy_root, entries_after[i], name);
            assert(names_file(legacy_root, entries_after[i], name));
            assert(!run.disk.dom().contains(
                legacy_file(legacy_root, entries_after[i].0, name),
            ));
        }
    }
    lemma_no_files(run.disk, shared_state_root, entries_after, probes_after);
}

/// Entries that are no files change nothing.
proof fn lemma_no_files(
    disk: Disk,
    shared_state_root: Seq<u8>,
    entries: Seq<(IssueCategory, LegacyProbe)>,
    probes: Seq<TargetProbe>,
)
    requires
        forall|i: int| 0 <= i < entries.len() ==> !file_entry(#[trigger] entries[i]),
    ensures
        migration_run(disk, shared_state_root, entries, probes).disk == disk,
    decreases entries.len(),
{
    if entries.len() > 0 {
        let rest = entries.drop_last();
        assert forall|i: int| 0 <= i < rest.len() implies !file_entry(#[trigger] rest[i]) by {
            assert(rest[i] == entries[i]);
        }
        lemma_no_files(disk, shared_state_root, rest, probes.drop_last());
        assert(!file_entry(entries[entries.len() - 1]));
    }
}

/// Which issues move: those of a worktree whose project is kept elsewhere, and
/// of no other. They lie in the directory for states under the names of the
/// worktree, and go to the state under the names of its identity.
pub proof fn law_issues_move_from_the_worktree(
    anchor: &ProjectAnchor,
    state_dir: &LocalPath,
    shared: LocalPath,
    legacy: Option<LocalPath>,
    worktree: Seq<Seq<u8>>,
    identity: Seq<Seq<u8>>,
)
    requires
        plain_names(worktree),
        plain_names(identity),
        anchor.worktree_root@ == root_path(worktree),
        anchor.state_identity@ == root_path(identity),
        call_ensures(state_root_of, (state_dir, anchor), shared),
        call_ensures(migrate_legacy_worktree_state, (anchor, state_dir, &shared), legacy),
    ensures
        components(shared@) == components(state_dir@) + named_components(
            seq![encode_utf8("jira_at_home"@), encode_utf8("projects"@)] + identity,
        ),
        worktree == identity ==> legacy is None,
        worktree != identity ==> (legacy matches Some(old) && components(old@) == components(
            state_dir@,
        ) + named_components(
            seq![encode_utf8("jira_at_home"@), encode_utf8("projects"@)] + worktree,
        ) && components(old@) != components(shared@)),
{
    law_state_place(state_dir@, worktree);
    law_state_place(state_dir@, identity);
    law_root_paths(worktree);
    law_root_paths(identity);
    let head = seq![encode_utf8("jira_at_home"@), encode_utf8("projects"@)];
    let base = components(state_dir@);
    if worktree != identity {
        lemma_named_differ(worktree, identity);
        assert(components(root_path(worktree)).skip(1) =~= named_components(worktree));
        assert(components(root_path(identity)).skip(1) =~= named_components(identity));
        assert((base + named_components(head + worktree)).skip(base.len() as int + 2)
            =~= named_components(worktree));
        assert((base + named_components(head + identity)).skip(base.len() as int + 2)
            =~= named_components(identity));
    }
}

proof fn lemma_named_differ(left: Seq<Seq<u8>>, right: Seq<Seq<u8>>)
    requires
        left != right,
    ensures
        named_components(left) != named_components(right),
{
    if named_components(left) == named_components(right) {
        assert(left.len() == named_components(left).len());
        assert(right.len() == named_components(right).len());
        assert forall|i: int| 0 <= i < left.len() implies left[i] == right[i] by {
            assert(named_components(left)[i] == ComponentView::Normal(left[i]));
            assert(named_components(right)[i] == ComponentView::Normal(right[i]));
        }
        assert(left =~= right);
    }
}

/// Binding a linked worktree loses none of the issues that it kept for itself:
/// once a migration has come to its end, the store of the project keeps each
/// of them, with the body that it had.
pub proof fn law_bound_project_keeps_the_issues(
    disk: Disk,
    requested: LocalPath,
    anchor: &ProjectAnchor,
    state_dir: &LocalPath,
    shared: LocalPath,
    legacy: Option<LocalPath>,
    layout: ProjectLayout,
    worktree: Seq<Seq<u8>>,
    identity: Seq<Seq<u8>>,
    entries: Seq<(IssueCategory, LegacyProbe)>,
    probes: Seq<TargetProbe>,
    key: KeyView,
)
    requires
        plain_names(worktree),
        plain_names(identity),
        worktree != identity,
        anchor.worktree_root@ == root_path(worktree),
        anchor.state_identity@ == root_path(identity),
        call_ensures(state_root_of, (state_dir, anchor), shared),
        call_ensures(migrate_legacy_worktree_state, (anchor, state_dir, &shared), legacy),
        call_ensures(ProjectLayout::bind, (requested, *anchor, state_dir), layout),
        legacy matches Some(old) ==> entries.len() == probes.len() && shows_legacy(
            disk,
            old@,
            entries,
        ) && shows_targets(disk, shared@, entries, probes) && !migration_run(
            disk,
            shared@,
            entries,
            probes,
        ).stopped && kept(disk, joined(old@, encode_utf8("issues"@)), key),
        valid_slug(key.slug),
    ensures
        legacy matches Some(old) && {
            let after = migration_run(disk, shared@, entries, probes).disk;
            &&& kept(after, layout@.issues_root, key)
            &&& contents(after, layout@.issues_root, key) == contents(
                disk,
                joined(old@, encode_utf8("issues"@)),
                key,
            )
            &&& !kept(after, joined(old@, encode_utf8("issues"@)), key)
        },
{
    law_issues_move_from_the_worktree(anchor, state_dir, shared, legacy, worktree, identity);
    law_whole_migration(disk, legacy->0@, shared@, entries, probes);
}

/// Only files that are named by a slug and end in `.md` are issues.
pub proof fn law_issue_files_are_named_by_slugs(names: Seq<Seq<u8>>)
    requires
        plain_names(names),
    ensures
        slug_of_path(root_path(names)) matches Ok(slug) ==> names.len() > 0 && valid_slug(slug)
            && names.last() == encode_utf8(slug + ".md"@),
{
    law_root_paths(names);
    if let Ok(slug) = slug_of_path(root_path(names)) {
        let name = names.last();
        lemma_name_parts(name);
        decode_utf8_encode_utf8(stem_of(name));
        lemma_file_name(slug);
        lemma_name_parts(issue_file_name(slug));
    }
}

} // verus!
