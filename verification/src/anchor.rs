//! Finding the project of a path: the nearest Git worktree, and the identity
//! that linked worktrees share.
//!
//! The search asks questions about the file system, one at a time, and takes
//! the answers as plain values.

use vstd::prelude::*;

use vstd::utf8::encode_utf8;

use crate::issue::{StoreError, StoreErrorView};
use crate::path::{
    LocalPath, absolute, file_name_of, joined, lossy_text, parent_of, same_bytes, text_bytes,
};
use crate::text::{same_text, trim, trimmed};

verus! {

/// The project of a path.
pub struct ProjectAnchor {
    pub project_root: LocalPath,
    /// The directory that holds the Git marker.
    pub worktree_root: LocalPath,
    /// What the issues of the project are kept under.
    pub state_identity: LocalPath,
}

/// The project of a path, in plain values.
pub struct AnchorView {
    pub project_root: Seq<u8>,
    pub worktree_root: Seq<u8>,
    pub state_identity: Seq<u8>,
}

impl View for ProjectAnchor {
    type V = AnchorView;

    open spec fn view(&self) -> AnchorView {
        AnchorView {
            project_root: self.project_root@,
            worktree_root: self.worktree_root@,
            state_identity: self.state_identity@,
        }
    }
}

/// What the file system says of the requested path.
pub enum ProjectProbe {
    /// Nothing is there.
    Missing,
    /// Its canonical form cannot be had; the message.
    Unresolved(String),
    /// A directory; its canonical form.
    Directory(LocalPath),
    /// Something else; its canonical form.
    Other(LocalPath),
}

/// What the file system says of a Git marker.
pub enum MarkerProbe {
    /// Nothing is there.
    Absent,
    /// A directory; its canonical form, or why it cannot be had.
    Directory(Result<LocalPath, String>),
    /// A file; its text, or why it cannot be read.
    File(Result<String, String>),
    /// Something else.
    Other,
}

/// What the file system says of the file that names the common directory.
pub enum CommonProbe {
    /// Nothing is there.
    Missing,
    /// Its text.
    Text(String),
    /// Why it cannot be read.
    Failed(String),
}

/// A search that looks for the Git marker of a directory.
pub struct MarkerSearch {
    /// The directory that the search started from.
    pub search_root: LocalPath,
    /// The directory that is looked at.
    pub worktree_root: LocalPath,
}

/// A Git directory, before its canonical form is known.
pub struct GitdirPath {
    pub worktree_root: LocalPath,
    pub target: LocalPath,
}

/// A search that looks for the common directory of a Git directory.
pub struct CommonSearch {
    pub worktree_root: LocalPath,
    pub git_dir: LocalPath,
}

/// A common directory, before its canonical form is known.
pub struct CommonPath {
    pub worktree_root: LocalPath,
    pub target: LocalPath,
}

/// What follows the look at a Git marker.
pub enum MarkerStep {
    /// Look for the marker of the next directory.
    Search(MarkerSearch),
    /// Find the canonical form of the Git directory.
    Resolve(GitdirPath),
    /// Look for the common directory.
    Common(CommonSearch),
    /// There is no Git marker; the directory stands for itself.
    Found(ProjectAnchor),
    Failed(StoreError),
}

/// What follows the look at the file that names the common directory.
pub enum CommonStep {
    /// Find the canonical form of the common directory.
    Resolve(CommonPath),
    Found(ProjectAnchor),
    Failed(StoreError),
}

/// The directory that the search starts from, or why there is none.
pub open spec fn search_start(requested_path: Seq<u8>, probe: ProjectProbe) -> Result<
    Seq<u8>,
    StoreErrorView,
> {
    match probe {
        ProjectProbe::Missing => Err(
            StoreErrorView::MissingProjectPath(lossy_text(requested_path)),
        ),
        ProjectProbe::Unresolved(detail) => Err(StoreErrorView::Io(detail@)),
        ProjectProbe::Directory(canonical) => Ok(canonical@),
        ProjectProbe::Other(canonical) => match parent_of(canonical@) {
            Some(parent) => Ok(parent),
            None => Err(StoreErrorView::ProjectPathNotDirectory(lossy_text(requested_path))),
        },
    }
}

/// The anchor of a project outside Git.
pub open spec fn plain_anchor(search_root: Seq<u8>) -> AnchorView {
    AnchorView {
        project_root: search_root,
        worktree_root: search_root,
        state_identity: search_root,
    }
}

/// Where the first line of a text ends.
pub open spec fn line_end(text: Seq<char>) -> int
    decreases text.len(),
{
    if text.len() == 0 || text[0] == '\n' {
        0
    } else {
        1 + line_end(text.drop_first())
    }
}

/// The first line of a text that is not blank, without the white space around
/// it.
pub open spec fn first_filled_line(text: Seq<char>) -> Option<Seq<char>>
    decreases text.len(),
{
    let line = trimmed(text.take(line_end(text)));
    if line.len() > 0 {
        Some(line)
    } else if line_end(text) + 1 > text.len() || line_end(text) < 0 {
        None
    } else {
        first_filled_line(text.skip(line_end(text) + 1))
    }
}

/// The path that the text of a Git marker names.
pub open spec fn gitdir_named(text: Seq<char>) -> Option<Seq<char>> {
    match first_filled_line(text) {
        Some(line) => if "gitdir:"@.is_prefix_of(line) && trimmed(
            line.skip("gitdir:"@.len() as int),
        ).len() > 0 {
            Some(trimmed(line.skip("gitdir:"@.len() as int)))
        } else {
            None
        },
        None => None,
    }
}

/// What the parts of a marker step mean, in plain values.
pub enum MarkerStepView {
    Search { search_root: Seq<u8>, worktree_root: Seq<u8> },
    Resolve { worktree_root: Seq<u8>, target: Seq<u8> },
    Common { worktree_root: Seq<u8>, git_dir: Seq<u8> },
    Found(AnchorView),
    Failed(StoreErrorView),
}

impl View for MarkerStep {
    type V = MarkerStepView;

    open spec fn view(&self) -> MarkerStepView {
        match *self {
            MarkerStep::Search(search) => MarkerStepView::Search {
                search_root: search.search_root@,
                worktree_root: search.worktree_root@,
            },
            MarkerStep::Resolve(path) => MarkerStepView::Resolve {
                worktree_root: path.worktree_root@,
                target: path.target@,
            },
            MarkerStep::Common(search) => MarkerStepView::Common {
                worktree_root: search.worktree_root@,
                git_dir: search.git_dir@,
            },
            MarkerStep::Found(anchor) => MarkerStepView::Found(anchor@),
            MarkerStep::Failed(error) => MarkerStepView::Failed(error@),
        }
    }
}

/// What the parts of a common directory step mean, in plain values.
pub enum CommonStepView {
    Resolve { worktree_root: Seq<u8>, target: Seq<u8> },
    Found(AnchorView),
    Failed(StoreErrorView),
}

impl View for CommonStep {
    type V = CommonStepView;

    open spec fn view(&self) -> CommonStepView {
        match *self {
            CommonStep::Resolve(path) => CommonStepView::Resolve {
                worktree_root: path.worktree_root@,
                target: path.target@,
            },
            CommonStep::Found(anchor) => CommonStepView::Found(anchor@),
            CommonStep::Failed(error) => CommonStepView::Failed(error@),
        }
    }
}

/// The Git marker of a directory.
pub open spec fn marker_of(worktree_root: Seq<u8>) -> Seq<u8> {
    joined(worktree_root, encode_utf8(".git"@))
}

/// What follows the look at the Git marker of `worktree_root`.
pub open spec fn after_marker(
    search_root: Seq<u8>,
    worktree_root: Seq<u8>,
    probe: MarkerProbe,
) -> MarkerStepView {
    match probe {
        MarkerProbe::Absent => match parent_of(worktree_root) {
            Some(parent) => MarkerStepView::Search { search_root, worktree_root: parent },
            None => MarkerStepView::Found(plain_anchor(search_root)),
        },
        MarkerProbe::Directory(Ok(git_dir)) => MarkerStepView::Common {
            worktree_root,
            git_dir: git_dir@,
        },
        MarkerProbe::Directory(Err(detail)) => MarkerStepView::Failed(StoreErrorView::Io(detail@)),
        MarkerProbe::File(Ok(text)) => match gitdir_named(text@) {
            Some(raw) => MarkerStepView::Resolve {
                worktree_root,
                target: joined(worktree_root, encode_utf8(raw)),
            },
            None => MarkerStepView::Failed(
                StoreErrorView::MalformedGitIndirection(
                    lossy_text(marker_of(worktree_root)),
                    "expected `gitdir: <path>`"@,
                ),
            ),
        },
        MarkerProbe::File(Err(detail)) => MarkerStepView::Failed(StoreErrorView::Io(detail@)),
        MarkerProbe::Other => MarkerStepView::Failed(
            StoreErrorView::MalformedGitIndirection(
                lossy_text(marker_of(worktree_root)),
                "git marker is neither file nor directory"@,
            ),
        ),
    }
}

/// The name of a directory that holds Git's data for the worktree around it.
pub open spec fn inside_worktree(common_dir: Seq<u8>) -> bool {
    file_name_of(common_dir) == Some(encode_utf8(".git"@))
}

/// The anchor of a worktree with this common directory.
pub open spec fn git_anchor(worktree_root: Seq<u8>, common_dir: Seq<u8>) -> Result<
    AnchorView,
    StoreErrorView,
> {
    if inside_worktree(common_dir) {
        match parent_of(common_dir) {
            Some(parent) => Ok(
                AnchorView { project_root: parent, worktree_root, state_identity: parent },
            ),
            None => Err(
                StoreErrorView::MalformedGitIndirection(
                    lossy_text(common_dir),
                    "git common dir named `.git` has no parent"@,
                ),
            ),
        }
    } else {
        Ok(
            AnchorView {
                project_root: worktree_root,
                worktree_root,
                state_identity: common_dir,
            },
        )
    }
}

/// What follows the look at the file that names the common directory.
pub open spec fn after_common(
    worktree_root: Seq<u8>,
    git_dir: Seq<u8>,
    probe: CommonProbe,
) -> CommonStepView {
    match probe {
        CommonProbe::Missing => match git_anchor(worktree_root, git_dir) {
            Ok(anchor) => CommonStepView::Found(anchor),
            Err(error) => CommonStepView::Failed(error),
        },
        CommonProbe::Text(raw) => CommonStepView::Resolve {
            worktree_root,
            target: joined(git_dir, encode_utf8(trimmed(raw@))),
        },
        CommonProbe::Failed(detail) => CommonStepView::Failed(StoreErrorView::Io(detail@)),
    }
}

/// The anchor of a worktree once the canonical form of its common directory
/// is known, or not.
pub open spec fn after_common_path(
    worktree_root: Seq<u8>,
    canonical: Result<LocalPath, String>,
) -> Result<AnchorView, StoreErrorView> {
    match canonical {
        Ok(common_dir) => git_anchor(worktree_root, common_dir@),
        Err(detail) => Err(StoreErrorView::Io(detail@)),
    }
}

/// Two worktrees with one common directory share one identity; where Git's
/// data lies inside a worktree, they share its project root too.
pub proof fn law_linked_worktrees_share_identity(first: Seq<u8>, second: Seq<u8>, common_dir: Seq<u8>)
    ensures
        git_anchor(first, common_dir) is Ok <==> git_anchor(second, common_dir) is Ok,
        git_anchor(first, common_dir) is Ok ==> git_anchor(first, common_dir)->Ok_0.state_identity
            == git_anchor(second, common_dir)->Ok_0.state_identity,
        git_anchor(first, common_dir) is Ok && inside_worktree(common_dir) ==> git_anchor(
            first,
            common_dir,
        )->Ok_0.project_root == git_anchor(second, common_dir)->Ok_0.project_root,
        git_anchor(first, common_dir) matches Ok(anchor) ==> anchor.worktree_root == first,
{
}

/// Starts the search for the project of a path.
pub fn resolve_project_anchor(requested_path: &LocalPath, probe: ProjectProbe) -> (search: Result<
    MarkerSearch,
    StoreError,
>)
    ensures
        match search {
            Ok(search) => search_start(requested_path@, probe) == Ok::<Seq<u8>, StoreErrorView>(
                search.search_root@,
            ) && search.worktree_root@ == search.search_root@,
            Err(error) => search_start(requested_path@, probe) == Err::<Seq<u8>, StoreErrorView>(
                error@,
            ),
        },
{
    let search_root = match probe {
        ProjectProbe::Missing => {
            return Err(StoreError::MissingProjectPath(requested_path.display()));
        },
        ProjectProbe::Unresolved(detail) => {
            return Err(StoreError::Io(detail));
        },
        ProjectProbe::Directory(canonical) => canonical,
        ProjectProbe::Other(canonical) => match canonical.parent() {
            Some(parent) => parent,
            None => {
                return Err(StoreError::ProjectPathNotDirectory(requested_path.display()));
            },
        },
    };
    let worktree_root = search_root.duplicate();
    Ok(MarkerSearch { search_root, worktree_root })
}

impl MarkerSearch {
    /// The Git marker to look at.
    pub fn marker(&self) -> (marker: LocalPath)
        ensures
            marker@ == marker_of(self.worktree_root@),
    {
        self.worktree_root.join(".git")
    }

    /// Takes what the file system says of the marker.
    pub fn observe(self, probe: MarkerProbe) -> (step: MarkerStep)
        ensures
            step@ == after_marker(self.search_root@, self.worktree_root@, probe),
    {
        match probe {
            MarkerProbe::Absent => match self.worktree_root.parent() {
                Some(parent) => MarkerStep::Search(
                    MarkerSearch { search_root: self.search_root, worktree_root: parent },
                ),
                None => MarkerStep::Found(
                    ProjectAnchor {
                        project_root: self.search_root.duplicate(),
                        worktree_root: self.search_root.duplicate(),
                        state_identity: self.search_root,
                    },
                ),
            },
            MarkerProbe::Directory(canonical) => match canonical {
                Ok(git_dir) => MarkerStep::Common(
                    CommonSearch { worktree_root: self.worktree_root, git_dir },
                ),
                Err(detail) => MarkerStep::Failed(StoreError::Io(detail)),
            },
            MarkerProbe::File(read) => match read {
                Ok(text) => match resolve_gitdir_file(&self.marker(), &self.worktree_root, &text) {
                    Ok(target) => MarkerStep::Resolve(
                        GitdirPath { worktree_root: self.worktree_root, target },
                    ),
                    Err(error) => MarkerStep::Failed(error),
                },
                Err(detail) => MarkerStep::Failed(StoreError::Io(detail)),
            },
            MarkerProbe::Other => MarkerStep::Failed(
                StoreError::MalformedGitIndirection(
                    self.marker().display(),
                    "git marker is neither file nor directory".to_owned(),
                ),
            ),
        }
    }
}

/// The path that the text of a Git marker names.
pub fn resolve_gitdir_file(git_marker: &LocalPath, worktree_root: &LocalPath, text: &String) -> (target:
    Result<LocalPath, StoreError>)
    ensures
        match target {
            Ok(target) => gitdir_named(text@) matches Some(raw) && target@ == joined(
                worktree_root@,
                encode_utf8(raw),
            ),
            Err(error) => gitdir_named(text@) is None && error@
                == StoreErrorView::MalformedGitIndirection(
                lossy_text(git_marker@),
                "expected `gitdir: <path>`"@,
            ),
        },
{
    match find_gitdir(text.as_str()) {
        Some(raw) => Ok(resolve_git_path(worktree_root, raw.as_str())),
        None => Err(
            StoreError::MalformedGitIndirection(
                git_marker.display(),
                "expected `gitdir: <path>`".to_owned(),
            ),
        ),
    }
}

/// A path that Git writes down: absolute, or relative to `base`.
pub fn resolve_git_path(base: &LocalPath, raw: &str) -> (path: LocalPath)
    ensures
        path@ == joined(base@, encode_utf8(raw@)),
        absolute(encode_utf8(raw@)) ==> path@ == encode_utf8(raw@),
{
    let path = LocalPath::from_text(raw);
    if path.is_absolute() {
        path
    } else {
        base.join(raw)
    }
}

impl GitdirPath {
    /// Takes the canonical form of the Git directory.
    pub fn resolved(self, canonical: Result<LocalPath, String>) -> (search: Result<
        CommonSearch,
        StoreError,
    >)
        ensures
            match canonical {
                Ok(git_dir) => search matches Ok(search) && search.worktree_root@
                    == self.worktree_root@ && search.git_dir@ == git_dir@,
                Err(detail) => search matches Err(error) && error@ == StoreErrorView::Io(detail@),
            },
    {
        match canonical {
            Ok(git_dir) => Ok(CommonSearch { worktree_root: self.worktree_root, git_dir }),
            Err(detail) => Err(StoreError::Io(detail)),
        }
    }
}

impl CommonSearch {
    /// The file that names the common directory.
    pub fn file(&self) -> (file: LocalPath)
        ensures
            file@ == joined(self.git_dir@, encode_utf8("commondir"@)),
    {
        self.git_dir.join("commondir")
    }

    /// Takes what the file system says of that file.
    pub fn observe(self, probe: CommonProbe) -> (step: CommonStep)
        ensures
            step@ == after_common(self.worktree_root@, self.git_dir@, probe),
    {
        match probe {
            CommonProbe::Missing => match resolve_git_identity(self.git_dir, self.worktree_root) {
                Ok(anchor) => CommonStep::Found(anchor),
                Err(error) => CommonStep::Failed(error),
            },
            CommonProbe::Text(raw) => {
                let target = resolve_git_path(&self.git_dir, trim(raw.as_str()).as_str());
                CommonStep::Resolve(CommonPath { worktree_root: self.worktree_root, target })
            },
            CommonProbe::Failed(detail) => CommonStep::Failed(StoreError::Io(detail)),
        }
    }
}

impl CommonPath {
    /// Takes the canonical form of the common directory.
    pub fn resolved(self, canonical: Result<LocalPath, String>) -> (anchor: Result<
        ProjectAnchor,
        StoreError,
    >)
        ensures
            match anchor {
                Ok(anchor) => after_common_path(self.worktree_root@, canonical) == Ok::<
                    AnchorView,
                    StoreErrorView,
                >(anchor@),
                Err(error) => after_common_path(self.worktree_root@, canonical) == Err::<
                    AnchorView,
                    StoreErrorView,
                >(error@),
            },
    {
        match canonical {
            Ok(common_dir) => resolve_git_identity(common_dir, self.worktree_root),
            Err(detail) => Err(StoreError::Io(detail)),
        }
    }
}

/// The anchor of a worktree with this common directory.
pub fn resolve_git_identity(common_dir: LocalPath, worktree_root: LocalPath) -> (anchor: Result<
    ProjectAnchor,
    StoreError,
>)
    ensures
        match anchor {
            Ok(anchor) => git_anchor(worktree_root@, common_dir@) == Ok::<
                AnchorView,
                StoreErrorView,
            >(anchor@),
            Err(error) => git_anchor(worktree_root@, common_dir@) == Err::<
                AnchorView,
                StoreErrorView,
            >(error@),
        },
{
    let inside = match common_dir.file_name() {
        Some(name) => {
            let wanted = text_bytes(".git");
            same_bytes(&name, &wanted)
        },
        None => false,
    };
    if inside {
        match common_dir.parent() {
            Some(parent) => Ok(
                ProjectAnchor {
                    project_root: parent.duplicate(),
                    worktree_root,
                    state_identity: parent,
                },
            ),
            None => Err(
                StoreError::MalformedGitIndirection(
                    common_dir.display(),
                    "git common dir named `.git` has no parent".to_owned(),
                ),
            ),
        }
    } else {
        Ok(
            ProjectAnchor {
                project_root: worktree_root.duplicate(),
                worktree_root,
                state_identity: common_dir,
            },
        )
    }
}

fn find_line_end(text: &str, from: usize) -> (end: usize)
    requires
        from <= text@.len(),
    ensures
        end == from + line_end(text@.skip(from as int)),
        from <= end <= text@.len(),
{
    let length: usize = text.unicode_len();
    let mut at: usize = from;
    while at < length
        invariant
            from <= at <= length,
            length == text@.len(),
            from + line_end(text@.skip(from as int)) == at + line_end(text@.skip(at as int)),
        decreases length - at,
    {
        assert(text@.skip(at as int)[0] == text@[at as int]);
        if text.get_char(at) == '\n' {
            return at;
        }
        assert(text@.skip(at as int).drop_first() =~= text@.skip(at as int + 1));
        at = at + 1;
    }
    at
}

fn find_first_filled_line(text: &str) -> (found: Option<String>)
    ensures
        match found {
            Some(line) => first_filled_line(text@) == Some(line@),
            None => first_filled_line(text@) is None,
        },
{
    let length: usize = text.unicode_len();
    let mut at: usize = 0;
    assert(text@.skip(0) =~= text@);
    loop
        invariant
            at <= length,
            length == text@.len(),
            first_filled_line(text@) == first_filled_line(text@.skip(at as int)),
        decreases length - at,
    {
        let end = find_line_end(text, at);
        let ghost rest = text@.skip(at as int);
        let line = trim(text.substring_char(at, end));
        assert(text@.subrange(at as int, end as int) =~= rest.take(line_end(rest)));
        if line.as_str().unicode_len() > 0 {
            return Some(line);
        }
        if end >= length {
            return None;
        }
        assert(rest.skip(line_end(rest) + 1) =~= text@.skip(end as int + 1));
        at = end + 1;
    }
}

fn find_gitdir(text: &str) -> (found: Option<String>)
    ensures
        match found {
            Some(raw) => gitdir_named(text@) == Some(raw@),
            None => gitdir_named(text@) is None,
        },
{
    proof {
        reveal_strlit("gitdir:");
    }
    match find_first_filled_line(text) {
        Some(line) => {
            let length: usize = line.as_str().unicode_len();
            if length < 7 {
                return None;
            }
            let head = line.as_str().substring_char(0, 7);
            assert(line@.subrange(0, 7) =~= line@.take(7));
            if !same_text(head, "gitdir:") {
                return None;
            }
            let raw = trim(line.as_str().substring_char(7, length));
            assert(line@.subrange(7, length as int) =~= line@.skip(7));
            if raw.as_str().unicode_len() == 0 {
                return None;
            }
            Some(raw)
        },
        None => None,
    }
}

} // verus!
