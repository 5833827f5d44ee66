//! Laws of the whole search for the project of a path, over what a file system
//! answers.

use vstd::prelude::*;

use vstd::utf8::{encode_utf8, is_ascii_chars, is_ascii_chars_encode_utf8};

use crate::anchor::{
    AnchorView, CommonPath, CommonProbe, CommonSearch, CommonStep, GitdirPath, MarkerProbe,
    MarkerSearch, MarkerStep, ProjectAnchor, ProjectProbe, first_filled_line,
    gitdir_named, line_end, resolve_project_anchor,
};
use crate::issue::{StoreError, StoreErrorView};
use crate::path::{
    LocalPath, SEPARATOR, joined, law_root_paths, lemma_root_path_grows, lossy_text, plain_name,
    plain_names, root_path,
};
use crate::text::{trimmed, trimmed_end, trimmed_start, white_space};

verus! {

/// What is at a path.
pub enum Node {
    Nothing,
    Directory,
    File,
    Other,
}

/// A file system, as far as a search asks it.
pub struct FileTree {
    /// What is at a path.
    pub nodes: spec_fn(Seq<u8>) -> Node,
    /// What reading a path gives: a text, or why there is none; nothing where
    /// nothing is there.
    pub readings: spec_fn(Seq<u8>) -> Option<Result<Seq<char>, Seq<char>>>,
    /// The canonical form of a path, or why it has none.
    pub canonical: spec_fn(Seq<u8>) -> Result<Seq<u8>, Seq<char>>,
}

/// The canonical form of a path, as it is told.
pub open spec fn tells_canonical(
    files: FileTree,
    path: Seq<u8>,
    told: Result<LocalPath, String>,
) -> bool {
    match (files.canonical)(path) {
        Ok(canonical) => told matches Ok(found) && found@ == canonical,
        Err(detail) => told matches Err(found) && found@ == detail,
    }
}

/// What is at the place of a Git marker, as it is told.
pub open spec fn tells_marker(files: FileTree, path: Seq<u8>, told: MarkerProbe) -> bool {
    match (files.nodes)(path) {
        Node::Nothing => told is Absent,
        Node::Directory => told matches MarkerProbe::Directory(canonical) && tells_canonical(
            files,
            path,
            canonical,
        ),
        Node::File => match (files.readings)(path) {
            Some(Ok(text)) => told matches MarkerProbe::File(Ok(found)) && found@ == text,
            Some(Err(detail)) => told matches MarkerProbe::File(Err(found)) && found@ == detail,
            None => false,
        },
        Node::Other => told is Other,
    }
}

/// What the file that names the common directory holds, as it is told.
pub open spec fn tells_common(files: FileTree, path: Seq<u8>, told: CommonProbe) -> bool {
    match (files.readings)(path) {
        None => told is Missing,
        Some(Ok(text)) => told matches CommonProbe::Text(found) && found@ == text,
        Some(Err(detail)) => told matches CommonProbe::Failed(found) && found@ == detail,
    }
}

/// What a search comes to: an anchor, or why there is none.
pub type Located = Result<AnchorView, StoreErrorView>;

/// The end of a search: from a Git directory to its anchor.
pub struct CommonTrail {
    pub file: LocalPath,
    pub probe: CommonProbe,
    pub step: CommonStep,
    pub canonical: Result<LocalPath, String>,
    pub anchor: Result<ProjectAnchor, StoreError>,
}

/// A whole search: the directories that are looked at, what is told of each,
/// and what follows the last of them.
pub struct Trail {
    pub searches: Seq<MarkerSearch>,
    pub markers: Seq<LocalPath>,
    pub probes: Seq<MarkerProbe>,
    pub end: MarkerStep,
    pub git_dir: Result<LocalPath, String>,
    pub common: Result<CommonSearch, StoreError>,
    pub rest: CommonTrail,
}

/// What a search that has come to its end comes to.
pub open spec fn anchor_found(anchor: Result<ProjectAnchor, StoreError>) -> Located {
    match anchor {
        Ok(anchor) => Ok(anchor@),
        Err(error) => Err(error@),
    }
}

/// The end of a search asks this file system, and comes to this.
pub open spec fn common_found(
    files: FileTree,
    search: CommonSearch,
    trail: CommonTrail,
    located: Located,
) -> bool {
    &&& call_ensures(CommonSearch::file, (&search,), trail.file)
    &&& tells_common(files, trail.file@, trail.probe)
    &&& call_ensures(CommonSearch::observe, (search, trail.probe), trail.step)
    &&& match trail.step {
        CommonStep::Found(anchor) => located == Ok::<AnchorView, StoreErrorView>(anchor@),
        CommonStep::Failed(error) => located == Err::<AnchorView, StoreErrorView>(error@),
        CommonStep::Resolve(path) => {
            &&& tells_canonical(files, path.target@, trail.canonical)
            &&& call_ensures(CommonPath::resolved, (path, trail.canonical), trail.anchor)
            &&& located == anchor_found(trail.anchor)
        },
    }
}

/// The search asks this file system, one directory after the other.
pub open spec fn climbs(files: FileTree, trail: Trail) -> bool {
    &&& trail.searches.len() > 0
    &&& trail.markers.len() == trail.searches.len()
    &&& trail.probes.len() == trail.searches.len()
    &&& forall|i: int|
        0 <= i < trail.searches.len() ==> call_ensures(
            MarkerSearch::marker,
            (&#[trigger] trail.searches[i],),
            trail.markers[i],
        ) && tells_marker(files, trail.markers[i]@, trail.probes[i])
    &&& forall|i: int|
        0 < i < trail.searches.len() ==> call_ensures(
            MarkerSearch::observe,
            (trail.searches[i - 1], trail.probes[i - 1]),
            MarkerStep::Search(#[trigger] trail.searches[i]),
        )
    &&& call_ensures(
        MarkerSearch::observe,
        (trail.searches.last(), trail.probes.last()),
        trail.end,
    )
}

/// A search from this directory on asks this file system, and comes to this.
pub open spec fn search_finds(
    files: FileTree,
    directory: Seq<u8>,
    trail: Trail,
    located: Located,
) -> bool {
    &&& climbs(files, trail)
    &&& trail.searches[0].search_root@ == directory
    &&& trail.searches[0].worktree_root@ == directory
    &&& match trail.end {
        MarkerStep::Search(_) => false,
        MarkerStep::Found(anchor) => located == Ok::<AnchorView, StoreErrorView>(anchor@),
        MarkerStep::Failed(error) => located == Err::<AnchorView, StoreErrorView>(error@),
        MarkerStep::Common(search) => common_found(files, search, trail.rest, located),
        MarkerStep::Resolve(path) => {
            &&& tells_canonical(files, path.target@, trail.git_dir)
            &&& call_ensures(GitdirPath::resolved, (path, trail.git_dir), trail.common)
            &&& match trail.common {
                Err(error) => located == Err::<AnchorView, StoreErrorView>(error@),
                Ok(search) => common_found(files, search, trail.rest, located),
            }
        },
    }
}

/// The place of the Git marker of the directory with these names.
pub open spec fn marker_place(names: Seq<Seq<u8>>) -> Seq<u8> {
    root_path(names.push(encode_utf8(".git"@)))
}

/// There is no Git marker in a directory on the way from the one with these
/// names up to, but not in, the one with the first `depth` of them.
pub open spec fn unmarked_below(files: FileTree, names: Seq<Seq<u8>>, depth: int) -> bool {
    forall|k: int|
        depth < k <= names.len() ==> (files.nodes)(#[trigger] marker_place(names.take(k)))
            is Nothing
}

/// A search starts in the directory itself, or in the directory that holds the
/// file.
pub proof fn law_search_starts_in_the_directory(
    requested: &LocalPath,
    found: LocalPath,
    names: Seq<Seq<u8>>,
    start: Result<MarkerSearch, StoreError>,
    start_of_file: Result<MarkerSearch, StoreError>,
)
    requires
        plain_names(names),
        found@ == root_path(names),
        call_ensures(resolve_project_anchor, (requested, ProjectProbe::Directory(found)), start),
        call_ensures(resolve_project_anchor, (requested, ProjectProbe::Other(found)), start_of_file),
    ensures
        start matches Ok(search) && search.search_root@ == root_path(names)
            && search.worktree_root@ == root_path(names),
        names.len() > 0 ==> (start_of_file matches Ok(search) && search.search_root@ == root_path(
            names.drop_last(),
        ) && search.worktree_root@ == root_path(names.drop_last())),
{
    law_root_paths(names);
}

proof fn lemma_git_name(name: Seq<char>)
    requires
        name == ".git"@ || name == "commondir"@,
    ensures
        plain_name(encode_utf8(name)),
{
    reveal_strlit(".git");
    reveal_strlit("commondir");
    assert(is_ascii_chars(name));
    is_ascii_chars_encode_utf8(name);
    assert(name.len() >= 4);
    assert forall|i: int| 0 <= i < name.len() implies #[trigger] encode_utf8(name)[i]
        != SEPARATOR by {
        assert(name[i] != '/');
    }
}

proof fn lemma_prefix_plain(names: Seq<Seq<u8>>, k: int)
    requires
        plain_names(names),
        0 <= k <= names.len(),
    ensures
        plain_names(names.take(k)),
{
    assert forall|i: int| 0 <= i < k implies plain_name(#[trigger] names.take(k)[i]) by {
        assert(names.take(k)[i] == names[i]);
    }
}

/// A name behind the path of a directory.
proof fn lemma_place_in(names: Seq<Seq<u8>>, name: Seq<u8>)
    requires
        plain_names(names),
        plain_name(name),
    ensures
        root_path(names.push(name)) == joined(root_path(names), name),
{
    let longer = names.push(name);
    assert(longer.drop_last() =~= names);
    assert forall|i: int| 0 <= i < longer.len() implies plain_name(#[trigger] longer[i]) by {
        if i < names.len() {
            assert(longer[i] == names[i]);
        }
    }
    lemma_root_path_grows(longer);
}

/// The `i`th directory that a search looks at is the `i`th above its start.
proof fn lemma_climb(files: FileTree, names: Seq<Seq<u8>>, trail: Trail, i: int)
    requires
        plain_names(names),
        climbs(files, trail),
        trail.searches[0].search_root@ == root_path(names),
        trail.searches[0].worktree_root@ == root_path(names),
        0 <= i < trail.searches.len(),
    ensures
        i <= names.len(),
        trail.searches[i].search_root@ == root_path(names),
        trail.searches[i].worktree_root@ == root_path(names.take(names.len() - i)),
        trail.markers[i]@ == marker_place(names.take(names.len() - i)),
        tells_marker(files, trail.markers[i]@, trail.probes[i]),
    decreases i,
{
    if i == 0 {
        assert(names.take(names.len() as int) =~= names);
    } else {
        lemma_climb(files, names, trail, i - 1);
        let above = names.take(names.len() - i + 1);
        lemma_prefix_plain(names, names.len() - i + 1);
        law_root_paths(above);
        assert(trail.searches[i] == trail.searches[i]);
        assert(MarkerStep::Search(trail.searches[i])@ is Search);
        assert(above.drop_last() =~= names.take(names.len() - i));
    }
    lemma_prefix_plain(names, names.len() - i);
    lemma_git_name(".git"@);
    lemma_place_in(names.take(names.len() - i), encode_utf8(".git"@));
    assert(call_ensures(MarkerSearch::marker, (&trail.searches[i],), trail.markers[i]));
}

/// A search looks no further than the first directory with a marker, and no
/// less far.
proof fn lemma_climb_ends(
    files: FileTree,
    names: Seq<Seq<u8>>,
    depth: int,
    trail: Trail,
    located: Located,
)
    requires
        plain_names(names),
        0 <= depth <= names.len(),
        search_finds(files, root_path(names), trail, located),
        unmarked_below(files, names, depth),
        depth == 0 || !((files.nodes)(marker_place(names.take(depth))) is Nothing),
    ensures
        trail.searches.len() == names.len() - depth + 1,
{
    let last = trail.searches.len() - 1;
    lemma_climb(files, names, trail, last);
    let here = names.take(names.len() - last);
    if names.len() - last > depth {
        assert((files.nodes)(marker_place(here)) is Nothing);
        lemma_prefix_plain(names, names.len() - last);
        law_root_paths(here);
        assert(trail.end@ is Search);
    }
    if names.len() - last < depth {
        let at = names.len() - depth;
        lemma_climb(files, names, trail, at);
        assert(names.len() - at == depth);
        assert(trail.searches[at + 1] == trail.searches[at + 1]);
        assert(MarkerStep::Search(trail.searches[at + 1])@ is Search);
    }
}

/// A relative path that a Git marker names is taken from the directory that
/// holds the marker, so it does not matter which directory of a worktree a
/// search starts in: it comes to what a search from the root of the worktree
/// comes to.
pub proof fn law_nested_directories_have_one_project(
    files: FileTree,
    names: Seq<Seq<u8>>,
    depth: int,
    nested: Trail,
    from_nested: Located,
    direct: Trail,
    from_root: Located,
)
    requires
        plain_names(names),
        0 <= depth <= names.len(),
        unmarked_below(files, names, depth),
        !((files.nodes)(marker_place(names.take(depth))) is Nothing),
        search_finds(files, root_path(names), nested, from_nested),
        search_finds(files, root_path(names.take(depth)), direct, from_root),
    ensures
        from_nested == from_root,
{
    let root = names.take(depth);
    lemma_prefix_plain(names, depth);
    lemma_climb_ends(files, names, depth, nested, from_nested);
    assert(root.take(depth) =~= root);
    assert forall|k: int| depth < k <= root.len() implies (files.nodes)(
        #[trigger] marker_place(root.take(k)),
    ) is Nothing by {}
    lemma_climb_ends(files, root, depth, direct, from_root);
    lemma_climb(files, names, nested, nested.searches.len() - 1);
    lemma_climb(files, root, direct, 0);
}

/// A path that Git wrote down, in a file of this directory: from the root on,
/// or from the directory on.
pub open spec fn taken_from(names: Seq<Seq<u8>>, raw: Seq<u8>) -> Seq<u8> {
    if raw.len() > 0 && raw[0] == 47u8 {
        raw
    } else if names.len() == 0 {
        seq![47u8] + raw
    } else {
        root_path(names) + seq![47u8] + raw
    }
}

/// A text without white space at its ends, and on one line.
pub open spec fn tidy(raw: Seq<char>) -> bool {
    &&& raw.len() > 0
    &&& !white_space(raw[0])
    &&& !white_space(raw[raw.len() - 1])
    &&& forall|i: int| 0 <= i < raw.len() ==> #[trigger] raw[i] != '\n'
}

/// A text of white space.
pub open spec fn spaces(text: Seq<char>) -> bool {
    forall|i: int| 0 <= i < text.len() ==> white_space(#[trigger] text[i])
}

/// The text of a Git marker that names this path.
pub open spec fn marker_text(gap: Seq<char>, raw: Seq<char>, rest: Seq<char>) -> Seq<char> {
    "gitdir:"@ + gap + raw + rest
}

/// The Git directory of the worktree with these names is the one with those:
/// its marker is that directory, or a file that names it.
pub open spec fn git_dir_is(files: FileTree, names: Seq<Seq<u8>>, git: Seq<Seq<u8>>) -> bool {
    ||| (files.nodes)(marker_place(names)) is Directory && (files.canonical)(marker_place(names))
        == Ok::<Seq<u8>, Seq<char>>(root_path(git))
    ||| (files.nodes)(marker_place(names)) is File && exists|
        gap: Seq<char>,
        raw: Seq<char>,
        rest: Seq<char>,
    |
        (files.readings)(marker_place(names)) == Some(
            Ok::<Seq<char>, Seq<char>>(#[trigger] marker_text(gap, raw, rest)),
        ) && tidy(raw) && spaces(gap) && !gap.contains('\n') && (rest.len() == 0 || rest[0] == '\n')
            && (files.canonical)(taken_from(names, encode_utf8(raw))) == Ok::<Seq<u8>, Seq<char>>(
            root_path(git),
        )
}

/// The place of the file that names the common directory.
pub open spec fn common_place(git: Seq<Seq<u8>>) -> Seq<u8> {
    root_path(git.push(encode_utf8("commondir"@)))
}

/// The common directory of a Git directory is the one with these names: it is
/// the Git directory itself, or a file in there names it.
pub open spec fn common_dir_is(files: FileTree, git: Seq<Seq<u8>>, common: Seq<Seq<u8>>) -> bool {
    ||| (files.readings)(common_place(git)) is None && common == git
    ||| exists|before: Seq<char>, raw: Seq<char>, after: Seq<char>|
        (files.readings)(common_place(git)) == Some(
            Ok::<Seq<char>, Seq<char>>(#[trigger] (before + raw + after)),
        ) && tidy(raw) && spaces(before) && spaces(after) && (files.canonical)(
            taken_from(git, encode_utf8(raw)),
        ) == Ok::<Seq<u8>, Seq<char>>(root_path(common))
}

proof fn lemma_trimmed_spaces(before: Seq<char>, raw: Seq<char>, after: Seq<char>)
    requires
        raw.len() > 0,
        !white_space(raw[0]),
        !white_space(raw[raw.len() - 1]),
        spaces(before),
        spaces(after),
    ensures
        trimmed(before + raw + after) == raw,
    decreases before.len() + after.len(),
{
    let whole = before + raw + after;
    if before.len() > 0 {
        assert(whole[0] == before[0]);
        assert(whole.drop_first() =~= before.drop_first() + raw + after);
        assert(spaces(before.drop_first())) by {
            assert forall|i: int| 0 <= i < before.len() - 1 implies white_space(
                #[trigger] before.drop_first()[i],
            ) by {
                assert(before.drop_first()[i] == before[i + 1]);
            }
        }
        lemma_trimmed_spaces(before.drop_first(), raw, after);
    } else {
        assert(whole =~= raw + after);
        assert(whole[0] == raw[0]);
        assert(trimmed_start(whole) == whole);
        lemma_trimmed_end_spaces(raw, after);
    }
}

proof fn lemma_trimmed_end_spaces(raw: Seq<char>, after: Seq<char>)
    requires
        raw.len() > 0,
        !white_space(raw[raw.len() - 1]),
        spaces(after),
    ensures
        trimmed_end(raw + after) == raw,
    decreases after.len(),
{
    let whole = raw + after;
    if after.len() > 0 {
        assert(whole.last() == after[after.len() - 1]);
        assert(whole.drop_last() =~= raw + after.drop_last());
        assert forall|i: int| 0 <= i < after.len() - 1 implies white_space(
            #[trigger] after.drop_last()[i],
        ) by {
            assert(after.drop_last()[i] == after[i]);
        }
        lemma_trimmed_end_spaces(raw, after.drop_last());
    } else {
        assert(whole =~= raw);
    }
}

proof fn lemma_line_end(line: Seq<char>, rest: Seq<char>)
    requires
        forall|i: int| 0 <= i < line.len() ==> #[trigger] line[i] != '\n',
        rest.len() == 0 || rest[0] == '\n',
    ensures
        line_end(line + rest) == line.len(),
    decreases line.len(),
{
    let whole = line + rest;
    if line.len() > 0 {
        assert(whole[0] == line[0]);
        assert(whole.drop_first() =~= line.drop_first() + rest);
        assert forall|i: int| 0 <= i < line.len() - 1 implies #[trigger] line.drop_first()[i]
            != '\n' by {
            assert(line.drop_first()[i] == line[i + 1]);
        }
        lemma_line_end(line.drop_first(), rest);
    } else {
        assert(whole =~= rest);
    }
}

/// The text of a Git marker names the path that stands behind `gitdir:` on its
/// first line, without the white space around it.
pub proof fn law_marker_names_its_path(gap: Seq<char>, raw: Seq<char>, rest: Seq<char>)
    requires
        tidy(raw),
        spaces(gap),
        !gap.contains('\n'),
        rest.len() == 0 || rest[0] == '\n',
    ensures
        gitdir_named(marker_text(gap, raw, rest)) == Some(raw),
{
    reveal_strlit("gitdir:");
    let head = "gitdir:"@;
    let line = head + gap + raw;
    let text = marker_text(gap, raw, rest);
    assert(head[0] == 'g');
    assert forall|i: int| 0 <= i < line.len() implies #[trigger] line[i] != '\n' by {
        if head.len() <= i < head.len() + gap.len() {
            assert(line[i] == gap[i - head.len()]);
            assert(gap.contains(line[i]));
        } else if i >= head.len() + gap.len() {
            assert(line[i] == raw[i - head.len() - gap.len()]);
        }
    }
    assert(text =~= line + rest);
    lemma_line_end(line, rest);
    assert(text.take(line.len() as int) =~= line);
    assert(line[0] == 'g');
    assert(line[line.len() - 1] == raw[raw.len() - 1]);
    lemma_trimmed_spaces(seq![], line, seq![]);
    assert(seq![] + line + seq![] =~= line);
    assert(first_filled_line(text) == Some(line));
    assert(head.is_prefix_of(line)) by {
        assert(line.take(head.len() as int) =~= head);
    }
    lemma_trimmed_spaces(gap, raw, seq![]);
    assert(line.skip(head.len() as int) =~= gap + raw + seq![]);
}

/// A path that Git wrote down is joined to the directory that it is taken
/// from.
proof fn lemma_taken_from(names: Seq<Seq<u8>>, raw: Seq<u8>)
    requires
        plain_names(names),
    ensures
        joined(root_path(names), raw) == taken_from(names, raw),
{
    let base = root_path(names);
    if names.len() > 0 {
        law_root_paths(names);
        lemma_root_path_grows(names);
        let last = names.last();
        assert(base.last() == last[last.len() - 1]);
        assert(last[last.len() - 1] != SEPARATOR);
    } else {
        assert(base =~= seq![47u8]);
    }
    assert(joined(base, raw) =~= taken_from(names, raw));
}

/// The anchor of the worktree with these names, by its common directory: where
/// that is called `.git`, the directory around it is the project and stands for
/// all its worktrees; otherwise the worktree is the project, and the common
/// directory stands for it.
pub open spec fn worktree_anchor(names: Seq<Seq<u8>>, common: Seq<Seq<u8>>) -> AnchorView {
    if common.len() > 0 && common.last() == encode_utf8(".git"@) {
        AnchorView {
            worktree_root: root_path(names),
            project_root: root_path(common.drop_last()),
            state_identity: root_path(common.drop_last()),
        }
    } else {
        AnchorView {
            worktree_root: root_path(names),
            project_root: root_path(names),
            state_identity: root_path(common),
        }
    }
}

proof fn lemma_common_found(
    files: FileTree,
    names: Seq<Seq<u8>>,
    git: Seq<Seq<u8>>,
    common: Seq<Seq<u8>>,
    search: CommonSearch,
    trail: CommonTrail,
    located: Located,
)
    requires
        plain_names(git),
        plain_names(common),
        search.worktree_root@ == root_path(names),
        search.git_dir@ == root_path(git),
        common_dir_is(files, git, common),
        common_found(files, search, trail, located),
    ensures
        located == Ok::<AnchorView, StoreErrorView>(worktree_anchor(names, common)),
{
    lemma_git_name("commondir"@);
    lemma_place_in(git, encode_utf8("commondir"@));
    assert(trail.file@ == common_place(git));
    law_root_paths(git);
    law_root_paths(common);
    if !((files.readings)(common_place(git)) is None) {
        let (before, raw, after) = choose|before: Seq<char>, raw: Seq<char>, after: Seq<char>|
            (files.readings)(common_place(git)) == Some(
                Ok::<Seq<char>, Seq<char>>(#[trigger] (before + raw + after)),
            ) && tidy(raw) && spaces(before) && spaces(after) && (files.canonical)(
                taken_from(git, encode_utf8(raw)),
            ) == Ok::<Seq<u8>, Seq<char>>(root_path(common));
        lemma_trimmed_spaces(before, raw, after);
        lemma_taken_from(git, encode_utf8(raw));
        assert(trail.step is Resolve);
    }
}

/// What a search in a repository comes to: the nearest directory with a Git
/// marker is the worktree, and its common directory says which project it
/// belongs to.
pub proof fn law_worktree_is_found(
    files: FileTree,
    names: Seq<Seq<u8>>,
    depth: int,
    git: Seq<Seq<u8>>,
    common: Seq<Seq<u8>>,
    trail: Trail,
    located: Located,
)
    requires
        plain_names(names),
        plain_names(git),
        plain_names(common),
        0 <= depth <= names.len(),
        unmarked_below(files, names, depth),
        git_dir_is(files, names.take(depth), git),
        common_dir_is(files, git, common),
        search_finds(files, root_path(names), trail, located),
    ensures
        located == Ok::<AnchorView, StoreErrorView>(worktree_anchor(names.take(depth), common)),
{
    let root = names.take(depth);
    lemma_prefix_plain(names, depth);
    lemma_climb_ends(files, names, depth, trail, located);
    lemma_climb(files, names, trail, trail.searches.len() - 1);
    if (files.nodes)(marker_place(root)) is Directory {
        assert(trail.end@ is Common);
        assert(trail.end is Common);
        lemma_common_found(
            files,
            root,
            git,
            common,
            trail.end->Common_0,
            trail.rest,
            located,
        );
    } else {
        let (gap, raw, rest) = choose|gap: Seq<char>, raw: Seq<char>, rest: Seq<char>|
            (files.readings)(marker_place(root)) == Some(
                Ok::<Seq<char>, Seq<char>>(#[trigger] marker_text(gap, raw, rest)),
            ) && tidy(raw) && spaces(gap) && !gap.contains('\n') && (rest.len() == 0 || rest[0]
                == '\n') && (files.canonical)(taken_from(root, encode_utf8(raw))) == Ok::<
                Seq<u8>,
                Seq<char>,
            >(root_path(git));
        law_marker_names_its_path(gap, raw, rest);
        lemma_taken_from(root, encode_utf8(raw));
        assert(trail.end@ is Resolve);
        assert(trail.end is Resolve);
        lemma_common_found(
            files,
            root,
            git,
            common,
            trail.common->Ok_0,
            trail.rest,
            located,
        );
    }
}

/// A directory outside every repository is a project of its own.
pub proof fn law_plain_directory_is_its_own_project(
    files: FileTree,
    names: Seq<Seq<u8>>,
    trail: Trail,
    located: Located,
)
    requires
        plain_names(names),
        unmarked_below(files, names, -1),
        search_finds(files, root_path(names), trail, located),
    ensures
        located == Ok::<AnchorView, StoreErrorView>(
            AnchorView {
                project_root: root_path(names),
                worktree_root: root_path(names),
                state_identity: root_path(names),
            },
        ),
{
    lemma_climb_ends(files, names, 0, trail, located);
    lemma_climb(files, names, trail, trail.searches.len() - 1);
    let top = names.take(0);
    assert((files.nodes)(marker_place(top)) is Nothing);
    assert(plain_names(top));
    law_root_paths(top);
    assert(trail.end@ is Found);
}

/// Two worktrees of one repository belong to one project, whichever of their
/// directories the searches start in: their states are one. Where the common
/// directory is called `.git`, that is the directory around it.
pub proof fn law_linked_worktrees_are_one_project(
    files: FileTree,
    first: Seq<Seq<u8>>,
    first_depth: int,
    first_git: Seq<Seq<u8>>,
    first_trail: Trail,
    first_located: Located,
    second: Seq<Seq<u8>>,
    second_depth: int,
    second_git: Seq<Seq<u8>>,
    second_trail: Trail,
    second_located: Located,
    common: Seq<Seq<u8>>,
)
    requires
        plain_names(first),
        plain_names(second),
        plain_names(first_git),
        plain_names(second_git),
        plain_names(common),
        0 <= first_depth <= first.len(),
        0 <= second_depth <= second.len(),
        unmarked_below(files, first, first_depth),
        unmarked_below(files, second, second_depth),
        git_dir_is(files, first.take(first_depth), first_git),
        git_dir_is(files, second.take(second_depth), second_git),
        common_dir_is(files, first_git, common),
        common_dir_is(files, second_git, common),
        search_finds(files, root_path(first), first_trail, first_located),
        search_finds(files, root_path(second), second_trail, second_located),
    ensures
        first_located matches Ok(one) && (second_located matches Ok(two) && one.state_identity
            == two.state_identity && one.worktree_root == root_path(first.take(first_depth))
            && two.worktree_root == root_path(second.take(second_depth)) && (common.len() > 0
            && common.last() == encode_utf8(".git"@) ==> one.project_root == two.project_root
            && one.state_identity == root_path(common.drop_last()))),
{
    law_worktree_is_found(
        files,
        first,
        first_depth,
        first_git,
        common,
        first_trail,
        first_located,
    );
    law_worktree_is_found(
        files,
        second,
        second_depth,
        second_git,
        common,
        second_trail,
        second_located,
    );
}

/// A file at the place of a Git marker whose first line is another than
/// `gitdir:` and a path is no marker, and the client is told so.
pub proof fn law_bad_markers_are_refused(
    files: FileTree,
    names: Seq<Seq<u8>>,
    depth: int,
    line: Seq<char>,
    rest: Seq<char>,
    trail: Trail,
    located: Located,
)
    requires
        plain_names(names),
        0 <= depth <= names.len(),
        unmarked_below(files, names, depth),
        (files.nodes)(marker_place(names.take(depth))) is File,
        (files.readings)(marker_place(names.take(depth))) == Some(
            Ok::<Seq<char>, Seq<char>>(line + rest),
        ),
        tidy(line),
        rest.len() == 0 || rest[0] == '\n',
        !"gitdir:"@.is_prefix_of(line),
        search_finds(files, root_path(names), trail, located),
    ensures
        located == Err::<AnchorView, StoreErrorView>(
            StoreErrorView::MalformedGitIndirection(
                lossy_text(marker_place(names.take(depth))),
                "expected `gitdir: <path>`"@,
            ),
        ),
{
    let text = line + rest;
    lemma_climb_ends(files, names, depth, trail, located);
    lemma_climb(files, names, trail, trail.searches.len() - 1);
    lemma_line_end(line, rest);
    assert(text.take(line.len() as int) =~= line);
    lemma_trimmed_spaces(seq![], line, seq![]);
    assert(seq![] + line + seq![] =~= line);
    assert(first_filled_line(text) == Some(line));
    lemma_prefix_plain(names, depth);
    lemma_git_name(".git"@);
    lemma_place_in(names.take(depth), encode_utf8(".git"@));
    assert(trail.end@ is Failed);
}

/// A path that is not there has no project, and the client is told which.
pub proof fn law_missing_paths_have_no_project(
    requested: &LocalPath,
    detail: String,
    missing: Result<MarkerSearch, StoreError>,
    unresolved: Result<MarkerSearch, StoreError>,
)
    requires
        call_ensures(resolve_project_anchor, (requested, ProjectProbe::Missing), missing),
        call_ensures(
            resolve_project_anchor,
            (requested, ProjectProbe::Unresolved(detail)),
            unresolved,
        ),
    ensures
        missing matches Err(error) && error@ == StoreErrorView::MissingProjectPath(
            lossy_text(requested@),
        ),
        unresolved matches Err(error) && error@ == StoreErrorView::Io(detail@),
{
}

} // verus!
