//! Issues: their names, where they are kept, and what becomes of them.

use std::collections::BTreeMap;

use jira_at_home::anchor::{
    CommonProbe, CommonStep, MarkerProbe, MarkerStep, ProjectAnchor, ProjectProbe,
    resolve_git_path, resolve_project_anchor,
};
use jira_at_home::issue::{IssueBody, IssueCategory, IssueKey, IssueSlug, StoreError};
use jira_at_home::migration::{
    IssueMove, LegacyProbe, MigrationStep, TargetProbe, category_move, legacy_entry,
    migrate_legacy_issue, migrate_legacy_worktree_state,
};
use jira_at_home::path::LocalPath;
use jira_at_home::service::relative_issue_path;
use jira_at_home::store::{
    DeleteProbe, EntryProbe, IssueStore, ProjectLayout, ReadProbe, Timestamp, external_state_path,
    format_timestamp, state_base, state_root_of, timestamp_or_seconds,
};

fn path(text: &str) -> LocalPath {
    LocalPath::from_text(text)
}

fn message<T>(result: Result<T, StoreError>) -> String {
    match result {
        Ok(_) => panic!("an error is expected"),
        Err(error) => error.message(),
    }
}

fn key(category: IssueCategory, slug: &str) -> IssueKey {
    IssueKey::new(category, IssueSlug::parse(slug.to_owned()).ok().unwrap())
}

fn plain_anchor(root: &str) -> ProjectAnchor {
    ProjectAnchor {
        project_root: path(root),
        worktree_root: path(root),
        state_identity: path(root),
    }
}

fn store() -> IssueStore {
    IssueStore::bind(ProjectLayout::bind(path("/w"), plain_anchor("/w"), &path("/s")))
}

fn at(seconds: i64) -> Timestamp {
    Timestamp { seconds, nanos: 0 }
}

fn file(text: &str, seconds: i64) -> EntryProbe {
    EntryProbe::Found { path: path(text), is_file: true, modified: Ok(at(seconds)) }
}

#[test]
fn categories_have_names() {
    for category in IssueCategory::all() {
        let name = category.as_str();
        assert_eq!(IssueCategory::from_dir_name(name), Some(category));
        assert_eq!(IssueCategory::parse(name.to_owned()).ok(), Some(category));
    }
    assert_eq!(IssueCategory::all().map(|category| category.as_str()), ["feature", "bug"]);
    assert_eq!(IssueCategory::from_dir_name("Feature"), None);
    assert_eq!(
        message(IssueCategory::parse("Bug".to_owned())),
        "invalid issue category `Bug`; expected `feature` or `bug`"
    );
}

#[test]
fn slugs_are_plain() {
    for slug in ["a", "0", "feral-machine", "a-1-b"] {
        assert_eq!(IssueSlug::parse(slug.to_owned()).ok().unwrap().as_str(), slug);
    }
    let cases = [
        ("", "slug must not be empty"),
        ("-a", "slug must not start or end with `-`"),
        ("a-", "slug must not start or end with `-`"),
        ("-", "slug must not start or end with `-`"),
        ("a_b", "slug must use lowercase ascii letters, digits, and `-` only"),
        ("\u{e9}", "slug must use lowercase ascii letters, digits, and `-` only"),
        ("a--b", "slug must not contain empty `-` segments"),
        ("a--B", "slug must use lowercase ascii letters, digits, and `-` only"),
    ];
    for (slug, detail) in cases {
        assert_eq!(
            message(IssueSlug::parse(slug.to_owned())),
            format!("invalid issue slug: {detail}"),
            "{slug}"
        );
    }
}

#[test]
fn bodies_are_not_blank() {
    let body = IssueBody::parse(" x\n".to_owned()).ok().unwrap();
    assert_eq!(body.into_inner(), " x\n");
    assert_eq!(message(IssueBody::parse("\n\t ".to_owned())), "issue body must not be blank");
}

#[test]
fn file_names_tell_the_slug() {
    let found = IssueKey::from_issue_path(&path("/x/a-b.md"), IssueCategory::Bug).ok().unwrap();
    assert_eq!(found.text(), "bug/a-b");
    for wrong in ["/x/a.txt", "/x/a", "/x/.md"] {
        let told = message(IssueSlug::from_issue_path(&path(wrong)));
        assert!(told.starts_with(&format!("malformed issue entry `{wrong}`: ")), "{told}");
    }
    let unreadable = LocalPath::from_bytes(vec![47, 255, 46, 109, 100]);
    assert_eq!(
        message(IssueSlug::from_issue_path(&unreadable)),
        "malformed issue entry `/\u{fffd}.md`: issue file name must be valid UTF-8"
    );
    assert_eq!(
        message(IssueSlug::from_issue_path(&path("/x/A.md"))),
        "invalid issue slug: slug must use lowercase ascii letters, digits, and `-` only"
    );
}

#[test]
fn a_directory_without_git_stands_for_itself() {
    let requested = path("/w/a");
    let mut search =
        resolve_project_anchor(&requested, ProjectProbe::Directory(path("/w/a"))).ok().unwrap();
    let mut looked = Vec::new();
    let anchor = loop {
        looked.push(search.marker().display());
        match search.observe(MarkerProbe::Absent) {
            MarkerStep::Search(next) => search = next,
            MarkerStep::Found(anchor) => break anchor,
            _ => panic!("there is no marker"),
        }
    };
    assert_eq!(looked, vec!["/w/a/.git", "/w/.git", "/.git"]);
    assert_eq!(anchor.project_root.display(), "/w/a");
    assert_eq!(anchor.state_identity.display(), "/w/a");
}

#[test]
fn a_file_is_searched_from_its_directory() {
    let search =
        resolve_project_anchor(&path("x"), ProjectProbe::Other(path("/w/a/f.rs"))).ok().unwrap();
    assert_eq!(search.marker().display(), "/w/a/.git");
    assert_eq!(
        message(resolve_project_anchor(&path("/gone"), ProjectProbe::Missing)),
        "project path `/gone` does not exist"
    );
    assert_eq!(
        message(resolve_project_anchor(
            &path("/x"),
            ProjectProbe::Unresolved("no access".to_owned())
        )),
        "no access"
    );
    assert_eq!(
        message(resolve_project_anchor(&path("/"), ProjectProbe::Other(path("/")))),
        "project path `/` does not resolve to a directory"
    );
}

#[test]
fn linked_worktrees_share_the_state_of_the_main_one() {
    let linked = resolve_project_anchor(&path("/l"), ProjectProbe::Directory(path("/l")));
    let gitdir = match linked
        .ok()
        .unwrap()
        .observe(MarkerProbe::File(Ok("gitdir: /m/.git/worktrees/l\n".to_owned())))
    {
        MarkerStep::Resolve(gitdir) => gitdir,
        _ => panic!("the marker names a directory"),
    };
    assert_eq!(gitdir.target.display(), "/m/.git/worktrees/l");
    let common = gitdir.resolved(Ok(path("/m/.git/worktrees/l"))).ok().unwrap();
    assert_eq!(common.file().display(), "/m/.git/worktrees/l/commondir");
    let target = match common.observe(CommonProbe::Text("../..\n".to_owned())) {
        CommonStep::Resolve(target) => target,
        _ => panic!("the file names a directory"),
    };
    assert_eq!(target.target.display(), "/m/.git/worktrees/l/../..");
    let anchor = target.resolved(Ok(path("/m/.git"))).ok().unwrap();
    assert_eq!(anchor.project_root.display(), "/m");
    assert_eq!(anchor.worktree_root.display(), "/l");
    assert_eq!(anchor.state_identity.display(), "/m");

    let main = resolve_project_anchor(&path("/m"), ProjectProbe::Directory(path("/m")));
    let common = match main.ok().unwrap().observe(MarkerProbe::Directory(Ok(path("/m/.git")))) {
        MarkerStep::Common(common) => common,
        _ => panic!("the marker is a directory"),
    };
    match common.observe(CommonProbe::Missing) {
        CommonStep::Found(anchor) => assert_eq!(anchor.state_identity.display(), "/m"),
        _ => panic!("the directory is its own common directory"),
    }
}

#[test]
fn a_common_directory_of_another_name_is_the_identity() {
    let linked = resolve_project_anchor(&path("/l"), ProjectProbe::Directory(path("/l")));
    let gitdir = match linked
        .ok()
        .unwrap()
        .observe(MarkerProbe::File(Ok("gitdir: /bare.git/worktrees/l".to_owned())))
    {
        MarkerStep::Resolve(gitdir) => gitdir,
        _ => panic!("the marker names a directory"),
    };
    let common = gitdir.resolved(Ok(path("/bare.git/worktrees/l"))).ok().unwrap();
    let target = match common.observe(CommonProbe::Text("../..".to_owned())) {
        CommonStep::Resolve(target) => target,
        _ => panic!("the file names a directory"),
    };
    let anchor = target.resolved(Ok(path("/bare.git"))).ok().unwrap();
    assert_eq!(anchor.project_root.display(), "/l");
    assert_eq!(anchor.state_identity.display(), "/bare.git");
}

#[test]
fn git_files_may_be_wrong() {
    let cases = ["", "gitdir: ", "dir: x"];
    for text in cases {
        let search = resolve_project_anchor(&path("/l"), ProjectProbe::Directory(path("/l")));
        match search.ok().unwrap().observe(MarkerProbe::File(Ok(text.to_owned()))) {
            MarkerStep::Failed(error) => {
                let told = error.message();
                assert!(told.starts_with("malformed git indirection `/l/.git`: "), "{told}");
            },
            _ => panic!("the file is wrong"),
        }
    }
    let search = resolve_project_anchor(&path("/l"), ProjectProbe::Directory(path("/l")));
    match search.ok().unwrap().observe(MarkerProbe::File(Err("no access".to_owned()))) {
        MarkerStep::Failed(error) => assert_eq!(error.message(), "no access"),
        _ => panic!("the file cannot be read"),
    }
    assert_eq!(resolve_git_path(&path("/a"), "b").display(), "/a/b");
    assert_eq!(resolve_git_path(&path("/a"), "/b").display(), "/b");
}

#[test]
fn state_paths_follow_the_project() {
    let base = state_base(None, path("/tmp"));
    assert_eq!(base.display(), "/tmp");
    assert_eq!(state_base(Some(path("/st")), path("/tmp")).display(), "/st");
    assert_eq!(
        external_state_path(&path("/st"), &path("/home/me/x")).display(),
        "/st/jira_at_home/projects/home/me/x"
    );
    let layout = ProjectLayout::bind(path("/w/q"), plain_anchor("/w"), &path("/s"));
    assert_eq!(
        layout.directories().iter().map(LocalPath::display).collect::<Vec<_>>(),
        vec![
            "/s/jira_at_home/projects/w/issues",
            "/s/jira_at_home/projects/w/issues/feature",
            "/s/jira_at_home/projects/w/issues/bug",
            "/s/jira_at_home/projects/w/mcp"
        ]
    );
    let linked = ProjectAnchor {
        project_root: path("/l/q"),
        worktree_root: path("/l"),
        state_identity: path("/w"),
    };
    assert_eq!(state_root_of(&path("/s"), &linked).display(), "/s/jira_at_home/projects/w");
    let shared = ProjectLayout::bind(path("/l/q"), linked, &path("/s"));
    assert_eq!(shared.state_root.display(), layout.state_root.display());
    assert_eq!(
        layout.issue_category_root(IssueCategory::Bug).display(),
        "/s/jira_at_home/projects/w/issues/bug"
    );
    assert_eq!(
        layout.issue_path(&key(IssueCategory::Feature, "a")).display(),
        "/s/jira_at_home/projects/w/issues/feature/a.md"
    );
    assert_eq!(
        relative_issue_path(&path("/s/issues/bug/a.md"), &path("/s")),
        "issues/bug/a.md"
    );
    assert_eq!(relative_issue_path(&path("/t/a.md"), &path("/s")), "/t/a.md");
}

#[test]
fn projects_keep_their_states_apart() {
    let base = path("/st");
    let places: Vec<String> = ["/a/b", "/a", "/b", "/a-b", "/"]
        .iter()
        .map(|root| external_state_path(&base, &path(root)).display())
        .collect();
    for (at, place) in places.iter().enumerate() {
        assert!(place.starts_with("/st/jira_at_home/projects"));
        assert!(!places[at + 1..].contains(place));
    }
}

#[test]
fn moments_are_written_in_utc() {
    assert_eq!(format_timestamp(at(0)), "1970-01-01T00:00:00Z");
    assert_eq!(
        format_timestamp(Timestamp { seconds: 1700000000, nanos: 500000000 }),
        "2023-11-14T22:13:20.5Z"
    );
    assert_eq!(format_timestamp(at(-62167219200)), "0000-01-01T00:00:00Z");
    assert_eq!(format_timestamp(at(-62167219201)), "-62167219201");
    assert_eq!(format_timestamp(at(253402300799)), "9999-12-31T23:59:59Z");
    assert_eq!(format_timestamp(at(253402300800)), "253402300800");
    assert_eq!(timestamp_or_seconds(None, -3), "-3");
}

#[test]
fn saving_tells_what_was_written() {
    let body = IssueBody::parse("h\u{e9}".to_owned()).ok().unwrap();
    let plan = store().save(key(IssueCategory::Bug, "a"), body);
    assert_eq!(plan.path.display(), "/s/jira_at_home/projects/w/issues/bug/a.md");
    assert_eq!(plan.contents(), "h\u{e9}".as_bytes());
    let receipt = plan.finish(false, Ok(at(5))).ok().unwrap();
    assert!(receipt.created);
    assert_eq!(receipt.bytes, 3);
    assert_eq!(receipt.updated_at.seconds, 5);

    let body = IssueBody::parse("x".to_owned()).ok().unwrap();
    let plan = store().save(key(IssueCategory::Bug, "a"), body);
    assert_eq!(message(plan.finish(true, Err("disk is full".to_owned()))), "disk is full");
}

#[test]
fn listing_sorts_features_before_bugs() {
    let issues = store()
        .list(
            Ok(vec![file("/s/jira_at_home/projects/w/issues/feature/b.md", 1), file("/s/jira_at_home/projects/w/issues/feature/a.md", 2)]),
            Ok(vec![file("/s/jira_at_home/projects/w/issues/bug/a.md", 3)]),
        )
        .ok()
        .unwrap();
    let keys: Vec<String> = issues.iter().map(|issue| issue.key.text()).collect();
    assert_eq!(keys, vec!["feature/a", "feature/b", "bug/a"]);
    assert_eq!(issues[0].updated_at.seconds, 2);
    let status = store().status(Ok(vec![file("/a.md", 1)]), Ok(vec![])).ok().unwrap();
    assert_eq!(status.issue_count, 1);
}

#[test]
fn listing_refuses_what_is_no_issue() {
    let directory = EntryProbe::Found {
        path: path("/s/jira_at_home/projects/w/issues/bug/x"),
        is_file: false,
        modified: Ok(at(1)),
    };
    assert_eq!(
        message(store().list(Ok(vec![]), Ok(vec![file("/s/jira_at_home/projects/w/issues/bug/a.md", 1), directory]))),
        "malformed issue entry `/s/jira_at_home/projects/w/issues/bug/x`: issue category directory may contain only `.md` files"
    );
    assert_eq!(
        message(store().list(Err("first".to_owned()), Err("second".to_owned()))),
        "first"
    );
    assert_eq!(
        message(store().list(Ok(vec![]), Ok(vec![EntryProbe::Failed("entry".to_owned())]))),
        "entry"
    );
    let undated = EntryProbe::Found {
        path: path("/s/jira_at_home/projects/w/issues/bug/x.md"),
        is_file: true,
        modified: Err("no time".to_owned()),
    };
    assert_eq!(message(store().list(Ok(vec![undated]), Ok(vec![]))), "no time");
}

#[test]
fn reading_and_deleting_need_the_file() {
    let record = store()
        .read(
            key(IssueCategory::Feature, "a"),
            ReadProbe::Text { body: "\u{20ac}".to_owned(), modified: Ok(at(8)) },
        )
        .ok()
        .unwrap();
    assert_eq!(record.body, "\u{20ac}");
    assert_eq!(record.bytes, 3);
    assert_eq!(record.path.display(), "/s/jira_at_home/projects/w/issues/feature/a.md");
    assert_eq!(
        message(store().read(key(IssueCategory::Feature, "a"), ReadProbe::Missing)),
        "issue `feature/a` does not exist"
    );
    assert_eq!(
        message(store().read(
            key(IssueCategory::Feature, "a"),
            ReadProbe::Failed("no access".to_owned())
        )),
        "no access"
    );
    assert_eq!(
        message(store().delete(key(IssueCategory::Bug, "a"), DeleteProbe::Missing)),
        "issue `bug/a` does not exist"
    );
    assert_eq!(
        message(store().delete(key(IssueCategory::Bug, "a"), DeleteProbe::Failed("io".to_owned()))),
        "io"
    );
    let plan = store().delete(key(IssueCategory::Bug, "a"), DeleteProbe::Found(12)).ok().unwrap();
    assert_eq!(plan.path.display(), "/s/jira_at_home/projects/w/issues/bug/a.md");
    let receipt = plan.finish(Ok(at(4))).ok().unwrap();
    assert_eq!((receipt.bytes, receipt.deleted_at.seconds), (12, 4));
    let plan = store().delete(key(IssueCategory::Bug, "a"), DeleteProbe::Found(12)).ok().unwrap();
    assert_eq!(message(plan.finish(Err("busy".to_owned()))), "busy");
    assert_eq!(
        StoreError::IssueTooLarge("bug/a".to_owned(), 7).message(),
        "issue `bug/a` is too large for this platform (7 bytes)"
    );
}

#[test]
fn issues_of_a_linked_worktree_move() {
    let anchor = ProjectAnchor {
        project_root: path("/l"),
        worktree_root: path("/l"),
        state_identity: path("/m"),
    };
    let state_dir = path("/st");
    let shared = external_state_path(&state_dir, &anchor.state_identity);
    let legacy = migrate_legacy_worktree_state(&anchor, &state_dir, &shared).unwrap();
    assert_eq!(legacy.display(), "/st/jira_at_home/projects/l");
    assert!(
        migrate_legacy_worktree_state(
            &plain_anchor("/m"),
            &state_dir,
            &external_state_path(&state_dir, &path("/m"))
        )
        .is_none()
    );
    let directories = category_move(IssueCategory::Bug, &legacy, &shared);
    assert_eq!(directories.source.display(), "/st/jira_at_home/projects/l/issues/bug");
    assert_eq!(directories.target.display(), "/st/jira_at_home/projects/m/issues/bug");

    let entry = LegacyProbe::Found { path: directories.source.join("a.md"), is_file: true };
    let issue = legacy_entry(IssueCategory::Bug, &shared, entry).ok().unwrap().unwrap();
    assert_eq!(issue.target.display(), "/st/jira_at_home/projects/m/issues/bug/a.md");
    let entry = LegacyProbe::Found { path: directories.source.join("x"), is_file: false };
    assert!(legacy_entry(IssueCategory::Bug, &shared, entry).ok().unwrap().is_none());
    let entry = LegacyProbe::Failed("entry".to_owned());
    assert_eq!(message(legacy_entry(IssueCategory::Bug, &shared, entry)), "entry");
}

#[test]
fn a_move_never_overwrites() {
    let issue = IssueMove { source: path("/o/a.md"), target: path("/n/a.md") };
    assert!(matches!(migrate_legacy_issue(&issue, TargetProbe::Absent), MigrationStep::Rename));
    let same = TargetProbe::Present { source: Ok(b"x".to_vec()), target: Ok(b"x".to_vec()) };
    assert!(matches!(migrate_legacy_issue(&issue, same), MigrationStep::RemoveSource));
    let other = TargetProbe::Present { source: Ok(b"x".to_vec()), target: Ok(b"y".to_vec()) };
    match migrate_legacy_issue(&issue, other) {
        MigrationStep::Failed(error) => assert_eq!(
            error.message(),
            "cannot migrate legacy worktree issue `/o/a.md` to `/n/a.md` because both exist with different bodies"
        ),
        _ => panic!("the issues differ"),
    }
    let unread = TargetProbe::Present { source: Ok(b"x".to_vec()), target: Err("io".to_owned()) };
    match migrate_legacy_issue(&issue, unread) {
        MigrationStep::Failed(error) => assert_eq!(error.message(), "io"),
        _ => panic!("the target cannot be read"),
    }
}

fn migrate(disk: &mut BTreeMap<String, Vec<u8>>, legacy: &LocalPath, shared: &LocalPath) -> bool {
    for category in [IssueCategory::Feature, IssueCategory::Bug] {
        let directories = category_move(category, legacy, shared);
        let parent = format!("{}/", directories.source.display());
        let listed: Vec<String> =
            disk.keys().filter(|file| file.starts_with(&parent)).cloned().collect();
        for file in listed {
            let entry = LegacyProbe::Found { path: path(&file), is_file: true };
            let Ok(Some(issue)) = legacy_entry(category, shared, entry) else {
                return false;
            };
            let (source, target) = (issue.source.display(), issue.target.display());
            let probe = match disk.get(&target) {
                None => TargetProbe::Absent,
                Some(bytes) => TargetProbe::Present {
                    source: Ok(disk[&source].clone()),
                    target: Ok(bytes.clone()),
                },
            };
            match migrate_legacy_issue(&issue, probe) {
                MigrationStep::Rename => {
                    let bytes = disk.remove(&source).unwrap();
                    disk.insert(target, bytes);
                }
                MigrationStep::RemoveSource => {
                    disk.remove(&source);
                }
                MigrationStep::Failed(_) => return false,
            }
        }
    }
    true
}

fn files(entries: &[(&str, &str)]) -> BTreeMap<String, Vec<u8>> {
    entries.iter().map(|(file, text)| ((*file).to_owned(), text.as_bytes().to_vec())).collect()
}

#[test]
fn all_issues_of_a_worktree_move_at_once() {
    let (legacy, shared) = (path("/l"), path("/m"));
    let mut disk = files(&[
        ("/l/issues/bug/a.md", "one"),
        ("/l/issues/bug/b.md", "two"),
        ("/l/issues/feature/a.md", "three"),
        ("/m/issues/bug/b.md", "two"),
        ("/m/issues/bug/c.md", "four"),
        ("/l/notes", "five"),
    ]);
    let moved = files(&[
        ("/m/issues/bug/a.md", "one"),
        ("/m/issues/bug/b.md", "two"),
        ("/m/issues/feature/a.md", "three"),
        ("/m/issues/bug/c.md", "four"),
        ("/l/notes", "five"),
    ]);
    assert!(migrate(&mut disk, &legacy, &shared));
    assert_eq!(disk, moved);
    assert!(migrate(&mut disk, &legacy, &shared));
    assert_eq!(disk, moved);
}

#[test]
fn a_migration_that_stops_loses_nothing() {
    let (legacy, shared) = (path("/l"), path("/m"));
    let mut disk = files(&[
        ("/l/issues/feature/a.md", "one"),
        ("/l/issues/feature/b.md", "two"),
        ("/l/issues/bug/c.md", "three"),
        ("/m/issues/feature/b.md", "other"),
    ]);
    assert!(!migrate(&mut disk, &legacy, &shared));
    assert_eq!(
        disk,
        files(&[
            ("/m/issues/feature/a.md", "one"),
            ("/l/issues/feature/b.md", "two"),
            ("/l/issues/bug/c.md", "three"),
            ("/m/issues/feature/b.md", "other"),
        ])
    );
}
