//! What the files of a store hold: laws of saving, reading, listing and
//! deleting issues, and of the places where projects keep their state.

use vstd::prelude::*;

use vstd::utf8::{
    encode_utf8, encode_utf8_decode_utf8, encode_utf8_valid_utf8, is_ascii_chars,
    is_ascii_chars_encode_utf8,
};

use crate::anchor::{git_anchor, law_linked_worktrees_share_identity};
use crate::issue::{
    IssueCategory, KeyView, StoreErrorView, category_text, key_text, slug_char, slug_of_path,
    valid_slug,
};
use crate::path::{
    ComponentView, DOT, SEPARATOR, Span, absolute, component, component_end, component_start,
    components, extension_of, file_name_of, joined, last_dot, law_join_adds_a_component,
    law_root_paths, lemma_all_spans_within, lemma_end_bounds, lemma_start_bounds, named_components,
    normal_names_of, plain_name, plain_names, root_path, spans, spans_from, stem_of,
};
use crate::store::{
    DeleteProbe, EntryProbe, ReadProbe, RecordView, SummaryView, Timestamp, category_root_of,
    delete_refusal, entries_outcome, entry_outcome, issue_file_name, issue_path_of, joined_all,
    layout_of, list_outcome, projects_dir, read_outcome, state_path,
};

verus! {

/// Files by the components of their paths; what each holds.
pub type Disk = Map<Seq<ComponentView>, Seq<u8>>;

/// The files once an issue is saved.
pub open spec fn saved(disk: Disk, issues_root: Seq<u8>, key: KeyView, body: Seq<char>) -> Disk {
    disk.insert(components(issue_path_of(issues_root, key)), encode_utf8(body))
}

/// The files once an issue is deleted.
pub open spec fn deleted(disk: Disk, issues_root: Seq<u8>, key: KeyView) -> Disk {
    disk.remove(components(issue_path_of(issues_root, key)))
}

/// Whether an issue is kept.
pub open spec fn kept(disk: Disk, issues_root: Seq<u8>, key: KeyView) -> bool {
    disk.dom().contains(components(issue_path_of(issues_root, key)))
}

/// What the file of an issue holds.
pub open spec fn contents(disk: Disk, issues_root: Seq<u8>, key: KeyView) -> Seq<u8> {
    disk[components(issue_path_of(issues_root, key))]
}

/// The probe says what the file of an issue holds, and when it was written.
pub open spec fn shows_file(
    disk: Disk,
    issues_root: Seq<u8>,
    key: KeyView,
    probe: ReadProbe,
) -> bool {
    match probe {
        ReadProbe::Missing => !kept(disk, issues_root, key),
        ReadProbe::Failed(_) => false,
        ReadProbe::Text { body, modified } => kept(disk, issues_root, key) && encode_utf8(body@)
            == contents(disk, issues_root, key) && modified is Ok,
    }
}

/// The entry is the file of an issue that is kept.
pub open spec fn shows_entry(
    disk: Disk,
    issues_root: Seq<u8>,
    key: KeyView,
    entry: EntryProbe,
) -> bool {
    &&& valid_slug(key.slug)
    &&& kept(disk, issues_root, key)
    &&& entry matches EntryProbe::Found { path, is_file, modified } && path@ == issue_path_of(
        issues_root,
        key,
    ) && is_file && modified is Ok
}

/// The entry is the file of some issue of a category that is kept.
pub open spec fn shows_some_entry(
    disk: Disk,
    issues_root: Seq<u8>,
    category: IssueCategory,
    entry: EntryProbe,
) -> bool {
    exists|slug: Seq<char>|
        shows_entry(disk, issues_root, KeyView { category, slug }, entry)
}

/// The file of an issue is among the entries.
pub open spec fn among_entries(
    disk: Disk,
    issues_root: Seq<u8>,
    key: KeyView,
    entries: Seq<EntryProbe>,
) -> bool {
    exists|i: int|
        0 <= i < entries.len() && shows_entry(disk, issues_root, key, #[trigger] entries[i])
}

/// The entries are the files of the issues of a category, and each of them is
/// among the entries.
pub open spec fn shows_listing(
    disk: Disk,
    issues_root: Seq<u8>,
    category: IssueCategory,
    entries: Seq<EntryProbe>,
) -> bool {
    &&& forall|i: int|
        0 <= i < entries.len() ==> shows_some_entry(
            disk,
            issues_root,
            category,
            #[trigger] entries[i],
        )
    &&& forall|slug: Seq<char>|
        valid_slug(slug) && #[trigger] kept(disk, issues_root, KeyView { category, slug })
            ==> among_entries(disk, issues_root, KeyView { category, slug }, entries)
}

pub(crate) proof fn lemma_file_name(slug: Seq<char>)
    requires
        valid_slug(slug),
    ensures
        plain_name(issue_file_name(slug)),
        extension_of(issue_file_name(slug)) == Some(encode_utf8("md"@)),
        stem_of(issue_file_name(slug)) == encode_utf8(slug),
{
    reveal_strlit(".md");
    reveal_strlit("md");
    let text = slug + ".md"@;
    let name = issue_file_name(slug);
    assert forall|i: int| 0 <= i < slug.len() implies slug_char(#[trigger] slug[i]) by {}
    assert(is_ascii_chars(slug));
    assert forall|i: int| 0 <= i < text.len() implies '\0' <= #[trigger] text[i] <= '\u{7f}' by {
        if i < slug.len() {
            assert(text[i] == slug[i]);
        }
    }
    assert(is_ascii_chars(text));
    assert(is_ascii_chars("md"@));
    is_ascii_chars_encode_utf8(text);
    is_ascii_chars_encode_utf8(slug);
    is_ascii_chars_encode_utf8("md"@);
    assert forall|i: int| 0 <= i < name.len() implies #[trigger] name[i] != SEPARATOR by {
        assert(name[i] == text[i] as u8);
        if i < slug.len() {
            assert(text[i] == slug[i]);
            assert(slug_char(slug[i]));
        }
    }
    assert(name.len() >= 4);
    let n = slug.len() as int;
    assert(text[n] == '.' && text[n + 1] == 'm' && text[n + 2] == 'd');
    assert(name[n] == '.' as u8 && name[n + 1] == 'm' as u8 && name[n + 2] == 'd' as u8);
    let shorter = name.drop_last();
    let shortest = shorter.drop_last();
    assert(shortest.last() == DOT);
    assert(shorter.last() != DOT);
    assert(name.last() != DOT);
    assert(last_dot(shortest) == n);
    assert(last_dot(shorter) == n);
    assert(last_dot(name) == n);
    assert(name.skip(n + 1) =~= encode_utf8("md"@)) by {
        assert("md"@[0] == 'm' && "md"@[1] == 'd');
    }
    assert(name.take(n) =~= encode_utf8(slug)) by {
        assert forall|i: int| 0 <= i < n implies name.take(n)[i] == encode_utf8(slug)[i] by {
            assert(text[i] == slug[i]);
        }
    }
}

pub(crate) proof fn lemma_category_name(category: IssueCategory)
    ensures
        plain_name(encode_utf8(category_text(category))),
{
    reveal_strlit("feature");
    reveal_strlit("bug");
    let text = category_text(category);
    assert(is_ascii_chars(text));
    is_ascii_chars_encode_utf8(text);
    assert(text.len() >= 3);
    assert forall|i: int| 0 <= i < text.len() implies #[trigger] encode_utf8(text)[i]
        != SEPARATOR by {
        assert(text[i] != '/');
    }
}

pub(crate) proof fn lemma_issues_name()
    ensures
        plain_name(encode_utf8("issues"@)),
{
    let text = "issues"@;
    reveal_strlit("issues");
    assert(is_ascii_chars(text));
    is_ascii_chars_encode_utf8(text);
    assert forall|i: int| 0 <= i < text.len() implies #[trigger] encode_utf8(text)[i]
        != SEPARATOR by {
        assert(text[i] != '/');
    }
    assert(text.len() == 6);
}

pub(crate) proof fn lemma_issue_components(issues_root: Seq<u8>, key: KeyView)
    requires
        valid_slug(key.slug),
    ensures
        components(issue_path_of(issues_root, key)) == components(issues_root).push(
            ComponentView::Normal(encode_utf8(category_text(key.category))),
        ).push(ComponentView::Normal(issue_file_name(key.slug))),
{
    lemma_category_name(key.category);
    lemma_file_name(key.slug);
    law_join_adds_a_component(issues_root, encode_utf8(category_text(key.category)));
    law_join_adds_a_component(
        category_root_of(issues_root, key.category),
        issue_file_name(key.slug),
    );
}

/// The file of an issue names its slug.
pub proof fn law_issue_path_names_its_slug(issues_root: Seq<u8>, key: KeyView)
    requires
        valid_slug(key.slug),
    ensures
        slug_of_path(issue_path_of(issues_root, key)) == Ok::<Seq<char>, StoreErrorView>(key.slug),
{
    let path = issue_path_of(issues_root, key);
    let name = issue_file_name(key.slug);
    lemma_issue_components(issues_root, key);
    lemma_file_name(key.slug);
    assert(components(path).last() == ComponentView::Normal(name));
    let last = spans(path).last();
    assert(component(path.subrange(last.start, last.end)) == ComponentView::Normal(name));
    assert(file_name_of(path) == Some(name));
    encode_utf8_valid_utf8(key.slug);
    encode_utf8_decode_utf8(key.slug);
}

/// Two issues are never kept in one file.
pub proof fn law_issue_paths_differ(issues_root: Seq<u8>, first: KeyView, second: KeyView)
    requires
        valid_slug(first.slug),
        valid_slug(second.slug),
    ensures
        components(issue_path_of(issues_root, first)) == components(
            issue_path_of(issues_root, second),
        ) <==> first == second,
{
    lemma_issue_components(issues_root, first);
    lemma_issue_components(issues_root, second);
    let left = components(issue_path_of(issues_root, first));
    let right = components(issue_path_of(issues_root, second));
    let n = components(issues_root).len() as int;
    if left == right {
        assert(left[n] == right[n]);
        assert(left[n + 1] == right[n + 1]);
        encode_utf8_decode_utf8(category_text(first.category));
        encode_utf8_decode_utf8(category_text(second.category));
        reveal_strlit("feature");
        reveal_strlit("bug");
        assert("feature"@.len() != "bug"@.len());
        encode_utf8_decode_utf8(first.slug + ".md"@);
        encode_utf8_decode_utf8(second.slug + ".md"@);
        let dotted = first.slug + ".md"@;
        assert(dotted == second.slug + ".md"@);
        assert(first.slug =~= dotted.take(dotted.len() - ".md"@.len()));
        assert(second.slug =~= dotted.take(dotted.len() - ".md"@.len()));
    }
}

/// Reading an issue gives back the body that was saved last.
pub proof fn law_read_after_save(
    disk: Disk,
    issues_root: Seq<u8>,
    key: KeyView,
    body: Seq<char>,
    probe: ReadProbe,
)
    requires
        shows_file(saved(disk, issues_root, key, body), issues_root, key, probe),
    ensures
        read_outcome(issues_root, key, probe) matches Ok(record) && record.key == key && record.body
            == body && record.bytes == encode_utf8(body).len() && record.path == issue_path_of(
            issues_root,
            key,
        ),
        kept(saved(disk, issues_root, key, body), issues_root, key),
{
    encode_utf8_decode_utf8(body);
    if let ReadProbe::Text { body: text, modified } = probe {
        encode_utf8_decode_utf8(text@);
    }
}

/// Saving an issue changes no other issue.
pub proof fn law_save_keeps_other_issues(
    disk: Disk,
    issues_root: Seq<u8>,
    key: KeyView,
    body: Seq<char>,
    other: KeyView,
)
    requires
        valid_slug(key.slug),
        valid_slug(other.slug),
        key != other,
    ensures
        kept(saved(disk, issues_root, key, body), issues_root, other) == kept(
            disk,
            issues_root,
            other,
        ),
        contents(saved(disk, issues_root, key, body), issues_root, other) == contents(
            disk,
            issues_root,
            other,
        ),
{
    law_issue_paths_differ(issues_root, key, other);
}

/// A deleted issue is not found.
pub proof fn law_read_after_delete(
    disk: Disk,
    issues_root: Seq<u8>,
    key: KeyView,
    probe: ReadProbe,
)
    requires
        shows_file(deleted(disk, issues_root, key), issues_root, key, probe),
    ensures
        read_outcome(issues_root, key, probe) == Err::<RecordView, StoreErrorView>(
            StoreErrorView::IssueNotFound(key_text(key)),
        ),
        !kept(deleted(disk, issues_root, key), issues_root, key),
{
}

/// Deleting an issue changes no other issue.
pub proof fn law_delete_keeps_other_issues(
    disk: Disk,
    issues_root: Seq<u8>,
    key: KeyView,
    other: KeyView,
)
    requires
        valid_slug(key.slug),
        valid_slug(other.slug),
        key != other,
    ensures
        kept(deleted(disk, issues_root, key), issues_root, other) == kept(
            disk,
            issues_root,
            other,
        ),
        contents(deleted(disk, issues_root, key), issues_root, other) == contents(
            disk,
            issues_root,
            other,
        ),
{
    law_issue_paths_differ(issues_root, key, other);
}

proof fn lemma_entry(
    disk: Disk,
    issues_root: Seq<u8>,
    key: KeyView,
    entry: EntryProbe,
)
    requires
        shows_entry(disk, issues_root, key, entry),
    ensures
        entry_outcome(key.category, entry) matches Ok(summary) && summary.key == key,
{
    law_issue_path_names_its_slug(issues_root, key);
}

proof fn lemma_entries(
    disk: Disk,
    issues_root: Seq<u8>,
    category: IssueCategory,
    entries: Seq<EntryProbe>,
)
    requires
        forall|i: int|
            0 <= i < entries.len() ==> shows_some_entry(
                disk,
                issues_root,
                category,
                #[trigger] entries[i],
            ),
    ensures
        entries_outcome(category, entries) matches Ok(found) && found.len() == entries.len()
            && forall|i: int|
            0 <= i < entries.len() ==> entry_outcome(category, #[trigger] entries[i]) == Ok::<
                SummaryView,
                StoreErrorView,
            >(found[i]),
    decreases entries.len(),
{
    if entries.len() > 0 {
        let rest = entries.drop_last();
        assert forall|i: int| 0 <= i < rest.len() implies shows_some_entry(
            disk,
            issues_root,
            category,
            #[trigger] rest[i],
        ) by {
            assert(rest[i] == entries[i]);
        }
        lemma_entries(disk, issues_root, category, rest);
        let last = entries.last();
        assert(last == entries[entries.len() - 1]);
        assert(shows_some_entry(disk, issues_root, category, last));
        let slug = choose|slug: Seq<char>|
            shows_entry(disk, issues_root, KeyView { category, slug }, last);
        lemma_entry(disk, issues_root, KeyView { category, slug }, last);
        let found = entries_outcome(category, entries)->Ok_0;
        assert forall|i: int| 0 <= i < entries.len() implies entry_outcome(
            category,
            #[trigger] entries[i],
        ) == Ok::<SummaryView, StoreErrorView>(found[i]) by {
            if i < rest.len() {
                assert(rest[i] == entries[i]);
            }
        }
    }
}

/// A list shows exactly the issues that are kept: those that were saved and
/// not deleted since.
pub proof fn law_list_shows_every_issue(
    disk: Disk,
    issues_root: Seq<u8>,
    category: IssueCategory,
    entries: Seq<EntryProbe>,
    slug: Seq<char>,
)
    requires
        shows_listing(disk, issues_root, category, entries),
        valid_slug(slug),
    ensures
        entries_outcome(category, entries) matches Ok(found) && (kept(
            disk,
            issues_root,
            KeyView { category, slug },
        ) <==> exists|i: int|
            0 <= i < found.len() && (#[trigger] found[i]).key == (KeyView { category, slug })),
{
    lemma_entries(disk, issues_root, category, entries);
    let found = entries_outcome(category, entries)->Ok_0;
    let key = KeyView { category, slug };
    if kept(disk, issues_root, key) {
        assert(among_entries(disk, issues_root, key, entries));
        let i = choose|i: int|
            0 <= i < entries.len() && shows_entry(disk, issues_root, key, #[trigger] entries[i]);
        lemma_entry(disk, issues_root, key, entries[i]);
        assert(found[i].key == key);
    }
    if exists|i: int| 0 <= i < found.len() && (#[trigger] found[i]).key == key {
        let i = choose|i: int| 0 <= i < found.len() && (#[trigger] found[i]).key == key;
        assert(entry_outcome(category, entries[i]) == Ok::<SummaryView, StoreErrorView>(found[i]));
        assert(shows_some_entry(disk, issues_root, category, entries[i]));
        let shown = choose|shown: Seq<char>|
            shows_entry(disk, issues_root, KeyView { category, slug: shown }, entries[i]);
        lemma_entry(disk, issues_root, KeyView { category, slug: shown }, entries[i]);
    }
}

/// The path of an entry.
pub open spec fn entry_path(entry: EntryProbe) -> Seq<u8> {
    match entry {
        EntryProbe::Found { path, .. } => path@,
        EntryProbe::Failed(_) => seq![],
    }
}

/// The two listings show the files of all issues, and each file once.
pub open spec fn shows_store(
    disk: Disk,
    issues_root: Seq<u8>,
    features: Result<Vec<EntryProbe>, String>,
    bugs: Result<Vec<EntryProbe>, String>,
) -> bool {
    &&& features matches Ok(entries) && shows_listing(
        disk,
        issues_root,
        IssueCategory::Feature,
        entries@,
    ) && shown_once(entries@)
    &&& bugs matches Ok(entries) && shows_listing(
        disk,
        issues_root,
        IssueCategory::Bug,
        entries@,
    ) && shown_once(entries@)
}

/// No two entries have one path.
pub open spec fn shown_once(entries: Seq<EntryProbe>) -> bool {
    forall|i: int, j: int|
        #![trigger entries[i], entries[j]]
        0 <= i < j < entries.len() ==> entry_path(entries[i]) != entry_path(entries[j])
}

/// The issues that are kept.
pub open spec fn kept_keys(disk: Disk, issues_root: Seq<u8>) -> Set<KeyView> {
    Set::new(|key: KeyView| valid_slug(key.slug) && kept(disk, issues_root, key))
}

/// The keys of some issues.
pub open spec fn keys_of(found: Seq<SummaryView>) -> Seq<KeyView> {
    found.map_values(|summary: SummaryView| summary.key)
}

proof fn lemma_listed_keys(
    disk: Disk,
    issues_root: Seq<u8>,
    category: IssueCategory,
    entries: Seq<EntryProbe>,
)
    requires
        shows_listing(disk, issues_root, category, entries),
        shown_once(entries),
    ensures
        entries_outcome(category, entries) matches Ok(found) && keys_of(found).no_duplicates()
            && forall|key: KeyView| #[trigger]
            keys_of(found).contains(key) <==> key.category == category && kept_keys(
                disk,
                issues_root,
            ).contains(key),
{
    lemma_entries(disk, issues_root, category, entries);
    let found = entries_outcome(category, entries)->Ok_0;
    let keys = keys_of(found);
    assert forall|i: int| 0 <= i < keys.len() implies #[trigger] keys[i].category == category
        && valid_slug(keys[i].slug) && kept(disk, issues_root, keys[i]) && entry_path(entries[i])
        == issue_path_of(issues_root, keys[i]) by {
        assert(entry_outcome(category, entries[i]) == Ok::<SummaryView, StoreErrorView>(found[i]));
        assert(shows_some_entry(disk, issues_root, category, entries[i]));
        let slug = choose|slug: Seq<char>|
            shows_entry(disk, issues_root, KeyView { category, slug }, entries[i]);
        lemma_entry(disk, issues_root, KeyView { category, slug }, entries[i]);
    }
    assert forall|i: int, j: int| 0 <= i < keys.len() && 0 <= j < keys.len() && i != j implies
        keys[i] != keys[j] by {
        let (low, high) = if i < j {
            (i, j)
        } else {
            (j, i)
        };
        assert(entries.len() == keys.len());
        assert(entry_path(entries[low]) != entry_path(entries[high]));
        assert(entry_path(entries[low]) == issue_path_of(issues_root, keys[low]));
        assert(entry_path(entries[high]) == issue_path_of(issues_root, keys[high]));
    }
    assert forall|key: KeyView| #[trigger] keys.contains(key) <==> key.category == category
        && kept_keys(disk, issues_root).contains(key) by {
        if key.category == category && valid_slug(key.slug) && kept(disk, issues_root, key) {
            law_list_shows_every_issue(disk, issues_root, category, entries, key.slug);
            assert(key == (KeyView { category, slug: key.slug }));
            let i = choose|i: int| 0 <= i < found.len() && (#[trigger] found[i]).key == key;
            assert(keys[i] == key);
        }
    }
}

proof fn lemma_count(
    disk: Disk,
    issues_root: Seq<u8>,
    features: Result<Vec<EntryProbe>, String>,
    bugs: Result<Vec<EntryProbe>, String>,
)
    requires
        shows_store(disk, issues_root, features, bugs),
    ensures
        list_outcome(features, bugs) matches Ok(found) && kept_keys(disk, issues_root).finite()
            && found.len() == kept_keys(disk, issues_root).len(),
{
    lemma_listed_keys(disk, issues_root, IssueCategory::Feature, features->Ok_0@);
    lemma_listed_keys(disk, issues_root, IssueCategory::Bug, bugs->Ok_0@);
    let first = entries_outcome(IssueCategory::Feature, features->Ok_0@)->Ok_0;
    let second = entries_outcome(IssueCategory::Bug, bugs->Ok_0@)->Ok_0;
    let found = list_outcome(features, bugs)->Ok_0;
    let keys = keys_of(found);
    assert(keys =~= keys_of(first) + keys_of(second));
    assert forall|i: int, j: int| 0 <= i < keys.len() && 0 <= j < keys.len() && i != j implies
        keys[i] != keys[j] by {
        let n = first.len();
        assert(keys_of(first).contains(keys[i]) || keys_of(second).contains(keys[i])) by {
            if i < n {
                assert(keys_of(first)[i] == keys[i]);
            } else {
                assert(keys_of(second)[i - n] == keys[i]);
            }
        }
        if i < n && j < n {
            assert(keys_of(first)[i] != keys_of(first)[j]);
        } else if i >= n && j >= n {
            assert(keys_of(second)[i - n] != keys_of(second)[j - n]);
        } else if i < n {
            assert(keys_of(first).contains(keys_of(first)[i]));
            assert(keys_of(second).contains(keys_of(second)[j - n]));
        } else {
            assert(keys_of(second).contains(keys_of(second)[i - n]));
            assert(keys_of(first).contains(keys_of(first)[j]));
        }
    }
    assert(keys.to_set() =~= kept_keys(disk, issues_root)) by {
        assert forall|key: KeyView| keys.to_set().contains(key) <==> kept_keys(
            disk,
            issues_root,
        ).contains(key) by {
            if keys.contains(key) {
                let i = choose|i: int| 0 <= i < keys.len() && keys[i] == key;
                if i < first.len() {
                    assert(keys_of(first)[i] == key);
                    assert(keys_of(first).contains(key));
                } else {
                    assert(keys_of(second)[i - first.len()] == key);
                    assert(keys_of(second).contains(key));
                }
            }
            if kept_keys(disk, issues_root).contains(key) {
                if key.category is Feature {
                    assert(keys_of(first).contains(key));
                    let i = choose|i: int| 0 <= i < first.len() && keys_of(first)[i] == key;
                    assert(keys[i] == key);
                } else {
                    assert(keys_of(second).contains(key));
                    let i = choose|i: int| 0 <= i < second.len() && keys_of(second)[i] == key;
                    assert(keys[first.len() + i] == key);
                }
            }
        }
    }
    keys.unique_seq_to_set();
}

/// A save that created the file of an issue raises the number of issues by
/// one; a save that wrote over it leaves the number as it was.
pub proof fn law_count_after_save(
    disk: Disk,
    issues_root: Seq<u8>,
    key: KeyView,
    body: Seq<char>,
    existed: bool,
    before: (Result<Vec<EntryProbe>, String>, Result<Vec<EntryProbe>, String>),
    after: (Result<Vec<EntryProbe>, String>, Result<Vec<EntryProbe>, String>),
)
    requires
        valid_slug(key.slug),
        existed == kept(disk, issues_root, key),
        shows_store(disk, issues_root, before.0, before.1),
        shows_store(saved(disk, issues_root, key, body), issues_root, after.0, after.1),
    ensures
        list_outcome(before.0, before.1) matches Ok(old) && (list_outcome(
            after.0,
            after.1,
        ) matches Ok(new) && new.len() == old.len() + (if existed {
            0int
        } else {
            1int
        })),
{
    let then = saved(disk, issues_root, key, body);
    lemma_count(disk, issues_root, before.0, before.1);
    lemma_count(then, issues_root, after.0, after.1);
    assert(kept_keys(then, issues_root) =~= kept_keys(disk, issues_root).insert(key)) by {
        assert forall|other: KeyView| kept_keys(then, issues_root).contains(other) <==> kept_keys(
            disk,
            issues_root,
        ).insert(key).contains(other) by {
            if valid_slug(other.slug) && other != key {
                law_save_keeps_other_issues(disk, issues_root, key, body, other);
            }
        }
    }
}

/// The probe says whether there is a file of an issue, and how long it is.
pub open spec fn shows_length(
    disk: Disk,
    issues_root: Seq<u8>,
    key: KeyView,
    probe: DeleteProbe,
) -> bool {
    match probe {
        DeleteProbe::Missing => !kept(disk, issues_root, key),
        DeleteProbe::Failed(_) => true,
        DeleteProbe::Found(length) => kept(disk, issues_root, key) && length == contents(
            disk,
            issues_root,
            key,
        ).len(),
    }
}

/// The deletion of an issue is carried out: it is not refused, and the file
/// could be removed.
pub open spec fn carried_out(
    key: KeyView,
    probe: DeleteProbe,
    removed: Result<Timestamp, String>,
) -> bool {
    delete_refusal(key, probe) is None && removed is Ok
}

/// The files once the deletion of an issue was asked for.
pub open spec fn after_deletion(
    disk: Disk,
    issues_root: Seq<u8>,
    key: KeyView,
    probe: DeleteProbe,
    removed: Result<Timestamp, String>,
) -> Disk {
    if carried_out(key, probe, removed) {
        deleted(disk, issues_root, key)
    } else {
        disk
    }
}

/// A deletion lowers the number of issues by one; a deletion that is refused
/// or fails leaves the number as it was.
pub proof fn law_count_after_delete(
    disk: Disk,
    issues_root: Seq<u8>,
    key: KeyView,
    probe: DeleteProbe,
    removed: Result<Timestamp, String>,
    before: (Result<Vec<EntryProbe>, String>, Result<Vec<EntryProbe>, String>),
    after: (Result<Vec<EntryProbe>, String>, Result<Vec<EntryProbe>, String>),
)
    requires
        valid_slug(key.slug),
        shows_length(disk, issues_root, key, probe),
        shows_store(disk, issues_root, before.0, before.1),
        shows_store(
            after_deletion(disk, issues_root, key, probe, removed),
            issues_root,
            after.0,
            after.1,
        ),
    ensures
        !kept(disk, issues_root, key) ==> !carried_out(key, probe, removed),
        list_outcome(before.0, before.1) matches Ok(old) && (list_outcome(
            after.0,
            after.1,
        ) matches Ok(new) && new.len() == old.len() - (if carried_out(key, probe, removed) {
            1int
        } else {
            0int
        })),
{
    let then = after_deletion(disk, issues_root, key, probe, removed);
    lemma_count(disk, issues_root, before.0, before.1);
    lemma_count(then, issues_root, after.0, after.1);
    if carried_out(key, probe, removed) {
        assert(kept_keys(disk, issues_root).contains(key));
        assert(kept_keys(then, issues_root) =~= kept_keys(disk, issues_root).remove(key)) by {
            assert forall|other: KeyView|
                kept_keys(then, issues_root).contains(other) <==> kept_keys(
                    disk,
                    issues_root,
                ).remove(key).contains(other) by {
                if valid_slug(other.slug) && other != key {
                    law_delete_keeps_other_issues(disk, issues_root, key, other);
                }
            }
        }
    }
}

/// A path from the root that names no directory relative to another.
pub open spec fn canonical(path: Seq<u8>) -> bool {
    &&& absolute(path)
    &&& forall|i: int| 1 <= i < components(path).len() ==> #[trigger] components(path)[i] is Normal
}

proof fn lemma_normal_is_plain(path: Seq<u8>, i: int)
    requires
        0 <= i < components(path).len(),
        components(path)[i] is Normal,
    ensures
        plain_name(components(path)[i]->Normal_0),
{
    let span = spans(path)[i];
    let part = path.subrange(span.start, span.end);
    lemma_all_spans_within(path);
    if absolute(path) && i == 0 {
        assert(part =~= seq![SEPARATOR]);
    } else {
        let at = if absolute(path) {
            1int
        } else {
            0int
        };
        let j = if absolute(path) {
            i - 1
        } else {
            i
        };
        assert(spans_from(path, at)[j] == span);
        lemma_span_holds_no_separator(path, at, j);
        assert forall|k: int| 0 <= k < part.len() implies #[trigger] part[k] != SEPARATOR by {
            assert(part[k] == path[span.start + k]);
        }
    }
}

proof fn lemma_span_holds_no_separator(path: Seq<u8>, at: int, i: int)
    requires
        0 <= at,
        0 <= i < spans_from(path, at).len(),
    ensures
        forall|k: int|
            spans_from(path, at)[i].start <= k < spans_from(path, at)[i].end
                ==> #[trigger] path[k] != SEPARATOR,
    decreases path.len() - at,
{
    let start = component_start(path, at);
    let end = component_end(path, start);
    lemma_start_bounds(path, at);
    lemma_end_bounds(path, start);
    if i > 0 {
        lemma_span_holds_no_separator(path, end, i - 1);
        assert(spans_from(path, at)[i] == spans_from(path, end)[i - 1]);
    }
}

/// The components for ordinary names.
pub open spec fn as_components(names: Seq<Seq<u8>>) -> Seq<ComponentView> {
    names.map_values(|name: Seq<u8>| ComponentView::Normal(name))
}

proof fn lemma_joined_all(base: Seq<u8>, names: Seq<Seq<u8>>)
    requires
        forall|i: int| 0 <= i < names.len() ==> plain_name(#[trigger] names[i]),
    ensures
        components(joined_all(base, names)) == components(base) + as_components(names),
    decreases names.len(),
{
    if names.len() == 0 {
        assert(components(base) =~= components(base) + as_components(names));
    } else {
        let front = names.drop_last();
        assert forall|i: int| 0 <= i < front.len() implies plain_name(#[trigger] front[i]) by {
            assert(front[i] == names[i]);
        }
        lemma_joined_all(base, front);
        assert(plain_name(names[names.len() - 1]));
        law_join_adds_a_component(joined_all(base, front), names.last());
        assert(components(joined_all(base, names)) =~= components(base) + as_components(names));
    }
}

proof fn lemma_names_plain(path: Seq<u8>, upto: int)
    requires
        0 <= upto <= components(path).len(),
    ensures
        forall|i: int|
            0 <= i < normal_names_of(components(path).take(upto)).len() ==> plain_name(
                #[trigger] normal_names_of(components(path).take(upto))[i],
            ),
    decreases upto,
{
    if upto > 0 {
        let front = components(path).take(upto);
        assert(front.drop_last() =~= components(path).take(upto - 1));
        lemma_names_plain(path, upto - 1);
        assert(front.last() == components(path)[upto - 1]);
        let names = normal_names_of(front);
        let before = normal_names_of(front.drop_last());
        if front.last() is Normal {
            lemma_normal_is_plain(path, upto - 1);
            assert(names == before.push(front.last()->Normal_0));
            assert forall|i: int| 0 <= i < names.len() implies plain_name(#[trigger] names[i]) by {
                if i < before.len() {
                    assert(names[i] == before[i]);
                }
            }
        } else {
            assert(names == before);
        }
    }
}

proof fn lemma_canonical_names(path: Seq<u8>, upto: int)
    requires
        canonical(path),
        1 <= upto <= components(path).len(),
    ensures
        as_components(normal_names_of(components(path).take(upto))) == components(path).subrange(
            1,
            upto,
        ),
    decreases upto,
{
    let front = components(path).take(upto);
    if upto == 1 {
        let span = spans(path)[0];
        assert(span == (Span { start: 0, end: 1 }));
        assert(path.subrange(0, 1) =~= seq![SEPARATOR]);
        assert(front.last() == ComponentView::Root);
        assert(front.drop_last() =~= seq![]);
        assert(normal_names_of(front.drop_last()) == Seq::<Seq<u8>>::empty());
        assert(normal_names_of(front) == normal_names_of(front.drop_last()));
        assert(as_components(normal_names_of(front)) =~= components(path).subrange(1, 1));
    } else {
        lemma_canonical_names(path, upto - 1);
        assert(front.drop_last() =~= components(path).take(upto - 1));
        assert(front.last() == components(path)[upto - 1]);
        let before = normal_names_of(front.drop_last());
        assert(normal_names_of(front) == before.push(front.last()->Normal_0));
        assert(as_components(before) =~= components(path).subrange(1, upto - 1));
        assert(as_components(normal_names_of(front)) =~= as_components(before).push(front.last()));
        assert(components(path).subrange(1, upto) =~= components(path).subrange(1, upto - 1).push(
            components(path)[upto - 1],
        ));
    }
}

/// Where the state of a project is kept: one directory behind the other, with
/// the ordinary names of its path.
pub proof fn law_state_path_components(state_dir: Seq<u8>, project_root: Seq<u8>)
    ensures
        components(state_path(state_dir, project_root)) == components(projects_dir(state_dir))
            + as_components(normal_names_of(components(project_root))),
{
    let all = components(project_root);
    assert(all.take(all.len() as int) =~= all);
    lemma_names_plain(project_root, all.len() as int);
    lemma_joined_all(projects_dir(state_dir), normal_names_of(all));
}

pub(crate) proof fn lemma_normal_names(names: Seq<Seq<u8>>)
    ensures
        normal_names_of(seq![ComponentView::Root] + named_components(names)) == names,
    decreases names.len(),
{
    let all = seq![ComponentView::Root] + named_components(names);
    if names.len() == 0 {
        assert(all.drop_last() =~= seq![]);
        assert(normal_names_of(all.drop_last()) == Seq::<Seq<u8>>::empty());
        assert(names =~= seq![]);
    } else {
        assert(all.drop_last() =~= seq![ComponentView::Root] + named_components(names.drop_last()));
        assert(all.last() == ComponentView::Normal(names.last()));
        lemma_normal_names(names.drop_last());
        assert(names.drop_last().push(names.last()) =~= names);
    }
}

/// The state of the project with these names lies in the directory for states,
/// in `jira_at_home` and `projects`, under the same names.
pub proof fn law_state_place(state_dir: Seq<u8>, names: Seq<Seq<u8>>)
    requires
        plain_names(names),
    ensures
        components(state_path(state_dir, root_path(names))) == components(state_dir)
            + named_components(
            seq![encode_utf8("jira_at_home"@), encode_utf8("projects"@)] + names,
        ),
{
    let text = "jira_at_home"@;
    let more = "projects"@;
    reveal_strlit("jira_at_home");
    reveal_strlit("projects");
    assert(is_ascii_chars(text) && is_ascii_chars(more));
    is_ascii_chars_encode_utf8(text);
    is_ascii_chars_encode_utf8(more);
    assert(text.len() == 12 && more.len() == 8);
    assert forall|i: int| 0 <= i < text.len() implies #[trigger] encode_utf8(text)[i]
        != SEPARATOR by {
        assert(text[i] != '/');
    }
    assert forall|i: int| 0 <= i < more.len() implies #[trigger] encode_utf8(more)[i]
        != SEPARATOR by {
        assert(more[i] != '/');
    }
    law_join_adds_a_component(state_dir, encode_utf8(text));
    law_join_adds_a_component(joined(state_dir, encode_utf8(text)), encode_utf8(more));
    law_root_paths(names);
    lemma_normal_names(names);
    law_state_path_components(state_dir, root_path(names));
    assert(components(state_path(state_dir, root_path(names))) =~= components(state_dir)
        + named_components(seq![encode_utf8(text), encode_utf8(more)] + names));
}

/// Two projects with different canonical paths keep their states in different
/// places.
pub proof fn law_state_paths_differ(state_dir: Seq<u8>, first: Seq<u8>, second: Seq<u8>)
    requires
        canonical(first),
        canonical(second),
    ensures
        components(state_path(state_dir, first)) == components(state_path(state_dir, second))
            <==> components(first) == components(second),
{
    law_state_path_components(state_dir, first);
    law_state_path_components(state_dir, second);
    let left = components(first);
    let right = components(second);
    let base = components(projects_dir(state_dir));
    assert(left.take(left.len() as int) =~= left);
    assert(right.take(right.len() as int) =~= right);
    lemma_canonical_names(first, left.len() as int);
    lemma_canonical_names(second, right.len() as int);
    if components(state_path(state_dir, first)) == components(state_path(state_dir, second)) {
        let whole = components(state_path(state_dir, first));
        assert(left.subrange(1, left.len() as int) =~= whole.skip(base.len() as int));
        assert(right.subrange(1, right.len() as int) =~= whole.skip(base.len() as int));
        assert(first.subrange(0, 1) =~= second.subrange(0, 1));
        assert(left[0] == right[0]);
        assert forall|i: int| 0 <= i < left.len() implies left[i] == right[i] by {
            if i > 0 {
                assert(left.subrange(1, left.len() as int)[i - 1] == left[i]);
                assert(right.subrange(1, right.len() as int)[i - 1] == right[i]);
            }
        }
        assert(left =~= right);
    }
}

/// The file of an issue of a project: `issues`, its category and its slug,
/// below the state of the project, which lies in the directory for states.
pub proof fn law_issue_file_place(state_dir: Seq<u8>, project_root: Seq<u8>, key: KeyView)
    requires
        valid_slug(key.slug),
    ensures
        components(
            issue_path_of(
                joined(state_path(state_dir, project_root), encode_utf8("issues"@)),
                key,
            ),
        ) == components(projects_dir(state_dir)) + as_components(
            normal_names_of(components(project_root)),
        ) + seq![
            ComponentView::Normal(encode_utf8("issues"@)),
            ComponentView::Normal(encode_utf8(category_text(key.category))),
            ComponentView::Normal(issue_file_name(key.slug)),
        ],
{
    let state_root = state_path(state_dir, project_root);
    lemma_issues_name();
    law_join_adds_a_component(state_root, encode_utf8("issues"@));
    law_state_path_components(state_dir, project_root);
    lemma_issue_components(joined(state_root, encode_utf8("issues"@)), key);
}

/// Two worktrees with one common directory keep their issues in the same
/// files, whatever path each was found by.
pub proof fn law_linked_worktrees_share_issues(
    state_dir: Seq<u8>,
    common_dir: Seq<u8>,
    first: (Seq<u8>, Seq<u8>),
    second: (Seq<u8>, Seq<u8>),
    key: KeyView,
)
    requires
        git_anchor(first.1, common_dir) is Ok,
    ensures
        ({
            let one = git_anchor(first.1, common_dir)->Ok_0;
            let two = git_anchor(second.1, common_dir)->Ok_0;
            &&& git_anchor(second.1, common_dir) is Ok
            &&& issue_path_of(
                layout_of(first.0, one, state_dir).issues_root,
                key,
            ) == issue_path_of(
                layout_of(second.0, two, state_dir).issues_root,
                key,
            )
        }),
{
    law_linked_worktrees_share_identity(first.1, second.1, common_dir);
}

} // verus!
