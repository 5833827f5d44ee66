//! Issues: their categories, slugs, keys and bodies, and what can be wrong
//! with a request for one.

use vstd::prelude::*;

use vstd::utf8::{decode_utf8, encode_utf8, valid_utf8};

use crate::path::{
    LocalPath, extension, extension_of, file_name_of, file_stem, lossy_text, same_bytes, stem_of,
    text_bytes, utf8_text,
};
use crate::text::{blank, concat, concat3, decimal, decimal_text, is_blank, same_text};

verus! {

/// Why the store refuses a request.
pub enum StoreError {
    /// An issue, by its key, that is too large for this machine; its size.
    IssueTooLarge(String, u64),
    MissingProjectPath(String),
    ProjectPathNotDirectory(String),
    InvalidCategory(String),
    InvalidSlug(String),
    EmptyIssueBody,
    IssueNotFound(String),
    /// A path, and what is wrong with it.
    MalformedIssueEntry(String, String),
    /// A path, and what is wrong with it.
    MalformedGitIndirection(String, String),
    LegacyMigrationConflict { legacy_source: String, target: String },
    /// The message of a failed file operation.
    Io(String),
}

/// Why the store refuses a request, in plain values.
pub enum StoreErrorView {
    IssueTooLarge(Seq<char>, u64),
    MissingProjectPath(Seq<char>),
    ProjectPathNotDirectory(Seq<char>),
    InvalidCategory(Seq<char>),
    InvalidSlug(Seq<char>),
    EmptyIssueBody,
    IssueNotFound(Seq<char>),
    MalformedIssueEntry(Seq<char>, Seq<char>),
    MalformedGitIndirection(Seq<char>, Seq<char>),
    LegacyMigrationConflict { legacy_source: Seq<char>, target: Seq<char> },
    Io(Seq<char>),
}

impl View for StoreError {
    type V = StoreErrorView;

    open spec fn view(&self) -> StoreErrorView {
        match *self {
            StoreError::IssueTooLarge(key, bytes) => StoreErrorView::IssueTooLarge(key@, bytes),
            StoreError::MissingProjectPath(path) => StoreErrorView::MissingProjectPath(path@),
            StoreError::ProjectPathNotDirectory(path) => StoreErrorView::ProjectPathNotDirectory(
                path@,
            ),
            StoreError::InvalidCategory(raw) => StoreErrorView::InvalidCategory(raw@),
            StoreError::InvalidSlug(detail) => StoreErrorView::InvalidSlug(detail@),
            StoreError::EmptyIssueBody => StoreErrorView::EmptyIssueBody,
            StoreError::IssueNotFound(key) => StoreErrorView::IssueNotFound(key@),
            StoreError::MalformedIssueEntry(path, detail) => StoreErrorView::MalformedIssueEntry(
                path@,
                detail@,
            ),
            StoreError::MalformedGitIndirection(
                path,
                detail,
            ) => StoreErrorView::MalformedGitIndirection(path@, detail@),
            StoreError::LegacyMigrationConflict {
                legacy_source,
                target,
            } => StoreErrorView::LegacyMigrationConflict {
                legacy_source: legacy_source@,
                target: target@,
            },
            StoreError::Io(detail) => StoreErrorView::Io(detail@),
        }
    }
}

/// The message of a store error.
pub open spec fn store_error_text(error: StoreErrorView) -> Seq<char> {
    match error {
        StoreErrorView::IssueTooLarge(key, bytes) => "issue `"@ + key
            + "` is too large for this platform ("@ + decimal_text(bytes as nat) + " bytes)"@,
        StoreErrorView::MissingProjectPath(path) => "project path `"@ + path + "` does not exist"@,
        StoreErrorView::ProjectPathNotDirectory(path) => "project path `"@ + path
            + "` does not resolve to a directory"@,
        StoreErrorView::InvalidCategory(raw) => "invalid issue category `"@ + raw
            + "`; expected `feature` or `bug`"@,
        StoreErrorView::InvalidSlug(detail) => "invalid issue slug: "@ + detail,
        StoreErrorView::EmptyIssueBody => "issue body must not be blank"@,
        StoreErrorView::IssueNotFound(key) => "issue `"@ + key + "` does not exist"@,
        StoreErrorView::MalformedIssueEntry(path, detail) => "malformed issue entry `"@ + path
            + "`: "@ + detail,
        StoreErrorView::MalformedGitIndirection(path, detail) => "malformed git indirection `"@
            + path + "`: "@ + detail,
        StoreErrorView::LegacyMigrationConflict {
            legacy_source,
            target,
        } => "cannot migrate legacy worktree issue `"@ + legacy_source + "` to `"@ + target
            + "` because both exist with different bodies"@,
        StoreErrorView::Io(detail) => detail,
    }
}

impl StoreError {
    /// The message of the error.
    pub fn message(&self) -> (text: String)
        ensures
            text@ == store_error_text(self@),
    {
        match self {
            StoreError::IssueTooLarge(key, bytes) => {
                let head = concat3("issue `", key.as_str(), "` is too large for this platform (");
                concat3(head.as_str(), decimal(*bytes).as_str(), " bytes)")
            },
            StoreError::MissingProjectPath(path) => concat3(
                "project path `",
                path.as_str(),
                "` does not exist",
            ),
            StoreError::ProjectPathNotDirectory(path) => concat3(
                "project path `",
                path.as_str(),
                "` does not resolve to a directory",
            ),
            StoreError::InvalidCategory(raw) => concat3(
                "invalid issue category `",
                raw.as_str(),
                "`; expected `feature` or `bug`",
            ),
            StoreError::InvalidSlug(detail) => concat("invalid issue slug: ", detail.as_str()),
            StoreError::EmptyIssueBody => "issue body must not be blank".to_owned(),
            StoreError::IssueNotFound(key) => concat3("issue `", key.as_str(), "` does not exist"),
            StoreError::MalformedIssueEntry(path, detail) => {
                let head = concat3("malformed issue entry `", path.as_str(), "`: ");
                concat(head.as_str(), detail.as_str())
            },
            StoreError::MalformedGitIndirection(path, detail) => {
                let head = concat3("malformed git indirection `", path.as_str(), "`: ");
                concat(head.as_str(), detail.as_str())
            },
            StoreError::LegacyMigrationConflict { legacy_source, target } => {
                let head = concat3(
                    "cannot migrate legacy worktree issue `",
                    legacy_source.as_str(),
                    "` to `",
                );
                concat3(
                    head.as_str(),
                    target.as_str(),
                    "` because both exist with different bodies",
                )
            },
            StoreError::Io(detail) => detail.clone(),
        }
    }
}

/// What an issue is about.
#[derive(Clone, Copy, Debug, PartialEq, Eq, Structural)]
pub enum IssueCategory {
    Feature,
    Bug,
}

/// The name of a category.
pub open spec fn category_text(category: IssueCategory) -> Seq<char> {
    match category {
        IssueCategory::Feature => "feature"@,
        IssueCategory::Bug => "bug"@,
    }
}

/// The category with this name.
pub open spec fn category_named(raw: Seq<char>) -> Option<IssueCategory> {
    if raw == "feature"@ {
        Some(IssueCategory::Feature)
    } else if raw == "bug"@ {
        Some(IssueCategory::Bug)
    } else {
        None
    }
}

/// Every category is found by its name, and by no other.
pub proof fn law_category_names(category: IssueCategory, raw: Seq<char>)
    ensures
        category_named(raw) == Some(category) <==> raw == category_text(category),
{
    reveal_strlit("feature");
    reveal_strlit("bug");
    assert("feature"@.len() != "bug"@.len());
}

impl IssueCategory {
    /// The category with this name.
    pub fn parse(raw: String) -> (category: Result<Self, StoreError>)
        ensures
            match category {
                Ok(category) => category_named(raw@) == Some(category),
                Err(error) => category_named(raw@) is None && error@
                    == StoreErrorView::InvalidCategory(raw@),
            },
    {
        match Self::from_dir_name(raw.as_str()) {
            Some(category) => Ok(category),
            None => Err(StoreError::InvalidCategory(raw)),
        }
    }

    /// The categories, in their order.
    pub fn all() -> (all: [Self; 2])
        ensures
            all@ == seq![IssueCategory::Feature, IssueCategory::Bug],
    {
        let all = [IssueCategory::Feature, IssueCategory::Bug];
        assert(all@ =~= seq![IssueCategory::Feature, IssueCategory::Bug]);
        all
    }

    /// The name of the category.
    pub fn as_str(self) -> (name: &'static str)
        ensures
            name@ == category_text(self),
    {
        match self {
            IssueCategory::Feature => "feature",
            IssueCategory::Bug => "bug",
        }
    }

    /// The category whose directory has this name.
    pub fn from_dir_name(raw: &str) -> (category: Option<Self>)
        ensures
            category == category_named(raw@),
    {
        if same_text(raw, "feature") {
            Some(IssueCategory::Feature)
        } else if same_text(raw, "bug") {
            Some(IssueCategory::Bug)
        } else {
            None
        }
    }
}

/// The characters of a slug.
pub open spec fn slug_char(c: char) -> bool {
    'a' <= c <= 'z' || '0' <= c <= '9' || c == '-'
}

/// Two hyphens follow each other at `at`.
pub open spec fn hyphens_meet(raw: Seq<char>, at: int) -> bool {
    0 <= at < raw.len() - 1 && raw[at] == '-' && raw[at + 1] == '-'
}

/// What is wrong with a slug.
pub open spec fn slug_fault(raw: Seq<char>) -> Option<Seq<char>> {
    if raw.len() == 0 {
        Some("slug must not be empty"@)
    } else if raw.first() == '-' || raw.last() == '-' {
        Some("slug must not start or end with `-`"@)
    } else if !forall|i: int| 0 <= i < raw.len() ==> slug_char(#[trigger] raw[i]) {
        Some("slug must use lowercase ascii letters, digits, and `-` only"@)
    } else if exists|i: int| #[trigger] hyphens_meet(raw, i) {
        Some("slug must not contain empty `-` segments"@)
    } else {
        None
    }
}

/// A text that is a slug.
pub open spec fn valid_slug(raw: Seq<char>) -> bool {
    slug_fault(raw) is None
}

/// The name of an issue within its category.
pub struct IssueSlug {
    text: String,
}

impl View for IssueSlug {
    type V = Seq<char>;

    closed spec fn view(&self) -> Seq<char> {
        self.text@
    }
}

impl IssueSlug {
    #[verifier::type_invariant]
    spec fn well_formed(self) -> bool {
        valid_slug(self.text@)
    }

    /// The slug with this text.
    pub fn parse(raw: String) -> (slug: Result<Self, StoreError>)
        ensures
            match slug {
                Ok(slug) => valid_slug(raw@) && slug@ == raw@,
                Err(error) => slug_fault(raw@) matches Some(detail) && error@
                    == StoreErrorView::InvalidSlug(detail),
            },
    {
        let length: usize = raw.as_str().unicode_len();
        if length == 0 {
            return Err(StoreError::InvalidSlug("slug must not be empty".to_owned()));
        }
        if raw.as_str().get_char(0) == '-' || raw.as_str().get_char(length - 1) == '-' {
            return Err(StoreError::InvalidSlug("slug must not start or end with `-`".to_owned()));
        }
        let mut at: usize = 0;
        while at < length
            invariant
                at <= length,
                length == raw@.len(),
                length > 0,
                raw@.first() != '-',
                raw@.last() != '-',
                forall|i: int| 0 <= i < at ==> slug_char(#[trigger] raw@[i]),
            decreases length - at,
        {
            let c = raw.as_str().get_char(at);
            if !(('a' <= c && c <= 'z') || ('0' <= c && c <= '9') || c == '-') {
                assert(!slug_char(raw@[at as int]));
                return Err(
                    StoreError::InvalidSlug(
                        "slug must use lowercase ascii letters, digits, and `-` only".to_owned(),
                    ),
                );
            }
            at = at + 1;
        }
        let mut at: usize = 0;
        while at + 1 < length
            invariant
                at + 1 <= length,
                length == raw@.len(),
                raw@.first() != '-',
                raw@.last() != '-',
                forall|i: int| 0 <= i < raw@.len() ==> slug_char(#[trigger] raw@[i]),
                forall|i: int| 0 <= i < at ==> !#[trigger] hyphens_meet(raw@, i),
            decreases length - at,
        {
            if raw.as_str().get_char(at) == '-' && raw.as_str().get_char(at + 1) == '-' {
                assert(hyphens_meet(raw@, at as int));
                return Err(
                    StoreError::InvalidSlug("slug must not contain empty `-` segments".to_owned()),
                );
            }
            at = at + 1;
        }
        assert forall|i: int| !#[trigger] hyphens_meet(raw@, i) by {}
        Ok(IssueSlug { text: raw })
    }

    /// The text of the slug.
    pub fn as_str(&self) -> (text: &str)
        ensures
            text@ == self@,
            valid_slug(text@),
    {
        proof {
            use_type_invariant(self);
        }
        self.text.as_str()
    }

    /// The same slug once more.
    pub fn duplicate(&self) -> (copy: Self)
        ensures
            copy@ == self@,
            valid_slug(copy@),
    {
        proof {
            use_type_invariant(self);
        }
        IssueSlug { text: self.text.clone() }
    }

    /// The slug of the issue in this file.
    pub fn from_issue_path(path: &LocalPath) -> (slug: Result<Self, StoreError>)
        ensures
            match slug {
                Ok(slug) => slug_of_path(path@) == Ok::<Seq<char>, StoreErrorView>(slug@)
                    && valid_slug(slug@),
                Err(error) => slug_of_path(path@) == Err::<Seq<char>, StoreErrorView>(error@),
            },
    {
        let name = path.file_name();
        let is_markdown = match &name {
            Some(name) => match extension(name) {
                Some(found) => {
                    let wanted = text_bytes("md");
                    same_bytes(&found, &wanted)
                },
                None => false,
            },
            None => false,
        };
        match name {
            Some(name) if is_markdown => match utf8_text(&file_stem(&name)) {
                Some(stem) => Self::parse(stem),
                None => Err(
                    StoreError::MalformedIssueEntry(
                        path.display(),
                        "issue file name must be valid UTF-8".to_owned(),
                    ),
                ),
            },
            _ => Err(
                StoreError::MalformedIssueEntry(
                    path.display(),
                    "issue file must use the `.md` extension".to_owned(),
                ),
            ),
        }
    }
}

/// Whether a path names a file with the extension `md`.
pub open spec fn markdown_path(path: Seq<u8>) -> bool {
    file_name_of(path) matches Some(name) && extension_of(name) == Some(encode_utf8("md"@))
}

/// The slug of the issue in a file, or what is wrong with the file's name.
pub open spec fn slug_of_path(path: Seq<u8>) -> Result<Seq<char>, StoreErrorView> {
    if !markdown_path(path) {
        Err(
            StoreErrorView::MalformedIssueEntry(
                lossy_text(path),
                "issue file must use the `.md` extension"@,
            ),
        )
    } else {
        let stem = stem_of(file_name_of(path)->0);
        if !valid_utf8(stem) {
            Err(
                StoreErrorView::MalformedIssueEntry(
                    lossy_text(path),
                    "issue file name must be valid UTF-8"@,
                ),
            )
        } else {
            match slug_fault(decode_utf8(stem)) {
                Some(detail) => Err(StoreErrorView::InvalidSlug(detail)),
                None => Ok(decode_utf8(stem)),
            }
        }
    }
}

/// What an issue is found by.
pub struct IssueKey {
    pub category: IssueCategory,
    pub slug: IssueSlug,
}

/// What an issue is found by, in plain values.
pub struct KeyView {
    pub category: IssueCategory,
    pub slug: Seq<char>,
}

impl View for IssueKey {
    type V = KeyView;

    open spec fn view(&self) -> KeyView {
        KeyView { category: self.category, slug: self.slug@ }
    }
}

/// A key as text.
pub open spec fn key_text(key: KeyView) -> Seq<char> {
    category_text(key.category) + "/"@ + key.slug
}

impl IssueKey {
    /// The key of an issue.
    pub fn new(category: IssueCategory, slug: IssueSlug) -> (key: Self)
        ensures
            key@ == (KeyView { category, slug: slug@ }),
    {
        IssueKey { category, slug }
    }

    /// The same key once more.
    pub fn duplicate(&self) -> (copy: Self)
        ensures
            copy@ == self@,
    {
        IssueKey { category: self.category, slug: self.slug.duplicate() }
    }

    /// The key of the issue in this file of its category.
    pub fn from_issue_path(path: &LocalPath, category: IssueCategory) -> (key: Result<
        Self,
        StoreError,
    >)
        ensures
            match key {
                Ok(key) => key@.category == category && slug_of_path(path@) == Ok::<
                    Seq<char>,
                    StoreErrorView,
                >(key@.slug) && valid_slug(key@.slug),
                Err(error) => slug_of_path(path@) == Err::<Seq<char>, StoreErrorView>(error@),
            },
    {
        match IssueSlug::from_issue_path(path) {
            Ok(slug) => Ok(Self::new(category, slug)),
            Err(error) => Err(error),
        }
    }

    /// The key as text.
    pub fn text(&self) -> (text: String)
        ensures
            text@ == key_text(self@),
    {
        concat3(self.category.as_str(), "/", self.slug.as_str())
    }
}

/// The text of an issue; it is not blank.
pub struct IssueBody {
    text: String,
}

impl View for IssueBody {
    type V = Seq<char>;

    closed spec fn view(&self) -> Seq<char> {
        self.text@
    }
}

impl IssueBody {
    #[verifier::type_invariant]
    spec fn well_formed(self) -> bool {
        !blank(self.text@)
    }

    /// The body with this text.
    pub fn parse(raw: String) -> (body: Result<Self, StoreError>)
        ensures
            match body {
                Ok(body) => !blank(raw@) && body@ == raw@,
                Err(error) => blank(raw@) && error@ == StoreErrorView::EmptyIssueBody,
            },
    {
        if is_blank(raw.as_str()) {
            return Err(StoreError::EmptyIssueBody);
        }
        Ok(IssueBody { text: raw })
    }

    /// The text of the body, as it was given.
    pub fn into_inner(self) -> (text: String)
        ensures
            text@ == self@,
            !blank(text@),
    {
        proof {
            use_type_invariant(&self);
        }
        self.text
    }
}

} // verus!
