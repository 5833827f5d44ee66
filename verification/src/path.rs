//! Paths of the local file system, as bytes in the Unix form.

use vstd::prelude::*;

use vstd::utf8::{decode_utf8, encode_utf8, valid_utf8};

verus! {

/// The byte that separates the parts of a path.
pub const SEPARATOR: u8 = 47;

/// The byte that stands for the current directory, or before an extension.
pub const DOT: u8 = 46;

/// Where one component of a path stands: from `start` up to `end`.
pub struct Span {
    pub start: int,
    pub end: int,
}

/// One component of a path.
pub enum ComponentView {
    /// The root directory.
    Root,
    /// The current directory, at the beginning of a path.
    Current,
    /// The parent directory.
    Parent,
    /// An ordinary name.
    Normal(Seq<u8>),
}

/// The part at `at` is the current directory.
pub open spec fn dot_part(bytes: Seq<u8>, at: int) -> bool {
    bytes[at] == DOT && (at + 1 >= bytes.len() || bytes[at + 1] == SEPARATOR)
}

/// Where the first component at or after `at` starts. Separators do not
/// count, nor does the current directory but at the beginning of the path.
pub open spec fn component_start(bytes: Seq<u8>, at: int) -> int
    decreases bytes.len() - at,
{
    if at >= bytes.len() {
        bytes.len() as int
    } else if bytes[at] == SEPARATOR || (at > 0 && dot_part(bytes, at)) {
        component_start(bytes, at + 1)
    } else {
        at
    }
}

/// Where the part at `at` ends.
pub open spec fn component_end(bytes: Seq<u8>, at: int) -> int
    decreases bytes.len() - at,
{
    if at >= bytes.len() {
        bytes.len() as int
    } else if bytes[at] == SEPARATOR {
        at
    } else {
        component_end(bytes, at + 1)
    }
}

/// A component starts within its path, and not at a separator.
pub proof fn lemma_start_bounds(bytes: Seq<u8>, at: int)
    requires
        0 <= at,
    ensures
        component_start(bytes, at) <= bytes.len(),
        at <= bytes.len() ==> at <= component_start(bytes, at),
        component_start(bytes, at) < bytes.len() ==> bytes[component_start(bytes, at)] != SEPARATOR,
    decreases bytes.len() - at,
{
    if at < bytes.len() {
        lemma_start_bounds(bytes, at + 1);
    }
}

/// A component ends within its path, at the next separator.
pub proof fn lemma_end_bounds(bytes: Seq<u8>, at: int)
    requires
        0 <= at,
    ensures
        component_end(bytes, at) <= bytes.len(),
        at <= bytes.len() ==> at <= component_end(bytes, at),
        at < bytes.len() && bytes[at] != SEPARATOR ==> at < component_end(bytes, at),
        component_end(bytes, at) < bytes.len() ==> bytes[component_end(bytes, at)] == SEPARATOR,
        forall|i: int| at <= i < component_end(bytes, at) ==> #[trigger] bytes[i] != SEPARATOR,
    decreases bytes.len() - at,
{
    if at < bytes.len() {
        lemma_end_bounds(bytes, at + 1);
    }
}

/// The components at or after `at`.
pub open spec fn spans_from(bytes: Seq<u8>, at: int) -> Seq<Span>
    decreases bytes.len() - at,
{
    if at < 0 || at >= bytes.len() {
        seq![]
    } else {
        let start = component_start(bytes, at);
        if start >= bytes.len() {
            seq![]
        } else {
            let end = component_end(bytes, start);
            proof {
                lemma_start_bounds(bytes, at);
                lemma_end_bounds(bytes, start);
            }
            seq![Span { start, end }] + spans_from(bytes, end)
        }
    }
}

/// Whether a path starts at the root directory.
pub open spec fn absolute(bytes: Seq<u8>) -> bool {
    bytes.len() > 0 && bytes[0] == SEPARATOR
}

/// The components of a path.
pub open spec fn spans(bytes: Seq<u8>) -> Seq<Span> {
    if absolute(bytes) {
        seq![Span { start: 0, end: 1 }] + spans_from(bytes, 1)
    } else {
        spans_from(bytes, 0)
    }
}

/// The component with these bytes.
pub open spec fn component(part: Seq<u8>) -> ComponentView {
    if part == seq![SEPARATOR] {
        ComponentView::Root
    } else if part == seq![DOT] {
        ComponentView::Current
    } else if part == seq![DOT, DOT] {
        ComponentView::Parent
    } else {
        ComponentView::Normal(part)
    }
}

/// The components of a path; two paths with the same components are one path.
pub open spec fn components(bytes: Seq<u8>) -> Seq<ComponentView> {
    spans(bytes).map_values(|span: Span| component(bytes.subrange(span.start, span.end)))
}

/// A name that is an ordinary component by itself.
pub open spec fn plain_name(name: Seq<u8>) -> bool {
    &&& name.len() > 0
    &&& name != seq![DOT]
    &&& name != seq![DOT, DOT]
    &&& forall|i: int| 0 <= i < name.len() ==> #[trigger] name[i] != SEPARATOR
}

/// A path with another one behind it; an absolute one takes its place.
pub open spec fn joined(base: Seq<u8>, tail: Seq<u8>) -> Seq<u8> {
    if absolute(tail) {
        tail
    } else if base.len() > 0 && base.last() != SEPARATOR {
        base + seq![SEPARATOR] + tail
    } else {
        base + tail
    }
}

/// A path without its last component; the root has none, nor has a path
/// without components.
pub open spec fn parent_of(bytes: Seq<u8>) -> Option<Seq<u8>> {
    let all = spans(bytes);
    if all.len() == 0 || component(bytes.subrange(all.last().start, all.last().end)) is Root {
        None
    } else if all.len() == 1 {
        Some(seq![])
    } else {
        Some(bytes.take(all[all.len() - 2].end))
    }
}

/// The last component of a path, where it is an ordinary name.
pub open spec fn file_name_of(bytes: Seq<u8>) -> Option<Seq<u8>> {
    let all = spans(bytes);
    if all.len() == 0 {
        None
    } else {
        match component(bytes.subrange(all.last().start, all.last().end)) {
            ComponentView::Normal(name) => Some(name),
            _ => None,
        }
    }
}

/// What is left of a path behind a path that it starts with.
pub open spec fn stripped(bytes: Seq<u8>, base: Seq<u8>) -> Option<Seq<u8>> {
    if components(base).is_prefix_of(components(bytes)) {
        let rest = spans(bytes).skip(spans(base).len() as int);
        if rest.len() == 0 {
            Some(seq![])
        } else {
            Some(bytes.subrange(rest.first().start, rest.last().end))
        }
    } else {
        None
    }
}

/// Where the last dot of a name stands; -1 where it has none.
pub open spec fn last_dot(name: Seq<u8>) -> int
    decreases name.len(),
{
    if name.len() == 0 {
        -1
    } else if name.last() == DOT {
        name.len() - 1
    } else {
        last_dot(name.drop_last())
    }
}

/// The part of a file name before its last dot; the whole name where it has
/// no dot but at its beginning.
pub open spec fn stem_of(name: Seq<u8>) -> Seq<u8> {
    if last_dot(name) <= 0 {
        name
    } else {
        name.take(last_dot(name))
    }
}

/// The part of a file name behind its last dot, if there is one that is not
/// at its beginning.
pub open spec fn extension_of(name: Seq<u8>) -> Option<Seq<u8>> {
    if last_dot(name) <= 0 {
        None
    } else {
        Some(name.skip(last_dot(name) + 1))
    }
}

/// Bytes as text; what is no UTF-8 is replaced.
pub uninterp spec fn lossy_text(bytes: Seq<u8>) -> Seq<char>;

/// `String::from_utf8_lossy`: the text of UTF-8 bytes; in other bytes, what
/// is no UTF-8 is replaced.
#[verifier::external_body]
fn lossy(bytes: &Vec<u8>) -> (text: String)
    ensures
        text@ == lossy_text(bytes@),
        valid_utf8(bytes@) ==> text@ == decode_utf8(bytes@),
{
    String::from_utf8_lossy(bytes).into_owned()
}

/// `str::from_utf8`: the text of bytes that are UTF-8; nothing for others.
#[verifier::external_body]
pub(crate) fn utf8_text(bytes: &Vec<u8>) -> (text: Option<String>)
    ensures
        text is Some <==> valid_utf8(bytes@),
        text is Some ==> text->0@ == decode_utf8(bytes@),
{
    std::str::from_utf8(bytes).ok().map(str::to_owned)
}

/// A path.
pub struct LocalPath {
    pub bytes: Vec<u8>,
}

impl View for LocalPath {
    type V = Seq<u8>;

    open spec fn view(&self) -> Seq<u8> {
        self.bytes@
    }
}

/// A copy of some bytes.
pub(crate) fn copy_bytes(bytes: &Vec<u8>, start: usize, end: usize) -> (copy: Vec<u8>)
    requires
        start <= end <= bytes.len(),
    ensures
        copy@ == bytes@.subrange(start as int, end as int),
{
    let mut copy: Vec<u8> = Vec::new();
    let mut at: usize = start;
    while at < end
        invariant
            start <= at <= end <= bytes.len(),
            copy@ == bytes@.subrange(start as int, at as int),
        decreases end - at,
    {
        copy.push(bytes[at]);
        assert(bytes@.subrange(start as int, at as int + 1) =~= bytes@.subrange(
            start as int,
            at as int,
        ).push(bytes@[at as int]));
        at = at + 1;
    }
    copy
}

/// Whether some bytes are equal.
pub(crate) fn same_bytes(left: &Vec<u8>, right: &Vec<u8>) -> (same: bool)
    ensures
        same == (left@ == right@),
{
    if left.len() != right.len() {
        return false;
    }
    let mut at: usize = 0;
    while at < left.len()
        invariant
            at <= left.len(),
            left.len() == right.len(),
            forall|i: int| 0 <= i < at ==> left@[i] == right@[i],
        decreases left.len() - at,
    {
        if left[at] != right[at] {
            return false;
        }
        at = at + 1;
    }
    assert(left@ =~= right@);
    true
}

/// The bytes of a text.
pub(crate) fn text_bytes(text: &str) -> (bytes: Vec<u8>)
    ensures
        bytes@ == encode_utf8(text@),
{
    let slice = text.as_bytes();
    let mut bytes: Vec<u8> = Vec::new();
    let mut at: usize = 0;
    while at < slice.len()
        invariant
            at <= slice@.len(),
            slice@ == encode_utf8(text@),
            bytes@ == slice@.take(at as int),
        decreases slice@.len() - at,
    {
        bytes.push(slice[at]);
        assert(slice@.take(at as int + 1) =~= slice@.take(at as int).push(slice@[at as int]));
        at = at + 1;
    }
    assert(slice@.take(slice@.len() as int) =~= slice@);
    bytes
}

fn find_start(bytes: &Vec<u8>, from: usize) -> (start: usize)
    requires
        from <= bytes.len(),
    ensures
        start == component_start(bytes@, from as int),
{
    let mut at: usize = from;
    while at < bytes.len() && (bytes[at] == SEPARATOR || (at > 0 && bytes[at] == DOT && (at + 1
        == bytes.len() || bytes[at + 1] == SEPARATOR)))
        invariant
            from <= at <= bytes.len(),
            component_start(bytes@, from as int) == component_start(bytes@, at as int),
        decreases bytes.len() - at,
    {
        at = at + 1;
    }
    at
}

fn find_end(bytes: &Vec<u8>, from: usize) -> (end: usize)
    requires
        from <= bytes.len(),
    ensures
        end == component_end(bytes@, from as int),
{
    let mut at: usize = from;
    while at < bytes.len() && bytes[at] != SEPARATOR
        invariant
            from <= at <= bytes.len(),
            component_end(bytes@, from as int) == component_end(bytes@, at as int),
        decreases bytes.len() - at,
    {
        at = at + 1;
    }
    at
}

/// Where one component of a path stands.
pub struct Place {
    pub start: usize,
    pub end: usize,
}

/// The places of components.
pub open spec fn places(spans: Seq<Place>) -> Seq<Span> {
    spans.map_values(|place: Place| Span { start: place.start as int, end: place.end as int })
}

/// Every component lies within its path.
pub proof fn lemma_spans_within(bytes: Seq<u8>, at: int)
    requires
        0 <= at,
    ensures
        forall|i: int|
            0 <= i < spans_from(bytes, at).len() ==> {
                let span = #[trigger] spans_from(bytes, at)[i];
                at <= span.start < span.end <= bytes.len()
            },
    decreases bytes.len() - at,
{
    if at < bytes.len() {
        let start = component_start(bytes, at);
        lemma_start_bounds(bytes, at);
        if start < bytes.len() {
            let end = component_end(bytes, start);
            lemma_end_bounds(bytes, start);
            lemma_spans_within(bytes, end);
            assert forall|i: int| 0 <= i < spans_from(bytes, at).len() implies {
                let span = #[trigger] spans_from(bytes, at)[i];
                at <= span.start < span.end <= bytes.len()
            } by {
                if i > 0 {
                    assert(spans_from(bytes, at)[i] == spans_from(bytes, end)[i - 1]);
                }
            }
        }
    }
}

/// Every component lies within its path.
pub proof fn lemma_all_spans_within(bytes: Seq<u8>)
    ensures
        forall|i: int|
            0 <= i < spans(bytes).len() ==> {
                let span = #[trigger] spans(bytes)[i];
                0 <= span.start < span.end <= bytes.len()
            },
{
    lemma_spans_within(bytes, 0);
    lemma_spans_within(bytes, 1);
    if absolute(bytes) {
        assert forall|i: int| 0 <= i < spans(bytes).len() implies {
            let span = #[trigger] spans(bytes)[i];
            0 <= span.start < span.end <= bytes.len()
        } by {
            if i > 0 {
                assert(spans(bytes)[i] == spans_from(bytes, 1)[i - 1]);
            }
        }
    }
}

impl LocalPath {
    /// The path with these bytes.
    pub fn from_bytes(bytes: Vec<u8>) -> (path: Self)
        ensures
            path@ == bytes@,
    {
        LocalPath { bytes }
    }

    /// The path with this text.
    pub fn from_text(text: &str) -> (path: Self)
        ensures
            path@ == encode_utf8(text@),
    {
        LocalPath { bytes: text_bytes(text) }
    }

    /// The same path once more.
    pub fn duplicate(&self) -> (copy: Self)
        ensures
            copy@ == self@,
    {
        let bytes = copy_bytes(&self.bytes, 0, self.bytes.len());
        assert(bytes@ =~= self@);
        LocalPath { bytes }
    }

    /// The path as text, for people.
    pub fn display(&self) -> (text: String)
        ensures
            text@ == lossy_text(self@),
            valid_utf8(self@) ==> text@ == decode_utf8(self@),
    {
        lossy(&self.bytes)
    }

    /// Whether the path starts at the root directory.
    pub fn is_absolute(&self) -> (yes: bool)
        ensures
            yes == absolute(self@),
    {
        self.bytes.len() > 0 && self.bytes[0] == SEPARATOR
    }

    /// The path with another one behind it; an absolute one takes its place.
    pub fn join_bytes(&self, tail: &Vec<u8>) -> (path: Self)
        ensures
            path@ == joined(self@, tail@),
    {
        if tail.len() > 0 && tail[0] == SEPARATOR {
            let bytes = copy_bytes(tail, 0, tail.len());
            assert(bytes@ =~= tail@);
            return LocalPath { bytes };
        }
        let mut bytes = copy_bytes(&self.bytes, 0, self.bytes.len());
        assert(bytes@ =~= self@);
        if bytes.len() > 0 && bytes[bytes.len() - 1] != SEPARATOR {
            bytes.push(SEPARATOR);
        }
        let ghost front = bytes@;
        let mut rest = copy_bytes(tail, 0, tail.len());
        assert(rest@ =~= tail@);
        bytes.append(&mut rest);
        assert(bytes@ =~= joined(self@, tail@));
        LocalPath { bytes }
    }

    /// The path with a text behind it.
    pub fn join(&self, tail: &str) -> (path: Self)
        ensures
            path@ == joined(self@, encode_utf8(tail@)),
    {
        self.join_bytes(&text_bytes(tail))
    }

    /// Where the components of the path stand.
    pub fn places(&self) -> (found: Vec<Place>)
        ensures
            places(found@) == spans(self@),
    {
        let ghost bytes = self@;
        let mut found: Vec<Place> = Vec::new();
        let mut at: usize = 0;
        if self.is_absolute() {
            found.push(Place { start: 0, end: 1 });
            at = 1;
        }
        assert(places(found@) + spans_from(bytes, at as int) =~= spans(bytes));
        while at < self.bytes.len()
            invariant
                at <= self.bytes.len(),
                bytes == self@,
                places(found@) + spans_from(bytes, at as int) == spans(bytes),
            decreases self.bytes.len() - at,
        {
            proof {
                lemma_start_bounds(bytes, at as int);
            }
            let start = find_start(&self.bytes, at);
            if start >= self.bytes.len() {
                assert(places(found@) =~= spans(bytes));
                return found;
            }
            proof {
                lemma_end_bounds(bytes, start as int);
            }
            let end = find_end(&self.bytes, start);
            let ghost before = places(found@);
            found.push(Place { start, end });
            assert(places(found@) =~= before.push(Span { start: start as int, end: end as int }));
            assert(places(found@) + spans_from(bytes, end as int) =~= before + spans_from(
                bytes,
                at as int,
            ));
            at = end;
        }
        assert(places(found@) =~= spans(bytes));
        found
    }

    /// The bytes of one component.
    fn part(&self, place: &Place) -> (part: Vec<u8>)
        requires
            place.start <= place.end <= self@.len(),
        ensures
            part@ == self@.subrange(place.start as int, place.end as int),
    {
        copy_bytes(&self.bytes, place.start, place.end)
    }

    /// The path without its last component.
    pub fn parent(&self) -> (parent: Option<Self>)
        ensures
            match parent {
                Some(parent) => parent_of(self@) == Some(parent@),
                None => parent_of(self@) is None,
            },
    {
        let found = self.places();
        proof {
            lemma_all_spans_within(self@);
        }
        assert(spans(self@).len() == found@.len());
        if found.len() == 0 {
            return None;
        }
        let last = &found[found.len() - 1];
        assert(spans(self@).last() == (Span { start: last.start as int, end: last.end as int }));
        assert(spans(self@)[found@.len() - 1] == spans(self@).last());
        if last.end - last.start == 1 && self.bytes[last.start] == SEPARATOR {
            assert(self@.subrange(last.start as int, last.end as int) =~= seq![SEPARATOR]);
            return None;
        }
        assert(self@.subrange(last.start as int, last.end as int) != seq![SEPARATOR]) by {
            if self@.subrange(last.start as int, last.end as int) == seq![SEPARATOR] {
                assert(self@.subrange(last.start as int, last.end as int).len() == 1);
                assert(self@.subrange(last.start as int, last.end as int)[0] == SEPARATOR);
            }
        }
        if found.len() == 1 {
            return Some(LocalPath { bytes: Vec::new() });
        }
        let before = &found[found.len() - 2];
        assert(spans(self@)[found@.len() - 2] == (Span {
            start: before.start as int,
            end: before.end as int,
        }));
        let bytes = copy_bytes(&self.bytes, 0, before.end);
        assert(bytes@ =~= self@.take(before.end as int));
        Some(LocalPath { bytes })
    }

    /// The last component of the path, where it is an ordinary name.
    pub fn file_name(&self) -> (name: Option<Vec<u8>>)
        ensures
            match name {
                Some(name) => file_name_of(self@) == Some(name@),
                None => file_name_of(self@) is None,
            },
    {
        let found = self.places();
        proof {
            lemma_all_spans_within(self@);
        }
        assert(spans(self@).len() == found@.len());
        if found.len() == 0 {
            return None;
        }
        let last = &found[found.len() - 1];
        assert(spans(self@)[found@.len() - 1] == (Span {
            start: last.start as int,
            end: last.end as int,
        }));
        let part = self.part(last);
        if normal_part(&part) {
            Some(part)
        } else {
            None
        }
    }

    /// Whether two paths have the same components.
    pub fn same_path(&self, other: &Self) -> (same: bool)
        ensures
            same == (components(self@) == components(other@)),
    {
        let left = self.places();
        let right = other.places();
        assert(components(self@).len() == left@.len());
        assert(components(other@).len() == right@.len());
        if left.len() != right.len() {
            return false;
        }
        let same = self.starts_with_places(&left, other, &right);
        if same {
            assert(components(self@) =~= components(other@));
        }
        same
    }

    /// The components of `base`, found at `right`, begin the components of
    /// this path, found at `left`.
    fn starts_with_places(&self, left: &Vec<Place>, base: &Self, right: &Vec<Place>) -> (yes: bool)
        requires
            places(left@) == spans(self@),
            places(right@) == spans(base@),
            right@.len() <= left@.len(),
        ensures
            yes == components(base@).is_prefix_of(components(self@)),
    {
        proof {
            lemma_all_spans_within(self@);
            lemma_all_spans_within(base@);
        }
        assert(components(self@).len() == left@.len());
        assert(components(base@).len() == right@.len());
        let mut at: usize = 0;
        while at < right.len()
            invariant
                at <= right.len() <= left.len(),
                places(left@) == spans(self@),
                places(right@) == spans(base@),
                components(self@).len() == left@.len(),
                components(base@).len() == right@.len(),
                forall|i: int|
                    0 <= i < spans(self@).len() ==> {
                        let span = #[trigger] spans(self@)[i];
                        0 <= span.start < span.end <= self@.len()
                    },
                forall|i: int|
                    0 <= i < spans(base@).len() ==> {
                        let span = #[trigger] spans(base@)[i];
                        0 <= span.start < span.end <= base@.len()
                    },
                forall|i: int|
                    0 <= i < at ==> #[trigger] components(self@)[i] == components(base@)[i],
            decreases right.len() - at,
        {
            assert(spans(self@)[at as int] == places(left@)[at as int]);
            assert(spans(base@)[at as int] == places(right@)[at as int]);
            let part = self.part(&left[at]);
            let base_part = base.part(&right[at]);
            proof {
                lemma_component_injective(part@, base_part@);
            }
            assert(components(self@)[at as int] == component(part@));
            assert(components(base@)[at as int] == component(base_part@));
            if !same_bytes(&part, &base_part) {
                assert(components(base@)[at as int] != components(self@)[at as int]);
                return false;
            }
            at = at + 1;
        }
        assert(components(base@) =~= components(self@).take(right@.len() as int));
        true
    }

    /// What is left of the path behind a path that it starts with.
    pub fn strip_prefix(&self, base: &Self) -> (rest: Option<Self>)
        ensures
            match rest {
                Some(rest) => stripped(self@, base@) == Some(rest@),
                None => stripped(self@, base@) is None,
            },
    {
        let left = self.places();
        let right = base.places();
        assert(components(self@).len() == left@.len());
        assert(components(base@).len() == right@.len());
        assert(spans(self@).len() == left@.len());
        assert(spans(base@).len() == right@.len());
        if right.len() > left.len() || !self.starts_with_places(&left, base, &right) {
            return None;
        }
        proof {
            lemma_all_spans_within(self@);
        }
        if right.len() == left.len() {
            return Some(LocalPath { bytes: Vec::new() });
        }
        assert(spans(self@)[right@.len() as int] == places(left@)[right@.len() as int]);
        assert(spans(self@)[left@.len() - 1] == places(left@)[left@.len() - 1]);
        proof {
            lemma_spans_ordered(self@, right@.len() as int, left@.len() - 1);
        }
        let start = left[right.len()].start;
        let end = left[left.len() - 1].end;
        Some(LocalPath { bytes: copy_bytes(&self.bytes, start, end) })
    }

    /// The ordinary names among the components of the path.
    pub fn normal_names(&self) -> (names: Vec<Vec<u8>>)
        ensures
            names@.map_values(|name: Vec<u8>| name@) == normal_names_of(components(self@)),
    {
        let found = self.places();
        proof {
            lemma_all_spans_within(self@);
        }
        let ghost all = components(self@);
        assert(all.len() == found@.len());
        let mut names: Vec<Vec<u8>> = Vec::new();
        let mut at: usize = 0;
        assert(all.take(0) =~= seq![]);
        assert(names@.map_values(|name: Vec<u8>| name@) =~= normal_names_of(all.take(0)));
        while at < found.len()
            invariant
                at <= found.len(),
                places(found@) == spans(self@),
                all == components(self@),
                all.len() == found@.len(),
                forall|i: int|
                    0 <= i < spans(self@).len() ==> {
                        let span = #[trigger] spans(self@)[i];
                        0 <= span.start < span.end <= self@.len()
                    },
                names@.map_values(|name: Vec<u8>| name@) == normal_names_of(all.take(at as int)),
            decreases found.len() - at,
        {
            assert(spans(self@)[at as int] == places(found@)[at as int]);
            let part = self.part(&found[at]);
            assert(all[at as int] == component(part@));
            assert(all.take(at as int + 1).drop_last() =~= all.take(at as int));
            let ghost before = names@.map_values(|name: Vec<u8>| name@);
            if normal_part(&part) {
                names.push(part);
                assert(names@.map_values(|name: Vec<u8>| name@) =~= before.push(part@));
            }
            at = at + 1;
        }
        assert(all.take(all.len() as int) =~= all);
        names
    }
}

/// The ordinary names among some components.
pub open spec fn normal_names_of(all: Seq<ComponentView>) -> Seq<Seq<u8>>
    decreases all.len(),
{
    if all.len() == 0 {
        seq![]
    } else {
        match all.last() {
            ComponentView::Normal(name) => normal_names_of(all.drop_last()).push(name),
            _ => normal_names_of(all.drop_last()),
        }
    }
}

/// Whether a part of a path is an ordinary name.
fn normal_part(part: &Vec<u8>) -> (yes: bool)
    ensures
        yes == component(part@) is Normal,
        yes ==> component(part@) == ComponentView::Normal(part@),
{
    if part.len() == 1 && (part[0] == SEPARATOR || part[0] == DOT) {
        assert(part@ =~= seq![part@[0]]);
        return false;
    }
    if part.len() == 2 && part[0] == DOT && part[1] == DOT {
        assert(part@ =~= seq![DOT, DOT]);
        return false;
    }
    assert(part@ != seq![SEPARATOR]) by {
        if part@ == seq![SEPARATOR] {
            assert(part@.len() == 1 && part@[0] == SEPARATOR);
        }
    }
    assert(part@ != seq![DOT]) by {
        if part@ == seq![DOT] {
            assert(part@.len() == 1 && part@[0] == DOT);
        }
    }
    assert(part@ != seq![DOT, DOT]) by {
        if part@ == seq![DOT, DOT] {
            assert(part@.len() == 2 && part@[0] == DOT && part@[1] == DOT);
        }
    }
    true
}

proof fn lemma_component_injective(left: Seq<u8>, right: Seq<u8>)
    ensures
        component(left) == component(right) <==> left == right,
{
    assert(seq![SEPARATOR] != seq![DOT]) by {
        assert(seq![SEPARATOR][0] != seq![DOT][0]);
    }
    assert(seq![SEPARATOR].len() != seq![DOT, DOT].len());
    assert(seq![DOT].len() != seq![DOT, DOT].len());
}

proof fn lemma_spans_from_ordered(bytes: Seq<u8>, at: int, i: int, j: int)
    requires
        0 <= at,
        0 <= i <= j < spans_from(bytes, at).len(),
    ensures
        spans_from(bytes, at)[i].start <= spans_from(bytes, at)[j].start,
    decreases bytes.len() - at,
{
    let start = component_start(bytes, at);
    let end = component_end(bytes, start);
    lemma_start_bounds(bytes, at);
    lemma_end_bounds(bytes, start);
    lemma_spans_within(bytes, end);
    if i > 0 {
        lemma_spans_from_ordered(bytes, end, i - 1, j - 1);
        assert(spans_from(bytes, at)[i] == spans_from(bytes, end)[i - 1]);
        assert(spans_from(bytes, at)[j] == spans_from(bytes, end)[j - 1]);
    } else if j > 0 {
        assert(spans_from(bytes, at)[j] == spans_from(bytes, end)[j - 1]);
    }
}

proof fn lemma_spans_ordered(bytes: Seq<u8>, i: int, j: int)
    requires
        0 <= i <= j < spans(bytes).len(),
    ensures
        spans(bytes)[i].start <= spans(bytes)[j].start,
{
    if absolute(bytes) {
        lemma_all_spans_within(bytes);
        if i > 0 {
            lemma_spans_from_ordered(bytes, 1, i - 1, j - 1);
            assert(spans(bytes)[i] == spans_from(bytes, 1)[i - 1]);
            assert(spans(bytes)[j] == spans_from(bytes, 1)[j - 1]);
        }
    } else {
        lemma_spans_from_ordered(bytes, 0, i, j);
    }
}

/// The part of a file name before its last dot.
pub fn file_stem(name: &Vec<u8>) -> (stem: Vec<u8>)
    ensures
        stem@ == stem_of(name@),
{
    match find_last_dot(name) {
        Some(at) => {
            let stem = copy_bytes(name, 0, at);
            assert(stem@ =~= name@.take(at as int));
            stem
        },
        None => {
            let stem = copy_bytes(name, 0, name.len());
            assert(stem@ =~= name@);
            stem
        },
    }
}

/// The part of a file name behind its last dot.
pub fn extension(name: &Vec<u8>) -> (found: Option<Vec<u8>>)
    ensures
        match found {
            Some(found) => extension_of(name@) == Some(found@),
            None => extension_of(name@) is None,
        },
{
    let length: usize = name.len();
    match find_last_dot(name) {
        Some(at) => {
            let found = copy_bytes(name, at + 1, length);
            assert(found@ =~= name@.skip(at as int + 1));
            Some(found)
        },
        None => None,
    }
}

/// The last dot of a name, if it is not at its beginning.
fn find_last_dot(name: &Vec<u8>) -> (found: Option<usize>)
    ensures
        match found {
            Some(at) => last_dot(name@) == at && 0 < at < name@.len(),
            None => last_dot(name@) <= 0,
        },
{
    let mut at: usize = name.len();
    assert(name@.take(at as int) =~= name@);
    while at > 0
        invariant
            at <= name.len(),
            last_dot(name@) == last_dot(name@.take(at as int)),
        decreases at,
    {
        assert(name@.take(at as int).drop_last() =~= name@.take(at as int - 1));
        if name[at - 1] == DOT {
            return if at > 1 {
                Some(at - 1)
            } else {
                None
            };
        }
        at = at - 1;
    }
    None
}

proof fn lemma_start_behind(base: Seq<u8>, name: Seq<u8>, whole: Seq<u8>, at: int)
    requires
        plain_name(name),
        whole == joined(base, name),
        0 <= at <= base.len(),
    ensures
        component_start(whole, at) == (if component_start(base, at) < base.len() {
            component_start(base, at)
        } else {
            whole.len() - name.len()
        }),
    decreases base.len() - at,
{
    let m = whole.len() - name.len();
    assert(name[0] != SEPARATOR);
    if at < base.len() {
        assert(whole[at] == base[at]);
        if base[at] == DOT {
            assert(dot_part(whole, at) == dot_part(base, at)) by {
                if at + 1 < base.len() {
                    assert(whole[at + 1] == base[at + 1]);
                } else {
                    assert(base.last() == DOT);
                    assert(whole[at + 1] == SEPARATOR);
                }
            }
        }
        lemma_start_behind(base, name, whole, at + 1);
    } else {
        assert(whole[m] == name[0]);
        assert(!dot_part(whole, m)) by {
            if name[0] == DOT {
                if name.len() == 1 {
                    assert(name =~= seq![DOT]);
                } else {
                    assert(whole[m + 1] == name[1]);
                    assert(name[1] != SEPARATOR);
                }
            }
        }
        if m > base.len() {
            assert(whole[at] == SEPARATOR);
            assert(component_start(whole, at) == component_start(whole, m));
        }
    }
}

proof fn lemma_end_behind(base: Seq<u8>, name: Seq<u8>, whole: Seq<u8>, at: int)
    requires
        plain_name(name),
        whole == joined(base, name),
        0 <= at < base.len(),
    ensures
        component_end(whole, at) == component_end(base, at),
    decreases base.len() - at,
{
    assert(name[0] != SEPARATOR);
    assert(whole[at] == base[at]);
    if base[at] != SEPARATOR {
        if at + 1 < base.len() {
            lemma_end_behind(base, name, whole, at + 1);
        } else {
            assert(base.last() != SEPARATOR);
            assert(whole[at + 1] == SEPARATOR);
            assert(component_end(whole, at + 1) == at + 1);
            assert(component_end(base, at + 1) == base.len());
        }
    }
}

proof fn lemma_name_end(name: Seq<u8>, whole: Seq<u8>, at: int)
    requires
        plain_name(name),
        name.len() <= whole.len(),
        whole.skip(whole.len() - name.len()) == name,
        whole.len() - name.len() <= at <= whole.len(),
    ensures
        component_end(whole, at) == whole.len(),
    decreases whole.len() - at,
{
    if at < whole.len() {
        assert(whole[at] == name[at - (whole.len() - name.len())]);
        lemma_name_end(name, whole, at + 1);
    }
}

proof fn lemma_spans_behind(base: Seq<u8>, name: Seq<u8>, whole: Seq<u8>, at: int)
    requires
        plain_name(name),
        whole == joined(base, name),
        0 <= at <= base.len(),
    ensures
        spans_from(whole, at) == spans_from(base, at).push(
            Span { start: whole.len() - name.len(), end: whole.len() as int },
        ),
    decreases base.len() - at,
{
    let m = whole.len() - name.len();
    assert(name[0] != SEPARATOR);
    assert(whole.skip(m) =~= name);
    lemma_start_behind(base, name, whole, at);
    lemma_start_bounds(base, at);
    let start = component_start(base, at);
    if start < base.len() {
        lemma_end_bounds(base, start);
        lemma_end_behind(base, name, whole, start);
        let end = component_end(base, start);
        lemma_spans_behind(base, name, whole, end);
        assert(spans_from(whole, at) =~= spans_from(base, at).push(
            Span { start: m, end: whole.len() as int },
        ));
    } else {
        lemma_name_end(name, whole, m);
        assert(spans_from(base, at) =~= seq![]);
        assert(spans_from(whole, whole.len() as int) =~= seq![]);
        assert(spans_from(whole, at) =~= seq![Span { start: m, end: whole.len() as int }]);
    }
}

/// A path with an ordinary name behind it has the places of its components,
/// and one more at its end.
pub(crate) proof fn lemma_join_spans(base: Seq<u8>, name: Seq<u8>)
    requires
        plain_name(name),
    ensures
        spans(joined(base, name)) == spans(base).push(
            Span {
                start: joined(base, name).len() - name.len(),
                end: joined(base, name).len() as int,
            },
        ),
        joined(base, name).skip(joined(base, name).len() - name.len()) == name,
{
    let whole = joined(base, name);
    let m = whole.len() - name.len();
    assert(name[0] != SEPARATOR);
    if base.len() > 0 {
        assert(whole[0] == base[0]);
    }
    if absolute(base) {
        lemma_spans_behind(base, name, whole, 1);
    } else {
        assert(!absolute(whole));
        lemma_spans_behind(base, name, whole, 0);
    }
    assert(spans(whole) =~= spans(base).push(Span { start: m, end: whole.len() as int }));
    assert(whole.skip(m) =~= name);
}

/// A path with an ordinary name behind it has that name as one more component.
pub proof fn law_join_adds_a_component(base: Seq<u8>, name: Seq<u8>)
    requires
        plain_name(name),
    ensures
        components(joined(base, name)) == components(base).push(ComponentView::Normal(name)),
{
    let whole = joined(base, name);
    let m = whole.len() - name.len();
    lemma_join_spans(base, name);
    lemma_all_spans_within(base);
    assert(whole.subrange(m, whole.len() as int) =~= name);
    assert(component(name) == ComponentView::Normal(name)) by {
        if name == seq![SEPARATOR] {
            assert(name[0] == SEPARATOR);
        }
    }
    assert forall|i: int| 0 <= i < spans(base).len() implies #[trigger] components(whole)[i]
        == components(base)[i] by {
        let span = spans(base)[i];
        assert(spans(whole)[i] == span);
        assert(whole.subrange(span.start, span.end) =~= base.subrange(span.start, span.end));
    }
    assert(components(whole) =~= components(base).push(ComponentView::Normal(name)));
}

/// Ordinary names.
pub open spec fn plain_names(names: Seq<Seq<u8>>) -> bool {
    forall|i: int| 0 <= i < names.len() ==> plain_name(#[trigger] names[i])
}

/// Names with a separator between neighbours.
pub open spec fn relative_path(names: Seq<Seq<u8>>) -> Seq<u8>
    decreases names.len(),
{
    if names.len() == 0 {
        seq![]
    } else if names.len() == 1 {
        names[0]
    } else {
        relative_path(names.drop_last()) + seq![47u8] + names.last()
    }
}

/// The path from the root directory on through these names.
pub open spec fn root_path(names: Seq<Seq<u8>>) -> Seq<u8> {
    seq![47u8] + relative_path(names)
}

/// The components for ordinary names.
pub open spec fn named_components(names: Seq<Seq<u8>>) -> Seq<ComponentView> {
    names.map_values(|name: Seq<u8>| ComponentView::Normal(name))
}

proof fn lemma_relative_end(names: Seq<Seq<u8>>)
    requires
        plain_names(names),
        names.len() > 0,
    ensures
        relative_path(names).len() > 0,
        relative_path(names).last() != SEPARATOR,
        relative_path(names)[0] != SEPARATOR,
    decreases names.len(),
{
    let last = names[names.len() - 1];
    assert(plain_name(last));
    assert(last[last.len() - 1] != SEPARATOR);
    assert(last[0] != SEPARATOR);
    if names.len() > 1 {
        let front = names.drop_last();
        assert forall|i: int| 0 <= i < front.len() implies plain_name(#[trigger] front[i]) by {
            assert(front[i] == names[i]);
        }
        lemma_relative_end(front);
        let whole = relative_path(names);
        assert(whole.last() == last.last());
        assert(whole[0] == relative_path(front)[0]);
    }
}

/// One more name at the end of a path from the root.
pub(crate) proof fn lemma_root_path_grows(names: Seq<Seq<u8>>)
    requires
        plain_names(names),
        names.len() > 0,
    ensures
        root_path(names) == joined(root_path(names.drop_last()), names.last()),
        plain_names(names.drop_last()),
        plain_name(names.last()),
{
    let front = names.drop_last();
    let last = names[names.len() - 1];
    assert(plain_name(last));
    assert(last[0] != SEPARATOR);
    assert forall|i: int| 0 <= i < front.len() implies plain_name(#[trigger] front[i]) by {
        assert(front[i] == names[i]);
    }
    if front.len() > 0 {
        lemma_relative_end(front);
        assert(root_path(front).last() == relative_path(front).last());
    } else {
        assert(relative_path(front) =~= seq![]);
        assert(root_path(front) =~= seq![47u8]);
    }
    assert(root_path(names) =~= joined(root_path(front), last));
}

proof fn lemma_root_path_spans(names: Seq<Seq<u8>>)
    requires
        plain_names(names),
    ensures
        spans(root_path(names)).len() == names.len() + 1,
        spans(root_path(names)).last().end == root_path(names).len(),
        components(root_path(names)) == seq![ComponentView::Root] + named_components(names),
    decreases names.len(),
{
    let path = root_path(names);
    if names.len() == 0 {
        assert(path =~= seq![47u8]);
        assert(spans_from(path, 1) =~= seq![]);
        assert(spans(path) =~= seq![Span { start: 0, end: 1 }]);
        assert(path.subrange(0, 1) =~= seq![SEPARATOR]);
        assert(components(path) =~= seq![ComponentView::Root] + named_components(names));
    } else {
        lemma_root_path_grows(names);
        lemma_root_path_spans(names.drop_last());
        lemma_join_spans(root_path(names.drop_last()), names.last());
        law_join_adds_a_component(root_path(names.drop_last()), names.last());
        assert(components(path) =~= seq![ComponentView::Root] + named_components(names));
    }
}

/// A path from the root has the root and its names as components. Its parent
/// is the path without the last name, which is its file name; the root itself
/// has neither.
pub proof fn law_root_paths(names: Seq<Seq<u8>>)
    requires
        plain_names(names),
    ensures
        components(root_path(names)) == seq![ComponentView::Root] + named_components(names),
        absolute(root_path(names)),
        parent_of(root_path(names)) == (if names.len() == 0 {
            None
        } else {
            Some(root_path(names.drop_last()))
        }),
        file_name_of(root_path(names)) == (if names.len() == 0 {
            None
        } else {
            Some(names.last())
        }),
{
    let path = root_path(names);
    lemma_root_path_spans(names);
    assert(components(path).last() == component(
        path.subrange(spans(path).last().start, spans(path).last().end),
    ));
    if names.len() > 0 {
        let front = names.drop_last();
        lemma_root_path_grows(names);
        lemma_root_path_spans(front);
        lemma_join_spans(root_path(front), names.last());
        assert(components(path).last() == ComponentView::Normal(names.last()));
        let all = spans(path);
        assert(all[all.len() - 2] == spans(root_path(front)).last());
        assert(path.take(root_path(front).len() as int) =~= root_path(front));
    } else {
        assert(components(path).last() == ComponentView::Root);
    }
}

proof fn lemma_relative_split(front: Seq<Seq<u8>>, back: Seq<Seq<u8>>)
    requires
        front.len() > 0,
        back.len() > 0,
    ensures
        relative_path(front + back) == relative_path(front) + seq![47u8] + relative_path(back),
    decreases back.len(),
{
    let whole = front + back;
    assert(whole.last() == back.last());
    assert(whole.drop_last() =~= front + back.drop_last());
    if back.len() > 1 {
        lemma_relative_split(front, back.drop_last());
    } else {
        assert(front + back.drop_last() =~= front);
    }
    assert(relative_path(whole) =~= relative_path(front) + seq![47u8] + relative_path(back));
}

proof fn lemma_tail_starts(front: Seq<Seq<u8>>, back: Seq<Seq<u8>>)
    requires
        plain_names(front + back),
        back.len() > 0,
    ensures
        spans(root_path(front + back))[front.len() as int + 1].start == root_path(front + back).len()
            - relative_path(back).len(),
        root_path(front + back).skip(
            root_path(front + back).len() - relative_path(back).len(),
        ) == relative_path(back),
    decreases back.len(),
{
    let whole = front + back;
    let path = root_path(whole);
    lemma_root_path_grows(whole);
    lemma_root_path_spans(whole.drop_last());
    lemma_join_spans(root_path(whole.drop_last()), whole.last());
    assert(whole.drop_last() =~= front + back.drop_last());
    if back.len() > 1 {
        lemma_tail_starts(front, back.drop_last());
    } else {
        assert(front + back.drop_last() =~= front);
    }
    if front.len() > 0 {
        lemma_relative_split(front, back);
        assert(path.skip(path.len() - relative_path(back).len()) =~= relative_path(back));
    } else {
        assert(whole =~= back);
        assert(path.skip(path.len() - relative_path(back).len()) =~= relative_path(back));
    }
    if back.len() > 1 {
        let shorter = root_path(whole.drop_last());
        assert(path == joined(shorter, whole.last()));
        assert(spans(path)[front.len() as int + 1] == spans(shorter)[front.len() as int + 1]);
        assert(relative_path(back).len() == relative_path(back.drop_last()).len() + 1
            + back.last().len());
        assert(path.len() == shorter.len() + 1 + back.last().len()) by {
            lemma_relative_end(whole.drop_last());
            assert(shorter.last() == relative_path(whole.drop_last()).last());
        }
    }
}

/// What is left of a path from the root, behind a directory that it lies in,
/// is the names that follow.
pub proof fn law_strip_leaves_the_rest(front: Seq<Seq<u8>>, back: Seq<Seq<u8>>)
    requires
        plain_names(front + back),
        back.len() > 0,
    ensures
        stripped(root_path(front + back), root_path(front)) == Some(relative_path(back)),
{
    let whole = front + back;
    let path = root_path(whole);
    let base = root_path(front);
    assert forall|i: int| 0 <= i < front.len() implies plain_name(#[trigger] front[i]) by {
        assert(front[i] == whole[i]);
    }
    lemma_root_path_spans(whole);
    lemma_root_path_spans(front);
    lemma_tail_starts(front, back);
    assert(components(base) =~= components(path).take(components(base).len() as int)) by {
        assert forall|i: int| 0 <= i < components(base).len() implies components(base)[i]
            == components(path)[i] by {
            if i > 0 {
                assert(named_components(front)[i - 1] == named_components(whole)[i - 1]);
            }
        }
    }
    let rest = spans(path).skip(spans(base).len() as int);
    assert(rest.first() == spans(path)[front.len() as int + 1]);
    assert(rest.last() == spans(path).last());
    assert(path.subrange(rest.first().start, rest.last().end) =~= path.skip(rest.first().start));
}

} // verus!
