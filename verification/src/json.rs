//! JSON documents as plain values, and their passage into `serde_json`.

use serde_json::Value;
use vstd::prelude::*;

use crate::text::same_text;

verus! {

/// `serde_json::Value`, carried as it is between calls into outside crates.
#[verifier::external_type_specification]
#[verifier::external_body]
pub struct ExValue(serde_json::Value);

/// `serde_json::Number`, carried as it is.
#[verifier::external_type_specification]
#[verifier::external_body]
pub struct ExNumber(serde_json::Number);

/// A JSON number that is no 64-bit integer, kept as it was received.
///
/// Values of this type come from [`json_from_value`] only.
pub struct Fraction {
    number: serde_json::Number,
}

/// What a JSON document says: objects are maps, the order of their members
/// does not count.
pub enum JsonView {
    Null,
    Bool(bool),
    Unsigned(nat),
    Negative(int),
    Fraction(Fraction),
    Text(Seq<char>),
    Array(Seq<JsonView>),
    Object(Map<Seq<char>, JsonView>),
}

/// A JSON document.
pub enum Json {
    Null,
    Bool(bool),
    Unsigned(u64),
    /// A signed integer; it counts as unsigned where it is not negative.
    Negative(i64),
    Fraction(Fraction),
    Text(String),
    Array(Vec<Json>),
    /// The members in the order in which they were written; of two members
    /// with one name the later counts.
    Object(Vec<(String, Json)>),
}

/// The views of the items of an array.
pub open spec fn items_view(items: Seq<Json>) -> Seq<JsonView>
    decreases items,
{
    Seq::new(
        items.len(),
        |i: int|
            if 0 <= i < items.len() {
                items[i].view()
            } else {
                JsonView::Null
            },
    )
}

/// The members of an object as a map.
pub open spec fn members_view(members: Seq<(String, Json)>) -> Map<Seq<char>, JsonView>
    decreases members,
{
    if members.len() == 0 {
        Map::empty()
    } else {
        members_view(members.drop_last()).insert(members.last().0@, members.last().1.view())
    }
}

impl View for Json {
    type V = JsonView;

    open spec fn view(&self) -> JsonView
        decreases self,
    {
        match *self {
            Json::Null => JsonView::Null,
            Json::Bool(flag) => JsonView::Bool(flag),
            Json::Unsigned(number) => JsonView::Unsigned(number as nat),
            Json::Negative(number) => if number < 0 {
                JsonView::Negative(number as int)
            } else {
                JsonView::Unsigned(number as nat)
            },
            Json::Fraction(number) => JsonView::Fraction(number),
            Json::Text(text) => JsonView::Text(text@),
            Json::Array(items) => JsonView::Array(items_view(items@)),
            Json::Object(members) => JsonView::Object(members_view(members@)),
        }
    }
}

impl JsonView {
    /// The member `name` of an object; nothing for any other document.
    pub open spec fn member(self, name: Seq<char>) -> Option<JsonView> {
        match self {
            JsonView::Object(members) => if members.dom().contains(name) {
                Some(members[name])
            } else {
                None
            },
            _ => None,
        }
    }

    /// The text of a text document.
    pub open spec fn text(self) -> Option<Seq<char>> {
        match self {
            JsonView::Text(text) => Some(text),
            _ => None,
        }
    }

    /// The member `name` of an object, where it is a text.
    pub open spec fn text_member(self, name: Seq<char>) -> Option<Seq<char>> {
        match self.member(name) {
            Some(value) => value.text(),
            None => None,
        }
    }
}

/// The members of an object being written.
pub struct Members {
    entries: Vec<(String, Json)>,
}

impl View for Members {
    type V = Map<Seq<char>, JsonView>;

    closed spec fn view(&self) -> Map<Seq<char>, JsonView> {
        members_view(self.entries@)
    }
}

impl Members {
    /// No members yet.
    pub fn new() -> (members: Self)
        ensures
            members@ == Map::<Seq<char>, JsonView>::empty(),
    {
        Members { entries: Vec::new() }
    }

    /// Writes one member.
    pub fn put(&mut self, name: &str, value: Json)
        ensures
            final(self)@ == old(self)@.insert(name@, value@),
    {
        let ghost before = self.entries@;
        self.entries.push((name.to_owned(), value));
        assert(self.entries@.drop_last() =~= before);
    }

    /// Writes one text member.
    pub fn put_text(&mut self, name: &str, value: &str)
        ensures
            final(self)@ == old(self)@.insert(name@, JsonView::Text(value@)),
    {
        self.put(name, Json::Text(value.to_owned()));
    }

    /// The object with these members.
    pub fn object(self) -> (json: Json)
        ensures
            json@ == JsonView::Object(self@),
    {
        Json::Object(self.entries)
    }
}

impl Json {
    /// The document that a value holds.
    pub fn from_value(value: &Value) -> (json: Json)
        ensures
            json@ == json_of(*value),
    {
        json_from_value(value)
    }

    /// The document as a value.
    pub fn to_value(&self) -> (value: Value)
        ensures
            json_of(value) == self@,
    {
        json_value(self)
    }

    /// An object without members.
    pub fn empty_object() -> (json: Json)
        ensures
            json@ == JsonView::Object(Map::empty()),
    {
        Members::new().object()
    }

    /// A text document.
    pub fn text(text: &str) -> (json: Json)
        ensures
            json@ == JsonView::Text(text@),
    {
        Json::Text(text.to_owned())
    }

    /// An array of texts.
    pub fn text_array(items: &Vec<&str>) -> (json: Json)
        ensures
            json@ == JsonView::Array(items@.map_values(|item: &str| JsonView::Text(item@))),
    {
        let mut values: Vec<Json> = Vec::new();
        let mut at: usize = 0;
        while at < items.len()
            invariant
                at <= items.len(),
                values@.len() == at,
                forall|i: int| 0 <= i < at ==> (#[trigger] values@[i])@ == JsonView::Text(items@[i]@),
            decreases items.len() - at,
        {
            values.push(Json::text(items[at]));
            at = at + 1;
        }
        assert(items_view(values@) =~= items@.map_values(|item: &str| JsonView::Text(item@)));
        Json::Array(values)
    }

    /// An array with one item.
    pub fn array_of_one(item: Json) -> (json: Json)
        ensures
            json@ == JsonView::Array(seq![item@]),
    {
        let mut items: Vec<Json> = Vec::new();
        items.push(item);
        assert(items_view(items@) =~= seq![item@]);
        Json::Array(items)
    }

    /// An array of documents.
    pub fn array(items: Vec<Json>) -> (json: Json)
        ensures
            json@ == JsonView::Array(items_view(items@)),
    {
        Json::Array(items)
    }

    /// The member `name` of an object.
    pub fn get(&self, name: &str) -> (value: Option<&Json>)
        ensures
            match value {
                Some(found) => self@.member(name@) == Some(found@),
                None => self@.member(name@) is None,
            },
    {
        match self {
            Json::Object(members) => {
                let ghost wanted = self@.member(name@);
                let mut at: usize = members.len();
                assert(members@.take(at as int) =~= members@);
                while at > 0
                    invariant
                        at <= members.len(),
                        wanted == JsonView::Object(members_view(members@.take(at as int))).member(
                            name@,
                        ),
                        wanted == self@.member(name@),
                    decreases at,
                {
                    assert(members@.take(at as int).drop_last() =~= members@.take(at as int - 1));
                    if same_text(members[at - 1].0.as_str(), name) {
                        return Some(&members[at - 1].1);
                    }
                    proof {
                        let whole = members_view(members@.take(at as int));
                        let rest = members_view(members@.take(at as int - 1));
                        let last = members@[at as int - 1];
                        assert(whole == rest.insert(last.0@, last.1@));
                        assert(whole.dom().contains(name@) == rest.dom().contains(name@));
                        assert(rest.dom().contains(name@) ==> whole[name@] == rest[name@]);
                    }
                    at = at - 1;
                }
                None
            },
            _ => None,
        }
    }

    /// The document without the member `name`, where it is an object.
    pub fn without(&self, name: &str) -> (json: Json)
        ensures
            json@ == (match self@ {
                JsonView::Object(members) => JsonView::Object(members.remove(name@)),
                other => other,
            }),
    {
        match self {
            Json::Object(members) => {
                let mut kept = Members::new();
                let mut at: usize = 0;
                assert(members@.take(0) =~= seq![]);
                assert(kept@ =~= members_view(members@.take(0)).remove(name@));
                while at < members.len()
                    invariant
                        at <= members.len(),
                        kept@ == members_view(members@.take(at as int)).remove(name@),
                    decreases members.len() - at,
                {
                    let ghost before = members_view(members@.take(at as int));
                    assert(members@.take(at as int + 1).drop_last() =~= members@.take(at as int));
                    let member = &members[at];
                    if !same_text(member.0.as_str(), name) {
                        kept.put(member.0.as_str(), member.1.duplicate());
                        assert(before.insert(member.0@, member.1@).remove(name@) =~= before.remove(
                            name@,
                        ).insert(member.0@, member.1@));
                    } else {
                        assert(before.insert(member.0@, member.1@).remove(name@) =~= before.remove(
                            name@,
                        ));
                    }
                    at = at + 1;
                }
                assert(members@.take(members.len() as int) =~= members@);
                kept.object()
            },
            _ => self.duplicate(),
        }
    }

    /// The text of a text document.
    pub fn as_text(&self) -> (text: Option<&str>)
        ensures
            match text {
                Some(found) => self@.text() == Some(found@),
                None => self@.text() is None,
            },
    {
        match self {
            Json::Text(text) => Some(text.as_str()),
            _ => None,
        }
    }

    /// The member `name` of an object, where it is a text.
    pub fn get_text(&self, name: &str) -> (text: Option<&str>)
        ensures
            match text {
                Some(found) => self@.text_member(name@) == Some(found@),
                None => self@.text_member(name@) is None,
            },
    {
        match self.get(name) {
            Some(value) => value.as_text(),
            None => None,
        }
    }

    /// A second copy of the document.
    pub fn duplicate(&self) -> (copy: Json)
        ensures
            copy@ == self@,
        decreases self,
    {
        match self {
            Json::Null => Json::Null,
            Json::Bool(flag) => Json::Bool(*flag),
            Json::Unsigned(number) => Json::Unsigned(*number),
            Json::Negative(number) => Json::Negative(*number),
            Json::Fraction(number) => Json::Fraction(copy_fraction(number)),
            Json::Text(text) => Json::Text(text.clone()),
            Json::Array(items) => {
                let mut copies: Vec<Json> = Vec::new();
                let mut at: usize = 0;
                while at < items.len()
                    invariant
                        at <= items.len(),
                        copies@.len() == at,
                        forall|i: int| 0 <= i < at ==> (#[trigger] copies@[i])@ == items@[i]@,
                        decreases_to!(self => items@),
                    decreases items.len() - at,
                {
                    copies.push(items[at].duplicate());
                    at = at + 1;
                }
                assert(items_view(copies@) =~= items_view(items@));
                Json::Array(copies)
            },
            Json::Object(members) => {
                let mut copies: Vec<(String, Json)> = Vec::new();
                let mut at: usize = 0;
                assert(members@.take(0) =~= seq![]);
                while at < members.len()
                    invariant
                        at <= members.len(),
                        members_view(copies@) == members_view(members@.take(at as int)),
                        decreases_to!(self => members@),
                    decreases members.len() - at,
                {
                    let ghost before = copies@;
                    copies.push((members[at].0.clone(), members[at].1.duplicate()));
                    assert(copies@.drop_last() =~= before);
                    assert(members@.take(at as int + 1).drop_last() =~= members@.take(at as int));
                    at = at + 1;
                }
                assert(members@.take(members.len() as int) =~= members@);
                Json::Object(copies)
            },
        }
    }
}

/// `serde_json::Number`'s clone: the copy is the same number.
#[verifier::external_body]
fn copy_fraction(number: &Fraction) -> (copy: Fraction)
    ensures
        copy == *number,
{
    Fraction { number: number.number.clone() }
}

/// What a `serde_json::Value` holds.
pub uninterp spec fn json_of(value: Value) -> JsonView;

/// The document as a `serde_json::Value`, variant by variant.
///
/// A `serde_json::Map` keeps the last of two members with one name, as
/// [`members_view`] does.
#[verifier::external_body]
pub(crate) fn json_value(json: &Json) -> (value: Value)
    ensures
        json_of(value) == json@,
{
    match json {
        Json::Null => Value::Null,
        Json::Bool(flag) => Value::Bool(*flag),
        Json::Unsigned(number) => Value::from(*number),
        Json::Negative(number) => Value::from(*number),
        Json::Fraction(fraction) => Value::Number(fraction.number.clone()),
        Json::Text(text) => Value::String(text.clone()),
        Json::Array(items) => items.iter().map(json_value).collect(),
        Json::Object(members) => members.iter().map(|m| (m.0.clone(), json_value(&m.1))).collect(),
    }
}

/// The document that a `serde_json::Value` holds, variant by variant; a
/// number is told apart by the integer type that holds it, if one does.
#[verifier::external_body]
pub(crate) fn json_from_value(value: &Value) -> (json: Json)
    ensures
        json@ == json_of(*value),
{
    match value {
        Value::Null => Json::Null,
        Value::Bool(flag) => Json::Bool(*flag),
        Value::Number(number) => match (number.as_u64(), number.as_i64()) {
            (Some(unsigned), _) => Json::Unsigned(unsigned),
            (None, Some(negative)) => Json::Negative(negative),
            (None, None) => Json::Fraction(Fraction { number: number.clone() }),
        },
        Value::String(text) => Json::Text(text.clone()),
        Value::Array(items) => Json::Array(items.iter().map(json_from_value).collect()),
        Value::Object(members) => Json::Object(
            members.iter().map(|m| (m.0.clone(), json_from_value(m.1))).collect(),
        ),
    }
}

} // verus!
