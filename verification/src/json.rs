//! JSON documents as values, and their text through `serde_json`.

use vstd::prelude::*;
use crate::error::ApiError;

verus! {

/// serde_json's value: a JSON document as a tree.
#[verifier::external_type_specification]
#[verifier::external_body]
pub struct ExValue(serde_json::Value);

/// serde_json's error: why a text is no JSON, or a value cannot be written.
#[verifier::external_type_specification]
#[verifier::external_body]
pub struct ExJsonError(serde_json::Error);

/// serde_json's number: an integer or a finite decimal fraction.
#[verifier::external_type_specification]
#[verifier::external_body]
pub struct ExNumber(serde_json::Number);

/// `Clone::clone` of serde_json's number: the copy is the same number.
pub assume_specification[ <serde_json::Number as Clone>::clone ](n: &serde_json::Number) -> (r:
    serde_json::Number)
    ensures
        r == *n,
;

/// What a JSON document says: the mathematical value of a [`Json`].
///
/// An object is a map from names to values: a name occurs once, and the order
/// of the members carries no meaning.
pub enum JsonValue {
    Null,
    Bool(bool),
    Number(serde_json::Number),
    Text(Seq<char>),
    Array(Seq<JsonValue>),
    Object(Map<Seq<char>, JsonValue>),
}

/// A JSON document.
///
/// The members of an object are kept in a list; where a name occurs twice,
/// the later member counts.
#[derive(Debug, PartialEq)]
pub enum Json {
    Null,
    Bool(bool),
    Number(serde_json::Number),
    Text(String),
    Array(Vec<Json>),
    Object(Vec<(String, Json)>),
}

/// The values of the items of an array, in order.
pub open spec fn items_view(items: Seq<Json>) -> Seq<JsonValue>
    decreases items,
{
    Seq::new(
        items.len(),
        |i: int|
            if 0 <= i < items.len() {
                items[i].view()
            } else {
                JsonValue::Null
            },
    )
}

/// The map that a list of members stands for: a later member replaces an
/// earlier one of the same name.
pub open spec fn members_view(members: Seq<(String, Json)>) -> Map<Seq<char>, JsonValue>
    decreases members,
{
    if members.len() == 0 {
        Map::empty()
    } else {
        members_view(members.drop_last()).insert(members.last().0@, members.last().1.view())
    }
}

impl View for Json {
    type V = JsonValue;

    open spec fn view(&self) -> JsonValue
        decreases self,
    {
        match self {
            Json::Null => JsonValue::Null,
            Json::Bool(b) => JsonValue::Bool(*b),
            Json::Number(n) => JsonValue::Number(*n),
            Json::Text(s) => JsonValue::Text(s@),
            Json::Array(items) => JsonValue::Array(items_view(items@)),
            Json::Object(members) => JsonValue::Object(members_view(members@)),
        }
    }
}

/// The integer that a number is, where it is one.
pub uninterp spec fn number_integer(n: serde_json::Number) -> Option<int>;

/// The number that serde_json makes of an unsigned integer.
pub uninterp spec fn unsigned_number(v: u64) -> serde_json::Number;

/// The number that serde_json makes of a signed integer.
pub uninterp spec fn signed_number(v: i64) -> serde_json::Number;

/// What a serde_json value holds.
pub uninterp spec fn value_content(v: serde_json::Value) -> JsonValue;

/// What a text says as a JSON document, where it is one.
pub uninterp spec fn json_document(text: Seq<char>) -> Option<JsonValue>;

/// The compact JSON text of a value, where serde_json writes one.
pub uninterp spec fn json_text(value: JsonValue) -> Option<Seq<char>>;

/// `serde_json::Number::as_i128`: the number as an integer, and `None` for a
/// number with a fraction or an exponent.
#[verifier::external_body]
fn number_as_integer(n: &serde_json::Number) -> (r: Option<i128>)
    ensures
        match r {
            Some(i) => number_integer(*n) == Some(i as int),
            None => number_integer(*n) is None,
        },
{
    n.as_i128()
}

/// `serde_json::Number::from` for `u64`: the number that is the integer `v`.
#[verifier::external_body]
fn number_from_u64(v: u64) -> (n: serde_json::Number)
    ensures
        n == unsigned_number(v),
        number_integer(n) == Some(v as int),
{
    serde_json::Number::from(v)
}

/// `serde_json::Number::from` for `i64`: the number that is the integer `v`.
#[verifier::external_body]
fn number_from_i64(v: i64) -> (n: serde_json::Number)
    ensures
        n == signed_number(v),
        number_integer(n) == Some(v as int),
{
    serde_json::Number::from(v)
}

/// `serde_json::from_str` for a `serde_json::Value`: the document that `text`
/// spells, or the error where it is no JSON.
#[verifier::external_body]
fn value_from_text(text: &str) -> (r: Result<serde_json::Value, serde_json::Error>)
    ensures
        match r {
            Ok(v) => json_document(text@) == Some(value_content(v)),
            Err(_) => json_document(text@) is None,
        },
{
    serde_json::from_str::<serde_json::Value>(text)
}

/// `serde_json::to_string` of a `serde_json::Value`: its compact text.
#[verifier::external_body]
fn value_to_text(v: &serde_json::Value) -> (r: Result<String, serde_json::Error>)
    ensures
        match r {
            Ok(text) => json_text(value_content(*v)) == Some(text@),
            Err(_) => json_text(value_content(*v)) is None,
        },
{
    serde_json::to_string(v)
}

/// Takes a `serde_json::Value` apart, variant by variant; the members of an
/// object come in the order in which its map hands them out.
#[verifier::external_body]
fn json_from_value(v: serde_json::Value) -> (j: Json)
    ensures
        j@ == value_content(v),
{
    match v {
        serde_json::Value::Null => Json::Null,
        serde_json::Value::Bool(b) => Json::Bool(b),
        serde_json::Value::Number(n) => Json::Number(n),
        serde_json::Value::String(s) => Json::Text(s),
        serde_json::Value::Array(a) => Json::Array(a.into_iter().map(json_from_value).collect()),
        serde_json::Value::Object(o) => Json::Object(
            o.into_iter().map(|(k, v)| (k, json_from_value(v))).collect(),
        ),
    }
}

/// Builds a `serde_json::Value`, variant by variant; the members of an object
/// go into its map by `serde_json::Map::insert`, one after the other, so that a
/// later member replaces an earlier one of the same name.
#[verifier::external_body]
fn json_to_value(j: &Json) -> (v: serde_json::Value)
    ensures
        value_content(v) == j@,
{
    match j {
        Json::Null => serde_json::Value::Null,
        Json::Bool(b) => serde_json::Value::Bool(*b),
        Json::Number(n) => serde_json::Value::Number(n.clone()),
        Json::Text(s) => serde_json::Value::String(s.clone()),
        Json::Array(a) => serde_json::Value::Array(a.iter().map(json_to_value).collect()),
        Json::Object(o) => {
            let mut map = serde_json::Map::new();
            for (k, v) in o {
                map.insert(k.clone(), json_to_value(v));
            }
            serde_json::Value::Object(map)
        },
    }
}

impl Json {
    /// Reads a JSON document.
    pub fn parse(text: &str) -> (r: Result<Json, ApiError>)
        ensures
            match r {
                Ok(j) => json_document(text@) == Some(j@),
                Err(e) => e == ApiError::Decode && json_document(text@) is None,
            },
    {
        match value_from_text(text) {
            Ok(v) => Ok(json_from_value(v)),
            Err(_) => Err(ApiError::Decode),
        }
    }

    /// Writes the document as compact JSON text.
    pub fn to_text(&self) -> (r: Option<String>)
        ensures
            match r {
                Some(text) => json_text(self@) == Some(text@),
                None => json_text(self@) is None,
            },
    {
        let v = json_to_value(self);
        match value_to_text(&v) {
            Ok(text) => Some(text),
            Err(_) => None,
        }
    }

    /// The number that is the integer `v`.
    pub fn from_u64(v: u64) -> (j: Json)
        ensures
            j@ == JsonValue::Number(unsigned_number(v)),
            j@.integer() == Some(v as int),
    {
        Json::Number(number_from_u64(v))
    }

    /// The number that is the integer `v`.
    pub fn from_i64(v: i64) -> (j: Json)
        ensures
            j@ == JsonValue::Number(signed_number(v)),
            j@.integer() == Some(v as int),
    {
        Json::Number(number_from_i64(v))
    }

    /// The integer that the document is, where it is a number without fraction or exponent.
    pub fn as_integer(&self) -> (r: Option<i128>)
        ensures
            match r {
                Some(i) => self@.integer() == Some(i as int),
                None => self@.integer() is None,
            },
    {
        match self {
            Json::Number(n) => number_as_integer(n),
            _ => None,
        }
    }
}

impl JsonValue {
    /// The integer that the value is, where it is a number without fraction or exponent.
    pub open spec fn integer(self) -> Option<int> {
        match self {
            JsonValue::Number(n) => number_integer(n),
            _ => None,
        }
    }

    /// The characters of the value, where it is a string.
    pub open spec fn text(self) -> Option<Seq<char>> {
        match self {
            JsonValue::Text(s) => Some(s),
            _ => None,
        }
    }

    /// The truth value, where the value is one.
    pub open spec fn boolean(self) -> Option<bool> {
        match self {
            JsonValue::Bool(b) => Some(b),
            _ => None,
        }
    }

    /// The items of the value, where it is an array.
    pub open spec fn items(self) -> Option<Seq<JsonValue>> {
        match self {
            JsonValue::Array(items) => Some(items),
            _ => None,
        }
    }

    /// The members of the value, where it is an object.
    pub open spec fn members(self) -> Option<Map<Seq<char>, JsonValue>> {
        match self {
            JsonValue::Object(members) => Some(members),
            _ => None,
        }
    }

    /// The member of that name, where the value is an object that has one.
    pub open spec fn member(self, name: Seq<char>) -> Option<JsonValue> {
        match self {
            JsonValue::Object(members) => if members.dom().contains(name) {
                Some(members[name])
            } else {
                None
            },
            _ => None,
        }
    }

    /// The member of that name as an unsigned integer of 64 bits.
    pub open spec fn unsigned_member(self, name: Seq<char>) -> Option<nat> {
        match self.member(name) {
            Some(value) => match value.integer() {
                Some(i) => if 0 <= i <= u64::MAX {
                    Some(i as nat)
                } else {
                    None
                },
                None => None,
            },
            None => None,
        }
    }

    /// The member of that name as a signed integer of 64 bits.
    pub open spec fn signed_member(self, name: Seq<char>) -> Option<int> {
        match self.member(name) {
            Some(value) => match value.integer() {
                Some(i) => if i64::MIN <= i <= i64::MAX {
                    Some(i)
                } else {
                    None
                },
                None => None,
            },
            None => None,
        }
    }

    /// The member of that name as a string.
    pub open spec fn text_member(self, name: Seq<char>) -> Option<Seq<char>> {
        match self.member(name) {
            Some(value) => value.text(),
            None => None,
        }
    }

    /// The member of that name as a truth value.
    pub open spec fn bool_member(self, name: Seq<char>) -> Option<bool> {
        match self.member(name) {
            Some(value) => value.boolean(),
            None => None,
        }
    }

    /// The member of that name as a string that may be left out.
    ///
    /// `Some(None)` where there is no such member or it is `null`,
    /// `Some(Some(..))` where it is a string, and `None` where it is anything else.
    pub open spec fn optional_text_member(self, name: Seq<char>) -> Option<Option<Seq<char>>> {
        match self.member(name) {
            None => Some(None),
            Some(JsonValue::Null) => Some(None),
            Some(JsonValue::Text(s)) => Some(Some(s)),
            Some(_) => None,
        }
    }
}

/// The map of a list of members is that of the list without its last member,
/// with the last member put in.
pub proof fn lemma_members_step(members: Seq<(String, Json)>)
    requires
        members.len() > 0,
    ensures
        members_view(members) == members_view(members.drop_last()).insert(
            members.last().0@,
            members.last().1@,
        ),
{
}

/// A name that no member bears is not in the map of the members.
pub proof fn lemma_members_without(members: Seq<(String, Json)>, name: Seq<char>)
    requires
        forall|k: int| 0 <= k < members.len() ==> (#[trigger] members[k]).0@ != name,
    ensures
        !members_view(members).dom().contains(name),
    decreases members.len(),
{
    if members.len() > 0 {
        lemma_members_without(members.drop_last(), name);
        lemma_members_step(members);
    }
}

/// The last member of a name is what the map of the members holds under it.
pub proof fn lemma_members_last(members: Seq<(String, Json)>, name: Seq<char>, at: int)
    requires
        0 <= at < members.len(),
        members[at].0@ == name,
        forall|k: int| at < k < members.len() ==> (#[trigger] members[k]).0@ != name,
    ensures
        members_view(members).dom().contains(name),
        members_view(members)[name] == members[at].1@,
    decreases members.len(),
{
    lemma_members_step(members);
    if at < members.len() - 1 {
        lemma_members_last(members.drop_last(), name, at);
    }
}

impl Clone for Json {
    /// A copy that says the same.
    fn clone(&self) -> (copy: Json)
        ensures
            copy@ == self@,
        decreases self,
    {
        match self {
            Json::Null => Json::Null,
            Json::Bool(b) => Json::Bool(*b),
            Json::Number(n) => Json::Number(n.clone()),
            Json::Text(s) => Json::Text(s.clone()),
            Json::Array(items) => {
                let mut out: Vec<Json> = Vec::new();
                let mut i: usize = 0;
                while i < items.len()
                    invariant
                        i <= items.len(),
                        out.len() == i,
                        forall|k: int| 0 <= k < i ==> (#[trigger] out[k])@ == items[k]@,
                        *self == Json::Array(*items),
                    decreases items.len() - i,
                {
                    // An item is smaller than the array that holds it.
                    assert(decreases_to!(*self => self->Array_0));
                    assert(decreases_to!(*items => items@));
                    assert(decreases_to!(items@ => items@[i as int]));
                    out.push(items[i].clone());
                    i += 1;
                }
                assert(items_view(out@) =~= items_view(items@));
                Json::Array(out)
            },
            Json::Object(members) => {
                let mut out: Vec<(String, Json)> = Vec::new();
                let mut i: usize = 0;
                assert(members@.take(0) =~= out@);
                while i < members.len()
                    invariant
                        i <= members.len(),
                        members_view(out@) == members_view(members@.take(i as int)),
                        *self == Json::Object(*members),
                    decreases members.len() - i,
                {
                    // A member's value is smaller than the object that holds it.
                    assert(decreases_to!(*self => self->Object_0));
                    assert(decreases_to!(*members => members@));
                    assert(decreases_to!(members@ => members@[i as int]));
                    assert(decreases_to!(members@[i as int] => members@[i as int].1));
                    let name = members[i].0.clone();
                    let value = members[i].1.clone();
                    proof {
                        let next = members@.take(i + 1);
                        assert(next.drop_last() =~= members@.take(i as int));
                        assert(out@.push((name, value)).drop_last() =~= out@);
                        lemma_members_step(next);
                        lemma_members_step(out@.push((name, value)));
                    }
                    out.push((name, value));
                    i += 1;
                }
                assert(members@.take(i as int) =~= members@);
                Json::Object(out)
            },
        }
    }
}

/// A copy of a list of members that stands for the same map.
pub fn clone_members(members: &Vec<(String, Json)>) -> (copy: Vec<(String, Json)>)
    ensures
        members_view(copy@) == members_view(members@),
{
    let mut copy: Vec<(String, Json)> = Vec::new();
    let mut i: usize = 0;
    assert(members@.take(0) =~= copy@);
    while i < members.len()
        invariant
            i <= members.len(),
            members_view(copy@) == members_view(members@.take(i as int)),
        decreases members.len() - i,
    {
        let name = members[i].0.clone();
        let value = members[i].1.clone();
        proof {
            let next = members@.take(i + 1);
            assert(next.drop_last() =~= members@.take(i as int));
            assert(copy@.push((name, value)).drop_last() =~= copy@);
            lemma_members_step(next);
            lemma_members_step(copy@.push((name, value)));
        }
        copy.push((name, value));
        i += 1;
    }
    assert(members@.take(i as int) =~= members@);
    copy
}

/// Puts a member at the end of a list of members, where it replaces any that
/// bears the same name.
pub fn push_member(members: &mut Vec<(String, Json)>, name: &str, value: Json)
    ensures
        members_view(final(members)@) == members_view(old(members)@).insert(name@, value@),
{
    let ghost before = members@;
    let key = name.to_owned();
    proof {
        assert(before.push((key, value)).drop_last() =~= before);
        lemma_members_step(before.push((key, value)));
    }
    members.push((key, value));
}

impl Json {
    /// The member of that name, where the document is an object that has one.
    pub fn get(&self, name: &str) -> (r: Option<&Json>)
        ensures
            match r {
                Some(j) => self@.member(name@) == Some(j@),
                None => self@.member(name@) is None,
            },
    {
        match self {
            Json::Object(members) => {
                let mut i: usize = members.len();
                while i > 0
                    invariant
                        i <= members.len(),
                        self@ == JsonValue::Object(members_view(members@)),
                        forall|k: int| i <= k < members.len() ==> (#[trigger] members[k]).0@ != name@,
                    decreases i,
                {
                    i -= 1;
                    if members[i].0.as_str().eq(name) {
                        proof {
                            lemma_members_last(members@, name@, i as int);
                        }
                        return Some(&members[i].1);
                    }
                }
                proof {
                    lemma_members_without(members@, name@);
                }
                None
            },
            _ => None,
        }
    }

    /// The member of that name as an unsigned integer of 64 bits.
    pub fn get_u64(&self, name: &str) -> (r: Option<u64>)
        ensures
            match r {
                Some(v) => self@.unsigned_member(name@) == Some(v as nat),
                None => self@.unsigned_member(name@) is None,
            },
    {
        match self.get(name) {
            Some(value) => match value.as_integer() {
                Some(i) => if 0 <= i && i <= 0xffff_ffff_ffff_ffff {
                    Some(i as u64)
                } else {
                    None
                },
                None => None,
            },
            None => None,
        }
    }

    /// The member of that name as a signed integer of 64 bits.
    pub fn get_i64(&self, name: &str) -> (r: Option<i64>)
        ensures
            match r {
                Some(v) => self@.signed_member(name@) == Some(v as int),
                None => self@.signed_member(name@) is None,
            },
    {
        match self.get(name) {
            Some(value) => match value.as_integer() {
                Some(i) => if -0x8000_0000_0000_0000 <= i && i <= 0x7fff_ffff_ffff_ffff {
                    Some(i as i64)
                } else {
                    None
                },
                None => None,
            },
            None => None,
        }
    }

    /// The member of that name as a string.
    pub fn get_text(&self, name: &str) -> (r: Option<&String>)
        ensures
            match r {
                Some(s) => self@.text_member(name@) == Some(s@),
                None => self@.text_member(name@) is None,
            },
    {
        match self.get(name) {
            Some(value) => value.as_text(),
            None => None,
        }
    }

    /// The member of that name as a truth value.
    pub fn get_bool(&self, name: &str) -> (r: Option<bool>)
        ensures
            r == self@.bool_member(name@),
    {
        match self.get(name) {
            Some(value) => value.as_bool(),
            None => None,
        }
    }

    /// The member of that name as a string that may be left out or `null`.
    pub fn get_optional_text(&self, name: &str) -> (r: Option<Option<&String>>)
        ensures
            match r {
                Some(Some(s)) => self@.optional_text_member(name@) == Some(Some(s@)),
                Some(None) => self@.optional_text_member(name@) == Some(None::<Seq<char>>),
                None => self@.optional_text_member(name@) is None,
            },
    {
        match self.get(name) {
            None => Some(None),
            Some(Json::Null) => Some(None),
            Some(Json::Text(s)) => Some(Some(s)),
            Some(_) => None,
        }
    }

    /// The characters of the document, where it is a string.
    pub fn as_text(&self) -> (r: Option<&String>)
        ensures
            match r {
                Some(s) => self@.text() == Some(s@),
                None => self@.text() is None,
            },
    {
        match self {
            Json::Text(s) => Some(s),
            _ => None,
        }
    }

    /// The truth value, where the document is one.
    pub fn as_bool(&self) -> (r: Option<bool>)
        ensures
            r == self@.boolean(),
    {
        match self {
            Json::Bool(b) => Some(*b),
            _ => None,
        }
    }

    /// The items of the document, where it is an array.
    pub fn as_array(&self) -> (r: Option<&Vec<Json>>)
        ensures
            match r {
                Some(items) => self@.items() == Some(items_view(items@)),
                None => self@.items() is None,
            },
    {
        match self {
            Json::Array(items) => Some(items),
            _ => None,
        }
    }
}

} // verus!
