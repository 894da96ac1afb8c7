//! A JSON document as a tree of plain values, and the lookups that the
//! backend adapters make in it.

use vstd::prelude::*;
use crate::text::same_text;

verus! {

/// A JSON value. Whoever decodes a response body hands the result over in this shape.
#[derive(Debug, PartialEq, Eq)]
pub enum Json {
    Null,
    Bool(bool),
    /// A number that is a non-negative integer below 2^64.
    Unsigned(u64),
    /// Any other number, kept as the text that spelled it.
    Number(String),
    Text(String),
    Array(Vec<Json>),
    /// The members of an object, in document order.
    Object(Vec<Member>),
}

/// One `key: value` pair of an object.
#[derive(Debug, PartialEq, Eq)]
pub struct Member {
    pub key: String,
    pub value: Json,
}

/// The mathematical value of a [`Json`] tree.
pub enum JsonView {
    Null,
    Bool(bool),
    Unsigned(u64),
    Number(Seq<char>),
    Text(Seq<char>),
    Array(Seq<JsonView>),
    Object(Seq<(Seq<char>, JsonView)>),
}

/// The value of a tree, built from the values of its parts.
pub open spec fn tree_of(j: Json) -> JsonView
    decreases j,
{
    match j {
        Json::Null => JsonView::Null,
        Json::Bool(b) => JsonView::Bool(b),
        Json::Unsigned(n) => JsonView::Unsigned(n),
        Json::Number(t) => JsonView::Number(t@),
        Json::Text(t) => JsonView::Text(t@),
        Json::Array(items) => JsonView::Array(
            Seq::new(items@.len(), |i: int| if 0 <= i < items@.len() { tree_of(items@[i]) } else { JsonView::Null }),
        ),
        Json::Object(members) => JsonView::Object(
            Seq::new(
                members@.len(),
                |i: int| if 0 <= i < members@.len() {
                    (members@[i].key@, tree_of(members@[i].value))
                } else {
                    (Seq::<char>::empty(), JsonView::Null)
                },
            ),
        ),
    }
}

impl View for Json {
    type V = JsonView;

    open spec fn view(&self) -> JsonView {
        tree_of(*self)
    }
}

/// An array's value lists the values of its items.
pub proof fn lemma_array_view(items: Vec<Json>)
    ensures
        Json::Array(items)@ is Array,
        Json::Array(items)@->Array_0.len() == items@.len(),
        forall|i: int| 0 <= i < items@.len() ==> Json::Array(items)@->Array_0[i] == (#[trigger] items@[i])@,
{
}

/// An object's value lists its members' keys and values in order.
pub proof fn lemma_object_view(members: Vec<Member>)
    ensures
        Json::Object(members)@ is Object,
        Json::Object(members)@->Object_0.len() == members@.len(),
        forall|i: int| 0 <= i < members@.len() ==> Json::Object(members)@->Object_0[i] == (
            (#[trigger] members@[i]).key@,
            members@[i].value@,
        ),
{
}

/// The value of the first pair in `members` whose key is `key`.
pub open spec fn first_with_key(members: Seq<(Seq<char>, JsonView)>, key: Seq<char>) -> Option<JsonView>
    decreases members.len(),
{
    if members.len() == 0 {
        None
    } else if members[0].0 == key {
        Some(members[0].1)
    } else {
        first_with_key(members.drop_first(), key)
    }
}

impl JsonView {
    /// The member `key` of an object; nothing for a missing member or another kind of value.
    pub open spec fn member(self, key: Seq<char>) -> Option<JsonView> {
        match self {
            JsonView::Object(members) => first_with_key(members, key),
            _ => None,
        }
    }

    /// The characters of a string value.
    pub open spec fn text(self) -> Option<Seq<char>> {
        match self {
            JsonView::Text(t) => Some(t),
            _ => None,
        }
    }

    /// The number held by a non-negative integer value.
    pub open spec fn unsigned(self) -> Option<u64> {
        match self {
            JsonView::Unsigned(n) => Some(n),
            _ => None,
        }
    }

    /// The truth value held by a boolean value.
    pub open spec fn boolean(self) -> Option<bool> {
        match self {
            JsonView::Bool(b) => Some(b),
            _ => None,
        }
    }

    /// The items of an array.
    pub open spec fn items(self) -> Option<Seq<JsonView>> {
        match self {
            JsonView::Array(items) => Some(items),
            _ => None,
        }
    }

    /// The member `key` where it is there and is not `null`.
    pub open spec fn present(self, key: Seq<char>) -> Option<JsonView> {
        match self.member(key) {
            Some(JsonView::Null) => None,
            other => other,
        }
    }

    /// The characters of the member `key`, where that member is a string.
    pub open spec fn text_member(self, key: Seq<char>) -> Option<Seq<char>> {
        match self.member(key) {
            Some(v) => v.text(),
            None => None,
        }
    }
}

/// The view of an optional borrowed value.
pub open spec fn opt_json(o: Option<&Json>) -> Option<JsonView> {
    match o {
        Some(v) => Some(v@),
        None => None,
    }
}

impl Json {
    /// Looks up the member `key` of an object. The first such member counts.
    pub fn member(&self, key: &str) -> (found: Option<&Json>)
        ensures
            opt_json(found) == self@.member(key@),
    {
        match self {
            Json::Object(members) => {
                let mut i: usize = 0;
                proof {
                    lemma_object_view(*members);
                }
                assert(self@->Object_0.skip(0) =~= self@->Object_0);
                while i < members.len()
                    invariant
                        i <= members.len(),
                        *self == Json::Object(*members),
                        self@ is Object,
                        self@->Object_0.len() == members@.len(),
                        forall|k: int| 0 <= k < members@.len() ==> self@->Object_0[k] == (
                            (#[trigger] members@[k]).key@,
                            members@[k].value@,
                        ),
                        self@.member(key@) == first_with_key(self@->Object_0.skip(i as int), key@),
                    decreases members.len() - i,
                {
                    let ghost rest = self@->Object_0.skip(i as int);
                    assert(rest[0] == (members@[i as int].key@, members@[i as int].value@));
                    if same_text(members[i].key.as_str(), key) {
                        return Some(&members[i].value);
                    }
                    assert(rest.drop_first() =~= self@->Object_0.skip(i as int + 1));
                    i = i + 1;
                }
                None
            },
            _ => None,
        }
    }

    /// Looks up the member `key`, treating an explicit `null` like a missing member.
    pub fn present(&self, key: &str) -> (found: Option<&Json>)
        ensures
            opt_json(found) == self@.present(key@),
    {
        match self.member(key) {
            Some(Json::Null) => None,
            other => other,
        }
    }

    /// The string held by a string value.
    pub fn as_text(&self) -> (text: Option<&String>)
        ensures
            (match text {
                Some(t) => Some(t@),
                None => None,
            }) == self@.text(),
    {
        match self {
            Json::Text(t) => Some(t),
            _ => None,
        }
    }

    /// The number held by a non-negative integer value.
    pub fn as_unsigned(&self) -> (number: Option<u64>)
        ensures
            number == self@.unsigned(),
    {
        match self {
            Json::Unsigned(n) => Some(*n),
            _ => None,
        }
    }

    /// The truth value held by a boolean value.
    pub fn as_bool(&self) -> (flag: Option<bool>)
        ensures
            flag == self@.boolean(),
    {
        match self {
            Json::Bool(b) => Some(*b),
            _ => None,
        }
    }

    /// The items of an array.
    pub fn as_array(&self) -> (items: Option<&Vec<Json>>)
        ensures
            items is Some == self@.items() is Some,
            items matches Some(v) ==> {
                &&& v@.len() == self@.items().unwrap().len()
                &&& forall|i: int| 0 <= i < v@.len() ==> (#[trigger] v@[i])@ == self@.items().unwrap()[i]
            },
    {
        match self {
            Json::Array(items) => {
                proof {
                    lemma_array_view(*items);
                }
                Some(items)
            },
            _ => None,
        }
    }

    /// A copy of the member `key`, where that member is a string.
    pub fn text_member(&self, key: &str) -> (text: Option<String>)
        ensures
            crate::text::opt_text(text) == self@.text_member(key@),
    {
        match self.member(key) {
            Some(Json::Text(t)) => Some(t.clone()),
            _ => None,
        }
    }
}

} // verus!
