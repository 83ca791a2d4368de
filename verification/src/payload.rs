//! The weather payload as a tree of plain values, and the ways to read it.
//!
//! The forecast service answers with loosely shaped data: records whose
//! members are texts, or lists that wrap one record with a member `value`.
//! `Json` holds such data and `Tree` is what it stands for; the functions
//! here read one step into a value and say in their contracts exactly what
//! they find.

use vstd::prelude::*;
use crate::text::{same_chars, to_chars};

verus! {

/// One member of a record: a key and what it is bound to.
#[derive(Debug)]
pub struct Member {
    pub key: String,
    pub value: Json,
}

/// A value of the payload.
#[derive(Debug)]
pub enum Json {
    Null,
    Bool(bool),
    /// A number, kept as the text that wrote it.
    Number(String),
    Text(String),
    List(Vec<Json>),
    /// A record. Where a key occurs twice, its first member counts.
    Record(Vec<Member>),
}

/// What a value of the payload stands for.
pub enum Tree {
    Null,
    Bool(bool),
    Number(Seq<char>),
    Text(Seq<char>),
    List(Seq<Tree>),
    Record(Seq<(Seq<char>, Tree)>),
}

/// The tree that a value stands for: the same shape, with every string as
/// its characters.
pub open spec fn tree_of(value: Json) -> Tree
    decreases value,
{
    match value {
        Json::Null => Tree::Null,
        Json::Bool(flag) => Tree::Bool(flag),
        Json::Number(number) => Tree::Number(number@),
        Json::Text(text) => Tree::Text(text@),
        Json::List(items) => Tree::List(
            Seq::new(
                items@.len(),
                |i: int|
                    if 0 <= i < items@.len() {
                        tree_of(items@[i])
                    } else {
                        Tree::Null
                    },
            ),
        ),
        Json::Record(members) => Tree::Record(
            Seq::new(
                members@.len(),
                |i: int|
                    if 0 <= i < members@.len() {
                        (members@[i].key@, tree_of(members@[i].value))
                    } else {
                        (Seq::empty(), Tree::Null)
                    },
            ),
        ),
    }
}

impl View for Json {
    type V = Tree;

    open spec fn view(&self) -> Tree {
        tree_of(*self)
    }
}

impl View for Member {
    type V = (Seq<char>, Tree);

    open spec fn view(&self) -> (Seq<char>, Tree) {
        (self.key@, self.value@)
    }
}

/// Member `i` is the first one of `members` with the key `key`.
pub open spec fn is_first_with_key(
    members: Seq<(Seq<char>, Tree)>,
    key: Seq<char>,
    i: int,
) -> bool {
    &&& 0 <= i < members.len()
    &&& members[i].0 == key
    &&& forall|j: int| 0 <= j < i ==> (#[trigger] members[j]).0 != key
}

/// Some member of `members` has the key `key`.
pub open spec fn has_key(members: Seq<(Seq<char>, Tree)>, key: Seq<char>) -> bool {
    exists|i: int| is_first_with_key(members, key, i)
}

/// What the first member with the key `key` is bound to.
pub open spec fn bound_to(members: Seq<(Seq<char>, Tree)>, key: Seq<char>) -> Option<Tree> {
    if has_key(members, key) {
        Some(members[choose|i: int| is_first_with_key(members, key, i)].1)
    } else {
        None
    }
}

/// Only one member can be the first with a key.
pub proof fn lemma_first_with_key_is_unique(
    members: Seq<(Seq<char>, Tree)>,
    key: Seq<char>,
    i: int,
    j: int,
)
    requires
        is_first_with_key(members, key, i),
        is_first_with_key(members, key, j),
    ensures
        i == j,
{
    if i < j {
        assert(members[i].0 != key);
    } else if j < i {
        assert(members[j].0 != key);
    }
}

impl Tree {
    /// The text that this value is, if it is a text.
    pub open spec fn text(self) -> Option<Seq<char>> {
        match self {
            Tree::Text(text) => Some(text),
            _ => None,
        }
    }

    /// Whether this value is a record.
    pub open spec fn is_record(self) -> bool {
        self is Record
    }

    /// The members of this value, if it is a record; none otherwise.
    pub open spec fn members(self) -> Seq<(Seq<char>, Tree)> {
        match self {
            Tree::Record(members) => members,
            _ => Seq::empty(),
        }
    }

    /// The items of this value, if it is a list; none otherwise.
    pub open spec fn items(self) -> Seq<Tree> {
        match self {
            Tree::List(items) => items,
            _ => Seq::empty(),
        }
    }

    /// What the key `key` is bound to in this value: `None` where the value
    /// is no record, or a record without that key.
    pub open spec fn get(self, key: Seq<char>) -> Option<Tree> {
        bound_to(self.members(), key)
    }

    /// The item at `index`: `None` where the value is no list, or a list
    /// that is too short.
    pub open spec fn at(self, index: int) -> Option<Tree> {
        if 0 <= index < self.items().len() {
            Some(self.items()[index])
        } else {
            None
        }
    }

    /// The text under the key `key` of this record, if that member is a text.
    pub open spec fn text_at(self, key: Seq<char>) -> Option<Seq<char>> {
        match self.get(key) {
            Some(value) => value.text(),
            None => None,
        }
    }

    /// The first item of the list under the key `key` of this record.
    pub open spec fn first_at(self, key: Seq<char>) -> Option<Tree> {
        match self.get(key) {
            Some(list) => list.at(0),
            None => None,
        }
    }

    /// The text that a described field holds. The forecast service writes
    /// such a field as a list of exactly one record whose member `value` is
    /// the text.
    pub open spec fn described(self) -> Option<Seq<char>> {
        if self.items().len() == 1 {
            self.items()[0].text_at("value"@)
        } else {
            None
        }
    }

    /// The described text under the key `key` of this record.
    pub open spec fn described_at(self, key: Seq<char>) -> Option<Seq<char>> {
        match self.get(key) {
            Some(value) => value.described(),
            None => None,
        }
    }

    /// What a field shows when it replaces a placeholder: for a list, the
    /// text it describes; for a text, the text; nothing for any other
    /// value, and nothing for a list that describes no text.
    pub open spec fn shown(self) -> Seq<char> {
        match self {
            Tree::List(_) => match self.described() {
                Some(text) => text,
                None => Seq::empty(),
            },
            Tree::Text(text) => text,
            _ => Seq::empty(),
        }
    }
}

/// A text that may be there, as characters.
pub open spec fn optional_text(held: Option<&str>) -> Option<Seq<char>> {
    match held {
        Some(text) => Some(text@),
        None => None,
    }
}

/// A value that may be there, as the tree it stands for.
pub open spec fn optional_tree(held: Option<&Json>) -> Option<Tree> {
    match held {
        Some(value) => Some(value@),
        None => None,
    }
}

impl Json {
    /// The text that this value is, if it is a text.
    pub fn as_text(&self) -> (r: Option<&str>)
        ensures
            optional_text(r) == self@.text(),
    {
        match self {
            Json::Text(s) => Some(s.as_str()),
            _ => None,
        }
    }

    /// Whether this value is a record.
    pub fn is_object(&self) -> (r: bool)
        ensures
            r == self@.is_record(),
    {
        match self {
            Json::Record(_) => true,
            _ => false,
        }
    }

    /// Looks a key up that is given as characters.
    pub fn member_by_chars(&self, key: &Vec<char>) -> (r: Option<&Json>)
        ensures
            optional_tree(r) == self@.get(key@),
    {
        let ghost held = self@.members();
        match self {
            Json::Record(members) => {
                assert(held.len() == members@.len());
                let mut i: usize = 0;
                while i < members.len()
                    invariant
                        i <= members.len(),
                        held == self@.members(),
                        held.len() == members@.len(),
                        forall|j: int|
                            0 <= j < members@.len() ==> (#[trigger] held[j]) == members@[j]@,
                        forall|j: int| 0 <= j < i ==> (#[trigger] held[j]).0 != key@,
                    decreases members.len() - i,
                {
                    let candidate = to_chars(members[i].key.as_str());
                    if same_chars(&candidate, key) {
                        proof {
                            assert(held[i as int] == members@[i as int]@);
                            assert(is_first_with_key(held, key@, i as int));
                            let chosen = choose|k: int| is_first_with_key(held, key@, k);
                            lemma_first_with_key_is_unique(held, key@, i as int, chosen);
                        }
                        return Some(&members[i].value);
                    }
                    assert(held[i as int] == members@[i as int]@);
                    i += 1;
                }
                proof {
                    if has_key(held, key@) {
                        let chosen = choose|k: int| is_first_with_key(held, key@, k);
                        assert(held[chosen].0 == key@);
                    }
                }
                None
            },
            _ => {
                proof {
                    if has_key(held, key@) {
                        let chosen = choose|k: int| is_first_with_key(held, key@, k);
                        assert(0 <= chosen < held.len());
                    }
                }
                None
            },
        }
    }

    /// Looks a key up.
    pub fn member(&self, key: &str) -> (r: Option<&Json>)
        ensures
            optional_tree(r) == self@.get(key@),
    {
        let chars = to_chars(key);
        self.member_by_chars(&chars)
    }

    /// The item at `index`.
    pub fn item(&self, index: usize) -> (r: Option<&Json>)
        ensures
            optional_tree(r) == self@.at(index as int),
    {
        match self {
            Json::List(items) => if index < items.len() {
                Some(&items[index])
            } else {
                None
            },
            _ => None,
        }
    }

    /// How many items this value has; zero where it is no list.
    pub fn item_count(&self) -> (n: usize)
        ensures
            n == self@.items().len(),
    {
        match self {
            Json::List(items) => items.len(),
            _ => 0,
        }
    }

    /// The text under a key.
    pub fn member_text(&self, key: &str) -> (r: Option<&str>)
        ensures
            optional_text(r) == self@.text_at(key@),
    {
        match self.member(key) {
            Some(v) => v.as_text(),
            None => None,
        }
    }

    /// The first item of the list under a key.
    pub fn member_first(&self, key: &str) -> (r: Option<&Json>)
        ensures
            optional_tree(r) == self@.first_at(key@),
    {
        match self.member(key) {
            Some(list) => list.item(0),
            None => None,
        }
    }

    /// The text that a described field holds.
    pub fn described_text(&self) -> (r: Option<&str>)
        ensures
            optional_text(r) == self@.described(),
    {
        if self.item_count() == 1 {
            match self.item(0) {
                Some(inner) => inner.member_text("value"),
                None => None,
            }
        } else {
            None
        }
    }

    /// The described text under a key.
    pub fn member_described(&self, key: &str) -> (r: Option<&str>)
        ensures
            optional_text(r) == self@.described_at(key@),
    {
        match self.member(key) {
            Some(v) => v.described_text(),
            None => None,
        }
    }

    /// What this value shows when it replaces a placeholder.
    pub fn shown_text(&self) -> (r: &str)
        ensures
            r@ == self@.shown(),
    {
        match self {
            Json::List(_) => match self.described_text() {
                Some(t) => t,
                None => {
                    proof {
                        reveal_strlit("");
                        assert(""@ =~= Seq::<char>::empty());
                    }
                    ""
                },
            },
            Json::Text(s) => s.as_str(),
            _ => {
                proof {
                    reveal_strlit("");
                    assert(""@ =~= Seq::<char>::empty());
                }
                ""
            },
        }
    }
}

} // verus!
