//! JSON documents as the codec sees them.
//!
//! `Json` is the executable tree. `Doc` is its mathematical model, in which
//! an object is a map from member names to documents: the order of the
//! members does not matter, and of two members with one name the later
//! counts.

use crate::number::is_number_literal;
use crate::text::str_eq;
use vstd::prelude::*;

verus! {

/// The model of a JSON document.
pub enum Doc {
    Null,
    Bool(bool),
    /// A number, as its literal.
    Number(Seq<char>),
    Text(Seq<char>),
    Array(Seq<Doc>),
    Object(Map<Seq<char>, Doc>),
}

impl Doc {
    /// The member `name` of an object; `None` if the document is no object
    /// or has no such member.
    pub open spec fn member(self, name: Seq<char>) -> Option<Doc> {
        match self {
            Doc::Object(members) => if members.contains_key(name) {
                Some(members[name])
            } else {
                None
            },
            _ => None,
        }
    }

    /// The member `name` where it is a string.
    pub open spec fn text_member(self, name: Seq<char>) -> Option<Seq<char>> {
        match self.member(name) {
            Some(Doc::Text(text)) => Some(text),
            _ => None,
        }
    }

    /// The member `name` where it is a boolean.
    pub open spec fn bool_member(self, name: Seq<char>) -> Option<bool> {
        match self.member(name) {
            Some(Doc::Bool(b)) => Some(b),
            _ => None,
        }
    }

    /// The member `name` where it is a number.
    pub open spec fn number_member(self, name: Seq<char>) -> Option<Seq<char>> {
        match self.member(name) {
            Some(Doc::Number(literal)) => Some(literal),
            _ => None,
        }
    }
}

/// A JSON document.
#[derive(Debug, PartialEq, Eq)]
pub enum Json {
    Null,
    Bool(bool),
    /// A number, as its literal.
    Number(String),
    Text(String),
    Array(Vec<Json>),
    Object(Vec<Member>),
}

/// A member of a JSON object.
#[derive(Debug, PartialEq, Eq)]
pub struct Member {
    pub name: String,
    pub value: Json,
}

/// The models of a sequence of documents.
pub open spec fn docs_of(items: Seq<Json>) -> Seq<Doc>
    decreases items,
{
    if items.len() == 0 {
        Seq::empty()
    } else {
        docs_of(items.drop_last()).push(items.last().view())
    }
}

/// The map that a list of members denotes: each member is entered in turn,
/// so a later member replaces an earlier one of the same name.
pub open spec fn members_map(members: Seq<Member>) -> Map<Seq<char>, Doc>
    decreases members,
{
    if members.len() == 0 {
        Map::empty()
    } else {
        members_map(members.drop_last()).insert(
            members.last().name@,
            members.last().value.view(),
        )
    }
}

/// Whether every number in a sequence of documents is a number literal.
pub open spec fn all_numbers_valid(items: Seq<Json>) -> bool
    decreases items,
{
    if items.len() == 0 {
        true
    } else {
        all_numbers_valid(items.drop_last()) && items.last().numbers_valid()
    }
}

/// Whether every number in the values of a list of members is a number
/// literal.
pub open spec fn member_numbers_valid(members: Seq<Member>) -> bool
    decreases members,
{
    if members.len() == 0 {
        true
    } else {
        member_numbers_valid(members.drop_last()) && members.last().value.numbers_valid()
    }
}

impl View for Json {
    type V = Doc;

    open spec fn view(&self) -> Doc
        decreases self,
    {
        match self {
            Json::Null => Doc::Null,
            Json::Bool(b) => Doc::Bool(*b),
            Json::Number(literal) => Doc::Number(literal@),
            Json::Text(text) => Doc::Text(text@),
            Json::Array(items) => Doc::Array(docs_of(items@)),
            Json::Object(members) => Doc::Object(members_map(members@)),
        }
    }
}

impl Json {
    /// Whether every number in the document is a number literal. Only such a
    /// document can be written to the wire.
    pub open spec fn numbers_valid(&self) -> bool
        decreases self,
    {
        match self {
            Json::Number(literal) => is_number_literal(literal@),
            Json::Array(items) => all_numbers_valid(items@),
            Json::Object(members) => member_numbers_valid(members@),
            _ => true,
        }
    }

    /// Whether the document is an object.
    pub fn is_object(&self) -> (object: bool)
        ensures
            object == (self@ is Object),
    {
        match self {
            Json::Object(_) => true,
            _ => false,
        }
    }

    /// The member `name` of an object.
    pub fn get(&self, name: &str) -> (found: Option<&Json>)
        ensures
            found is Some <==> self@.member(name@) is Some,
            found matches Some(value) ==> self@.member(name@) == Some(value@),
    {
        match self {
            Json::Object(members) => {
                let mut i: usize = members.len();
                while i > 0
                    invariant
                        i <= members.len(),
                        self@ == Doc::Object(members_map(members@)),
                        forall|j: int| i <= j < members.len() ==> members@[j].name@ != name@,
                    decreases i,
                {
                    i = i - 1;
                    if str_eq(members[i].name.as_str(), name) {
                        proof {
                            lemma_members_map_present(members@, name@, i as int);
                        }
                        return Some(&members[i].value);
                    }
                }
                proof {
                    lemma_members_map_absent(members@, name@);
                }
                None
            },
            _ => None,
        }
    }

    /// The member `name` where it is a string.
    pub fn get_text(&self, name: &str) -> (found: Option<&String>)
        ensures
            found is Some <==> self@.text_member(name@) is Some,
            found matches Some(text) ==> self@.text_member(name@) == Some(text@),
    {
        match self.get(name) {
            Some(Json::Text(text)) => Some(text),
            _ => None,
        }
    }

    /// The member `name` where it is a boolean.
    pub fn get_bool(&self, name: &str) -> (found: Option<bool>)
        ensures
            found == self@.bool_member(name@),
    {
        match self.get(name) {
            Some(Json::Bool(b)) => Some(*b),
            _ => None,
        }
    }

    /// The member `name` where it is a number; the result is its literal.
    pub fn get_number(&self, name: &str) -> (found: Option<&String>)
        ensures
            found is Some <==> self@.number_member(name@) is Some,
            found matches Some(literal) ==> self@.number_member(name@) == Some(literal@),
    {
        match self.get(name) {
            Some(Json::Number(literal)) => Some(literal),
            _ => None,
        }
    }
}

/// The last member of a given name is what the map holds under that name.
pub proof fn lemma_members_map_present(members: Seq<Member>, name: Seq<char>, at: int)
    requires
        0 <= at < members.len(),
        members[at].name@ == name,
        forall|j: int| at < j < members.len() ==> members[j].name@ != name,
    ensures
        members_map(members).contains_key(name),
        members_map(members)[name] == members[at].value@,
    decreases members.len(),
{
    let front = members.drop_last();
    assert(members_map(members) == members_map(front).insert(
        members.last().name@,
        members.last().value.view(),
    ));
    if at < members.len() - 1 {
        assert(front[at] == members[at]);
        lemma_members_map_present(front, name, at);
    }
}

/// A name that no member has is not in the map.
pub proof fn lemma_members_map_absent(members: Seq<Member>, name: Seq<char>)
    requires
        forall|j: int| 0 <= j < members.len() ==> members[j].name@ != name,
    ensures
        !members_map(members).contains_key(name),
    decreases members.len(),
{
    if members.len() > 0 {
        let front = members.drop_last();
        assert(members_map(members) == members_map(front).insert(
            members.last().name@,
            members.last().value.view(),
        ));
        assert forall|j: int| 0 <= j < front.len() implies front[j].name@ != name by {
            assert(front[j] == members[j]);
        }
        lemma_members_map_absent(front, name);
    } else {
        assert(members_map(members) == Map::<Seq<char>, Doc>::empty());
    }
}

/// The models of a sequence of documents, position by position.
pub proof fn lemma_docs_of(items: Seq<Json>)
    ensures
        docs_of(items).len() == items.len(),
        forall|i: int| 0 <= i < items.len() ==> docs_of(items)[i] == #[trigger] items[i]@,
    decreases items.len(),
{
    if items.len() > 0 {
        let front = items.drop_last();
        lemma_docs_of(front);
        assert(docs_of(items) == docs_of(front).push(items.last().view()));
        assert forall|i: int| 0 <= i < items.len() implies docs_of(items)[i]
            == #[trigger] items[i]@ by {
            if i < front.len() {
                assert(front[i]@ == items[i]@);
            }
        }
    } else {
        assert(docs_of(items) == Seq::<Doc>::empty());
    }
}

/// The map of a list of members after one more member was appended.
pub proof fn lemma_members_map_push(members: Seq<Member>, member: Member)
    ensures
        members_map(members.push(member)) == members_map(members).insert(
            member.name@,
            member.value@,
        ),
        member_numbers_valid(members.push(member)) == (member_numbers_valid(members)
            && member.value.numbers_valid()),
{
    assert(members.push(member).drop_last() =~= members);
}

/// The models of a sequence of documents after one more was appended.
pub proof fn lemma_docs_of_push(items: Seq<Json>, item: Json)
    ensures
        docs_of(items.push(item)) == docs_of(items).push(item@),
        all_numbers_valid(items.push(item)) == (all_numbers_valid(items) && item.numbers_valid()),
{
    assert(items.push(item).drop_last() =~= items);
}

/// A copy of a document.
pub fn duplicate_json(json: &Json) -> (copy: Json)
    ensures
        copy@ == json@,
        copy.numbers_valid() == json.numbers_valid(),
    decreases json,
{
    match json {
        Json::Null => Json::Null,
        Json::Bool(b) => Json::Bool(*b),
        Json::Number(literal) => Json::Number(literal.clone()),
        Json::Text(text) => Json::Text(text.clone()),
        Json::Array(items) => {
            let mut out: Vec<Json> = Vec::new();
            let mut i: usize = 0;
            while i < items.len()
                invariant
                    i <= items.len(),
                    *json == Json::Array(*items),
                    docs_of(out@) == docs_of(items@.take(i as int)),
                    all_numbers_valid(out@) == all_numbers_valid(items@.take(i as int)),
                decreases items.len() - i,
            {
                assert(json->Array_0 == *items);
                let item = duplicate_json(&items[i]);
                proof {
                    lemma_docs_of_push(out@, item);
                    lemma_docs_of_push(items@.take(i as int), items@[i as int]);
                    assert(items@.take(i as int).push(items@[i as int]) =~= items@.take(
                        i as int + 1,
                    ));
                }
                out.push(item);
                i = i + 1;
            }
            proof {
                assert(items@.take(items@.len() as int) =~= items@);
            }
            Json::Array(out)
        },
        Json::Object(members) => {
            let mut out: Vec<Member> = Vec::new();
            let mut i: usize = 0;
            while i < members.len()
                invariant
                    i <= members.len(),
                    *json == Json::Object(*members),
                    members_map(out@) == members_map(members@.take(i as int)),
                    member_numbers_valid(out@) == member_numbers_valid(
                        members@.take(i as int),
                    ),
                decreases members.len() - i,
            {
                assert(json->Object_0 == *members);
                let value = duplicate_json(&members[i].value);
                let member = Member { name: members[i].name.clone(), value };
                proof {
                    lemma_members_map_push(out@, member);
                    lemma_members_map_push(members@.take(i as int), members@[i as int]);
                    assert(members@.take(i as int).push(members@[i as int])
                        =~= members@.take(i as int + 1));
                }
                out.push(member);
                i = i + 1;
            }
            proof {
                assert(members@.take(members@.len() as int) =~= members@);
            }
            Json::Object(out)
        },
    }
}

impl Json {
    /// A copy of the document.
    pub fn duplicate(&self) -> (copy: Json)
        ensures
            copy@ == self@,
            copy.numbers_valid() == self.numbers_valid(),
    {
        duplicate_json(self)
    }
}

} // verus!
