//! Documents: the untyped trees that sources are parsed into.
//!
//! A document is a mapping from keys to values; a value is a scalar, a list or a
//! nested mapping. A mapping is kept as the sequence of its entries, in the order
//! in which they were written, and a key stands for the first entry that carries
//! it.
//!
//! Keys are compared character by character. `Port` and `port` are two keys, and
//! a dot in a key is part of the key: it does not lead into a nested mapping.

use vstd::prelude::*;

verus! {

/// What sort of value a node of a document is.
#[derive(Clone, Copy, Debug, PartialEq, Eq, Structural)]
pub enum Kind {
    Nil,
    Boolean,
    Integer,
    Float,
    Text,
    List,
    Table,
}

impl Kind {
    /// The name of the kind as it appears in messages.
    pub open spec fn name_text(self) -> Seq<char> {
        match self {
            Kind::Nil => "nothing"@,
            Kind::Boolean => "a boolean"@,
            Kind::Integer => "an integer"@,
            Kind::Float => "a floating-point number"@,
            Kind::Text => "a string"@,
            Kind::List => "a list"@,
            Kind::Table => "a mapping"@,
        }
    }

    /// The name as it appears in messages.
    pub fn name(&self) -> (text: &'static str)
        ensures
            text@ == self.name_text(),
    {
        match self {
            Kind::Nil => "nothing",
            Kind::Boolean => "a boolean",
            Kind::Integer => "an integer",
            Kind::Float => "a floating-point number",
            Kind::Text => "a string",
            Kind::List => "a list",
            Kind::Table => "a mapping",
        }
    }
}

/// A value of a document.
#[derive(Debug, PartialEq, Eq)]
pub enum Value {
    /// An explicit null.
    Nil,
    Boolean(bool),
    Integer(i128),
    /// A floating-point number, held as the bits of its IEEE 754 double.
    Float(u64),
    Text(String),
    List(Vec<Value>),
    /// A nested mapping, as its entries in document order.
    Table(Vec<Entry>),
}

/// One key of a mapping and the value under it.
#[derive(Debug, PartialEq, Eq)]
pub struct Entry {
    pub key: String,
    pub value: Value,
}

/// A whole document: the mapping at its root.
#[derive(Debug, PartialEq, Eq)]
pub struct Document {
    pub entries: Vec<Entry>,
}

/// The mathematical content of a [`Value`].
pub enum Node {
    Nil,
    Boolean(bool),
    Integer(int),
    Float(u64),
    Text(Seq<char>),
    List(Seq<Node>),
    Table(Seq<Member>),
}

/// The mathematical content of an [`Entry`].
pub struct Member {
    pub key: Seq<char>,
    pub value: Node,
}

/// The content of a list of values, item by item.
pub open spec fn nodes_of(items: Seq<Value>) -> Seq<Node>
    decreases items,
{
    Seq::new(
        items.len(),
        |i: int|
            if 0 <= i < items.len() {
                items[i].view()
            } else {
                Node::Nil
            },
    )
}

/// The content of a list of entries, entry by entry.
pub open spec fn members_of(entries: Seq<Entry>) -> Seq<Member>
    decreases entries,
{
    Seq::new(
        entries.len(),
        |i: int|
            if 0 <= i < entries.len() {
                Member { key: entries[i].key@, value: entries[i].value.view() }
            } else {
                Member { key: Seq::empty(), value: Node::Nil }
            },
    )
}

impl View for Value {
    type V = Node;

    open spec fn view(&self) -> Node
        decreases self,
    {
        match self {
            Value::Nil => Node::Nil,
            Value::Boolean(flag) => Node::Boolean(*flag),
            Value::Integer(number) => Node::Integer(*number as int),
            Value::Float(bits) => Node::Float(*bits),
            Value::Text(text) => Node::Text(text@),
            Value::List(items) => Node::List(nodes_of(items@)),
            Value::Table(entries) => Node::Table(members_of(entries@)),
        }
    }
}

impl View for Entry {
    type V = Member;

    open spec fn view(&self) -> Member {
        Member { key: self.key@, value: self.value@ }
    }
}

impl View for Document {
    type V = Seq<Member>;

    open spec fn view(&self) -> Seq<Member> {
        members_of(self.entries@)
    }
}

impl Node {
    /// What sort of value this is.
    pub open spec fn kind(self) -> Kind {
        match self {
            Node::Nil => Kind::Nil,
            Node::Boolean(_) => Kind::Boolean,
            Node::Integer(_) => Kind::Integer,
            Node::Float(_) => Kind::Float,
            Node::Text(_) => Kind::Text,
            Node::List(_) => Kind::List,
            Node::Table(_) => Kind::Table,
        }
    }
}

/// The index of the first member that carries `key`.
pub open spec fn first_index(members: Seq<Member>, key: Seq<char>) -> Option<int>
    decreases members.len(),
{
    if members.len() == 0 {
        None
    } else {
        match first_index(members.drop_last(), key) {
            Some(i) => Some(i),
            None => if members.last().key == key {
                Some(members.len() - 1)
            } else {
                None
            },
        }
    }
}

/// The value under `key`: that of the first member that carries it.
pub open spec fn find(members: Seq<Member>, key: Seq<char>) -> Option<Node> {
    match first_index(members, key) {
        Some(i) => Some(members[i].value),
        None => None,
    }
}

/// `first_index` gives the least index at which the key stands, and nothing
/// exactly when the key stands nowhere.
pub proof fn first_index_is_least(members: Seq<Member>, key: Seq<char>)
    ensures
        match first_index(members, key) {
            Some(i) => 0 <= i < members.len() && members[i].key == key && forall|j: int|
                0 <= j < i ==> members[j].key != key,
            None => forall|j: int| 0 <= j < members.len() ==> members[j].key != key,
        },
    decreases members.len(),
{
    if members.len() > 0 {
        let front = members.drop_last();
        first_index_is_least(front, key);
        assert(forall|j: int| 0 <= j < front.len() ==> front[j] == members[j]);
    }
}

/// An index at which the key stands, with none before it, is the first index.
pub proof fn least_index_is_first(members: Seq<Member>, key: Seq<char>, i: int)
    requires
        0 <= i < members.len(),
        members[i].key == key,
        forall|j: int| 0 <= j < i ==> members[j].key != key,
    ensures
        first_index(members, key) == Some(i),
        find(members, key) == Some(members[i].value),
{
    first_index_is_least(members, key);
}

/// A key that stands nowhere has no value.
pub proof fn absent_key_finds_nothing(members: Seq<Member>, key: Seq<char>)
    requires
        forall|j: int| 0 <= j < members.len() ==> members[j].key != key,
    ensures
        first_index(members, key) is None,
        find(members, key) is None,
{
    first_index_is_least(members, key);
}

impl Value {
    /// What sort of value this is.
    pub fn kind(&self) -> (kind: Kind)
        ensures
            kind == self@.kind(),
    {
        match self {
            Value::Nil => Kind::Nil,
            Value::Boolean(_) => Kind::Boolean,
            Value::Integer(_) => Kind::Integer,
            Value::Float(_) => Kind::Float,
            Value::Text(_) => Kind::Text,
            Value::List(_) => Kind::List,
            Value::Table(_) => Kind::Table,
        }
    }

    /// A deep copy.
    pub fn duplicate(&self) -> (copy: Value)
        ensures
            copy@ == self@,
        decreases self,
    {
        match self {
            Value::Nil => Value::Nil,
            Value::Boolean(flag) => Value::Boolean(*flag),
            Value::Integer(number) => Value::Integer(*number),
            Value::Float(bits) => Value::Float(*bits),
            Value::Text(text) => Value::Text(text.clone()),
            Value::List(items) => Value::List(duplicate_values(items)),
            Value::Table(entries) => Value::Table(duplicate_entries(entries)),
        }
    }
}

/// A deep copy of a list of values.
pub fn duplicate_values(items: &Vec<Value>) -> (copy: Vec<Value>)
    ensures
        nodes_of(copy@) == nodes_of(items@),
    decreases items,
{
    let mut copy: Vec<Value> = Vec::new();
    let mut i: usize = 0;
    while i < items.len()
        invariant
            i <= items.len(),
            copy.len() == i,
            forall|j: int| 0 <= j < i ==> copy[j]@ == items[j]@,
        decreases items.len() - i,
    {
        copy.push(items[i].duplicate());
        i += 1;
    }
    assert(nodes_of(copy@) =~= nodes_of(items@));
    copy
}

/// A deep copy of a list of entries.
pub fn duplicate_entries(entries: &Vec<Entry>) -> (copy: Vec<Entry>)
    ensures
        members_of(copy@) == members_of(entries@),
    decreases entries,
{
    let mut copy: Vec<Entry> = Vec::new();
    let mut i: usize = 0;
    while i < entries.len()
        invariant
            i <= entries.len(),
            copy.len() == i,
            forall|j: int| 0 <= j < i ==> copy[j]@ == entries[j]@,
        decreases entries.len() - i,
    {
        copy.push(Entry { key: entries[i].key.clone(), value: entries[i].value.duplicate() });
        i += 1;
    }
    assert(members_of(copy@) =~= members_of(entries@));
    copy
}

impl Clone for Value {
    fn clone(&self) -> (copy: Value)
        ensures
            copy@ == self@,
    {
        self.duplicate()
    }
}

impl Clone for Entry {
    fn clone(&self) -> (copy: Entry)
        ensures
            copy@ == self@,
    {
        self.duplicate()
    }
}

impl Clone for Document {
    fn clone(&self) -> (copy: Document)
        ensures
            copy@ == self@,
    {
        self.duplicate()
    }
}

impl Entry {
    /// A deep copy.
    pub fn duplicate(&self) -> (copy: Entry)
        ensures
            copy@ == self@,
    {
        Entry { key: self.key.clone(), value: self.value.duplicate() }
    }
}

/// The position of the first entry that carries `key`.
pub fn position(entries: &Vec<Entry>, key: &String) -> (found: Option<usize>)
    ensures
        match found {
            Some(i) => first_index(members_of(entries@), key@) == Some(i as int),
            None => first_index(members_of(entries@), key@) is None,
        },
{
    let mut i: usize = 0;
    while i < entries.len()
        invariant
            i <= entries.len(),
            forall|j: int| 0 <= j < i ==> members_of(entries@)[j].key != key@,
        decreases entries.len() - i,
    {
        if entries[i].key == *key {
            proof {
                least_index_is_first(members_of(entries@), key@, i as int);
            }
            return Some(i);
        }
        i += 1;
    }
    proof {
        absent_key_finds_nothing(members_of(entries@), key@);
    }
    None
}

impl Document {
    /// A document without entries.
    pub fn new() -> (document: Document)
        ensures
            document@ == Seq::<Member>::empty(),
    {
        let document = Document { entries: Vec::new() };
        assert(document@ =~= Seq::<Member>::empty());
        document
    }

    /// A deep copy.
    pub fn duplicate(&self) -> (copy: Document)
        ensures
            copy@ == self@,
    {
        Document { entries: duplicate_entries(&self.entries) }
    }

    /// The value under `key`, if the document has that key.
    pub fn get(&self, key: &str) -> (value: Option<&Value>)
        ensures
            match value {
                Some(value) => find(self@, key@) == Some(value@),
                None => find(self@, key@) is None,
            },
    {
        lookup(&self.entries, key)
    }
}

/// The value under `key` among `entries`, if any carries it.
pub fn lookup<'a>(entries: &'a Vec<Entry>, key: &str) -> (value: Option<&'a Value>)
    ensures
        match value {
            Some(value) => find(members_of(entries@), key@) == Some(value@),
            None => find(members_of(entries@), key@) is None,
        },
{
    let wanted = key.to_owned();
    proof {
        first_index_is_least(members_of(entries@), key@);
    }
    match position(entries, &wanted) {
        Some(i) => Some(&entries[i].value),
        None => None,
    }
}

} // verus!
