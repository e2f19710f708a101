//! Reading a scene from a document.
//!
//! A [`Document`] is what a structured text, such as YAML, says once it is
//! parsed: numbers, strings, lists and tables. A document as it is parsed
//! holds its reals as they were written, `Document<String>`; once the
//! caller's `number` kernel has read them they are scalars,
//! `Document<Scalar>`. The loaders turn such a document into a scene, or
//! report that it describes none.

use vstd::prelude::*;
use crate::scalar::Scalar;

pub mod yaml;

verus! {

/// A value of a parsed document, with reals held as `R`.
#[derive(Debug)]
pub enum Document<R> {
    /// A number written with a fraction or an exponent.
    Real(R),
    /// A number written as an integer.
    Integer(i64),
    /// A string.
    Text(String),
    /// A truth value.
    Boolean(bool),
    /// A sequence of values.
    List(Vec<Document<R>>),
    /// A table: keys with their values, in the order they were written.
    Table(Vec<Entry<R>>),
    /// A reference to a value written elsewhere.
    Alias(usize),
    /// The empty value.
    Null,
    /// What could not be read.
    Bad,
}

/// A key of a table with its value.
#[derive(Debug)]
pub struct Entry<R> {
    pub key: Document<R>,
    pub value: Document<R>,
}

/// Whether an entry has the string `key` for its key.
pub open spec fn is_named<R>(entry: Entry<R>, key: Seq<char>) -> bool {
    entry.key matches Document::Text(text) && text@ == key
}

/// Where the string `key` first stands as a key among the first `count`
/// entries, if it does.
pub open spec fn position_of<R>(entries: Seq<Entry<R>>, key: Seq<char>, count: nat) -> Option<int>
    decreases count,
{
    if count == 0 || count > entries.len() {
        None
    } else {
        match position_of(entries, key, (count - 1) as nat) {
            Some(i) => Some(i),
            None => if is_named(entries[count - 1], key) {
                Some(count - 1)
            } else {
                None
            },
        }
    }
}

/// `position_of` finds the first entry of the name, and none where there
/// is none.
pub proof fn lemma_position_of<R>(entries: Seq<Entry<R>>, key: Seq<char>, count: nat)
    requires
        count <= entries.len(),
    ensures
        (match position_of(entries, key, count) {
            Some(i) => 0 <= i < count && is_named(entries[i], key) && forall|j: int|
                0 <= j < i ==> !is_named(#[trigger] entries[j], key),
            None => forall|j: int| 0 <= j < count ==> !is_named(#[trigger] entries[j], key),
        }),
    decreases count,
{
    if count > 0 {
        lemma_position_of(entries, key, (count - 1) as nat);
    }
}

/// What `position_of` has found among some entries, it finds among more.
pub proof fn lemma_position_of_stays<R>(
    entries: Seq<Entry<R>>,
    key: Seq<char>,
    count: nat,
    more: nat,
)
    requires
        count <= more <= entries.len(),
        position_of(entries, key, count) is Some,
    ensures
        position_of(entries, key, more) == position_of(entries, key, count),
    decreases more,
{
    if count < more {
        lemma_position_of_stays(entries, key, count, (more - 1) as nat);
    }
}

/// Where the string `key` first stands as a key among `entries`, if it does.
pub fn find<R>(entries: &Vec<Entry<R>>, key: &String) -> (found: Option<usize>)
    ensures
        (match found {
            Some(i) => position_of(entries@, key@, entries@.len()) == Some(i as int),
            None => position_of(entries@, key@, entries@.len()) is None,
        }),
{
    let mut i: usize = 0;
    while i < entries.len()
        invariant
            i <= entries.len(),
            position_of(entries@, key@, i as nat) is None,
        decreases entries.len() - i,
    {
        let named = match &entries[i].key {
            Document::Text(text) => *text == *key,
            _ => false,
        };
        if named {
            proof {
                assert(position_of(entries@, key@, (i + 1) as nat) == Some(i as int));
                lemma_position_of_stays(entries@, key@, (i + 1) as nat, entries@.len());
            }
            return Some(i);
        }
        i += 1;
    }
    None
}

impl<R> Document<R> {
    /// Whether the document is a table with the string `key` among its keys.
    pub open spec fn has(&self, key: Seq<char>) -> bool {
        self matches Document::Table(entries) && position_of(entries@, key, entries@.len())
            is Some
    }

    /// The value of the key `key`: that of the first entry of the name.
    /// Meaningful where `has(key)`.
    pub open spec fn member(&self, key: Seq<char>) -> Document<R> {
        let entries = self->Table_0@;
        entries[position_of(entries, key, entries.len())->0].value
    }

    /// The values of a list; of anything else, none.
    pub open spec fn items(&self) -> Seq<Document<R>> {
        match self {
            Document::List(items) => items@,
            _ => Seq::empty(),
        }
    }

    /// The value of the key `key` in a table. There is none where the
    /// document is no table, or has no such key.
    pub fn get(&self, key: &String) -> (found: Option<&Document<R>>)
        ensures
            found is Some <==> self.has(key@),
            found matches Some(value) ==> *value == self.member(key@) && decreases_to!(self => value),
    {
        match self {
            Document::Table(entries) => match find(entries, key) {
                Some(i) => {
                    proof {
                        lemma_position_of(entries@, key@, entries@.len());
                        assert(decreases_to!(entries => entries[i as int]));
                        assert(decreases_to!(entries[i as int] => entries[i as int].value));
                    }
                    Some(&entries[i].value)
                },
                None => None,
            },
            _ => None,
        }
    }

    /// The string, where the document is one.
    pub fn as_text(&self) -> (r: Option<&String>)
        ensures
            r is Some <==> self is Text,
            r matches Some(text) ==> *text == self->Text_0,
    {
        match self {
            Document::Text(text) => Some(text),
            _ => None,
        }
    }
}

impl Document<Scalar> {
    /// The number, where the document is a real.
    pub fn as_real(&self) -> (r: Option<Scalar>)
        ensures
            r == (match self {
                Document::Real(x) => Some(*x),
                _ => None,
            }),
    {
        match self {
            Document::Real(x) => Some(*x),
            _ => None,
        }
    }
}

/// A real as it is read: the number, or a bad value where `number` made
/// none of the text.
pub open spec fn real_or_bad(x: Option<Scalar>) -> Document<Scalar> {
    match x {
        Some(value) => Document::Real(value),
        None => Document::Bad,
    }
}

/// Whether `read` is `written` with its reals read by `number`: the same
/// document, but for each real what `number` makes of its text.
pub open spec fn numbers_read<N: Fn(&String) -> Option<Scalar>>(
    written: Document<String>,
    number: &N,
    read: Document<Scalar>,
) -> bool
    decreases written,
{
    match written {
        Document::Real(text) => exists|x: Option<Scalar>| #[trigger]
            number.ensures((&text,), x) && read == real_or_bad(x),
        Document::Integer(i) => read == Document::<Scalar>::Integer(i),
        Document::Text(text) => read == Document::<Scalar>::Text(text),
        Document::Boolean(b) => read == Document::<Scalar>::Boolean(b),
        Document::List(items) => {
            &&& read matches Document::List(out)
            &&& out@.len() == items@.len()
            &&& forall|i: int|
                0 <= i < items@.len() ==> numbers_read(items@[i], number, #[trigger] out@[i])
        },
        Document::Table(entries) => {
            &&& read matches Document::Table(out)
            &&& out@.len() == entries@.len()
            &&& forall|i: int|
                0 <= i < entries@.len() ==> {
                    &&& numbers_read(entries@[i].key, number, (#[trigger] out@[i]).key)
                    &&& numbers_read(entries@[i].value, number, out@[i].value)
                }
        },
        Document::Alias(n) => read == Document::<Scalar>::Alias(n),
        Document::Null => read == Document::<Scalar>::Null,
        Document::Bad => read == Document::<Scalar>::Bad,
    }
}

/// The items of a list with their reals read.
pub fn read_numbers_of_list<N: Fn(&String) -> Option<Scalar>>(
    items: &Vec<Document<String>>,
    number: &N,
) -> (out: Vec<Document<Scalar>>)
    requires
        forall|text: &String| number.requires((text,)),
    ensures
        out@.len() == items@.len(),
        forall|i: int| 0 <= i < items@.len() ==> numbers_read(items@[i], number, #[trigger] out@[i]),
    decreases items, 0nat,
{
    let mut out: Vec<Document<Scalar>> = Vec::new();
    let mut i: usize = 0;
    while i < items.len()
        invariant
            i <= items.len(),
            forall|text: &String| number.requires((text,)),
            out@.len() == i,
            forall|j: int| 0 <= j < i ==> numbers_read(items@[j], number, #[trigger] out@[j]),
        decreases items.len() - i,
    {
        let read = read_numbers(&items[i], number);
        out.push(read);
        i += 1;
    }
    out
}

/// The entries of a table with their reals read, in keys and in values.
pub fn read_numbers_of_table<N: Fn(&String) -> Option<Scalar>>(
    entries: &Vec<Entry<String>>,
    number: &N,
) -> (out: Vec<Entry<Scalar>>)
    requires
        forall|text: &String| number.requires((text,)),
    ensures
        out@.len() == entries@.len(),
        forall|i: int|
            0 <= i < entries@.len() ==> numbers_read(
                entries@[i].key,
                number,
                (#[trigger] out@[i]).key,
            ) && numbers_read(entries@[i].value, number, out@[i].value),
    decreases entries, 0nat,
{
    let mut out: Vec<Entry<Scalar>> = Vec::new();
    let mut i: usize = 0;
    while i < entries.len()
        invariant
            i <= entries.len(),
            forall|text: &String| number.requires((text,)),
            out@.len() == i,
            forall|j: int|
                0 <= j < i ==> {
                    &&& numbers_read(entries@[j].key, number, (#[trigger] out@[j]).key)
                    &&& numbers_read(entries@[j].value, number, out@[j].value)
                },
        decreases entries.len() - i,
    {
        let entry = &entries[i];
        proof {
            assert(decreases_to!(entries => entries[i as int]));
            assert(decreases_to!(entry => entry.key));
            assert(decreases_to!(entry => entry.value));
        }
        let key = read_numbers(&entry.key, number);
        let value = read_numbers(&entry.value, number);
        out.push(Entry { key, value });
        i += 1;
    }
    out
}

/// The document with its reals read by `number`. A real of whose text
/// `number` makes nothing becomes a bad value.
pub fn read_numbers<N: Fn(&String) -> Option<Scalar>>(written: &Document<String>, number: &N) -> (read:
    Document<Scalar>)
    requires
        forall|text: &String| number.requires((text,)),
    ensures
        numbers_read(*written, number, read),
    decreases written, 1nat,
{
    match written {
        Document::Real(text) => match number(text) {
            Some(value) => Document::Real(value),
            None => Document::Bad,
        },
        Document::Integer(i) => Document::Integer(*i),
        Document::Text(text) => Document::Text(text.clone()),
        Document::Boolean(b) => Document::Boolean(*b),
        Document::List(items) => Document::List(read_numbers_of_list(items, number)),
        Document::Table(entries) => Document::Table(read_numbers_of_table(entries, number)),
        Document::Alias(n) => Document::Alias(*n),
        Document::Null => Document::Null,
        Document::Bad => Document::Bad,
    }
}

} // verus!
