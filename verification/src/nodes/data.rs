//! Values that travel along the connections of the node graph, and the named
//! lists of them that a node receives as inputs and parameters.

use vstd::prelude::*;
use crate::engine::position;

verus! {

/// A single precision number, carried by its IEEE 754 bit pattern. Nodes hand
/// such numbers on; nothing here computes with them.
#[derive(Debug, Clone, Copy, PartialEq, Eq, Structural)]
pub struct Scalar {
    pub bits: u32,
}

/// A value on a connection or in a parameter.
#[derive(Debug, Clone)]
pub enum NodeData {
    /// No value: the answer of a node that could not do its work.
    Nothing,
    Boolean(bool),
    Integer(i64),
    Float(Scalar),
    /// Red, green, blue and alpha.
    Color([Scalar; 4]),
    String(String),
    /// Data that only the receiver can interpret, in its text form.
    Any(String),
}

/// A value as text, for comparison in contracts.
pub ghost enum DataView {
    Nothing,
    Boolean(bool),
    Integer(i64),
    Float(Scalar),
    Color(Seq<Scalar>),
    String(Seq<char>),
    Any(Seq<char>),
}

impl View for NodeData {
    type V = DataView;

    open spec fn view(&self) -> DataView {
        match self {
            NodeData::Nothing => DataView::Nothing,
            NodeData::Boolean(b) => DataView::Boolean(*b),
            NodeData::Integer(n) => DataView::Integer(*n),
            NodeData::Float(x) => DataView::Float(*x),
            NodeData::Color(c) => DataView::Color(c@),
            NodeData::String(s) => DataView::String(s@),
            NodeData::Any(s) => DataView::Any(s@),
        }
    }
}

impl NodeData {
    /// The text of a `String` value.
    pub open spec fn text(&self) -> Option<Seq<char>> {
        match self {
            NodeData::String(s) => Some(s@),
            _ => None,
        }
    }

    /// The flag of a `Boolean` value.
    pub open spec fn flag(&self) -> Option<bool> {
        match self {
            NodeData::Boolean(b) => Some(*b),
            _ => None,
        }
    }

    /// The text of a `String` value; nothing for any other value.
    pub fn as_string(&self) -> (r: Option<&str>)
        ensures
            match r {
                Some(s) => self.text() == Some(s@),
                None => self.text() is None,
            },
    {
        match self {
            NodeData::String(s) => Some(s.as_str()),
            _ => None,
        }
    }

    /// The flag of a `Boolean` value; nothing for any other value.
    pub fn as_boolean(&self) -> (r: Option<bool>)
        ensures
            r == self.flag(),
    {
        match self {
            NodeData::Boolean(b) => Some(*b),
            _ => None,
        }
    }

    /// The number of a `Float` value; nothing for any other value.
    pub fn as_float(&self) -> (r: Option<Scalar>)
        ensures
            r == match self {
                NodeData::Float(x) => Some(*x),
                _ => None,
            },
    {
        match self {
            NodeData::Float(x) => Some(*x),
            _ => None,
        }
    }
}

/// The names of a list of named values, in order.
pub open spec fn names(entries: Seq<(String, NodeData)>) -> Seq<Seq<char>> {
    Seq::new(entries.len(), |i: int| entries[i].0@)
}

/// The first value that the list holds under `name`.
pub open spec fn named(entries: Seq<(String, NodeData)>, name: Seq<char>) -> Option<NodeData> {
    match position(names(entries), name) {
        Some(i) => Some(entries[i].1),
        None => None,
    }
}

/// The text that the list holds under `name`, if it holds a `String` there.
pub open spec fn named_text(entries: Seq<(String, NodeData)>, name: Seq<char>) -> Option<
    Seq<char>,
> {
    match named(entries, name) {
        Some(d) => d.text(),
        None => None,
    }
}

/// The flag that the list holds under `name`, if it holds a `Boolean` there.
pub open spec fn named_flag(entries: Seq<(String, NodeData)>, name: Seq<char>) -> Option<bool> {
    match named(entries, name) {
        Some(d) => d.flag(),
        None => None,
    }
}

/// Looks `name` up in a list of named values.
pub fn lookup<'a>(entries: &'a Vec<(String, NodeData)>, name: &str) -> (r: Option<&'a NodeData>)
    ensures
        match r {
            Some(d) => named(entries@, name@) == Some(*d),
            None => named(entries@, name@) is None,
        },
{
    let wanted = name.to_owned();
    let ghost all = names(entries@);
    let mut i: usize = 0;
    while i < entries.len()
        invariant
            i <= entries.len(),
            wanted@ == name@,
            all == names(entries@),
            forall|j: int| 0 <= j < i ==> all[j] != name@,
        decreases entries.len() - i,
    {
        if entries[i].0 == wanted {
            proof {
                assert(all[i as int] == name@);
                crate::engine::lemma_position(all, name@);
                let c = position(all, name@).unwrap();
                assert(c == i) by {
                    if c < i {
                        assert(all[c] != name@);
                    }
                }
            }
            return Some(&entries[i].1);
        }
        assert(all[i as int] != name@);
        i += 1;
    }
    proof {
        crate::engine::lemma_position(all, name@);
    }
    None
}

/// The text under `name`, if the list holds a `String` there.
pub fn lookup_text<'a>(entries: &'a Vec<(String, NodeData)>, name: &str) -> (r: Option<&'a str>)
    ensures
        match r {
            Some(s) => named_text(entries@, name@) == Some(s@),
            None => named_text(entries@, name@) is None,
        },
{
    match lookup(entries, name) {
        Some(d) => d.as_string(),
        None => None,
    }
}

/// The flag under `name`, if the list holds a `Boolean` there.
pub fn lookup_flag(entries: &Vec<(String, NodeData)>, name: &str) -> (r: Option<bool>)
    ensures
        r == named_flag(entries@, name@),
{
    match lookup(entries, name) {
        Some(d) => d.as_boolean(),
        None => None,
    }
}

/// A copy of a value.
pub fn copy_of(d: &NodeData) -> (c: NodeData)
    ensures
        c@ == d@,
{
    match d {
        NodeData::Nothing => NodeData::Nothing,
        NodeData::Boolean(b) => NodeData::Boolean(*b),
        NodeData::Integer(n) => NodeData::Integer(*n),
        NodeData::Float(x) => NodeData::Float(*x),
        NodeData::Color(c) => NodeData::Color(*c),
        NodeData::String(s) => NodeData::String(s.clone()),
        NodeData::Any(s) => NodeData::Any(s.clone()),
    }
}

/// The position of the first value that a list as text holds under `name`.
pub open spec fn listed_at(entries: Seq<(Seq<char>, DataView)>, name: Seq<char>) -> Option<int> {
    position(Seq::new(entries.len(), |i: int| entries[i].0), name)
}

/// A list of named values with `value` kept under `name`: in the place of
/// the first value that had the name before, or at the end.
pub open spec fn put_entry(
    entries: Seq<(Seq<char>, DataView)>,
    name: Seq<char>,
    value: DataView,
) -> Seq<(Seq<char>, DataView)> {
    match listed_at(entries, name) {
        Some(i) => entries.update(i, (name, value)),
        None => entries.push((name, value)),
    }
}

/// The value that a list as text holds under `name`, or `fallback`.
pub open spec fn entry_or(
    entries: Seq<(Seq<char>, DataView)>,
    name: Seq<char>,
    fallback: DataView,
) -> DataView {
    match listed_at(entries, name) {
        Some(i) => entries[i].1,
        None => fallback,
    }
}

/// Keeps `value` under `name`.
pub fn insert_entry(entries: &mut Vec<(String, NodeData)>, name: &str, value: NodeData)
    ensures
        listing(final(entries)@) == put_entry(listing(old(entries)@), name@, value@),
{
    let wanted = name.to_owned();
    let ghost before = listing(entries@);
    let ghost all = Seq::new(before.len(), |i: int| before[i].0);
    let mut i: usize = 0;
    while i < entries.len()
        invariant
            i <= entries.len(),
            wanted@ == name@,
            *entries == *old(entries),
            before == listing(entries@),
            all == Seq::new(before.len(), |i: int| before[i].0),
            forall|j: int| 0 <= j < i ==> all[j] != name@,
        decreases entries.len() - i,
    {
        if entries[i].0 == wanted {
            proof {
                assert(all[i as int] == name@);
                crate::engine::lemma_position(all, name@);
                let c = position(all, name@).unwrap();
                assert(c == i) by {
                    if c < i {
                        assert(all[c] != name@);
                    }
                }
            }
            entries.set(i, (wanted, value));
            assert(listing(entries@) =~= before.update(i as int, (name@, value@)));
            return ;
        }
        assert(all[i as int] != name@);
        i += 1;
    }
    proof {
        crate::engine::lemma_position(all, name@);
    }
    entries.push((wanted, value));
    assert(listing(entries@) =~= before.push((name@, value@)));
}

/// A list of named values as text.
pub open spec fn listing(entries: Seq<(String, NodeData)>) -> Seq<(Seq<char>, DataView)> {
    Seq::new(entries.len(), |i: int| (entries[i].0@, entries[i].1@))
}

/// Adds `value` under `name` at the end of a list of named values.
pub fn add_entry(entries: &mut Vec<(String, NodeData)>, name: &str, value: NodeData)
    ensures
        listing(final(entries)@) == listing(old(entries)@).push((name@, value@)),
{
    entries.push((name.to_owned(), value));
    assert(listing(entries@) =~= listing(old(entries)@).push((name@, value@)));
}

/// A `String` value with the text `text`.
pub fn text_value(text: &str) -> (d: NodeData)
    ensures
        d@ == DataView::String(text@),
{
    NodeData::String(text.to_owned())
}

} // verus!
