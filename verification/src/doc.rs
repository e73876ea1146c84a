//! The generic key-value tree a parsed configuration file becomes: string
//! leaves, keyed maps, arrays, raw data blobs, and archive references.
//! Everything a resolver reads out of a file goes through this type, so the
//! extraction logic is ordinary verified code.

use vstd::prelude::*;

use crate::strutil;

verus! {

/// One node of a parsed configuration document.
#[derive(Debug, PartialEq, Eq)]
pub enum Node {
    /// A string value.
    Str(String),
    /// A dictionary of keyed children, in document order.
    Dict(Vec<(String, Node)>),
    /// An array of children, in document order.
    Arr(Vec<Node>),
    /// An opaque byte blob (a property-list data value).
    Data(Vec<u8>),
    /// An index into an archive's object table (a property-list UID).
    Ref(usize),
    /// Any other value: a number, a boolean, a date.  No resolver reads
    /// these.
    Other,
}

/// The first entry with the given key, if any.
pub open spec fn entries_lookup(es: Seq<(String, Node)>, key: Seq<char>) -> Option<Node>
    decreases es.len(),
{
    if es.len() == 0 {
        None
    } else if es[0].0@ == key {
        Some(es[0].1)
    } else {
        entries_lookup(es.drop_first(), key)
    }
}

/// Keyed child lookup: something only a map can answer.
pub open spec fn get_spec(n: Node, key: Seq<char>) -> Option<Node> {
    match n {
        Node::Dict(es) => entries_lookup(es@, key),
        _ => None,
    }
}

/// The string a node holds, if it is a string.
pub open spec fn str_spec(n: Node) -> Option<Seq<char>> {
    match n {
        Node::Str(s) => Some(s@),
        _ => None,
    }
}

/// The elements a node holds, if it is an array.
pub open spec fn arr_spec(n: Node) -> Option<Seq<Node>> {
    match n {
        Node::Arr(items) => Some(items@),
        _ => None,
    }
}

/// The entries a node holds, if it is a map.
pub open spec fn map_spec(n: Node) -> Option<Seq<(String, Node)>> {
    match n {
        Node::Dict(es) => Some(es@),
        _ => None,
    }
}

/// The bytes a node holds, if it is a data blob.
pub open spec fn data_spec(n: Node) -> Option<Seq<u8>> {
    match n {
        Node::Data(b) => Some(b@),
        _ => None,
    }
}

/// The object-table index a node holds, if it is a reference.
pub open spec fn ref_spec(n: Node) -> Option<usize> {
    match n {
        Node::Ref(u) => Some(u),
        _ => None,
    }
}

impl Node {
    /// The child under `key`, if this node is a map that has one.
    pub fn get<'a>(&'a self, key: &str) -> (r: Option<&'a Node>)
        ensures
            match r {
                Some(m) => get_spec(*self, key@) == Some(*m),
                None => get_spec(*self, key@) is None,
            },
    {
        match self {
            Node::Dict(es) => {
                let n = es.len();
                let mut i: usize = 0;
                proof {
                    assert(es@.subrange(0, n as int) =~= es@);
                }
                while i < n
                    invariant
                        0 <= i <= n,
                        n == es@.len(),
                        get_spec(*self, key@) == entries_lookup(es@, key@),
                        entries_lookup(es@, key@) == entries_lookup(
                            es@.subrange(i as int, n as int),
                            key@,
                        ),
                    decreases n - i,
                {
                    proof {
                        assert(es@.subrange(i as int, n as int)[0] == es@[i as int]);
                        assert(es@.subrange(i as int, n as int).drop_first() =~= es@.subrange(
                            i + 1,
                            n as int,
                        ));
                    }
                    if strutil::str_eq(es[i].0.as_str(), key) {
                        proof {
                            assert(entries_lookup(es@.subrange(i as int, n as int), key@) == Some(
                                es@[i as int].1,
                            ));
                        }
                        return Some(&es[i].1);
                    }
                    i = i + 1;
                }
                None
            },
            _ => None,
        }
    }

    /// The string this node holds, if it is a string.
    pub fn as_str<'a>(&'a self) -> (r: Option<&'a String>)
        ensures
            match r {
                Some(s) => str_spec(*self) == Some(s@),
                None => str_spec(*self) is None,
            },
    {
        match self {
            Node::Str(s) => Some(s),
            _ => None,
        }
    }

    /// The elements this node holds, if it is an array.
    pub fn as_arr<'a>(&'a self) -> (r: Option<&'a Vec<Node>>)
        ensures
            match r {
                Some(items) => arr_spec(*self) == Some(items@),
                None => arr_spec(*self) is None,
            },
    {
        match self {
            Node::Arr(items) => Some(items),
            _ => None,
        }
    }

    /// Whether this node is a map.
    pub fn is_map(&self) -> (r: bool)
        ensures
            r == (map_spec(*self) is Some),
    {
        matches!(self, Node::Dict(_))
    }

    /// The bytes this node holds, if it is a data blob.
    pub fn as_data<'a>(&'a self) -> (r: Option<&'a Vec<u8>>)
        ensures
            match r {
                Some(b) => data_spec(*self) == Some(b@),
                None => data_spec(*self) is None,
            },
    {
        match self {
            Node::Data(b) => Some(b),
            _ => None,
        }
    }

    /// The object-table index this node holds, if it is a reference.
    pub fn as_ref_index(&self) -> (r: Option<usize>)
        ensures
            r == ref_spec(*self),
    {
        match self {
            Node::Ref(u) => Some(*u),
            _ => None,
        }
    }
}

} // verus!
