//! The trusted boundary to the file-format parsers.  Each parser is called
//! through one wrapper whose result is named by an uninterpreted function of
//! the input text alone; a companion conversion turns the parser's own value
//! tree into this library's [`Node`] tree, moving fields only.

use vstd::prelude::*;

use crate::doc::Node;

verus! {

/// Declares `toml::Value` so that the conversion below can take it.
#[verifier::external_type_specification]
#[verifier::external_body]
pub struct ExTomlValue(toml::Value);

/// Declares `serde_json::Value` so that the conversions below can take it.
#[verifier::external_type_specification]
#[verifier::external_body]
pub struct ExJsonValue(serde_json::Value);

/// Declares `plist::Value` so that the conversion below can take it.
#[verifier::external_type_specification]
#[verifier::external_body]
pub struct ExPlistValue(plist::Value);

/// What parsing text as TOML yields: the document tree, or the parser's
/// error message.
pub uninterp spec fn toml_doc_of(s: Seq<char>) -> Result<Node, Seq<char>>;

/// What parsing text as JSON-with-extensions (JSON5) yields.
pub uninterp spec fn json5_doc_of(s: Seq<char>) -> Result<Node, Seq<char>>;

/// What parsing text as plain JSON yields.
pub uninterp spec fn json_doc_of(s: Seq<char>) -> Result<Node, Seq<char>>;

/// What parsing bytes as a property list (XML or binary) yields.
pub uninterp spec fn plist_doc_of(b: Seq<u8>) -> Result<Node, Seq<char>>;

/// Conversion half of [`parse_toml`]: maps `toml::Value` onto [`Node`],
/// variant for variant.
#[verifier::external_body]
fn node_of_toml(v: toml::Value) -> Node {
    match v {
        toml::Value::String(s) => Node::Str(s),
        toml::Value::Array(a) => Node::Arr(a.into_iter().map(node_of_toml).collect()),
        toml::Value::Table(t) => Node::Dict(
            t.into_iter().map(|(k, x)| (k, node_of_toml(x))).collect(),
        ),
        _ => Node::Other,
    }
}

/// Conversion half of [`parse_json5`] and [`parse_json`]: maps
/// `serde_json::Value` onto [`Node`], variant for variant.
#[verifier::external_body]
fn node_of_json(v: serde_json::Value) -> Node {
    match v {
        serde_json::Value::String(s) => Node::Str(s),
        serde_json::Value::Array(a) => Node::Arr(a.into_iter().map(node_of_json).collect()),
        serde_json::Value::Object(m) => Node::Dict(
            m.into_iter().map(|(k, x)| (k, node_of_json(x))).collect(),
        ),
        _ => Node::Other,
    }
}

/// Conversion half of [`parse_plist`]: maps `plist::Value` onto [`Node`],
/// variant for variant.
#[verifier::external_body]
fn node_of_plist(v: plist::Value) -> Node {
    match v {
        plist::Value::String(s) => Node::Str(s),
        plist::Value::Array(a) => Node::Arr(a.into_iter().map(node_of_plist).collect()),
        plist::Value::Dictionary(d) => Node::Dict(
            d.into_iter().map(|(k, x)| (k, node_of_plist(x))).collect(),
        ),
        plist::Value::Data(b) => Node::Data(b),
        plist::Value::Uid(u) => Node::Ref(u.get() as usize),
        _ => Node::Other,
    }
}

/// Relies on `toml::from_str`: parses the text as one TOML document; the
/// tree and any error message depend on the text alone.
#[verifier::external_body]
pub fn parse_toml(s: &str) -> (r: Result<Node, String>)
    ensures
        match r {
            Ok(d) => toml_doc_of(s@) matches Ok(m) && d == m,
            Err(e) => toml_doc_of(s@) matches Err(m) && e@ == m,
        },
{
    match toml::from_str::<toml::Value>(s) {
        Ok(v) => Ok(node_of_toml(v)),
        Err(e) => Err(format!("{e}")),
    }
}

/// Relies on `serde_json5::from_str`: parses the text as one JSON5 document;
/// the tree and any error message depend on the text alone.
#[verifier::external_body]
pub fn parse_json5(s: &str) -> (r: Result<Node, String>)
    ensures
        match r {
            Ok(d) => json5_doc_of(s@) matches Ok(m) && d == m,
            Err(e) => json5_doc_of(s@) matches Err(m) && e@ == m,
        },
{
    match serde_json5::from_str::<serde_json::Value>(s) {
        Ok(v) => Ok(node_of_json(v)),
        Err(e) => Err(format!("{e}")),
    }
}

/// Relies on `serde_json::from_str`: parses the text as one JSON document;
/// the tree and any error message depend on the text alone.
#[verifier::external_body]
pub fn parse_json(s: &str) -> (r: Result<Node, String>)
    ensures
        match r {
            Ok(d) => json_doc_of(s@) matches Ok(m) && d == m,
            Err(e) => json_doc_of(s@) matches Err(m) && e@ == m,
        },
{
    match serde_json::from_str::<serde_json::Value>(s) {
        Ok(v) => Ok(node_of_json(v)),
        Err(e) => Err(format!("{e}")),
    }
}

/// Relies on `plist::Value::from_reader`: parses the bytes as one property
/// list, XML or binary; the tree and any error message depend on the bytes
/// alone.
#[verifier::external_body]
pub fn parse_plist(b: &[u8]) -> (r: Result<Node, String>)
    ensures
        match r {
            Ok(d) => plist_doc_of(b@) matches Ok(m) && d == m,
            Err(e) => plist_doc_of(b@) matches Err(m) && e@ == m,
        },
{
    match plist::Value::from_reader(std::io::Cursor::new(b)) {
        Ok(v) => Ok(node_of_plist(v)),
        Err(e) => Err(format!("{e}")),
    }
}

} // verus!
