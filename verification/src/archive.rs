//! Property-list loading, and the decoder for the serialized object-archive
//! blob in which Terminal.app can store its font descriptor.

use vstd::prelude::*;

use crate::doc::{Node, arr_spec, data_spec, get_spec, map_spec, ref_spec, str_spec};
use crate::fsdata::{FileData, FsSnapshot, fs_lookup};
use crate::parse;

verus! {

use vstd::string::StringExecFns;

/// What loading the root dictionary of a property list yields: the parsed
/// root, or a diagnostic.
pub open spec fn load_root_spec(fs: Seq<(String, FileData)>, path: Seq<char>) -> Result<
    Node,
    Seq<char>,
> {
    match fs_lookup(fs, path) {
        None => Err("failed to read plist: file not found"@),
        Some(FileData::Unreadable) => Err("failed to read plist: unreadable"@),
        Some(FileData::Bytes(b)) => match parse::plist_doc_of(b@) {
            Err(m) => Err("failed to read plist: "@ + m),
            Ok(d) => if map_spec(d) is Some {
                Ok(d)
            } else {
                Err("terminal plist root is not a dictionary"@)
            },
        },
    }
}

/// Loads a property list from the snapshot and requires its root to be a
/// dictionary.
pub fn load_root_dictionary(fs: &FsSnapshot, path: &str) -> (r: Result<Node, String>)
    ensures
        match r {
            Ok(d) => load_root_spec(fs@, path@) matches Ok(m) && d == m,
            Err(e) => load_root_spec(fs@, path@) matches Err(m) && e@ == m,
        },
{
    match fs.lookup(path) {
        None => Err("failed to read plist: file not found".to_owned()),
        Some(FileData::Unreadable) => Err("failed to read plist: unreadable".to_owned()),
        Some(FileData::Bytes(b)) => match parse::parse_plist(b.as_slice()) {
            Err(m) => Err("failed to read plist: ".to_owned().concat(m.as_str())),
            Ok(d) => if d.is_map() {
                Ok(d)
            } else {
                Err("terminal plist root is not a dictionary".to_owned())
            },
        },
    }
}

/// The archive index a node holds, if it is a UID reference.
pub fn uid_index(value: &Node) -> (r: Option<usize>)
    ensures
        r == ref_spec(*value),
{
    value.as_ref_index()
}

/// The font name a keyed archive carries: the archive's `$top.root` object,
/// resolved through `$objects`, names the font under `NSName`.  Any failure
/// along the way means "no font descriptor found".
pub open spec fn archive_font_name(b: Seq<u8>) -> Option<Seq<char>> {
    match parse::plist_doc_of(b) {
        Err(m) => None,
        Ok(d) => match get_spec(d, "$objects"@) {
            None => None,
            Some(objs) => match arr_spec(objs) {
                None => None,
                Some(objects) => match get_spec(d, "$top"@) {
                    None => None,
                    Some(top) => match get_spec(top, "root"@) {
                        None => None,
                        Some(rootref) => match ref_spec(rootref) {
                            None => None,
                            Some(ri) => if ri >= objects.len() {
                                None
                            } else {
                                match get_spec(objects[ri as int], "NSName"@) {
                                    None => None,
                                    Some(nameref) => match ref_spec(nameref) {
                                        None => None,
                                        Some(ni) => if ni >= objects.len() {
                                            None
                                        } else {
                                            str_spec(objects[ni as int])
                                        },
                                    },
                                }
                            },
                        },
                    },
                },
            },
        },
    }
}

/// What extracting a font name from a data-blob node yields.
pub open spec fn node_archive_font_name(n: Node) -> Option<Seq<char>> {
    match data_spec(n) {
        None => None,
        Some(b) => archive_font_name(b),
    }
}

/// Decodes the font name out of a node holding a keyed-archive blob.
pub fn font_name_from_keyed_archive(value: &Node) -> (r: Option<String>)
    ensures
        match r {
            Some(s) => node_archive_font_name(*value) == Some(s@),
            None => node_archive_font_name(*value) is None,
        },
{
    let data = match value.as_data() {
        Some(b) => b,
        None => {
            return None;
        },
    };
    let d = match parse::parse_plist(data.as_slice()) {
        Ok(d) => d,
        Err(_) => {
            return None;
        },
    };
    let objects = match d.get("$objects") {
        Some(o) => match o.as_arr() {
            Some(a) => a,
            None => {
                return None;
            },
        },
        None => {
            return None;
        },
    };
    let top = match d.get("$top") {
        Some(t) => t,
        None => {
            return None;
        },
    };
    let rootref = match top.get("root") {
        Some(x) => x,
        None => {
            return None;
        },
    };
    let ri = match uid_index(rootref) {
        Some(i) => i,
        None => {
            return None;
        },
    };
    if ri >= objects.len() {
        return None;
    }
    let nameref = match objects[ri].get("NSName") {
        Some(x) => x,
        None => {
            return None;
        },
    };
    let ni = match uid_index(nameref) {
        Some(i) => i,
        None => {
            return None;
        },
    };
    if ni >= objects.len() {
        return None;
    }
    match objects[ni].as_str() {
        Some(s) => Some(s.clone()),
        None => None,
    }
}

} // verus!
