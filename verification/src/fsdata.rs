//! The read-only filesystem snapshot the pipeline works against: an ordered
//! list of paths, each carrying its bytes or marked unreadable.  A path that
//! is not listed does not exist.

use vstd::prelude::*;

verus! {

use vstd::utf8::{decode_utf8, valid_utf8};

/// What the snapshot holds for one path.
#[derive(Debug, Clone, PartialEq, Eq)]
pub enum FileData {
    /// The file exists and these are its bytes.
    Bytes(Vec<u8>),
    /// The file exists but reading it fails.
    Unreadable,
}

/// A snapshot of the configuration files that may be consulted.
#[derive(Debug, Clone, PartialEq, Eq)]
pub struct FsSnapshot {
    pub files: Vec<(String, FileData)>,
}

impl View for FsSnapshot {
    type V = Seq<(String, FileData)>;

    open spec fn view(&self) -> Seq<(String, FileData)> {
        self.files@
    }
}

/// What the snapshot holds for `path`: the first entry with that path, or
/// nothing.
pub open spec fn fs_lookup(files: Seq<(String, FileData)>, path: Seq<char>) -> Option<FileData>
    decreases files.len(),
{
    if files.len() == 0 {
        None
    } else if files[0].0@ == path {
        Some(files[0].1)
    } else {
        fs_lookup(files.drop_first(), path)
    }
}

impl FsSnapshot {
    /// A snapshot with no files at all.
    pub fn new() -> (r: FsSnapshot)
        ensures
            r@ == Seq::<(String, FileData)>::empty(),
    {
        FsSnapshot { files: Vec::new() }
    }

    /// Looks `path` up in the snapshot.
    pub fn lookup<'a>(&'a self, path: &str) -> (r: Option<&'a FileData>)
        ensures
            match r {
                Some(d) => fs_lookup(self@, path@) == Some(*d),
                None => fs_lookup(self@, path@) is None,
            },
    {
        let n = self.files.len();
        let mut i: usize = 0;
        proof {
            assert(self@.subrange(0, n as int) =~= self@);
        }
        while i < n
            invariant
                0 <= i <= n,
                n == self@.len(),
                fs_lookup(self@, path@) == fs_lookup(self@.subrange(i as int, n as int), path@),
            decreases n - i,
        {
            proof {
                assert(self@.subrange(i as int, n as int)[0] == self@[i as int]);
                assert(self@.subrange(i as int, n as int).drop_first() =~= self@.subrange(
                    i + 1,
                    n as int,
                ));
            }
            if crate::strutil::str_eq(self.files[i].0.as_str(), path) {
                return Some(&self.files[i].1);
            }
            i = i + 1;
        }
        None
    }
}

/// Two snapshots agree on a set of paths when looking any of them up gives
/// the same answer in both.
pub open spec fn fs_agree_on(
    fs1: Seq<(String, FileData)>,
    fs2: Seq<(String, FileData)>,
    ps: Seq<Seq<char>>,
) -> bool {
    forall|i: int| 0 <= i < ps.len() ==> fs_lookup(fs1, ps[i]) == fs_lookup(fs2, ps[i])
}

/// The outcome of reading a path as text.
#[derive(Debug, Clone, PartialEq, Eq)]
pub enum TextRead {
    /// The path is not in the snapshot: treated as an absent file.
    Absent,
    /// The path exists but its contents cannot be read as text.
    Failed,
    /// The decoded text.
    Text(String),
}

/// Ghost mirror of [`TextRead`].
pub enum TextReadV {
    Absent,
    Failed,
    Text(Seq<char>),
}

impl View for TextRead {
    type V = TextReadV;

    open spec fn view(&self) -> TextReadV {
        match self {
            TextRead::Absent => TextReadV::Absent,
            TextRead::Failed => TextReadV::Failed,
            TextRead::Text(s) => TextReadV::Text(s@),
        }
    }
}

/// What reading `path` as text yields: absent, unreadable (also when the
/// bytes are not valid UTF-8), or the decoded text.
pub open spec fn read_text_spec(files: Seq<(String, FileData)>, path: Seq<char>) -> TextReadV {
    match fs_lookup(files, path) {
        None => TextReadV::Absent,
        Some(FileData::Unreadable) => TextReadV::Failed,
        Some(FileData::Bytes(b)) => if valid_utf8(b@) {
            TextReadV::Text(decode_utf8(b@))
        } else {
            TextReadV::Failed
        },
    }
}

/// Relies on `core::str::from_utf8`: it accepts exactly the valid UTF-8 byte
/// sequences and decodes them.
#[verifier::external_body]
fn bytes_to_string(b: &[u8]) -> (r: Option<String>)
    ensures
        r matches Some(s) ==> valid_utf8(b@) && s@ == decode_utf8(b@),
        r is None ==> !valid_utf8(b@),
{
    match core::str::from_utf8(b) {
        Ok(s) => Some(s.to_owned()),
        Err(_) => None,
    }
}

/// Reads `path` from the snapshot as text.
pub fn read_text(fs: &FsSnapshot, path: &str) -> (r: TextRead)
    ensures
        r@ == read_text_spec(fs@, path@),
{
    match fs.lookup(path) {
        None => TextRead::Absent,
        Some(FileData::Unreadable) => TextRead::Failed,
        Some(FileData::Bytes(b)) => match bytes_to_string(b.as_slice()) {
            Some(s) => TextRead::Text(s),
            None => TextRead::Failed,
        },
    }
}

} // verus!
