//! The source tree: the read-only files and directories of script assets that
//! `include_dir` holds. Paths are `/`-separated and start at the tree's root.

use include_dir::{Dir, DirEntry, File};
use vstd::prelude::*;
use vstd::utf8::{decode_utf8, valid_utf8};
use crate::text::string_texts;

verus! {

/// A directory of the source tree. Nothing is known of what is in it but
/// through the functions below.
#[verifier::external_type_specification]
#[verifier::external_body]
pub struct ExDir<'a>(Dir<'a>);

/// A file of the source tree. Nothing is known of what is in it but through
/// the functions below.
#[verifier::external_type_specification]
#[verifier::external_body]
pub struct ExFile<'a>(File<'a>);

/// What a path leads to, in a contract.
pub enum Found {
    /// Nothing lies under the path.
    Nothing,
    /// A directory, with the paths of the files that lie directly in it.
    Directory(Seq<Seq<char>>),
    /// A file, with its bytes.
    File(Seq<u8>),
}

/// What a path leads to.
pub enum Entry<'a> {
    Nothing,
    Directory(&'a Dir<'a>),
    File(&'a File<'a>),
}

/// The bytes that a file holds.
pub uninterp spec fn file_bytes(file: File<'_>) -> Seq<u8>;

/// The paths of the files that lie directly in a directory, in its order.
pub uninterp spec fn file_paths(dir: Dir<'_>) -> Seq<Seq<char>>;

/// What `Dir::get_entry` finds in a tree under a path.
pub uninterp spec fn found_at(tree: Dir<'_>, path: Seq<char>) -> Found;

impl<'a> Entry<'a> {
    /// This entry in a contract.
    pub open spec fn found(self) -> Found {
        match self {
            Entry::Nothing => Found::Nothing,
            Entry::Directory(dir) => Found::Directory(file_paths(*dir)),
            Entry::File(file) => Found::File(file_bytes(*file)),
        }
    }
}

/// Calls `Dir::get_entry`, which searches the tree below `tree` for the
/// entry with the path `path`, and tells a directory from a file. What is
/// found depends on the tree and the path alone.
#[verifier::external_body]
pub(crate) fn entry<'a>(tree: &Dir<'a>, path: &str) -> (r: Entry<'a>)
    ensures
        r.found() == found_at(*tree, path@),
{
    match tree.get_entry(path) {
        None => Entry::Nothing,
        Some(DirEntry::Dir(dir)) => Entry::Directory(dir),
        Some(DirEntry::File(file)) => Entry::File(file),
    }
}

/// Calls `Dir::files` and hands out the path of each file that lies
/// directly in `dir`, as `File::path` gives it.
#[verifier::external_body]
pub(crate) fn files(dir: &Dir<'_>) -> (paths: Vec<String>)
    ensures
        string_texts(paths@) == file_paths(*dir),
{
    dir.files().map(|file| file.path().to_string_lossy().into_owned()).collect()
}

/// Calls `File::contents_utf8`, which reads the bytes of `file` as UTF-8: it
/// gives the text that the bytes encode, and nothing where they encode none.
#[verifier::external_body]
pub(crate) fn text<'a>(file: &'a File<'_>) -> (r: Option<&'a str>)
    ensures
        r is Some <==> valid_utf8(file_bytes(*file)),
        r matches Some(s) ==> s@ == decode_utf8(file_bytes(*file)),
{
    file.contents_utf8()
}

} // verus!
