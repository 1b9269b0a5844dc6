//! Template names, and the files that hold them in the cache.
//!
//! A template's name is its key in the cache and part of a file name there, so
//! it may hold no path separator. The entry of the template `Rust` is the file
//! `Rust.gitignore`; while it is being written it is `Rust.gitignore.part`.

use vstd::prelude::*;
use crate::text::{has_suffix, joined, without_last};

verus! {

/// The ending of a cache entry's file name.
pub const ENTRY_SUFFIX: &'static str = ".gitignore";

/// The ending that a cache entry's file name has while it is being written.
pub const STAGING_SUFFIX: &'static str = ".part";

/// A character that separates the parts of a path on some platform.
pub open spec fn is_separator(c: char) -> bool {
    c == '/' || c == '\\'
}

/// A text that can name a template: one without a path separator.
pub open spec fn valid_name(name: Seq<char>) -> bool {
    forall|i: int| 0 <= i < name.len() ==> !is_separator(#[trigger] name[i])
}

/// The file name of the cache entry for `name`.
pub open spec fn entry_file(name: Seq<char>) -> Seq<char> {
    name + ENTRY_SUFFIX@
}

/// The file name under which the entry for `name` is written before it
/// takes the place of the entry.
pub open spec fn staging_file(name: Seq<char>) -> Seq<char> {
    entry_file(name) + STAGING_SUFFIX@
}

/// The template that the file `file` is the cache entry of, if it is one.
pub open spec fn entry_name(file: Seq<char>) -> Option<Seq<char>> {
    let name = file.subrange(0, file.len() - ENTRY_SUFFIX@.len());
    if ENTRY_SUFFIX@.is_suffix_of(file) && valid_name(name) {
        Some(name)
    } else {
        None
    }
}

/// Whether `name` can name a template.
pub fn is_valid_name(name: &str) -> (valid: bool)
    ensures
        valid == valid_name(name@),
{
    let mut valid = true;
    for c in it: name.chars()
        invariant
            it.seq() == name@,
            valid == forall|i: int| 0 <= i < it.index() ==> !is_separator(#[trigger] name@[i]),
    {
        if c == '/' || c == '\\' {
            valid = false;
        }
    }
    valid
}

/// The file name of the cache entry for `name`.
pub fn entry_file_name(name: &str) -> (file: String)
    ensures
        file@ == entry_file(name@),
{
    joined(name, ENTRY_SUFFIX)
}

/// The file name under which the entry for `name` is staged.
pub fn staging_file_name(name: &str) -> (file: String)
    ensures
        file@ == staging_file(name@),
{
    let entry = entry_file_name(name);
    joined(entry.as_str(), STAGING_SUFFIX)
}

/// The template whose cache entry the file `file` is; `None` for any other
/// file.
pub fn template_of_file(file: &str) -> (name: Option<String>)
    ensures
        name.deep_view() == entry_name(file@),
{
    if !has_suffix(file, ENTRY_SUFFIX) {
        return None;
    }
    let name = without_last(file, ENTRY_SUFFIX.unicode_len());
    if is_valid_name(name.as_str()) {
        Some(name)
    } else {
        None
    }
}

/// The entry file of a valid name is read back as that name.
pub proof fn lemma_entry_file_round_trip(name: Seq<char>)
    requires
        valid_name(name),
    ensures
        entry_name(entry_file(name)) == Some(name),
{
    let file = entry_file(name);
    assert(file.subrange(0, file.len() - ENTRY_SUFFIX@.len()) =~= name);
    assert(file.subrange(file.len() - ENTRY_SUFFIX@.len(), file.len() as int) =~= ENTRY_SUFFIX@);
}

/// Two names with the same entry file are the same name.
pub proof fn lemma_entry_file_is_injective(a: Seq<char>, b: Seq<char>)
    requires
        entry_file(a) == entry_file(b),
    ensures
        a == b,
{
    let n = ENTRY_SUFFIX@.len();
    assert(entry_file(a).subrange(0, entry_file(a).len() - n) =~= a);
    assert(entry_file(b).subrange(0, entry_file(b).len() - n) =~= b);
}

/// A staged file is the entry of no template: a reader of the cache never
/// takes a half-written file for an entry.
pub proof fn lemma_staging_file_is_no_entry(name: Seq<char>)
    ensures
        entry_name(staging_file(name)) is None,
{
    reveal_strlit(".gitignore");
    reveal_strlit(".part");
    // The file ends with the last letter of the staging suffix, an entry
    // file with the last letter of the entry suffix.
    let file = staging_file(name);
    let tail = file.subrange(file.len() - ENTRY_SUFFIX@.len(), file.len() as int);
    assert(tail[9] == file[file.len() - 1]);
    assert(file[file.len() - 1] == STAGING_SUFFIX@[4]);
}

} // verus!
