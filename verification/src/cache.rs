//! The local cache: one file for each template, in a directory of its own
//! below the platform's cache directory.
//!
//! The files themselves are read, written and removed outside this crate. The
//! store decides what is to be written, which file holds a template, and what a
//! listing of the directory amounts to. What the directory holds is modelled
//! as a map from file names to contents, `None` while it does not exist; over
//! that model the laws at the end of this file are stated.

use vstd::prelude::*;
use crate::error::ServiceError;
use crate::name_map::{names_of, values_of, NameMap};
use crate::names::{
    entry_file, entry_file_name, entry_name, is_valid_name, lemma_entry_file_is_injective,
    lemma_entry_file_round_trip, template_of_file, valid_name,
};
use crate::text::same_text;

verus! {

/// The name of the cache directory inside the platform's cache directory.
pub const CACHE_DIRECTORY: &'static str = "gitignore";

/// Where the cache lives: the directory `directory` inside `parent`.
#[derive(Debug, PartialEq, Eq)]
pub struct CacheRoot {
    pub parent: String,
    pub directory: String,
}

/// A file of the cache directory, as it was found there.
#[derive(Debug, PartialEq, Eq)]
pub struct CacheFile {
    pub name: String,
    pub content: Vec<u8>,
}

/// One entry to write: the template `name` with its content. It goes to the
/// staging file of the name, which then takes the place of the entry file, so
/// that a reader sees the old entry or the new one and nothing in between.
#[derive(Debug, PartialEq, Eq)]
pub struct CacheWrite {
    pub name: String,
    pub content: Vec<u8>,
}

/// How the attempt to remove the cache directory ended.
#[derive(Clone, Copy, Debug, PartialEq, Eq, Structural)]
pub enum Removal {
    /// There was no directory to remove.
    Absent,
    /// The directory is gone, with all that was in it.
    Removed,
    /// The directory could not be removed and is as it was.
    Failed,
}

/// The templates of a mapping as sequences of bytes.
pub open spec fn contents_of(mapping: Map<Seq<char>, Vec<u8>>) -> Map<Seq<char>, Seq<u8>> {
    mapping.map_values(|content: Vec<u8>| content@)
}

/// The files of a listing as pairs of name and content.
pub open spec fn files_of(listing: Seq<CacheFile>) -> Seq<(Seq<char>, Seq<u8>)> {
    Seq::new(listing.len(), |i: int| (listing[i].name@, listing[i].content@))
}

/// A listing of the cache directory as pairs of name and content.
pub open spec fn listed(listing: Option<Vec<CacheFile>>) -> Option<Seq<(Seq<char>, Seq<u8>)>> {
    match listing {
        Some(files) => Some(files_of(files@)),
        None => None,
    }
}

/// A file that was found, as the pair of its name and content.
pub open spec fn file_of(found: Option<CacheFile>) -> Option<(Seq<char>, Seq<u8>)> {
    match found {
        Some(file) => Some((file.name@, file.content@)),
        None => None,
    }
}

/// The entries to write as pairs of name and content.
pub open spec fn writes_of(plan: Seq<CacheWrite>) -> Seq<(Seq<char>, Seq<u8>)> {
    Seq::new(plan.len(), |i: int| (plan[i].name@, plan[i].content@))
}

/// The templates that a list of files holds: each file that is the entry of a
/// template, under that template's name. Other files are passed over.
pub open spec fn decoded(files: Seq<(Seq<char>, Seq<u8>)>) -> Map<Seq<char>, Seq<u8>>
    decreases files.len(),
{
    if files.len() == 0 {
        Map::empty()
    } else {
        let before = decoded(files.drop_last());
        match entry_name(files.last().0) {
            Some(name) => before.insert(name, files.last().1),
            None => before,
        }
    }
}

/// The names of the templates that a list of files holds, each once, in the
/// order in which the files first bring them.
pub open spec fn decoded_names(files: Seq<(Seq<char>, Seq<u8>)>) -> Seq<Seq<char>>
    decreases files.len(),
{
    if files.len() == 0 {
        Seq::empty()
    } else {
        let before = decoded_names(files.drop_last());
        match entry_name(files.last().0) {
            Some(name) => if before.contains(name) {
                before
            } else {
                before.push(name)
            },
            None => before,
        }
    }
}

/// The names that reading all of the cache yields, in order.
pub open spec fn cached_names(listing: Option<Seq<(Seq<char>, Seq<u8>)>>) -> Seq<Seq<char>> {
    match listing {
        Some(files) => decoded_names(files),
        None => Seq::empty(),
    }
}

/// What reading all of the cache yields. `None` stands for a cache directory
/// that does not exist.
pub open spec fn cached(listing: Option<Seq<(Seq<char>, Seq<u8>)>>) -> Map<Seq<char>, Seq<u8>> {
    match listing {
        Some(files) => decoded(files),
        None => Map::empty(),
    }
}

/// What a lookup of `name` yields, where `found` is the file that was found
/// for it: the content of the file, if it is the entry of `name`.
pub open spec fn looked_up(name: Seq<char>, found: Option<(Seq<char>, Seq<u8>)>) -> Option<
    Seq<u8>,
> {
    match found {
        Some(file) => if entry_name(file.0) == Some(name) {
            Some(file.1)
        } else {
            None
        },
        None => None,
    }
}

/// The entries to write for a mapping: those whose name can be a file name,
/// in the order of the mapping.
pub open spec fn planned(names: Seq<Seq<char>>, contents: Seq<Vec<u8>>) -> Seq<
    (Seq<char>, Seq<u8>),
>
    decreases names.len(),
{
    if names.len() == 0 || contents.len() == 0 {
        Seq::empty()
    } else {
        let before = planned(names.drop_last(), contents.drop_last());
        if valid_name(names.last()) {
            before.push((names.last(), contents.last()@))
        } else {
            before
        }
    }
}

/// The cache of templates on disk.
pub struct CacheStore {
    parent: Option<String>,
    parent_exists: bool,
}

impl CacheStore {
    /// The platform's cache directory, if the platform has one.
    pub closed spec fn parent(&self) -> Option<Seq<char>> {
        self.parent.deep_view()
    }

    /// Whether the cache can be used: the platform has a cache directory, and
    /// it existed when the store was made. The cache directory itself need
    /// not exist.
    pub closed spec fn usable(&self) -> bool {
        self.parent is Some && self.parent_exists
    }

    /// The store below the platform's cache directory. `parent_exists` says
    /// whether that directory is on disk; it is looked at once, here.
    pub fn new(platform_cache_dir: Option<String>, parent_exists: bool) -> (store: CacheStore)
        ensures
            store.parent() == platform_cache_dir.deep_view(),
            store.usable() == (platform_cache_dir is Some && parent_exists),
    {
        CacheStore { parent: platform_cache_dir, parent_exists }
    }

    /// The cache directory; `None` where the platform has no cache directory.
    pub fn cache_root(&self) -> (root: Option<CacheRoot>)
        ensures
            match root {
                Some(place) => self.parent() == Some(place.parent@) && place.directory@
                    == CACHE_DIRECTORY@,
                None => self.parent() is None,
            },
    {
        match &self.parent {
            Some(parent) => Some(
                CacheRoot { parent: parent.clone(), directory: CACHE_DIRECTORY.to_owned() },
            ),
            None => None,
        }
    }

    /// Whether the cache can be used.
    pub fn is_usable(&self) -> (usable: bool)
        ensures
            usable == self.usable(),
    {
        self.parent.is_some() && self.parent_exists
    }

    /// Whether the cache can be used, as a result: `CacheUnusable` where it
    /// cannot.
    pub fn check_usable(&self) -> (checked: Result<(), ServiceError>)
        ensures
            checked == if self.usable() {
                Ok::<(), ServiceError>(())
            } else {
                Err::<(), ServiceError>(ServiceError::CacheUnusable)
            },
    {
        if self.is_usable() {
            Ok(())
        } else {
            Err(ServiceError::CacheUnusable)
        }
    }

    /// What the store writes for a mapping: the planned entries, or nothing
    /// where the store cannot be used.
    pub open spec fn persists(&self, names: Seq<Seq<char>>, contents: Seq<Vec<u8>>) -> Seq<
        (Seq<char>, Seq<u8>),
    > {
        if self.usable() {
            planned(names, contents)
        } else {
            Seq::empty()
        }
    }

    /// The entries to write so that the cache holds `mapping`. Each is
    /// written though another fails; an entry that is there already is
    /// replaced, and the directory is made if it is missing. A store that is
    /// not usable writes nothing.
    pub fn write_all(&self, mapping: &NameMap<Vec<u8>>) -> (plan: Vec<CacheWrite>)
        ensures
            writes_of(plan@) == self.persists(mapping.keys(), mapping.values()),
    {
        let mut plan: Vec<CacheWrite> = Vec::new();
        if !self.is_usable() {
            return plan;
        }
        let entries = mapping.entries();
        let ghost names = mapping.keys();
        let ghost contents = mapping.values();
        let mut i: usize = 0;
        while i < entries.len()
            invariant
                i <= entries@.len(),
                names_of(entries@) == names,
                values_of(entries@) == contents,
                writes_of(plan@) == planned(names.take(i as int), contents.take(i as int)),
            decreases entries@.len() - i,
        {
            proof {
                assert(names.take(i + 1).drop_last() =~= names.take(i as int));
                assert(contents.take(i + 1).drop_last() =~= contents.take(i as int));
            }
            if is_valid_name(entries[i].name.as_str()) {
                plan.push(
                    CacheWrite { name: entries[i].name.clone(), content: entries[i].value.clone() },
                );
            }
            i += 1;
        }
        assert(names.take(i as int) =~= names);
        assert(contents.take(i as int) =~= contents);
        plan
    }

    /// The templates of the cache. `listing` holds the files of the cache
    /// directory, `None` where the directory does not exist.
    pub fn read_all(&self, listing: Option<Vec<CacheFile>>) -> (found: NameMap<Vec<u8>>)
        ensures
            contents_of(found@) == cached(listed(listing)),
            found.keys() == cached_names(listed(listing)),
    {
        let mut found: NameMap<Vec<u8>> = NameMap::new();
        match listing {
            None => {},
            Some(files) => {
                let ghost all = files_of(files@);
                for file in it: files
                    invariant
                        files_of(it.seq()) == all,
                        contents_of(found@) == decoded(all.take(it.index() as int)),
                        found.keys() == decoded_names(all.take(it.index() as int)),
                {
                    proof {
                        let index = it.index() as int;
                        assert(all.take(index + 1).drop_last() =~= all.take(index));
                    }
                    match template_of_file(file.name.as_str()) {
                        Some(name) => {
                            found.insert(name, file.content);
                        },
                        None => {},
                    }
                }
                assert(all.take(all.len() as int) =~= all);
            },
        }
        found
    }

    /// The file that holds the template `name`: the entry file of the name.
    /// A text that can name no template has no file.
    pub open spec fn entry_file_of(&self, name: Seq<char>) -> Option<Seq<char>> {
        if valid_name(name) {
            Some(entry_file(name))
        } else {
            None
        }
    }

    /// The file to look for when `name` is wanted.
    pub fn entry_of(&self, name: &str) -> (file: Option<String>)
        ensures
            file.deep_view() == self.entry_file_of(name@),
    {
        if is_valid_name(name) {
            Some(entry_file_name(name))
        } else {
            None
        }
    }

    /// The template `name` from the cache, without reading the rest of it.
    /// `found` is the file that was found under the name that
    /// [`CacheStore::entry_of`] gives, `None` where there is no such file.
    pub fn read_one(&self, name: &str, found: Option<CacheFile>) -> (content: Option<Vec<u8>>)
        ensures
            content.deep_view() == looked_up(name@, file_of(found)),
    {
        match found {
            Some(file) => match template_of_file(file.name.as_str()) {
                Some(holder) => if same_text(holder.as_str(), name) {
                    Some(file.content)
                } else {
                    None
                },
                None => None,
            },
            None => None,
        }
    }

    /// Whether the cache is gone after the attempt to remove its directory
    /// with all that is in it: `PurgeFailed` where the directory could not be
    /// removed. A directory that was not there is no failure.
    pub fn purge(&self, removal: Removal) -> (purged: Result<(), ServiceError>)
        ensures
            purged == if removal == Removal::Failed {
                Err::<(), ServiceError>(ServiceError::PurgeFailed)
            } else {
                Ok::<(), ServiceError>(())
            },
    {
        match removal {
            Removal::Failed => Err(ServiceError::PurgeFailed),
            _ => Ok(()),
        }
    }
}

/// The files of a cache directory; none while it does not exist.
pub open spec fn files_in(dir: Option<Map<Seq<char>, Seq<u8>>>) -> Map<Seq<char>, Seq<u8>> {
    match dir {
        Some(files) => files,
        None => Map::empty(),
    }
}

/// The file that is found in a directory under the name `file`.
pub open spec fn found_in(dir: Option<Map<Seq<char>, Seq<u8>>>, file: Seq<char>) -> Option<
    (Seq<char>, Seq<u8>),
> {
    if files_in(dir).contains_key(file) {
        Some((file, files_in(dir)[file]))
    } else {
        None
    }
}

/// What a lookup of `name` yields in a directory: what [`CacheStore::read_one`]
/// returns when it is given the file that the directory holds under the name
/// that [`CacheStore::entry_of`] gives.
pub open spec fn stored(dir: Option<Map<Seq<char>, Seq<u8>>>, name: Seq<char>) -> Option<Seq<u8>> {
    looked_up(name, found_in(dir, entry_file(name)))
}

/// Whether a listing is one of a directory: of a directory that does not
/// exist there is none; of one that exists it names every file once, with
/// its content, in any order.
pub open spec fn lists(
    listing: Option<Seq<(Seq<char>, Seq<u8>)>>,
    dir: Option<Map<Seq<char>, Seq<u8>>>,
) -> bool {
    match listing {
        Some(files) => {
            &&& dir matches Some(held)
            &&& forall|i: int, j: int|
                0 <= i < j < files.len() ==> (#[trigger] files[i]).0 != (#[trigger] files[j]).0
            &&& forall|i: int|
                0 <= i < files.len() ==> held.contains_key((#[trigger] files[i]).0)
                    && held[files[i].0] == files[i].1
            &&& forall|file: Seq<char>| #[trigger]
                held.contains_key(file) ==> exists|i: int|
                    0 <= i < files.len() && (#[trigger] files[i]).0 == file
        },
        None => dir is None,
    }
}

/// The directory after the first `count` writes of a plan were tried. `done`
/// says of each write whether it succeeded. A write that succeeds makes the
/// directory if it is missing and puts the content in the place of the entry,
/// all at once; one that fails leaves every entry as it was.
pub open spec fn after_writes(
    dir: Option<Map<Seq<char>, Seq<u8>>>,
    plan: Seq<(Seq<char>, Seq<u8>)>,
    done: Seq<bool>,
    count: nat,
) -> Option<Map<Seq<char>, Seq<u8>>>
    decreases count,
{
    if count == 0 {
        dir
    } else {
        let before = after_writes(dir, plan, done, (count - 1) as nat);
        let last = count - 1;
        if last < plan.len() && last < done.len() && done[last] {
            Some(files_in(before).insert(entry_file(plan[last].0), plan[last].1))
        } else {
            before
        }
    }
}

/// The directory after an attempt to remove it: gone with all its files, or,
/// where the attempt failed, as it was.
pub open spec fn after_removal(dir: Option<Map<Seq<char>, Seq<u8>>>, removal: Removal) -> Option<
    Map<Seq<char>, Seq<u8>>,
> {
    if removal == Removal::Failed {
        dir
    } else {
        None
    }
}

/// A file that is the entry of a template is the entry file of that template.
proof fn lemma_entry_is_named_by_its_file(file: Seq<char>)
    requires
        entry_name(file) is Some,
    ensures
        file == entry_file(entry_name(file)->0),
        valid_name(entry_name(file)->0),
{
}

/// What a list of files with distinct names holds for `name` is the content
/// of the entry file of `name`, if that file is in the list and `name` can
/// name a template.
proof fn lemma_decoded_entry(files: Seq<(Seq<char>, Seq<u8>)>, name: Seq<char>)
    requires
        forall|i: int, j: int|
            0 <= i < j < files.len() ==> (#[trigger] files[i]).0 != (#[trigger] files[j]).0,
    ensures
        decoded(files).contains_key(name) <==> valid_name(name) && exists|i: int|
            0 <= i < files.len() && (#[trigger] files[i]).0 == entry_file(name),
        forall|i: int|
            0 <= i < files.len() && (#[trigger] files[i]).0 == entry_file(name) && valid_name(name)
                ==> decoded(files)[name] == files[i].1,
    decreases files.len(),
{
    if files.len() > 0 {
        let rest = files.drop_last();
        let last = files.last();
        lemma_decoded_entry(rest, name);
        if valid_name(name) {
            lemma_entry_file_round_trip(name);
        }
        if entry_name(last.0) is Some {
            lemma_entry_is_named_by_its_file(last.0);
        }
        if entry_name(last.0) != Some(name) && valid_name(name) {
            // The last file is not the entry of `name`: if the list holds
            // that entry, it is among the files before the last.
            assert forall|i: int|
                0 <= i < files.len() && (#[trigger] files[i]).0 == entry_file(name) implies i
                < rest.len() && rest[i] == files[i] by {}
        }
    }
}

/// The names that a reading of the cache yields are the names of the
/// templates that it yields, each once.
pub proof fn lemma_cached_names_are_the_keys(files: Seq<(Seq<char>, Seq<u8>)>)
    ensures
        decoded_names(files).no_duplicates(),
        forall|name: Seq<char>|
            decoded_names(files).contains(name) <==> decoded(files).contains_key(name),
    decreases files.len(),
{
    if files.len() > 0 {
        let before = decoded_names(files.drop_last());
        lemma_cached_names_are_the_keys(files.drop_last());
        match entry_name(files.last().0) {
            Some(fresh) => {
                if !before.contains(fresh) {
                    let names = before.push(fresh);
                    assert forall|name: Seq<char>| names.contains(name) <==> before.contains(name)
                        || name == fresh by {
                        if before.contains(name) {
                            let i = choose|i: int| 0 <= i < before.len() && before[i] == name;
                            assert(names[i] == name);
                        }
                        if name == fresh {
                            assert(names[names.len() - 1] == name);
                        }
                    }
                }
            },
            None => {},
        }
    }
}

/// Reading all of the cache and looking one template up agree: the whole
/// holds `name` exactly when a lookup of `name` finds something, and then the
/// same content.
pub proof fn lemma_read_all_agrees_with_read_one(
    dir: Option<Map<Seq<char>, Seq<u8>>>,
    listing: Option<Seq<(Seq<char>, Seq<u8>)>>,
    name: Seq<char>,
)
    requires
        lists(listing, dir),
    ensures
        cached(listing).contains_key(name) <==> stored(dir, name) is Some,
        cached(listing).contains_key(name) ==> Some(cached(listing)[name]) == stored(dir, name),
{
    if valid_name(name) {
        lemma_entry_file_round_trip(name);
    } else if entry_name(entry_file(name)) is Some {
        lemma_entry_is_named_by_its_file(entry_file(name));
        lemma_entry_file_is_injective(entry_name(entry_file(name))->0, name);
    }
    match listing {
        Some(files) => {
            lemma_decoded_entry(files, name);
        },
        None => {},
    }
}

/// A write that succeeded, and that no later write of the plan undoes, is in
/// the directory after the plan.
proof fn lemma_write_stays(
    dir: Option<Map<Seq<char>, Seq<u8>>>,
    plan: Seq<(Seq<char>, Seq<u8>)>,
    done: Seq<bool>,
    at: int,
    count: nat,
)
    requires
        0 <= at < count <= plan.len(),
        at < done.len() && done[at],
        forall|j: int| at < j < plan.len() && j < done.len() && done[j] ==> (#[trigger] plan[j]).0
            != plan[at].0,
    ensures
        files_in(after_writes(dir, plan, done, count)).contains_key(entry_file(plan[at].0)),
        files_in(after_writes(dir, plan, done, count))[entry_file(plan[at].0)] == plan[at].1,
    decreases count,
{
    if count > at + 1 {
        lemma_write_stays(dir, plan, done, at, (count - 1) as nat);
        let last = count - 1;
        if last < done.len() && done[last] {
            if entry_file(plan[last].0) == entry_file(plan[at].0) {
                lemma_entry_file_is_injective(plan[last].0, plan[at].0);
            }
        }
    }
}

/// Round trip: a template that was written to the cache is found again, byte
/// for byte, by a lookup and in a reading of the whole cache, whatever became
/// of the other writes. `plan[at]` is the write, `done[at]` says that it
/// succeeded, and no later write that succeeded is for the same template.
pub proof fn lemma_written_template_is_read_back(
    dir: Option<Map<Seq<char>, Seq<u8>>>,
    plan: Seq<(Seq<char>, Seq<u8>)>,
    done: Seq<bool>,
    at: int,
    listing: Option<Seq<(Seq<char>, Seq<u8>)>>,
)
    requires
        0 <= at < plan.len(),
        at < done.len() && done[at],
        valid_name(plan[at].0),
        forall|j: int| at < j < plan.len() && j < done.len() && done[j] ==> (#[trigger] plan[j]).0
            != plan[at].0,
        lists(listing, after_writes(dir, plan, done, plan.len())),
    ensures
        stored(after_writes(dir, plan, done, plan.len()), plan[at].0) == Some(plan[at].1),
        cached(listing).contains_key(plan[at].0),
        cached(listing)[plan[at].0] == plan[at].1,
{
    let after = after_writes(dir, plan, done, plan.len());
    lemma_write_stays(dir, plan, done, at, plan.len());
    lemma_entry_file_round_trip(plan[at].0);
    lemma_read_all_agrees_with_read_one(after, listing, plan[at].0);
}

/// An entry changes only by a write of its own template that succeeds: after
/// a plan without such a write, a lookup of `name` finds what it found before.
/// No write removes an entry.
pub proof fn lemma_untouched_entry_stays(
    dir: Option<Map<Seq<char>, Seq<u8>>>,
    plan: Seq<(Seq<char>, Seq<u8>)>,
    done: Seq<bool>,
    count: nat,
    name: Seq<char>,
)
    requires
        forall|j: int|
            0 <= j < count && j < plan.len() && j < done.len() && done[j] ==> (#[trigger] plan[j]).0
                != name,
    ensures
        stored(after_writes(dir, plan, done, count), name) == stored(dir, name),
    decreases count,
{
    if count > 0 {
        lemma_untouched_entry_stays(dir, plan, done, (count - 1) as nat, name);
        let last = count - 1;
        if last < plan.len() && last < done.len() && done[last] {
            if entry_file(plan[last].0) == entry_file(name) {
                lemma_entry_file_is_injective(plan[last].0, name);
            }
        }
    }
}

/// The entries that are planned for a mapping are those of its templates
/// whose name can be a file name, each once.
pub proof fn lemma_plan_holds_the_valid_names(names: Seq<Seq<char>>, contents: Seq<Vec<u8>>)
    requires
        names.len() == contents.len(),
        names.no_duplicates(),
    ensures
        forall|i: int, j: int|
            0 <= i < j < planned(names, contents).len() ==> (#[trigger] planned(
                names,
                contents,
            )[i]).0 != (#[trigger] planned(names, contents)[j]).0,
        forall|i: int|
            0 <= i < planned(names, contents).len() ==> valid_name(
                (#[trigger] planned(names, contents)[i]).0,
            ) && exists|k: int|
                0 <= k < names.len() && #[trigger] names[k] == planned(names, contents)[i].0
                    && contents[k]@ == planned(names, contents)[i].1,
        forall|k: int|
            0 <= k < names.len() && valid_name(#[trigger] names[k]) ==> exists|i: int|
                0 <= i < planned(names, contents).len() && #[trigger] planned(names, contents)[i]
                    == (names[k], contents[k]@),
    decreases names.len(),
{
    if names.len() > 0 {
        let plan = planned(names, contents);
        let fewer = names.drop_last();
        let less = contents.drop_last();
        let before = planned(fewer, less);
        assert(fewer.no_duplicates());
        lemma_plan_holds_the_valid_names(fewer, less);
        let n = names.len() - 1;
        // Each entry of the plan comes from the mapping.
        assert forall|i: int| 0 <= i < plan.len() implies valid_name((#[trigger] plan[i]).0)
            && exists|k: int|
            0 <= k < names.len() && #[trigger] names[k] == plan[i].0 && contents[k]@
                == plan[i].1 by {
            if i < before.len() {
                let k = choose|k: int|
                    0 <= k < fewer.len() && #[trigger] fewer[k] == before[i].0 && less[k]@
                        == before[i].1;
                assert(names[k] == fewer[k] && contents[k] == less[k]);
            } else {
                assert(names[n] == plan[i].0 && contents[n]@ == plan[i].1);
            }
        }
        // Each valid name of the mapping has its entry in the plan.
        assert forall|k: int| 0 <= k < names.len() && valid_name(#[trigger] names[k]) implies exists|
            i: int,
        |
            0 <= i < plan.len() && #[trigger] plan[i] == (names[k], contents[k]@) by {
            if k < n {
                let i = choose|i: int|
                    0 <= i < before.len() && #[trigger] before[i] == (fewer[k], less[k]@);
                assert(plan[i] == before[i]);
            } else {
                assert(plan[plan.len() - 1] == (names[k], contents[k]@));
            }
        }
        // The last name is not among the entries before it.
        assert forall|i: int, j: int| 0 <= i < j < plan.len() implies (#[trigger] plan[i]).0 != (
        #[trigger] plan[j]).0 by {
            if j >= before.len() {
                let k = choose|k: int|
                    0 <= k < fewer.len() && #[trigger] fewer[k] == before[i].0 && less[k]@
                        == before[i].1;
                assert(names[k] == fewer[k]);
            }
        }
    }
}

/// A store below a directory that does not exist persists nothing, whatever
/// it is given to write.
pub proof fn lemma_unusable_store_writes_nothing(
    store: CacheStore,
    names: Seq<Seq<char>>,
    contents: Seq<Vec<u8>>,
)
    requires
        !store.usable(),
    ensures
        store.persists(names, contents) == Seq::<(Seq<char>, Seq<u8>)>::empty(),
{
}

/// After a purge that did not fail, reading all of the cache yields nothing.
pub proof fn lemma_purged_cache_reads_empty(
    dir: Option<Map<Seq<char>, Seq<u8>>>,
    removal: Removal,
    listing: Option<Seq<(Seq<char>, Seq<u8>)>>,
)
    requires
        removal != Removal::Failed,
        lists(listing, after_removal(dir, removal)),
    ensures
        cached(listing) == Map::<Seq<char>, Seq<u8>>::empty(),
{
}

} // verus!
