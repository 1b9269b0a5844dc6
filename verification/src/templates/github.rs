//! The template repository on GitHub: where a template is downloaded from, and
//! what a batch of downloads amounts to.

use vstd::prelude::*;
use crate::catalog::Catalog;
use crate::error::FetchError;
use crate::name_map::{names_of, values_of, NameMap};
use crate::text::joined;

verus! {

/// What stands before a template's name in its download address.
pub const DOWNLOAD_PREFIX: &'static str = "https://raw.githubusercontent.com/github/gitignore/main/";

/// What stands behind a template's name in its download address.
pub const DOWNLOAD_SUFFIX: &'static str = ".gitignore";

/// The names of templates.
pub type Gitignores = Vec<String>;

/// The templates that were downloaded, each under its name.
pub type GitignoreResponse = NameMap<Vec<u8>>;

/// The address from which the template `name` is downloaded.
pub open spec fn download_address(name: Seq<char>) -> Seq<char> {
    DOWNLOAD_PREFIX@ + name + DOWNLOAD_SUFFIX@
}

/// The outcome of one download. `None` stands for a request that failed in
/// transport; a body that came back is the template.
pub open spec fn outcome_of(reply: Option<Vec<u8>>) -> Result<Seq<u8>, FetchError> {
    match reply {
        Some(body) => Ok(body@),
        None => Err(FetchError::Network),
    }
}

/// The outcome of the download at `index` of a batch. A download without a
/// reply counts as failed in transport.
pub open spec fn outcome_at(replies: Seq<Option<Vec<u8>>>, index: int) -> Result<
    Seq<u8>,
    FetchError,
> {
    if 0 <= index < replies.len() {
        outcome_of(replies[index])
    } else {
        Err(FetchError::Network)
    }
}

/// An outcome with its template as a sequence of bytes.
pub open spec fn bytes_of(outcome: Result<Vec<u8>, FetchError>) -> Result<Seq<u8>, FetchError> {
    match outcome {
        Ok(body) => Ok(body@),
        Err(error) => Err(error),
    }
}

/// One download to make.
#[derive(Debug, PartialEq, Eq)]
pub struct Download {
    pub name: String,
    pub url: String,
}

/// Fetches the templates of a batch of names. The requests themselves are made
/// side by side by a pool of workers outside this crate; here is what is
/// requested, and what the replies amount to.
pub struct ParallelTemplateFetcher {}

impl ParallelTemplateFetcher {
    /// The address from which the template `name` is downloaded.
    pub fn download_url(name: &str) -> (url: String)
        ensures
            url@ == download_address(name@),
    {
        let front = joined(DOWNLOAD_PREFIX, name);
        joined(front.as_str(), DOWNLOAD_SUFFIX)
    }

    /// The downloads to make for a batch: one for each name, in order.
    pub fn downloads(names: &Catalog) -> (list: Vec<Download>)
        ensures
            list@.len() == names@.len(),
            forall|i: int|
                0 <= i < list@.len() ==> (#[trigger] list@[i]).name@ == names@[i] && list@[i].url@
                    == download_address(names@[i]),
    {
        let wanted = names.names();
        let mut list: Vec<Download> = Vec::new();
        let mut i: usize = 0;
        while i < wanted.len()
            invariant
                i <= wanted@.len(),
                wanted.deep_view() == names@,
                list@.len() == i,
                forall|k: int|
                    0 <= k < i ==> (#[trigger] list@[k]).name@ == names@[k] && list@[k].url@
                        == download_address(names@[k]),
            decreases wanted@.len() - i,
        {
            let url = Self::download_url(wanted[i].as_str());
            list.push(Download { name: wanted[i].clone(), url });
            i += 1;
        }
        list
    }

    /// What a batch of downloads amounts to: for each name its outcome, in the
    /// order of the names. `replies` holds the reply to each download at the
    /// index of its name, in whatever order the downloads ended. The outcome
    /// for a name depends on the reply to its own download alone.
    pub fn fetch_all(names: &Catalog, replies: Vec<Option<Vec<u8>>>) -> (report: NameMap<
        Result<Vec<u8>, FetchError>,
    >)
        ensures
            report.keys() == names@,
            report.values().len() == names@.len(),
            forall|i: int|
                0 <= i < names@.len() ==> bytes_of(#[trigger] report.values()[i]) == outcome_at(
                    replies@,
                    i,
                ),
    {
        let wanted = names.names();
        let ghost given = replies@;
        let mut report: NameMap<Result<Vec<u8>, FetchError>> = NameMap::new();
        let mut i: usize = 0;
        for reply in it: replies
            invariant
                it.seq() == given,
                wanted.deep_view() == names@,
                names@.no_duplicates(),
                i <= wanted@.len(),
                i <= it.index(),
                i < wanted@.len() ==> i == it.index(),
                report.keys() == names@.take(i as int),
                report.values().len() == i,
                forall|k: int|
                    0 <= k < i ==> bytes_of(#[trigger] report.values()[k]) == outcome_at(given, k),
        {
            if i < wanted.len() {
                let outcome = match reply {
                    Some(body) => Ok(body),
                    None => Err(FetchError::Network),
                };
                proof {
                    lemma_next_name_is_new(names@, i as int);
                }
                report.insert(wanted[i].clone(), outcome);
                i += 1;
            }
        }
        while i < wanted.len()
            invariant
                wanted.deep_view() == names@,
                names@.no_duplicates(),
                i <= wanted@.len(),
                given.len() <= i || i == wanted@.len(),
                report.keys() == names@.take(i as int),
                report.values().len() == i,
                forall|k: int|
                    0 <= k < i ==> bytes_of(#[trigger] report.values()[k]) == outcome_at(given, k),
            decreases wanted@.len() - i,
        {
            proof {
                lemma_next_name_is_new(names@, i as int);
            }
            report.insert(wanted[i].clone(), Err(FetchError::Network));
            i += 1;
        }
        report
    }
}

/// Whether each of the first `count` downloads of a batch brought its template.
pub open spec fn all_fetched(replies: Seq<Option<Vec<u8>>>, count: int) -> bool {
    forall|i: int| 0 <= i < count ==> (#[trigger] outcome_at(replies, i)) is Ok
}

/// A snapshot of the repository: every template of a catalog, under its name.
pub struct GithubApi {
    response: GitignoreResponse,
}

impl GithubApi {
    /// The templates of the snapshot.
    pub closed spec fn templates(&self) -> GitignoreResponse {
        self.response
    }

    /// The snapshot that a batch of downloads for a whole catalog amounts to;
    /// `Network` where some download of the batch failed.
    pub fn new(names: &Catalog, replies: Vec<Option<Vec<u8>>>) -> (api: Result<
        GithubApi,
        FetchError,
    >)
        ensures
            match api {
                Ok(snapshot) => {
                    &&& all_fetched(replies@, names@.len() as int)
                    &&& snapshot.templates().keys() == names@
                    &&& snapshot.templates().values().len() == names@.len()
                    &&& forall|i: int|
                        0 <= i < names@.len() ==> Ok::<Seq<u8>, FetchError>(
                            (#[trigger] snapshot.templates().values()[i])@,
                        ) == outcome_at(replies@, i)
                },
                Err(error) => error == FetchError::Network && !all_fetched(
                    replies@,
                    names@.len() as int,
                ),
            },
    {
        let ghost given = replies@;
        let report = ParallelTemplateFetcher::fetch_all(names, replies);
        let ghost outcomes = report.values();
        let entries = report.into_entries();
        let mut response: GitignoreResponse = NameMap::new();
        for entry in it: entries
            invariant
                given == replies@,
                names_of(it.seq()) == names@,
                values_of(it.seq()) == outcomes,
                it.seq().len() == names@.len(),
                names@.no_duplicates(),
                forall|k: int|
                    0 <= k < names@.len() ==> bytes_of(#[trigger] outcomes[k]) == outcome_at(
                        given,
                        k,
                    ),
                response.keys() == names@.take(it.index() as int),
                response.values().len() == it.index(),
                forall|k: int|
                    0 <= k < it.index() ==> Ok::<Seq<u8>, FetchError>(
                        (#[trigger] response.values()[k])@,
                    ) == outcome_at(given, k),
        {
            proof {
                let at = it.index() as int;
                assert(values_of(it.seq())[at] == entry.value);
                lemma_next_name_is_new(names@, at);
            }
            match entry.value {
                Ok(body) => {
                    response.insert(entry.name, body);
                },
                Err(_) => {
                    return Err(FetchError::Network);
                },
            }
        }
        assert forall|i: int| 0 <= i < names@.len() implies (#[trigger] outcome_at(
            given,
            i,
        )) is Ok by {
            assert(Ok::<Seq<u8>, FetchError>(response.values()[i]@) == outcome_at(given, i));
        }
        Ok(GithubApi { response })
    }

    /// The templates of the snapshot.
    pub fn response(&self) -> (response: &GitignoreResponse)
        ensures
            *response == self.templates(),
    {
        &self.response
    }
}

/// The outcome of a download does not depend on the reply to another one: a
/// download that fails leaves the outcomes of the others as they are.
pub proof fn lemma_outcomes_are_independent(
    replies: Seq<Option<Vec<u8>>>,
    changed: int,
    reply: Option<Vec<u8>>,
    other: int,
)
    requires
        0 <= changed < replies.len(),
        other != changed,
    ensures
        outcome_at(replies.update(changed, reply), other) == outcome_at(replies, other),
{
}

/// In a list without repetition, a name is not among those before it.
proof fn lemma_next_name_is_new(names: Seq<Seq<char>>, i: int)
    requires
        names.no_duplicates(),
        0 <= i < names.len(),
    ensures
        !names.take(i).contains(names[i]),
{
    if names.take(i).contains(names[i]) {
        let k = choose|k: int| 0 <= k < names.take(i).len() && names.take(i)[k] == names[i];
        assert(names[k] == names[i]);
    }
}

} // verus!
