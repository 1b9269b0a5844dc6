//! The template service: the three operations of the tool, each as the steps
//! that the shell takes and what the service makes of their outcomes.
//!
//! Whether the network can be reached and whether the cache can be used are
//! found out once, before the service is made, and hold for all it does. With
//! the network the service works from the remote repository and refreshes the
//! cache; without it, from the cache alone.

use vstd::prelude::*;
use crate::cache::{
    cached_names, file_of, listed, looked_up, planned, writes_of, CacheFile, CacheStore,
    CacheWrite, Removal,
};
use crate::catalog::{Catalog, API_URL};
use crate::error::{FetchError, ServiceError};
use crate::name_map::NameMap;
use crate::names::valid_name;
use crate::templates::github::bytes_of;

verus! {

/// Where a pulled template goes.
#[derive(Debug, PartialEq, Eq)]
pub enum Destination {
    /// To standard output.
    Stdout,
    /// To the file at this path.
    File(String),
}

/// A pulled template on its way to the user.
#[derive(Debug, PartialEq, Eq)]
pub struct Delivery {
    pub content: Vec<u8>,
    pub destination: Destination,
    /// What is to be written to the cache. A write that fails is reported
    /// and fails nothing else: the template is delivered all the same.
    pub cache_writes: Vec<CacheWrite>,
}

/// The names to show.
#[derive(Debug, PartialEq, Eq)]
pub struct Listing {
    pub names: Vec<String>,
    /// Whether the names come from the cache and may be out of date.
    pub stale: bool,
}

/// What `list` needs next.
#[derive(Debug, PartialEq, Eq)]
pub enum ListStep {
    /// The catalog, from this address.
    FetchCatalog { url: String },
    /// The files of the cache directory.
    ReadCache,
}

/// What `pull` needs next.
#[derive(Debug, PartialEq, Eq)]
pub enum PullStep {
    /// The catalog, from this address.
    FetchCatalog { url: String },
    /// The file of this name from the cache directory.
    ReadCache { file: String },
    /// Nothing: the command has failed.
    Failed(ServiceError),
}

impl Destination {
    /// The path of the file, `None` for standard output.
    pub open spec fn path(self) -> Option<Seq<char>> {
        match self {
            Destination::Stdout => None,
            Destination::File(path) => Some(path@),
        }
    }

    /// To the file `output`, or to standard output where none is given.
    pub fn from_output(output: Option<String>) -> (destination: Destination)
        ensures
            destination.path() == output.deep_view(),
    {
        match output {
            Some(path) => Destination::File(path),
            None => Destination::Stdout,
        }
    }
}

/// The template service for one run of the tool.
pub struct TemplateService {
    online: bool,
    cache: CacheStore,
}

impl TemplateService {
    /// Whether the service works with the network.
    pub closed spec fn online(&self) -> bool {
        self.online
    }

    /// The cache that the service works with.
    pub closed spec fn cache(&self) -> CacheStore {
        self.cache
    }

    /// The service for one run. `online` is what the connectivity probe
    /// found; `false` makes the service work from the cache alone.
    pub fn new(online: bool, cache: CacheStore) -> (service: TemplateService)
        ensures
            service.online() == online,
            service.cache() == cache,
    {
        TemplateService { online, cache }
    }

    /// Whether the service works with the network.
    pub fn is_online(&self) -> (online: bool)
        ensures
            online == self.online(),
    {
        self.online
    }

    /// The cache that the service works with.
    pub fn cache_store(&self) -> (cache: &CacheStore)
        ensures
            *cache == self.cache(),
    {
        &self.cache
    }

    /// The first step of `list`: with the network the catalog is fetched,
    /// without it the cache is read.
    pub fn list(&self) -> (step: ListStep)
        ensures
            self.online() ==> (step matches ListStep::FetchCatalog { url } && url@ == API_URL@),
            !self.online() ==> step is ReadCache,
    {
        if self.online {
            ListStep::FetchCatalog { url: API_URL.to_owned() }
        } else {
            ListStep::ReadCache
        }
    }

    /// The names to show when the catalog was asked for: its names, in its
    /// order, or the failure of the fetch.
    pub fn list_fetched(&self, catalog: Result<Catalog, FetchError>) -> (listing: Result<
        Listing,
        ServiceError,
    >)
        ensures
            match catalog {
                Ok(names) => (listing matches Ok(shown) && shown.names.deep_view() == names@
                    && !shown.stale),
                Err(error) => (listing matches Err(failure) && failure == ServiceError::Fetch(
                    error,
                )),
            },
    {
        match catalog {
            Ok(names) => Ok(Listing { names: names.into_names(), stale: false }),
            Err(error) => Err(ServiceError::Fetch(error)),
        }
    }

    /// The names to show without the network: those of the templates in the
    /// cache, each once, marked as possibly out of date. `listing` holds the
    /// files of the cache directory, `None` where the directory does not
    /// exist.
    pub fn list_cached(&self, listing: Option<Vec<CacheFile>>) -> (shown: Listing)
        ensures
            shown.names.deep_view() == cached_names(listed(listing)),
            shown.stale,
    {
        let found = self.cache.read_all(listing);
        Listing { names: found.names(), stale: true }
    }

    /// The first step of `pull`: with the network the catalog is fetched;
    /// without it the template is looked up in the cache, and a name that no
    /// file can hold is not there.
    pub fn pull(&self, name: &str) -> (step: PullStep)
        ensures
            self.online() ==> (step matches PullStep::FetchCatalog { url } && url@ == API_URL@),
            !self.online() && valid_name(name@) ==> (step matches PullStep::ReadCache { file }
                && Some(file@) == self.cache().entry_file_of(name@)),
            !self.online() && !valid_name(name@) ==> (step matches PullStep::Failed(failure)
                && failure == ServiceError::TemplateUnavailableOffline),
    {
        if self.online {
            PullStep::FetchCatalog { url: API_URL.to_owned() }
        } else {
            match self.cache.entry_of(name) {
                Some(file) => PullStep::ReadCache { file },
                None => PullStep::Failed(ServiceError::TemplateUnavailableOffline),
            }
        }
    }

    /// The batch to download for a pull of `name`, once the catalog was
    /// asked for: the one name, if the catalog holds it letter for letter.
    /// What the cache holds has no part in this.
    pub fn pull_selected(&self, name: &str, catalog: Result<Catalog, FetchError>) -> (batch: Result<
        Catalog,
        ServiceError,
    >)
        ensures
            match catalog {
                Ok(names) => if names@.contains(name@) {
                    batch matches Ok(one) && one@ == seq![name@]
                } else {
                    batch matches Err(failure) && failure == ServiceError::UnknownTemplate
                },
                Err(error) => (batch matches Err(failure) && failure == ServiceError::Fetch(
                    error,
                )),
            },
    {
        match catalog {
            Ok(names) => match names.select(name) {
                Some(one) => Ok(one),
                None => Err(ServiceError::UnknownTemplate),
            },
            Err(error) => Err(ServiceError::Fetch(error)),
        }
    }

    /// What a pull of `name` delivers once the batch was downloaded. The
    /// outcome for `name` decides, whatever became of the rest of the batch:
    /// its failure is the failure of the command, and a batch without an
    /// outcome for it counts as a failure in transport. The template goes to
    /// the output, and to the cache where the cache can be used.
    pub fn pull_fetched(
        &self,
        name: &str,
        report: &NameMap<Result<Vec<u8>, FetchError>>,
        output: Option<String>,
    ) -> (delivered: Result<Delivery, ServiceError>)
        ensures
            match pulled(report@, name@) {
                Ok(content) => {
                    &&& delivered matches Ok(delivery)
                    &&& delivery.content@ == content
                    &&& delivery.destination.path() == output.deep_view()
                    &&& writes_of(delivery.cache_writes@) == if self.cache().usable()
                        && valid_name(name@) {
                        seq![(name@, content)]
                    } else {
                        Seq::empty()
                    }
                },
                Err(error) => (delivered matches Err(failure) && failure == ServiceError::Fetch(
                    error,
                )),
            },
    {
        match report.get(name) {
            Some(Ok(body)) => {
                let mut fresh: NameMap<Vec<u8>> = NameMap::new();
                fresh.insert(name.to_owned(), body.clone());
                proof {
                    lemma_plan_of_one(fresh.keys(), fresh.values());
                }
                let cache_writes = self.cache.write_all(&fresh);
                Ok(
                    Delivery {
                        content: body.clone(),
                        destination: Destination::from_output(output),
                        cache_writes,
                    },
                )
            },
            Some(Err(error)) => Err(ServiceError::Fetch(*error)),
            None => Err(ServiceError::Fetch(FetchError::Network)),
        }
    }

    /// What a pull of `name` delivers without the network. `found` is the
    /// file that was found in the cache under the name that
    /// [`TemplateService::pull`] gave, `None` where there is no such file.
    /// Nothing is written to the cache.
    pub fn pull_cached(&self, name: &str, found: Option<CacheFile>, output: Option<String>) -> (delivered: Result<
        Delivery,
        ServiceError,
    >)
        ensures
            match looked_up(name@, file_of(found)) {
                Some(content) => {
                    &&& delivered matches Ok(delivery)
                    &&& delivery.content@ == content
                    &&& delivery.destination.path() == output.deep_view()
                    &&& delivery.cache_writes@.len() == 0
                },
                None => (delivered matches Err(failure) && failure
                    == ServiceError::TemplateUnavailableOffline),
            },
    {
        match self.cache.read_one(name, found) {
            Some(content) => {
                Ok(
                    Delivery {
                        content,
                        destination: Destination::from_output(output),
                        cache_writes: Vec::new(),
                    },
                )
            },
            None => Err(ServiceError::TemplateUnavailableOffline),
        }
    }

    /// `purge`: the cache directory is removed with all that is in it, and
    /// `removal` says how that ended. The network has no part in it.
    pub fn purge(&self, removal: Removal) -> (purged: Result<(), ServiceError>)
        ensures
            purged == if removal == Removal::Failed {
                Err::<(), ServiceError>(ServiceError::PurgeFailed)
            } else {
                Ok::<(), ServiceError>(())
            },
    {
        self.cache.purge(removal)
    }
}

/// What a batch of downloads holds for `name`: its template, or why there is
/// none. A batch without an outcome for `name` counts as a failure in
/// transport.
pub open spec fn pulled(
    report: Map<Seq<char>, Result<Vec<u8>, FetchError>>,
    name: Seq<char>,
) -> Result<Seq<u8>, FetchError> {
    if report.contains_key(name) {
        bytes_of(report[name])
    } else {
        Err(FetchError::Network)
    }
}

/// The plan for a mapping of one template is that template, where its name
/// can be a file name, and nothing otherwise.
proof fn lemma_plan_of_one(names: Seq<Seq<char>>, contents: Seq<Vec<u8>>)
    requires
        names.len() == 1,
        contents.len() == 1,
    ensures
        planned(names, contents) == if valid_name(names[0]) {
            seq![(names[0], contents[0]@)]
        } else {
            Seq::<(Seq<char>, Seq<u8>)>::empty()
        },
{
    assert(planned(names.drop_last(), contents.drop_last()) =~= Seq::empty());
}

} // verus!
