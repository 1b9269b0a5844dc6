//! The catalog: the names of the templates that the remote service offers.

use vstd::prelude::*;
use crate::error::FetchError;
use crate::names::{is_valid_name, valid_name};
use crate::text::same_text;

verus! {

/// Where the remote service lists its templates.
pub const API_URL: &'static str = "https://api.github.com/gitignore/templates";

/// How long a request for the catalog or for a template waits for an answer,
/// in seconds. No request waits without a bound.
pub const FETCH_TIMEOUT_SECS: u64 = 5;

#[verifier::external_type_specification]
#[verifier::external_body]
pub struct ExJsonError(serde_json::Error);

/// The list of strings that a JSON text denotes, as `serde_json` reads it;
/// `None` for a text that it does not accept as a list of strings.
pub uninterp spec fn json_string_list(text: Seq<u8>) -> Option<Seq<Seq<char>>>;

/// `serde_json::from_slice` for a `Vec<String>`: the list that the text
/// denotes, or an error where it denotes none.
#[verifier::external_body]
fn parse_string_list(text: &[u8]) -> (parsed: Result<Vec<String>, serde_json::Error>)
    ensures
        match parsed {
            Ok(list) => json_string_list(text@) == Some(list.deep_view()),
            Err(_) => json_string_list(text@) is None,
        },
{
    serde_json::from_slice::<Vec<String>>(text)
}

/// A list of names that can be a catalog: each can name a template, and none
/// occurs twice.
pub open spec fn acceptable(names: Seq<Seq<char>>) -> bool {
    &&& names.no_duplicates()
    &&& forall|i: int| 0 <= i < names.len() ==> valid_name(#[trigger] names[i])
}

/// The catalog that a decoded answer amounts to.
pub open spec fn catalog_of(decoded: Option<Seq<Seq<char>>>) -> Result<Seq<Seq<char>>, FetchError> {
    match decoded {
        Some(names) => if acceptable(names) {
            Ok(names)
        } else {
            Err(FetchError::Decode)
        },
        None => Err(FetchError::Decode),
    }
}

/// The catalog that the answer to the listing request amounts to. `None`
/// stands for a request that failed in transport.
pub open spec fn fetched_catalog(reply: Option<Seq<u8>>) -> Result<Seq<Seq<char>>, FetchError> {
    match reply {
        Some(body) => catalog_of(json_string_list(body)),
        None => Err(FetchError::Network),
    }
}

/// The names of one snapshot of the remote service, in the order in which the
/// service gave them.
#[derive(Debug)]
pub struct Catalog {
    names: Vec<String>,
}

impl View for Catalog {
    type V = Seq<Seq<char>>;

    closed spec fn view(&self) -> Seq<Seq<char>> {
        self.names.deep_view()
    }
}

/// A result with its catalog as the sequence of its names.
pub open spec fn outcome_view(outcome: Result<Catalog, FetchError>) -> Result<
    Seq<Seq<char>>,
    FetchError,
> {
    match outcome {
        Ok(catalog) => Ok(catalog@),
        Err(error) => Err(error),
    }
}

impl Catalog {
    /// Each name can name a template, and none occurs twice.
    #[verifier::type_invariant]
    pub open spec fn wf(&self) -> bool {
        acceptable(self@)
    }

    /// The catalog with the given names; `Decode` where a name holds a path
    /// separator or occurs twice.
    pub fn from_names(names: Vec<String>) -> (outcome: Result<Catalog, FetchError>)
        ensures
            outcome_view(outcome) == catalog_of(Some(names.deep_view())),
    {
        let ghost list = names.deep_view();
        let mut i: usize = 0;
        while i < names.len()
            invariant
                i <= names@.len(),
                list == names.deep_view(),
                forall|k: int| 0 <= k < i ==> valid_name(#[trigger] list[k]),
                forall|k: int, l: int| 0 <= k < l < i ==> list[k] != list[l],
            decreases names@.len() - i,
        {
            assert(list[i as int] == names@[i as int]@);
            if !is_valid_name(names[i].as_str()) {
                return Err(FetchError::Decode);
            }
            let mut j: usize = 0;
            while j < i
                invariant
                    j <= i < names@.len(),
                    list == names.deep_view(),
                    forall|k: int| 0 <= k < j ==> list[k] != list[i as int],
                decreases i - j,
            {
                assert(list[j as int] == names@[j as int]@);
                assert(list[i as int] == names@[i as int]@);
                if same_text(names[j].as_str(), names[i].as_str()) {
                    return Err(FetchError::Decode);
                }
                j += 1;
            }
            i += 1;
        }
        Ok(Catalog { names })
    }

    /// The catalog that a JSON text lists.
    pub fn decode(body: &[u8]) -> (outcome: Result<Catalog, FetchError>)
        ensures
            outcome_view(outcome) == catalog_of(json_string_list(body@)),
    {
        match parse_string_list(body) {
            Ok(names) => Catalog::from_names(names),
            Err(_) => Err(FetchError::Decode),
        }
    }

    /// The number of names.
    pub fn len(&self) -> (count: usize)
        ensures
            count == self@.len(),
    {
        self.names.len()
    }

    /// The names, in the order of the catalog.
    pub fn names(&self) -> (names: &Vec<String>)
        ensures
            names.deep_view() == self@,
            acceptable(self@),
    {
        proof {
            use_type_invariant(self);
        }
        &self.names
    }

    /// The names, for a caller that takes them over.
    pub fn into_names(self) -> (names: Vec<String>)
        ensures
            names.deep_view() == self@,
            acceptable(self@),
    {
        proof {
            use_type_invariant(&self);
        }
        self.names
    }

    /// The catalog that holds `name` alone, if this one holds it.
    pub fn select(&self, name: &str) -> (batch: Option<Catalog>)
        ensures
            match batch {
                Some(one) => self@.contains(name@) && one@ == seq![name@],
                None => !self@.contains(name@),
            },
    {
        proof {
            use_type_invariant(self);
        }
        if self.contains(name) {
            let mut names: Vec<String> = Vec::new();
            names.push(name.to_owned());
            proof {
                let i = choose|i: int| 0 <= i < self@.len() && self@[i] == name@;
                assert(valid_name(self@[i]));
                assert(names.deep_view() =~= seq![name@]);
            }
            Some(Catalog { names })
        } else {
            None
        }
    }

    /// Whether `name` is in the catalog, letter for letter.
    pub fn contains(&self, name: &str) -> (found: bool)
        ensures
            found == self@.contains(name@),
    {
        let mut i: usize = 0;
        while i < self.names.len()
            invariant
                i <= self.names@.len(),
                forall|k: int| 0 <= k < i ==> self@[k] != name@,
            decreases self.names@.len() - i,
        {
            assert(self@[i as int] == self.names@[i as int]@);
            if same_text(self.names[i].as_str(), name) {
                return true;
            }
            i += 1;
        }
        false
    }
}

/// Fetches the catalog: one request, no retry.
pub struct CatalogFetcher {}

impl CatalogFetcher {
    /// The catalog that the answer to the one request to [`API_URL`] amounts
    /// to. `reply` is the body that came back, `None` where the request
    /// failed in transport.
    pub fn fetch_catalog(reply: Option<Vec<u8>>) -> (outcome: Result<Catalog, FetchError>)
        ensures
            outcome_view(outcome) == fetched_catalog(reply.deep_view()),
    {
        match reply {
            Some(body) => {
                assert(body.deep_view() =~= body@);
                Catalog::decode(body.as_slice())
            },
            None => Err(FetchError::Network),
        }
    }
}

} // verus!
