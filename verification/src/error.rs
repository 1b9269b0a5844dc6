//! The ways in which an operation can fail.

use vstd::prelude::*;

verus! {

/// Why the catalog or a template could not be had from the remote service.
#[derive(Clone, Copy, Debug, PartialEq, Eq, Structural)]
pub enum FetchError {
    /// The request failed in transport, or ran into its timeout.
    Network,
    /// The answer is not the list of template names that was expected.
    Decode,
}

/// The failures that the tool knows.
#[derive(Clone, Copy, Debug, PartialEq, Eq, Structural)]
pub enum ServiceError {
    /// The connectivity probe failed.
    NetworkUnavailable,
    /// The catalog or the wanted template could not be fetched.
    Fetch(FetchError),
    /// The wanted template is not in the catalog that was fetched.
    UnknownTemplate,
    /// The wanted template is not in the cache, and the network is not
    /// reachable.
    TemplateUnavailableOffline,
    /// The directory that would hold the cache directory does not exist.
    CacheUnusable,
    /// The cache directory could not be removed.
    PurgeFailed,
}

impl ServiceError {
    /// The failures that end no command: the tool goes on in another mode,
    /// from the cache alone or without persisting anything.
    pub open spec fn absorbed(self) -> bool {
        self is NetworkUnavailable || self is CacheUnusable
    }

    /// Whether the failure ends the command.
    pub fn is_fatal(&self) -> (fatal: bool)
        ensures
            fatal == !self.absorbed(),
    {
        match self {
            ServiceError::NetworkUnavailable => false,
            ServiceError::CacheUnusable => false,
            _ => true,
        }
    }

    /// The text of the message for the user.
    pub open spec fn message_text(self) -> Seq<char> {
        match self {
            ServiceError::NetworkUnavailable => "the network is not reachable"@,
            ServiceError::Fetch(FetchError::Network) => "the request to the template repository failed"@,
            ServiceError::Fetch(FetchError::Decode) => "the template repository sent an answer that is no list of templates"@,
            ServiceError::UnknownTemplate => "no template of that name is known"@,
            ServiceError::TemplateUnavailableOffline => "the template is not in the cache and the network is not reachable"@,
            ServiceError::CacheUnusable => "the cache cannot be used"@,
            ServiceError::PurgeFailed => "the cache could not be removed"@,
        }
    }

    /// The message for the user.
    pub fn message(&self) -> (text: String)
        ensures
            text@ == self.message_text(),
    {
        match self {
            ServiceError::NetworkUnavailable => "the network is not reachable".to_owned(),
            ServiceError::Fetch(FetchError::Network) => "the request to the template repository failed".to_owned(),
            ServiceError::Fetch(FetchError::Decode) => "the template repository sent an answer that is no list of templates".to_owned(),
            ServiceError::UnknownTemplate => "no template of that name is known".to_owned(),
            ServiceError::TemplateUnavailableOffline => "the template is not in the cache and the network is not reachable".to_owned(),
            ServiceError::CacheUnusable => "the cache cannot be used".to_owned(),
            ServiceError::PurgeFailed => "the cache could not be removed".to_owned(),
        }
    }
}

} // verus!
