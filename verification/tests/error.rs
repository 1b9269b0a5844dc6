use gitignore_templates::error::{FetchError, ServiceError};

#[test]
fn a_failed_probe_and_an_unusable_cache_end_no_command() {
    assert!(!ServiceError::NetworkUnavailable.is_fatal());
    assert!(!ServiceError::CacheUnusable.is_fatal());
}

#[test]
fn the_other_failures_end_the_command() {
    assert!(ServiceError::Fetch(FetchError::Network).is_fatal());
    assert!(ServiceError::Fetch(FetchError::Decode).is_fatal());
    assert!(ServiceError::UnknownTemplate.is_fatal());
    assert!(ServiceError::TemplateUnavailableOffline.is_fatal());
    assert!(ServiceError::PurgeFailed.is_fatal());
}

#[test]
fn each_failure_has_its_message() {
    assert_eq!(ServiceError::NetworkUnavailable.message(), "the network is not reachable");
    assert_eq!(
        ServiceError::Fetch(FetchError::Network).message(),
        "the request to the template repository failed"
    );
    assert_eq!(
        ServiceError::Fetch(FetchError::Decode).message(),
        "the template repository sent an answer that is no list of templates"
    );
    assert_eq!(ServiceError::UnknownTemplate.message(), "no template of that name is known");
    assert_eq!(
        ServiceError::TemplateUnavailableOffline.message(),
        "the template is not in the cache and the network is not reachable"
    );
    assert_eq!(ServiceError::CacheUnusable.message(), "the cache cannot be used");
    assert_eq!(ServiceError::PurgeFailed.message(), "the cache could not be removed");
}
