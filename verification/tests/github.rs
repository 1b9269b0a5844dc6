use gitignore_templates::catalog::Catalog;
use gitignore_templates::error::FetchError;
use gitignore_templates::templates::github::{
    GithubApi, ParallelTemplateFetcher, DOWNLOAD_PREFIX, DOWNLOAD_SUFFIX,
};

fn catalog_of(names: &[&str]) -> Catalog {
    Catalog::from_names(names.iter().map(|name| name.to_string()).collect()).unwrap()
}

#[test]
fn the_download_address_holds_the_name() {
    assert_eq!(DOWNLOAD_PREFIX, "https://raw.githubusercontent.com/github/gitignore/main/");
    assert_eq!(DOWNLOAD_SUFFIX, ".gitignore");
    assert_eq!(
        ParallelTemplateFetcher::download_url("Rust"),
        "https://raw.githubusercontent.com/github/gitignore/main/Rust.gitignore"
    );
    assert_eq!(
        ParallelTemplateFetcher::download_url("C++"),
        "https://raw.githubusercontent.com/github/gitignore/main/C++.gitignore"
    );
    assert_eq!(
        ParallelTemplateFetcher::download_url(""),
        "https://raw.githubusercontent.com/github/gitignore/main/.gitignore"
    );
}

#[test]
fn there_is_one_download_for_each_name() {
    let downloads = ParallelTemplateFetcher::downloads(&catalog_of(&["Go", "Rust", "Node"]));
    assert_eq!(downloads.len(), 3);
    assert_eq!(downloads[0].name, "Go");
    assert_eq!(downloads[1].name, "Rust");
    assert_eq!(downloads[2].name, "Node");
    for download in &downloads {
        assert_eq!(download.url, ParallelTemplateFetcher::download_url(&download.name));
    }
    assert!(ParallelTemplateFetcher::downloads(&catalog_of(&[])).is_empty());
}

#[test]
fn every_name_has_its_outcome() {
    let names = catalog_of(&["Go", "Rust", "Node"]);
    let replies = vec![Some(b"go".to_vec()), Some(b"rust".to_vec()), Some(b"node".to_vec())];
    let report = ParallelTemplateFetcher::fetch_all(&names, replies);
    assert_eq!(report.len(), 3);
    assert_eq!(report.names(), vec!["Go".to_string(), "Rust".to_string(), "Node".to_string()]);
    assert_eq!(report.get("Go"), Some(&Ok(b"go".to_vec())));
    assert_eq!(report.get("Rust"), Some(&Ok(b"rust".to_vec())));
    assert_eq!(report.get("Node"), Some(&Ok(b"node".to_vec())));
}

#[test]
fn one_failed_download_leaves_the_others_as_they_are() {
    let names = catalog_of(&["Go", "Rust", "Node", "Ada"]);
    for failed in 0..4 {
        let bodies = [b"go".to_vec(), b"rust".to_vec(), b"node".to_vec(), b"ada".to_vec()];
        let replies: Vec<Option<Vec<u8>>> = bodies
            .iter()
            .enumerate()
            .map(|(at, body)| if at == failed { None } else { Some(body.clone()) })
            .collect();
        let report = ParallelTemplateFetcher::fetch_all(&names, replies);
        assert_eq!(report.len(), 4);
        for (at, name) in names.names().iter().enumerate() {
            let outcome = report.get(name).unwrap();
            if at == failed {
                assert_eq!(outcome, &Err(FetchError::Network));
            } else {
                assert_eq!(outcome, &Ok(bodies[at].clone()));
            }
        }
    }
}

#[test]
fn a_download_without_a_reply_has_failed() {
    let names = catalog_of(&["Go", "Rust", "Node"]);
    let report = ParallelTemplateFetcher::fetch_all(&names, vec![Some(b"go".to_vec())]);
    assert_eq!(report.len(), 3);
    assert_eq!(report.get("Go"), Some(&Ok(b"go".to_vec())));
    assert_eq!(report.get("Rust"), Some(&Err(FetchError::Network)));
    assert_eq!(report.get("Node"), Some(&Err(FetchError::Network)));
}

#[test]
fn a_reply_without_a_download_is_passed_over() {
    let names = catalog_of(&["Go"]);
    let report = ParallelTemplateFetcher::fetch_all(
        &names,
        vec![Some(b"go".to_vec()), Some(b"more".to_vec()), None],
    );
    assert_eq!(report.len(), 1);
    assert_eq!(report.get("Go"), Some(&Ok(b"go".to_vec())));
}

#[test]
fn an_empty_body_is_a_template() {
    let names = catalog_of(&["Go"]);
    let report = ParallelTemplateFetcher::fetch_all(&names, vec![Some(Vec::new())]);
    assert_eq!(report.get("Go"), Some(&Ok(Vec::new())));
}

#[test]
fn a_batch_of_no_names_has_no_outcome() {
    let report = ParallelTemplateFetcher::fetch_all(&catalog_of(&[]), vec![None]);
    assert_eq!(report.len(), 0);
}

#[test]
fn a_whole_batch_makes_a_snapshot() {
    let names = catalog_of(&["Go", "Rust"]);
    let api = GithubApi::new(&names, vec![Some(b"go".to_vec()), Some(b"rust".to_vec())]).ok().unwrap();
    assert_eq!(api.response().len(), 2);
    assert_eq!(api.response().names(), vec!["Go".to_string(), "Rust".to_string()]);
    assert_eq!(api.response().get("Go"), Some(&b"go".to_vec()));
    assert_eq!(api.response().get("Rust"), Some(&b"rust".to_vec()));
}

#[test]
fn a_batch_with_a_failure_makes_no_snapshot() {
    let names = catalog_of(&["Go", "Rust"]);
    assert_eq!(
        GithubApi::new(&names, vec![Some(b"go".to_vec()), None]).err(),
        Some(FetchError::Network)
    );
    assert_eq!(GithubApi::new(&names, vec![Some(b"go".to_vec())]).err(), Some(FetchError::Network));
    assert_eq!(GithubApi::new(&names, Vec::new()).err(), Some(FetchError::Network));
}

#[test]
fn the_snapshot_of_an_empty_catalog_is_empty() {
    let api = GithubApi::new(&catalog_of(&[]), Vec::new()).ok().unwrap();
    assert_eq!(api.response().len(), 0);
}
