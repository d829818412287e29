use duplicity_front::config::Config;
use duplicity_front::repository::Repository;

fn leaf(source: &str, remote: &str) -> Repository {
    let mut r = Repository::default();
    r.source = Some(source.to_string());
    r.remote = Some(remote.to_string());
    r
}

fn group(subs: &[&str]) -> Repository {
    let mut r = Repository::default();
    r.sub_repositories = subs.iter().map(|s| s.to_string()).collect();
    r
}

#[test]
fn find_repository_returns_the_named_entry() {
    let config = Config {
        repositories: vec![
            ("foo".to_string(), leaf("/a", "ssh://h/a")),
            ("foo:bar".to_string(), leaf("/b", "ssh://h/b")),
        ],
    };
    let found = config.find_repository("foo:bar").unwrap();
    assert_eq!(found.source, Some("/b".to_string()));
    assert!(config.find_repository("foo:baz").is_none());
}

#[test]
fn check_accepts_a_consistent_store() {
    let config = Config {
        repositories: vec![
            ("foo".to_string(), group(&["foo:bar"])),
            ("foo:bar".to_string(), leaf("~/", "ssh://user@host//backup/location")),
        ],
    };
    assert!(config.check().is_ok());
}

#[test]
fn check_rejects_a_missing_sub_repository() {
    let config = Config {
        repositories: vec![
            ("foo".to_string(), group(&["foo:bar"])),
            ("foo:bar".to_string(), leaf("~/", "ssh://user@host//backup/location")),
            ("foo:baz".to_string(), group(&["missing"])),
        ],
    };
    let e = config.check().unwrap_err();
    assert_eq!(
        e.description(),
        "Repository foo:baz lists missing as a sub-repository, but it could not be located within config file."
    );
}

#[test]
fn check_wraps_an_invalid_repository_with_its_name() {
    let config = Config {
        repositories: vec![("broken".to_string(), Repository::default())],
    };
    let e = config.check().unwrap_err();
    assert_eq!(
        e.description(),
        "Error in repository broken: Repository must either specify both a source and a remote, or list sub-repositories."
    );
}

#[test]
fn check_reports_the_first_failure_in_store_order() {
    let mut half = Repository::default();
    half.source = Some("/x".to_string());
    let config = Config {
        repositories: vec![
            ("first".to_string(), half),
            ("second".to_string(), Repository::default()),
        ],
    };
    let e = config.check().unwrap_err();
    assert_eq!(
        e.description(),
        "Error in repository first: Both source and remote must be simultaneously specified."
    );
}

#[test]
fn check_accepts_sub_repositories_that_resolve_later_in_the_store() {
    let config = Config {
        repositories: vec![
            ("top".to_string(), group(&["mid", "leafy"])),
            ("mid".to_string(), group(&["leafy"])),
            ("leafy".to_string(), leaf("/data", "ssh://h/data")),
        ],
    };
    assert!(config.check().is_ok());
}
