use duplicity_front::repository::Repository;

fn leaf() -> Repository {
    let mut r = Repository::default();
    r.source = Some("/home".to_string());
    r.remote = Some("ssh://host/backup".to_string());
    r
}

#[test]
fn check_rejects_empty_repository() {
    let r = Repository::default();
    let e = r.check().unwrap_err();
    assert_eq!(
        e.description(),
        "Repository must either specify both a source and a remote, or list sub-repositories."
    );
}

#[test]
fn check_rejects_source_without_remote() {
    let mut r = Repository::default();
    r.source = Some("/home".to_string());
    let e = r.check().unwrap_err();
    assert_eq!(e.description(), "Both source and remote must be simultaneously specified.");
}

#[test]
fn check_rejects_remote_without_source() {
    let mut r = Repository::default();
    r.remote = Some("ssh://host/backup".to_string());
    let e = r.check().unwrap_err();
    assert_eq!(e.description(), "Both source and remote must be simultaneously specified.");
}

#[test]
fn check_rejects_half_leaf_with_sub_repositories() {
    let mut r = Repository::default();
    r.remote = Some("ssh://host/backup".to_string());
    r.sub_repositories = vec!["other".to_string()];
    let e = r.check().unwrap_err();
    assert_eq!(
        e.description(),
        "Both source and remote must be simultaneously specified, and sub-repositories cannot be simultaneously listed."
    );
}

#[test]
fn check_rejects_leaf_with_sub_repositories() {
    let mut r = leaf();
    r.sub_repositories = vec!["other".to_string()];
    let e = r.check().unwrap_err();
    assert_eq!(
        e.description(),
        "Sub-repositories cannot be simultaneously specified with source and remote."
    );
}

#[test]
fn check_accepts_leaf_mode() {
    assert!(leaf().check().is_ok());
}

#[test]
fn check_accepts_group_mode() {
    let mut r = Repository::default();
    r.sub_repositories = vec!["a".to_string(), "b".to_string()];
    assert!(r.check().is_ok());
}

#[test]
fn has_sub_repositories_reports_listing() {
    let mut r = Repository::default();
    assert!(!r.has_sub_repositories());
    r.sub_repositories = vec!["a".to_string()];
    assert!(r.has_sub_repositories());
}

#[test]
fn empty_repository_derives_no_flags() {
    let flags = Repository::default().construct_flags();
    assert_eq!(flags, Vec::<String>::new());
}

#[test]
fn construct_flags_is_deterministic() {
    let mut r = leaf();
    r.includes = vec!["/home/a".to_string()];
    r.volsize = Some(25);
    r.progress = true;
    assert_eq!(r.construct_flags(), r.construct_flags());
}

#[test]
fn inclusions_come_before_exclusions_and_the_rest() {
    let mut r = Repository::default();
    r.includes = vec!["/keep".to_string()];
    r.exclude = vec!["/skip".to_string()];
    r.progress = true;
    r.volsize = Some(5);
    assert_eq!(
        r.construct_flags(),
        vec![
            "--include".to_string(),
            "/keep".to_string(),
            "--exclude".to_string(),
            "/skip".to_string(),
            "--progress".to_string(),
            "--volsize".to_string(),
            "5".to_string(),
        ]
    );
}

#[test]
fn list_options_preserve_declaration_order() {
    let mut r = Repository::default();
    r.includes = vec!["first".to_string(), "second".to_string(), "third".to_string()];
    assert_eq!(
        r.construct_flags(),
        vec![
            "--include".to_string(),
            "first".to_string(),
            "--include".to_string(),
            "second".to_string(),
            "--include".to_string(),
            "third".to_string(),
        ]
    );
}

#[test]
fn boolean_options_emit_no_value_token() {
    let mut r = Repository::default();
    r.exclude_device_files = true;
    r.no_compression = true;
    assert_eq!(
        r.construct_flags(),
        vec!["--exclude-device-files".to_string(), "--no-compression".to_string()]
    );
}

#[test]
fn counters_are_rendered_in_decimal() {
    let mut r = Repository::default();
    r.backend_retry_delay = Some(0);
    r.num_retries = Some(7);
    r.volsize = Some(12345);
    assert_eq!(
        r.construct_flags(),
        vec![
            "--backend-retry-delay".to_string(),
            "0".to_string(),
            "--num-retries".to_string(),
            "7".to_string(),
            "--volsize".to_string(),
            "12345".to_string(),
        ]
    );
}

#[test]
fn time_separator_emits_its_character() {
    let mut r = Repository::default();
    r.time_separator = Some('_');
    assert_eq!(r.construct_flags(), vec!["--time-separator".to_string(), "_".to_string()]);
}

#[test]
fn rename_pairs_emit_both_elements() {
    let mut r = Repository::default();
    r.rename = vec![("old-name".to_string(), "new-name".to_string()),
                    ("a".to_string(), "b".to_string())];
    assert_eq!(
        r.construct_flags(),
        vec![
            "--rename".to_string(),
            "old-name".to_string(),
            "new-name".to_string(),
            "--rename".to_string(),
            "a".to_string(),
            "b".to_string(),
        ]
    );
}

#[test]
fn exclusion_block_keeps_its_fixed_order() {
    let mut r = Repository::default();
    r.exclude = vec!["/a".to_string()];
    r.exclude_device_files = true;
    r.exclude_filelist = vec!["list".to_string()];
    r.exclude_if_present = vec![".nobackup".to_string()];
    r.exclude_older_than = Some("1Y".to_string());
    r.exclude_other_filesystems = true;
    r.exclude_regexp = vec!["tmp.*".to_string()];
    assert_eq!(
        r.construct_flags(),
        vec![
            "--exclude".to_string(),
            "/a".to_string(),
            "--exclude-device-files".to_string(),
            "--exclude-filelist".to_string(),
            "list".to_string(),
            "--exclude-if-present".to_string(),
            ".nobackup".to_string(),
            "--exclude-older-than".to_string(),
            "1Y".to_string(),
            "--exclude-other-filesystems".to_string(),
            "--exclude-regexp".to_string(),
            "tmp.*".to_string(),
        ]
    );
}

#[test]
fn scalar_options_emit_flag_then_value() {
    let mut r = Repository::default();
    r.encrypt_key = Some("KEYID".to_string());
    r.full_if_older_than = Some("30D".to_string());
    r.gpg_binary = Some("/usr/bin/gpg".to_string());
    assert_eq!(
        r.construct_flags(),
        vec![
            "--encrypt-key".to_string(),
            "KEYID".to_string(),
            "--full-if-older-than".to_string(),
            "30D".to_string(),
            "--gpg-binary".to_string(),
            "/usr/bin/gpg".to_string(),
        ]
    );
}
