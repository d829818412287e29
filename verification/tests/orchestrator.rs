use duplicity_front::config::Config;
use duplicity_front::orchestrator::{
    backup, cleanup, collection_status, duplicity_cmd, list_current_files, load_repository,
    verify, Invocation,
};
use duplicity_front::repository::Repository;

fn leaf(source: &str, remote: &str) -> Repository {
    let mut r = Repository::default();
    r.source = Some(source.to_string());
    r.remote = Some(remote.to_string());
    r
}

fn group(subs: &[&str]) -> Repository {
    let mut r = Repository::default();
    r.sub_repositories = subs.iter().map(|s| s.to_string()).collect();
    r
}

fn args(inv: &Invocation) -> Vec<&str> {
    inv.args.iter().map(|s| s.as_str()).collect()
}

#[test]
fn load_repository_reports_a_missing_name() {
    let config = Config { repositories: vec![("home".to_string(), leaf("/home", "ssh://h/b"))] };
    assert!(load_repository("home", &config).is_ok());
    let e = load_repository("nope", &config).unwrap_err();
    assert_eq!(e.description(), "Repository nope could not be loaded from the configuration.");
}

#[test]
fn duplicity_cmd_uses_the_tool_directly_without_sudo() {
    let r = leaf("/home", "ssh://h/b");
    let c = duplicity_cmd(&r);
    assert_eq!(c.program, "duplicity");
    assert!(c.args.is_empty());
    assert_eq!(c.passphrase, None);
}

#[test]
fn duplicity_cmd_wraps_with_sudo_and_preserves_the_passphrase_variable() {
    let mut r = leaf("/home", "ssh://h/b");
    r.sudo = true;
    r.passphrase = Some("opensesame".to_string());
    let c = duplicity_cmd(&r);
    assert_eq!(c.program, "sudo");
    assert_eq!(args(&c), vec!["--preserve-env=PASSPHRASE", "duplicity"]);
    assert_eq!(c.passphrase, Some("opensesame".to_string()));
}

#[test]
fn backup_of_a_leaf_runs_one_command_with_source_then_remote() {
    let config = Config { repositories: vec![("home".to_string(), leaf("/home", "ssh://h/b"))] };
    let plan = backup(&config, "home", false).unwrap();
    assert_eq!(plan.len(), 1);
    assert_eq!(plan[0].program, "duplicity");
    assert_eq!(args(&plan[0]), vec!["/home", "ssh://h/b"]);
}

#[test]
fn backup_with_retention_by_age_appends_the_maintenance_command() {
    let mut r = leaf("/home", "ssh://h/b");
    r.remove_older_than = Some("30D".to_string());
    let config = Config { repositories: vec![("home".to_string(), r)] };

    let plan = backup(&config, "home", false).unwrap();
    assert_eq!(plan.len(), 2);
    assert_eq!(args(&plan[0]), vec!["/home", "ssh://h/b"]);
    assert_eq!(args(&plan[1]), vec!["remove_older_than", "30D", "--force", "ssh://h/b"]);

    let dry = backup(&config, "home", true).unwrap();
    assert_eq!(args(&dry[0]), vec!["--dry-run", "/home", "ssh://h/b"]);
    assert_eq!(args(&dry[1]), vec!["--dry-run", "remove_older_than", "30D", "--force", "ssh://h/b"]);
}

#[test]
fn backup_maintenance_runs_age_then_incremental_then_full() {
    let mut r = leaf("/home", "ssh://h/b");
    r.remove_older_than = Some("30D".to_string());
    r.remove_all_inc_of_but_n_full = Some(2);
    r.remove_all_but_n_full = Some(3);
    let config = Config { repositories: vec![("home".to_string(), r)] };

    let plan = backup(&config, "home", true).unwrap();
    assert_eq!(plan.len(), 4);
    assert_eq!(args(&plan[0]), vec!["--dry-run", "/home", "ssh://h/b"]);
    assert_eq!(args(&plan[1]), vec!["--dry-run", "remove_older_than", "30D", "--force", "ssh://h/b"]);
    assert_eq!(
        args(&plan[2]),
        vec!["--dry-run", "remove-all-inc-of-but-n-full", "2", "--force", "ssh://h/b"]
    );
    assert_eq!(
        args(&plan[3]),
        vec!["--dry-run", "remove-all-but-n-full", "3", "--force", "ssh://h/b"]
    );
}

#[test]
fn backup_flags_sit_between_dry_run_and_the_positional_arguments() {
    let mut r = leaf("/home", "ssh://h/b");
    r.includes = vec!["/home/docs".to_string()];
    r.no_encryption = true;
    let config = Config { repositories: vec![("home".to_string(), r)] };
    let plan = backup(&config, "home", true).unwrap();
    assert_eq!(
        args(&plan[0]),
        vec!["--dry-run", "--include", "/home/docs", "--no-encryption", "/home", "ssh://h/b"]
    );
}

#[test]
fn group_members_run_in_declared_order_before_nothing_of_their_own() {
    let config = Config {
        repositories: vec![
            ("all".to_string(), group(&["a", "b"])),
            ("a".to_string(), leaf("/a", "ssh://h/a")),
            ("b".to_string(), leaf("/b", "ssh://h/b")),
        ],
    };
    let plan = backup(&config, "all", false).unwrap();
    assert_eq!(plan.len(), 2);
    assert_eq!(args(&plan[0]), vec!["/a", "ssh://h/a"]);
    assert_eq!(args(&plan[1]), vec!["/b", "ssh://h/b"]);
}

#[test]
fn nested_groups_recurse_depth_first_in_order() {
    let config = Config {
        repositories: vec![
            ("top".to_string(), group(&["inner", "c"])),
            ("inner".to_string(), group(&["a", "b"])),
            ("a".to_string(), leaf("/a", "ssh://h/a")),
            ("b".to_string(), leaf("/b", "ssh://h/b")),
            ("c".to_string(), leaf("/c", "ssh://h/c")),
        ],
    };
    let plan = backup(&config, "top", false).unwrap();
    let sources: Vec<&str> = plan.iter().map(|i| i.args[0].as_str()).collect();
    assert_eq!(sources, vec!["/a", "/b", "/c"]);
}

#[test]
fn a_missing_repository_fails_the_whole_plan() {
    let config = Config { repositories: vec![("all".to_string(), group(&["missing"]))] };
    let e = backup(&config, "all", false).unwrap_err();
    assert_eq!(e.description(), "Repository missing could not be loaded from the configuration.");
}

#[test]
fn cyclic_sub_repositories_are_reported_instead_of_recursing_forever() {
    let config = Config {
        repositories: vec![
            ("a".to_string(), group(&["b"])),
            ("b".to_string(), group(&["a"])),
        ],
    };
    let e = backup(&config, "a", false).unwrap_err();
    assert!(e.description().contains("is nested too deeply"));
}

#[test]
fn verify_lists_its_options_before_the_remote() {
    let config = Config { repositories: vec![("home".to_string(), leaf("/home", "ssh://h/b"))] };
    let plan = verify(
        &config,
        "home",
        true,
        Some("2D".to_string()),
        Some("docs/report".to_string()),
        false,
    )
    .unwrap();
    assert_eq!(plan.len(), 1);
    assert_eq!(
        args(&plan[0]),
        vec!["verify", "--compare-data", "--time", "2D", "--file-to-restore", "docs/report", "ssh://h/b"]
    );
}

#[test]
fn verify_without_options_runs_bare() {
    let config = Config { repositories: vec![("home".to_string(), leaf("/home", "ssh://h/b"))] };
    let plan = verify(&config, "home", false, None, None, true).unwrap();
    assert_eq!(args(&plan[0]), vec!["--dry-run", "verify", "ssh://h/b"]);
}

#[test]
fn collection_status_takes_an_optional_changed_file() {
    let config = Config { repositories: vec![("home".to_string(), leaf("/home", "ssh://h/b"))] };
    let plan = collection_status(&config, "home", Some("docs/x".to_string()), false).unwrap();
    assert_eq!(
        args(&plan[0]),
        vec!["collection-status", "--file-changed", "docs/x", "ssh://h/b"]
    );
    let bare = collection_status(&config, "home", None, false).unwrap();
    assert_eq!(args(&bare[0]), vec!["collection-status", "ssh://h/b"]);
}

#[test]
fn list_current_files_takes_an_optional_time() {
    let config = Config { repositories: vec![("home".to_string(), leaf("/home", "ssh://h/b"))] };
    let plan = list_current_files(&config, "home", Some("1W".to_string()), false).unwrap();
    assert_eq!(args(&plan[0]), vec!["list-current-files", "--time", "1W", "ssh://h/b"]);
}

#[test]
fn cleanup_takes_force_and_extra_clean() {
    let config = Config { repositories: vec![("home".to_string(), leaf("/home", "ssh://h/b"))] };
    let plan = cleanup(&config, "home", true, true, false).unwrap();
    assert_eq!(args(&plan[0]), vec!["cleanup", "--force", "--extra-clean", "ssh://h/b"]);
    let bare = cleanup(&config, "home", false, false, false).unwrap();
    assert_eq!(args(&bare[0]), vec!["cleanup", "ssh://h/b"]);
}

#[test]
fn the_passphrase_rides_in_the_environment_not_the_arguments() {
    let mut r = leaf("/home", "ssh://h/b");
    r.passphrase = Some("opensesame".to_string());
    let config = Config { repositories: vec![("home".to_string(), r)] };
    let plan = backup(&config, "home", false).unwrap();
    assert_eq!(plan[0].passphrase, Some("opensesame".to_string()));
    assert!(plan[0].args.iter().all(|a| a != "opensesame"));
}

#[test]
fn sudo_applies_to_every_command_of_the_leaf() {
    let mut r = leaf("/home", "ssh://h/b");
    r.sudo = true;
    r.remove_older_than = Some("30D".to_string());
    let config = Config { repositories: vec![("home".to_string(), r)] };
    let plan = backup(&config, "home", false).unwrap();
    for inv in &plan {
        assert_eq!(inv.program, "sudo");
        assert_eq!(&args(inv)[..2], &["--preserve-env=PASSPHRASE", "duplicity"]);
    }
}
