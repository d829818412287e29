//! The command orchestrator.
//!
//! For each of the five supported operations the orchestrator resolves a
//! named repository, recurses through its sub-repositories in declared
//! order, and derives the ordered list of subprocess invocations for
//! every repository in leaf mode along the way.  The unverified shell
//! around the library spawns the invocations one by one, stopping at the
//! first failure; this module only decides what to spawn, and in which
//! order.
//!
//! Recursion depth is bounded by the number of configured repositories:
//! in a store whose sub-repository references are free of cycles no
//! chain can be longer than that, so hitting the bound means the
//! configuration nests repositories in a cycle, and planning reports it
//! as an error instead of recursing forever.

use vstd::prelude::*;
use vstd::string::StringExecFns;

use crate::config::{Config, spec_lookup};
use crate::error::Error;
use crate::flags::flag_tokens;
use crate::repository::Repository;
use crate::text::{
    decimal,
    opt_view,
    views_of,
    lemma_views_of_push,
    lemma_views_of_add,
    u64_to_string,
};

verus! {

/// One subprocess to run: a program, its ordered arguments, and the
/// passphrase to place into its environment, if any.  The passphrase is
/// never part of the argument list.
#[derive(Debug, PartialEq, Eq)]
pub struct Invocation {
    pub program: String,
    pub args: Vec<String>,
    pub passphrase: Option<String>,
}

/// The mathematical shape of an invocation: program, arguments, and the
/// optional passphrase, all as character sequences.
pub type InvocationView = (Seq<char>, Seq<Seq<char>>, Option<Seq<char>>);

impl View for Invocation {
    type V = InvocationView;

    open spec fn view(&self) -> InvocationView {
        (self.program@, views_of(self.args@), opt_view(self.passphrase))
    }
}

/// The views of a sequence of invocations.
pub open spec fn views_of_invocations(s: Seq<Invocation>) -> Seq<InvocationView> {
    s.map_values(|i: Invocation| i@)
}

pub proof fn lemma_views_of_invocations_push(s: Seq<Invocation>, x: Invocation)
    ensures
        views_of_invocations(s.push(x)) == views_of_invocations(s).push(x@),
{
    assert(views_of_invocations(s.push(x)) =~= views_of_invocations(s).push(x@));
}

pub proof fn lemma_views_of_invocations_add(a: Seq<Invocation>, b: Seq<Invocation>)
    ensures
        views_of_invocations(a + b) == views_of_invocations(a) + views_of_invocations(b),
{
    assert(views_of_invocations(a + b) =~= views_of_invocations(a) + views_of_invocations(b));
}

/// One of the five supported operations, with its own options.  The
/// global dry-run flag is passed separately.
#[derive(Debug, PartialEq, Eq)]
pub enum Operation {
    Backup,
    Verify { compare_data: bool, time: Option<String>, file_to_restore: Option<String> },
    CollectionStatus { file_changed: Option<String> },
    ListCurrentFiles { time: Option<String> },
    Cleanup { force: bool, extra_clean: bool },
}

/// The program every invocation for `r` starts: the privilege-escalation
/// wrapper when `sudo` is set, the backup tool itself otherwise.
pub open spec fn base_program(r: Repository) -> Seq<char> {
    if r.sudo {
        "sudo"@
    } else {
        "duplicity"@
    }
}

/// The arguments every invocation for `r` starts with: under `sudo` the
/// wrapper is told to preserve the passphrase variable and is handed the
/// real tool name first.
pub open spec fn base_args(r: Repository) -> Seq<Seq<char>> {
    if r.sudo {
        seq!["--preserve-env=PASSPHRASE"@, "duplicity"@]
    } else {
        Seq::empty()
    }
}

/// The dry-run prefix, present on every spawned command when requested.
pub open spec fn dry_run_tokens(dry_run: bool) -> Seq<Seq<char>> {
    if dry_run {
        seq!["--dry-run"@]
    } else {
        Seq::empty()
    }
}

/// An invocation for `r` whose arguments after the base are `tail`.
pub open spec fn invocation_view(r: Repository, tail: Seq<Seq<char>>) -> InvocationView {
    (base_program(r), base_args(r) + tail, opt_view(r.passphrase))
}

/// The primary backup command: derived flags, then source, then remote.
pub open spec fn backup_invocation(r: Repository, dry_run: bool) -> InvocationView {
    invocation_view(
        r,
        dry_run_tokens(dry_run) + flag_tokens(r) + seq![r.source.unwrap()@, r.remote.unwrap()@],
    )
}

/// Retention by age, run after a successful backup.
pub open spec fn remove_older_invocation(r: Repository, dry_run: bool) -> InvocationView {
    invocation_view(
        r,
        dry_run_tokens(dry_run) + seq![
            "remove_older_than"@,
            r.remove_older_than.unwrap()@,
            "--force"@,
            r.remote.unwrap()@,
        ],
    )
}

/// Retention by incremental count, run after a successful backup.
pub open spec fn remove_inc_invocation(r: Repository, dry_run: bool) -> InvocationView {
    invocation_view(
        r,
        dry_run_tokens(dry_run) + seq![
            "remove-all-inc-of-but-n-full"@,
            decimal(r.remove_all_inc_of_but_n_full.unwrap() as nat),
            "--force"@,
            r.remote.unwrap()@,
        ],
    )
}

/// Retention by full-backup count, run after a successful backup.
pub open spec fn remove_full_invocation(r: Repository, dry_run: bool) -> InvocationView {
    invocation_view(
        r,
        dry_run_tokens(dry_run) + seq![
            "remove-all-but-n-full"@,
            decimal(r.remove_all_but_n_full.unwrap() as nat),
            "--force"@,
            r.remote.unwrap()@,
        ],
    )
}

/// All commands a backup runs on one leaf repository: the primary
/// command, then the configured maintenance commands in the fixed order
/// age, incremental count, full count.
pub open spec fn backup_leaf_invocations(r: Repository, dry_run: bool) -> Seq<InvocationView> {
    seq![backup_invocation(r, dry_run)] + (if r.remove_older_than is Some {
        seq![remove_older_invocation(r, dry_run)]
    } else {
        Seq::empty()
    }) + (if r.remove_all_inc_of_but_n_full is Some {
        seq![remove_inc_invocation(r, dry_run)]
    } else {
        Seq::empty()
    }) + (if r.remove_all_but_n_full is Some {
        seq![remove_full_invocation(r, dry_run)]
    } else {
        Seq::empty()
    })
}

/// The single command the verify operation runs on one leaf repository.
pub open spec fn verify_invocation(
    r: Repository,
    compare_data: bool,
    time: Option<Seq<char>>,
    file_to_restore: Option<Seq<char>>,
    dry_run: bool,
) -> InvocationView {
    invocation_view(
        r,
        dry_run_tokens(dry_run) + seq!["verify"@] + (if compare_data {
            seq!["--compare-data"@]
        } else {
            Seq::empty()
        }) + (match time {
            Some(t) => seq!["--time"@, t],
            None => Seq::empty(),
        }) + (match file_to_restore {
            Some(f) => seq!["--file-to-restore"@, f],
            None => Seq::empty(),
        }) + seq![r.remote.unwrap()@],
    )
}

/// The single command the collection-status operation runs on one leaf
/// repository.
pub open spec fn collection_status_invocation(
    r: Repository,
    file_changed: Option<Seq<char>>,
    dry_run: bool,
) -> InvocationView {
    invocation_view(
        r,
        dry_run_tokens(dry_run) + seq!["collection-status"@] + (match file_changed {
            Some(f) => seq!["--file-changed"@, f],
            None => Seq::empty(),
        }) + seq![r.remote.unwrap()@],
    )
}

/// The single command the list-current-files operation runs on one leaf
/// repository.
pub open spec fn list_current_files_invocation(
    r: Repository,
    time: Option<Seq<char>>,
    dry_run: bool,
) -> InvocationView {
    invocation_view(
        r,
        dry_run_tokens(dry_run) + seq!["list-current-files"@] + (match time {
            Some(t) => seq!["--time"@, t],
            None => Seq::empty(),
        }) + seq![r.remote.unwrap()@],
    )
}

/// The single command the cleanup operation runs on one leaf repository.
pub open spec fn cleanup_invocation(
    r: Repository,
    force: bool,
    extra_clean: bool,
    dry_run: bool,
) -> InvocationView {
    invocation_view(
        r,
        dry_run_tokens(dry_run) + seq!["cleanup"@] + (if force {
            seq!["--force"@]
        } else {
            Seq::empty()
        }) + (if extra_clean {
            seq!["--extra-clean"@]
        } else {
            Seq::empty()
        }) + seq![r.remote.unwrap()@],
    )
}

/// The commands one operation runs on one leaf repository.
pub open spec fn leaf_invocations(r: Repository, op: Operation, dry_run: bool) -> Seq<
    InvocationView,
> {
    match op {
        Operation::Backup => backup_leaf_invocations(r, dry_run),
        Operation::Verify { compare_data, time, file_to_restore } => seq![
            verify_invocation(r, compare_data, opt_view(time), opt_view(file_to_restore), dry_run),
        ],
        Operation::CollectionStatus { file_changed } => seq![
            collection_status_invocation(r, opt_view(file_changed), dry_run),
        ],
        Operation::ListCurrentFiles { time } => seq![
            list_current_files_invocation(r, opt_view(time), dry_run),
        ],
        Operation::Cleanup { force, extra_clean } => seq![
            cleanup_invocation(r, force, extra_clean, dry_run),
        ],
    }
}

/// The message reported when a requested repository is not in the store.
pub open spec fn repository_not_found_message(name: Seq<char>) -> Seq<char> {
    "Repository "@ + name + " could not be loaded from the configuration."@
}

/// The message reported when recursion through sub-repositories exceeds
/// the depth any cycle-free store allows.
pub open spec fn recursion_limit_message(name: Seq<char>) -> Seq<char> {
    "Repository "@ + name + " is nested too deeply; the sub-repositories probably form a cycle."@
}

/// The full plan of one operation on the repository named `name`: the
/// plans of its sub-repositories in declared order, followed by its own
/// commands if it is in leaf shape.  `fuel` bounds the recursion depth.
pub open spec fn spec_plan(
    repos: Seq<(String, Repository)>,
    name: Seq<char>,
    op: Operation,
    dry_run: bool,
    fuel: nat,
) -> Result<Seq<InvocationView>, Seq<char>>
    decreases fuel, 1nat, 0nat,
{
    match spec_lookup(repos, name) {
        None => Err(repository_not_found_message(name)),
        Some(r) => match spec_plan_children(repos, r.sub_repositories@, op, dry_run, fuel) {
            Err(m) => Err(m),
            Ok(invs) => Ok(
                invs + if r.source is Some && r.remote is Some {
                    leaf_invocations(r, op, dry_run)
                } else {
                    Seq::empty()
                },
            ),
        },
    }
}

/// The concatenated plans of a list of sub-repositories, in order; the
/// first failing child fails the whole plan.
pub open spec fn spec_plan_children(
    repos: Seq<(String, Repository)>,
    names: Seq<String>,
    op: Operation,
    dry_run: bool,
    fuel: nat,
) -> Result<Seq<InvocationView>, Seq<char>>
    decreases fuel, 0nat, names.len(),
{
    if names.len() == 0 {
        Ok(Seq::empty())
    } else if fuel == 0 {
        Err(recursion_limit_message(names[0]@))
    } else {
        match spec_plan(repos, names[0]@, op, dry_run, (fuel - 1) as nat) {
            Err(m) => Err(m),
            Ok(first) => match spec_plan_children(repos, names.drop_first(), op, dry_run, fuel) {
                Err(m) => Err(m),
                Ok(rest) => Ok(first + rest),
            },
        }
    }
}

/// The recursion bound handed to [`spec_plan`] by the five operations:
/// in a cycle-free store no chain of sub-repositories is longer than the
/// number of repositories.
pub open spec fn plan_fuel(repos: Seq<(String, Repository)>) -> nat {
    repos.len()
}

/// Sub-repositories are planned strictly in declared order: an earlier
/// child's failure is the whole plan's failure, untouched by later
/// children, and on success every command of an earlier child precedes
/// every command of a later one.
pub proof fn lemma_children_planned_in_order(
    repos: Seq<(String, Repository)>,
    names: Seq<String>,
    op: Operation,
    dry_run: bool,
    fuel: nat,
)
    requires
        names.len() > 0,
        fuel > 0,
    ensures
        spec_plan(repos, names[0]@, op, dry_run, (fuel - 1) as nat) matches Err(m)
            ==> spec_plan_children(repos, names, op, dry_run, fuel) == Err::<
            Seq<InvocationView>,
            Seq<char>,
        >(m),
        (spec_plan(repos, names[0]@, op, dry_run, (fuel - 1) as nat) is Ok
            && spec_plan_children(repos, names.drop_first(), op, dry_run, fuel) is Ok)
            ==> spec_plan_children(repos, names, op, dry_run, fuel) == Ok::<
            Seq<InvocationView>,
            Seq<char>,
        >(
            spec_plan(repos, names[0]@, op, dry_run, (fuel - 1) as nat)->Ok_0
                + spec_plan_children(repos, names.drop_first(), op, dry_run, fuel)->Ok_0,
        ),
{
}

/// After a successful primary backup the three maintenance commands run
/// in the fixed order age, incremental count, full count, each built
/// from the same base command and the same dry-run setting.
pub proof fn lemma_backup_maintenance_order(r: Repository, dry_run: bool)
    requires
        r.remove_older_than is Some,
        r.remove_all_inc_of_but_n_full is Some,
        r.remove_all_but_n_full is Some,
    ensures
        backup_leaf_invocations(r, dry_run) == seq![
            backup_invocation(r, dry_run),
            remove_older_invocation(r, dry_run),
            remove_inc_invocation(r, dry_run),
            remove_full_invocation(r, dry_run),
        ],
{
    assert(backup_leaf_invocations(r, dry_run) =~= seq![
        backup_invocation(r, dry_run),
        remove_older_invocation(r, dry_run),
        remove_inc_invocation(r, dry_run),
        remove_full_invocation(r, dry_run),
    ]);
}

fn push_arg(args: &mut Vec<String>, value: String)
    ensures
        views_of(final(args)@) == views_of(old(args)@).push(value@),
{
    proof {
        lemma_views_of_push(args@, value);
    }
    args.push(value);
}

/// Construct the initial command for a repository: under `sudo` the
/// wrapper preserves the passphrase variable and receives the real tool
/// name first; the passphrase, if set, rides along for the environment.
pub fn duplicity_cmd(repository: &Repository) -> (c: Invocation)
    ensures
        c@ == (base_program(*repository), base_args(*repository), opt_view(repository.passphrase)),
{
    let mut args: Vec<String> = Vec::new();
    let program: String;
    if repository.sudo {
        program = "sudo".to_owned();
        push_arg(&mut args, "--preserve-env=PASSPHRASE".to_owned());
        push_arg(&mut args, "duplicity".to_owned());
    } else {
        program = "duplicity".to_owned();
    }
    let passphrase = match &repository.passphrase {
        Some(p) => Some(p.clone()),
        None => None,
    };
    let c = Invocation { program, args, passphrase };
    proof {
        assert(views_of(c.args@) =~= base_args(*repository));
    }
    c
}

fn clone_remote(repository: &Repository) -> (r: String)
    requires
        repository.remote is Some,
    ensures
        r@ == repository.remote.unwrap()@,
{
    match &repository.remote {
        Some(s) => s.clone(),
        None => unreached(),
    }
}

fn build_backup_invocation(repository: &Repository, dry_run: bool) -> (c: Invocation)
    requires
        repository.source is Some,
        repository.remote is Some,
    ensures
        c@ == backup_invocation(*repository, dry_run),
{
    let mut cmd = duplicity_cmd(repository);
    if dry_run {
        push_arg(&mut cmd.args, "--dry-run".to_owned());
    }
    proof {
        assert(views_of(cmd.args@) =~= base_args(*repository) + dry_run_tokens(dry_run));
    }
    let mut fl = repository.construct_flags();
    proof {
        lemma_views_of_add(cmd.args@, fl@);
    }
    cmd.args.append(&mut fl);
    let source = match &repository.source {
        Some(s) => s.clone(),
        None => unreached(),
    };
    push_arg(&mut cmd.args, source);
    push_arg(&mut cmd.args, clone_remote(repository));
    proof {
        assert(views_of(cmd.args@) =~= base_args(*repository) + (dry_run_tokens(dry_run)
            + flag_tokens(*repository) + seq![
            repository.source.unwrap()@,
            repository.remote.unwrap()@,
        ]));
    }
    cmd
}

fn build_remove_older_invocation(repository: &Repository, dry_run: bool) -> (c: Invocation)
    requires
        repository.remove_older_than is Some,
        repository.remote is Some,
    ensures
        c@ == remove_older_invocation(*repository, dry_run),
{
    let mut cmd = duplicity_cmd(repository);
    if dry_run {
        push_arg(&mut cmd.args, "--dry-run".to_owned());
    }
    push_arg(&mut cmd.args, "remove_older_than".to_owned());
    let age = match &repository.remove_older_than {
        Some(s) => s.clone(),
        None => unreached(),
    };
    push_arg(&mut cmd.args, age);
    push_arg(&mut cmd.args, "--force".to_owned());
    push_arg(&mut cmd.args, clone_remote(repository));
    proof {
        assert(views_of(cmd.args@) =~= base_args(*repository) + (dry_run_tokens(dry_run) + seq![
            "remove_older_than"@,
            repository.remove_older_than.unwrap()@,
            "--force"@,
            repository.remote.unwrap()@,
        ]));
    }
    cmd
}

fn build_remove_inc_invocation(repository: &Repository, dry_run: bool) -> (c: Invocation)
    requires
        repository.remove_all_inc_of_but_n_full is Some,
        repository.remote is Some,
    ensures
        c@ == remove_inc_invocation(*repository, dry_run),
{
    let mut cmd = duplicity_cmd(repository);
    if dry_run {
        push_arg(&mut cmd.args, "--dry-run".to_owned());
    }
    push_arg(&mut cmd.args, "remove-all-inc-of-but-n-full".to_owned());
    let n = match &repository.remove_all_inc_of_but_n_full {
        Some(n) => *n,
        None => unreached(),
    };
    push_arg(&mut cmd.args, u64_to_string(n));
    push_arg(&mut cmd.args, "--force".to_owned());
    push_arg(&mut cmd.args, clone_remote(repository));
    proof {
        assert(views_of(cmd.args@) =~= base_args(*repository) + (dry_run_tokens(dry_run) + seq![
            "remove-all-inc-of-but-n-full"@,
            decimal(repository.remove_all_inc_of_but_n_full.unwrap() as nat),
            "--force"@,
            repository.remote.unwrap()@,
        ]));
    }
    cmd
}

fn build_remove_full_invocation(repository: &Repository, dry_run: bool) -> (c: Invocation)
    requires
        repository.remove_all_but_n_full is Some,
        repository.remote is Some,
    ensures
        c@ == remove_full_invocation(*repository, dry_run),
{
    let mut cmd = duplicity_cmd(repository);
    if dry_run {
        push_arg(&mut cmd.args, "--dry-run".to_owned());
    }
    push_arg(&mut cmd.args, "remove-all-but-n-full".to_owned());
    let n = match &repository.remove_all_but_n_full {
        Some(n) => *n,
        None => unreached(),
    };
    push_arg(&mut cmd.args, u64_to_string(n));
    push_arg(&mut cmd.args, "--force".to_owned());
    push_arg(&mut cmd.args, clone_remote(repository));
    proof {
        assert(views_of(cmd.args@) =~= base_args(*repository) + (dry_run_tokens(dry_run) + seq![
            "remove-all-but-n-full"@,
            decimal(repository.remove_all_but_n_full.unwrap() as nat),
            "--force"@,
            repository.remote.unwrap()@,
        ]));
    }
    cmd
}

fn push_backup_invocations(repository: &Repository, dry_run: bool, invs: &mut Vec<Invocation>)
    requires
        repository.source is Some,
        repository.remote is Some,
    ensures
        views_of_invocations(final(invs)@) == views_of_invocations(old(invs)@)
            + backup_leaf_invocations(*repository, dry_run),
{
    let primary = build_backup_invocation(repository, dry_run);
    proof {
        lemma_views_of_invocations_push(invs@, primary);
    }
    invs.push(primary);
    if repository.remove_older_than.is_some() {
        let c = build_remove_older_invocation(repository, dry_run);
        proof {
            lemma_views_of_invocations_push(invs@, c);
        }
        invs.push(c);
    }
    if repository.remove_all_inc_of_but_n_full.is_some() {
        let c = build_remove_inc_invocation(repository, dry_run);
        proof {
            lemma_views_of_invocations_push(invs@, c);
        }
        invs.push(c);
    }
    if repository.remove_all_but_n_full.is_some() {
        let c = build_remove_full_invocation(repository, dry_run);
        proof {
            lemma_views_of_invocations_push(invs@, c);
        }
        invs.push(c);
    }
    proof {
        assert(views_of_invocations(invs@) =~= views_of_invocations(old(invs)@)
            + backup_leaf_invocations(*repository, dry_run));
    }
}

fn build_verify_invocation(
    repository: &Repository,
    compare_data: bool,
    time: &Option<String>,
    file_to_restore: &Option<String>,
    dry_run: bool,
) -> (c: Invocation)
    requires
        repository.remote is Some,
    ensures
        c@ == verify_invocation(
            *repository,
            compare_data,
            opt_view(*time),
            opt_view(*file_to_restore),
            dry_run,
        ),
{
    let mut cmd = duplicity_cmd(repository);
    if dry_run {
        push_arg(&mut cmd.args, "--dry-run".to_owned());
    }
    push_arg(&mut cmd.args, "verify".to_owned());
    if compare_data {
        push_arg(&mut cmd.args, "--compare-data".to_owned());
    }
    match time {
        Some(t) => {
            push_arg(&mut cmd.args, "--time".to_owned());
            push_arg(&mut cmd.args, t.clone());
        },
        None => {},
    }
    match file_to_restore {
        Some(f) => {
            push_arg(&mut cmd.args, "--file-to-restore".to_owned());
            push_arg(&mut cmd.args, f.clone());
        },
        None => {},
    }
    push_arg(&mut cmd.args, clone_remote(repository));
    proof {
        assert(views_of(cmd.args@) =~= base_args(*repository) + (dry_run_tokens(dry_run) + seq![
            "verify"@,
        ] + (if compare_data {
            seq!["--compare-data"@]
        } else {
            Seq::empty()
        }) + (match opt_view(*time) {
            Some(t) => seq!["--time"@, t],
            None => Seq::empty(),
        }) + (match opt_view(*file_to_restore) {
            Some(f) => seq!["--file-to-restore"@, f],
            None => Seq::empty(),
        }) + seq![repository.remote.unwrap()@]));
    }
    cmd
}

fn build_collection_status_invocation(
    repository: &Repository,
    file_changed: &Option<String>,
    dry_run: bool,
) -> (c: Invocation)
    requires
        repository.remote is Some,
    ensures
        c@ == collection_status_invocation(*repository, opt_view(*file_changed), dry_run),
{
    let mut cmd = duplicity_cmd(repository);
    if dry_run {
        push_arg(&mut cmd.args, "--dry-run".to_owned());
    }
    push_arg(&mut cmd.args, "collection-status".to_owned());
    match file_changed {
        Some(f) => {
            push_arg(&mut cmd.args, "--file-changed".to_owned());
            push_arg(&mut cmd.args, f.clone());
        },
        None => {},
    }
    push_arg(&mut cmd.args, clone_remote(repository));
    proof {
        assert(views_of(cmd.args@) =~= base_args(*repository) + (dry_run_tokens(dry_run) + seq![
            "collection-status"@,
        ] + (match opt_view(*file_changed) {
            Some(f) => seq!["--file-changed"@, f],
            None => Seq::empty(),
        }) + seq![repository.remote.unwrap()@]));
    }
    cmd
}

fn build_list_current_files_invocation(
    repository: &Repository,
    time: &Option<String>,
    dry_run: bool,
) -> (c: Invocation)
    requires
        repository.remote is Some,
    ensures
        c@ == list_current_files_invocation(*repository, opt_view(*time), dry_run),
{
    let mut cmd = duplicity_cmd(repository);
    if dry_run {
        push_arg(&mut cmd.args, "--dry-run".to_owned());
    }
    push_arg(&mut cmd.args, "list-current-files".to_owned());
    match time {
        Some(t) => {
            push_arg(&mut cmd.args, "--time".to_owned());
            push_arg(&mut cmd.args, t.clone());
        },
        None => {},
    }
    push_arg(&mut cmd.args, clone_remote(repository));
    proof {
        assert(views_of(cmd.args@) =~= base_args(*repository) + (dry_run_tokens(dry_run) + seq![
            "list-current-files"@,
        ] + (match opt_view(*time) {
            Some(t) => seq!["--time"@, t],
            None => Seq::empty(),
        }) + seq![repository.remote.unwrap()@]));
    }
    cmd
}

fn build_cleanup_invocation(
    repository: &Repository,
    force: bool,
    extra_clean: bool,
    dry_run: bool,
) -> (c: Invocation)
    requires
        repository.remote is Some,
    ensures
        c@ == cleanup_invocation(*repository, force, extra_clean, dry_run),
{
    let mut cmd = duplicity_cmd(repository);
    if dry_run {
        push_arg(&mut cmd.args, "--dry-run".to_owned());
    }
    push_arg(&mut cmd.args, "cleanup".to_owned());
    if force {
        push_arg(&mut cmd.args, "--force".to_owned());
    }
    if extra_clean {
        push_arg(&mut cmd.args, "--extra-clean".to_owned());
    }
    push_arg(&mut cmd.args, clone_remote(repository));
    proof {
        assert(views_of(cmd.args@) =~= base_args(*repository) + (dry_run_tokens(dry_run) + seq![
            "cleanup"@,
        ] + (if force {
            seq!["--force"@]
        } else {
            Seq::empty()
        }) + (if extra_clean {
            seq!["--extra-clean"@]
        } else {
            Seq::empty()
        }) + seq![repository.remote.unwrap()@]));
    }
    cmd
}

fn push_leaf_invocations(
    repository: &Repository,
    op: &Operation,
    dry_run: bool,
    invs: &mut Vec<Invocation>,
)
    requires
        repository.source is Some,
        repository.remote is Some,
    ensures
        views_of_invocations(final(invs)@) == views_of_invocations(old(invs)@) + leaf_invocations(
            *repository,
            *op,
            dry_run,
        ),
{
    match op {
        Operation::Backup => {
            push_backup_invocations(repository, dry_run, invs);
        },
        Operation::Verify { compare_data, time, file_to_restore } => {
            let c = build_verify_invocation(repository, *compare_data, time, file_to_restore, dry_run);
            proof {
                lemma_views_of_invocations_push(invs@, c);
            }
            invs.push(c);
            proof {
                assert(views_of_invocations(invs@) =~= views_of_invocations(old(invs)@)
                    + leaf_invocations(*repository, *op, dry_run));
            }
        },
        Operation::CollectionStatus { file_changed } => {
            let c = build_collection_status_invocation(repository, file_changed, dry_run);
            proof {
                lemma_views_of_invocations_push(invs@, c);
            }
            invs.push(c);
            proof {
                assert(views_of_invocations(invs@) =~= views_of_invocations(old(invs)@)
                    + leaf_invocations(*repository, *op, dry_run));
            }
        },
        Operation::ListCurrentFiles { time } => {
            let c = build_list_current_files_invocation(repository, time, dry_run);
            proof {
                lemma_views_of_invocations_push(invs@, c);
            }
            invs.push(c);
            proof {
                assert(views_of_invocations(invs@) =~= views_of_invocations(old(invs)@)
                    + leaf_invocations(*repository, *op, dry_run));
            }
        },
        Operation::Cleanup { force, extra_clean } => {
            let c = build_cleanup_invocation(repository, *force, *extra_clean, dry_run);
            proof {
                lemma_views_of_invocations_push(invs@, c);
            }
            invs.push(c);
            proof {
                assert(views_of_invocations(invs@) =~= views_of_invocations(old(invs)@)
                    + leaf_invocations(*repository, *op, dry_run));
            }
        },
    }
}

/// Load a particular repository from the configuration; an error names
/// the repository that could not be found.
pub fn load_repository<'a>(name: &str, config: &'a Config) -> (r: Result<&'a Repository, Error>)
    ensures
        match r {
            Ok(rep) => spec_lookup(config.repositories@, name@) == Some(*rep),
            Err(e) => spec_lookup(config.repositories@, name@) is None && e@
                == repository_not_found_message(name@),
        },
{
    match config.find_repository(name) {
        Some(rep) => Ok(rep),
        None => {
            let mut msg = "Repository ".to_owned();
            msg.append(name);
            msg.append(" could not be loaded from the configuration.");
            Err(Error::new(msg.as_str()))
        },
    }
}

/// Plan one operation on the repository named `name`, recursing through
/// sub-repositories, with `fuel` bounding the recursion depth.
pub fn plan_operation(
    config: &Config,
    name: &str,
    op: &Operation,
    dry_run: bool,
    fuel: usize,
) -> (res: Result<Vec<Invocation>, Error>)
    ensures
        ({
            let s = spec_plan(config.repositories@, name@, *op, dry_run, fuel as nat);
            match res {
                Ok(invs) => s matches Ok(m) && views_of_invocations(invs@) == m,
                Err(e) => s matches Err(m) && e@ == m,
            }
        }),
    decreases fuel, 1nat, 0nat,
{
    let repository = match load_repository(name, config) {
        Ok(r) => r,
        Err(e) => {
            return Err(e);
        },
    };
    proof {
        assert(repository.sub_repositories@.skip(0) =~= repository.sub_repositories@);
    }
    let mut invs: Vec<Invocation> = Vec::new();
    match plan_children(config, &repository.sub_repositories, 0, op, dry_run, fuel, &mut invs) {
        Ok(()) => {},
        Err(e) => {
            return Err(e);
        },
    }
    if repository.source.is_some() && repository.remote.is_some() {
        push_leaf_invocations(repository, op, dry_run, &mut invs);
    }
    proof {
        let s = spec_plan(config.repositories@, name@, *op, dry_run, fuel as nat);
        assert(s matches Ok(m) && views_of_invocations(invs@) =~= m);
    }
    Ok(invs)
}

/// Plan the sub-repositories listed from index `i` on, appending their
/// commands in order.
fn plan_children(
    config: &Config,
    names: &Vec<String>,
    i: usize,
    op: &Operation,
    dry_run: bool,
    fuel: usize,
    invs: &mut Vec<Invocation>,
) -> (res: Result<(), Error>)
    requires
        i <= names@.len(),
    ensures
        ({
            let s = spec_plan_children(
                config.repositories@,
                names@.skip(i as int),
                *op,
                dry_run,
                fuel as nat,
            );
            match res {
                Ok(()) => s matches Ok(m) && views_of_invocations(final(invs)@)
                    == views_of_invocations(old(invs)@) + m,
                Err(e) => s matches Err(m) && e@ == m,
            }
        }),
    decreases fuel, 0nat, names@.len() - i,
{
    if i == names.len() {
        proof {
            assert(names@.skip(i as int).len() == 0);
            assert(views_of_invocations(invs@) =~= views_of_invocations(invs@)
                + Seq::<InvocationView>::empty());
        }
        return Ok(());
    }
    proof {
        assert(names@.skip(i as int)[0] == names@[i as int]);
    }
    if fuel == 0 {
        let mut msg = "Repository ".to_owned();
        msg.append(names[i].as_str());
        msg.append(" is nested too deeply; the sub-repositories probably form a cycle.");
        return Err(Error::new(msg.as_str()));
    }
    match plan_operation(config, names[i].as_str(), op, dry_run, fuel - 1) {
        Err(e) => Err(e),
        Ok(mut child_invs) => {
            proof {
                lemma_views_of_invocations_add(invs@, child_invs@);
            }
            invs.append(&mut child_invs);
            proof {
                assert(names@.skip(i as int).drop_first() =~= names@.skip(i as int + 1));
            }
            match plan_children(config, names, i + 1, op, dry_run, fuel, invs) {
                Err(e) => Err(e),
                Ok(()) => {
                    proof {
                        let s = spec_plan_children(
                            config.repositories@,
                            names@.skip(i as int),
                            *op,
                            dry_run,
                            fuel as nat,
                        );
                        assert(s matches Ok(m) && views_of_invocations(invs@)
                            =~= views_of_invocations(old(invs)@) + m);
                    }
                    Ok(())
                },
            }
        },
    }
}

/// Plan a backup of the named repository and its descendants: each leaf
/// runs the primary backup and then its configured retention commands.
pub fn backup(config: &Config, name: &str, dry_run: bool) -> (res: Result<Vec<Invocation>, Error>)
    ensures
        ({
            let s = spec_plan(
                config.repositories@,
                name@,
                Operation::Backup,
                dry_run,
                plan_fuel(config.repositories@),
            );
            match res {
                Ok(invs) => s matches Ok(m) && views_of_invocations(invs@) == m,
                Err(e) => s matches Err(m) && e@ == m,
            }
        }),
{
    plan_operation(config, name, &Operation::Backup, dry_run, config.repositories.len())
}

/// Plan a verification of the named repository and its descendants.
pub fn verify(
    config: &Config,
    name: &str,
    compare_data: bool,
    time: Option<String>,
    file_to_restore: Option<String>,
    dry_run: bool,
) -> (res: Result<Vec<Invocation>, Error>)
    ensures
        ({
            let s = spec_plan(
                config.repositories@,
                name@,
                Operation::Verify { compare_data, time, file_to_restore },
                dry_run,
                plan_fuel(config.repositories@),
            );
            match res {
                Ok(invs) => s matches Ok(m) && views_of_invocations(invs@) == m,
                Err(e) => s matches Err(m) && e@ == m,
            }
        }),
{
    let fuel = config.repositories.len();
    plan_operation(
        config,
        name,
        &Operation::Verify { compare_data, time, file_to_restore },
        dry_run,
        fuel,
    )
}

/// Plan a collection-status report for the named repository and its
/// descendants.
pub fn collection_status(
    config: &Config,
    name: &str,
    file_changed: Option<String>,
    dry_run: bool,
) -> (res: Result<Vec<Invocation>, Error>)
    ensures
        ({
            let s = spec_plan(
                config.repositories@,
                name@,
                Operation::CollectionStatus { file_changed },
                dry_run,
                plan_fuel(config.repositories@),
            );
            match res {
                Ok(invs) => s matches Ok(m) && views_of_invocations(invs@) == m,
                Err(e) => s matches Err(m) && e@ == m,
            }
        }),
{
    let fuel = config.repositories.len();
    plan_operation(config, name, &Operation::CollectionStatus { file_changed }, dry_run, fuel)
}

/// Plan a listing of the files in the named repository's backup and in
/// its descendants'.
pub fn list_current_files(
    config: &Config,
    name: &str,
    time: Option<String>,
    dry_run: bool,
) -> (res: Result<Vec<Invocation>, Error>)
    ensures
        ({
            let s = spec_plan(
                config.repositories@,
                name@,
                Operation::ListCurrentFiles { time },
                dry_run,
                plan_fuel(config.repositories@),
            );
            match res {
                Ok(invs) => s matches Ok(m) && views_of_invocations(invs@) == m,
                Err(e) => s matches Err(m) && e@ == m,
            }
        }),
{
    let fuel = config.repositories.len();
    plan_operation(config, name, &Operation::ListCurrentFiles { time }, dry_run, fuel)
}

/// Plan a cleanup of the named repository's backup location and of its
/// descendants'.
pub fn cleanup(
    config: &Config,
    name: &str,
    force: bool,
    extra_clean: bool,
    dry_run: bool,
) -> (res: Result<Vec<Invocation>, Error>)
    ensures
        ({
            let s = spec_plan(
                config.repositories@,
                name@,
                Operation::Cleanup { force, extra_clean },
                dry_run,
                plan_fuel(config.repositories@),
            );
            match res {
                Ok(invs) => s matches Ok(m) && views_of_invocations(invs@) == m,
                Err(e) => s matches Err(m) && e@ == m,
            }
        }),
{
    let fuel = config.repositories.len();
    plan_operation(config, name, &Operation::Cleanup { force, extra_clean }, dry_run, fuel)
}

} // verus!
