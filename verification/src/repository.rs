//! One named backup target, or a named group of other targets, together
//! with the validity check for its configuration.

use vstd::prelude::*;

use crate::error::Error;

verus! {

/// Options for one repository.
///
/// Most fields mirror flags of the `duplicity` backup tool; a few are
/// custom.  In particular, `sub_repositories` can list the names of other
/// repositories which should be run in its place.
///
/// A freshly built value need not be valid: the consistency rules are
/// checked by [`Repository::check`].
#[derive(Clone, Debug, PartialEq, Eq)]
pub struct Repository {
    // Custom options
    pub sub_repositories: Vec<String>,
    pub sudo: bool,
    pub passphrase: Option<String>,
    // Identity and execution
    pub source: Option<String>,
    pub remote: Option<String>,
    pub remove_older_than: Option<String>,
    pub remove_all_but_n_full: Option<u64>,
    pub remove_all_inc_of_but_n_full: Option<u64>,
    // Pass-through options
    pub asynchronous_upload: bool,
    pub backend_retry_delay: Option<u64>,
    pub compare_data: bool,
    pub copy_links: bool,
    pub encrypt_key: Option<String>,
    pub encrypt_secret_keyring: Option<String>,
    pub encrypt_sign_key: Option<String>,
    pub exclude: Vec<String>,
    pub exclude_device_files: bool,
    pub exclude_filelist: Vec<String>,
    pub exclude_if_present: Vec<String>,
    pub exclude_older_than: Option<String>,
    pub exclude_other_filesystems: bool,
    pub exclude_regexp: Vec<String>,
    pub file_prefix: Option<String>,
    pub file_prefix_manifest: Option<String>,
    pub file_prefix_archive: Option<String>,
    pub file_prefix_signature: Option<String>,
    pub full_if_older_than: Option<String>,
    pub ftp_passive: bool,
    pub ftp_regular: bool,
    pub gio: bool,
    pub hidden_encrypt_key: Option<String>,
    pub imap_full_address: Option<String>,
    pub imap_mailbox: Option<String>,
    pub gpg_binary: Option<String>,
    pub gpg_options: Option<String>,
    pub includes: Vec<String>,
    pub include_filelist: Vec<String>,
    pub include_regexp: Vec<String>,
    pub log_file: Option<String>,
    pub max_blocksize: Option<u64>,
    pub name: Option<String>,
    pub no_compression: bool,
    pub no_encryption: bool,
    pub no_print_statistics: bool,
    pub null_separator: bool,
    pub numeric_owner: bool,
    pub num_retries: Option<u64>,
    pub old_filenames: bool,
    pub par2_options: Option<String>,
    pub par2_redundancy: Option<u64>,
    pub progress: bool,
    pub progress_rate: Option<u64>,
    pub rename: Vec<(String, String)>,
    pub rsync_options: Option<String>,
    pub short_filenames: bool,
    pub sign_key: Option<String>,
    pub ssh_askpass: bool,
    pub ssh_options: Option<String>,
    pub tempdir: Option<String>,
    pub time_separator: Option<char>,
    pub timeout: Option<u64>,
    pub use_agent: bool,
    pub volsize: Option<u64>,
}

/// Group mode: the repository stands for an ordered list of other
/// repositories and has no source or remote of its own.
pub open spec fn is_group_mode(r: Repository) -> bool {
    &&& r.source is None
    &&& r.remote is None
    &&& r.sub_repositories@.len() > 0
}

/// Leaf mode: the repository names both a source and a remote and lists
/// no sub-repositories.
pub open spec fn is_leaf_mode(r: Repository) -> bool {
    &&& r.source is Some
    &&& r.remote is Some
    &&& r.sub_repositories@.len() == 0
}

/// The verdict of [`Repository::check`]: `None` when the repository is in
/// a valid mode, otherwise the message of the first violated rule.
pub open spec fn check_error(r: Repository) -> Option<Seq<char>> {
    let has_source = r.source is Some;
    let has_remote = r.remote is Some;
    let has_subs = r.sub_repositories@.len() > 0;
    if !has_source && !has_remote && !has_subs {
        Some(
            "Repository must either specify both a source and a remote, or list sub-repositories."@,
        )
    } else if !has_source && !has_remote {
        None
    } else if has_source != has_remote && !has_subs {
        Some("Both source and remote must be simultaneously specified."@)
    } else if has_source != has_remote {
        Some(
            "Both source and remote must be simultaneously specified, and sub-repositories cannot be simultaneously listed."@,
        )
    } else if !has_subs {
        None
    } else {
        Some("Sub-repositories cannot be simultaneously specified with source and remote."@)
    }
}

/// A repository is never in group mode and in leaf mode at once, so
/// passing the check means exactly one of the two modes holds.
pub proof fn lemma_modes_exclusive(r: Repository)
    ensures
        !(is_group_mode(r) && is_leaf_mode(r)),
        check_error(r) is None <==> (is_group_mode(r) != is_leaf_mode(r)),
{
}

/// Each violated rule has a message of its own: the four rejection
/// messages are pairwise distinct.
pub proof fn lemma_check_messages_distinct()
    ensures
        "Repository must either specify both a source and a remote, or list sub-repositories."@
            != "Both source and remote must be simultaneously specified."@,
        "Repository must either specify both a source and a remote, or list sub-repositories."@
            != "Both source and remote must be simultaneously specified, and sub-repositories cannot be simultaneously listed."@,
        "Repository must either specify both a source and a remote, or list sub-repositories."@
            != "Sub-repositories cannot be simultaneously specified with source and remote."@,
        "Both source and remote must be simultaneously specified."@
            != "Both source and remote must be simultaneously specified, and sub-repositories cannot be simultaneously listed."@,
        "Both source and remote must be simultaneously specified."@
            != "Sub-repositories cannot be simultaneously specified with source and remote."@,
        "Both source and remote must be simultaneously specified, and sub-repositories cannot be simultaneously listed."@
            != "Sub-repositories cannot be simultaneously specified with source and remote."@,
{
    reveal_strlit(
        "Repository must either specify both a source and a remote, or list sub-repositories.",
    );
    reveal_strlit("Both source and remote must be simultaneously specified.");
    reveal_strlit(
        "Both source and remote must be simultaneously specified, and sub-repositories cannot be simultaneously listed.",
    );
    reveal_strlit("Sub-repositories cannot be simultaneously specified with source and remote.");
    assert("Repository must either specify both a source and a remote, or list sub-repositories."@.len()
        == 84);
    assert("Both source and remote must be simultaneously specified."@.len() == 56);
    assert("Both source and remote must be simultaneously specified, and sub-repositories cannot be simultaneously listed."@.len()
        == 110);
    assert("Sub-repositories cannot be simultaneously specified with source and remote."@.len()
        == 75);
}

impl Repository {
    /// Check that the repository has self-consistent options.  The first
    /// violated rule is returned as an error; a repository passes if and
    /// only if it is in group mode or in leaf mode.
    pub fn check(&self) -> (r: Result<(), Error>)
        ensures
            r is Ok <==> check_error(*self) is None,
            r is Ok <==> (is_group_mode(*self) || is_leaf_mode(*self)),
            r matches Err(e) ==> e@ == check_error(*self).unwrap(),
    {
        let has_source = self.source.is_some();
        let has_remote = self.remote.is_some();
        let has_subs = self.sub_repositories.len() > 0;
        if !has_source && !has_remote {
            if !has_subs {
                Err(Error::new(
                    "Repository must either specify both a source and a remote, or list sub-repositories.",
                ))
            } else {
                self.check_sub_repository_options()
            }
        } else if has_source != has_remote {
            if !has_subs {
                Err(Error::new("Both source and remote must be simultaneously specified."))
            } else {
                Err(Error::new(
                    "Both source and remote must be simultaneously specified, and sub-repositories cannot be simultaneously listed.",
                ))
            }
        } else {
            if !has_subs {
                self.check_repository_options()
            } else {
                Err(Error::new(
                    "Sub-repositories cannot be simultaneously specified with source and remote.",
                ))
            }
        }
    }

    /// Check that a repository not containing sub-repositories has
    /// self-consistent options.
    fn check_repository_options(&self) -> (r: Result<(), Error>)
        ensures
            self.source is None ==> (r matches Err(e) && e@ == "Repository must specify a source."@),
            self.source is Some && self.remote is None ==> (r matches Err(e) && e@
                == "Repository must specify a remote location for backups."@),
            self.source is Some && self.remote is Some && self.sub_repositories@.len() > 0 ==> (
            r matches Err(e) && e@
                == "Repository cannot simultaneously have a source and/or remote with sub-repositories."@),
            is_leaf_mode(*self) ==> r is Ok,
    {
        if !self.source.is_some() {
            Err(Error::new("Repository must specify a source."))
        } else if !self.remote.is_some() {
            Err(Error::new("Repository must specify a remote location for backups."))
        } else if self.sub_repositories.len() > 0 {
            Err(Error::new(
                "Repository cannot simultaneously have a source and/or remote with sub-repositories.",
            ))
        } else {
            Ok(())
        }
    }

    /// Check that a repository containing sub-repositories has
    /// self-consistent options.
    fn check_sub_repository_options(&self) -> (r: Result<(), Error>)
        ensures
            self.source is Some ==> (r matches Err(e) && e@
                == "Sub-repositories cannot be specified alongside 'source'."@),
            self.source is None && self.remote is Some ==> (r matches Err(e) && e@
                == "Sub-repositories cannot be specified alongside 'remote'."@),
            self.source is None && self.remote is None && self.sub_repositories@.len() == 0 ==> (
            r matches Err(e) && e@
                == "Sub-repositories must specify at least one sub-repository."@),
            is_group_mode(*self) ==> r is Ok,
    {
        if self.source.is_some() {
            Err(Error::new("Sub-repositories cannot be specified alongside 'source'."))
        } else if self.remote.is_some() {
            Err(Error::new("Sub-repositories cannot be specified alongside 'remote'."))
        } else if self.sub_repositories.len() == 0 {
            Err(Error::new("Sub-repositories must specify at least one sub-repository."))
        } else {
            Ok(())
        }
    }

    /// Whether the repository lists sub-repositories.
    pub fn has_sub_repositories(&self) -> (r: bool)
        ensures
            r == (self.sub_repositories@.len() > 0),
    {
        self.sub_repositories.len() > 0
    }
}

/// All fields at rest: empty lists, absent options, false toggles.
pub open spec fn is_default_repository(r: Repository) -> bool {
    &&& r.sub_repositories@.len() == 0
    &&& r.sudo == false
    &&& r.passphrase is None
    &&& r.source is None
    &&& r.remote is None
    &&& r.remove_older_than is None
    &&& r.remove_all_but_n_full is None
    &&& r.remove_all_inc_of_but_n_full is None
    &&& r.asynchronous_upload == false
    &&& r.backend_retry_delay is None
    &&& r.compare_data == false
    &&& r.copy_links == false
    &&& r.encrypt_key is None
    &&& r.encrypt_secret_keyring is None
    &&& r.encrypt_sign_key is None
    &&& r.exclude@.len() == 0
    &&& r.exclude_device_files == false
    &&& r.exclude_filelist@.len() == 0
    &&& r.exclude_if_present@.len() == 0
    &&& r.exclude_older_than is None
    &&& r.exclude_other_filesystems == false
    &&& r.exclude_regexp@.len() == 0
    &&& r.file_prefix is None
    &&& r.file_prefix_manifest is None
    &&& r.file_prefix_archive is None
    &&& r.file_prefix_signature is None
    &&& r.full_if_older_than is None
    &&& r.ftp_passive == false
    &&& r.ftp_regular == false
    &&& r.gio == false
    &&& r.hidden_encrypt_key is None
    &&& r.imap_full_address is None
    &&& r.imap_mailbox is None
    &&& r.gpg_binary is None
    &&& r.gpg_options is None
    &&& r.includes@.len() == 0
    &&& r.include_filelist@.len() == 0
    &&& r.include_regexp@.len() == 0
    &&& r.log_file is None
    &&& r.max_blocksize is None
    &&& r.name is None
    &&& r.no_compression == false
    &&& r.no_encryption == false
    &&& r.no_print_statistics == false
    &&& r.null_separator == false
    &&& r.numeric_owner == false
    &&& r.num_retries is None
    &&& r.old_filenames == false
    &&& r.par2_options is None
    &&& r.par2_redundancy is None
    &&& r.progress == false
    &&& r.progress_rate is None
    &&& r.rename@.len() == 0
    &&& r.rsync_options is None
    &&& r.short_filenames == false
    &&& r.sign_key is None
    &&& r.ssh_askpass == false
    &&& r.ssh_options is None
    &&& r.tempdir is None
    &&& r.time_separator is None
    &&& r.timeout is None
    &&& r.use_agent == false
    &&& r.volsize is None
}

impl Default for Repository {
    /// A repository with every option absent.
    fn default() -> (r: Self)
        ensures
            is_default_repository(r),
    {
        Repository {
            sub_repositories: Vec::new(),
            sudo: false,
            passphrase: None,
            source: None,
            remote: None,
            remove_older_than: None,
            remove_all_but_n_full: None,
            remove_all_inc_of_but_n_full: None,
            asynchronous_upload: false,
            backend_retry_delay: None,
            compare_data: false,
            copy_links: false,
            encrypt_key: None,
            encrypt_secret_keyring: None,
            encrypt_sign_key: None,
            exclude: Vec::new(),
            exclude_device_files: false,
            exclude_filelist: Vec::new(),
            exclude_if_present: Vec::new(),
            exclude_older_than: None,
            exclude_other_filesystems: false,
            exclude_regexp: Vec::new(),
            file_prefix: None,
            file_prefix_manifest: None,
            file_prefix_archive: None,
            file_prefix_signature: None,
            full_if_older_than: None,
            ftp_passive: false,
            ftp_regular: false,
            gio: false,
            hidden_encrypt_key: None,
            imap_full_address: None,
            imap_mailbox: None,
            gpg_binary: None,
            gpg_options: None,
            includes: Vec::new(),
            include_filelist: Vec::new(),
            include_regexp: Vec::new(),
            log_file: None,
            max_blocksize: None,
            name: None,
            no_compression: false,
            no_encryption: false,
            no_print_statistics: false,
            null_separator: false,
            numeric_owner: false,
            num_retries: None,
            old_filenames: false,
            par2_options: None,
            par2_redundancy: None,
            progress: false,
            progress_rate: None,
            rename: Vec::new(),
            rsync_options: None,
            short_filenames: false,
            sign_key: None,
            ssh_askpass: false,
            ssh_options: None,
            tempdir: None,
            time_separator: None,
            timeout: None,
            use_agent: false,
            volsize: None,
        }
    }
}

} // verus!
