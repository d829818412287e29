//! Deterministic derivation of command-line tokens from a repository's
//! options.
//!
//! The order is fixed: inclusion flags first, then exclusion flags, then
//! the remaining options in one fixed order matching the external tool's
//! flag names.  Boolean options emit the bare flag token only when set;
//! optional scalars emit a flag token followed by one value token only
//! when present; list options emit one flag/value pair per element in
//! declaration order; rename pairs emit the flag token followed by both
//! elements.

use vstd::prelude::*;

use crate::repository::Repository;
use crate::text::{decimal, opt_view, views_of, lemma_views_of_push, u64_to_string, char_to_string};

verus! {

/// Tokens of a boolean option: the bare flag when set, nothing otherwise.
pub open spec fn bool_tokens(flag: Seq<char>, set: bool) -> Seq<Seq<char>> {
    if set {
        seq![flag]
    } else {
        Seq::empty()
    }
}

/// Tokens of an optional scalar option: the flag and its value when
/// present, nothing otherwise.
pub open spec fn scalar_tokens(flag: Seq<char>, value: Option<Seq<char>>) -> Seq<Seq<char>> {
    match value {
        Some(v) => seq![flag, v],
        None => Seq::empty(),
    }
}

/// Tokens of an optional counter option, rendered in decimal.
pub open spec fn count_tokens(flag: Seq<char>, value: Option<u64>) -> Seq<Seq<char>> {
    match value {
        Some(n) => seq![flag, decimal(n as nat)],
        None => Seq::empty(),
    }
}

/// Tokens of an optional single-character option.
pub open spec fn sep_tokens(flag: Seq<char>, value: Option<char>) -> Seq<Seq<char>> {
    match value {
        Some(c) => seq![flag, seq![c]],
        None => Seq::empty(),
    }
}

/// Tokens of a list option: one flag/value pair per element, in order.
pub open spec fn list_tokens(flag: Seq<char>, items: Seq<Seq<char>>) -> Seq<Seq<char>>
    decreases items.len(),
{
    if items.len() == 0 {
        Seq::empty()
    } else {
        list_tokens(flag, items.drop_last()) + seq![flag, items.last()]
    }
}

/// The views of a sequence of rename pairs.
pub open spec fn pair_views(s: Seq<(String, String)>) -> Seq<(Seq<char>, Seq<char>)> {
    s.map_values(|p: (String, String)| (p.0@, p.1@))
}

/// Tokens of a paired option: the flag followed by both elements of each
/// pair, in order.
pub open spec fn pair_tokens(flag: Seq<char>, items: Seq<(Seq<char>, Seq<char>)>) -> Seq<Seq<char>>
    decreases items.len(),
{
    if items.len() == 0 {
        Seq::empty()
    } else {
        pair_tokens(flag, items.drop_last()) + seq![flag, items.last().0, items.last().1]
    }
}

/// A list option never loses, reorders or pads its elements: the tokens
/// alternate between the flag and the declared values.
pub proof fn lemma_list_tokens_shape(flag: Seq<char>, items: Seq<Seq<char>>)
    ensures
        list_tokens(flag, items).len() == 2 * items.len(),
        forall|j: int|
            0 <= j < 2 * items.len() ==> #[trigger] list_tokens(flag, items)[j] == (if j % 2 == 0 {
                flag
            } else {
                items[j / 2]
            }),
    decreases items.len(),
{
    if items.len() > 0 {
        lemma_list_tokens_shape(flag, items.drop_last());
    }
}

/// A paired option emits exactly three tokens per pair: the flag, then
/// the first element, then the second.
pub proof fn lemma_pair_tokens_shape(flag: Seq<char>, items: Seq<(Seq<char>, Seq<char>)>)
    ensures
        pair_tokens(flag, items).len() == 3 * items.len(),
        forall|j: int|
            0 <= j < 3 * items.len() ==> #[trigger] pair_tokens(flag, items)[j] == (if j % 3 == 0 {
                flag
            } else if j % 3 == 1 {
                items[j / 3].0
            } else {
                items[j / 3].1
            }),
    decreases items.len(),
{
    if items.len() > 0 {
        lemma_pair_tokens_shape(flag, items.drop_last());
    }
}

/// Boolean options never emit a value token, and absent options emit
/// nothing at all.
pub proof fn lemma_token_emission(flag: Seq<char>)
    ensures
        bool_tokens(flag, false) == Seq::<Seq<char>>::empty(),
        bool_tokens(flag, true) == seq![flag],
        scalar_tokens(flag, Option::<Seq<char>>::None) == Seq::<Seq<char>>::empty(),
        count_tokens(flag, Option::<u64>::None) == Seq::<Seq<char>>::empty(),
        sep_tokens(flag, Option::<char>::None) == Seq::<Seq<char>>::empty(),
        list_tokens(flag, Seq::empty()) == Seq::<Seq<char>>::empty(),
        pair_tokens(flag, Seq::empty()) == Seq::<Seq<char>>::empty(),
{
}

proof fn lemma_extend_assoc(pre: Seq<Seq<char>>, acc: Seq<Seq<char>>, t: Seq<Seq<char>>)
    ensures
        (pre + acc) + t == pre + (acc + t),
{
    assert((pre + acc) + t =~= pre + (acc + t));
}

fn push_bool(flags: &mut Vec<String>, flag: &str, set: bool)
    ensures
        views_of(final(flags)@) == views_of(old(flags)@) + bool_tokens(flag@, set),
{
    if set {
        let t = flag.to_owned();
        proof {
            lemma_views_of_push(flags@, t);
        }
        flags.push(t);
    }
    proof {
        assert(views_of(flags@) =~= views_of(old(flags)@) + bool_tokens(flag@, set));
    }
}

fn push_scalar(flags: &mut Vec<String>, flag: &str, value: &Option<String>)
    ensures
        views_of(final(flags)@) == views_of(old(flags)@) + scalar_tokens(flag@, opt_view(*value)),
{
    match value {
        Some(v) => {
            let t = flag.to_owned();
            proof {
                lemma_views_of_push(flags@, t);
            }
            flags.push(t);
            let c = v.clone();
            proof {
                lemma_views_of_push(flags@, c);
            }
            flags.push(c);
        },
        None => {},
    }
    proof {
        assert(views_of(flags@) =~= views_of(old(flags)@) + scalar_tokens(flag@, opt_view(*value)));
    }
}

fn push_count(flags: &mut Vec<String>, flag: &str, value: &Option<u64>)
    ensures
        views_of(final(flags)@) == views_of(old(flags)@) + count_tokens(flag@, *value),
{
    match value {
        Some(n) => {
            let t = flag.to_owned();
            proof {
                lemma_views_of_push(flags@, t);
            }
            flags.push(t);
            let c = u64_to_string(*n);
            proof {
                lemma_views_of_push(flags@, c);
            }
            flags.push(c);
        },
        None => {},
    }
    proof {
        assert(views_of(flags@) =~= views_of(old(flags)@) + count_tokens(flag@, *value));
    }
}

fn push_sep(flags: &mut Vec<String>, flag: &str, value: &Option<char>)
    ensures
        views_of(final(flags)@) == views_of(old(flags)@) + sep_tokens(flag@, *value),
{
    match value {
        Some(c) => {
            let t = flag.to_owned();
            proof {
                lemma_views_of_push(flags@, t);
            }
            flags.push(t);
            let s = char_to_string(*c);
            proof {
                lemma_views_of_push(flags@, s);
            }
            flags.push(s);
        },
        None => {},
    }
    proof {
        assert(views_of(flags@) =~= views_of(old(flags)@) + sep_tokens(flag@, *value));
    }
}

fn push_list(flags: &mut Vec<String>, flag: &str, items: &Vec<String>)
    ensures
        views_of(final(flags)@) == views_of(old(flags)@) + list_tokens(flag@, views_of(items@)),
{
    proof {
        assert(views_of(items@).take(0) =~= Seq::<Seq<char>>::empty());
        assert(views_of(flags@) =~= views_of(old(flags)@) + list_tokens(
            flag@,
            views_of(items@).take(0),
        ));
    }
    let mut i: usize = 0;
    while i < items.len()
        invariant
            i <= items@.len(),
            views_of(flags@) == views_of(old(flags)@) + list_tokens(
                flag@,
                views_of(items@).take(i as int),
            ),
        decreases items@.len() - i,
    {
        let t = flag.to_owned();
        proof {
            lemma_views_of_push(flags@, t);
        }
        flags.push(t);
        let c = items[i].clone();
        proof {
            lemma_views_of_push(flags@, c);
        }
        flags.push(c);
        proof {
            let vs = views_of(items@);
            assert(vs.take(i + 1).drop_last() =~= vs.take(i as int));
            assert(vs.take(i + 1).last() == items@[i as int]@);
            assert(views_of(flags@) =~= views_of(old(flags)@) + list_tokens(
                flag@,
                vs.take(i + 1),
            ));
        }
        i = i + 1;
    }
    proof {
        assert(views_of(items@).take(items@.len() as int) =~= views_of(items@));
    }
}

fn push_pairs(flags: &mut Vec<String>, flag: &str, items: &Vec<(String, String)>)
    ensures
        views_of(final(flags)@) == views_of(old(flags)@) + pair_tokens(flag@, pair_views(items@)),
{
    proof {
        assert(pair_views(items@).take(0) =~= Seq::<(Seq<char>, Seq<char>)>::empty());
        assert(views_of(flags@) =~= views_of(old(flags)@) + pair_tokens(
            flag@,
            pair_views(items@).take(0),
        ));
    }
    let mut i: usize = 0;
    while i < items.len()
        invariant
            i <= items@.len(),
            views_of(flags@) == views_of(old(flags)@) + pair_tokens(
                flag@,
                pair_views(items@).take(i as int),
            ),
        decreases items@.len() - i,
    {
        let t = flag.to_owned();
        proof {
            lemma_views_of_push(flags@, t);
        }
        flags.push(t);
        let a = items[i].0.clone();
        proof {
            lemma_views_of_push(flags@, a);
        }
        flags.push(a);
        let b = items[i].1.clone();
        proof {
            lemma_views_of_push(flags@, b);
        }
        flags.push(b);
        proof {
            let vs = pair_views(items@);
            assert(vs.take(i + 1).drop_last() =~= vs.take(i as int));
            assert(vs.take(i + 1).last() == (items@[i as int].0@, items@[i as int].1@));
            assert(views_of(flags@) =~= views_of(old(flags)@) + pair_tokens(
                flag@,
                vs.take(i + 1),
            ));
        }
        i = i + 1;
    }
    proof {
        assert(pair_views(items@).take(items@.len() as int) =~= pair_views(items@));
    }
}

/// The inclusion block, first in the output.
pub open spec fn inclusion_tokens(r: Repository) -> Seq<Seq<char>> {
    list_tokens("--include"@, views_of(r.includes@)) + list_tokens(
        "--include-filelist"@,
        views_of(r.include_filelist@),
    ) + list_tokens("--include-regexp"@, views_of(r.include_regexp@))
}

/// The exclusion block, second in the output.
pub open spec fn exclusion_tokens(r: Repository) -> Seq<Seq<char>> {
    list_tokens("--exclude"@, views_of(r.exclude@)) + bool_tokens(
        "--exclude-device-files"@,
        r.exclude_device_files,
    ) + list_tokens("--exclude-filelist"@, views_of(r.exclude_filelist@)) + list_tokens(
        "--exclude-if-present"@,
        views_of(r.exclude_if_present@),
    ) + scalar_tokens("--exclude-older-than"@, opt_view(r.exclude_older_than)) + bool_tokens(
        "--exclude-other-filesystems"@,
        r.exclude_other_filesystems,
    ) + list_tokens("--exclude-regexp"@, views_of(r.exclude_regexp@))
}

/// Remaining options, first slice of the fixed order.
pub open spec fn remaining_tokens_a(r: Repository) -> Seq<Seq<char>> {
    bool_tokens("--asynchronous-upload"@, r.asynchronous_upload) + count_tokens(
        "--backend-retry-delay"@,
        r.backend_retry_delay,
    ) + bool_tokens("--compare-data"@, r.compare_data) + bool_tokens("--copy-links"@, r.copy_links)
        + scalar_tokens("--encrypt-key"@, opt_view(r.encrypt_key)) + scalar_tokens(
        "--encrypt-secret-keyring"@,
        opt_view(r.encrypt_secret_keyring),
    ) + scalar_tokens("--encrypt-sign-key"@, opt_view(r.encrypt_sign_key))
}

/// Remaining options, second slice of the fixed order.
pub open spec fn remaining_tokens_b(r: Repository) -> Seq<Seq<char>> {
    scalar_tokens("--file-prefix"@, opt_view(r.file_prefix)) + scalar_tokens(
        "--file-prefix-manifest"@,
        opt_view(r.file_prefix_manifest),
    ) + scalar_tokens("--file-prefix-archive"@, opt_view(r.file_prefix_archive)) + scalar_tokens(
        "--file-prefix-signature"@,
        opt_view(r.file_prefix_signature),
    ) + scalar_tokens("--full-if-older-than"@, opt_view(r.full_if_older_than)) + bool_tokens(
        "--ftp-passive"@,
        r.ftp_passive,
    ) + bool_tokens("--ftp-regular"@, r.ftp_regular) + bool_tokens("--gio"@, r.gio)
}

/// Remaining options, third slice of the fixed order.
pub open spec fn remaining_tokens_c(r: Repository) -> Seq<Seq<char>> {
    scalar_tokens("--hidden-encrypt-key"@, opt_view(r.hidden_encrypt_key)) + scalar_tokens(
        "--imap-full-address"@,
        opt_view(r.imap_full_address),
    ) + scalar_tokens("--imap-mailbox"@, opt_view(r.imap_mailbox)) + scalar_tokens(
        "--gpg-binary"@,
        opt_view(r.gpg_binary),
    ) + scalar_tokens("--gpg-options"@, opt_view(r.gpg_options)) + scalar_tokens(
        "--log-file"@,
        opt_view(r.log_file),
    ) + count_tokens("--max-blocksize"@, r.max_blocksize) + scalar_tokens(
        "--name"@,
        opt_view(r.name),
    )
}

/// Remaining options, fourth slice of the fixed order.
pub open spec fn remaining_tokens_d(r: Repository) -> Seq<Seq<char>> {
    bool_tokens("--no-compression"@, r.no_compression) + bool_tokens(
        "--no-encryption"@,
        r.no_encryption,
    ) + bool_tokens("--no-print-statistics"@, r.no_print_statistics) + bool_tokens(
        "--null-separator"@,
        r.null_separator,
    ) + bool_tokens("--numeric-owner"@, r.numeric_owner) + count_tokens(
        "--num-retries"@,
        r.num_retries,
    ) + bool_tokens("--old-filenames"@, r.old_filenames) + scalar_tokens(
        "--par2-options"@,
        opt_view(r.par2_options),
    ) + count_tokens("--par2-redundancy"@, r.par2_redundancy)
}

/// Remaining options, fifth slice of the fixed order.
pub open spec fn remaining_tokens_e(r: Repository) -> Seq<Seq<char>> {
    bool_tokens("--progress"@, r.progress) + count_tokens("--progress-rate"@, r.progress_rate)
        + pair_tokens("--rename"@, pair_views(r.rename@)) + scalar_tokens(
        "--rsync-options"@,
        opt_view(r.rsync_options),
    ) + bool_tokens("--short-filenames"@, r.short_filenames) + scalar_tokens(
        "--sign-key"@,
        opt_view(r.sign_key),
    ) + bool_tokens("--ssh-askpass"@, r.ssh_askpass) + scalar_tokens(
        "--ssh-options"@,
        opt_view(r.ssh_options),
    )
}

/// Remaining options, last slice of the fixed order.
pub open spec fn remaining_tokens_f(r: Repository) -> Seq<Seq<char>> {
    scalar_tokens("--tempdir"@, opt_view(r.tempdir)) + sep_tokens(
        "--time-separator"@,
        r.time_separator,
    ) + count_tokens("--timeout"@, r.timeout) + bool_tokens("--use-agent"@, r.use_agent)
        + count_tokens("--volsize"@, r.volsize)
}

/// Everything after the inclusion and exclusion blocks.
pub open spec fn remaining_tokens(r: Repository) -> Seq<Seq<char>> {
    remaining_tokens_a(r) + remaining_tokens_b(r) + remaining_tokens_c(r) + remaining_tokens_d(r)
        + remaining_tokens_e(r) + remaining_tokens_f(r)
}

/// The full ordered token list derived from a repository's options.
pub open spec fn flag_tokens(r: Repository) -> Seq<Seq<char>> {
    inclusion_tokens(r) + exclusion_tokens(r) + remaining_tokens(r)
}

/// The output order is stable: the inclusion block comes first, then the
/// exclusion block, then the remaining options.
pub proof fn lemma_flag_token_ordering(r: Repository)
    ensures
        flag_tokens(r) == inclusion_tokens(r) + exclusion_tokens(r) + remaining_tokens(r),
{
}

/// A repository with every option absent derives no tokens at all.
pub proof fn lemma_default_flags_empty(r: Repository)
    requires
        crate::repository::is_default_repository(r),
    ensures
        flag_tokens(r) == Seq::<Seq<char>>::empty(),
{
    assert(views_of(r.includes@) =~= Seq::<Seq<char>>::empty());
    assert(views_of(r.include_filelist@) =~= Seq::<Seq<char>>::empty());
    assert(views_of(r.include_regexp@) =~= Seq::<Seq<char>>::empty());
    assert(views_of(r.exclude@) =~= Seq::<Seq<char>>::empty());
    assert(views_of(r.exclude_filelist@) =~= Seq::<Seq<char>>::empty());
    assert(views_of(r.exclude_if_present@) =~= Seq::<Seq<char>>::empty());
    assert(views_of(r.exclude_regexp@) =~= Seq::<Seq<char>>::empty());
    assert(pair_views(r.rename@) =~= Seq::<(Seq<char>, Seq<char>)>::empty());
    assert(flag_tokens(r) =~= Seq::<Seq<char>>::empty());
}

impl Repository {
    fn push_inclusion_tokens(&self, flags: &mut Vec<String>)
        ensures
            views_of(final(flags)@) == views_of(old(flags)@) + inclusion_tokens(*self),
    {
        push_list(flags, "--include", &self.includes);
        push_list(flags, "--include-filelist", &self.include_filelist);
        push_list(flags, "--include-regexp", &self.include_regexp);
        proof {
            assert(views_of(flags@) =~= views_of(old(flags)@) + inclusion_tokens(*self));
        }
    }

    fn push_exclusion_tokens(&self, flags: &mut Vec<String>)
        ensures
            views_of(final(flags)@) == views_of(old(flags)@) + exclusion_tokens(*self),
    {
        push_list(flags, "--exclude", &self.exclude);
        push_bool(flags, "--exclude-device-files", self.exclude_device_files);
        push_list(flags, "--exclude-filelist", &self.exclude_filelist);
        push_list(flags, "--exclude-if-present", &self.exclude_if_present);
        push_scalar(flags, "--exclude-older-than", &self.exclude_older_than);
        push_bool(flags, "--exclude-other-filesystems", self.exclude_other_filesystems);
        push_list(flags, "--exclude-regexp", &self.exclude_regexp);
        proof {
            assert(views_of(flags@) =~= views_of(old(flags)@) + exclusion_tokens(*self));
        }
    }

    #[verifier::rlimit(80)]
    fn push_remaining_tokens_a(&self, flags: &mut Vec<String>)
        ensures
            views_of(final(flags)@) == views_of(old(flags)@) + remaining_tokens_a(*self),
    {
        push_bool(flags, "--asynchronous-upload", self.asynchronous_upload);
        push_count(flags, "--backend-retry-delay", &self.backend_retry_delay);
        push_bool(flags, "--compare-data", self.compare_data);
        push_bool(flags, "--copy-links", self.copy_links);
        push_scalar(flags, "--encrypt-key", &self.encrypt_key);
        push_scalar(flags, "--encrypt-secret-keyring", &self.encrypt_secret_keyring);
        push_scalar(flags, "--encrypt-sign-key", &self.encrypt_sign_key);
        proof {
            assert(views_of(flags@) =~= views_of(old(flags)@) + remaining_tokens_a(*self));
        }
    }

    #[verifier::rlimit(80)]
    fn push_remaining_tokens_b(&self, flags: &mut Vec<String>)
        ensures
            views_of(final(flags)@) == views_of(old(flags)@) + remaining_tokens_b(*self),
    {
        push_scalar(flags, "--file-prefix", &self.file_prefix);
        push_scalar(flags, "--file-prefix-manifest", &self.file_prefix_manifest);
        push_scalar(flags, "--file-prefix-archive", &self.file_prefix_archive);
        push_scalar(flags, "--file-prefix-signature", &self.file_prefix_signature);
        push_scalar(flags, "--full-if-older-than", &self.full_if_older_than);
        push_bool(flags, "--ftp-passive", self.ftp_passive);
        push_bool(flags, "--ftp-regular", self.ftp_regular);
        push_bool(flags, "--gio", self.gio);
        proof {
            assert(views_of(flags@) =~= views_of(old(flags)@) + remaining_tokens_b(*self));
        }
    }

    #[verifier::rlimit(80)]
    fn push_remaining_tokens_c(&self, flags: &mut Vec<String>)
        ensures
            views_of(final(flags)@) == views_of(old(flags)@) + remaining_tokens_c(*self),
    {
        push_scalar(flags, "--hidden-encrypt-key", &self.hidden_encrypt_key);
        push_scalar(flags, "--imap-full-address", &self.imap_full_address);
        push_scalar(flags, "--imap-mailbox", &self.imap_mailbox);
        push_scalar(flags, "--gpg-binary", &self.gpg_binary);
        push_scalar(flags, "--gpg-options", &self.gpg_options);
        push_scalar(flags, "--log-file", &self.log_file);
        push_count(flags, "--max-blocksize", &self.max_blocksize);
        push_scalar(flags, "--name", &self.name);
        proof {
            assert(views_of(flags@) =~= views_of(old(flags)@) + remaining_tokens_c(*self));
        }
    }

    fn push_remaining_tokens_d(&self, flags: &mut Vec<String>)
        ensures
            views_of(final(flags)@) == views_of(old(flags)@) + remaining_tokens_d(*self),
    {
        let ghost pre = views_of(flags@);
        push_bool(flags, "--no-compression", self.no_compression);
        let ghost acc = bool_tokens("--no-compression"@, self.no_compression);
        push_bool(flags, "--no-encryption", self.no_encryption);
        proof {
            lemma_extend_assoc(pre, acc, bool_tokens("--no-encryption"@, self.no_encryption));
        }
        let ghost acc = acc + bool_tokens("--no-encryption"@, self.no_encryption);
        push_bool(flags, "--no-print-statistics", self.no_print_statistics);
        proof {
            lemma_extend_assoc(
                pre,
                acc,
                bool_tokens("--no-print-statistics"@, self.no_print_statistics),
            );
        }
        let ghost acc = acc + bool_tokens("--no-print-statistics"@, self.no_print_statistics);
        push_bool(flags, "--null-separator", self.null_separator);
        proof {
            lemma_extend_assoc(pre, acc, bool_tokens("--null-separator"@, self.null_separator));
        }
        let ghost acc = acc + bool_tokens("--null-separator"@, self.null_separator);
        push_bool(flags, "--numeric-owner", self.numeric_owner);
        proof {
            lemma_extend_assoc(pre, acc, bool_tokens("--numeric-owner"@, self.numeric_owner));
        }
        let ghost acc = acc + bool_tokens("--numeric-owner"@, self.numeric_owner);
        push_count(flags, "--num-retries", &self.num_retries);
        proof {
            lemma_extend_assoc(pre, acc, count_tokens("--num-retries"@, self.num_retries));
        }
        let ghost acc = acc + count_tokens("--num-retries"@, self.num_retries);
        push_bool(flags, "--old-filenames", self.old_filenames);
        proof {
            lemma_extend_assoc(pre, acc, bool_tokens("--old-filenames"@, self.old_filenames));
        }
        let ghost acc = acc + bool_tokens("--old-filenames"@, self.old_filenames);
        push_scalar(flags, "--par2-options", &self.par2_options);
        proof {
            lemma_extend_assoc(pre, acc, scalar_tokens("--par2-options"@, opt_view(self.par2_options)));
        }
        let ghost acc = acc + scalar_tokens("--par2-options"@, opt_view(self.par2_options));
        push_count(flags, "--par2-redundancy", &self.par2_redundancy);
        proof {
            lemma_extend_assoc(pre, acc, count_tokens("--par2-redundancy"@, self.par2_redundancy));
            assert(acc + count_tokens("--par2-redundancy"@, self.par2_redundancy)
                == remaining_tokens_d(*self));
        }
    }

    #[verifier::rlimit(80)]
    fn push_remaining_tokens_e(&self, flags: &mut Vec<String>)
        ensures
            views_of(final(flags)@) == views_of(old(flags)@) + remaining_tokens_e(*self),
    {
        push_bool(flags, "--progress", self.progress);
        push_count(flags, "--progress-rate", &self.progress_rate);
        push_pairs(flags, "--rename", &self.rename);
        push_scalar(flags, "--rsync-options", &self.rsync_options);
        push_bool(flags, "--short-filenames", self.short_filenames);
        push_scalar(flags, "--sign-key", &self.sign_key);
        push_bool(flags, "--ssh-askpass", self.ssh_askpass);
        push_scalar(flags, "--ssh-options", &self.ssh_options);
        proof {
            assert(views_of(flags@) =~= views_of(old(flags)@) + remaining_tokens_e(*self));
        }
    }

    #[verifier::rlimit(80)]
    fn push_remaining_tokens_f(&self, flags: &mut Vec<String>)
        ensures
            views_of(final(flags)@) == views_of(old(flags)@) + remaining_tokens_f(*self),
    {
        push_scalar(flags, "--tempdir", &self.tempdir);
        push_sep(flags, "--time-separator", &self.time_separator);
        push_count(flags, "--timeout", &self.timeout);
        push_bool(flags, "--use-agent", self.use_agent);
        push_count(flags, "--volsize", &self.volsize);
        proof {
            assert(views_of(flags@) =~= views_of(old(flags)@) + remaining_tokens_f(*self));
        }
    }

    /// Derive the full ordered command-line token list for this
    /// repository's options, excluding the positional source and remote
    /// arguments and any global flags.
    pub fn construct_flags(&self) -> (flags: Vec<String>)
        ensures
            views_of(flags@) == flag_tokens(*self),
    {
        let mut flags: Vec<String> = Vec::new();
        proof {
            assert(views_of(flags@) =~= Seq::<Seq<char>>::empty());
        }
        self.push_inclusion_tokens(&mut flags);
        self.push_exclusion_tokens(&mut flags);
        self.push_remaining_tokens_a(&mut flags);
        self.push_remaining_tokens_b(&mut flags);
        self.push_remaining_tokens_c(&mut flags);
        self.push_remaining_tokens_d(&mut flags);
        self.push_remaining_tokens_e(&mut flags);
        self.push_remaining_tokens_f(&mut flags);
        proof {
            assert(views_of(flags@) =~= flag_tokens(*self));
        }
        flags
    }
}

} // verus!
