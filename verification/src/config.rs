//! The configuration store: an ordered mapping from repository name to
//! repository, with cross-repository validation.

use vstd::prelude::*;
use vstd::string::StringExecFns;

use crate::error::Error;
use crate::repository::{Repository, check_error};

verus! {

/// All configured repositories, each under its unique name.
///
/// The store is built once from external input, validated with
/// [`Config::check`], and read-only afterwards.  Entries keep the order
/// in which they were handed over; a lookup returns the first entry with
/// a matching name.
pub struct Config {
    pub repositories: Vec<(String, Repository)>,
}

/// The repository stored under `name`, if any: the first entry whose
/// name matches.
pub open spec fn spec_lookup(repos: Seq<(String, Repository)>, name: Seq<char>) -> Option<
    Repository,
>
    decreases repos.len(),
{
    if repos.len() == 0 {
        None
    } else if repos[0].0@ == name {
        Some(repos[0].1)
    } else {
        spec_lookup(repos.drop_first(), name)
    }
}

/// The message reported when repository `name` fails its own check with
/// message `inner`.
pub open spec fn invalid_repository_message(name: Seq<char>, inner: Seq<char>) -> Seq<char> {
    "Error in repository "@ + name + ": "@ + inner
}

/// The message reported when `parent` lists `child` but `child` is not in
/// the store.
pub open spec fn missing_sub_repository_message(parent: Seq<char>, child: Seq<char>) -> Seq<char> {
    "Repository "@ + parent + " lists "@ + child
        + " as a sub-repository, but it could not be located within config file."@
}

/// The first listed sub-repository name that does not resolve in the
/// store, if any.
pub open spec fn first_missing_sub(repos: Seq<(String, Repository)>, subs: Seq<String>) -> Option<
    Seq<char>,
>
    decreases subs.len(),
{
    if subs.len() == 0 {
        None
    } else if spec_lookup(repos, subs[0]@) is None {
        Some(subs[0]@)
    } else {
        first_missing_sub(repos, subs.drop_first())
    }
}

/// The verdict of the store scan from entry `i` on: `None` when every
/// remaining repository is valid and fully resolved, otherwise the first
/// error message.
pub open spec fn store_error_from(repos: Seq<(String, Repository)>, i: int) -> Option<Seq<char>>
    decreases repos.len() - i,
{
    if i < 0 || i >= repos.len() {
        None
    } else {
        let name = repos[i].0;
        let rep = repos[i].1;
        if check_error(rep) is Some {
            Some(invalid_repository_message(name@, check_error(rep).unwrap()))
        } else if first_missing_sub(repos, rep.sub_repositories@) is Some {
            Some(
                missing_sub_repository_message(
                    name@,
                    first_missing_sub(repos, rep.sub_repositories@).unwrap(),
                ),
            )
        } else {
            store_error_from(repos, i + 1)
        }
    }
}

/// The verdict of [`Config::check`]: `None` exactly when the whole store
/// is valid.
pub open spec fn store_error(repos: Seq<(String, Repository)>) -> Option<Seq<char>> {
    store_error_from(repos, 0)
}

/// Every sub-repository of a list resolves exactly when no first missing
/// one exists.
pub proof fn lemma_first_missing_sub_none(repos: Seq<(String, Repository)>, subs: Seq<String>)
    ensures
        first_missing_sub(repos, subs) is None <==> (forall|j: int|
            0 <= j < subs.len() ==> #[trigger] spec_lookup(repos, subs[j]@) is Some),
    decreases subs.len(),
{
    if subs.len() > 0 {
        lemma_first_missing_sub_none(repos, subs.drop_first());
        assert(forall|j: int|
            1 <= j < subs.len() ==> subs.drop_first()[j - 1] == #[trigger] subs[j]);
    }
}

proof fn lemma_store_error_from_none(repos: Seq<(String, Repository)>, i: int)
    requires
        0 <= i <= repos.len(),
    ensures
        store_error_from(repos, i) is None <==> (forall|k: int|
            i <= k < repos.len() ==> check_error(#[trigger] repos[k].1) is None
                && first_missing_sub(repos, repos[k].1.sub_repositories@) is None),
    decreases repos.len() - i,
{
    if i < repos.len() {
        lemma_store_error_from_none(repos, i + 1);
    }
}

/// Cross-validation accepts a store exactly when every repository passes
/// its own check and every name it lists as a sub-repository resolves in
/// the same store.
pub proof fn lemma_store_check_complete(repos: Seq<(String, Repository)>)
    ensures
        store_error(repos) is None <==> (forall|k: int|
            0 <= k < repos.len() ==> check_error(#[trigger] repos[k].1) is None
                && first_missing_sub(repos, repos[k].1.sub_repositories@) is None),
{
    lemma_store_error_from_none(repos, 0);
}

impl Config {
    /// Find the repository stored under `name`.
    pub fn find_repository<'a>(&'a self, name: &str) -> (r: Option<&'a Repository>)
        ensures
            match r {
                Some(rep) => spec_lookup(self.repositories@, name@) == Some(*rep),
                None => spec_lookup(self.repositories@, name@) is None,
            },
    {
        let named: String = name.to_owned();
        proof {
            assert(self.repositories@.skip(0) =~= self.repositories@);
        }
        let mut i: usize = 0;
        while i < self.repositories.len()
            invariant
                i <= self.repositories@.len(),
                named@ == name@,
                spec_lookup(self.repositories@, name@) == spec_lookup(
                    self.repositories@.skip(i as int),
                    name@,
                ),
            decreases self.repositories@.len() - i,
        {
            if self.repositories[i].0 == named {
                proof {
                    assert(self.repositories@.skip(i as int)[0] == self.repositories@[i as int]);
                }
                return Some(&self.repositories[i].1);
            }
            proof {
                assert(self.repositories@.skip(i as int)[0] == self.repositories@[i as int]);
                assert(self.repositories@.skip(i as int).drop_first() =~= self.repositories@.skip(
                    i as int + 1,
                ));
            }
            i = i + 1;
        }
        proof {
            assert(self.repositories@.skip(self.repositories@.len() as int).len() == 0);
        }
        None
    }

    /// Scan a sub-repository list for the first name that does not
    /// resolve in this store.
    fn find_missing_sub<'a>(&self, subs: &'a Vec<String>) -> (r: Option<&'a String>)
        ensures
            match r {
                Some(child) => first_missing_sub(self.repositories@, subs@) == Some(child@),
                None => first_missing_sub(self.repositories@, subs@) is None,
            },
    {
        proof {
            assert(subs@.skip(0) =~= subs@);
        }
        let mut j: usize = 0;
        while j < subs.len()
            invariant
                j <= subs@.len(),
                first_missing_sub(self.repositories@, subs@) == first_missing_sub(
                    self.repositories@,
                    subs@.skip(j as int),
                ),
            decreases subs@.len() - j,
        {
            proof {
                assert(subs@.skip(j as int)[0] == subs@[j as int]);
            }
            if self.find_repository(subs[j].as_str()).is_none() {
                return Some(&subs[j]);
            }
            proof {
                assert(subs@.skip(j as int).drop_first() =~= subs@.skip(j as int + 1));
            }
            j = j + 1;
        }
        None
    }

    /// Check that the whole configuration is sane: every repository must
    /// pass its own check, and every sub-repository listed anywhere must
    /// exist in the store.  The scan stops at the first violation.
    pub fn check(&self) -> (r: Result<(), Error>)
        ensures
            r is Ok <==> store_error(self.repositories@) is None,
            r matches Err(e) ==> e@ == store_error(self.repositories@).unwrap(),
    {
        let mut i: usize = 0;
        while i < self.repositories.len()
            invariant
                i <= self.repositories@.len(),
                store_error(self.repositories@) == store_error_from(self.repositories@, i as int),
            decreases self.repositories@.len() - i,
        {
            let entry = &self.repositories[i];
            match entry.1.check() {
                Err(e) => {
                    let mut msg = "Error in repository ".to_owned();
                    msg.append(entry.0.as_str());
                    msg.append(": ");
                    msg.append(e.description());
                    proof {
                        assert(msg@ == invalid_repository_message(entry.0@, e@));
                    }
                    return Err(Error::new(msg.as_str()));
                },
                Ok(()) => {},
            }
            if entry.1.has_sub_repositories() {
                match self.find_missing_sub(&entry.1.sub_repositories) {
                    Some(child) => {
                        let mut msg = "Repository ".to_owned();
                        msg.append(entry.0.as_str());
                        msg.append(" lists ");
                        msg.append(child.as_str());
                        msg.append(
                            " as a sub-repository, but it could not be located within config file.",
                        );
                        proof {
                            assert(msg@ == missing_sub_repository_message(entry.0@, child@));
                        }
                        return Err(Error::new(msg.as_str()));
                    },
                    None => {},
                }
            }
            i = i + 1;
        }
        Ok(())
    }
}

} // verus!
