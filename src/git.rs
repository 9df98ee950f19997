//! The version-control commands that the library asks its caller to run.
//!
//! Each command is the argument list of one `git` invocation; the caller runs
//! it and hands back its standard output, or its error text when it exits
//! with a failure.

use vstd::prelude::*;
use vstd::string::*;
use crate::text::{texts, trim_text, trimmed};

verus! {

/// One invocation of `git`, as its arguments.
pub struct GitCommand {
    pub args: Vec<String>,
}

impl View for GitCommand {
    type V = Seq<Seq<char>>;

    open spec fn view(&self) -> Seq<Seq<char>> {
        texts(self.args@)
    }
}

/// `git cherry-pick <hash>`.
pub open spec fn cherry_pick_args(hash: Seq<char>) -> Seq<Seq<char>> {
    seq!["cherry-pick"@, hash]
}

/// `git cherry-pick --abort`.
pub open spec fn cherry_pick_abort_args() -> Seq<Seq<char>> {
    seq!["cherry-pick"@, "--abort"@]
}

/// `git reset --hard <hash>`.
pub open spec fn reset_hard_args(hash: Seq<char>) -> Seq<Seq<char>> {
    seq!["reset"@, "--hard"@, hash]
}

/// `git rev-parse --abbrev-ref HEAD`: the name of the checked-out branch.
pub open spec fn current_branch_args() -> Seq<Seq<char>> {
    seq!["rev-parse"@, "--abbrev-ref"@, "HEAD"@]
}

/// `git log -1 --pretty=%h`: the short hash of HEAD.
pub open spec fn head_hash_args() -> Seq<Seq<char>> {
    seq!["log"@, "-1"@, "--pretty=%h"@]
}

/// `git log --format=%h%s --abbrev=7 <branch>`: one `<hash><subject>` line per commit.
pub open spec fn branch_log_args(branch: Seq<char>) -> Seq<Seq<char>> {
    seq!["log"@, "--format=%h%s"@, "--abbrev=7"@, branch]
}

/// `git --version`.
pub open spec fn version_args() -> Seq<Seq<char>> {
    seq!["--version"@]
}

/// `git status`.
pub open spec fn status_args() -> Seq<Seq<char>> {
    seq!["status"@]
}

/// `git fetch --all --prune --tags`.
pub open spec fn fetch_all_args() -> Seq<Seq<char>> {
    seq!["fetch"@, "--all"@, "--prune"@, "--tags"@]
}

/// `git checkout <branch>`.
pub open spec fn checkout_args(branch: Seq<char>) -> Seq<Seq<char>> {
    seq!["checkout"@, branch]
}

/// `git pull`.
pub open spec fn pull_args() -> Seq<Seq<char>> {
    seq!["pull"@]
}

/// The commands of the version-control tool that this library uses.
pub struct Git {}

impl Git {
    pub fn fetch_all() -> (r: GitCommand)
        ensures
            r@ == fetch_all_args(),
    {
        let args = vec![
            String::from_str("fetch"),
            String::from_str("--all"),
            String::from_str("--prune"),
            String::from_str("--tags"),
        ];
        proof {
            assert(texts(args@) =~= fetch_all_args());
        }
        GitCommand { args }
    }

    pub fn validate_git_installed() -> (r: GitCommand)
        ensures
            r@ == version_args(),
    {
        let args = vec![String::from_str("--version")];
        proof {
            assert(texts(args@) =~= version_args());
        }
        GitCommand { args }
    }

    pub fn validate_git_repo() -> (r: GitCommand)
        ensures
            r@ == status_args(),
    {
        let args = vec![String::from_str("status")];
        proof {
            assert(texts(args@) =~= status_args());
        }
        GitCommand { args }
    }

    pub fn checkout_branch(branch: &str) -> (r: GitCommand)
        ensures
            r@ == checkout_args(branch@),
    {
        let args = vec![String::from_str("checkout"), String::from_str(branch)];
        proof {
            assert(texts(args@) =~= checkout_args(branch@));
        }
        GitCommand { args }
    }

    pub fn pull_branch() -> (r: GitCommand)
        ensures
            r@ == pull_args(),
    {
        let args = vec![String::from_str("pull")];
        proof {
            assert(texts(args@) =~= pull_args());
        }
        GitCommand { args }
    }

    pub fn get_current_branch() -> (r: GitCommand)
        ensures
            r@ == current_branch_args(),
    {
        let args = vec![
            String::from_str("rev-parse"),
            String::from_str("--abbrev-ref"),
            String::from_str("HEAD"),
        ];
        proof {
            assert(texts(args@) =~= current_branch_args());
        }
        GitCommand { args }
    }

    /// The branch name in the output of `get_current_branch`.
    pub fn branch_from_output(stdout: &str) -> (r: String)
        ensures
            r@ == trimmed(stdout@),
    {
        trim_text(stdout)
    }

    pub fn get_last_commit_hash() -> (r: GitCommand)
        ensures
            r@ == head_hash_args(),
    {
        let args = vec![
            String::from_str("log"),
            String::from_str("-1"),
            String::from_str("--pretty=%h"),
        ];
        proof {
            assert(texts(args@) =~= head_hash_args());
        }
        GitCommand { args }
    }

    pub fn get_commits_info(branch: &str) -> (r: GitCommand)
        ensures
            r@ == branch_log_args(branch@),
    {
        let args = vec![
            String::from_str("log"),
            String::from_str("--format=%h%s"),
            String::from_str("--abbrev=7"),
            String::from_str(branch),
        ];
        proof {
            assert(texts(args@) =~= branch_log_args(branch@));
        }
        GitCommand { args }
    }

    pub fn cherry_pick(hash: &String) -> (r: GitCommand)
        ensures
            r@ == cherry_pick_args(hash@),
    {
        let args = vec![String::from_str("cherry-pick"), hash.clone()];
        proof {
            assert(texts(args@) =~= cherry_pick_args(hash@));
        }
        GitCommand { args }
    }

    pub fn cherry_pick_abort() -> (r: GitCommand)
        ensures
            r@ == cherry_pick_abort_args(),
    {
        let args = vec![String::from_str("cherry-pick"), String::from_str("--abort")];
        proof {
            assert(texts(args@) =~= cherry_pick_abort_args());
        }
        GitCommand { args }
    }

    pub fn reset_hard(hash: &String) -> (r: GitCommand)
        ensures
            r@ == reset_hard_args(hash@),
    {
        let args = vec![String::from_str("reset"), String::from_str("--hard"), hash.clone()];
        proof {
            assert(texts(args@) =~= reset_hard_args(hash@));
        }
        GitCommand { args }
    }
}

/// The commands that refresh local branches, to run in order, stopping at the
/// first that fails: check the tool and the repository, fetch everything, then
/// check out and pull each branch in turn.
pub fn command_update(branches: Vec<String>) -> (r: Vec<GitCommand>)
    ensures
        r@.len() == 3 + 2 * branches@.len(),
        r@[0]@ == version_args(),
        r@[1]@ == status_args(),
        r@[2]@ == fetch_all_args(),
        forall|i: int| 0 <= i < branches@.len() ==> {
            &&& (#[trigger] r@[3 + 2 * i])@ == checkout_args(branches@[i]@)
            &&& r@[4 + 2 * i]@ == pull_args()
        },
{
    let mut plan: Vec<GitCommand> = Vec::new();
    plan.push(Git::validate_git_installed());
    plan.push(Git::validate_git_repo());
    plan.push(Git::fetch_all());
    let mut i: usize = 0;
    while i < branches.len()
        invariant
            i <= branches@.len(),
            plan@.len() == 3 + 2 * i,
            plan@[0]@ == version_args(),
            plan@[1]@ == status_args(),
            plan@[2]@ == fetch_all_args(),
            forall|j: int| 0 <= j < i ==> {
                &&& (#[trigger] plan@[3 + 2 * j])@ == checkout_args(branches@[j]@)
                &&& plan@[4 + 2 * j]@ == pull_args()
            },
        decreases branches.len() - i,
    {
        plan.push(Git::checkout_branch(branches[i].as_str()));
        plan.push(Git::pull_branch());
        i = i + 1;
    }
    plan
}

} // verus!
