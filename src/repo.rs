//! Git repository resources: the users, repositories and access grants a
//! repository controller serves, and the status it records of a repository.

use vstd::prelude::*;

use crate::manifest::{trim_text, trimmed};
use crate::status::text_opt;

verus! {

/// A git user and the public keys it authenticates with.
pub struct GitUserSpec {
    pub public_keys: Vec<String>,
}

/// A repository: its name, its owner, and an optional visibility.
pub struct GitRepositorySpec {
    pub repo_name: String,
    pub owner: String,
    pub visibility: Option<String>,
}

/// What the controller last recorded of a repository.
pub struct GitRepositoryStatus {
    pub message: Option<String>,
    pub observed_generation: Option<i64>,
    pub ready: bool,
    pub latest_commit: Option<String>,
    pub last_updated: Option<String>,
}

/// A grant of permissions (for example "read", "write") on a repository to a
/// user.
pub struct GitAccessSpec {
    pub repo: String,
    pub user: String,
    pub permissions: Vec<String>,
}

/// Where a repository's bare git directory lives under `base`.
pub fn repository_path(base: &str, name: &str) -> (r: String)
    ensures
        r@ == base@ + "/"@ + name@ + ".git"@,
{
    let mut r = base.to_owned();
    r.append("/");
    r.append(name);
    r.append(".git");
    r
}

/// The status of a ready repository at the given generation: `head` is what
/// `rev-parse HEAD` printed where it succeeded, and the latest commit is
/// that text without surrounding white space.
pub fn repository_status(generation: Option<i64>, head: Option<String>, now: String) -> (r:
    GitRepositoryStatus)
    ensures
        text_opt(r.message) == Some("Ready"@),
        r.observed_generation == generation,
        r.ready,
        text_opt(r.latest_commit) == match head {
            Some(h) => Some(trimmed(h@, 0, h@.len() as int)),
            None => None,
        },
        text_opt(r.last_updated) == Some(now@),
{
    let latest_commit = match &head {
        Some(h) => Some(trim_text(h.as_str())),
        None => None,
    };
    GitRepositoryStatus {
        message: Some("Ready".to_owned()),
        observed_generation: generation,
        ready: true,
        latest_commit,
        last_updated: Some(now),
    }
}

} // verus!
