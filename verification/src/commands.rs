//! The exact argument vectors of every external command the pipeline
//! invokes: the container runtime's precondition queries, the
//! version-control sub-steps of the sparse fetch, and the detached
//! service startup.

use vstd::prelude::*;
use vstd::string::StringExecFns;

verus! {

/// Arguments of the runtime version query.
pub open spec fn runtime_version_args() -> Seq<Seq<char>> {
    seq!["--version"@]
}

/// Arguments of the runtime daemon-status query.
pub open spec fn runtime_daemon_args() -> Seq<Seq<char>> {
    seq!["info"@]
}

/// Arguments that initialize an empty repository.
pub open spec fn git_init_args() -> Seq<Seq<char>> {
    seq!["init"@]
}

/// Arguments that register `url` as the single remote named "origin".
pub open spec fn git_remote_add_args(url: Seq<char>) -> Seq<Seq<char>> {
    seq!["remote"@, "add"@, "origin"@, url]
}

/// Arguments that enable sparse-checkout mode.
pub open spec fn git_sparse_config_args() -> Seq<Seq<char>> {
    seq!["config"@, "core.sparseCheckout"@, "true"@]
}

/// Arguments that fetch and check out `branch` from "origin".
pub open spec fn git_pull_args(branch: Seq<char>) -> Seq<Seq<char>> {
    seq!["pull"@, "origin"@, branch]
}

/// Arguments that bring up the service definition `file` detached.
pub open spec fn compose_up_args(file: Seq<char>) -> Seq<Seq<char>> {
    seq!["compose"@, "-f"@, file, "up"@, "-d"@]
}

/// Builds the runtime version query argument vector.
pub fn build_runtime_version_args() -> (r: Vec<String>)
    ensures
        r.deep_view() == runtime_version_args(),
{
    let mut v: Vec<String> = Vec::new();
    v.push(String::from_str("--version"));
    proof {
        assert(v.deep_view() =~~= runtime_version_args());
    }
    v
}

/// Builds the runtime daemon-status query argument vector.
pub fn build_runtime_daemon_args() -> (r: Vec<String>)
    ensures
        r.deep_view() == runtime_daemon_args(),
{
    let mut v: Vec<String> = Vec::new();
    v.push(String::from_str("info"));
    proof {
        assert(v.deep_view() =~~= runtime_daemon_args());
    }
    v
}

/// Builds the repository initialization argument vector.
pub fn build_git_init_args() -> (r: Vec<String>)
    ensures
        r.deep_view() == git_init_args(),
{
    let mut v: Vec<String> = Vec::new();
    v.push(String::from_str("init"));
    proof {
        assert(v.deep_view() =~~= git_init_args());
    }
    v
}

/// Builds the remote registration argument vector.
pub fn build_git_remote_add_args(url: &str) -> (r: Vec<String>)
    ensures
        r.deep_view() == git_remote_add_args(url@),
{
    let mut v: Vec<String> = Vec::new();
    v.push(String::from_str("remote"));
    v.push(String::from_str("add"));
    v.push(String::from_str("origin"));
    v.push(String::from_str(url));
    proof {
        assert(v.deep_view() =~~= git_remote_add_args(url@));
    }
    v
}

/// Builds the sparse-checkout enabling argument vector.
pub fn build_git_sparse_config_args() -> (r: Vec<String>)
    ensures
        r.deep_view() == git_sparse_config_args(),
{
    let mut v: Vec<String> = Vec::new();
    v.push(String::from_str("config"));
    v.push(String::from_str("core.sparseCheckout"));
    v.push(String::from_str("true"));
    proof {
        assert(v.deep_view() =~~= git_sparse_config_args());
    }
    v
}

/// Builds the pull argument vector for `branch`.
pub fn build_git_pull_args(branch: &str) -> (r: Vec<String>)
    ensures
        r.deep_view() == git_pull_args(branch@),
{
    let mut v: Vec<String> = Vec::new();
    v.push(String::from_str("pull"));
    v.push(String::from_str("origin"));
    v.push(String::from_str(branch));
    proof {
        assert(v.deep_view() =~~= git_pull_args(branch@));
    }
    v
}

/// Builds the detached service startup argument vector for `file`.
pub fn build_compose_up_args(file: &str) -> (r: Vec<String>)
    ensures
        r.deep_view() == compose_up_args(file@),
{
    let mut v: Vec<String> = Vec::new();
    v.push(String::from_str("compose"));
    v.push(String::from_str("-f"));
    v.push(String::from_str(file));
    v.push(String::from_str("up"));
    v.push(String::from_str("-d"));
    proof {
        assert(v.deep_view() =~~= compose_up_args(file@));
    }
    v
}

} // verus!
