//! Decoded configuration: the repository root and the optional list
//! of rust targets.
//!
//! The configuration file itself is TOML; decoding it is embedding
//! code's concern, which hands the decoded values in here.

use crate::paths::RepoPath;
use vstd::prelude::*;

verus! {

/// The repository part of the configuration.
#[derive(Debug)]
pub struct StatsRepoConfig {
    /// The root of the sharded directory tree.
    pub root: RepoPath,
}

/// The targets part of the configuration.
#[derive(Debug)]
pub struct TargetsConfig {
    /// The rust versions to report on, if configured.
    pub rustc: Option<Vec<String>>,
}

/// The decoded configuration.
#[derive(Debug)]
pub struct Config {
    /// The repository settings.
    pub stats_repo: StatsRepoConfig,
    /// The target settings, if the section is present.
    pub targets: Option<TargetsConfig>,
}

impl Config {
    /// The configured repository root.
    pub fn root(&self) -> (r: &RepoPath)
        ensures
            r@ == self.stats_repo.root@,
    {
        &self.stats_repo.root
    }

    /// The configured list of rust targets, if any: the `rustc` list
    /// of the `targets` section when both are present.
    pub fn rustc(&self) -> (r: Option<&Vec<String>>)
        ensures
            match self.targets {
                Some(t) => match t.rustc {
                    Some(v) => r matches Some(rv) && rv@ == v@,
                    None => r is None,
                },
                None => r is None,
            },
    {
        match &self.targets {
            Some(t) => match &t.rustc {
                Some(v) => Some(v),
                None => None,
            },
            None => None,
        }
    }
}

} // verus!
