//! Tools for managing testing of multiple versions of rust crates
//! against multiple rusts: a sharded directory layout for per-crate
//! build-result and version metadata, and a memoizing cache over
//! repeated per-crate lookups.

pub mod config;
pub mod crate_dir;
pub mod entry;
pub mod levels;
pub mod pages;
pub mod paths;
pub mod result_list;
pub mod stats_repo;
pub mod stats_repo_cache;
pub mod stream;
pub mod strutil;
pub mod version_list;
pub mod walk;

pub use config::{Config, StatsRepoConfig, TargetsConfig};
pub use crate_dir::{CrateDir, CrateDirError};
pub use entry::{EntryName, IoErrorKind};
pub use paths::RepoPath;
pub use result_list::{ResultInfo, ResultList, ResultType, ResultsError};
pub use stats_repo::{StatsRepo, StatsRepoError};
pub use stats_repo_cache::{StatsRepoCache, StatsRepoCacheError};
pub use version_list::{VersionInfo, VersionList, VersionsError};
