//! Status tracking for a fixed list of local git repositories: the parsing of
//! `git status` output into a branch and a change count, the assembly of one
//! status row per configured repository, configuration checks, and the plan for
//! starting an interactive git client in a repository.

pub mod status;
pub mod refresh;
pub mod config;
pub mod launch;
pub mod message;
