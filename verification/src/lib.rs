use vstd::prelude::*;

pub mod acquire;
pub mod arg_utils;
pub mod dependency;
pub mod derpyfile;
pub mod error;
pub mod expand;
pub mod log;
pub mod runner;
pub mod strmap;
pub mod text;
pub mod vcs;

verus! {

/// A single command line handed to a version-control backend:
/// an ordered sequence of string tokens.
pub type VcsCommand = Vec<String>;

/// An ordered list of commands, run in sequence.
pub type VcsCommandList = Vec<VcsCommand>;

} // verus!
