//! Run a command over and over until it exits successfully.
//!
//! The library holds the verified heart of that utility: the parsed
//! configuration and its invariants, the command-line grammar, the mapping
//! from verbosity to the child's stream policy, and the decision logic of
//! the retry loop. Spawning processes, sleeping and printing are left to
//! the thin program around it.

pub mod duration;
pub mod opts;
pub mod policy;
pub mod supervisor;
