//! The discovery, dispatch and aggregation core of a batch source formatter.
//!
//! A run walks a set of roots, turns every surviving entry into a formatting
//! job, and folds the jobs' outcomes into one exit status. The traversal, the
//! formatting engine, the diff renderer and all reading and writing are
//! performed by the caller; every decision between those steps is taken here.

pub mod entry;
pub mod filter;
pub mod guarantees;
pub mod job;
pub mod options;
pub mod overrides;
pub mod run;
pub mod text;
