//! Discovery of configuration files at machine, user and project scope.
//!
//! Every operation is a function of its arguments and of a [`snapshot::Snapshot`],
//! a record of what has been observed of the file system. Nothing here touches
//! the disk: the caller observes paths, records what it saw, and asks again.

pub mod file_ops;
pub mod listing;
pub mod listing_laws;
pub mod names;
pub mod ordering;
pub mod overrides;
pub mod overrides_laws;
pub mod path_info;
pub mod paths;
pub mod platform;
pub mod project;
pub mod project_laws;
pub mod settled;
pub mod snapshot;
pub mod well_known;
