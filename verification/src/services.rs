//! The services around the persistence layer: access decisions and error
//! mapping on behalf of one acting user.

pub mod projects;
pub mod projects_files;
