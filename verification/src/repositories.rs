//! The persistence interfaces the services call, and the interpretation
//! of the result codes their stored procedures return. The queries
//! themselves run outside the library; the functions here work on the
//! plain values they produce.

pub mod file_content_repository;
pub mod projects;
pub mod projects_files;

use vstd::prelude::*;

verus! {

/// A failure reported by the persistence layer: its code and its text.
#[derive(Debug)]
pub struct DatabaseError {
    pub error_code: i32,
    pub message: String,
}

} // verus!
