//! The projects repository interface, and the meaning of the result codes
//! of the access-management procedures.

use vstd::prelude::*;

use crate::models::{Project, User};
use crate::repositories::DatabaseError;

verus! {

/// Why an access-management operation failed.
#[derive(Clone, Copy, PartialEq, Eq, Structural, Debug)]
pub enum AccessManagementError {
    UserIsOwner,
    UserDoesNotExists,
}

/// Why saving a project failed.
#[derive(Clone, Copy, PartialEq, Eq, Structural, Debug)]
pub enum ProjectsUpdateError {
    ProjectWithSameNameExists,
    IllegalName,
    ProjectDoesNotExist,
    DatabaseError,
}

/// The persistence operations on projects. Implemented outside the
/// library by the database-backed repository; the services are verified
/// for every result an implementation may return.
pub trait IProjectsRepository {
    fn create(&self, project: Project) -> Result<Project, ProjectsUpdateError>;

    fn update(&self, project: Project) -> Result<Project, ProjectsUpdateError>;

    fn get(&self, id: i32) -> Option<Project>;

    fn get_all_shared_to(&self, user: &User) -> Vec<Project>;

    fn get_all_owned_by(&self, user: &User) -> Vec<Project>;

    fn has_access(&self, project: &Project, user: &User) -> bool;

    fn grant_access(&self, project: &Project, user: &User) -> Result<(), AccessManagementError>;

    fn revoke_access(&self, project: &Project, user: &User) -> Result<(), AccessManagementError>;
}

/// The text for a result code of the access-granting procedure.
pub fn get_grant_access_to_project_message_from_code(error_code: i32) -> (m: String)
    ensures
        error_code == -1 ==> m@ == "Project does not exist"@,
        error_code != -1 ==> m@ == "Unknown error"@,
{
    if error_code == -1 {
        String::from_str("Project does not exist")
    } else {
        String::from_str("Unknown error")
    }
}

/// The text for a result code of the access-revoking procedure.
pub fn get_revoke_access_message_from_code(error_code: i32) -> (m: String)
    ensures
        error_code == -1 ==> m@ == "This user is project owner"@,
        error_code != -1 ==> m@ == "Unknown error"@,
{
    if error_code == -1 {
        String::from_str("This user is project owner")
    } else {
        String::from_str("Unknown error")
    }
}

/// Interprets the access-granting procedure's outcome: the code it
/// returned, or `None` when the query itself failed. A negative code is a
/// failure carrying its text; any other code is success.
pub fn grant_access(result_code: Option<i32>) -> (r: Result<(), DatabaseError>)
    ensures
        match result_code {
            Some(code) => {
                if code < 0 {
                    r is Err && r->Err_0.error_code == code && r->Err_0.message@ == (if code == -1 {
                        "Project does not exist"@
                    } else {
                        "Unknown error"@
                    })
                } else {
                    r is Ok
                }
            },
            None => r is Err && r->Err_0.error_code == -2 && r->Err_0.message@
                == "Unknown error"@,
        },
{
    match result_code {
        Some(code) => {
            if code < 0 {
                Err(
                    DatabaseError {
                        error_code: code,
                        message: get_grant_access_to_project_message_from_code(code),
                    },
                )
            } else {
                Ok(())
            }
        },
        None => Err(
            DatabaseError { error_code: -2, message: String::from_str("Unknown error") },
        ),
    }
}

/// Interprets the access-revoking procedure's outcome, in the same shape
/// as `grant_access`.
pub fn revoke_access(result_code: Option<i32>) -> (r: Result<(), DatabaseError>)
    ensures
        match result_code {
            Some(code) => {
                if code < 0 {
                    r is Err && r->Err_0.error_code == code && r->Err_0.message@ == (if code == -1 {
                        "This user is project owner"@
                    } else {
                        "Unknown error"@
                    })
                } else {
                    r is Ok
                }
            },
            None => r is Err && r->Err_0.error_code == -2 && r->Err_0.message@
                == "Database error"@,
        },
{
    match result_code {
        Some(code) => {
            if code < 0 {
                Err(
                    DatabaseError {
                        error_code: code,
                        message: get_revoke_access_message_from_code(code),
                    },
                )
            } else {
                Ok(())
            }
        },
        None => Err(
            DatabaseError { error_code: -2, message: String::from_str("Database error") },
        ),
    }
}

} // verus!
