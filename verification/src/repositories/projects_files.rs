//! The project-files repository interface, and the meaning of the result
//! codes of the file procedures.

use vstd::prelude::*;

use crate::models::ProjectFile;

verus! {

/// Why creating a file failed.
#[derive(Clone, Copy, PartialEq, Eq, Structural, Debug)]
pub enum ProjectFileCreationError {
    IllegalName,
    DuplicateNames,
}

/// Why updating a file failed.
#[derive(Clone, Copy, PartialEq, Eq, Structural, Debug)]
pub enum ProjectFileUpdateError {
    IllegalName,
    DuplicateNames,
    FileDoesNotExist,
}

/// The persistence operations on one project's files. Implemented outside
/// the library by the database-backed repository; each implementation is
/// bound to a single project.
pub trait IProjectsFilesRepository {
    fn create(&self, file: ProjectFile) -> Result<ProjectFile, ProjectFileCreationError>;

    fn update(&self, file: &ProjectFile) -> Result<(), ProjectFileUpdateError>;

    /// Removes the file; reports whether it existed in the project.
    fn delete(&self, file: ProjectFile) -> bool;

    fn get(&self, file_id: i32) -> Option<ProjectFile>;

    fn get_all(&self) -> Vec<ProjectFile>;
}

/// Interprets the file-creating procedure's result code: `-1` an illegal
/// name, `-2` a name already in use, any other code the identifier the
/// new file was stored under.
pub fn file_creation_outcome(file: ProjectFile, result_code: i32) -> (r: Result<
    ProjectFile,
    ProjectFileCreationError,
>)
    ensures
        result_code == -1 ==> r == Err::<ProjectFile, ProjectFileCreationError>(
            ProjectFileCreationError::IllegalName,
        ),
        result_code == -2 ==> r == Err::<ProjectFile, ProjectFileCreationError>(
            ProjectFileCreationError::DuplicateNames,
        ),
        result_code != -1 && result_code != -2 ==> r is Ok && r->Ok_0.id == Some(result_code)
            && r->Ok_0.name == file.name && r->Ok_0.project_id == file.project_id,
{
    if result_code == -1 {
        Err(ProjectFileCreationError::IllegalName)
    } else if result_code == -2 {
        Err(ProjectFileCreationError::DuplicateNames)
    } else {
        let mut f = file;
        f.id = Some(result_code);
        Ok(f)
    }
}

/// Interprets the file-updating procedure's result code: `-1` an illegal
/// name, `-2` no such file, `-3` a name already in use, any other code
/// success.
pub fn file_update_outcome(result_code: i32) -> (r: Result<(), ProjectFileUpdateError>)
    ensures
        result_code == -1 ==> r == Err::<(), ProjectFileUpdateError>(
            ProjectFileUpdateError::IllegalName,
        ),
        result_code == -2 ==> r == Err::<(), ProjectFileUpdateError>(
            ProjectFileUpdateError::FileDoesNotExist,
        ),
        result_code == -3 ==> r == Err::<(), ProjectFileUpdateError>(
            ProjectFileUpdateError::DuplicateNames,
        ),
        result_code != -1 && result_code != -2 && result_code != -3 ==> r is Ok,
{
    if result_code == -1 {
        Err(ProjectFileUpdateError::IllegalName)
    } else if result_code == -2 {
        Err(ProjectFileUpdateError::FileDoesNotExist)
    } else if result_code == -3 {
        Err(ProjectFileUpdateError::DuplicateNames)
    } else {
        Ok(())
    }
}

} // verus!
