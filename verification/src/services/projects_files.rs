//! The file service bound to one user and one project: built only when the
//! user exists and may see the project, and mapping repository failures to
//! service failures.

use vstd::prelude::*;

use crate::models::{Project, ProjectFile, User};
use crate::repositories::projects_files::{
    IProjectsFilesRepository, ProjectFileCreationError, ProjectFileUpdateError,
};
use crate::services::projects::GetError;

verus! {

/// Why updating a file failed.
#[derive(Clone, Copy, PartialEq, Eq, Structural, Debug)]
pub enum UpdateError {
    DuplicateName,
    IllegalName,
    FileDoesNotExists,
}

/// Why creating a file failed.
#[derive(Clone, Copy, PartialEq, Eq, Structural, Debug)]
pub enum CreationError {
    IllegalName,
    DuplicateNames,
}

/// Why deleting a file failed.
#[derive(Clone, Copy, PartialEq, Eq, Structural, Debug)]
pub enum DeletionError {
    FileDoesNotExistInProject,
}

/// Why the service itself could not be built.
#[derive(Clone, Copy, PartialEq, Eq, Structural, Debug)]
pub enum ServiceCreationError {
    UserDoesNotExists,
    ProjectDoesNotExists,
    UserDoesNotHaveAccessToProject,
}

/// The file operations bound to one user and one project. The shapes
/// only; the verified behavior lives on `ProjectsFilesService`.
pub trait IProjectsFilesService {
    fn get(&self, id: i32) -> Option<ProjectFile>;

    fn get_all(&self) -> Vec<ProjectFile>;

    fn update(&self, file: ProjectFile) -> Result<ProjectFile, UpdateError>;

    fn create(&self, file: ProjectFile) -> Result<ProjectFile, CreationError>;

    fn delete(&self, file: ProjectFile) -> Result<(), DeletionError>;
}

/// The file service over any per-project files repository.
pub struct ProjectsFilesService<R: IProjectsFilesRepository> {
    pub project_files_repository: R,
}

/// Builds the file service from what the embedding looked up: the user by
/// identifier, then the project through the acting user's access check.
/// No user, no service; a project the user may not see or that does not
/// exist refuses the service with the matching failure; otherwise the
/// service wraps the given repository.
pub fn new<R: IProjectsFilesRepository>(
    user: Option<User>,
    project: Result<Project, GetError>,
    project_files_repository: R,
) -> (r: Result<ProjectsFilesService<R>, ServiceCreationError>)
    ensures
        user is None ==> r == Err::<ProjectsFilesService<R>, ServiceCreationError>(
            ServiceCreationError::UserDoesNotExists,
        ),
        user is Some && project is Err && project->Err_0 is AccessDenied ==> r == Err::<
            ProjectsFilesService<R>,
            ServiceCreationError,
        >(ServiceCreationError::UserDoesNotHaveAccessToProject),
        user is Some && project is Err && project->Err_0 is DoesNotExist ==> r == Err::<
            ProjectsFilesService<R>,
            ServiceCreationError,
        >(ServiceCreationError::ProjectDoesNotExists),
        user is Some && project is Ok ==> r is Ok && r->Ok_0.project_files_repository
            == project_files_repository,
{
    if user.is_none() {
        return Err(ServiceCreationError::UserDoesNotExists);
    }
    match project {
        Ok(_) => Ok(ProjectsFilesService { project_files_repository }),
        Err(GetError::AccessDenied) => Err(ServiceCreationError::UserDoesNotHaveAccessToProject),
        Err(GetError::DoesNotExist) => Err(ServiceCreationError::ProjectDoesNotExists),
    }
}

/// How a repository failure on updating reads at the service boundary.
pub fn map_file_update_error(e: &ProjectFileUpdateError) -> (r: UpdateError)
    ensures
        r == (match e {
            ProjectFileUpdateError::IllegalName => UpdateError::IllegalName,
            ProjectFileUpdateError::DuplicateNames => UpdateError::DuplicateName,
            ProjectFileUpdateError::FileDoesNotExist => UpdateError::FileDoesNotExists,
        }),
{
    match e {
        ProjectFileUpdateError::IllegalName => UpdateError::IllegalName,
        ProjectFileUpdateError::DuplicateNames => UpdateError::DuplicateName,
        ProjectFileUpdateError::FileDoesNotExist => UpdateError::FileDoesNotExists,
    }
}

/// How a repository failure on creating reads at the service boundary.
pub fn map_file_creation_error(e: &ProjectFileCreationError) -> (r: CreationError)
    ensures
        r == (match e {
            ProjectFileCreationError::IllegalName => CreationError::IllegalName,
            ProjectFileCreationError::DuplicateNames => CreationError::DuplicateNames,
        }),
{
    match e {
        ProjectFileCreationError::IllegalName => CreationError::IllegalName,
        ProjectFileCreationError::DuplicateNames => CreationError::DuplicateNames,
    }
}

/// How the repository's report of a deletion reads at the service
/// boundary: removed means done, not removed means the file was not in
/// the project.
pub fn deletion_outcome(removed: bool) -> (r: Result<(), DeletionError>)
    ensures
        removed ==> r == Ok::<(), DeletionError>(()),
        !removed ==> r == Err::<(), DeletionError>(DeletionError::FileDoesNotExistInProject),
{
    if removed {
        Ok(())
    } else {
        Err(DeletionError::FileDoesNotExistInProject)
    }
}

impl<R: IProjectsFilesRepository> ProjectsFilesService<R> {
    /// The file with this identifier, as the repository reports it.
    pub fn get(&self, id: i32) -> Option<ProjectFile> {
        self.project_files_repository.get(id)
    }

    /// Every file of the project, as the repository reports them.
    pub fn get_all(&self) -> Vec<ProjectFile> {
        self.project_files_repository.get_all()
    }

    /// Updates the file in the repository; success hands the file back
    /// unchanged, and a repository failure maps as `map_file_update_error`
    /// states.
    pub fn update(&self, file: ProjectFile) -> (r: Result<ProjectFile, UpdateError>)
        ensures
            r is Ok ==> r->Ok_0 == file,
    {
        match self.project_files_repository.update(&file) {
            Ok(_) => Ok(file),
            Err(e) => Err(map_file_update_error(&e)),
        }
    }

    /// Creates the file in the repository; a repository failure maps as
    /// `map_file_creation_error` states.
    pub fn create(&self, file: ProjectFile) -> (r: Result<ProjectFile, CreationError>) {
        match self.project_files_repository.create(file) {
            Ok(f) => Ok(f),
            Err(e) => Err(map_file_creation_error(&e)),
        }
    }

    /// Deletes the file from the repository; what the repository reports
    /// reads as `deletion_outcome` states.
    pub fn delete(&self, file: ProjectFile) -> (r: Result<(), DeletionError>) {
        let removed = self.project_files_repository.delete(file);
        deletion_outcome(removed)
    }
}

} // verus!
