//! The projects service: the decisions made on behalf of one acting user
//! before and after the repository works — who may save, fetch, grant and
//! revoke — and the mapping of repository failures to service failures.

use vstd::prelude::*;

use crate::models::{Project, User};
use crate::repositories::projects::{
    AccessManagementError, IProjectsRepository, ProjectsUpdateError,
};

verus! {

/// Why fetching a project failed.
#[derive(Clone, Copy, PartialEq, Eq, Structural, Debug)]
pub enum GetError {
    AccessDenied,
    DoesNotExist,
}

/// Why deleting a project failed.
#[derive(Clone, Copy, PartialEq, Eq, Structural, Debug)]
pub enum DeleteError {
    AccessDenied,
}

/// Why granting access failed.
#[derive(Clone, Copy, PartialEq, Eq, Structural, Debug)]
pub enum AccessGrantingError {
    NotOwner,
}

/// Why revoking access failed.
#[derive(Clone, Copy, PartialEq, Eq, Structural, Debug)]
pub enum AccessRevokingError {
    IsOwner,
    UserIsNotOwner,
    UserDoesNotExists,
}

/// Why saving a project failed.
#[derive(Clone, Copy, PartialEq, Eq, Structural, Debug)]
pub enum SaveError {
    InvalidName,
    ProjectDoesNotExists,
    AccessException,
    ProjectWithSameNaeAlreadyExists,
}

/// The project operations offered on behalf of one acting user. The
/// shapes only; the verified behavior lives on `ProjectsService`.
pub trait IProjectsService {
    fn create(&self, name: String, description: String) -> Result<Project, SaveError>;

    fn update(&self, project: Project) -> Result<Project, SaveError>;

    fn delete(&self, project: Project) -> Result<(), DeleteError>;

    fn get_owned_projects(&self) -> Vec<Project>;

    fn get_projects_shared_to_user(&self) -> Vec<Project>;

    fn get(&self, id: i32) -> Result<Project, GetError>;

    fn grant_access(&self, project: &Project, user: &User) -> Result<(), AccessGrantingError>;

    fn revoke_access(&self, project: &Project, user: &User) -> Result<(), AccessRevokingError>;
}

/// The projects service bound to one acting user, over any repository.
pub struct ProjectsService<R: IProjectsRepository> {
    pub user: User,
    pub projects_repository: R,
}

/// A projects service acting for the given user over the given repository.
pub fn new<R: IProjectsRepository>(user: User, projects_repository: R) -> (s: ProjectsService<R>)
    ensures
        s.user == user,
        s.projects_repository == projects_repository,
{
    ProjectsService { user, projects_repository }
}

/// How a repository failure on saving reads at the service boundary. The
/// last two repository failures cannot stem from the inputs of a creation;
/// they surface as the access failure, the one variant left for backend
/// trouble the caller cannot tell apart.
pub fn map_project_save_error(e: &ProjectsUpdateError) -> (r: SaveError)
    ensures
        r == (match e {
            ProjectsUpdateError::ProjectWithSameNameExists => SaveError::ProjectWithSameNaeAlreadyExists,
            ProjectsUpdateError::IllegalName => SaveError::InvalidName,
            ProjectsUpdateError::ProjectDoesNotExist => SaveError::ProjectDoesNotExists,
            ProjectsUpdateError::DatabaseError => SaveError::AccessException,
        }),
{
    match e {
        ProjectsUpdateError::ProjectWithSameNameExists => SaveError::ProjectWithSameNaeAlreadyExists,
        ProjectsUpdateError::IllegalName => SaveError::InvalidName,
        ProjectsUpdateError::ProjectDoesNotExist => SaveError::ProjectDoesNotExists,
        ProjectsUpdateError::DatabaseError => SaveError::AccessException,
    }
}

/// Resolves a fetched project against an access decision: no project, no
/// result; a project the user may not see is refused; otherwise the
/// project is handed out unchanged.
pub fn resolve_project_access(project: Option<Project>, has_access: bool) -> (r: Result<
    Project,
    GetError,
>)
    ensures
        project is None ==> r == Err::<Project, GetError>(GetError::DoesNotExist),
        project is Some && !has_access ==> r == Err::<Project, GetError>(GetError::AccessDenied),
        project is Some && has_access ==> r is Ok && r->Ok_0 == project->Some_0,
{
    match project {
        None => Err(GetError::DoesNotExist),
        Some(p) => {
            if has_access {
                Ok(p)
            } else {
                Err(GetError::AccessDenied)
            }
        },
    }
}

/// How a repository failure on revoking reads at the service boundary.
pub fn map_revoke_error(e: &AccessManagementError) -> (r: AccessRevokingError)
    ensures
        r == (match e {
            AccessManagementError::UserDoesNotExists => AccessRevokingError::UserDoesNotExists,
            AccessManagementError::UserIsOwner => AccessRevokingError::IsOwner,
        }),
{
    match e {
        AccessManagementError::UserDoesNotExists => AccessRevokingError::UserDoesNotExists,
        AccessManagementError::UserIsOwner => AccessRevokingError::IsOwner,
    }
}

impl<R: IProjectsRepository> ProjectsService<R> {
    /// Creates a project named and described as given, owned by the acting
    /// user, by handing it to the repository; a repository failure maps to
    /// a save failure as `map_project_save_error` states.
    pub fn create(&self, name: String, description: String) -> (r: Result<Project, SaveError>) {
        let project = Project::new(name, description, self.user.duplicate());
        match self.projects_repository.create(project) {
            Ok(p) => Ok(p),
            Err(e) => Err(map_project_save_error(&e)),
        }
    }

    /// Updating is not supported in the current scope: another user's
    /// attempt is refused as an access failure, and the owner's own case
    /// is excluded, since no update behavior is defined for it yet.
    pub fn update(&self, project: Project) -> (r: Result<Project, SaveError>)
        requires
            project.owner.id != self.user.id,
        ensures
            r == Err::<Project, SaveError>(SaveError::AccessException),
    {
        Err(SaveError::AccessException)
    }

    /// The projects the acting user owns, as the repository reports them.
    pub fn get_owned_projects(&self) -> Vec<Project> {
        self.projects_repository.get_all_owned_by(&self.user)
    }

    /// The projects shared to the acting user, as the repository reports
    /// them.
    pub fn get_projects_shared_to_user(&self) -> Vec<Project> {
        self.projects_repository.get_all_shared_to(&self.user)
    }

    /// Fetches a project and applies the acting user's access decision,
    /// as `resolve_project_access` states, over what the repository
    /// reports.
    pub fn get(&self, id: i32) -> (r: Result<Project, GetError>) {
        match self.projects_repository.get(id) {
            None => resolve_project_access(None, false),
            Some(p) => {
                let allowed = self.projects_repository.has_access(&p, &self.user);
                resolve_project_access(Some(p), allowed)
            },
        }
    }

    /// Grants another user access: only the project's owner may grant.
    /// When the owner asks, the repository decides; its failure reads as
    /// the same refusal.
    pub fn grant_access(&self, project: &Project, user: &User) -> (r: Result<
        (),
        AccessGrantingError,
    >)
        ensures
            project.owner.id != self.user.id ==> r == Err::<(), AccessGrantingError>(
                AccessGrantingError::NotOwner,
            ),
    {
        if project.owner != self.user {
            return Err(AccessGrantingError::NotOwner);
        }
        match self.projects_repository.grant_access(project, user) {
            Ok(_) => Ok(()),
            Err(_) => Err(AccessGrantingError::NotOwner),
        }
    }

    /// Revokes a user's access: only the project's owner may revoke, and
    /// never from the owner personally; past those two guards the
    /// repository decides, its failure mapping as `map_revoke_error`
    /// states.
    pub fn revoke_access(&self, project: &Project, user: &User) -> (r: Result<
        (),
        AccessRevokingError,
    >)
        ensures
            project.owner.id != self.user.id ==> r == Err::<(), AccessRevokingError>(
                AccessRevokingError::UserIsNotOwner,
            ),
            project.owner.id == self.user.id && user.id == self.user.id ==> r == Err::<
                (),
                AccessRevokingError,
            >(AccessRevokingError::IsOwner),
    {
        if project.owner != self.user {
            return Err(AccessRevokingError::UserIsNotOwner);
        }
        if *user == self.user {
            return Err(AccessRevokingError::IsOwner);
        }
        match self.projects_repository.revoke_access(project, user) {
            Ok(_) => Ok(()),
            Err(e) => Err(map_revoke_error(&e)),
        }
    }
}

} // verus!
