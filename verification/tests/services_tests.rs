use editor_server::models::{Project, ProjectFile, User, UserAuthorizationDto};
use editor_server::repositories::projects::{
    get_grant_access_to_project_message_from_code, get_revoke_access_message_from_code,
    grant_access, revoke_access, AccessManagementError, IProjectsRepository,
    ProjectsUpdateError,
};
use editor_server::repositories::projects_files::{
    file_creation_outcome, file_update_outcome, IProjectsFilesRepository,
    ProjectFileCreationError, ProjectFileUpdateError,
};
use editor_server::services::projects::{
    map_project_save_error, map_revoke_error, new as new_projects_service,
    resolve_project_access, AccessGrantingError, AccessRevokingError, GetError, SaveError,
};
use editor_server::services::projects_files::{
    deletion_outcome, map_file_creation_error, map_file_update_error,
    new as new_files_service, CreationError, DeletionError, ServiceCreationError, UpdateError,
};

fn user(id: i32, name: &str) -> User {
    User { id, name: name.to_string() }
}

fn project(id: Option<i32>, owner: User) -> Project {
    Project { id, name: "p".to_string(), description: "d".to_string(), owner }
}

#[test]
fn users_and_projects_compare_by_identifier() {
    assert_eq!(user(1, "ann"), user(1, "bob"));
    assert_ne!(user(1, "ann"), user(2, "ann"));
    assert_eq!(project(Some(3), user(1, "a")), project(Some(3), user(2, "b")));
    assert_ne!(project(Some(3), user(1, "a")), project(None, user(1, "a")));
    let f1 = ProjectFile { id: Some(4), name: "x".to_string(), project_id: 1 };
    let f2 = ProjectFile { id: Some(4), name: "y".to_string(), project_id: 2 };
    assert_eq!(f1, f2);
}

#[test]
fn a_new_project_has_no_identifier_yet() {
    let p = Project::new("name".to_string(), "desc".to_string(), user(5, "ann"));
    assert_eq!(p.id, None);
    assert_eq!(p.name, "name");
    assert_eq!(p.description, "desc");
    assert_eq!(p.owner.id, 5);
    assert_eq!(p.owner.name, "ann");
}

#[test]
fn a_new_file_belongs_to_its_saved_project() {
    let p = project(Some(9), user(1, "ann"));
    let f = ProjectFile::new("main.rs".to_string(), &p);
    assert_eq!(f.id, None);
    assert_eq!(f.name, "main.rs");
    assert_eq!(f.project_id, 9);
}

#[test]
fn credentials_carry_through() {
    let dto = UserAuthorizationDto { username: "ann".to_string(), password: "pw".to_string() };
    assert_eq!(dto.username, "ann");
    assert_eq!(dto.password, "pw");
}

#[test]
fn access_procedure_codes_read_as_documented() {
    assert_eq!(get_grant_access_to_project_message_from_code(-1), "Project does not exist");
    assert_eq!(get_grant_access_to_project_message_from_code(-7), "Unknown error");
    assert_eq!(get_revoke_access_message_from_code(-1), "This user is project owner");
    assert_eq!(get_revoke_access_message_from_code(0), "Unknown error");

    assert!(grant_access(Some(0)).is_ok());
    assert!(grant_access(Some(5)).is_ok());
    let e = grant_access(Some(-1)).unwrap_err();
    assert_eq!(e.error_code, -1);
    assert_eq!(e.message, "Project does not exist");
    let e2 = grant_access(None).unwrap_err();
    assert_eq!(e2.error_code, -2);
    assert_eq!(e2.message, "Unknown error");

    assert!(revoke_access(Some(3)).is_ok());
    let e3 = revoke_access(Some(-1)).unwrap_err();
    assert_eq!(e3.error_code, -1);
    assert_eq!(e3.message, "This user is project owner");
    let e4 = revoke_access(None).unwrap_err();
    assert_eq!(e4.error_code, -2);
    assert_eq!(e4.message, "Database error");
}

#[test]
fn file_procedure_codes_read_as_documented() {
    let f = ProjectFile { id: None, name: "a.rs".to_string(), project_id: 1 };
    let created = file_creation_outcome(f, 12).unwrap();
    assert_eq!(created.id, Some(12));
    assert_eq!(created.name, "a.rs");
    let f2 = ProjectFile { id: None, name: "a.rs".to_string(), project_id: 1 };
    assert!(matches!(
        file_creation_outcome(f2, -1),
        Err(ProjectFileCreationError::IllegalName)
    ));
    let f3 = ProjectFile { id: None, name: "a.rs".to_string(), project_id: 1 };
    assert!(matches!(
        file_creation_outcome(f3, -2),
        Err(ProjectFileCreationError::DuplicateNames)
    ));

    assert!(file_update_outcome(0).is_ok());
    assert!(matches!(file_update_outcome(-1), Err(ProjectFileUpdateError::IllegalName)));
    assert!(matches!(file_update_outcome(-2), Err(ProjectFileUpdateError::FileDoesNotExist)));
    assert!(matches!(file_update_outcome(-3), Err(ProjectFileUpdateError::DuplicateNames)));
}

#[test]
fn repository_failures_map_one_to_one() {
    assert!(matches!(
        map_project_save_error(&ProjectsUpdateError::ProjectWithSameNameExists),
        SaveError::ProjectWithSameNaeAlreadyExists
    ));
    assert!(matches!(
        map_project_save_error(&ProjectsUpdateError::IllegalName),
        SaveError::InvalidName
    ));
    assert!(matches!(
        map_project_save_error(&ProjectsUpdateError::ProjectDoesNotExist),
        SaveError::ProjectDoesNotExists
    ));
    assert!(matches!(
        map_project_save_error(&ProjectsUpdateError::DatabaseError),
        SaveError::AccessException
    ));
    assert!(matches!(
        map_revoke_error(&AccessManagementError::UserIsOwner),
        AccessRevokingError::IsOwner
    ));
    assert!(matches!(
        map_revoke_error(&AccessManagementError::UserDoesNotExists),
        AccessRevokingError::UserDoesNotExists
    ));
    assert!(matches!(
        map_file_update_error(&ProjectFileUpdateError::DuplicateNames),
        UpdateError::DuplicateName
    ));
    assert!(matches!(
        map_file_creation_error(&ProjectFileCreationError::IllegalName),
        CreationError::IllegalName
    ));
}

#[test]
fn resolving_access_refuses_missing_and_hidden_projects() {
    assert!(matches!(resolve_project_access(None, true), Err(GetError::DoesNotExist)));
    let p = project(Some(1), user(1, "ann"));
    assert!(matches!(resolve_project_access(Some(p), false), Err(GetError::AccessDenied)));
    let p2 = project(Some(1), user(1, "ann"));
    let got = resolve_project_access(Some(p2), true).unwrap();
    assert_eq!(got.id, Some(1));
}

#[test]
fn deletion_outcome_reports_missing_files() {
    assert!(deletion_outcome(true).is_ok());
    assert!(matches!(
        deletion_outcome(false),
        Err(DeletionError::FileDoesNotExistInProject)
    ));
}

/// A repository standing in for the database: a fixed project, owner 1,
/// shared to user 2.
struct FakeProjectsRepository;

impl IProjectsRepository for FakeProjectsRepository {
    fn create(&self, project: Project) -> Result<Project, ProjectsUpdateError> {
        if project.name.is_empty() {
            Err(ProjectsUpdateError::IllegalName)
        } else {
            Ok(Project { id: Some(77), ..project })
        }
    }

    fn update(&self, _project: Project) -> Result<Project, ProjectsUpdateError> {
        Err(ProjectsUpdateError::DatabaseError)
    }

    fn get(&self, id: i32) -> Option<Project> {
        if id == 77 {
            Some(project(Some(77), user(1, "ann")))
        } else {
            None
        }
    }

    fn get_all_shared_to(&self, _user: &User) -> Vec<Project> {
        Vec::new()
    }

    fn get_all_owned_by(&self, user: &User) -> Vec<Project> {
        if user.id == 1 {
            vec![project(Some(77), self::user(1, "ann"))]
        } else {
            Vec::new()
        }
    }

    fn has_access(&self, _project: &Project, user: &User) -> bool {
        user.id == 1 || user.id == 2
    }

    fn grant_access(&self, _project: &Project, _user: &User) -> Result<(), AccessManagementError> {
        Ok(())
    }

    fn revoke_access(&self, _project: &Project, user: &User) -> Result<(), AccessManagementError> {
        if user.id == 2 {
            Ok(())
        } else {
            Err(AccessManagementError::UserDoesNotExists)
        }
    }
}

#[test]
fn the_projects_service_guards_ownership() {
    let service = new_projects_service(user(1, "ann"), FakeProjectsRepository);
    let created = service.create("p".to_string(), "d".to_string()).unwrap();
    assert_eq!(created.id, Some(77));
    assert_eq!(created.owner.id, 1);
    assert!(matches!(
        service.create(String::new(), "d".to_string()),
        Err(SaveError::InvalidName)
    ));

    let p = service.get(77).unwrap();
    assert_eq!(p.id, Some(77));
    assert!(matches!(service.get(1), Err(GetError::DoesNotExist)));

    assert!(service.grant_access(&p, &user(2, "bob")).is_ok());
    assert!(service.revoke_access(&p, &user(2, "bob")).is_ok());
    assert!(matches!(
        service.revoke_access(&p, &user(1, "ann")),
        Err(AccessRevokingError::IsOwner)
    ));
    assert!(matches!(
        service.revoke_access(&p, &user(3, "eve")),
        Err(AccessRevokingError::UserDoesNotExists)
    ));

    let stranger = new_projects_service(user(9, "eve"), FakeProjectsRepository);
    assert!(matches!(
        stranger.grant_access(&p, &user(2, "bob")),
        Err(AccessGrantingError::NotOwner)
    ));
    assert!(matches!(
        stranger.revoke_access(&p, &user(2, "bob")),
        Err(AccessRevokingError::UserIsNotOwner)
    ));
    assert!(matches!(
        stranger.update(p),
        Err(SaveError::AccessException)
    ));
    assert_eq!(service.get_owned_projects().len(), 1);
    assert_eq!(service.get_projects_shared_to_user().len(), 0);
}

/// A files repository standing in for the database, bound to one project.
struct FakeFilesRepository;

impl IProjectsFilesRepository for FakeFilesRepository {
    fn create(&self, file: ProjectFile) -> Result<ProjectFile, ProjectFileCreationError> {
        if file.name.is_empty() {
            Err(ProjectFileCreationError::IllegalName)
        } else {
            Ok(ProjectFile { id: Some(5), ..file })
        }
    }

    fn update(&self, file: &ProjectFile) -> Result<(), ProjectFileUpdateError> {
        if file.id.is_some() {
            Ok(())
        } else {
            Err(ProjectFileUpdateError::FileDoesNotExist)
        }
    }

    fn delete(&self, file: ProjectFile) -> bool {
        file.id.is_some()
    }

    fn get(&self, file_id: i32) -> Option<ProjectFile> {
        if file_id == 5 {
            Some(ProjectFile { id: Some(5), name: "a.rs".to_string(), project_id: 77 })
        } else {
            None
        }
    }

    fn get_all(&self) -> Vec<ProjectFile> {
        vec![ProjectFile { id: Some(5), name: "a.rs".to_string(), project_id: 77 }]
    }
}

#[test]
fn the_files_service_is_built_only_for_authorized_users() {
    assert!(matches!(
        new_files_service(None, Ok(project(Some(77), user(1, "ann"))), FakeFilesRepository),
        Err(ServiceCreationError::UserDoesNotExists)
    ));
    assert!(matches!(
        new_files_service(Some(user(2, "bob")), Err(GetError::AccessDenied), FakeFilesRepository),
        Err(ServiceCreationError::UserDoesNotHaveAccessToProject)
    ));
    assert!(matches!(
        new_files_service(Some(user(2, "bob")), Err(GetError::DoesNotExist), FakeFilesRepository),
        Err(ServiceCreationError::ProjectDoesNotExists)
    ));
    let service = new_files_service(
        Some(user(1, "ann")),
        Ok(project(Some(77), user(1, "ann"))),
        FakeFilesRepository,
    )
    .ok()
    .unwrap();

    let created = service
        .create(ProjectFile { id: None, name: "b.rs".to_string(), project_id: 77 })
        .unwrap();
    assert_eq!(created.id, Some(5));
    assert!(matches!(
        service.create(ProjectFile { id: None, name: String::new(), project_id: 77 }),
        Err(CreationError::IllegalName)
    ));
    let f = service.get(5).unwrap();
    let updated = service.update(f).unwrap();
    assert_eq!(updated.id, Some(5));
    assert!(matches!(
        service.update(ProjectFile { id: None, name: "c".to_string(), project_id: 77 }),
        Err(UpdateError::FileDoesNotExists)
    ));
    assert!(service.delete(service.get(5).unwrap()).is_ok());
    assert!(matches!(
        service.delete(ProjectFile { id: None, name: "c".to_string(), project_id: 77 }),
        Err(DeletionError::FileDoesNotExistInProject)
    ));
    assert_eq!(service.get_all().len(), 1);
}
