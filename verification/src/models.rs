//! The persistent entities the hub and the services speak about: users,
//! projects and project files. Equality on each entity means equality of
//! the stored identifier, as the persistence layer assigns it.

use vstd::prelude::*;

verus! {

/// A registered user.
#[derive(Debug)]
pub struct User {
    pub id: i32,
    pub name: String,
}

impl User {
    /// An equal copy of the user.
    pub fn duplicate(&self) -> (r: User)
        ensures
            r == *self,
    {
        User { id: self.id, name: self.name.clone() }
    }
}

impl PartialEq for User {
    fn eq(&self, other: &Self) -> (r: bool) {
        self.id == other.id
    }
}

impl vstd::std_specs::cmp::PartialEqSpecImpl for User {
    open spec fn obeys_eq_spec() -> bool {
        true
    }

    open spec fn eq_spec(&self, other: &Self) -> bool {
        self.id == other.id
    }
}

/// A project: the unit of collaboration, owned by one user. A project
/// that was never saved carries no identifier yet.
#[derive(Debug)]
pub struct Project {
    pub id: Option<i32>,
    pub name: String,
    pub description: String,
    pub owner: User,
}

impl Project {
    /// A project as it stands before its first save: no identifier yet,
    /// owned by the given user.
    pub fn new(name: String, description: String, owner: User) -> (p: Project)
        ensures
            p.id is None,
            p.name == name,
            p.description == description,
            p.owner == owner,
    {
        Project {
            id: None,
            name,
            description,
            owner: User { id: owner.id, name: owner.name.clone() },
        }
    }
}

impl PartialEq for Project {
    fn eq(&self, other: &Self) -> (r: bool) {
        match (self.id, other.id) {
            (Some(a), Some(b)) => a == b,
            (None, None) => true,
            _ => false,
        }
    }
}

impl vstd::std_specs::cmp::PartialEqSpecImpl for Project {
    open spec fn obeys_eq_spec() -> bool {
        true
    }

    open spec fn eq_spec(&self, other: &Self) -> bool {
        self.id == other.id
    }
}

/// One file of a project. A file that was never saved carries no
/// identifier yet.
#[derive(Debug)]
pub struct ProjectFile {
    pub id: Option<i32>,
    pub name: String,
    pub project_id: i32,
}

impl ProjectFile {
    /// A file as it stands before its first save, belonging to an already
    /// saved project.
    pub fn new(name: String, project: &Project) -> (f: ProjectFile)
        requires
            project.id is Some,
        ensures
            f.id is None,
            f.name == name,
            f.project_id == project.id->Some_0,
    {
        let project_id: i32 = match project.id {
            Some(id) => id,
            None => 0,
        };
        ProjectFile { id: None, name, project_id }
    }
}

impl PartialEq for ProjectFile {
    fn eq(&self, other: &Self) -> (r: bool) {
        match (self.id, other.id) {
            (Some(a), Some(b)) => a == b,
            (None, None) => true,
            _ => false,
        }
    }
}

impl vstd::std_specs::cmp::PartialEqSpecImpl for ProjectFile {
    open spec fn obeys_eq_spec() -> bool {
        true
    }

    open spec fn eq_spec(&self, other: &Self) -> bool {
        self.id == other.id
    }
}

/// The credentials payload of a login or registration request.
#[derive(Debug)]
pub struct UserAuthorizationDto {
    pub username: String,
    pub password: String,
}

} // verus!
