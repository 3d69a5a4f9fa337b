use vstd::prelude::*;

verus! {

/// A project as listed: its id and name.
#[derive(Debug, Clone)]
pub struct ProjectSummary {
    pub id: String,
    pub name: String,
}

/// Body of a project creation request.
#[derive(Debug)]
pub struct CreateProjectRequest {
    pub name: String,
}

/// Body of a registration request.
#[derive(Debug)]
pub struct RegisterRequest {
    pub username: String,
    pub email: String,
    pub password: String,
}

/// Body of a login request.
#[derive(Debug)]
pub struct LoginRequest {
    pub username: String,
    pub password: String,
}

} // verus!
