//! Requests and replies of the container endpoints.
use vstd::prelude::*;
use crate::user::{rule_if, views_of, FieldError};

verus! {

#[derive(Debug)]
pub struct DockerDTO {
    pub image: String,
    pub tag: String,
    pub name: String,
}

#[derive(Debug)]
pub struct CreateContainerDTO {
    pub id: String,
    pub name: String,
}

#[derive(Debug)]
pub struct GetContainerStatusDTO {
    pub status: String,
}

#[derive(Debug)]
pub struct DockerCreatePayload {
    pub dockerfile: String,
    pub tag: String,
    pub rm: bool,
}

/// A request to run a MariaDB container.
#[derive(Debug)]
pub struct DockerMariadbPayload {
    pub name: String,
    pub root_password: String,
    pub database_name: Option<String>,
    pub user: Option<String>,
    pub password: Option<String>,
    pub port: Option<u16>,
}

impl DockerMariadbPayload {
    /// The rules this payload breaks, in field order; empty when it is valid.
    pub fn validate(&self) -> (r: Vec<FieldError>)
        ensures
            views_of(r@) == rule_if(self.name@.len() < 1, "name"@, "name cannot be empty"@)
                + rule_if(self.root_password@.len() < 1, "root_password"@, "root_password cannot be empty"@),
    {
        let mut errors: Vec<FieldError> = Vec::new();
        if self.name.as_str().unicode_len() < 1 {
            errors.push(FieldError::new("name", "name cannot be empty"));
        }
        if self.root_password.as_str().unicode_len() < 1 {
            errors.push(FieldError::new("root_password", "root_password cannot be empty"));
        }
        proof {
            assert(views_of(errors@) =~= rule_if(self.name@.len() < 1, "name"@, "name cannot be empty"@)
                + rule_if(self.root_password@.len() < 1, "root_password"@, "root_password cannot be empty"@));
        }
        errors
    }
}

#[derive(Debug)]
pub struct GetContainerStatusPayload {
    pub container_name: String,
}

} // verus!
