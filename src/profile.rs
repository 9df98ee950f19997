//! A user profile: tracker settings whose credential comes from the environment.

use vstd::prelude::*;

verus! {

/// The whole profile.
pub struct Profile {
    pub project_management: Option<ProjectManagement>,
}

/// Tracker settings, with the credential found in the variable they name.
pub struct ProjectManagement {
    pub name: ProjectManagementName,
    pub url: String,
    pub credential_env_var_name: String,
    pub ticket_id_regex: String,
    pub auth_type: Option<AuthType>,
    auth_string: Option<String>,
}

#[derive(Clone, Copy, PartialEq, Eq, Structural, Debug)]
pub enum AuthType {
    Basic,
    Bearer,
}

#[derive(Clone, Copy, PartialEq, Eq, Structural, Debug)]
pub enum ProjectManagementName {
    Jira,
}

/// The settings as (name, url, variable name, ticket pattern, auth type, credential).
pub type ProjectManagementView = (
    ProjectManagementName,
    Seq<char>,
    Seq<char>,
    Seq<char>,
    Option<AuthType>,
    Option<Seq<char>>,
);

impl View for ProjectManagement {
    type V = ProjectManagementView;

    closed spec fn view(&self) -> ProjectManagementView {
        (
            self.name,
            self.url@,
            self.credential_env_var_name@,
            self.ticket_id_regex@,
            self.auth_type,
            match self.auth_string {
                Some(s) => Some(s@),
                None => None,
            },
        )
    }
}

impl ProjectManagement {
    /// Settings with no credential read yet.
    pub fn new(
        name: ProjectManagementName,
        url: String,
        credential_env_var_name: String,
        ticket_id_regex: String,
        auth_type: Option<AuthType>,
    ) -> (r: ProjectManagement)
        ensures
            r@ == (name, url@, credential_env_var_name@, ticket_id_regex@, auth_type, None::<Seq<char>>),
    {
        ProjectManagement { name, url, credential_env_var_name, ticket_id_regex, auth_type, auth_string: None }
    }

    /// Records the credential read from the environment.
    pub fn set_auth_string(&mut self, auth_string: String)
        ensures
            final(self)@ == (old(self)@.0, old(self)@.1, old(self)@.2, old(self)@.3, old(self)@.4, Some(auth_string@)),
    {
        self.auth_string = Some(auth_string);
    }

    /// The credential, if one was read.
    pub fn get_auth_string(&self) -> (r: Option<String>)
        ensures
            match r {
                Some(s) => self@.5 == Some(s@),
                None => self@.5 is None,
            },
    {
        match &self.auth_string {
            Some(s) => Some(s.clone()),
            None => None,
        }
    }
}

} // verus!
