//! Settings of the ticket tracker, as read from the user's configuration file.

use vstd::prelude::*;

verus! {

/// The whole configuration.
pub struct Config {
    pub project_management: Option<ProjectManagement>,
}

/// How to reach the ticket tracker and find ticket identifiers.
pub struct ProjectManagement {
    pub provider: ProjectManagementProvider,
    /// Address of a ticket, with `:ticket_id` where the identifier goes.
    pub url: String,
    /// `<user>:<password>` for basic authentication.
    pub credential_key: String,
    /// Regular expression whose first group captures the ticket identifier.
    pub ticket_id_regex: String,
}

#[derive(Clone, Copy, PartialEq, Eq, Structural, Debug)]
pub enum AuthType {
    Basic,
}

#[derive(Clone, Copy, PartialEq, Eq, Structural, Debug)]
pub enum ProjectManagementProvider {
    Jira,
}

} // verus!
