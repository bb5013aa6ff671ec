//! Collaborator and team request types.
use vstd::prelude::*;

verus! {

/// Request parameters for listing collaborators of a repository.
#[derive(Debug, Clone, PartialEq, Eq)]
pub struct ListCollaboratorsRequest {
    pub account: Option<String>,
    pub owner: String,
    pub repo: String,
    /// Which collaborators: "outside", "direct" or "all".
    pub affiliation: Option<String>,
}

/// Request parameters for adding a collaborator.
#[derive(Debug, Clone, PartialEq, Eq)]
pub struct AddCollaboratorRequest {
    pub account: Option<String>,
    pub owner: String,
    pub repo: String,
    pub username: String,
    /// Permission: "pull", "triage", "push", "maintain" or "admin".
    pub permission: Option<String>,
}

/// Request parameters for removing a collaborator.
#[derive(Debug, Clone, PartialEq, Eq)]
pub struct RemoveCollaboratorRequest {
    pub account: Option<String>,
    pub owner: String,
    pub repo: String,
    pub username: String,
}

/// Request parameters for listing the teams of an organization.
#[derive(Debug, Clone, PartialEq, Eq)]
pub struct ListTeamsRequest {
    pub account: Option<String>,
    pub org: String,
    pub limit: Option<u32>,
}

/// Request parameters for listing the members of a team.
#[derive(Debug, Clone, PartialEq, Eq)]
pub struct GetTeamMembersRequest {
    pub account: Option<String>,
    pub org: String,
    /// Team slug.
    pub team: String,
    /// Member role: "member", "maintainer" or "all".
    pub role: Option<String>,
}

} // verus!
