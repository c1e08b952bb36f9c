//! Query and creation options for the issue tracker's service layer. These
//! are the plain values the surrounding program fills before it talks to the
//! GraphQL collaborator.

use vstd::prelude::*;

verus! {

/// Options used to constrain issue queries.
#[derive(Debug, Clone, Default)]
pub struct IssueQueryOptions {
    pub limit: usize,
    pub team_id: Option<String>,
    pub team_key: Option<String>,
    pub assignee_id: Option<String>,
    pub state_id: Option<String>,
    pub project_id: Option<String>,
    pub label_ids: Vec<String>,
    pub title_contains: Option<String>,
    pub after: Option<String>,
}

/// Settings to create a new issue.
#[derive(Debug, Clone)]
pub struct IssueCreateOptions {
    pub team_id: String,
    pub title: String,
    pub description: Option<String>,
    pub assignee_id: Option<String>,
    pub state_id: Option<String>,
    pub label_ids: Vec<String>,
    pub priority: Option<i32>,
}

impl IssueCreateOptions {
    /// Options naming only the team and title; every optional field is
    /// absent and no labels are attached.
    pub fn new(team_id: String, title: String) -> (r: IssueCreateOptions)
        ensures
            r.team_id@ == team_id@,
            r.title@ == title@,
            r.description is None,
            r.assignee_id is None,
            r.state_id is None,
            r.label_ids@.len() == 0,
            r.priority is None,
    {
        IssueCreateOptions {
            team_id,
            title,
            description: None,
            assignee_id: None,
            state_id: None,
            label_ids: Vec::new(),
            priority: None,
        }
    }
}

/// Options used to constrain project queries.
#[derive(Debug, Clone, Default)]
pub struct ProjectQueryOptions {
    pub limit: usize,
    pub after: Option<String>,
    pub state: Option<String>,
    pub status: Option<String>,
    pub team_id: Option<String>,
    pub sort: Option<ProjectSort>,
}

/// Sort orders for project listings.
#[derive(Debug, Clone, Copy)]
pub enum ProjectSort {
    UpdatedAsc,
    UpdatedDesc,
    CreatedAsc,
    CreatedDesc,
    TargetAsc,
    TargetDesc,
}

/// Options used to constrain cycle queries.
#[derive(Debug, Clone, Default)]
pub struct CycleQueryOptions {
    pub limit: usize,
    pub after: Option<String>,
    pub team_id: Option<String>,
    pub state: Option<String>,
    pub sort: Option<CycleSort>,
}

/// Sort orders for cycle listings.
#[derive(Debug, Clone, Copy)]
pub enum CycleSort {
    StartAsc,
    StartDesc,
    EndAsc,
    EndDesc,
}

} // verus!
