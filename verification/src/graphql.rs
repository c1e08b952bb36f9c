//! Plain data types exchanged with the issue tracker's GraphQL layer. The
//! request/response mapping itself is an external collaborator of the
//! authentication core; these types only carry its values.

use vstd::prelude::*;

verus! {

#[derive(Debug, Clone)]
pub struct IssueLabelConnection {
    pub nodes: Vec<IssueLabel>,
}

#[derive(Debug, Clone)]
pub struct IssueState {
    pub id: String,
    pub name: String,
    pub kind: Option<String>,
}

#[derive(Debug, Clone)]
pub struct IssueAssignee {
    pub id: String,
    pub name: Option<String>,
    pub display_name: Option<String>,
}

#[derive(Debug, Clone)]
pub struct IssueLabel {
    pub id: String,
    pub name: String,
    pub color: Option<String>,
}

#[derive(Debug, Clone)]
pub struct TeamSummary {
    pub id: String,
    pub name: String,
    pub key: String,
}

#[derive(Debug, Clone)]
pub struct WorkflowStateSummary {
    pub id: String,
    pub name: String,
    pub kind: Option<String>,
}

/// Input used when creating a new issue.
#[derive(Debug, Clone)]
pub struct IssueCreateInput {
    pub team_id: String,
    pub title: String,
    pub description: Option<String>,
    pub assignee_id: Option<String>,
    pub state_id: Option<String>,
    pub label_ids: Vec<String>,
    pub priority: Option<i32>,
}

impl IssueCreateInput {
    /// An input naming only the team and title; every optional field is
    /// absent and no labels are attached.
    pub fn new(team_id: String, title: String) -> (r: IssueCreateInput)
        ensures
            r.team_id@ == team_id@,
            r.title@ == title@,
            r.description is None,
            r.assignee_id is None,
            r.state_id is None,
            r.label_ids@.len() == 0,
            r.priority is None,
    {
        IssueCreateInput {
            team_id,
            title,
            description: None,
            assignee_id: None,
            state_id: None,
            label_ids: Vec::new(),
            priority: None,
        }
    }
}

/// Input used when updating an existing issue.
#[derive(Debug, Clone, Default)]
pub struct IssueUpdateInput {
    pub title: Option<String>,
    pub description: Option<String>,
    pub assignee_id: Option<String>,
    pub state_id: Option<String>,
    pub label_ids: Option<Vec<String>>,
    pub priority: Option<i32>,
    pub project_id: Option<String>,
}

/// Input used when creating a new comment.
#[derive(Debug, Clone)]
pub struct CommentCreateInput {
    pub issue_id: String,
    pub body: String,
}

#[derive(Debug, Clone)]
pub struct ProjectCreateInput {
    pub name: String,
    pub description: Option<String>,
    pub state: Option<String>,
    pub start_date: Option<String>,
    pub target_date: Option<String>,
    pub team_ids: Vec<String>,
    pub lead_id: Option<String>,
}

impl ProjectCreateInput {
    /// An input naming only the project; every optional field is absent and
    /// no teams are attached.
    pub fn new(name: String) -> (r: ProjectCreateInput)
        ensures
            r.name@ == name@,
            r.description is None,
            r.state is None,
            r.start_date is None,
            r.target_date is None,
            r.team_ids@.len() == 0,
            r.lead_id is None,
    {
        ProjectCreateInput {
            name,
            description: None,
            state: None,
            start_date: None,
            target_date: None,
            team_ids: Vec::new(),
            lead_id: None,
        }
    }
}

#[derive(Debug, Clone, Default)]
pub struct ProjectUpdateInput {
    pub name: Option<String>,
    pub description: Option<String>,
    pub state: Option<String>,
    pub start_date: Option<String>,
    pub target_date: Option<String>,
    pub team_ids: Vec<String>,
    pub lead_id: Option<String>,
}

#[derive(Debug, Clone)]
pub struct CycleListResponse {
    pub nodes: Vec<CycleSummary>,
    pub end_cursor: Option<String>,
    pub has_next_page: bool,
}

#[derive(Debug, Clone, Default)]
pub struct CycleUpdateInput {
    pub name: Option<String>,
    pub starts_at: Option<String>,
    pub ends_at: Option<String>,
    pub state: Option<String>,
}

#[derive(Debug, Clone)]
pub struct IssueLabelCreateInput {
    pub team_id: String,
    pub name: String,
    pub description: Option<String>,
    pub color: Option<String>,
}

#[derive(Debug, Clone, Default)]
pub struct IssueLabelUpdateInput {
    pub name: Option<String>,
    pub description: Option<String>,
    pub color: Option<String>,
}

#[derive(Debug, Clone)]
pub struct UserSummary {
    pub id: String,
    pub name: Option<String>,
    pub display_name: Option<String>,
}

#[derive(Debug, Clone)]
pub struct CycleSummary {
    pub id: String,
    pub name: Option<String>,
    pub number: i64,
    pub starts_at: Option<String>,
    pub ends_at: Option<String>,
    pub state: Option<String>,
    pub team: Option<TeamSummary>,
}

#[derive(Debug, Clone)]
pub struct GraphqlResponseError {
    pub message: String,
    pub path: Option<Vec<String>>,
}

} // verus!
