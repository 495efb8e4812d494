//! The Linear issue data the bridge reads: from webhook payloads and from
//! GraphQL lookups for link previews.

use vstd::prelude::*;
use crate::kit::config::opt_view;

verus! {

/// An issue's assignee.
#[derive(Debug, Clone)]
pub struct Assignee {
    pub name: String,
    pub email: Option<String>,
}

/// The mathematical value of an [`Assignee`].
pub struct AssigneeView {
    pub name: Seq<char>,
    pub email: Option<Seq<char>>,
}

impl View for Assignee {
    type V = AssigneeView;

    open spec fn view(&self) -> AssigneeView {
        AssigneeView { name: self.name@, email: opt_view(self.email) }
    }
}

/// A Linear issue as the bridge reads it.
#[derive(Debug, Clone)]
pub struct IssueData {
    /// Linear's internal id (the debounce key).
    pub id: String,
    /// Human identifier such as `ENG-42`.
    pub identifier: String,
    pub title: String,
    pub description: Option<String>,
    /// Name of the workflow state (`In Progress`, …).
    pub state_name: String,
    /// Linear numeric priority, `0`–`4`.
    pub priority: u8,
    pub assignee: Option<Assignee>,
    /// The issue's web URL (filled by GraphQL lookups; webhooks carry the
    /// URL beside the issue).
    pub url: String,
}

/// The mathematical value of an [`IssueData`].
pub struct IssueDataView {
    pub id: Seq<char>,
    pub identifier: Seq<char>,
    pub title: Seq<char>,
    pub description: Option<Seq<char>>,
    pub state_name: Seq<char>,
    pub priority: u8,
    pub assignee: Option<AssigneeView>,
    pub url: Seq<char>,
}

impl View for IssueData {
    type V = IssueDataView;

    open spec fn view(&self) -> IssueDataView {
        IssueDataView {
            id: self.id@,
            identifier: self.identifier@,
            title: self.title@,
            description: opt_view(self.description),
            state_name: self.state_name@,
            priority: self.priority,
            assignee: match self.assignee {
                Some(a) => Some(a@),
                None => None,
            },
            url: self.url@,
        }
    }
}

} // verus!
