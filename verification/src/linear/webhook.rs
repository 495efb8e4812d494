//! Handling of `POST /webhook` from Linear: authenticate the body, route the
//! payload, and turn it into an event that is either debounced (issues) or
//! dispatched at once (comments).
//!
//! The HTTP layer parses the JSON body into a [`LinearPayload`]; everything
//! it then does is decided by [`plan_webhook`].

use vstd::prelude::*;
use crate::kit::config::{clone_opt, opt_view};
use crate::kit::utils::{hmac_hex_matches, verify_hmac_sha256};
use crate::routing::model::strs_view;
use crate::text::str_eq;
use super::event::{priority_of, Event, EventView, IssueView, Priority};
use super::models::{IssueData, IssueDataView};

verus! {

/// The HTTP status a webhook request is answered with.
#[derive(Debug, Clone, Copy, PartialEq, Eq, Structural)]
pub enum WebhookStatus {
    /// `200 OK`.
    Accepted,
    /// `401 Unauthorized`: signature missing or wrong.
    Unauthorized,
    /// `400 Bad Request`: the payload or its data did not parse.
    BadRequest,
}

/// Which handler a `(type, action)` pair selects.
#[derive(Debug, Clone, Copy, PartialEq, Eq, Structural)]
pub enum WebhookRoute {
    IssueCreate,
    IssueUpdate,
    CommentCreate,
    Ignore,
}

/// The route of a payload `type` / `action`.
pub open spec fn route_spec(kind: Seq<char>, action: Seq<char>) -> WebhookRoute {
    if kind == "Issue"@ && action == "create"@ {
        WebhookRoute::IssueCreate
    } else if kind == "Issue"@ && action == "update"@ {
        WebhookRoute::IssueUpdate
    } else if kind == "Comment"@ && action == "create"@ {
        WebhookRoute::CommentCreate
    } else {
        WebhookRoute::Ignore
    }
}

/// Routes a payload by its `type` and `action`.
pub fn route(kind: &str, action: &str) -> (r: WebhookRoute)
    ensures
        r == route_spec(kind@, action@),
{
    if str_eq(kind, "Issue") && str_eq(action, "create") {
        WebhookRoute::IssueCreate
    } else if str_eq(kind, "Issue") && str_eq(action, "update") {
        WebhookRoute::IssueUpdate
    } else if str_eq(kind, "Comment") && str_eq(action, "create") {
        WebhookRoute::CommentCreate
    } else {
        WebhookRoute::Ignore
    }
}

/// The issue a comment belongs to.
#[derive(Debug, Clone)]
pub struct CommentIssue {
    pub identifier: String,
    pub title: String,
}

/// A comment's data.
#[derive(Debug, Clone)]
pub struct CommentData {
    pub body: String,
    pub issue: Option<CommentIssue>,
}

/// The `updatedFrom` object of an update: the previous values of the fields
/// that changed.
#[derive(Debug, Clone)]
pub struct UpdatedFrom {
    pub assignee_id: Option<String>,
}

/// A parsed Linear webhook payload. `data` is read both ways the handler may
/// need it; a reading is `None` when the data does not have that shape.
#[derive(Debug, Clone)]
pub struct LinearPayload {
    /// The payload `type` (`Issue`, `Comment`, …).
    pub kind: String,
    pub action: String,
    pub url: String,
    /// `data` read as an issue.
    pub issue: Option<IssueData>,
    /// `data` read as a comment.
    pub comment: Option<CommentData>,
    /// The name of `data.user`, when it reads as an actor.
    pub actor: Option<String>,
    /// `updatedFrom`, when present and readable.
    pub updated_from: Option<UpdatedFrom>,
    /// The change descriptions derived from `updatedFrom`.
    pub changes: Vec<String>,
}

/// The assignee's name, if any.
pub open spec fn assignee_name(issue: IssueDataView) -> Option<Seq<char>> {
    match issue.assignee {
        Some(a) => Some(a.name),
        None => None,
    }
}

/// The assignee's email, if any.
pub open spec fn assignee_email(issue: IssueDataView) -> Option<Seq<char>> {
    match issue.assignee {
        Some(a) => a.email,
        None => None,
    }
}

/// The event an issue becomes.
pub open spec fn issue_event_spec(issue: IssueDataView, url: Seq<char>, changes: Seq<Seq<char>>, is_create: bool) -> EventView {
    let fields = IssueView {
        source: "linear"@,
        identifier: issue.identifier,
        title: issue.title,
        description: issue.description,
        status: issue.state_name,
        priority: priority_of(issue.priority),
        assignee: assignee_name(issue),
        assignee_email: assignee_email(issue),
        url,
        changes,
    };
    if is_create {
        EventView::Created(fields)
    } else {
        EventView::Updated(fields)
    }
}

/// Converts a Linear issue into an [`Event`].
pub fn issue_to_event(issue: &IssueData, url: &str, changes: Vec<String>, is_create: bool) -> (e: Event)
    ensures
        e@ == issue_event_spec(issue@, url@, strs_view(changes@), is_create),
{
    let assignee = match &issue.assignee {
        Some(a) => Some(a.name.clone()),
        None => None,
    };
    let assignee_email = match &issue.assignee {
        Some(a) => clone_opt(&a.email),
        None => None,
    };
    let source = String::from_str("linear");
    let identifier = issue.identifier.clone();
    let title = issue.title.clone();
    let description = clone_opt(&issue.description);
    let status = issue.state_name.clone();
    let priority = Priority::from_linear(issue.priority);
    let url = String::from_str(url);
    if is_create {
        Event::IssueCreated { source, identifier, title, description, status, priority, assignee, assignee_email, url, changes }
    } else {
        Event::IssueUpdated { source, identifier, title, description, status, priority, assignee, assignee_email, url, changes }
    }
}

/// What the handler does with a request.
#[derive(Debug)]
pub enum WebhookAction {
    /// Answer with this status and do nothing else.
    Reject(WebhookStatus),
    /// Queue `event` under the issue id `key` for debounced delivery (with a
    /// DM to `dm_email` when set), then answer `200`.
    Debounce { key: String, event: Event, dm_email: Option<String> },
    /// Deliver `event` now, then answer `200`.
    Dispatch(Event),
    /// Nothing to do; answer `200`.
    Ignore,
}

/// The mathematical value of a [`WebhookAction`].
pub enum ActionView {
    Reject(WebhookStatus),
    Debounce { key: Seq<char>, event: EventView, dm_email: Option<Seq<char>> },
    Dispatch(EventView),
    Ignore,
}

impl View for WebhookAction {
    type V = ActionView;

    open spec fn view(&self) -> ActionView {
        match self {
            WebhookAction::Reject(s) => ActionView::Reject(*s),
            WebhookAction::Debounce { key, event, dm_email } => ActionView::Debounce { key: key@, event: event@, dm_email: opt_view(*dm_email) },
            WebhookAction::Dispatch(e) => ActionView::Dispatch(e@),
            WebhookAction::Ignore => ActionView::Ignore,
        }
    }
}

impl WebhookAction {
    /// The status the request is answered with.
    pub fn status(&self) -> (s: WebhookStatus)
        ensures
            s == match self@ {
                ActionView::Reject(s) => s,
                _ => WebhookStatus::Accepted,
            },
    {
        match self {
            WebhookAction::Reject(s) => *s,
            _ => WebhookStatus::Accepted,
        }
    }
}

/// The event a comment becomes: unknown issues show as `?` with an empty
/// title, an unknown author as `Someone`.
pub open spec fn comment_event_spec(comment_body: Seq<char>, issue: Option<(Seq<char>, Seq<char>)>, actor: Option<Seq<char>>, url: Seq<char>) -> EventView {
    EventView::Comment(super::event::CommentView {
        source: "linear"@,
        identifier: match issue { Some(i) => i.0, None => "?"@ },
        issue_title: match issue { Some(i) => i.1, None => Seq::empty() },
        author: match actor { Some(a) => a, None => "Someone"@ },
        body: comment_body,
        url,
    })
}

/// The issue of a comment as `(identifier, title)`.
pub open spec fn comment_issue_view(c: CommentData) -> Option<(Seq<char>, Seq<char>)> {
    match c.issue {
        Some(i) => Some((i.identifier@, i.title@)),
        None => None,
    }
}

/// Whether an update changed the assignee.
pub open spec fn assignee_changed(updated_from: Option<UpdatedFrom>) -> bool {
    match updated_from {
        Some(uf) => uf.assignee_id is Some,
        None => false,
    }
}

/// What a request comes to: signature first, then the payload, then the
/// route.
pub open spec fn plan_spec(secret: Seq<char>, body: Seq<u8>, signature: Option<Seq<char>>, payload: Option<LinearPayload>) -> ActionView {
    match signature {
        None => ActionView::Reject(WebhookStatus::Unauthorized),
        Some(sig) => if !hmac_hex_matches(secret, body, sig) {
            ActionView::Reject(WebhookStatus::Unauthorized)
        } else {
            match payload {
                None => ActionView::Reject(WebhookStatus::BadRequest),
                Some(p) => match route_spec(p.kind@, p.action@) {
                    WebhookRoute::IssueCreate => match p.issue {
                        None => ActionView::Reject(WebhookStatus::BadRequest),
                        Some(i) => ActionView::Debounce {
                            key: i.id@,
                            event: issue_event_spec(i@, p.url@, Seq::empty(), true),
                            dm_email: assignee_email(i@),
                        },
                    },
                    WebhookRoute::IssueUpdate => match p.issue {
                        None => ActionView::Reject(WebhookStatus::BadRequest),
                        Some(i) => ActionView::Debounce {
                            key: i.id@,
                            event: issue_event_spec(i@, p.url@, strs_view(p.changes@), false),
                            dm_email: if assignee_changed(p.updated_from) { assignee_email(i@) } else { None },
                        },
                    },
                    WebhookRoute::CommentCreate => match p.comment {
                        None => ActionView::Reject(WebhookStatus::BadRequest),
                        Some(c) => ActionView::Dispatch(comment_event_spec(c.body@, comment_issue_view(c), opt_view(p.actor), p.url@)),
                    },
                    WebhookRoute::Ignore => ActionView::Ignore,
                },
            }
        },
    }
}

/// Decides what a webhook request comes to. `signature` is the
/// `linear-signature` header, `payload` the body parsed as JSON (`None` when
/// it did not parse).
pub fn plan_webhook(secret: &str, body: &[u8], signature: Option<&str>, payload: Option<LinearPayload>) -> (a: WebhookAction)
    ensures
        a@ == plan_spec(secret@, body@, match signature { Some(s) => Some(s@), None => None }, payload),
{
    let sig = match signature {
        Some(s) => s,
        None => return WebhookAction::Reject(WebhookStatus::Unauthorized),
    };
    if !verify_hmac_sha256(secret, body, sig) {
        return WebhookAction::Reject(WebhookStatus::Unauthorized);
    }
    let p = match payload {
        Some(p) => p,
        None => return WebhookAction::Reject(WebhookStatus::BadRequest),
    };
    match route(p.kind.as_str(), p.action.as_str()) {
        WebhookRoute::IssueCreate => match &p.issue {
            None => WebhookAction::Reject(WebhookStatus::BadRequest),
            Some(issue) => {
                let dm_email = match &issue.assignee {
                    Some(a) => clone_opt(&a.email),
                    None => None,
                };
                let event = issue_to_event(issue, p.url.as_str(), Vec::new(), true);
                proof {
                    assert(strs_view(Seq::<String>::empty()) =~= Seq::<Seq<char>>::empty());
                }
                WebhookAction::Debounce { key: issue.id.clone(), event, dm_email }
            },
        },
        WebhookRoute::IssueUpdate => match &p.issue {
            None => WebhookAction::Reject(WebhookStatus::BadRequest),
            Some(issue) => {
                let changed = match &p.updated_from {
                    Some(uf) => uf.assignee_id.is_some(),
                    None => false,
                };
                let dm_email = if changed {
                    match &issue.assignee {
                        Some(a) => clone_opt(&a.email),
                        None => None,
                    }
                } else {
                    None
                };
                let event = issue_to_event(issue, p.url.as_str(), p.changes.clone(), false);
                WebhookAction::Debounce { key: issue.id.clone(), event, dm_email }
            },
        },
        WebhookRoute::CommentCreate => match p.comment {
            None => WebhookAction::Reject(WebhookStatus::BadRequest),
            Some(comment) => {
                let (identifier, issue_title) = match &comment.issue {
                    Some(i) => (i.identifier.clone(), i.title.clone()),
                    None => (String::from_str("?"), String::new()),
                };
                let author = match p.actor {
                    Some(a) => a,
                    None => String::from_str("Someone"),
                };
                WebhookAction::Dispatch(Event::CommentCreated {
                    source: String::from_str("linear"),
                    identifier,
                    issue_title,
                    author,
                    body: comment.body,
                    url: p.url,
                })
            },
        },
        WebhookRoute::Ignore => WebhookAction::Ignore,
    }
}

} // verus!
