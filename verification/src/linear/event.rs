//! The normalized event model — the middle layer between sources and sinks.
//!
//! Every source turns its payload into an [`Event`]; sinks consume events
//! without knowing where they came from.

use vstd::prelude::*;
use crate::kit::config::opt_view;
use crate::routing::model::strs_view;

verus! {

/// Issue priority, normalized across sources.
#[derive(Debug, Clone, Copy, PartialEq, Eq, Structural)]
pub enum Priority {
    NoPriority,
    Urgent,
    High,
    Medium,
    Low,
}

/// The priority for a Linear numeric priority (`0`–`4`); anything else is
/// [`Priority::NoPriority`].
pub open spec fn priority_of(value: u8) -> Priority {
    if value == 1 {
        Priority::Urgent
    } else if value == 2 {
        Priority::High
    } else if value == 3 {
        Priority::Medium
    } else if value == 4 {
        Priority::Low
    } else {
        Priority::NoPriority
    }
}

/// The human-readable label of a priority.
pub open spec fn label_spec(p: Priority) -> Seq<char> {
    match p {
        Priority::Urgent => "Urgent"@,
        Priority::High => "High"@,
        Priority::Medium => "Medium"@,
        Priority::Low => "Low"@,
        Priority::NoPriority => "None"@,
    }
}

/// The colored circle shown beside a priority.
pub open spec fn emoji_spec(p: Priority) -> Seq<char> {
    match p {
        Priority::Urgent => "🔴"@,
        Priority::High => "🟠"@,
        Priority::Medium => "🟡"@,
        Priority::Low => "🔵"@,
        Priority::NoPriority => "⚪"@,
    }
}

/// `"{emoji} {label}"`.
pub open spec fn display_spec(p: Priority) -> Seq<char> {
    emoji_spec(p) + " "@ + label_spec(p)
}

impl Priority {
    /// Converts a Linear numeric priority (`0`–`4`).
    pub fn from_linear(value: u8) -> (p: Self)
        ensures
            p == priority_of(value),
    {
        match value {
            1 => Priority::Urgent,
            2 => Priority::High,
            3 => Priority::Medium,
            4 => Priority::Low,
            _ => Priority::NoPriority,
        }
    }

    /// Human-readable label (e.g. `"Urgent"`).
    pub fn label(&self) -> (s: &'static str)
        ensures
            s@ == label_spec(*self),
    {
        match self {
            Priority::Urgent => "Urgent",
            Priority::High => "High",
            Priority::Medium => "Medium",
            Priority::Low => "Low",
            Priority::NoPriority => "None",
        }
    }

    /// Colored circle emoji for display.
    pub fn emoji(&self) -> (s: &'static str)
        ensures
            s@ == emoji_spec(*self),
    {
        match self {
            Priority::Urgent => "🔴",
            Priority::High => "🟠",
            Priority::Medium => "🟡",
            Priority::Low => "🔵",
            Priority::NoPriority => "⚪",
        }
    }

    /// `"{emoji} {label}"` combined.
    pub fn display(&self) -> (s: String)
        ensures
            s@ == display_spec(*self),
    {
        let mut s = String::from_str(self.emoji());
        s.append(" ");
        s.append(self.label());
        s
    }
}

/// A normalized event produced by a source and consumed by sinks.
#[derive(Debug)]
pub enum Event {
    IssueCreated {
        source: String,
        identifier: String,
        title: String,
        description: Option<String>,
        status: String,
        priority: Priority,
        assignee: Option<String>,
        assignee_email: Option<String>,
        url: String,
        changes: Vec<String>,
    },
    IssueUpdated {
        source: String,
        identifier: String,
        title: String,
        description: Option<String>,
        status: String,
        priority: Priority,
        assignee: Option<String>,
        assignee_email: Option<String>,
        url: String,
        changes: Vec<String>,
    },
    CommentCreated {
        source: String,
        identifier: String,
        issue_title: String,
        author: String,
        body: String,
        url: String,
    },
}

/// The fields an issue event carries, as mathematical values.
pub struct IssueView {
    pub source: Seq<char>,
    pub identifier: Seq<char>,
    pub title: Seq<char>,
    pub description: Option<Seq<char>>,
    pub status: Seq<char>,
    pub priority: Priority,
    pub assignee: Option<Seq<char>>,
    pub assignee_email: Option<Seq<char>>,
    pub url: Seq<char>,
    pub changes: Seq<Seq<char>>,
}

/// The fields a comment event carries, as mathematical values.
pub struct CommentView {
    pub source: Seq<char>,
    pub identifier: Seq<char>,
    pub issue_title: Seq<char>,
    pub author: Seq<char>,
    pub body: Seq<char>,
    pub url: Seq<char>,
}

/// The mathematical value of an [`Event`].
pub enum EventView {
    Created(IssueView),
    Updated(IssueView),
    Comment(CommentView),
}

impl View for Event {
    type V = EventView;

    open spec fn view(&self) -> EventView {
        match self {
            Event::IssueCreated { source, identifier, title, description, status, priority, assignee, assignee_email, url, changes } =>
                EventView::Created(IssueView {
                    source: source@,
                    identifier: identifier@,
                    title: title@,
                    description: opt_view(*description),
                    status: status@,
                    priority: *priority,
                    assignee: opt_view(*assignee),
                    assignee_email: opt_view(*assignee_email),
                    url: url@,
                    changes: strs_view(changes@),
                }),
            Event::IssueUpdated { source, identifier, title, description, status, priority, assignee, assignee_email, url, changes } =>
                EventView::Updated(IssueView {
                    source: source@,
                    identifier: identifier@,
                    title: title@,
                    description: opt_view(*description),
                    status: status@,
                    priority: *priority,
                    assignee: opt_view(*assignee),
                    assignee_email: opt_view(*assignee_email),
                    url: url@,
                    changes: strs_view(changes@),
                }),
            Event::CommentCreated { source, identifier, issue_title, author, body, url } =>
                EventView::Comment(CommentView {
                    source: source@,
                    identifier: identifier@,
                    issue_title: issue_title@,
                    author: author@,
                    body: body@,
                    url: url@,
                }),
        }
    }
}

/// The change descriptions an event carries (none for comments).
pub open spec fn changes_of(e: EventView) -> Seq<Seq<char>> {
    match e {
        EventView::Created(i) => i.changes,
        EventView::Updated(i) => i.changes,
        EventView::Comment(_) => Seq::empty(),
    }
}

/// `e` with its change descriptions replaced (comments are unchanged).
pub open spec fn with_changes(e: EventView, cs: Seq<Seq<char>>) -> EventView {
    match e {
        EventView::Created(i) => EventView::Created(IssueView { changes: cs, ..i }),
        EventView::Updated(i) => EventView::Updated(IssueView { changes: cs, ..i }),
        EventView::Comment(c) => EventView::Comment(c),
    }
}

/// `e` promoted to a creation (an update keeps all its fields).
pub open spec fn promoted(e: EventView) -> EventView {
    match e {
        EventView::Updated(i) => EventView::Created(i),
        _ => e,
    }
}

impl Event {
    /// The accumulated change descriptions (empty for comments).
    pub fn changes(&self) -> (cs: &[String])
        ensures
            strs_view(cs@) == changes_of(self@),
    {
        match self {
            Event::IssueCreated { changes, .. } => changes.as_slice(),
            Event::IssueUpdated { changes, .. } => changes.as_slice(),
            Event::CommentCreated { .. } => {
                let empty: &[String] = &[];
                assert(strs_view(empty@) =~= Seq::<Seq<char>>::empty());
                empty
            }
        }
    }

    /// Replaces the change descriptions (no-op for comments).
    pub fn set_changes(&mut self, new_changes: Vec<String>)
        ensures
            final(self)@ == with_changes(old(self)@, strs_view(new_changes@)),
    {
        match self {
            Event::IssueCreated { changes, .. } => {
                *changes = new_changes;
            }
            Event::IssueUpdated { changes, .. } => {
                *changes = new_changes;
            }
            Event::CommentCreated { .. } => {}
        }
    }

    /// Whether this is an [`Event::IssueCreated`].
    pub fn is_issue_created(&self) -> (r: bool)
        ensures
            r == (self@ is Created),
    {
        matches!(self, Event::IssueCreated { .. })
    }

    /// Promotes an [`Event::IssueUpdated`] to [`Event::IssueCreated`],
    /// keeping every field; other events come back unchanged.
    pub fn promote_to_created(self) -> (e: Self)
        ensures
            e@ == promoted(self@),
    {
        match self {
            Event::IssueUpdated { source, identifier, title, description, status, priority, assignee, assignee_email, url, changes } =>
                Event::IssueCreated { source, identifier, title, description, status, priority, assignee, assignee_email, url, changes },
            other => other,
        }
    }
}

} // verus!
