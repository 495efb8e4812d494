//! Turns [`Event`]s and [`IssueData`] into Lark interactive cards.

use vstd::prelude::*;
use crate::kit::card::{card, md_div, message, CardElement, CardView, ElementView, LarkCard, LarkMessage};
use crate::routing::model::strs_view;
use crate::text::{is_blank, join, join_spec, trim, trim_spec, truncate, truncate_spec};
use super::event::{display_spec, priority_of, Event, EventView, IssueView, Priority};
use super::models::{IssueData, IssueDataView};

verus! {

/// The longest description or comment body shown on a card, in characters.
pub const BODY_LIMIT: usize = 200;

/// The views of an optional borrowed string.
pub open spec fn opt_str_view(o: Option<&str>) -> Option<Seq<char>> {
    match o {
        Some(s) => Some(s@),
        None => None,
    }
}

/// `o` or, when absent, `"Unassigned"`.
pub open spec fn or_unassigned(o: Option<Seq<char>>) -> Seq<char> {
    match o {
        Some(s) => s,
        None => "Unassigned"@,
    }
}

/// The Lark header color for a priority.
pub open spec fn priority_color_spec(p: Priority) -> Seq<char> {
    match p {
        Priority::Urgent => "red"@,
        Priority::High => "orange"@,
        Priority::Medium => "yellow"@,
        _ => "blue"@,
    }
}

/// The "Status / Priority / Assignee" fields element: `**Status:** …`,
/// `**Priority:** …`, `**Assignee:** …`.
pub open spec fn fields_spec(status: Seq<char>, priority: Seq<char>, assignee: Option<Seq<char>>) -> ElementView {
    ElementView::Fields(seq![
        "**Status:** "@ + status,
        "**Priority:** "@ + priority,
        "**Assignee:** "@ + or_unassigned(assignee),
    ])
}

/// The "View in Linear" button element.
pub open spec fn button_spec(url: Seq<char>) -> ElementView {
    ElementView::Button { label: "View in Linear"@, url }
}

/// `**s**`.
pub open spec fn bold(s: Seq<char>) -> Seq<char> {
    "**"@ + s + "**"@
}

/// The description element: the trimmed description, shortened to
/// [`BODY_LIMIT`] characters, unless it is absent or blank.
pub open spec fn description_elements(description: Option<Seq<char>>) -> Seq<ElementView> {
    match description {
        Some(d) => if trim_spec(d).len() > 0 {
            seq![ElementView::Markdown(truncate_spec(trim_spec(d), BODY_LIMIT as nat))]
        } else {
            Seq::empty()
        },
        None => Seq::empty(),
    }
}

/// The change list element: the changes one per line, unless there are none.
pub open spec fn changes_elements(changes: Seq<Seq<char>>) -> Seq<ElementView> {
    if changes.len() > 0 {
        seq![ElementView::Markdown(join_spec(changes, "\n"@))]
    } else {
        Seq::empty()
    }
}

/// The card for an issue created or updated (`action`).
pub open spec fn issue_card_spec(
    action: Seq<char>,
    identifier: Seq<char>,
    title: Seq<char>,
    description: Option<Seq<char>>,
    status: Seq<char>,
    priority: Priority,
    assignee: Option<Seq<char>>,
    url: Seq<char>,
    changes: Seq<Seq<char>>,
) -> CardView {
    CardView {
        template: priority_color_spec(priority),
        title: "[Linear] "@ + action + ": "@ + identifier,
        title_tag: "plain_text"@,
        elements: seq![ElementView::Markdown(bold(title))]
            + description_elements(description)
            + changes_elements(changes)
            + seq![fields_spec(status, display_spec(priority), Some(or_unassigned(assignee))), button_spec(url)],
    }
}

/// How a comment card names the issue: `"{identifier}: {title}"`, or
/// `"an issue"` when the title is unknown.
pub open spec fn issue_ref(identifier: Seq<char>, issue_title: Seq<char>) -> Seq<char> {
    if issue_title.len() == 0 {
        "an issue"@
    } else {
        identifier + ": "@ + issue_title
    }
}

/// The card for a new comment.
pub open spec fn comment_card_spec(
    identifier: Seq<char>,
    issue_title: Seq<char>,
    author: Seq<char>,
    body: Seq<char>,
    url: Seq<char>,
) -> CardView {
    let shown = truncate_spec(trim_spec(body), BODY_LIMIT as nat);
    CardView {
        template: "blue"@,
        title: "[Linear] Comment: "@ + identifier,
        title_tag: "plain_text"@,
        elements: seq![ElementView::Markdown(bold(author) + " commented on "@ + bold(issue_ref(identifier, issue_title)))]
            + (if shown.len() > 0 { seq![ElementView::Markdown(shown)] } else { Seq::empty() })
            + seq![button_spec(url)],
    }
}

/// The group-webhook card for an event: updates show no description.
pub open spec fn lark_card_spec(e: EventView) -> CardView {
    match e {
        EventView::Created(i) => issue_card_spec("Created"@, i.identifier, i.title, i.description, i.status, i.priority, i.assignee, i.url, i.changes),
        EventView::Updated(i) => issue_card_spec("Updated"@, i.identifier, i.title, None, i.status, i.priority, i.assignee, i.url, i.changes),
        EventView::Comment(c) => comment_card_spec(c.identifier, c.issue_title, c.author, c.body, c.url),
    }
}

/// The DM card telling an assignee about an issue.
pub open spec fn assign_dm_spec(i: IssueView) -> CardView {
    CardView {
        template: priority_color_spec(i.priority),
        title: "[Linear] Assigned: "@ + i.identifier,
        title_tag: "plain_text"@,
        elements: seq![
            ElementView::Markdown("You've been assigned to **"@ + i.identifier + "**\n"@ + i.title),
            fields_spec(i.status, display_spec(i.priority), None),
            button_spec(i.url),
        ],
    }
}

/// The link-preview card for an issue looked up by URL.
pub open spec fn preview_spec(issue: IssueDataView) -> CardView {
    let p = priority_of(issue.priority);
    CardView {
        template: priority_color_spec(p),
        title: "[Linear] "@ + issue.identifier,
        title_tag: "plain_text"@,
        elements: seq![ElementView::Markdown(bold(issue.title))]
            + description_elements(issue.description)
            + seq![
                fields_spec(issue.state_name, display_spec(p), Some(or_unassigned(match issue.assignee {
                    Some(a) => Some(a.name),
                    None => None,
                }))),
                button_spec(issue.url),
            ],
    }
}

/// The element views of a card body.
pub open spec fn element_views(es: Seq<CardElement>) -> Seq<ElementView> {
    es.map_values(|e: CardElement| e@)
}

/// Appends `e` to `elements`.
fn push_element(elements: &mut Vec<CardElement>, e: CardElement)
    ensures
        element_views(final(elements)@) == element_views(old(elements)@).push(e@),
{
    elements.push(e);
    assert(element_views(elements@) =~= element_views(old(elements)@).push(e@));
}

/// The Lark header color template for a priority.
fn priority_color(priority: &Priority) -> (c: &'static str)
    ensures
        c@ == priority_color_spec(*priority),
{
    match priority {
        Priority::Urgent => "red",
        Priority::High => "orange",
        Priority::Medium => "yellow",
        _ => "blue",
    }
}

/// Builds a "Status / Priority / Assignee" fields block.
fn build_fields(status: &str, priority: &str, assignee: Option<&str>) -> (e: CardElement)
    ensures
        e@ == fields_spec(status@, priority@, opt_str_view(assignee)),
{
    let mut s = String::from_str("**Status:** ");
    s.append(status);
    let mut p = String::from_str("**Priority:** ");
    p.append(priority);
    let mut a = String::from_str("**Assignee:** ");
    match assignee {
        Some(x) => a.append(x),
        None => a.append("Unassigned"),
    }
    let mut fields: Vec<String> = Vec::new();
    fields.push(s);
    fields.push(p);
    fields.push(a);
    assert(strs_view(fields@) =~= seq![
        "**Status:** "@ + status@,
        "**Priority:** "@ + priority@,
        "**Assignee:** "@ + or_unassigned(opt_str_view(assignee)),
    ]);
    CardElement::Fields(fields)
}

/// Builds a "View in Linear" action button element.
fn build_action_button(url: &str) -> (e: CardElement)
    ensures
        e@ == button_spec(url@),
{
    CardElement::Button { label: String::from_str("View in Linear"), url: String::from_str(url) }
}

/// `**s**`.
fn bold_text(s: &str) -> (out: String)
    ensures
        out@ == bold(s@),
{
    let mut out = String::from_str("**");
    out.append(s);
    out.append("**");
    out
}

/// Appends the description element for `description`, if any.
fn push_description(elements: &mut Vec<CardElement>, description: Option<&str>)
    ensures
        element_views(final(elements)@) == element_views(old(elements)@) + description_elements(opt_str_view(description)),
{
    if let Some(desc) = description {
        proof {
            crate::text::lemma_trim_empty_iff_blank(desc@);
        }
        if !is_blank(desc) {
            let trimmed = trim(desc);
            let shown = truncate(trimmed.as_str(), BODY_LIMIT);
            push_element(elements, md_div(shown));
            assert(element_views(elements@) =~= element_views(old(elements)@) + description_elements(opt_str_view(description)));
            return;
        }
    }
    assert(element_views(elements@) =~= element_views(old(elements)@) + description_elements(opt_str_view(description)));
}

/// Formats an [`Event`] as a message for group-webhook delivery.
pub fn build_lark_card(event: &Event) -> (m: LarkMessage)
    ensures
        m.msg_type@ == "interactive"@,
        m.card@ == lark_card_spec(event@),
        m.card.plain_title(),
{
    match event {
        Event::IssueCreated { identifier, title, description, status, priority, assignee, url, changes, .. } => {
            let d = match description {
                Some(s) => Some(s.as_str()),
                None => None,
            };
            let a = match assignee {
                Some(s) => Some(s.as_str()),
                None => None,
            };
            build_issue_card("Created", identifier.as_str(), title.as_str(), d, status.as_str(), priority, a, url.as_str(), changes.as_slice())
        },
        Event::IssueUpdated { identifier, title, status, priority, assignee, url, changes, .. } => {
            let a = match assignee {
                Some(s) => Some(s.as_str()),
                None => None,
            };
            build_issue_card("Updated", identifier.as_str(), title.as_str(), None, status.as_str(), priority, a, url.as_str(), changes.as_slice())
        },
        Event::CommentCreated { identifier, issue_title, author, body, url, .. } => {
            build_comment_card(identifier.as_str(), issue_title.as_str(), author.as_str(), body.as_str(), url.as_str())
        },
    }
}

/// The card for an issue created or updated.
fn build_issue_card(
    action: &str,
    identifier: &str,
    title: &str,
    description: Option<&str>,
    status: &str,
    priority: &Priority,
    assignee: Option<&str>,
    url: &str,
    changes: &[String],
) -> (m: LarkMessage)
    ensures
        m.msg_type@ == "interactive"@,
        m.card@ == issue_card_spec(action@, identifier@, title@, opt_str_view(description), status@, *priority, opt_str_view(assignee), url@, strs_view(changes@)),
        m.card.plain_title(),
{
    let color = priority_color(priority);
    let assignee_name = match assignee {
        Some(a) => a,
        None => "Unassigned",
    };
    let mut elements: Vec<CardElement> = Vec::new();
    push_element(&mut elements, md_div(bold_text(title)));
    push_description(&mut elements, description);
    let ghost before_changes = element_views(elements@);
    if changes.len() > 0 {
        let change_text = join(changes, "\n");
        assert(changes@.map_values(|s: String| s@) =~= strs_view(changes@));
        push_element(&mut elements, md_div(change_text));
    }
    assert(element_views(elements@) =~= before_changes + changes_elements(strs_view(changes@)));
    let shown_priority = priority.display();
    push_element(&mut elements, build_fields(status, shown_priority.as_str(), Some(assignee_name)));
    push_element(&mut elements, build_action_button(url));
    let mut header = String::from_str("[Linear] ");
    header.append(action);
    header.append(": ");
    header.append(identifier);
    let c = card(color, header, elements);
    proof {
        let spec = issue_card_spec(action@, identifier@, title@, opt_str_view(description), status@, *priority, opt_str_view(assignee), url@, strs_view(changes@));
        assert(c@.elements =~= spec.elements);
    }
    message(c)
}

/// The card for a new comment.
fn build_comment_card(identifier: &str, issue_title: &str, author: &str, body: &str, url: &str) -> (m: LarkMessage)
    ensures
        m.msg_type@ == "interactive"@,
        m.card@ == comment_card_spec(identifier@, issue_title@, author@, body@, url@),
        m.card.plain_title(),
{
    let issue_ref_text = if issue_title.unicode_len() == 0 {
        String::from_str("an issue")
    } else {
        let mut r = String::from_str(identifier);
        r.append(": ");
        r.append(issue_title);
        r
    };
    let mut elements: Vec<CardElement> = Vec::new();
    let mut first = bold_text(author);
    first.append(" commented on ");
    let reference = bold_text(issue_ref_text.as_str());
    first.append(reference.as_str());
    push_element(&mut elements, md_div(first));
    let trimmed = trim(body);
    let shown = truncate(trimmed.as_str(), BODY_LIMIT);
    let ghost before_body = element_views(elements@);
    if shown.as_str().unicode_len() > 0 {
        push_element(&mut elements, md_div(shown));
    }
    push_element(&mut elements, build_action_button(url));
    let mut header = String::from_str("[Linear] Comment: ");
    header.append(identifier);
    let c = card("blue", header, elements);
    proof {
        let spec = comment_card_spec(identifier@, issue_title@, author@, body@, url@);
        assert(c@.elements =~= spec.elements);
    }
    message(c)
}

/// Builds the DM card telling the assignee about an issue event.
pub fn build_assign_dm_card(event: &Event) -> (c: LarkCard)
    requires
        !(event@ is Comment),
    ensures
        c@ == assign_dm_spec(match event@ {
            EventView::Created(i) => i,
            EventView::Updated(i) => i,
            EventView::Comment(_) => arbitrary(),
        }),
        c.plain_title(),
{
    let (identifier, title, status, priority, url) = match event {
        Event::IssueCreated { identifier, title, status, priority, url, .. } => (identifier, title, status, priority, url),
        Event::IssueUpdated { identifier, title, status, priority, url, .. } => (identifier, title, status, priority, url),
        Event::CommentCreated { .. } => {
            assert(false);
            return LarkCard {
                header: crate::kit::card::LarkHeader {
                    template: String::new(),
                    title: crate::kit::card::LarkTitle { content: String::new(), tag: "plain_text" },
                },
                elements: Vec::new(),
            };
        },
    };
    let mut elements: Vec<CardElement> = Vec::new();
    let mut line = String::from_str("You've been assigned to **");
    line.append(identifier.as_str());
    line.append("**\n");
    line.append(title.as_str());
    push_element(&mut elements, md_div(line));
    let shown_priority = priority.display();
    push_element(&mut elements, build_fields(status.as_str(), shown_priority.as_str(), None));
    push_element(&mut elements, build_action_button(url.as_str()));
    let mut header = String::from_str("[Linear] Assigned: ");
    header.append(identifier.as_str());
    let c = card(priority_color(priority), header, elements);
    proof {
        let i = match event@ {
            EventView::Created(i) => i,
            EventView::Updated(i) => i,
            EventView::Comment(_) => arbitrary(),
        };
        assert(c@.elements =~= assign_dm_spec(i).elements);
    }
    c
}

/// Builds the inline preview card for an issue fetched by URL (link
/// unfurling; no [`Event`] involved).
pub fn build_preview_card(issue: &IssueData) -> (c: LarkCard)
    ensures
        c@ == preview_spec(issue@),
        c.plain_title(),
{
    let priority = Priority::from_linear(issue.priority);
    let color = priority_color(&priority);
    let assignee = match &issue.assignee {
        Some(a) => a.name.as_str(),
        None => "Unassigned",
    };
    let mut elements: Vec<CardElement> = Vec::new();
    push_element(&mut elements, md_div(bold_text(issue.title.as_str())));
    let d = match &issue.description {
        Some(s) => Some(s.as_str()),
        None => None,
    };
    push_description(&mut elements, d);
    let shown_priority = priority.display();
    push_element(&mut elements, build_fields(issue.state_name.as_str(), shown_priority.as_str(), Some(assignee)));
    push_element(&mut elements, build_action_button(issue.url.as_str()));
    let mut header = String::from_str("[Linear] ");
    header.append(issue.identifier.as_str());
    let c = card(color, header, elements);
    proof {
        assert(c@.elements =~= preview_spec(issue@).elements);
    }
    c
}

} // verus!
