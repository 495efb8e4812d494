//! Lark interactive-card building blocks, shared by every integration's cards.
//!
//! A card is held as typed elements; rendering them to Lark's card JSON is a
//! field-for-field mapping done at the HTTP edge.

use vstd::prelude::*;
use crate::routing::model::strs_view;

verus! {

/// One element of a card body.
#[derive(Debug, Clone)]
pub enum CardElement {
    /// A `lark_md` text `div`.
    Markdown(String),
    /// A `div` of short `lark_md` fields, each with this content.
    Fields(Vec<String>),
    /// An action row with one primary button linking to `url`.
    Button { label: String, url: String },
    /// An action row with one primary button linking to `url` on every
    /// platform (`multi_url` set for android, ios and pc too).
    MultiUrlButton { label: String, url: String },
}

/// The mathematical value of a [`CardElement`].
pub enum ElementView {
    Markdown(Seq<char>),
    Fields(Seq<Seq<char>>),
    Button { label: Seq<char>, url: Seq<char> },
    MultiUrlButton { label: Seq<char>, url: Seq<char> },
}

impl View for CardElement {
    type V = ElementView;

    open spec fn view(&self) -> ElementView {
        match self {
            CardElement::Markdown(s) => ElementView::Markdown(s@),
            CardElement::Fields(fields) => ElementView::Fields(strs_view(fields@)),
            CardElement::Button { label, url } => ElementView::Button { label: label@, url: url@ },
            CardElement::MultiUrlButton { label, url } => ElementView::MultiUrlButton { label: label@, url: url@ },
        }
    }
}

/// A card title: `plain_text` content.
#[derive(Debug, Clone)]
pub struct LarkTitle {
    pub content: String,
    pub tag: &'static str,
}

/// A card header: color template plus title.
#[derive(Debug, Clone)]
pub struct LarkHeader {
    pub template: String,
    pub title: LarkTitle,
}

/// An interactive card.
#[derive(Debug, Clone)]
pub struct LarkCard {
    pub header: LarkHeader,
    pub elements: Vec<CardElement>,
}

/// An interactive card wrapped for group-webhook delivery.
#[derive(Debug, Clone)]
pub struct LarkMessage {
    pub msg_type: &'static str,
    pub card: LarkCard,
}

/// The mathematical value of a [`LarkCard`].
pub struct CardView {
    pub template: Seq<char>,
    pub title: Seq<char>,
    pub title_tag: Seq<char>,
    pub elements: Seq<ElementView>,
}

impl View for LarkCard {
    type V = CardView;

    open spec fn view(&self) -> CardView {
        CardView {
            template: self.header.template@,
            title: self.header.title.content@,
            title_tag: self.header.title.tag@,
            elements: self.elements@.map_values(|e: CardElement| e@),
        }
    }
}

impl LarkCard {
    /// Whether the title carries the `plain_text` tag, as every card built
    /// here does.
    pub open spec fn plain_title(&self) -> bool {
        self@.title_tag == "plain_text"@
    }
}

/// A `lark_md` text `div`.
pub fn md_div(content: String) -> (e: CardElement)
    ensures
        e@ == ElementView::Markdown(content@),
{
    CardElement::Markdown(content)
}

/// A single-button action row linking to `url` with a custom label.
pub fn link_button(url: String, label: String) -> (e: CardElement)
    ensures
        e@ == (ElementView::Button { label: label@, url: url@ }),
{
    CardElement::Button { label, url }
}

/// A card with a colored header and the given elements.
pub fn card(color: &str, header: String, elements: Vec<CardElement>) -> (c: LarkCard)
    ensures
        c@.template == color@,
        c@.title == header@,
        c@.title_tag == "plain_text"@,
        c.elements@ == elements@,
        c.plain_title(),
{
    LarkCard {
        header: LarkHeader {
            template: String::from_str(color),
            title: LarkTitle { content: header, tag: "plain_text" },
        },
        elements,
    }
}

/// Wraps a card in an `interactive` message for webhook delivery.
pub fn message(card: LarkCard) -> (m: LarkMessage)
    ensures
        m.msg_type@ == "interactive"@,
        m.card == card,
{
    LarkMessage { msg_type: "interactive", card }
}

} // verus!
