//! How a routed card reaches each destination through the App's bot.

use vstd::prelude::*;
use super::model::{DestKind, Destination, DestinationView};

verus! {

/// Which bot call delivers to a destination.
#[derive(Debug, Clone)]
pub enum DeliveryRoute {
    /// Post to the group chat `chat_id`.
    Chat(String),
    /// DM by email: a DM target that contains `@` (manual entries).
    DmEmail(String),
    /// DM by user `open_id` (what the console's user picker stores).
    DmOpenId(String),
}

/// The mathematical value of a [`DeliveryRoute`].
pub enum RouteView {
    Chat(Seq<char>),
    DmEmail(Seq<char>),
    DmOpenId(Seq<char>),
}

impl View for DeliveryRoute {
    type V = RouteView;

    open spec fn view(&self) -> RouteView {
        match self {
            DeliveryRoute::Chat(t) => RouteView::Chat(t@),
            DeliveryRoute::DmEmail(t) => RouteView::DmEmail(t@),
            DeliveryRoute::DmOpenId(t) => RouteView::DmOpenId(t@),
        }
    }
}

/// The route of a destination.
pub open spec fn route_spec(d: DestinationView) -> RouteView {
    match d.kind {
        DestKind::Chat => RouteView::Chat(d.target),
        DestKind::Dm => if d.target.contains('@') {
            RouteView::DmEmail(d.target)
        } else {
            RouteView::DmOpenId(d.target)
        },
    }
}

/// Picks the bot call for one destination.
pub fn delivery_route(dest: &Destination) -> (r: DeliveryRoute)
    ensures
        r@ == route_spec(dest@),
{
    match dest.kind {
        DestKind::Chat => DeliveryRoute::Chat(dest.target.clone()),
        DestKind::Dm => {
            let v = crate::text::chars_of(dest.target.as_str());
            let mut i: usize = 0;
            let mut at = false;
            while i < v.len()
                invariant
                    v@ == dest.target@,
                    i <= v@.len(),
                    at == exists|k: int| 0 <= k < i && v@[k] == '@',
                decreases v@.len() - i,
            {
                if v[i] == '@' {
                    at = true;
                }
                i = i + 1;
            }
            if at {
                DeliveryRoute::DmEmail(dest.target.clone())
            } else {
                DeliveryRoute::DmOpenId(dest.target.clone())
            }
        },
    }
}

/// The routes for every destination, in order; none without a bot (delivery
/// is then skipped).
pub fn delivery_routes(has_bot: bool, dests: &[Destination]) -> (rs: Vec<DeliveryRoute>)
    ensures
        !has_bot ==> rs@.len() == 0,
        has_bot ==> rs@.len() == dests@.len()
            && forall|i: int| 0 <= i < dests@.len() ==> (#[trigger] rs@[i])@ == route_spec(dests@[i]@),
{
    let mut rs: Vec<DeliveryRoute> = Vec::new();
    if !has_bot {
        return rs;
    }
    let mut i: usize = 0;
    while i < dests.len()
        invariant
            i <= dests@.len(),
            rs@.len() == i,
            forall|k: int| 0 <= k < i ==> (#[trigger] rs@[k])@ == route_spec(dests@[k]@),
        decreases dests@.len() - i,
    {
        rs.push(delivery_route(&dests[i]));
        i = i + 1;
    }
    rs
}

} // verus!
