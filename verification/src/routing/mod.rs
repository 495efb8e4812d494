//! Console-configurable notification routing, shared by the source integrations.
//!
//! An integration maps a *subject* (a project/repo path such as `group/project`)
//! and an *event* string to one or more Lark [`Destination`]s: a group chat by
//! `chat_id`, or a DM by user `open_id`/email. The matcher and model are
//! source-agnostic; each App supplies its own subject and event vocabulary
//! through a [`RoutingSpec`].

pub mod matcher;
pub mod model;
pub mod admin;
pub mod delivery;
pub mod laws;
pub mod spec;
pub mod validate;

pub use model::{Config, DestKind, Destination, Rule, UserMap, KEY};
pub use spec::{RoutingEvent, RoutingFeatures, RoutingSpec, SubjectSpec};
