//! The toolkit every Lark integration App shares: its Lark configuration,
//! webhook signature checks, and event-callback outcomes.

pub mod card;
pub mod config;
pub mod event;
pub mod slot;
pub mod utils;
