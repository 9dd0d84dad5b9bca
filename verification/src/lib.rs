//! A forwarding bot's core: poll an imageboard's popular-recent feed,
//! resolve each entry's publish unit (the post alone or its sibling set),
//! decide against a dedup cache whether the unit was already delivered,
//! publish it as a capped photo group with a single bounded retry on rate
//! limiting, and commit the delivery only once the transport confirmed it.
//!
//! Every decision lives here, verified; fetching, the cache's transport and
//! the outgoing messages are the caller's work, requested one action at a
//! time through the tick and entry state machines in [`tick`].

pub mod caption;
pub mod config;
pub mod dedup;
pub mod dispatch;
pub mod errors;
pub mod grouping;
pub mod post;
pub mod text;
pub mod tick;
