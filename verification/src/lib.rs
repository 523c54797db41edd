//! Coordination core for spontaneous social meetups: a user pings a group,
//! members respond with availability, a matching engine computes whether the
//! attendees' free-time windows overlap, and the ping advances through a
//! lifecycle state machine to a scheduled hangout, backed by a concurrent
//! in-memory entity store.

pub mod handlers;
pub mod ids;
pub mod intent;
pub mod matching;
pub mod models;
pub mod state;
pub mod state_machine;
pub mod text;
pub mod time;
pub mod what;
pub mod when;
pub mod who;

pub use ids::Id;
pub use time::Timestamp;
