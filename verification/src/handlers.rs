//! The service layer: each operation loads entities from the store, asks the
//! state machine whether the request is legal, and routes every mutation back
//! through the store's atomic `update`.
//!
//! Because other writers may run between a load and the write-back, each
//! operation promises only what holds whatever the interleaving: the guards'
//! verdicts on the loaded copy, and the shape of the value the mutator wrote.

pub mod groups;
pub mod hangouts;
pub mod pings;
pub mod responses;
pub mod users;
