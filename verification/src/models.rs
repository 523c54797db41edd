//! Domain entities: pure data plus small invariant-preserving mutators.

pub mod error;
pub mod group;
pub mod hangout;
pub mod ping;
pub mod response;
pub mod user;

pub use error::{ApiError, AppError, AppJson};
pub use group::{
    generate_invite_code, CreateGroupRequest, Group, JoinGroupRequest, LeaveGroupRequest,
    RegenerateInviteRequest,
};
pub use hangout::{
    AttendeeStatus, ConfirmHangoutRequest, Hangout, HangoutData, HangoutStatus, MatchResults,
    TimeOverlap, Timeline, UpdateAttendeeStatusRequest,
};
pub use ping::{
    CancelPingRequest, CreatePingRequest, Ping, PingLifecycle, PingState, TriggerMatchRequest,
};
pub use user::{CreateUserRequest, Location, UpdateUserRequest, User, UserPreferences};
pub use response::{
    Availability, CreateResponseRequest, Response, ResponsePreferences, UpdateResponseRequest,
};
