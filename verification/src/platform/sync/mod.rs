//! Decisions of the background synchronisation loops (events, policy, user
//! information, heartbeat). The loops themselves wait, call the server and
//! store results; what they decide is here.
pub mod event_sync;
pub mod heartbeat;
pub mod policy_sync;
pub mod user_info_sync;
