pub mod credential_store;
pub mod device;
pub mod monitor;
pub mod notify;
pub mod sync;
