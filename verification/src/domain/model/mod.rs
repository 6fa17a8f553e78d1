pub mod attendance;
pub mod company;
pub mod main_info;
pub mod policy;
pub mod subscription;
pub mod team;
pub mod user;
