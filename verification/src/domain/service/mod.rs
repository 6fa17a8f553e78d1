//! In-memory caches of the signed-in session and the services that read and
//! fill them. Every cache lives in one [`session_caches::SessionCaches`] value
//! that the caller owns and hands to the service functions.
pub mod attendance_service;
pub mod company_service;
pub mod explanation_type_service;
pub mod main_info_service;
pub mod policy_service;
pub mod session_caches;
pub mod subscription_service;
pub mod team_service;
pub mod user_service;
pub mod work_status_service;
