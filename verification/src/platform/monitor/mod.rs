pub mod idle_detector;
pub mod input;
pub mod policy;
