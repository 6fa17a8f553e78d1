pub mod model;
pub mod service;
pub mod usecase;
