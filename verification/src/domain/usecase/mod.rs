pub mod user_usecase;
