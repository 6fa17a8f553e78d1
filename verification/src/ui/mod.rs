pub mod explanation_list_view;
pub mod settings_view;
pub mod explanation_input_view;
pub mod login_view;
pub mod router;
pub mod status_view;
pub mod update_view;
