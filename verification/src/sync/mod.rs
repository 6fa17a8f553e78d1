pub mod update_check;
