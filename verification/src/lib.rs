use vstd::prelude::*;

pub mod text;
pub mod time;
pub mod domain;
pub mod dto;
pub mod lunch;
pub mod platform;
pub mod sync;
pub mod ui;
pub mod util;

verus! {
} // verus!
