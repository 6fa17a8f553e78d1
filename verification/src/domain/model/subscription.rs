//! Company plan: whether the PIN+ feature (PC tracking) is on.
use vstd::prelude::*;

verus! {

#[derive(Debug, Clone, Copy)]
pub struct Subscription {
    /// PIN+ permission; without it the program is not used for tracking.
    pub pin_plus_active: bool,
    /// Paid plan flag, kept for notices.
    pub paid_active: bool,
}

} // verus!
