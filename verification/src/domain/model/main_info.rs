//! Main screen information of the signed-in worker.
use vstd::prelude::*;
use crate::text::{chars_of, chars_starts_with, starts_with};

verus! {

#[derive(Debug)]
pub struct MainInfo {
    /// Clock-in time ("HH:MM").
    pub start_time: String,
    /// Clock-out time ("HH:MM").
    pub end_time: String,
    /// Join date; "1900-01-01" means not set.
    pub join_date: String,
    pub remaining_annual_minutes: i64,
    pub work_minutes: i64,
    pub add_minutes: i64,
    pub used_minutes: i64,
    pub unread_message_count: i32,
    pub deduct_on_late: bool,
    pub deduct_on_early_leave: bool,
    pub deduct_on_outing: bool,
    pub annual_by_join_date: bool,
    pub daily_annual_by_join_date: bool,
    /// The company uses break time (the lunch window applies).
    pub use_break_time: bool,
    pub use_schedule: bool,
    pub auto_checkout_mode: i32,
    pub commute_notify: bool,
    pub work_52h_unit: i32,
}

impl Clone for MainInfo {
    fn clone(&self) -> (r: Self)
        ensures
            r == *self,
    {
        MainInfo {
            start_time: self.start_time.clone(),
            end_time: self.end_time.clone(),
            join_date: self.join_date.clone(),
            remaining_annual_minutes: self.remaining_annual_minutes,
            work_minutes: self.work_minutes,
            add_minutes: self.add_minutes,
            used_minutes: self.used_minutes,
            unread_message_count: self.unread_message_count,
            deduct_on_late: self.deduct_on_late,
            deduct_on_early_leave: self.deduct_on_early_leave,
            deduct_on_outing: self.deduct_on_outing,
            annual_by_join_date: self.annual_by_join_date,
            daily_annual_by_join_date: self.daily_annual_by_join_date,
            use_break_time: self.use_break_time,
            use_schedule: self.use_schedule,
            auto_checkout_mode: self.auto_checkout_mode,
            commute_notify: self.commute_notify,
            work_52h_unit: self.work_52h_unit,
        }
    }
}

impl MainInfo {
    /// The join date is empty or the "1900-01-01" placeholder.
    pub fn is_join_date_unset(&self) -> (r: bool)
        ensures
            r == (self.join_date@.len() == 0 || starts_with(self.join_date@, "1900-01-01"@)),
    {
        let d = chars_of(self.join_date.as_str());
        if d.len() == 0 {
            return true;
        }
        let p = chars_of("1900-01-01");
        chars_starts_with(&d, &p)
    }
}

} // verus!
