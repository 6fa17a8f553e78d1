//! The signed-in member.
use vstd::prelude::*;
use crate::text::{chars_of, find_char, find_char_in, substring};

verus! {

#[derive(Debug)]
pub struct User {
    pub member_id: i64,
    pub employee_id: i64,
    pub company_id: i64,
    pub team_id: Option<i64>,
    pub team_template_id: i64,
    pub employee_id_str: String,
    pub company_id_str: String,
    pub team_id_str: Option<String>,
    /// Login e-mail.
    pub email: String,
    /// Display name; `None` when the server sent none.
    pub display_name: Option<String>,
    pub employee_name: Option<String>,
    pub english_name: Option<String>,
    pub position: Option<String>,
    pub employee_number: Option<String>,
    pub phone: Option<String>,
    pub backup_email: Option<String>,
    pub profile_image_url: Option<String>,
    /// Authority code (1 = top administrator, 2 = general administrator, ...).
    pub authority: i32,
    pub join_date: Option<String>,
    pub registered_date: Option<String>,
    pub birth_date: Option<String>,
    pub update_recommended: bool,
    pub update_message: Option<String>,
}

impl Clone for User {
    fn clone(&self) -> (r: Self)
        ensures
            r == *self,
    {
        User {
            member_id: self.member_id,
            employee_id: self.employee_id,
            company_id: self.company_id,
            team_id: self.team_id,
            team_template_id: self.team_template_id,
            employee_id_str: self.employee_id_str.clone(),
            company_id_str: self.company_id_str.clone(),
            team_id_str: self.team_id_str.clone(),
            email: self.email.clone(),
            display_name: self.display_name.clone(),
            employee_name: self.employee_name.clone(),
            english_name: self.english_name.clone(),
            position: self.position.clone(),
            employee_number: self.employee_number.clone(),
            phone: self.phone.clone(),
            backup_email: self.backup_email.clone(),
            profile_image_url: self.profile_image_url.clone(),
            authority: self.authority,
            join_date: self.join_date.clone(),
            registered_date: self.registered_date.clone(),
            birth_date: self.birth_date.clone(),
            update_recommended: self.update_recommended,
            update_message: self.update_message.clone(),
        }
    }
}

/// The part of an e-mail before the first `@` (all of it when there is none).
pub open spec fn email_local_part(email: Seq<char>) -> Seq<char> {
    match find_char(email, '@') {
        Some(i) => email.subrange(0, i),
        None => email,
    }
}

/// Name shown for a user: the display name, else the e-mail's local part.
pub open spec fn display_name_of(u: User) -> Seq<char> {
    match u.display_name {
        Some(n) => n@,
        None => email_local_part(u.email@),
    }
}

impl User {
    /// PC time tracking permission; the login answer carries no such field, so it is on.
    pub fn can_track_time(&self) -> (r: bool)
        ensures
            r,
    {
        true
    }

    pub fn name_for_display(&self) -> (r: String)
        ensures
            r@ == display_name_of(*self),
    {
        match &self.display_name {
            Some(n) => n.clone(),
            None => {
                let e = chars_of(self.email.as_str());
                match find_char_in(&e, '@') {
                    Some(i) => substring(self.email.as_str(), 0, i),
                    None => self.email.clone(),
                }
            },
        }
    }
}

} // verus!
