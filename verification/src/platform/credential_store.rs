//! What automatic login keeps in the operating system's credential store: the
//! e-mail and the SHA-1 hash of the password (never the password itself).
use vstd::prelude::*;

verus! {

#[derive(Debug)]
pub struct StoredCredentials {
    pub email: String,
    /// SHA-1 of the password (40 hex digits), sent to the server as it is.
    pub password_sha1: String,
}

impl Clone for StoredCredentials {
    fn clone(&self) -> (r: Self)
        ensures
            r == *self,
    {
        StoredCredentials { email: self.email.clone(), password_sha1: self.password_sha1.clone() }
    }
}

} // verus!
