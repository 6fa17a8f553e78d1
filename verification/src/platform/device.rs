//! Device identity: the id is created once and stored; the name is
//! "<host> (<OS>)".
use vstd::prelude::*;

verus! {

#[derive(Debug)]
pub struct DeviceInfo {
    pub device_id: String,
    pub device_name: String,
}

impl Clone for DeviceInfo {
    fn clone(&self) -> (r: Self)
        ensures
            r == *self,
    {
        DeviceInfo { device_id: self.device_id.clone(), device_name: self.device_name.clone() }
    }
}

/// Host name, or "unknown-host" when the system gives none, followed by the OS in parentheses.
pub open spec fn device_name_text(host: Option<Seq<char>>, os: Seq<char>) -> Seq<char> {
    let h = match host {
        Some(h) => h,
        None => "unknown-host"@,
    };
    h + " ("@ + os + ")"@
}

pub fn detect_device_name(host: Option<&str>, os: &str) -> (r: String)
    ensures
        r@ == device_name_text(
            match host {
                Some(h) => Some(h@),
                None => None,
            },
            os@,
        ),
{
    let mut out = match host {
        Some(h) => String::from_str(h),
        None => String::from_str("unknown-host"),
    };
    out.append(" (");
    out.append(os);
    out.append(")");
    out
}

/// OS label of the name: "Windows", "macOS" or "Other".
pub fn os_label(is_windows: bool, is_macos: bool) -> (r: &'static str)
    ensures
        r@ == if is_windows {
            "Windows"@
        } else if is_macos {
            "macOS"@
        } else {
            "Other"@
        },
{
    if is_windows {
        "Windows"
    } else if is_macos {
        "macOS"
    } else {
        "Other"
    }
}

/// A stored value is kept; without one the freshly made value is used (and must be stored).
pub fn stored_or_new(stored: Option<String>, fresh: String) -> (r: (String, bool))
    ensures
        stored matches Some(v) ==> r == (v, false),
        stored is None ==> r == (fresh, true),
{
    match stored {
        Some(v) => (v, false),
        None => (fresh, true),
    }
}

} // verus!
