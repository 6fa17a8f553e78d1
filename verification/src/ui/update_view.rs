//! Update notice screen: the lines it shows.
use vstd::prelude::*;

verus! {

/// "<caption>: <value>" (current, latest and minimum version lines).
pub fn labeled(caption: &str, value: &str) -> (r: String)
    ensures
        r@ == caption@ + ": "@ + value@,
{
    let mut s = String::from_str(caption);
    s.append(": ");
    s.append(value);
    s
}

pub open spec fn update_required_line(required: bool, forced: bool) -> Seq<char> {
    "업데이트 필요: "@ + (if required { "예"@ } else { "아니오"@ }) + (if forced { " (강제)"@ } else { Seq::<char>::empty() })
}

/// "업데이트 필요: 예|아니오", with " (강제)" for a forced update.
pub fn update_required_text(required: bool, forced: bool) -> (r: String)
    ensures
        r@ == update_required_line(required, forced),
{
    let mut s = String::from_str("업데이트 필요: ");
    if required {
        s.append("예");
    } else {
        s.append("아니오");
    }
    if forced {
        s.append(" (강제)");
    }
    assert(s@ =~= update_required_line(required, forced));
    s
}

/// The download link is offered only when the server gave one.
pub fn shows_download_link(download_url: &str) -> (r: bool)
    ensures
        r == (download_url@.len() > 0),
{
    !download_url.is_empty()
}

} // verus!
