//! Text of the explanation-request notification shown when an idle segment ends.
use vstd::prelude::*;
use crate::text::{push_signed_decimal, signed_decimal};

verus! {

/// Notification title.
pub const NOTIFICATION_SUMMARY: &'static str = "근무시간 소명";

/// Application name shown with the notification.
pub const NOTIFICATION_APP_NAME: &'static str = "핀플 PC";

/// "<start> ~ <end> 자리비움 <n>분이 감지되었습니다." and the notice that
/// unexplained time may count as a break.
pub open spec fn request_body(start_label: Seq<char>, end_label: Seq<char>, minutes: int) -> Seq<char> {
    start_label + " ~ "@ + end_label + " 자리비움 "@ + signed_decimal(minutes)
        + "분이 감지되었습니다.\n소명하지 않은 시간은 휴게시간으로 처리될 수 있습니다."@
}

pub fn explanation_request_body(start_label: &str, end_label: &str, duration_minutes: i64) -> (r: String)
    ensures
        r@ == request_body(start_label@, end_label@, duration_minutes as int),
{
    let mut out = String::from_str(start_label);
    out.append(" ~ ");
    out.append(end_label);
    out.append(" 자리비움 ");
    push_signed_decimal(&mut out, duration_minutes);
    out.append("분이 감지되었습니다.\n소명하지 않은 시간은 휴게시간으로 처리될 수 있습니다.");
    out
}

} // verus!
