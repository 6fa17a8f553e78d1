//! Company explanation reasons. The server answer is the source of truth and is
//! only cached in memory; until one arrives the built-in list is used.
use vstd::prelude::*;
use crate::domain::service::session_caches::SessionCaches;
use crate::dto::{ExplanationType, ExplanationTypesResponse};

verus! {

/// Copy of a list of reasons.
pub fn clone_types(v: &Vec<ExplanationType>) -> (r: Vec<ExplanationType>)
    ensures
        r@ == v@,
{
    let mut r: Vec<ExplanationType> = Vec::new();
    let mut k: usize = 0;
    while k < v.len()
        invariant
            k <= v@.len(),
            r@ == v@.take(k as int),
        decreases v@.len() - k,
    {
        r.push(v[k].clone());
        proof {
            assert(v@.take(k + 1) == v@.take(k as int).push(v@[k as int]));
        }
        k = k + 1;
    }
    assert(v@.take(v@.len() as int) == v@);
    r
}

/// The cached reasons, or the built-in list when nothing is cached.
pub fn current_types(c: &SessionCaches) -> (r: Vec<ExplanationType>)
    ensures
        match c.explanation_types {
            Some(v) => r@ == v@,
            None => is_system_default_list(r@),
        },
{
    match &c.explanation_types {
        Some(v) => clone_types(v),
        None => system_default_types(),
    }
}

/// Empties the reason cache; the other caches are unchanged.
pub fn clear(c: &mut SessionCaches)
    ensures
        *final(c) == (SessionCaches { explanation_types: None, ..*old(c) }),
{
    c.explanation_types = None;
}

/// Caches the reasons of a server answer; the other caches are unchanged.
pub fn store_response(c: &mut SessionCaches, resp: &ExplanationTypesResponse)
    ensures
        final(c).explanation_types matches Some(v) && v@ == resp.types@,
        *final(c) == (SessionCaches { explanation_types: final(c).explanation_types, ..*old(c) }),
{
    c.explanation_types = Some(clone_types(&resp.types));
}

/// The built-in reasons: code, label, sort order, text required, protected.
pub open spec fn system_default_table() -> Seq<(Seq<char>, Seq<char>, i32, bool, bool)> {
    seq![
        ("MEETING"@, "회의"@, 10i32, false, false),
        ("PHONE_CALL"@, "전화상담"@, 20i32, false, false),
        ("CUSTOMER_RESPONSE"@, "고객대응"@, 30i32, false, false),
        ("BUSINESS_TRIP"@, "출장"@, 40i32, false, false),
        ("OUTSIDE_WORK"@, "외근"@, 50i32, true, false),
        ("EDUCATION"@, "교육"@, 60i32, false, false),
        ("WORK_WAITING"@, "업무 대기"@, 70i32, false, false),
        ("PC_ERROR"@, "PC 오류"@, 80i32, false, false),
        ("APP_ERROR"@, "앱 오류"@, 90i32, false, false),
        ("OTHER_WORK"@, "기타 업무"@, 100i32, true, false),
        ("LUNCH_BREAK"@, "점심시간"@, 110i32, false, false),
        ("PERSONAL"@, "개인 사유"@, 120i32, true, false),
        ("OTHER"@, "기타"@, 999i32, false, true),
    ]
}

/// A built-in reason row: no server id, no icon, marked as a system reason.
pub open spec fn is_system_row(t: ExplanationType, row: (Seq<char>, Seq<char>, i32, bool, bool)) -> bool {
    &&& t.exptype_sid is None
    &&& t.code@ == row.0
    &&& t.label@ == row.1
    &&& t.sort_order == row.2
    &&& t.icon is None
    &&& t.requires_text == row.3
    &&& t.is_system
    &&& t.is_protected == row.4
}

/// `v` is the built-in list, in order.
pub open spec fn is_system_default_list(v: Seq<ExplanationType>) -> bool {
    &&& v.len() == system_default_table().len()
    &&& forall|i: int| 0 <= i < v.len() ==> #[trigger] is_system_row(v[i], system_default_table()[i])
}

/// The thirteen built-in reasons (the same that the server seeds). "OTHER" is the
/// protected one through which a worker types a label of their own.
pub fn system_default_types() -> (r: Vec<ExplanationType>)
    ensures
        is_system_default_list(r@),
{
    let mut v: Vec<ExplanationType> = Vec::new();
    v.push(et("MEETING", "회의", 10, false, false));
    v.push(et("PHONE_CALL", "전화상담", 20, false, false));
    v.push(et("CUSTOMER_RESPONSE", "고객대응", 30, false, false));
    v.push(et("BUSINESS_TRIP", "출장", 40, false, false));
    v.push(et("OUTSIDE_WORK", "외근", 50, true, false));
    v.push(et("EDUCATION", "교육", 60, false, false));
    v.push(et("WORK_WAITING", "업무 대기", 70, false, false));
    v.push(et("PC_ERROR", "PC 오류", 80, false, false));
    v.push(et("APP_ERROR", "앱 오류", 90, false, false));
    v.push(et("OTHER_WORK", "기타 업무", 100, true, false));
    v.push(et("LUNCH_BREAK", "점심시간", 110, false, false));
    v.push(et("PERSONAL", "개인 사유", 120, true, false));
    v.push(et("OTHER", "기타", 999, false, true));
    assert(forall|i: int| 0 <= i < v@.len() ==> #[trigger] is_system_row(v@[i], system_default_table()[i]));
    v
}

/// A built-in reason.
pub fn et(code: &str, label: &str, sort_order: i32, requires_text: bool, is_protected: bool) -> (r: ExplanationType)
    ensures
        is_system_row(r, (code@, label@, sort_order, requires_text, is_protected)),
{
    ExplanationType {
        exptype_sid: None,
        code: String::from_str(code),
        label: String::from_str(label),
        sort_order,
        icon: None,
        requires_text,
        is_system: true,
        is_protected,
    }
}

/// In the built-in list the reason "OTHER" is the only protected one, so a
/// worker can always type a reason of their own.
pub proof fn law_builtin_list_protects_only_other(v: Seq<ExplanationType>)
    requires
        is_system_default_list(v),
    ensures
        v[v.len() - 1].code@ == "OTHER"@ && v[v.len() - 1].is_protected,
        forall|i: int| 0 <= i < v.len() && #[trigger] v[i].is_protected ==> i == v.len() - 1,
{
    assert(is_system_row(v[12], system_default_table()[12]));
    assert forall|i: int| 0 <= i < v.len() && #[trigger] v[i].is_protected implies i == v.len() - 1 by {
        assert(is_system_row(v[i], system_default_table()[i]));
    }
}

/// In the built-in list exactly the reasons "OUTSIDE_WORK", "OTHER_WORK" and
/// "PERSONAL" require a free text, as in the server's seed.
pub proof fn law_builtin_text_required(v: Seq<ExplanationType>)
    requires
        is_system_default_list(v),
    ensures
        forall|i: int|
            0 <= i < v.len() ==> (#[trigger] v[i].requires_text <==> (v[i].code@ == "OUTSIDE_WORK"@ || v[i].code@
                == "OTHER_WORK"@ || v[i].code@ == "PERSONAL"@)),
{
    assert forall|i: int|
        0 <= i < v.len() implies (#[trigger] v[i].requires_text <==> (v[i].code@ == "OUTSIDE_WORK"@ || v[i].code@
            == "OTHER_WORK"@ || v[i].code@ == "PERSONAL"@)) by {
        lemma_builtin_row(v, i);
    }
}

proof fn lemma_builtin_row(v: Seq<ExplanationType>, i: int)
    requires
        is_system_default_list(v),
        0 <= i < v.len(),
    ensures
        v[i].requires_text <==> (v[i].code@ == "OUTSIDE_WORK"@ || v[i].code@ == "OTHER_WORK"@ || v[i].code@
            == "PERSONAL"@),
{
    reveal_strlit("MEETING");
    reveal_strlit("PHONE_CALL");
    reveal_strlit("CUSTOMER_RESPONSE");
    reveal_strlit("BUSINESS_TRIP");
    reveal_strlit("OUTSIDE_WORK");
    reveal_strlit("EDUCATION");
    reveal_strlit("WORK_WAITING");
    reveal_strlit("PC_ERROR");
    reveal_strlit("APP_ERROR");
    reveal_strlit("OTHER_WORK");
    reveal_strlit("LUNCH_BREAK");
    reveal_strlit("PERSONAL");
    reveal_strlit("OTHER");
    if i == 0 {
            assert(is_system_row(v[0], system_default_table()[0]));
            assert(v[0].code@ == "MEETING"@);
            assert("MEETING"@.len() != "OUTSIDE_WORK"@.len());
            assert("MEETING"@.len() != "OTHER_WORK"@.len());
            assert("MEETING"@.len() != "PERSONAL"@.len());
        } else if i == 1 {
            assert(is_system_row(v[1], system_default_table()[1]));
            assert(v[1].code@ == "PHONE_CALL"@);
            assert("PHONE_CALL"@.len() != "OUTSIDE_WORK"@.len());
            assert("PHONE_CALL"@[0] != "OTHER_WORK"@[0]);
            assert("PHONE_CALL"@.len() != "PERSONAL"@.len());
        } else if i == 2 {
            assert(is_system_row(v[2], system_default_table()[2]));
            assert(v[2].code@ == "CUSTOMER_RESPONSE"@);
            assert("CUSTOMER_RESPONSE"@.len() != "OUTSIDE_WORK"@.len());
            assert("CUSTOMER_RESPONSE"@.len() != "OTHER_WORK"@.len());
            assert("CUSTOMER_RESPONSE"@.len() != "PERSONAL"@.len());
        } else if i == 3 {
            assert(is_system_row(v[3], system_default_table()[3]));
            assert(v[3].code@ == "BUSINESS_TRIP"@);
            assert("BUSINESS_TRIP"@.len() != "OUTSIDE_WORK"@.len());
            assert("BUSINESS_TRIP"@.len() != "OTHER_WORK"@.len());
            assert("BUSINESS_TRIP"@.len() != "PERSONAL"@.len());
        } else if i == 4 {
            assert(is_system_row(v[4], system_default_table()[4]));
            assert(v[4].code@ == "OUTSIDE_WORK"@);
            assert("OUTSIDE_WORK"@.len() != "OTHER_WORK"@.len());
            assert("OUTSIDE_WORK"@.len() != "PERSONAL"@.len());
        } else if i == 5 {
            assert(is_system_row(v[5], system_default_table()[5]));
            assert(v[5].code@ == "EDUCATION"@);
            assert("EDUCATION"@.len() != "OUTSIDE_WORK"@.len());
            assert("EDUCATION"@.len() != "OTHER_WORK"@.len());
            assert("EDUCATION"@.len() != "PERSONAL"@.len());
        } else if i == 6 {
            assert(is_system_row(v[6], system_default_table()[6]));
            assert(v[6].code@ == "WORK_WAITING"@);
            assert("WORK_WAITING"@[0] != "OUTSIDE_WORK"@[0]);
            assert("WORK_WAITING"@.len() != "OTHER_WORK"@.len());
            assert("WORK_WAITING"@.len() != "PERSONAL"@.len());
        } else if i == 7 {
            assert(is_system_row(v[7], system_default_table()[7]));
            assert(v[7].code@ == "PC_ERROR"@);
            assert("PC_ERROR"@.len() != "OUTSIDE_WORK"@.len());
            assert("PC_ERROR"@.len() != "OTHER_WORK"@.len());
            assert("PC_ERROR"@[1] != "PERSONAL"@[1]);
        } else if i == 8 {
            assert(is_system_row(v[8], system_default_table()[8]));
            assert(v[8].code@ == "APP_ERROR"@);
            assert("APP_ERROR"@.len() != "OUTSIDE_WORK"@.len());
            assert("APP_ERROR"@.len() != "OTHER_WORK"@.len());
            assert("APP_ERROR"@.len() != "PERSONAL"@.len());
        } else if i == 9 {
            assert(is_system_row(v[9], system_default_table()[9]));
            assert(v[9].code@ == "OTHER_WORK"@);
            assert("OTHER_WORK"@.len() != "OUTSIDE_WORK"@.len());
            assert("OTHER_WORK"@.len() != "PERSONAL"@.len());
        } else if i == 10 {
            assert(is_system_row(v[10], system_default_table()[10]));
            assert(v[10].code@ == "LUNCH_BREAK"@);
            assert("LUNCH_BREAK"@.len() != "OUTSIDE_WORK"@.len());
            assert("LUNCH_BREAK"@.len() != "OTHER_WORK"@.len());
            assert("LUNCH_BREAK"@.len() != "PERSONAL"@.len());
        } else if i == 11 {
            assert(is_system_row(v[11], system_default_table()[11]));
            assert(v[11].code@ == "PERSONAL"@);
            assert("PERSONAL"@.len() != "OUTSIDE_WORK"@.len());
            assert("PERSONAL"@.len() != "OTHER_WORK"@.len());
        } else if i == 12 {
            assert(is_system_row(v[12], system_default_table()[12]));
            assert(v[12].code@ == "OTHER"@);
            assert("OTHER"@.len() != "OUTSIDE_WORK"@.len());
            assert("OTHER"@.len() != "OTHER_WORK"@.len());
            assert("OTHER"@.len() != "PERSONAL"@.len());
        }
}

/// The built-in list comes in its display order: each reason sorts before the next.
pub proof fn law_builtin_list_sorted(v: Seq<ExplanationType>)
    requires
        is_system_default_list(v),
    ensures
        forall|i: int| 0 <= i < v.len() - 1 ==> #[trigger] v[i].sort_order < v[i + 1].sort_order,
{
    assert forall|i: int| 0 <= i < v.len() - 1 implies #[trigger] v[i].sort_order < v[i + 1].sort_order by {
        if i == 0 {
            assert(is_system_row(v[0], system_default_table()[0]));
            assert(is_system_row(v[1], system_default_table()[1]));
        } else if i == 1 {
            assert(is_system_row(v[1], system_default_table()[1]));
            assert(is_system_row(v[2], system_default_table()[2]));
        } else if i == 2 {
            assert(is_system_row(v[2], system_default_table()[2]));
            assert(is_system_row(v[3], system_default_table()[3]));
        } else if i == 3 {
            assert(is_system_row(v[3], system_default_table()[3]));
            assert(is_system_row(v[4], system_default_table()[4]));
        } else if i == 4 {
            assert(is_system_row(v[4], system_default_table()[4]));
            assert(is_system_row(v[5], system_default_table()[5]));
        } else if i == 5 {
            assert(is_system_row(v[5], system_default_table()[5]));
            assert(is_system_row(v[6], system_default_table()[6]));
        } else if i == 6 {
            assert(is_system_row(v[6], system_default_table()[6]));
            assert(is_system_row(v[7], system_default_table()[7]));
        } else if i == 7 {
            assert(is_system_row(v[7], system_default_table()[7]));
            assert(is_system_row(v[8], system_default_table()[8]));
        } else if i == 8 {
            assert(is_system_row(v[8], system_default_table()[8]));
            assert(is_system_row(v[9], system_default_table()[9]));
        } else if i == 9 {
            assert(is_system_row(v[9], system_default_table()[9]));
            assert(is_system_row(v[10], system_default_table()[10]));
        } else if i == 10 {
            assert(is_system_row(v[10], system_default_table()[10]));
            assert(is_system_row(v[11], system_default_table()[11]));
        } else if i == 11 {
            assert(is_system_row(v[11], system_default_table()[11]));
            assert(is_system_row(v[12], system_default_table()[12]));
        }
    }
}

} // verus!
