//! Explanation form for one idle segment: reason, free text and, for the
//! "OTHER" reason, a label typed by the worker.
use vstd::prelude::*;
use crate::domain::service::explanation_type_service::{
    is_system_default_list, is_system_row, law_builtin_text_required, system_default_table,
};
use crate::dto::ExplanationType;
use crate::text::{ascii_upper_seq, chars_of, contains, contains_str, is_blank, str_eq, to_ascii_upper, trim, trim_str};
use crate::util::{duration_text, format_duration_human};

verus! {

/// Longest label of the "OTHER" reason (characters), as the server accepts it.
pub const OTHER_TYPE_LABEL_MAX: usize = 50;

/// Code of the reason with a label of the worker's own.
pub open spec fn other_code() -> Seq<char> {
    "OTHER"@
}

pub struct ExplanationForm {
    /// Chosen reason code; empty while none is chosen.
    pub selected_code: String,
    pub explanation_text: String,
    /// Label typed for the "OTHER" reason.
    pub other_type_label: String,
    /// Message shown under the form.
    pub status: Option<String>,
}

impl Default for ExplanationForm {
    fn default() -> (r: Self)
        ensures
            r.selected_code@.len() == 0,
            r.explanation_text@.len() == 0,
            r.other_type_label@.len() == 0,
            r.status is None,
    {
        ExplanationForm {
            selected_code: String::new(),
            explanation_text: String::new(),
            other_type_label: String::new(),
            status: None,
        }
    }
}

/// First reason with code `code`.
pub open spec fn first_with_code(types: Seq<ExplanationType>, code: Seq<char>, i: int) -> bool {
    0 <= i < types.len() && types[i].code@ == code && forall|k: int| 0 <= k < i ==> types[k].code@ != code
}

/// The chosen reason requires a text (false when the code is not in the list).
pub open spec fn spec_requires_text(types: Seq<ExplanationType>, code: Seq<char>) -> bool {
    exists|i: int| first_with_code(types, code, i) && types[i].requires_text
}

/// Text shown for the chosen reason: its label, or "선택" when it is not in the list.
pub open spec fn selected_label_text(types: Seq<ExplanationType>, code: Seq<char>) -> Seq<char> {
    if exists|i: int| first_with_code(types, code, i) {
        types[choose|i: int| first_with_code(types, code, i)].label@
    } else {
        "선택"@
    }
}

fn find_code(types: &Vec<ExplanationType>, code: &str) -> (r: Option<usize>)
    ensures
        r matches Some(i) ==> first_with_code(types@, code@, i as int),
        r is None ==> forall|k: int| 0 <= k < types@.len() ==> types@[k].code@ != code@,
{
    let mut i: usize = 0;
    while i < types.len()
        invariant
            i <= types@.len(),
            forall|k: int| 0 <= k < i ==> types@[k].code@ != code@,
        decreases types@.len() - i,
    {
        if str_eq(types[i].code.as_str(), code) {
            return Some(i);
        }
        i = i + 1;
    }
    None
}

proof fn lemma_first_unique(types: Seq<ExplanationType>, code: Seq<char>, i: int, j: int)
    requires
        first_with_code(types, code, i),
        first_with_code(types, code, j),
    ensures
        i == j,
{
    if i < j {
        assert(types[i].code@ != code);
    }
    if j < i {
        assert(types[j].code@ != code);
    }
}

/// Whether `text` (trimmed) is missing although the reason requires one, and
/// whether the "OTHER" label (trimmed) is missing.
pub open spec fn text_missing(f: ExplanationForm, types: Seq<ExplanationType>) -> bool {
    spec_requires_text(types, f.selected_code@) && trim(f.explanation_text@).len() == 0
}

pub open spec fn other_label_missing(f: ExplanationForm) -> bool {
    f.selected_code@ == other_code() && trim(f.other_type_label@).len() == 0
}

impl ExplanationForm {
    /// With no reason chosen yet, the first of the list is chosen.
    pub fn default_selection(&mut self, types: &Vec<ExplanationType>)
        ensures
            old(self).selected_code@.len() == 0 && types@.len() > 0 ==> final(self).selected_code == types@[0].code,
            !(old(self).selected_code@.len() == 0 && types@.len() > 0) ==> final(self).selected_code == old(self).selected_code,
            final(self).explanation_text == old(self).explanation_text,
            final(self).other_type_label == old(self).other_type_label,
            final(self).status == old(self).status,
    {
        if self.selected_code.as_str().is_empty() && types.len() > 0 {
            self.selected_code = types[0].code.clone();
        }
    }

    /// The chosen reason requires a free text.
    pub fn requires_text(&self, types: &Vec<ExplanationType>) -> (r: bool)
        ensures
            r == spec_requires_text(types@, self.selected_code@),
    {
        match find_code(types, self.selected_code.as_str()) {
            Some(i) => {
                proof {
                    if spec_requires_text(types@, self.selected_code@) {
                        let j = choose|j: int| first_with_code(types@, self.selected_code@, j) && types@[j].requires_text;
                        lemma_first_unique(types@, self.selected_code@, i as int, j);
                    }
                }
                types[i].requires_text
            },
            None => false,
        }
    }

    /// Label of the chosen reason for the combo box.
    pub fn selected_label(&self, types: &Vec<ExplanationType>) -> (r: String)
        ensures
            r@ == selected_label_text(types@, self.selected_code@),
    {
        match find_code(types, self.selected_code.as_str()) {
            Some(i) => {
                proof {
                    let j = choose|j: int| first_with_code(types@, self.selected_code@, j);
                    lemma_first_unique(types@, self.selected_code@, i as int, j);
                }
                types[i].label.clone()
            },
            None => String::from_str("선택"),
        }
    }

    /// The "OTHER" reason is chosen.
    pub fn is_other(&self) -> (r: bool)
        ensures
            r == (self.selected_code@ == other_code()),
    {
        str_eq(self.selected_code.as_str(), "OTHER")
    }

    /// Submission is possible unless a required text or the "OTHER" label is missing.
    pub fn can_submit(&self, types: &Vec<ExplanationType>) -> (r: bool)
        ensures
            r == (!text_missing(*self, types@) && !other_label_missing(*self)),
    {
        let text_missing = self.requires_text(types) && is_blank(self.explanation_text.as_str());
        let other_missing = self.is_other() && is_blank(self.other_type_label.as_str());
        !text_missing && !other_missing
    }

    /// The text sent: trimmed, `None` when empty.
    pub fn explanation_text_value(&self) -> (r: Option<String>)
        ensures
            trim(self.explanation_text@).len() == 0 ==> r is None,
            trim(self.explanation_text@).len() > 0 ==> (r matches Some(t) && t@ == trim(self.explanation_text@)),
    {
        if is_blank(self.explanation_text.as_str()) {
            None
        } else {
            Some(trim_str(self.explanation_text.as_str()))
        }
    }

    /// The "OTHER" label sent: `Ok(None)` for other reasons, the trimmed label,
    /// or an error message when it is empty.
    pub fn other_type_label_value(&self) -> (r: Result<Option<String>, String>)
        ensures
            self.selected_code@ != other_code() ==> r == Ok::<Option<String>, String>(None),
            self.selected_code@ == other_code() && trim(self.other_type_label@).len() == 0
                ==> (r matches Err(m) && m@ == "기타 유형명을 입력해 주세요."@),
            self.selected_code@ == other_code() && trim(self.other_type_label@).len() > 0
                ==> (r matches Ok(Some(t)) && t@ == trim(self.other_type_label@)),
    {
        if !self.is_other() {
            return Ok(None);
        }
        if is_blank(self.other_type_label.as_str()) {
            return Err(String::from_str("기타 유형명을 입력해 주세요."));
        }
        Ok(Some(trim_str(self.other_type_label.as_str())))
    }
}

/// Message after a failed submission (the text stays stored locally): a
/// refused reason code (or HTTP 400) asks to reload the reasons; anything else
/// shows the error.
pub open spec fn submit_error_text(err: Seq<char>) -> Seq<char> {
    let m = ascii_upper_seq(err);
    if contains(m, "INVALID_EXPLANATION_TYPE"@) || contains(m, "HTTP 400"@) {
        "사유 목록이 변경됐을 수 있습니다. 잠시 후 새로고침해 다시 선택해 주세요.\n(로컬에는 저장됨)"@
    } else {
        "서버 전송 실패 — 로컬에 저장됨: "@ + err
    }
}

pub fn submit_error_message(err: &str) -> (r: String)
    ensures
        r@ == submit_error_text(err@),
{
    let m = to_ascii_upper(&chars_of(err));
    if contains_str(&m, "INVALID_EXPLANATION_TYPE") || contains_str(&m, "HTTP 400") {
        String::from_str("사유 목록이 변경됐을 수 있습니다. 잠시 후 새로고침해 다시 선택해 주세요.\n(로컬에는 저장됨)")
    } else {
        let mut out = String::from_str("서버 전송 실패 — 로컬에 저장됨: ");
        out.append(err);
        out
    }
}

// ───────────────────────────── submission ─────────────────────────────

/// One explanation as it is stored locally and sent.
#[derive(Debug)]
pub struct ExplanationDraft {
    pub segment_id: String,
    /// Reason code.
    pub explanation_type: String,
    /// Trimmed text, `None` when empty.
    pub explanation_text: Option<String>,
    /// Trimmed label of the "OTHER" reason, `None` for other reasons.
    pub other_type_label: Option<String>,
    pub start_time: i64,
    /// End of the segment (its start while it is still open).
    pub end_time: i64,
    /// Length of the segment (0 while it is still open).
    pub duration_seconds: i64,
}

/// `d` is what the form `f` submits for the segment.
pub open spec fn drafted_from(d: ExplanationDraft, f: ExplanationForm, segment_id: Seq<char>, start_time: i64, end_time: Option<i64>, duration_seconds: Option<i64>) -> bool {
    &&& d.segment_id@ == segment_id
    &&& d.explanation_type == f.selected_code
    &&& (if trim(f.explanation_text@).len() == 0 {
        d.explanation_text is None
    } else {
        d.explanation_text matches Some(t) && t@ == trim(f.explanation_text@)
    })
    &&& (if f.selected_code@ == other_code() {
        d.other_type_label matches Some(t) && t@ == trim(f.other_type_label@)
    } else {
        d.other_type_label is None
    })
    &&& d.start_time == start_time
    &&& d.end_time == match end_time {
        Some(e) => e,
        None => start_time,
    }
    &&& d.duration_seconds == match duration_seconds {
        Some(x) => x,
        None => 0,
    }
}

impl ExplanationForm {
    /// Warning under the "OTHER" label field while it is empty.
    pub fn other_label_warning(&self) -> (r: Option<&'static str>)
        ensures
            other_label_missing(*self) ==> (r matches Some(m) && m@ == "기타 유형명을 1자 이상 입력해 주세요."@),
            !other_label_missing(*self) ==> r is None,
    {
        if self.is_other() && is_blank(self.other_type_label.as_str()) {
            Some("기타 유형명을 1자 이상 입력해 주세요.")
        } else {
            None
        }
    }

    /// Warning under the text field while a required text is missing.
    pub fn text_warning(&self, types: &Vec<ExplanationType>) -> (r: Option<&'static str>)
        ensures
            text_missing(*self, types@) ==> (r matches Some(m) && m@ == "이 사유는 소명 내용을 반드시 입력해야 합니다."@),
            !text_missing(*self, types@) ==> r is None,
    {
        if self.requires_text(types) && is_blank(self.explanation_text.as_str()) {
            Some("이 사유는 소명 내용을 반드시 입력해야 합니다.")
        } else {
            None
        }
    }

    /// Makes the explanation of this form for a segment. Without a session, or
    /// with the "OTHER" reason and no label, nothing is made and the form shows why.
    pub fn prepare_submission(
        &mut self,
        logged_in: bool,
        segment_id: &str,
        start_time: i64,
        end_time: Option<i64>,
        duration_seconds: Option<i64>,
    ) -> (r: Option<ExplanationDraft>)
        ensures
            final(self).selected_code == old(self).selected_code,
            final(self).explanation_text == old(self).explanation_text,
            final(self).other_type_label == old(self).other_type_label,
            !logged_in ==> r is None && (final(self).status matches Some(m) && m@ == "로그인이 필요합니다."@),
            logged_in && other_label_missing(*old(self)) ==> r is None
                && (final(self).status matches Some(m) && m@ == "기타 유형명을 입력해 주세요."@),
            logged_in && !other_label_missing(*old(self)) ==> final(self).status == old(self).status
                && (r matches Some(d) && drafted_from(d, *old(self), segment_id@, start_time, end_time, duration_seconds)),
    {
        if !logged_in {
            self.status = Some(String::from_str("로그인이 필요합니다."));
            return None;
        }
        let other = match self.other_type_label_value() {
            Ok(v) => v,
            Err(m) => {
                self.status = Some(m);
                return None;
            },
        };
        let end = match end_time {
            Some(e) => e,
            None => start_time,
        };
        let dur = match duration_seconds {
            Some(x) => x,
            None => 0,
        };
        Some(ExplanationDraft {
            segment_id: String::from_str(segment_id),
            explanation_type: self.selected_code.clone(),
            explanation_text: self.explanation_text_value(),
            other_type_label: other,
            start_time,
            end_time: end,
            duration_seconds: dur,
        })
    }

    /// After the explanation was saved locally the typed texts are cleared.
    pub fn after_local_save(&mut self)
        ensures
            final(self).explanation_text@.len() == 0,
            final(self).other_type_label@.len() == 0,
            final(self).selected_code == old(self).selected_code,
            final(self).status == old(self).status,
    {
        self.explanation_text = String::new();
        self.other_type_label = String::new();
    }

    /// The local save failed: "로컬 저장 실패: <error>".
    pub fn local_save_failed(&mut self, err: &str)
        ensures
            final(self).status matches Some(m) && m@ == "로컬 저장 실패: "@ + err@,
            final(self).selected_code == old(self).selected_code,
            final(self).explanation_text == old(self).explanation_text,
            final(self).other_type_label == old(self).other_type_label,
    {
        let mut m = String::from_str("로컬 저장 실패: ");
        m.append(err);
        self.status = Some(m);
    }

    /// Message after the server answered: `error` is `None` when it accepted.
    pub fn record_server_result(&mut self, error: Option<&str>)
        ensures
            final(self).status matches Some(m) && m@ == match error {
                None => "제출 완료"@,
                Some(e) => submit_error_text(e@),
            },
            final(self).selected_code == old(self).selected_code,
            final(self).explanation_text == old(self).explanation_text,
            final(self).other_type_label == old(self).other_type_label,
    {
        let m = match error {
            None => String::from_str("제출 완료"),
            Some(e) => submit_error_message(e),
        };
        self.status = Some(m);
    }
}

/// Caption of the text field.
pub fn text_caption(requires_text: bool) -> (r: &'static str)
    ensures
        r@ == if requires_text {
            "소명 내용 (필수)"@
        } else {
            "소명 내용"@
        },
{
    if requires_text { "소명 내용 (필수)" } else { "소명 내용" }
}

/// Applied threshold line of the segment: "<duration> (<scope>)".
pub fn applied_threshold_text(threshold_seconds: i64, policy_scope: &str) -> (r: String)
    ensures
        r@ == duration_text(threshold_seconds as int) + " ("@ + policy_scope@ + ")"@,
{
    let mut s = format_duration_human(threshold_seconds);
    s.append(" (");
    s.append(policy_scope);
    s.append(")");
    s
}

/// Length line of the segment (an open one counts as 0).
pub fn segment_length_text(duration_seconds: Option<i64>) -> (r: String)
    ensures
        r@ == duration_text(
            match duration_seconds {
                Some(d) => d as int,
                None => 0,
            },
        ),
{
    match duration_seconds {
        Some(d) => format_duration_human(d),
        None => format_duration_human(0),
    }
}

/// With the built-in reasons (no server list cached), the form asks for a free
/// text exactly when the chosen reason is "OUTSIDE_WORK", "OTHER_WORK" or
/// "PERSONAL".
pub proof fn law_builtin_reasons_requiring_text(v: Seq<ExplanationType>, code: Seq<char>)
    requires
        is_system_default_list(v),
    ensures
        spec_requires_text(v, code) <==> (code == "OUTSIDE_WORK"@ || code == "OTHER_WORK"@ || code == "PERSONAL"@),
{
    law_builtin_text_required(v);
    reveal_strlit("OUTSIDE_WORK");
    reveal_strlit("OTHER_WORK");
    reveal_strlit("PERSONAL");
    assert(is_system_row(v[4], system_default_table()[4]));
    assert(is_system_row(v[9], system_default_table()[9]));
    assert(is_system_row(v[11], system_default_table()[11]));
    assert("OUTSIDE_WORK"@.len() != "OTHER_WORK"@.len());
    assert("OUTSIDE_WORK"@.len() != "PERSONAL"@.len());
    assert("OTHER_WORK"@.len() != "PERSONAL"@.len());
    if code == "OUTSIDE_WORK"@ || code == "OTHER_WORK"@ || code == "PERSONAL"@ {
        let k: int = if code == "OUTSIDE_WORK"@ { 4 } else if code == "OTHER_WORK"@ { 9 } else { 11 };
        assert forall|j: int| 0 <= j < k implies v[j].code@ != code by {
            assert(v[j].requires_text <==> (v[j].code@ == "OUTSIDE_WORK"@ || v[j].code@ == "OTHER_WORK"@
                || v[j].code@ == "PERSONAL"@));
            if j == 0 {
                assert(is_system_row(v[0], system_default_table()[0]));
            } else if j == 1 {
                assert(is_system_row(v[1], system_default_table()[1]));
            } else if j == 2 {
                assert(is_system_row(v[2], system_default_table()[2]));
            } else if j == 3 {
                assert(is_system_row(v[3], system_default_table()[3]));
            } else if j == 4 {
                assert(is_system_row(v[4], system_default_table()[4]));
            } else if j == 5 {
                assert(is_system_row(v[5], system_default_table()[5]));
            } else if j == 6 {
                assert(is_system_row(v[6], system_default_table()[6]));
            } else if j == 7 {
                assert(is_system_row(v[7], system_default_table()[7]));
            } else if j == 8 {
                assert(is_system_row(v[8], system_default_table()[8]));
            } else if j == 9 {
                assert(is_system_row(v[9], system_default_table()[9]));
            } else if j == 10 {
                assert(is_system_row(v[10], system_default_table()[10]));
            }
        }
        assert(first_with_code(v, code, k));
        assert(v[k].requires_text);
    } else {
        if spec_requires_text(v, code) {
            let i = choose|i: int| first_with_code(v, code, i) && v[i].requires_text;
            assert(v[i].requires_text <==> (v[i].code@ == "OUTSIDE_WORK"@ || v[i].code@ == "OTHER_WORK"@
                || v[i].code@ == "PERSONAL"@));
        }
    }
}

} // verus!
