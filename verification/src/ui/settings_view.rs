//! Settings screen: tabs, the company policy edit form and the explanation
//! reason administration form (company administrators only), and the messages
//! shown for server refusals.
use vstd::prelude::*;
use crate::domain::model::user::User;
use crate::dto::{patch_is_empty, ExplanationType, PolicyPatchFields, PolicySnapshot};
use crate::text::{
    ascii_upper_seq, chars_of, contains, contains_str, decimal, is_blank, push_decimal, push_signed_decimal,
    signed_decimal, to_ascii_upper, trim, trim_str,
};

verus! {

#[derive(Debug, Clone, Copy, PartialEq, Eq, Structural)]
pub enum SettingsTab {
    General,
    Detection,
    Account,
    /// Company policy (administrators).
    CompanyPolicy,
    /// Company explanation reasons (administrators).
    CompanyExplanation,
}

/// Authority codes 1 (top administrator) and 2 (general administrator) may
/// administer the company; without a session nobody may.
pub open spec fn spec_is_company_admin(authority: Option<i32>) -> bool {
    match authority {
        Some(a) => a == 1 || a == 2,
        None => false,
    }
}

/// `authority` is that of the signed-in user, if any.
pub fn is_company_admin(authority: Option<i32>) -> (r: bool)
    ensures
        r == spec_is_company_admin(authority),
{
    let author = match authority {
        Some(a) => a,
        None => 99,
    };
    author == 1 || author == 2
}

/// Tabs shown: the three common ones, and the two company tabs for administrators.
pub open spec fn spec_tabs(admin: bool) -> Seq<SettingsTab> {
    let base = seq![SettingsTab::General, SettingsTab::Detection, SettingsTab::Account];
    if admin {
        base + seq![SettingsTab::CompanyPolicy, SettingsTab::CompanyExplanation]
    } else {
        base
    }
}

pub fn visible_tabs(admin: bool) -> (r: Vec<SettingsTab>)
    ensures
        r@ == spec_tabs(admin),
{
    let mut v: Vec<SettingsTab> = Vec::new();
    v.push(SettingsTab::General);
    v.push(SettingsTab::Detection);
    v.push(SettingsTab::Account);
    if admin {
        v.push(SettingsTab::CompanyPolicy);
        v.push(SettingsTab::CompanyExplanation);
    }
    assert(v@ =~= spec_tabs(admin));
    v
}

/// The selected tab, or General when it is not shown (e.g. after another account signed in).
pub fn normalize_tab(tab: SettingsTab, admin: bool) -> (r: SettingsTab)
    ensures
        spec_tabs(admin).contains(tab) ==> r == tab,
        !spec_tabs(admin).contains(tab) ==> r == SettingsTab::General,
{
    let tabs = visible_tabs(admin);
    let mut i: usize = 0;
    while i < tabs.len()
        invariant
            tabs@ == spec_tabs(admin),
            i <= tabs@.len(),
            forall|k: int| 0 <= k < i ==> tabs@[k] != tab,
        decreases tabs@.len() - i,
    {
        if tabs[i] == tab {
            return tab;
        }
        i = i + 1;
    }
    SettingsTab::General
}

/// Company policy edit form. Field values are compared with the values the form
/// was filled with, so that only changed fields are sent.
pub struct PolicyEditForm {
    pub idle_threshold_seconds: u64,
    pub lunch_start_time: String,
    pub lunch_end_time: String,
    pub lunch_allowed_minutes: u32,
    pub explanation_deadline_hours: u32,
    pub can_track_time: bool,
    pub reason: String,
    pub original_idle: u64,
    pub original_lunch_start: String,
    pub original_lunch_end: String,
    pub original_lunch_mins: u32,
    pub original_expl_hours: u32,
    pub original_can_track: bool,
    pub original_policy_version: i64,
    /// Filled from a policy at least once.
    pub initialized: bool,
    /// Message shown under the form.
    pub status: Option<String>,
    /// A save is running.
    pub pending: bool,
}

impl Default for PolicyEditForm {
    fn default() -> (r: Self)
        ensures
            !r.initialized,
            !r.pending,
            r.status is None,
    {
        PolicyEditForm {
            idle_threshold_seconds: 0,
            lunch_start_time: String::new(),
            lunch_end_time: String::new(),
            lunch_allowed_minutes: 0,
            explanation_deadline_hours: 0,
            can_track_time: false,
            reason: String::new(),
            original_idle: 0,
            original_lunch_start: String::new(),
            original_lunch_end: String::new(),
            original_lunch_mins: 0,
            original_expl_hours: 0,
            original_can_track: false,
            original_policy_version: 0,
            initialized: false,
            status: None,
            pending: false,
        }
    }
}

/// The form shows `p`, and remembers it as the original.
pub open spec fn filled_from(f: PolicyEditForm, p: PolicySnapshot) -> bool {
    &&& f.idle_threshold_seconds == p.effective_idle_threshold_seconds
    &&& f.lunch_start_time == p.lunch_start_time
    &&& f.lunch_end_time == p.lunch_end_time
    &&& f.lunch_allowed_minutes == p.lunch_allowed_minutes
    &&& f.explanation_deadline_hours == p.explanation_deadline_hours
    &&& f.can_track_time == p.can_track_time
    &&& f.original_idle == p.effective_idle_threshold_seconds
    &&& f.original_lunch_start == p.lunch_start_time
    &&& f.original_lunch_end == p.lunch_end_time
    &&& f.original_lunch_mins == p.lunch_allowed_minutes
    &&& f.original_expl_hours == p.explanation_deadline_hours
    &&& f.original_can_track == p.can_track_time
    &&& f.original_policy_version == p.policy_version
    &&& f.initialized
}

/// The patch holds exactly the fields whose value differs from the original.
pub open spec fn is_diff_of(p: PolicyPatchFields, f: PolicyEditForm) -> bool {
    &&& p.idle_threshold_seconds == if f.idle_threshold_seconds != f.original_idle {
        Some(f.idle_threshold_seconds)
    } else {
        None
    }
    &&& (if f.lunch_start_time@ != f.original_lunch_start@ {
        p.lunch_start_time matches Some(v) && v@ == f.lunch_start_time@
    } else {
        p.lunch_start_time is None
    })
    &&& (if f.lunch_end_time@ != f.original_lunch_end@ {
        p.lunch_end_time matches Some(v) && v@ == f.lunch_end_time@
    } else {
        p.lunch_end_time is None
    })
    &&& p.lunch_allowed_minutes == if f.lunch_allowed_minutes != f.original_lunch_mins {
        Some(f.lunch_allowed_minutes)
    } else {
        None
    }
    &&& p.explanation_deadline_hours == if f.explanation_deadline_hours != f.original_expl_hours {
        Some(f.explanation_deadline_hours)
    } else {
        None
    }
    &&& p.can_track_time == if f.can_track_time != f.original_can_track {
        Some(f.can_track_time)
    } else {
        None
    }
}

impl PolicyEditForm {
    /// Fills the form and its originals from the current policy; the reason
    /// text, message and pending flag stay as they are.
    pub fn init_from(&mut self, p: &PolicySnapshot)
        ensures
            filled_from(*final(self), *p),
            final(self).reason == old(self).reason,
            final(self).status == old(self).status,
            final(self).pending == old(self).pending,
    {
        self.idle_threshold_seconds = p.effective_idle_threshold_seconds;
        self.lunch_start_time = p.lunch_start_time.clone();
        self.lunch_end_time = p.lunch_end_time.clone();
        self.lunch_allowed_minutes = p.lunch_allowed_minutes;
        self.explanation_deadline_hours = p.explanation_deadline_hours;
        self.can_track_time = p.can_track_time;
        self.original_idle = self.idle_threshold_seconds;
        self.original_lunch_start = self.lunch_start_time.clone();
        self.original_lunch_end = self.lunch_end_time.clone();
        self.original_lunch_mins = self.lunch_allowed_minutes;
        self.original_expl_hours = self.explanation_deadline_hours;
        self.original_can_track = self.can_track_time;
        self.original_policy_version = p.policy_version;
        self.initialized = true;
    }

    /// The form must be (re)filled when it never was, or the policy version moved.
    pub fn needs_init(&self, p: &PolicySnapshot) -> (r: bool)
        ensures
            r == (!self.initialized || self.original_policy_version != p.policy_version),
    {
        !self.initialized || self.original_policy_version != p.policy_version
    }

    /// Only the changed fields.
    pub fn diff_patch(&self) -> (r: PolicyPatchFields)
        ensures
            is_diff_of(r, *self),
    {
        let mut p = PolicyPatchFields::default();
        if self.idle_threshold_seconds != self.original_idle {
            p.idle_threshold_seconds = Some(self.idle_threshold_seconds);
        }
        if self.lunch_start_time != self.original_lunch_start {
            p.lunch_start_time = Some(self.lunch_start_time.clone());
        }
        if self.lunch_end_time != self.original_lunch_end {
            p.lunch_end_time = Some(self.lunch_end_time.clone());
        }
        if self.lunch_allowed_minutes != self.original_lunch_mins {
            p.lunch_allowed_minutes = Some(self.lunch_allowed_minutes);
        }
        if self.explanation_deadline_hours != self.original_expl_hours {
            p.explanation_deadline_hours = Some(self.explanation_deadline_hours);
        }
        if self.can_track_time != self.original_can_track {
            p.can_track_time = Some(self.can_track_time);
        }
        p
    }
}

/// A freshly filled form has nothing to save.
pub proof fn law_filled_form_has_empty_patch(f: PolicyEditForm, p: PolicySnapshot, patch: PolicyPatchFields)
    requires
        filled_from(f, p),
        is_diff_of(patch, f),
    ensures
        patch_is_empty(patch),
{
}

/// Explanation reason administration form.
pub struct ExplanationCmsForm {
    pub create_label: String,
    pub create_sort: i32,
    pub create_icon: String,
    pub create_requires_text: bool,
    pub patch_sid: i64,
    pub patch_label: String,
    pub patch_sort: i32,
    pub patch_icon: String,
    pub patch_requires_text: bool,
    pub deactivate_sid: i64,
    pub usage_days: u32,
    /// Result message.
    pub status: Option<String>,
    /// A call is running.
    pub pending: bool,
}

impl Default for ExplanationCmsForm {
    fn default() -> (r: Self)
        ensures
            r.create_label@.len() == 0,
            r.create_sort == 1000,
            r.patch_sid == 0,
            r.deactivate_sid == 0,
            r.usage_days == 30,
            r.status is None,
            !r.pending,
    {
        ExplanationCmsForm {
            create_label: String::new(),
            create_sort: 1000,
            create_icon: String::new(),
            create_requires_text: false,
            patch_sid: 0,
            patch_label: String::new(),
            patch_sort: 0,
            patch_icon: String::new(),
            patch_requires_text: false,
            deactivate_sid: 0,
            usage_days: 30,
            status: None,
            pending: false,
        }
    }
}

/// Marks a call as running: pending set, message "<label> 호출 중…".
pub fn cms_begin(form: &mut ExplanationCmsForm, label: &str)
    ensures
        final(form).pending,
        final(form).status matches Some(m) && m@ == label@ + " 호출 중…"@,
        same_cms_fields(*final(form), *old(form)),
{
    form.pending = true;
    let mut m = String::from_str(label);
    m.append(" 호출 중…");
    form.status = Some(m);
}

/// Employee id for the administration calls, when signed in.
pub fn cms_requester_emp_sid(session: Option<&User>) -> (r: Option<i64>)
    ensures
        r == match session {
            Some(u) => Some(u.employee_id),
            None => None,
        },
{
    match session {
        Some(u) => Some(u.employee_id),
        None => None,
    }
}

/// (employee id, company id) for the administration calls, when signed in.
pub fn cms_session_keys(session: Option<&User>) -> (r: Option<(i64, i64)>)
    ensures
        r == match session {
            Some(u) => Some((u.employee_id, u.company_id)),
            None => None,
        },
{
    match session {
        Some(u) => Some((u.employee_id, u.company_id)),
        None => None,
    }
}

/// Message for a refused administration call, from the error text `raw`
/// (matched case-insensitively for ASCII); unknown errors are shown as they are.
pub open spec fn cms_error_text(raw: Seq<char>) -> Seq<char> {
    let upper = ascii_upper_seq(raw);
    if contains(upper, "FORBIDDEN"@) || contains(upper, "HTTP 403"@) {
        "권한이 없습니다 — 최고관리자(Author=1) 또는 총괄관리자(Author=2) 만 가능합니다."@
    } else if contains(upper, "AT_LEAST_ONE_REQUIRED"@) {
        "마지막 활성 사유는 비활성화할 수 없습니다 (최소 1개 유지)"@
    } else if contains(upper, "PROTECTED_TYPE"@) {
        "시스템 보호 사유(예: 기타)는 비활성화할 수 없습니다."@
    } else if contains(upper, "DUPLICATE_CODE"@) {
        "이미 같은 코드가 존재합니다."@
    } else if contains(upper, "HTTP 404"@) {
        "대상 SID 를 찾을 수 없습니다 (이미 비활성 또는 다른 회사 row 일 수 있음)."@
    } else if contains(upper, "INVALID_FIELD"@) || contains(upper, "HTTP 400"@) {
        "입력 검증 실패: "@ + raw
    } else {
        raw
    }
}

pub fn humanize_cms_error(raw: &str) -> (r: String)
    ensures
        r@ == cms_error_text(raw@),
{
    let upper = to_ascii_upper(&chars_of(raw));
    if contains_str(&upper, "FORBIDDEN") || contains_str(&upper, "HTTP 403") {
        String::from_str("권한이 없습니다 — 최고관리자(Author=1) 또는 총괄관리자(Author=2) 만 가능합니다.")
    } else if contains_str(&upper, "AT_LEAST_ONE_REQUIRED") {
        String::from_str("마지막 활성 사유는 비활성화할 수 없습니다 (최소 1개 유지)")
    } else if contains_str(&upper, "PROTECTED_TYPE") {
        String::from_str("시스템 보호 사유(예: 기타)는 비활성화할 수 없습니다.")
    } else if contains_str(&upper, "DUPLICATE_CODE") {
        String::from_str("이미 같은 코드가 존재합니다.")
    } else if contains_str(&upper, "HTTP 404") {
        String::from_str("대상 SID 를 찾을 수 없습니다 (이미 비활성 또는 다른 회사 row 일 수 있음).")
    } else if contains_str(&upper, "INVALID_FIELD") || contains_str(&upper, "HTTP 400") {
        let mut m = String::from_str("입력 검증 실패: ");
        m.append(raw);
        m
    } else {
        String::from_str(raw)
    }
}

/// Message for a refused policy save, from the error text `msg`.
pub open spec fn policy_patch_error_text(msg: Seq<char>) -> Seq<char> {
    let upper = ascii_upper_seq(msg);
    if contains(upper, "FORBIDDEN"@) || contains(upper, "HTTP 403"@) {
        "권한이 없습니다 — 회사 관리자(Emply.Author≥5)만 저장 가능합니다."@
    } else if contains(upper, "INVALID_PATCH"@) || contains(upper, "INVALID_FIELD"@) {
        "입력이 서버 검증을 통과하지 못했습니다: "@ + msg
    } else if contains(upper, "HTTP 404"@) {
        "요청자 EMPSID 가 서버에 없습니다 (재로그인 필요)."@
    } else {
        "저장 실패: "@ + msg
    }
}

pub fn humanize_policy_patch_error(msg: &str) -> (r: String)
    ensures
        r@ == policy_patch_error_text(msg@),
{
    let upper = to_ascii_upper(&chars_of(msg));
    if contains_str(&upper, "FORBIDDEN") || contains_str(&upper, "HTTP 403") {
        String::from_str("권한이 없습니다 — 회사 관리자(Emply.Author≥5)만 저장 가능합니다.")
    } else if contains_str(&upper, "INVALID_PATCH") || contains_str(&upper, "INVALID_FIELD") {
        let mut m = String::from_str("입력이 서버 검증을 통과하지 못했습니다: ");
        m.append(msg);
        m
    } else if contains_str(&upper, "HTTP 404") {
        String::from_str("요청자 EMPSID 가 서버에 없습니다 (재로그인 필요).")
    } else {
        let mut m = String::from_str("저장 실패: ");
        m.append(msg);
        m
    }
}

/// General-tab toggles and the two administrator forms.
pub struct SettingsUi {
    pub auto_start: bool,
    pub notifications: bool,
    pub tray_icon: bool,
    pub policy_edit: PolicyEditForm,
    pub explanation_cms: ExplanationCmsForm,
}

impl Default for SettingsUi {
    fn default() -> (r: Self)
        ensures
            r.auto_start && r.notifications && r.tray_icon,
            !r.policy_edit.initialized,
            r.explanation_cms.usage_days == 30,
    {
        SettingsUi {
            auto_start: true,
            notifications: true,
            tray_icon: true,
            policy_edit: PolicyEditForm::default(),
            explanation_cms: ExplanationCmsForm::default(),
        }
    }
}

// ───────────────────────────── saving the policy ─────────────────────────────

/// Some field differs from the value the form was filled with.
pub open spec fn form_is_dirty(f: PolicyEditForm) -> bool {
    ||| f.idle_threshold_seconds != f.original_idle
    ||| f.lunch_start_time@ != f.original_lunch_start@
    ||| f.lunch_end_time@ != f.original_lunch_end@
    ||| f.lunch_allowed_minutes != f.original_lunch_mins
    ||| f.explanation_deadline_hours != f.original_expl_hours
    ||| f.can_track_time != f.original_can_track
}

/// The patch of a form is empty exactly when nothing was changed.
pub proof fn law_patch_empty_iff_unchanged(f: PolicyEditForm, patch: PolicyPatchFields)
    requires
        is_diff_of(patch, f),
    ensures
        patch_is_empty(patch) <==> !form_is_dirty(f),
{
}

/// A policy save: who asks, the changed fields and the reason typed.
#[derive(Debug)]
pub struct PolicyPatchRequest {
    pub requester_emp_sid: i64,
    pub patch: PolicyPatchFields,
    /// Trimmed reason, `None` when empty.
    pub reason: Option<String>,
}

/// The edited values (not the message or pending flag) are the same.
pub open spec fn same_values(a: PolicyEditForm, b: PolicyEditForm) -> bool {
    &&& a.idle_threshold_seconds == b.idle_threshold_seconds
    &&& a.lunch_start_time == b.lunch_start_time
    &&& a.lunch_end_time == b.lunch_end_time
    &&& a.lunch_allowed_minutes == b.lunch_allowed_minutes
    &&& a.explanation_deadline_hours == b.explanation_deadline_hours
    &&& a.can_track_time == b.can_track_time
    &&& a.reason == b.reason
    &&& a.original_idle == b.original_idle
    &&& a.original_lunch_start == b.original_lunch_start
    &&& a.original_lunch_end == b.original_lunch_end
    &&& a.original_lunch_mins == b.original_lunch_mins
    &&& a.original_expl_hours == b.original_expl_hours
    &&& a.original_can_track == b.original_can_track
    &&& a.original_policy_version == b.original_policy_version
    &&& a.initialized == b.initialized
}

impl PolicyEditForm {
    /// Starts a save. Nothing is sent when nothing changed, when the patch was
    /// refused by its check (`validation_error`), or without a session
    /// (`requester` is the signed-in employee); the form then says why.
    /// Otherwise the form is marked pending and the request is returned.
    pub fn begin_save(&mut self, requester: Option<i64>, validation_error: Option<&str>) -> (r: Option<PolicyPatchRequest>)
        ensures
            same_values(*final(self), *old(self)),
            !form_is_dirty(*old(self)) ==> r is None && final(self).pending == old(self).pending
                && (final(self).status matches Some(m) && m@ == "변경 사항이 없습니다."@),
            form_is_dirty(*old(self)) && validation_error is Some ==> r is None && final(self).pending == old(self).pending
                && (final(self).status matches Some(m) && m@ == "입력 오류: "@ + validation_error.unwrap()@),
            form_is_dirty(*old(self)) && validation_error is None && requester is None ==> r is None
                && final(self).pending == old(self).pending
                && (final(self).status matches Some(m) && m@ == "로그인 후 저장 가능합니다."@),
            form_is_dirty(*old(self)) && validation_error is None && requester is Some ==> final(self).pending
                && (final(self).status matches Some(m) && m@ == "저장 중…"@)
                && (r matches Some(req) && req.requester_emp_sid == requester.unwrap()
                    && is_diff_of(req.patch, *old(self))
                    && (if trim(old(self).reason@).len() == 0 {
                        req.reason is None
                    } else {
                        req.reason matches Some(t) && t@ == trim(old(self).reason@)
                    })),
    {
        let patch = self.diff_patch();
        if patch.is_empty() {
            self.status = Some(String::from_str("변경 사항이 없습니다."));
            return None;
        }
        match validation_error {
            Some(msg) => {
                let mut m = String::from_str("입력 오류: ");
                m.append(msg);
                self.status = Some(m);
                return None;
            },
            None => {},
        }
        let id = match requester {
            Some(id) => id,
            None => {
                self.status = Some(String::from_str("로그인 후 저장 가능합니다."));
                return None;
            },
        };
        let reason = if is_blank(self.reason.as_str()) {
            None
        } else {
            Some(trim_str(self.reason.as_str()))
        };
        self.pending = true;
        self.status = Some(String::from_str("저장 중…"));
        Some(PolicyPatchRequest { requester_emp_sid: id, patch, reason })
    }

    /// Ends a save: `Ok` carries the new policy version, `Err` the error text.
    pub fn finish_save(&mut self, result: Result<i64, &str>)
        ensures
            same_values(*final(self), *old(self)),
            !final(self).pending,
            final(self).status matches Some(m) && m@ == match result {
                Ok(v) => "저장 완료 (policy_version → "@ + signed_decimal(v as int) + ")"@,
                Err(e) => policy_patch_error_text(e@),
            },
    {
        self.pending = false;
        let m = match result {
            Ok(v) => {
                let mut m = String::from_str("저장 완료 (policy_version → ");
                push_signed_decimal(&mut m, v);
                m.append(")");
                m
            },
            Err(e) => humanize_policy_patch_error(e),
        };
        self.status = Some(m);
    }

    /// "초기값으로": the form shows the policy again.
    pub fn reset_to(&mut self, p: &PolicySnapshot)
        ensures
            filled_from(*final(self), *p),
            final(self).reason == old(self).reason,
            final(self).pending == old(self).pending,
            final(self).status matches Some(m) && m@ == "입력 초기화됨"@,
    {
        self.init_from(p);
        self.status = Some(String::from_str("입력 초기화됨"));
    }
}

/// The save button works with a change and no save running.
pub fn save_enabled(dirty: bool, pending: bool) -> (r: bool)
    ensures
        r == (dirty && !pending),
{
    dirty && !pending
}

pub fn save_caption(pending: bool) -> (r: &'static str)
    ensures
        r@ == if pending {
            "저장 중…"@
        } else {
            "저장 (PATCH)"@
        },
{
    if pending { "저장 중…" } else { "저장 (PATCH)" }
}

pub fn dirty_caption(dirty: bool) -> (r: &'static str)
    ensures
        r@ == if dirty {
            "변경 사항 있음"@
        } else {
            "변경 사항 없음"@
        },
{
    if dirty { "변경 사항 있음" } else { "변경 사항 없음" }
}

// ───────────────────────────── information rows ─────────────────────────────

/// Detection tab: "<minutes>분 (<scope>)".
pub fn threshold_info(threshold_seconds: u64, scope: &str) -> (r: String)
    ensures
        r@ == decimal((threshold_seconds / 60) as nat) + "분 ("@ + scope@ + ")"@,
{
    let mut s = String::new();
    push_decimal(&mut s, threshold_seconds / 60);
    s.append("분 (");
    s.append(scope);
    s.append(")");
    s
}

/// Detection tab: "<start> ~ <end> (<minutes>분 인정)".
pub fn lunch_info(start: &str, end: &str, allowed_minutes: u32) -> (r: String)
    ensures
        r@ == start@ + " ~ "@ + end@ + " ("@ + decimal(allowed_minutes as nat) + "분 인정)"@,
{
    let mut s = String::from_str(start);
    s.append(" ~ ");
    s.append(end);
    s.append(" (");
    push_decimal(&mut s, allowed_minutes as u64);
    s.append("분 인정)");
    s
}

/// Detection tab: "<hours>시간 이내".
pub fn deadline_info(hours: u32) -> (r: String)
    ensures
        r@ == decimal(hours as nat) + "시간 이내"@,
{
    let mut s = String::new();
    push_decimal(&mut s, hours as u64);
    s.append("시간 이내");
    s
}

/// Account tab: a cached name, or "—".
pub fn name_or_dash(name: Option<&str>) -> (r: String)
    ensures
        r@ == match name {
            Some(n) => n@,
            None => "—"@,
        },
{
    match name {
        Some(n) => String::from_str(n),
        None => String::from_str("—"),
    }
}

// ───────────────────────────── reason administration ─────────────────────────────

pub open spec fn bool_text(b: bool) -> Seq<char> {
    if b { "true"@ } else { "false"@ }
}

fn push_bool(out: &mut String, b: bool)
    ensures
        final(out)@ == old(out)@ + bool_text(b),
{
    if b {
        out.append("true");
    } else {
        out.append("false");
    }
}

/// Row title of a reason: "<label> (<code>)".
pub fn type_title(t: &ExplanationType) -> (r: String)
    ensures
        r@ == t.label@ + " ("@ + t.code@ + ")"@,
{
    let mut s = t.label.clone();
    s.append(" (");
    s.append(t.code.as_str());
    s.append(")");
    s
}

/// Row details of a reason: "sid=<n>, " when it has one, "sort=<n>", then the
/// marks for a required text, a seeded reason and a protected one.
pub open spec fn type_details_text(t: ExplanationType) -> Seq<char> {
    let sid = match t.exptype_sid {
        Some(n) => "sid="@ + signed_decimal(n as int) + ", "@,
        None => Seq::<char>::empty(),
    };
    sid + "sort="@ + signed_decimal(t.sort_order as int)
        + (if t.requires_text { " · 텍스트필수"@ } else { Seq::<char>::empty() })
        + (if t.is_system { " · 시드"@ } else { Seq::<char>::empty() })
        + (if t.is_protected { " · 보호(비활성 불가)"@ } else { Seq::<char>::empty() })
}

pub fn type_details(t: &ExplanationType) -> (r: String)
    ensures
        r@ == type_details_text(*t),
{
    let mut s = String::new();
    match t.exptype_sid {
        Some(n) => {
            s.append("sid=");
            push_signed_decimal(&mut s, n);
            s.append(", ");
        },
        None => {},
    }
    s.append("sort=");
    push_signed_decimal(&mut s, t.sort_order as i64);
    if t.requires_text {
        s.append(" · 텍스트필수");
    }
    if t.is_system {
        s.append(" · 시드");
    }
    if t.is_protected {
        s.append(" · 보호(비활성 불가)");
    }
    assert(s@ =~= type_details_text(*t));
    s
}

/// A new reason (the server makes its code).
#[derive(Debug)]
pub struct CreateTypeRequest {
    pub cmpsid: i64,
    pub requester_emp_sid: i64,
    pub label: String,
    pub sort_order: i32,
    pub icon: Option<String>,
    pub requires_text: bool,
}

/// Changes of a reason; `None` keeps the field.
#[derive(Debug)]
pub struct PatchTypeRequest {
    pub requester_emp_sid: i64,
    pub label: Option<String>,
    pub sort_order: Option<i32>,
    pub icon: Option<String>,
    pub requires_text: Option<bool>,
}

#[derive(Debug)]
pub struct DeactivateTypeRequest {
    pub cmpsid: i64,
    pub requester_emp_sid: i64,
}

/// Trimmed text, `None` when it is blank.
pub open spec fn trimmed_or_none(s: Seq<char>, r: Option<String>) -> bool {
    if trim(s).len() == 0 {
        r is None
    } else {
        r matches Some(t) && t@ == trim(s)
    }
}

fn trimmed_opt(s: &str) -> (r: Option<String>)
    ensures
        trimmed_or_none(s@, r),
{
    if is_blank(s) {
        None
    } else {
        Some(trim_str(s))
    }
}

/// The fields of the administration form (not its message or pending flag) are the same.
pub open spec fn same_cms_fields(a: ExplanationCmsForm, b: ExplanationCmsForm) -> bool {
    &&& a.create_label == b.create_label
    &&& a.create_sort == b.create_sort
    &&& a.create_icon == b.create_icon
    &&& a.create_requires_text == b.create_requires_text
    &&& a.patch_sid == b.patch_sid
    &&& a.patch_label == b.patch_label
    &&& a.patch_sort == b.patch_sort
    &&& a.patch_icon == b.patch_icon
    &&& a.patch_requires_text == b.patch_requires_text
    &&& a.deactivate_sid == b.deactivate_sid
    &&& a.usage_days == b.usage_days
}

pub open spec fn login_needed(f: ExplanationCmsForm) -> bool {
    f.status matches Some(m) && m@ == "로그인 후 호출 가능합니다."@
}

fn ask_login(form: &mut ExplanationCmsForm)
    ensures
        same_cms_fields(*final(form), *old(form)),
        final(form).pending == old(form).pending,
        login_needed(*final(form)),
{
    form.status = Some(String::from_str("로그인 후 호출 가능합니다."));
}

/// Marks a call as running, with "<label> 호출 중…".
pub open spec fn began(f: ExplanationCmsForm, label: Seq<char>) -> bool {
    f.pending && (f.status matches Some(m) && m@ == label + " 호출 중…"@)
}

/// The "add" call: needs a session (`keys` = employee id, company id) and a label.
pub fn cms_create_request(form: &mut ExplanationCmsForm, keys: Option<(i64, i64)>) -> (r: Option<CreateTypeRequest>)
    ensures
        same_cms_fields(*final(form), *old(form)),
        keys is None ==> r is None && login_needed(*final(form)) && final(form).pending == old(form).pending,
        keys is Some && trim(old(form).create_label@).len() == 0 ==> r is None
            && final(form).pending == old(form).pending
            && (final(form).status matches Some(m) && m@ == "라벨은 비울 수 없습니다."@),
        keys is Some && trim(old(form).create_label@).len() > 0 ==> began(*final(form), "추가"@)
            && (r matches Some(req) && req.cmpsid == keys.unwrap().1 && req.requester_emp_sid == keys.unwrap().0
                && req.label@ == trim(old(form).create_label@) && req.sort_order == old(form).create_sort
                && trimmed_or_none(old(form).create_icon@, req.icon) && req.requires_text == old(form).create_requires_text),
{
    let (requester, cmpsid) = match keys {
        Some(k) => k,
        None => {
            ask_login(form);
            return None;
        },
    };
    if is_blank(form.create_label.as_str()) {
        form.status = Some(String::from_str("라벨은 비울 수 없습니다."));
        return None;
    }
    let req = CreateTypeRequest {
        cmpsid,
        requester_emp_sid: requester,
        label: trim_str(form.create_label.as_str()),
        sort_order: form.create_sort,
        icon: trimmed_opt(form.create_icon.as_str()),
        requires_text: form.create_requires_text,
    };
    cms_begin(form, "추가");
    proof {
        reveal_strlit("추가");
    }
    Some(req)
}

/// The "change" call for the reason `patch_sid`: blank texts and a zero sort
/// order keep those fields; the text requirement is always sent.
pub fn cms_patch_request(form: &mut ExplanationCmsForm, requester: Option<i64>) -> (r: Option<(i64, PatchTypeRequest)>)
    ensures
        same_cms_fields(*final(form), *old(form)),
        requester is None ==> r is None && login_needed(*final(form)) && final(form).pending == old(form).pending,
        requester is Some ==> began(*final(form), "수정"@)
            && (r matches Some(p) && p.0 == old(form).patch_sid && p.1.requester_emp_sid == requester.unwrap()
                && trimmed_or_none(old(form).patch_label@, p.1.label)
                && p.1.sort_order == (if old(form).patch_sort != 0 { Some(old(form).patch_sort) } else { None })
                && trimmed_or_none(old(form).patch_icon@, p.1.icon)
                && p.1.requires_text == Some(old(form).patch_requires_text)),
{
    let id = match requester {
        Some(id) => id,
        None => {
            ask_login(form);
            return None;
        },
    };
    let req = PatchTypeRequest {
        requester_emp_sid: id,
        label: trimmed_opt(form.patch_label.as_str()),
        sort_order: if form.patch_sort != 0 { Some(form.patch_sort) } else { None },
        icon: trimmed_opt(form.patch_icon.as_str()),
        requires_text: Some(form.patch_requires_text),
    };
    let sid = form.patch_sid;
    cms_begin(form, "수정");
    proof {
        reveal_strlit("수정");
    }
    Some((sid, req))
}

/// The "deactivate" call for the reason `deactivate_sid`.
pub fn cms_deactivate_request(form: &mut ExplanationCmsForm, keys: Option<(i64, i64)>) -> (r: Option<(i64, DeactivateTypeRequest)>)
    ensures
        same_cms_fields(*final(form), *old(form)),
        keys is None ==> r is None && login_needed(*final(form)) && final(form).pending == old(form).pending,
        keys is Some ==> began(*final(form), "비활성"@)
            && (r matches Some(p) && p.0 == old(form).deactivate_sid && p.1.cmpsid == keys.unwrap().1
                && p.1.requester_emp_sid == keys.unwrap().0),
{
    let (requester, cmpsid) = match keys {
        Some(k) => k,
        None => {
            ask_login(form);
            return None;
        },
    };
    let sid = form.deactivate_sid;
    cms_begin(form, "비활성");
    proof {
        reveal_strlit("비활성");
    }
    Some((sid, DeactivateTypeRequest { cmpsid, requester_emp_sid: requester }))
}

/// The usage statistics call: (employee id, days).
pub fn cms_usage_request(form: &mut ExplanationCmsForm, requester: Option<i64>) -> (r: Option<(i64, u32)>)
    ensures
        same_cms_fields(*final(form), *old(form)),
        requester is None ==> r is None && login_needed(*final(form)) && final(form).pending == old(form).pending,
        requester is Some ==> began(*final(form), "통계"@) && r == Some((requester.unwrap(), old(form).usage_days)),
{
    let id = match requester {
        Some(id) => id,
        None => {
            ask_login(form);
            return None;
        },
    };
    let days = form.usage_days;
    cms_begin(form, "통계");
    proof {
        reveal_strlit("통계");
    }
    Some((id, days))
}

/// A call ended: not pending any more, and its result message shown.
pub fn cms_finish(form: &mut ExplanationCmsForm, message: String)
    ensures
        same_cms_fields(*final(form), *old(form)),
        !final(form).pending,
        final(form).status == Some(message),
{
    form.pending = false;
    form.status = Some(message);
}

/// Which calls can be made now: add, change, deactivate, statistics.
pub fn cms_buttons(form: &ExplanationCmsForm) -> (r: (bool, bool, bool, bool))
    ensures
        r == (
            !form.pending,
            !form.pending && form.patch_sid > 0,
            !form.pending && form.deactivate_sid > 0,
            !form.pending && form.usage_days > 0,
        ),
{
    (!form.pending, !form.pending && form.patch_sid > 0, !form.pending && form.deactivate_sid > 0, !form.pending && form.usage_days > 0)
}

pub open spec fn created_text(t: ExplanationType) -> Seq<char> {
    "추가 OK — exptype_sid="@ + match t.exptype_sid {
        Some(n) => signed_decimal(n as int),
        None => "?"@,
    } + ", code="@ + t.code@ + ", label="@ + t.label@ + ", sort="@ + signed_decimal(t.sort_order as int)
        + ", requires_text="@ + bool_text(t.requires_text) + "\n(이 sid 를 비활성 카드에 입력하면 비활성화 가능)"@
}

/// Result of the "add" call: the created reason, or the error text.
pub fn create_result_text(result: Result<&ExplanationType, &str>) -> (r: String)
    ensures
        r@ == match result {
            Ok(t) => created_text(*t),
            Err(e) => "추가 실패 — "@ + cms_error_text(e@),
        },
{
    match result {
        Ok(t) => {
            let mut s = String::from_str("추가 OK — exptype_sid=");
            match t.exptype_sid {
                Some(n) => push_signed_decimal(&mut s, n),
                None => s.append("?"),
            }
            s.append(", code=");
            s.append(t.code.as_str());
            s.append(", label=");
            s.append(t.label.as_str());
            s.append(", sort=");
            push_signed_decimal(&mut s, t.sort_order as i64);
            s.append(", requires_text=");
            push_bool(&mut s, t.requires_text);
            s.append("\n(이 sid 를 비활성 카드에 입력하면 비활성화 가능)");
            assert(s@ =~= created_text(*t));
            s
        },
        Err(e) => {
            let mut s = String::from_str("추가 실패 — ");
            let h = humanize_cms_error(e);
            s.append(h.as_str());
            s
        },
    }
}

pub open spec fn patched_text(sid: i64, t: ExplanationType) -> Seq<char> {
    "수정 OK — sid="@ + signed_decimal(sid as int) + ", code="@ + t.code@ + ", label="@ + t.label@ + ", sort="@
        + signed_decimal(t.sort_order as int) + ", requires_text="@ + bool_text(t.requires_text) + ", is_system="@
        + bool_text(t.is_system)
}

/// Result of the "change" call of reason `sid`.
pub fn patch_result_text(sid: i64, result: Result<&ExplanationType, &str>) -> (r: String)
    ensures
        r@ == match result {
            Ok(t) => patched_text(sid, *t),
            Err(e) => "수정 실패 — "@ + cms_error_text(e@),
        },
{
    match result {
        Ok(t) => {
            let mut s = String::from_str("수정 OK — sid=");
            push_signed_decimal(&mut s, sid);
            s.append(", code=");
            s.append(t.code.as_str());
            s.append(", label=");
            s.append(t.label.as_str());
            s.append(", sort=");
            push_signed_decimal(&mut s, t.sort_order as i64);
            s.append(", requires_text=");
            push_bool(&mut s, t.requires_text);
            s.append(", is_system=");
            push_bool(&mut s, t.is_system);
            assert(s@ =~= patched_text(sid, *t));
            s
        },
        Err(e) => {
            let mut s = String::from_str("수정 실패 — ");
            let h = humanize_cms_error(e);
            s.append(h.as_str());
            s
        },
    }
}

/// Result of the "deactivate" call of reason `sid`.
pub fn deactivate_result_text(sid: i64, error: Option<&str>) -> (r: String)
    ensures
        r@ == match error {
            None => "비활성 OK — sid="@ + signed_decimal(sid as int),
            Some(e) => "비활성 실패 — "@ + cms_error_text(e@),
        },
{
    match error {
        None => {
            let mut s = String::from_str("비활성 OK — sid=");
            push_signed_decimal(&mut s, sid);
            s
        },
        Some(e) => {
            let mut s = String::from_str("비활성 실패 — ");
            let h = humanize_cms_error(e);
            s.append(h.as_str());
            s
        },
    }
}

/// One line of the usage statistics.
#[derive(Debug)]
pub struct UsageRow {
    pub code: String,
    pub label: String,
    pub count: i64,
    pub distinct_users: i64,
}

pub open spec fn usage_line(r: UsageRow) -> Seq<char> {
    "  · "@ + r.label@ + " ("@ + r.code@ + ") — count="@ + signed_decimal(r.count as int) + ", users="@
        + signed_decimal(r.distinct_users as int) + "\n"@
}

pub open spec fn usage_lines(rows: Seq<UsageRow>) -> Seq<char>
    decreases rows.len(),
{
    if rows.len() == 0 {
        Seq::<char>::empty()
    } else {
        usage_lines(rows.drop_last()) + usage_line(rows.last())
    }
}

/// At most this many reasons are listed.
pub const USAGE_LINES_MAX: usize = 20;

pub open spec fn usage_text(days: nat, rows: Seq<UsageRow>) -> Seq<char> {
    if rows.len() == 0 {
        "통계 OK — 지난 "@ + decimal(days) + "일, 사용 0건"@
    } else {
        "통계 OK — 지난 "@ + decimal(days) + "일:\n"@ + usage_lines(
            rows.take(if rows.len() <= USAGE_LINES_MAX { rows.len() as int } else { USAGE_LINES_MAX as int }),
        )
    }
}

/// Result of the statistics call over `days` days: the first twenty rows.
pub fn usage_result_text(days: u32, result: Result<&Vec<UsageRow>, &str>) -> (r: String)
    ensures
        r@ == match result {
            Ok(rows) => usage_text(days as nat, rows@),
            Err(e) => "통계 실패 — "@ + cms_error_text(e@),
        },
{
    match result {
        Ok(rows) => {
            let mut s = String::from_str("통계 OK — 지난 ");
            push_decimal(&mut s, days as u64);
            if rows.len() == 0 {
                s.append("일, 사용 0건");
                return s;
            }
            s.append("일:\n");
            let ghost head = s@;
            let n = if rows.len() <= USAGE_LINES_MAX { rows.len() } else { USAGE_LINES_MAX };
            let mut i: usize = 0;
            while i < n
                invariant
                    i <= n,
                    n <= rows@.len(),
                    s@ == head + usage_lines(rows@.take(i as int)),
                decreases n - i,
            {
                let row = &rows[i];
                s.append("  · ");
                s.append(row.label.as_str());
                s.append(" (");
                s.append(row.code.as_str());
                s.append(") — count=");
                push_signed_decimal(&mut s, row.count);
                s.append(", users=");
                push_signed_decimal(&mut s, row.distinct_users);
                s.append("\n");
                proof {
                    assert(rows@.take(i + 1).drop_last() =~= rows@.take(i as int));
                    assert(s@ =~= head + usage_lines(rows@.take(i + 1)));
                }
                i = i + 1;
            }
            s
        },
        Err(e) => {
            let mut s = String::from_str("통계 실패 — ");
            let h = humanize_cms_error(e);
            s.append(h.as_str());
            s
        },
    }
}

} // verus!
