//! The explanation list screen: status tabs and the cache of the server's list.
//!
//! The server answer is the source of truth. The cache keeps the last answer,
//! whether a request is running and the last error, for one employee; a
//! different employee invalidates it.
use vstd::prelude::*;
use crate::dto::RemoteExplanation;
use crate::text::{decimal, push_decimal, str_eq};
use crate::util::{duration_text, format_duration_human};

verus! {

/// Review state of an idle segment's explanation.
#[derive(Debug, Clone, Copy, PartialEq, Eq, Structural)]
pub enum ExplanationStatus {
    Pending,
    Submitted,
    Expired,
    Exempted,
}

/// Wire name of a status.
pub open spec fn status_wire_name(s: ExplanationStatus) -> Seq<char> {
    match s {
        ExplanationStatus::Pending => "PENDING"@,
        ExplanationStatus::Submitted => "SUBMITTED"@,
        ExplanationStatus::Expired => "EXPIRED"@,
        ExplanationStatus::Exempted => "EXEMPTED"@,
    }
}

/// Status named by a wire string; anything else counts as pending.
pub open spec fn status_from_wire(s: Seq<char>) -> ExplanationStatus {
    if s == "SUBMITTED"@ {
        ExplanationStatus::Submitted
    } else if s == "EXPIRED"@ {
        ExplanationStatus::Expired
    } else if s == "EXEMPTED"@ {
        ExplanationStatus::Exempted
    } else {
        ExplanationStatus::Pending
    }
}

impl ExplanationStatus {
    pub fn as_str(&self) -> (r: &'static str)
        ensures
            r@ == status_wire_name(*self),
    {
        match self {
            ExplanationStatus::Pending => "PENDING",
            ExplanationStatus::Submitted => "SUBMITTED",
            ExplanationStatus::Expired => "EXPIRED",
            ExplanationStatus::Exempted => "EXEMPTED",
        }
    }

    pub fn parse(s: &str) -> (r: Self)
        ensures
            r == status_from_wire(s@),
    {
        if str_eq(s, "SUBMITTED") {
            ExplanationStatus::Submitted
        } else if str_eq(s, "EXPIRED") {
            ExplanationStatus::Expired
        } else if str_eq(s, "EXEMPTED") {
            ExplanationStatus::Exempted
        } else {
            ExplanationStatus::Pending
        }
    }
}

/// Status tabs of the list.
#[derive(Debug, Clone, Copy, PartialEq, Eq, Structural)]
pub enum ExplanationFilter {
    All,
    Needs,
    Review,
    Approved,
}

impl Default for ExplanationFilter {
    fn default() -> (r: Self)
        ensures
            r == ExplanationFilter::Needs,
    {
        ExplanationFilter::Needs
    }
}

pub open spec fn filter_label(f: ExplanationFilter) -> Seq<char> {
    match f {
        ExplanationFilter::All => "전체"@,
        ExplanationFilter::Needs => "소명 필요"@,
        ExplanationFilter::Review => "검토중"@,
        ExplanationFilter::Approved => "승인 완료"@,
    }
}

/// Which statuses a tab shows.
pub open spec fn filter_matches(f: ExplanationFilter, s: ExplanationStatus) -> bool {
    match f {
        ExplanationFilter::All => true,
        ExplanationFilter::Needs => s == ExplanationStatus::Pending,
        ExplanationFilter::Review => s == ExplanationStatus::Submitted,
        ExplanationFilter::Approved => s == ExplanationStatus::Exempted,
    }
}

impl ExplanationFilter {
    pub fn label(self) -> (r: &'static str)
        ensures
            r@ == filter_label(self),
    {
        match self {
            ExplanationFilter::All => "전체",
            ExplanationFilter::Needs => "소명 필요",
            ExplanationFilter::Review => "검토중",
            ExplanationFilter::Approved => "승인 완료",
        }
    }

    pub fn matches(self, status: ExplanationStatus) -> (r: bool)
        ensures
            r == filter_matches(self, status),
    {
        match self {
            ExplanationFilter::All => true,
            ExplanationFilter::Needs => status == ExplanationStatus::Pending,
            ExplanationFilter::Review => status == ExplanationStatus::Submitted,
            ExplanationFilter::Approved => status == ExplanationStatus::Exempted,
        }
    }
}

pub open spec fn status_text(s: ExplanationStatus) -> Seq<char> {
    match s {
        ExplanationStatus::Pending => "소명 필요"@,
        ExplanationStatus::Submitted => "검토중"@,
        ExplanationStatus::Expired => "기한 만료"@,
        ExplanationStatus::Exempted => "승인 완료"@,
    }
}

/// Status column text.
pub fn status_label(status: ExplanationStatus) -> (r: &'static str)
    ensures
        r@ == status_text(status),
{
    match status {
        ExplanationStatus::Pending => "소명 필요",
        ExplanationStatus::Submitted => "검토중",
        ExplanationStatus::Expired => "기한 만료",
        ExplanationStatus::Exempted => "승인 완료",
    }
}

/// The "explain" button is offered for pending and expired rows.
pub fn is_actionable(status: ExplanationStatus) -> (r: bool)
    ensures
        r == (status == ExplanationStatus::Pending || status == ExplanationStatus::Expired),
{
    status == ExplanationStatus::Pending || status == ExplanationStatus::Expired
}

/// Positions of the rows a tab shows, in order.
pub open spec fn shown_by(items: Seq<RemoteExplanation>, f: ExplanationFilter, idx: Seq<usize>) -> bool {
    &&& forall|k: int| 0 <= k < idx.len() ==> #[trigger] idx[k] < items.len()
    &&& forall|k: int, l: int| 0 <= k < l < idx.len() ==> idx[k] < idx[l]
    &&& forall|k: int| 0 <= k < idx.len() ==> filter_matches(f, status_from_wire(#[trigger] items[idx[k] as int].explanation_status@))
    &&& forall|i: int| 0 <= i < items.len() && filter_matches(f, status_from_wire(#[trigger] items[i].explanation_status@))
        ==> exists|k: int| 0 <= k < idx.len() && idx[k] == i
}

/// The rows that a tab shows (their positions in `items`).
pub fn filtered_indices(items: &Vec<RemoteExplanation>, f: ExplanationFilter) -> (r: Vec<usize>)
    ensures
        shown_by(items@, f, r@),
{
    let mut r: Vec<usize> = Vec::new();
    let mut i: usize = 0;
    while i < items.len()
        invariant
            i <= items@.len(),
            forall|k: int| 0 <= k < r@.len() ==> #[trigger] r@[k] < i,
            forall|k: int, l: int| 0 <= k < l < r@.len() ==> r@[k] < r@[l],
            forall|k: int| 0 <= k < r@.len() ==> filter_matches(f, status_from_wire(#[trigger] items@[r@[k] as int].explanation_status@)),
            forall|j: int| 0 <= j < i && filter_matches(f, status_from_wire(#[trigger] items@[j].explanation_status@))
                ==> exists|k: int| 0 <= k < r@.len() && r@[k] == j,
        decreases items@.len() - i,
    {
        let st = ExplanationStatus::parse(items[i].explanation_status.as_str());
        let ghost before = r@;
        if f.matches(st) {
            r.push(i);
        }
        proof {
            assert forall|j: int|
                0 <= j < i + 1 && filter_matches(f, status_from_wire(#[trigger] items@[j].explanation_status@)) implies exists|k: int|
                0 <= k < r@.len() && r@[k] == j by {
                if j == i {
                    assert(r@[r@.len() - 1] == j);
                } else {
                    let k = choose|k: int| 0 <= k < before.len() && before[k] == j;
                    assert(r@[k] == j);
                }
            }
        }
        i = i + 1;
    }
    r
}

/// Last answer of the list request and its bookkeeping.
pub struct ListCache {
    /// Last answer; `None` while nothing has been loaded.
    pub items: Option<Vec<RemoteExplanation>>,
    /// A request is running.
    pub loading: bool,
    /// Error of the last request, if it failed.
    pub error: Option<String>,
    /// Employee the cache belongs to.
    pub employee_id: i64,
    pub last_fetched_at: Option<i64>,
}

/// The empty cache.
pub open spec fn is_empty_cache(c: ListCache) -> bool {
    c.items is None && !c.loading && c.error is None && c.employee_id == 0 && c.last_fetched_at is None
}

impl Default for ListCache {
    fn default() -> (r: Self)
        ensures
            is_empty_cache(r),
    {
        ListCache { items: None, loading: false, error: None, employee_id: 0, last_fetched_at: None }
    }
}

/// Whether opening the screen for `employee_id` must load the list: another
/// employee's list is cached, or nothing was ever loaded (no error, no request running).
pub open spec fn needs_fetch(c: ListCache, employee_id: i64) -> bool {
    let user_changed = c.items is Some && c.employee_id != employee_id;
    let never_loaded = c.items is None && c.error is None && !c.loading;
    user_changed || never_loaded
}

/// The cache after starting a request for `employee_id` (nothing happens while one is running).
pub open spec fn spec_trigger(c: ListCache, employee_id: i64) -> (ListCache, bool) {
    if c.loading {
        (c, false)
    } else {
        (
            ListCache {
                loading: true,
                items: if c.employee_id != employee_id { None } else { c.items },
                employee_id,
                error: None,
                ..c
            },
            true,
        )
    }
}

/// Starts a request for `employee_id`. Returns whether the caller must send it.
/// Another employee's rows are dropped at once.
pub fn trigger_fetch(c: &mut ListCache, employee_id: i64) -> (started: bool)
    ensures
        (*final(c), started) == spec_trigger(*old(c), employee_id),
{
    if c.loading {
        return false;
    }
    c.loading = true;
    if c.employee_id != employee_id {
        c.items = None;
    }
    c.employee_id = employee_id;
    c.error = None;
    true
}

/// Screen entry: loads the list when [`needs_fetch`] says so. Returns whether a request must be sent.
pub fn ensure_loaded(c: &mut ListCache, employee_id: i64) -> (started: bool)
    ensures
        needs_fetch(*old(c), employee_id) ==> (*final(c), started) == spec_trigger(*old(c), employee_id),
        !needs_fetch(*old(c), employee_id) ==> *final(c) == *old(c) && !started,
{
    let user_changed = c.items.is_some() && c.employee_id != employee_id;
    let never_loaded = c.items.is_none() && c.error.is_none() && !c.loading;
    if user_changed || never_loaded {
        trigger_fetch(c, employee_id)
    } else {
        false
    }
}

/// External request for a fresh list (after a submission or a sync).
pub fn request_refresh(c: &mut ListCache, employee_id: i64) -> (started: bool)
    ensures
        (*final(c), started) == spec_trigger(*old(c), employee_id),
{
    trigger_fetch(c, employee_id)
}

/// Records the outcome of a request finished at `now`: the rows on success, the
/// error text (keeping the old rows) on failure.
pub fn finish_fetch(c: &mut ListCache, result: Result<Vec<RemoteExplanation>, String>, now: i64)
    ensures
        !final(c).loading,
        final(c).last_fetched_at == Some(now),
        final(c).employee_id == old(c).employee_id,
        match result {
            Ok(items) => final(c).items == Some(items) && final(c).error is None,
            Err(e) => final(c).items == old(c).items && final(c).error == Some(e),
        },
{
    c.loading = false;
    c.last_fetched_at = Some(now);
    match result {
        Ok(items) => {
            c.items = Some(items);
            c.error = None;
        },
        Err(e) => {
            c.error = Some(e);
        },
    }
}

/// At logout: forget everything, so no other account's rows can show.
pub fn clear_cache(c: &mut ListCache)
    ensures
        is_empty_cache(*final(c)),
{
    *c = ListCache::default();
}

/// `b` is `a` with only its status changed to "SUBMITTED".
pub open spec fn marked_submitted(a: RemoteExplanation, b: RemoteExplanation) -> bool {
    &&& b.explanation_status@ == "SUBMITTED"@
    &&& b.segment_id == a.segment_id
    &&& b.work_date == a.work_date
    &&& b.start_time == a.start_time
    &&& b.end_time == a.end_time
    &&& b.duration_seconds == a.duration_seconds
    &&& b.applied_idle_threshold_seconds == a.applied_idle_threshold_seconds
    &&& b.segment_type == a.segment_type
    &&& b.explanation_deadline == a.explanation_deadline
}

/// Right after a submission: rows of `segment_id` show as submitted until the
/// next answer from the server replaces them. Other rows are untouched.
pub fn mark_submitted_optimistic(c: &mut ListCache, segment_id: &str)
    ensures
        final(c).loading == old(c).loading,
        final(c).error == old(c).error,
        final(c).employee_id == old(c).employee_id,
        final(c).last_fetched_at == old(c).last_fetched_at,
        old(c).items is None ==> final(c).items is None,
        old(c).items matches Some(v) ==> final(c).items matches Some(w) && w@.len() == v@.len() && forall|i: int|
            0 <= i < v@.len() ==> if v@[i].segment_id@ == segment_id@ {
                marked_submitted(v@[i], #[trigger] w@[i])
            } else {
                w@[i] == v@[i]
            },
{
    let mut taken: Option<Vec<RemoteExplanation>> = None;
    std::mem::swap(&mut taken, &mut c.items);
    match taken {
        None => {},
        Some(mut items) => {
            let ghost orig = items@;
            let mut i: usize = 0;
            while i < items.len()
                invariant
                    i <= items@.len(),
                    items@.len() == orig.len(),
                    forall|k: int|
                        0 <= k < orig.len() ==> if k < i && orig[k].segment_id@ == segment_id@ {
                            marked_submitted(orig[k], #[trigger] items@[k])
                        } else {
                            items@[k] == orig[k]
                        },
                decreases items@.len() - i,
            {
                if str_eq(items[i].segment_id.as_str(), segment_id) {
                    let mut row = items[i].clone();
                    row.explanation_status = String::from_str(ExplanationStatus::Submitted.as_str());
                    items.set(i, row);
                }
                i = i + 1;
            }
            c.items = Some(items);
        },
    }
}

/// After a logout the next screen entry loads the list again, whoever signs in.
pub proof fn law_cleared_cache_reloads(c: ListCache, employee_id: i64)
    requires
        is_empty_cache(c),
    ensures
        needs_fetch(c, employee_id),
        spec_trigger(c, employee_id).1,
{
}

/// A request is never started twice: while one runs, starting another changes nothing.
pub proof fn law_no_duplicate_request(c: ListCache, employee_id: i64)
    requires
        c.loading,
    ensures
        spec_trigger(c, employee_id).0 == c,
        !spec_trigger(c, employee_id).1,
{
}

/// Starting a request for another employee drops the cached rows, so another
/// account's rows are never shown.
pub proof fn law_other_employee_rows_dropped(c: ListCache, employee_id: i64)
    requires
        !c.loading,
        c.employee_id != employee_id,
    ensures
        spec_trigger(c, employee_id).0.items is None,
        spec_trigger(c, employee_id).0.employee_id == employee_id,
{
}

/// Once the list of an employee is loaded, entering the screen again for that
/// employee does not reload it.
pub proof fn law_loaded_list_not_refetched(c: ListCache, employee_id: i64)
    requires
        c.items is Some,
        c.employee_id == employee_id,
    ensures
        !needs_fetch(c, employee_id),
{
}

/// Stores a list fetched outside the screen (right after a login) as the
/// answer for `employee_id`.
pub fn store_response_for(c: &mut ListCache, employee_id: i64, items: Vec<RemoteExplanation>)
    ensures
        final(c).items == Some(items),
        final(c).employee_id == employee_id,
        final(c).error is None,
        final(c).loading == old(c).loading,
        final(c).last_fetched_at == old(c).last_fetched_at,
{
    c.items = Some(items);
    c.employee_id = employee_id;
    c.error = None;
}

/// First cached row of `segment_id`.
pub open spec fn first_row_of(items: Seq<RemoteExplanation>, segment_id: Seq<char>, i: int) -> bool {
    &&& 0 <= i < items.len()
    &&& items[i].segment_id@ == segment_id
    &&& forall|k: int| 0 <= k < i ==> items[k].segment_id@ != segment_id
}

fn find_row(v: &Vec<RemoteExplanation>, segment_id: &str) -> (r: Option<RemoteExplanation>)
    ensures
        match r {
            Some(row) => exists|i: int| first_row_of(v@, segment_id@, i) && row == v@[i],
            None => forall|k: int| 0 <= k < v@.len() ==> v@[k].segment_id@ != segment_id@,
        },
{
    let mut i: usize = 0;
    while i < v.len()
        invariant
            i <= v@.len(),
            forall|k: int| 0 <= k < i ==> v@[k].segment_id@ != segment_id@,
        decreases v@.len() - i,
    {
        if str_eq(v[i].segment_id.as_str(), segment_id) {
            let row = v[i].clone();
            assert(first_row_of(v@, segment_id@, i as int));
            return Some(row);
        }
        i = i + 1;
    }
    None
}

/// The cached row of `segment_id` (the first one), if the cache holds it.
pub fn find_in_cache(c: &ListCache, segment_id: &str) -> (r: Option<RemoteExplanation>)
    ensures
        match c.items {
            None => r is None,
            Some(v) => match r {
                Some(row) => exists|i: int| first_row_of(v@, segment_id@, i) && row == v@[i],
                None => forall|k: int| 0 <= k < v@.len() ==> v@[k].segment_id@ != segment_id@,
            },
        },
{
    match &c.items {
        None => None,
        Some(v) => find_row(v, segment_id),
    }
}

// ───────────────────────────── what the screen shows ─────────────────────────────

/// Number of rows a tab shows.
pub open spec fn count_shown(items: Seq<RemoteExplanation>, f: ExplanationFilter) -> nat
    decreases items.len(),
{
    if items.len() == 0 {
        0
    } else {
        count_shown(items.drop_last(), f) + if filter_matches(f, status_from_wire(items.last().explanation_status@)) {
            1nat
        } else {
            0nat
        }
    }
}

pub fn tab_count(items: &Vec<RemoteExplanation>, f: ExplanationFilter) -> (r: usize)
    ensures
        r == count_shown(items@, f),
{
    let mut n: usize = 0;
    let mut i: usize = 0;
    while i < items.len()
        invariant
            i <= items@.len(),
            n <= i,
            n == count_shown(items@.take(i as int), f),
        decreases items@.len() - i,
    {
        proof {
            assert(items@.take(i + 1).drop_last() == items@.take(i as int));
        }
        if f.matches(ExplanationStatus::parse(items[i].explanation_status.as_str())) {
            n = n + 1;
        }
        i = i + 1;
    }
    assert(items@.take(items@.len() as int) == items@);
    n
}

/// Tab title: "<label> <count>", or the label alone when the tab is empty.
pub open spec fn tab_text(f: ExplanationFilter, count: nat) -> Seq<char> {
    if count > 0 {
        filter_label(f) + " "@ + decimal(count)
    } else {
        filter_label(f)
    }
}

pub fn tab_label(f: ExplanationFilter, count: usize) -> (r: String)
    ensures
        r@ == tab_text(f, count as nat),
{
    let mut s = String::from_str(f.label());
    if count > 0 {
        s.append(" ");
        push_decimal(&mut s, count as u64);
    }
    s
}

pub open spec fn hint_text(f: ExplanationFilter) -> Seq<char> {
    match f {
        ExplanationFilter::All => "전체 자리비움 구간 내역입니다."@,
        ExplanationFilter::Needs => "근무시간 중 PC 미사용 시간이 감지되었습니다. 업무상 사유가 있는 경우 소명해 주세요."@,
        ExplanationFilter::Review => "제출한 소명이 관리자 검토를 기다리고 있습니다."@,
        ExplanationFilter::Approved => "사유가 인정되어 승인 완료된 자리비움입니다."@,
    }
}

/// Line under the tabs, for the tab's context.
pub fn filter_hint(f: ExplanationFilter) -> (r: &'static str)
    ensures
        r@ == hint_text(f),
{
    match f {
        ExplanationFilter::All => "전체 자리비움 구간 내역입니다.",
        ExplanationFilter::Needs => "근무시간 중 PC 미사용 시간이 감지되었습니다. 업무상 사유가 있는 경우 소명해 주세요.",
        ExplanationFilter::Review => "제출한 소명이 관리자 검토를 기다리고 있습니다.",
        ExplanationFilter::Approved => "사유가 인정되어 승인 완료된 자리비움입니다.",
    }
}

pub open spec fn empty_text(f: ExplanationFilter) -> Seq<char> {
    match f {
        ExplanationFilter::All => "표시할 자리비움 구간이 없습니다."@,
        ExplanationFilter::Needs => "소명이 필요한 자리비움 구간이 없습니다."@,
        ExplanationFilter::Review => "검토 대기 중인 소명이 없습니다."@,
        ExplanationFilter::Approved => "승인 완료된 소명이 없습니다."@,
    }
}

/// Message of a tab without rows.
pub fn empty_message(f: ExplanationFilter) -> (r: &'static str)
    ensures
        r@ == empty_text(f),
{
    match f {
        ExplanationFilter::All => "표시할 자리비움 구간이 없습니다.",
        ExplanationFilter::Needs => "소명이 필요한 자리비움 구간이 없습니다.",
        ExplanationFilter::Review => "검토 대기 중인 소명이 없습니다.",
        ExplanationFilter::Approved => "승인 완료된 소명이 없습니다.",
    }
}

/// An empty "needs" or "all" tab explains how segments come about.
pub fn shows_generation_note(f: ExplanationFilter) -> (r: bool)
    ensures
        r == (f == ExplanationFilter::Needs || f == ExplanationFilter::All),
{
    f == ExplanationFilter::Needs || f == ExplanationFilter::All
}

/// "불러오기 실패: <error>" above the (kept) rows after a failed request.
pub fn load_error_text(msg: &str) -> (r: String)
    ensures
        r@ == "불러오기 실패: "@ + msg@,
{
    let mut s = String::from_str("불러오기 실패: ");
    s.append(msg);
    s
}

/// Caption of the refresh button.
pub fn refresh_label(loading: bool) -> (r: &'static str)
    ensures
        r@ == if loading {
            "불러오는 중…"@
        } else {
            "↻ 새로고침"@
        },
{
    if loading { "불러오는 중…" } else { "↻ 새로고침" }
}

/// Duration column: the duration, or "진행 중" while the segment is open.
pub fn duration_cell(duration_seconds: Option<i64>) -> (r: String)
    ensures
        r@ == match duration_seconds {
            Some(d) => duration_text(d as int),
            None => "진행 중"@,
        },
{
    match duration_seconds {
        Some(d) => format_duration_human(d),
        None => String::from_str("진행 중"),
    }
}

/// Threshold column: "<duration> 이내".
pub fn threshold_cell(threshold_seconds: i64) -> (r: String)
    ensures
        r@ == duration_text(threshold_seconds as int) + " 이내"@,
{
    let mut s = format_duration_human(threshold_seconds);
    s.append(" 이내");
    s
}

/// The date that the clock library reads from `s` with the pattern "%Y-%m-%d",
/// written back with the same pattern; `None` when it refuses the text.
pub uninterp spec fn chrono_date_text(s: Seq<char>) -> Option<Seq<char>>;

/// `chrono::NaiveDate::parse_from_str(s, "%Y-%m-%d")` and, when it succeeds,
/// `format("%Y-%m-%d")` of the date. Claimed: the result is a function of `s` alone.
#[verifier::external_body]
fn chrono_normalize_date(s: &str) -> (r: Option<String>)
    ensures
        match r {
            Some(t) => chrono_date_text(s@) == Some(t@),
            None => chrono_date_text(s@) is None,
        },
{
    match chrono::NaiveDate::parse_from_str(s, "%Y-%m-%d") {
        Ok(d) => Some(d.format("%Y-%m-%d").to_string()),
        Err(_) => None,
    }
}

/// Date column: the work date as the clock library writes it, or the server's
/// text unchanged when it is not a date.
pub fn work_date_cell(work_date: &str) -> (r: String)
    ensures
        r@ == match chrono_date_text(work_date@) {
            Some(t) => t,
            None => work_date@,
        },
{
    match chrono_normalize_date(work_date) {
        Some(t) => t,
        None => String::from_str(work_date),
    }
}

// ───────────────────────────── laws ─────────────────────────────

/// Reading back a status's wire name gives the status.
pub proof fn law_status_wire_round_trip(s: ExplanationStatus)
    ensures
        status_from_wire(status_wire_name(s)) == s,
{
    reveal_strlit("PENDING");
    reveal_strlit("SUBMITTED");
    reveal_strlit("EXPIRED");
    reveal_strlit("EXEMPTED");
    assert("PENDING"@[0] != "SUBMITTED"@[0]);
    assert("PENDING"@[0] != "EXPIRED"@[0]);
    assert("PENDING"@[0] != "EXEMPTED"@[0]);
    assert("SUBMITTED"@[0] != "EXPIRED"@[0]);
    assert("SUBMITTED"@[0] != "EXEMPTED"@[0]);
    assert("EXPIRED"@[2] != "EXEMPTED"@[2]);
}

/// A row marked as submitted right after a submission leaves the "needs" tab
/// and shows under "review".
pub proof fn law_submitted_row_moves_to_review(a: RemoteExplanation, b: RemoteExplanation)
    requires
        marked_submitted(a, b),
    ensures
        !filter_matches(ExplanationFilter::Needs, status_from_wire(b.explanation_status@)),
        filter_matches(ExplanationFilter::Review, status_from_wire(b.explanation_status@)),
{
    reveal_strlit("SUBMITTED");
}

/// The "all" tab shows every row.
pub proof fn law_all_tab_counts_every_row(items: Seq<RemoteExplanation>)
    ensures
        count_shown(items, ExplanationFilter::All) == items.len(),
    decreases items.len(),
{
    if items.len() > 0 {
        law_all_tab_counts_every_row(items.drop_last());
    }
}

/// Which statuses each tab shows: "needs" only pending rows, "review" only
/// submitted ones, "approved" only exempted ones (an expired row is never
/// shown as approved), "all" every row.
pub proof fn law_tab_statuses(s: ExplanationStatus)
    ensures
        filter_matches(ExplanationFilter::All, s),
        filter_matches(ExplanationFilter::Needs, s) <==> s == ExplanationStatus::Pending,
        filter_matches(ExplanationFilter::Review, s) <==> s == ExplanationStatus::Submitted,
        filter_matches(ExplanationFilter::Approved, s) <==> s == ExplanationStatus::Exempted,
        !filter_matches(ExplanationFilter::Approved, ExplanationStatus::Expired),
{
}

/// The rows a tab shows, by their wire status: "approved" shows exactly the rows
/// marked "EXEMPTED", "review" exactly those marked "SUBMITTED", and "needs"
/// exactly those marked neither "SUBMITTED", "EXPIRED" nor "EXEMPTED".
pub proof fn law_tab_rows_by_wire_status(items: Seq<RemoteExplanation>, idx: Seq<usize>, i: int)
    requires
        0 <= i < items.len(),
    ensures
        shown_by(items, ExplanationFilter::Approved, idx) ==> ((exists|k: int| 0 <= k < idx.len() && idx[k] == i)
            <==> items[i].explanation_status@ == "EXEMPTED"@),
        shown_by(items, ExplanationFilter::Review, idx) ==> ((exists|k: int| 0 <= k < idx.len() && idx[k] == i)
            <==> items[i].explanation_status@ == "SUBMITTED"@),
        shown_by(items, ExplanationFilter::Needs, idx) ==> ((exists|k: int| 0 <= k < idx.len() && idx[k] == i)
            <==> (items[i].explanation_status@ != "SUBMITTED"@ && items[i].explanation_status@ != "EXPIRED"@
                && items[i].explanation_status@ != "EXEMPTED"@)),
{
    law_status_wire_round_trip(ExplanationStatus::Submitted);
    law_status_wire_round_trip(ExplanationStatus::Expired);
    law_status_wire_round_trip(ExplanationStatus::Exempted);
    let st = items[i].explanation_status@;
    assert(status_from_wire(st) == ExplanationStatus::Exempted <==> st == "EXEMPTED"@);
    assert(status_from_wire(st) == ExplanationStatus::Submitted <==> st == "SUBMITTED"@);
    assert(status_from_wire(st) == ExplanationStatus::Pending <==> (st != "SUBMITTED"@ && st != "EXPIRED"@
        && st != "EXEMPTED"@));
    if shown_by(items, ExplanationFilter::Approved, idx) {
        assert forall|k: int| 0 <= k < idx.len() && idx[k] == i implies st == "EXEMPTED"@ by {
            assert(filter_matches(ExplanationFilter::Approved, status_from_wire(items[idx[k] as int].explanation_status@)));
        }
    }
    if shown_by(items, ExplanationFilter::Review, idx) {
        assert forall|k: int| 0 <= k < idx.len() && idx[k] == i implies st == "SUBMITTED"@ by {
            assert(filter_matches(ExplanationFilter::Review, status_from_wire(items[idx[k] as int].explanation_status@)));
        }
    }
    if shown_by(items, ExplanationFilter::Needs, idx) {
        assert forall|k: int| 0 <= k < idx.len() && idx[k] == i implies (st != "SUBMITTED"@ && st != "EXPIRED"@
            && st != "EXEMPTED"@) by {
            assert(filter_matches(ExplanationFilter::Needs, status_from_wire(items[idx[k] as int].explanation_status@)));
        }
    }
}

/// Adding a row raises the "approved" count exactly when the row is marked "EXEMPTED".
pub proof fn law_approved_count_step(items: Seq<RemoteExplanation>, row: RemoteExplanation)
    ensures
        count_shown(items.push(row), ExplanationFilter::Approved) == count_shown(items, ExplanationFilter::Approved)
            + if row.explanation_status@ == "EXEMPTED"@ { 1nat } else { 0nat },
        count_shown(Seq::<RemoteExplanation>::empty(), ExplanationFilter::Approved) == 0,
{
    law_status_wire_round_trip(ExplanationStatus::Exempted);
    assert(items.push(row).drop_last() == items);
    assert(status_from_wire(row.explanation_status@) == ExplanationStatus::Exempted <==> row.explanation_status@
        == "EXEMPTED"@);
}

} // verus!
