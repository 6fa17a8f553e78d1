//! Application update check: version comparison and the forced-update gate.
use vstd::prelude::*;
use crate::text::{all_digits, chars_of, digits_value, parse_unsigned, parse_unsigned_chars, split_chars, split_parts};

verus! {

/// The numbers of the dot-separated parts that parse as `u32`; other parts are dropped.
pub open spec fn parsed_parts(parts: Seq<Seq<char>>) -> Seq<nat>
    decreases parts.len(),
{
    if parts.len() == 0 {
        Seq::<nat>::empty()
    } else {
        let rest = parsed_parts(parts.drop_last());
        match parse_unsigned(parts.last(), u32::MAX as nat) {
            Some(v) => rest.push(v),
            None => rest,
        }
    }
}

/// Numeric components of a version text such as "1.2.3".
pub open spec fn version_numbers(s: Seq<char>) -> Seq<nat> {
    parsed_parts(split_parts(s, '.'))
}

/// Component `i`, a missing one counting as 0.
pub open spec fn part_at(p: Seq<nat>, i: int) -> nat {
    if 0 <= i < p.len() {
        p[i]
    } else {
        0
    }
}

/// `a` is an older version than `b`: at the first component where they differ,
/// `a`'s is smaller (missing components count as 0).
pub open spec fn numbers_lt(a: Seq<nat>, b: Seq<nat>) -> bool {
    exists|i: int|
        0 <= i && (forall|k: int| 0 <= k < i ==> #[trigger] part_at(a, k) == part_at(b, k)) && part_at(a, i)
            < part_at(b, i)
}

/// A version component: one or more decimal digits, no larger than `u32::MAX`.
pub open spec fn is_version_part(p: Seq<char>) -> bool {
    p.len() > 0 && all_digits(p) && digits_value(p) <= u32::MAX
}

/// A version text: components separated by dots ("1.2.3").
pub open spec fn well_formed_version(s: Seq<char>) -> bool {
    forall|i: int| 0 <= i < split_parts(s, '.').len() ==> #[trigger] is_version_part(split_parts(s, '.')[i])
}

/// `a` is strictly older than `b`; a malformed version is never older.
pub open spec fn spec_version_lt(a: Seq<char>, b: Seq<char>) -> bool {
    well_formed_version(a) && well_formed_version(b) && numbers_lt(version_numbers(a), version_numbers(b))
}

fn part_is_number(p: &Vec<char>) -> (r: bool)
    ensures
        r == is_version_part(p@),
{
    if p.len() == 0 || p[0] == '+' {
        proof {
            if p@.len() > 0 {
                assert(!crate::text::is_digit(p@[0]));
            }
        }
        return false;
    }
    assert(crate::text::unsigned_digits(p@) == p@);
    parse_unsigned_chars(p, 4294967295u64).is_some()
}

/// Whether `s` is a dotted list of numbers.
pub fn is_well_formed_version(s: &str) -> (r: bool)
    ensures
        r == well_formed_version(s@),
{
    let v = chars_of(s);
    let parts = split_chars(&v, '.');
    let ghost sp = split_parts(s@, '.');
    let mut k: usize = 0;
    while k < parts.len()
        invariant
            k <= parts@.len(),
            parts@.len() == sp.len(),
            sp == split_parts(s@, '.'),
            forall|i: int| 0 <= i < parts@.len() ==> #[trigger] parts@[i]@ == sp[i],
            forall|i: int| 0 <= i < k ==> #[trigger] is_version_part(sp[i]),
        decreases parts@.len() - k,
    {
        if !part_is_number(&parts[k]) {
            assert(!is_version_part(sp[k as int]));
            return false;
        }
        k = k + 1;
    }
    true
}

fn parse_version(s: &str) -> (r: Vec<u32>)
    ensures
        r@.len() == version_numbers(s@).len(),
        forall|i: int| 0 <= i < r@.len() ==> r@[i] as nat == #[trigger] version_numbers(s@)[i],
{
    let v = chars_of(s);
    let parts = split_chars(&v, '.');
    let ghost sp = split_parts(s@, '.');
    let mut out: Vec<u32> = Vec::new();
    let mut k: usize = 0;
    while k < parts.len()
        invariant
            k <= parts@.len(),
            parts@.len() == sp.len(),
            forall|i: int| 0 <= i < parts@.len() ==> #[trigger] parts@[i]@ == sp[i],
            out@.len() == parsed_parts(sp.take(k as int)).len(),
            forall|i: int| 0 <= i < out@.len() ==> out@[i] as nat == #[trigger] parsed_parts(sp.take(k as int))[i],
        decreases parts@.len() - k,
    {
        let parsed = parse_unsigned_chars(&parts[k], 4294967295u64);
        proof {
            assert(sp.take(k + 1).drop_last() == sp.take(k as int));
            assert(sp.take(k + 1).last() == sp[k as int]);
        }
        match parsed {
            Some(x) => {
                out.push(x as u32);
            },
            None => {},
        }
        k = k + 1;
    }
    assert(sp.take(sp.len() as int) == sp);
    out
}

/// "0.1.0" / "1.2.3" style comparison: `a` is strictly older than `b`. A
/// shorter version is padded with zeros; a malformed version gives `false`.
pub fn version_lt(a: &str, b: &str) -> (r: bool)
    ensures
        r == spec_version_lt(a@, b@),
{
    if !is_well_formed_version(a) || !is_well_formed_version(b) {
        return false;
    }
    let pa = parse_version(a);
    let pb = parse_version(b);
    let ghost na = version_numbers(a@);
    let ghost nb = version_numbers(b@);
    let len = if pa.len() >= pb.len() { pa.len() } else { pb.len() };
    let mut i: usize = 0;
    while i < len
        invariant
            len == if pa@.len() >= pb@.len() { pa@.len() } else { pb@.len() },
            na == version_numbers(a@),
            nb == version_numbers(b@),
            well_formed_version(a@),
            well_formed_version(b@),
            pa@.len() == na.len(),
            pb@.len() == nb.len(),
            forall|t: int| 0 <= t < pa@.len() ==> pa@[t] as nat == #[trigger] na[t],
            forall|t: int| 0 <= t < pb@.len() ==> pb@[t] as nat == #[trigger] nb[t],
            i <= len,
            forall|k: int| 0 <= k < i ==> #[trigger] part_at(na, k) == part_at(nb, k),
        decreases len - i,
    {
        let xa: u32 = if i < pa.len() { pa[i] } else { 0 };
        let xb: u32 = if i < pb.len() { pb[i] } else { 0 };
        assert(xa as nat == part_at(na, i as int));
        assert(xb as nat == part_at(nb, i as int));
        if xa < xb {
            assert(0 <= i && (forall|k: int| 0 <= k < i ==> #[trigger] part_at(na, k) == part_at(nb, k))
                && part_at(na, i as int) < part_at(nb, i as int));
            return true;
        }
        if xa > xb {
            proof {
                if numbers_lt(na, nb) {
                    let j = choose|j: int|
                        0 <= j && (forall|k: int| 0 <= k < j ==> #[trigger] part_at(na, k) == part_at(nb, k))
                            && part_at(na, j) < part_at(nb, j);
                    if j > i {
                        assert(part_at(na, i as int) == part_at(nb, i as int));
                    }
                }
            }
            return false;
        }
        i = i + 1;
    }
    proof {
        if numbers_lt(na, nb) {
            let j = choose|j: int|
                0 <= j && (forall|k: int| 0 <= k < j ==> #[trigger] part_at(na, k) == part_at(nb, k))
                    && part_at(na, j) < part_at(nb, j);
            if j < len {
                assert(part_at(na, j) == part_at(nb, j));
            }
        }
    }
    false
}

/// A forced update stops tracking when the running version is older than the
/// minimum required one.
pub fn forced_update_blocks_tracking(force_update: bool, current_version: &str, minimum_required_version: &str) -> (r: bool)
    ensures
        r == (force_update && spec_version_lt(current_version@, minimum_required_version@)),
{
    force_update && version_lt(current_version, minimum_required_version)
}

/// Delay before the first check and the interval between checks (at least an hour).
pub const INITIAL_DELAY_SECONDS: u64 = 15;

pub fn check_interval(configured: u64) -> (r: u64)
    ensures
        r == if configured >= 3600 { configured } else { 3600 },
{
    if configured >= 3600 { configured } else { 3600 }
}

/// No version is older than itself.
pub proof fn law_version_lt_irreflexive(a: Seq<char>)
    ensures
        !spec_version_lt(a, a),
{
}

/// Of two versions at most one is older than the other.
pub proof fn law_version_lt_asymmetric(a: Seq<char>, b: Seq<char>)
    ensures
        !(spec_version_lt(a, b) && spec_version_lt(b, a)),
{
    let na = version_numbers(a);
    let nb = version_numbers(b);
    if spec_version_lt(a, b) && spec_version_lt(b, a) {
        let i = choose|i: int|
            0 <= i && (forall|k: int| 0 <= k < i ==> #[trigger] part_at(na, k) == part_at(nb, k)) && part_at(na, i)
                < part_at(nb, i);
        let j = choose|j: int|
            0 <= j && (forall|k: int| 0 <= k < j ==> #[trigger] part_at(nb, k) == part_at(na, k)) && part_at(nb, j)
                < part_at(na, j);
        if i < j {
            assert(part_at(nb, i) == part_at(na, i));
        } else if j < i {
            assert(part_at(na, j) == part_at(nb, j));
        }
    }
}

/// Older-than is transitive.
pub proof fn law_version_lt_transitive(a: Seq<char>, b: Seq<char>, c: Seq<char>)
    requires
        spec_version_lt(a, b),
        spec_version_lt(b, c),
    ensures
        spec_version_lt(a, c),
{
    let na = version_numbers(a);
    let nb = version_numbers(b);
    let nc = version_numbers(c);
    let i = choose|i: int|
        0 <= i && (forall|k: int| 0 <= k < i ==> #[trigger] part_at(na, k) == part_at(nb, k)) && part_at(na, i)
            < part_at(nb, i);
    let j = choose|j: int|
        0 <= j && (forall|k: int| 0 <= k < j ==> #[trigger] part_at(nb, k) == part_at(nc, k)) && part_at(nb, j)
            < part_at(nc, j);
    let m = if i <= j { i } else { j };
    assert forall|k: int| 0 <= k < m implies #[trigger] part_at(na, k) == part_at(nc, k) by {
        assert(part_at(na, k) == part_at(nb, k));
        assert(part_at(nb, k) == part_at(nc, k));
    }
    if i < j {
        assert(part_at(nb, i) == part_at(nc, i));
    } else if j < i {
        assert(part_at(na, j) == part_at(nb, j));
    }
    assert(part_at(na, m) < part_at(nc, m));
}

/// Operating system named in the update request.
pub fn update_os_name(is_windows: bool) -> (r: &'static str)
    ensures
        r@ == if is_windows {
            "windows"@
        } else {
            "macos"@
        },
{
    if is_windows { "windows" } else { "macos" }
}

} // verus!
