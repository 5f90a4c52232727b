//! Time-windowed calibration resolution: for every device, pick the one
//! calibration version that was in effect when a run started.

use std::collections::HashMap;

use vstd::prelude::*;

verus! {

/// One calibration version of a device (DOM).
///
/// `timestamp` is the creation time in milliseconds since the Unix epoch.
/// `domcal` is the calibration payload; resolution never looks inside it.
pub struct Calibration<P> {
    pub dom_id: u32,
    pub domcal: P,
    pub timestamp: i64,
}

/// Whether a version created at `t` had already been made when a run
/// starting at `start` began.
pub open spec fn in_effect_at(t: int, start: int) -> bool {
    t <= start
}

/// The preference order among versions of one device, for a run starting at
/// `start`: version `(ti, i)` (timestamp, position in the input) ranks ahead
/// of version `(tj, j)`.
///
/// Versions made at or before the start beat later ones; among those, the
/// most recent wins; among later ones, the oldest wins. Equal timestamps are
/// broken by input position: the first one among versions at or before the
/// start, the last one among later versions. This is the order in which a
/// stable newest-first sort followed by "first in effect, else last" picks.
pub open spec fn ranks_ahead(ti: int, i: int, tj: int, j: int, start: int) -> bool {
    if in_effect_at(ti, start) && in_effect_at(tj, start) {
        ti > tj || (ti == tj && i < j)
    } else if in_effect_at(ti, start) {
        true
    } else if in_effect_at(tj, start) {
        false
    } else {
        ti < tj || (ti == tj && i > j)
    }
}

/// Whether position `i` of `s` is the version chosen for its device: it
/// ranks ahead of every other version of the same device.
pub open spec fn is_selected<P>(s: Seq<Calibration<P>>, start: int, i: int) -> bool {
    &&& 0 <= i < s.len()
    &&& forall|j: int|
        0 <= j < s.len() && j != i && #[trigger] s[j].dom_id == s[i].dom_id ==> ranks_ahead(
            s[i].timestamp as int,
            i,
            s[j].timestamp as int,
            j,
            start,
        )
}

/// The chosen positions among the first `n` positions of `s`, in increasing order.
pub open spec fn selected_positions<P>(s: Seq<Calibration<P>>, start: int, n: int) -> Seq<int>
    decreases n,
{
    if n <= 0 {
        Seq::empty()
    } else {
        let before = selected_positions(s, start, n - 1);
        if is_selected(s, start, n - 1) {
            before.push(n - 1)
        } else {
            before
        }
    }
}

/// The resolved calibrations: one version per device present in `s`, in the
/// order of their positions in `s`.
pub open spec fn resolution<P>(s: Seq<Calibration<P>>, start: int) -> Seq<Calibration<P>> {
    selected_positions(s, start, s.len() as int).map_values(|i: int| s[i])
}

/// The best-ranked position of device `d` among the first `n` positions of
/// `s`, or -1 when none of them belongs to `d`.
spec fn best_upto<P>(s: Seq<Calibration<P>>, start: int, d: u32, n: int) -> int
    decreases n,
{
    if n <= 0 {
        -1
    } else {
        let b = best_upto(s, start, d, n - 1);
        if s[n - 1].dom_id != d {
            b
        } else if b < 0 || ranks_ahead(
            s[n - 1].timestamp as int,
            n - 1,
            s[b].timestamp as int,
            b,
            start,
        ) {
            n - 1
        } else {
            b
        }
    }
}

/// `best_upto` is -1 exactly when device `d` has no version below `n`, and
/// otherwise a version of `d` that ranks ahead of all its others below `n`.
proof fn lemma_best_upto<P>(s: Seq<Calibration<P>>, start: int, d: u32, n: int)
    requires
        0 <= n <= s.len(),
    ensures
        ({
            let b = best_upto(s, start, d, n);
            &&& -1 <= b < n
            &&& b >= 0 ==> s[b].dom_id == d
            &&& b < 0 ==> forall|j: int| 0 <= j < n ==> #[trigger] s[j].dom_id != d
            &&& b >= 0 ==> forall|j: int|
                0 <= j < n && j != b && #[trigger] s[j].dom_id == d ==> ranks_ahead(
                    s[b].timestamp as int,
                    b,
                    s[j].timestamp as int,
                    j,
                    start,
                )
        }),
    decreases n,
{
    if n > 0 {
        lemma_best_upto(s, start, d, n - 1);
    }
}

/// Every device present in `s` has a chosen version.
proof fn lemma_device_has_selection<P>(s: Seq<Calibration<P>>, start: int, i: int)
    requires
        0 <= i < s.len(),
    ensures
        is_selected(s, start, best_upto(s, start, s[i].dom_id, s.len() as int)),
        s[best_upto(s, start, s[i].dom_id, s.len() as int)].dom_id == s[i].dom_id,
{
    lemma_best_upto(s, start, s[i].dom_id, s.len() as int);
}

/// At most one version per device is chosen.
proof fn lemma_selection_unique<P>(s: Seq<Calibration<P>>, start: int, i: int, j: int)
    requires
        is_selected(s, start, i),
        is_selected(s, start, j),
        s[i].dom_id == s[j].dom_id,
    ensures
        i == j,
{
    if i != j {
        assert(s[j].dom_id == s[i].dom_id);
        assert(s[i].dom_id == s[j].dom_id);
    }
}

/// The chosen positions below `n` are increasing, chosen, and complete.
proof fn lemma_selected_positions<P>(s: Seq<Calibration<P>>, start: int, n: int)
    requires
        0 <= n <= s.len(),
    ensures
        forall|k: int|
            0 <= k < selected_positions(s, start, n).len() ==> 0 <= #[trigger] selected_positions(
                s,
                start,
                n,
            )[k] < n,
        forall|k: int|
            0 <= k < selected_positions(s, start, n).len() ==> is_selected(
                s,
                start,
                #[trigger] selected_positions(s, start, n)[k],
            ),
        forall|k1: int, k2: int|
            0 <= k1 < k2 < selected_positions(s, start, n).len() ==> #[trigger] selected_positions(
                s,
                start,
                n,
            )[k1] < #[trigger] selected_positions(s, start, n)[k2],
        forall|i: int|
            0 <= i < n && #[trigger] is_selected(s, start, i) ==> exists|k: int|
                0 <= k < selected_positions(s, start, n).len() && #[trigger] selected_positions(
                    s,
                    start,
                    n,
                )[k] == i,
    decreases n,
{
    if n > 0 {
        lemma_selected_positions(s, start, n - 1);
        let before = selected_positions(s, start, n - 1);
        let p = selected_positions(s, start, n);
        if is_selected(s, start, n - 1) {
            assert(p == before.push(n - 1));
            assert(p[before.len() as int] == n - 1);
            assert forall|k: int| 0 <= k < before.len() implies #[trigger] p[k] == before[k] by {}
            assert forall|i: int| 0 <= i < n && #[trigger] is_selected(s, start, i) implies exists|
                k: int,
            | 0 <= k < p.len() && #[trigger] p[k] == i by {
                if i < n - 1 {
                    let k = choose|k: int| 0 <= k < before.len() && #[trigger] before[k] == i;
                    assert(p[k] == i);
                } else {
                    assert(p[before.len() as int] == i);
                }
            }
        } else {
            assert(p == before);
        }
    }
}

/// Each resolved entry is the input version at a chosen position.
proof fn lemma_resolution_entries<P>(s: Seq<Calibration<P>>, start: int)
    ensures
        resolution(s, start).len() == selected_positions(s, start, s.len() as int).len(),
        forall|k: int|
            0 <= k < resolution(s, start).len() ==> #[trigger] resolution(s, start)[k]
                == s[selected_positions(s, start, s.len() as int)[k]],
{
}

/// For every device that has a version made at or before the run start, the
/// resolved version of that device is the most recent such version.
pub proof fn lemma_latest_in_effect_is_chosen<P>(s: Seq<Calibration<P>>, start: int)
    ensures
        forall|k: int, j: int|
            0 <= k < resolution(s, start).len() && 0 <= j < s.len() && #[trigger] s[j].dom_id
                == #[trigger] resolution(s, start)[k].dom_id && s[j].timestamp <= start ==> {
                &&& resolution(s, start)[k].timestamp <= start
                &&& s[j].timestamp <= resolution(s, start)[k].timestamp
            },
{
    lemma_resolution_entries(s, start);
    lemma_selected_positions(s, start, s.len() as int);
    let p = selected_positions(s, start, s.len() as int);
    assert forall|k: int, j: int|
        0 <= k < resolution(s, start).len() && 0 <= j < s.len() && #[trigger] s[j].dom_id
            == #[trigger] resolution(s, start)[k].dom_id && s[j].timestamp <= start implies {
        &&& resolution(s, start)[k].timestamp <= start
        &&& s[j].timestamp <= resolution(s, start)[k].timestamp
    } by {
        let i = p[k];
        assert(is_selected(s, start, i));
        if j != i {
            assert(s[j].dom_id == s[i].dom_id);
        }
    }
}

/// For every device whose versions were all made after the run start, the
/// resolved version of that device is its oldest version.
pub proof fn lemma_oldest_chosen_when_none_in_effect<P>(s: Seq<Calibration<P>>, start: int)
    ensures
        forall|k: int|
            0 <= k < resolution(s, start).len() && (forall|j: int|
                0 <= j < s.len() && s[j].dom_id == #[trigger] resolution(s, start)[k].dom_id
                    ==> s[j].timestamp > start) ==> forall|j: int|
                0 <= j < s.len() && #[trigger] s[j].dom_id == resolution(s, start)[k].dom_id
                    ==> resolution(s, start)[k].timestamp <= s[j].timestamp,
{
    lemma_resolution_entries(s, start);
    lemma_selected_positions(s, start, s.len() as int);
    let p = selected_positions(s, start, s.len() as int);
    assert forall|k: int|
        0 <= k < resolution(s, start).len() && (forall|j: int|
            0 <= j < s.len() && s[j].dom_id == #[trigger] resolution(s, start)[k].dom_id
                ==> s[j].timestamp > start) implies forall|j: int|
        0 <= j < s.len() && #[trigger] s[j].dom_id == resolution(s, start)[k].dom_id
            ==> resolution(s, start)[k].timestamp <= s[j].timestamp by {
        let i = p[k];
        assert(is_selected(s, start, i));
        assert(s[i].dom_id == resolution(s, start)[k].dom_id);
        assert forall|j: int|
            0 <= j < s.len() && #[trigger] s[j].dom_id == resolution(s, start)[k].dom_id implies
            resolution(s, start)[k].timestamp <= s[j].timestamp by {
            if j != i {
                assert(s[j].dom_id == s[i].dom_id);
            }
        }
    }
}

/// Resolution returns exactly one version for each device present in the
/// input, and every returned version is one of the input versions.
pub proof fn lemma_one_version_per_device<P>(s: Seq<Calibration<P>>, start: int)
    ensures
        forall|k: int|
            0 <= k < resolution(s, start).len() ==> exists|i: int|
                0 <= i < s.len() && #[trigger] s[i] == #[trigger] resolution(s, start)[k],
        forall|k1: int, k2: int|
            0 <= k1 < resolution(s, start).len() && 0 <= k2 < resolution(s, start).len() && k1
                != k2 ==> #[trigger] resolution(s, start)[k1].dom_id != #[trigger] resolution(
                s,
                start,
            )[k2].dom_id,
        forall|i: int|
            #![trigger s[i]]
            0 <= i < s.len() ==> exists|k: int|
                0 <= k < resolution(s, start).len() && #[trigger] resolution(s, start)[k].dom_id
                    == s[i].dom_id,
{
    lemma_resolution_entries(s, start);
    lemma_selected_positions(s, start, s.len() as int);
    let p = selected_positions(s, start, s.len() as int);
    let r = resolution(s, start);
    assert forall|k: int| 0 <= k < r.len() implies exists|i: int|
        0 <= i < s.len() && #[trigger] s[i] == #[trigger] r[k] by {
        assert(s[p[k]] == r[k]);
    }
    assert forall|k1: int, k2: int|
        0 <= k1 < r.len() && 0 <= k2 < r.len() && k1 != k2 implies #[trigger] r[k1].dom_id
        != #[trigger] r[k2].dom_id by {
        if k1 < k2 {
            assert(p[k1] < p[k2]);
        } else {
            assert(p[k2] < p[k1]);
        }
        if r[k1].dom_id == r[k2].dom_id {
            lemma_selection_unique(s, start, p[k1], p[k2]);
        }
    }
    assert forall|i: int| #![trigger s[i]] 0 <= i < s.len() implies exists|k: int|
        0 <= k < r.len() && #[trigger] r[k].dom_id == s[i].dom_id by {
        lemma_device_has_selection(s, start, i);
        let b = best_upto(s, start, s[i].dom_id, s.len() as int);
        assert(is_selected(s, start, b));
        let k = choose|k: int| 0 <= k < p.len() && #[trigger] p[k] == b;
        assert(r[k] == s[b]);
        assert(r[k].dom_id == s[i].dom_id);
    }
}

/// The resolved versions are exactly the versions at chosen positions.
proof fn lemma_resolution_members<P>(s: Seq<Calibration<P>>, start: int)
    ensures
        forall|c: Calibration<P>|
            #[trigger] resolution(s, start).contains(c) <==> exists|i: int|
                #[trigger] is_selected(s, start, i) && s[i] == c,
{
    lemma_resolution_entries(s, start);
    lemma_selected_positions(s, start, s.len() as int);
    let p = selected_positions(s, start, s.len() as int);
    let r = resolution(s, start);
    assert forall|c: Calibration<P>| #[trigger] r.contains(c) implies exists|i: int|
        #[trigger] is_selected(s, start, i) && s[i] == c by {
        let k = choose|k: int| 0 <= k < r.len() && r[k] == c;
        assert(is_selected(s, start, p[k]));
    }
    assert forall|c: Calibration<P>|
        (exists|i: int| #[trigger] is_selected(s, start, i) && s[i] == c) implies r.contains(c) by {
        let i = choose|i: int| #[trigger] is_selected(s, start, i) && s[i] == c;
        let k = choose|k: int| 0 <= k < p.len() && #[trigger] p[k] == i;
        assert(r[k] == c);
    }
}

/// Shuffling the input across devices, while keeping each device's versions
/// in their relative order, leaves the resolved set unchanged.
///
/// `t` is the shuffled input: position `j` of `t` holds the version at
/// position `p(j)` of `s`, and `q` is the inverse of `p`.
pub proof fn lemma_resolution_ignores_order_across_devices<P>(
    s: Seq<Calibration<P>>,
    t: Seq<Calibration<P>>,
    p: spec_fn(int) -> int,
    q: spec_fn(int) -> int,
    start: int,
)
    requires
        s.len() == t.len(),
        forall|j: int| 0 <= j < t.len() ==> 0 <= #[trigger] p(j) < s.len() && q(p(j)) == j,
        forall|i: int| 0 <= i < s.len() ==> 0 <= #[trigger] q(i) < t.len() && p(q(i)) == i,
        forall|j: int| 0 <= j < t.len() ==> #[trigger] t[j] == s[p(j)],
        forall|j1: int, j2: int|
            0 <= j1 < j2 < t.len() && t[j1].dom_id == t[j2].dom_id ==> #[trigger] p(j1)
                < #[trigger] p(j2),
    ensures
        resolution(s, start).to_set() == resolution(t, start).to_set(),
{
    assert forall|j: int| 0 <= j < t.len() implies #[trigger] is_selected(t, start, j)
        == is_selected(s, start, p(j)) by {
        if is_selected(t, start, j) {
            assert forall|i: int|
                0 <= i < s.len() && i != p(j) && #[trigger] s[i].dom_id == s[p(j)].dom_id implies ranks_ahead(
                s[p(j)].timestamp as int,
                p(j),
                s[i].timestamp as int,
                i,
                start,
            ) by {
                let m = q(i);
                assert(t[m] == s[p(m)]);
                assert(t[j] == s[p(j)]);
                assert(t[m].dom_id == t[j].dom_id);
                if m < j {
                    assert(p(m) < p(j));
                } else if j < m {
                    assert(p(j) < p(m));
                }
            }
        }
        if is_selected(s, start, p(j)) {
            assert forall|m: int|
                0 <= m < t.len() && m != j && #[trigger] t[m].dom_id == t[j].dom_id implies ranks_ahead(
                t[j].timestamp as int,
                j,
                t[m].timestamp as int,
                m,
                start,
            ) by {
                assert(t[m] == s[p(m)]);
                assert(t[j] == s[p(j)]);
                assert(s[p(m)].dom_id == s[p(j)].dom_id);
                if m < j {
                    assert(p(m) < p(j));
                } else if j < m {
                    assert(p(j) < p(m));
                }
            }
        }
    }
    lemma_resolution_members(s, start);
    lemma_resolution_members(t, start);
    assert forall|c: Calibration<P>|
        resolution(s, start).to_set().contains(c) <==> resolution(t, start).to_set().contains(c) by {
        if resolution(s, start).contains(c) {
            let i = choose|i: int| #[trigger] is_selected(s, start, i) && s[i] == c;
            assert(is_selected(t, start, q(i)));
            assert(t[q(i)] == c);
        }
        if resolution(t, start).contains(c) {
            let j = choose|j: int| #[trigger] is_selected(t, start, j) && t[j] == c;
            assert(is_selected(s, start, p(j)));
        }
    }
    assert(resolution(s, start).to_set() =~= resolution(t, start).to_set());
}

/// Resolution depends on nothing but its inputs: the same versions and the
/// same start always resolve to the same versions, in the same order.
pub proof fn lemma_resolution_deterministic<P>(
    s: Seq<Calibration<P>>,
    t: Seq<Calibration<P>>,
    start: int,
)
    requires
        s == t,
    ensures
        resolution(s, start) == resolution(t, start),
{
}

/// Resolving an already resolved set changes nothing: it holds one version
/// per device, and each is kept as it is.
pub proof fn lemma_resolution_idempotent<P>(s: Seq<Calibration<P>>, start: int)
    ensures
        resolution(resolution(s, start), start) == resolution(s, start),
{
    let r = resolution(s, start);
    lemma_one_version_per_device(s, start);
    assert forall|k: int| 0 <= k < r.len() implies #[trigger] is_selected(r, start, k) by {
        assert forall|m: int|
            0 <= m < r.len() && m != k && #[trigger] r[m].dom_id == r[k].dom_id implies ranks_ahead(
            r[k].timestamp as int,
            k,
            r[m].timestamp as int,
            m,
            start,
        ) by {
            assert(r[k].dom_id != r[m].dom_id);
        }
    }
    lemma_all_selected(r, start, r.len() as int);
    assert(resolution(r, start) =~= r);
}

/// When every position is chosen, the first `n` chosen positions are `0..n`.
proof fn lemma_all_selected<P>(s: Seq<Calibration<P>>, start: int, n: int)
    requires
        0 <= n <= s.len(),
        forall|k: int| 0 <= k < s.len() ==> #[trigger] is_selected(s, start, k),
    ensures
        selected_positions(s, start, n) =~= Seq::new(n as nat, |k: int| k),
    decreases n,
{
    if n > 0 {
        lemma_all_selected(s, start, n - 1);
        assert(is_selected(s, start, n - 1));
        assert(Seq::new(n as nat, |k: int| k) =~= Seq::new((n - 1) as nat, |k: int| k).push(n - 1));
    }
}

/// Executable form of `ranks_ahead`.
fn outranks(ti: i64, i: usize, tj: i64, j: usize, start: i64) -> (b: bool)
    ensures
        b == ranks_ahead(ti as int, i as int, tj as int, j as int, start as int),
{
    let i_in = ti <= start;
    let j_in = tj <= start;
    if i_in && j_in {
        ti > tj || (ti == tj && i < j)
    } else if i_in {
        true
    } else if j_in {
        false
    } else {
        ti < tj || (ti == tj && i > j)
    }
}

/// Position `i` is chosen exactly when it is the best-ranked version of its device.
proof fn lemma_selected_iff_best<P>(s: Seq<Calibration<P>>, start: int, i: int)
    requires
        0 <= i < s.len(),
    ensures
        is_selected(s, start, i) <==> best_upto(s, start, s[i].dom_id, s.len() as int) == i,
{
    lemma_best_upto(s, start, s[i].dom_id, s.len() as int);
    let b = best_upto(s, start, s[i].dom_id, s.len() as int);
    if is_selected(s, start, i) && b != i {
        assert(s[b].dom_id == s[i].dom_id);
        assert(s[i].dom_id == s[b].dom_id);
    }
}

/// Resolves the calibrations in effect for a run that started at `run_start`
/// (milliseconds since the Unix epoch): one version per device present in
/// `calibrations`, chosen by `ranks_ahead`, kept in input order. The end of
/// the run plays no part: a device is not re-resolved mid-run.
///
/// One pass finds the best-ranked version of each device, a second keeps
/// exactly those versions.
pub fn filter_calibrations_for_run<P>(
    calibrations: Vec<Calibration<P>>,
    run_start: i64,
    _run_end: Option<i64>,
) -> (resolved: Vec<Calibration<P>>)
    ensures
        resolved@ == resolution(calibrations@, run_start as int),
{
    broadcast use {
        vstd::std_specs::hash::axiom_u32_obeys_hash_table_key_model,
        vstd::std_specs::hash::axiom_random_state_builds_valid_hashers,
        vstd::std_specs::hash::axiom_maps_deref_key_to_value,
    };

    let ghost s = calibrations@;
    let ghost start = run_start as int;
    let n = calibrations.len();
    // The position of the best-ranked version seen so far, by device.
    let mut best: HashMap<u32, usize> = HashMap::new();
    let mut i: usize = 0;
    while i < n
        invariant
            n == s.len(),
            s == calibrations@,
            start == run_start as int,
            i <= n,
            forall|d: u32| #[trigger] best@.contains_key(d) <==> best_upto(s, start, d, i as int) >= 0,
            forall|d: u32| #[trigger]
                best@.contains_key(d) ==> best@[d] as int == best_upto(s, start, d, i as int),
        decreases n - i,
    {
        let d = calibrations[i].dom_id;
        let t = calibrations[i].timestamp;
        proof {
            lemma_best_upto(s, start, d, i as int);
        }
        match best.get(&d) {
            Some(b) => {
                let b = *b;
                if outranks(t, i, calibrations[b].timestamp, b, run_start) {
                    best.insert(d, i);
                }
            },
            None => {
                best.insert(d, i);
            },
        }
        proof {
            assert forall|e: u32| e != d implies best_upto(s, start, e, i + 1) == best_upto(
                s,
                start,
                e,
                i as int,
            ) by {}
        }
        i += 1;
    }
    let mut resolved: Vec<Calibration<P>> = Vec::new();
    let mut k: usize = 0;
    for c in it: calibrations.into_iter()
        invariant
            n == s.len(),
            start == run_start as int,
            it.seq() == s,
            k == it.index(),
            forall|d: u32| #[trigger] best@.contains_key(d) <==> best_upto(s, start, d, n as int) >= 0,
            forall|d: u32| #[trigger]
                best@.contains_key(d) ==> best@[d] as int == best_upto(s, start, d, n as int),
            resolved@ == selected_positions(s, start, k as int).map_values(|m: int| s[m]),
    {
        let ghost before = selected_positions(s, start, k as int);
        proof {
            lemma_selected_iff_best(s, start, k as int);
            lemma_best_upto(s, start, c.dom_id, n as int);
        }
        let keep = match best.get(&c.dom_id) {
            Some(b) => *b == k,
            None => false,
        };
        if keep {
            resolved.push(c);
            assert(before.push(k as int).map_values(|m: int| s[m]) =~= before.map_values(
                |m: int| s[m],
            ).push(s[k as int]));
        }
        k += 1;
    }
    resolved
}

} // verus!
