//! The trajectories of a simulation: one per whole annual return rate from
//! 0% to 20%, plus the anchor trajectory of the user's own rate, and the month
//! timeline that every trajectory shares.

use vstd::prelude::*;

verus! {

/// Rates are identified by their value in thousandths of a percent.
pub open spec fn key_of_whole_rate(r: int) -> int {
    r * 1000
}

/// The highest whole rate that gets a trajectory of its own.
pub open spec fn max_whole_rate() -> int {
    20
}

/// Whether `k` identifies one of the whole rates 0%, 1%, ..., 20%.
pub open spec fn is_whole_rate_key(k: int) -> bool {
    0 <= k <= key_of_whole_rate(max_whole_rate()) && k % 1000 == 0
}

/// One trajectory of the chart: the key of its rate (thousandths of a percent)
/// and whether it is the anchor trajectory.
#[derive(PartialEq, Eq, Structural, Clone, Copy, Debug)]
pub struct RouteSlot {
    pub key: i32,
    pub is_anchor: bool,
}

/// The keys strictly increase along the plan.
pub open spec fn strictly_sorted(plan: Seq<RouteSlot>) -> bool {
    forall|i: int, j: int| 0 <= i < j < plan.len() ==> plan[i].key < plan[j].key
}

/// The key `k` occurs in the plan.
pub open spec fn has_key(plan: Seq<RouteSlot>, k: int) -> bool {
    exists|i: int| 0 <= i < plan.len() && plan[i].key == k
}

/// The plan of trajectories for the anchor key `anchor_key`: sorted by rate,
/// holding each whole rate from 0% to 20% and the anchor rate once each (an
/// anchor rate whose key is that of a whole rate takes its place), and
/// marking as anchor exactly the trajectory of the anchor key.
pub open spec fn is_route_plan(plan: Seq<RouteSlot>, anchor_key: int) -> bool {
    &&& strictly_sorted(plan)
    &&& forall|i: int| 0 <= i < plan.len() ==> (#[trigger] plan[i]).is_anchor == (plan[i].key == anchor_key)
    &&& forall|i: int| 0 <= i < plan.len() ==> is_whole_rate_key((#[trigger] plan[i]).key as int) || plan[i].key == anchor_key
    &&& forall|r: int| 0 <= r <= max_whole_rate() ==> has_key(plan, #[trigger] key_of_whole_rate(r))
    &&& has_key(plan, anchor_key)
    &&& plan.len() == if is_whole_rate_key(anchor_key) { 21int } else { 22int }
}

/// Builds the plan of trajectories around the anchor key.
pub fn route_plan(anchor_key: i32) -> (plan: Vec<RouteSlot>)
    ensures
        is_route_plan(plan@, anchor_key as int),
{
    let mut plan: Vec<RouteSlot> = Vec::new();
    let mut placed = false;
    let mut r: i32 = 0;
    while r <= 20
        invariant
            0 <= r <= 21,
            placed == (r > 0 && anchor_key <= (r - 1) * 1000),
            strictly_sorted(plan@),
            forall|i: int| 0 <= i < plan@.len() ==> (#[trigger] plan@[i]).key <= (r - 1) * 1000,
            forall|i: int| 0 <= i < plan@.len() ==> (#[trigger] plan@[i]).is_anchor == (plan@[i].key == anchor_key),
            forall|i: int| 0 <= i < plan@.len() ==> is_whole_rate_key((#[trigger] plan@[i]).key as int) || plan@[i].key == anchor_key,
            forall|q: int| 0 <= q < r ==> has_key(plan@, #[trigger] key_of_whole_rate(q)),
            placed ==> has_key(plan@, anchor_key as int),
            plan@.len() == r + if placed && !is_whole_rate_key(anchor_key as int) { 1int } else { 0int },
        decreases 21 - r,
    {
        let k: i32 = r * 1000;
        let ghost before = plan@;
        if !placed && anchor_key < k {
            plan.push(RouteSlot { key: anchor_key, is_anchor: true });
            placed = true;
            assert(plan@[plan@.len() - 1].key == anchor_key);
            assert(strictly_sorted(plan@)) by {
                assert forall|i: int, j: int| 0 <= i < j < plan@.len() implies plan@[i].key < plan@[j].key by {
                    assert(plan@[i] == before[i]);
                    if j < before.len() {
                        assert(plan@[j] == before[j]);
                    }
                }
            }
            assert forall|q: int| 0 <= q < r implies has_key(plan@, #[trigger] key_of_whole_rate(q)) by {
                let i = choose|i: int| 0 <= i < before.len() && before[i].key == key_of_whole_rate(q);
                assert(plan@[i] == before[i]);
            }
            assert(!is_whole_rate_key(anchor_key as int)) by {
                if is_whole_rate_key(anchor_key as int) {
                    assert(anchor_key > (r - 1) * 1000);
                }
            }
        }
        let ghost mid = plan@;
        if k == anchor_key {
            plan.push(RouteSlot { key: k, is_anchor: true });
            placed = true;
        } else {
            plan.push(RouteSlot { key: k, is_anchor: false });
        }
        assert(plan@[plan@.len() - 1].key == key_of_whole_rate(r as int));
        assert(strictly_sorted(plan@)) by {
            assert forall|i: int, j: int| 0 <= i < j < plan@.len() implies plan@[i].key < plan@[j].key by {
                assert(plan@[i] == mid[i]);
                if j < mid.len() {
                    assert(plan@[j] == mid[j]);
                }
            }
        }
        assert forall|q: int| 0 <= q < r + 1 implies has_key(plan@, #[trigger] key_of_whole_rate(q)) by {
            if q < r {
                let i = choose|i: int| 0 <= i < mid.len() && mid[i].key == key_of_whole_rate(q);
                assert(plan@[i] == mid[i]);
            }
        }
        proof {
            if placed {
                if k == anchor_key {
                    assert(plan@[plan@.len() - 1].key == anchor_key);
                } else {
                    let i = choose|i: int| 0 <= i < mid.len() && mid[i].key == anchor_key;
                    assert(plan@[i] == mid[i]);
                }
            }
        }
        r = r + 1;
    }
    if !placed {
        let ghost before = plan@;
        plan.push(RouteSlot { key: anchor_key, is_anchor: true });
        assert(plan@[plan@.len() - 1].key == anchor_key);
        assert(strictly_sorted(plan@)) by {
            assert forall|i: int, j: int| 0 <= i < j < plan@.len() implies plan@[i].key < plan@[j].key by {
                assert(plan@[i] == before[i]);
                if j < before.len() {
                    assert(plan@[j] == before[j]);
                }
            }
        }
        assert forall|q: int| 0 <= q <= max_whole_rate() implies has_key(plan@, #[trigger] key_of_whole_rate(q)) by {
            let i = choose|i: int| 0 <= i < before.len() && before[i].key == key_of_whole_rate(q);
            assert(plan@[i] == before[i]);
        }
    }
    plan
}

/// Exactly one trajectory of a plan is the anchor trajectory.
pub proof fn lemma_exactly_one_anchor(plan: Seq<RouteSlot>, anchor_key: int)
    requires
        is_route_plan(plan, anchor_key),
    ensures
        exists|a: int| 0 <= a < plan.len() && plan[a].is_anchor,
        forall|a: int, b: int|
            0 <= a < plan.len() && 0 <= b < plan.len() && plan[a].is_anchor && plan[b].is_anchor ==> a == b,
{
    let a = choose|i: int| 0 <= i < plan.len() && plan[i].key == anchor_key;
    assert(plan[a].is_anchor);
    assert forall|a: int, b: int|
        0 <= a < plan.len() && 0 <= b < plan.len() && plan[a].is_anchor && plan[b].is_anchor implies a == b by {
        if a < b {
            assert(plan[a].key < plan[b].key);
        } else if b < a {
            assert(plan[b].key < plan[a].key);
        }
    }
}

/// No rate occurs twice in a plan: an anchor rate equal to a whole rate
/// replaces its trajectory instead of adding a second one.
pub proof fn lemma_keys_distinct(plan: Seq<RouteSlot>, anchor_key: int)
    requires
        is_route_plan(plan, anchor_key),
    ensures
        forall|a: int, b: int| 0 <= a < plan.len() && 0 <= b < plan.len() && a != b ==> plan[a].key != plan[b].key,
{
    assert forall|a: int, b: int| 0 <= a < plan.len() && 0 <= b < plan.len() && a != b implies plan[a].key
        != plan[b].key by {
        if a < b {
            assert(plan[a].key < plan[b].key);
        } else {
            assert(plan[b].key < plan[a].key);
        }
    }
}

/// The month counts of a simulation of `total_years` whose first
/// `hist_years` are history.
#[derive(PartialEq, Eq, Structural, Clone, Copy, Debug)]
pub struct Timeline {
    pub hist_months: usize,
    pub total_months: usize,
    /// Months simulated after the settlement month; none when the history is
    /// as long as the whole simulation or longer.
    pub future_months: usize,
}

/// The number of entries of every trajectory: months `0..=hist_months` of
/// history, then one entry per future month.
pub open spec fn route_length(t: Timeline) -> int {
    t.hist_months + 1 + t.future_months
}

/// The timeline of a simulation.
pub fn timeline(hist_years: usize, total_years: usize) -> (t: Timeline)
    requires
        hist_years * 12 <= usize::MAX,
        total_years * 12 <= usize::MAX,
    ensures
        t.hist_months == hist_years * 12,
        t.total_months == total_years * 12,
        t.future_months == if total_years >= hist_years { (total_years - hist_years) * 12 } else { 0 },
{
    let hist_months = hist_years * 12;
    let total_months = total_years * 12;
    let future_months = if total_months >= hist_months { total_months - hist_months } else { 0 };
    Timeline { hist_months, total_months, future_months }
}

/// The number of entries of every trajectory of a timeline.
pub fn route_len(t: &Timeline) -> (n: usize)
    requires
        route_length(*t) <= usize::MAX,
    ensures
        n == route_length(*t),
{
    t.hist_months + 1 + t.future_months
}

/// Every trajectory runs from the start to the later of the settlement and
/// the target: it has `12 * max(hist_years, total_years) + 1` entries, so
/// `12 * total_years + 1` whenever the target is not before the settlement.
pub proof fn lemma_route_length(hist_years: nat, total_years: nat, t: Timeline)
    requires
        t.hist_months == hist_years * 12,
        t.total_months == total_years * 12,
        t.future_months == if total_years >= hist_years { (total_years - hist_years) * 12 } else { 0 },
    ensures
        route_length(t) == 12 * (if total_years >= hist_years { total_years } else { hist_years }) + 1,
        total_years >= hist_years ==> route_length(t) == t.total_months + 1,
{
}

/// The age and the extra months reached `m` months after `start_age`.
pub fn age_at_month(start_age: usize, m: usize) -> (r: (usize, usize))
    requires
        start_age + m / 12 <= usize::MAX,
    ensures
        r.0 == start_age + m / 12,
        r.1 == m % 12,
{
    (start_age + m / 12, m % 12)
}

/// The age and extra months reached at month `m` give back `m`: twelve months
/// per year of age past the start, plus fewer than twelve extra months.
pub proof fn lemma_age_at_month_roundtrip(start_age: nat, m: nat, age: nat, months: nat)
    requires
        age == start_age + m / 12,
        months == m % 12,
    ensures
        12 * (age - start_age) + months == m,
        months < 12,
        age >= start_age,
{
}

} // verus!
