use vstd::prelude::*;

verus! {

/// Seconds after which an idle upstream connection is no longer reused.
pub const IDLE_LIFETIME_SECS: u64 = 120;

/// Statistics about the connection pool.
#[derive(Debug, Clone, Copy, PartialEq, Eq, Structural)]
pub struct PoolStats {
    pub total_idle: usize,
    pub targets: usize,
    pub hits: u64,
    pub misses: u64,
}

/// The limits of the pool of idle upstream connections.
#[derive(Debug, Clone, Copy)]
pub struct PoolLimits {
    pub max_per_target: usize,
    pub max_total: usize,
}

impl PoolLimits {
    /// Whether the pool, holding `total_idle` idle connections in all, has
    /// room for one more.
    pub fn has_room(&self, total_idle: usize) -> (r: bool)
        ensures
            r == (total_idle < self.max_total),
    {
        total_idle < self.max_total
    }

    /// Whether a target holding `target_idle` idle connections takes one more.
    pub fn target_has_room(&self, target_idle: usize) -> (r: bool)
        ensures
            r == (target_idle < self.max_per_target),
    {
        target_idle < self.max_per_target
    }
}

/// What the pool does with a connection handed back to it.
#[derive(Debug, Clone, Copy, PartialEq, Eq, Structural)]
pub enum ReturnDecision {
    /// Drop it: it is dead, or the pool as a whole is full.
    Discard,
    /// Drop it, though its target now has a place in the pool (with no
    /// connections): the target is full.
    OpenTargetOnly,
    /// Keep it, idle, under its target.
    Keep,
}

/// The decision for a connection handed back: a dead one is dropped; with
/// `total_idle` idle connections at the total limit it is dropped; otherwise
/// its target gets a place in the pool, and the connection is kept when the
/// target holds fewer than its limit.
pub open spec fn return_decision_of(limits: PoolLimits, alive: bool, total_idle: usize, target_idle: usize) -> ReturnDecision {
    if !alive || total_idle >= limits.max_total {
        ReturnDecision::Discard
    } else if target_idle < limits.max_per_target {
        ReturnDecision::Keep
    } else {
        ReturnDecision::OpenTargetOnly
    }
}

/// Decides what to do with a connection handed back to the pool, given
/// whether it is still alive, the idle connections in the whole pool and
/// those of its target.
pub fn return_decision(limits: &PoolLimits, alive: bool, total_idle: usize, target_idle: usize) -> (r: ReturnDecision)
    ensures
        r == return_decision_of(*limits, alive, total_idle, target_idle),
{
    if !alive || !limits.has_room(total_idle) {
        ReturnDecision::Discard
    } else if limits.target_has_room(target_idle) {
        ReturnDecision::Keep
    } else {
        ReturnDecision::OpenTargetOnly
    }
}

/// The idle counts of each target and the total after a connection for
/// `target` is handed back: a kept connection is counted under its target and
/// in the total, and a target that gets a place starts with no connections.
pub open spec fn counts_after_return(
    counts: Map<Seq<char>, nat>,
    total: nat,
    target: Seq<char>,
    d: ReturnDecision,
) -> (Map<Seq<char>, nat>, nat) {
    let held: nat = if counts.contains_key(target) { counts[target] } else { 0 };
    match d {
        ReturnDecision::Discard => (counts, total),
        ReturnDecision::OpenTargetOnly => (counts.insert(target, held), total),
        ReturnDecision::Keep => (counts.insert(target, held + 1), total + 1),
    }
}

/// Handing a connection back keeps the pool within its limits: when every
/// target holds at most its limit and the total is at most the total limit,
/// the same holds afterwards. The total grows by one exactly when the
/// connection is alive, the pool as a whole has room and its target has room;
/// otherwise it stays.
pub proof fn lemma_return_keeps_limits(
    limits: PoolLimits,
    counts: Map<Seq<char>, nat>,
    total: nat,
    target: Seq<char>,
    alive: bool,
)
    requires
        forall|t: Seq<char>| #[trigger] counts.contains_key(t) ==> counts[t] <= limits.max_per_target,
        total <= limits.max_total,
        total <= usize::MAX,
        (if counts.contains_key(target) { counts[target] } else { 0 }) <= usize::MAX,
    ensures
        ({
            let held: nat = if counts.contains_key(target) { counts[target] } else { 0 };
            let d = return_decision_of(limits, alive, total as usize, held as usize);
            let (after, total_after) = counts_after_return(counts, total, target, d);
            &&& forall|t: Seq<char>| #[trigger] after.contains_key(t) ==> after[t] <= limits.max_per_target
            &&& total_after <= limits.max_total
            &&& (total_after == total + 1 <==> (alive && total < limits.max_total && held < limits.max_per_target))
            &&& (total_after != total + 1 ==> total_after == total)
        }),
{
}

/// Whether an idle connection of this age, in whole seconds, is too old to
/// hand out again.
pub fn is_stale(age_secs: u64) -> (r: bool)
    ensures
        r == (age_secs > IDLE_LIFETIME_SECS),
{
    age_secs > IDLE_LIFETIME_SECS
}

/// The number of idle connections over all targets.
pub open spec fn idle_total(per_target: Seq<usize>) -> int
    decreases per_target.len(),
{
    if per_target.len() == 0 {
        0
    } else {
        idle_total(per_target.drop_last()) + per_target.last()
    }
}

/// Each target's idle count adds to the total, so a prefix never sums to
/// more than the whole.
proof fn lemma_idle_total_prefix(s: Seq<usize>, i: int)
    requires
        0 <= i <= s.len(),
    ensures
        idle_total(s.subrange(0, i)) <= idle_total(s),
    decreases s.len() - i,
{
    if i < s.len() {
        lemma_idle_total_prefix(s, i + 1);
        assert(s.subrange(0, i + 1).drop_last() == s.subrange(0, i));
    } else {
        assert(s.subrange(0, i) == s);
    }
}

/// Pool statistics from the idle counts of each target and the hit and miss
/// counters.
pub fn pool_stats(per_target: &[usize], hits: u64, misses: u64) -> (r: PoolStats)
    requires
        idle_total(per_target@) <= usize::MAX,
    ensures
        r.targets == per_target@.len(),
        r.total_idle == idle_total(per_target@),
        r.hits == hits,
        r.misses == misses,
{
    let mut total: usize = 0;
    let mut i: usize = 0;
    while i < per_target.len()
        invariant
            i <= per_target@.len(),
            idle_total(per_target@) <= usize::MAX,
            total == idle_total(per_target@.subrange(0, i as int)),
        decreases per_target@.len() - i,
    {
        assert(per_target@.subrange(0, i + 1).drop_last() == per_target@.subrange(0, i as int));
        proof {
            lemma_idle_total_prefix(per_target@, i + 1);
        }
        total = total + per_target[i];
        i = i + 1;
    }
    assert(per_target@.subrange(0, per_target@.len() as int) == per_target@);
    PoolStats { total_idle: total, targets: per_target.len(), hits, misses }
}

} // verus!
