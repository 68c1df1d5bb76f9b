//! Benchmarked weight functions of the proxy pallet.
//!
//! A weight has two dimensions, the execution time (`ref_time`) and the
//! proof size.  Every weight function is a base weight, plus a cost per
//! component, plus the database reads and writes it performs, all combined
//! with saturating arithmetic.
use vstd::prelude::*;

verus! {

/// The largest `u64`, as an integer.
pub open spec fn u64_max() -> int {
    0xffff_ffff_ffff_ffff
}

/// `x` cut down to the range of `u64` (for `x >= 0`).
pub open spec fn clamp_u64(x: int) -> u64 {
    if x > u64_max() {
        0xffff_ffff_ffff_ffffu64
    } else {
        x as u64
    }
}

/// A two-dimensional weight: execution time and proof size.
#[derive(Clone, Copy, Debug, PartialEq, Eq, Structural)]
pub struct Weight {
    pub ref_time: u64,
    pub proof_size: u64,
}

/// Saturating product of two `u64`.
pub fn saturating_mul_u64(a: u64, b: u64) -> (r: u64)
    ensures
        r == clamp_u64(a * b),
{
    match a.checked_mul(b) {
        Some(v) => v,
        None => u64::MAX,
    }
}

impl Weight {
    /// A weight of `ref_time` execution time and no proof size.
    pub fn from_ref_time(ref_time: u64) -> (w: Weight)
        ensures
            w.ref_time == ref_time,
            w.proof_size == 0,
    {
        Weight { ref_time, proof_size: 0 }
    }

    /// A weight of `proof_size` proof size and no execution time.
    pub fn from_proof_size(proof_size: u64) -> (w: Weight)
        ensures
            w.ref_time == 0,
            w.proof_size == proof_size,
    {
        Weight { ref_time: 0, proof_size }
    }

    /// Both dimensions added, each saturating at `u64::MAX`.
    pub fn saturating_add(self, rhs: Weight) -> (w: Weight)
        ensures
            w.ref_time == clamp_u64(self.ref_time + rhs.ref_time),
            w.proof_size == clamp_u64(self.proof_size + rhs.proof_size),
    {
        Weight {
            ref_time: self.ref_time.saturating_add(rhs.ref_time),
            proof_size: self.proof_size.saturating_add(rhs.proof_size),
        }
    }

    /// Both dimensions multiplied by `b`, each saturating at `u64::MAX`.
    pub fn saturating_mul(self, b: u64) -> (w: Weight)
        ensures
            w.ref_time == clamp_u64(self.ref_time * b),
            w.proof_size == clamp_u64(self.proof_size * b),
    {
        Weight {
            ref_time: saturating_mul_u64(self.ref_time, b),
            proof_size: saturating_mul_u64(self.proof_size, b),
        }
    }
}

/// The cost of one database read and of one database write.
#[derive(Clone, Copy, Debug, PartialEq, Eq, Structural)]
pub struct RuntimeDbWeight {
    pub read: u64,
    pub write: u64,
}

impl RuntimeDbWeight {
    /// The weight of `r` reads.
    pub fn reads(self, r: u64) -> (w: Weight)
        ensures
            w.ref_time == clamp_u64(self.read * r),
            w.proof_size == 0,
    {
        Weight::from_ref_time(saturating_mul_u64(self.read, r))
    }

    /// The weight of `wr` writes.
    pub fn writes(self, wr: u64) -> (w: Weight)
        ensures
            w.ref_time == clamp_u64(self.write * wr),
            w.proof_size == 0,
    {
        Weight::from_ref_time(saturating_mul_u64(self.write, wr))
    }
}

/// Execution time of a weight function: `base + per_a * a + per_p * p`
/// plus `reads` reads and `writes` writes, cut at `u64::MAX`.
pub open spec fn linear_ref_time(
    db: RuntimeDbWeight,
    base: int,
    per_a: int,
    a: int,
    per_p: int,
    p: int,
    reads: int,
    writes: int,
) -> u64 {
    clamp_u64(base + per_a * a + per_p * p + reads * db.read + writes * db.write)
}

pub open spec fn spec_proxy(db: RuntimeDbWeight, p: u32) -> Weight {
    Weight { ref_time: linear_ref_time(db, 21_880_946, 0, 0, 37_714, p as int, 1, 0), proof_size: 3716 }
}

pub open spec fn spec_proxy_announced(db: RuntimeDbWeight, a: u32, p: u32) -> Weight {
    Weight {
        ref_time: linear_ref_time(db, 46_431_681, 295_231, a as int, 179_075, p as int, 3, 2),
        proof_size: 11027,
    }
}

pub open spec fn spec_remove_announcement(db: RuntimeDbWeight, a: u32) -> Weight {
    Weight { ref_time: linear_ref_time(db, 32_119_846, 245_604, a as int, 0, 0, 2, 2), proof_size: 7311 }
}

pub open spec fn spec_reject_announcement(db: RuntimeDbWeight, a: u32) -> Weight {
    Weight { ref_time: linear_ref_time(db, 32_087_451, 256_601, a as int, 0, 0, 2, 2), proof_size: 7311 }
}

pub open spec fn spec_announce(db: RuntimeDbWeight, a: u32, p: u32) -> Weight {
    Weight {
        ref_time: linear_ref_time(db, 41_280_780, 306_219, a as int, 114_664, p as int, 3, 2),
        proof_size: 11027,
    }
}

pub open spec fn spec_add_proxy(db: RuntimeDbWeight, p: u32) -> Weight {
    Weight { ref_time: linear_ref_time(db, 33_662_863, 0, 0, 85_611, p as int, 1, 1), proof_size: 3716 }
}

pub open spec fn spec_remove_proxy(db: RuntimeDbWeight, p: u32) -> Weight {
    Weight { ref_time: linear_ref_time(db, 32_746_169, 0, 0, 239_539, p as int, 1, 1), proof_size: 3716 }
}

pub open spec fn spec_remove_proxies(db: RuntimeDbWeight, p: u32) -> Weight {
    Weight { ref_time: linear_ref_time(db, 28_550_693, 0, 0, 78_724, p as int, 1, 1), proof_size: 3716 }
}

pub open spec fn spec_create_pure(db: RuntimeDbWeight, p: u32) -> Weight {
    Weight { ref_time: linear_ref_time(db, 37_417_667, 0, 0, 158_968, p as int, 1, 1), proof_size: 3716 }
}

pub open spec fn spec_kill_pure(db: RuntimeDbWeight, p: u32) -> Weight {
    Weight { ref_time: linear_ref_time(db, 31_308_179, 0, 0, 37_462, p as int, 1, 1), proof_size: 3716 }
}

/// Adding a nonnegative amount to a saturated sum is the same as adding it
/// before saturating.
proof fn lemma_clamp_add(x: int, y: int)
    requires
        x >= 0,
        y >= 0,
    ensures
        clamp_u64(clamp_u64(x) + y) == clamp_u64(x + y),
        clamp_u64(x + clamp_u64(y)) == clamp_u64(x + y),
{
}

/// The benchmark model: a base weight with `proof_size`, plus `per_a` for each
/// of `a` and `per_p` for each of `p`, plus `reads` reads and `writes`
/// writes, added in that order with saturation.
pub fn linear_weight(
    db: RuntimeDbWeight,
    base: u64,
    proof_size: u64,
    per_a: u64,
    a: u32,
    per_p: u64,
    p: u32,
    reads: u64,
    writes: u64,
) -> (w: Weight)
    ensures
        w.ref_time == linear_ref_time(db, base as int, per_a as int, a as int, per_p as int, p as int, reads as int, writes as int),
        w.proof_size == proof_size,
{
    let w0 = Weight::from_ref_time(base).saturating_add(Weight::from_proof_size(proof_size));
    let w1 = w0.saturating_add(Weight::from_ref_time(per_a).saturating_mul(a as u64));
    let w2 = w1.saturating_add(Weight::from_ref_time(per_p).saturating_mul(p as u64));
    let w3 = w2.saturating_add(db.reads(reads));
    let w4 = w3.saturating_add(db.writes(writes));
    proof {
        assert(0 <= per_a * a) by (nonlinear_arith);
        assert(0 <= per_p * p) by (nonlinear_arith);
        assert(0 <= reads * db.read) by (nonlinear_arith);
        assert(0 <= writes * db.write) by (nonlinear_arith);
        assert(per_a * a == per_a * (a as u64)) by (nonlinear_arith);
        assert(per_p * p == per_p * (p as u64)) by (nonlinear_arith);
        assert(db.read * reads == reads * db.read) by (nonlinear_arith);
        assert(db.write * writes == writes * db.write) by (nonlinear_arith);
        let x1 = base + per_a * a;
        let x2 = x1 + per_p * p;
        let x3 = x2 + reads * db.read;
        lemma_clamp_add(base as int, per_a * a);
        lemma_clamp_add(x1, clamp_u64(per_p * p) as int);
        lemma_clamp_add(x1, per_p * p);
        lemma_clamp_add(x2, clamp_u64(reads * db.read) as int);
        lemma_clamp_add(x2, reads * db.read);
        lemma_clamp_add(x3, clamp_u64(writes * db.write) as int);
        lemma_clamp_add(x3, writes * db.write);
    }
    w4
}

/// Weight functions of the proxy pallet, for a runtime whose database
/// operations cost `db_weight`.
#[derive(Clone, Copy, Debug)]
pub struct WeightInfo {
    pub db_weight: RuntimeDbWeight,
}

impl WeightInfo {
    /// Weight functions for a runtime with the given database weights.
    pub fn new(db_weight: RuntimeDbWeight) -> (s: WeightInfo)
        ensures
            s.db_weight == db_weight,
    {
        WeightInfo { db_weight }
    }

    /// Dispatching a call through a proxy, with `p` proxies registered.
    pub fn proxy(&self, p: u32) -> (w: Weight)
        ensures
            w == spec_proxy(self.db_weight, p),
    {
        linear_weight(self.db_weight, 21_880_946, 3716, 0, 0, 37_714, p, 1, 0)
    }

    /// Executing an announced call, with `a` announcements and `p` proxies.
    pub fn proxy_announced(&self, a: u32, p: u32) -> (w: Weight)
        ensures
            w == spec_proxy_announced(self.db_weight, a, p),
    {
        linear_weight(self.db_weight, 46_431_681, 11027, 295_231, a, 179_075, p, 3, 2)
    }

    /// Removing one of `a` announcements; the proxy count does not matter.
    pub fn remove_announcement(&self, a: u32, _p: u32) -> (w: Weight)
        ensures
            w == spec_remove_announcement(self.db_weight, a),
    {
        linear_weight(self.db_weight, 32_119_846, 7311, 245_604, a, 0, 0, 2, 2)
    }

    /// Rejecting one of `a` announcements; the proxy count does not matter.
    pub fn reject_announcement(&self, a: u32, _p: u32) -> (w: Weight)
        ensures
            w == spec_reject_announcement(self.db_weight, a),
    {
        linear_weight(self.db_weight, 32_087_451, 7311, 256_601, a, 0, 0, 2, 2)
    }

    /// Announcing a call, with `a` announcements and `p` proxies.
    pub fn announce(&self, a: u32, p: u32) -> (w: Weight)
        ensures
            w == spec_announce(self.db_weight, a, p),
    {
        linear_weight(self.db_weight, 41_280_780, 11027, 306_219, a, 114_664, p, 3, 2)
    }

    /// Adding a proxy to `p` existing ones.
    pub fn add_proxy(&self, p: u32) -> (w: Weight)
        ensures
            w == spec_add_proxy(self.db_weight, p),
    {
        linear_weight(self.db_weight, 33_662_863, 3716, 0, 0, 85_611, p, 1, 1)
    }

    /// Removing a proxy from `p` existing ones.
    pub fn remove_proxy(&self, p: u32) -> (w: Weight)
        ensures
            w == spec_remove_proxy(self.db_weight, p),
    {
        linear_weight(self.db_weight, 32_746_169, 3716, 0, 0, 239_539, p, 1, 1)
    }

    /// Removing all `p` proxies.
    pub fn remove_proxies(&self, p: u32) -> (w: Weight)
        ensures
            w == spec_remove_proxies(self.db_weight, p),
    {
        linear_weight(self.db_weight, 28_550_693, 3716, 0, 0, 78_724, p, 1, 1)
    }

    /// Creating a pure proxy, with `p` proxies.
    pub fn create_pure(&self, p: u32) -> (w: Weight)
        ensures
            w == spec_create_pure(self.db_weight, p),
    {
        linear_weight(self.db_weight, 37_417_667, 3716, 0, 0, 158_968, p, 1, 1)
    }

    /// Killing a pure proxy, with `p` proxies.
    pub fn kill_pure(&self, p: u32) -> (w: Weight)
        ensures
            w == spec_kill_pure(self.db_weight, p),
    {
        linear_weight(self.db_weight, 31_308_179, 3716, 0, 0, 37_462, p, 1, 1)
    }
}

/// Every weight function is nondecreasing in each of its components: more
/// announcements or more proxies never make a call lighter.
pub proof fn lemma_weights_monotone(db: RuntimeDbWeight, a1: u32, a2: u32, p1: u32, p2: u32)
    requires
        a1 <= a2,
        p1 <= p2,
    ensures
        spec_proxy(db, p1).ref_time <= spec_proxy(db, p2).ref_time,
        spec_proxy_announced(db, a1, p1).ref_time <= spec_proxy_announced(db, a2, p2).ref_time,
        spec_remove_announcement(db, a1).ref_time <= spec_remove_announcement(db, a2).ref_time,
        spec_reject_announcement(db, a1).ref_time <= spec_reject_announcement(db, a2).ref_time,
        spec_announce(db, a1, p1).ref_time <= spec_announce(db, a2, p2).ref_time,
        spec_add_proxy(db, p1).ref_time <= spec_add_proxy(db, p2).ref_time,
        spec_remove_proxy(db, p1).ref_time <= spec_remove_proxy(db, p2).ref_time,
        spec_remove_proxies(db, p1).ref_time <= spec_remove_proxies(db, p2).ref_time,
        spec_create_pure(db, p1).ref_time <= spec_create_pure(db, p2).ref_time,
        spec_kill_pure(db, p1).ref_time <= spec_kill_pure(db, p2).ref_time,
{
}

} // verus!
