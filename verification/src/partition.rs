use vstd::prelude::*;

verus! {

/// A share of remaining capacity, stored as an exact rational `num / den`
/// with value in `[0, 1]`.
#[derive(Debug, Clone, Copy)]
pub struct Share {
    pub num: u32,
    pub den: u32,
}

impl Share {
    pub open spec fn wf(self) -> bool {
        self.den >= 1 && self.num <= self.den
    }

    pub fn new(num: u32, den: u32) -> (r: Share)
        requires
            den >= 1,
            num <= den,
        ensures
            r.num == num,
            r.den == den,
            r.wf(),
    {
        Share { num, den }
    }
}

/// One workload category's constraints: a guaranteed minimum, an optional
/// cap (`None` means unbounded), and the share of the remaining pool it
/// consumes after higher-priority categories are satisfied.
#[derive(Debug, Clone, Copy)]
pub struct CategorySpec {
    pub min_units: u32,
    pub max_units: Option<u32>,
    pub share: Share,
}

impl CategorySpec {
    pub open spec fn wf(self) -> bool {
        &&& self.share.wf()
        &&& (self.max_units matches Some(m) ==> self.min_units <= m)
    }
}

/// A candidate clamped into the category's `[min_units, max_units]` range.
pub open spec fn clamp_to_bounds(candidate: int, c: CategorySpec) -> int {
    let lo = if candidate < c.min_units {
        c.min_units as int
    } else {
        candidate
    };
    match c.max_units {
        Some(m) => if lo > m {
            m as int
        } else {
            lo
        },
        None => lo,
    }
}

/// What one category receives from a remaining pool: its share of the pool
/// (rounded down), clamped to its `[min, max]` range, then clamped again so
/// it never exceeds what remains. A minimum larger than the remaining pool
/// therefore degrades to the whole remaining pool rather than failing.
pub open spec fn spec_assigned(remaining: int, c: CategorySpec) -> int {
    let candidate = (remaining * c.share.num) / (c.share.den as int);
    let clamped = clamp_to_bounds(candidate, c);
    if clamped > remaining {
        remaining
    } else {
        clamped
    }
}

/// The pool left after the first `k` categories, in priority order, took
/// their assignments.
pub open spec fn spec_remaining(total: int, specs: Seq<CategorySpec>, k: int) -> int
    decreases k,
{
    if k <= 0 {
        total
    } else {
        let r = spec_remaining(total, specs, k - 1);
        r - spec_assigned(r, specs[k - 1])
    }
}

/// Every category's assignment, in the caller-supplied priority order.
pub open spec fn spec_assignments(total: int, specs: Seq<CategorySpec>) -> Seq<int> {
    Seq::new(specs.len(), |i: int| spec_assigned(spec_remaining(total, specs, i), specs[i]))
}

/// The sum of a sequence of unit counts.
pub open spec fn units_sum(s: Seq<int>) -> int
    decreases s.len(),
{
    if s.len() == 0 {
        0
    } else {
        units_sum(s.drop_last()) + s.last()
    }
}

proof fn lemma_assigned_bounds(remaining: int, c: CategorySpec)
    requires
        remaining >= 0,
        c.wf(),
    ensures
        0 <= spec_assigned(remaining, c) <= remaining,
{
    assert((remaining * c.share.num) / (c.share.den as int) >= 0) by (nonlinear_arith)
        requires
            remaining >= 0,
            c.share.num >= 0,
            c.share.den >= 1,
    ;
}

proof fn lemma_partition_prefix(total: int, specs: Seq<CategorySpec>, k: int)
    requires
        total >= 0,
        0 <= k <= specs.len(),
        forall|i: int| 0 <= i < specs.len() ==> (#[trigger] specs[i]).wf(),
    ensures
        0 <= spec_remaining(total, specs, k) <= total,
        units_sum(spec_assignments(total, specs).take(k)) == total - spec_remaining(
            total,
            specs,
            k,
        ),
    decreases k,
{
    let s = spec_assignments(total, specs);
    if k == 0 {
        assert(s.take(0) =~= Seq::<int>::empty());
    } else {
        lemma_partition_prefix(total, specs, k - 1);
        let r = spec_remaining(total, specs, k - 1);
        lemma_assigned_bounds(r, specs[k - 1]);
        assert(s.take(k).drop_last() =~= s.take(k - 1));
        assert(s.take(k).last() == spec_assigned(r, specs[k - 1]));
    }
}

/// Law: for any total and any well-formed category specs, the assignments
/// sum to the total minus what remains, what remains never goes negative,
/// and so the sum of assigned units never exceeds the total.
pub proof fn lemma_partition_never_exceeds_total(total: int, specs: Seq<CategorySpec>)
    requires
        total >= 0,
        forall|i: int| 0 <= i < specs.len() ==> (#[trigger] specs[i]).wf(),
    ensures
        0 <= spec_remaining(total, specs, specs.len() as int) <= total,
        units_sum(spec_assignments(total, specs)) == total - spec_remaining(
            total,
            specs,
            specs.len() as int,
        ),
        units_sum(spec_assignments(total, specs)) <= total,
{
    lemma_partition_prefix(total, specs, specs.len() as int);
    assert(spec_assignments(total, specs).take(specs.len() as int) =~= spec_assignments(
        total,
        specs,
    ));
}

/// What one category receives from the remaining pool.
pub fn category_assignment(remaining: u32, c: &CategorySpec) -> (r: u32)
    requires
        c.wf(),
    ensures
        r as int == spec_assigned(remaining as int, *c),
        r <= remaining,
{
    proof {
        assert((remaining as int) * (c.share.num as int) <= u64::MAX) by (nonlinear_arith)
            requires
                remaining <= u32::MAX,
                c.share.num <= u32::MAX,
        ;
        assert((remaining as int) * (c.share.num as int) / (c.share.den as int)
            <= remaining as int && (remaining as int) * (c.share.num as int) / (c.share.den as int)
            >= 0) by (nonlinear_arith)
            requires
                remaining >= 0,
                0 <= c.share.num <= c.share.den,
                c.share.den >= 1,
        ;
    }
    let prod: u64 = (remaining as u64) * (c.share.num as u64);
    let cand64: u64 = prod / (c.share.den as u64);
    let candidate: u32 = cand64 as u32;
    let mut v: u32 = candidate;
    if v < c.min_units {
        v = c.min_units;
    }
    if let Some(m) = c.max_units {
        if v > m {
            v = m;
        }
    }
    if v > remaining {
        v = remaining;
    }
    v
}

/// Divides `total_units` among the categories in the caller-supplied
/// priority order. Each category takes its share of what remains after the
/// higher-priority ones; the sum of the results never exceeds `total_units`,
/// and with `total_units == 0` every category receives zero. Degrading is
/// deliberate, never a failure: when the total cannot cover every declared
/// minimum, earlier categories are served first and later ones may get less
/// than their minimum, down to zero.
pub fn partition(total_units: u32, specs: &Vec<CategorySpec>) -> (r: Vec<u32>)
    requires
        forall|i: int| 0 <= i < specs@.len() ==> (#[trigger] specs@[i]).wf(),
    ensures
        r@.len() == specs@.len(),
        forall|i: int| 0 <= i < r@.len() ==> #[trigger] r@[i] as int == spec_assigned(
            spec_remaining(total_units as int, specs@, i),
            specs@[i],
        ),
        units_sum(r@.map_values(|u: u32| u as int)) <= total_units as int,
{
    let mut out: Vec<u32> = Vec::new();
    let mut remaining: u32 = total_units;
    let mut idx: usize = 0;
    while idx < specs.len()
        invariant
            forall|i: int| 0 <= i < specs@.len() ==> (#[trigger] specs@[i]).wf(),
            idx <= specs@.len(),
            out@.len() == idx,
            remaining as int == spec_remaining(total_units as int, specs@, idx as int),
            forall|i: int| 0 <= i < idx ==> #[trigger] out@[i] as int == spec_assigned(
                spec_remaining(total_units as int, specs@, i),
                specs@[i],
            ),
        decreases specs@.len() - idx,
    {
        let c = specs[idx];
        let a = category_assignment(remaining, &c);
        out.push(a);
        remaining = remaining - a;
        idx = idx + 1;
    }
    proof {
        lemma_partition_never_exceeds_total(total_units as int, specs@);
        assert(out@.map_values(|u: u32| u as int) =~= spec_assignments(total_units as int, specs@));
    }
    out
}

/// The units each named category received.
#[derive(Debug, Clone, Copy, PartialEq, Eq, Structural)]
pub struct PartitionResult {
    pub io_units: u32,
    pub async_compute_units: u32,
    pub compute_units: u32,
}

/// Sizes the worker pools of the three named workload categories. The
/// available unit count is first clamped into
/// `[min_total_units, max_total_units]`; the categories then take their
/// assignments in the fixed priority order io, async-compute, compute, the
/// compute category absorbing what the others leave.
#[derive(Debug, Clone, Copy)]
pub struct CapacityPartitioner {
    pub min_total_units: u32,
    pub max_total_units: u32,
    pub io: CategorySpec,
    pub async_compute: CategorySpec,
    pub compute: CategorySpec,
}

impl CapacityPartitioner {
    pub open spec fn wf(self) -> bool {
        &&& self.min_total_units <= self.max_total_units
        &&& self.io.wf()
        &&& self.async_compute.wf()
        &&& self.compute.wf()
    }

    /// The named categories in priority order: io first, compute last.
    pub open spec fn categories(self) -> Seq<CategorySpec> {
        seq![self.io, self.async_compute, self.compute]
    }

    pub open spec fn spec_clamped_total(self, available: int) -> int {
        if available < self.min_total_units {
            self.min_total_units as int
        } else if available > self.max_total_units {
            self.max_total_units as int
        } else {
            available
        }
    }

    /// The available unit count clamped into the configured total range.
    pub fn clamped_total(&self, available_units: u32) -> (r: u32)
        ensures
            r as int == self.spec_clamped_total(available_units as int),
    {
        if available_units < self.min_total_units {
            self.min_total_units
        } else if available_units > self.max_total_units {
            self.max_total_units
        } else {
            available_units
        }
    }

    /// Divides the clamped available units among the three named categories
    /// in priority order. The three results never sum to more than the
    /// clamped total.
    pub fn partition(&self, available_units: u32) -> (r: PartitionResult)
        requires
            self.wf(),
        ensures
            ({
                let total = self.spec_clamped_total(available_units as int);
                let cs = self.categories();
                &&& r.io_units as int == spec_assigned(total, cs[0])
                &&& r.async_compute_units as int == spec_assigned(
                    spec_remaining(total, cs, 1),
                    cs[1],
                )
                &&& r.compute_units as int == spec_assigned(spec_remaining(total, cs, 2), cs[2])
                &&& r.io_units + r.async_compute_units + r.compute_units <= total
            }),
    {
        let total: u32 = self.clamped_total(available_units);
        let ghost cs = self.categories();
        let io_units: u32 = category_assignment(total, &self.io);
        let after_io: u32 = total - io_units;
        let async_compute_units: u32 = category_assignment(after_io, &self.async_compute);
        let after_async: u32 = after_io - async_compute_units;
        let compute_units: u32 = category_assignment(after_async, &self.compute);
        proof {
            assert(spec_remaining(total as int, cs, 0) == total as int);
            assert(spec_remaining(total as int, cs, 1) == after_io as int);
            assert(spec_remaining(total as int, cs, 2) == after_async as int);
        }
        PartitionResult { io_units, async_compute_units, compute_units }
    }
}

impl Default for CapacityPartitioner {
    /// The documented defaults: totals unconstrained, the io and
    /// async-compute categories each guaranteed one unit, capped at four,
    /// consuming a quarter of the remaining pool, and the compute category
    /// guaranteed one unit, uncapped, absorbing everything left.
    fn default() -> (r: CapacityPartitioner)
        ensures
            r.wf(),
            r.min_total_units == 1,
            r.max_total_units == u32::MAX,
            r.io == (CategorySpec {
                min_units: 1,
                max_units: Some(4u32),
                share: Share { num: 1, den: 4 },
            }),
            r.async_compute == (CategorySpec {
                min_units: 1,
                max_units: Some(4u32),
                share: Share { num: 1, den: 4 },
            }),
            r.compute == (CategorySpec {
                min_units: 1,
                max_units: None::<u32>,
                share: Share { num: 1, den: 1 },
            }),
    {
        CapacityPartitioner {
            min_total_units: 1,
            max_total_units: u32::MAX,
            io: CategorySpec { min_units: 1, max_units: Some(4), share: Share { num: 1, den: 4 } },
            async_compute: CategorySpec {
                min_units: 1,
                max_units: Some(4),
                share: Share { num: 1, den: 4 },
            },
            compute: CategorySpec {
                min_units: 1,
                max_units: None,
                share: Share { num: 1, den: 1 },
            },
        }
    }
}

} // verus!
