//! The machine model: one capacity-bounded, priced unit of a category, and
//! the capacity matcher that allocates the smallest set of machines of one
//! category covering a target capacity.

use core::marker::PhantomData;
use vstd::prelude::*;

verus! {

/// The fixed constants of one machine category. Every implementor supplies a
/// non-degenerate capacity range and non-negative costs, witnessed by
/// `tag_valid`.
pub trait MachineTag: Sized {
    spec fn spec_cost_step() -> int;

    spec fn spec_cost_baseline() -> int;

    spec fn spec_capacity_max() -> int;

    spec fn spec_capacity_min() -> int;

    fn cost_step() -> (r: usize)
        ensures
            r as int == Self::spec_cost_step(),
    ;

    fn cost_baseline() -> (r: usize)
        ensures
            r as int == Self::spec_cost_baseline(),
    ;

    fn capacity_max() -> (r: usize)
        ensures
            r as int == Self::spec_capacity_max(),
    ;

    fn capacity_min() -> (r: usize)
        ensures
            r as int == Self::spec_capacity_min(),
    ;

    /// The category's constants are well formed: the capacity range is
    /// non-degenerate, costs are non-negative, and the most expensive single
    /// machine is priced within `usize`.
    proof fn tag_valid()
        ensures
            1 <= Self::spec_capacity_min(),
            Self::spec_capacity_min() <= Self::spec_capacity_max(),
            0 <= Self::spec_cost_step(),
            0 <= Self::spec_cost_baseline(),
            2 * Self::spec_capacity_max() <= usize::MAX,
            Self::spec_cost_baseline() + Self::spec_cost_step() * (Self::spec_capacity_max()
                - Self::spec_capacity_min()) <= usize::MAX,
    ;
}

/// Why a machine could not be constructed at a requested capacity.
#[derive(Debug)]
pub enum Error {
    LTMinCap,
    GTMaxCap,
}

/// One machine of category `T`. Its capacity always lies within the
/// category's range.
#[derive(Debug, PartialEq, Eq)]
pub struct Machine<T: MachineTag> {
    pub capacity: usize,
    pub tag: PhantomData<T>,
}

impl<T: MachineTag> Machine<T> {
    /// The machine's capacity lies within its category's range.
    pub open spec fn wf(self) -> bool {
        T::spec_capacity_min() <= self.capacity as int <= T::spec_capacity_max()
    }

    /// The price of this machine: the category baseline plus the cost step
    /// for every capacity unit above the category minimum.
    pub fn price(&self) -> (p: usize)
        requires
            self.wf(),
        ensures
            p as int == spec_machine_price::<T>(*self),
    {
        proof {
            T::tag_valid();
            lemma_machine_price_bounds::<T>(*self);
        }
        T::cost_baseline() + T::cost_step() * (self.capacity - T::capacity_min())
    }

    /// Validated construction: rejects capacities outside the category range,
    /// and otherwise returns a machine at exactly the requested capacity.
    pub fn new(capacity: usize) -> (r: Result<Machine<T>, Error>)
        ensures
            match r {
                Ok(m) => T::spec_capacity_min() <= capacity as int <= T::spec_capacity_max()
                    && m.capacity == capacity,
                Err(Error::GTMaxCap) => (capacity as int) > T::spec_capacity_max(),
                Err(Error::LTMinCap) => (capacity as int) < T::spec_capacity_min(),
            },
            r is Ok ==> r->Ok_0.wf(),
    {
        proof {
            T::tag_valid();
        }
        if capacity > T::capacity_max() {
            Err(Error::GTMaxCap)
        } else if capacity < T::capacity_min() {
            Err(Error::LTMinCap)
        } else {
            Ok(Machine { capacity, tag: PhantomData })
        }
    }

    /// Removes up to `count` capacity units, never going below the category
    /// minimum, and returns the amount actually removed.
    pub fn downgrade(&mut self, count: usize) -> (removed: usize)
        requires
            old(self).wf(),
        ensures
            final(self).wf(),
            removed as int == vstd::math::min(
                count as int,
                old(self).capacity - T::spec_capacity_min(),
            ),
            final(self).capacity == old(self).capacity - removed,
    {
        proof {
            T::tag_valid();
        }
        let floor = T::capacity_min();
        let max_count = if self.capacity - floor < count {
            self.capacity - floor
        } else {
            count
        };
        self.capacity = self.capacity - max_count;
        max_count
    }

    /// Allocates the smallest number of machines whose combined maximum
    /// capacity reaches `goal` (clamped up to the category minimum), then
    /// trims the over-provisioned excess greedily from the earliest machines,
    /// each giving up at most its full headroom.
    #[verifier::loop_isolation(false)]
    pub fn match_capacity(goal: usize) -> (out: Vec<Machine<T>>)
        requires
            goal + T::spec_capacity_max() <= usize::MAX,
        ensures
            stage_matches::<T>(out@, goal as int),
            out.len() >= 1,
            forall|i: int| 0 <= i < out.len() ==> (#[trigger] out[i]).wf(),
            sum_caps(caps_of::<T>(out@)) == spec_stage_capacity::<T>(goal as int),
            spec_clamped::<T>(goal as int) <= sum_caps(caps_of::<T>(out@)),
    {
        proof {
            T::tag_valid();
            lemma_count_bounds::<T>(goal as int);
        }
        let cap_max = T::capacity_max();
        let cap_min = T::capacity_min();
        let clamped = if goal < cap_min {
            cap_min
        } else {
            goal
        };
        let mut n: usize = clamped / cap_max;
        if clamped % cap_max != 0 {
            n = n + 1;
        }
        assert(n as int == spec_count::<T>(goal as int));
        let excess: usize = n * cap_max - clamped;
        let headroom: usize = cap_max - cap_min;
        assert(excess as int == spec_excess::<T>(goal as int));
        let mut well: usize = excess;
        let mut out: Vec<Machine<T>> = Vec::new();
        let mut i: usize = 0;
        while i < n
            invariant
                i <= n,
                out.len() == i,
                forall|j: int| 0 <= j < i ==> (#[trigger] out[j]).wf(),
                forall|j: int|
                    0 <= j < i ==> ((#[trigger] out[j]).capacity as int == spec_matched_cap::<T>(
                        goal as int,
                        j,
                    )),
                well as int == vstd::math::max(
                    0,
                    excess as int - (i as int) * spec_headroom::<T>(),
                ),
                sum_caps(caps_of::<T>(out@)) == (i as int) * (cap_max as int) - (excess as int
                    - well as int),
                well <= excess,
            decreases n - i,
        {
            let mut m = Machine::<T>::new(cap_max).unwrap();
            let amount = if headroom < well {
                headroom
            } else {
                well
            };
            let removed = m.downgrade(amount);
            proof {
                assert(((i + 1) as int) * spec_headroom::<T>() == (i as int) * spec_headroom::<T>()
                    + spec_headroom::<T>()) by (nonlinear_arith);
                assert(((i + 1) as int) * (cap_max as int) == (i as int) * (cap_max as int) + (
                cap_max as int)) by (nonlinear_arith);
                lemma_caps_of_push::<T>(out@, m);
                lemma_sum_caps_push(caps_of::<T>(out@), m.capacity as int);
            }
            well = well - removed;
            out.push(m);
            i = i + 1;
        }
        proof {
            assert((n as int) * (cap_max as int) - (n as int) * T::spec_capacity_min() == (n as int)
                * spec_headroom::<T>()) by (nonlinear_arith)
                requires
                    spec_headroom::<T>() == (cap_max as int) - T::spec_capacity_min(),
            ;
        }
        out
    }
}

/// The sum of the capacities of the given machines, as the machines of one
/// pipeline stage actually deliver it.
#[verifier::loop_isolation(false)]
pub fn capacity_sum<T: MachineTag>(machines: &Vec<Machine<T>>) -> (s: usize)
    requires
        forall|i: int| 0 <= i < machines.len() ==> (#[trigger] machines[i]).wf(),
        machines.len() * T::spec_capacity_max() <= usize::MAX,
    ensures
        s as int == sum_caps(caps_of::<T>(machines@)),
        s as int <= machines.len() * T::spec_capacity_max(),
{
    proof {
        T::tag_valid();
    }
    let mut s: usize = 0;
    let mut j: usize = 0;
    while j < machines.len()
        invariant
            j <= machines.len(),
            s as int == sum_caps(caps_of::<T>(machines@).take(j as int)),
            s as int <= (j as int) * T::spec_capacity_max(),
        decreases machines.len() - j,
    {
        proof {
            assert(caps_of::<T>(machines@).take((j + 1) as int).drop_last() =~= caps_of::<T>(
                machines@,
            ).take(j as int));
            assert(((j + 1) as int) * T::spec_capacity_max() == (j as int)
                * T::spec_capacity_max() + T::spec_capacity_max()) by (nonlinear_arith);
            vstd::arithmetic::mul::lemma_mul_inequality(
                (j + 1) as int,
                machines.len() as int,
                T::spec_capacity_max(),
            );
        }
        s = s + machines[j].capacity;
        j = j + 1;
    }
    proof {
        assert(caps_of::<T>(machines@).take(machines@.len() as int) =~= caps_of::<T>(machines@));
    }
    s
}

/// The sum of the prices of the given machines: the total price of one
/// pipeline stage.
#[verifier::loop_isolation(false)]
pub fn total_price<T: MachineTag>(machines: &Vec<Machine<T>>) -> (p: usize)
    requires
        forall|i: int| 0 <= i < machines.len() ==> (#[trigger] machines[i]).wf(),
        machines.len() * spec_max_machine_price::<T>() <= usize::MAX,
    ensures
        p as int == sum_prices::<T>(machines@),
        p as int <= machines.len() * spec_max_machine_price::<T>(),
{
    proof {
        T::tag_valid();
    }
    let mut p: usize = 0;
    let mut j: usize = 0;
    while j < machines.len()
        invariant
            j <= machines.len(),
            p as int == sum_prices::<T>(machines@.take(j as int)),
            p as int <= (j as int) * spec_max_machine_price::<T>(),
        decreases machines.len() - j,
    {
        proof {
            assert(machines@.take((j + 1) as int).drop_last() =~= machines@.take(j as int));
            assert(((j + 1) as int) * spec_max_machine_price::<T>() == (j as int)
                * spec_max_machine_price::<T>() + spec_max_machine_price::<T>())
                by (nonlinear_arith);
            vstd::arithmetic::mul::lemma_mul_inequality(
                (j + 1) as int,
                machines.len() as int,
                spec_max_machine_price::<T>(),
            );
            lemma_machine_price_bounds::<T>(machines@[j as int]);
        }
        p = p + machines[j].price();
        j = j + 1;
    }
    proof {
        assert(machines@.take(machines@.len() as int) =~= machines@);
    }
    p
}

/// The price of one machine as a function of its capacity.
pub open spec fn spec_machine_price<T: MachineTag>(m: Machine<T>) -> int {
    T::spec_cost_baseline() + T::spec_cost_step() * (m.capacity - T::spec_capacity_min())
}

/// The largest price a single machine of category `T` can have.
pub open spec fn spec_max_machine_price<T: MachineTag>() -> int {
    T::spec_cost_baseline() + T::spec_cost_step() * (T::spec_capacity_max()
        - T::spec_capacity_min())
}

/// A well-formed machine's price is between the category baseline and the
/// price of a machine at maximum capacity.
pub proof fn lemma_machine_price_bounds<T: MachineTag>(m: Machine<T>)
    requires
        m.wf(),
    ensures
        T::spec_cost_baseline() <= spec_machine_price::<T>(m) <= spec_max_machine_price::<T>(),
{
    T::tag_valid();
    assert(0 <= T::spec_cost_step() * (m.capacity - T::spec_capacity_min()) <= T::spec_cost_step()
        * (T::spec_capacity_max() - T::spec_capacity_min())) by (nonlinear_arith)
        requires
            0 <= T::spec_cost_step(),
            0 <= m.capacity - T::spec_capacity_min() <= T::spec_capacity_max()
                - T::spec_capacity_min(),
    ;
}

// --- The capacity matcher and its mathematical model ---
/// The effective target of the matcher: a goal below the category minimum is
/// raised to the minimum, since a stage cannot usefully request less than one
/// machine's floor.
pub open spec fn spec_clamped<T: MachineTag>(goal: int) -> int {
    vstd::math::max(goal, T::spec_capacity_min())
}

/// The number of machines the matcher allocates: the smallest count whose
/// combined maximum capacity reaches the clamped goal.
pub open spec fn spec_count<T: MachineTag>(goal: int) -> int {
    let c = spec_clamped::<T>(goal);
    if c % T::spec_capacity_max() == 0 {
        c / T::spec_capacity_max()
    } else {
        c / T::spec_capacity_max() + 1
    }
}

/// The over-provisioned capacity the matcher then trims away.
pub open spec fn spec_excess<T: MachineTag>(goal: int) -> int {
    spec_count::<T>(goal) * T::spec_capacity_max() - spec_clamped::<T>(goal)
}

/// How much a single machine's capacity can be reduced.
pub open spec fn spec_headroom<T: MachineTag>() -> int {
    T::spec_capacity_max() - T::spec_capacity_min()
}

/// The capacity of the `i`-th allocated machine: the excess is removed
/// greedily from the earliest machines, each giving up at most its full
/// headroom.
pub open spec fn spec_matched_cap<T: MachineTag>(goal: int, i: int) -> int {
    T::spec_capacity_max() - vstd::math::min(
        spec_headroom::<T>(),
        vstd::math::max(0, spec_excess::<T>(goal) - i * spec_headroom::<T>()),
    )
}

/// The combined capacity the matcher produces: the clamped goal, unless even
/// fully trimmed machines overshoot it.
pub open spec fn spec_stage_capacity<T: MachineTag>(goal: int) -> int {
    vstd::math::max(spec_clamped::<T>(goal), spec_count::<T>(goal) * T::spec_capacity_min())
}

/// The total price of the machines the matcher produces.
pub open spec fn spec_stage_price<T: MachineTag>(goal: int) -> int {
    spec_count::<T>(goal) * T::spec_cost_baseline() + T::spec_cost_step() * (
    spec_stage_capacity::<T>(goal) - spec_count::<T>(goal) * T::spec_capacity_min())
}

/// The capacities of a sequence of machines.
pub open spec fn caps_of<T: MachineTag>(s: Seq<Machine<T>>) -> Seq<int> {
    s.map(|i: int, m: Machine<T>| m.capacity as int)
}

/// The sum of a sequence of integers.
pub open spec fn sum_caps(s: Seq<int>) -> int
    decreases s.len(),
{
    if s.len() == 0 {
        0
    } else {
        sum_caps(s.drop_last()) + s.last()
    }
}

/// The sum of the prices of a sequence of machines.
pub open spec fn sum_prices<T: MachineTag>(s: Seq<Machine<T>>) -> int
    decreases s.len(),
{
    if s.len() == 0 {
        0
    } else {
        sum_prices(s.drop_last()) + spec_machine_price::<T>(s.last())
    }
}

/// A sequence of machines is exactly what the capacity matcher returns for
/// `goal`: the minimal count, with the excess trimmed from the front.
pub open spec fn stage_matches<T: MachineTag>(ms: Seq<Machine<T>>, goal: int) -> bool {
    &&& ms.len() == spec_count::<T>(goal)
    &&& forall|i: int|
        0 <= i < ms.len() ==> ((#[trigger] ms[i]).capacity as int == spec_matched_cap::<T>(
            goal,
            i,
        ))
}

pub proof fn lemma_sum_caps_push(s: Seq<int>, x: int)
    ensures
        sum_caps(s.push(x)) == sum_caps(s) + x,
{
    assert(s.push(x).drop_last() =~= s);
}

pub proof fn lemma_caps_of_push<T: MachineTag>(s: Seq<Machine<T>>, m: Machine<T>)
    ensures
        caps_of::<T>(s.push(m)) == caps_of::<T>(s).push(m.capacity as int),
{
    assert(caps_of::<T>(s.push(m)) =~= caps_of::<T>(s).push(m.capacity as int));
}

/// The price of a stage is linear in the number of its machines and in their
/// combined capacity.
pub proof fn lemma_sum_prices_linear<T: MachineTag>(s: Seq<Machine<T>>)
    ensures
        sum_prices::<T>(s) == s.len() * T::spec_cost_baseline() + T::spec_cost_step() * (sum_caps(
            caps_of::<T>(s),
        ) - s.len() * T::spec_capacity_min()),
    decreases s.len(),
{
    let base = T::spec_cost_baseline();
    let step = T::spec_cost_step();
    let mn = T::spec_capacity_min();
    if s.len() == 0 {
        assert(s.len() * base == 0) by (nonlinear_arith)
            requires
                s.len() == 0,
        ;
        assert(step * (sum_caps(caps_of::<T>(s)) - s.len() * mn) == 0) by (nonlinear_arith)
            requires
                s.len() == 0,
                sum_caps(caps_of::<T>(s)) == 0,
        ;
    } else {
        let b = s.drop_last();
        lemma_sum_prices_linear::<T>(b);
        assert(caps_of::<T>(s).drop_last() =~= caps_of::<T>(b));
        let n = s.len() as int;
        let lc = s.last().capacity as int;
        let sc = sum_caps(caps_of::<T>(s));
        let sb = sum_caps(caps_of::<T>(b));
        assert(sc == sb + lc);
        assert(n * base == (n - 1) * base + base) by (nonlinear_arith);
        assert(step * (sc - n * mn) == step * (sb - (n - 1) * mn) + step * (lc - mn))
            by (nonlinear_arith)
            requires
                sc == sb + lc,
        ;
    }
}

/// One stage never costs less than a single baseline machine, and always
/// delivers at least the clamped goal.
pub proof fn lemma_stage_price_floor<T: MachineTag>(goal: int)
    requires
        0 <= goal,
    ensures
        spec_stage_price::<T>(goal) >= T::spec_cost_baseline(),
        spec_stage_capacity::<T>(goal) >= spec_clamped::<T>(goal),
        spec_clamped::<T>(goal) >= goal,
        spec_clamped::<T>(goal) >= 1,
{
    T::tag_valid();
    lemma_count_bounds::<T>(goal);
    let n = spec_count::<T>(goal);
    let base = T::spec_cost_baseline();
    let step = T::spec_cost_step();
    let mn = T::spec_capacity_min();
    let cap = spec_stage_capacity::<T>(goal);
    assert(n * base >= base) by (nonlinear_arith)
        requires
            n >= 1,
            base >= 0,
    ;
    assert(step * (cap - n * mn) >= 0) by (nonlinear_arith)
        requires
            step >= 0,
            cap >= n * mn,
    ;
}

/// The machine count is at least one, and `count * capacity_max` is the
/// smallest multiple of `capacity_max` at or above the clamped goal.
pub proof fn lemma_count_bounds<T: MachineTag>(goal: int)
    requires
        0 <= goal,
    ensures
        1 <= spec_count::<T>(goal),
        spec_clamped::<T>(goal) <= spec_count::<T>(goal) * T::spec_capacity_max(),
        spec_count::<T>(goal) * T::spec_capacity_max() < spec_clamped::<T>(goal)
            + T::spec_capacity_max(),
{
    T::tag_valid();
    let c = spec_clamped::<T>(goal);
    let m = T::spec_capacity_max();
    vstd::arithmetic::div_mod::lemma_fundamental_div_mod(c, m);
    assert(0 <= c % m < m) by {
        vstd::arithmetic::div_mod::lemma_mod_bound(c, m);
    }
    let q = c / m;
    assert(c == m * q + c % m);
    assert(q >= 0) by (nonlinear_arith)
        requires
            c == m * q + c % m,
            c >= 1,
            0 <= c % m < m,
    ;
    if c % m == 0 {
        assert(q * m == c) by (nonlinear_arith)
            requires
                c == m * q,
        ;
        assert(q >= 1) by (nonlinear_arith)
            requires
                q * m == c,
                c >= 1,
                m >= 1,
                q >= 0,
        ;
    } else {
        assert((q + 1) * m == q * m + m) by (nonlinear_arith);
        assert(q * m == m * q) by (nonlinear_arith);
    }
}

// --- The three machine categories ---
/// The assembly category's constants.
#[derive(Debug, PartialEq, Eq)]
pub struct Assembly;

impl MachineTag for Assembly {
    open spec fn spec_cost_step() -> int {
        200
    }

    open spec fn spec_cost_baseline() -> int {
        5000
    }

    open spec fn spec_capacity_max() -> int {
        15
    }

    open spec fn spec_capacity_min() -> int {
        10
    }

    fn cost_step() -> usize {
        200
    }

    fn cost_baseline() -> usize {
        5000
    }

    fn capacity_max() -> usize {
        15
    }

    fn capacity_min() -> usize {
        10
    }

    proof fn tag_valid() {
    }
}

/// The soldering category's constants.
#[derive(Debug, PartialEq, Eq)]
pub struct Soldering;

impl MachineTag for Soldering {
    open spec fn spec_cost_step() -> int {
        50
    }

    open spec fn spec_cost_baseline() -> int {
        2000
    }

    open spec fn spec_capacity_max() -> int {
        30
    }

    open spec fn spec_capacity_min() -> int {
        20
    }

    fn cost_step() -> usize {
        50
    }

    fn cost_baseline() -> usize {
        2000
    }

    fn capacity_max() -> usize {
        30
    }

    fn capacity_min() -> usize {
        20
    }

    proof fn tag_valid() {
    }
}

/// The quality-checking category's constants.
#[derive(Debug, PartialEq, Eq)]
pub struct QualityChecking;

impl MachineTag for QualityChecking {
    open spec fn spec_cost_step() -> int {
        2000
    }

    open spec fn spec_cost_baseline() -> int {
        8000
    }

    open spec fn spec_capacity_max() -> int {
        10
    }

    open spec fn spec_capacity_min() -> int {
        8
    }

    fn cost_step() -> usize {
        2000
    }

    fn cost_baseline() -> usize {
        8000
    }

    fn capacity_max() -> usize {
        10
    }

    fn capacity_min() -> usize {
        8
    }

    proof fn tag_valid() {
    }
}

} // verus!
