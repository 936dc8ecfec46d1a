use vstd::prelude::*;
use vstd::arithmetic::div_mod::{lemma_add_mod_noop, lemma_mod_add_multiples_vanish, lemma_small_mod};
use rand::Rng;
use crate::error::WatchtowerError;
use crate::resources::load_balancer::LoadBalancer;

verus! {

/// The index that follows `current` in a cycle over `size` candidates.
pub open spec fn successor(current: nat, size: nat) -> nat
    recommends
        size > 0,
{
    (current + 1) % size
}

/// The index reached from `start` after `steps` advances of a cycle over
/// `size` candidates.
pub open spec fn index_after(start: nat, size: nat, steps: nat) -> nat
    recommends
        size > 0,
{
    (start + steps) % size
}

/// A cyclic index generator over a pool of fixed size, which starts at a
/// random place of the cycle.
#[derive(Debug, Clone, Copy)]
pub struct RoundRobinLoadBalancer {
    current_index: usize,
    array_size: usize,
}

/// A selector as a plain value: the size of its pool, and the index that it
/// handed out last, or its starting point.
pub struct RoundRobinView {
    pub index: nat,
    pub size: nat,
}

impl View for RoundRobinLoadBalancer {
    type V = RoundRobinView;

    closed spec fn view(&self) -> RoundRobinView {
        RoundRobinView { index: self.current_index as nat, size: self.array_size as nat }
    }
}

/// Draws an index with `rand::thread_rng().gen_range(0..array_size)`. The
/// range is half-open, so every outcome lies below `array_size`; which one
/// comes is left open. `gen_range` panics on an empty range, which the
/// precondition excludes.
#[verifier::external_body]
fn random_index(array_size: usize) -> (index: usize)
    requires
        array_size > 0,
    ensures
        index < array_size,
{
    rand::thread_rng().gen_range(0..array_size)
}

impl RoundRobinView {
    /// A selector over an empty pool rests at 0; any other holds an index
    /// of its pool.
    pub open spec fn wf(self) -> bool {
        if self.size == 0 {
            self.index == 0
        } else {
            self.index < self.size
        }
    }

    /// The selector after one advance. Over an empty pool nothing moves.
    pub open spec fn advanced(self) -> Self {
        if self.size == 0 {
            self
        } else {
            RoundRobinView { index: successor(self.index, self.size), size: self.size }
        }
    }

    /// The selector after `steps` advances.
    pub open spec fn advanced_by(self, steps: nat) -> Self
        decreases steps,
    {
        if steps == 0 {
            self
        } else {
            self.advanced_by((steps - 1) as nat).advanced()
        }
    }

    /// Whether one of the next `size` calls returns `index`.
    pub open spec fn visits_within_round(self, index: nat) -> bool {
        exists|k: nat| 1 <= k <= self.size && #[trigger] self.advanced_by(k).index == index
    }
}

impl RoundRobinLoadBalancer {
    /// Every selector is well formed.
    #[verifier::type_invariant]
    pub open spec fn inv(&self) -> bool {
        self@.wf()
    }

    /// A selector over `array_size` candidates whose starting point is drawn
    /// at random from the pool.
    pub fn new(array_size: usize) -> (balancer: Self)
        ensures
            balancer@.wf(),
            balancer@.size == array_size,
    {
        if array_size == 0 {
            RoundRobinLoadBalancer { current_index: 0, array_size }
        } else {
            RoundRobinLoadBalancer { current_index: random_index(array_size), array_size }
        }
    }

    /// A selector over `array_size` candidates that starts at `start`,
    /// reduced into the pool.
    pub fn starting_at(array_size: usize, start: usize) -> (balancer: Self)
        ensures
            balancer@.wf(),
            balancer@.size == array_size,
            array_size > 0 ==> balancer@.index == start as nat % array_size as nat,
            array_size == 0 ==> balancer@.index == 0,
    {
        if array_size == 0 {
            RoundRobinLoadBalancer { current_index: 0, array_size }
        } else {
            RoundRobinLoadBalancer { current_index: start % array_size, array_size }
        }
    }

    /// The size of the pool.
    pub fn array_size(&self) -> (size: usize)
        ensures
            size == self@.size,
    {
        self.array_size
    }

    /// The index that was handed out last, or the starting point.
    pub fn current_index(&self) -> (index: usize)
        ensures
            index == self@.index,
            self@.wf(),
    {
        proof {
            use_type_invariant(self);
        }
        self.current_index
    }
}

impl LoadBalancer for RoundRobinLoadBalancer {
    open spec fn pool_size(&self) -> nat {
        self@.size
    }

    /// Advances the cycle by one and returns the index reached. Over an
    /// empty pool nothing moves and the call fails with `EmptyPool`.
    fn get_next_index(&mut self) -> (result: Result<usize, WatchtowerError>)
        ensures
            old(self)@.wf(),
            final(self)@.wf(),
            final(self)@ == old(self)@.advanced(),
            old(self)@.size == 0 ==> result == Err::<usize, WatchtowerError>(
                WatchtowerError::EmptyPool,
            ),
            old(self)@.size > 0 ==> result is Ok && result->Ok_0 == final(self)@.index,
    {
        proof {
            use_type_invariant(&*self);
        }
        if self.array_size == 0 {
            return Err(WatchtowerError::EmptyPool);
        }
        self.current_index = (self.current_index + 1) % self.array_size;
        Ok(self.current_index)
    }
}

impl RoundRobinView {
    /// After `steps` advances a selector over a pool that is not empty
    /// stands `steps` places further round the cycle, over the same pool.
    pub proof fn lemma_advanced_by(self, steps: nat)
        requires
            self.wf(),
            self.size > 0,
        ensures
            self.advanced_by(steps).wf(),
            self.advanced_by(steps).size == self.size,
            self.advanced_by(steps).index == index_after(self.index, self.size, steps),
        decreases steps,
    {
        let n = self.size as int;
        if steps == 0 {
            lemma_small_mod(self.index, self.size);
        } else {
            let before = self.advanced_by((steps - 1) as nat);
            self.lemma_advanced_by((steps - 1) as nat);
            lemma_add_mod_noop((self.index + steps - 1) as int, 1, n);
            if n == 1 {
                assert((before.index + 1) % 1nat == 0);
                assert((self.index + steps) % 1nat == 0);
            } else {
                lemma_small_mod(1, self.size);
                assert(1int % n == 1);
            }
        }
    }

    /// One round of a selector over `n >= 1` candidates, that is `n` calls in
    /// a row: the calls return indices of the pool, in cyclic order from the
    /// starting point; no index comes twice, every index comes once, and the
    /// selector ends where it began.
    pub proof fn law_round_visits_each_index_once(self)
        requires
            self.wf(),
            self.size >= 1,
        ensures
            forall|k: nat|
                1 <= k <= self.size ==> #[trigger] self.advanced_by(k).index == index_after(
                    self.index,
                    self.size,
                    k,
                ) && self.advanced_by(k).index < self.size,
            forall|j: nat, k: nat|
                1 <= j < k <= self.size ==> #[trigger] self.advanced_by(j).index
                    != #[trigger] self.advanced_by(k).index,
            forall|i: nat| i < self.size ==> #[trigger] self.visits_within_round(i),
            self.advanced_by(self.size) == self,
    {
        let n = self.size;
        let s = self.index;
        assert forall|k: nat| 1 <= k <= n implies #[trigger] self.advanced_by(k).index
            == index_after(s, n, k) && self.advanced_by(k).index < n by {
            self.lemma_advanced_by(k);
        }
        assert forall|j: nat, k: nat| 1 <= j < k <= n implies #[trigger] self.advanced_by(j).index
            != #[trigger] self.advanced_by(k).index by {
            self.lemma_advanced_by(j);
            self.lemma_advanced_by(k);
            lemma_distinct_within_round(s, n, j, k);
        }
        assert forall|i: nat| i < n implies #[trigger] self.visits_within_round(i) by {
            let k: nat = if i > s {
                (i - s) as nat
            } else {
                (i + n - s) as nat
            };
            self.lemma_advanced_by(k);
            if i > s {
                lemma_small_mod(i, n);
            } else {
                lemma_mod_add_multiples_vanish(i as int, n as int);
                lemma_small_mod(i, n);
            }
            assert(1 <= k <= n && self.advanced_by(k).index == i);
        }
        self.lemma_advanced_by(n);
        lemma_mod_add_multiples_vanish(s as int, n as int);
        lemma_small_mod(s, n);
    }
}

/// In a cycle over two or more candidates a place and the next one differ.
pub proof fn lemma_neighbours_differ(place: nat, size: nat)
    requires
        size >= 2,
    ensures
        index_after(0, size, place) != index_after(0, size, place + 1),
{
    lemma_add_mod_noop(place as int, 1, size as int);
    lemma_small_mod(1, size);
    let here = place % size;
    if here + 1 < size {
        lemma_small_mod(here + 1, size);
    } else {
        vstd::arithmetic::div_mod::lemma_mod_self_0(size as int);
    }
}

/// Two different steps of one round land on different indices.
proof fn lemma_distinct_within_round(start: nat, size: nat, j: nat, k: nat)
    requires
        size > 0,
        1 <= j < k <= size,
    ensures
        index_after(start, size, j) != index_after(start, size, k),
{
    let n = size as int;
    let a: int = (start + j) as int;
    let b: int = (start + k) as int;
    if a % n == b % n {
        assert(a == n * (a / n) + a % n) by (nonlinear_arith)
            requires
                n > 0,
        ;
        assert(b == n * (b / n) + b % n) by (nonlinear_arith)
            requires
                n > 0,
        ;
        assert(b - a == n * (b / n - a / n)) by (nonlinear_arith)
            requires
                a == n * (a / n) + a % n,
                b == n * (b / n) + b % n,
                a % n == b % n,
        ;
        let d: int = b / n - a / n;
        assert(false) by (nonlinear_arith)
            requires
                0 < b - a < n,
                b - a == n * d,
        ;
    }
}

} // verus!
