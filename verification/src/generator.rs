//! The job generator: enumerates (outer, inner) identifier pairs, the inner
//! identifier ranging over a configured half-open interval once per outer
//! value, the outer identifier then advancing by one, without end. A ghost
//! step counter ties the concrete cursor to the mathematical enumeration, and
//! a closed-form lemma states which pair the k-th job carries.

use vstd::prelude::*;
use vstd::arithmetic::div_mod::{
    lemma_fundamental_div_mod, lemma_fundamental_div_mod_converse, lemma_mod_division_less_than_divisor,
};

verus! {

/// One unit of work: verify the report numbered `inner_id` under application
/// `outer_id`. `success` and `content` are filled by the pipeline; the retry
/// budget is carried for a dispatcher that re-enqueues abandoned jobs.
pub struct Job {
    pub outer_id: u64,
    pub inner_id: u64,
    pub success: bool,
    pub content: String,
    pub retry_budget: usize,
}

/// The pair the enumeration stands at after one step from `p`: the inner
/// value advances within `[inner_start, inner_end)`, wrapping to
/// `inner_start` as the outer value advances by one.
pub open spec fn step_pair(inner_start: int, inner_end: int, p: (int, int)) -> (int, int) {
    if p.1 + 1 < inner_end {
        (p.0, p.1 + 1)
    } else {
        (p.0 + 1, inner_start)
    }
}

/// The pair the enumeration stands at after `k` steps from
/// `(outer_start, inner_start)`.
pub open spec fn pair_at(outer_start: int, inner_start: int, inner_end: int, k: nat) -> (int, int)
    decreases k,
{
    if k == 0 {
        (outer_start, inner_start)
    } else {
        step_pair(inner_start, inner_end, pair_at(outer_start, inner_start, inner_end, (k - 1) as nat))
    }
}

/// Closed form of the enumeration: the k-th job carries outer value
/// `outer_start + k / span` and inner value `inner_start + k % span`, where
/// `span = inner_end - inner_start`. So each outer pass enumerates
/// `inner_start, inner_start + 1, ..., inner_end - 1` exactly once, then the
/// outer value advances by one and the pass repeats.
pub proof fn lemma_enumeration(outer_start: int, inner_start: int, inner_end: int, k: nat)
    requires
        inner_start < inner_end,
    ensures
        pair_at(outer_start, inner_start, inner_end, k) == (
            outer_start + k as int / (inner_end - inner_start),
            inner_start + k as int % (inner_end - inner_start),
        ),
    decreases k,
{
    let s = inner_end - inner_start;
    if k == 0 {
        lemma_fundamental_div_mod_converse(0, s, 0, 0);
    } else {
        let j = (k - 1) as nat;
        lemma_enumeration(outer_start, inner_start, inner_end, j);
        let q = j as int / s;
        let r = j as int % s;
        lemma_fundamental_div_mod(j as int, s);
        lemma_mod_division_less_than_divisor(j as int, s);
        if r + 1 < s {
            lemma_fundamental_div_mod_converse(k as int, s, q, r + 1);
        } else {
            assert(s * (q + 1) == s * q + s) by (nonlinear_arith);
            assert(k as int == s * (q + 1) + 0) by {
                assert(j as int == s * q + r);
            }
            lemma_fundamental_div_mod_converse(k as int, s, q + 1, 0);
        }
    }
}

/// The enumeration cursor. `emitted` counts the jobs handed out so far and
/// exists only for specification.
pub struct Generator {
    pub outer: u64,
    pub inner: u64,
    pub inner_start: u64,
    pub inner_end: u64,
    pub outer_start: u64,
    pub retry_budget: usize,
    pub emitted: Ghost<nat>,
}

impl Generator {
    /// The interval is nonempty, the cursor sits inside it, and it equals the
    /// enumeration's pair after `emitted` steps from the start.
    pub open spec fn wf(self) -> bool {
        &&& self.inner_start < self.inner_end
        &&& self.inner_start <= self.inner < self.inner_end
        &&& (self.outer as int, self.inner as int) == pair_at(
            self.outer_start as int,
            self.inner_start as int,
            self.inner_end as int,
            self.emitted@,
        )
    }

    /// A generator at the start of the enumeration.
    pub fn new(outer_start: u64, inner_start: u64, inner_end: u64, retry_budget: usize) -> (g:
        Generator)
        requires
            inner_start < inner_end,
        ensures
            g.wf(),
            g.outer == outer_start,
            g.inner == inner_start,
            g.outer_start == outer_start,
            g.inner_start == inner_start,
            g.inner_end == inner_end,
            g.retry_budget == retry_budget,
            g.emitted@ == 0,
    {
        Generator {
            outer: outer_start,
            inner: inner_start,
            inner_start,
            inner_end,
            outer_start,
            retry_budget,
            emitted: Ghost(0),
        }
    }

    /// Hands out the next job — the `emitted`-th pair of the enumeration,
    /// with a cleared result and the configured retry budget — and advances
    /// the cursor. The outer value must still have room to advance when the
    /// inner pass is about to wrap.
    pub fn next_job(&mut self) -> (j: Job)
        requires
            old(self).wf(),
            old(self).inner + 1 == old(self).inner_end ==> old(self).outer < u64::MAX,
        ensures
            final(self).wf(),
            final(self).inner_start == old(self).inner_start,
            final(self).inner_end == old(self).inner_end,
            final(self).outer_start == old(self).outer_start,
            final(self).retry_budget == old(self).retry_budget,
            final(self).emitted@ == old(self).emitted@ + 1,
            j.outer_id == old(self).outer,
            j.inner_id == old(self).inner,
            !j.success,
            j.content@ == Seq::<char>::empty(),
            j.retry_budget == old(self).retry_budget,
            (j.outer_id as int, j.inner_id as int) == pair_at(
                old(self).outer_start as int,
                old(self).inner_start as int,
                old(self).inner_end as int,
                old(self).emitted@,
            ),
            (final(self).outer as int, final(self).inner as int) == step_pair(
                old(self).inner_start as int,
                old(self).inner_end as int,
                (old(self).outer as int, old(self).inner as int),
            ),
    {
        let job = Job {
            outer_id: self.outer,
            inner_id: self.inner,
            success: false,
            content: String::new(),
            retry_budget: self.retry_budget,
        };
        if self.inner + 1 < self.inner_end {
            self.inner = self.inner + 1;
        } else {
            self.inner = self.inner_start;
            self.outer = self.outer + 1;
        }
        self.emitted = Ghost(self.emitted@ + 1);
        proof {
            let k = self.emitted@;
            assert(pair_at(
                self.outer_start as int,
                self.inner_start as int,
                self.inner_end as int,
                k,
            ) == step_pair(
                self.inner_start as int,
                self.inner_end as int,
                pair_at(
                    self.outer_start as int,
                    self.inner_start as int,
                    self.inner_end as int,
                    (k - 1) as nat,
                ),
            ));
        }
        job
    }
}

} // verus!
