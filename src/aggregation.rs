use vstd::prelude::*;

verus! {

/// One operation of the aggregation tree, in the order the backend performs
/// it. The operations work on a stack of proofs: proving a segment pushes its
/// proof, aggregating pops the right and then the left proof and pushes their
/// combination, finalizing turns the single remaining proof into the
/// capstone block proof.
#[derive(Clone, Copy, Debug, PartialEq, Eq, Structural)]
pub enum AggStep {
    /// Prove segment `index`; `with_assumptions` hands the job's carried
    /// receipts to the prover as trusted assumptions.
    ProveSegment { index: usize, with_assumptions: bool },
    /// Combine the two topmost proofs; the flags say whether the left and the
    /// right operand are themselves aggregates.
    Aggregate { left_is_agg: bool, right_is_agg: bool },
    /// Compress the single remaining aggregate into a block proof.
    Finalize,
}

/// A proof on the stack, seen through the execution states it connects.
pub struct ProofEntry<S> {
    pub before: S,
    pub after: S,
    pub aggregated: bool,
}

/// Each segment ends in the state the next one starts from.
pub open spec fn chained<S>(segs: Seq<(S, S)>) -> bool {
    forall|i: int| 0 <= i < segs.len() - 1 ==> #[trigger] segs[i].1 == segs[i + 1].0
}

/// Effect of one operation on the stack of proofs over segments `segs`;
/// `None` when the operation cannot apply (missing segment, too few
/// proofs, non-adjacent ranges, wrong operand kinds).
pub open spec fn apply_step<S>(
    stack: Seq<ProofEntry<S>>,
    step: AggStep,
    segs: Seq<(S, S)>,
) -> Option<Seq<ProofEntry<S>>> {
    match step {
        AggStep::ProveSegment { index, with_assumptions } => {
            if index < segs.len() {
                Some(
                    stack.push(
                        ProofEntry {
                            before: segs[index as int].0,
                            after: segs[index as int].1,
                            aggregated: false,
                        },
                    ),
                )
            } else {
                None
            }
        },
        AggStep::Aggregate { left_is_agg, right_is_agg } => {
            if stack.len() >= 2 {
                let left = stack[stack.len() - 2];
                let right = stack[stack.len() - 1];
                if left.after == right.before && left.aggregated == left_is_agg
                    && right.aggregated == right_is_agg {
                    Some(
                        stack.drop_last().drop_last().push(
                            ProofEntry { before: left.before, after: right.after, aggregated: true },
                        ),
                    )
                } else {
                    None
                }
            } else {
                None
            }
        },
        AggStep::Finalize => {
            if stack.len() == 1 {
                Some(stack)
            } else {
                None
            }
        },
    }
}

/// The stack after running `plan` from an empty stack.
pub open spec fn run_plan<S>(plan: Seq<AggStep>, segs: Seq<(S, S)>) -> Option<Seq<ProofEntry<S>>>
    decreases plan.len(),
{
    if plan.len() == 0 {
        Some(Seq::empty())
    } else {
        match run_plan(plan.drop_last(), segs) {
            Some(stack) => apply_step(stack, plan.last(), segs),
            None => None,
        }
    }
}

/// Index of the first segment that belongs to a pair: an even count seeds the
/// running aggregate with segments 0 and 1, an odd count with segment 0 alone.
pub open spec fn first_pair_index(n: nat) -> nat {
    if n % 2 == 0 {
        2
    } else {
        1
    }
}

/// Number of pairs folded into the running aggregate after the seed.
pub open spec fn pair_count(n: nat) -> nat {
    ((n - first_pair_index(n)) / 2) as nat
}

pub open spec fn seed_steps(n: nat) -> Seq<AggStep> {
    if n % 2 == 0 {
        seq![
            AggStep::ProveSegment { index: 0, with_assumptions: true },
            AggStep::ProveSegment { index: 1, with_assumptions: true },
            AggStep::Aggregate { left_is_agg: false, right_is_agg: false },
        ]
    } else {
        seq![AggStep::ProveSegment { index: 0, with_assumptions: true }]
    }
}

/// Whether the running aggregate is itself an aggregate after `k` pairs.
pub open spec fn running_is_agg(n: nat, k: nat) -> bool {
    n % 2 == 0 || k > 0
}

pub open spec fn pair_steps(first: nat, left_is_agg: bool) -> Seq<AggStep> {
    seq![
        AggStep::ProveSegment { index: first as usize, with_assumptions: false },
        AggStep::ProveSegment { index: (first + 1) as usize, with_assumptions: false },
        AggStep::Aggregate { left_is_agg: false, right_is_agg: false },
        AggStep::Aggregate { left_is_agg: left_is_agg, right_is_agg: true },
    ]
}

/// The seed followed by the first `k` pairs.
pub open spec fn steps_through_pair(n: nat, k: nat) -> Seq<AggStep>
    decreases k,
{
    if k == 0 {
        seed_steps(n)
    } else {
        steps_through_pair(n, (k - 1) as nat) + pair_steps(
            (first_pair_index(n) + 2 * (k - 1)) as nat,
            running_is_agg(n, (k - 1) as nat),
        )
    }
}

/// The whole aggregation tree for `n` segments.
pub open spec fn spec_aggregation_plan(n: nat) -> Seq<AggStep> {
    if n > 1 {
        steps_through_pair(n, pair_count(n)).push(AggStep::Finalize)
    } else {
        steps_through_pair(n, pair_count(n))
    }
}

/// Number of aggregation calls in a plan.
pub open spec fn aggregate_calls(plan: Seq<AggStep>) -> nat
    decreases plan.len(),
{
    if plan.len() == 0 {
        0
    } else {
        aggregate_calls(plan.drop_last()) + if plan.last() is Aggregate {
            1nat
        } else {
            0nat
        }
    }
}

/// The order in which the backend proves, aggregates and finalizes the
/// segments of a run split into `segment_count` segments.
pub fn aggregation_plan(segment_count: usize) -> (plan: Vec<AggStep>)
    requires
        segment_count >= 1,
    ensures
        plan@ == spec_aggregation_plan(segment_count as nat),
{
    let n = segment_count;
    let mut plan: Vec<AggStep> = Vec::new();
    plan.push(AggStep::ProveSegment { index: 0, with_assumptions: true });
    let mut next: usize = 1;
    if n % 2 == 0 {
        plan.push(AggStep::ProveSegment { index: 1, with_assumptions: true });
        plan.push(AggStep::Aggregate { left_is_agg: false, right_is_agg: false });
        next = 2;
    }
    assert(plan@ == seed_steps(n as nat));
    let pairs: usize = (n - next) / 2;
    let mut k: usize = 0;
    let mut is_agg: bool = n % 2 == 0;
    while k < pairs
        invariant
            n == segment_count,
            n >= 1,
            next == first_pair_index(n as nat) + 2 * k,
            pairs == pair_count(n as nat),
            k <= pairs,
            is_agg == running_is_agg(n as nat, k as nat),
            plan@ == steps_through_pair(n as nat, k as nat),
        decreases pairs - k,
    {
        plan.push(AggStep::ProveSegment { index: next, with_assumptions: false });
        plan.push(AggStep::ProveSegment { index: next + 1, with_assumptions: false });
        plan.push(AggStep::Aggregate { left_is_agg: false, right_is_agg: false });
        plan.push(AggStep::Aggregate { left_is_agg: is_agg, right_is_agg: true });
        assert(plan@ == steps_through_pair(n as nat, (k + 1) as nat));
        is_agg = true;
        next = next + 2;
        k = k + 1;
    }
    if n > 1 {
        plan.push(AggStep::Finalize);
    }
    plan
}

proof fn lemma_run_push<S>(plan: Seq<AggStep>, step: AggStep, segs: Seq<(S, S)>)
    ensures
        run_plan(plan.push(step), segs) == match run_plan(plan, segs) {
            Some(stack) => apply_step(stack, step, segs),
            None => None,
        },
        aggregate_calls(plan.push(step)) == aggregate_calls(plan) + if step is Aggregate {
            1nat
        } else {
            0nat
        },
{
    assert(plan.push(step).drop_last() =~= plan);
}

proof fn lemma_run_through_pair<S>(n: nat, k: nat, segs: Seq<(S, S)>)
    requires
        n >= 1,
        segs.len() == n,
        n <= usize::MAX,
        chained(segs),
        first_pair_index(n) + 2 * k <= n,
    ensures
        run_plan(steps_through_pair(n, k), segs) == Some(
            seq![
                ProofEntry {
                    before: segs[0].0,
                    after: segs[first_pair_index(n) + 2 * k - 1].1,
                    aggregated: running_is_agg(n, k),
                },
            ],
        ),
        aggregate_calls(steps_through_pair(n, k)) == first_pair_index(n) - 1 + 2 * k,
    decreases k,
{
    if k == 0 {
        let e: Seq<AggStep> = Seq::empty();
        assert(run_plan(e, segs) == Some(Seq::<ProofEntry<S>>::empty()));
        assert(aggregate_calls(e) == 0);
        let first_step = AggStep::ProveSegment { index: 0, with_assumptions: true };
        lemma_run_push(e, first_step, segs);
        if n % 2 == 0 {
            let second_step = AggStep::ProveSegment { index: 1, with_assumptions: true };
            let a = AggStep::Aggregate { left_is_agg: false, right_is_agg: false };
            lemma_run_push(e.push(first_step), second_step, segs);
            lemma_run_push(e.push(first_step).push(second_step), a, segs);
            assert(seed_steps(n) =~= e.push(first_step).push(second_step).push(a));
            assert(segs[0].1 == segs[1].0);
            let stack = run_plan(e.push(first_step).push(second_step), segs).unwrap();
            assert(stack.drop_last().drop_last() =~= Seq::<ProofEntry<S>>::empty());
            assert(run_plan(seed_steps(n), segs).unwrap() =~= seq![
                ProofEntry { before: segs[0].0, after: segs[1].1, aggregated: true },
            ]);
        } else {
            assert(seed_steps(n) =~= e.push(first_step));
            assert(run_plan(seed_steps(n), segs).unwrap() =~= seq![
                ProofEntry { before: segs[0].0, after: segs[0].1, aggregated: false },
            ]);
        }
    } else {
        let km = (k - 1) as nat;
        lemma_run_through_pair(n, km, segs);
        let f: int = first_pair_index(n) + 2 * km as int;
        assert(steps_through_pair(n, k) == steps_through_pair(n, km) + pair_steps(
            f as nat,
            running_is_agg(n, km),
        ));
        lemma_run_pair(steps_through_pair(n, km), f, running_is_agg(n, km), segs[0].0, segs);
    }
}

proof fn lemma_run_pair<S>(prev: Seq<AggStep>, f: int, is_agg: bool, start: S, segs: Seq<(S, S)>)
    requires
        1 <= f,
        f + 2 <= segs.len() <= usize::MAX,
        chained(segs),
        run_plan(prev, segs) == Some(
            seq![ProofEntry { before: start, after: segs[f - 1].1, aggregated: is_agg }],
        ),
    ensures
        run_plan(prev + pair_steps(f as nat, is_agg), segs) == Some(
            seq![ProofEntry { before: start, after: segs[f + 1].1, aggregated: true }],
        ),
        aggregate_calls(prev + pair_steps(f as nat, is_agg)) == aggregate_calls(prev) + 2,
{
    let q0 = AggStep::ProveSegment { index: f as usize, with_assumptions: false };
    let q1 = AggStep::ProveSegment { index: (f + 1) as usize, with_assumptions: false };
    let q2 = AggStep::Aggregate { left_is_agg: false, right_is_agg: false };
    let q3 = AggStep::Aggregate { left_is_agg: is_agg, right_is_agg: true };
    let plan_a = prev.push(q0);
    let plan_b = plan_a.push(q1);
    let plan_c = plan_b.push(q2);
    assert(prev + pair_steps(f as nat, is_agg) =~= plan_c.push(q3));
    let agg = ProofEntry { before: start, after: segs[f - 1].1, aggregated: is_agg };
    let e0 = ProofEntry { before: segs[f].0, after: segs[f].1, aggregated: false };
    let e1 = ProofEntry { before: segs[f + 1].0, after: segs[f + 1].1, aggregated: false };
    lemma_run_push(prev, q0, segs);
    assert(run_plan(plan_a, segs).unwrap() =~= seq![agg, e0]);
    lemma_run_push(plan_a, q1, segs);
    assert(run_plan(plan_b, segs).unwrap() =~= seq![agg, e0, e1]);
    assert(segs[f].1 == segs[f + 1].0);
    lemma_run_push(plan_b, q2, segs);
    let pair = ProofEntry { before: segs[f].0, after: segs[f + 1].1, aggregated: true };
    assert(seq![agg, e0, e1].drop_last().drop_last() =~= seq![agg]);
    assert(run_plan(plan_c, segs).unwrap() =~= seq![agg, pair]);
    assert(segs[f - 1].1 == segs[f].0);
    lemma_run_push(plan_c, q3, segs);
    assert(seq![agg, pair].drop_last().drop_last() =~= Seq::<ProofEntry<S>>::empty());
    assert(run_plan(plan_c.push(q3), segs).unwrap() =~= seq![
        ProofEntry { before: start, after: segs[f + 1].1, aggregated: true },
    ]);
}

/// For any number of segments whose ranges chain, the aggregation tree
/// leaves exactly one proof, spanning from the first segment's starting
/// state to the last segment's ending state, and makes one aggregation call
/// fewer than there are segments.
pub proof fn lemma_plan_spans_all_segments<S>(n: nat, segs: Seq<(S, S)>)
    requires
        1 <= n <= usize::MAX,
        segs.len() == n,
        chained(segs),
    ensures
        run_plan(spec_aggregation_plan(n), segs) == Some(
            seq![ProofEntry { before: segs[0].0, after: segs[n - 1].1, aggregated: n > 1 }],
        ),
        aggregate_calls(spec_aggregation_plan(n)) == n - 1,
{
    let k = pair_count(n);
    assert(first_pair_index(n) + 2 * k == n);
    lemma_run_through_pair(n, k, segs);
    if n > 1 {
        lemma_run_push(steps_through_pair(n, k), AggStep::Finalize, segs);
    }
}

} // verus!
