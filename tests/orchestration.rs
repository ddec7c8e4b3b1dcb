use zkm_sdk::aggregation::{aggregation_plan, AggStep};
use zkm_sdk::segments::segment_count;

fn prove(index: usize, with_assumptions: bool) -> AggStep {
    AggStep::ProveSegment { index, with_assumptions }
}

fn agg(left_is_agg: bool, right_is_agg: bool) -> AggStep {
    AggStep::Aggregate { left_is_agg, right_is_agg }
}

/// Runs a plan on segment ranges, as the backend would, checking adjacency.
fn simulate(plan: &[AggStep], segs: &[(u64, u64)]) -> Option<Vec<(u64, u64, bool)>> {
    let mut stack: Vec<(u64, u64, bool)> = Vec::new();
    for step in plan {
        match *step {
            AggStep::ProveSegment { index, .. } => {
                let (b, a) = *segs.get(index)?;
                stack.push((b, a, false));
            }
            AggStep::Aggregate { left_is_agg, right_is_agg } => {
                let right = stack.pop()?;
                let left = stack.pop()?;
                if left.1 != right.0 || left.2 != left_is_agg || right.2 != right_is_agg {
                    return None;
                }
                stack.push((left.0, right.1, true));
            }
            AggStep::Finalize => {
                if stack.len() != 1 {
                    return None;
                }
            }
        }
    }
    Some(stack)
}

#[test]
fn segment_count_is_ceiling() {
    assert_eq!(segment_count(150000, 65536), 3);
    assert_eq!(segment_count(131072, 65536), 2);
    assert_eq!(segment_count(131073, 65536), 3);
    assert_eq!(segment_count(1, 65536), 1);
    assert_eq!(segment_count(0, 65536), 0);
    assert_eq!(segment_count(u64::MAX, 1), u64::MAX);
    assert_eq!(segment_count(u64::MAX, u32::MAX), 4294967297);
    assert_eq!(segment_count(u64::MAX - 1, u32::MAX), 4294967297);
    assert_eq!(segment_count(u64::MAX, u32::MAX - 1), 4294967299);
}

#[test]
fn zero_segment_size_is_one_segment() {
    assert_eq!(segment_count(150000, 0), 1);
    assert_eq!(segment_count(0, 0), 1);
}

#[test]
fn odd_count_seeds_with_first_segment_alone() {
    let n = segment_count(150000, 65536) as usize;
    assert_eq!(n, 3);
    let plan = aggregation_plan(n);
    assert_eq!(
        plan,
        vec![prove(0, true), prove(1, false), prove(2, false), agg(false, false), agg(false, true), AggStep::Finalize]
    );
    let segs = [(10, 11), (11, 12), (12, 13)];
    assert_eq!(simulate(&plan, &segs), Some(vec![(10, 13, true)]));
}

#[test]
fn even_count_seeds_with_first_pair() {
    let plan = aggregation_plan(4);
    assert_eq!(
        plan,
        vec![
            prove(0, true),
            prove(1, true),
            agg(false, false),
            prove(2, false),
            prove(3, false),
            agg(false, false),
            agg(true, true),
            AggStep::Finalize
        ]
    );
    assert_eq!(aggregation_plan(2), vec![prove(0, true), prove(1, true), agg(false, false), AggStep::Finalize]);
}

#[test]
fn single_segment_needs_no_aggregation() {
    assert_eq!(aggregation_plan(1), vec![prove(0, true)]);
    assert_eq!(simulate(&aggregation_plan(1), &[(7, 9)]), Some(vec![(7, 9, false)]));
}

#[test]
fn plan_spans_all_segments_for_many_counts() {
    for n in 1..40usize {
        let segs: Vec<(u64, u64)> = (0..n as u64).map(|i| (100 + i, 101 + i)).collect();
        let plan = aggregation_plan(n);
        let out = simulate(&plan, &segs).expect("plan applies");
        assert_eq!(out, vec![(100, 100 + n as u64, n > 1)]);
        let aggs = plan.iter().filter(|s| matches!(s, AggStep::Aggregate { .. })).count();
        assert_eq!(aggs, n - 1);
        let proved: Vec<usize> = plan
            .iter()
            .filter_map(|s| match s {
                AggStep::ProveSegment { index, .. } => Some(*index),
                _ => None,
            })
            .collect();
        assert_eq!(proved, (0..n).collect::<Vec<usize>>());
    }
}

#[test]
fn broken_chain_is_caught_by_simulation() {
    let plan = aggregation_plan(3);
    assert_eq!(simulate(&plan, &[(1, 2), (3, 4), (4, 5)]), None);
}
