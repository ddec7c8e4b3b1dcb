use vstd::prelude::*;

verus! {

/// Number of segments a run of `total_steps` steps is split into when each
/// segment holds at most `seg_size` steps; a size of zero keeps the whole run
/// in one segment.
pub open spec fn spec_segment_count(total_steps: nat, seg_size: nat) -> nat {
    if seg_size == 0 {
        1
    } else {
        ((total_steps + seg_size - 1) / (seg_size as int)) as nat
    }
}

/// The segment count of a run, as the execution engine derives it.
pub fn segment_count(total_steps: u64, seg_size: u32) -> (r: u64)
    ensures
        r == spec_segment_count(total_steps as nat, seg_size as nat),
{
    if seg_size == 0 {
        return 1;
    }
    let s = seg_size as u64;
    let q = total_steps / s;
    let rem = total_steps % s;
    proof {
        lemma_ceil_div(total_steps as int, s as int);
    }
    if rem != 0 {
        assert(q < total_steps);
        q + 1
    } else {
        q
    }
}

proof fn lemma_ceil_div(t: int, s: int)
    requires
        t >= 0,
        s > 0,
    ensures
        t % s != 0 ==> (t + s - 1) / s == t / s + 1,
        t % s == 0 ==> (t + s - 1) / s == t / s,
        t / s * s <= t,
        t / s <= t,
        t % s != 0 ==> t / s < t,
{
    assert(t == s * (t / s) + t % s) by (nonlinear_arith)
        requires s > 0;
    assert(0 <= t % s < s) by (nonlinear_arith)
        requires s > 0;
    assert(t / s >= 0) by (nonlinear_arith)
        requires s > 0, t >= 0;
    assert(t / s <= t) by (nonlinear_arith)
        requires s > 0, t >= 0;
    let q = t / s;
    let r = t % s;
    assert(q * s <= t) by (nonlinear_arith)
        requires t == s * q + r, r >= 0;
    if r != 0 && q == t {
        assert(s * q + r > t) by (nonlinear_arith)
            requires s > 0, q == t, r > 0, t >= 0;
    }
    if r != 0 {
        assert(t + s - 1 == (q + 1) * s + (r - 1)) by (nonlinear_arith)
            requires t == s * q + r;
        assert((t + s - 1) / s == q + 1) by {
            vstd::arithmetic::div_mod::lemma_fundamental_div_mod_converse(
                t + s - 1, s, q + 1, r - 1);
        }
    } else {
        assert(t + s - 1 == q * s + (s - 1)) by (nonlinear_arith)
            requires t == s * q + r, r == 0;
        assert((t + s - 1) / s == q) by {
            vstd::arithmetic::div_mod::lemma_fundamental_div_mod_converse(
                t + s - 1, s, q, s - 1);
        }
    }
}

/// With a positive segment size the count is the ceiling of
/// `total_steps / seg_size`: the segments cover every step, and one segment
/// fewer would not.
pub proof fn lemma_segment_count_is_ceiling(total_steps: nat, seg_size: nat)
    requires
        seg_size > 0,
    ensures
        spec_segment_count(total_steps, seg_size) * seg_size >= total_steps,
        spec_segment_count(total_steps, seg_size) == 0
            || (spec_segment_count(total_steps, seg_size) - 1) * seg_size < total_steps,
{
    let t = total_steps as int;
    let s = seg_size as int;
    lemma_ceil_div(t, s);
    let c = (t + s - 1) / s;
    let q = t / s;
    let r = t % s;
    assert(t == s * q + r) by (nonlinear_arith)
        requires s > 0, q == t / s, r == t % s;
    assert(0 <= r < s) by (nonlinear_arith)
        requires s > 0, r == t % s;
    if r != 0 {
        assert(c * s >= t && (c - 1) * s < t) by (nonlinear_arith)
            requires c == q + 1, t == s * q + r, 0 < r < s;
    } else {
        assert(c * s >= t && (c == 0 || (c - 1) * s < t)) by (nonlinear_arith)
            requires c == q, t == s * q + r, r == 0, s > 0;
    }
}

/// A segment size of zero keeps the whole run in a single segment.
pub proof fn lemma_zero_seg_size_is_one_segment(total_steps: nat)
    ensures
        spec_segment_count(total_steps, 0) == 1,
{
}

} // verus!
