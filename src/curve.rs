use vstd::prelude::*;

use crate::fan::FanCurvePU;

verus! {

/// One fan's curve in one profile: eight (temperature, duty) points and
/// whether the driver follows this curve.
#[derive(Debug, Clone, Copy, PartialEq, Eq)]
pub struct CurveData {
    pub fan: FanCurvePU,
    /// Duty cycle of each point.
    pub pwm: [u8; 8],
    /// Temperature of each point.
    pub temp: [u8; 8],
    pub enabled: bool,
}

/// `c` with its enabled flag set to `enabled`.
pub open spec fn with_enabled(c: CurveData, enabled: bool) -> CurveData {
    CurveData { enabled: enabled, ..c }
}

/// The index of the first curve of `fan` in `curves`.
pub open spec fn is_first_of(curves: Seq<CurveData>, fan: FanCurvePU, k: int) -> bool {
    0 <= k < curves.len() && curves[k].fan == fan && forall|m: int|
        0 <= m < k ==> (#[trigger] curves[m]).fan != fan
}

/// Some curve in `curves` is for `fan`.
pub open spec fn has_fan(curves: Seq<CurveData>, fan: FanCurvePU) -> bool {
    exists|k: int| 0 <= k < curves.len() && (#[trigger] curves[k]).fan == fan
}

/// The index of the first curve of `fan`, or -1 where there is none.
pub open spec fn first_of(curves: Seq<CurveData>, fan: FanCurvePU) -> int {
    if exists|k: int| is_first_of(curves, fan, k) {
        choose|k: int| is_first_of(curves, fan, k)
    } else {
        -1
    }
}

/// No two curves are for the same fan.
pub open spec fn curve_fans_unique(curves: Seq<CurveData>) -> bool {
    forall|i: int, j: int| 0 <= i < j < curves.len() ==> curves[i].fan != curves[j].fan
}

/// The curves whose enabled flag is `enabled`, in their order.
pub open spec fn curves_in_state(curves: Seq<CurveData>, enabled: bool) -> Seq<CurveData>
    decreases curves.len(),
{
    if curves.len() == 0 {
        seq![]
    } else {
        let rest = curves_in_state(curves.drop_last(), enabled);
        if curves.last().enabled == enabled {
            rest.push(curves.last())
        } else {
            rest
        }
    }
}

/// The order in which curves are written to the device: every disabled
/// curve, then every enabled one, each group in collection order.
pub open spec fn write_sequence(curves: Seq<CurveData>) -> Seq<CurveData> {
    curves_in_state(curves, false) + curves_in_state(curves, true)
}

/// A first match is the only first match.
pub proof fn lemma_first_of(curves: Seq<CurveData>, fan: FanCurvePU, k: int)
    requires
        is_first_of(curves, fan, k),
    ensures
        first_of(curves, fan) == k,
{
    let c = choose|j: int| is_first_of(curves, fan, j);
    assert(is_first_of(curves, fan, c));
    if c < k {
        assert(curves[c].fan != fan);
    } else if k < c {
        assert(curves[k].fan != fan);
    }
}

/// Without a curve for `fan` there is no first match.
pub proof fn lemma_no_first_of(curves: Seq<CurveData>, fan: FanCurvePU)
    requires
        forall|m: int| 0 <= m < curves.len() ==> (#[trigger] curves[m]).fan != fan,
    ensures
        first_of(curves, fan) == -1,
        !has_fan(curves, fan),
{
    if exists|k: int| is_first_of(curves, fan, k) {
        let c = choose|k: int| is_first_of(curves, fan, k);
        assert(curves[c].fan == fan);
    }
}

/// In a collection with one curve per fan, the first curve of `fan` is the
/// one curve of `fan`; there is one exactly where some curve is for `fan`.
pub proof fn lemma_lookup_unique(curves: Seq<CurveData>, fan: FanCurvePU)
    requires
        curve_fans_unique(curves),
    ensures
        forall|k: int| 0 <= k < curves.len() && (#[trigger] curves[k]).fan == fan ==> first_of(curves, fan) == k,
        has_fan(curves, fan) <==> first_of(curves, fan) >= 0,
{
    assert forall|k: int| 0 <= k < curves.len() && (#[trigger] curves[k]).fan == fan implies first_of(
        curves,
        fan,
    ) == k by {
        assert forall|m: int| 0 <= m < k implies (#[trigger] curves[m]).fan != fan by {}
        lemma_first_of(curves, fan, k);
    }
    if has_fan(curves, fan) {
        let k = choose|k: int| 0 <= k < curves.len() && (#[trigger] curves[k]).fan == fan;
        assert(first_of(curves, fan) == k);
    } else {
        lemma_no_first_of(curves, fan);
    }
}

/// The index of the first curve of `fan`, or `curves.len()` where there is
/// none.
pub fn position_of(curves: &Vec<CurveData>, fan: FanCurvePU) -> (r: usize)
    ensures
        r <= curves@.len(),
        r < curves@.len() ==> r as int == first_of(curves@, fan),
        r == curves@.len() ==> first_of(curves@, fan) == -1 && !has_fan(curves@, fan),
{
    let mut i: usize = 0;
    while i < curves.len()
        invariant
            i <= curves@.len(),
            forall|m: int| 0 <= m < i ==> (#[trigger] curves@[m]).fan != fan,
        decreases curves.len() - i,
    {
        if curves[i].fan == fan {
            proof {
                lemma_first_of(curves@, fan, i as int);
            }
            return i;
        }
        i = i + 1;
    }
    proof {
        lemma_no_first_of(curves@, fan);
    }
    i
}

} // verus!
