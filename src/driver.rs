//! A model of the kernel driver's fan curve state, to state what writing a
//! profile does to it.
use vstd::prelude::*;

use crate::curve::{curve_fans_unique, curves_in_state, with_enabled, write_sequence, CurveData};
use crate::fan::{fans_unique, FanCurvePU};

verus! {

/// The driver's state after one curve is written to `dev`. Writing a curve
/// as disabled sets every fan's curve back to disabled first.
pub open spec fn write_curve(dev: Map<FanCurvePU, CurveData>, c: CurveData) -> Map<
    FanCurvePU,
    CurveData,
> {
    let cleared = if c.enabled {
        dev
    } else {
        Map::new(|f: FanCurvePU| dev.dom().contains(f), |f: FanCurvePU| with_enabled(dev[f], false))
    };
    cleared.insert(c.fan, c)
}

/// The driver's state after the curves `ws` are written in order.
pub open spec fn write_all(dev: Map<FanCurvePU, CurveData>, ws: Seq<CurveData>) -> Map<
    FanCurvePU,
    CurveData,
>
    decreases ws.len(),
{
    if ws.len() == 0 {
        dev
    } else {
        write_curve(write_all(dev, ws.drop_last()), ws.last())
    }
}

/// The curves read back from the driver for `fans`, in that order.
pub open spec fn read_curves(dev: Map<FanCurvePU, CurveData>, fans: Seq<FanCurvePU>) -> Seq<
    CurveData,
> {
    fans.map_values(|f: FanCurvePU| dev[f])
}

/// A write survives to the end when no later write is for its fan and no
/// later write of a disabled curve clears it, unless it is disabled itself.
proof fn lemma_write_survives(dev: Map<FanCurvePU, CurveData>, ws: Seq<CurveData>, k: int)
    requires
        0 <= k < ws.len(),
        curve_fans_unique(ws),
        forall|j: int| k < j < ws.len() ==> (#[trigger] ws[j]).enabled || !ws[k].enabled,
    ensures
        write_all(dev, ws).dom().contains(ws[k].fan),
        write_all(dev, ws)[ws[k].fan] == ws[k],
    decreases ws.len(),
{
    let prev = write_all(dev, ws.drop_last());
    if k < ws.len() - 1 {
        let rest = ws.drop_last();
        assert forall|j: int| k < j < rest.len() implies (#[trigger] rest[j]).enabled
            || !rest[k].enabled by {
            assert(rest[j] == ws[j]);
        }
        lemma_write_survives(dev, rest, k);
        assert(ws.last() == ws[ws.len() - 1]);
        assert(ws[k].fan != ws.last().fan);
        if !ws.last().enabled {
            assert(with_enabled(prev[ws[k].fan], false) == ws[k]);
        }
    }
}

/// The elements of `curves_in_state(c, e)` are elements of `c` in state `e`,
/// and every element of `c` in state `e` is one of them.
proof fn lemma_in_state_members(c: Seq<CurveData>, e: bool)
    ensures
        forall|k: int|
            0 <= k < curves_in_state(c, e).len() ==> exists|i: int|
                0 <= i < c.len() && c[i] == #[trigger] curves_in_state(c, e)[k],
        forall|k: int|
            0 <= k < curves_in_state(c, e).len() ==> (#[trigger] curves_in_state(c, e)[k]).enabled
                == e,
        forall|i: int|
            0 <= i < c.len() && (#[trigger] c[i]).enabled == e ==> exists|k: int|
                0 <= k < curves_in_state(c, e).len() && curves_in_state(c, e)[k] == c[i],
        curve_fans_unique(c) ==> curve_fans_unique(curves_in_state(c, e)),
    decreases c.len(),
{
    if c.len() > 0 {
        let d = c.drop_last();
        lemma_in_state_members(d, e);
        let rest = curves_in_state(d, e);
        let s = curves_in_state(c, e);
        assert forall|k: int| 0 <= k < s.len() implies exists|i: int|
            0 <= i < c.len() && c[i] == #[trigger] s[k] by {
            if k < rest.len() {
                let i = choose|i: int| 0 <= i < d.len() && d[i] == rest[k];
                assert(c[i] == s[k]);
            } else {
                assert(c[c.len() - 1] == s[k]);
            }
        }
        assert forall|i: int| 0 <= i < c.len() && (#[trigger] c[i]).enabled == e implies exists|
            k: int,
        | 0 <= k < s.len() && s[k] == c[i] by {
            if i < c.len() - 1 {
                assert(d[i] == c[i]);
                let k = choose|k: int| 0 <= k < rest.len() && rest[k] == d[i];
                assert(s[k] == c[i]);
            } else {
                assert(s[s.len() - 1] == c[i]);
            }
        }
        if curve_fans_unique(c) {
            assert(curve_fans_unique(d));
            assert forall|a: int, b: int| 0 <= a < b < s.len() implies s[a].fan != s[b].fan by {
                if b == rest.len() {
                    let i = choose|i: int| 0 <= i < d.len() && d[i] == rest[a];
                    assert(c[i] == s[a]);
                    assert(c[c.len() - 1] == s[b]);
                }
            }
        }
    }
}

/// In the write sequence every disabled curve comes before every enabled one.
proof fn lemma_disabled_first(c: Seq<CurveData>)
    ensures
        forall|i: int, j: int|
            0 <= i < write_sequence(c).len() && 0 <= j < write_sequence(c).len() && !(#[trigger] write_sequence(c)[i]).enabled
                && (#[trigger] write_sequence(c)[j]).enabled ==> i < j,
{
    lemma_in_state_members(c, false);
    lemma_in_state_members(c, true);
    let d = curves_in_state(c, false);
    let n = curves_in_state(c, true);
    let w = write_sequence(c);
    assert forall|i: int, j: int|
        0 <= i < w.len() && 0 <= j < w.len() && !(#[trigger] w[i]).enabled && (#[trigger] w[j]).enabled
            implies i < j by {
        if i >= d.len() {
            assert(w[i] == n[i - d.len()]);
        }
        if j < d.len() {
            assert(w[j] == d[j]);
        }
    }
}

/// Every curve of the write sequence is a curve of the collection.
proof fn lemma_written_from(c: Seq<CurveData>)
    ensures
        forall|k: int|
            0 <= k < write_sequence(c).len() ==> exists|i: int|
                0 <= i < c.len() && c[i] == #[trigger] write_sequence(c)[k],
{
    lemma_in_state_members(c, false);
    lemma_in_state_members(c, true);
    let d = curves_in_state(c, false);
    let n = curves_in_state(c, true);
    let w = write_sequence(c);
    assert forall|k: int| 0 <= k < w.len() implies exists|i: int|
        0 <= i < c.len() && c[i] == #[trigger] w[k] by {
        if k < d.len() {
            assert(w[k] == d[k]);
        } else {
            assert(w[k] == n[k - d.len()]);
        }
    }
}

/// Every curve of the collection is in the write sequence.
proof fn lemma_all_written(c: Seq<CurveData>)
    ensures
        forall|i: int|
            0 <= i < c.len() ==> exists|k: int|
                0 <= k < write_sequence(c).len() && write_sequence(c)[k] == #[trigger] c[i],
{
    lemma_in_state_members(c, false);
    lemma_in_state_members(c, true);
    let d = curves_in_state(c, false);
    let n = curves_in_state(c, true);
    let w = write_sequence(c);
    assert forall|i: int| 0 <= i < c.len() implies exists|k: int|
        0 <= k < w.len() && w[k] == #[trigger] c[i] by {
        if c[i].enabled {
            let k = choose|k: int| 0 <= k < n.len() && n[k] == c[i];
            assert(w[d.len() + k] == c[i]);
        } else {
            let k = choose|k: int| 0 <= k < d.len() && d[k] == c[i];
            assert(w[k] == c[i]);
        }
    }
}

/// With one curve per fan in the collection, the write sequence also has one
/// curve per fan.
proof fn lemma_written_unique(c: Seq<CurveData>)
    requires
        curve_fans_unique(c),
    ensures
        curve_fans_unique(write_sequence(c)),
{
    lemma_in_state_members(c, false);
    lemma_in_state_members(c, true);
    let d = curves_in_state(c, false);
    let n = curves_in_state(c, true);
    let w = write_sequence(c);
    assert forall|a: int, b: int| 0 <= a < b < w.len() implies w[a].fan != w[b].fan by {
        if a < d.len() && b >= d.len() {
            assert(w[a] == d[a]);
            assert(w[b] == n[b - d.len()]);
            let i = choose|i: int| 0 <= i < c.len() && c[i] == d[a];
            let j = choose|j: int| 0 <= j < c.len() && c[j] == n[b - d.len()];
            assert(c[i].enabled != c[j].enabled);
        } else if a < d.len() {
            assert(w[a] == d[a] && w[b] == d[b]);
        } else {
            assert(w[a] == n[a - d.len()] && w[b] == n[b - d.len()]);
        }
    }
}

/// In the write sequence every disabled curve comes before every enabled
/// one, the sequence holds exactly the collection's curves, and, where the
/// collection has one curve per fan, so does the sequence.
pub proof fn lemma_write_order(c: Seq<CurveData>)
    ensures
        forall|i: int, j: int|
            0 <= i < write_sequence(c).len() && 0 <= j < write_sequence(c).len() && !(#[trigger] write_sequence(c)[i]).enabled
                && (#[trigger] write_sequence(c)[j]).enabled ==> i < j,
        write_sequence(c).len() == c.len(),
        forall|k: int|
            0 <= k < write_sequence(c).len() ==> exists|i: int|
                0 <= i < c.len() && c[i] == #[trigger] write_sequence(c)[k],
        forall|i: int|
            0 <= i < c.len() ==> exists|k: int|
                0 <= k < write_sequence(c).len() && write_sequence(c)[k] == #[trigger] c[i],
        curve_fans_unique(c) ==> curve_fans_unique(write_sequence(c)),
{
    lemma_disabled_first(c);
    lemma_in_state_len(c);
    lemma_written_from(c);
    lemma_all_written(c);
    if curve_fans_unique(c) {
        lemma_written_unique(c);
    }
}

proof fn lemma_in_state_len(c: Seq<CurveData>)
    ensures
        curves_in_state(c, false).len() + curves_in_state(c, true).len() == c.len(),
    decreases c.len(),
{
    if c.len() > 0 {
        lemma_in_state_len(c.drop_last());
    }
}

/// Curves read from the driver, written back in write order and read again,
/// come back as they were: writing the disabled curves before the enabled
/// ones loses no enabled flag.
pub proof fn lemma_write_then_read(dev: Map<FanCurvePU, CurveData>, fans: Seq<FanCurvePU>)
    requires
        fans_unique(fans),
        forall|i: int| 0 <= i < fans.len() ==> dev.dom().contains(#[trigger] fans[i]),
        forall|i: int| 0 <= i < fans.len() ==> dev[#[trigger] fans[i]].fan == fans[i],
    ensures
        read_curves(write_all(dev, write_sequence(read_curves(dev, fans))), fans) == read_curves(
            dev,
            fans,
        ),
{
    let first = read_curves(dev, fans);
    let w = write_sequence(first);
    let after = write_all(dev, w);
    assert(curve_fans_unique(first)) by {
        assert forall|a: int, b: int| 0 <= a < b < first.len() implies first[a].fan
            != first[b].fan by {
            assert(first[a] == dev[fans[a]] && first[b] == dev[fans[b]]);
        }
    }
    lemma_disabled_first(first);
    lemma_all_written(first);
    lemma_written_unique(first);
    assert forall|i: int| 0 <= i < fans.len() implies #[trigger] read_curves(after, fans)[i]
        == first[i] by {
        assert(first[i] == dev[fans[i]]);
        let k = choose|k: int| 0 <= k < w.len() && w[k] == #[trigger] first[i];
        assert forall|j: int| k < j < w.len() implies (#[trigger] w[j]).enabled
            || !w[k].enabled by {
            if !w[j].enabled && w[k].enabled {
                assert(j < k);
            }
        }
        lemma_write_survives(dev, w, k);
    }
    assert(read_curves(after, fans) =~= first);
}

} // verus!
