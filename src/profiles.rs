use vstd::prelude::*;

use crate::curve::{
    curve_fans_unique, curves_in_state, first_of, has_fan, position_of, with_enabled, write_sequence,
    CurveData,
};
use crate::error::ProfileError;
use crate::fan::{detected_fans, enable_attr, fans_unique, FanCurvePU};
use vstd::string::StringExecFns;

verus! {

/// The platform's power profile, which selects a curve collection.
#[derive(Debug, Clone, Copy, PartialEq, Eq, Structural)]
pub enum PlatformProfile {
    Balanced,
    Performance,
    Quiet,
    LowPower,
    Custom,
}

/// The collection a profile selects: `Quiet` and `LowPower` share one.
pub open spec fn slot(p: PlatformProfile) -> int {
    match p {
        PlatformProfile::Balanced => 0,
        PlatformProfile::Performance => 1,
        PlatformProfile::Quiet | PlatformProfile::LowPower => 2,
        PlatformProfile::Custom => 3,
    }
}

/// `curves` with every enabled flag set to `enabled`.
pub open spec fn all_with_enabled(curves: Seq<CurveData>, enabled: bool) -> Seq<CurveData> {
    curves.map_values(|c: CurveData| with_enabled(c, enabled))
}

/// `curves` with the enabled flag of the first curve of `fan` set to
/// `enabled`; unchanged where no curve is for `fan`.
pub open spec fn fan_with_enabled(curves: Seq<CurveData>, fan: FanCurvePU, enabled: bool) -> Seq<
    CurveData,
> {
    let k = first_of(curves, fan);
    if k < 0 {
        curves
    } else {
        curves.update(k, with_enabled(curves[k], enabled))
    }
}

/// `curves` with the first curve of `curve.fan` replaced by `curve`;
/// unchanged where no curve is for that fan.
pub open spec fn curve_saved(curves: Seq<CurveData>, curve: CurveData) -> Seq<CurveData> {
    let k = first_of(curves, curve.fan);
    if k < 0 {
        curves
    } else {
        curves.update(k, curve)
    }
}

/// The curves of every fan, one collection per profile.
#[derive(Debug, Clone, PartialEq, Eq)]
pub struct FanCurveProfiles {
    pub balanced: Vec<CurveData>,
    pub performance: Vec<CurveData>,
    pub quiet: Vec<CurveData>,
    pub custom: Vec<CurveData>,
}

/// The value written to a fan's enable attribute to have the driver load its
/// default curve.
pub const CURVE_CONTROL_MODE: &'static str = "3";

impl FanCurveProfiles {
    /// The fans whose curves can be controlled, in the order CPU, GPU, MID.
    /// `node_attributes` holds the attribute names of the hwmon node that
    /// exposes custom fan curves, or nothing where no such node was found.
    pub fn supported_fans(node_attributes: Option<&Vec<String>>) -> (r: Result<
        Vec<FanCurvePU>,
        ProfileError,
    >)
        ensures
            match node_attributes {
                None => r == Err::<Vec<FanCurvePU>, ProfileError>(ProfileError::NotSupported),
                Some(attrs) => {
                    let fans = detected_fans(attrs@.map_values(|a: String| a@));
                    &&& fans.len() == 0 ==> r == Err::<Vec<FanCurvePU>, ProfileError>(
                        ProfileError::NotSupported,
                    )
                    &&& fans.len() > 0 ==> r is Ok && r->Ok_0@ == fans
                },
            },
            r is Ok ==> fans_unique(r->Ok_0@),
    {
        match node_attributes {
            None => Err(ProfileError::NotSupported),
            Some(attrs) => {
                let fans = FanCurvePU::which_fans(attrs);
                if fans.len() == 0 {
                    Err(ProfileError::NotSupported)
                } else {
                    Ok(fans)
                }
            },
        }
    }

    /// The attribute writes that reset `fans` to their default curves: each
    /// fan's enable attribute set to the curve control mode. After them the
    /// defaults are read back from the device.
    pub fn set_active_curve_to_defaults(fans: &Vec<FanCurvePU>) -> (r: Vec<(String, String)>)
        ensures
            r@.len() == fans@.len(),
            forall|i: int|
                0 <= i < r@.len() ==> (#[trigger] r@[i]).0@ == enable_attr(fans@[i]) && r@[i].1@
                    == seq!['3'],
    {
        proof {
            reveal_strlit("3");
        }
        let mut out: Vec<(String, String)> = Vec::new();
        let mut i: usize = 0;
        while i < fans.len()
            invariant
                i <= fans@.len(),
                out@.len() == i,
                CURVE_CONTROL_MODE@ =~= seq!['3'],
                forall|m: int|
                    0 <= m < i ==> (#[trigger] out@[m]).0@ == enable_attr(fans@[m]) && out@[m].1@
                        == seq!['3'],
            decreases fans.len() - i,
        {
            out.push((fans[i].enable_attribute(), String::from_str(CURVE_CONTROL_MODE)));
            i = i + 1;
        }
        out
    }

    /// The collection that `p` selects.
    pub open spec fn curves(&self, p: PlatformProfile) -> Seq<CurveData> {
        match p {
            PlatformProfile::Balanced => self.balanced@,
            PlatformProfile::Performance => self.performance@,
            PlatformProfile::Quiet | PlatformProfile::LowPower => self.quiet@,
            PlatformProfile::Custom => self.custom@,
        }
    }

    /// No collection holds two curves for one fan.
    pub open spec fn wf(&self) -> bool {
        curve_fans_unique(self.balanced@) && curve_fans_unique(self.performance@)
            && curve_fans_unique(self.quiet@) && curve_fans_unique(self.custom@)
    }

    /// `self` and `other` differ at most in the collection that `p` selects.
    pub open spec fn same_but(&self, other: &Self, p: PlatformProfile) -> bool {
        forall|q: PlatformProfile| slot(q) != slot(p) ==> #[trigger] self.curves(q) == other.curves(q)
    }

    /// A store with every collection empty.
    pub fn new() -> (r: Self)
        ensures
            r.wf(),
            forall|p: PlatformProfile| #[trigger] r.curves(p).len() == 0,
    {
        FanCurveProfiles {
            balanced: Vec::new(),
            performance: Vec::new(),
            quiet: Vec::new(),
            custom: Vec::new(),
        }
    }

    /// Replace the collection of `profile` with the curves read from the fan
    /// curve node, one for each fan it controls. No curve at all means that the
    /// node controls no fan: the store is left as it is.
    pub fn read_from_dev_profile(&mut self, profile: PlatformProfile, curves: Vec<CurveData>) -> (r:
        Result<(), ProfileError>)
        requires
            curve_fans_unique(curves@),
        ensures
            curves@.len() == 0 ==> r == Err::<(), ProfileError>(ProfileError::NotSupported),
            curves@.len() == 0 ==> *final(self) == *old(self),
            curves@.len() > 0 ==> r is Ok,
            curves@.len() > 0 ==> final(self).curves(profile) == curves@,
            curves@.len() > 0 ==> final(self).same_but(old(self), profile),
            old(self).wf() ==> final(self).wf(),
    {
        if curves.len() == 0 {
            return Err(ProfileError::NotSupported);
        }
        match profile {
            PlatformProfile::Balanced => self.balanced = curves,
            PlatformProfile::Performance => self.performance = curves,
            PlatformProfile::Quiet | PlatformProfile::LowPower => self.quiet = curves,
            PlatformProfile::Custom => self.custom = curves,
        }
        Ok(())
    }

    /// The curves of `profile` in the order in which they are to be written
    /// to the device: all disabled curves first, then all enabled ones. The
    /// driver sets every fan back to disabled whenever one fan is written as
    /// disabled, so an enabled curve written earlier would be lost.
    pub fn write_profile_curve_to_platform(&self, profile: PlatformProfile) -> (r: Vec<CurveData>)
        ensures
            r@ == write_sequence(self.curves(profile)),
    {
        let curves = self.get_fan_curves_for(profile);
        let mut out: Vec<CurveData> = Vec::new();
        let mut i: usize = 0;
        while i < curves.len()
            invariant
                i <= curves@.len(),
                curves@ == self.curves(profile),
                out@ == curves_in_state(curves@.subrange(0, i as int), false),
            decreases curves.len() - i,
        {
            proof {
                assert(curves@.subrange(0, i + 1).drop_last() =~= curves@.subrange(0, i as int));
            }
            if !curves[i].enabled {
                out.push(curves[i]);
            }
            i = i + 1;
        }
        let ghost first = out@;
        assert(curves@.subrange(0, curves@.len() as int) =~= curves@);
        let mut j: usize = 0;
        while j < curves.len()
            invariant
                j <= curves@.len(),
                curves@ == self.curves(profile),
                first == curves_in_state(curves@, false),
                out@ == first + curves_in_state(curves@.subrange(0, j as int), true),
            decreases curves.len() - j,
        {
            proof {
                assert(curves@.subrange(0, j + 1).drop_last() =~= curves@.subrange(0, j as int));
            }
            if curves[j].enabled {
                out.push(curves[j]);
                assert(out@ =~= first + curves_in_state(curves@.subrange(0, j + 1), true));
            }
            j = j + 1;
        }
        out
    }

    /// Set the enabled flag of every curve of `profile`.
    pub fn set_profile_curves_enabled(&mut self, profile: PlatformProfile, enabled: bool)
        ensures
            final(self).curves(profile) == all_with_enabled(old(self).curves(profile), enabled),
            final(self).same_but(old(self), profile),
            old(self).wf() ==> final(self).wf(),
    {
        match profile {
            PlatformProfile::Balanced => set_all_enabled(&mut self.balanced, enabled),
            PlatformProfile::Performance => set_all_enabled(&mut self.performance, enabled),
            PlatformProfile::Quiet | PlatformProfile::LowPower => set_all_enabled(
                &mut self.quiet,
                enabled,
            ),
            PlatformProfile::Custom => set_all_enabled(&mut self.custom, enabled),
        }
    }

    /// Set the enabled flag of the curve of `fan` in `profile`. Where the
    /// collection holds no curve for `fan`, nothing changes.
    pub fn set_profile_fan_curve_enabled(
        &mut self,
        profile: PlatformProfile,
        fan: FanCurvePU,
        enabled: bool,
    )
        ensures
            final(self).curves(profile) == fan_with_enabled(old(self).curves(profile), fan, enabled),
            final(self).same_but(old(self), profile),
            !has_fan(old(self).curves(profile), fan) ==> *final(self) == *old(self),
            old(self).wf() ==> final(self).wf(),
    {
        match profile {
            PlatformProfile::Balanced => set_fan_enabled(&mut self.balanced, fan, enabled),
            PlatformProfile::Performance => set_fan_enabled(&mut self.performance, fan, enabled),
            PlatformProfile::Quiet | PlatformProfile::LowPower => set_fan_enabled(
                &mut self.quiet,
                fan,
                enabled,
            ),
            PlatformProfile::Custom => set_fan_enabled(&mut self.custom, fan, enabled),
        }
    }

    /// The curves of `name`.
    pub fn get_fan_curves_for(&self, name: PlatformProfile) -> (r: &[CurveData])
        ensures
            r@ == self.curves(name),
    {
        match name {
            PlatformProfile::Balanced => self.balanced.as_slice(),
            PlatformProfile::Performance => self.performance.as_slice(),
            PlatformProfile::Quiet | PlatformProfile::LowPower => self.quiet.as_slice(),
            PlatformProfile::Custom => self.custom.as_slice(),
        }
    }

    /// The curve of `pu` in `name`, if that collection holds one.
    pub fn get_fan_curve_for(&self, name: &PlatformProfile, pu: FanCurvePU) -> (r: Option<
        &CurveData,
    >)
        ensures
            match r {
                Some(c) => first_of(self.curves(*name), pu) >= 0 && *c == self.curves(
                    *name,
                )[first_of(self.curves(*name), pu)],
                None => first_of(self.curves(*name), pu) == -1 && !has_fan(self.curves(*name), pu),
            },
    {
        let curves = match name {
            PlatformProfile::Balanced => &self.balanced,
            PlatformProfile::Performance => &self.performance,
            PlatformProfile::Quiet | PlatformProfile::LowPower => &self.quiet,
            PlatformProfile::Custom => &self.custom,
        };
        let k = position_of(curves, pu);
        if k < curves.len() {
            Some(&curves[k])
        } else {
            None
        }
    }

    /// Replace the curve of `curve.fan` in `profile` with `curve`. Where the
    /// collection holds no curve for that fan, nothing changes: a curve is
    /// never added here.
    pub fn save_fan_curve(&mut self, curve: CurveData, profile: PlatformProfile) -> (r: Result<
        (),
        ProfileError,
    >)
        ensures
            r is Ok,
            final(self).curves(profile) == curve_saved(old(self).curves(profile), curve),
            final(self).same_but(old(self), profile),
            !has_fan(old(self).curves(profile), curve.fan) ==> *final(self) == *old(self),
            old(self).wf() ==> final(self).wf(),
    {
        match profile {
            PlatformProfile::Balanced => save_curve(&mut self.balanced, curve),
            PlatformProfile::Performance => save_curve(&mut self.performance, curve),
            PlatformProfile::Quiet | PlatformProfile::LowPower => save_curve(&mut self.quiet, curve),
            PlatformProfile::Custom => save_curve(&mut self.custom, curve),
        }
        Ok(())
    }
}

impl Default for FanCurveProfiles {
    fn default() -> (r: Self)
        ensures
            r.wf(),
            forall|p: PlatformProfile| #[trigger] r.curves(p).len() == 0,
    {
        Self::new()
    }
}

/// `Quiet` and `LowPower` select one and the same collection: reading through
/// either gives the same curves, and a change made through one is a change
/// made through the other.
pub proof fn lemma_quiet_is_low_power(store: FanCurveProfiles, other: FanCurveProfiles)
    ensures
        slot(PlatformProfile::Quiet) == slot(PlatformProfile::LowPower),
        store.curves(PlatformProfile::Quiet) == store.curves(PlatformProfile::LowPower),
        store.same_but(&other, PlatformProfile::Quiet) == store.same_but(
            &other,
            PlatformProfile::LowPower,
        ),
{
}

/// Set the enabled flag of every curve.
fn set_all_enabled(curves: &mut Vec<CurveData>, enabled: bool)
    ensures
        final(curves)@ == all_with_enabled(old(curves)@, enabled),
        curve_fans_unique(old(curves)@) ==> curve_fans_unique(final(curves)@),
{
    let ghost start = curves@;
    let mut i: usize = 0;
    while i < curves.len()
        invariant
            i <= curves@.len(),
            curves@.len() == start.len(),
            forall|m: int| 0 <= m < i ==> #[trigger] curves@[m] == with_enabled(start[m], enabled),
            forall|m: int| i <= m < curves@.len() ==> #[trigger] curves@[m] == start[m],
        decreases curves.len() - i,
    {
        let mut c = curves[i];
        c.enabled = enabled;
        curves.set(i, c);
        i = i + 1;
    }
    assert(curves@ =~= all_with_enabled(start, enabled));
}

/// Set the enabled flag of the first curve of `fan`, if any.
fn set_fan_enabled(curves: &mut Vec<CurveData>, fan: FanCurvePU, enabled: bool)
    ensures
        final(curves)@ == fan_with_enabled(old(curves)@, fan, enabled),
        !has_fan(old(curves)@, fan) ==> *final(curves) == *old(curves),
        curve_fans_unique(old(curves)@) ==> curve_fans_unique(final(curves)@),
{
    let k = position_of(curves, fan);
    if k < curves.len() {
        let mut c = curves[k];
        c.enabled = enabled;
        curves.set(k, c);
    }
}

/// Replace the first curve of `curve.fan`, if any, with `curve`.
fn save_curve(curves: &mut Vec<CurveData>, curve: CurveData)
    ensures
        final(curves)@ == curve_saved(old(curves)@, curve),
        !has_fan(old(curves)@, curve.fan) ==> *final(curves) == *old(curves),
        curve_fans_unique(old(curves)@) ==> curve_fans_unique(final(curves)@),
{
    let k = position_of(curves, curve.fan);
    if k < curves.len() {
        curves.set(k, curve);
    }
}

} // verus!
