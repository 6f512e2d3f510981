use std::collections::HashMap;

use rog_profiles::curve::CurveData;
use rog_profiles::error::ProfileError;
use rog_profiles::fan::FanCurvePU;
use rog_profiles::profiles::{FanCurveProfiles, PlatformProfile, CURVE_CONTROL_MODE};

fn curve(fan: FanCurvePU, base: u8, enabled: bool) -> CurveData {
    let mut temp = [0u8; 8];
    let mut pwm = [0u8; 8];
    for i in 0..8 {
        temp[i] = 30 + 10 * i as u8;
        pwm[i] = base + 5 * i as u8;
    }
    CurveData { fan, pwm, temp, enabled }
}

fn names(list: &[&str]) -> Vec<String> {
    list.iter().map(|s| s.to_string()).collect()
}

fn fans_of(curves: &[CurveData]) -> Vec<FanCurvePU> {
    curves.iter().map(|c| c.fan).collect()
}

/// A stand-in for the driver: writing a disabled curve turns every fan's
/// curve off before storing it.
fn write_to(dev: &mut HashMap<u8, CurveData>, c: &CurveData) {
    if !c.enabled {
        for v in dev.values_mut() {
            v.enabled = false;
        }
    }
    dev.insert(char::from(c.fan) as u8, *c);
}

fn read_from(dev: &HashMap<u8, CurveData>, fans: &[FanCurvePU]) -> Vec<CurveData> {
    fans.iter().map(|f| dev[&(char::from(*f) as u8)]).collect()
}

#[test]
fn supported_fans_cpu_and_gpu() {
    let attrs = names(&["name", "pwm1_enable", "pwm2_enable", "pwm1_auto_point1_temp"]);
    assert_eq!(
        FanCurveProfiles::supported_fans(Some(&attrs)),
        Ok(vec![FanCurvePU::CPU, FanCurvePU::GPU])
    );
}

#[test]
fn supported_fans_without_node() {
    assert_eq!(FanCurveProfiles::supported_fans(None), Err(ProfileError::NotSupported));
}

#[test]
fn supported_fans_node_without_fans() {
    let attrs = names(&["name", "temp1_input"]);
    assert_eq!(FanCurveProfiles::supported_fans(Some(&attrs)), Err(ProfileError::NotSupported));
}

#[test]
fn load_without_fans_is_not_supported() {
    let mut store = FanCurveProfiles::default();
    store.balanced = vec![curve(FanCurvePU::CPU, 10, true)];
    let before = store.clone();
    assert_eq!(
        store.read_from_dev_profile(PlatformProfile::Balanced, Vec::new()),
        Err(ProfileError::NotSupported)
    );
    assert_eq!(store, before);
}

#[test]
fn load_replaces_only_the_selected_collection() {
    let mut store = FanCurveProfiles::new();
    store.custom = vec![curve(FanCurvePU::MID, 1, false)];
    let loaded = vec![curve(FanCurvePU::CPU, 20, true), curve(FanCurvePU::GPU, 40, false)];
    assert_eq!(store.read_from_dev_profile(PlatformProfile::Performance, loaded.clone()), Ok(()));
    assert_eq!(store.performance, loaded);
    assert!(store.balanced.is_empty());
    assert!(store.quiet.is_empty());
    assert_eq!(store.custom, vec![curve(FanCurvePU::MID, 1, false)]);
}

#[test]
fn balanced_load_then_write_order() {
    let attrs = names(&["pwm1_enable", "pwm2_enable"]);
    let fans = FanCurveProfiles::supported_fans(Some(&attrs)).unwrap();
    let read: Vec<CurveData> = fans.iter().map(|f| curve(*f, 50, true)).collect();
    let mut store = FanCurveProfiles::default();
    store.read_from_dev_profile(PlatformProfile::Balanced, read).unwrap();
    assert_eq!(store.get_fan_curves_for(PlatformProfile::Balanced).len(), 2);
    store.set_profile_fan_curve_enabled(PlatformProfile::Balanced, FanCurvePU::CPU, false);
    store.set_profile_fan_curve_enabled(PlatformProfile::Balanced, FanCurvePU::GPU, true);
    let order = store.write_profile_curve_to_platform(PlatformProfile::Balanced);
    assert_eq!(fans_of(&order), vec![FanCurvePU::CPU, FanCurvePU::GPU]);
}

#[test]
fn write_order_independent_of_storage_order() {
    let mut store = FanCurveProfiles::default();
    store.balanced = vec![curve(FanCurvePU::GPU, 50, true), curve(FanCurvePU::CPU, 50, false)];
    let order = store.write_profile_curve_to_platform(PlatformProfile::Balanced);
    assert_eq!(fans_of(&order), vec![FanCurvePU::CPU, FanCurvePU::GPU]);
}

#[test]
fn write_order_disabled_before_enabled() {
    let mut store = FanCurveProfiles::default();
    store.custom = vec![
        curve(FanCurvePU::MID, 1, true),
        curve(FanCurvePU::CPU, 2, false),
        curve(FanCurvePU::GPU, 3, true),
    ];
    let order = store.write_profile_curve_to_platform(PlatformProfile::Custom);
    assert_eq!(fans_of(&order), vec![FanCurvePU::CPU, FanCurvePU::MID, FanCurvePU::GPU]);
    assert_eq!(order[0], store.custom[1]);
    assert_eq!(order[1], store.custom[0]);
    assert_eq!(order[2], store.custom[2]);
    assert!(store.write_profile_curve_to_platform(PlatformProfile::Balanced).is_empty());
}

#[test]
fn load_write_load_round_trip() {
    let fans = vec![FanCurvePU::CPU, FanCurvePU::GPU, FanCurvePU::MID];
    let mut dev = HashMap::new();
    dev.insert(b'1', curve(FanCurvePU::CPU, 10, true));
    dev.insert(b'2', curve(FanCurvePU::GPU, 20, false));
    dev.insert(b'3', curve(FanCurvePU::MID, 30, true));
    let mut store = FanCurveProfiles::default();
    store.read_from_dev_profile(PlatformProfile::Quiet, read_from(&dev, &fans)).unwrap();
    let first = store.quiet.clone();
    for c in store.write_profile_curve_to_platform(PlatformProfile::Quiet) {
        write_to(&mut dev, &c);
    }
    store.read_from_dev_profile(PlatformProfile::Quiet, read_from(&dev, &fans)).unwrap();
    assert_eq!(store.quiet, first);
}

#[test]
fn set_all_curves_enabled() {
    let mut store = FanCurveProfiles::default();
    store.performance = vec![curve(FanCurvePU::CPU, 1, false), curve(FanCurvePU::GPU, 2, true)];
    store.balanced = vec![curve(FanCurvePU::CPU, 1, false)];
    store.set_profile_curves_enabled(PlatformProfile::Performance, true);
    assert!(store.performance.iter().all(|c| c.enabled));
    assert_eq!(store.performance[0].pwm, curve(FanCurvePU::CPU, 1, false).pwm);
    assert!(!store.balanced[0].enabled);
    store.set_profile_curves_enabled(PlatformProfile::Performance, false);
    assert!(store.performance.iter().all(|c| !c.enabled));
}

#[test]
fn set_fan_enabled_changes_one_curve() {
    let mut store = FanCurveProfiles::default();
    store.custom = vec![curve(FanCurvePU::CPU, 1, false), curve(FanCurvePU::GPU, 2, false)];
    store.set_profile_fan_curve_enabled(PlatformProfile::Custom, FanCurvePU::GPU, true);
    assert!(!store.custom[0].enabled);
    assert!(store.custom[1].enabled);
}

#[test]
fn set_fan_enabled_missing_fan_is_no_op() {
    let mut store = FanCurveProfiles::default();
    store.balanced = vec![curve(FanCurvePU::CPU, 1, false), curve(FanCurvePU::GPU, 2, true)];
    let before = store.clone();
    store.set_profile_fan_curve_enabled(PlatformProfile::Balanced, FanCurvePU::MID, true);
    assert_eq!(store, before);
    store.set_profile_fan_curve_enabled(PlatformProfile::Performance, FanCurvePU::CPU, true);
    assert_eq!(store, before);
}

#[test]
fn get_curve_present_and_absent() {
    let mut store = FanCurveProfiles::default();
    store.balanced = vec![curve(FanCurvePU::CPU, 1, false), curve(FanCurvePU::GPU, 2, true)];
    assert_eq!(
        store.get_fan_curve_for(&PlatformProfile::Balanced, FanCurvePU::GPU),
        Some(&curve(FanCurvePU::GPU, 2, true))
    );
    assert_eq!(store.get_fan_curve_for(&PlatformProfile::Balanced, FanCurvePU::MID), None);
    assert_eq!(store.get_fan_curve_for(&PlatformProfile::Custom, FanCurvePU::CPU), None);
}

#[test]
fn quiet_and_low_power_share_a_collection() {
    let mut store = FanCurveProfiles::default();
    store
        .read_from_dev_profile(PlatformProfile::LowPower, vec![curve(FanCurvePU::CPU, 7, false)])
        .unwrap();
    assert_eq!(store.quiet, vec![curve(FanCurvePU::CPU, 7, false)]);
    assert_eq!(
        store.get_fan_curves_for(PlatformProfile::Quiet),
        store.get_fan_curves_for(PlatformProfile::LowPower)
    );
    store.set_profile_fan_curve_enabled(PlatformProfile::Quiet, FanCurvePU::CPU, true);
    assert!(store.get_fan_curve_for(&PlatformProfile::LowPower, FanCurvePU::CPU).unwrap().enabled);
}

#[test]
fn save_curve_replaces_matching_entry() {
    let mut store = FanCurveProfiles::default();
    store.performance = vec![curve(FanCurvePU::CPU, 1, false), curve(FanCurvePU::GPU, 2, false)];
    let new_gpu = curve(FanCurvePU::GPU, 90, true);
    assert_eq!(store.save_fan_curve(new_gpu, PlatformProfile::Performance), Ok(()));
    assert_eq!(store.performance, vec![curve(FanCurvePU::CPU, 1, false), new_gpu]);
}

#[test]
fn save_curve_never_inserts() {
    let mut store = FanCurveProfiles::default();
    store.performance = vec![curve(FanCurvePU::CPU, 1, false)];
    let before = store.clone();
    assert_eq!(store.save_fan_curve(curve(FanCurvePU::MID, 9, true), PlatformProfile::Performance), Ok(()));
    assert_eq!(store, before);
}

#[test]
fn defaults_reset_writes() {
    let writes = FanCurveProfiles::set_active_curve_to_defaults(&vec![FanCurvePU::CPU, FanCurvePU::MID]);
    assert_eq!(CURVE_CONTROL_MODE, "3");
    assert_eq!(
        writes,
        vec![
            ("pwm1_enable".to_string(), "3".to_string()),
            ("pwm3_enable".to_string(), "3".to_string())
        ]
    );
    assert!(FanCurveProfiles::set_active_curve_to_defaults(&Vec::new()).is_empty());
}
