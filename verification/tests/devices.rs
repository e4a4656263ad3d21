use syphon::metal_device::{check_device_compatibility, family_probe_order, gpu_family_name, validate_device_match};
use syphon::{recommended_high_performance_device, MetalDeviceInfo, SyphonError};

fn device(id: usize, name: &str, low_power: bool, unified: bool, default: bool) -> MetalDeviceInfo {
    MetalDeviceInfo::from_properties(id, name.to_string(), default, low_power, false, unified, 0, None)
}

#[test]
fn working_set_zero_means_unknown() {
    let d = MetalDeviceInfo::from_properties(7, "GPU".to_string(), true, false, true, true, 1 << 30, Some("Apple7".to_string()));
    assert_eq!(d.recommended_max_working_set_size, Some(1 << 30));
    assert_eq!(d.device_id, 7);
    assert!(d.is_removable);
    assert_eq!(device(7, "GPU", false, false, false).recommended_max_working_set_size, None);
}

#[test]
fn high_performance_is_not_low_power() {
    assert!(device(1, "M1", false, true, true).is_high_performance());
    assert!(device(2, "Radeon", false, false, false).is_high_performance());
    assert!(!device(3, "Intel", true, true, false).is_high_performance());
    assert!(!device(4, "Odd", true, false, false).is_high_performance());
}

#[test]
fn compatibility_same_device_or_same_family() {
    let mut a = device(1, "A", false, true, true);
    let mut b = device(2, "B", false, true, false);
    assert!(a.is_same_device(&a.clone()));
    assert!(!a.is_same_device(&b));
    assert!(!a.is_compatible_with(&b, true));
    a.gpu_family = Some("Apple7".to_string());
    b.gpu_family = Some("Apple7".to_string());
    assert!(a.is_compatible_with(&b, true));
    b.gpu_family = Some("Apple8".to_string());
    assert!(!a.is_compatible_with(&b, true));
    b.gpu_family = None;
    assert!(!a.is_compatible_with(&b, true));
    let same = device(1, "A again", true, false, false);
    assert!(a.is_compatible_with(&same, true));
}

#[test]
fn no_devices_are_compatible_off_macos() {
    let mut a = device(1, "A", false, true, true);
    a.gpu_family = Some("Apple7".to_string());
    let same = a.clone();
    assert!(a.is_compatible_with(&same, true));
    assert!(!a.is_compatible_with(&same, false));
}

#[test]
fn gpu_family_picks_highest_apple_family() {
    assert_eq!(gpu_family_name(&vec![1001, 1002, 1003, 1007]), Some("Apple7".to_string()));
    assert_eq!(gpu_family_name(&vec![1001]), Some("Apple1".to_string()));
    assert_eq!(gpu_family_name(&vec![1008, 1001]), Some("Apple8".to_string()));
    assert_eq!(gpu_family_name(&vec![1007, 5001]), Some("Mac2".to_string()));
    assert_eq!(gpu_family_name(&vec![5002]), Some("Mac1".to_string()));
    assert_eq!(gpu_family_name(&vec![5001, 5002]), Some("Mac2".to_string()));
    assert_eq!(gpu_family_name(&vec![]), None);
    assert_eq!(family_probe_order(), vec![1001, 1008, 1007, 1006, 1005, 1004, 1003, 1002, 5001, 5002]);
}

#[test]
fn recommendation_prefers_discrete_then_apple_silicon() {
    let devices = vec![
        device(1, "Intel", true, true, true),
        device(2, "M2", false, true, false),
        device(3, "Radeon", false, false, false),
    ];
    assert_eq!(recommended_high_performance_device(devices, None).unwrap().device_id, 3);
    let devices = vec![device(1, "Intel", true, true, false), device(2, "M2", false, true, false)];
    assert_eq!(recommended_high_performance_device(devices, None).unwrap().device_id, 2);
}

#[test]
fn recommendation_falls_back_to_default() {
    let devices = vec![device(1, "A", true, true, false), device(2, "B", true, true, true)];
    assert_eq!(recommended_high_performance_device(devices, None).unwrap().device_id, 2);
    let devices = vec![device(1, "A", true, true, false)];
    let fallback = device(9, "Default", true, true, true);
    assert_eq!(recommended_high_performance_device(devices, Some(fallback)).unwrap().device_id, 9);
    let devices = vec![device(1, "A", true, true, false)];
    assert!(recommended_high_performance_device(devices, None).is_none());
    assert!(recommended_high_performance_device(Vec::new(), Some(device(9, "D", false, true, true))).is_none());
}

#[test]
fn test_recommended_device() {
    if let Some(device) = recommended_high_performance_device(Vec::new(), None) {
        println!("Recommended high-performance device: {}", device.name);
        println!("Is high performance: {}", device.is_high_performance());
    } else {
        println!("No high-performance device found");
    }
}

#[test]
fn device_compatibility_checks() {
    assert_eq!(
        check_device_compatibility(0, true),
        Err(SyphonError::InvalidParameter("Device pointer is null".to_string()))
    );
    assert_eq!(
        check_device_compatibility(0x1000, false),
        Err(SyphonError::InvalidParameter("Device does not support required texture formats".to_string()))
    );
    assert_eq!(check_device_compatibility(0x1000, true), Ok(()));
}

#[test]
fn device_match_needs_both_devices() {
    assert_eq!(validate_device_match(0x10, 0x10), Ok(()));
    assert_eq!(validate_device_match(0x10, 0x20), Ok(()));
    assert_eq!(
        validate_device_match(0, 0x20),
        Err(SyphonError::InvalidParameter("Device pointer is null".to_string()))
    );
    assert_eq!(
        validate_device_match(0x10, 0),
        Err(SyphonError::InvalidParameter("Device pointer is null".to_string()))
    );
}

#[test]
fn recommended_device_is_high_performance_when_any_is() {
    let devices = vec![device(1, "Intel", true, true, true), device(2, "Other", false, true, false)];
    let d = recommended_high_performance_device(devices, None).unwrap();
    assert!(d.is_high_performance());
    assert_eq!(d.device_id, 2);
}
