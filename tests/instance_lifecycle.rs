use vk_instance::{adapters_or_none, Instance, InstanceError, InstanceFlags, Platform, TeardownStep, API_VERSION_1_0};

const API_VERSION_1_1: u32 = (1 << 22) | (1 << 12);
const HEADER_VERSION_1_2: u32 = (1 << 22) | (2 << 12) | 191;

fn strings(v: &[&str]) -> Vec<String> {
    v.iter().map(|s| s.to_string()).collect()
}

#[test]
fn from_raw_rejects_1_0_without_storage_class() {
    let flags = InstanceFlags { debug: true, validation: true };
    let r = Instance::from_raw(API_VERSION_1_0, strings(&["VK_KHR_surface", "VK_EXT_debug_utils"]), flags);
    assert!(matches!(r, Err(InstanceError)));
    let r = Instance::from_raw(API_VERSION_1_0, Vec::new(), flags);
    assert!(matches!(r, Err(InstanceError)));
}

#[test]
fn from_raw_registers_diagnostics_only_with_extension() {
    let flags = InstanceFlags { debug: true, validation: false };
    let inst = Instance::from_raw(API_VERSION_1_1, strings(&["VK_EXT_debug_utils"]), flags).unwrap();
    assert!(inst.has_diagnostics);
    assert!(!inst.has_properties2);
    assert_eq!(inst.extensions, strings(&["VK_EXT_debug_utils"]));
    let inst = Instance::from_raw(
        API_VERSION_1_0,
        strings(&["VK_KHR_storage_buffer_storage_class", "VK_KHR_get_physical_device_properties2"]),
        flags,
    )
    .unwrap();
    assert!(!inst.has_diagnostics);
    assert!(inst.has_properties2);
}

#[test]
fn teardown_unregisters_diagnostics_before_instance() {
    let flags = InstanceFlags { debug: true, validation: false };
    let inst = Instance::from_raw(API_VERSION_1_1, strings(&["VK_EXT_debug_utils"]), flags).unwrap();
    assert_eq!(
        inst.teardown_steps(),
        vec![TeardownStep::UnregisterDiagnostics, TeardownStep::DestroyInstance]
    );
    let inst = Instance::from_raw(API_VERSION_1_1, Vec::new(), flags).unwrap();
    assert_eq!(inst.teardown_steps(), vec![TeardownStep::DestroyInstance]);
}

#[test]
fn init_without_validation_layer_still_succeeds() {
    let flags = InstanceFlags { debug: false, validation: true };
    let exts = strings(&["VK_KHR_surface", "VK_KHR_xlib_surface", "VK_KHR_get_physical_device_properties2"]);
    let plan = Instance::plan_init(
        flags,
        Ok(Some(API_VERSION_1_1)),
        Ok(exts),
        Ok(strings(&["VK_LAYER_LUNARG_api_dump"])),
        HEADER_VERSION_1_2,
        Platform::Unix,
    )
    .unwrap();
    assert!(plan.layers.is_empty());
    assert_eq!(plan.missing_layers, strings(&["VK_LAYER_KHRONOS_validation"]));
    assert_eq!(
        plan.extensions,
        strings(&["VK_KHR_surface", "VK_KHR_xlib_surface", "VK_KHR_get_physical_device_properties2"])
    );
    assert_eq!(plan.missing_extensions, strings(&["VK_KHR_xcb_surface", "VK_KHR_wayland_surface"]));
    assert_eq!(plan.api_version, API_VERSION_1_1);
    let names = plan.enabled_names();
    assert!(!names.contains(&"VK_LAYER_KHRONOS_validation".to_string()));
    let inst = Instance::from_raw(plan.driver_api_version, plan.extensions, flags).unwrap();
    assert!(!inst.extensions.contains(&"VK_LAYER_KHRONOS_validation".to_string()));
}

#[test]
fn init_plan_errors() {
    let flags = InstanceFlags { debug: false, validation: false };
    let exts = strings(&["VK_KHR_surface"]);
    assert!(Instance::plan_init(flags, Err(-1), Ok(exts.clone()), Ok(Vec::new()), HEADER_VERSION_1_2, Platform::Unix).is_err());
    // No version answer means API 1.0, which needs the storage-buffer-class extension.
    assert!(Instance::plan_init(flags, Ok(None), Ok(exts), Ok(Vec::new()), HEADER_VERSION_1_2, Platform::Unix).is_err());
    // A failed extension enumeration on API 1.0 leaves the mandatory extension missing.
    assert!(Instance::plan_init(flags, Ok(None), Err(-1), Ok(Vec::new()), HEADER_VERSION_1_2, Platform::Unix).is_err());
}

#[test]
fn failed_enumerations_count_as_nothing_available() {
    let flags = InstanceFlags { debug: true, validation: true };
    let plan = Instance::plan_init(flags, Ok(Some(API_VERSION_1_1)), Err(-1), Err(-1), HEADER_VERSION_1_2, Platform::Windows)
        .unwrap();
    assert!(plan.extensions.is_empty());
    assert_eq!(
        plan.missing_extensions,
        strings(&["VK_KHR_surface", "VK_KHR_win32_surface", "VK_EXT_debug_utils", "VK_KHR_get_physical_device_properties2"])
    );
    assert!(plan.layers.is_empty());
    assert_eq!(plan.missing_layers, strings(&["VK_LAYER_KHRONOS_validation"]));
    let exts = strings(&["VK_KHR_surface"]);
    let plan = Instance::plan_init(flags, Ok(Some(API_VERSION_1_1)), Ok(exts.clone()), Err(-1), HEADER_VERSION_1_2, Platform::Unix)
        .unwrap();
    assert_eq!(plan.extensions, exts);
    assert!(plan.layers.is_empty());
}

#[test]
fn init_plan_caps_api_version_at_header() {
    let flags = InstanceFlags { debug: false, validation: false };
    let newer = (1 << 22) | (3 << 12);
    let plan = Instance::plan_init(flags, Ok(Some(newer)), Ok(Vec::new()), Ok(Vec::new()), HEADER_VERSION_1_2, Platform::Other)
        .unwrap();
    assert_eq!(plan.driver_api_version, newer);
    assert_eq!(plan.api_version, HEADER_VERSION_1_2);
    assert!(plan.extensions.is_empty());
}

#[test]
fn failed_adapter_listing_is_empty() {
    assert_eq!(adapters_or_none(Err(-3)), Vec::<u64>::new());
    assert_eq!(adapters_or_none(Ok(vec![7, 9])), vec![7, 9]);
}
