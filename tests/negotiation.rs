use vk_instance::negotiate::{
    contains_name, creation_names, extension_wish_list, partition_available, resolve_driver_version,
    select_layers,
};
use vk_instance::{Instance, InstanceError, InstanceFlags, Platform, API_VERSION_1_0};

const API_VERSION_1_2: u32 = (1 << 22) | (2 << 12);

fn strings(v: &[&str]) -> Vec<String> {
    v.iter().map(|s| s.to_string()).collect()
}

fn no_flags() -> InstanceFlags {
    InstanceFlags { debug: false, validation: false }
}

#[test]
fn wish_list_unix_debug_on_1_0() {
    let flags = InstanceFlags { debug: true, validation: false };
    let w = extension_wish_list(Platform::Unix, API_VERSION_1_0, flags);
    assert_eq!(
        w,
        strings(&[
            "VK_KHR_surface",
            "VK_KHR_xlib_surface",
            "VK_KHR_xcb_surface",
            "VK_KHR_wayland_surface",
            "VK_EXT_debug_utils",
            "VK_KHR_get_physical_device_properties2",
            "VK_KHR_storage_buffer_storage_class",
        ])
    );
}

#[test]
fn wish_list_windows_1_2() {
    let w = extension_wish_list(Platform::Windows, API_VERSION_1_2, no_flags());
    assert_eq!(
        w,
        strings(&["VK_KHR_surface", "VK_KHR_win32_surface", "VK_KHR_get_physical_device_properties2"])
    );
}

#[test]
fn required_extensions_keeps_only_reported() {
    let available = strings(&["VK_KHR_xcb_surface", "VK_KHR_surface", "VK_EXT_something_else"]);
    let flags = InstanceFlags { debug: true, validation: false };
    let r = Instance::required_extensions(&available, API_VERSION_1_2, flags, Platform::Unix).unwrap();
    assert_eq!(r, strings(&["VK_KHR_surface", "VK_KHR_xcb_surface"]));
    for name in &r {
        assert!(available.contains(name));
    }
}

#[test]
fn required_extensions_fails_on_1_0_without_storage_class() {
    let available = strings(&["VK_KHR_surface", "VK_KHR_get_physical_device_properties2"]);
    let r = Instance::required_extensions(&available, API_VERSION_1_0, no_flags(), Platform::Unix);
    assert_eq!(r, Err(InstanceError));
}

#[test]
fn required_extensions_accepts_1_0_with_storage_class() {
    let available = strings(&["VK_KHR_storage_buffer_storage_class", "VK_KHR_surface"]);
    let r = Instance::required_extensions(&available, API_VERSION_1_0, no_flags(), Platform::Other).unwrap();
    assert_eq!(r, strings(&["VK_KHR_surface", "VK_KHR_storage_buffer_storage_class"]));
}

#[test]
fn partition_reports_missing_in_order() {
    let wanted = strings(&["a", "b", "c", "d"]);
    let available = strings(&["d", "b"]);
    let (found, missing) = partition_available(&wanted, &available);
    assert_eq!(found, strings(&["b", "d"]));
    assert_eq!(missing, strings(&["a", "c"]));
}

#[test]
fn partition_empty_inputs() {
    let (found, missing) = partition_available(&Vec::new(), &strings(&["x"]));
    assert!(found.is_empty() && missing.is_empty());
    let (found, missing) = partition_available(&strings(&["x"]), &Vec::new());
    assert!(found.is_empty());
    assert_eq!(missing, strings(&["x"]));
}

#[test]
fn contains_name_finds_exact_match_only() {
    let list = strings(&["VK_KHR_surface"]);
    assert!(contains_name(&list, &"VK_KHR_surface".to_string()));
    assert!(!contains_name(&list, &"VK_KHR_surfac".to_string()));
}

#[test]
fn version_query_resolution() {
    assert_eq!(resolve_driver_version(Ok(Some(API_VERSION_1_2))), Ok(API_VERSION_1_2));
    assert_eq!(resolve_driver_version(Ok(None)), Ok(API_VERSION_1_0));
    assert_eq!(resolve_driver_version(Err(-3)), Err(InstanceError));
}

#[test]
fn validation_layer_selected_when_offered() {
    let flags = InstanceFlags { debug: false, validation: true };
    let (layers, missing) = select_layers(&strings(&["VK_LAYER_KHRONOS_validation"]), flags);
    assert_eq!(layers, strings(&["VK_LAYER_KHRONOS_validation"]));
    assert!(missing.is_empty());
    let (layers, missing) = select_layers(&strings(&["VK_LAYER_KHRONOS_validation"]), no_flags());
    assert!(layers.is_empty() && missing.is_empty());
}

#[test]
fn creation_names_put_layers_first() {
    let names = creation_names(&strings(&["L1", "L2"]), &strings(&["E1"]));
    assert_eq!(names, strings(&["L1", "L2", "E1"]));
}

#[test]
fn patch_levels_of_1_0_need_storage_class() {
    let patched = API_VERSION_1_0 + 5;
    let w = extension_wish_list(Platform::Other, patched, no_flags());
    assert_eq!(
        w,
        strings(&[
            "VK_KHR_surface",
            "VK_KHR_get_physical_device_properties2",
            "VK_KHR_storage_buffer_storage_class",
        ])
    );
    let r = Instance::from_raw(patched, strings(&["VK_KHR_surface"]), no_flags());
    assert!(matches!(r, Err(InstanceError)));
    let r = Instance::from_raw(API_VERSION_1_0 + 4096, strings(&["VK_KHR_surface"]), no_flags());
    assert!(r.is_ok());
}
