use vstd::prelude::*;

verus! {

/// Version number the driver reports for API 1.0 (major 1, minor 0, patch 0).
pub const API_VERSION_1_0: u32 = 4194304;

pub open spec fn spec_khr_surface() -> Seq<char> {
    "VK_KHR_surface"@
}

pub open spec fn spec_khr_xlib_surface() -> Seq<char> {
    "VK_KHR_xlib_surface"@
}

pub open spec fn spec_khr_xcb_surface() -> Seq<char> {
    "VK_KHR_xcb_surface"@
}

pub open spec fn spec_khr_wayland_surface() -> Seq<char> {
    "VK_KHR_wayland_surface"@
}

pub open spec fn spec_khr_android_surface() -> Seq<char> {
    "VK_KHR_android_surface"@
}

pub open spec fn spec_khr_win32_surface() -> Seq<char> {
    "VK_KHR_win32_surface"@
}

pub open spec fn spec_ext_metal_surface() -> Seq<char> {
    "VK_EXT_metal_surface"@
}

pub open spec fn spec_ext_debug_utils() -> Seq<char> {
    "VK_EXT_debug_utils"@
}

pub open spec fn spec_khr_get_physical_device_properties2() -> Seq<char> {
    "VK_KHR_get_physical_device_properties2"@
}

pub open spec fn spec_khr_storage_buffer_storage_class() -> Seq<char> {
    "VK_KHR_storage_buffer_storage_class"@
}

pub open spec fn spec_khronos_validation_layer() -> Seq<char> {
    "VK_LAYER_KHRONOS_validation"@
}

/// The presentation-surface extension.
pub fn khr_surface() -> (r: String)
    ensures
        r@ == spec_khr_surface(),
{
    String::from_str("VK_KHR_surface")
}

/// The X11 (Xlib) surface extension.
pub fn khr_xlib_surface() -> (r: String)
    ensures
        r@ == spec_khr_xlib_surface(),
{
    String::from_str("VK_KHR_xlib_surface")
}

/// The X11 (XCB) surface extension.
pub fn khr_xcb_surface() -> (r: String)
    ensures
        r@ == spec_khr_xcb_surface(),
{
    String::from_str("VK_KHR_xcb_surface")
}

/// The Wayland surface extension.
pub fn khr_wayland_surface() -> (r: String)
    ensures
        r@ == spec_khr_wayland_surface(),
{
    String::from_str("VK_KHR_wayland_surface")
}

/// The Android surface extension.
pub fn khr_android_surface() -> (r: String)
    ensures
        r@ == spec_khr_android_surface(),
{
    String::from_str("VK_KHR_android_surface")
}

/// The Win32 surface extension.
pub fn khr_win32_surface() -> (r: String)
    ensures
        r@ == spec_khr_win32_surface(),
{
    String::from_str("VK_KHR_win32_surface")
}

/// The Metal (native view) surface extension.
pub fn ext_metal_surface() -> (r: String)
    ensures
        r@ == spec_ext_metal_surface(),
{
    String::from_str("VK_EXT_metal_surface")
}

/// The diagnostics extension.
pub fn ext_debug_utils() -> (r: String)
    ensures
        r@ == spec_ext_debug_utils(),
{
    String::from_str("VK_EXT_debug_utils")
}

/// The extended physical-device-properties query extension.
pub fn khr_get_physical_device_properties2() -> (r: String)
    ensures
        r@ == spec_khr_get_physical_device_properties2(),
{
    String::from_str("VK_KHR_get_physical_device_properties2")
}

/// The storage-buffer-class extension, mandatory on API 1.0 drivers.
pub fn khr_storage_buffer_storage_class() -> (r: String)
    ensures
        r@ == spec_khr_storage_buffer_storage_class(),
{
    String::from_str("VK_KHR_storage_buffer_storage_class")
}

/// The validation layer.
pub fn khronos_validation_layer() -> (r: String)
    ensures
        r@ == spec_khronos_validation_layer(),
{
    String::from_str("VK_LAYER_KHRONOS_validation")
}

} // verus!
