//! Capability negotiation, instance bookkeeping, surface dispatch and the
//! swapchain state machine of a Vulkan-class driver layer, as verified logic.
//! The driver calls themselves are made by the caller, which hands the
//! results back as plain values.

pub mod diagnostics;
pub mod names;
pub mod negotiate;
pub mod instance;
pub mod surface;
pub mod swapchain;

pub use names::{
    ext_debug_utils, ext_metal_surface, khr_android_surface, khr_get_physical_device_properties2,
    khr_storage_buffer_storage_class, khr_surface, khr_wayland_surface, khr_win32_surface,
    khr_xcb_surface, khr_xlib_surface, khronos_validation_layer, API_VERSION_1_0,
};
pub use negotiate::{InstanceError, InstanceFlags, Platform};
pub use instance::{adapters_or_none, InitPlan, Instance, TeardownStep};
pub use surface::{
    metal_layer_plan, LayerPlan, Surface, SurfaceConfiguration, SurfaceError, Swapchain, WindowKind,
};
pub use swapchain::{timeout_ns, AcquireStep, AcquiredSurfaceTexture, SurfaceTexture, SwapchainStep};
pub use diagnostics::{join_names, label_names, object_names, severity_level, LogLevel};
