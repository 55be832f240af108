use vstd::prelude::*;
use crate::instance::Instance;
use crate::names::{
    ext_metal_surface, khr_android_surface, khr_wayland_surface, khr_win32_surface, khr_xcb_surface,
    khr_xlib_surface, spec_ext_metal_surface, spec_khr_android_surface, spec_khr_wayland_surface,
    spec_khr_win32_surface, spec_khr_xcb_surface, spec_khr_xlib_surface,
};
use crate::negotiate::{names_of, InstanceError, Platform};

verus! {

/// The variant of a windowing-system token.
#[derive(Debug, Clone, Copy, PartialEq, Eq, Structural)]
pub enum WindowKind {
    Wayland,
    Xlib,
    Xcb,
    Android,
    Windows,
    MacOs,
    /// A token of a system this layer has no surface path for.
    Other,
}

/// Whether a platform has a surface path for a token variant.
pub open spec fn platform_serves(kind: WindowKind, platform: Platform) -> bool {
    match kind {
        WindowKind::Wayland | WindowKind::Xlib | WindowKind::Xcb => platform == Platform::Unix,
        WindowKind::Android => platform == Platform::Android,
        WindowKind::Windows => platform == Platform::Windows,
        WindowKind::MacOs => platform == Platform::MacOs,
        WindowKind::Other => false,
    }
}

/// The surface extension a token variant needs.
pub open spec fn surface_extension(kind: WindowKind) -> Option<Seq<char>> {
    match kind {
        WindowKind::Wayland => Some(spec_khr_wayland_surface()),
        WindowKind::Xlib => Some(spec_khr_xlib_surface()),
        WindowKind::Xcb => Some(spec_khr_xcb_surface()),
        WindowKind::Android => Some(spec_khr_android_surface()),
        WindowKind::Windows => Some(spec_khr_win32_surface()),
        WindowKind::MacOs => Some(spec_ext_metal_surface()),
        WindowKind::Other => None,
    }
}

/// Whether a token variant can become a surface on a platform, given the
/// accepted extensions.
pub open spec fn surface_allowed(extensions: Seq<Seq<char>>, kind: WindowKind, platform: Platform) -> bool {
    &&& platform_serves(kind, platform)
    &&& surface_extension(kind) is Some
    &&& extensions.contains(surface_extension(kind).unwrap())
}

/// The surface extension a token variant needs, as a string.
pub fn surface_extension_name(kind: WindowKind) -> (r: Option<String>)
    ensures
        match r {
            Some(s) => surface_extension(kind) == Some(s@),
            None => surface_extension(kind) is None,
        },
{
    match kind {
        WindowKind::Wayland => Some(khr_wayland_surface()),
        WindowKind::Xlib => Some(khr_xlib_surface()),
        WindowKind::Xcb => Some(khr_xcb_surface()),
        WindowKind::Android => Some(khr_android_surface()),
        WindowKind::Windows => Some(khr_win32_surface()),
        WindowKind::MacOs => Some(ext_metal_surface()),
        WindowKind::Other => None,
    }
}

/// What to do with the layer of a native view before making a Metal surface.
#[derive(Debug, Clone, Copy, PartialEq, Eq, Structural)]
pub struct LayerPlan {
    /// Use the view's current layer unchanged.
    pub reuse_existing: bool,
    /// Make a new Metal layer, install it and copy the view's bounds to it.
    pub install_new: bool,
    /// Copy the window's scale factor to the new layer.
    pub copy_scale: bool,
}

/// Plans the layer setup of a native view. `existing` is `None` when the view
/// has no layer and `Some(is_metal)` when it has one; `has_window` tells
/// whether the view sits in a window.
pub fn metal_layer_plan(existing: Option<bool>, has_window: bool) -> (r: LayerPlan)
    ensures
        r.reuse_existing == (existing == Some(true)),
        r.install_new == !r.reuse_existing,
        r.copy_scale == (r.install_new && has_window),
{
    let reuse_existing = match existing {
        Some(is_metal) => is_metal,
        None => false,
    };
    LayerPlan { reuse_existing, install_new: !reuse_existing, copy_scale: !reuse_existing && has_window }
}

/// A failure of a surface operation.
#[derive(Debug, Clone, Copy, PartialEq, Eq, Structural)]
pub enum SurfaceError {
    /// The swapchain no longer matches the surface: configure again.
    Outdated,
    /// The surface is gone: make a new one from a fresh token.
    Lost,
    /// Any other driver error, with its result code.
    Device(i32),
}

/// What the consumer asked the swapchain to be.
#[derive(Debug, Clone, Copy, PartialEq, Eq, Structural)]
pub struct SurfaceConfiguration {
    pub format: u32,
    pub usage: u32,
    pub present_mode: u32,
    pub width: u32,
    pub height: u32,
}

/// A created swapchain: its presentation images, the configuration it was
/// made with, and the vendor of the device that owns it.
pub struct Swapchain {
    pub images: Vec<u64>,
    pub config: SurfaceConfiguration,
    pub vendor_id: u32,
}

/// A presentable target and its swapchain, if configured.
pub struct Surface {
    pub kind: WindowKind,
    pub swapchain: Option<Swapchain>,
}

impl Instance {
    /// Checks that a token variant can become a surface: the platform has a
    /// path for it and its surface extension was accepted. The new surface is
    /// unconfigured.
    pub fn create_surface(&self, window: WindowKind, platform: Platform) -> (r: Result<Surface, InstanceError>)
        ensures
            r is Ok <==> surface_allowed(names_of(self.extensions@), window, platform),
            r matches Ok(s) ==> s.kind == window && s.swapchain is None,
    {
        let served = match window {
            WindowKind::Wayland | WindowKind::Xlib | WindowKind::Xcb => platform == Platform::Unix,
            WindowKind::Android => platform == Platform::Android,
            WindowKind::Windows => platform == Platform::Windows,
            WindowKind::MacOs => platform == Platform::MacOs,
            WindowKind::Other => false,
        };
        if !served {
            return Err(InstanceError);
        }
        match surface_extension_name(window) {
            Some(name) => {
                if self.has_extension(&name) {
                    Ok(Surface::new(window))
                } else {
                    Err(InstanceError)
                }
            },
            None => Err(InstanceError),
        }
    }
}

} // verus!
