use vstd::prelude::*;
use crate::names::{
    ext_debug_utils, ext_metal_surface, khr_android_surface, khr_get_physical_device_properties2,
    khr_storage_buffer_storage_class, khr_surface, khr_wayland_surface, khr_win32_surface,
    khr_xcb_surface, khr_xlib_surface, spec_ext_debug_utils, spec_ext_metal_surface,
    spec_khr_android_surface, spec_khr_get_physical_device_properties2,
    spec_khr_storage_buffer_storage_class, spec_khr_surface, spec_khr_wayland_surface,
    spec_khr_win32_surface, spec_khr_xcb_surface, spec_khr_xlib_surface,
    spec_khronos_validation_layer, khronos_validation_layer, API_VERSION_1_0,
};
use crate::instance::Instance;

verus! {

/// A version number is `major << 22 | minor << 12 | patch`: this many
/// consecutive numbers share a major and minor number.
pub const VERSION_PATCH_SPAN: u32 = 4096;

/// Failure to establish or use the driver connection.
#[derive(Debug, Clone, Copy, PartialEq, Eq, Structural)]
pub struct InstanceError;

/// Optional behaviour requested at instance creation.
#[derive(Debug, Clone, Copy, PartialEq, Eq, Structural)]
pub struct InstanceFlags {
    /// Register the diagnostics messenger.
    pub debug: bool,
    /// Enable the validation layer.
    pub validation: bool,
}

/// The windowing back-end family the library was built for.
#[derive(Debug, Clone, Copy, PartialEq, Eq, Structural)]
pub enum Platform {
    /// Unix other than Android and macOS: Xlib, XCB and Wayland.
    Unix,
    Android,
    Windows,
    MacOs,
    /// A target with no surface extension of its own.
    Other,
}

/// The character sequences a list of strings holds.
pub open spec fn names_of(v: Seq<String>) -> Seq<Seq<char>> {
    v.map_values(|s: String| s@)
}

/// The entries of `wanted` that `available` holds, in the order of `wanted`.
pub open spec fn kept(wanted: Seq<Seq<char>>, available: Seq<Seq<char>>) -> Seq<Seq<char>>
    decreases wanted.len(),
{
    if wanted.len() == 0 {
        seq![]
    } else {
        let rest = kept(wanted.drop_last(), available);
        if available.contains(wanted.last()) {
            rest.push(wanted.last())
        } else {
            rest
        }
    }
}

/// The entries of `wanted` that `available` lacks, in the order of `wanted`.
pub open spec fn dropped(wanted: Seq<Seq<char>>, available: Seq<Seq<char>>) -> Seq<Seq<char>>
    decreases wanted.len(),
{
    if wanted.len() == 0 {
        seq![]
    } else {
        let rest = dropped(wanted.drop_last(), available);
        if available.contains(wanted.last()) {
            rest
        } else {
            rest.push(wanted.last())
        }
    }
}

/// The surface extensions relevant on a platform.
pub open spec fn platform_surface_names(platform: Platform) -> Seq<Seq<char>> {
    match platform {
        Platform::Unix => seq![spec_khr_xlib_surface(), spec_khr_xcb_surface(), spec_khr_wayland_surface()],
        Platform::Android => seq![spec_khr_android_surface()],
        Platform::Windows => seq![spec_khr_win32_surface()],
        Platform::MacOs => seq![spec_ext_metal_surface()],
        Platform::Other => seq![],
    }
}

/// The extensions asked of the driver before filtering: the surface
/// extension, the platform's surface extensions, the diagnostics extension
/// under `debug`, the properties query extension, and the storage-buffer-class
/// extension on an API 1.0 driver.
pub open spec fn wish_list(platform: Platform, driver_api_version: u32, flags: InstanceFlags) -> Seq<Seq<char>> {
    seq![spec_khr_surface()]
        + platform_surface_names(platform)
        + (if flags.debug { seq![spec_ext_debug_utils()] } else { seq![] })
        + seq![spec_khr_get_physical_device_properties2()]
        + (if is_oldest_version(driver_api_version) {
            seq![spec_khr_storage_buffer_storage_class()]
        } else {
            seq![]
        })
}

/// The layers asked of the driver before filtering.
pub open spec fn layer_wish_list(flags: InstanceFlags) -> Seq<Seq<char>> {
    if flags.validation { seq![spec_khronos_validation_layer()] } else { seq![] }
}

/// Whether a version is API 1.0 by major and minor number, whatever its patch level.
pub open spec fn is_oldest_version(driver_api_version: u32) -> bool {
    driver_api_version / VERSION_PATCH_SPAN == API_VERSION_1_0 / VERSION_PATCH_SPAN
}

/// Whether a version is API 1.0 by major and minor number, whatever its patch level.
pub fn oldest_version(driver_api_version: u32) -> (r: bool)
    ensures
        r == is_oldest_version(driver_api_version),
{
    driver_api_version / VERSION_PATCH_SPAN == API_VERSION_1_0 / VERSION_PATCH_SPAN
}

/// Whether negotiation fails: an API 1.0 driver without the storage-buffer-class extension.
pub open spec fn lacks_mandatory(driver_api_version: u32, extensions: Seq<Seq<char>>) -> bool {
    is_oldest_version(driver_api_version) && !extensions.contains(spec_khr_storage_buffer_storage_class())
}

proof fn lemma_names_push(v: Seq<String>, s: String)
    ensures
        names_of(v.push(s)) == names_of(v).push(s@),
{
    assert(names_of(v.push(s)) =~= names_of(v).push(s@));
}

/// Every entry that survives filtering is one the driver reported.
pub proof fn lemma_kept_available(wanted: Seq<Seq<char>>, available: Seq<Seq<char>>)
    ensures
        forall|i: int| 0 <= i < kept(wanted, available).len() ==> available.contains(#[trigger] kept(wanted, available)[i]),
        forall|i: int| 0 <= i < kept(wanted, available).len() ==> wanted.contains(#[trigger] kept(wanted, available)[i]),
    decreases wanted.len(),
{
    if wanted.len() > 0 {
        lemma_kept_available(wanted.drop_last(), available);
        let rest = kept(wanted.drop_last(), available);
        assert forall|i: int| 0 <= i < kept(wanted, available).len() implies wanted.contains(#[trigger] kept(wanted, available)[i]) by {
            if i < rest.len() {
                let j = choose|j: int| 0 <= j < wanted.drop_last().len() && wanted.drop_last()[j] == rest[i];
                assert(wanted[j] == rest[i]);
            } else {
                assert(wanted[wanted.len() - 1] == wanted.last());
            }
        }
    }
}

/// Every entry asked for and reported survives filtering.
pub proof fn lemma_kept_complete(wanted: Seq<Seq<char>>, available: Seq<Seq<char>>, x: Seq<char>)
    requires
        wanted.contains(x),
        available.contains(x),
    ensures
        kept(wanted, available).contains(x),
    decreases wanted.len(),
{
    let rest = kept(wanted.drop_last(), available);
    if wanted.last() == x {
        assert(kept(wanted, available) == rest.push(x));
        assert(rest.push(x)[rest.len() as int] == x);
    } else {
        let j = choose|j: int| 0 <= j < wanted.len() && wanted[j] == x;
        assert(j < wanted.len() - 1);
        assert(wanted.drop_last()[j] == x);
        lemma_kept_complete(wanted.drop_last(), available, x);
        let k = choose|k: int| 0 <= k < rest.len() && rest[k] == x;
        if available.contains(wanted.last()) {
            assert(rest.push(wanted.last())[k] == x);
        }
    }
}

/// The extensions negotiation accepts from a driver are always enough for
/// adopting a connection made with them: when negotiation succeeds, the
/// accepted set never lacks the mandatory extension.
pub proof fn lemma_negotiated_set_adoptable(
    available: Seq<Seq<char>>,
    driver_api_version: u32,
    flags: InstanceFlags,
    platform: Platform,
)
    requires
        !lacks_mandatory(driver_api_version, available),
    ensures
        !lacks_mandatory(driver_api_version, kept(wish_list(platform, driver_api_version, flags), available)),
{
    if is_oldest_version(driver_api_version) {
        let w = wish_list(platform, driver_api_version, flags);
        assert(w[w.len() - 1] == spec_khr_storage_buffer_storage_class());
        lemma_kept_complete(w, available, spec_khr_storage_buffer_storage_class());
    }
}

/// Whether `list` holds a string equal to `name`.
pub fn contains_name(list: &Vec<String>, name: &String) -> (r: bool)
    ensures
        r == names_of(list@).contains(name@),
{
    let mut i: usize = 0;
    while i < list.len()
        invariant
            0 <= i <= list.len(),
            forall|j: int| 0 <= j < i ==> list@[j]@ != name@,
        decreases list.len() - i,
    {
        if list[i] == *name {
            assert(names_of(list@)[i as int] == name@);
            return true;
        }
        i = i + 1;
    }
    assert(!names_of(list@).contains(name@)) by {
        if names_of(list@).contains(name@) {
            let j = choose|j: int| 0 <= j < names_of(list@).len() && names_of(list@)[j] == name@;
            assert(list@[j]@ == name@);
        }
    }
    false
}

/// Splits `wanted` into the entries that `available` holds and those it lacks,
/// each in the order of `wanted`.
pub fn partition_available(wanted: &Vec<String>, available: &Vec<String>) -> (r: (Vec<String>, Vec<String>))
    ensures
        names_of(r.0@) == kept(names_of(wanted@), names_of(available@)),
        names_of(r.1@) == dropped(names_of(wanted@), names_of(available@)),
{
    let ghost w = names_of(wanted@);
    let ghost a = names_of(available@);
    let mut found: Vec<String> = Vec::new();
    let mut missing: Vec<String> = Vec::new();
    let mut i: usize = 0;
    while i < wanted.len()
        invariant
            0 <= i <= wanted.len(),
            w == names_of(wanted@),
            a == names_of(available@),
            names_of(found@) == kept(w.take(i as int), a),
            names_of(missing@) == dropped(w.take(i as int), a),
        decreases wanted.len() - i,
    {
        let name = wanted[i].clone();
        proof {
            assert(w.take(i + 1).drop_last() =~= w.take(i as int));
            assert(w.take(i + 1).last() == name@);
            lemma_names_push(found@, name);
            lemma_names_push(missing@, name);
        }
        if contains_name(available, &name) {
            found.push(name);
        } else {
            missing.push(name);
        }
        i = i + 1;
    }
    assert(w.take(wanted.len() as int) =~= w);
    (found, missing)
}

/// The wish list of extensions for a platform, a driver version and flags.
pub fn extension_wish_list(platform: Platform, driver_api_version: u32, flags: InstanceFlags) -> (r: Vec<String>)
    ensures
        names_of(r@) == wish_list(platform, driver_api_version, flags),
{
    let mut v: Vec<String> = Vec::new();
    v.push(khr_surface());
    match platform {
        Platform::Unix => {
            v.push(khr_xlib_surface());
            v.push(khr_xcb_surface());
            v.push(khr_wayland_surface());
        },
        Platform::Android => {
            v.push(khr_android_surface());
        },
        Platform::Windows => {
            v.push(khr_win32_surface());
        },
        Platform::MacOs => {
            v.push(ext_metal_surface());
        },
        Platform::Other => {},
    }
    if flags.debug {
        v.push(ext_debug_utils());
    }
    v.push(khr_get_physical_device_properties2());
    if oldest_version(driver_api_version) {
        v.push(khr_storage_buffer_storage_class());
    }
    assert(names_of(v@) =~= wish_list(platform, driver_api_version, flags));
    v
}

/// Turns the driver's version query into the version to work with: no answer
/// means the oldest supported version, a failed query is an error.
pub fn resolve_driver_version(queried: Result<Option<u32>, i32>) -> (r: Result<u32, InstanceError>)
    ensures
        r == match queried {
            Ok(Some(v)) => Ok::<u32, InstanceError>(v),
            Ok(None) => Ok(API_VERSION_1_0),
            Err(_) => Err(InstanceError),
        },
{
    match queried {
        Ok(Some(v)) => Ok(v),
        Ok(None) => Ok(API_VERSION_1_0),
        Err(_) => Err(InstanceError),
    }
}

/// The API version to ask for: the driver's, but no later than the newest
/// version the headers describe.
pub fn application_api_version(driver_api_version: u32, header_version: u32) -> (r: u32)
    ensures
        r == if driver_api_version <= header_version { driver_api_version } else { header_version },
{
    if driver_api_version <= header_version {
        driver_api_version
    } else {
        header_version
    }
}

/// The wish list of layers for the given flags.
pub fn layer_wish_list_names(flags: InstanceFlags) -> (r: Vec<String>)
    ensures
        names_of(r@) == layer_wish_list(flags),
{
    let mut v: Vec<String> = Vec::new();
    if flags.validation {
        v.push(khronos_validation_layer());
    }
    assert(names_of(v@) =~= layer_wish_list(flags));
    v
}

/// Splits the requested layers into those the driver offers (enabled) and
/// those it lacks (to be reported, never fatal).
pub fn select_layers(available_layers: &Vec<String>, flags: InstanceFlags) -> (r: (Vec<String>, Vec<String>))
    ensures
        names_of(r.0@) == kept(layer_wish_list(flags), names_of(available_layers@)),
        names_of(r.1@) == dropped(layer_wish_list(flags), names_of(available_layers@)),
{
    let wanted = layer_wish_list_names(flags);
    partition_available(&wanted, available_layers)
}

/// The names handed to instance creation: layers first, then extensions.
pub fn creation_names(layers: &Vec<String>, extensions: &Vec<String>) -> (r: Vec<String>)
    ensures
        names_of(r@) == names_of(layers@) + names_of(extensions@),
{
    let mut v: Vec<String> = Vec::new();
    let mut i: usize = 0;
    while i < layers.len()
        invariant
            0 <= i <= layers.len(),
            names_of(v@) == names_of(layers@.take(i as int)),
        decreases layers.len() - i,
    {
        proof {
            lemma_names_push(v@, layers@[i as int]);
            assert(layers@.take(i + 1) =~= layers@.take(i as int).push(layers@[i as int]));
        }
        v.push(layers[i].clone());
        i = i + 1;
    }
    assert(layers@.take(layers.len() as int) =~= layers@);
    let mut k: usize = 0;
    while k < extensions.len()
        invariant
            0 <= k <= extensions.len(),
            names_of(v@) == names_of(layers@) + names_of(extensions@.take(k as int)),
        decreases extensions.len() - k,
    {
        proof {
            lemma_names_push(v@, extensions@[k as int]);
            assert(extensions@.take(k + 1) =~= extensions@.take(k as int).push(extensions@[k as int]));
            lemma_names_push(extensions@.take(k as int), extensions@[k as int]);
            assert(names_of(layers@) + names_of(extensions@.take(k as int)).push(extensions@[k as int]@)
                =~= (names_of(layers@) + names_of(extensions@.take(k as int))).push(extensions@[k as int]@));
        }
        v.push(extensions[k].clone());
        k = k + 1;
    }
    assert(extensions@.take(extensions.len() as int) =~= extensions@);
    v
}

impl Instance {
    /// Negotiates the instance extensions against what the driver reports.
    /// Fails only when the driver is API 1.0 and lacks the storage-buffer-class
    /// extension; otherwise returns the wish list filtered to what is available.
    pub fn required_extensions(
        available: &Vec<String>,
        driver_api_version: u32,
        flags: InstanceFlags,
        platform: Platform,
    ) -> (r: Result<Vec<String>, InstanceError>)
        ensures
            r is Err <==> lacks_mandatory(driver_api_version, names_of(available@)),
            r matches Ok(v) ==> names_of(v@) == kept(
                wish_list(platform, driver_api_version, flags),
                names_of(available@),
            ),
    {
        let wanted = extension_wish_list(platform, driver_api_version, flags);
        let (found, _missing) = partition_available(&wanted, available);
        if oldest_version(driver_api_version) && !contains_name(available, &khr_storage_buffer_storage_class()) {
            return Err(InstanceError);
        }
        Ok(found)
    }
}

/// No phantom acceptances: every extension that negotiation accepts is one
/// the driver reported, and one that was asked for.
pub proof fn lemma_accepted_were_reported(
    available: Seq<Seq<char>>,
    driver_api_version: u32,
    flags: InstanceFlags,
    platform: Platform,
)
    ensures
        forall|i: int|
            0 <= i < kept(wish_list(platform, driver_api_version, flags), available).len()
                ==> available.contains(#[trigger] kept(wish_list(platform, driver_api_version, flags), available)[i]),
        forall|i: int|
            0 <= i < kept(wish_list(platform, driver_api_version, flags), available).len()
                ==> wish_list(platform, driver_api_version, flags).contains(
                #[trigger] kept(wish_list(platform, driver_api_version, flags), available)[i],
            ),
{
    lemma_kept_available(wish_list(platform, driver_api_version, flags), available);
}

} // verus!
