use vstd::prelude::*;
use crate::names::{
    ext_debug_utils, khr_get_physical_device_properties2, khr_storage_buffer_storage_class,
    spec_ext_debug_utils, spec_khr_get_physical_device_properties2,
};
use crate::negotiate::{
    application_api_version, contains_name, oldest_version, creation_names, dropped, kept, lacks_mandatory,
    layer_wish_list, names_of, partition_available, resolve_driver_version, select_layers,
    wish_list, extension_wish_list, InstanceError, InstanceFlags, Platform,
};

verus! {

/// One driver call of instance teardown.
#[derive(Debug, Clone, Copy, PartialEq, Eq, Structural)]
pub enum TeardownStep {
    /// Destroy the diagnostics messenger.
    UnregisterDiagnostics,
    /// Destroy the driver instance handle.
    DestroyInstance,
}

/// Teardown: the diagnostics messenger, when there is one, then the instance.
pub open spec fn teardown_order(has_diagnostics: bool) -> Seq<TeardownStep> {
    if has_diagnostics {
        seq![TeardownStep::UnregisterDiagnostics, TeardownStep::DestroyInstance]
    } else {
        seq![TeardownStep::DestroyInstance]
    }
}

/// What instance creation is to ask of the driver, and what was left out.
pub struct InitPlan {
    /// Version the driver reported (API 1.0 when it could not say).
    pub driver_api_version: u32,
    /// Version to put in the application metadata.
    pub api_version: u32,
    /// Accepted layers.
    pub layers: Vec<String>,
    /// Accepted extensions.
    pub extensions: Vec<String>,
    /// Layers asked for and not offered, to be reported.
    pub missing_layers: Vec<String>,
    /// Extensions asked for and not offered, to be reported.
    pub missing_extensions: Vec<String>,
}

/// The version a version query comes to, or `None` when it failed.
pub open spec fn resolved_version(queried: Result<Option<u32>, i32>) -> Option<u32> {
    match queried {
        Ok(Some(v)) => Some(v),
        Ok(None) => Some(crate::names::API_VERSION_1_0),
        Err(_) => None,
    }
}

/// What an enumeration comes to: the names it listed, or none when it failed.
pub open spec fn listed_names(listed: Result<Vec<String>, i32>) -> Seq<Seq<char>> {
    match listed {
        Ok(v) => names_of(v@),
        Err(_) => Seq::empty(),
    }
}

/// Whether instance creation can go ahead given the driver's answers: the
/// version query answered, and the mandatory extension is not missing (a
/// failed extension enumeration counts as no extension available).
pub open spec fn init_succeeds(
    version_query: Result<Option<u32>, i32>,
    extensions: Result<Vec<String>, i32>,
) -> bool {
    &&& resolved_version(version_query) is Some
    &&& !lacks_mandatory(resolved_version(version_query).unwrap(), listed_names(extensions))
}

/// The names an enumeration listed, or none when it failed.
pub fn listed_or_empty(listed: Result<Vec<String>, i32>) -> (r: Vec<String>)
    ensures
        names_of(r@) == listed_names(listed),
{
    match listed {
        Ok(v) => v,
        Err(_) => {
            let v: Vec<String> = Vec::new();
            assert(names_of(v@) =~= Seq::<Seq<char>>::empty());
            v
        },
    }
}

/// The negotiated state of a driver connection.
pub struct Instance {
    /// Driver API version the connection was made for.
    pub driver_api_version: u32,
    /// Accepted extensions, in negotiation order.
    pub extensions: Vec<String>,
    pub flags: InstanceFlags,
    /// A diagnostics registration is live (the diagnostics extension was accepted).
    pub has_diagnostics: bool,
    /// The extended physical-device-properties functions are loaded.
    pub has_properties2: bool,
}

impl Instance {
    /// The bookkeeping agrees with the accepted extensions.
    pub open spec fn wf(&self) -> bool {
        &&& !lacks_mandatory(self.driver_api_version, names_of(self.extensions@))
        &&& self.has_diagnostics == names_of(self.extensions@).contains(spec_ext_debug_utils())
        &&& self.has_properties2 == names_of(self.extensions@).contains(
            spec_khr_get_physical_device_properties2(),
        )
    }

    /// Adopts a connection made with the given version, extensions and flags.
    /// Fails when the driver is API 1.0 and the storage-buffer-class extension
    /// is not among `extensions`; otherwise diagnostics are registered exactly
    /// when the diagnostics extension is present, and the properties functions
    /// loaded exactly when their extension is.
    pub fn from_raw(driver_api_version: u32, extensions: Vec<String>, flags: InstanceFlags) -> (r: Result<
        Instance,
        InstanceError,
    >)
        ensures
            r is Err <==> lacks_mandatory(driver_api_version, names_of(extensions@)),
            r matches Ok(inst) ==> {
                &&& inst.wf()
                &&& inst.driver_api_version == driver_api_version
                &&& inst.extensions@ == extensions@
                &&& inst.flags == flags
            },
    {
        if oldest_version(driver_api_version) && !contains_name(
            &extensions,
            &khr_storage_buffer_storage_class(),
        ) {
            return Err(InstanceError);
        }
        let has_diagnostics = contains_name(&extensions, &ext_debug_utils());
        let has_properties2 = contains_name(&extensions, &khr_get_physical_device_properties2());
        Ok(Instance { driver_api_version, extensions, flags, has_diagnostics, has_properties2 })
    }

    /// Decides what instance creation asks of the driver, from the driver's
    /// answers to the version, extension and layer queries. Fails when the
    /// version query failed or when an API 1.0 driver lacks the
    /// storage-buffer-class extension. A failed extension or layer enumeration
    /// counts as nothing available, and a missing optional extension or layer
    /// is only reported.
    pub fn plan_init(
        flags: InstanceFlags,
        version_query: Result<Option<u32>, i32>,
        available_extensions: Result<Vec<String>, i32>,
        available_layers: Result<Vec<String>, i32>,
        header_version: u32,
        platform: Platform,
    ) -> (r: Result<InitPlan, InstanceError>)
        ensures
            r is Ok <==> init_succeeds(version_query, available_extensions),
            r matches Ok(plan) ==> {
                let v = resolved_version(version_query).unwrap();
                let exts = listed_names(available_extensions);
                let lays = listed_names(available_layers);
                &&& plan.driver_api_version == v
                &&& plan.api_version == if v <= header_version { v } else { header_version }
                &&& names_of(plan.extensions@) == kept(wish_list(platform, v, flags), exts)
                &&& names_of(plan.missing_extensions@) == dropped(wish_list(platform, v, flags), exts)
                &&& names_of(plan.layers@) == kept(layer_wish_list(flags), lays)
                &&& names_of(plan.missing_layers@) == dropped(layer_wish_list(flags), lays)
            },
    {
        let driver_api_version = match resolve_driver_version(version_query) {
            Ok(v) => v,
            Err(e) => return Err(e),
        };
        let api_version = application_api_version(driver_api_version, header_version);
        let available = listed_or_empty(available_extensions);
        let extensions = match Instance::required_extensions(&available, driver_api_version, flags, platform) {
            Ok(e) => e,
            Err(e) => return Err(e),
        };
        let wanted = extension_wish_list(platform, driver_api_version, flags);
        let (_, missing_extensions) = partition_available(&wanted, &available);
        let offered_layers = listed_or_empty(available_layers);
        let (layers, missing_layers) = select_layers(&offered_layers, flags);
        Ok(InitPlan { driver_api_version, api_version, layers, extensions, missing_layers, missing_extensions })
    }

    /// Whether an extension was accepted.
    pub fn has_extension(&self, name: &String) -> (r: bool)
        ensures
            r == names_of(self.extensions@).contains(name@),
    {
        contains_name(&self.extensions, name)
    }

    /// The driver calls that tear this connection down, in order.
    pub fn teardown_steps(&self) -> (r: Vec<TeardownStep>)
        ensures
            r@ == teardown_order(self.has_diagnostics),
    {
        let mut v: Vec<TeardownStep> = Vec::new();
        if self.has_diagnostics {
            v.push(TeardownStep::UnregisterDiagnostics);
        }
        v.push(TeardownStep::DestroyInstance);
        assert(v@ =~= teardown_order(self.has_diagnostics));
        v
    }
}

/// Teardown destroys the instance exactly once, as the last step, and a live
/// diagnostics registration is unregistered strictly before that.
pub proof fn lemma_diagnostics_unregistered_first(has_diagnostics: bool)
    ensures
        teardown_order(has_diagnostics).last() == TeardownStep::DestroyInstance,
        forall|i: int|
            0 <= i < teardown_order(has_diagnostics).len() - 1
                ==> #[trigger] teardown_order(has_diagnostics)[i] != TeardownStep::DestroyInstance,
        has_diagnostics <==> teardown_order(has_diagnostics).contains(TeardownStep::UnregisterDiagnostics),
        forall|i: int, j: int|
            0 <= i < teardown_order(has_diagnostics).len() && 0 <= j < teardown_order(has_diagnostics).len()
                && #[trigger] teardown_order(has_diagnostics)[i] == TeardownStep::UnregisterDiagnostics
                && #[trigger] teardown_order(has_diagnostics)[j] == TeardownStep::DestroyInstance ==> i < j,
{
    let s = teardown_order(has_diagnostics);
    if has_diagnostics {
        assert(s[0] == TeardownStep::UnregisterDiagnostics);
    } else {
        assert(!s.contains(TeardownStep::UnregisterDiagnostics)) by {
            if s.contains(TeardownStep::UnregisterDiagnostics) {
                let k = choose|k: int| 0 <= k < s.len() && s[k] == TeardownStep::UnregisterDiagnostics;
                assert(k == 0);
            }
        }
    }
}

impl InitPlan {
    /// The names instance creation enables, layers first, then extensions.
    pub fn enabled_names(&self) -> (r: Vec<String>)
        ensures
            names_of(r@) == names_of(self.layers@) + names_of(self.extensions@),
    {
        creation_names(&self.layers, &self.extensions)
    }
}

/// The adapters to expose: those the driver listed, or none when the listing failed.
pub fn adapters_or_none(listed: Result<Vec<u64>, i32>) -> (r: Vec<u64>)
    ensures
        r@ == match listed {
            Ok(v) => v@,
            Err(_) => Seq::<u64>::empty(),
        },
{
    match listed {
        Ok(v) => v,
        Err(_) => Vec::new(),
    }
}

} // verus!
