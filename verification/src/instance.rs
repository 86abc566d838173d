//! The backend instance: which extensions and layers it is created with and
//! which API version it asks for. The creation call itself is the caller's;
//! this module fixes exactly what is handed to it.

use vstd::prelude::*;
use vstd::string::StringExecFns;

verus! {

/// The version variant/major/minor/patch packing the backend expects:
/// `variant` in the top three bits, then 7 bits of major, 10 of minor, and
/// 12 of patch.
pub open spec fn spec_make_api_version(variant: u32, major: u32, minor: u32, patch: u32) -> u32
    recommends
        variant < 8,
        major < 128,
        minor < 1024,
        patch < 4096,
{
    (variant * 0x2000_0000 + major * 0x40_0000 + minor * 0x1000 + patch) as u32
}

/// Packs an API version number the way the backend expects.
pub fn make_api_version(variant: u32, major: u32, minor: u32, patch: u32) -> (r: u32)
    requires
        variant < 8,
        major < 128,
        minor < 1024,
        patch < 4096,
    ensures
        r == spec_make_api_version(variant, major, minor, patch),
{
    let r = (variant << 29u32) | (major << 22u32) | (minor << 12u32) | patch;
    assert(r == (variant * 0x2000_0000 + major * 0x40_0000 + minor * 0x1000 + patch) as u32)
        by (bit_vector)
        requires
            variant < 8,
            major < 128,
            minor < 1024,
            patch < 4096,
            r == (variant << 29u32) | (major << 22u32) | (minor << 12u32) | patch,
    ;
    r
}

/// Collects what an instance is created with.
#[derive(Debug)]
pub struct InstanceBuilder {
    /// Extensions the windowing collaborator needs, by name.
    pub required_extensions: Vec<String>,
    /// Whether to enable the debug-validation layer and messenger.
    pub debug_graphics: bool,
}

/// The extension names an instance is created with: the surface extension,
/// the debug-utilities extension when debug validation is on, and then the
/// caller's required extensions in their given order.
pub open spec fn spec_instance_extension_names(b: InstanceBuilder) -> Seq<Seq<char>> {
    spec_internal_extension_names(b.debug_graphics) + b.required_extensions@.map_values(
        |s: String| s@,
    )
}

/// The extension names the renderer itself needs.
pub open spec fn spec_internal_extension_names(debug_graphics: bool) -> Seq<Seq<char>> {
    if debug_graphics {
        seq!["VK_KHR_surface"@, "VK_EXT_debug_utils"@]
    } else {
        seq!["VK_KHR_surface"@]
    }
}

/// The layer names an instance is created with: the validation layer when
/// debug validation is on, none otherwise.
pub open spec fn spec_instance_layer_names(debug_graphics: bool) -> Seq<Seq<char>> {
    if debug_graphics {
        seq!["VK_LAYER_KHRONOS_validation"@]
    } else {
        Seq::empty()
    }
}

impl InstanceBuilder {
    /// Replaces the required-extension list.
    pub fn required_extensions(self, required_extensions: Vec<String>) -> (r: Self)
        ensures
            r.required_extensions == required_extensions,
            r.debug_graphics == self.debug_graphics,
    {
        InstanceBuilder { required_extensions, ..self }
    }

    /// Turns debug validation on or off.
    pub fn debug_graphics(self, debug_graphics: bool) -> (r: Self)
        ensures
            r.debug_graphics == debug_graphics,
            r.required_extensions == self.required_extensions,
    {
        InstanceBuilder { debug_graphics, ..self }
    }

    /// Finishes the instance description.
    pub fn build(self) -> (r: Instance)
        ensures
            r.extensions@.map_values(|s: String| s@) == spec_instance_extension_names(self),
            r.layers@.map_values(|s: String| s@) == spec_instance_layer_names(self.debug_graphics),
            r.api_version == spec_make_api_version(0, 1, 3, 0),
            r.debug_graphics == self.debug_graphics,
    {
        Instance::create(self)
    }
}

/// What the backend instance was created with. The raw creation call is the
/// caller's; these fields say exactly what it must pass.
#[derive(Debug)]
pub struct Instance {
    /// Extension names, in the order they are handed to the backend.
    pub extensions: Vec<String>,
    /// Layer names, in the order they are handed to the backend.
    pub layers: Vec<String>,
    /// The packed API version asked for.
    pub api_version: u32,
    /// Whether the debug messenger is to be installed.
    pub debug_graphics: bool,
}

impl Instance {
    /// A fresh builder with no required extensions and debug validation off.
    pub fn builder() -> (r: InstanceBuilder)
        ensures
            r.required_extensions@ == Seq::<String>::empty(),
            r.debug_graphics == false,
    {
        InstanceBuilder { required_extensions: Vec::new(), debug_graphics: false }
    }

    /// The renderer's own extension names, before the caller's are appended.
    fn internal_extension_names(builder: &InstanceBuilder) -> (r: Vec<String>)
        ensures
            r@.map_values(|s: String| s@) == spec_internal_extension_names(
                builder.debug_graphics,
            ),
    {
        let mut names: Vec<String> = Vec::new();
        names.push(String::from_str("VK_KHR_surface"));
        if builder.debug_graphics {
            names.push(String::from_str("VK_EXT_debug_utils"));
        }
        assert(names@.map_values(|s: String| s@) =~= spec_internal_extension_names(
            builder.debug_graphics,
        ));
        names
    }

    /// The layer names the renderer enables.
    fn internal_layer_names(builder: &InstanceBuilder) -> (r: Vec<String>)
        ensures
            r@.map_values(|s: String| s@) == spec_instance_layer_names(builder.debug_graphics),
    {
        let mut names: Vec<String> = Vec::new();
        if builder.debug_graphics {
            names.push(String::from_str("VK_LAYER_KHRONOS_validation"));
        }
        assert(names@.map_values(|s: String| s@) =~= spec_instance_layer_names(
            builder.debug_graphics,
        ));
        names
    }

    /// Fixes what the instance is created with: the extension list, the
    /// layer list, and the packed API version.
    pub fn create(builder: InstanceBuilder) -> (r: Instance)
        ensures
            r.extensions@.map_values(|s: String| s@) == spec_instance_extension_names(builder),
            r.layers@.map_values(|s: String| s@) == spec_instance_layer_names(
                builder.debug_graphics,
            ),
            r.api_version == spec_make_api_version(0, 1, 3, 0),
            r.debug_graphics == builder.debug_graphics,
    {
        let ghost b = builder;
        let mut extensions = Self::internal_extension_names(&builder);
        let layers = Self::internal_layer_names(&builder);
        let debug_graphics = builder.debug_graphics;
        let mut required = builder.required_extensions;
        extensions.append(&mut required);
        assert(extensions@.map_values(|s: String| s@) =~= spec_instance_extension_names(b));
        Instance {
            extensions,
            layers,
            api_version: make_api_version(0, 1, 3, 0),
            debug_graphics,
        }
    }
}

} // verus!
