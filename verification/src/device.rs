//! Connection to the graphics backend: instance, logical device, adapter
//! memory-type table, negotiated color format and shader-module loading.
//!
//! The backend itself is an effect boundary: the shell enumerates the real
//! adapter and hands its description over as plain values. Everything the
//! engine decides from that description is verified here.

use vstd::prelude::*;

use crate::types::Extent2d;

verus! {

/// Memory visible to the host for mapping and direct writes.
pub const MEMORY_CPU_VISIBLE: u32 = 1;

/// Memory whose host writes need no explicit flush.
pub const MEMORY_COHERENT: u32 = 2;

/// Memory local to the GPU, fastest for device reads.
pub const MEMORY_DEVICE_LOCAL: u32 = 4;

/// Largest number of adapter memory types a device may report.
pub const MAX_MEMORY_TYPES: usize = 32;

/// Pixel and depth formats the engine negotiates with the backend.
#[derive(Clone, Copy, PartialEq, Eq, Structural, Debug)]
pub enum Format {
    Rgba8Srgb,
    Bgra8Srgb,
    Rgba8Unorm,
    Bgra8Unorm,
    D32FloatS8Uint,
}

impl Format {
    /// Whether the format carries sRGB-encoded color channels.
    pub open spec fn is_srgb_spec(self) -> bool {
        self == Format::Rgba8Srgb || self == Format::Bgra8Srgb
    }

    pub fn is_srgb(&self) -> (r: bool)
        ensures
            r == self.is_srgb_spec(),
    {
        match self {
            Format::Rgba8Srgb => true,
            Format::Bgra8Srgb => true,
            _ => false,
        }
    }
}

/// What the window-system surface reports it can present.
#[derive(Clone, Copy, PartialEq, Eq, Structural, Debug)]
pub struct SurfaceCaps {
    pub min_image_count: u32,
    pub max_image_count: u32,
    pub min_extent: Extent2d,
    pub max_extent: Extent2d,
}

impl SurfaceCaps {
    pub open spec fn wf(self) -> bool {
        &&& 1 <= self.min_image_count <= self.max_image_count
        &&& self.min_extent.width <= self.max_extent.width
        &&& self.min_extent.height <= self.max_extent.height
    }
}

/// Description of a physical adapter, as the shell queried it from the
/// backend: one property bitmask per memory type, copy-pitch alignment,
/// the surface formats it supports (if it lists any) and the surface
/// capabilities.
#[derive(Clone, Debug)]
pub struct AdapterInfo {
    pub memory_types: Vec<u32>,
    pub min_buffer_copy_pitch_alignment: u64,
    pub formats: Option<Vec<Format>>,
    pub caps: SurfaceCaps,
}

impl AdapterInfo {
    pub open spec fn wf(self) -> bool {
        &&& self.memory_types@.len() <= MAX_MEMORY_TYPES
        &&& self.min_buffer_copy_pitch_alignment >= 1
        &&& self.caps.wf()
    }
}

/// Errors of device creation and device-level resource creation. All of
/// them are fatal: they indicate a misconfigured environment, not a
/// condition the frame loop could retry.
#[derive(Clone, Copy, PartialEq, Eq, Structural, Debug)]
pub enum DeviceError {
    NoCompatibleFormat,
    NoCompatibleMemoryType,
    ShaderModuleInvalid,
}

impl DeviceError {
    pub fn message(&self) -> &'static str {
        match self {
            DeviceError::NoCompatibleFormat => "Fatal Error: Failed to find valid device.",
            DeviceError::NoCompatibleMemoryType => {
                "Could not find appropriate vertex buffer memory type."
            },
            DeviceError::ShaderModuleInvalid => "Failed to create shader module.",
        }
    }
}

/// The instance object for the engine which all other devices are created
/// from. The backend handle it stands for lives with the shell; the
/// instance itself only issues device identities.
pub struct Instance {
    pub application_name: String,
    pub next_device_id: u64,
}

impl Instance {
    /// Creates a new instance object with the specified application name.
    pub fn create(application_name: &str) -> (r: Instance)
        ensures
            r.application_name@ == application_name@,
            r.next_device_id == 0,
    {
        Instance { application_name: application_name.to_string(), next_device_id: 0 }
    }
}

/// A pre-compiled shader binary accepted by the device.
#[derive(Clone, Debug)]
pub struct ShaderModule {
    pub code: Vec<u8>,
}

impl ShaderModule {
    /// A module is valid when its code is a nonempty sequence of whole
    /// 32-bit words.
    pub open spec fn wf(self) -> bool {
        self.code@.len() > 0 && self.code@.len() % 4 == 0
    }
}

/// Whether memory type `i` of the table `types` both appears in the
/// requirement mask and carries every requested property flag.
pub open spec fn mem_type_matches(types: Seq<u32>, type_mask: u64, properties: u32, i: int) -> bool {
    &&& 0 <= i < types.len()
    &&& (type_mask >> (i as u64)) & 1 == 1
    &&& types[i] & properties == properties
}

/// The device structure which contains data about a logical device: the
/// adapter memory-type table, the negotiated color format and the cached
/// surface capabilities. It is the root owner of GPU objects; work
/// submitted to its queue is tracked so that idle waits are explicit.
#[derive(Debug)]
pub struct Device {
    pub id: u64,
    pub color_format: Format,
    pub memory_types: Vec<u32>,
    pub min_buffer_copy_pitch_alignment: u64,
    pub capabilities: SurfaceCaps,
    pub submissions_in_flight: u64,
    pub next_resource_id: u64,
}

impl Device {
    pub open spec fn wf(self) -> bool {
        &&& self.memory_types@.len() <= MAX_MEMORY_TYPES
        &&& self.min_buffer_copy_pitch_alignment >= 1
        &&& self.capabilities.wf()
    }

    /// The first sRGB format of a surface's format list.
    pub open spec fn first_srgb(s: Seq<Format>) -> Option<Format>
        decreases s.len(),
    {
        if s.len() == 0 {
            Option::None
        } else if s[0].is_srgb_spec() {
            Option::Some(s[0])
        } else {
            Self::first_srgb(s.skip(1))
        }
    }

    /// The color format the device negotiates from the surface's format
    /// list: the first sRGB entry, or the fixed default when the surface
    /// lists nothing.
    pub open spec fn negotiated_format(formats: Option<Vec<Format>>) -> Option<Format> {
        match formats {
            Option::None => Option::Some(Format::Rgba8Srgb),
            Option::Some(choices) => Self::first_srgb(choices@),
        }
    }

    /// Scans a format list for its first sRGB entry.
    fn select_srgb(choices: &Vec<Format>) -> (r: Option<Format>)
        ensures
            r == Self::first_srgb(choices@),
    {
        let mut i: usize = 0;
        assert(choices@.skip(0) =~= choices@);
        while i < choices.len()
            invariant
                i <= choices@.len(),
                Self::first_srgb(choices@) == Self::first_srgb(choices@.skip(i as int)),
            decreases choices@.len() - i,
        {
            if choices[i].is_srgb() {
                assert(choices@.skip(i as int)[0] == choices@[i as int]);
                return Option::Some(choices[i]);
            }
            assert(choices@.skip(i as int).skip(1) =~= choices@.skip(i + 1));
            i = i + 1;
        }
        Option::None
    }

    /// Creates a new device instance for the adapter the shell selected.
    /// Succeeds exactly when a color format can be negotiated; the chosen
    /// format is the first sRGB entry of the surface's list, or the
    /// default when no list was reported.
    pub fn create(instance: &mut Instance, adapter: AdapterInfo) -> (r: Result<Device, DeviceError>)
        requires
            adapter.wf(),
            old(instance).next_device_id < u64::MAX,
        ensures
            final(instance).application_name == old(instance).application_name,
            final(instance).next_device_id == old(instance).next_device_id + 1,
            match r {
                Result::Ok(d) => {
                    &&& d.wf()
                    &&& d.id == old(instance).next_device_id
                    &&& Option::Some(d.color_format) == Self::negotiated_format(adapter.formats)
                    &&& d.memory_types == adapter.memory_types
                    &&& d.min_buffer_copy_pitch_alignment
                        == adapter.min_buffer_copy_pitch_alignment
                    &&& d.capabilities == adapter.caps
                    &&& d.submissions_in_flight == 0
                    &&& d.next_resource_id == 0
                },
                Result::Err(e) => {
                    &&& e == DeviceError::NoCompatibleFormat
                    &&& Self::negotiated_format(adapter.formats) is None
                },
            },
    {
        let id = instance.next_device_id;
        instance.next_device_id = instance.next_device_id + 1;

        let color_format: Format = match &adapter.formats {
            Option::None => Format::Rgba8Srgb,
            Option::Some(choices) => {
                match Self::select_srgb(choices) {
                    Option::Some(f) => f,
                    Option::None => {
                        return Result::Err(DeviceError::NoCompatibleFormat);
                    },
                }
            },
        };

        Result::Ok(
            Device {
                id,
                color_format,
                memory_types: adapter.memory_types,
                min_buffer_copy_pitch_alignment: adapter.min_buffer_copy_pitch_alignment,
                capabilities: adapter.caps,
                submissions_in_flight: 0,
                next_resource_id: 0,
            },
        )
    }

    /// Resolves a memory type: the lowest-indexed adapter memory type that
    /// appears in the requirement mask and carries every requested
    /// property flag, or a fatal error when none matches.
    pub fn upload_type_for(&self, type_mask: u64, properties: u32) -> (r: Result<
        usize,
        DeviceError,
    >)
        requires
            self.wf(),
        ensures
            match r {
                Result::Ok(i) => {
                    &&& mem_type_matches(self.memory_types@, type_mask, properties, i as int)
                    &&& forall|j: int|
                        0 <= j < i ==> !mem_type_matches(
                            self.memory_types@,
                            type_mask,
                            properties,
                            j,
                        )
                },
                Result::Err(e) => {
                    &&& e == DeviceError::NoCompatibleMemoryType
                    &&& forall|j: int|
                        !mem_type_matches(self.memory_types@, type_mask, properties, j)
                },
            },
    {
        let mut i: usize = 0;
        while i < self.memory_types.len()
            invariant
                self.wf(),
                i <= self.memory_types@.len(),
                forall|j: int|
                    0 <= j < i ==> !mem_type_matches(self.memory_types@, type_mask, properties, j),
            decreases self.memory_types@.len() - i,
        {
            let supported = (type_mask >> (i as u64)) & 1 == 1;
            if supported && self.memory_types[i] & properties == properties {
                return Result::Ok(i);
            }
            i = i + 1;
        }
        Result::Err(DeviceError::NoCompatibleMemoryType)
    }

    /// Accepts a pre-compiled shader binary. The device takes a nonempty
    /// whole-word binary; anything else is rejected with the shader error.
    pub fn load_shader_raw(&self, bytes: &[u8]) -> (r: Result<ShaderModule, DeviceError>)
        ensures
            match r {
                Result::Ok(m) => {
                    &&& m.code@ == bytes@
                    &&& m.wf()
                },
                Result::Err(e) => {
                    &&& e == DeviceError::ShaderModuleInvalid
                    &&& !(bytes@.len() > 0 && bytes@.len() % 4 == 0)
                },
            },
    {
        if bytes.len() > 0 && bytes.len() % 4 == 0 {
            Result::Ok(ShaderModule { code: vstd::slice::slice_to_vec(bytes) })
        } else {
            Result::Err(DeviceError::ShaderModuleInvalid)
        }
    }

    /// Blocks until every submission handed to the queue has retired. In
    /// the resource model that drains the in-flight counter; it is the one
    /// CPU-side idle wait, used only around swapchain destruction.
    pub fn wait_idle(&mut self)
        ensures
            *final(self) == (Device { submissions_in_flight: 0, ..*old(self) }),
    {
        self.submissions_in_flight = 0;
    }

    /// Issues a fresh identity for a GPU object the device creates.
    pub fn fresh_resource_id(&mut self) -> (r: u64)
        requires
            old(self).next_resource_id < u64::MAX,
        ensures
            r == old(self).next_resource_id,
            final(self).next_resource_id == old(self).next_resource_id + 1,
            final(self).id == old(self).id,
            final(self).color_format == old(self).color_format,
            final(self).memory_types == old(self).memory_types,
            final(self).min_buffer_copy_pitch_alignment == old(self).min_buffer_copy_pitch_alignment,
            final(self).capabilities == old(self).capabilities,
            final(self).submissions_in_flight == old(self).submissions_in_flight,
    {
        let r = self.next_resource_id;
        self.next_resource_id = self.next_resource_id + 1;
        r
    }

    pub fn create_token(&self) -> (t: DeviceToken)
        ensures
            t.device_id == self.id,
    {
        DeviceToken::create(self)
    }
}

/// A structure which contains device identity that destructors can hold
/// without borrowing the device itself; cloneable, shared ownership.
#[derive(Clone, Copy, PartialEq, Eq, Structural, Debug)]
pub struct DeviceToken {
    pub device_id: u64,
}

impl DeviceToken {
    /// Creates a device token from a device.
    pub fn create(device: &Device) -> (t: DeviceToken)
        ensures
            t.device_id == device.id,
    {
        DeviceToken { device_id: device.id }
    }
}

/// Unwrap-with-message: panics in the original on a missing value, so the
/// verified form demands the value up front.
pub trait LogExpect: Sized {
    type Out;

    spec fn has_value(&self) -> bool;

    spec fn value_of(self) -> Self::Out;

    fn log_expect(self, err: &str) -> (r: Self::Out)
        requires
            self.has_value(),
        ensures
            r == self.value_of(),
    ;
}

impl<T, E> LogExpect for Result<T, E> {
    type Out = T;

    open spec fn has_value(&self) -> bool {
        self is Ok
    }

    open spec fn value_of(self) -> T {
        self->Ok_0
    }

    fn log_expect(self, err: &str) -> (r: T) {
        match self {
            Result::Ok(t) => t,
            Result::Err(_) => vstd::pervasive::unreached(),
        }
    }
}

impl<T> LogExpect for Option<T> {
    type Out = T;

    open spec fn has_value(&self) -> bool {
        self is Some
    }

    open spec fn value_of(self) -> T {
        self->0
    }

    fn log_expect(self, err: &str) -> (r: T) {
        match self {
            Option::Some(t) => t,
            Option::None => vstd::pervasive::unreached(),
        }
    }
}

/// Process-wide logging configuration, initialized once and passed to call
/// sites; no ambient mutable state.
#[derive(Clone, Copy, PartialEq, Eq, Structural, Debug)]
pub struct LogConfig {
    pub print_log: bool,
    pub print_debug: bool,
    pub print_err: bool,
    pub debug_verbosity: u32,
}

impl LogConfig {
    /// The default configuration: everything printed, verbosity zero.
    pub fn all() -> (c: LogConfig)
        ensures
            c == (LogConfig {
                print_log: true,
                print_debug: true,
                print_err: true,
                debug_verbosity: 0,
            }),
    {
        LogConfig { print_log: true, print_debug: true, print_err: true, debug_verbosity: 0 }
    }

    /// Whether a debug message of the given verbosity should be shown.
    pub fn shows_debug(&self, verbosity: u32) -> (r: bool)
        ensures
            r == (self.print_debug && verbosity <= self.debug_verbosity),
    {
        self.print_debug && verbosity <= self.debug_verbosity
    }
}

} // verus!
