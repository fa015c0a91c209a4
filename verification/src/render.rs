//! Presentable surface and swapchain lifecycle, render-pass descriptions
//! and the per-draw transform block.
//!
//! A surface is `Valid` or `Invalid`, with a one-shot just-rebuilt flag.
//! Resizing or a failed presentation invalidates it; `rebuild` waits for
//! the device to idle, recreates the swapchain from the current
//! capabilities and recomputes the viewport and extent.

use vstd::prelude::*;
use vstd::arithmetic::div_mod::lemma_fundamental_div_mod_converse;

use crate::buffer::{ImageLayout, TextureBuffer};
use crate::device::{Device, DeviceError, DeviceToken, Format, SurfaceCaps};
use crate::types::Extent2d;

verus! {

/// The depth format of the standard render pass.
pub const STD_DEPTH_FORMAT: Format = Format::D32FloatS8Uint;

/// The bit pattern of the 32-bit floating-point value one, used on the
/// diagonal of identity matrices handed to the shader stages.
pub const FLOAT_ONE_BITS: u32 = 0x3F80_0000;

/// This structure represents the graphics surface object of a window:
/// the window-bound surface is an outside handle, and its logical pixel
/// size is what the engine decides from.
#[derive(Clone, Copy, PartialEq, Eq, Structural, Debug)]
pub struct WindowSurface {
    pub size: Extent2d,
}

impl WindowSurface {
    pub fn create(size: Extent2d) -> (r: WindowSurface)
        ensures
            r.size == size,
    {
        WindowSurface { size }
    }
}

/// A swapchain negotiated with the surface: a ring of presentable
/// images. Acquisition rotates through the ring.
#[derive(Clone, Copy, PartialEq, Eq, Structural, Debug)]
pub struct Swapchain {
    pub image_count: u32,
    pub format: Format,
    pub extent: Extent2d,
    pub next_image: u32,
    pub generation: u64,
}

impl Swapchain {
    pub open spec fn wf(self) -> bool {
        &&& self.image_count >= 1
        &&& self.next_image < self.image_count
    }
}

/// The parameters a swapchain is created with, derived from the surface
/// capabilities, the negotiated color format and the requested extent.
#[derive(Clone, Copy, PartialEq, Eq, Structural, Debug)]
pub struct SwapchainConfig {
    pub image_count: u32,
    pub format: Format,
    pub extent: Extent2d,
}

/// A value clamped into an inclusive range.
pub open spec fn clamped(v: u32, lo: u32, hi: u32) -> u32 {
    if v < lo {
        lo
    } else if v > hi {
        hi
    } else {
        v
    }
}

fn clamp_u32(v: u32, lo: u32, hi: u32) -> (r: u32)
    requires
        lo <= hi,
    ensures
        r == clamped(v, lo, hi),
{
    if v < lo {
        lo
    } else if v > hi {
        hi
    } else {
        v
    }
}

impl SwapchainConfig {
    /// The double-buffered configuration the capabilities allow: two
    /// images when the surface permits it, otherwise the nearest bound,
    /// and the requested extent clamped to the supported range.
    pub open spec fn spec_from_caps(caps: SurfaceCaps, format: Format, requested: Extent2d) -> SwapchainConfig {
        SwapchainConfig {
            image_count: clamped(2, caps.min_image_count, caps.max_image_count),
            format,
            extent: Extent2d {
                width: clamped(requested.width, caps.min_extent.width, caps.max_extent.width),
                height: clamped(requested.height, caps.min_extent.height, caps.max_extent.height),
            },
        }
    }

    pub fn from_caps(caps: &SurfaceCaps, format: Format, requested: Extent2d) -> (r: SwapchainConfig)
        requires
            caps.wf(),
        ensures
            r == Self::spec_from_caps(*caps, format, requested),
            r.image_count >= 1,
    {
        SwapchainConfig {
            image_count: clamp_u32(2, caps.min_image_count, caps.max_image_count),
            format,
            extent: Extent2d {
                width: clamp_u32(requested.width, caps.min_extent.width, caps.max_extent.width),
                height: clamp_u32(
                    requested.height,
                    caps.min_extent.height,
                    caps.max_extent.height,
                ),
            },
        }
    }
}

/// The screen region draws are rasterized into; it always covers the
/// swapchain extent from the origin.
#[derive(Clone, Copy, PartialEq, Eq, Structural, Debug)]
pub struct Viewport {
    pub x: i32,
    pub y: i32,
    pub width: u32,
    pub height: u32,
}

impl Viewport {
    pub open spec fn of_extent(extent: Extent2d) -> Viewport {
        Viewport { x: 0, y: 0, width: extent.width, height: extent.height }
    }
}

/// A framebuffer: one swapchain image bound to the render pass's
/// attachments, together with the depth view when the pass has one.
#[derive(Clone, Copy, PartialEq, Eq, Structural, Debug)]
pub struct Framebuffer {
    pub image_index: u32,
    pub extent: Extent2d,
    pub has_depth: bool,
    pub swapchain_generation: u64,
}

/// How an attachment's contents are treated when a pass begins.
#[derive(Clone, Copy, PartialEq, Eq, Structural, Debug)]
pub enum AttachmentLoadOp {
    Clear,
    Load,
    DontCare,
}

/// How an attachment's contents are treated when a pass ends.
#[derive(Clone, Copy, PartialEq, Eq, Structural, Debug)]
pub enum AttachmentStoreOp {
    Store,
    DontCare,
}

/// One attachment of a render pass.
#[derive(Clone, Copy, PartialEq, Eq, Structural, Debug)]
pub struct Attachment {
    pub format: Option<Format>,
    pub samples: u8,
    pub load_op: AttachmentLoadOp,
    pub store_op: AttachmentStoreOp,
    pub stencil_load_op: AttachmentLoadOp,
    pub stencil_store_op: AttachmentStoreOp,
    pub initial_layout: ImageLayout,
    pub final_layout: ImageLayout,
}

/// The single subpass of the standard pass: which attachments it writes.
#[derive(Clone, PartialEq, Eq, Debug)]
pub struct SubpassDesc {
    pub color_attachment: u32,
    pub depth_stencil_attachment: Option<u32>,
}

/// A fixed attachment/subpass description, compiled once and never
/// patched afterwards.
#[derive(Clone, Debug)]
pub struct RenderPass {
    pub attachments: Vec<Attachment>,
    pub subpass: SubpassDesc,
}

impl RenderPass {
    /// Whether this is the standard pass for the given color format: one
    /// cleared, stored color attachment in that format, presented at the
    /// end, and one cleared depth-stencil attachment in the standard
    /// depth format.
    pub open spec fn is_basic(self, color_format: crate::device::Format) -> bool {
        &&& self.attachments@.len() == 2
        &&& self.attachments@[0] == (Attachment {
            format: Option::Some(color_format),
            samples: 1,
            load_op: AttachmentLoadOp::Clear,
            store_op: AttachmentStoreOp::Store,
            stencil_load_op: AttachmentLoadOp::DontCare,
            stencil_store_op: AttachmentStoreOp::DontCare,
            initial_layout: ImageLayout::Undefined,
            final_layout: ImageLayout::Present,
        })
        &&& self.attachments@[1] == (Attachment {
            format: Option::Some(STD_DEPTH_FORMAT),
            samples: 1,
            load_op: AttachmentLoadOp::Clear,
            store_op: AttachmentStoreOp::DontCare,
            stencil_load_op: AttachmentLoadOp::DontCare,
            stencil_store_op: AttachmentStoreOp::DontCare,
            initial_layout: ImageLayout::Undefined,
            final_layout: ImageLayout::DepthStencilAttachment,
        })
        &&& self.subpass == (SubpassDesc {
            color_attachment: 0,
            depth_stencil_attachment: Option::Some(1),
        })
    }

    /// The standard pass: one cleared, stored color attachment in the
    /// device's negotiated format, presented at the end, and one cleared
    /// depth-stencil attachment in the standard depth format.
    pub fn create_basic(device: &Device) -> (r: RenderPass)
        ensures
            r.is_basic(device.color_format),
            r.attachments@.len() == 2,
            r.attachments@[0] == (Attachment {
                format: Option::Some(device.color_format),
                samples: 1,
                load_op: AttachmentLoadOp::Clear,
                store_op: AttachmentStoreOp::Store,
                stencil_load_op: AttachmentLoadOp::DontCare,
                stencil_store_op: AttachmentStoreOp::DontCare,
                initial_layout: ImageLayout::Undefined,
                final_layout: ImageLayout::Present,
            }),
            r.attachments@[1] == (Attachment {
                format: Option::Some(STD_DEPTH_FORMAT),
                samples: 1,
                load_op: AttachmentLoadOp::Clear,
                store_op: AttachmentStoreOp::DontCare,
                stencil_load_op: AttachmentLoadOp::DontCare,
                stencil_store_op: AttachmentStoreOp::DontCare,
                initial_layout: ImageLayout::Undefined,
                final_layout: ImageLayout::DepthStencilAttachment,
            }),
            r.subpass == (SubpassDesc {
                color_attachment: 0,
                depth_stencil_attachment: Option::Some(1),
            }),
    {
        let color_attachment = Attachment {
            format: Option::Some(device.color_format),
            samples: 1,
            load_op: AttachmentLoadOp::Clear,
            store_op: AttachmentStoreOp::Store,
            stencil_load_op: AttachmentLoadOp::DontCare,
            stencil_store_op: AttachmentStoreOp::DontCare,
            initial_layout: ImageLayout::Undefined,
            final_layout: ImageLayout::Present,
        };
        let depth_attachment = Attachment {
            format: Option::Some(STD_DEPTH_FORMAT),
            samples: 1,
            load_op: AttachmentLoadOp::Clear,
            store_op: AttachmentStoreOp::DontCare,
            stencil_load_op: AttachmentLoadOp::DontCare,
            stencil_store_op: AttachmentStoreOp::DontCare,
            initial_layout: ImageLayout::Undefined,
            final_layout: ImageLayout::DepthStencilAttachment,
        };
        let mut attachments: Vec<Attachment> = Vec::new();
        attachments.push(color_attachment);
        attachments.push(depth_attachment);
        RenderPass {
            attachments,
            subpass: SubpassDesc { color_attachment: 0, depth_stencil_attachment: Option::Some(1) },
        }
    }
}

/// The presentable surface of a window: swapchain, viewport, extent,
/// validity flag and the one-shot just-rebuilt flag.
pub struct Surface {
    pub is_valid: bool,
    pub did_rebuild: bool,
    pub window_surface: WindowSurface,
    pub swapchain: Swapchain,
    pub backbuffer: Option<u32>,
    pub viewport: Viewport,
    pub extent: Extent2d,
    pub device_token: DeviceToken,
}

impl Surface {
    pub open spec fn wf(self) -> bool {
        &&& self.swapchain.wf()
        &&& self.viewport == Viewport::of_extent(self.extent)
        &&& self.extent == self.swapchain.extent
    }

    /// Creates the surface's first swapchain from the device's cached
    /// capabilities, valid and not just-rebuilt, with the whole
    /// backbuffer available for framebuffers.
    pub fn create(window_surface: WindowSurface, device: &Device) -> (r: Surface)
        requires
            device.wf(),
        ensures
            r.wf(),
            r.is_valid,
            !r.did_rebuild,
            r.window_surface == window_surface,
            r.swapchain.image_count == SwapchainConfig::spec_from_caps(
                device.capabilities,
                device.color_format,
                window_surface.size,
            ).image_count,
            r.swapchain.format == device.color_format,
            r.swapchain.next_image == 0,
            r.swapchain.generation == 0,
            r.extent == SwapchainConfig::spec_from_caps(
                device.capabilities,
                device.color_format,
                window_surface.size,
            ).extent,
            r.backbuffer == Option::Some(r.swapchain.image_count),
            r.device_token.device_id == device.id,
    {
        let swap_config = SwapchainConfig::from_caps(
            &device.capabilities,
            device.color_format,
            window_surface.size,
        );
        let extent = swap_config.extent;
        let swapchain = Swapchain {
            image_count: swap_config.image_count,
            format: swap_config.format,
            extent,
            next_image: 0,
            generation: 0,
        };
        Surface {
            is_valid: true,
            did_rebuild: false,
            window_surface,
            swapchain,
            backbuffer: Option::Some(swapchain.image_count),
            viewport: Viewport { x: 0, y: 0, width: extent.width, height: extent.height },
            extent,
            device_token: device.create_token(),
        }
    }

    /// Makes the swapchain invalid so that it is rebuilt before the next
    /// frame.
    pub fn invalidate(&mut self)
        ensures
            *final(self) == (Surface { is_valid: false, ..*old(self) }),
    {
        self.is_valid = false;
    }

    /// Waits for the device to idle before the old swapchain is
    /// destroyed: the only safe point to tear it down.
    pub fn destroy_swapchain(&mut self, device: &mut Device)
        ensures
            *final(self) == *old(self),
            *final(device) == (Device { submissions_in_flight: 0, ..*old(device) }),
    {
        device.wait_idle();
    }

    /// Rebuilds the swapchain for the window's new size: waits for the
    /// device to idle, re-reads the capabilities, recreates the swapchain
    /// (hinting with the old one) and recomputes viewport and extent.
    /// Afterwards the surface is valid and marked just-rebuilt.
    pub fn rebuild(&mut self, new_size: Extent2d, device: &mut Device)
        requires
            old(device).wf(),
            old(self).swapchain.generation < u64::MAX,
        ensures
            final(self).wf(),
            final(self).is_valid,
            final(self).did_rebuild,
            final(self).window_surface.size == new_size,
            final(self).swapchain.image_count == SwapchainConfig::spec_from_caps(
                old(device).capabilities,
                old(device).color_format,
                new_size,
            ).image_count,
            final(self).swapchain.format == old(device).color_format,
            final(self).swapchain.next_image == 0,
            final(self).swapchain.generation == old(self).swapchain.generation + 1,
            final(self).extent == SwapchainConfig::spec_from_caps(
                old(device).capabilities,
                old(device).color_format,
                new_size,
            ).extent,
            final(self).backbuffer == Option::Some(final(self).swapchain.image_count),
            final(self).device_token == old(self).device_token,
            *final(device) == (Device { submissions_in_flight: 0, ..*old(device) }),
    {
        self.destroy_swapchain(device);
        self.window_surface.size = new_size;
        let caps = device.capabilities;
        let swap_config = SwapchainConfig::from_caps(&caps, device.color_format, new_size);
        let extent = swap_config.extent;
        self.swapchain = Swapchain {
            image_count: swap_config.image_count,
            format: swap_config.format,
            extent,
            next_image: 0,
            generation: self.swapchain.generation + 1,
        };
        self.backbuffer = Option::Some(swap_config.image_count);
        self.viewport = Viewport { x: 0, y: 0, width: extent.width, height: extent.height };
        self.extent = extent;
        self.is_valid = true;
        self.did_rebuild = true;
    }

    /// Reads and clears the one-shot just-rebuilt flag. The one consumer
    /// that depends on framebuffer identity calls this after it reacts,
    /// so exactly one read observes `true` per rebuild.
    pub fn consume_rebuilt(&mut self) -> (r: bool)
        ensures
            r == old(self).did_rebuild,
            *final(self) == (Surface { did_rebuild: false, ..*old(self) }),
    {
        let r = self.did_rebuild;
        self.did_rebuild = false;
        r
    }

    /// Builds one framebuffer per backbuffer image, with a fresh depth
    /// view when the pass wants one. The backbuffer can be taken only
    /// once per (re)build; later calls return no framebuffers.
    pub fn create_framebuffers(
        &mut self,
        render_pass: &RenderPass,
        depth: Option<Format>,
        device: &Device,
    ) -> (r: Result<Vec<Framebuffer>, DeviceError>)
        requires
            device.wf(),
            4 * (old(self).extent.width as nat) * (old(self).extent.height as nat) <= usize::MAX,
        ensures
            final(self).is_valid == old(self).is_valid,
            final(self).did_rebuild == old(self).did_rebuild,
            final(self).swapchain == old(self).swapchain,
            final(self).extent == old(self).extent,
            final(self).viewport == old(self).viewport,
            final(self).window_surface == old(self).window_surface,
            final(self).device_token == old(self).device_token,
            match r {
                Result::Ok(fbs) => {
                    &&& match old(self).backbuffer {
                        Option::Some(n) => {
                            &&& fbs@.len() == n
                            &&& final(self).backbuffer is None
                            &&& forall|i: int|
                                0 <= i < n ==> fbs@[i] == (Framebuffer {
                                    image_index: i as u32,
                                    extent: old(self).extent,
                                    has_depth: depth is Some,
                                    swapchain_generation: old(self).swapchain.generation,
                                })
                        },
                        Option::None => {
                            &&& fbs@.len() == 0
                            &&& final(self).backbuffer is None
                        },
                    }
                },
                Result::Err(e) => {
                    &&& e == DeviceError::NoCompatibleMemoryType
                    &&& depth is Some
                    &&& final(self).backbuffer == old(self).backbuffer
                    &&& forall|j: int|
                        !crate::device::mem_type_matches(
                            device.memory_types@,
                            u64::MAX,
                            crate::device::MEMORY_DEVICE_LOCAL,
                            j,
                        )
                },
            },
    {
        if let Option::Some(depth_format) = depth {
            let depth_view = TextureBuffer::create_depth(self.extent, depth_format, device);
            if let Result::Err(e) = depth_view {
                return Result::Err(e);
            }
        }
        let mut framebuffers: Vec<Framebuffer> = Vec::new();
        match self.backbuffer {
            Option::Some(n) => {
                let mut i: u32 = 0;
                while i < n
                    invariant
                        i <= n,
                        framebuffers@.len() == i as nat,
                        forall|k: int|
                            0 <= k < i ==> framebuffers@[k] == (Framebuffer {
                                image_index: k as u32,
                                extent: self.extent,
                                has_depth: depth is Some,
                                swapchain_generation: self.swapchain.generation,
                            }),
                        self == old(self),
                    decreases n - i,
                {
                    framebuffers.push(
                        Framebuffer {
                            image_index: i,
                            extent: self.extent,
                            has_depth: depth.is_some(),
                            swapchain_generation: self.swapchain.generation,
                        },
                    );
                    i = i + 1;
                }
                self.backbuffer = Option::None;
                Result::Ok(framebuffers)
            },
            Option::None => {
                self.backbuffer = Option::None;
                Result::Ok(framebuffers)
            },
        }
    }
}

/// The renderer structure: the device together with the surface its
/// frames present to.
pub struct Graphics {
    pub device: Device,
    pub render_surface: Surface,
}

impl Graphics {
    /// Couples a device with the surface created for the window it
    /// presents to.
    pub fn create(device: Device, render_surface: Surface) -> (r: Graphics)
        ensures
            r.device == device,
            r.render_surface == render_surface,
    {
        Graphics { device, render_surface }
    }
}

/// A 4x4 matrix of 32-bit floating-point values, carried by bit pattern:
/// the engine hands the words to the shader stages and never computes on
/// them.
#[derive(Clone, Copy, PartialEq, Eq, Debug)]
pub struct Mat4 {
    pub data: [u32; 16],
}

/// The words of the identity matrix: the bit pattern of one on the
/// diagonal.
pub open spec fn identity_words() -> Seq<u32> {
    Seq::new(
        16,
        |i: int|
            if i == 0 || i == 5 || i == 10 || i == 15 {
                FLOAT_ONE_BITS
            } else {
                0u32
            },
    )
}

impl Mat4 {
    /// The identity matrix.
    pub fn identity() -> (r: Mat4)
        ensures
            r.data@ =~= identity_words(),
    {
        let data: [u32; 16] = [
            FLOAT_ONE_BITS,
            0,
            0,
            0,
            0,
            FLOAT_ONE_BITS,
            0,
            0,
            0,
            0,
            FLOAT_ONE_BITS,
            0,
            0,
            0,
            0,
            FLOAT_ONE_BITS,
        ];
        Mat4 { data }
    }

    pub fn new(data: [u32; 16]) -> (r: Mat4)
        ensures
            r.data == data,
    {
        Mat4 { data }
    }
}

/// The per-draw transform block: model, view and projection matrices, 48
/// words pushed to the vertex stage ahead of each draw.
#[derive(Clone, Copy, PartialEq, Eq, Debug)]
pub struct RenderTransform {
    pub model: Mat4,
    pub view: Mat4,
    pub projection: Mat4,
}

impl RenderTransform {
    /// The words of the block, model first, in column order.
    pub open spec fn words(self) -> Seq<u32> {
        self.model.data@ + self.view.data@ + self.projection.data@
    }

    pub fn identity() -> (r: RenderTransform)
        ensures
            r.model.data@ == identity_words(),
            r.view.data@ == identity_words(),
            r.projection.data@ == identity_words(),
    {
        RenderTransform {
            model: Mat4::identity(),
            view: Mat4::identity(),
            projection: Mat4::identity(),
        }
    }

    pub fn new(model: Mat4, view: Mat4, projection: Mat4) -> (r: RenderTransform)
        ensures
            r == (RenderTransform { model, view, projection }),
    {
        RenderTransform { model, view, projection }
    }

    /// The 48 push-constant words of the block.
    pub fn to_words(&self) -> (r: Vec<u32>)
        ensures
            r@ == self.words(),
            r@.len() == 48,
    {
        let mut out: Vec<u32> = Vec::new();
        let mut i: usize = 0;
        while i < 16
            invariant
                i <= 16,
                out@ =~= self.model.data@.take(i as int),
            decreases 16 - i,
        {
            out.push(self.model.data[i]);
            i = i + 1;
        }
        let mut i: usize = 0;
        while i < 16
            invariant
                i <= 16,
                out@ =~= self.model.data@ + self.view.data@.take(i as int),
            decreases 16 - i,
        {
            out.push(self.view.data[i]);
            i = i + 1;
        }
        let mut i: usize = 0;
        while i < 16
            invariant
                i <= 16,
                out@ =~= self.model.data@ + self.view.data@ + self.projection.data@.take(i as int),
            decreases 16 - i,
        {
            out.push(self.projection.data[i]);
            i = i + 1;
        }
        proof {
            assert(out@ =~= self.words());
        }
        out
    }
}

/// A surface as one read of the just-rebuilt flag leaves it.
pub open spec fn consumed_surface(s: Surface) -> Surface {
    Surface { did_rebuild: false, ..s }
}

/// The just-rebuilt flag is one-shot: right after a rebuild it reads
/// `true` exactly once; every later read gives `false` until the next
/// rebuild, and consuming changes nothing else about the surface.
pub proof fn lemma_rebuild_flag_one_shot(after_rebuild: Surface)
    requires
        after_rebuild.did_rebuild,
    ensures
        after_rebuild.did_rebuild,
        !consumed_surface(after_rebuild).did_rebuild,
        consumed_surface(consumed_surface(after_rebuild)) == consumed_surface(after_rebuild),
        consumed_surface(after_rebuild).is_valid == after_rebuild.is_valid,
        consumed_surface(after_rebuild).swapchain == after_rebuild.swapchain,
        consumed_surface(after_rebuild).extent == after_rebuild.extent,
{
}

impl RenderTransform {
    /// Uploads the block into a fresh host-visible uniform buffer.
    pub fn alloc_buffer(self, device: &Device) -> (r: Result<
        crate::buffer::Buffer,
        crate::device::DeviceError,
    >)
        requires
            device.wf(),
        ensures
            match r {
                Result::Ok(b) => {
                    &&& b.wf()
                    &&& b.filled_bytes() == le_bytes_of_words(self.words())
                    &&& b.count == 1
                },
                Result::Err(e) => {
                    &&& e == crate::device::DeviceError::NoCompatibleMemoryType
                    &&& forall|j: int|
                        !crate::device::mem_type_matches(
                            device.memory_types@,
                            u64::MAX,
                            crate::device::MEMORY_CPU_VISIBLE,
                            j,
                        )
                },
            },
    {
        let words = self.to_words();
        let bytes = words_to_le_bytes(&words);
        proof {
            assert(bytes@.len() == 192);
            assert(192nat % 192nat == 0nat) by (nonlinear_arith);
            assert(192nat / 192nat == 1nat) by (nonlinear_arith);
        }
        crate::buffer::Buffer::alloc_uniform(bytes.as_slice(), 192, device)
    }
}

/// The little-endian byte serialization of a word sequence: four bytes
/// per word, least-significant first.
pub open spec fn le_bytes_of_words(words: Seq<u32>) -> Seq<u8> {
    Seq::new(4 * words.len(), |i: int| word_byte(words[i / 4], i % 4))
}

/// Byte `k` (little-endian) of a word.
pub open spec fn word_byte(w: u32, k: int) -> u8 {
    ((w >> (8 * k) as u32) & 0xff) as u8
}

/// Serializes words into little-endian bytes.
pub fn words_to_le_bytes(words: &Vec<u32>) -> (r: Vec<u8>)
    requires
        4 * words@.len() <= usize::MAX,
    ensures
        r@ == le_bytes_of_words(words@),
        r@.len() == 4 * words@.len(),
{
    let mut out: Vec<u8> = Vec::new();
    let mut i: usize = 0;
    while i < words.len()
        invariant
            i <= words@.len(),
            4 * words@.len() <= usize::MAX,
            out@.len() == 4 * i as nat,
            forall|k: int| 0 <= k < out@.len() ==> out@[k] == le_bytes_of_words(words@)[k],
        decreases words@.len() - i,
    {
        let w = words[i];
        let b0: u8 = (w & 0xff) as u8;
        let b1: u8 = ((w >> 8u32) & 0xff) as u8;
        let b2: u8 = ((w >> 16u32) & 0xff) as u8;
        let b3: u8 = ((w >> 24u32) & 0xff) as u8;
        proof {
            let base = 4 * i as int;
            lemma_fundamental_div_mod_converse(base, 4, i as int, 0);
            lemma_fundamental_div_mod_converse(base + 1, 4, i as int, 1);
            lemma_fundamental_div_mod_converse(base + 2, 4, i as int, 2);
            lemma_fundamental_div_mod_converse(base + 3, 4, i as int, 3);
            assert(w >> 0u32 == w) by (bit_vector);
        }
        out.push(b0);
        out.push(b1);
        out.push(b2);
        out.push(b3);
        i = i + 1;
    }
    proof {
        assert(out@ =~= le_bytes_of_words(words@));
    }
    out
}

} // verus!
