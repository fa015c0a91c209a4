//! GPU buffers and texture images over the device's memory model.
//!
//! A buffer holds its backing bytes directly; filling maps, copies and
//! unmaps, and `count` always matches the most recent fill. Texture upload
//! computes an aligned row pitch, writes rows into a staging buffer at
//! that pitch, and copies the staged rows into the image, ending in the
//! shader-read-only layout.

use vstd::prelude::*;
use vstd::arithmetic::div_mod::{
    lemma_fundamental_div_mod,
    lemma_fundamental_div_mod_converse,
};

use crate::device::{Device, DeviceError, DeviceToken, MEMORY_CPU_VISIBLE, MEMORY_DEVICE_LOCAL, Format};
use crate::types::Extent2d;

verus! {

/// Buffer usage flags of the engine's memory model.
pub const USAGE_VERTEX: u32 = 1;

pub const USAGE_UNIFORM: u32 = 2;

pub const USAGE_TRANSFER_SRC: u32 = 4;

pub const USAGE_TRANSFER_DST: u32 = 8;

/// Image usage flags.
pub const IMAGE_USAGE_TRANSFER_DST: u32 = 1;

pub const IMAGE_USAGE_SAMPLED: u32 = 2;

pub const IMAGE_USAGE_DEPTH_STENCIL: u32 = 4;

/// Image aspect flags.
pub const ASPECT_COLOR: u32 = 1;

pub const ASPECT_DEPTH: u32 = 2;

pub const ASPECT_STENCIL: u32 = 4;

/// Bytes of one packed pixel: four 8-bit channels.
pub const PIXEL_STRIDE: u32 = 4;

/// This structure represents a GPU buffer which contains memory of a
/// specific element stride. The backing allocation is fixed at creation
/// and never grows; `count` matches the most recent fill.
#[derive(Debug)]
pub struct Buffer {
    pub bytes: Vec<u8>,
    pub stride: usize,
    pub count: usize,
    pub usage: u32,
    pub properties: u32,
    pub memory_type: usize,
    pub device_token: DeviceToken,
}

impl Buffer {
    pub open spec fn wf(self) -> bool {
        &&& self.stride >= 1
        &&& self.count * self.stride <= self.bytes@.len()
    }

    /// The bytes a host-mapped read of the current contents returns.
    pub open spec fn filled_bytes(self) -> Seq<u8> {
        self.bytes@.take((self.count * self.stride) as int)
    }

    /// Reserves zeroed memory sized for `count` elements of `stride`
    /// bytes, resolved to the lowest-indexed memory type carrying the
    /// requested properties. Fails exactly when no memory type matches —
    /// a fatal configuration error.
    pub fn alloc_empty(
        count: usize,
        stride: usize,
        usage: u32,
        properties: u32,
        device: &Device,
    ) -> (r: Result<Buffer, DeviceError>)
        requires
            device.wf(),
            stride >= 1,
            count * stride <= usize::MAX,
        ensures
            match r {
                Result::Ok(b) => {
                    &&& b.wf()
                    &&& b.bytes@ == Seq::new((count * stride) as nat, |i: int| 0u8)
                    &&& b.stride == stride
                    &&& b.count == count
                    &&& b.usage == usage
                    &&& b.properties == properties
                    &&& b.device_token.device_id == device.id
                    &&& crate::device::mem_type_matches(
                        device.memory_types@,
                        u64::MAX,
                        properties,
                        b.memory_type as int,
                    )
                },
                Result::Err(e) => {
                    &&& e == DeviceError::NoCompatibleMemoryType
                    &&& forall|j: int|
                        !crate::device::mem_type_matches(device.memory_types@, u64::MAX, properties, j)
                },
            },
    {
        let memory_type = match device.upload_type_for(u64::MAX, properties) {
            Result::Ok(t) => t,
            Result::Err(e) => {
                return Result::Err(e);
            },
        };
        let len = count * stride;
        let mut bytes: Vec<u8> = Vec::new();
        let mut i: usize = 0;
        while i < len
            invariant
                i <= len,
                bytes@ =~= Seq::new(i as nat, |k: int| 0u8),
            decreases len - i,
        {
            bytes.push(0u8);
            i = i + 1;
        }
        proof {
            assert(count * stride >= count) by (nonlinear_arith)
                requires stride >= 1, count >= 0;
        }
        Result::Ok(
            Buffer {
                bytes,
                stride,
                count,
                usage,
                properties,
                memory_type,
                device_token: device.create_token(),
            },
        )
    }

    /// Maps the buffer, copies `data` over the front of the allocation and
    /// unmaps; `count` becomes the number of whole elements written. It is
    /// the responsibility of the caller to hand bytes of the right stride.
    pub fn fill_buffer(&mut self, data: &[u8], device: &Device)
        requires
            old(self).wf(),
            old(self).properties & MEMORY_CPU_VISIBLE == MEMORY_CPU_VISIBLE,
            data@.len() % (old(self).stride as nat) == 0,
            data@.len() <= old(self).bytes@.len(),
        ensures
            final(self).wf(),
            final(self).bytes@ == data@ + old(self).bytes@.skip(data@.len() as int),
            final(self).count == data@.len() / (old(self).stride as nat),
            final(self).filled_bytes() == data@,
            final(self).stride == old(self).stride,
            final(self).usage == old(self).usage,
            final(self).properties == old(self).properties,
            final(self).memory_type == old(self).memory_type,
            final(self).bytes@.len() == old(self).bytes@.len(),
            final(self).device_token == old(self).device_token,
    {
        let ghost old_bytes = self.bytes@;
        let mut i: usize = 0;
        while i < data.len()
            invariant
                i <= data@.len(),
                data@.len() <= self.bytes@.len(),
                self.bytes@.len() == old_bytes.len(),
                forall|k: int| 0 <= k < i ==> self.bytes@[k] == data@[k],
                forall|k: int| i <= k < old_bytes.len() ==> self.bytes@[k] == old_bytes[k],
                self.stride == old(self).stride,
                self.count == old(self).count,
                self.usage == old(self).usage,
                self.properties == old(self).properties,
                self.memory_type == old(self).memory_type,
                self.device_token == old(self).device_token,
            decreases data@.len() - i,
        {
            let b = data[i];
            self.bytes.set(i, b);
            i = i + 1;
        }
        self.count = data.len() / self.stride;
        proof {
            assert(self.bytes@ =~= data@ + old_bytes.skip(data@.len() as int));
            let n = data@.len() as int;
            let s = self.stride as int;
            lemma_fundamental_div_mod(n, s);
            assert((n / s) * s <= n) by (nonlinear_arith)
                requires n >= 0, s >= 1, n % s == 0, n == s * (n / s);
            assert(self.filled_bytes() =~= data@);
        }
    }

    /// A host-mapped read-back of the most recent fill: the first
    /// `count * stride` bytes of the allocation.
    pub fn read_back(&self, device: &Device) -> (r: Vec<u8>)
        requires
            self.wf(),
            self.properties & MEMORY_CPU_VISIBLE == MEMORY_CPU_VISIBLE,
        ensures
            r@ == self.filled_bytes(),
    {
        let cap = self.bytes.len();
        proof {
            assert(self.count * self.stride <= cap);
        }
        let len = self.count * self.stride;
        let mut out: Vec<u8> = Vec::new();
        let mut i: usize = 0;
        while i < len
            invariant
                i <= len,
                len == self.count * self.stride <= self.bytes@.len(),
                out@ =~= self.bytes@.take(i as int),
            decreases len - i,
        {
            let b = self.bytes[i];
            out.push(b);
            i = i + 1;
        }
        out
    }

    /// Allocates and fills in one step.
    pub fn alloc_filled(
        data: &[u8],
        stride: usize,
        usage: u32,
        properties: u32,
        device: &Device,
    ) -> (r: Result<Buffer, DeviceError>)
        requires
            device.wf(),
            stride >= 1,
            properties & MEMORY_CPU_VISIBLE == MEMORY_CPU_VISIBLE,
            data@.len() % (stride as nat) == 0,
        ensures
            match r {
                Result::Ok(b) => {
                    &&& b.wf()
                    &&& b.filled_bytes() == data@
                    &&& b.bytes@ == data@
                    &&& b.stride == stride
                    &&& b.count == data@.len() / (stride as nat)
                    &&& b.usage == usage
                    &&& b.properties == properties
                },
                Result::Err(e) => {
                    &&& e == DeviceError::NoCompatibleMemoryType
                    &&& forall|j: int|
                        !crate::device::mem_type_matches(
                            device.memory_types@,
                            u64::MAX,
                            properties,
                            j,
                        )
                },
            },
    {
        proof {
            let n = data@.len() as int;
            let s = stride as int;
            lemma_fundamental_div_mod(n, s);
            assert((n / s) * s == n) by (nonlinear_arith)
                requires n >= 0, s >= 1, n % s == 0, n == s * (n / s);
        }
        let count = data.len() / stride;
        let mut buffer = match Self::alloc_empty(count, stride, usage, properties, device) {
            Result::Ok(b) => b,
            Result::Err(e) => {
                return Result::Err(e);
            },
        };
        buffer.fill_buffer(data, device);
        proof {
            assert(buffer.bytes@ =~= data@);
        }
        Result::Ok(buffer)
    }

    /// Allocates a host-visible vertex buffer from packed vertex bytes.
    pub fn alloc_vertex(data: &[u8], stride: usize, device: &Device) -> (r: Result<
        Buffer,
        DeviceError,
    >)
        requires
            device.wf(),
            stride >= 1,
            data@.len() % (stride as nat) == 0,
        ensures
            match r {
                Result::Ok(b) => {
                    &&& b.wf()
                    &&& b.filled_bytes() == data@
                    &&& b.stride == stride
                    &&& b.count == data@.len() / (stride as nat)
                    &&& b.usage == USAGE_VERTEX
                    &&& b.properties == MEMORY_CPU_VISIBLE
                },
                Result::Err(e) => {
                    &&& e == DeviceError::NoCompatibleMemoryType
                    &&& forall|j: int|
                        !crate::device::mem_type_matches(
                            device.memory_types@,
                            u64::MAX,
                            MEMORY_CPU_VISIBLE,
                            j,
                        )
                },
            },
    {
        proof {
            assert(MEMORY_CPU_VISIBLE & MEMORY_CPU_VISIBLE == MEMORY_CPU_VISIBLE) by (bit_vector);
        }
        Self::alloc_filled(data, stride, USAGE_VERTEX, MEMORY_CPU_VISIBLE, device)
    }

    /// Allocates a host-visible uniform buffer from packed bytes.
    pub fn alloc_uniform(data: &[u8], stride: usize, device: &Device) -> (r: Result<
        Buffer,
        DeviceError,
    >)
        requires
            device.wf(),
            stride >= 1,
            data@.len() % (stride as nat) == 0,
        ensures
            match r {
                Result::Ok(b) => {
                    &&& b.wf()
                    &&& b.filled_bytes() == data@
                    &&& b.stride == stride
                    &&& b.count == data@.len() / (stride as nat)
                    &&& b.usage == USAGE_UNIFORM
                    &&& b.properties == MEMORY_CPU_VISIBLE
                },
                Result::Err(e) => {
                    &&& e == DeviceError::NoCompatibleMemoryType
                    &&& forall|j: int|
                        !crate::device::mem_type_matches(
                            device.memory_types@,
                            u64::MAX,
                            MEMORY_CPU_VISIBLE,
                            j,
                        )
                },
            },
    {
        proof {
            assert(MEMORY_CPU_VISIBLE & MEMORY_CPU_VISIBLE == MEMORY_CPU_VISIBLE) by (bit_vector);
        }
        Self::alloc_filled(data, stride, USAGE_UNIFORM, MEMORY_CPU_VISIBLE, device)
    }

    /// Allocates an empty host-visible uniform buffer for `count` elements.
    pub fn alloc_uniform_empty(count: usize, stride: usize, device: &Device) -> (r: Result<
        Buffer,
        DeviceError,
    >)
        requires
            device.wf(),
            stride >= 1,
            count * stride <= usize::MAX,
        ensures
            match r {
                Result::Ok(b) => {
                    &&& b.wf()
                    &&& b.count == count
                    &&& b.stride == stride
                    &&& b.usage == USAGE_UNIFORM
                    &&& b.properties == MEMORY_CPU_VISIBLE
                },
                Result::Err(e) => {
                    &&& e == DeviceError::NoCompatibleMemoryType
                    &&& forall|j: int|
                        !crate::device::mem_type_matches(
                            device.memory_types@,
                            u64::MAX,
                            MEMORY_CPU_VISIBLE,
                            j,
                        )
                },
            },
    {
        Self::alloc_empty(count, stride, USAGE_UNIFORM, MEMORY_CPU_VISIBLE, device)
    }
}

/// Buffer round-trip: a buffer in any state that a fill with `data`
/// leaves behind reads back exactly `data`, and its count is the number
/// of whole elements written.
pub proof fn lemma_fill_read_back_round_trip(pre: Buffer, post: Buffer, data: Seq<u8>)
    requires
        pre.wf(),
        data.len() % (pre.stride as nat) == 0,
        data.len() <= pre.bytes@.len(),
        post.stride == pre.stride,
        post.bytes@ == data + pre.bytes@.skip(data.len() as int),
        post.count == data.len() / (pre.stride as nat),
    ensures
        post.filled_bytes() == data,
        post.count * post.stride == data.len(),
{
    let n = data.len() as int;
    let s = pre.stride as int;
    lemma_fundamental_div_mod(n, s);
    assert((n / s) * s == n) by (nonlinear_arith)
        requires n >= 0, s >= 1, n % s == 0, n == s * (n / s);
    assert(post.filled_bytes() =~= data);
}

/// Row pitch of an image upload: the smallest multiple of `alignment`
/// that is at least `width * 4` bytes, computed from the device's minimum
/// buffer-copy pitch alignment.
pub fn aligned_row_pitch(width: u32, alignment: u64) -> (r: u64)
    requires
        1 <= alignment <= u32::MAX,
    ensures
        r == crate::round_up(4 * width as nat, alignment as nat),
        r % alignment == 0,
        4 * (width as u64) <= r < 4 * (width as nat) + alignment,
{
    let row: u64 = 4 * (width as u64);
    let rem: u64 = row % alignment;
    let r: u64 = if rem == 0 {
        row
    } else {
        row + (alignment - rem)
    };
    proof {
        let a = alignment as int;
        let v = row as int;
        lemma_fundamental_div_mod(v, a);
        if rem != 0 {
            let q = v / a + 1;
            assert(v + (a - v % a) == q * a + 0) by (nonlinear_arith)
                requires
                    v == a * (v / a) + v % a,
                    q == v / a + 1,
            ;
            lemma_fundamental_div_mod_converse(v + (a - v % a), a, q, 0);
        }
    }
    r
}

/// Any multiple of the alignment that covers the row is at least the
/// rounded-up value: the computed pitch is the smallest such multiple.
pub proof fn lemma_pitch_minimality(row: nat, alignment: nat, m: nat)
    requires
        alignment >= 1,
        m % alignment == 0,
        m >= row,
    ensures
        m >= crate::round_up(row, alignment),
{
    let a = alignment as int;
    let v = row as int;
    let up = crate::round_up(row, alignment) as int;
    lemma_fundamental_div_mod(v, a);
    if row % alignment != 0 {
        let q = v / a + 1;
        assert(v + (a - v % a) == q * a + 0) by (nonlinear_arith)
            requires
                v == a * (v / a) + v % a,
                q == v / a + 1,
        ;
        lemma_fundamental_div_mod_converse(up, a, q, 0);
    }
    assert(up % a == 0);
    assert(up < v + a);
    if m < up {
        lemma_fundamental_div_mod(m as int, a);
        lemma_fundamental_div_mod(up, a);
        let qm = m as int / a;
        let qu = up / a;
        assert(m as int == a * qm);
        assert(up == a * qu);
        assert(m as int <= up - a) by (nonlinear_arith)
            requires
                a >= 1,
                m as int == a * qm,
                up == a * qu,
                m < up,
        ;
        assert(false);
    }
}

/// The bytes of a staging buffer holding `height` rows of `width * 4`
/// pixel bytes, each row starting at a multiple of `pitch`; the padding
/// between rows is zero.
pub open spec fn staged_rows_spec(pixels: Seq<u8>, width: nat, height: nat, pitch: nat) -> Seq<
    u8,
> {
    Seq::new(
        height * pitch,
        |i: int|
            if i % (pitch as int) < 4 * width {
                pixels[(i / (pitch as int)) * (4 * width as int) + i % (pitch as int)]
            } else {
                0u8
            },
    )
}

/// The packed pixel bytes read back row by row from a pitched staging
/// layout.
pub open spec fn unstaged_rows_spec(staged: Seq<u8>, width: nat, height: nat, pitch: nat) -> Seq<
    u8,
> {
    Seq::new(
        4 * width * height,
        |i: int| staged[(i / (4 * width as int)) * (pitch as int) + i % (4 * width as int)],
    )
}

/// Writes packed pixel rows into a staging buffer at the given row pitch.
/// Source and destination pitch may differ; the gap after each row is
/// zero-filled.
pub fn stage_rows(pixels: &[u8], width: u32, height: u32, pitch: u64) -> (r: Vec<u8>)
    requires
        pixels@.len() == 4 * (width as nat) * (height as nat),
        4 * (width as u64) <= pitch,
        (height as nat) * (pitch as nat) <= usize::MAX,
    ensures
        r@ == staged_rows_spec(pixels@, width as nat, height as nat, pitch as nat),
        r@.len() == (height as nat) * (pitch as nat),
{
    let ghost target = staged_rows_spec(pixels@, width as nat, height as nat, pitch as nat);
    let row: u64 = 4 * (width as u64);
    proof {
        assert((height as int) * (row as int) == 4 * (width as int) * (height as int) && (height
            as int) * (row as int) <= (height as int) * (pitch as int)) by (nonlinear_arith)
            requires
                (row as int) == 4 * (width as int),
                (row as int) <= (pitch as int),
                (height as int) >= 0,
        ;
    }
    let mut out: Vec<u8> = Vec::new();
    let mut y: u32 = 0;
    while y < height
        invariant
            y <= height,
            row == 4 * (width as u64),
            pixels@.len() == 4 * (width as nat) * (height as nat),
            row <= pitch,
            (height as nat) * (pitch as nat) <= usize::MAX,
            (height as int) * (row as int) == 4 * (width as int) * (height as int),
            (height as int) * (row as int) <= (height as int) * (pitch as int),
            out@.len() == (y as nat) * (pitch as nat),
            target == staged_rows_spec(pixels@, width as nat, height as nat, pitch as nat),
            forall|k: int| 0 <= k < out@.len() ==> out@[k] == target[k],
        decreases height - y,
    {
        proof {
            assert(((y as int) + 1) * (pitch as int) == (y as int) * (pitch as int) + (pitch
                as int) && (y as int) * (pitch as int) + (pitch as int) <= (height as int) * (pitch
                as int) && (y as int) * (row as int) + (row as int) <= (height as int) * (row
                as int)) by (nonlinear_arith)
                requires
                    0 <= (y as int) < (height as int),
                    (pitch as int) >= 0,
                    (row as int) >= 0,
            ;
        }
        let mut x: u64 = 0;
        while x < pitch
            invariant
                x <= pitch,
                y < height,
                row == 4 * (width as u64),
                pixels@.len() == 4 * (width as nat) * (height as nat),
                row <= pitch,
                (height as nat) * (pitch as nat) <= usize::MAX,
                (height as int) * (row as int) == 4 * (width as int) * (height as int),
                (height as int) * (row as int) <= (height as int) * (pitch as int),
                (y as int) * (pitch as int) + (pitch as int) <= (height as int) * (pitch as int),
                (y as int) * (row as int) + (row as int) <= (height as int) * (row as int),
                out@.len() == (y as nat) * (pitch as nat) + (x as nat),
                target == staged_rows_spec(pixels@, width as nat, height as nat, pitch as nat),
                forall|k: int| 0 <= k < out@.len() ==> out@[k] == target[k],
            decreases pitch - x,
        {
            let ghost i = (y as int) * (pitch as int) + (x as int);
            proof {
                lemma_fundamental_div_mod_converse(i, pitch as int, y as int, x as int);
            }
            if x < row {
                let idx_wide: u64 = (y as u64) * row + x;
                let idx: usize = idx_wide as usize;
                let b = pixels[idx];
                out.push(b);
            } else {
                out.push(0u8);
            }
            x = x + 1;
        }
        y = y + 1;
    }
    proof {
        assert(out@ =~= target);
    }
    out
}

/// Reads a pitched staging layout back row by row into packed pixels.
pub fn unstage_rows(staged: &[u8], width: u32, height: u32, pitch: u64) -> (r: Vec<u8>)
    requires
        staged@.len() == (height as nat) * (pitch as nat),
        4 * (width as u64) <= pitch,
        4 * (width as nat) * (height as nat) <= usize::MAX,
        (height as nat) * (pitch as nat) <= usize::MAX,
    ensures
        r@ == unstaged_rows_spec(staged@, width as nat, height as nat, pitch as nat),
        r@.len() == 4 * (width as nat) * (height as nat),
{
    let ghost target = unstaged_rows_spec(staged@, width as nat, height as nat, pitch as nat);
    let row: u64 = 4 * (width as u64);
    proof {
        assert((height as int) * (row as int) == 4 * (width as int) * (height as int) && (height
            as int) * (row as int) <= (height as int) * (pitch as int)) by (nonlinear_arith)
            requires
                (row as int) == 4 * (width as int),
                (row as int) <= (pitch as int),
                (height as int) >= 0,
        ;
    }
    let mut out: Vec<u8> = Vec::new();
    let mut y: u32 = 0;
    while y < height
        invariant
            y <= height,
            row == 4 * (width as u64),
            staged@.len() == (height as nat) * (pitch as nat),
            row <= pitch,
            (height as nat) * (pitch as nat) <= usize::MAX,
            (height as int) * (row as int) == 4 * (width as int) * (height as int),
            (height as int) * (row as int) <= (height as int) * (pitch as int),
            out@.len() == (y as nat) * (row as nat),
            target == unstaged_rows_spec(staged@, width as nat, height as nat, pitch as nat),
            forall|k: int| 0 <= k < out@.len() ==> out@[k] == target[k],
        decreases height - y,
    {
        proof {
            assert(((y as int) + 1) * (row as int) == (y as int) * (row as int) + (row as int) && (
            y as int) * (row as int) + (row as int) <= (height as int) * (row as int) && (y as int)
                * (pitch as int) + (pitch as int) <= (height as int) * (pitch as int))
                by (nonlinear_arith)
                requires
                    0 <= (y as int) < (height as int),
                    (row as int) >= 0,
                    (pitch as int) >= 0,
            ;
        }
        let mut x: u64 = 0;
        while x < row
            invariant
                x <= row,
                y < height,
                row == 4 * (width as u64),
                staged@.len() == (height as nat) * (pitch as nat),
                row <= pitch,
                (height as nat) * (pitch as nat) <= usize::MAX,
                (height as int) * (row as int) == 4 * (width as int) * (height as int),
                (height as int) * (row as int) <= (height as int) * (pitch as int),
                (y as int) * (row as int) + (row as int) <= (height as int) * (row as int),
                (y as int) * (pitch as int) + (pitch as int) <= (height as int) * (pitch as int),
                out@.len() == (y as nat) * (row as nat) + (x as nat),
                target == unstaged_rows_spec(staged@, width as nat, height as nat, pitch as nat),
                forall|k: int| 0 <= k < out@.len() ==> out@[k] == target[k],
            decreases row - x,
        {
            let ghost i = (y as int) * (row as int) + (x as int);
            proof {
                lemma_fundamental_div_mod_converse(i, row as int, y as int, x as int);
            }
            let idx_wide: u64 = (y as u64) * pitch + x;
            let idx: usize = idx_wide as usize;
            let b = staged[idx];
            out.push(b);
            x = x + 1;
        }
        y = y + 1;
    }
    proof {
        assert(out@ =~= target);
    }
    out
}

/// Staging then reading back with the same pitch reproduces the packed
/// pixel buffer exactly.
pub proof fn lemma_stage_unstage_round_trip(pixels: Seq<u8>, width: nat, height: nat, pitch: nat)
    requires
        pixels.len() == 4 * width * height,
        4 * width <= pitch,
    ensures
        unstaged_rows_spec(staged_rows_spec(pixels, width, height, pitch), width, height, pitch)
            == pixels,
{
    let staged = staged_rows_spec(pixels, width, height, pitch);
    let back = unstaged_rows_spec(staged, width, height, pitch);
    assert forall|i: int| 0 <= i < 4 * width * height implies back[i] == pixels[i] by {
        let w4 = 4 * width as int;
        let p = pitch as int;
        assert(w4 >= 1) by (nonlinear_arith)
            requires
                0 <= i,
                i < 4 * (width as int) * (height as int),
                w4 == 4 * (width as int),
                (width as int) >= 0,
                (height as int) >= 0,
        ;
        lemma_fundamental_div_mod(i, w4);
        let q = i / w4;
        let r = i % w4;
        assert(0 <= r < w4);
        assert(4 * (width as int) * (height as int) == w4 * (height as int)) by (nonlinear_arith)
            requires
                w4 == 4 * (width as int),
        ;
        assert(0 <= q < height && q * w4 + r == i) by (nonlinear_arith)
            requires
                i >= 0,
                w4 >= 1,
                i == w4 * q + r,
                0 <= r < w4,
                i < 4 * (width as int) * (height as int),
                4 * (width as int) * (height as int) == w4 * (height as int),
        ;
        let j = q * p + r;
        lemma_fundamental_div_mod_converse(j, p, q, r);
        assert(0 <= j < height * p) by (nonlinear_arith)
            requires
                0 <= q < height,
                0 <= r < p,
                p >= 1,
                j == q * p + r,
        ;
        assert(staged[j] == pixels[q * w4 + r]);
    };
    assert(back =~= pixels);
}


/// Image layouts the upload and presentation paths transition through.
#[derive(Clone, Copy, PartialEq, Eq, Structural, Debug)]
pub enum ImageLayout {
    Undefined,
    TransferDst,
    ShaderReadOnly,
    ColorAttachment,
    DepthStencilAttachment,
    Present,
}

/// A GPU image with its backing memory and view: tightly packed RGBA
/// contents, current layout and the aspects its view selects.
#[derive(Debug)]
pub struct TextureBuffer {
    pub image: Vec<u8>,
    pub extent: Extent2d,
    pub format: Format,
    pub usage: u32,
    pub aspects: u32,
    pub layout: ImageLayout,
    pub memory_type: usize,
    pub device_token: DeviceToken,
}

impl TextureBuffer {
    pub open spec fn wf(self) -> bool {
        self.image@.len() == 4 * (self.extent.width as nat) * (self.extent.height as nat)
    }

    /// Creates an empty image bound to device-local memory, with a view
    /// over the requested aspects. Fails exactly when the adapter reports
    /// no device-local memory type.
    pub fn new(size: Extent2d, format: Format, usage: u32, aspects: u32, device: &Device) -> (r:
        Result<TextureBuffer, DeviceError>)
        requires
            device.wf(),
            4 * (size.width as nat) * (size.height as nat) <= usize::MAX,
        ensures
            match r {
                Result::Ok(t) => {
                    &&& t.wf()
                    &&& t.extent == size
                    &&& t.format == format
                    &&& t.usage == usage
                    &&& t.aspects == aspects
                    &&& t.layout == ImageLayout::Undefined
                    &&& t.image@ =~= Seq::new(
                        4 * (size.width as nat) * (size.height as nat),
                        |i: int| 0u8,
                    )
                    &&& crate::device::mem_type_matches(
                        device.memory_types@,
                        u64::MAX,
                        MEMORY_DEVICE_LOCAL,
                        t.memory_type as int,
                    )
                },
                Result::Err(e) => {
                    &&& e == DeviceError::NoCompatibleMemoryType
                    &&& forall|j: int|
                        !crate::device::mem_type_matches(
                            device.memory_types@,
                            u64::MAX,
                            MEMORY_DEVICE_LOCAL,
                            j,
                        )
                },
            },
    {
        let memory_type = match device.upload_type_for(u64::MAX, MEMORY_DEVICE_LOCAL) {
            Result::Ok(t) => t,
            Result::Err(e) => {
                return Result::Err(e);
            },
        };
        proof {
            assert(4 * (size.width as nat) * (size.height as nat) == (size.width as nat) * (4 * (
            size.height as nat))) by (nonlinear_arith);
        }
        let len: usize = (4 * (size.width as u64) * (size.height as u64)) as usize;
        let mut image: Vec<u8> = Vec::new();
        let mut i: usize = 0;
        while i < len
            invariant
                i <= len,
                image@ =~= Seq::new(i as nat, |k: int| 0u8),
            decreases len - i,
        {
            image.push(0u8);
            i = i + 1;
        }
        Result::Ok(
            TextureBuffer {
                image,
                extent: size,
                format,
                usage,
                aspects,
                layout: ImageLayout::Undefined,
                memory_type,
                device_token: device.create_token(),
            },
        )
    }

    /// Creates a depth-stencil attachment image.
    pub fn create_depth(size: Extent2d, depth_format: Format, device: &Device) -> (r: Result<
        TextureBuffer,
        DeviceError,
    >)
        requires
            device.wf(),
            4 * (size.width as nat) * (size.height as nat) <= usize::MAX,
        ensures
            match r {
                Result::Ok(t) => {
                    &&& t.wf()
                    &&& t.extent == size
                    &&& t.format == depth_format
                    &&& t.usage == IMAGE_USAGE_DEPTH_STENCIL
                    &&& t.aspects == ASPECT_DEPTH | ASPECT_STENCIL
                },
                Result::Err(e) => {
                    &&& e == DeviceError::NoCompatibleMemoryType
                    &&& forall|j: int|
                        !crate::device::mem_type_matches(
                            device.memory_types@,
                            u64::MAX,
                            MEMORY_DEVICE_LOCAL,
                            j,
                        )
                },
            },
    {
        Self::new(size, depth_format, IMAGE_USAGE_DEPTH_STENCIL, ASPECT_DEPTH | ASPECT_STENCIL, device)
    }

    /// Uploads packed pixel data through a host-visible staging buffer:
    /// computes the aligned row pitch, writes rows at that pitch, records
    /// the one-shot layout transitions and the buffer-to-image copy,
    /// submits, and blocks on a fence before returning. The image ends
    /// with exactly the texture's bytes, in the shader-read-only layout;
    /// the queue is drained of this upload when the call returns.
    pub fn upload_texture(&mut self, texture: &crate::texture::Texture, device: &mut Device) -> (r:
        Result<(), DeviceError>)
        requires
            old(self).wf(),
            texture.wf(),
            old(self).extent == texture.dimensions,
            old(device).wf(),
            old(device).min_buffer_copy_pitch_alignment <= u32::MAX,
            (texture.dimensions.height as nat) * (4 * (texture.dimensions.width as nat)
                + (old(device).min_buffer_copy_pitch_alignment as nat)) <= usize::MAX,
            old(device).submissions_in_flight < u64::MAX,
        ensures
            *final(device) == *old(device),
            match r {
                Result::Ok(()) => {
                    &&& final(self).wf()
                    &&& final(self).image@ == texture.data@
                    &&& final(self).layout == ImageLayout::ShaderReadOnly
                    &&& final(self).extent == old(self).extent
                    &&& final(self).format == old(self).format
                    &&& final(self).usage == old(self).usage
                    &&& final(self).aspects == old(self).aspects
                },
                Result::Err(e) => {
                    &&& e == DeviceError::NoCompatibleMemoryType
                    &&& *final(self) == *old(self)
                    &&& forall|j: int|
                        !crate::device::mem_type_matches(
                            old(device).memory_types@,
                            u64::MAX,
                            MEMORY_CPU_VISIBLE,
                            j,
                        )
                },
            },
    {
        let width = texture.dimensions.width;
        let height = texture.dimensions.height;
        let row_pitch = aligned_row_pitch(width, device.min_buffer_copy_pitch_alignment);
        proof {
            assert((height as nat) * (row_pitch as nat) <= (height as nat) * (4 * (width as nat)
                + (device.min_buffer_copy_pitch_alignment as nat))) by (nonlinear_arith)
                requires
                    (row_pitch as nat) < 4 * (width as nat) + (
                    device.min_buffer_copy_pitch_alignment as nat),
                    (height as nat) >= 0,
            ;
        }
        let upload_size: u64 = (height as u64) * row_pitch;

        let staged = stage_rows(texture.data.as_slice(), width, height, row_pitch);
        let mut upload_buffer = match Buffer::alloc_empty(
            upload_size as usize,
            1,
            USAGE_TRANSFER_SRC,
            MEMORY_CPU_VISIBLE,
            device,
        ) {
            Result::Ok(b) => b,
            Result::Err(e) => {
                return Result::Err(e);
            },
        };
        proof {
            assert(MEMORY_CPU_VISIBLE & MEMORY_CPU_VISIBLE == MEMORY_CPU_VISIBLE) by (bit_vector);
            assert(staged@.len() % 1nat == 0);
        }
        upload_buffer.fill_buffer(staged.as_slice(), device);

        // One-shot command buffer: transition undefined -> transfer-dst,
        // copy the staged rows into the image, transition to
        // shader-read-only; then submit and block on the fence.
        self.layout = ImageLayout::TransferDst;
        proof {
            assert(4 * (width as nat) * (height as nat) <= usize::MAX) by (nonlinear_arith)
                requires
                    (height as nat) * (4 * (width as nat) + (
                    device.min_buffer_copy_pitch_alignment as nat)) <= usize::MAX,
                    (device.min_buffer_copy_pitch_alignment as nat) >= 1,
                    4 * (width as nat) * (height as nat) == (height as nat) * (4 * (width as nat)),
            ;
        }
        let pixels = unstage_rows(upload_buffer.read_back(device).as_slice(), width, height, row_pitch);
        self.image = pixels;
        self.layout = ImageLayout::ShaderReadOnly;

        device.submissions_in_flight = device.submissions_in_flight + 1;
        // Wait for the upload fence: the one-shot submission retires
        // before the upload returns.
        device.submissions_in_flight = device.submissions_in_flight - 1;

        proof {
            lemma_stage_unstage_round_trip(
                texture.data@,
                width as nat,
                height as nat,
                row_pitch as nat,
            );
        }
        Result::Ok(())
    }

    /// Creates a sampled image holding the default texture's single
    /// transparent pixel.
    pub fn empty(graphics: &mut crate::render::Graphics) -> (r: Result<
        TextureBuffer,
        DeviceError,
    >)
        requires
            old(graphics).device.wf(),
            old(graphics).device.min_buffer_copy_pitch_alignment <= u32::MAX,
            old(graphics).device.min_buffer_copy_pitch_alignment + 4 <= usize::MAX,
            old(graphics).device.submissions_in_flight < u64::MAX,
        ensures
            final(graphics).device == old(graphics).device,
            final(graphics).render_surface == old(graphics).render_surface,
            match r {
                Result::Ok(t) => {
                    &&& t.wf()
                    &&& t.extent == (Extent2d { width: 1, height: 1 })
                    &&& t.layout == ImageLayout::ShaderReadOnly
                },
                Result::Err(e) => {
                    &&& e == DeviceError::NoCompatibleMemoryType
                    &&& (forall|j: int|
                        !crate::device::mem_type_matches(
                            old(graphics).device.memory_types@,
                            u64::MAX,
                            MEMORY_DEVICE_LOCAL,
                            j,
                        )) || (forall|j: int|
                        !crate::device::mem_type_matches(
                            old(graphics).device.memory_types@,
                            u64::MAX,
                            MEMORY_CPU_VISIBLE,
                            j,
                        ))
                },
            },
    {
        let texture = crate::texture::Texture::new();
        proof {
            let a = old(graphics).device.min_buffer_copy_pitch_alignment as nat;
            assert(1nat * (4nat + a) == 4nat + a) by (nonlinear_arith);
        }
        Self::create(&texture, &mut graphics.device)
    }

    /// Creates a sampled, transfer-destination image and synchronously
    /// uploads the texture's pixels into it.
    pub fn create(texture: &crate::texture::Texture, device: &mut Device) -> (r: Result<
        TextureBuffer,
        DeviceError,
    >)
        requires
            texture.wf(),
            old(device).wf(),
            old(device).min_buffer_copy_pitch_alignment <= u32::MAX,
            (texture.dimensions.height as nat) * (4 * (texture.dimensions.width as nat)
                + (old(device).min_buffer_copy_pitch_alignment as nat)) <= usize::MAX,
            old(device).submissions_in_flight < u64::MAX,
        ensures
            *final(device) == *old(device),
            match r {
                Result::Ok(t) => {
                    &&& t.wf()
                    &&& t.image@ == texture.data@
                    &&& t.extent == texture.dimensions
                    &&& t.format == Format::Rgba8Srgb
                    &&& t.usage == IMAGE_USAGE_TRANSFER_DST | IMAGE_USAGE_SAMPLED
                    &&& t.aspects == ASPECT_COLOR
                    &&& t.layout == ImageLayout::ShaderReadOnly
                },
                Result::Err(e) => {
                    &&& e == DeviceError::NoCompatibleMemoryType
                    &&& (forall|j: int|
                        !crate::device::mem_type_matches(
                            old(device).memory_types@,
                            u64::MAX,
                            MEMORY_DEVICE_LOCAL,
                            j,
                        )) || (forall|j: int|
                        !crate::device::mem_type_matches(
                            old(device).memory_types@,
                            u64::MAX,
                            MEMORY_CPU_VISIBLE,
                            j,
                        ))
                },
            },
    {
        proof {
            let w = texture.dimensions.width as nat;
            let h = texture.dimensions.height as nat;
            let a = old(device).min_buffer_copy_pitch_alignment as nat;
            assert(4 * w * h <= h * (4 * w + a)) by (nonlinear_arith)
                requires a >= 0, w >= 0, h >= 0;
        }
        let mut texture_buffer = match Self::new(
            texture.dimensions,
            Format::Rgba8Srgb,
            IMAGE_USAGE_TRANSFER_DST | IMAGE_USAGE_SAMPLED,
            ASPECT_COLOR,
            device,
        ) {
            Result::Ok(t) => t,
            Result::Err(e) => {
                return Result::Err(e);
            },
        };
        match texture_buffer.upload_texture(texture, device) {
            Result::Ok(()) => Result::Ok(texture_buffer),
            Result::Err(e) => Result::Err(e),
        }
    }
}

} // verus!
