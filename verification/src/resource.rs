//! How an image maps onto device textures: sizes, strides and regions.

use vstd::prelude::*;
use crate::dispatch::Extent;
use crate::error::BlurError;

verus! {

/// Bytes in one RGBA8 pixel.
pub const BYTES_PER_PIXEL: u64 = 4;

/// The pixel format of every texture of a run.
#[derive(Clone, Copy, Debug, PartialEq, Eq, Structural)]
pub enum PixelFormat {
    /// Four unsigned normalized bytes: red, green, blue, alpha.
    Rgba8Unorm,
}

/// Where a texture's memory lives.
#[derive(Clone, Copy, Debug, PartialEq, Eq, Structural)]
pub enum StorageMode {
    /// Memory that both host and device read and write.
    Shared,
}

/// What a texture is created from.
#[derive(Clone, Copy, Debug, PartialEq, Eq, Structural)]
pub struct TextureDescriptor {
    pub width: u64,
    pub height: u64,
    pub pixel_format: PixelFormat,
    pub storage_mode: StorageMode,
    pub shader_read: bool,
    pub shader_write: bool,
}

/// A corner of a region.
#[derive(Clone, Copy, Debug, PartialEq, Eq, Structural)]
pub struct Origin {
    pub x: u64,
    pub y: u64,
    pub z: u64,
}

/// A box of texels inside a texture.
#[derive(Clone, Copy, Debug, PartialEq, Eq, Structural)]
pub struct Region {
    pub origin: Origin,
    pub size: Extent,
}

/// The number of bytes in a tightly packed RGBA8 image.
pub open spec fn spec_image_bytes(width: u32, height: u32) -> int {
    4 * width * height
}

/// The byte count is four times the pixel count, which fits in 64 bits, and
/// it is at least 4 unless a side is zero.
pub proof fn lemma_image_bytes(width: u32, height: u32)
    ensures
        spec_image_bytes(width, height) == 4 * (width * height),
        0 <= width * height <= 0xFFFF_FFFE_0000_0001,
        width >= 1 && height >= 1 ==> spec_image_bytes(width, height) >= 4,
        width == 0 || height == 0 ==> spec_image_bytes(width, height) == 0,
{
    assert(4 * width * height == 4 * (width * height)) by (nonlinear_arith);
    assert(0 <= width * height <= 0xFFFF_FFFF * 0xFFFF_FFFF) by (nonlinear_arith)
        requires
            0 <= width <= 0xFFFF_FFFF,
            0 <= height <= 0xFFFF_FFFF,
    ;
    assert(width >= 1 && height >= 1 ==> width * height >= 1) by (nonlinear_arith);
    assert(width == 0 || height == 0 ==> width * height == 0) by (nonlinear_arith);
}

/// The dimensions of an image that a run can work on: no side is zero, and
/// its bytes can be counted in a `usize`.
#[derive(Clone, Copy, Debug)]
pub struct ImageLayout {
    width: u32,
    height: u32,
}

impl ImageLayout {
    /// Width in pixels.
    pub closed spec fn spec_width(self) -> u32 {
        self.width
    }

    /// Height in pixels.
    pub closed spec fn spec_height(self) -> u32 {
        self.height
    }

    /// What holds of every layout.
    pub open spec fn wf(self) -> bool {
        &&& self.spec_width() >= 1
        &&& self.spec_height() >= 1
        &&& spec_image_bytes(self.spec_width(), self.spec_height()) <= usize::MAX
    }

    #[verifier::type_invariant]
    closed spec fn inv(self) -> bool {
        self.wf()
    }

    /// The length of the image's buffer.
    pub open spec fn spec_byte_len(self) -> int {
        spec_image_bytes(self.spec_width(), self.spec_height())
    }

    /// The region that covers the whole texture.
    pub open spec fn spec_region(self) -> Region {
        Region {
            origin: Origin { x: 0, y: 0, z: 0 },
            size: Extent {
                width: self.spec_width() as u64,
                height: self.spec_height() as u64,
                depth: 1,
            },
        }
    }

    /// The descriptor of each of the run's textures.
    pub open spec fn spec_descriptor(self) -> TextureDescriptor {
        TextureDescriptor {
            width: self.spec_width() as u64,
            height: self.spec_height() as u64,
            pixel_format: PixelFormat::Rgba8Unorm,
            storage_mode: StorageMode::Shared,
            shader_read: true,
            shader_write: true,
        }
    }

    /// A layout for `width` by `height` pixels, unless a side is zero or the
    /// image has more bytes than a `usize` counts.
    pub fn new(width: u32, height: u32) -> (made: Option<ImageLayout>)
        ensures
            made is Some <==> width >= 1 && height >= 1 && spec_image_bytes(width, height)
                <= usize::MAX,
            made is Some ==> made->0.wf() && made->0.spec_width() == width
                && made->0.spec_height() == height,
    {
        if width == 0 || height == 0 {
            return None;
        }
        proof {
            lemma_image_bytes(width, height);
        }
        let pixels: u64 = (width as u64) * (height as u64);
        let bytes: u128 = 4 * (pixels as u128);
        if bytes > usize::MAX as u128 {
            return None;
        }
        Some(ImageLayout { width, height })
    }

    /// A layout for an image of `width` by `height` pixels held in a buffer
    /// of `len` bytes.  The buffer must be tightly packed: four bytes for
    /// each pixel and none besides.
    pub fn for_buffer(width: u32, height: u32, len: usize) -> (made: Result<
        ImageLayout,
        BlurError,
    >)
        ensures
            made is Ok <==> width >= 1 && height >= 1 && len == spec_image_bytes(width, height),
            made is Ok ==> made->Ok_0.wf() && made->Ok_0.spec_width() == width
                && made->Ok_0.spec_height() == height,
            made is Err ==> made->Err_0 == BlurError::InvalidImageBuffer,
    {
        match ImageLayout::new(width, height) {
            Some(layout) => {
                if layout.byte_len() == len {
                    Ok(layout)
                } else {
                    Err(BlurError::InvalidImageBuffer)
                }
            },
            None => Err(BlurError::InvalidImageBuffer),
        }
    }

    /// Width in pixels.
    pub fn width(&self) -> (width: u32)
        ensures
            width == self.spec_width(),
            width >= 1,
    {
        proof {
            use_type_invariant(self);
        }
        self.width
    }

    /// Height in pixels.
    pub fn height(&self) -> (height: u32)
        ensures
            height == self.spec_height(),
            height >= 1,
    {
        proof {
            use_type_invariant(self);
        }
        self.height
    }

    /// The length of the image's buffer: four bytes for each pixel.
    pub fn byte_len(&self) -> (len: usize)
        ensures
            len == self.spec_byte_len(),
            len == 4 * self.spec_width() * self.spec_height(),
            len >= 4,
    {
        proof {
            use_type_invariant(self);
        }
        proof {
            lemma_image_bytes(self.width, self.height);
        }
        let pixels: u64 = (self.width as u64) * (self.height as u64);
        (4 * pixels) as usize
    }

    /// The distance in bytes from one row of pixels to the next.
    pub fn bytes_per_row(&self) -> (stride: u64)
        ensures
            stride == 4 * self.spec_width(),
            stride * self.spec_height() == self.spec_byte_len(),
    {
        BYTES_PER_PIXEL * (self.width as u64)
    }

    /// The region that covers the whole texture.  Uploads and downloads
    /// always address it; there are no partial transfers.
    pub fn region(&self) -> (region: Region)
        ensures
            region == self.spec_region(),
    {
        Region {
            origin: Origin { x: 0, y: 0, z: 0 },
            size: Extent { width: self.width as u64, height: self.height as u64, depth: 1 },
        }
    }

    /// The descriptor of each of the run's three textures: the image's
    /// size, RGBA8, in shared storage, readable and writable by kernels.
    pub fn descriptor(&self) -> (descriptor: TextureDescriptor)
        ensures
            descriptor == self.spec_descriptor(),
    {
        TextureDescriptor {
            width: self.width as u64,
            height: self.height as u64,
            pixel_format: PixelFormat::Rgba8Unorm,
            storage_mode: StorageMode::Shared,
            shader_read: true,
            shader_write: true,
        }
    }

    /// Whether a buffer of `len` bytes and rows `stride` bytes apart can be
    /// copied into the full extent of a texture of this layout.
    pub fn accepts_upload(&self, len: usize, stride: u64) -> (accepted: bool)
        ensures
            accepted <==> len == self.spec_byte_len() && stride == 4 * self.spec_width(),
    {
        len == self.byte_len() && stride == self.bytes_per_row()
    }

    /// A buffer of zeros into which a texture of this layout is read back.
    pub fn zeroed_buffer(&self) -> (buffer: Vec<u8>)
        ensures
            buffer@.len() == self.spec_byte_len(),
            forall|i: int| 0 <= i < buffer@.len() ==> buffer@[i] == 0,
    {
        let len: usize = self.byte_len();
        vec![0u8; len]
    }
}

} // verus!
