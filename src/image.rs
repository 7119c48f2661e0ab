//! Image kind, extent, flags, creation info, and the image wrapper whose
//! teardown is deferred through an escape channel.

use vstd::prelude::*;

use crate::escape::{Escape, Terminal};
use crate::memory::MemoryBlock;
use crate::sentinel::{arm, discharge};

verus! {

/// Image dimensionality.
#[derive(Clone, Copy, Debug, PartialEq, Eq, Structural)]
pub enum Kind {
    /// Image with single dimension. A line.
    D1,
    /// Two-dimensional image. Most widely used image kind.
    D2,
    /// Full 3D image. Can represent volumetric textures.
    D3,
}

/// Image size. Unused dimensions must have size `1`.
#[derive(Clone, Copy, Debug, PartialEq, Eq, Structural)]
pub struct Extent3D {
    /// The width of the extent.
    pub width: u32,
    /// The height of the extent.
    pub height: u32,
    /// The depth of the extent.
    pub depth: u32,
}

/// Whether `extent` leaves the dimensions that `kind` does not use at `1`.
pub open spec fn extent_fits(kind: Kind, extent: Extent3D) -> bool {
    match kind {
        Kind::D1 => extent.height == 1 && extent.depth == 1,
        Kind::D2 => extent.depth == 1,
        Kind::D3 => true,
    }
}

/// Pixel format, by its backend code.
#[derive(Clone, Copy, Debug, PartialEq, Eq, Hash, Structural)]
pub struct Format(pub u32);

/// Bitmask of sample counts: bit `k` stands for `2^k` samples per texel, up to 64.
#[derive(Clone, Copy, Debug, PartialEq, Eq, Hash, Structural)]
pub struct SampleCountFlags {
    bits: u32,
}

impl View for SampleCountFlags {
    type V = u32;

    closed spec fn view(&self) -> u32 {
        self.bits
    }
}

/// Whether `bits` names exactly one sample count.
pub open spec fn single_sample_count(bits: u32) -> bool {
    bits == 1 || bits == 2 || bits == 4 || bits == 8 || bits == 16 || bits == 32 || bits == 64
}

impl SampleCountFlags {
    /// The flags with these bits, if every bit names a sample count.
    pub fn from_bits(bits: u32) -> (r: Option<SampleCountFlags>)
        ensures
            r is Some <==> bits < 128,
            r matches Some(f) ==> f@ == bits,
    {
        if bits < 128 {
            Some(SampleCountFlags { bits })
        } else {
            None
        }
    }

    /// The raw bit mask.
    pub fn bits(&self) -> (r: u32)
        ensures
            r == self@,
    {
        self.bits
    }
}

/// Image tiling type.
#[derive(Clone, Copy, Debug, PartialEq, Eq, Structural)]
pub enum ImageTiling {
    /// Implementation-defined tiling mode. Texels are arranged for more optimal memory access.
    Optimal,
    /// Texels are laid in row-major order.
    Linear,
}

impl ImageTiling {
    /// The backend code of the tiling.
    pub fn as_raw(&self) -> (r: u32)
        ensures
            r == (if *self == ImageTiling::Optimal { 0u32 } else { 1u32 }),
    {
        match self {
            ImageTiling::Optimal => 0,
            ImageTiling::Linear => 1,
        }
    }
}

/// Image layout. Different layouts support different sets of device accesses.
#[derive(Clone, Copy, Debug, PartialEq, Eq, Structural)]
pub enum Layout {
    /// Not an actual layout. As the source of a transition it makes the
    /// transition a no-op; no other operation may use it.
    Undefined,
    /// Supports all types of device access, possibly sub-optimally.
    General,
    /// Color and resolve attachments.
    ColorAttachmentOptimal,
    /// Depth-stencil attachments.
    DepthStencilAttachmentOptimal,
    /// Read-only depth-stencil attachments or read-only shader images.
    DepthStencilReadOnlyOptimal,
    /// Read-only shader images.
    ShaderReadOnlyOptimal,
    /// Source of transfer operations.
    TransferSrcOptimal,
    /// Destination of transfer operations.
    TransferDstOptimal,
    /// Initial layout for content written by the host; transitions keep content.
    Preinitialized,
    /// Depth read-only, stencil attachment.
    DepthReadOnlyStencilAttachmentOptimal,
    /// Depth attachment, stencil read-only.
    DepthAttachmentStencilReadOnlyOptimal,
    /// Presentable swapchain images.
    PresentSrc,
    /// Shared presentable images.
    SharedPresentSrc,
}

/// The backend code of each layout.
pub open spec fn layout_code(l: Layout) -> u32 {
    match l {
        Layout::Undefined => 0,
        Layout::General => 1,
        Layout::ColorAttachmentOptimal => 2,
        Layout::DepthStencilAttachmentOptimal => 3,
        Layout::DepthStencilReadOnlyOptimal => 4,
        Layout::ShaderReadOnlyOptimal => 5,
        Layout::TransferSrcOptimal => 6,
        Layout::TransferDstOptimal => 7,
        Layout::Preinitialized => 8,
        Layout::DepthReadOnlyStencilAttachmentOptimal => 1000117000,
        Layout::DepthAttachmentStencilReadOnlyOptimal => 1000117001,
        Layout::PresentSrc => 1000001002,
        Layout::SharedPresentSrc => 1000111000,
    }
}

impl Layout {
    /// The backend code of the layout.
    pub fn as_raw(&self) -> (r: u32)
        ensures
            r == layout_code(*self),
    {
        match self {
            Layout::Undefined => 0,
            Layout::General => 1,
            Layout::ColorAttachmentOptimal => 2,
            Layout::DepthStencilAttachmentOptimal => 3,
            Layout::DepthStencilReadOnlyOptimal => 4,
            Layout::ShaderReadOnlyOptimal => 5,
            Layout::TransferSrcOptimal => 6,
            Layout::TransferDstOptimal => 7,
            Layout::Preinitialized => 8,
            Layout::DepthReadOnlyStencilAttachmentOptimal => 1000117000,
            Layout::DepthAttachmentStencilReadOnlyOptimal => 1000117001,
            Layout::PresentSrc => 1000001002,
            Layout::SharedPresentSrc => 1000111000,
        }
    }
}

/// Bits of [`ImageCreateFlags`] that name a flag: mutable format (8),
/// cube compatible (16), 2D-array compatible (32).
pub const IMAGE_CREATE_KNOWN_BITS: u32 = 0x38;

/// Bitmask specifying which kinds of views can be created from an image.
#[derive(Clone, Copy, Debug, PartialEq, Eq, Hash, Structural)]
pub struct ImageCreateFlags {
    bits: u32,
}

impl View for ImageCreateFlags {
    type V = u32;

    closed spec fn view(&self) -> u32 {
        self.bits
    }
}

impl ImageCreateFlags {
    /// No flags.
    pub fn empty() -> (r: ImageCreateFlags)
        ensures
            r@ == 0,
    {
        ImageCreateFlags { bits: 0 }
    }

    /// The flags with these bits, if every bit names a flag.
    pub fn from_bits(bits: u32) -> (r: Option<ImageCreateFlags>)
        ensures
            r is Some <==> bits & !IMAGE_CREATE_KNOWN_BITS == 0,
            r matches Some(f) ==> f@ == bits,
    {
        if bits & !IMAGE_CREATE_KNOWN_BITS == 0 {
            Some(ImageCreateFlags { bits })
        } else {
            None
        }
    }

    /// The raw bit mask.
    pub fn bits(&self) -> (r: u32)
        ensures
            r == self@,
    {
        self.bits
    }
}

/// Bitmask of intended image usages: transfer source (1), transfer destination (2),
/// sampled (4), storage (8), color attachment (16), depth-stencil attachment (32),
/// transient attachment (64), input attachment (128).
#[derive(Clone, Copy, Debug, PartialEq, Eq, Hash, Structural)]
pub struct UsageFlags {
    bits: u32,
}

impl View for UsageFlags {
    type V = u32;

    closed spec fn view(&self) -> u32 {
        self.bits
    }
}

impl UsageFlags {
    /// The flags with these bits, if every bit names a usage.
    pub fn from_bits(bits: u32) -> (r: Option<UsageFlags>)
        ensures
            r is Some <==> bits < 256,
            r matches Some(f) ==> f@ == bits,
    {
        if bits < 256 {
            Some(UsageFlags { bits })
        } else {
            None
        }
    }

    /// The raw bit mask.
    pub fn bits(&self) -> (r: u32)
        ensures
            r == self@,
    {
        self.bits
    }
}

/// Which queue families may access a resource.
#[derive(Clone, Copy, Debug, PartialEq, Eq, Structural)]
pub enum SharingMode {
    /// One family at a time.
    Exclusive,
    /// Several families at once.
    Concurrent,
}

/// Contains information required to create an image.
#[derive(Clone, Copy, Debug, PartialEq, Eq, Structural)]
pub struct CreateInfo {
    /// Image dimensionality.
    pub kind: Kind,
    /// Image format.
    pub format: Format,
    /// Image size.
    pub extent: Extent3D,
    /// Number of mip levels to generate.
    pub mips: u32,
    /// Number of image layers.
    pub array: u32,
    /// Number of samples per texel.
    pub samples: SampleCountFlags,
    /// Tiling of the image.
    pub tiling: ImageTiling,
    /// Intended usage flags. Limits memory types suitable for the image.
    pub usage: UsageFlags,
    /// Specifies command queues from which families can access the image.
    pub sharing: SharingMode,
    /// Specifies what kind of views can be created from the image.
    pub flags: ImageCreateFlags,
}

impl CreateInfo {
    /// Unused extent dimensions are `1` and the sample count is a single power of two.
    pub open spec fn valid(self) -> bool {
        extent_fits(self.kind, self.extent) && single_sample_count(self.samples@)
    }

    /// Whether the description may be used to create an image.
    pub fn is_valid(&self) -> (r: bool)
        ensures
            r == self.valid(),
    {
        let fits = match self.kind {
            Kind::D1 => self.extent.height == 1 && self.extent.depth == 1,
            Kind::D2 => self.extent.depth == 1,
            Kind::D3 => true,
        };
        let s = self.samples.bits();
        fits && (s == 1 || s == 2 || s == 4 || s == 8 || s == 16 || s == 32 || s == 64)
    }
}

/// What an image owns until it is reclaimed: its memory, its raw handle and
/// the sentinel that makes reclamation explicit.
#[derive(Debug)]
pub struct Inner<M, I> {
    block: MemoryBlock<M>,
    raw: I,
    relevant: relevant::Relevant,
}

impl<M, I> View for Inner<M, I> {
    type V = (MemoryBlock<M>, I);

    closed spec fn view(&self) -> (MemoryBlock<M>, I) {
        (self.block, self.raw)
    }
}

impl<M, I> Inner<M, I> {
    /// Complete reclamation: discharge the sentinel and hand back the memory
    /// block and raw handle for the backend to free.
    pub fn dispose(self) -> (r: (MemoryBlock<M>, I))
        ensures
            r == self@,
    {
        let Inner { block, raw, relevant } = self;
        discharge(relevant);
        (block, raw)
    }
}

/// What an image stands for.
pub struct ImageView<M, I> {
    pub block: MemoryBlock<M>,
    pub raw: I,
    pub info: CreateInfo,
}

/// Generic image object wrapper.
///
/// `M` is the type of the memory object of the memory block, `I` the raw image type.
#[derive(Debug)]
pub struct Image<M, I> {
    inner: Escape<Inner<M, I>>,
    info: CreateInfo,
}

impl<M, I> View for Image<M, I> {
    type V = ImageView<M, I>;

    closed spec fn view(&self) -> ImageView<M, I> {
        ImageView { block: self.inner@.block, raw: self.inner@.raw, info: self.info }
    }
}

impl<M, I> Image<M, I> {
    /// Wrap a raw image created from `info` and bound to `block`.
    pub fn new(block: MemoryBlock<M>, raw: I, info: CreateInfo) -> (r: Image<M, I>)
        requires
            info.valid(),
        ensures
            r@ == (ImageView { block, raw, info }),
    {
        Image { inner: Escape::escape(Inner { block, raw, relevant: arm() }), info }
    }

    /// The description the image was created from.
    pub fn info(&self) -> (r: &CreateInfo)
        ensures
            *r == self@.info,
    {
        &self.info
    }

    /// The raw image handle.
    pub fn raw(&self) -> (r: &I)
        ensures
            *r == self@.raw,
    {
        &self.inner.inner_ref().raw
    }

    /// The memory block backing the image.
    pub fn block(&self) -> (r: &MemoryBlock<M>)
        ensures
            *r == self@.block,
    {
        &self.inner.inner_ref().block
    }

    /// End of life: post the image's memory and handle to `terminal`, to be
    /// reclaimed once the device no longer references them.
    pub fn release(self, terminal: &mut Terminal<Inner<M, I>>)
        ensures
            final(terminal)@.len() == old(terminal)@.len() + 1,
            final(terminal)@.drop_last() == old(terminal)@,
            final(terminal)@.last()@ == (self@.block, self@.raw),
    {
        let Image { inner, info: _ } = self;
        inner.release(terminal);
        assert(final(terminal)@.drop_last() =~= old(terminal)@);
    }
}

} // verus!
