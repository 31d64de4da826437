//! The graphics output protocol and the view of its frame buffer.

use vstd::prelude::*;

verus! {

/// Size of a pixel word in bytes: a pixel is a 32-bit value.
pub const PIXEL_WORD_SIZE: usize = 4;

/// The geometry of a display mode.
#[derive(Debug, PartialEq, Eq, Copy, Clone)]
pub struct EfiGraphicsOutputProtocolPixelInfo {
    pub version: u32,
    /// Pixels per line that are shown.
    pub horizontalresolution: u32,
    /// Number of lines.
    pub verticalresolution: u32,
    /// Pixels per line in memory, which may be more than are shown.
    pub pixels_per_scan_line: u32,
}

/// The description of the active display mode.
#[derive(Debug, PartialEq, Eq, Copy, Clone)]
pub struct EfiGraphicsOutputProtocolMode {
    pub max_mode: u32,
    pub mode: u32,
    pub info: EfiGraphicsOutputProtocolPixelInfo,
    pub size_of_info: u64,
    /// Address of the first byte of the frame buffer.
    pub frame_buffer_base: usize,
    /// Length of the frame buffer in bytes.
    pub frame_buffer_size: usize,
}

/// The graphics output protocol, as far as it is used: its active mode.
#[derive(Debug, PartialEq, Eq, Copy, Clone)]
pub struct EfiGraphicsOutputProtocol {
    pub mode: EfiGraphicsOutputProtocolMode,
}

/// A run of `len` pixel words in memory that starts at the address `base`.
#[derive(Debug, PartialEq, Eq, Copy, Clone)]
pub struct PixelBufferView {
    pub base: usize,
    pub len: usize,
}

impl EfiGraphicsOutputProtocolMode {
    /// A mode is well formed when its frame buffer is made of whole pixel
    /// words.
    pub open spec fn well_formed(&self) -> bool {
        self.frame_buffer_size as int % PIXEL_WORD_SIZE as int == 0
    }

    /// Tells whether the mode is well formed.
    #[verifier::when_used_as_spec(well_formed)]
    pub fn is_well_formed(&self) -> (ok: bool)
        ensures
            ok == self.well_formed(),
    {
        self.frame_buffer_size % PIXEL_WORD_SIZE == 0
    }
}

impl PixelBufferView {
    /// Address of the first byte of the view.
    pub open spec fn start(self) -> int {
        self.base as int
    }

    /// Address of the first byte after the view.
    pub open spec fn end(self) -> int {
        self.base + PIXEL_WORD_SIZE * self.len
    }
}

/// The view of the frame buffer of a mode: it starts where the frame buffer
/// starts and holds as many whole pixel words as the frame buffer has room
/// for.
pub open spec fn spec_framebuffer(protocol: EfiGraphicsOutputProtocol) -> PixelBufferView {
    PixelBufferView {
        base: protocol.mode.frame_buffer_base,
        len: (protocol.mode.frame_buffer_size as int / PIXEL_WORD_SIZE as int) as usize,
    }
}

/// Derives the view of the frame buffer from the active mode of the protocol.
///
/// A frame buffer of no bytes gives a view of no words.
pub fn framebuffer(protocol: &EfiGraphicsOutputProtocol) -> (view: PixelBufferView)
    ensures
        view == spec_framebuffer(*protocol),
        view.base == protocol.mode.frame_buffer_base,
        view.len == protocol.mode.frame_buffer_size as int / PIXEL_WORD_SIZE as int,
{
    PixelBufferView {
        base: protocol.mode.frame_buffer_base,
        len: protocol.mode.frame_buffer_size / PIXEL_WORD_SIZE,
    }
}

/// Writes `color` to every pixel word of `pixels`.
pub fn fill(pixels: &mut [u32], color: u32)
    ensures
        final(pixels)@.len() == old(pixels)@.len(),
        forall|i: int| 0 <= i < final(pixels)@.len() ==> final(pixels)@[i] == color,
{
    let len: usize = pixels.len();
    let mut i: usize = 0;
    while i < len
        invariant
            len == pixels@.len(),
            i <= len,
            forall|k: int| 0 <= k < i ==> pixels@[k] == color,
        decreases len - i,
    {
        pixels[i] = color;
        i += 1;
    }
}

/// The view starts at the base of the frame buffer and never reaches beyond
/// its end; it leaves out less than one pixel word.
pub proof fn lemma_view_stays_in_frame_buffer(protocol: EfiGraphicsOutputProtocol)
    ensures
        spec_framebuffer(protocol).start() == protocol.mode.frame_buffer_base,
        spec_framebuffer(protocol).end() <= protocol.mode.frame_buffer_base
            + protocol.mode.frame_buffer_size,
        spec_framebuffer(protocol).end() > protocol.mode.frame_buffer_base
            + protocol.mode.frame_buffer_size - PIXEL_WORD_SIZE,
{
}

/// The view of a well-formed mode covers the frame buffer exactly: from its
/// base to its base plus its size.
pub proof fn lemma_view_covers_frame_buffer(protocol: EfiGraphicsOutputProtocol)
    requires
        protocol.mode.well_formed(),
    ensures
        spec_framebuffer(protocol).start() == protocol.mode.frame_buffer_base,
        spec_framebuffer(protocol).end() == protocol.mode.frame_buffer_base
            + protocol.mode.frame_buffer_size,
{
}

/// A frame buffer of less than one pixel word, and so one of no bytes, gives
/// the empty view.
pub proof fn lemma_view_of_empty_frame_buffer(protocol: EfiGraphicsOutputProtocol)
    ensures
        spec_framebuffer(protocol).len == 0 <==> protocol.mode.frame_buffer_size
            < PIXEL_WORD_SIZE,
{
}

/// Deriving the view twice from an unchanged mode gives the same base and the
/// same length. Only the base and the size of the frame buffer matter.
pub proof fn lemma_view_is_repeatable(
    first: EfiGraphicsOutputProtocol,
    second: EfiGraphicsOutputProtocol,
)
    requires
        first.mode.frame_buffer_base == second.mode.frame_buffer_base,
        first.mode.frame_buffer_size == second.mode.frame_buffer_size,
    ensures
        spec_framebuffer(first).base == spec_framebuffer(second).base,
        spec_framebuffer(first).len == spec_framebuffer(second).len,
{
}

} // verus!
