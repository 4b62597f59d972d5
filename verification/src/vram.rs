use vstd::prelude::*;
use crate::protocol::{locate_graphic_protocol, spec_locate_failure};
use crate::status::EFI_SUCCESS;

verus! {

/// The frame buffer that the firmware's graphics output offers: where it
/// starts in memory and its geometry in pixels.
#[derive(Clone, Copy, Debug, PartialEq, Eq, Structural)]
pub struct VramBufferInfo {
    /// Address of the first byte of the frame buffer.
    pub buf: usize,
    /// Visible pixels per row.
    pub width: i64,
    /// Visible rows.
    pub height: i64,
    /// Pixels per row as laid out in memory.
    pub pixels_per_line: i64,
}

impl VramBufferInfo {
    /// Every pixel takes four bytes.
    pub fn bytes_per_pixel(&self) -> (r: i64)
        ensures
            r == 4,
    {
        4
    }

    pub fn pixels_per_line(&self) -> (r: i64)
        ensures
            r == self.pixels_per_line,
    {
        self.pixels_per_line
    }

    pub fn width(&self) -> (r: i64)
        ensures
            r == self.width,
    {
        self.width
    }

    pub fn height(&self) -> (r: i64)
        ensures
            r == self.height,
    {
        self.height
    }

    /// Address of the first byte of the frame buffer, for writing pixels.
    pub fn buf_mut(&mut self) -> (r: usize)
        ensures
            r == old(self).buf,
            *final(self) == *old(self),
    {
        self.buf
    }
}

/// What the firmware's graphics output protocol reports of its current mode.
#[derive(Clone, Copy, Debug, PartialEq, Eq, Structural)]
pub struct GraphicsModeInfo {
    /// Address of the frame buffer.
    pub frame_buffer_base: usize,
    /// Pixels per row.
    pub horizontal_resolution: u32,
    /// Rows.
    pub vertical_resolution: u32,
    /// Pixels per row as laid out in memory.
    pub pixels_per_scan_line: u32,
}

/// The frame buffer that a graphics mode describes.
pub open spec fn spec_vram_of(mode: GraphicsModeInfo) -> VramBufferInfo {
    VramBufferInfo {
        buf: mode.frame_buffer_base,
        width: mode.horizontal_resolution as i64,
        height: mode.vertical_resolution as i64,
        pixels_per_line: mode.pixels_per_scan_line as i64,
    }
}

/// The frame buffer of a mode starts at the mode's frame buffer address and
/// has exactly the mode's resolution and scan line length, none of them
/// altered (every `u32` value fits in an `i64`).
pub proof fn lemma_vram_of_mode_keeps_geometry(mode: GraphicsModeInfo)
    ensures
        spec_vram_of(mode).buf == mode.frame_buffer_base,
        spec_vram_of(mode).width == mode.horizontal_resolution,
        spec_vram_of(mode).height == mode.vertical_resolution,
        spec_vram_of(mode).pixels_per_line == mode.pixels_per_scan_line,
        0 <= spec_vram_of(mode).width <= 0xffff_ffff,
        0 <= spec_vram_of(mode).height <= 0xffff_ffff,
{
}

/// Sets up the frame buffer from the answer of the firmware's lookup of the
/// graphics output protocol: the buffer of the mode found when the lookup
/// succeeded, the lookup's failure otherwise.
pub fn init_vram(status: u64, mode: GraphicsModeInfo) -> (r: Result<VramBufferInfo, &'static str>)
    ensures
        status == EFI_SUCCESS ==> r == Ok::<VramBufferInfo, &'static str>(spec_vram_of(mode)),
        status != EFI_SUCCESS ==> (r matches Err(e) && e@ == spec_locate_failure()),
        r matches Ok(v) ==> {
            &&& v.buf == mode.frame_buffer_base
            &&& v.width == mode.horizontal_resolution
            &&& v.height == mode.vertical_resolution
            &&& v.pixels_per_line == mode.pixels_per_scan_line
        },
{
    let gp = locate_graphic_protocol(status, mode)?;
    Ok(
        VramBufferInfo {
            buf: gp.frame_buffer_base,
            width: gp.horizontal_resolution as i64,
            height: gp.vertical_resolution as i64,
            pixels_per_line: gp.pixels_per_scan_line as i64,
        },
    )
}

} // verus!
