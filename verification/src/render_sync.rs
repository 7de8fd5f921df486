//! Keeping the scan-out in step with the panel: the counters that the
//! panel's frame event drives, and the base address that each line event
//! sets.
//!
//! The counters have one writer, the handler of the frame event. Everything
//! else reads them through the accessors.

use vstd::prelude::*;

verus! {

/// Number of scan lines of the porch before the first visible line.
pub const PORCH_LINES: u32 = 3;

/// Number of bytes from one row of the scan-out buffer to the next.
pub const ROW_BYTES: u32 = 1344;

/// How far the horizontal scroll moves with each frame.
pub const SCROLL_STEP: u32 = 1;

/// The counters of the frame event.
#[derive(Copy, Clone, Debug, PartialEq, Eq, Structural)]
pub struct ScanCounters {
    frame_ctr: u32,
    hz_offset: u32,
}

impl ScanCounters {
    /// Number of frames shown so far.
    pub closed spec fn frames(&self) -> int {
        self.frame_ctr as int
    }

    /// Horizontal scroll offset.
    pub closed spec fn scroll(&self) -> int {
        self.hz_offset as int
    }

    /// Counters at zero.
    pub fn new() -> (counters: ScanCounters)
        ensures
            counters.frames() == 0,
            counters.scroll() == 0,
    {
        ScanCounters { frame_ctr: 0, hz_offset: 0 }
    }

    /// Number of frames shown so far.
    pub fn frame_count(&self) -> (n: u32)
        ensures
            n == self.frames(),
    {
        self.frame_ctr
    }

    /// Horizontal scroll offset.
    pub fn scroll_offset(&self) -> (n: u32)
        ensures
            n == self.scroll(),
    {
        self.hz_offset
    }

    /// Both counters can take one more frame.
    pub open spec fn has_room(&self) -> bool {
        self.frames() < u32::MAX && self.scroll() + SCROLL_STEP <= u32::MAX
    }

    /// Tells whether both counters can take one more frame.
    pub fn can_count(&self) -> (b: bool)
        ensures
            b == self.has_room(),
    {
        self.frame_ctr < u32::MAX && self.hz_offset <= u32::MAX - SCROLL_STEP
    }

    /// Counts one frame and scrolls one step on.
    pub fn on_frame(&mut self)
        requires
            old(self).has_room(),
        ensures
            final(self).frames() == old(self).frames() + 1,
            final(self).scroll() == old(self).scroll() + SCROLL_STEP,
    {
        self.frame_ctr += 1;
        self.hz_offset += SCROLL_STEP;
    }
}

/// The row of the scan-out buffer that the scan line `line_number` shows:
/// lines count from the top of the porch, and the lines of the porch itself
/// keep their number.
pub open spec fn visible_row(line_number: u32) -> int {
    if line_number >= PORCH_LINES {
        line_number - PORCH_LINES
    } else {
        line_number as int
    }
}

/// Byte offset of the row that the scan line `line_number` shows.
pub open spec fn line_base(line_number: u32) -> int {
    visible_row(line_number) * ROW_BYTES
}

/// Largest scan line number whose base address fits in 32 bits.
pub const MAX_LINE: u32 = 3195663;

/// The base address to set when the scan line `line_number` starts.
pub fn line_base_address(line_number: u32) -> (address: u32)
    requires
        line_number <= MAX_LINE,
    ensures
        address == line_base(line_number),
{
    let mut line: u32 = line_number;
    if line >= PORCH_LINES {
        line -= PORCH_LINES;
    }
    line * ROW_BYTES
}

/// Handles one interrupt of the panel. A frame event counts the frame; a
/// line event asks for a new base address, which is returned for the
/// caller to set. Both may come with one interrupt.
pub fn on_display_interrupt(
    counters: &mut ScanCounters,
    frame_event: bool,
    line_event: bool,
    line_number: u32,
) -> (base: Option<u32>)
    requires
        frame_event ==> old(counters).has_room(),
        line_event ==> line_number <= MAX_LINE,
    ensures
        final(counters).frames() == old(counters).frames() + if frame_event {
            1int
        } else {
            0int
        },
        final(counters).scroll() == old(counters).scroll() + if frame_event {
            SCROLL_STEP as int
        } else {
            0int
        },
        base == if line_event {
            Some(line_base(line_number) as u32)
        } else {
            None
        },
{
    if frame_event {
        counters.on_frame();
    }
    if line_event {
        Some(line_base_address(line_number))
    } else {
        None
    }
}

} // verus!
