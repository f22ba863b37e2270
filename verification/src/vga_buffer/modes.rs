//! Video modes and the per-mode console state.
//!
//! A mode fixes the grid dimensions and the address of the hardware
//! text buffer.  `VideoState` owns the modelled grid itself — a flat
//! vector of cells, row-major — in place of a raw pointer into video
//! memory; the layer that mirrors the grid onto the hardware lives
//! outside the library.

use vstd::prelude::*;
use crate::vga_buffer::{blank_cell, Buffer, ColorCode, ScreenChar};

verus! {

/// The text modes the console can drive.
#[derive(Clone, Copy, Debug, PartialEq, Eq, Structural)]
pub enum VideoMode {
    Text80x25,
}

impl VideoMode {
    /// Columns and rows of the mode's grid.
    pub open spec fn spec_dimensions(self) -> (usize, usize) {
        match self {
            VideoMode::Text80x25 => (80usize, 25usize),
        }
    }

    /// Address of the mode's memory-mapped text buffer.
    pub open spec fn spec_memory_address(self) -> usize {
        match self {
            VideoMode::Text80x25 => 0xb8000usize,
        }
    }

    /// Columns and rows of the mode's grid.
    pub fn dimensions(&self) -> (r: (usize, usize))
        ensures
            r == self.spec_dimensions(),
            r.0 >= 1,
            r.1 >= 1,
    {
        match self {
            VideoMode::Text80x25 => (80, 25),
        }
    }

    /// Address of the mode's memory-mapped text buffer.
    pub fn memory_address(&self) -> (r: usize)
        ensures
            r == self.spec_memory_address(),
    {
        match self {
            VideoMode::Text80x25 => 0xb8000,
        }
    }
}

/// The console state a mode determines: its dimensions and the grid.
pub struct VideoState {
    pub mode: VideoMode,
    pub width: usize,
    pub height: usize,
    pub buffer: Buffer,
}

impl VideoState {
    /// The dimensions match the mode and the grid has one cell per
    /// position.
    pub open spec fn wf(&self) -> bool {
        &&& self.width == self.mode.spec_dimensions().0
        &&& self.height == self.mode.spec_dimensions().1
        &&& self.width >= 1
        &&& self.height >= 1
        &&& self.buffer.cells@.len() == self.width * self.height
    }

    /// A fresh state for `mode`: every cell blank in `fill` color.
    pub fn new(mode: VideoMode, fill: ColorCode) -> (r: VideoState)
        ensures
            r.wf(),
            r.mode == mode,
            r.width == mode.spec_dimensions().0,
            r.height == mode.spec_dimensions().1,
            r.buffer.cells@ == Seq::new(
                (mode.spec_dimensions().0 * mode.spec_dimensions().1) as nat,
                |i: int| blank_cell(fill),
            ),
    {
        let (width, height) = mode.dimensions();
        let total = width * height;
        let mut cells: Vec<ScreenChar> = Vec::new();
        let mut i: usize = 0;
        while i < total
            invariant
                i <= total,
                cells@.len() == i,
                forall|j: int| 0 <= j < i ==> cells@[j] == blank_cell(fill),
            decreases total - i,
        {
            cells.push(ScreenChar { ascii_character: 32, color_code: fill });
            i = i + 1;
        }
        proof {
            assert(cells@ =~= Seq::new(total as nat, |j: int| blank_cell(fill)));
        }
        VideoState { mode, width, height, buffer: Buffer { cells } }
    }

    /// Switches to `mode`, replacing the grid with a fresh blank one.
    pub fn set_mode(&mut self, mode: VideoMode, fill: ColorCode)
        ensures
            final(self).wf(),
            final(self).mode == mode,
            final(self).width == mode.spec_dimensions().0,
            final(self).height == mode.spec_dimensions().1,
            final(self).buffer.cells@ == Seq::new(
                (mode.spec_dimensions().0 * mode.spec_dimensions().1) as nat,
                |i: int| blank_cell(fill),
            ),
    {
        *self = VideoState::new(mode, fill);
    }
}

} // verus!
