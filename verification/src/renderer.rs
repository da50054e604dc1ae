//! What the CPU loop asks of a renderer: it is handed the PPU and the CPU's
//! clock, and at vertical blank it may hand back a finished frame.

use vstd::prelude::*;
use crate::ppu::Ppu;

verus! {

pub const NES_WIDTH: usize = 256;

pub const NES_HEIGHT: usize = 240;

/// Four bytes (RGBA) per pixel.
pub const NES_FRAME_SIZE: usize = NES_WIDTH * NES_HEIGHT * 4;

pub struct RenderedFrame {
    pub frame: [u8; NES_FRAME_SIZE],
}

impl RenderedFrame {
    /// A white frame.
    pub fn new() -> (r: RenderedFrame)
        ensures
            forall|i: int| 0 <= i < NES_FRAME_SIZE ==> #[trigger] r.frame[i] == 255,
    {
        RenderedFrame { frame: [255; 245760] }
    }
}

impl Default for RenderedFrame {
    fn default() -> (r: RenderedFrame)
        ensures
            forall|i: int| 0 <= i < NES_FRAME_SIZE ==> #[trigger] r.frame[i] == 255,
    {
        RenderedFrame::new()
    }
}

/// What the caller does after a call of `render`: nothing, or send a frame.
pub enum RenderAction {
    Idle,
    /// A frame is finished: the caller raises the NMI.
    SendFrame(RenderedFrame),
}

pub trait Renderer {
    /// The renderer can follow the PPU up to `cycle` without failing.
    spec fn can_render(&self, ppu: Ppu<'_>, cycle: u64) -> bool;

    fn render(&mut self, ppu: &mut Ppu, cycle: u64) -> RenderAction
        requires
            old(self).can_render(*old(ppu), cycle),
    ;
}

} // verus!
