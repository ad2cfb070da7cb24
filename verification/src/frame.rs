use vstd::prelude::*;
use crate::color::Color;
use crate::event::RenderCommand;

verus! {

/// A buffer of the given length with every pixel the given color.
pub open spec fn spec_filled(len: nat, c: Color) -> Seq<Color> {
    Seq::new(len, |i: int| c)
}

/// The model of the color buffer: one cell per pixel. Its size is
/// fixed when the surface is made and never changes afterwards.
pub struct FrameBuffer {
    pub pixels: Vec<Color>,
}

impl FrameBuffer {
    /// A buffer of the given size with every pixel the given color.
    pub fn new(len: usize, c: Color) -> (fb: FrameBuffer)
        ensures
            fb.pixels@ == spec_filled(len as nat, c),
    {
        let mut fb = FrameBuffer { pixels: Vec::new() };
        fb.clear_to(c, len);
        fb
    }

    /// Clear the buffer to the given color at the given size: every
    /// pixel takes that color, and nothing of the previous contents
    /// survives.
    fn clear_to(&mut self, c: Color, len: usize)
        ensures
            final (self).pixels@ == spec_filled(len as nat, c),
    {
        let mut fresh: Vec<Color> = Vec::new();
        let mut i: usize = 0;
        while i < len
            invariant
                i <= len,
                fresh@ == spec_filled(i as nat, c),
            decreases len - i,
        {
            fresh.push(c);
            i = i + 1;
            proof {
                assert(fresh@ =~= spec_filled(i as nat, c));
            }
        }
        self.pixels = fresh;
    }

    /// Clear the whole buffer to the given color, keeping its size.
    pub fn clear(&mut self, c: Color)
        ensures
            final (self).pixels@ == spec_filled(old(self).pixels@.len(), c),
    {
        let len = self.pixels.len();
        self.clear_to(c, len);
    }

    /// Carry out one render command: clear the whole buffer to the
    /// command's color and bind the command's program — no draw call
    /// is ever issued, so the presented frame is exactly the cleared
    /// buffer. Returns the handle that was bound.
    pub fn render(&mut self, cmd: RenderCommand) -> (bound: u32)
        ensures
            final (self).pixels@ == spec_filled(old(self).pixels@.len(), cmd.clear),
            bound == cmd.program,
    {
        self.clear(cmd.clear);
        cmd.program
    }
}

} // verus!
