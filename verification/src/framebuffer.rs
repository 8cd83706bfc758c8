//! A width x height buffer of packed 0xRRGGBB pixels with a current
//! drawing color, written one pixel at a time.

use vstd::prelude::*;

verus! {

pub struct Framebuffer {
    pub width: usize,
    pub height: usize,
    pub buffer: Vec<u32>,
    pub current_color: u32,
    pub background_color: u32,
}

pub open spec fn fb_wf(fb: Framebuffer) -> bool {
    &&& 1 <= fb.width <= 4096
    &&& 1 <= fb.height <= 4096
    &&& fb.buffer.len() == fb.width * fb.height
}

impl Framebuffer {
    /// A black framebuffer of the given size.
    pub fn new(width: usize, height: usize) -> (fb: Framebuffer)
        requires
            1 <= width <= 4096,
            1 <= height <= 4096,
        ensures
            fb.width == width,
            fb.height == height,
            fb.current_color == 0u32,
            fb.background_color == 0u32,
            fb.buffer.len() == width * height,
            forall|i: int| 0 <= i < fb.buffer.len() ==> fb.buffer@[i] == 0u32,
            fb_wf(fb),
    {
        proof {
            assert(width * height <= 4096 * 4096) by (nonlinear_arith)
                requires
                    width <= 4096,
                    height <= 4096,
            ;
            assert(width * height >= 1) by (nonlinear_arith)
                requires
                    width >= 1,
                    height >= 1,
            ;
        }
        let n: usize = width * height;
        let mut buffer: Vec<u32> = Vec::new();
        let mut i: usize = 0;
        while i < n
            invariant
                i <= n,
                buffer.len() == i,
                forall|j: int| 0 <= j < i ==> buffer@[j] == 0u32,
            decreases n - i,
        {
            buffer.push(0u32);
            i = i + 1;
        }
        Framebuffer { width, height, buffer, current_color: 0, background_color: 0 }
    }

    pub fn set_background_color(&mut self, color: u32)
        ensures
            final(self).background_color == color,
            final(self).width == old(self).width,
            final(self).height == old(self).height,
            final(self).buffer == old(self).buffer,
            final(self).current_color == old(self).current_color,
    {
        self.background_color = color;
    }

    pub fn set_current_color(&mut self, color: u32)
        ensures
            final(self).current_color == color,
            final(self).width == old(self).width,
            final(self).height == old(self).height,
            final(self).buffer == old(self).buffer,
            final(self).background_color == old(self).background_color,
    {
        self.current_color = color;
    }

    /// Fill the whole buffer with the background color.
    pub fn clear(&mut self)
        requires
            fb_wf(*old(self)),
        ensures
            final(self).width == old(self).width,
            final(self).height == old(self).height,
            final(self).current_color == old(self).current_color,
            final(self).background_color == old(self).background_color,
            final(self).buffer.len() == old(self).buffer.len(),
            forall|i: int|
                0 <= i < final(self).buffer.len() ==> final(self).buffer@[i] == final(self).background_color,
            fb_wf(*final(self)),
    {
        let n = self.buffer.len();
        let mut i: usize = 0;
        while i < n
            invariant
                i <= n,
                self.buffer.len() == n,
                self.width == old(self).width,
                self.height == old(self).height,
                self.current_color == old(self).current_color,
                self.background_color == old(self).background_color,
                forall|j: int| 0 <= j < i ==> self.buffer@[j] == self.background_color,
            decreases n - i,
        {
            let c = self.background_color;
            self.buffer.set(i, c);
            i = i + 1;
        }
    }

    /// Write the current color at (x, y); every other pixel keeps its value.
    pub fn point(&mut self, x: usize, y: usize)
        requires
            fb_wf(*old(self)),
            x < old(self).width,
            y < old(self).height,
        ensures
            final(self).width == old(self).width,
            final(self).height == old(self).height,
            final(self).current_color == old(self).current_color,
            final(self).background_color == old(self).background_color,
            final(self).buffer.len() == old(self).buffer.len(),
            final(self).buffer@[y * old(self).width + x] == old(self).current_color,
            forall|i: int|
                0 <= i < final(self).buffer.len() && i != y * old(self).width + x ==> final(self).buffer@[i] == old(self).buffer@[i],
            fb_wf(*final(self)),
    {
        proof {
            assert(y * self.width + x < self.buffer.len()) by (nonlinear_arith)
                requires
                    x < self.width,
                    y < self.height,
                    self.buffer.len() == self.width * self.height,
            ;
        }
        let idx: usize = y * self.width + x;
        let c = self.current_color;
        self.buffer.set(idx, c);
    }
}

} // verus!
