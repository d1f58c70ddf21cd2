//! The three off-screen buffers of a surface: one on display, one being
//! drawn, one spare. A new wallpaper moves the display to the buffer just
//! drawn and drawing on to the next one. Also the choice of the surface's
//! texture format.
use vstd::prelude::*;

use crate::search::{first_index, lemma_first_index_is, lemma_no_index};

verus! {

/// The buffer after `i` in the ring of three.
pub open spec fn ring_next(i: int) -> int {
    (i + 1) % 3
}

/// The positions of the buffer on display and of the buffer being drawn.
pub struct BufferRing {
    display: usize,
    render: usize,
}

impl BufferRing {
    /// The buffer on display.
    pub closed spec fn spec_display(&self) -> usize {
        self.display
    }

    /// The buffer being drawn.
    pub closed spec fn spec_render(&self) -> usize {
        self.render
    }

    /// Both are buffers of the ring, and they differ.
    pub open spec fn wf(&self) -> bool {
        &&& self.spec_display() < 3
        &&& self.spec_render() < 3
        &&& self.spec_display() != self.spec_render()
    }

    /// The first buffer on display, the second drawn.
    pub fn new() -> (res: BufferRing)
        ensures
            res.wf(),
            res.spec_display() == 0,
            res.spec_render() == 1,
    {
        BufferRing { display: 0, render: 1 }
    }

    /// The buffer on display.
    pub fn display(&self) -> (res: usize)
        ensures
            res == self.spec_display(),
    {
        self.display
    }

    /// The buffer being drawn.
    pub fn render(&self) -> (res: usize)
        ensures
            res == self.spec_render(),
    {
        self.render
    }

    /// Shows the buffer just drawn and draws on into the one after it.
    pub fn increment(&mut self)
        requires
            old(self).wf(),
        ensures
            final(self).wf(),
            final(self).spec_display() == old(self).spec_render(),
            final(self).spec_render() == ring_next(old(self).spec_render() as int),
    {
        self.display = self.render;
        self.render = (self.display + 1) % 3;
    }
}

/// The surface format to draw in, given whether each supported format is
/// sRGB: the first sRGB format, else the first format; none where the
/// surface supports none.
pub fn preferred_format(is_srgb: &[bool]) -> (res: Option<usize>)
    ensures
        is_srgb@.len() == 0 ==> res is None,
        first_index(is_srgb@.len() as int, |k: int| is_srgb@[k]) matches Some(k) ==> res == Some(
            k as usize,
        ),
        is_srgb@.len() > 0 && first_index(is_srgb@.len() as int, |k: int| is_srgb@[k]) is None
            ==> res == Some(0usize),
{
    let mut i: usize = 0;
    while i < is_srgb.len()
        invariant
            0 <= i <= is_srgb@.len(),
            forall|j: int| 0 <= j < i ==> !#[trigger] is_srgb@[j],
        decreases is_srgb@.len() - i,
    {
        if is_srgb[i] {
            proof {
                lemma_first_index_is(is_srgb@.len() as int, |k: int| is_srgb@[k], i as int);
            }
            return Some(i);
        }
        i = i + 1;
    }
    proof {
        lemma_no_index(is_srgb@.len() as int, |k: int| is_srgb@[k]);
    }
    if is_srgb.len() == 0 {
        None
    } else {
        Some(0)
    }
}

/// From the start, three new wallpapers bring the ring back to where it
/// began, each buffer on display once on the way.
pub proof fn lemma_ring_returns_after_three(render: int)
    requires
        0 <= render < 3,
    ensures
        ring_next(ring_next(ring_next(render))) == render,
        ring_next(render) != render,
        ring_next(ring_next(render)) != render,
{
}

} // verus!
