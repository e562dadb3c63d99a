//! Double-buffered shared memory of the software renderer.
//!
//! The renderer owns one `wl_shm` pool split into two slots of equal length and draws
//! each frame into one slot while the compositor may still read the other. This module
//! decides the lengths, the slot a frame goes to, and the buffer geometry.
use vstd::prelude::*;

verus! {

/// Bytes of one ARGB8888 frame of `width` by `height` pixels.
pub open spec fn frame_bytes(width: u32, height: u32) -> int {
    width * height * 4
}

/// Length of one slot: a whole frame, and never empty.
pub open spec fn slot_bytes(width: u32, height: u32) -> int {
    if frame_bytes(width, height) == 0 {
        1
    } else {
        frame_bytes(width, height)
    }
}

/// Two slots of this size fit in the address space.
pub open spec fn pool_fits(width: u32, height: u32) -> bool {
    2 * slot_bytes(width, height) <= usize::MAX
}

/// Whether two slots for frames of this size fit in the address space.
pub fn pool_fits_for(width: u32, height: u32) -> (b: bool)
    ensures
        b == pool_fits(width, height),
{
    proof {
        lemma_frame_bytes_parts(width, height);
        assert(width * height <= 0xffff_ffff * 0xffff_ffffu64) by (nonlinear_arith)
            requires
                width <= 0xffff_ffff,
                height <= 0xffff_ffff,
        ;
    }
    let frame: u128 = width as u128 * height as u128 * 4;
    let slot: u128 = if frame == 0 { 1 } else { frame };
    slot * 2 <= usize::MAX as u128
}

/// Lengths of the pool and of each of its two slots.
#[derive(Clone, Copy, Debug, PartialEq, Eq, Structural)]
pub struct SlotLayout {
    pub slot_len: usize,
    pub pool_len: usize,
}

/// Bytes of one frame.
pub fn buffer_len(width: u32, height: u32) -> (n: usize)
    requires
        frame_bytes(width, height) <= usize::MAX,
    ensures
        n == frame_bytes(width, height),
{
    proof {
        lemma_frame_bytes_parts(width, height);
    }
    width as usize * height as usize * 4
}

/// The pool and slot lengths for frames of the given size.
pub fn slot_layout(width: u32, height: u32) -> (l: SlotLayout)
    requires
        pool_fits(width, height),
    ensures
        l.slot_len == slot_bytes(width, height),
        l.pool_len == 2 * slot_bytes(width, height),
{
    let frame = buffer_len(width, height);
    let slot = if frame > 1 { frame } else { 1 };
    SlotLayout { slot_len: slot, pool_len: slot * 2 }
}

proof fn lemma_frame_bytes_parts(width: u32, height: u32)
    ensures
        0 <= width * height <= width * height * 4,
        frame_bytes(width, height) >= 0,
        frame_bytes(width, height) == 0 <==> (width == 0 || height == 0),
{
    assert(0 <= width * height) by (nonlinear_arith);
    assert(width * height == 0 <==> (width == 0 || height == 0)) by (nonlinear_arith);
}

/// Where and how the next frame is drawn.
#[derive(Clone, Copy, Debug, PartialEq, Eq, Structural)]
pub struct FramePlan {
    /// Index of the slot to draw into: 0 or 1.
    pub slot: usize,
    pub width: i32,
    pub height: i32,
    /// Bytes per row.
    pub stride: i32,
}

/// The abstract state of the double buffer.
#[derive(Clone, Copy, Debug, PartialEq, Eq, Structural)]
pub struct BufferView {
    pub width: u32,
    pub height: u32,
    pub next_slot: usize,
}

impl BufferView {
    /// The slot index names one of the two slots.
    pub open spec fn wf(self) -> bool {
        self.next_slot < 2
    }

    /// The state after a frame was presented: the other slot is next.
    pub open spec fn after_present(self) -> BufferView {
        BufferView { next_slot: (1 - self.next_slot) as usize, ..self }
    }

    /// The state after the slots were reallocated for a new frame size.
    pub open spec fn after_resize(self, width: u32, height: u32) -> BufferView {
        BufferView { width, height, next_slot: 0 }
    }

    /// The frame to draw, if the surface has an area.
    pub open spec fn frame(self) -> Option<FramePlan> {
        if self.width == 0 || self.height == 0 {
            None
        } else {
            Some(
                FramePlan {
                    slot: self.next_slot,
                    width: self.width as i32,
                    height: self.height as i32,
                    stride: ((self.width as i32) * 4) as i32,
                },
            )
        }
    }
}

/// Size and slot alternation of the software renderer's buffers.
pub struct ShmBuffers {
    width: u32,
    height: u32,
    next_slot: usize,
}

impl View for ShmBuffers {
    type V = BufferView;

    closed spec fn view(&self) -> BufferView {
        BufferView { width: self.width, height: self.height, next_slot: self.next_slot }
    }
}

impl ShmBuffers {
    /// The slot index names one of the two slots.
    #[verifier::type_invariant]
    closed spec fn inv(&self) -> bool {
        self.next_slot < 2
    }

    /// Buffers for frames of the given size, drawing first into slot 0, with the
    /// lengths to allocate.
    pub fn new(width: u32, height: u32) -> (r: (ShmBuffers, SlotLayout))
        requires
            pool_fits(width, height),
        ensures
            r.0@ == (BufferView { width, height, next_slot: 0 }),
            r.0@.wf(),
            r.1.slot_len == slot_bytes(width, height),
            r.1.pool_len == 2 * slot_bytes(width, height),
    {
        (ShmBuffers { width, height, next_slot: 0 }, slot_layout(width, height))
    }

    /// The current frame size.
    pub fn size(&self) -> (s: (u32, u32))
        ensures
            s == (self@.width, self@.height),
            self@.wf(),
    {
        proof {
            use_type_invariant(self);
        }
        (self.width, self.height)
    }

    /// The lengths to reallocate for a new frame size, or `None` when the size is
    /// unchanged and the current slots are kept.
    pub fn resize_layout(&self, width: u32, height: u32) -> (l: Option<SlotLayout>)
        requires
            (width, height) != (self@.width, self@.height) ==> pool_fits(width, height),
        ensures
            (width, height) == (self@.width, self@.height) <==> l is None,
            l matches Some(layout) ==> layout.slot_len == slot_bytes(width, height)
                && layout.pool_len == 2 * slot_bytes(width, height),
    {
        if width == self.width && height == self.height {
            None
        } else {
            Some(slot_layout(width, height))
        }
    }

    /// Records that the slots were reallocated for the new size: drawing restarts at slot 0.
    pub fn resized(&mut self, width: u32, height: u32)
        ensures
            final(self)@ == old(self)@.after_resize(width, height),
            final(self)@.wf(),
    {
        *self = ShmBuffers { width, height, next_slot: 0 };
    }

    /// The frame to draw next, or `None` while the surface has no area.
    pub fn frame_plan(&self) -> (p: Option<FramePlan>)
        requires
            self@.width != 0 && self@.height != 0 ==> i32::MIN <= (self@.width as i32) * 4
                <= i32::MAX,
        ensures
            p == self@.frame(),
            p matches Some(plan) ==> plan.slot < 2,
    {
        proof {
            use_type_invariant(self);
        }
        if self.width == 0 || self.height == 0 {
            None
        } else {
            let width = self.width as i32;
            Some(
                FramePlan {
                    slot: self.next_slot,
                    width,
                    height: self.height as i32,
                    stride: width * 4,
                },
            )
        }
    }

    /// Whether the row stride of a frame at the current size is an `i32`, as
    /// `frame_plan` needs.
    pub fn stride_fits(&self) -> (b: bool)
        ensures
            b == (self@.width != 0 && self@.height != 0 ==> i32::MIN <= (self@.width as i32) * 4
                <= i32::MAX),
    {
        if self.width == 0 || self.height == 0 {
            true
        } else {
            let width = self.width as i32;
            width >= -536870912 && width <= 536870911
        }
    }

    /// Records that a frame was presented from the current slot: the other slot is next.
    pub fn presented(&mut self)
        ensures
            final(self)@ == old(self)@.after_present(),
            final(self)@.wf(),
    {
        proof {
            use_type_invariant(&*self);
        }
        self.next_slot = 1 - self.next_slot;
    }
}

/// Presenting switches slots, and presenting twice comes back to the first one: the
/// renderer alternates between its two buffers.
pub proof fn law_presents_alternate(v: BufferView)
    requires
        v.wf(),
    ensures
        v.after_present().wf(),
        v.after_present().next_slot != v.next_slot,
        v.after_present().after_present() == v,
        v.after_present().width == v.width && v.after_present().height == v.height,
{
}

/// After a resize the next frame goes to slot 0, at the new size.
pub proof fn law_resize_restarts_at_first_slot(v: BufferView, width: u32, height: u32)
    ensures
        v.after_resize(width, height).wf(),
        v.after_resize(width, height).next_slot == 0,
        (width != 0 && height != 0) ==> (v.after_resize(width, height).frame() matches Some(p)
            && p.slot == 0),
{
}

/// The buffer a frame is drawn into fits in one slot of the pool allocated for its
/// size, and the two slots fill the pool exactly.
pub proof fn law_frame_fits_slot(width: u32, height: u32)
    requires
        width != 0 && height != 0,
        pool_fits(width, height),
        width * 4 <= i32::MAX,
        height <= i32::MAX,
    ensures
        (BufferView { width, height, next_slot: 0 }).frame() matches Some(p) && p.stride
            * p.height == frame_bytes(width, height) && p.stride * p.height <= slot_bytes(
            width,
            height,
        ),
        2 * slot_bytes(width, height) <= usize::MAX,
{
    assert((width as i32) as int == width as int);
    assert((height as i32) as int == height as int);
    assert(((width as i32) * 4) as i32 as int == width * 4);
    assert(width * 4 * height == width * height * 4) by (nonlinear_arith);
}

/// Whatever the slot, the frame to draw has the surface's geometry: its width and
/// height, four bytes per pixel in a row, in the slot that is next.
pub proof fn law_frame_has_surface_geometry(v: BufferView)
    requires
        v.wf(),
        v.width != 0,
        v.height != 0,
        v.width * 4 <= i32::MAX,
        v.height <= i32::MAX,
    ensures
        v.frame() matches Some(p) && p.slot == v.next_slot && p.width as int == v.width as int
            && p.height as int == v.height as int && p.stride as int == 4 * v.width,
        v.after_present().frame() matches Some(q) && q.slot != v.next_slot && q.width
            as int == v.width as int && q.height as int == v.height as int && q.stride as int
            == 4 * v.width,
{
    assert((v.width as i32) as int == v.width as int);
    assert((v.height as i32) as int == v.height as int);
    assert(((v.width as i32) * 4) as i32 as int == v.width * 4);
}

} // verus!
