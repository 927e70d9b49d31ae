//! The presentation port of the canvas: a frame surface owns the raw
//! RGBA bytes and can present them, and the canvas drives it through
//! this capability without knowing which implementation stands behind
//! it. The crate ships an in-memory surface; a windowing shell can
//! supply one backed by a real display.

use vstd::prelude::*;

verus! {

/// Error of the in-memory surface; it never actually fails.
#[derive(Clone, Copy, Debug)]
pub struct TestPixelsError;

/// A mutable byte buffer of `width * height * 4` RGBA components
/// together with a present operation and a resize operation.
pub trait FrameSurface: Sized {
    /// Error reported by a failed present or resize.
    type PresentError;

    /// The bytes of the frame, four to a pixel.
    spec fn frame_view(&self) -> Seq<u8>;

    /// Number of bytes in the frame.
    fn frame_len(&self) -> (n: usize)
        ensures
            n == self.frame_view().len(),
    ;

    /// The four bytes of one pixel.
    fn read_quad(&self, start: usize) -> (r: [u8; 4])
        requires
            start + 4 <= self.frame_view().len(),
        ensures
            r[0] == self.frame_view()[start as int],
            r[1] == self.frame_view()[start as int + 1],
            r[2] == self.frame_view()[start as int + 2],
            r[3] == self.frame_view()[start as int + 3],
    ;

    /// Overwrites the four bytes of one pixel, leaving the rest of
    /// the frame untouched.
    fn write_quad(&mut self, start: usize, rgba: [u8; 4])
        requires
            start + 4 <= old(self).frame_view().len(),
        ensures
            final(self).frame_view() == old(self).frame_view().update(
                start as int,
                rgba[0],
            ).update(start as int + 1, rgba[1]).update(start as int + 2, rgba[2]).update(
                start as int + 3,
                rgba[3],
            ),
    ;

    /// Presents the frame; a shared borrow, so the bytes are
    /// untouched whatever the outcome.
    fn render(&self) -> (r: Result<(), Self::PresentError>);

    /// Replaces the frame by a zero-filled one of the new extents; on
    /// failure the frame is left as it was.
    fn resize(&mut self, width: u32, height: u32) -> (r: Result<(), Self::PresentError>)
        requires
            (width as int) * (height as int) * 4 <= usize::MAX,
        ensures
            r is Ok ==> final(self).frame_view() == Seq::new(
                ((width as nat) * (height as nat) * 4) as nat,
                |i: int| 0u8,
            ),
            r is Err ==> final(self).frame_view() == old(self).frame_view(),
    ;
}

/// An in-memory frame surface: a plain byte buffer whose present
/// operation does nothing. It backs the canvas in tests and wherever
/// no display is attached.
pub struct TestPixels {
    pub width: u32,
    pub height: u32,
    pub components: Vec<u8>,
}

impl TestPixels {
    /// The bytes currently stored, four to a pixel.
    pub open spec fn components_view(&self) -> Seq<u8> {
        self.components@
    }

    /// A zero-filled surface of the given extents.
    pub fn new(width: u32, height: u32) -> (r: TestPixels)
        requires
            (width as int) * (height as int) * 4 <= usize::MAX,
        ensures
            r.width == width,
            r.height == height,
            r.components_view() == Seq::new(((width as nat) * (height as nat) * 4) as nat, |i: int| 0u8),
    {
        proof {
            assert((width as int) * (height as int) >= 0) by (nonlinear_arith);
        }
        let len: usize = (width as usize) * (height as usize) * 4;
        TestPixels { width, height, components: zero_bytes(len) }
    }

    /// The whole frame, for reading.
    pub fn frame(&self) -> (r: &Vec<u8>)
        ensures
            r@ == self.components_view(),
    {
        &self.components
    }

    /// The whole frame, for writing.
    pub fn frame_mut(&mut self) -> (r: &mut Vec<u8>)
        ensures
            r@ == old(self).components_view(),
            final(self).components_view() == final(r)@,
            final(self).width == old(self).width,
            final(self).height == old(self).height,
    {
        &mut self.components
    }

    /// Presenting an in-memory frame does nothing and always
    /// succeeds.
    pub fn render(&self) -> (r: Result<(), TestPixelsError>)
        ensures
            r is Ok,
    {
        Ok(())
    }

    /// Replaces the frame by a zero-filled one of the new extents;
    /// never fails.
    pub fn resize_surface(&mut self, width: u32, height: u32) -> (r: Result<
        (),
        TestPixelsError,
    >)
        requires
            (width as int) * (height as int) * 4 <= usize::MAX,
        ensures
            r is Ok,
            final(self).width == width,
            final(self).height == height,
            final(self).components_view() == Seq::new(
                ((width as nat) * (height as nat) * 4) as nat,
                |i: int| 0u8,
            ),
    {
        proof {
            assert((width as int) * (height as int) >= 0) by (nonlinear_arith);
        }
        let len: usize = (width as usize) * (height as usize) * 4;
        self.width = width;
        self.height = height;
        self.components = zero_bytes(len);
        Ok(())
    }
}

impl FrameSurface for TestPixels {
    type PresentError = TestPixelsError;

    open spec fn frame_view(&self) -> Seq<u8> {
        self.components@
    }

    fn frame_len(&self) -> (n: usize)
        ensures
            n == self.frame_view().len(),
    {
        self.components.len()
    }

    fn read_quad(&self, start: usize) -> (r: [u8; 4]) {
        [
            *self.components.get(start).unwrap(),
            *self.components.get(start + 1).unwrap(),
            *self.components.get(start + 2).unwrap(),
            *self.components.get(start + 3).unwrap(),
        ]
    }

    fn write_quad(&mut self, start: usize, rgba: [u8; 4]) {
        proof {
            vstd::std_specs::vec::axiom_spec_len(&self.components);
        }
        self.components.set(start, rgba[0]);
        self.components.set(start + 1, rgba[1]);
        self.components.set(start + 2, rgba[2]);
        self.components.set(start + 3, rgba[3]);
    }

    fn render(&self) -> (r: Result<(), TestPixelsError>)
        ensures
            r is Ok,
    {
        Ok(())
    }

    fn resize(&mut self, width: u32, height: u32) -> (r: Result<(), TestPixelsError>)
        ensures
            r is Ok,
            final(self).width == width,
            final(self).height == height,
    {
        self.resize_surface(width, height)
    }
}

/// A zero-filled byte buffer of the given length.
fn zero_bytes(len: usize) -> (v: Vec<u8>)
    ensures
        v@ == Seq::new(len as nat, |i: int| 0u8),
{
    let mut v: Vec<u8> = Vec::new();
    let mut i: usize = 0;
    while i < len
        invariant
            i <= len,
            v@.len() == i,
            forall|j: int| 0 <= j < i ==> v@[j] == 0u8,
        decreases len - i,
    {
        v.push(0);
        i = i + 1;
    }
    proof {
        assert(v@ =~= Seq::new(len as nat, |i: int| 0u8));
    }
    v
}

} // verus!
