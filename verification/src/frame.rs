//! Frames as the foreign delivery layer hands them over.
//!
//! A [`FrameDescriptor`] owns one delivered frame's metadata and pixel
//! buffer; it stands for the buffer-plus-metadata record the foreign layer
//! keeps and reuses. A [`FrameView`] is the read-only, borrowed window a
//! user callback gets for the duration of a single delivery: it never owns
//! the buffer, so dropping it releases nothing, and its lifetime ties it to
//! the one invocation it was made for.

use vstd::prelude::*;

verus! {

/// Pixel layout of a delivered frame, from the foreign layer's fixed set.
#[derive(Clone, Copy, Debug, PartialEq, Eq, Structural)]
pub enum FrameFormat {
    Unknown,
    Any,
    Uncompressed,
    Compressed,
    Yuyv,
    Uyvy,
    Rgb,
    Bgr,
    Mjpeg,
    Gray8,
    Gray16,
    Nv12,
}

/// One delivered frame: metadata plus the pixel buffer.
///
/// The foreign delivery layer owns records like this and reuses them after
/// a callback returns; the library only ever reads them through a
/// [`FrameView`].
#[derive(Debug)]
pub struct FrameDescriptor {
    /// Frame width in pixels.
    pub width: u32,
    /// Frame height in pixels.
    pub height: u32,
    /// Pixel layout of `data`.
    pub format: FrameFormat,
    /// Running number of the frame within its stream.
    pub sequence: u32,
    /// The raw pixel bytes.
    pub data: Vec<u8>,
}

/// A read-only view of one delivered frame, valid for a single callback
/// invocation.
///
/// The view borrows the descriptor and never frees or mutates it; buffer
/// ownership stays with the foreign delivery layer.
#[derive(Clone, Copy)]
pub struct FrameView<'a> {
    /// The borrowed descriptor this view reads.
    pub desc: &'a FrameDescriptor,
}

/// The view a trampoline invocation builds over a delivered descriptor.
pub open spec fn view_of<'a>(d: &'a FrameDescriptor) -> FrameView<'a> {
    (FrameView { desc: d })
}

impl<'a> FrameView<'a> {
    /// Whether this view shows exactly the given descriptor.
    pub open spec fn matches(self, d: FrameDescriptor) -> bool {
        *self.desc == d
    }

    /// Wraps a delivered descriptor without taking ownership of its buffer.
    pub fn new(d: &'a FrameDescriptor) -> (v: FrameView<'a>)
        ensures
            v == view_of(d),
            v.matches(*d),
    {
        FrameView { desc: d }
    }

    /// Frame width in pixels.
    pub fn width(&self) -> (w: u32)
        ensures
            w == self.desc.width,
    {
        self.desc.width
    }

    /// Frame height in pixels.
    pub fn height(&self) -> (h: u32)
        ensures
            h == self.desc.height,
    {
        self.desc.height
    }

    /// Pixel layout of the frame's buffer.
    pub fn format(&self) -> (f: FrameFormat)
        ensures
            f == self.desc.format,
    {
        self.desc.format
    }

    /// Running number of the frame within its stream.
    pub fn sequence(&self) -> (s: u32)
        ensures
            s == self.desc.sequence,
    {
        self.desc.sequence
    }

    /// Read-only access to the pixel bytes; the buffer stays with the
    /// foreign delivery layer.
    pub fn data(&self) -> (b: &'a Vec<u8>)
        ensures
            b@ == self.desc.data@,
    {
        &self.desc.data
    }
}

} // verus!
