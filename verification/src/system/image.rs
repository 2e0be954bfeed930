//! Images handed to GLFW, for window icons and custom cursors.
use vstd::prelude::*;

verus! {

/// Describes a single 2D image: its width and height and its pixels, which
/// are 32-bit, little-endian, non-premultiplied RGBA, arranged as packed
/// sequential rows starting from the top-left corner.
#[derive(Debug, Clone, PartialEq, Eq)]
pub struct Image {
    width: i32,
    height: i32,
    pixels: Vec<u8>,
}

impl View for Image {
    /// The width, the height and the pixel bytes.
    type V = (i32, i32, Seq<u8>);

    closed spec fn view(&self) -> (i32, i32, Seq<u8>) {
        (self.width, self.height, self.pixels@)
    }
}

impl Image {
    /// Construct a new, empty [Image].
    pub fn new() -> (r: Self)
        ensures
            r@ == (0i32, 0i32, Seq::<u8>::empty()),
    {
        Image { width: 0, height: 0, pixels: Vec::new() }
    }

    /// Returns the width of this [Image].
    pub fn width(&self) -> (r: i32)
        ensures
            r == self@.0,
    {
        self.width
    }

    /// Returns the height of this [Image].
    pub fn height(&self) -> (r: i32)
        ensures
            r == self@.1,
    {
        self.height
    }

    /// Returns a view of the pixels in this [Image].
    pub fn pixels(&self) -> (r: &[u8])
        ensures
            r@ == self@.2,
    {
        self.pixels.as_slice()
    }

    /// Update the pixels in this [Image]. The given [Vec] must have a length
    /// equal to `width * height * 4`.
    pub fn set_pixels(&mut self, width: i32, height: i32, pixels: Vec<u8>)
        requires
            width * height * 4 == pixels@.len(),
        ensures
            final(self)@ == (width, height, pixels@),
    {
        self.width = width;
        self.height = height;
        self.pixels = pixels;
    }

    /// Takes the image apart for GLFW's image record: its width, its height
    /// and its pixels.
    pub fn to_glfw(self) -> (r: (i32, i32, Vec<u8>))
        ensures
            (r.0, r.1, r.2@) == self@,
    {
        (self.width, self.height, self.pixels)
    }

    /// Builds an image from the parts of GLFW's image record: its width, its
    /// height and its `width * height * 4` pixel bytes.
    pub fn from_glfw(width: i32, height: i32, pixels: Vec<u8>) -> (r: Self)
        ensures
            r@ == (width, height, pixels@),
    {
        Image { width, height, pixels }
    }

    /// Lends the parts of the image for GLFW's image record: its width, its
    /// height and its pixels.
    pub fn as_glfw(&self) -> (r: (i32, i32, &[u8]))
        ensures
            (r.0, r.1, r.2@) == self@,
    {
        (self.width, self.height, self.pixels.as_slice())
    }
}

} // verus!
