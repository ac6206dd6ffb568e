//! Pixel layouts and the owned buffers that hold image bytes.
use image::DynamicImage;
use vstd::prelude::*;

verus! {

/// Describes the pixel layout (the order of the color channels) of an image.
#[derive(Copy, Clone, Debug, PartialEq, Eq, Structural)]
pub enum PixelLayout {
    Rgb,
    Rgba,
}

impl PixelLayout {
    /// Number of bytes one pixel takes in this layout.
    pub open spec fn spec_bytes_per_pixel(self) -> nat {
        match self {
            PixelLayout::Rgb => 3,
            PixelLayout::Rgba => 4,
        }
    }

    /// Returns true if the pixel contains an alpha channel.
    pub fn is_alpha(self) -> (r: bool)
        ensures
            r == (self == PixelLayout::Rgba),
    {
        self == PixelLayout::Rgba
    }

    pub fn bytes_per_pixel(self) -> (r: u8)
        ensures
            r as nat == self.spec_bytes_per_pixel(),
    {
        match self {
            PixelLayout::Rgb => 3,
            PixelLayout::Rgba => 4,
        }
    }
}

/// The number of bytes a tightly packed `width` x `height` image in `layout` occupies.
pub open spec fn required_len(layout: PixelLayout, width: u32, height: u32) -> nat {
    (width as nat) * (height as nat) * layout.spec_bytes_per_pixel()
}

/// An owned byte buffer produced by the codec. It has exactly one owner and is
/// released exactly once, when that owner goes out of scope.
pub struct WebPMemory {
    data: Vec<u8>,
}

impl View for WebPMemory {
    type V = Seq<u8>;

    closed spec fn view(&self) -> Seq<u8> {
        self.data@
    }
}

impl WebPMemory {
    /// Takes ownership of `data`.
    pub fn new(data: Vec<u8>) -> (r: Self)
        ensures
            r@ == data@,
    {
        WebPMemory { data }
    }

    pub fn len(&self) -> (r: usize)
        ensures
            r == self@.len(),
    {
        self.data.len()
    }

    pub fn is_empty(&self) -> (r: bool)
        ensures
            r == (self@.len() == 0),
    {
        self.data.len() == 0
    }

    /// A read-only view of the bytes, limited to the buffer's length.
    pub fn as_slice(&self) -> (r: &[u8])
        ensures
            r@ == self@,
    {
        self.data.as_slice()
    }

    /// Overwrites the byte at `index`.
    pub fn set(&mut self, index: usize, value: u8)
        requires
            index < old(self)@.len(),
        ensures
            final(self)@ == old(self)@.update(index as int, value),
    {
        self.data.set(index, value);
    }

    /// Gives the bytes up to the caller.
    pub fn into_vec(self) -> (r: Vec<u8>)
        ensures
            r@ == self@,
    {
        self.data
    }
}

impl std::ops::Deref for WebPMemory {
    type Target = [u8];

    fn deref(&self) -> &[u8] {
        self.data.as_slice()
    }
}

impl std::ops::DerefMut for WebPMemory {
    fn deref_mut(&mut self) -> &mut [u8] {
        self.data.as_mut_slice()
    }
}

#[verifier::external_type_specification]
#[verifier::external_body]
pub struct ExDynamicImage(DynamicImage);

/// Relies on image::ImageBuffer::from_raw for RGB pixels, and on wrapping the
/// buffer as DynamicImage::ImageRgb8: the bytes are accepted exactly when
/// 3 * width * height fits in usize and is at most their number.
#[verifier::external_body]
fn rgb_image(width: u32, height: u32, data: Vec<u8>) -> (r: Option<DynamicImage>)
    ensures
        r is Some <==> required_len(PixelLayout::Rgb, width, height) <= data@.len(),
{
    image::ImageBuffer::from_raw(width, height, data).map(DynamicImage::ImageRgb8)
}

/// Relies on image::ImageBuffer::from_raw for RGBA pixels, and on wrapping the
/// buffer as DynamicImage::ImageRgba8: the bytes are accepted exactly when
/// 4 * width * height fits in usize and is at most their number.
#[verifier::external_body]
fn rgba_image(width: u32, height: u32, data: Vec<u8>) -> (r: Option<DynamicImage>)
    ensures
        r is Some <==> required_len(PixelLayout::Rgba, width, height) <= data@.len(),
{
    image::ImageBuffer::from_raw(width, height, data).map(DynamicImage::ImageRgba8)
}

/// Builds a `DynamicImage` of `layout` over `data`, or `None` when `data` is too
/// short for a `width` x `height` image.
pub fn image_from_raw(layout: PixelLayout, width: u32, height: u32, data: Vec<u8>) -> (r: Option<
    DynamicImage,
>)
    ensures
        r is Some <==> required_len(layout, width, height) <= data@.len(),
{
    match layout {
        PixelLayout::Rgb => rgb_image(width, height, data),
        PixelLayout::Rgba => rgba_image(width, height, data),
    }
}

/// Relies on the variants of image::DynamicImage and on ImageBuffer's `as_ref`,
/// `width` and `height`: an 8-bit RGB or RGBA image is handed out as its layout,
/// its raw bytes and its size; any other kind of image as `None`. Every
/// constructor of ImageBuffer (`new`, `from_raw`, `default`, `clone`) leaves at
/// least channels * width * height bytes in it, and `as_ref` hands out all of them.
#[verifier::external_body]
pub(crate) fn image_parts(image: &DynamicImage) -> (r: Option<(PixelLayout, &[u8], u32, u32)>)
    ensures
        r matches Some((layout, bytes, width, height)) ==> required_len(layout, width, height)
            <= bytes@.len(),
{
    match image {
        DynamicImage::ImageRgb8(b) => Some((PixelLayout::Rgb, b.as_ref(), b.width(), b.height())),
        DynamicImage::ImageRgba8(b) => Some((PixelLayout::Rgba, b.as_ref(), b.width(), b.height())),
        _ => None,
    }
}

/// Copies the first `len` bytes of `src` into a buffer of their own.
pub fn copy_prefix(src: &[u8], len: usize) -> (r: Vec<u8>)
    requires
        len <= src@.len(),
    ensures
        r@ == src@.subrange(0, len as int),
{
    let mut out: Vec<u8> = Vec::with_capacity(len);
    let mut i: usize = 0;
    while i < len
        invariant
            i <= len,
            len <= src@.len(),
            out@ == src@.subrange(0, i as int),
        decreases len - i,
    {
        out.push(src[i]);
        i = i + 1;
    }
    out
}

/// A decoded image: its pixel bytes, their layout and the image's size.
pub struct WebPImage {
    data: WebPMemory,
    layout: PixelLayout,
    width: u32,
    height: u32,
}

impl View for WebPImage {
    type V = Seq<u8>;

    closed spec fn view(&self) -> Seq<u8> {
        self.data@
    }
}

impl WebPImage {
    pub closed spec fn spec_layout(&self) -> PixelLayout {
        self.layout
    }

    pub closed spec fn spec_width(&self) -> u32 {
        self.width
    }

    pub closed spec fn spec_height(&self) -> u32 {
        self.height
    }

    /// The bytes cover every pixel of the image.
    pub open spec fn is_complete(&self) -> bool {
        required_len(self.spec_layout(), self.spec_width(), self.spec_height()) <= self@.len()
    }

    pub fn new(data: WebPMemory, layout: PixelLayout, width: u32, height: u32) -> (r: Self)
        ensures
            r@ == data@,
            r.spec_layout() == layout,
            r.spec_width() == width,
            r.spec_height() == height,
    {
        WebPImage { data, layout, width, height }
    }

    /// Creates a DynamicImage from this WebPImage.
    pub fn to_image(&self) -> (r: DynamicImage)
        requires
            self.is_complete(),
    {
        let bytes = copy_prefix(self.data.as_slice(), self.data.len());
        image_from_raw(self.layout, self.width, self.height, bytes).unwrap()
    }

    /// Returns the width of the image in pixels.
    pub fn width(&self) -> (r: u32)
        ensures
            r == self.spec_width(),
    {
        self.width
    }

    /// Returns the height of the image in pixels.
    pub fn height(&self) -> (r: u32)
        ensures
            r == self.spec_height(),
    {
        self.height
    }

    pub fn is_alpha(&self) -> (r: bool)
        ensures
            r == (self.spec_layout() == PixelLayout::Rgba),
    {
        self.layout.is_alpha()
    }

    pub fn layout(&self) -> (r: PixelLayout)
        ensures
            r == self.spec_layout(),
    {
        self.layout
    }

    pub fn as_slice(&self) -> (r: &[u8])
        ensures
            r@ == self@,
    {
        self.data.as_slice()
    }
}

impl std::ops::Deref for WebPImage {
    type Target = [u8];

    fn deref(&self) -> &[u8] {
        self.data.as_slice()
    }
}

impl std::ops::DerefMut for WebPImage {
    fn deref_mut(&mut self) -> &mut [u8] {
        self.data.data.as_mut_slice()
    }
}

} // verus!
