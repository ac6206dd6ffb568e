//! Validated encoder input and the decisions taken around the native encoder.
use crate::animation_encoder::AnimFrame;
use crate::shared::{image_parts, required_len, PixelLayout};
use image::DynamicImage;
use libwebp_sys::WebPEncodingError;
use vstd::prelude::*;

verus! {

#[verifier::external_type_specification]
pub struct ExWebPEncodingError(WebPEncodingError);

/// A pixel buffer that is shorter than its size and layout demand.
#[derive(Copy, Clone, Debug, PartialEq, Eq, Structural)]
pub struct BufferTooSmall {
    /// The number of bytes the image needs, saturated at `usize::MAX`.
    pub expected: usize,
    /// The number of bytes that were given.
    pub actual: usize,
}

/// `a * b`, or `usize::MAX` where the product does not fit.
pub fn saturating_mul(a: usize, b: usize) -> (r: usize)
    ensures
        r == if a * b <= usize::MAX {
            (a * b) as usize
        } else {
            usize::MAX
        },
{
    match a.checked_mul(b) {
        Some(p) => p,
        None => usize::MAX,
    }
}

/// The smaller of `n` and `usize::MAX`.
pub open spec fn saturate(n: nat) -> usize {
    if n <= usize::MAX {
        n as usize
    } else {
        usize::MAX
    }
}

/// The buffer check the encoder input passes: `len` is at least the saturated
/// `width * height * bytes_per_pixel`. Where the product fits in `usize` this is
/// the plain comparison; past it, only a buffer of `usize::MAX` bytes would pass,
/// and no such buffer can be allocated.
pub open spec fn covers(layout: PixelLayout, width: u32, height: u32, len: nat) -> bool {
    saturate(required_len(layout, width, height)) <= len
}

/// The length check is the plain comparison with the exact product for every
/// buffer shorter than `usize::MAX` bytes: it passes when the buffer holds
/// `width * height * bytes_per_pixel` bytes and fails when it holds fewer, however
/// large the product.
pub proof fn lemma_covers_exact(layout: PixelLayout, width: u32, height: u32, len: nat)
    requires
        len < usize::MAX,
    ensures
        covers(layout, width, height, len) <==> required_len(layout, width, height) <= len,
{
}

/// `width * height * bytes_per_pixel`, computed with saturating multiplication
/// so that no overflow can make a short buffer look long enough.
pub fn expected_len(layout: PixelLayout, width: u32, height: u32) -> (r: usize)
    ensures
        r == saturate(required_len(layout, width, height)),
{
    let w = width as usize;
    let h = height as usize;
    let bpp = layout.bytes_per_pixel() as usize;
    let wh = saturating_mul(w, h);
    let r = saturating_mul(wh, bpp);
    proof {
        let n = required_len(layout, width, height);
        assert(n == (w * h) * bpp);
        if w * h > usize::MAX {
            assert(wh * bpp > usize::MAX) by (nonlinear_arith)
                requires
                    wh == usize::MAX,
                    bpp >= 3,
            ;
            assert((w * h) * bpp > usize::MAX) by (nonlinear_arith)
                requires
                    w * h > usize::MAX,
                    bpp >= 3,
            ;
        }
    }
    r
}

/// Whether `width * height * bytes_per_pixel` fits in `usize` without saturating.
fn exact_product_fits(layout: PixelLayout, width: u32, height: u32) -> (r: bool)
    ensures
        r == (required_len(layout, width, height) <= usize::MAX),
{
    let bpp = layout.bytes_per_pixel() as usize;
    match (width as usize).checked_mul(height as usize) {
        Some(wh) => match wh.checked_mul(bpp) {
            Some(_) => true,
            None => false,
        },
        None => {
            proof {
                let w = width as nat;
                let h = height as nat;
                assert((w * h) * (bpp as nat) >= w * h) by (nonlinear_arith)
                    requires
                        bpp >= 3,
                ;
            }
            false
        },
    }
}

/// Encoder input whose buffer passed the length check against
/// `width * height * bytes_per_pixel`. The only way to build one performs that
/// check; `picture_import` compares the exact product again before any native
/// call reads the buffer.
pub struct CheckedEncoder<'a> {
    image: &'a [u8],
    layout: PixelLayout,
    width: u32,
    height: u32,
}

impl<'a> CheckedEncoder<'a> {
    #[verifier::type_invariant]
    spec fn inv(self) -> bool {
        covers(self.layout, self.width, self.height, self.image@.len())
    }

    pub closed spec fn spec_image(&self) -> Seq<u8> {
        self.image@
    }

    pub closed spec fn spec_layout(&self) -> PixelLayout {
        self.layout
    }

    pub closed spec fn spec_width(&self) -> u32 {
        self.width
    }

    pub closed spec fn spec_height(&self) -> u32 {
        self.height
    }

    /// The buffer passed the length check.
    pub open spec fn fits(&self) -> bool {
        covers(self.spec_layout(), self.spec_width(), self.spec_height(), self.spec_image().len())
    }

    /// Checks that `image` is long enough for a `width` x `height` image in `layout`:
    /// it fails with `BufferTooSmall` when the buffer is shorter than the product,
    /// computed with saturating multiplication so that no overflow can hide a
    /// shortfall. A width or height of zero passes here; the native encoder rejects
    /// it later.
    pub fn new(image: &'a [u8], layout: PixelLayout, width: u32, height: u32) -> (r: Result<
        Self,
        BufferTooSmall,
    >)
        ensures
            r is Ok <==> covers(layout, width, height, image@.len()),
            r matches Ok(e) ==> e.spec_image() == image@ && e.spec_layout() == layout
                && e.spec_width() == width && e.spec_height() == height,
            r matches Err(err) ==> err.expected == saturate(required_len(layout, width, height))
                && err.actual == image@.len(),
    {
        let expected = expected_len(layout, width, height);
        if image.len() < expected {
            Err(BufferTooSmall { expected, actual: image.len() })
        } else {
            Ok(CheckedEncoder { image, layout, width, height })
        }
    }

    pub fn width(&self) -> (r: u32)
        ensures
            r == self.spec_width(),
    {
        self.width
    }

    pub fn height(&self) -> (r: u32)
        ensures
            r == self.spec_height(),
    {
        self.height
    }

    pub fn layout(&self) -> (r: PixelLayout)
        ensures
            r == self.spec_layout(),
    {
        self.layout
    }

    /// The validated bytes; they cover the whole image.
    pub fn image(&self) -> (r: &'a [u8])
        ensures
            r@ == self.spec_image(),
            self.fits(),
    {
        proof {
            use_type_invariant(self);
        }
        self.image
    }
}

/// An encoder for WebP images over a validated pixel buffer.
pub struct Encoder<'a> {
    e: CheckedEncoder<'a>,
}

impl<'a> Encoder<'a> {
    pub closed spec fn checked(&self) -> CheckedEncoder<'a> {
        self.e
    }

    /// Creates a new encoder from the given image data, which must be in `layout`
    /// and pass the length check of `CheckedEncoder::new`.
    pub fn new(image: &'a [u8], layout: PixelLayout, width: u32, height: u32) -> (r: Self)
        requires
            covers(layout, width, height, image@.len()),
        ensures
            r.checked().spec_image() == image@,
            r.checked().spec_layout() == layout,
            r.checked().spec_width() == width,
            r.checked().spec_height() == height,
    {
        Encoder { e: CheckedEncoder::new(image, layout, width, height).unwrap() }
    }

    /// Creates a new encoder, or reports a buffer too short for the image.
    pub fn try_new(image: &'a [u8], layout: PixelLayout, width: u32, height: u32) -> (r: Result<
        Self,
        BufferTooSmall,
    >)
        ensures
            r is Ok <==> covers(layout, width, height, image@.len()),
            r matches Ok(enc) ==> enc.checked().spec_image() == image@
                && enc.checked().spec_layout() == layout && enc.checked().spec_width() == width
                && enc.checked().spec_height() == height,
            r matches Err(err) ==> err.expected == saturate(required_len(layout, width, height))
                && err.actual == image@.len(),
    {
        match CheckedEncoder::new(image, layout, width, height) {
            Ok(e) => Ok(Encoder { e }),
            Err(err) => Err(err),
        }
    }

    /// Creates a new encoder from an 8-bit RGB or RGBA image. Other kinds of image
    /// are not supported.
    pub fn from_image(image: &'a DynamicImage) -> (r: Result<Self, &'static str>)
        ensures
            r matches Ok(enc) ==> required_len(
                enc.checked().spec_layout(),
                enc.checked().spec_width(),
                enc.checked().spec_height(),
            ) <= enc.checked().spec_image().len(),
            r matches Err(m) ==> m@ == "Unimplemented"@,
    {
        match image_parts(image) {
            Some((layout, bytes, width, height)) => Ok(Self::new(bytes, layout, width, height)),
            None => Err("Unimplemented"),
        }
    }

    /// An encoder for a single animation frame at the frame's own size. Every frame
    /// passed the same length check when it was built.
    pub fn from_frame(frame: &AnimFrame<'a>) -> (r: Self)
        ensures
            r.checked().spec_image() == frame.spec_image(),
            r.checked().spec_layout() == frame.spec_layout(),
            r.checked().spec_width() == frame.spec_width(),
            r.checked().spec_height() == frame.spec_height(),
    {
        let image = frame.get_image();
        Self::new(image, frame.get_layout(), frame.width(), frame.height())
    }

    /// Creates a new encoder from the given image data in the RGB pixel layout.
    pub fn from_rgb(image: &'a [u8], width: u32, height: u32) -> (r: Self)
        requires
            covers(PixelLayout::Rgb, width, height, image@.len()),
        ensures
            r.checked().spec_image() == image@,
            r.checked().spec_layout() == PixelLayout::Rgb,
            r.checked().spec_width() == width,
            r.checked().spec_height() == height,
    {
        Self::new(image, PixelLayout::Rgb, width, height)
    }

    /// Creates a new encoder from the given image data in the RGBA pixel layout.
    pub fn from_rgba(image: &'a [u8], width: u32, height: u32) -> (r: Self)
        requires
            covers(PixelLayout::Rgba, width, height, image@.len()),
        ensures
            r.checked().spec_image() == image@,
            r.checked().spec_layout() == PixelLayout::Rgba,
            r.checked().spec_width() == width,
            r.checked().spec_height() == height,
    {
        Self::new(image, PixelLayout::Rgba, width, height)
    }

    /// The validated input this encoder works on.
    pub fn input(&self) -> (r: &CheckedEncoder<'a>)
        ensures
            *r == self.checked(),
    {
        &self.e
    }

    pub fn image(&self) -> (r: &'a [u8])
        ensures
            r@ == self.checked().spec_image(),
            self.checked().fits(),
    {
        self.e.image()
    }

    pub fn layout(&self) -> (r: PixelLayout)
        ensures
            r == self.checked().spec_layout(),
    {
        self.e.layout()
    }

    pub fn width(&self) -> (r: u32)
        ensures
            r == self.checked().spec_width(),
    {
        self.e.width()
    }

    pub fn height(&self) -> (r: u32)
        ensures
            r == self.checked().spec_height(),
    {
        self.e.height()
    }
}

/// How the native picture is to be filled from a validated buffer: the pixel
/// layout, the size as the native side takes it, and the bytes per row.
#[derive(Copy, Clone, Debug, PartialEq, Eq, Structural)]
pub struct PictureImport {
    pub layout: PixelLayout,
    pub width: i32,
    pub height: i32,
    pub stride: i32,
}

/// Plans the import of `input` into a native picture of `width` x `height`
/// pixels (the image's own size, or an animation's canvas). The import reads
/// `height` rows of `stride` bytes; this plan exists only when those bytes lie
/// inside the buffer and the sizes fit the native integer type. Otherwise the
/// dimensions are reported as bad.
pub fn picture_import(input: &CheckedEncoder, width: u32, height: u32) -> (r: Result<
    PictureImport,
    WebPEncodingError,
>)
    ensures
        r is Ok <==> (width as nat) * input.spec_layout().spec_bytes_per_pixel() <= i32::MAX
            && height <= i32::MAX && required_len(input.spec_layout(), width, height)
            <= input.spec_image().len(),
        r matches Ok(p) ==> p.layout == input.spec_layout() && p.width == width && p.height
            == height && p.stride == (width as nat) * input.spec_layout().spec_bytes_per_pixel()
            && (p.height as nat) * (p.stride as nat) <= input.spec_image().len(),
        r matches Err(e) ==> e == WebPEncodingError::VP8_ENC_ERROR_BAD_DIMENSION,
{
    let layout = input.layout();
    let bpp = layout.bytes_per_pixel() as u32;
    let len = input.image().len();
    if width > i32::MAX as u32 / bpp || height > i32::MAX as u32 {
        proof {
            if width > i32::MAX as u32 / bpp {
                assert(width * bpp > i32::MAX) by (nonlinear_arith)
                    requires
                        width > i32::MAX as u32 / bpp,
                        bpp > 0,
                ;
            }
        }
        return Err(WebPEncodingError::VP8_ENC_ERROR_BAD_DIMENSION);
    }
    if len < expected_len(layout, width, height) || !exact_product_fits(layout, width, height) {
        return Err(WebPEncodingError::VP8_ENC_ERROR_BAD_DIMENSION);
    }
    proof {
        assert(width * bpp <= i32::MAX) by (nonlinear_arith)
            requires
                width <= i32::MAX as u32 / bpp,
                bpp > 0,
        ;
    }
    let stride = width * bpp;
    proof {
        assert(required_len(layout, width, height) == (height as nat) * (stride as nat))
            by (nonlinear_arith)
            requires
                stride == width * bpp,
                required_len(layout, width, height) == (width as nat) * (height as nat) * (
                bpp as nat),
        ;
    }
    Ok(PictureImport { layout, width: width as i32, height: height as i32, stride: stride as i32 })
}

/// The two integer switches of the native configuration that the simple encode
/// sets: `(lossless, alpha_compression)`. Lossless encoding turns alpha
/// compression off; lossy encoding compresses alpha.
pub fn lossless_switches(lossless: bool) -> (r: (i32, i32))
    ensures
        lossless ==> r == (1i32, 0i32),
        !lossless ==> r == (0i32, 1i32),
{
    if lossless {
        (1, 0)
    } else {
        (0, 1)
    }
}

/// Reads the native configuration check, which answers zero for a configuration
/// it rejects. A rejected configuration stops the encode before any picture is made.
pub fn check_config(valid: i32) -> (r: Result<(), WebPEncodingError>)
    ensures
        r is Ok <==> valid != 0,
        r matches Err(e) ==> e == WebPEncodingError::VP8_ENC_ERROR_INVALID_CONFIGURATION,
{
    if valid == 0 {
        Err(WebPEncodingError::VP8_ENC_ERROR_INVALID_CONFIGURATION)
    } else {
        Ok(())
    }
}

/// Reads the native encoder's answer: a nonzero status is success, and on failure
/// the reason is the picture's own error code, which is passed on unchanged.
pub fn check_encode_status(status: i32, picture_error: WebPEncodingError) -> (r: Result<
    (),
    WebPEncodingError,
>)
    ensures
        r is Ok <==> status != 0,
        r matches Err(e) ==> e == picture_error,
{
    if status != 0 {
        Ok(())
    } else {
        Err(picture_error)
    }
}

} // verus!
