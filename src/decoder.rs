//! Bitstream features and the decisions of the single-image decoder.
use crate::shared::{required_len, PixelLayout, WebPImage, WebPMemory};
use libwebp_sys::VP8StatusCode;
use vstd::prelude::*;

verus! {

#[verifier::external_type_specification]
pub struct ExVP8StatusCode(VP8StatusCode);

/// The format of the image bitstream which is either lossy, lossless or something else.
#[derive(Copy, Clone, Debug, PartialEq, Eq, Structural)]
pub enum BitstreamFormat {
    Undefined,
    Lossy,
    Lossless,
}

/// What the header of a WebP bitstream says about the image, as the native
/// feature parser reported it.
#[derive(Copy, Clone, Debug, PartialEq, Eq, Structural)]
pub struct BitstreamFeatures {
    width: i32,
    height: i32,
    has_alpha: i32,
    has_animation: i32,
    format: i32,
}

/// The format named by the native format number, if it names one.
pub open spec fn format_of(format: i32) -> Option<BitstreamFormat> {
    if format == 0 {
        Some(BitstreamFormat::Undefined)
    } else if format == 1 {
        Some(BitstreamFormat::Lossy)
    } else if format == 2 {
        Some(BitstreamFormat::Lossless)
    } else {
        None
    }
}

impl BitstreamFeatures {
    pub closed spec fn raw_width(&self) -> i32 {
        self.width
    }

    pub closed spec fn raw_height(&self) -> i32 {
        self.height
    }

    pub closed spec fn raw_has_alpha(&self) -> i32 {
        self.has_alpha
    }

    pub closed spec fn raw_has_animation(&self) -> i32 {
        self.has_animation
    }

    pub closed spec fn raw_format(&self) -> i32 {
        self.format
    }

    /// The width as an unsigned number; the parser never reports a negative one.
    pub open spec fn spec_width(&self) -> u32 {
        if self.raw_width() >= 0 {
            self.raw_width() as u32
        } else {
            (self.raw_width() + 0x1_0000_0000) as u32
        }
    }

    pub open spec fn spec_height(&self) -> u32 {
        if self.raw_height() >= 0 {
            self.raw_height() as u32
        } else {
            (self.raw_height() + 0x1_0000_0000) as u32
        }
    }

    /// Features as the native parser filled them in.
    pub fn from_raw(width: i32, height: i32, has_alpha: i32, has_animation: i32, format: i32) -> (r:
        Self)
        ensures
            r.raw_width() == width,
            r.raw_height() == height,
            r.raw_has_alpha() == has_alpha,
            r.raw_has_animation() == has_animation,
            r.raw_format() == format,
    {
        BitstreamFeatures { width, height, has_alpha, has_animation, format }
    }

    /// The features of a parse, which are only to be trusted when the parser
    /// reported success; otherwise the bytes are no WebP header and there are none.
    pub fn from_status(
        status: VP8StatusCode,
        width: i32,
        height: i32,
        has_alpha: i32,
        has_animation: i32,
        format: i32,
    ) -> (r: Option<Self>)
        ensures
            r is Some <==> status == VP8StatusCode::VP8_STATUS_OK,
            r matches Some(f) ==> f == Self::from_raw_spec(
                width,
                height,
                has_alpha,
                has_animation,
                format,
            ),
    {
        match status {
            VP8StatusCode::VP8_STATUS_OK => Some(
                Self::from_raw(width, height, has_alpha, has_animation, format),
            ),
            _ => None,
        }
    }

    pub closed spec fn from_raw_spec(
        width: i32,
        height: i32,
        has_alpha: i32,
        has_animation: i32,
        format: i32,
    ) -> Self {
        BitstreamFeatures { width, height, has_alpha, has_animation, format }
    }

    /// Returns the width of the image as described by the bitstream in pixels.
    pub fn width(&self) -> (r: u32)
        ensures
            r == self.spec_width(),
    {
        if self.width >= 0 {
            self.width as u32
        } else {
            (self.width as i64 + 0x1_0000_0000i64) as u32
        }
    }

    /// Returns the height of the image as described by the bitstream in pixels.
    pub fn height(&self) -> (r: u32)
        ensures
            r == self.spec_height(),
    {
        if self.height >= 0 {
            self.height as u32
        } else {
            (self.height as i64 + 0x1_0000_0000i64) as u32
        }
    }

    /// Returns true if the image as described by the bitstream has an alpha channel.
    pub fn has_alpha(&self) -> (r: bool)
        ensures
            r == (self.raw_has_alpha() == 1),
    {
        self.has_alpha == 1
    }

    /// Returns true if the image as described by the bitstream is animated.
    pub fn has_animation(&self) -> (r: bool)
        ensures
            r == (self.raw_has_animation() == 1),
    {
        self.has_animation == 1
    }

    /// Returns the format of the image as described by the bitstream; a number
    /// the parser does not define gives `None`.
    pub fn format(&self) -> (r: Option<BitstreamFormat>)
        ensures
            r == format_of(self.raw_format()),
    {
        match self.format {
            0 => Some(BitstreamFormat::Undefined),
            1 => Some(BitstreamFormat::Lossy),
            2 => Some(BitstreamFormat::Lossless),
            _ => None,
        }
    }

    /// The name of the format, `"Error"` where the number names none.
    pub fn format_name(&self) -> (r: &'static str)
        ensures
            r@ == match format_of(self.raw_format()) {
                Some(BitstreamFormat::Undefined) => "Undefined"@,
                Some(BitstreamFormat::Lossy) => "Lossy"@,
                Some(BitstreamFormat::Lossless) => "Lossless"@,
                None => "Error"@,
            },
    {
        match self.format() {
            Some(BitstreamFormat::Undefined) => "Undefined",
            Some(BitstreamFormat::Lossy) => "Lossy",
            Some(BitstreamFormat::Lossless) => "Lossless",
            None => "Error",
        }
    }
}

/// How to decode a still image: the entry point by layout, the size, and the
/// number of bytes the native decoder hands back.
#[derive(Copy, Clone, Debug, PartialEq, Eq, Structural)]
pub struct DecodePlan {
    pub layout: PixelLayout,
    pub width: u32,
    pub height: u32,
    pub len: usize,
}

/// A decoder for still WebP images, borrowing the bytes it decodes.
pub struct Decoder<'a> {
    data: &'a [u8],
}

impl<'a> Decoder<'a> {
    pub closed spec fn spec_data(&self) -> Seq<u8> {
        self.data@
    }

    /// Creates a new decoder from the given image data.
    pub fn new(data: &'a [u8]) -> (r: Self)
        ensures
            r.spec_data() == data@,
    {
        Decoder { data }
    }

    /// The bytes being decoded.
    pub fn data(&self) -> (r: &'a [u8])
        ensures
            r@ == self.spec_data(),
    {
        self.data
    }

    /// Decides how to decode an image with `features`. Animated images are refused:
    /// they go through the animation decoder. An image with alpha is decoded as
    /// RGBA, any other as RGB, and the output holds one full image in that layout.
    /// An image whose byte count does not fit in `usize` is refused too.
    pub fn plan(features: &BitstreamFeatures) -> (r: Option<DecodePlan>)
        ensures
            r is Some <==> features.raw_has_animation() != 1 && required_len(
                if features.raw_has_alpha() == 1 {
                    PixelLayout::Rgba
                } else {
                    PixelLayout::Rgb
                },
                features.spec_width(),
                features.spec_height(),
            ) <= usize::MAX,
            r matches Some(p) ==> {
                &&& p.layout == if features.raw_has_alpha() == 1 {
                    PixelLayout::Rgba
                } else {
                    PixelLayout::Rgb
                }
                &&& p.width == features.spec_width()
                &&& p.height == features.spec_height()
                &&& p.len == required_len(p.layout, p.width, p.height)
            },
    {
        if features.has_animation() {
            return None;
        }
        let layout = if features.has_alpha() {
            PixelLayout::Rgba
        } else {
            PixelLayout::Rgb
        };
        let width = features.width();
        let height = features.height();
        let bpp = layout.bytes_per_pixel() as usize;
        match (width as usize).checked_mul(height as usize) {
            Some(wh) => match wh.checked_mul(bpp) {
                Some(len) => Some(DecodePlan { layout, width, height, len }),
                None => None,
            },
            None => {
                proof {
                    let w = width as nat;
                    let h = height as nat;
                    assert((w * h) * (bpp as nat) >= w * h) by (nonlinear_arith)
                        requires
                            bpp >= 3,
                    ;
                }
                None
            },
        }
    }

    /// Wraps what the native decoder returned for `plan`, as made by `plan`. Nothing
    /// (a payload that is corrupt past its header) gives `None`, and so do pixels of
    /// any length other than the planned one; otherwise the pixels become the
    /// decoded image, which then covers every pixel.
    pub fn finish(plan: &DecodePlan, pixels: Option<Vec<u8>>) -> (r: Option<WebPImage>)
        requires
            plan.len == required_len(plan.layout, plan.width, plan.height),
        ensures
            r is Some <==> (pixels matches Some(v) && v@.len() == plan.len),
            r matches Some(img) ==> img@ == pixels->Some_0@ && img.spec_layout() == plan.layout
                && img.spec_width() == plan.width && img.spec_height() == plan.height
                && img.is_complete(),
    {
        match pixels {
            Some(bytes) => {
                if bytes.len() == plan.len {
                    Some(WebPImage::new(WebPMemory::new(bytes), plan.layout, plan.width, plan.height))
                } else {
                    None
                }
            },
            None => None,
        }
    }
}

} // verus!
