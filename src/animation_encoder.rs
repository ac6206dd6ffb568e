//! Frames of an animation and the encoder state that gathers them.
use crate::encoder::{covers, picture_import, BufferTooSmall, CheckedEncoder, PictureImport};
use crate::shared::{image_from_raw, required_len, PixelLayout};
use image::DynamicImage;
use libwebp_sys::{WebPConfig, WebPEncodingError, WebPMuxError};
use vstd::prelude::*;

verus! {

#[verifier::external_type_specification]
#[verifier::external_body]
pub struct ExWebPConfig(WebPConfig);

#[verifier::external_type_specification]
pub struct ExWebPMuxError(WebPMuxError);

/// One frame of an animation: its pixels, their layout and size, the time in
/// milliseconds from the start of the animation at which it is shown, and an
/// optional encoder configuration that replaces the animation's default. Its
/// buffer passed the same length check as the encoder's input.
pub struct AnimFrame<'a> {
    image: &'a [u8],
    layout: PixelLayout,
    width: u32,
    height: u32,
    timestamp: i32,
    config: Option<&'a WebPConfig>,
}

impl<'a> AnimFrame<'a> {
    #[verifier::type_invariant]
    spec fn inv(self) -> bool {
        covers(self.layout, self.width, self.height, self.image@.len())
    }

    /// The frame's buffer passed the length check.
    pub open spec fn fits(&self) -> bool {
        covers(self.spec_layout(), self.spec_width(), self.spec_height(), self.spec_image().len())
    }

    pub closed spec fn spec_image(&self) -> Seq<u8> {
        self.image@
    }

    pub closed spec fn spec_layout(&self) -> PixelLayout {
        self.layout
    }

    pub closed spec fn spec_width(&self) -> u32 {
        self.width
    }

    pub closed spec fn spec_height(&self) -> u32 {
        self.height
    }

    pub closed spec fn spec_timestamp(&self) -> i32 {
        self.timestamp
    }

    pub closed spec fn spec_config(&self) -> Option<&'a WebPConfig> {
        self.config
    }

    pub fn new(
        image: &'a [u8],
        layout: PixelLayout,
        width: u32,
        height: u32,
        timestamp: i32,
        config: Option<&'a WebPConfig>,
    ) -> (r: Self)
        requires
            covers(layout, width, height, image@.len()),
        ensures
            r.spec_image() == image@,
            r.spec_layout() == layout,
            r.spec_width() == width,
            r.spec_height() == height,
            r.spec_timestamp() == timestamp,
            r.spec_config() == config,
    {
        AnimFrame { image, layout, width, height, timestamp, config }
    }

    /// A frame, or the shortfall when `image` is too short for its size and layout.
    pub fn try_new(
        image: &'a [u8],
        layout: PixelLayout,
        width: u32,
        height: u32,
        timestamp: i32,
        config: Option<&'a WebPConfig>,
    ) -> (r: Result<Self, BufferTooSmall>)
        ensures
            r is Ok <==> covers(layout, width, height, image@.len()),
            r matches Ok(f) ==> f.spec_image() == image@ && f.spec_layout() == layout
                && f.spec_width() == width && f.spec_height() == height && f.spec_timestamp()
                == timestamp && f.spec_config() == config,
            r matches Err(err) ==> err.expected == crate::encoder::saturate(
                required_len(layout, width, height),
            ) && err.actual == image@.len(),
    {
        match CheckedEncoder::new(image, layout, width, height) {
            Ok(_) => Ok(AnimFrame { image, layout, width, height, timestamp, config }),
            Err(err) => Err(err),
        }
    }

    /// Creates a frame from an 8-bit RGB or RGBA image. Other kinds of image are
    /// not supported.
    pub fn from_image(image: &'a DynamicImage, timestamp: i32) -> (r: Result<Self, &'static str>)
        ensures
            r matches Ok(f) ==> f.spec_timestamp() == timestamp && f.spec_config() is None
                && required_len(f.spec_layout(), f.spec_width(), f.spec_height())
                <= f.spec_image().len(),
            r matches Err(m) ==> m@ == "Unimplemented"@,
    {
        match crate::shared::image_parts(image) {
            Some((layout, bytes, width, height)) => Ok(
                Self::new(bytes, layout, width, height, timestamp, None),
            ),
            None => Err("Unimplemented"),
        }
    }

    /// Creates a frame from image data in the RGB pixel layout.
    pub fn from_rgb(image: &'a [u8], width: u32, height: u32, timestamp: i32) -> (r: Self)
        requires
            covers(PixelLayout::Rgb, width, height, image@.len()),
        ensures
            r.spec_image() == image@,
            r.spec_layout() == PixelLayout::Rgb,
            r.spec_width() == width,
            r.spec_height() == height,
            r.spec_timestamp() == timestamp,
            r.spec_config() is None,
    {
        Self::new(image, PixelLayout::Rgb, width, height, timestamp, None)
    }

    /// Creates a frame from image data in the RGBA pixel layout.
    pub fn from_rgba(image: &'a [u8], width: u32, height: u32, timestamp: i32) -> (r: Self)
        requires
            covers(PixelLayout::Rgba, width, height, image@.len()),
        ensures
            r.spec_image() == image@,
            r.spec_layout() == PixelLayout::Rgba,
            r.spec_width() == width,
            r.spec_height() == height,
            r.spec_timestamp() == timestamp,
            r.spec_config() is None,
    {
        Self::new(image, PixelLayout::Rgba, width, height, timestamp, None)
    }

    /// The frame's pixels; they passed the length check.
    pub fn get_image(&self) -> (r: &'a [u8])
        ensures
            r@ == self.spec_image(),
            self.fits(),
    {
        proof {
            use_type_invariant(self);
        }
        self.image
    }

    pub fn get_layout(&self) -> (r: PixelLayout)
        ensures
            r == self.spec_layout(),
    {
        self.layout
    }

    pub fn get_time_ms(&self) -> (r: i32)
        ensures
            r == self.spec_timestamp(),
    {
        self.timestamp
    }

    pub fn width(&self) -> (r: u32)
        ensures
            r == self.spec_width(),
    {
        self.width
    }

    pub fn height(&self) -> (r: u32)
        ensures
            r == self.spec_height(),
    {
        self.height
    }

    pub fn get_config(&self) -> (r: Option<&'a WebPConfig>)
        ensures
            r == self.spec_config(),
    {
        self.config
    }

    /// A `DynamicImage` holding a copy of this frame's pixels, or `None` when the
    /// frame's bytes are too few for its size.
    pub fn to_image(&self) -> (r: Option<DynamicImage>)
        ensures
            r is Some <==> required_len(self.spec_layout(), self.spec_width(), self.spec_height())
                <= self.spec_image().len(),
    {
        let bytes = crate::shared::copy_prefix(self.image, self.image.len());
        proof {
            assert(bytes@ == self.image@);
        }
        image_from_raw(self.layout, self.width, self.height, bytes)
    }
}

/// Packs an `[R, G, B, A]` color as `A << 24 | B << 16 | G << 8 | R`.
pub open spec fn pack_rgba(rgba: [u8; 4]) -> int {
    rgba[3] * 0x100_0000 + rgba[2] * 0x1_0000 + rgba[1] * 0x100 + rgba[0]
}

/// Animation-wide parameters written into the container: the background color
/// and the number of loops (0 loops forever).
#[derive(Copy, Clone, Debug, PartialEq, Eq, Structural)]
pub struct MuxAnimParams {
    pub bgcolor: u32,
    pub loop_count: i32,
}

/// Why assembling an animation failed.
#[derive(Debug)]
pub enum AnimEncodeError {
    /// No frame was added; an animation needs at least one.
    NoFrames,
    /// The canvas is larger than the native encoder can describe.
    BadCanvas,
    /// The frame at `index` holds fewer bytes than the canvas needs.
    FrameBufferTooSmall { index: usize, error: BufferTooSmall },
    /// The native encoder rejected a frame, with the picture's error code.
    WebPEncodingError(WebPEncodingError),
    /// Setting the animation parameters on the container failed.
    WebPMuxError(WebPMuxError),
    /// The native animation encoder failed, with its own message.
    WebPAnimEncoderGetError(String),
}

/// Accumulates the frames of an animation on a fixed canvas, together with the
/// default encoder configuration and the animation parameters.
pub struct AnimEncoder<'a> {
    frames: Vec<AnimFrame<'a>>,
    width: u32,
    height: u32,
    config: &'a WebPConfig,
    muxparams: MuxAnimParams,
}

impl<'a> AnimEncoder<'a> {
    pub closed spec fn spec_frames(&self) -> Seq<AnimFrame<'a>> {
        self.frames@
    }

    pub closed spec fn spec_width(&self) -> u32 {
        self.width
    }

    pub closed spec fn spec_height(&self) -> u32 {
        self.height
    }

    pub closed spec fn spec_config(&self) -> &'a WebPConfig {
        self.config
    }

    pub closed spec fn spec_muxparams(&self) -> MuxAnimParams {
        self.muxparams
    }

    /// An encoder for a `width` x `height` canvas with no frames, a transparent
    /// black background and endless looping.
    pub fn new(width: u32, height: u32, config: &'a WebPConfig) -> (r: Self)
        ensures
            r.spec_frames().len() == 0,
            r.spec_width() == width,
            r.spec_height() == height,
            r.spec_config() == config,
            r.spec_muxparams() == (MuxAnimParams { bgcolor: 0, loop_count: 0 }),
    {
        AnimEncoder {
            frames: Vec::new(),
            width,
            height,
            config,
            muxparams: MuxAnimParams { bgcolor: 0, loop_count: 0 },
        }
    }

    /// Sets the background color from `[R, G, B, A]`.
    pub fn set_bgcolor(&mut self, rgba: [u8; 4])
        ensures
            final(self).spec_muxparams().bgcolor == pack_rgba(rgba),
            final(self).spec_muxparams().loop_count == old(self).spec_muxparams().loop_count,
            final(self).spec_frames() == old(self).spec_frames(),
            final(self).spec_width() == old(self).spec_width(),
            final(self).spec_height() == old(self).spec_height(),
            final(self).spec_config() == old(self).spec_config(),
    {
        let r = rgba[0] as u32;
        let g = rgba[1] as u32;
        let b = rgba[2] as u32;
        let a = rgba[3] as u32;
        let bgcolor = (a << 24u32) | (b << 16u32) | (g << 8u32) | r;
        assert(bgcolor == a * 0x100_0000 + b * 0x1_0000 + g * 0x100 + r) by (bit_vector)
            requires
                r < 256,
                g < 256,
                b < 256,
                a < 256,
                bgcolor == (a << 24u32) | (b << 16u32) | (g << 8u32) | r,
        ;
        self.muxparams.bgcolor = bgcolor;
    }

    /// Sets how often the animation repeats; 0 repeats it forever.
    pub fn set_loop_count(&mut self, loop_count: i32)
        ensures
            final(self).spec_muxparams().loop_count == loop_count,
            final(self).spec_muxparams().bgcolor == old(self).spec_muxparams().bgcolor,
            final(self).spec_frames() == old(self).spec_frames(),
            final(self).spec_width() == old(self).spec_width(),
            final(self).spec_height() == old(self).spec_height(),
            final(self).spec_config() == old(self).spec_config(),
    {
        self.muxparams.loop_count = loop_count;
    }

    /// Appends a frame. Frames are meant to come in non-decreasing timestamp order;
    /// they are neither reordered nor checked here.
    pub fn add_frame(&mut self, frame: AnimFrame<'a>)
        ensures
            final(self).spec_frames() == old(self).spec_frames().push(frame),
            final(self).spec_muxparams() == old(self).spec_muxparams(),
            final(self).spec_width() == old(self).spec_width(),
            final(self).spec_height() == old(self).spec_height(),
            final(self).spec_config() == old(self).spec_config(),
    {
        self.frames.push(frame);
    }

    pub fn len(&self) -> (r: usize)
        ensures
            r == self.spec_frames().len(),
    {
        self.frames.len()
    }

    pub fn is_empty(&self) -> (r: bool)
        ensures
            r == (self.spec_frames().len() == 0),
    {
        self.frames.len() == 0
    }

    pub fn width(&self) -> (r: u32)
        ensures
            r == self.spec_width(),
    {
        self.width
    }

    pub fn height(&self) -> (r: u32)
        ensures
            r == self.spec_height(),
    {
        self.height
    }

    pub fn config(&self) -> (r: &'a WebPConfig)
        ensures
            r == self.spec_config(),
    {
        self.config
    }

    pub fn muxparams(&self) -> (r: MuxAnimParams)
        ensures
            r == self.spec_muxparams(),
    {
        self.muxparams
    }
}

/// A frame ready for the native encoder: its buffer checked against the canvas,
/// how to import it, its timestamp, and the configuration that applies to it.
pub struct FramePlan<'a> {
    pub input: CheckedEncoder<'a>,
    pub import: PictureImport,
    pub timestamp: i32,
    pub config: &'a WebPConfig,
}

/// Everything the native animation encoder is handed, checked in advance: the
/// canvas size, one plan per frame in the order they were added, and the
/// animation parameters applied in the second, muxing pass.
pub struct AnimPlan<'a> {
    pub canvas_width: i32,
    pub canvas_height: i32,
    pub frames: Vec<FramePlan<'a>>,
    pub muxparams: MuxAnimParams,
}

/// The frame's buffer passes the length check for a full canvas of pixels in the
/// frame's layout.
pub open spec fn covers_canvas(f: AnimFrame, width: u32, height: u32) -> bool {
    covers(f.spec_layout(), width, height, f.spec_image().len())
}

/// The frame's buffer holds every byte of a full canvas in the frame's layout.
pub open spec fn holds_canvas(f: AnimFrame, width: u32, height: u32) -> bool {
    required_len(f.spec_layout(), width, height) <= f.spec_image().len()
}

/// A canvas row of the frame's layout fits the native integer type.
pub open spec fn row_fits(f: AnimFrame, width: u32) -> bool {
    (width as nat) * f.spec_layout().spec_bytes_per_pixel() <= i32::MAX
}

pub open spec fn frame_ok(f: AnimFrame, width: u32, height: u32) -> bool {
    holds_canvas(f, width, height) && row_fits(f, width)
}

/// The configuration a frame is encoded with: its own, or else the default.
pub open spec fn effective_config<'a>(f: AnimFrame<'a>, default: &'a WebPConfig) -> &'a WebPConfig {
    match f.spec_config() {
        Some(c) => c,
        None => default,
    }
}

/// `plan` is the faithful plan of `frames[i]` on a `width` x `height` canvas.
pub open spec fn plans_frame<'a>(
    plan: FramePlan<'a>,
    f: AnimFrame<'a>,
    width: u32,
    height: u32,
    default: &'a WebPConfig,
) -> bool {
    &&& plan.input.spec_image() == f.spec_image()
    &&& plan.input.spec_layout() == f.spec_layout()
    &&& plan.input.spec_width() == width
    &&& plan.input.spec_height() == height
    &&& plan.import.layout == f.spec_layout()
    &&& plan.import.width == width
    &&& plan.import.height == height
    &&& plan.import.stride == (width as nat) * f.spec_layout().spec_bytes_per_pixel()
    &&& plan.timestamp == f.spec_timestamp()
    &&& plan.config == effective_config(f, default)
}

impl<'a> AnimEncoder<'a> {
    /// Checks the accumulated animation before any native call and lays out the
    /// work for the encoder. Every frame is imported at the canvas size, so each
    /// frame's buffer must hold a full canvas of pixels. The first frame that
    /// fails stops the plan. An animation without frames is refused outright.
    pub fn plan(&self) -> (r: Result<AnimPlan<'a>, AnimEncodeError>)
        ensures
            r is Ok <==> self.spec_frames().len() > 0 && self.spec_width() <= i32::MAX
                && self.spec_height() <= i32::MAX && forall|i: int|
                0 <= i < self.spec_frames().len() ==> frame_ok(
                    #[trigger] self.spec_frames()[i],
                    self.spec_width(),
                    self.spec_height(),
                ),
            r matches Ok(p) ==> {
                &&& p.canvas_width == self.spec_width()
                &&& p.canvas_height == self.spec_height()
                &&& p.muxparams == self.spec_muxparams()
                &&& p.frames@.len() == self.spec_frames().len()
                &&& forall|i: int|
                    0 <= i < p.frames@.len() ==> plans_frame(
                        #[trigger] p.frames@[i],
                        self.spec_frames()[i],
                        self.spec_width(),
                        self.spec_height(),
                        self.spec_config(),
                    )
            },
            r matches Err(AnimEncodeError::NoFrames) <==> self.spec_frames().len() == 0,
            r matches Err(AnimEncodeError::BadCanvas) <==> self.spec_frames().len() > 0 && (
            self.spec_width() > i32::MAX || self.spec_height() > i32::MAX),
            r matches Err(AnimEncodeError::FrameBufferTooSmall { index, error }) ==> {
                &&& index < self.spec_frames().len()
                &&& forall|j: int|
                    0 <= j < index ==> frame_ok(
                        #[trigger] self.spec_frames()[j],
                        self.spec_width(),
                        self.spec_height(),
                    )
                &&& !covers_canvas(
                    self.spec_frames()[index as int],
                    self.spec_width(),
                    self.spec_height(),
                )
                &&& error.actual == self.spec_frames()[index as int].spec_image().len()
            },
            r matches Err(AnimEncodeError::WebPEncodingError(e)) ==> {
                &&& e == WebPEncodingError::VP8_ENC_ERROR_BAD_DIMENSION
                &&& exists|index: int|
                    0 <= index < self.spec_frames().len() && (forall|j: int|
                        0 <= j < index ==> frame_ok(
                            #[trigger] self.spec_frames()[j],
                            self.spec_width(),
                            self.spec_height(),
                        )) && covers_canvas(
                        #[trigger] self.spec_frames()[index],
                        self.spec_width(),
                        self.spec_height(),
                    ) && !frame_ok(self.spec_frames()[index], self.spec_width(), self.spec_height())
            },
            !(r matches Err(AnimEncodeError::WebPMuxError(_))),
            !(r matches Err(AnimEncodeError::WebPAnimEncoderGetError(_))),
    {
        let n = self.frames.len();
        if n == 0 {
            return Err(AnimEncodeError::NoFrames);
        }
        if self.width > i32::MAX as u32 || self.height > i32::MAX as u32 {
            return Err(AnimEncodeError::BadCanvas);
        }
        let mut frames: Vec<FramePlan<'a>> = Vec::with_capacity(n);
        let mut i: usize = 0;
        while i < n
            invariant
                n == self.frames@.len(),
                n > 0,
                self.width <= i32::MAX,
                self.height <= i32::MAX,
                i <= n,
                frames@.len() == i,
                forall|j: int|
                    0 <= j < i ==> frame_ok(
                        #[trigger] self.spec_frames()[j],
                        self.spec_width(),
                        self.spec_height(),
                    ),
                forall|j: int|
                    0 <= j < i ==> plans_frame(
                        #[trigger] frames@[j],
                        self.spec_frames()[j],
                        self.spec_width(),
                        self.spec_height(),
                        self.spec_config(),
                    ),
            decreases n - i,
        {
            let frame = &self.frames[i];
            let checked = CheckedEncoder::new(frame.image, frame.layout, self.width, self.height);
            let input = match checked {
                Ok(input) => input,
                Err(error) => {
                    return Err(AnimEncodeError::FrameBufferTooSmall { index: i, error });
                },
            };
            let import = match picture_import(&input, self.width, self.height) {
                Ok(import) => import,
                Err(e) => {
                    assert(covers_canvas(
                        self.spec_frames()[i as int],
                        self.spec_width(),
                        self.spec_height(),
                    ));
                    assert(!frame_ok(
                        self.spec_frames()[i as int],
                        self.spec_width(),
                        self.spec_height(),
                    ));
                    return Err(AnimEncodeError::WebPEncodingError(e));
                },
            };
            let config = match frame.config {
                Some(c) => c,
                None => self.config,
            };
            frames.push(FramePlan { input, import, timestamp: frame.timestamp, config });
            i = i + 1;
        }
        Ok(
            AnimPlan {
                canvas_width: self.width as i32,
                canvas_height: self.height as i32,
                frames,
                muxparams: self.muxparams,
            },
        )
    }
}

/// Reads the native answer to adding a frame: zero means the frame was refused,
/// for the reason in the picture's error code.
pub fn check_frame_added(ok: i32, picture_error: WebPEncodingError) -> (r: Result<
    (),
    AnimEncodeError,
>)
    ensures
        r is Ok <==> ok != 0,
        r matches Err(e) ==> e == AnimEncodeError::WebPEncodingError(picture_error),
{
    if ok != 0 {
        Ok(())
    } else {
        Err(AnimEncodeError::WebPEncodingError(picture_error))
    }
}

/// The error for a failed assembly, from the native encoder's message where it
/// gave one.
pub fn assemble_error(message: Option<String>) -> (r: AnimEncodeError)
    ensures
        message matches Some(m) ==> r == AnimEncodeError::WebPAnimEncoderGetError(m),
        message is None ==> (r matches AnimEncodeError::WebPAnimEncoderGetError(m) && m@
            == "Unknown error"@),
{
    match message {
        Some(m) => AnimEncodeError::WebPAnimEncoderGetError(m),
        None => AnimEncodeError::WebPAnimEncoderGetError("Unknown error".to_owned()),
    }
}

/// Reads a native muxer answer: setting the animation parameters on the container,
/// or assembling it. Anything but OK is a mux error with that code.
pub fn check_mux_status(status: WebPMuxError) -> (r: Result<(), AnimEncodeError>)
    ensures
        r is Ok <==> status == WebPMuxError::WEBP_MUX_OK,
        r matches Err(e) ==> e == AnimEncodeError::WebPMuxError(status),
{
    match status {
        WebPMuxError::WEBP_MUX_OK => Ok(()),
        _ => Err(AnimEncodeError::WebPMuxError(status)),
    }
}

} // verus!
