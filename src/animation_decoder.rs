//! Decoded animations: their frames, and the checks around the native decoder.
use crate::animation_encoder::AnimFrame;
use crate::shared::{copy_prefix, required_len, PixelLayout};
use libwebp_sys::WEBP_CSP_MODE;
use vstd::multiset::Multiset;
use vstd::prelude::*;

verus! {

#[verifier::external_type_specification]
pub struct ExWebpCspMode(WEBP_CSP_MODE);

/// A decoder for animated WebP data, borrowing the bytes for its whole life.
pub struct AnimDecoder<'a> {
    data: &'a [u8],
}

impl<'a> AnimDecoder<'a> {
    pub closed spec fn spec_data(&self) -> Seq<u8> {
        self.data@
    }

    pub fn new(data: &'a [u8]) -> (r: Self)
        ensures
            r.spec_data() == data@,
    {
        AnimDecoder { data }
    }

    /// The bytes being decoded.
    pub fn data(&self) -> (r: &'a [u8])
        ensures
            r@ == self.spec_data(),
    {
        self.data
    }
}

/// Why decoding an animation failed.
#[derive(Copy, Clone, Debug, PartialEq, Eq, Structural)]
pub enum AnimDecodeError {
    /// The native decoder options could not be initialised.
    OptionInit,
    /// The options came back with a color mode other than RGB or RGBA.
    UnsupportedColorMode,
    /// The native decoder could not be created for the data.
    NullDecoder,
    /// The native decoder gave no information about the canvas.
    NullInfo,
    /// A canvas of pixels is too large to address.
    CanvasTooLarge,
    /// The decoder said more frames were left but did not hand out the next one.
    NextFrame,
}

impl AnimDecodeError {
    /// The message this failure is reported with.
    pub fn message(&self) -> (r: String)
        ensures
            r@ == match self {
                AnimDecodeError::OptionInit => "option init error"@,
                AnimDecodeError::UnsupportedColorMode => "unsupport color mode"@,
                AnimDecodeError::NullDecoder => "null_decoder"@,
                AnimDecodeError::NullInfo => "null info"@,
                AnimDecodeError::CanvasTooLarge => "canvas too large"@,
                AnimDecodeError::NextFrame => "next frame error"@,
            },
    {
        match self {
            AnimDecodeError::OptionInit => "option init error".to_owned(),
            AnimDecodeError::UnsupportedColorMode => "unsupport color mode".to_owned(),
            AnimDecodeError::NullDecoder => "null_decoder".to_owned(),
            AnimDecodeError::NullInfo => "null info".to_owned(),
            AnimDecodeError::CanvasTooLarge => "canvas too large".to_owned(),
            AnimDecodeError::NextFrame => "next frame error".to_owned(),
        }
    }
}

/// The color mode the decoder asks for: RGBA, so that no alpha is lost.
pub fn requested_color_mode() -> (r: WEBP_CSP_MODE)
    ensures
        r == WEBP_CSP_MODE::MODE_RGBA,
{
    WEBP_CSP_MODE::MODE_RGBA
}

/// Reads what the native options initialiser reported: `init_ok` is its status
/// (zero for failure) and `mode` the color mode it left in the options, which
/// need not be the one requested. Only RGB and RGBA are taken.
pub fn negotiate_layout(init_ok: i32, mode: WEBP_CSP_MODE) -> (r: Result<
    PixelLayout,
    AnimDecodeError,
>)
    ensures
        init_ok == 0 ==> r == Err::<PixelLayout, AnimDecodeError>(AnimDecodeError::OptionInit),
        init_ok != 0 && mode == WEBP_CSP_MODE::MODE_RGBA ==> r == Ok::<
            PixelLayout,
            AnimDecodeError,
        >(PixelLayout::Rgba),
        init_ok != 0 && mode == WEBP_CSP_MODE::MODE_RGB ==> r == Ok::<
            PixelLayout,
            AnimDecodeError,
        >(PixelLayout::Rgb),
        init_ok != 0 && mode != WEBP_CSP_MODE::MODE_RGBA && mode != WEBP_CSP_MODE::MODE_RGB
            ==> r == Err::<PixelLayout, AnimDecodeError>(AnimDecodeError::UnsupportedColorMode),
{
    if init_ok == 0 {
        return Err(AnimDecodeError::OptionInit);
    }
    match mode {
        WEBP_CSP_MODE::MODE_RGBA => Ok(PixelLayout::Rgba),
        WEBP_CSP_MODE::MODE_RGB => Ok(PixelLayout::Rgb),
        _ => Err(AnimDecodeError::UnsupportedColorMode),
    }
}

/// The size and layout shared by every frame of a decoded animation, and the
/// number of bytes one frame of it takes.
#[derive(Copy, Clone, Debug, PartialEq, Eq, Structural)]
pub struct FrameShape {
    layout: PixelLayout,
    width: u32,
    height: u32,
    len: usize,
}

impl FrameShape {
    #[verifier::type_invariant]
    spec fn inv(self) -> bool {
        self.len == required_len(self.layout, self.width, self.height)
    }

    pub closed spec fn spec_layout(&self) -> PixelLayout {
        self.layout
    }

    pub closed spec fn spec_width(&self) -> u32 {
        self.width
    }

    pub closed spec fn spec_height(&self) -> u32 {
        self.height
    }

    pub closed spec fn spec_len(&self) -> usize {
        self.len
    }

    pub open spec fn wf(&self) -> bool {
        self.spec_len() == required_len(self.spec_layout(), self.spec_width(), self.spec_height())
    }

    /// The shape of a `width` x `height` canvas in `layout`, once the native
    /// decoder has reported the canvas (`info_ok` nonzero). Fails when it has not,
    /// or when one frame's byte count does not fit in `usize`.
    pub fn new(info_ok: i32, layout: PixelLayout, width: u32, height: u32) -> (r: Result<
        FrameShape,
        AnimDecodeError,
    >)
        ensures
            info_ok == 0 ==> r == Err::<FrameShape, AnimDecodeError>(AnimDecodeError::NullInfo),
            info_ok != 0 ==> (r is Ok <==> required_len(layout, width, height) <= usize::MAX),
            info_ok != 0 && r is Err ==> r == Err::<FrameShape, AnimDecodeError>(
                AnimDecodeError::CanvasTooLarge,
            ),
            r matches Ok(s) ==> s.wf() && s.spec_layout() == layout && s.spec_width() == width
                && s.spec_height() == height,
    {
        if info_ok == 0 {
            return Err(AnimDecodeError::NullInfo);
        }
        let bpp = layout.bytes_per_pixel() as usize;
        match (width as usize).checked_mul(height as usize) {
            Some(wh) => match wh.checked_mul(bpp) {
                Some(len) => Ok(FrameShape { layout, width, height, len }),
                None => Err(AnimDecodeError::CanvasTooLarge),
            },
            None => {
                proof {
                    let w = width as nat;
                    let h = height as nat;
                    assert((w * h) * (bpp as nat) >= w * h) by (nonlinear_arith)
                        requires
                            bpp >= 3,
                    ;
                }
                Err(AnimDecodeError::CanvasTooLarge)
            },
        }
    }

    /// The number of bytes the native decoder hands out per frame.
    pub fn len(&self) -> (r: usize)
        ensures
            r == self.spec_len(),
            self.wf(),
    {
        proof {
            use_type_invariant(self);
        }
        self.len
    }

    pub fn layout(&self) -> (r: PixelLayout)
        ensures
            r == self.spec_layout(),
    {
        self.layout
    }
}

/// One decoded frame: an owned copy of its pixels, their layout, the frame's
/// size, and its timestamp in milliseconds from the start of the animation. The
/// pixels cover the whole frame.
pub struct DecodeAnimFrame {
    img: Vec<u8>,
    width: u32,
    height: u32,
    layout: PixelLayout,
    timestamp: i32,
}

impl DecodeAnimFrame {
    #[verifier::type_invariant]
    spec fn inv(self) -> bool {
        required_len(self.layout, self.width, self.height) <= self.img@.len()
    }

    /// The pixels cover every pixel of the frame.
    pub open spec fn is_complete(&self) -> bool {
        required_len(self.spec_layout(), self.spec_width(), self.spec_height())
            <= self.spec_img().len()
    }

    pub closed spec fn spec_img(&self) -> Seq<u8> {
        self.img@
    }

    pub closed spec fn spec_width(&self) -> u32 {
        self.width
    }

    pub closed spec fn spec_height(&self) -> u32 {
        self.height
    }

    pub closed spec fn spec_layout(&self) -> PixelLayout {
        self.layout
    }

    pub closed spec fn spec_timestamp(&self) -> i32 {
        self.timestamp
    }

    pub fn new(img: Vec<u8>, layout: PixelLayout, width: u32, height: u32, timestamp: i32) -> (r:
        Self)
        requires
            required_len(layout, width, height) <= img@.len(),
        ensures
            r.spec_img() == img@,
            r.spec_layout() == layout,
            r.spec_width() == width,
            r.spec_height() == height,
            r.spec_timestamp() == timestamp,
    {
        DecodeAnimFrame { img, width, height, layout, timestamp }
    }

    /// Copies one frame out of the native decoder's buffer, which is reused for the
    /// next frame and so cannot be kept.
    pub fn copy_from(shape: &FrameShape, buf: &[u8], timestamp: i32) -> (r: Self)
        requires
            shape.spec_len() <= buf@.len(),
        ensures
            r.spec_img() == buf@.subrange(0, shape.spec_len() as int),
            r.spec_layout() == shape.spec_layout(),
            r.spec_width() == shape.spec_width(),
            r.spec_height() == shape.spec_height(),
            r.spec_timestamp() == timestamp,
    {
        proof {
            use_type_invariant(shape);
        }
        let img = copy_prefix(buf, shape.len);
        DecodeAnimFrame {
            img,
            width: shape.width,
            height: shape.height,
            layout: shape.layout,
            timestamp,
        }
    }

    /// The frame's pixels; they cover the whole frame.
    pub fn image(&self) -> (r: &[u8])
        ensures
            r@ == self.spec_img(),
            self.is_complete(),
    {
        proof {
            use_type_invariant(self);
        }
        self.img.as_slice()
    }

    pub fn width(&self) -> (r: u32)
        ensures
            r == self.spec_width(),
    {
        self.width
    }

    pub fn height(&self) -> (r: u32)
        ensures
            r == self.spec_height(),
    {
        self.height
    }

    pub fn layout(&self) -> (r: PixelLayout)
        ensures
            r == self.spec_layout(),
    {
        self.layout
    }

    pub fn timestamp(&self) -> (r: i32)
        ensures
            r == self.spec_timestamp(),
    {
        self.timestamp
    }
}

/// The timestamps of `frames` never decrease.
pub open spec fn sorted_by_timestamp(frames: Seq<DecodeAnimFrame>) -> bool {
    forall|i: int, j: int|
        0 <= i <= j < frames.len() ==> #[trigger] frames[i].spec_timestamp()
            <= #[trigger] frames[j].spec_timestamp()
}

/// A decoded animation: its frames in the order the decoder produced them, the
/// loop count (0 loops forever) and the background color.
pub struct DecodeAnimImage {
    frames: Vec<DecodeAnimFrame>,
    pub loop_count: u32,
    pub bg_color: u32,
}

impl DecodeAnimImage {
    pub closed spec fn spec_frames(&self) -> Seq<DecodeAnimFrame> {
        self.frames@
    }

    pub closed spec fn spec_loop_count(&self) -> u32 {
        self.loop_count
    }

    pub closed spec fn spec_bg_color(&self) -> u32 {
        self.bg_color
    }

    pub closed spec fn built_from(frames: Vec<DecodeAnimFrame>) -> Self {
        DecodeAnimImage { frames, loop_count: 0, bg_color: 0 }
    }

    /// An animation of `frames`, with a loop count and background color of 0.
    pub fn from_frames(frames: Vec<DecodeAnimFrame>) -> (r: Self)
        ensures
            r == Self::built_from(frames),
            r.spec_frames() == frames@,
            r.spec_loop_count() == 0,
            r.spec_bg_color() == 0,
    {
        DecodeAnimImage { frames, loop_count: 0, bg_color: 0 }
    }

    /// Appends a frame after the ones already there.
    pub fn push_frame(&mut self, frame: DecodeAnimFrame)
        ensures
            final(self).spec_frames() == old(self).spec_frames().push(frame),
            final(self).spec_loop_count() == old(self).spec_loop_count(),
            final(self).spec_bg_color() == old(self).spec_bg_color(),
    {
        self.frames.push(frame);
    }

    /// Takes the native decoder's answer to "get the next frame": its status `ok`
    /// (zero for failure), the frame buffer it handed out, if any, and the frame's
    /// timestamp. A frame that was handed out is copied and appended. Anything else
    /// is reported as an error, so the caller stops instead of asking again.
    pub fn take_next_frame(
        &mut self,
        shape: &FrameShape,
        ok: i32,
        buf: Option<&[u8]>,
        timestamp: i32,
    ) -> (r: Result<(), AnimDecodeError>)
        requires
            buf matches Some(b) ==> shape.spec_len() <= b@.len(),
        ensures
            r is Ok <==> ok != 0 && buf is Some,
            r is Err ==> r == Err::<(), AnimDecodeError>(AnimDecodeError::NextFrame)
                && final(self).spec_frames() == old(self).spec_frames(),
            r is Ok ==> final(self).spec_frames().len() == old(self).spec_frames().len() + 1
                && final(self).spec_frames().drop_last() == old(self).spec_frames()
                && final(self).spec_frames().last().spec_img() == buf->Some_0@.subrange(
                0,
                shape.spec_len() as int,
            ) && final(self).spec_frames().last().spec_timestamp() == timestamp
                && final(self).spec_frames().last().spec_layout() == shape.spec_layout()
                && final(self).spec_frames().last().spec_width() == shape.spec_width()
                && final(self).spec_frames().last().spec_height() == shape.spec_height(),
            final(self).spec_loop_count() == old(self).spec_loop_count(),
            final(self).spec_bg_color() == old(self).spec_bg_color(),
    {
        match buf {
            Some(b) => {
                if ok != 0 {
                    let frame = DecodeAnimFrame::copy_from(shape, b, timestamp);
                    self.frames.push(frame);
                    proof {
                        assert(self.frames@.drop_last() =~= old(self).frames@);
                    }
                    Ok(())
                } else {
                    Err(AnimDecodeError::NextFrame)
                }
            },
            None => Err(AnimDecodeError::NextFrame),
        }
    }

    /// A view of the frame at `index`, or `None` past the last frame.
    pub fn get_frame(&self, index: usize) -> (r: Option<AnimFrame<'_>>)
        ensures
            r is Some <==> index < self.spec_frames().len(),
            r matches Some(f) ==> views_frame(f, self.spec_frames()[index as int]),
    {
        if index < self.frames.len() {
            let f = &self.frames[index];
            proof {
                use_type_invariant(f);
            }
            Some(AnimFrame::new(f.img.as_slice(), f.layout, f.width, f.height, f.timestamp, None))
        } else {
            None
        }
    }

    /// Views of the frames in `index`, or `None` when the range is reversed or
    /// reaches past the last frame.
    pub fn get_frames(&self, index: core::ops::Range<usize>) -> (r: Option<Vec<AnimFrame<'_>>>)
        ensures
            r is Some <==> index.start <= index.end <= self.spec_frames().len(),
            r matches Some(v) ==> v@.len() == index.end - index.start && forall|k: int|
                0 <= k < v@.len() ==> views_frame(
                    #[trigger] v@[k],
                    self.spec_frames()[index.start + k],
                ),
    {
        let start = index.start;
        let end = index.end;
        if start > end || end > self.frames.len() {
            return None;
        }
        let mut out: Vec<AnimFrame<'_>> = Vec::with_capacity(end - start);
        let mut i: usize = start;
        while i < end
            invariant
                start <= i <= end,
                end <= self.frames@.len(),
                out@.len() == i - start,
                forall|k: int|
                    0 <= k < out@.len() ==> views_frame(
                        #[trigger] out@[k],
                        self.spec_frames()[start + k],
                    ),
            decreases end - i,
        {
            let f = &self.frames[i];
            proof {
                use_type_invariant(f);
            }
            out.push(
                AnimFrame::new(f.img.as_slice(), f.layout, f.width, f.height, f.timestamp, None),
            );
            i = i + 1;
        }
        Some(out)
    }

    /// Views of all frames, in order.
    pub fn frames(&self) -> (r: Vec<AnimFrame<'_>>)
        ensures
            r@.len() == self.spec_frames().len(),
            forall|k: int|
                0 <= k < r@.len() ==> views_frame(#[trigger] r@[k], self.spec_frames()[k]),
    {
        self.get_frames(0..self.frames.len()).unwrap()
    }

    pub fn len(&self) -> (r: usize)
        ensures
            r == self.spec_frames().len(),
    {
        self.frames.len()
    }

    pub fn is_empty(&self) -> (r: bool)
        ensures
            r == (self.spec_frames().len() == 0),
    {
        self.frames.len() == 0
    }

    /// An animation is one with more than one frame.
    pub fn has_animation(&self) -> (r: bool)
        ensures
            r == (self.spec_frames().len() > 1),
    {
        self.len() > 1
    }

    /// Orders the frames by timestamp. Frames with equal timestamps keep their
    /// order, so frames already in order are left exactly as they are.
    pub fn sort_by_time_stamp(&mut self)
        ensures
            sorted_by_timestamp(final(self).spec_frames()),
            final(self).spec_frames().to_multiset() == old(self).spec_frames().to_multiset(),
            sorted_by_timestamp(old(self).spec_frames()) ==> final(self).spec_frames()
                == old(self).spec_frames(),
            final(self).spec_loop_count() == old(self).spec_loop_count(),
            final(self).spec_bg_color() == old(self).spec_bg_color(),
    {
        let ghost original = self.frames@;
        let mut rest: Vec<DecodeAnimFrame> = Vec::new();
        std::mem::swap(&mut rest, &mut self.frames);
        let mut sorted: Vec<DecodeAnimFrame> = Vec::new();
        proof {
            assert(original.subrange(0, 0) =~= sorted@);
            assert(sorted@ =~= Seq::<DecodeAnimFrame>::empty());
            vstd::seq_lib::to_multiset_len(sorted@);
            vstd::multiset::lemma_multiset_empty_len(sorted@.to_multiset());
            assert(sorted@.to_multiset() =~= Multiset::empty());
            assert(Multiset::<DecodeAnimFrame>::empty().add(rest@.to_multiset())
                =~= rest@.to_multiset());
        }
        while rest.len() > 0
            invariant
                sorted_by_timestamp(sorted@),
                sorted@.to_multiset().add(rest@.to_multiset()) == original.to_multiset(),
                sorted@.len() + rest@.len() == original.len(),
                sorted_by_timestamp(original) ==> sorted@ == original.subrange(
                    0,
                    sorted@.len() as int,
                ) && rest@ == original.subrange(sorted@.len() as int, original.len() as int),
            decreases rest@.len(),
        {
            let ghost before = sorted@;
            let ghost rest_before = rest@;
            let f = rest.remove(0);
            let mut pos: usize = sorted.len();
            while pos > 0 && sorted[pos - 1].timestamp > f.timestamp
                invariant
                    pos <= sorted@.len(),
                    sorted@ == before,
                    forall|k: int|
                        pos <= k < sorted@.len() ==> #[trigger] sorted@[k].spec_timestamp()
                            > f.spec_timestamp(),
                decreases pos,
            {
                pos = pos - 1;
            }
            proof {
                broadcast use vstd::seq_lib::to_multiset_insert, vstd::seq_lib::to_multiset_remove;
                assert(pos > 0 ==> sorted@[pos - 1].spec_timestamp() <= f.spec_timestamp());
                assert(rest_before.to_multiset().count(f) > 0) by {
                    broadcast use vstd::seq_lib::to_multiset_contains;
                    assert(rest_before.contains(f));
                }
            }
            sorted.insert(pos, f);
            proof {
                broadcast use vstd::seq_lib::to_multiset_insert, vstd::seq_lib::to_multiset_remove;
                assert(sorted@.to_multiset() == before.to_multiset().insert(f));
                assert(rest@.to_multiset() == rest_before.to_multiset().remove(f));
                assert(sorted@.to_multiset().add(rest@.to_multiset()) =~= before.to_multiset().add(
                    rest_before.to_multiset(),
                ));
                assert forall|i: int, j: int|
                    0 <= i <= j < sorted@.len() implies #[trigger] sorted@[i].spec_timestamp()
                    <= #[trigger] sorted@[j].spec_timestamp() by {
                    if i < pos && j > pos {
                        assert(sorted@[i] == before[i]);
                        assert(sorted@[j] == before[j - 1]);
                    }
                }
                if sorted_by_timestamp(original) {
                    let k = before.len() as int;
                    assert(f == original[k]);
                    if k > 0 {
                        assert(before[k - 1] == original[k - 1]);
                        assert(original[k - 1].spec_timestamp() <= original[k].spec_timestamp());
                    }
                    assert(sorted@ =~= original.subrange(0, k + 1));
                    assert(rest@ =~= original.subrange(k + 1, original.len() as int));
                }
            }
        }
        proof {
            assert(rest@ =~= Seq::<DecodeAnimFrame>::empty());
            vstd::seq_lib::to_multiset_len(rest@);
            vstd::multiset::lemma_multiset_empty_len(rest@.to_multiset());
            assert(rest@.to_multiset() =~= Multiset::empty());
            assert(sorted@.to_multiset().add(Multiset::empty()) =~= sorted@.to_multiset());
            if sorted_by_timestamp(original) {
                assert(sorted@ =~= original);
            }
        }
        self.frames = sorted;
    }
}

impl<'a> IntoIterator for &'a DecodeAnimImage {
    type Item = AnimFrame<'a>;
    type IntoIter = std::vec::IntoIter<AnimFrame<'a>>;

    fn into_iter(self) -> std::vec::IntoIter<AnimFrame<'a>> {
        self.frames().into_iter()
    }
}

impl From<Vec<DecodeAnimFrame>> for DecodeAnimImage {
    fn from(frames: Vec<DecodeAnimFrame>) -> (r: Self) {
        DecodeAnimImage::from_frames(frames)
    }
}

impl vstd::std_specs::convert::FromSpecImpl<Vec<DecodeAnimFrame>> for DecodeAnimImage {
    open spec fn obeys_from_spec() -> bool {
        true
    }

    open spec fn from_spec(frames: Vec<DecodeAnimFrame>) -> Self {
        DecodeAnimImage::built_from(frames)
    }
}

/// `view` shows the pixels, layout, size and timestamp of `frame`, with no
/// configuration of its own.
pub open spec fn views_frame(view: AnimFrame, frame: DecodeAnimFrame) -> bool {
    &&& view.spec_image() == frame.spec_img()
    &&& view.spec_layout() == frame.spec_layout()
    &&& view.spec_width() == frame.spec_width()
    &&& view.spec_height() == frame.spec_height()
    &&& view.spec_timestamp() == frame.spec_timestamp()
    &&& view.spec_config() is None
}

} // verus!
