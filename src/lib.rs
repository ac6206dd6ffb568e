//! Bounds-checked encoding, decoding and animation assembly for WebP images.
//!
//! The native codec does the compression work. This crate decides everything
//! around it: which buffers are long enough to hand over, how each native
//! status is read, which frames make up an animation and in what order.
pub mod animation_decoder;
pub mod animation_encoder;
pub mod decoder;
pub mod encoder;
pub mod shared;

pub use animation_decoder::{
    AnimDecodeError, AnimDecoder, DecodeAnimFrame, DecodeAnimImage, FrameShape,
};
pub use animation_encoder::{
    AnimEncodeError, AnimEncoder, AnimFrame, AnimPlan, FramePlan, MuxAnimParams,
};
pub use decoder::{BitstreamFeatures, BitstreamFormat, DecodePlan, Decoder};
pub use encoder::{BufferTooSmall, CheckedEncoder, Encoder, PictureImport};
pub use libwebp_sys::{WebPConfig, WebPEncodingError, WebPMuxError};
pub use shared::{PixelLayout, WebPImage, WebPMemory};
