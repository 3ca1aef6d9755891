//! Permission and image operations behind the command layer of a desktop
//! plugin.

pub mod codec;
pub mod permission;

pub use codec::{
    compress_webp_to_size, convert_jpeg_to_webp, try_compress_webp_to_size,
    try_convert_jpeg_to_webp, CodecError, CompressWebpToSizeArgs, ConvertJpegToWebpArgs,
    ImageFormat,
};
pub use permission::{is_permission_granted, PermissionState};
