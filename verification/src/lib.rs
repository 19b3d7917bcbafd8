//! Typed settings for media-source objects, serialized to the flat
//! key/value documents a remote production tool expects.
//!
//! Each source kind is an independent record type with the tool's factory
//! defaults; serializing it applies the wire encodings the tool demands:
//! reversed color channel order, durations as whole milliseconds, style
//! flags packed into one byte, a resolution embedded as a JSON string, and
//! the crop-mode union flattened to a discriminant plus renamed fields.
use vstd::prelude::*;

pub mod audio;
pub mod browser;
pub mod capture;
pub mod color;
pub mod color_source;
pub mod image;
pub mod media;
pub mod document;
pub mod duration;
pub mod flags;
pub mod numfmt;
pub mod slideshow;
pub mod text;

verus! {

/// The source-kind tag for [`audio::CoreaudioInputCapture`].
pub const SOURCE_COREAUDIO_INPUT_CAPTURE: &'static str = "coreaudio_input_capture";

/// The source-kind tag for [`audio::CoreaudioOutputCapture`].
pub const SOURCE_COREAUDIO_OUTPUT_CAPTURE: &'static str = "coreaudio_output_capture";

/// The source-kind tag for [`browser::BrowserSource`].
pub const SOURCE_BROWSER_SOURCE: &'static str = "browser_source";

/// The source-kind tag for [`color_source::ColorSourceV3`].
pub const SOURCE_COLOR_SOURCE_V3: &'static str = "color_source_v3";

/// The source-kind tag for [`capture::DisplayCapture`].
pub const SOURCE_DISPLAY_CAPTURE: &'static str = "display_capture";

/// The source-kind tag for [`image::ImageSource`].
pub const SOURCE_IMAGE_SOURCE: &'static str = "image_source";

/// The source-kind tag for [`slideshow::Slideshow`].
pub const SOURCE_SLIDESHOW: &'static str = "slideshow";

/// The source-kind tag for [`media::FfmpegSource`].
pub const SOURCE_FFMPEG_SOURCE: &'static str = "ffmpeg_source";

/// The source-kind tag for [`text::TextFt2SourceV2`].
pub const SOURCE_TEXT_FT2_SOURCE_V2: &'static str = "text_ft2_source_v2";

/// The source-kind tag for [`media::VlcSource`].
pub const SOURCE_VLC_SOURCE: &'static str = "vlc_source";

/// The source-kind tag for [`capture::AvCaptureInput`].
pub const SOURCE_AV_CAPTURE_INPUT: &'static str = "av_capture_input";

/// The source-kind tag for [`capture::WindowCapture`].
pub const SOURCE_WINDOW_CAPTURE: &'static str = "window_capture";

} // verus!
