//! Media-file playback sources: the ffmpeg-backed file/stream source and
//! the VLC-style playlist source.
use crate::document::{Document, DocumentModel, ScalarModel, ToDocument, ValueModel};
use crate::duration::Duration;
use crate::slideshow::{files_to_records, PlaybackBehavior, SlideshowFile};
use vstd::prelude::*;

verus! {

/// A YUV color range choice, with the tool's wire codes.
pub enum ColorRange {
    Auto,
    Partial,
    Full,
}

impl ColorRange {
    /// The small-integer wire code of this choice: automatic is zero.
    pub open spec fn code(self) -> u64 {
        match self {
            ColorRange::Auto => 0,
            ColorRange::Partial => 1,
            ColorRange::Full => 2,
        }
    }

    pub fn wire_code(&self) -> (r: u64)
        ensures
            r == self.code(),
    {
        match self {
            ColorRange::Auto => 0,
            ColorRange::Partial => 1,
            ColorRange::Full => 2,
        }
    }
}

/// Settings for a media source played through ffmpeg.
pub struct FfmpegSource {
    pub is_local_file: bool,
    pub local_file: String,
    pub looping: bool,
    /// Network buffering in megabytes.
    pub buffering_mb: u8,
    pub input: String,
    pub input_format: String,
    /// Reconnect delay in seconds.
    pub reconnect_delay_sec: u8,
    /// Restart playback when the source becomes active.
    pub restart_on_activate: bool,
    /// Show nothing when playback ends.
    pub clear_on_media_end: bool,
    /// Close the file when inactive.
    pub close_when_inactive: bool,
    pub speed_percent: u8,
    /// YUV color range.
    pub color_range: ColorRange,
    pub seekable: bool,
}

impl ToDocument for FfmpegSource {
    open spec fn wf(&self) -> bool {
        true
    }

    open spec fn wire_model(&self) -> DocumentModel {
        seq![
            ("is_local_file"@, ValueModel::Scalar(ScalarModel::Bool(self.is_local_file))),
            ("local_file"@, ValueModel::Scalar(ScalarModel::Text(self.local_file@))),
            ("looping"@, ValueModel::Scalar(ScalarModel::Bool(self.looping))),
            ("buffering_mb"@, ValueModel::Scalar(ScalarModel::UInt(self.buffering_mb as u64))),
            ("input"@, ValueModel::Scalar(ScalarModel::Text(self.input@))),
            ("input_format"@, ValueModel::Scalar(ScalarModel::Text(self.input_format@))),
            (
                "reconnect_delay_sec"@,
                ValueModel::Scalar(ScalarModel::UInt(self.reconnect_delay_sec as u64)),
            ),
            (
                "restart_on_activate"@,
                ValueModel::Scalar(ScalarModel::Bool(self.restart_on_activate)),
            ),
            (
                "clear_on_media_end"@,
                ValueModel::Scalar(ScalarModel::Bool(self.clear_on_media_end)),
            ),
            (
                "close_when_inactive"@,
                ValueModel::Scalar(ScalarModel::Bool(self.close_when_inactive)),
            ),
            ("speed_percent"@, ValueModel::Scalar(ScalarModel::UInt(self.speed_percent as u64))),
            ("color_range"@, ValueModel::Scalar(ScalarModel::UInt(self.color_range.code()))),
            ("seekable"@, ValueModel::Scalar(ScalarModel::Bool(self.seekable))),
        ]
    }

    fn to_document(&self) -> (r: Document) {
        let mut d = Document::new();
        d.push_bool("is_local_file", self.is_local_file);
        d.push_text("local_file", self.local_file.as_str());
        d.push_bool("looping", self.looping);
        d.push_uint("buffering_mb", self.buffering_mb as u64);
        d.push_text("input", self.input.as_str());
        d.push_text("input_format", self.input_format.as_str());
        d.push_uint("reconnect_delay_sec", self.reconnect_delay_sec as u64);
        d.push_bool("restart_on_activate", self.restart_on_activate);
        d.push_bool("clear_on_media_end", self.clear_on_media_end);
        d.push_bool("close_when_inactive", self.close_when_inactive);
        d.push_uint("speed_percent", self.speed_percent as u64);
        d.push_uint("color_range", self.color_range.wire_code());
        d.push_bool("seekable", self.seekable);
        proof {
            assert(d@ =~~= self.wire_model());
        }
        d
    }
}

/// Settings for a VLC-style playlist source.
pub struct VlcSource {
    /// Loop the playlist; serialized under the key `bool`, a quirk the
    /// wire format demands.
    pub loop_: bool,
    /// Shuffle the playlist.
    pub shuffle: bool,
    /// Visibility behavior.
    pub playback_behavior: PlaybackBehavior,
    pub playlist: Vec<SlideshowFile>,
    /// Network caching time. The tool's documented minimum is 100ms;
    /// the encoder passes smaller values through unchanged.
    pub network_caching: Duration,
    /// Audio track. The tool's documented minimum is 1.
    pub track: u32,
    /// Subtitles enabled.
    pub subtitle_enable: bool,
    /// Subtitle track. The tool's documented minimum is 1.
    pub subtitle: u32,
}

impl ToDocument for VlcSource {
    open spec fn wf(&self) -> bool {
        self.network_caching.wf()
    }

    open spec fn wire_model(&self) -> DocumentModel {
        seq![
            ("bool"@, ValueModel::Scalar(ScalarModel::Bool(self.loop_))),
            ("shuffle"@, ValueModel::Scalar(ScalarModel::Bool(self.shuffle))),
            (
                "playback_behavior"@,
                ValueModel::Scalar(ScalarModel::Text(self.playback_behavior.name())),
            ),
            (
                "playlist"@,
                ValueModel::Records(
                    self.playlist@.map_values(|f: SlideshowFile| f.record_model()),
                ),
            ),
            (
                "network_caching"@,
                ValueModel::Scalar(
                    ScalarModel::Int(
                        Duration::millis_trunc(self.network_caching.total_nanos()) as i64,
                    ),
                ),
            ),
            ("track"@, ValueModel::Scalar(ScalarModel::UInt(self.track as u64))),
            ("subtitle_enable"@, ValueModel::Scalar(ScalarModel::Bool(self.subtitle_enable))),
            ("subtitle"@, ValueModel::Scalar(ScalarModel::UInt(self.subtitle as u64))),
        ]
    }

    fn to_document(&self) -> (r: Document) {
        let mut d = Document::new();
        d.push_bool("bool", self.loop_);
        d.push_bool("shuffle", self.shuffle);
        d.push_text("playback_behavior", self.playback_behavior.wire_name());
        d.push_records("playlist", files_to_records(&self.playlist));
        d.push_int("network_caching", self.network_caching.num_milliseconds());
        d.push_uint("track", self.track as u64);
        d.push_bool("subtitle_enable", self.subtitle_enable);
        d.push_uint("subtitle", self.subtitle as u64);
        proof {
            assert(d@ =~~= self.wire_model());
        }
        d
    }
}

impl Default for VlcSource {
    /// The tool's factory defaults: loop without shuffling, stop and
    /// restart with visibility, 400ms of network caching, first audio
    /// track, subtitles off.
    fn default() -> (r: VlcSource)
        ensures
            r.loop_,
            !r.shuffle,
            r.playback_behavior is StopRestart,
            r.playlist@.len() == 0,
            r.network_caching.total_nanos() == 400i64 * 1_000_000,
            r.network_caching.wf(),
            r.track == 1,
            !r.subtitle_enable,
            r.subtitle == 1,
    {
        VlcSource {
            loop_: true,
            shuffle: false,
            playback_behavior: PlaybackBehavior::StopRestart,
            playlist: Vec::new(),
            network_caching: Duration::milliseconds(400),
            track: 1,
            subtitle_enable: false,
            subtitle: 1,
        }
    }
}

} // verus!
