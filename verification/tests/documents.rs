//! Tests for the serialized documents of the source-kind payloads:
//! field sets, defaults, the flattened crop-mode union, and the
//! embedded resolution string.
use source_settings::audio::{CoreaudioInputCapture, CoreaudioOutputCapture};
use source_settings::browser::BrowserSource;
use source_settings::capture::{
    AvCaptureInput, ColorSpace, CropMode, DisplayCapture, FrameRate, Resolution, WindowCapture,
};
use source_settings::color::Rgba;
use source_settings::color_source::ColorSourceV3;
use source_settings::document::{Document, Scalar, ToDocument, Value};
use source_settings::flags::FontFlags;
use source_settings::image::ImageSource;
use source_settings::media::{ColorRange, FfmpegSource, VlcSource};
use source_settings::slideshow::{
    CustomSize, PlaybackBehavior, SlideMode, Slideshow, SlideshowFile, Transition,
};
use source_settings::text::{Font, TextFt2SourceV2};

fn keys(d: &Document) -> Vec<String> {
    d.fields.iter().map(|(k, _)| k.clone()).collect()
}

fn field<'a>(d: &'a Document, key: &str) -> &'a Value {
    for (k, v) in &d.fields {
        if k.as_str() == key {
            return v;
        }
    }
    panic!("no field {}", key);
}

fn as_bool(d: &Document, key: &str) -> bool {
    match field(d, key) {
        Value::Scalar(Scalar::Bool(b)) => *b,
        _ => panic!("field {} is not a bool", key),
    }
}

fn as_uint(d: &Document, key: &str) -> u64 {
    match field(d, key) {
        Value::Scalar(Scalar::UInt(n)) => *n,
        _ => panic!("field {} is not an unsigned integer", key),
    }
}

fn as_int(d: &Document, key: &str) -> i64 {
    match field(d, key) {
        Value::Scalar(Scalar::Int(n)) => *n,
        _ => panic!("field {} is not a signed integer", key),
    }
}

fn as_text<'a>(d: &'a Document, key: &str) -> &'a str {
    match field(d, key) {
        Value::Scalar(Scalar::Text(s)) => s.as_str(),
        _ => panic!("field {} is not text", key),
    }
}

#[test]
fn browser_defaults_with_url_override() {
    let payload = BrowserSource {
        url: "https://example.com".to_string(),
        ..BrowserSource::default()
    };
    let d = payload.to_document();
    assert_eq!(as_text(&d, "url"), "https://example.com");
    assert_eq!(as_uint(&d, "width"), 800);
    assert_eq!(as_uint(&d, "height"), 600);
    assert_eq!(as_uint(&d, "fps"), 30);
    assert!(!as_bool(&d, "fps_custom"));
    assert!(!as_bool(&d, "shutdown"));
}

#[test]
fn browser_default_css_and_url() {
    let d = BrowserSource::default().to_document();
    assert_eq!(as_text(&d, "url"), "https://obsproject.com/browser-source");
    assert_eq!(
        as_text(&d, "css"),
        "body { background-color: rgba(0, 0, 0, 0); margin: 0px auto; overflow: hidden; }"
    );
    assert!(!as_bool(&d, "is_local_file"));
    assert_eq!(as_text(&d, "local_file"), "");
    assert!(!as_bool(&d, "reroute_audio"));
    assert!(!as_bool(&d, "restart_when_active"));
}

#[test]
fn crop_mode_none_emits_only_the_tag() {
    let d = DisplayCapture { display: 1, show_cursor: true, crop_mode: CropMode::NoCrop }
        .to_document();
    assert_eq!(keys(&d), vec!["display", "show_cursor", "crop_mode"]);
    assert_eq!(as_uint(&d, "crop_mode"), 0);
    assert_eq!(as_uint(&d, "display"), 1);
    assert!(as_bool(&d, "show_cursor"));
}

#[test]
fn crop_mode_manual_renames_the_rectangle() {
    let crop = CropMode::Manual { left: 10, top: 20, right: 30, bottom: 40 };
    let d = DisplayCapture { display: 0, show_cursor: false, crop_mode: crop }.to_document();
    assert_eq!(
        keys(&d),
        vec![
            "display",
            "show_cursor",
            "crop_mode",
            "manual.origin.x",
            "manual.origin.y",
            "manual.size.width",
            "manual.size.height",
        ]
    );
    assert_eq!(as_uint(&d, "crop_mode"), 1);
    assert_eq!(as_int(&d, "manual.origin.x"), 10);
    assert_eq!(as_int(&d, "manual.origin.y"), 20);
    assert_eq!(as_int(&d, "manual.size.width"), 30);
    assert_eq!(as_int(&d, "manual.size.height"), 40);
}

#[test]
fn crop_mode_to_window_emits_window_identity() {
    let crop = CropMode::ToWindow {
        owner_name: "Finder".to_string(),
        window_name: "Desktop".to_string(),
        window: 7,
        show_empty_names: true,
    };
    let d = DisplayCapture { display: 2, show_cursor: true, crop_mode: crop }.to_document();
    assert_eq!(
        keys(&d),
        vec![
            "display",
            "show_cursor",
            "crop_mode",
            "owner_name",
            "window_name",
            "window",
            "show_empty_names",
        ]
    );
    assert_eq!(as_uint(&d, "crop_mode"), 2);
    assert_eq!(as_text(&d, "owner_name"), "Finder");
    assert_eq!(as_text(&d, "window_name"), "Desktop");
    assert_eq!(as_uint(&d, "window"), 7);
    assert!(as_bool(&d, "show_empty_names"));
}

#[test]
fn crop_mode_combined_uses_window_rectangle_names() {
    let crop = CropMode::ToWindowAndManual {
        owner_name: "Term".to_string(),
        window_name: "Shell".to_string(),
        window: 3,
        show_empty_names: false,
        left: -1,
        top: -2,
        right: 3,
        bottom: 4,
    };
    let d = DisplayCapture { display: 0, show_cursor: false, crop_mode: crop }.to_document();
    assert_eq!(
        keys(&d),
        vec![
            "display",
            "show_cursor",
            "crop_mode",
            "owner_name",
            "window_name",
            "window",
            "show_empty_names",
            "window.origin.x",
            "window.origin.y",
            "window.size.width",
            "window.size.height",
        ]
    );
    assert_eq!(as_uint(&d, "crop_mode"), 3);
    assert_eq!(as_int(&d, "window.origin.x"), -1);
    assert_eq!(as_int(&d, "window.origin.y"), -2);
    assert_eq!(as_int(&d, "window.size.width"), 3);
    assert_eq!(as_int(&d, "window.size.height"), 4);
}

#[test]
fn text_source_reverses_color_and_packs_bold() {
    let payload = TextFt2SourceV2 {
        color1: Rgba::new(255, 0, 0, 255),
        color2: Rgba::new(0, 0, 255, 255),
        text: "Hello world!".to_string(),
        font: Font {
            flags: FontFlags::bold_only(),
            style: "Bold".to_string(),
            ..Font::default()
        },
        ..TextFt2SourceV2::default()
    };
    let d = payload.to_document();
    assert_eq!(as_uint(&d, "color1"), 0xFF00_00FF);
    assert_eq!(as_uint(&d, "color2"), 0xFFFF_0000);
    assert_eq!(as_text(&d, "text"), "Hello world!");
    match field(&d, "font") {
        Value::Record(rec) => {
            let mut flags = None;
            let mut face = None;
            let mut style = None;
            let mut size = None;
            for (k, v) in &rec.fields {
                match (k.as_str(), v) {
                    ("flags", Scalar::UInt(n)) => flags = Some(*n),
                    ("face", Scalar::Text(s)) => face = Some(s.clone()),
                    ("style", Scalar::Text(s)) => style = Some(s.clone()),
                    ("size", Scalar::UInt(n)) => size = Some(*n),
                    _ => panic!("unexpected font field {}", k),
                }
            }
            assert_eq!(flags, Some(1));
            assert_eq!(face.as_deref(), Some("Helvetica"));
            assert_eq!(style.as_deref(), Some("Bold"));
            assert_eq!(size, Some(256));
        }
        _ => panic!("font is not a record"),
    }
}

#[test]
fn text_source_defaults() {
    let d = TextFt2SourceV2::default().to_document();
    assert!(as_bool(&d, "antialiasing"));
    assert_eq!(as_uint(&d, "color1"), 0xFFFF_FFFF);
    assert_eq!(as_uint(&d, "color2"), 0xFFFF_FFFF);
    assert_eq!(as_uint(&d, "log_lines"), 6);
    assert_eq!(as_text(&d, "text"), "");
    assert!(!as_bool(&d, "word_wrap"));
}

#[test]
fn av_capture_embeds_resolution_as_parseable_json() {
    let payload = AvCaptureInput {
        buffering: false,
        color_space: ColorSpace::Auto,
        device: "cam1".to_string(),
        device_name: "Camera".to_string(),
        frame_rate: FrameRate { numerator: 30000, denominator: 1001 },
        input_format: 0,
        resolution: Resolution { width: 1920, height: 1080 },
        use_preset: false,
    };
    let d = payload.to_document();
    let embedded = as_text(&d, "resolution");
    assert_eq!(embedded, "{\"width\":1920,\"height\":1080}");
    let parsed: serde_json::Value = serde_json::from_str(embedded).unwrap();
    assert_eq!(parsed["width"], 1920);
    assert_eq!(parsed["height"], 1080);
    assert_eq!(as_int(&d, "color_space"), -1);
    match field(&d, "frame_rate") {
        Value::Record(rec) => {
            assert_eq!(rec.fields.len(), 2);
            assert!(matches!(&rec.fields[0], (k, Scalar::UInt(30000)) if k.as_str() == "numerator"));
            assert!(matches!(&rec.fields[1], (k, Scalar::UInt(1001)) if k.as_str() == "denominator"));
        }
        _ => panic!("frame_rate is not a record"),
    }
}

#[test]
fn slideshow_defaults_encode_durations_in_millis() {
    let d = Slideshow::default().to_document();
    assert_eq!(as_text(&d, "playback_behavior"), "always_play");
    assert_eq!(as_text(&d, "slide_mode"), "mode_auto");
    assert_eq!(as_text(&d, "transition"), "fade");
    assert_eq!(as_int(&d, "slide_time"), 8000);
    assert_eq!(as_int(&d, "transition_speed"), 700);
    assert!(as_bool(&d, "loop"));
    assert!(!as_bool(&d, "hide"));
    assert!(!as_bool(&d, "randomize"));
    assert_eq!(as_text(&d, "use_custom_size"), "Automatic");
    match field(&d, "files") {
        Value::Records(rs) => assert!(rs.is_empty()),
        _ => panic!("files is not a list"),
    }
}

#[test]
fn slideshow_files_become_records_in_order() {
    let payload = Slideshow {
        files: vec![
            SlideshowFile { value: "a.png".to_string(), hidden: false, selected: true },
            SlideshowFile { value: "b.png".to_string(), ..SlideshowFile::default() },
        ],
        ..Slideshow::default()
    };
    let d = payload.to_document();
    match field(&d, "files") {
        Value::Records(rs) => {
            assert_eq!(rs.len(), 2);
            assert!(matches!(&rs[0].fields[0], (k, Scalar::Text(s)) if k.as_str() == "value" && s.as_str() == "a.png"));
            assert!(matches!(&rs[0].fields[1], (k, Scalar::Bool(false)) if k.as_str() == "hidden"));
            assert!(matches!(&rs[0].fields[2], (k, Scalar::Bool(true)) if k.as_str() == "selected"));
            assert!(matches!(&rs[1].fields[0], (k, Scalar::Text(s)) if k.as_str() == "value" && s.as_str() == "b.png"));
        }
        _ => panic!("files is not a list"),
    }
}

#[test]
fn vlc_defaults_use_the_renamed_loop_key() {
    let d = VlcSource::default().to_document();
    assert!(as_bool(&d, "bool"));
    assert!(!as_bool(&d, "shuffle"));
    assert_eq!(as_text(&d, "playback_behavior"), "stop_restart");
    assert_eq!(as_int(&d, "network_caching"), 400);
    assert_eq!(as_uint(&d, "track"), 1);
    assert!(!as_bool(&d, "subtitle_enable"));
    assert_eq!(as_uint(&d, "subtitle"), 1);
    match field(&d, "playlist") {
        Value::Records(rs) => assert!(rs.is_empty()),
        _ => panic!("playlist is not a list"),
    }
}

#[test]
fn ffmpeg_color_range_codes() {
    let base = FfmpegSource {
        is_local_file: true,
        local_file: "movie.mp4".to_string(),
        looping: false,
        buffering_mb: 2,
        input: String::new(),
        input_format: String::new(),
        reconnect_delay_sec: 10,
        restart_on_activate: true,
        clear_on_media_end: true,
        close_when_inactive: false,
        speed_percent: 100,
        color_range: ColorRange::Auto,
        seekable: false,
    };
    let d = base.to_document();
    assert_eq!(as_uint(&d, "color_range"), 0);
    assert!(as_bool(&d, "is_local_file"));
    assert_eq!(as_text(&d, "local_file"), "movie.mp4");
    assert_eq!(as_uint(&d, "speed_percent"), 100);
    let d = FfmpegSource { color_range: ColorRange::Partial, ..base_clone(&base) }.to_document();
    assert_eq!(as_uint(&d, "color_range"), 1);
    let d = FfmpegSource { color_range: ColorRange::Full, ..base_clone(&base) }.to_document();
    assert_eq!(as_uint(&d, "color_range"), 2);
}

fn base_clone(f: &FfmpegSource) -> FfmpegSource {
    FfmpegSource {
        is_local_file: f.is_local_file,
        local_file: f.local_file.clone(),
        looping: f.looping,
        buffering_mb: f.buffering_mb,
        input: f.input.clone(),
        input_format: f.input_format.clone(),
        reconnect_delay_sec: f.reconnect_delay_sec,
        restart_on_activate: f.restart_on_activate,
        clear_on_media_end: f.clear_on_media_end,
        close_when_inactive: f.close_when_inactive,
        speed_percent: f.speed_percent,
        color_range: ColorRange::Auto,
        seekable: f.seekable,
    }
}

#[test]
fn window_capture_defaults() {
    let d = WindowCapture::default().to_document();
    assert_eq!(keys(&d), vec![
        "owner_name",
        "window_name",
        "window",
        "show_empty_names",
        "show_shadow",
    ]);
    assert_eq!(as_text(&d, "owner_name"), "");
    assert_eq!(as_uint(&d, "window"), 0);
    assert!(!as_bool(&d, "show_shadow"));
}

#[test]
fn coreaudio_documents_carry_the_device() {
    let d = CoreaudioInputCapture { device_id: "mic".to_string() }.to_document();
    assert_eq!(keys(&d), vec!["device_id"]);
    assert_eq!(as_text(&d, "device_id"), "mic");
    let d = CoreaudioOutputCapture { device_id: "spk".to_string() }.to_document();
    assert_eq!(as_text(&d, "device_id"), "spk");
}

#[test]
fn color_source_encodes_its_fill() {
    let d = ColorSourceV3::default().to_document();
    // (209, 209, 209, 255) reversed: alpha first, then blue, green, red.
    assert_eq!(as_uint(&d, "color"), 0xFFD1_D1D1);
    assert_eq!(as_uint(&d, "width"), 0);
    assert_eq!(as_uint(&d, "height"), 0);
}

#[test]
fn image_source_defaults() {
    let d = ImageSource::default().to_document();
    assert_eq!(keys(&d), vec!["file", "unload"]);
    assert_eq!(as_text(&d, "file"), "");
    assert!(!as_bool(&d, "unload"));
}

#[test]
fn custom_size_formats() {
    assert_eq!(CustomSize::Automatic.to_wire_string(), "Automatic");
    assert_eq!(CustomSize::SixteenToNine.to_wire_string(), "16:9");
    assert_eq!(CustomSize::SixteenToTen.to_wire_string(), "16:10");
    assert_eq!(CustomSize::FourToThree.to_wire_string(), "4:3");
    assert_eq!(CustomSize::OneToOne.to_wire_string(), "1:1");
    assert_eq!(CustomSize::CustomRatio(16, 9).to_wire_string(), "16:9");
    assert_eq!(CustomSize::CustomSize(1920, 1080).to_wire_string(), "1920x1080");
}

#[test]
fn enum_wire_names() {
    assert_eq!(PlaybackBehavior::AlwaysPlay.wire_name(), "always_play");
    assert_eq!(PlaybackBehavior::StopRestart.wire_name(), "stop_restart");
    assert_eq!(PlaybackBehavior::PauseUnpause.wire_name(), "pause_unpause");
    assert_eq!(SlideMode::ModeAuto.wire_name(), "mode_auto");
    assert_eq!(SlideMode::ModeManual.wire_name(), "mode_manual");
    assert_eq!(Transition::Cut.wire_name(), "cut");
    assert_eq!(Transition::Slide.wire_name(), "slide");
}

#[test]
fn resolution_json_string() {
    let r = Resolution { width: 0, height: 4_294_967_295 };
    assert_eq!(r.to_json_string(), "{\"width\":0,\"height\":4294967295}");
}

#[test]
fn source_kind_tags() {
    assert_eq!(source_settings::SOURCE_BROWSER_SOURCE, "browser_source");
    assert_eq!(source_settings::SOURCE_TEXT_FT2_SOURCE_V2, "text_ft2_source_v2");
    assert_eq!(source_settings::SOURCE_DISPLAY_CAPTURE, "display_capture");
    assert_eq!(source_settings::SOURCE_VLC_SOURCE, "vlc_source");
}

#[test]
fn durations_below_documented_minimums_pass_through() {
    // The encoder never clamps: a slide time below the tool's 50ms
    // minimum and caching below 100ms serialize unchanged.
    let d = Slideshow {
        slide_time: source_settings::duration::Duration::milliseconds(10),
        ..Slideshow::default()
    }
    .to_document();
    assert_eq!(as_int(&d, "slide_time"), 10);
    let d = VlcSource {
        network_caching: source_settings::duration::Duration::milliseconds(0),
        ..VlcSource::default()
    }
    .to_document();
    assert_eq!(as_int(&d, "network_caching"), 0);
}
