//! Captured display, window, and AV device sources, including the
//! crop-mode union: a tagged choice among four field sets that flattens
//! into the display-capture document as a numeric discriminant plus only
//! the fields of the chosen variant, under protocol-mandated names.
use crate::document::{
    Document, DocumentModel, Record, RecordModel, ScalarModel, ToDocument, ValueModel,
};
use crate::numfmt::{append_dec_u32, dec_rep};
use vstd::prelude::*;

verus! {

/// How a display capture is cropped. Exactly one variant is active, and
/// the serialized form always carries a numeric tag naming it.
pub enum CropMode {
    /// No cropping.
    NoCrop,
    /// A manually chosen rectangle of whole-pixel offsets.
    Manual { left: i64, top: i64, right: i64, bottom: i64 },
    /// Crop to a window, identified by owner and title.
    ToWindow { owner_name: String, window_name: String, window: u32, show_empty_names: bool },
    /// Crop to a window and a manual rectangle within it.
    ToWindowAndManual {
        owner_name: String,
        window_name: String,
        window: u32,
        show_empty_names: bool,
        left: i64,
        top: i64,
        right: i64,
        bottom: i64,
    },
}

impl CropMode {
    /// The discriminant the wire form carries: the variants number zero
    /// through three in declaration order.
    pub open spec fn tag(self) -> u64 {
        match self {
            CropMode::NoCrop => 0,
            CropMode::Manual { .. } => 1,
            CropMode::ToWindow { .. } => 2,
            CropMode::ToWindowAndManual { .. } => 3,
        }
    }

    /// The fields this crop mode contributes, tag first, then exactly
    /// the chosen variant's fields. The rectangle serializes under
    /// compound names, not its own attribute names, and the name set
    /// differs between a plain manual crop and the manual portion of a
    /// window crop.
    pub open spec fn wire_fields(self) -> DocumentModel {
        match self {
            CropMode::NoCrop => seq![
                ("crop_mode"@, ValueModel::Scalar(ScalarModel::UInt(self.tag()))),
            ],
            CropMode::Manual { left, top, right, bottom } => seq![
                ("crop_mode"@, ValueModel::Scalar(ScalarModel::UInt(self.tag()))),
                ("manual.origin.x"@, ValueModel::Scalar(ScalarModel::Int(left))),
                ("manual.origin.y"@, ValueModel::Scalar(ScalarModel::Int(top))),
                ("manual.size.width"@, ValueModel::Scalar(ScalarModel::Int(right))),
                ("manual.size.height"@, ValueModel::Scalar(ScalarModel::Int(bottom))),
            ],
            CropMode::ToWindow { owner_name, window_name, window, show_empty_names } => seq![
                ("crop_mode"@, ValueModel::Scalar(ScalarModel::UInt(self.tag()))),
                ("owner_name"@, ValueModel::Scalar(ScalarModel::Text(owner_name@))),
                ("window_name"@, ValueModel::Scalar(ScalarModel::Text(window_name@))),
                ("window"@, ValueModel::Scalar(ScalarModel::UInt(window as u64))),
                ("show_empty_names"@, ValueModel::Scalar(ScalarModel::Bool(show_empty_names))),
            ],
            CropMode::ToWindowAndManual {
                owner_name,
                window_name,
                window,
                show_empty_names,
                left,
                top,
                right,
                bottom,
            } => seq![
                ("crop_mode"@, ValueModel::Scalar(ScalarModel::UInt(self.tag()))),
                ("owner_name"@, ValueModel::Scalar(ScalarModel::Text(owner_name@))),
                ("window_name"@, ValueModel::Scalar(ScalarModel::Text(window_name@))),
                ("window"@, ValueModel::Scalar(ScalarModel::UInt(window as u64))),
                ("show_empty_names"@, ValueModel::Scalar(ScalarModel::Bool(show_empty_names))),
                ("window.origin.x"@, ValueModel::Scalar(ScalarModel::Int(left))),
                ("window.origin.y"@, ValueModel::Scalar(ScalarModel::Int(top))),
                ("window.size.width"@, ValueModel::Scalar(ScalarModel::Int(right))),
                ("window.size.height"@, ValueModel::Scalar(ScalarModel::Int(bottom))),
            ],
        }
    }

    /// Appends this crop mode's fields to the enclosing document: they
    /// are emitted as direct siblings of the document's own fields, not
    /// as a nested object.
    pub fn append_fields(&self, d: &mut Document)
        ensures
            final(d)@ == old(d)@ + self.wire_fields(),
    {
        match self {
            CropMode::NoCrop => {
                d.push_uint("crop_mode", 0);
            },
            CropMode::Manual { left, top, right, bottom } => {
                d.push_uint("crop_mode", 1);
                d.push_int("manual.origin.x", *left);
                d.push_int("manual.origin.y", *top);
                d.push_int("manual.size.width", *right);
                d.push_int("manual.size.height", *bottom);
            },
            CropMode::ToWindow { owner_name, window_name, window, show_empty_names } => {
                d.push_uint("crop_mode", 2);
                d.push_text("owner_name", owner_name.as_str());
                d.push_text("window_name", window_name.as_str());
                d.push_uint("window", *window as u64);
                d.push_bool("show_empty_names", *show_empty_names);
            },
            CropMode::ToWindowAndManual {
                owner_name,
                window_name,
                window,
                show_empty_names,
                left,
                top,
                right,
                bottom,
            } => {
                d.push_uint("crop_mode", 3);
                d.push_text("owner_name", owner_name.as_str());
                d.push_text("window_name", window_name.as_str());
                d.push_uint("window", *window as u64);
                d.push_bool("show_empty_names", *show_empty_names);
                d.push_int("window.origin.x", *left);
                d.push_int("window.origin.y", *top);
                d.push_int("window.size.width", *right);
                d.push_int("window.size.height", *bottom);
            },
        }
        proof {
            assert(d@ =~~= old(d)@ + self.wire_fields());
        }
    }
}

/// Settings for capturing a whole display.
pub struct DisplayCapture {
    /// Index of the display to capture.
    pub display: u8,
    pub show_cursor: bool,
    /// How the captured image is cropped; its fields flatten into this
    /// document next to `display` and `show_cursor`.
    pub crop_mode: CropMode,
}

impl ToDocument for DisplayCapture {
    open spec fn wf(&self) -> bool {
        true
    }

    open spec fn wire_model(&self) -> DocumentModel {
        seq![
            ("display"@, ValueModel::Scalar(ScalarModel::UInt(self.display as u64))),
            ("show_cursor"@, ValueModel::Scalar(ScalarModel::Bool(self.show_cursor))),
        ] + self.crop_mode.wire_fields()
    }

    fn to_document(&self) -> (r: Document) {
        let mut d = Document::new();
        d.push_uint("display", self.display as u64);
        d.push_bool("show_cursor", self.show_cursor);
        self.crop_mode.append_fields(&mut d);
        proof {
            assert(d@ =~~= self.wire_model());
        }
        d
    }
}

/// Settings for capturing a single window.
pub struct WindowCapture {
    pub owner_name: String,
    pub window_name: String,
    pub window: u16,
    /// Show windows with empty names.
    pub show_empty_names: bool,
    /// Show the window's shadow.
    pub show_shadow: bool,
}

impl Default for WindowCapture {
    /// The tool's factory defaults: no window chosen, nothing shown.
    fn default() -> (r: WindowCapture)
        ensures
            r.owner_name@ == ""@,
            r.window_name@ == ""@,
            r.window == 0,
            !r.show_empty_names,
            !r.show_shadow,
    {
        WindowCapture {
            owner_name: String::from_str(""),
            window_name: String::from_str(""),
            window: 0,
            show_empty_names: false,
            show_shadow: false,
        }
    }
}

impl ToDocument for WindowCapture {
    open spec fn wf(&self) -> bool {
        true
    }

    open spec fn wire_model(&self) -> DocumentModel {
        seq![
            ("owner_name"@, ValueModel::Scalar(ScalarModel::Text(self.owner_name@))),
            ("window_name"@, ValueModel::Scalar(ScalarModel::Text(self.window_name@))),
            ("window"@, ValueModel::Scalar(ScalarModel::UInt(self.window as u64))),
            ("show_empty_names"@, ValueModel::Scalar(ScalarModel::Bool(self.show_empty_names))),
            ("show_shadow"@, ValueModel::Scalar(ScalarModel::Bool(self.show_shadow))),
        ]
    }

    fn to_document(&self) -> (r: Document) {
        let mut d = Document::new();
        d.push_text("owner_name", self.owner_name.as_str());
        d.push_text("window_name", self.window_name.as_str());
        d.push_uint("window", self.window as u64);
        d.push_bool("show_empty_names", self.show_empty_names);
        d.push_bool("show_shadow", self.show_shadow);
        proof {
            assert(d@ =~~= self.wire_model());
        }
        d
    }
}

/// A color space choice, with the wire codes the tool expects; the
/// negative code is the automatic sentinel.
pub enum ColorSpace {
    Auto,
    Rec601,
    Rec709,
}

impl ColorSpace {
    /// The small-integer wire code of this choice.
    pub open spec fn code(self) -> i64 {
        match self {
            ColorSpace::Auto => -1i64,
            ColorSpace::Rec601 => 1i64,
            ColorSpace::Rec709 => 2i64,
        }
    }

    pub fn wire_code(&self) -> (r: i64)
        ensures
            r == self.code(),
    {
        match self {
            ColorSpace::Auto => -1,
            ColorSpace::Rec601 => 1,
            ColorSpace::Rec709 => 2,
        }
    }
}

/// A video range choice, with the wire codes the tool expects; the
/// negative code is the automatic sentinel.
pub enum VideoRange {
    Auto,
    Partial,
    Full,
}

impl VideoRange {
    /// The small-integer wire code of this choice.
    pub open spec fn code(self) -> i64 {
        match self {
            VideoRange::Auto => -1i64,
            VideoRange::Partial => 1i64,
            VideoRange::Full => 2i64,
        }
    }

    pub fn wire_code(&self) -> (r: i64)
        ensures
            r == self.code(),
    {
        match self {
            VideoRange::Auto => -1,
            VideoRange::Partial => 1,
            VideoRange::Full => 2,
        }
    }
}

/// A frame rate as a rational pair, serialized as a nested record.
pub struct FrameRate {
    pub numerator: u64,
    pub denominator: u64,
}

impl FrameRate {
    /// The nested record this pair serializes to.
    pub open spec fn record_model(&self) -> RecordModel {
        seq![
            ("numerator"@, ScalarModel::UInt(self.numerator)),
            ("denominator"@, ScalarModel::UInt(self.denominator)),
        ]
    }

    /// Serializes the pair into its nested record.
    pub fn to_record(&self) -> (r: Record)
        ensures
            r@ == self.record_model(),
    {
        let mut r = Record::new();
        r.push_uint("numerator", self.numerator);
        r.push_uint("denominator", self.denominator);
        proof {
            assert(r@ =~~= self.record_model());
        }
        r
    }
}

/// A width and height pair. On the wire it is not a nested record: it is
/// embedded as a string holding its own serialized JSON document, which a
/// consumer parses independently.
pub struct Resolution {
    pub width: u32,
    pub height: u32,
}

impl Resolution {
    /// The characters of the embedded JSON document.
    pub open spec fn json_model(&self) -> Seq<char> {
        "{\"width\":"@ + dec_rep(self.width as int) + ",\"height\":"@ + dec_rep(
            self.height as int,
        ) + "}"@
    }

    /// Serializes the pair as its own one-level JSON document, the inner
    /// half of the serialization-within-serialization.
    pub fn to_json_string(&self) -> (r: String)
        ensures
            r@ == self.json_model(),
    {
        let mut out = String::from_str("{\"width\":");
        append_dec_u32(&mut out, self.width);
        out.append(",\"height\":");
        append_dec_u32(&mut out, self.height);
        out.append("}");
        proof {
            assert(out@ =~= self.json_model());
        }
        out
    }
}

/// Settings for an AV capture device.
pub struct AvCaptureInput {
    pub buffering: bool,
    pub color_space: ColorSpace,
    pub device: String,
    pub device_name: String,
    pub frame_rate: FrameRate,
    pub input_format: u32,
    /// Embedded as a JSON string, not as a nested record.
    pub resolution: Resolution,
    pub use_preset: bool,
}

impl ToDocument for AvCaptureInput {
    open spec fn wf(&self) -> bool {
        true
    }

    open spec fn wire_model(&self) -> DocumentModel {
        seq![
            ("buffering"@, ValueModel::Scalar(ScalarModel::Bool(self.buffering))),
            ("color_space"@, ValueModel::Scalar(ScalarModel::Int(self.color_space.code()))),
            ("device"@, ValueModel::Scalar(ScalarModel::Text(self.device@))),
            ("device_name"@, ValueModel::Scalar(ScalarModel::Text(self.device_name@))),
            ("frame_rate"@, ValueModel::Record(self.frame_rate.record_model())),
            ("input_format"@, ValueModel::Scalar(ScalarModel::UInt(self.input_format as u64))),
            ("resolution"@, ValueModel::Scalar(ScalarModel::Text(self.resolution.json_model()))),
            ("use_preset"@, ValueModel::Scalar(ScalarModel::Bool(self.use_preset))),
        ]
    }

    fn to_document(&self) -> (r: Document) {
        let mut d = Document::new();
        d.push_bool("buffering", self.buffering);
        d.push_int("color_space", self.color_space.wire_code());
        d.push_text("device", self.device.as_str());
        d.push_text("device_name", self.device_name.as_str());
        d.push_record("frame_rate", self.frame_rate.to_record());
        d.push_uint("input_format", self.input_format as u64);
        d.push_string("resolution", self.resolution.to_json_string());
        d.push_bool("use_preset", self.use_preset);
        proof {
            assert(d@ =~~= self.wire_model());
        }
        d
    }
}

} // verus!
