//! The styled text source and its font settings.
use crate::color::{encode_color, Rgba};
use crate::document::{
    Document, DocumentModel, Record, RecordModel, ScalarModel, ToDocument, ValueModel,
};
use crate::flags::{encode_flags, FontFlags};
use vstd::prelude::*;

verus! {

/// Font settings for the text source.
pub struct Font {
    /// Font face.
    pub face: String,
    /// Style flags; packed into one byte on the wire.
    pub flags: FontFlags,
    /// Display size.
    pub size: u32,
    /// Named font style. By convention it agrees with `flags` — bold
    /// flag with style `Bold`, say — but nothing enforces that.
    pub style: String,
}

impl Font {
    /// The nested record this font serializes to.
    pub open spec fn record_model(self) -> RecordModel {
        seq![
            ("face"@, ScalarModel::Text(self.face@)),
            ("flags"@, ScalarModel::UInt(self.flags.bits() as u64)),
            ("size"@, ScalarModel::UInt(self.size as u64)),
            ("style"@, ScalarModel::Text(self.style@)),
        ]
    }

    /// Serializes the font into its nested record.
    pub fn to_record(&self) -> (r: Record)
        ensures
            r@ == self.record_model(),
    {
        let mut r = Record::new();
        r.push_text("face", self.face.as_str());
        r.push_uint("flags", encode_flags(self.flags) as u64);
        r.push_uint("size", self.size as u64);
        r.push_text("style", self.style.as_str());
        proof {
            assert(r@ =~~= self.record_model());
        }
        r
    }
}

impl Default for Font {
    /// The tool's factory defaults: Helvetica at 256, regular style, no
    /// flags.
    fn default() -> (r: Font)
        ensures
            r.face@ == "Helvetica"@,
            r.flags == (FontFlags { bold: false, italic: false, underline: false, strikeout: false }),
            r.size == 256,
            r.style@ == "Regular"@,
    {
        Font {
            face: String::from_str("Helvetica"),
            flags: FontFlags::empty(),
            size: 256,
            style: String::from_str("Regular"),
        }
    }
}

/// Settings for a styled text source.
pub struct TextFt2SourceV2 {
    /// Draw the text with smoothed corners.
    pub antialiasing: bool,
    /// Top color of the text.
    pub color1: Rgba,
    /// Bottom color of the text.
    pub color2: Rgba,
    /// Custom width (seems to have no effect).
    pub custom_width: u32,
    /// Draw a dark blurred shadow behind the text.
    pub drop_shadow: bool,
    /// Settings for the font.
    pub font: Font,
    /// Load the text from `text_file` instead of `text`.
    pub from_file: bool,
    /// Amount of log lines when `log_mode` is set. The tool's documented
    /// minimum is 1.
    pub log_lines: u32,
    /// Log mode.
    pub log_mode: bool,
    /// Draw a black border around the text corners.
    pub outline: bool,
    /// Text to display, when `from_file` is unset.
    pub text: String,
    /// File to load the text from, when `from_file` is set; UTF-8 or
    /// UTF-16 encoded.
    pub text_file: String,
    /// Wrap words within the boundaries of the scene item.
    pub word_wrap: bool,
}

impl ToDocument for TextFt2SourceV2 {
    open spec fn wf(&self) -> bool {
        true
    }

    open spec fn wire_model(&self) -> DocumentModel {
        seq![
            ("antialiasing"@, ValueModel::Scalar(ScalarModel::Bool(self.antialiasing))),
            ("color1"@, ValueModel::Scalar(ScalarModel::UInt(self.color1.encoded() as u64))),
            ("color2"@, ValueModel::Scalar(ScalarModel::UInt(self.color2.encoded() as u64))),
            ("custom_width"@, ValueModel::Scalar(ScalarModel::UInt(self.custom_width as u64))),
            ("drop_shadow"@, ValueModel::Scalar(ScalarModel::Bool(self.drop_shadow))),
            ("font"@, ValueModel::Record(self.font.record_model())),
            ("from_file"@, ValueModel::Scalar(ScalarModel::Bool(self.from_file))),
            ("log_lines"@, ValueModel::Scalar(ScalarModel::UInt(self.log_lines as u64))),
            ("log_mode"@, ValueModel::Scalar(ScalarModel::Bool(self.log_mode))),
            ("outline"@, ValueModel::Scalar(ScalarModel::Bool(self.outline))),
            ("text"@, ValueModel::Scalar(ScalarModel::Text(self.text@))),
            ("text_file"@, ValueModel::Scalar(ScalarModel::Text(self.text_file@))),
            ("word_wrap"@, ValueModel::Scalar(ScalarModel::Bool(self.word_wrap))),
        ]
    }

    fn to_document(&self) -> (r: Document) {
        let mut d = Document::new();
        d.push_bool("antialiasing", self.antialiasing);
        d.push_uint("color1", encode_color(self.color1) as u64);
        d.push_uint("color2", encode_color(self.color2) as u64);
        d.push_uint("custom_width", self.custom_width as u64);
        d.push_bool("drop_shadow", self.drop_shadow);
        d.push_record("font", self.font.to_record());
        d.push_bool("from_file", self.from_file);
        d.push_uint("log_lines", self.log_lines as u64);
        d.push_bool("log_mode", self.log_mode);
        d.push_bool("outline", self.outline);
        d.push_text("text", self.text.as_str());
        d.push_text("text_file", self.text_file.as_str());
        d.push_bool("word_wrap", self.word_wrap);
        proof {
            assert(d@ =~~= self.wire_model());
        }
        d
    }
}

impl Default for TextFt2SourceV2 {
    /// The tool's factory defaults: antialiased white text in the
    /// default font, nothing loaded from a file, no effects.
    fn default() -> (r: TextFt2SourceV2)
        ensures
            r.antialiasing,
            r.color1 == (Rgba { r: 255, g: 255, b: 255, a: 255 }),
            r.color2 == (Rgba { r: 255, g: 255, b: 255, a: 255 }),
            r.custom_width == 0,
            !r.drop_shadow,
            r.font.face@ == "Helvetica"@,
            r.font.flags == (FontFlags {
                bold: false,
                italic: false,
                underline: false,
                strikeout: false,
            }),
            r.font.size == 256,
            r.font.style@ == "Regular"@,
            !r.from_file,
            r.log_lines == 6,
            !r.log_mode,
            !r.outline,
            r.text@ == ""@,
            r.text_file@ == ""@,
            !r.word_wrap,
    {
        TextFt2SourceV2 {
            antialiasing: true,
            color1: Rgba::new(255, 255, 255, 255),
            color2: Rgba::new(255, 255, 255, 255),
            custom_width: 0,
            drop_shadow: false,
            font: Font::default(),
            from_file: false,
            log_lines: 6,
            log_mode: false,
            outline: false,
            text: String::from_str(""),
            text_file: String::from_str(""),
            word_wrap: false,
        }
    }
}

} // verus!
