//! The solid color source.
use crate::color::{encode_color, Rgba};
use crate::document::{Document, DocumentModel, ScalarModel, ToDocument, ValueModel};
use vstd::prelude::*;

verus! {

/// Settings for a solid color source.
pub struct ColorSourceV3 {
    /// The fill color.
    pub color: Rgba,
    pub width: u32,
    pub height: u32,
}

impl Default for ColorSourceV3 {
    /// The tool's factory defaults: a light gray fill with no fixed size.
    fn default() -> (r: ColorSourceV3)
        ensures
            r.color == (Rgba { r: 209, g: 209, b: 209, a: 255 }),
            r.width == 0,
            r.height == 0,
    {
        ColorSourceV3 { color: Rgba::new(209, 209, 209, 255), width: 0, height: 0 }
    }
}

impl ToDocument for ColorSourceV3 {
    open spec fn wf(&self) -> bool {
        true
    }

    open spec fn wire_model(&self) -> DocumentModel {
        seq![
            ("color"@, ValueModel::Scalar(ScalarModel::UInt(self.color.encoded() as u64))),
            ("width"@, ValueModel::Scalar(ScalarModel::UInt(self.width as u64))),
            ("height"@, ValueModel::Scalar(ScalarModel::UInt(self.height as u64))),
        ]
    }

    fn to_document(&self) -> (r: Document) {
        let mut d = Document::new();
        d.push_uint("color", encode_color(self.color) as u64);
        d.push_uint("width", self.width as u64);
        d.push_uint("height", self.height as u64);
        proof {
            assert(d@ =~~= self.wire_model());
        }
        d
    }
}

} // verus!
