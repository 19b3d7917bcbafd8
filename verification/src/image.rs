//! The still-image source.
use crate::document::{Document, DocumentModel, ScalarModel, ToDocument, ValueModel};
use vstd::prelude::*;

verus! {

/// Settings for an image source.
pub struct ImageSource {
    /// The image file to show.
    pub file: String,
    /// Unload the image when the source is not visible.
    pub unload: bool,
}

impl Default for ImageSource {
    /// The tool's factory defaults: no file, kept loaded.
    fn default() -> (r: ImageSource)
        ensures
            r.file@ == ""@,
            !r.unload,
    {
        ImageSource { file: String::from_str(""), unload: false }
    }
}

impl ToDocument for ImageSource {
    open spec fn wf(&self) -> bool {
        true
    }

    open spec fn wire_model(&self) -> DocumentModel {
        seq![
            ("file"@, ValueModel::Scalar(ScalarModel::Text(self.file@))),
            ("unload"@, ValueModel::Scalar(ScalarModel::Bool(self.unload))),
        ]
    }

    fn to_document(&self) -> (r: Document) {
        let mut d = Document::new();
        d.push_text("file", self.file.as_str());
        d.push_bool("unload", self.unload);
        proof {
            assert(d@ =~~= self.wire_model());
        }
        d
    }
}

} // verus!
