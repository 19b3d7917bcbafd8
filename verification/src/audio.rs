//! Captured audio device sources.
use crate::document::{Document, DocumentModel, ScalarModel, ToDocument, ValueModel};
use vstd::prelude::*;

verus! {

/// Settings for capturing an audio input device.
pub struct CoreaudioInputCapture {
    /// Identifier of the device to capture.
    pub device_id: String,
}

impl ToDocument for CoreaudioInputCapture {
    open spec fn wf(&self) -> bool {
        true
    }

    open spec fn wire_model(&self) -> DocumentModel {
        seq![("device_id"@, ValueModel::Scalar(ScalarModel::Text(self.device_id@)))]
    }

    fn to_document(&self) -> (r: Document) {
        let mut d = Document::new();
        d.push_text("device_id", self.device_id.as_str());
        proof {
            assert(d@ =~~= self.wire_model());
        }
        d
    }
}

/// Settings for capturing an audio output device.
pub struct CoreaudioOutputCapture {
    /// Identifier of the device to capture.
    pub device_id: String,
}

impl ToDocument for CoreaudioOutputCapture {
    open spec fn wf(&self) -> bool {
        true
    }

    open spec fn wire_model(&self) -> DocumentModel {
        seq![("device_id"@, ValueModel::Scalar(ScalarModel::Text(self.device_id@)))]
    }

    fn to_document(&self) -> (r: Document) {
        let mut d = Document::new();
        d.push_text("device_id", self.device_id.as_str());
        proof {
            assert(d@ =~~= self.wire_model());
        }
        d
    }
}

} // verus!
