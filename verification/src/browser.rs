//! The browser overlay source: renders a web page or local file.
use crate::document::{Document, DocumentModel, ScalarModel, ToDocument, ValueModel};
use vstd::prelude::*;

verus! {

/// Settings for a browser source.
pub struct BrowserSource {
    /// Render a local file instead of a remote page.
    pub is_local_file: bool,
    /// The local file to render, when `is_local_file` is set.
    pub local_file: String,
    /// The page to render otherwise.
    pub url: String,
    pub width: u32,
    pub height: u32,
    /// Use a custom frame rate.
    pub fps_custom: bool,
    pub fps: u16,
    /// Let the production tool control the audio.
    pub reroute_audio: bool,
    /// Custom CSS applied to the page.
    pub css: String,
    /// Shut the source down when it is not visible.
    pub shutdown: bool,
    /// Refresh the page when the enclosing scene becomes active.
    pub restart_when_active: bool,
}

impl Default for BrowserSource {
    /// The tool's factory defaults: its demo page at 800 by 600, thirty
    /// frames a second, transparent body, nothing shut down or rerouted.
    fn default() -> (r: BrowserSource)
        ensures
            !r.is_local_file,
            r.local_file@ == ""@,
            r.url@ == "https://obsproject.com/browser-source"@,
            r.width == 800,
            r.height == 600,
            !r.fps_custom,
            r.fps == 30,
            !r.reroute_audio,
            r.css@
                == "body { background-color: rgba(0, 0, 0, 0); margin: 0px auto; overflow: hidden; }"@,
            !r.shutdown,
            !r.restart_when_active,
    {
        BrowserSource {
            is_local_file: false,
            local_file: String::from_str(""),
            url: String::from_str("https://obsproject.com/browser-source"),
            width: 800,
            height: 600,
            fps_custom: false,
            fps: 30,
            reroute_audio: false,
            css: String::from_str(
                "body { background-color: rgba(0, 0, 0, 0); margin: 0px auto; overflow: hidden; }",
            ),
            shutdown: false,
            restart_when_active: false,
        }
    }
}

impl ToDocument for BrowserSource {
    open spec fn wf(&self) -> bool {
        true
    }

    open spec fn wire_model(&self) -> DocumentModel {
        seq![
            ("is_local_file"@, ValueModel::Scalar(ScalarModel::Bool(self.is_local_file))),
            ("local_file"@, ValueModel::Scalar(ScalarModel::Text(self.local_file@))),
            ("url"@, ValueModel::Scalar(ScalarModel::Text(self.url@))),
            ("width"@, ValueModel::Scalar(ScalarModel::UInt(self.width as u64))),
            ("height"@, ValueModel::Scalar(ScalarModel::UInt(self.height as u64))),
            ("fps_custom"@, ValueModel::Scalar(ScalarModel::Bool(self.fps_custom))),
            ("fps"@, ValueModel::Scalar(ScalarModel::UInt(self.fps as u64))),
            ("reroute_audio"@, ValueModel::Scalar(ScalarModel::Bool(self.reroute_audio))),
            ("css"@, ValueModel::Scalar(ScalarModel::Text(self.css@))),
            ("shutdown"@, ValueModel::Scalar(ScalarModel::Bool(self.shutdown))),
            ("restart_when_active"@, ValueModel::Scalar(ScalarModel::Bool(self.restart_when_active))),
        ]
    }

    fn to_document(&self) -> (r: Document) {
        let mut d = Document::new();
        d.push_bool("is_local_file", self.is_local_file);
        d.push_text("local_file", self.local_file.as_str());
        d.push_text("url", self.url.as_str());
        d.push_uint("width", self.width as u64);
        d.push_uint("height", self.height as u64);
        d.push_bool("fps_custom", self.fps_custom);
        d.push_uint("fps", self.fps as u64);
        d.push_bool("reroute_audio", self.reroute_audio);
        d.push_text("css", self.css.as_str());
        d.push_bool("shutdown", self.shutdown);
        d.push_bool("restart_when_active", self.restart_when_active);
        proof {
            assert(d@ =~~= self.wire_model());
        }
        d
    }
}

} // verus!
