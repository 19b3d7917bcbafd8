//! The slideshow source: a playlist of image files with timed
//! transitions, plus the small enumerated choices it is configured with.
use crate::document::{
    Document, DocumentModel, Record, RecordModel, ScalarModel, ToDocument, ValueModel,
};
use crate::duration::Duration;
use crate::numfmt::{append_dec_u32, dec_rep};
use vstd::prelude::*;

verus! {

/// What the slideshow does while its source is not visible.
#[derive(Clone, Copy)]
pub enum PlaybackBehavior {
    /// Always play even when not visible.
    AlwaysPlay,
    /// Stop when not visible, restart when visible.
    StopRestart,
    /// Pause when not visible, unpause when visible.
    PauseUnpause,
}

impl PlaybackBehavior {
    /// The wire name of this choice.
    pub open spec fn name(self) -> Seq<char> {
        match self {
            PlaybackBehavior::AlwaysPlay => "always_play"@,
            PlaybackBehavior::StopRestart => "stop_restart"@,
            PlaybackBehavior::PauseUnpause => "pause_unpause"@,
        }
    }

    pub fn wire_name(&self) -> (r: &'static str)
        ensures
            r@ == self.name(),
    {
        match self {
            PlaybackBehavior::AlwaysPlay => "always_play",
            PlaybackBehavior::StopRestart => "stop_restart",
            PlaybackBehavior::PauseUnpause => "pause_unpause",
        }
    }
}

/// Whether slides advance on their own or by hotkey.
#[derive(Clone, Copy)]
pub enum SlideMode {
    /// Automatic.
    ModeAuto,
    /// Manual: hotkeys control the slideshow.
    ModeManual,
}

impl SlideMode {
    /// The wire name of this choice.
    pub open spec fn name(self) -> Seq<char> {
        match self {
            SlideMode::ModeAuto => "mode_auto"@,
            SlideMode::ModeManual => "mode_manual"@,
        }
    }

    pub fn wire_name(&self) -> (r: &'static str)
        ensures
            r@ == self.name(),
    {
        match self {
            SlideMode::ModeAuto => "mode_auto",
            SlideMode::ModeManual => "mode_manual",
        }
    }
}

impl Default for SlideMode {
    /// Slides advance on their own by default.
    fn default() -> (r: SlideMode)
        ensures
            r is ModeAuto,
    {
        SlideMode::ModeAuto
    }
}

/// The visual transition between slides.
pub enum Transition {
    Cut,
    Fade,
    Swipe,
    Slide,
}

impl Transition {
    /// The wire name of this choice.
    pub open spec fn name(self) -> Seq<char> {
        match self {
            Transition::Cut => "cut"@,
            Transition::Fade => "fade"@,
            Transition::Swipe => "swipe"@,
            Transition::Slide => "slide"@,
        }
    }

    pub fn wire_name(&self) -> (r: &'static str)
        ensures
            r@ == self.name(),
    {
        match self {
            Transition::Cut => "cut",
            Transition::Fade => "fade",
            Transition::Swipe => "swipe",
            Transition::Slide => "slide",
        }
    }
}

impl Default for Transition {
    /// A fade is the tool's default transition.
    fn default() -> (r: Transition)
        ensures
            r is Fade,
    {
        Transition::Fade
    }
}

/// The bounding size or aspect ratio of the slideshow. The named presets
/// serialize to fixed strings; the two parameterized variants format
/// their integers with a separator that carries meaning: a colon for a
/// ratio, an `x` for an absolute size.
#[derive(Clone, Copy)]
pub enum CustomSize {
    Automatic,
    SixteenToNine,
    SixteenToTen,
    FourToThree,
    OneToOne,
    /// An aspect ratio, rendered `w:h`.
    CustomRatio(u32, u32),
    /// An absolute size, rendered `wxh`.
    CustomSize(u32, u32),
}

impl CustomSize {
    /// The string this choice serializes to.
    pub open spec fn text(self) -> Seq<char> {
        match self {
            CustomSize::Automatic => "Automatic"@,
            CustomSize::SixteenToNine => "16:9"@,
            CustomSize::SixteenToTen => "16:10"@,
            CustomSize::FourToThree => "4:3"@,
            CustomSize::OneToOne => "1:1"@,
            CustomSize::CustomRatio(w, h) => dec_rep(w as int) + ":"@ + dec_rep(h as int),
            CustomSize::CustomSize(w, h) => dec_rep(w as int) + "x"@ + dec_rep(h as int),
        }
    }

    /// Renders the choice as its wire string.
    pub fn to_wire_string(&self) -> (r: String)
        ensures
            r@ == self.text(),
    {
        match self {
            CustomSize::Automatic => String::from_str("Automatic"),
            CustomSize::SixteenToNine => String::from_str("16:9"),
            CustomSize::SixteenToTen => String::from_str("16:10"),
            CustomSize::FourToThree => String::from_str("4:3"),
            CustomSize::OneToOne => String::from_str("1:1"),
            CustomSize::CustomRatio(w, h) => {
                let mut out = String::new();
                append_dec_u32(&mut out, *w);
                out.append(":");
                append_dec_u32(&mut out, *h);
                proof {
                    assert(out@ =~= self.text());
                }
                out
            },
            CustomSize::CustomSize(w, h) => {
                let mut out = String::new();
                append_dec_u32(&mut out, *w);
                out.append("x");
                append_dec_u32(&mut out, *h);
                proof {
                    assert(out@ =~= self.text());
                }
                out
            },
        }
    }
}

impl Default for CustomSize {
    /// The automatic preset.
    fn default() -> (r: CustomSize)
        ensures
            r is Automatic,
    {
        CustomSize::Automatic
    }
}

/// One entry of a slideshow playlist.
pub struct SlideshowFile {
    /// The file the entry refers to.
    pub value: String,
    pub hidden: bool,
    pub selected: bool,
}

impl SlideshowFile {
    /// The record this entry serializes to inside the playlist.
    pub open spec fn record_model(self) -> RecordModel {
        seq![
            ("value"@, ScalarModel::Text(self.value@)),
            ("hidden"@, ScalarModel::Bool(self.hidden)),
            ("selected"@, ScalarModel::Bool(self.selected)),
        ]
    }

    /// Serializes the entry into its record.
    pub fn to_record(&self) -> (r: Record)
        ensures
            r@ == self.record_model(),
    {
        let mut r = Record::new();
        r.push_text("value", self.value.as_str());
        r.push_bool("hidden", self.hidden);
        r.push_bool("selected", self.selected);
        proof {
            assert(r@ =~~= self.record_model());
        }
        r
    }
}

impl Default for SlideshowFile {
    /// An empty, visible, unselected entry.
    fn default() -> (r: SlideshowFile)
        ensures
            r.value@ == ""@,
            !r.hidden,
            !r.selected,
    {
        SlideshowFile { value: String::from_str(""), hidden: false, selected: false }
    }
}

/// Serializes a playlist into the records its entries become, in order.
pub fn files_to_records(files: &Vec<SlideshowFile>) -> (r: Vec<Record>)
    ensures
        r@.map_values(|rec: Record| rec@) == files@.map_values(
            |f: SlideshowFile| f.record_model(),
        ),
{
    let mut out: Vec<Record> = Vec::new();
    let mut i: usize = 0;
    while i < files.len()
        invariant
            i <= files.len(),
            out@.map_values(|rec: Record| rec@) =~~= files@.take(i as int).map_values(
                |f: SlideshowFile| f.record_model(),
            ),
        decreases files.len() - i,
    {
        let rec = files[i].to_record();
        out.push(rec);
        proof {
            assert(files@.take(i as int + 1) =~= files@.take(i as int).push(files@[i as int]));
            assert(files@.take(i as int + 1).map_values(|f: SlideshowFile| f.record_model())
                =~~= files@.take(i as int).map_values(|f: SlideshowFile| f.record_model()).push(
                files@[i as int].record_model(),
            ));
            assert(out@.map_values(|rec: Record| rec@) =~~= files@.take(i as int + 1).map_values(
                |f: SlideshowFile| f.record_model(),
            ));
        }
        i = i + 1;
    }
    proof {
        assert(files@.take(files@.len() as int) =~= files@);
        assert(out@.map_values(|rec: Record| rec@) =~~= files@.map_values(
            |f: SlideshowFile| f.record_model(),
        ));
    }
    out
}

/// Settings for a slideshow source.
pub struct Slideshow {
    pub playback_behavior: PlaybackBehavior,
    pub slide_mode: SlideMode,
    pub transition: Transition,
    /// Time between slides. The tool's documented minimum is 50ms; the
    /// encoder passes smaller values through unchanged.
    pub slide_time: Duration,
    /// Transition speed. The tool's documented minimum is 0ms.
    pub transition_speed: Duration,
    /// Loop the slideshow; serialized under the key `loop`.
    pub loop_: bool,
    /// Hide the source when the slideshow is done.
    pub hide: bool,
    /// Randomize playback order.
    pub randomize: bool,
    /// Bounding size or aspect ratio.
    pub use_custom_size: CustomSize,
    /// The image files to play.
    pub files: Vec<SlideshowFile>,
}

impl ToDocument for Slideshow {
    open spec fn wf(&self) -> bool {
        self.slide_time.wf() && self.transition_speed.wf()
    }

    open spec fn wire_model(&self) -> DocumentModel {
        seq![
            (
                "playback_behavior"@,
                ValueModel::Scalar(ScalarModel::Text(self.playback_behavior.name())),
            ),
            ("slide_mode"@, ValueModel::Scalar(ScalarModel::Text(self.slide_mode.name()))),
            ("transition"@, ValueModel::Scalar(ScalarModel::Text(self.transition.name()))),
            (
                "slide_time"@,
                ValueModel::Scalar(
                    ScalarModel::Int(
                        Duration::millis_trunc(self.slide_time.total_nanos()) as i64,
                    ),
                ),
            ),
            (
                "transition_speed"@,
                ValueModel::Scalar(
                    ScalarModel::Int(
                        Duration::millis_trunc(self.transition_speed.total_nanos()) as i64,
                    ),
                ),
            ),
            ("loop"@, ValueModel::Scalar(ScalarModel::Bool(self.loop_))),
            ("hide"@, ValueModel::Scalar(ScalarModel::Bool(self.hide))),
            ("randomize"@, ValueModel::Scalar(ScalarModel::Bool(self.randomize))),
            (
                "use_custom_size"@,
                ValueModel::Scalar(ScalarModel::Text(self.use_custom_size.text())),
            ),
            (
                "files"@,
                ValueModel::Records(
                    self.files@.map_values(|f: SlideshowFile| f.record_model()),
                ),
            ),
        ]
    }

    fn to_document(&self) -> (r: Document) {
        let mut d = Document::new();
        d.push_text("playback_behavior", self.playback_behavior.wire_name());
        d.push_text("slide_mode", self.slide_mode.wire_name());
        d.push_text("transition", self.transition.wire_name());
        d.push_int("slide_time", self.slide_time.num_milliseconds());
        d.push_int("transition_speed", self.transition_speed.num_milliseconds());
        d.push_bool("loop", self.loop_);
        d.push_bool("hide", self.hide);
        d.push_bool("randomize", self.randomize);
        d.push_string("use_custom_size", self.use_custom_size.to_wire_string());
        d.push_records("files", files_to_records(&self.files));
        proof {
            assert(d@ =~~= self.wire_model());
        }
        d
    }
}

impl Default for Slideshow {
    /// The tool's factory defaults: always play, automatic advance with
    /// a fade, eight seconds a slide, a 700ms transition, looping, with
    /// no files chosen.
    fn default() -> (r: Slideshow)
        ensures
            r.playback_behavior is AlwaysPlay,
            r.slide_mode is ModeAuto,
            r.transition is Fade,
            r.slide_time == (Duration { secs: 8, nanos: 0 }),
            r.transition_speed.total_nanos() == 700i64 * 1_000_000,
            r.transition_speed.wf(),
            r.loop_,
            !r.hide,
            !r.randomize,
            r.use_custom_size is Automatic,
            r.files@.len() == 0,
    {
        Slideshow {
            playback_behavior: PlaybackBehavior::AlwaysPlay,
            slide_mode: SlideMode::default(),
            transition: Transition::default(),
            slide_time: Duration::seconds(8),
            transition_speed: Duration::milliseconds(700),
            loop_: true,
            hide: false,
            randomize: false,
            use_custom_size: CustomSize::default(),
            files: Vec::new(),
        }
    }
}

} // verus!
