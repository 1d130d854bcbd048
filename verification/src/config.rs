//! The immutable configuration snapshot read by the supervision core.
//!
//! The snapshot is constructed once at startup by the configuration
//! collaborator and is never mutated afterwards. It carries, as plain
//! values, exactly what the core reads: the input and output argument
//! token lists, the video and overlay parameters, and the audio
//! parameters. Numeric parameters are exact decimals (see [`crate::dec`]).

use vstd::prelude::*;

use crate::dec::Dec;

verus! {

/// The mathematical content of a [`ConfigSnapshot`].
pub struct ConfigView {
    pub fps: Dec,
    pub width: i64,
    pub height: i64,
    pub aspect: Dec,
    pub add_logo: bool,
    pub logo: Seq<char>,
    pub logo_opacity: Dec,
    pub logo_filter: Seq<char>,
    pub add_loudnorm: bool,
    pub loud_i: Dec,
    pub loud_tp: Dec,
    pub loud_lra: Dec,
    pub volume: Dec,
    pub input_cmd: Seq<Seq<char>>,
    pub settings: Seq<Seq<char>>,
}

impl ConfigView {
    /// Every decimal parameter is well formed.
    pub open spec fn wf(self) -> bool {
        &&& self.fps.wf()
        &&& self.aspect.wf()
        &&& self.logo_opacity.wf()
        &&& self.loud_i.wf()
        &&& self.loud_tp.wf()
        &&& self.loud_lra.wf()
        &&& self.volume.wf()
    }
}

/// The configuration values the supervision core reads.
pub struct ConfigSnapshot {
    /// Target frame rate of the video stage.
    pub fps: Dec,
    /// Target width, in pixels.
    pub width: i64,
    /// Target height, in pixels.
    pub height: i64,
    /// Display aspect ratio tagged onto the stream.
    pub aspect: Dec,
    /// Whether an overlay image is configured at all.
    pub add_logo: bool,
    /// Path of the overlay image.
    pub logo: String,
    /// Opacity of the overlay image.
    pub logo_opacity: Dec,
    /// Compositing expression for the overlay stage.
    pub logo_filter: String,
    /// Whether loudness normalization is applied.
    pub add_loudnorm: bool,
    /// Loudness-normalization target loudness.
    pub loud_i: Dec,
    /// Loudness-normalization true-peak ceiling.
    pub loud_tp: Dec,
    /// Loudness-normalization loudness range.
    pub loud_lra: Dec,
    /// Audio volume multiplier; a clause is emitted only off unity.
    pub volume: Dec,
    /// Input/listen argument tokens, in order.
    pub input_cmd: Vec<String>,
    /// Output encoding argument tokens, in order.
    pub settings: Vec<String>,
}

impl View for ConfigSnapshot {
    type V = ConfigView;

    open spec fn view(&self) -> ConfigView {
        ConfigView {
            fps: self.fps,
            width: self.width,
            height: self.height,
            aspect: self.aspect,
            add_logo: self.add_logo,
            logo: self.logo@,
            logo_opacity: self.logo_opacity,
            logo_filter: self.logo_filter@,
            add_loudnorm: self.add_loudnorm,
            loud_i: self.loud_i,
            loud_tp: self.loud_tp,
            loud_lra: self.loud_lra,
            volume: self.volume,
            input_cmd: self.input_cmd.deep_view(),
            settings: self.settings.deep_view(),
        }
    }
}

} // verus!
