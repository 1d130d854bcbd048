//! The filter-graph and command-line builders.
//!
//! Pure functions of the configuration snapshot: they compute the
//! filter-graph expression handed to the external encoder and the full
//! argument vector of the launch command. Each builder's contract states
//! the exact character sequence produced.

use vstd::prelude::*;
use vstd::string::StringExecFns;

use crate::config::{ConfigSnapshot, ConfigView};
use crate::dec::{dec_text, int_text};

verus! {

/// The overlay compositing clause of the video stage: empty unless an
/// overlay is configured and its image file is present.
pub open spec fn overlay_text(c: ConfigView, logo_present: bool) -> Seq<char> {
    if c.add_logo && logo_present {
        ("[v];movie=")@ + c.logo + (",loop=loop=-1:size=1:start=0,format=rgba,colorchannelmixer=aa=")@
            + dec_text(c.logo_opacity) + ("[l];[v][l]")@ + c.logo_filter + (":shortest=1")@
    } else {
        Seq::<char>::empty()
    }
}

/// The unconditional part of the video stage: frame-rate normalization,
/// scaling, aspect-ratio tagging and the fixed fade-in.
pub open spec fn video_base_text(c: ConfigView) -> Seq<char> {
    ("[0:v]fps=")@ + dec_text(c.fps) + (",scale=")@ + int_text(c.width as int) + (":")@ + int_text(
        c.height as int,
    ) + (",setdar=dar=")@ + dec_text(c.aspect) + (",fade=in:st=0:d=0.5")@
}

/// The loudness-normalization clause, present only when configured.
pub open spec fn loudnorm_text(c: ConfigView) -> Seq<char> {
    if c.add_loudnorm {
        (",loudnorm=I=")@ + dec_text(c.loud_i) + (":TP=")@ + dec_text(c.loud_tp) + (":LRA=")@
            + dec_text(c.loud_lra)
    } else {
        Seq::<char>::empty()
    }
}

/// The volume clause, present exactly when the multiplier is not unity.
pub open spec fn volume_text(c: ConfigView) -> Seq<char> {
    if !c.volume.spec_is_unity() {
        (",volume=")@ + dec_text(c.volume)
    } else {
        Seq::<char>::empty()
    }
}

/// The audio stage: fixed fade-in, then the optional loudness and volume
/// clauses, closed by the audio output pad.
pub open spec fn audio_text(c: ConfigView) -> Seq<char> {
    (";[0:a]afade=in:st=0:d=0.5")@ + loudnorm_text(c) + volume_text(c) + ("[aout1]")@
}

/// The complete filter-graph expression: the video stage (base, then the
/// optional overlay clause, then the video output pad), then the audio
/// stage.
pub open spec fn filter_text(c: ConfigView, logo_present: bool) -> Seq<char> {
    video_base_text(c) + overlay_text(c, logo_present) + ("[vout1]")@ + audio_text(c)
}

/// The full launch argument vector: fixed diagnostic and verbosity flags,
/// the configured input tokens, the filter graph with its pad mappings,
/// and the configured output tokens.
pub open spec fn server_args_text(log_format: Seq<char>, c: ConfigView, logo_present: bool) -> Seq<
    Seq<char>,
> {
    seq![("-hide_banner")@, ("-nostats")@, ("-v")@, log_format] + c.input_cmd + seq![
        ("-filter_complex")@,
        filter_text(c, logo_present),
        ("-map")@,
        ("[vout1]")@,
        ("-map")@,
        ("[aout1]")@,
    ] + c.settings
}

/// Overlay clause of the video stage.
///
/// `logo_present` reports whether the configured overlay image file
/// exists; the caller performs that check, since it reads the file
/// system.
pub fn overlay(config: &ConfigSnapshot, logo_present: bool) -> (s: String)
    requires
        config@.wf(),
    ensures
        s@ == overlay_text(config@, logo_present),
{
    let mut chain = String::new();
    if config.add_logo && logo_present {
        chain.append("[v];movie=");
        chain.append(config.logo.as_str());
        chain.append(",loop=loop=-1:size=1:start=0,format=rgba,colorchannelmixer=aa=");
        chain.append(config.logo_opacity.to_text().as_str());
        chain.append("[l];[v][l]");
        chain.append(config.logo_filter.as_str());
        chain.append(":shortest=1");
        proof {
            assert(chain@ =~= overlay_text(config@, logo_present));
        }
    }
    chain
}

/// Audio stage of the filter graph.
pub fn audio_filter(config: &ConfigSnapshot) -> (s: String)
    requires
        config@.wf(),
    ensures
        s@ == audio_text(config@),
{
    let mut chain = String::from_str(";[0:a]afade=in:st=0:d=0.5");
    if config.add_loudnorm {
        chain.append(",loudnorm=I=");
        chain.append(config.loud_i.to_text().as_str());
        chain.append(":TP=");
        chain.append(config.loud_tp.to_text().as_str());
        chain.append(":LRA=");
        chain.append(config.loud_lra.to_text().as_str());
    }
    if !config.volume.is_unity() {
        chain.append(",volume=");
        chain.append(config.volume.to_text().as_str());
    }
    chain.append("[aout1]");
    proof {
        assert(chain@ =~= audio_text(config@));
    }
    chain
}

/// Unconditional part of the video stage.
pub fn video_base(config: &ConfigSnapshot) -> (s: String)
    requires
        config@.wf(),
    ensures
        s@ == video_base_text(config@),
{
    let mut chain = String::from_str("[0:v]fps=");
    chain.append(config.fps.to_text().as_str());
    chain.append(",scale=");
    chain.append(crate::dec::i64_text(config.width).as_str());
    chain.append(":");
    chain.append(crate::dec::i64_text(config.height).as_str());
    chain.append(",setdar=dar=");
    chain.append(config.aspect.to_text().as_str());
    chain.append(",fade=in:st=0:d=0.5");
    proof {
        assert(chain@ =~= video_base_text(config@));
    }
    chain
}

/// The complete filter-graph expression.
pub fn build_filter(config: &ConfigSnapshot, logo_present: bool) -> (s: String)
    requires
        config@.wf(),
    ensures
        s@ == filter_text(config@, logo_present),
{
    let mut chain = video_base(config);
    chain.append(overlay(config, logo_present).as_str());
    chain.append("[vout1]");
    chain.append(audio_filter(config).as_str());
    proof {
        assert(chain@ =~= filter_text(config@, logo_present));
    }
    chain
}

/// Appends one textual argument.
fn push_arg(args: &mut Vec<String>, s: &str)
    ensures
        final(args).deep_view() == old(args).deep_view() + seq![s@],
{
    args.push(String::from_str(s));
    proof {
        assert(args.deep_view() =~= old(args).deep_view() + seq![s@]);
    }
}

/// Appends a copy of every token of `extra`, in order.
fn push_all(args: &mut Vec<String>, extra: &Vec<String>)
    ensures
        final(args).deep_view() == old(args).deep_view() + extra.deep_view(),
{
    let mut i: usize = 0;
    while i < extra.len()
        invariant
            i <= extra.len(),
            args.deep_view() == old(args).deep_view() + extra.deep_view().take(i as int),
        decreases extra.len() - i,
    {
        push_arg(args, extra[i].as_str());
        proof {
            assert(extra.deep_view()[i as int] == extra@[i as int]@);
            assert(args.deep_view() =~= old(args).deep_view() + extra.deep_view().take(
                i as int + 1,
            ));
        }
        i = i + 1;
    }
    proof {
        assert(args.deep_view() =~= old(args).deep_view() + extra.deep_view());
    }
}

/// The full launch argument vector for one subprocess instance.
pub fn server_args(log_format: &str, config: &ConfigSnapshot, logo_present: bool) -> (args: Vec<
    String,
>)
    requires
        config@.wf(),
    ensures
        args.deep_view() == server_args_text(log_format@, config@, logo_present),
{
    let mut args: Vec<String> = Vec::new();
    push_arg(&mut args, "-hide_banner");
    push_arg(&mut args, "-nostats");
    push_arg(&mut args, "-v");
    push_arg(&mut args, log_format);
    push_all(&mut args, &config.input_cmd);
    push_arg(&mut args, "-filter_complex");
    let filter = build_filter(config, logo_present);
    push_arg(&mut args, filter.as_str());
    push_arg(&mut args, "-map");
    push_arg(&mut args, "[vout1]");
    push_arg(&mut args, "-map");
    push_arg(&mut args, "[aout1]");
    push_all(&mut args, &config.settings);
    proof {
        assert(args.deep_view() =~= server_args_text(log_format@, config@, logo_present));
    }
    args
}

/// With the overlay disabled, or its image absent, the filter graph holds
/// no overlay clause: the video stage is the base stage closed directly
/// by its output pad.
pub proof fn lemma_no_overlay_when_disabled(c: ConfigView, logo_present: bool)
    requires
        !(c.add_logo && logo_present),
    ensures
        overlay_text(c, logo_present) == Seq::<char>::empty(),
        filter_text(c, logo_present) == video_base_text(c) + ("[vout1]")@ + audio_text(c),
{
    assert(filter_text(c, logo_present) =~= video_base_text(c) + ("[vout1]")@ + audio_text(c));
}

/// With the overlay enabled and its image present, the video stage holds
/// exactly one overlay clause, placed between the base stage and the
/// final video output pad, and that clause is non-empty.
pub proof fn lemma_overlay_when_enabled(c: ConfigView, logo_present: bool)
    requires
        c.add_logo && logo_present,
    ensures
        filter_text(c, logo_present) == video_base_text(c) + overlay_text(c, logo_present) + (
        "[vout1]")@ + audio_text(c),
        overlay_text(c, logo_present).len() > 0,
{
    reveal_strlit("[v];movie=");
}

/// The audio stage carries a volume clause exactly when the configured
/// multiplier differs from one.
pub proof fn lemma_volume_clause(c: ConfigView)
    ensures
        audio_text(c) == (";[0:a]afade=in:st=0:d=0.5")@ + loudnorm_text(c) + volume_text(c) + (
        "[aout1]")@,
        c.volume.spec_is_unity() <==> volume_text(c) == Seq::<char>::empty(),
{
    reveal_strlit(",volume=");
}

/// Command construction is a pure function of the configuration: two
/// builds from the same snapshot, verbosity and overlay presence yield
/// byte-identical argument sequences, however many restart cycles lie
/// between them.
pub proof fn lemma_args_reproducible(
    log_format1: Seq<char>,
    log_format2: Seq<char>,
    c1: ConfigView,
    c2: ConfigView,
    logo_present1: bool,
    logo_present2: bool,
)
    requires
        log_format1 == log_format2,
        c1 == c2,
        logo_present1 == logo_present2,
    ensures
        server_args_text(log_format1, c1, logo_present1) == server_args_text(
            log_format2,
            c2,
            logo_present2,
        ),
{
}

} // verus!
