use ingest::config::ConfigSnapshot;
use ingest::dec::Dec;
use ingest::filter::{audio_filter, build_filter, overlay, server_args, video_base};

fn base_config() -> ConfigSnapshot {
    ConfigSnapshot {
        fps: Dec::new(25, 0),
        width: 1024,
        height: 576,
        aspect: Dec::new(1778, 3),
        add_logo: false,
        logo: String::from("logo.png"),
        logo_opacity: Dec::new(7, 1),
        logo_filter: String::from("overlay=W-w-12:12"),
        add_loudnorm: false,
        loud_i: Dec::new(-23, 0),
        loud_tp: Dec::new(-2, 0),
        loud_lra: Dec::new(7, 0),
        volume: Dec::new(1, 0),
        input_cmd: vec![
            String::from("-f"),
            String::from("live_flv"),
            String::from("-listen"),
            String::from("1"),
            String::from("-i"),
            String::from("rtmp://127.0.0.1:1936/live/stream"),
        ],
        settings: vec![
            String::from("-c:v"),
            String::from("libx264"),
            String::from("-f"),
            String::from("mpegts"),
            String::from("pipe:1"),
        ],
    }
}

#[test]
fn video_base_is_exact() {
    let config = base_config();
    assert_eq!(
        video_base(&config),
        "[0:v]fps=25,scale=1024:576,setdar=dar=1.778,fade=in:st=0:d=0.5"
    );
}

#[test]
fn overlay_disabled_is_empty() {
    let config = base_config();
    assert_eq!(overlay(&config, true), "");
    assert_eq!(overlay(&config, false), "");
}

#[test]
fn overlay_missing_file_is_empty() {
    let mut config = base_config();
    config.add_logo = true;
    assert_eq!(overlay(&config, false), "");
}

#[test]
fn overlay_enabled_is_exact() {
    let mut config = base_config();
    config.add_logo = true;
    assert_eq!(
        overlay(&config, true),
        "[v];movie=logo.png,loop=loop=-1:size=1:start=0,format=rgba,colorchannelmixer=aa=0.7\
         [l];[v][l]overlay=W-w-12:12:shortest=1"
    );
}

#[test]
fn overlay_clause_sits_before_video_pad() {
    let mut config = base_config();
    config.add_logo = true;
    let with_logo = build_filter(&config, true);
    let clause = overlay(&config, true);
    let pad_at = with_logo.find("[vout1]").unwrap();
    let clause_at = with_logo.find(clause.as_str()).unwrap();
    assert_eq!(clause_at + clause.len(), pad_at);
    assert_eq!(with_logo.matches("movie=").count(), 1);
    let without_logo = build_filter(&config, false);
    assert_eq!(without_logo.matches("movie=").count(), 0);
}

#[test]
fn audio_defaults_are_plain() {
    let config = base_config();
    assert_eq!(audio_filter(&config), ";[0:a]afade=in:st=0:d=0.5[aout1]");
}

#[test]
fn loudnorm_clause_is_exact() {
    let mut config = base_config();
    config.add_loudnorm = true;
    assert_eq!(
        audio_filter(&config),
        ";[0:a]afade=in:st=0:d=0.5,loudnorm=I=-23:TP=-2:LRA=7[aout1]"
    );
}

#[test]
fn volume_clause_only_off_unity() {
    let mut config = base_config();
    config.volume = Dec::new(5, 1);
    assert_eq!(
        audio_filter(&config),
        ";[0:a]afade=in:st=0:d=0.5,volume=0.5[aout1]"
    );
    config.volume = Dec::new(1, 0);
    assert_eq!(audio_filter(&config), ";[0:a]afade=in:st=0:d=0.5[aout1]");
    config.volume = Dec::new(10001, 4);
    assert_eq!(
        audio_filter(&config),
        ";[0:a]afade=in:st=0:d=0.5,volume=1.0001[aout1]"
    );
}

#[test]
fn full_filter_is_exact() {
    let config = base_config();
    assert_eq!(
        build_filter(&config, false),
        "[0:v]fps=25,scale=1024:576,setdar=dar=1.778,fade=in:st=0:d=0.5[vout1]\
         ;[0:a]afade=in:st=0:d=0.5[aout1]"
    );
}

#[test]
fn server_args_are_exact() {
    let config = base_config();
    let args = server_args("info", &config, false);
    let expected: Vec<String> = [
        "-hide_banner",
        "-nostats",
        "-v",
        "info",
        "-f",
        "live_flv",
        "-listen",
        "1",
        "-i",
        "rtmp://127.0.0.1:1936/live/stream",
        "-filter_complex",
        "[0:v]fps=25,scale=1024:576,setdar=dar=1.778,fade=in:st=0:d=0.5[vout1]\
         ;[0:a]afade=in:st=0:d=0.5[aout1]",
        "-map",
        "[vout1]",
        "-map",
        "[aout1]",
        "-c:v",
        "libx264",
        "-f",
        "mpegts",
        "pipe:1",
    ]
    .iter()
    .map(|s| String::from(*s))
    .collect();
    assert_eq!(args, expected);
}

#[test]
fn repeated_builds_are_byte_identical() {
    let config = base_config();
    let first = server_args("info", &config, true);
    let second = server_args("info", &config, true);
    let third = server_args("info", &config, true);
    assert_eq!(first, second);
    assert_eq!(second, third);
}
