use encodetalker::persist::Persistence;
use encodetalker::deps::{BinarySourceSettings, DependencyDetector, DependencyManager, DependencyStatus};
use encodetalker::job::{AudioMode, EncoderType, EncodingConfig};
use encodetalker::paths::{AppPaths, PathsConfig};
use encodetalker::pipeline::{audio_args, decode_args, encoder_args, mux_args, sibling_path};

fn paths() -> AppPaths {
    let config = PathsConfig { data_dir: Some("/data".to_string()), deps_dir: None, socket_path: None };
    AppPaths::from_config(Some(config), None).unwrap()
}

#[test]
fn missing_lists_absent_tools_in_order() {
    let s = DependencyStatus { ffmpeg: true, ffprobe: false, svt_av1: true, aomenc: false };
    assert!(!s.all_present());
    assert_eq!(s.missing(), vec!["ffprobe", "aomenc"]);
    let all = DependencyStatus { ffmpeg: true, ffprobe: true, svt_av1: true, aomenc: true };
    assert!(all.all_present());
    assert!(all.missing().is_empty());
}

#[test]
fn detector_builds_status_in_order() {
    let s = DependencyDetector::status_from(&vec![true, true, false, true]);
    assert_eq!(s, DependencyStatus { ffmpeg: true, ffprobe: true, svt_av1: false, aomenc: true });
    assert_eq!(DependencyDetector::required_binaries(), vec!["ffmpeg", "ffprobe", "SvtAv1EncApp", "aomenc"]);
    assert_eq!(DependencyDetector::new("/d/bin".to_string()).binary_path("aomenc"), "/d/bin/aomenc");
}

#[test]
fn binary_path_follows_settings() {
    let manager = DependencyManager::new(paths(), BinarySourceSettings::default());
    assert!(manager.uses_system_binary("ffmpeg"));
    assert!(!manager.uses_system_binary("aomenc"));
    assert_eq!(manager.get_binary_path("ffmpeg", Some("/usr/bin/ffmpeg".to_string()), true), "/usr/bin/ffmpeg");
    assert_eq!(manager.get_binary_path("ffmpeg", None, false), "/data/deps/bin/ffmpeg");
    assert_eq!(manager.get_binary_path("aomenc", Some("/usr/bin/aomenc".to_string()), true), "/data/deps/bin/aomenc");
    assert_eq!(manager.get_binary_path("aomenc", Some("/usr/bin/aomenc".to_string()), false), "/usr/bin/aomenc");
    assert_eq!(manager.get_binary_path("aomenc", None, false), "/data/deps/bin/aomenc");
}

#[test]
fn svt_av1_arguments() {
    let mut config = EncodingConfig::default();
    config.encoder_params.threads = Some(8);
    config.encoder_params.extra_params = vec!["--tune".to_string(), "3".to_string()];
    let args = encoder_args(&config, "/tmp/x.ivf");
    assert_eq!(
        args,
        vec!["-i", "stdin", "--crf", "30", "--preset", "6", "--lp", "8", "--progress", "2", "-b", "/tmp/x.ivf", "--tune", "3"]
    );
}

#[test]
fn aom_arguments() {
    let mut config = EncodingConfig::default();
    config.encoder = EncoderType::Aom;
    config.encoder_params.crf = 28;
    config.encoder_params.preset = 4;
    let args = encoder_args(&config, "out.ivf");
    assert_eq!(args, vec!["-", "--cq-level", "28", "--cpu-used", "4", "--end-usage=q", "--ivf", "-o", "out.ivf"]);
}

#[test]
fn decoder_arguments() {
    let args = decode_args("in.mkv");
    assert_eq!(args[4], "in.mkv");
    assert_eq!(args.len(), 12);
    assert_eq!(args[6], "yuv4mpegpipe");
}

#[test]
fn audio_arguments_by_mode() {
    let mut config = EncodingConfig::default();
    assert_eq!(
        audio_args(&config, "in.mkv", "a.opus"),
        vec!["-i", "in.mkv", "-vn", "-c:a", "libopus", "-b:a", "128k", "-map", "0:a", "a.opus"]
    );
    config.audio_mode = AudioMode::Copy;
    config.audio_streams = Some(vec![0, 2]);
    assert_eq!(
        audio_args(&config, "in.mkv", "a.mka"),
        vec!["-i", "in.mkv", "-vn", "-c:a", "copy", "-map", "0:a:0", "-map", "0:a:2", "a.mka"]
    );
    config.audio_mode = AudioMode::Custom { codec: "aac".to_string(), bitrate: 192 };
    assert_eq!(
        audio_args(&config, "in.mkv", "a.m4a"),
        vec!["-i", "in.mkv", "-vn", "-c:a", "aac", "-b:a", "192k", "a.m4a"]
    );
}

#[test]
fn mux_arguments_with_and_without_subtitles() {
    let config = EncodingConfig::default();
    assert_eq!(
        mux_args(&config, "v.ivf", "a.opus", "in.mkv", false, "out.mkv"),
        vec!["-y", "-i", "v.ivf", "-i", "a.opus", "-map", "0:v:0", "-map", "1:a:0", "-c:v", "copy", "-c:a", "copy", "out.mkv"]
    );
    assert_eq!(
        mux_args(&config, "v.ivf", "a.opus", "in.mkv", true, "out.mkv"),
        vec![
            "-y", "-i", "v.ivf", "-i", "a.opus", "-i", "in.mkv", "-map", "0:v:0", "-map", "1:a:0", "-map", "2:s?",
            "-c:v", "copy", "-c:a", "copy", "-c:s", "copy", "out.mkv"
        ]
    );
    let mut picked = EncodingConfig::default();
    picked.subtitle_streams = Some(vec![1]);
    let args = mux_args(&picked, "v.ivf", "a.opus", "in.mkv", true, "out.mkv");
    assert!(args.contains(&"2:s:1".to_string()));
}

#[test]
fn temporary_files_sit_beside_output() {
    assert_eq!(sibling_path("/videos/out.mkv", "tmp.ivf"), "/videos/tmp.ivf");
    assert_eq!(sibling_path("out.mkv", "tmp.ivf"), "tmp.ivf");
    assert_eq!(sibling_path("/out.mkv", "tmp.ivf"), "/tmp.ivf");
}

#[test]
fn snapshot_temp_file_is_a_sibling() {
    assert_eq!(Persistence::new("/data/state.json".to_string()).temp_file(), "/data/state.tmp");
    assert_eq!(Persistence::new("/data/state".to_string()).temp_file(), "/data/state.tmp");
}
