use encodetalker::progress::{frame_number_in, FrameCounter};
use encodetalker::probe::{
    estimate_total_frames, needs_frame_count, parse_frame_rate, resolve_total_frames,
    video_info_from_probe, FrameRate, ProbeError, ProbeStream,
};
use encodetalker::progress::{RecordSplitter, StatsParser};
use encodetalker::stats::EncodingStats;

fn rate_value(f: FrameRate) -> f64 {
    f.num as f64 / f.den as f64
}

#[test]
fn test_parse_frame_rate() {
    assert_eq!(parse_frame_rate("24").map(rate_value), Some(24.0));
    assert_eq!(parse_frame_rate("30").map(rate_value), Some(30.0));
    assert!((rate_value(parse_frame_rate("24000/1001").unwrap()) - 23.976).abs() < 0.001);
}

#[test]
fn ntsc_rate_is_not_truncated() {
    let f = parse_frame_rate("24000/1001").unwrap();
    assert_eq!(f.milli_fps(), 23976);
    assert_ne!(f.milli_fps(), 24000);
}

#[test]
fn bad_frame_rates_are_rejected() {
    assert_eq!(parse_frame_rate("25/0"), None);
    assert_eq!(parse_frame_rate("abc"), None);
    assert_eq!(parse_frame_rate(""), None);
    assert_eq!(parse_frame_rate("1/2/3"), None);
    assert_eq!(parse_frame_rate("29.97").unwrap().milli_fps(), 29970);
}

#[test]
fn test_frame_estimation() {
    let duration_ms = 120_000;
    assert_eq!(estimate_total_frames(duration_ms, parse_frame_rate("24").unwrap()), 2880);
    assert_eq!(estimate_total_frames(duration_ms, parse_frame_rate("23.976").unwrap()), 2878);
    assert_eq!(estimate_total_frames(duration_ms, parse_frame_rate("30000/1001").unwrap()), 3597);
    assert_eq!(estimate_total_frames(120_500, parse_frame_rate("25").unwrap()), 3013);
}

#[test]
fn frame_count_priority() {
    let rate = FrameRate { num: 25, den: 1 };
    assert_eq!(resolve_total_frames(Some(10), Some(20), Some(4000), rate), Some(10));
    assert_eq!(resolve_total_frames(None, Some(20), Some(4000), rate), Some(20));
    assert_eq!(resolve_total_frames(None, None, Some(4000), rate), Some(100));
    assert_eq!(resolve_total_frames(None, None, None, rate), None);
}

#[test]
fn test_parse_ffmpeg_line() {
    let mut parser = StatsParser::new(Some(1000), None);
    parser.parse_line("frame=123");
    parser.parse_line("fps=25.3");
    parser.parse_line("bitrate=1234.5kbits/s");
    parser.parse_line("progress=continue");
    let stats = parser.get_stats();
    assert_eq!(stats.frame, 123);
    assert_eq!(stats.fps_milli as f64 / 1000.0, 25.3);
    assert_eq!(stats.bitrate_milli as f64 / 1000.0, 1234.5);
}

#[test]
fn half_way_progress_and_finite_eta() {
    let mut parser = StatsParser::new(Some(2000), None);
    parser.parse_line("fps=25");
    parser.parse_line("frame=1000");
    let stats = parser.clone_stats();
    assert_eq!(stats.progress_centi as f64 / 100.0, 50.0);
    assert_eq!(stats.eta_ms, Some(40_000));
}

#[test]
fn encoder_status_line_updates_stats() {
    let mut parser = StatsParser::new(Some(2000), None);
    parser.parse_encoder_line("Encoding frame   1000 1234.56 kbps 25.00 fps");
    let stats = parser.clone_stats();
    assert_eq!(stats.frame, 1000);
    assert_eq!(stats.bitrate_milli, 1_234_560);
    assert_eq!(stats.fps_milli, 25_000);
    assert_eq!(stats.progress_centi, 5000);
    assert_eq!(stats.eta_ms, Some(40_000));
}

#[test]
fn unrelated_encoder_line_changes_nothing() {
    let mut parser = StatsParser::new(Some(2000), None);
    parser.parse_encoder_line("Svt[info]: SVT [version]");
    assert_eq!(parser.clone_stats(), EncodingStats::with_totals(Some(2000), None));
}

#[test]
fn out_time_sets_encoded_time_and_progress() {
    let mut parser = StatsParser::new(None, Some(10_000));
    parser.parse_line("out_time=00:00:05.000000");
    let stats = parser.clone_stats();
    assert_eq!(stats.time_encoded_ms, 5000);
    assert_eq!(stats.progress_centi, 5000);
    assert_eq!(stats.eta_ms, None);
}

#[test]
fn progress_without_totals_stays_zero() {
    let mut s = EncodingStats::default();
    s.frame = 10;
    s.fps_milli = 25_000;
    s.update();
    assert_eq!(s.progress_centi, 0);
    assert_eq!(s.eta_ms, None);
}

#[test]
fn eta_absent_without_positive_fps() {
    let mut s = EncodingStats::with_totals(Some(100), None);
    s.frame = 10;
    s.update();
    assert_eq!(s.progress_centi, 1000);
    assert_eq!(s.eta_ms, None);
}

#[test]
fn malformed_values_are_ignored() {
    let mut parser = StatsParser::new(Some(100), None);
    parser.parse_line("frame=12x");
    parser.parse_line("fps=1.2.3");
    parser.parse_line("speed=2x");
    let stats = parser.clone_stats();
    assert_eq!(stats.frame, 0);
    assert_eq!(stats.fps_milli, 0);
    assert_eq!(stats.progress_centi, 0);
}

#[test]
fn carriage_return_splits_like_newline() {
    let mut splitter = RecordSplitter::new();
    let mut records: Vec<Vec<u8>> = Vec::new();
    for b in b"one\rtwo\n\r\nthree\r".iter() {
        if let Some(r) = splitter.push_byte(*b) {
            records.push(r);
        }
    }
    assert_eq!(records, vec![b"one".to_vec(), b"two".to_vec(), b"three".to_vec()]);
}

fn stream(index: u32, kind: &str, codec: &str) -> ProbeStream {
    ProbeStream {
        index,
        codec_type: kind.to_string(),
        codec_name: codec.to_string(),
        width: None,
        height: None,
        r_frame_rate: None,
        nb_frames: None,
        language: None,
        title: None,
    }
}

#[test]
fn probe_report_is_read() {
    let mut video = stream(0, "video", "h264");
    video.width = Some(1920);
    video.height = Some(1080);
    video.r_frame_rate = Some("24000/1001".to_string());
    let mut audio = stream(1, "audio", "aac");
    audio.language = Some("fre".to_string());
    let subs = stream(2, "subtitle", "subrip");
    let streams = vec![video, audio, subs];
    assert!(needs_frame_count(&streams));
    let info = video_info_from_probe(&Some("120.000000".to_string()), &streams, None).unwrap();
    assert_eq!(info.width, 1920);
    assert_eq!(info.height, 1080);
    assert_eq!(info.duration_ms, Some(120_000));
    assert_eq!(info.total_frames, Some(2878));
    assert_eq!(info.audio_streams.len(), 1);
    assert_eq!(info.audio_streams[0].index, 1);
    assert_eq!(info.audio_streams[0].language.as_deref(), Some("fre"));
    assert_eq!(info.subtitle_streams.len(), 1);
    assert_eq!(info.subtitle_streams[0].codec, "subrip");
}

#[test]
fn probe_prefers_stated_frame_count() {
    let mut video = stream(0, "video", "hevc");
    video.width = Some(640);
    video.height = Some(360);
    video.nb_frames = Some("1234".to_string());
    let streams = vec![video];
    assert!(!needs_frame_count(&streams));
    let info = video_info_from_probe(&None, &streams, Some(99)).unwrap();
    assert_eq!(info.total_frames, Some(1234));
    assert_eq!(info.frame_rate, FrameRate { num: 30, den: 1 });
}

#[test]
fn probe_without_video_fails() {
    let streams = vec![stream(0, "audio", "aac")];
    assert_eq!(video_info_from_probe(&None, &streams, None).err(), Some(ProbeError::NoVideoStream));
    let mut video = stream(0, "video", "h264");
    video.width = Some(10);
    assert_eq!(video_info_from_probe(&None, &vec![video], None).err(), Some(ProbeError::MissingHeight));
}

#[test]
fn frame_counter_keeps_last_number() {
    assert_eq!(frame_number_in("frame=  240 fps=0.0 q=-1.0 size=N/A"), Some(240));
    assert_eq!(frame_number_in("no counter here"), None);
    let mut c = FrameCounter::new();
    c.observe_line("frame=   10 fps=0.0");
    c.observe_line("Stream mapping:");
    c.observe_line("frame= 2878 fps=900");
    assert_eq!(c.total(), 2878);
}

#[test]
fn probe_without_size_needs_no_count() {
    let video = stream(0, "video", "h264");
    assert!(!needs_frame_count(&vec![video]));
}
