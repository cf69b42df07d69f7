use vstd::prelude::*;
use vstd::string::*;
use crate::deps::BinarySourceSettings;
use crate::paths::PathsConfig;

verus! {

/// Daemon configuration as read from `config.toml`.
#[derive(Debug, Clone)]
pub struct DaemonConfig {
    pub daemon: DaemonSettings,
    pub encoding: EncodingSettings,
    pub encoder: EncoderSettings,
    pub ui: UiSettings,
    pub paths: PathsConfig,
    pub binaries: BinarySourceSettings,
}

#[derive(Debug, Clone)]
pub struct DaemonSettings {
    pub max_concurrent_jobs: usize,
    pub socket_path: String,
    pub log_level: String,
}

#[derive(Debug, Clone)]
pub struct EncodingSettings {
    pub default_encoder: String,
    pub default_audio_mode: String,
    pub default_audio_bitrate: u32,
    pub output_suffix: String,
    /// Count frames exactly when the container states no count.
    pub precise_frame_count: bool,
}

#[derive(Debug, Clone)]
pub struct EncoderSettings {
    pub svt_av1: SvtAv1Settings,
    pub aom: AomSettings,
}

#[derive(Debug, Clone)]
pub struct SvtAv1Settings {
    pub preset: u32,
    pub crf: u32,
    pub params: Vec<String>,
}

#[derive(Debug, Clone)]
pub struct AomSettings {
    pub cpu_used: u32,
    pub crf: u32,
}

#[derive(Debug, Clone)]
pub struct UiSettings {
    pub file_extensions: Vec<String>,
    pub refresh_interval_ms: u64,
}

fn texts_of(items: &[&str]) -> (r: Vec<String>)
    ensures
        r@.len() == items@.len(),
        forall|i: int| 0 <= i < items@.len() ==> #[trigger] r@[i]@ == items@[i]@,
{
    let mut out: Vec<String> = Vec::new();
    let mut i: usize = 0;
    while i < items.len()
        invariant
            i <= items@.len(),
            out@.len() == i,
            forall|k: int| 0 <= k < i ==> #[trigger] out@[k]@ == items@[k]@,
        decreases items@.len() - i,
    {
        out.push(String::from_str(items[i]));
        i = i + 1;
    }
    out
}

impl Default for DaemonConfig {
    fn default() -> (r: Self)
        ensures
            r.daemon.max_concurrent_jobs == 1,
            r.daemon.log_level@ == "info"@,
            r.encoding.default_audio_bitrate == 128,
            r.encoding.output_suffix@ == ".av1"@,
            !r.encoding.precise_frame_count,
            r.encoder.svt_av1.preset == 6,
            r.encoder.svt_av1.crf == 30,
            r.encoder.svt_av1.params@.len() == 4,
            r.encoder.aom.cpu_used == 4,
            r.encoder.aom.crf == 30,
            r.ui.file_extensions@.len() == 5,
            r.ui.refresh_interval_ms == 500,
            r.paths.data_dir.is_none() && r.paths.deps_dir.is_none() && r.paths.socket_path.is_none(),
    {
        DaemonConfig {
            daemon: DaemonSettings {
                max_concurrent_jobs: 1,
                socket_path: String::from_str("~/.local/share/encodetalker/daemon.sock"),
                log_level: String::from_str("info"),
            },
            encoding: EncodingSettings {
                default_encoder: String::from_str("svt-av1"),
                default_audio_mode: String::from_str("opus"),
                default_audio_bitrate: 128,
                output_suffix: String::from_str(".av1"),
                precise_frame_count: false,
            },
            encoder: EncoderSettings {
                svt_av1: SvtAv1Settings {
                    preset: 6,
                    crf: 30,
                    params: texts_of(&["--keyint", "240", "--tune", "3"]),
                },
                aom: AomSettings { cpu_used: 4, crf: 30 },
            },
            ui: UiSettings {
                file_extensions: texts_of(&[".mp4", ".mkv", ".avi", ".mov", ".webm"]),
                refresh_interval_ms: 500,
            },
            paths: PathsConfig::default(),
            binaries: BinarySourceSettings::default(),
        }
    }
}

impl DaemonConfig {
    /// The configuration that was read, or the defaults when reading or
    /// parsing the file failed.
    pub fn load_or_default(loaded: Option<DaemonConfig>) -> (r: Self)
        ensures
            loaded matches Some(c) ==> r == c,
            loaded is None ==> r.daemon.max_concurrent_jobs == 1,
    {
        match loaded {
            Some(c) => c,
            None => DaemonConfig::default(),
        }
    }
}

} // verus!
