use vstd::prelude::*;
use crate::stats::EncodingStats;
use crate::status::JobStatus;
use crate::system::{now_millis, random_id};

verus! {

/// Identifier of a job: the 128-bit value of a random UUID.
pub type JobId = u128;

/// The two supported AV1 encoder families.
#[derive(Debug, Clone, Copy, PartialEq, Eq, Structural)]
pub enum EncoderType {
    SvtAv1,
    Aom,
}

impl EncoderType {
    pub open spec fn spec_label(self) -> Seq<char> {
        match self {
            EncoderType::SvtAv1 => "SVT-AV1"@,
            EncoderType::Aom => "libaom AV1"@,
        }
    }

    /// Display name of the encoder.
    pub fn label(&self) -> (r: &'static str)
        ensures
            r@ == self.spec_label(),
    {
        match self {
            EncoderType::SvtAv1 => "SVT-AV1",
            EncoderType::Aom => "libaom AV1",
        }
    }
}

/// How the audio tracks are handled.
#[derive(Debug, Clone)]
pub enum AudioMode {
    /// Re-encode to Opus at the given bitrate in kbit/s.
    Opus { bitrate: u32 },
    /// Stream-copy the audio tracks.
    Copy,
    /// Re-encode with an explicit codec at the given bitrate in kbit/s.
    Custom { codec: String, bitrate: u32 },
}

impl Default for AudioMode {
    fn default() -> (r: Self)
        ensures
            r == (AudioMode::Opus { bitrate: 128 }),
    {
        AudioMode::Opus { bitrate: 128 }
    }
}

/// Encoder knobs.
#[derive(Debug, Clone)]
pub struct EncoderParams {
    /// Quality factor (lower is better quality).
    pub crf: u32,
    /// Speed preset.
    pub preset: u32,
    /// Worker thread count; `None` lets the encoder decide.
    pub threads: Option<u32>,
    /// Extra command-line arguments passed to the encoder as they are.
    pub extra_params: Vec<String>,
}

impl Default for EncoderParams {
    fn default() -> (r: Self)
        ensures
            r.crf == 30,
            r.preset == 6,
            r.threads.is_none(),
            r.extra_params@.len() == 0,
    {
        EncoderParams { crf: 30, preset: 6, threads: None, extra_params: Vec::new() }
    }
}

/// Everything that decides how one file is encoded.
#[derive(Debug, Clone)]
pub struct EncodingConfig {
    pub encoder: EncoderType,
    pub audio_mode: AudioMode,
    /// Audio stream indices to keep; `None` keeps them all.
    pub audio_streams: Option<Vec<usize>>,
    /// Subtitle stream indices to keep; `None` keeps them all.
    pub subtitle_streams: Option<Vec<usize>>,
    pub encoder_params: EncoderParams,
}

impl Default for EncodingConfig {
    fn default() -> (r: Self)
        ensures
            r.encoder == EncoderType::SvtAv1,
            r.audio_mode == (AudioMode::Opus { bitrate: 128 }),
            r.audio_streams.is_none(),
            r.subtitle_streams.is_none(),
            r.encoder_params.crf == 30,
            r.encoder_params.preset == 6,
            r.encoder_params.threads.is_none(),
            r.encoder_params.extra_params@.len() == 0,
    {
        EncodingConfig {
            encoder: EncoderType::SvtAv1,
            audio_mode: AudioMode::default(),
            audio_streams: None,
            subtitle_streams: None,
            encoder_params: EncoderParams::default(),
        }
    }
}

/// One requested transcode with its lifecycle state. Times are
/// milliseconds since the Unix epoch.
#[derive(Debug, Clone)]
pub struct EncodingJob {
    pub id: JobId,
    pub input_path: String,
    pub output_path: String,
    pub config: EncodingConfig,
    pub status: JobStatus,
    /// Present exactly while the job runs.
    pub stats: Option<EncodingStats>,
    /// Present exactly when the job failed.
    pub error_message: Option<String>,
    pub created_at: i64,
    pub started_at: Option<i64>,
    pub finished_at: Option<i64>,
}

pub open spec fn same_indices(a: Option<Vec<usize>>, b: Option<Vec<usize>>) -> bool {
    match (a, b) {
        (None, None) => true,
        (Some(x), Some(y)) => x@ == y@,
        _ => false,
    }
}

/// Two configurations that hold the same values.
pub open spec fn same_config(a: EncodingConfig, b: EncodingConfig) -> bool {
    &&& a.encoder == b.encoder
    &&& a.audio_mode == b.audio_mode
    &&& same_indices(a.audio_streams, b.audio_streams)
    &&& same_indices(a.subtitle_streams, b.subtitle_streams)
    &&& a.encoder_params.crf == b.encoder_params.crf
    &&& a.encoder_params.preset == b.encoder_params.preset
    &&& a.encoder_params.threads == b.encoder_params.threads
    &&& a.encoder_params.extra_params@ == b.encoder_params.extra_params@
}

/// Two jobs that hold the same values.
pub open spec fn same_job(a: EncodingJob, b: EncodingJob) -> bool {
    &&& a.id == b.id
    &&& a.input_path == b.input_path
    &&& a.output_path == b.output_path
    &&& same_config(a.config, b.config)
    &&& a.status == b.status
    &&& a.stats == b.stats
    &&& a.error_message == b.error_message
    &&& a.created_at == b.created_at
    &&& a.started_at == b.started_at
    &&& a.finished_at == b.finished_at
}

fn copy_indices(v: &Option<Vec<usize>>) -> (r: Option<Vec<usize>>)
    ensures
        same_indices(*v, r),
{
    match v {
        None => None,
        Some(x) => {
            let mut out: Vec<usize> = Vec::new();
            let mut i: usize = 0;
            while i < x.len()
                invariant
                    i <= x@.len(),
                    out@ == x@.subrange(0, i as int),
                decreases x@.len() - i,
            {
                out.push(x[i]);
                i = i + 1;
                proof {
                    assert(out@ =~= x@.subrange(0, i as int));
                }
            }
            proof {
                assert(x@.subrange(0, x@.len() as int) =~= x@);
            }
            Some(out)
        },
    }
}

fn copy_strings(v: &Vec<String>) -> (r: Vec<String>)
    ensures
        r@ == v@,
{
    let mut out: Vec<String> = Vec::new();
    let mut i: usize = 0;
    while i < v.len()
        invariant
            i <= v@.len(),
            out@ == v@.subrange(0, i as int),
        decreases v@.len() - i,
    {
        out.push(v[i].clone());
        i = i + 1;
        proof {
            assert(out@ =~= v@.subrange(0, i as int));
        }
    }
    proof {
        assert(v@.subrange(0, v@.len() as int) =~= v@);
    }
    out
}

impl AudioMode {
    /// A copy holding the same values.
    pub fn duplicate(&self) -> (r: Self)
        ensures
            r == *self,
    {
        match self {
            AudioMode::Opus { bitrate } => AudioMode::Opus { bitrate: *bitrate },
            AudioMode::Copy => AudioMode::Copy,
            AudioMode::Custom { codec, bitrate } => AudioMode::Custom {
                codec: codec.clone(),
                bitrate: *bitrate,
            },
        }
    }
}

impl EncodingConfig {
    /// A copy holding the same values.
    pub fn duplicate(&self) -> (r: Self)
        ensures
            same_config(*self, r),
    {
        EncodingConfig {
            encoder: self.encoder,
            audio_mode: self.audio_mode.duplicate(),
            audio_streams: copy_indices(&self.audio_streams),
            subtitle_streams: copy_indices(&self.subtitle_streams),
            encoder_params: EncoderParams {
                crf: self.encoder_params.crf,
                preset: self.encoder_params.preset,
                threads: self.encoder_params.threads,
                extra_params: copy_strings(&self.encoder_params.extra_params),
            },
        }
    }
}

/// The job as it must look in the queue.
pub open spec fn is_queued_shape(j: EncodingJob) -> bool {
    &&& j.status == JobStatus::Queued
    &&& j.stats.is_none()
    &&& j.error_message.is_none()
    &&& j.started_at.is_none()
    &&& j.finished_at.is_none()
}

/// The job as it must look while it runs.
pub open spec fn is_running_shape(j: EncodingJob) -> bool {
    &&& j.status == JobStatus::Running
    &&& j.stats.is_some()
    &&& j.error_message.is_none()
}

/// The job as it must look in the history.
pub open spec fn is_finished_shape(j: EncodingJob) -> bool {
    &&& j.status.spec_is_terminal()
    &&& j.stats.is_none()
    &&& (j.error_message.is_some() <==> j.status == JobStatus::Failed)
}

impl EncodingJob {
    /// A new queued job with a fresh random id, created now.
    pub fn new(input_path: String, output_path: String, config: EncodingConfig) -> (r: Self)
        ensures
            r.input_path == input_path,
            r.output_path == output_path,
            r.config == config,
            is_queued_shape(r),
            r.started_at.is_none(),
            r.finished_at.is_none(),
    {
        EncodingJob {
            id: random_id(),
            input_path,
            output_path,
            config,
            status: JobStatus::Queued,
            stats: None,
            error_message: None,
            created_at: now_millis(),
            started_at: None,
            finished_at: None,
        }
    }

    /// A copy holding the same values.
    pub fn duplicate(&self) -> (r: Self)
        ensures
            same_job(*self, r),
    {
        let error_message = match &self.error_message {
            None => None,
            Some(e) => Some(e.clone()),
        };
        EncodingJob {
            id: self.id,
            input_path: self.input_path.clone(),
            output_path: self.output_path.clone(),
            config: self.config.duplicate(),
            status: self.status,
            stats: self.stats,
            error_message,
            created_at: self.created_at,
            started_at: self.started_at,
            finished_at: self.finished_at,
        }
    }

    /// Mark the job running now, with empty statistics.
    pub fn mark_started(&mut self)
        ensures
            final(self).status == JobStatus::Running,
            final(self).started_at.is_some(),
            final(self).stats == Some(EncodingStats::spec_empty()),
            final(self).error_message.is_none(),
            final(self).id == old(self).id,
            final(self).input_path == old(self).input_path,
            final(self).output_path == old(self).output_path,
            final(self).config == old(self).config,
            final(self).created_at == old(self).created_at,
            final(self).finished_at == old(self).finished_at,
    {
        self.status = JobStatus::Running;
        self.started_at = Some(now_millis());
        self.stats = Some(EncodingStats::with_totals(None, None));
        self.error_message = None;
    }

    /// Mark the job completed now.
    pub fn mark_completed(&mut self)
        ensures
            *final(self) == (EncodingJob {
                status: JobStatus::Completed,
                stats: None,
                error_message: None,
                finished_at: final(self).finished_at,
                ..*old(self)
            }),
            final(self).finished_at.is_some(),
    {
        self.status = JobStatus::Completed;
        self.stats = None;
        self.error_message = None;
        self.finished_at = Some(now_millis());
    }

    /// Mark the job failed now, with the given diagnostic.
    pub fn mark_failed(&mut self, error: String)
        ensures
            *final(self) == (EncodingJob {
                status: JobStatus::Failed,
                stats: None,
                error_message: Some(error),
                finished_at: final(self).finished_at,
                ..*old(self)
            }),
            final(self).finished_at.is_some(),
    {
        self.status = JobStatus::Failed;
        self.stats = None;
        self.error_message = Some(error);
        self.finished_at = Some(now_millis());
    }

    /// Mark the job cancelled now.
    pub fn mark_cancelled(&mut self)
        ensures
            *final(self) == (EncodingJob {
                status: JobStatus::Cancelled,
                stats: None,
                error_message: None,
                finished_at: final(self).finished_at,
                ..*old(self)
            }),
            final(self).finished_at.is_some(),
    {
        self.status = JobStatus::Cancelled;
        self.stats = None;
        self.error_message = None;
        self.finished_at = Some(now_millis());
    }

    /// Milliseconds between start and finish (or now, while unfinished);
    /// `None` for a job that never started.
    pub fn execution_duration(&self) -> (r: Option<i128>)
        ensures
            self.started_at.is_none() ==> r.is_none(),
            self.started_at.is_some() && self.finished_at.is_some() ==> r == Some(
                (self.finished_at.unwrap() - self.started_at.unwrap()) as i128,
            ),
            self.started_at.is_some() ==> r.is_some(),
    {
        match self.started_at {
            None => None,
            Some(started) => {
                let finished = match self.finished_at {
                    Some(f) => f,
                    None => now_millis(),
                };
                Some(finished as i128 - started as i128)
            },
        }
    }
}

} // verus!
