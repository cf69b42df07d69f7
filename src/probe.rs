use vstd::prelude::*;
use crate::text::{
    chars_of, decimal_milli_u64, find_char, find_from, parse_decimal_milli, parse_u64, same_text,
    slice_chars, u64_text,
};

verus! {

/// A frame rate kept as the exact ratio `num / den` frames per second.
#[derive(Debug, Clone, Copy, PartialEq, Eq, Structural)]
pub struct FrameRate {
    pub num: u64,
    pub den: u64,
}

impl FrameRate {
    pub open spec fn wf(self) -> bool {
        self.den > 0
    }

    /// Thirty frames per second, used when the source states none.
    pub fn fallback() -> (r: Self)
        ensures
            r.num == 30 && r.den == 1,
    {
        FrameRate { num: 30, den: 1 }
    }

    /// Frames per second times 1000, rounded down.
    pub fn milli_fps(&self) -> (r: u128)
        requires
            self.wf(),
        ensures
            r == self.num as int * 1000 / self.den as int,
    {
        assert(self.num as int * 1000 / self.den as int <= self.num as int * 1000) by (nonlinear_arith)
            requires self.den > 0, self.num >= 0;
        (self.num as u128 * 1000) / self.den as u128
    }
}

/// The rate a string `N/D` or `N` denotes, both parts decimal numbers;
/// a zero denominator gives none.
pub open spec fn frame_rate_text(t: Seq<char>) -> Option<FrameRate> {
    let slash = find_from(t, '/', 0);
    if slash < 0 {
        match decimal_milli_u64(t) {
            Some(n) => Some(FrameRate { num: n, den: 1000 }),
            None => None,
        }
    } else {
        match (
            decimal_milli_u64(t.subrange(0, slash)),
            decimal_milli_u64(t.subrange(slash + 1, t.len() as int)),
        ) {
            (Some(n), Some(d)) => if d > 0 {
                Some(FrameRate { num: n, den: d })
            } else {
                None
            },
            _ => None,
        }
    }
}

/// Parse a frame rate such as `24000/1001` or `25` without losing the
/// fraction.
pub fn parse_frame_rate(rate: &str) -> (r: Option<FrameRate>)
    ensures
        r == frame_rate_text(rate@),
        r matches Some(f) ==> f.wf(),
{
    let t = chars_of(rate);
    match find_char(&t, '/') {
        None => match parse_decimal_milli(&t) {
            Some(n) => Some(FrameRate { num: n, den: 1000 }),
            None => None,
        },
        Some(k) => {
            let n = t.len();
            let num = parse_decimal_milli(&slice_chars(&t, 0, k));
            let den = parse_decimal_milli(&slice_chars(&t, k + 1, n));
            match (num, den) {
                (Some(a), Some(b)) => if b > 0 {
                    Some(FrameRate { num: a, den: b })
                } else {
                    None
                },
                _ => None,
            }
        },
    }
}

/// `ceil(duration_ms * rate / 1000)`, capped at the largest `u64`.
pub open spec fn estimated_frames(duration_ms: u64, rate: FrameRate) -> u64 {
    let top = duration_ms as int * rate.num as int;
    let bottom = rate.den as int * 1000;
    let q = top / bottom + if top % bottom == 0 { 0int } else { 1int };
    if q > u64::MAX {
        u64::MAX
    } else {
        q as u64
    }
}

/// Estimate the frame count from the duration and the frame rate,
/// rounding up.
pub fn estimate_total_frames(duration_ms: u64, rate: FrameRate) -> (r: u64)
    requires
        rate.wf(),
    ensures
        r == estimated_frames(duration_ms, rate),
{
    assert(duration_ms as int * rate.num as int <= 0xffff_ffff_ffff_ffff * 0xffff_ffff_ffff_ffffint)
        by (nonlinear_arith)
        requires duration_ms <= 0xffff_ffff_ffff_ffffu64, rate.num <= 0xffff_ffff_ffff_ffffu64;
    let top: u128 = duration_ms as u128 * rate.num as u128;
    let bottom: u128 = rate.den as u128 * 1000;
    assert(top as int / bottom as int <= top as int / 1000) by (nonlinear_arith)
        requires bottom >= 1000, top >= 0;
    let mut q: u128 = top / bottom;
    if top % bottom != 0 {
        q = q + 1;
    }
    if q > u64::MAX as u128 {
        u64::MAX
    } else {
        q as u64
    }
}

/// The frame count to report, by priority: the container's own count,
/// else an exact count from a decode pass, else the estimate from the
/// duration, else none.
pub open spec fn chosen_total_frames(
    metadata: Option<u64>,
    counted: Option<u64>,
    duration_ms: Option<u64>,
    rate: FrameRate,
) -> Option<u64> {
    match metadata {
        Some(n) => Some(n),
        None => match counted {
            Some(n) => Some(n),
            None => match duration_ms {
                Some(d) => Some(estimated_frames(d, rate)),
                None => None,
            },
        },
    }
}

pub fn resolve_total_frames(
    metadata: Option<u64>,
    counted: Option<u64>,
    duration_ms: Option<u64>,
    rate: FrameRate,
) -> (r: Option<u64>)
    requires
        rate.wf(),
    ensures
        r == chosen_total_frames(metadata, counted, duration_ms, rate),
{
    match metadata {
        Some(n) => Some(n),
        None => match counted {
            Some(n) => Some(n),
            None => match duration_ms {
                Some(d) => Some(estimate_total_frames(d, rate)),
                None => None,
            },
        },
    }
}

/// One stream as the prober describes it.
#[derive(Debug, Clone)]
pub struct ProbeStream {
    pub index: u32,
    pub codec_type: String,
    pub codec_name: String,
    pub width: Option<u32>,
    pub height: Option<u32>,
    pub r_frame_rate: Option<String>,
    pub nb_frames: Option<String>,
    pub language: Option<String>,
    pub title: Option<String>,
}

#[derive(Debug, Clone)]
pub struct AudioStreamInfo {
    pub index: usize,
    pub codec: String,
    pub language: Option<String>,
    pub title: Option<String>,
}

#[derive(Debug, Clone)]
pub struct SubtitleStreamInfo {
    pub index: usize,
    pub codec: String,
    pub language: Option<String>,
    pub title: Option<String>,
}

/// What the pipeline needs to know about a source file.
#[derive(Debug, Clone)]
pub struct VideoInfo {
    pub duration_ms: Option<u64>,
    pub total_frames: Option<u64>,
    pub width: u32,
    pub height: u32,
    pub frame_rate: FrameRate,
    pub audio_streams: Vec<AudioStreamInfo>,
    pub subtitle_streams: Vec<SubtitleStreamInfo>,
}

/// Why a source cannot be encoded.
#[derive(Debug, Clone, Copy, PartialEq, Eq, Structural)]
pub enum ProbeError {
    NoVideoStream,
    MissingWidth,
    MissingHeight,
}

pub open spec fn is_kind(s: ProbeStream, kind: Seq<char>) -> bool {
    s.codec_type@ == kind
}

/// Index of the first stream of the given kind, or -1.
pub open spec fn first_of_kind(s: Seq<ProbeStream>, kind: Seq<char>, i: int) -> int
    decreases s.len() - i,
{
    if i < 0 || i >= s.len() {
        -1
    } else if is_kind(s[i], kind) {
        i
    } else {
        first_of_kind(s, kind, i + 1)
    }
}

pub open spec fn audio_of(s: Seq<ProbeStream>) -> Seq<AudioStreamInfo>
    decreases s.len(),
{
    if s.len() == 0 {
        Seq::empty()
    } else {
        let rest = audio_of(s.drop_last());
        let x = s.last();
        if is_kind(x, "audio"@) {
            rest.push(
                AudioStreamInfo {
                    index: x.index as usize,
                    codec: x.codec_name,
                    language: x.language,
                    title: x.title,
                },
            )
        } else {
            rest
        }
    }
}

pub open spec fn subtitles_of(s: Seq<ProbeStream>) -> Seq<SubtitleStreamInfo>
    decreases s.len(),
{
    if s.len() == 0 {
        Seq::empty()
    } else {
        let rest = subtitles_of(s.drop_last());
        let x = s.last();
        if is_kind(x, "subtitle"@) {
            rest.push(
                SubtitleStreamInfo {
                    index: x.index as usize,
                    codec: x.codec_name,
                    language: x.language,
                    title: x.title,
                },
            )
        } else {
            rest
        }
    }
}

fn copy_text(v: &Option<String>) -> (r: Option<String>)
    ensures
        r == *v,
{
    match v {
        None => None,
        Some(x) => Some(x.clone()),
    }
}

fn find_kind(streams: &Vec<ProbeStream>, kind: &str) -> (r: Option<usize>)
    ensures
        match r {
            Some(i) => i < streams@.len() && first_of_kind(streams@, kind@, 0) == i,
            None => first_of_kind(streams@, kind@, 0) == -1,
        },
{
    let mut i: usize = 0;
    while i < streams.len()
        invariant
            i <= streams@.len(),
            first_of_kind(streams@, kind@, 0) == first_of_kind(streams@, kind@, i as int),
        decreases streams@.len() - i,
    {
        if same_text(streams[i].codec_type.as_str(), kind) {
            return Some(i);
        }
        i = i + 1;
    }
    None
}

/// The audio streams, in order.
pub fn audio_streams(streams: &Vec<ProbeStream>) -> (r: Vec<AudioStreamInfo>)
    ensures
        r@ == audio_of(streams@),
{
    let mut out: Vec<AudioStreamInfo> = Vec::new();
    let mut i: usize = 0;
    while i < streams.len()
        invariant
            i <= streams@.len(),
            out@ == audio_of(streams@.subrange(0, i as int)),
        decreases streams@.len() - i,
    {
        let s = &streams[i];
        proof {
            assert(streams@.subrange(0, i as int + 1).drop_last() =~= streams@.subrange(0, i as int));
        }
        if same_text(s.codec_type.as_str(), "audio") {
            out.push(
                AudioStreamInfo {
                    index: s.index as usize,
                    codec: s.codec_name.clone(),
                    language: copy_text(&s.language),
                    title: copy_text(&s.title),
                },
            );
        }
        i = i + 1;
    }
    proof {
        assert(streams@.subrange(0, streams@.len() as int) =~= streams@);
    }
    out
}

/// The subtitle streams, in order.
pub fn subtitle_streams(streams: &Vec<ProbeStream>) -> (r: Vec<SubtitleStreamInfo>)
    ensures
        r@ == subtitles_of(streams@),
{
    let mut out: Vec<SubtitleStreamInfo> = Vec::new();
    let mut i: usize = 0;
    while i < streams.len()
        invariant
            i <= streams@.len(),
            out@ == subtitles_of(streams@.subrange(0, i as int)),
        decreases streams@.len() - i,
    {
        let s = &streams[i];
        proof {
            assert(streams@.subrange(0, i as int + 1).drop_last() =~= streams@.subrange(0, i as int));
        }
        if same_text(s.codec_type.as_str(), "subtitle") {
            out.push(
                SubtitleStreamInfo {
                    index: s.index as usize,
                    codec: s.codec_name.clone(),
                    language: copy_text(&s.language),
                    title: copy_text(&s.title),
                },
            );
        }
        i = i + 1;
    }
    proof {
        assert(streams@.subrange(0, streams@.len() as int) =~= streams@);
    }
    out
}

/// Rate of the video stream; 30 fps when absent or unreadable.
pub open spec fn stream_rate(v: ProbeStream) -> FrameRate {
    match v.r_frame_rate {
        Some(t) => match frame_rate_text(t@) {
            Some(f) => f,
            None => FrameRate { num: 30, den: 1 },
        },
        None => FrameRate { num: 30, den: 1 },
    }
}

/// Frame count the container states for the video stream.
pub open spec fn stream_frames(v: ProbeStream) -> Option<u64> {
    match v.nb_frames {
        Some(t) => u64_text(t@),
        None => None,
    }
}

/// Duration in milliseconds from the container's decimal seconds.
pub open spec fn duration_text(d: Option<String>) -> Option<u64> {
    match d {
        Some(t) => decimal_milli_u64(t@),
        None => None,
    }
}

/// Whether the report is usable (a first video stream with both
/// dimensions) and that stream states no usable frame count, so that an
/// exact count by decoding is worth running. A report that
/// `video_info_from_probe` rejects never asks for one.
pub fn needs_frame_count(streams: &Vec<ProbeStream>) -> (r: bool)
    ensures
        ({
            let k = first_of_kind(streams@, "video"@, 0);
            r == (k >= 0 && streams@[k].width is Some && streams@[k].height is Some
                && stream_frames(streams@[k]).is_none())
        }),
{
    match find_kind(streams, "video") {
        None => false,
        Some(k) => if streams[k].width.is_none() || streams[k].height.is_none() {
            false
        } else {
            match &streams[k].nb_frames {
            None => true,
                Some(t) => parse_u64(&chars_of(t.as_str())).is_none(),
            }
        },
    }
}

/// Read a prober report: the first video stream gives size, rate and
/// stated frame count; the frame count falls back to `counted`, then to
/// the estimate from the duration.
pub fn video_info_from_probe(
    duration: &Option<String>,
    streams: &Vec<ProbeStream>,
    counted: Option<u64>,
) -> (r: Result<VideoInfo, ProbeError>)
    ensures
        ({
            let k = first_of_kind(streams@, "video"@, 0);
            if k < 0 {
                r == Err::<VideoInfo, ProbeError>(ProbeError::NoVideoStream)
            } else if streams@[k].width.is_none() {
                r == Err::<VideoInfo, ProbeError>(ProbeError::MissingWidth)
            } else if streams@[k].height.is_none() {
                r == Err::<VideoInfo, ProbeError>(ProbeError::MissingHeight)
            } else {
                let v = streams@[k];
                let rate = stream_rate(v);
                let dur = duration_text(*duration);
                &&& r is Ok
                &&& r->Ok_0.width == v.width.unwrap()
                &&& r->Ok_0.height == v.height.unwrap()
                &&& r->Ok_0.frame_rate == rate
                &&& r->Ok_0.duration_ms == dur
                &&& r->Ok_0.total_frames == chosen_total_frames(stream_frames(v), counted, dur, rate)
                &&& r->Ok_0.audio_streams@ == audio_of(streams@)
                &&& r->Ok_0.subtitle_streams@ == subtitles_of(streams@)
            }
        }),
        r matches Ok(info) ==> info.frame_rate.wf(),
{
    let k = match find_kind(streams, "video") {
        None => return Err(ProbeError::NoVideoStream),
        Some(k) => k,
    };
    let v = &streams[k];
    let width = match v.width {
        None => return Err(ProbeError::MissingWidth),
        Some(w) => w,
    };
    let height = match v.height {
        None => return Err(ProbeError::MissingHeight),
        Some(h) => h,
    };
    let rate = match &v.r_frame_rate {
        Some(t) => match parse_frame_rate(t.as_str()) {
            Some(f) => f,
            None => FrameRate::fallback(),
        },
        None => FrameRate::fallback(),
    };
    let stated = match &v.nb_frames {
        Some(t) => parse_u64(&chars_of(t.as_str())),
        None => None,
    };
    let dur = match duration {
        Some(t) => parse_decimal_milli(&chars_of(t.as_str())),
        None => None,
    };
    let total = resolve_total_frames(stated, counted, dur, rate);
    Ok(
        VideoInfo {
            duration_ms: dur,
            total_frames: total,
            width,
            height,
            frame_rate: rate,
            audio_streams: audio_streams(streams),
            subtitle_streams: subtitle_streams(streams),
        },
    )
}

} // verus!
