use vstd::prelude::*;
use vstd::string::*;
use crate::job::{AudioMode, EncoderParams, EncoderType, EncodingConfig};
use crate::paths::{join_path, joined};

verus! {

/// Text of each argument.
pub open spec fn texts(v: Seq<String>) -> Seq<Seq<char>> {
    v.map_values(|s: String| s@)
}

pub open spec fn digit_char(d: int) -> char {
    if d == 0 {
        '0'
    } else if d == 1 {
        '1'
    } else if d == 2 {
        '2'
    } else if d == 3 {
        '3'
    } else if d == 4 {
        '4'
    } else if d == 5 {
        '5'
    } else if d == 6 {
        '6'
    } else if d == 7 {
        '7'
    } else if d == 8 {
        '8'
    } else {
        '9'
    }
}

/// Decimal digits of `n`, without leading zeros.
pub open spec fn decimal(n: nat) -> Seq<char>
    decreases n,
{
    if n < 10 {
        seq![digit_char(n as int)]
    } else {
        decimal(n / 10).push(digit_char((n % 10) as int))
    }
}

/// Relies on `u64`'s `to_string`: its decimal digits.
#[verifier::external_body]
fn number_text(n: u64) -> (r: String)
    ensures
        r@ == decimal(n as nat),
{
    n.to_string()
}

fn push_text(v: &mut Vec<String>, s: &str)
    ensures
        texts(final(v)@) == texts(old(v)@).push(s@),
{
    v.push(String::from_str(s));
    proof {
        assert(texts(final(v)@) =~= texts(old(v)@).push(s@));
    }
}

fn push_string(v: &mut Vec<String>, s: String)
    ensures
        texts(final(v)@) == texts(old(v)@).push(s@),
{
    v.push(s);
    proof {
        assert(texts(final(v)@) =~= texts(old(v)@).push(s@));
    }
}

fn push_all(v: &mut Vec<String>, extra: &Vec<String>)
    ensures
        texts(final(v)@) == texts(old(v)@) + texts(extra@),
{
    let mut i: usize = 0;
    while i < extra.len()
        invariant
            i <= extra@.len(),
            texts(v@) == texts(old(v)@) + texts(extra@.subrange(0, i as int)),
        decreases extra@.len() - i,
    {
        push_string(v, extra[i].clone());
        proof {
            assert(texts(extra@.subrange(0, i as int + 1)) =~= texts(extra@.subrange(0, i as int)).push(
                extra@[i as int]@,
            ));
        }
        i = i + 1;
    }
    proof {
        assert(extra@.subrange(0, extra@.len() as int) =~= extra@);
    }
}

/// Arguments of the decoder that writes raw frames to its output.
pub open spec fn decode_args_spec(input: Seq<char>) -> Seq<Seq<char>> {
    seq![
        "-nostats"@, "-loglevel"@, "error"@, "-i"@, input, "-f"@, "yuv4mpegpipe"@, "-pix_fmt"@,
        "yuv420p10le"@, "-strict"@, "-1"@, "-"@,
    ]
}

/// Arguments of the SVT-AV1 encoder reading frames from its input.
pub open spec fn svt_av1_args_spec(p: EncoderParams, output: Seq<char>) -> Seq<Seq<char>> {
    let head = seq![
        "-i"@, "stdin"@, "--crf"@, decimal(p.crf as nat), "--preset"@, decimal(p.preset as nat),
    ];
    let threads = match p.threads {
        Some(t) => seq!["--lp"@, decimal(t as nat)],
        None => Seq::empty(),
    };
    head + threads + seq!["--progress"@, "2"@, "-b"@, output] + texts(p.extra_params@)
}

/// Arguments of the libaom encoder reading frames from its input.
pub open spec fn aom_args_spec(p: EncoderParams, output: Seq<char>) -> Seq<Seq<char>> {
    let head = seq![
        "-"@, "--cq-level"@, decimal(p.crf as nat), "--cpu-used"@, decimal(p.preset as nat),
        "--end-usage=q"@,
    ];
    let threads = match p.threads {
        Some(t) => seq!["--threads"@, decimal(t as nat)],
        None => Seq::empty(),
    };
    head + threads + seq!["--ivf"@, "-o"@, output] + texts(p.extra_params@)
}

/// `-map 0:a:N` for each selected audio stream, or `-map 0:a` for all.
pub open spec fn audio_maps(streams: Option<Vec<usize>>) -> Seq<Seq<char>> {
    match streams {
        None => seq!["-map"@, "0:a"@],
        Some(v) => index_maps(v@, "0:a:"@),
    }
}

pub open spec fn index_maps(v: Seq<usize>, prefix: Seq<char>) -> Seq<Seq<char>>
    decreases v.len(),
{
    if v.len() == 0 {
        Seq::empty()
    } else {
        index_maps(v.drop_last(), prefix) + seq!["-map"@, prefix + decimal(v.last() as nat)]
    }
}

/// Arguments of the audio pass for the configured mode.
pub open spec fn audio_args_spec(
    c: EncodingConfig,
    input: Seq<char>,
    output: Seq<char>,
) -> Seq<Seq<char>> {
    match c.audio_mode {
        AudioMode::Opus { bitrate } => seq![
            "-i"@, input, "-vn"@, "-c:a"@, "libopus"@, "-b:a"@, decimal(bitrate as nat) + "k"@,
        ] + audio_maps(c.audio_streams) + seq![output],
        AudioMode::Copy => seq!["-i"@, input, "-vn"@, "-c:a"@, "copy"@] + audio_maps(
            c.audio_streams,
        ) + seq![output],
        AudioMode::Custom { codec, bitrate } => seq![
            "-i"@, input, "-vn"@, "-c:a"@, codec@, "-b:a"@, decimal(bitrate as nat) + "k"@, output,
        ],
    }
}

/// Arguments of the final mux: video, audio and, when the source has
/// subtitles, the selected (or all) subtitle tracks, all stream-copied.
pub open spec fn mux_args_spec(
    c: EncodingConfig,
    video: Seq<char>,
    audio: Seq<char>,
    input: Seq<char>,
    has_subtitles: bool,
    output: Seq<char>,
) -> Seq<Seq<char>> {
    let inputs = seq!["-y"@, "-i"@, video, "-i"@, audio] + if has_subtitles {
        seq!["-i"@, input]
    } else {
        Seq::empty()
    };
    let maps = seq!["-map"@, "0:v:0"@, "-map"@, "1:a:0"@] + if has_subtitles {
        match c.subtitle_streams {
            Some(v) => index_maps(v@, "2:s:"@),
            None => seq!["-map"@, "2:s?"@],
        }
    } else {
        Seq::empty()
    };
    let codecs = seq!["-c:v"@, "copy"@, "-c:a"@, "copy"@] + if has_subtitles {
        seq!["-c:s"@, "copy"@]
    } else {
        Seq::empty()
    };
    inputs + maps + codecs + seq![output]
}

fn push_index_maps(v: &mut Vec<String>, streams: &Vec<usize>, prefix: &str)
    ensures
        texts(final(v)@) == texts(old(v)@) + index_maps(streams@, prefix@),
{
    let mut i: usize = 0;
    while i < streams.len()
        invariant
            i <= streams@.len(),
            texts(v@) == texts(old(v)@) + index_maps(streams@.subrange(0, i as int), prefix@),
        decreases streams@.len() - i,
    {
        push_text(v, "-map");
        let spec_text = String::from_str(prefix).concat(number_text(streams[i] as u64).as_str());
        push_string(v, spec_text);
        proof {
            assert(streams@.subrange(0, i as int + 1).drop_last() =~= streams@.subrange(0, i as int));
            assert(texts(v@) =~= texts(old(v)@) + index_maps(streams@.subrange(0, i as int + 1), prefix@));
        }
        i = i + 1;
    }
    proof {
        assert(streams@.subrange(0, streams@.len() as int) =~= streams@);
    }
}

/// The external tools one encode runs.
#[derive(Debug, Clone)]
pub struct EncodingPipeline {
    pub ffmpeg_bin: String,
    pub ffprobe_bin: String,
    pub svt_av1_bin: String,
    pub aom_bin: String,
    /// Count frames with a full decode pass when the container states none.
    pub precise_frame_count: bool,
}

impl EncodingPipeline {
    pub fn new(
        ffmpeg_bin: String,
        ffprobe_bin: String,
        svt_av1_bin: String,
        aom_bin: String,
        precise_frame_count: bool,
    ) -> (r: Self)
        ensures
            r == (EncodingPipeline { ffmpeg_bin, ffprobe_bin, svt_av1_bin, aom_bin, precise_frame_count }),
    {
        EncodingPipeline { ffmpeg_bin, ffprobe_bin, svt_av1_bin, aom_bin, precise_frame_count }
    }

    /// The encoder program for the configured family.
    pub fn encoder_bin(&self, encoder: EncoderType) -> (r: &String)
        ensures
            encoder == EncoderType::SvtAv1 ==> *r == self.svt_av1_bin,
            encoder == EncoderType::Aom ==> *r == self.aom_bin,
    {
        match encoder {
            EncoderType::SvtAv1 => &self.svt_av1_bin,
            EncoderType::Aom => &self.aom_bin,
        }
    }
}

/// Arguments of the decoder process.
pub fn decode_args(input: &str) -> (r: Vec<String>)
    ensures
        texts(r@) == decode_args_spec(input@),
{
    let mut v: Vec<String> = Vec::new();
    push_text(&mut v, "-nostats");
    push_text(&mut v, "-loglevel");
    push_text(&mut v, "error");
    push_text(&mut v, "-i");
    push_text(&mut v, input);
    push_text(&mut v, "-f");
    push_text(&mut v, "yuv4mpegpipe");
    push_text(&mut v, "-pix_fmt");
    push_text(&mut v, "yuv420p10le");
    push_text(&mut v, "-strict");
    push_text(&mut v, "-1");
    push_text(&mut v, "-");
    proof {
        assert(texts(v@) =~= decode_args_spec(input@));
    }
    v
}

/// Arguments of the encoder process for the configured family.
pub fn encoder_args(config: &EncodingConfig, output: &str) -> (r: Vec<String>)
    ensures
        config.encoder == EncoderType::SvtAv1 ==> texts(r@) == svt_av1_args_spec(
            config.encoder_params,
            output@,
        ),
        config.encoder == EncoderType::Aom ==> texts(r@) == aom_args_spec(
            config.encoder_params,
            output@,
        ),
{
    let p = &config.encoder_params;
    let mut v: Vec<String> = Vec::new();
    match config.encoder {
        EncoderType::SvtAv1 => {
            push_text(&mut v, "-i");
            push_text(&mut v, "stdin");
            push_text(&mut v, "--crf");
            push_string(&mut v, number_text(p.crf as u64));
            push_text(&mut v, "--preset");
            push_string(&mut v, number_text(p.preset as u64));
            if let Some(t) = p.threads {
                push_text(&mut v, "--lp");
                push_string(&mut v, number_text(t as u64));
            }
            push_text(&mut v, "--progress");
            push_text(&mut v, "2");
            push_text(&mut v, "-b");
            push_text(&mut v, output);
            let ghost before = texts(v@);
            push_all(&mut v, &p.extra_params);
            proof {
                assert(before =~= svt_av1_args_spec(*p, output@).subrange(0, before.len() as int));
                assert(texts(v@) =~= svt_av1_args_spec(*p, output@));
            }
        },
        EncoderType::Aom => {
            push_text(&mut v, "-");
            push_text(&mut v, "--cq-level");
            push_string(&mut v, number_text(p.crf as u64));
            push_text(&mut v, "--cpu-used");
            push_string(&mut v, number_text(p.preset as u64));
            push_text(&mut v, "--end-usage=q");
            if let Some(t) = p.threads {
                push_text(&mut v, "--threads");
                push_string(&mut v, number_text(t as u64));
            }
            push_text(&mut v, "--ivf");
            push_text(&mut v, "-o");
            push_text(&mut v, output);
            let ghost before = texts(v@);
            push_all(&mut v, &p.extra_params);
            proof {
                assert(before =~= aom_args_spec(*p, output@).subrange(0, before.len() as int));
                assert(texts(v@) =~= aom_args_spec(*p, output@));
            }
        },
    }
    v
}

fn push_audio_maps(v: &mut Vec<String>, streams: &Option<Vec<usize>>)
    ensures
        texts(final(v)@) == texts(old(v)@) + audio_maps(*streams),
{
    match streams {
        None => {
            push_text(v, "-map");
            push_text(v, "0:a");
            proof {
                assert(texts(final(v)@) =~= texts(old(v)@) + audio_maps(*streams));
            }
        },
        Some(list) => {
            push_index_maps(v, list, "0:a:");
        },
    }
}

/// Arguments of the audio pass.
pub fn audio_args(config: &EncodingConfig, input: &str, output: &str) -> (r: Vec<String>)
    ensures
        texts(r@) == audio_args_spec(*config, input@, output@),
{
    let mut v: Vec<String> = Vec::new();
    match &config.audio_mode {
        AudioMode::Opus { bitrate } => {
            push_text(&mut v, "-i");
            push_text(&mut v, input);
            push_text(&mut v, "-vn");
            push_text(&mut v, "-c:a");
            push_text(&mut v, "libopus");
            push_text(&mut v, "-b:a");
            push_string(&mut v, number_text(*bitrate as u64).concat("k"));
            push_audio_maps(&mut v, &config.audio_streams);
            push_text(&mut v, output);
            proof {
                assert(texts(v@) =~= audio_args_spec(*config, input@, output@));
            }
        },
        AudioMode::Copy => {
            push_text(&mut v, "-i");
            push_text(&mut v, input);
            push_text(&mut v, "-vn");
            push_text(&mut v, "-c:a");
            push_text(&mut v, "copy");
            push_audio_maps(&mut v, &config.audio_streams);
            push_text(&mut v, output);
            proof {
                assert(texts(v@) =~= audio_args_spec(*config, input@, output@));
            }
        },
        AudioMode::Custom { codec, bitrate } => {
            push_text(&mut v, "-i");
            push_text(&mut v, input);
            push_text(&mut v, "-vn");
            push_text(&mut v, "-c:a");
            push_text(&mut v, codec.as_str());
            push_text(&mut v, "-b:a");
            push_string(&mut v, number_text(*bitrate as u64).concat("k"));
            push_text(&mut v, output);
            proof {
                assert(texts(v@) =~= audio_args_spec(*config, input@, output@));
            }
        },
    }
    v
}

/// Arguments of the final mux.
pub fn mux_args(
    config: &EncodingConfig,
    video: &str,
    audio: &str,
    input: &str,
    has_subtitles: bool,
    output: &str,
) -> (r: Vec<String>)
    ensures
        texts(r@) == mux_args_spec(*config, video@, audio@, input@, has_subtitles, output@),
{
    let mut v: Vec<String> = Vec::new();
    push_text(&mut v, "-y");
    push_text(&mut v, "-i");
    push_text(&mut v, video);
    push_text(&mut v, "-i");
    push_text(&mut v, audio);
    if has_subtitles {
        push_text(&mut v, "-i");
        push_text(&mut v, input);
    }
    let ghost a = texts(v@);
    push_text(&mut v, "-map");
    push_text(&mut v, "0:v:0");
    push_text(&mut v, "-map");
    push_text(&mut v, "1:a:0");
    if has_subtitles {
        match &config.subtitle_streams {
            Some(list) => push_index_maps(&mut v, list, "2:s:"),
            None => {
                push_text(&mut v, "-map");
                push_text(&mut v, "2:s?");
            },
        }
    }
    push_text(&mut v, "-c:v");
    push_text(&mut v, "copy");
    push_text(&mut v, "-c:a");
    push_text(&mut v, "copy");
    if has_subtitles {
        push_text(&mut v, "-c:s");
        push_text(&mut v, "copy");
    }
    push_text(&mut v, output);
    proof {
        let inputs = seq!["-y"@, "-i"@, video@, "-i"@, audio@] + if has_subtitles {
            seq!["-i"@, input@]
        } else {
            Seq::empty()
        };
        assert(a =~= inputs);
        assert(texts(v@) =~= mux_args_spec(*config, video@, audio@, input@, has_subtitles, output@));
    }
    v
}

/// Arguments of the prober, reporting format and streams as JSON.
pub fn probe_args(input: &str) -> (r: Vec<String>)
    ensures
        texts(r@) == seq![
            "-v"@, "quiet"@, "-print_format"@, "json"@, "-show_format"@, "-show_streams"@, input@,
        ],
{
    let mut v: Vec<String> = Vec::new();
    push_text(&mut v, "-v");
    push_text(&mut v, "quiet");
    push_text(&mut v, "-print_format");
    push_text(&mut v, "json");
    push_text(&mut v, "-show_format");
    push_text(&mut v, "-show_streams");
    push_text(&mut v, input);
    proof {
        assert(texts(v@) =~= seq![
            "-v"@, "quiet"@, "-print_format"@, "json"@, "-show_format"@, "-show_streams"@, input@,
        ]);
    }
    v
}

/// Arguments of the decode-only pass that counts the video frames.
pub fn count_frames_args(input: &str) -> (r: Vec<String>)
    ensures
        texts(r@) == seq!["-i"@, input@, "-map"@, "0:v:0"@, "-c"@, "copy"@, "-f"@, "null"@, "-"@],
{
    let mut v: Vec<String> = Vec::new();
    push_text(&mut v, "-i");
    push_text(&mut v, input);
    push_text(&mut v, "-map");
    push_text(&mut v, "0:v:0");
    push_text(&mut v, "-c");
    push_text(&mut v, "copy");
    push_text(&mut v, "-f");
    push_text(&mut v, "null");
    push_text(&mut v, "-");
    proof {
        assert(texts(v@) =~= seq![
            "-i"@, input@, "-map"@, "0:v:0"@, "-c"@, "copy"@, "-f"@, "null"@, "-"@,
        ]);
    }
    v
}

/// Directory part of a path: everything before the last `/` (`/` itself
/// for a top-level entry), empty when there is no `/`.
pub open spec fn parent_of(p: Seq<char>) -> Seq<char> {
    let k = last_slash(p, p.len() as int);
    if k < 0 {
        Seq::empty()
    } else if k == 0 {
        "/"@
    } else {
        p.subrange(0, k)
    }
}

/// Index of the last `/` before `i`, or -1.
pub open spec fn last_slash(p: Seq<char>, i: int) -> int
    decreases i,
{
    if i <= 0 {
        -1
    } else if p[i - 1] == '/' {
        i - 1
    } else {
        last_slash(p, i - 1)
    }
}

/// A file named `name` beside `output`.
pub fn sibling_path(output: &str, name: &str) -> (r: String)
    ensures
        r@ == joined(parent_of(output@), name@),
{
    let n = output.unicode_len();
    let mut i: usize = n;
    while i > 0 && output.get_char(i - 1) != '/'
        invariant
            n == output@.len(),
            i <= n,
            last_slash(output@, n as int) == last_slash(output@, i as int),
        decreases i,
    {
        i = i - 1;
    }
    if i == 0 {
        String::from_str(name)
    } else if i == 1 {
        proof {
            reveal_strlit("/");
        }
        join_path("/", name)
    } else {
        let dir = output.substring_char(0, i - 1);
        join_path(dir, name)
    }
}

} // verus!
