use vstd::prelude::*;
use vstd::string::*;
use crate::stats::{derived_eta, derived_progress, EncodingStats};
use crate::text::{
    chars_of, decimal_milli_u64, digit_value, digits_value, equals_text, find_char, find_from, is_digit,
    parse_decimal_milli, parse_u64, slice_chars, u64_text,
};

verus! {

/// Character classes used by the encoder status line.
#[derive(Debug, Clone, Copy, PartialEq, Eq, Structural)]
pub enum CharClass {
    /// ASCII whitespace.
    Space,
    /// ASCII digit.
    Digit,
    /// ASCII digit or `.`.
    Number,
}

pub open spec fn is_space(c: char) -> bool {
    c == ' ' || c == '\t' || c == '\n' || c == '\r' || c == '\x0B' || c == '\x0C'
}

pub open spec fn in_class(c: char, k: CharClass) -> bool {
    match k {
        CharClass::Space => is_space(c),
        CharClass::Digit => is_digit(c),
        CharClass::Number => is_digit(c) || c == '.',
    }
}

/// End of the longest run of class `k` that starts at `i`.
pub open spec fn run_end(t: Seq<char>, i: int, k: CharClass) -> int
    decreases t.len() - i,
{
    if 0 <= i < t.len() && in_class(t[i], k) {
        run_end(t, i + 1, k)
    } else {
        i
    }
}

/// `lit` occurs in `t` at `i`.
pub open spec fn text_at(t: Seq<char>, i: int, lit: Seq<char>) -> bool {
    0 <= i && i + lit.len() <= t.len() && t.subrange(i, i + lit.len()) == lit
}

/// Bounds of the frame, bitrate and fps fields when the status line
/// `Encoding <sp> frame <sp> DIGITS <sp> NUMBER <sp> kbps <sp> NUMBER <sp> fps`
/// (each `<sp>` one or more blanks) starts at `i`.
pub open spec fn status_match_at(t: Seq<char>, i: int) -> Option<(int, int, int, int, int, int)> {
    let a = i + 8;
    let b = run_end(t, a, CharClass::Space);
    let c = b + 5;
    let d = run_end(t, c, CharClass::Space);
    let e = run_end(t, d, CharClass::Digit);
    let f = run_end(t, e, CharClass::Space);
    let g = run_end(t, f, CharClass::Number);
    let h = run_end(t, g, CharClass::Space);
    let k = h + 4;
    let l = run_end(t, k, CharClass::Space);
    let m = run_end(t, l, CharClass::Number);
    let n = run_end(t, m, CharClass::Space);
    if text_at(t, i, "Encoding"@) && b > a && text_at(t, b, "frame"@) && d > c && e > d && f > e
        && g > f && h > g && text_at(t, h, "kbps"@) && l > k && m > l && n > m && text_at(
        t,
        n,
        "fps"@,
    ) {
        Some((d, e, f, g, l, m))
    } else {
        None
    }
}

/// The leftmost status-line match at or after `i`.
pub open spec fn first_status_match(t: Seq<char>, i: int) -> Option<(int, int, int, int, int, int)>
    decreases t.len() + 1 - i,
{
    if i < 0 || i > t.len() {
        None
    } else {
        match status_match_at(t, i) {
            Some(r) => Some(r),
            None => first_status_match(t, i + 1),
        }
    }
}

/// Keep `old` where a field did not parse.
pub open spec fn or_keep(v: Option<u64>, old: u64) -> u64 {
    match v {
        Some(x) => x,
        None => old,
    }
}

/// Statistics after recomputing progress and time left.
pub open spec fn refreshed(s: EncodingStats) -> EncodingStats {
    EncodingStats { progress_centi: derived_progress(s), eta_ms: derived_eta(s), ..s }
}

/// Effect of one encoder status line on the statistics.
pub open spec fn after_status_line(s: EncodingStats, t: Seq<char>) -> EncodingStats {
    match first_status_match(t, 0) {
        None => s,
        Some((d, e, f, g, l, m)) => refreshed(
            EncodingStats {
                frame: or_keep(u64_text(t.subrange(d, e)), s.frame),
                bitrate_milli: or_keep(decimal_milli_u64(t.subrange(f, g)), s.bitrate_milli),
                fps_milli: or_keep(decimal_milli_u64(t.subrange(l, m)), s.fps_milli),
                ..s
            },
        ),
    }
}

/// Milliseconds of a clock `HH:MM:SS.cc` written at `i`.
pub open spec fn clock_at(t: Seq<char>, i: int) -> Option<u64> {
    if 0 <= i && i + 11 <= t.len() && is_digit(t[i]) && is_digit(t[i + 1]) && t[i + 2] == ':'
        && is_digit(t[i + 3]) && is_digit(t[i + 4]) && t[i + 5] == ':' && is_digit(t[i + 6])
        && is_digit(t[i + 7]) && t[i + 8] == '.' && is_digit(t[i + 9]) && is_digit(t[i + 10]) {
        let hh = digits_value(t.subrange(i, i + 2));
        let mm = digits_value(t.subrange(i + 3, i + 5));
        let ss = digits_value(t.subrange(i + 6, i + 8));
        let cc = digits_value(t.subrange(i + 9, i + 11));
        Some(((hh * 3600 + mm * 60 + ss) * 1000 + cc * 10) as u64)
    } else {
        None
    }
}

/// The leftmost clock at or after `i`.
pub open spec fn first_clock(t: Seq<char>, i: int) -> Option<u64>
    decreases t.len() + 1 - i,
{
    if i < 0 || i > t.len() {
        None
    } else {
        match clock_at(t, i) {
            Some(v) => Some(v),
            None => first_clock(t, i + 1),
        }
    }
}

/// `t` with every trailing copy of `suffix` removed.
pub open spec fn strip_suffixes(t: Seq<char>, suffix: Seq<char>) -> Seq<char>
    decreases t.len(),
{
    if suffix.len() > 0 && t.len() >= suffix.len() && t.subrange(
        t.len() - suffix.len(),
        t.len() as int,
    ) == suffix {
        strip_suffixes(t.subrange(0, t.len() - suffix.len()), suffix)
    } else {
        t
    }
}

/// Fields one `key=value` progress line sets: `frame`, `fps`, `bitrate`
/// and `out_time`; other keys and lines without `=` set none.
pub open spec fn progress_line_fields(s: EncodingStats, t: Seq<char>) -> EncodingStats {
    let eq = find_from(t, '=', 0);
    if eq < 0 {
        s
    } else {
        let key = t.subrange(0, eq);
        let value = t.subrange(eq + 1, t.len() as int);
        if key == "frame"@ {
            EncodingStats { frame: or_keep(u64_text(value), s.frame), ..s }
        } else if key == "fps"@ {
            EncodingStats { fps_milli: or_keep(decimal_milli_u64(value), s.fps_milli), ..s }
        } else if key == "bitrate"@ {
            EncodingStats {
                bitrate_milli: or_keep(
                    decimal_milli_u64(strip_suffixes(value, "kbits/s"@)),
                    s.bitrate_milli,
                ),
                ..s
            }
        } else if key == "out_time"@ {
            EncodingStats { time_encoded_ms: or_keep(first_clock(value, 0), s.time_encoded_ms), ..s }
        } else {
            s
        }
    }
}

/// Effect of one progress line: its fields, then progress and time left
/// recomputed.
pub open spec fn after_progress_line(s: EncodingStats, t: Seq<char>) -> EncodingStats {
    refreshed(progress_line_fields(s, t))
}

fn class_holds(c: char, k: CharClass) -> (r: bool)
    ensures
        r == in_class(c, k),
{
    let digit = '0' <= c && c <= '9';
    match k {
        CharClass::Space => c == ' ' || c == '\t' || c == '\n' || c == '\r' || c == '\x0B' || c
            == '\x0C',
        CharClass::Digit => digit,
        CharClass::Number => digit || c == '.',
    }
}

fn skip_run(t: &Vec<char>, i: usize, k: CharClass) -> (r: usize)
    requires
        i <= t@.len(),
    ensures
        r == run_end(t@, i as int, k),
        i <= r <= t@.len(),
{
    let mut j = i;
    while j < t.len() && class_holds(t[j], k)
        invariant
            i <= j <= t@.len(),
            run_end(t@, i as int, k) == run_end(t@, j as int, k),
        decreases t@.len() - j,
    {
        j = j + 1;
    }
    j
}

fn has_text_at(t: &Vec<char>, i: usize, lit: &str) -> (r: bool)
    ensures
        r == text_at(t@, i as int, lit@),
{
    let n = lit.unicode_len();
    let tl = t.len();
    if i > tl || n > tl - i {
        return false;
    }
    let mut k: usize = 0;
    while k < n
        invariant
            n == lit@.len(),
            tl == t@.len(),
            i + n <= tl,
            k <= n,
            forall|x: int| 0 <= x < k ==> t@[i + x] == lit@[x],
        decreases n - k,
    {
        if t[i + k] != lit.get_char(k) {
            proof {
                assert(t@.subrange(i as int, i + n)[k as int] != lit@[k as int]);
            }
            return false;
        }
        k = k + 1;
    }
    proof {
        assert(t@.subrange(i as int, i + n) =~= lit@);
    }
    true
}

fn status_match(t: &Vec<char>, i: usize) -> (r: Option<(usize, usize, usize, usize, usize, usize)>)
    requires
        i <= t@.len(),
    ensures
        match r {
            None => status_match_at(t@, i as int).is_none(),
            Some((d, e, f, g, l, m)) => status_match_at(t@, i as int) == Some(
                (d as int, e as int, f as int, g as int, l as int, m as int),
            ) && d <= e <= f <= g <= l <= m <= t@.len(),
        },
{
    let tl = t.len();
    proof {
        reveal_strlit("Encoding");
        reveal_strlit("frame");
        reveal_strlit("kbps");
    }
    if !has_text_at(t, i, "Encoding") {
        return None;
    }
    let a = i + 8;
    let b = skip_run(t, a, CharClass::Space);
    if b == a || !has_text_at(t, b, "frame") {
        return None;
    }
    let c = b + 5;
    let d = skip_run(t, c, CharClass::Space);
    if d == c {
        return None;
    }
    let e = skip_run(t, d, CharClass::Digit);
    if e == d {
        return None;
    }
    let f = skip_run(t, e, CharClass::Space);
    if f == e {
        return None;
    }
    let g = skip_run(t, f, CharClass::Number);
    if g == f {
        return None;
    }
    let h = skip_run(t, g, CharClass::Space);
    if h == g || !has_text_at(t, h, "kbps") {
        return None;
    }
    let k = h + 4;
    let l = skip_run(t, k, CharClass::Space);
    if l == k {
        return None;
    }
    let m = skip_run(t, l, CharClass::Number);
    if m == l {
        return None;
    }
    let n = skip_run(t, m, CharClass::Space);
    if n == m || !has_text_at(t, n, "fps") {
        return None;
    }
    Some((d, e, f, g, l, m))
}

fn first_status(t: &Vec<char>) -> (r: Option<(usize, usize, usize, usize, usize, usize)>)
    ensures
        match r {
            None => first_status_match(t@, 0).is_none(),
            Some((d, e, f, g, l, m)) => first_status_match(t@, 0) == Some(
                (d as int, e as int, f as int, g as int, l as int, m as int),
            ) && d <= e <= f <= g <= l <= m <= t@.len(),
        },
{
    let mut i: usize = 0;
    loop
        invariant
            i <= t@.len(),
            first_status_match(t@, 0) == first_status_match(t@, i as int),
        decreases t@.len() - i,
    {
        if let Some(found) = status_match(t, i) {
            return Some(found);
        }
        if i == t.len() {
            proof {
                assert(first_status_match(t@, i + 1).is_none());
            }
            return None;
        }
        i = i + 1;
    }
}

fn two_digits(a: char, b: char) -> (r: u64)
    requires
        is_digit(a),
        is_digit(b),
    ensures
        r == digits_value(seq![a, b]),
        r < 100,
{
    proof {
        assert(seq![a, b].drop_last() =~= seq![a]);
        assert(seq![a].drop_last() =~= Seq::<char>::empty());
        assert(digits_value(Seq::<char>::empty()) == 0);
        assert(digits_value(seq![a]) == digit_value(a));
        assert(digits_value(seq![a, b]) == digit_value(a) * 10 + digit_value(b));
    }
    (a as u64 - '0' as u64) * 10 + (b as u64 - '0' as u64)
}

fn clock_value(t: &Vec<char>, i: usize) -> (r: Option<u64>)
    ensures
        r == clock_at(t@, i as int),
{
    if i > t.len() || t.len() - i < 11 {
        return None;
    }
    let d = |c: char| -> (r: bool)
        ensures
            r == is_digit(c),
        { '0' <= c && c <= '9' };
    if !(d(t[i]) && d(t[i + 1]) && t[i + 2] == ':' && d(t[i + 3]) && d(t[i + 4]) && t[i + 5]
        == ':' && d(t[i + 6]) && d(t[i + 7]) && t[i + 8] == '.' && d(t[i + 9]) && d(t[i + 10])) {
        return None;
    }
    let hh = two_digits(t[i], t[i + 1]);
    let mm = two_digits(t[i + 3], t[i + 4]);
    let ss = two_digits(t[i + 6], t[i + 7]);
    let cc = two_digits(t[i + 9], t[i + 10]);
    proof {
        assert(t@.subrange(i as int, i + 2) =~= seq![t@[i as int], t@[i + 1]]);
        assert(t@.subrange(i + 3, i + 5) =~= seq![t@[i + 3], t@[i + 4]]);
        assert(t@.subrange(i + 6, i + 8) =~= seq![t@[i + 6], t@[i + 7]]);
        assert(t@.subrange(i + 9, i + 11) =~= seq![t@[i + 9], t@[i + 10]]);
    }
    Some((hh * 3600 + mm * 60 + ss) * 1000 + cc * 10)
}

fn find_clock(t: &Vec<char>) -> (r: Option<u64>)
    ensures
        r == first_clock(t@, 0),
{
    let mut i: usize = 0;
    loop
        invariant
            i <= t@.len(),
            first_clock(t@, 0) == first_clock(t@, i as int),
        decreases t@.len() - i,
    {
        if let Some(v) = clock_value(t, i) {
            return Some(v);
        }
        if i == t.len() {
            proof {
                assert(first_clock(t@, i + 1).is_none());
            }
            return None;
        }
        i = i + 1;
    }
}

fn strip_all_suffixes(t: Vec<char>, suffix: &str) -> (r: Vec<char>)
    ensures
        r@ == strip_suffixes(t@, suffix@),
{
    let n = suffix.unicode_len();
    let mut cur = t;
    loop
        invariant
            n == suffix@.len(),
            strip_suffixes(t@, suffix@) == strip_suffixes(cur@, suffix@),
        decreases cur@.len(),
    {
        if n == 0 || cur.len() < n {
            return cur;
        }
        let start = cur.len() - n;
        if !has_text_at(&cur, start, suffix) {
            return cur;
        }
        cur = slice_chars(&cur, 0, start);
    }
}

/// Per-job parser of encoder progress output.
pub struct StatsParser {
    stats: EncodingStats,
}

impl StatsParser {
    pub closed spec fn current(&self) -> EncodingStats {
        self.stats
    }

    /// A parser for a source of the given frame count and duration.
    pub fn new(total_frames: Option<u64>, total_duration_ms: Option<u64>) -> (r: Self)
        ensures
            r.current() == EncodingStats::with_totals_spec(total_frames, total_duration_ms),
    {
        StatsParser { stats: EncodingStats::with_totals(total_frames, total_duration_ms) }
    }

    /// Apply one `key=value` progress line (`frame`, `fps`, `bitrate`,
    /// `out_time`), then recompute progress and time left. Other lines
    /// only recompute.
    pub fn parse_line(&mut self, line: &str)
        ensures
            final(self).current() == after_progress_line(old(self).current(), line@),
    {
        let t = chars_of(line);
        match find_char(&t, '=') {
            None => {},
            Some(eq) => {
                let n = t.len();
                let key = slice_chars(&t, 0, eq);
                let value = slice_chars(&t, eq + 1, n);
                if equals_text(&key, "frame") {
                    if let Some(v) = parse_u64(&value) {
                        self.stats.frame = v;
                    }
                } else if equals_text(&key, "fps") {
                    if let Some(v) = parse_decimal_milli(&value) {
                        self.stats.fps_milli = v;
                    }
                } else if equals_text(&key, "bitrate") {
                    let number = strip_all_suffixes(value, "kbits/s");
                    if let Some(v) = parse_decimal_milli(&number) {
                        self.stats.bitrate_milli = v;
                    }
                } else if equals_text(&key, "out_time") {
                    if let Some(v) = find_clock(&value) {
                        self.stats.time_encoded_ms = v;
                    }
                }
            },
        }
        self.stats.update();
    }

    /// Apply one encoder status line
    /// (`Encoding frame 3456 1234.56 kbps 210.12 fps`). Lines that do not
    /// hold one leave the statistics as they are.
    pub fn parse_encoder_line(&mut self, line: &str)
        ensures
            final(self).current() == after_status_line(old(self).current(), line@),
    {
        let t = chars_of(line);
        if let Some((d, e, f, g, l, m)) = first_status(&t) {
            let frame_text = slice_chars(&t, d, e);
            let bitrate_text = slice_chars(&t, f, g);
            let fps_text = slice_chars(&t, l, m);
            if let Some(v) = parse_u64(&frame_text) {
                self.stats.frame = v;
            }
            if let Some(v) = parse_decimal_milli(&bitrate_text) {
                self.stats.bitrate_milli = v;
            }
            if let Some(v) = parse_decimal_milli(&fps_text) {
                self.stats.fps_milli = v;
            }
            self.stats.update();
        }
    }

    /// The statistics so far.
    pub fn get_stats(&self) -> (r: &EncodingStats)
        ensures
            *r == self.current(),
    {
        &self.stats
    }

    /// A copy of the statistics so far.
    pub fn clone_stats(&self) -> (r: EncodingStats)
        ensures
            r == self.current(),
    {
        self.stats
    }
}

/// Bounds of the digits when `frame=<blanks><digits>` starts at `i`.
pub open spec fn frame_match_at(t: Seq<char>, i: int) -> Option<(int, int)> {
    let a = i + 6;
    let b = run_end(t, a, CharClass::Space);
    let c = run_end(t, b, CharClass::Digit);
    if text_at(t, i, "frame="@) && c > b {
        Some((b, c))
    } else {
        None
    }
}

/// The leftmost `frame=` field at or after `i`.
pub open spec fn first_frame_match(t: Seq<char>, i: int) -> Option<(int, int)>
    decreases t.len() + 1 - i,
{
    if i < 0 || i > t.len() {
        None
    } else {
        match frame_match_at(t, i) {
            Some(r) => Some(r),
            None => first_frame_match(t, i + 1),
        }
    }
}

/// Frame number of the first `frame=` field of a line, when it fits.
pub open spec fn frame_field(t: Seq<char>) -> Option<u64> {
    match first_frame_match(t, 0) {
        Some((b, c)) => u64_text(t.subrange(b, c)),
        None => None,
    }
}

fn frame_match(t: &Vec<char>, i: usize) -> (r: Option<(usize, usize)>)
    requires
        i <= t@.len(),
    ensures
        match r {
            None => frame_match_at(t@, i as int).is_none(),
            Some((b, c)) => frame_match_at(t@, i as int) == Some((b as int, c as int)) && b <= c
                <= t@.len(),
        },
{
    let tl = t.len();
    proof {
        reveal_strlit("frame=");
    }
    if !has_text_at(t, i, "frame=") {
        return None;
    }
    let b = skip_run(t, i + 6, CharClass::Space);
    let c = skip_run(t, b, CharClass::Digit);
    if c == b {
        return None;
    }
    Some((b, c))
}

/// The frame number a decoder progress line reports, if any.
pub fn frame_number_in(line: &str) -> (r: Option<u64>)
    ensures
        r == frame_field(line@),
{
    let t = chars_of(line);
    let mut i: usize = 0;
    loop
        invariant
            i <= t@.len(),
            t@ == line@,
            first_frame_match(t@, 0) == first_frame_match(t@, i as int),
        decreases t@.len() - i,
    {
        if let Some((b, c)) = frame_match(&t, i) {
            return parse_u64(&slice_chars(&t, b, c));
        }
        if i == t.len() {
            proof {
                assert(first_frame_match(t@, i + 1).is_none());
            }
            return None;
        }
        i = i + 1;
    }
}

/// Keeps the last frame number seen while a decode-only pass counts
/// frames.
pub struct FrameCounter {
    last: u64,
}

impl FrameCounter {
    pub closed spec fn count(&self) -> u64 {
        self.last
    }

    pub fn new() -> (r: Self)
        ensures
            r.count() == 0,
    {
        FrameCounter { last: 0 }
    }

    /// Take the frame number of one progress line, if it has one.
    pub fn observe_line(&mut self, line: &str)
        ensures
            final(self).count() == or_keep(frame_field(line@), old(self).count()),
    {
        if let Some(n) = frame_number_in(line) {
            self.last = n;
        }
    }

    pub fn total(&self) -> (r: u64)
        ensures
            r == self.count(),
    {
        self.last
    }
}

/// Splits a byte stream into records, treating carriage return exactly
/// like newline as a terminator and dropping empty records.
pub struct RecordSplitter {
    buffer: Vec<u8>,
}

pub open spec fn is_terminator(b: u8) -> bool {
    b == 13 || b == 10
}

impl RecordSplitter {
    /// Bytes received since the last terminator.
    pub closed spec fn pending(&self) -> Seq<u8> {
        self.buffer@
    }

    pub fn new() -> (r: Self)
        ensures
            r.pending().len() == 0,
    {
        RecordSplitter { buffer: Vec::new() }
    }

    /// Feed one byte; a terminator after a non-empty record hands that
    /// record out.
    pub fn push_byte(&mut self, b: u8) -> (r: Option<Vec<u8>>)
        ensures
            !is_terminator(b) ==> r.is_none() && final(self).pending() == old(self).pending().push(b),
            is_terminator(b) ==> final(self).pending().len() == 0,
            is_terminator(b) && old(self).pending().len() == 0 ==> r.is_none(),
            is_terminator(b) && old(self).pending().len() > 0 ==> r.is_some() && r.unwrap()@ == old(self).pending(),
    {
        if b == 13 || b == 10 {
            if self.buffer.len() == 0 {
                None
            } else {
                let mut out: Vec<u8> = Vec::new();
                std::mem::swap(&mut out, &mut self.buffer);
                Some(out)
            }
        } else {
            self.buffer.push(b);
            None
        }
    }
}

} // verus!
