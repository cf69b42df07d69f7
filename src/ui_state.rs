use vstd::prelude::*;
use vstd::string::*;
use crate::job::{EncodingConfig, EncodingJob};
use crate::messages::{DepsCompilationStep, DepsStatusInfo};
use crate::pipeline::texts;
use crate::text::same_text;

verus! {

/// The screens of the interactive client.
#[derive(Debug, Clone, Copy, PartialEq, Eq, Structural)]
pub enum Screen {
    Loading,
    FileBrowser,
    Queue,
    Active,
    History,
}

impl Screen {
    /// The next tab; the loading screen cannot be left this way.
    pub fn next(&self) -> (r: Self)
        ensures
            r == match *self {
                Screen::Loading => Screen::Loading,
                Screen::FileBrowser => Screen::Queue,
                Screen::Queue => Screen::Active,
                Screen::Active => Screen::History,
                Screen::History => Screen::FileBrowser,
            },
    {
        match self {
            Screen::Loading => Screen::Loading,
            Screen::FileBrowser => Screen::Queue,
            Screen::Queue => Screen::Active,
            Screen::Active => Screen::History,
            Screen::History => Screen::FileBrowser,
        }
    }

    /// The previous tab; the loading screen cannot be left this way.
    pub fn prev(&self) -> (r: Self)
        ensures
            r == match *self {
                Screen::Loading => Screen::Loading,
                Screen::FileBrowser => Screen::History,
                Screen::Queue => Screen::FileBrowser,
                Screen::Active => Screen::Queue,
                Screen::History => Screen::Active,
            },
    {
        match self {
            Screen::Loading => Screen::Loading,
            Screen::FileBrowser => Screen::History,
            Screen::Queue => Screen::FileBrowser,
            Screen::Active => Screen::Queue,
            Screen::History => Screen::Active,
        }
    }

    pub open spec fn spec_title(self) -> Seq<char> {
        match self {
            Screen::Loading => "Initialisation"@,
            Screen::FileBrowser => "Nouvel encodage"@,
            Screen::Queue => "Queue"@,
            Screen::Active => "Encodage en cours"@,
            Screen::History => "Historique"@,
        }
    }

    /// Tab title.
    pub fn title(&self) -> (r: &'static str)
        ensures
            r@ == self.spec_title(),
    {
        match self {
            Screen::Loading => "Initialisation",
            Screen::FileBrowser => "Nouvel encodage",
            Screen::Queue => "Queue",
            Screen::Active => "Encodage en cours",
            Screen::History => "Historique",
        }
    }
}

/// What the loading screen shows while dependencies are built.
#[derive(Debug, Clone)]
pub struct LoadingState {
    pub total_deps: usize,
    pub completed_deps: usize,
    pub current_dep: Option<String>,
    pub current_step: Option<DepsCompilationStep>,
    pub error: Option<String>,
}

pub open spec fn step_label(s: DepsCompilationStep) -> Seq<char> {
    match s {
        DepsCompilationStep::Downloading => "Téléchargement"@,
        DepsCompilationStep::Building => "Compilation"@,
        DepsCompilationStep::Verifying => "Vérification"@,
    }
}

impl LoadingState {
    /// Waiting, nothing known yet.
    pub fn new() -> (r: Self)
        ensures
            r.total_deps == 0,
            r.completed_deps == 0,
            r.current_dep.is_none(),
            r.current_step.is_none(),
            r.error.is_none(),
    {
        LoadingState {
            total_deps: 0,
            completed_deps: 0,
            current_dep: None,
            current_step: None,
            error: None,
        }
    }

    /// The screen state for a status report from the daemon.
    pub fn from_status(status: DepsStatusInfo) -> (r: Self)
        ensures
            r.total_deps == status.total_count,
            r.completed_deps == status.completed_count,
            r.current_dep == status.current_dep,
            r.current_step == status.current_step,
            r.error.is_none(),
    {
        LoadingState {
            total_deps: status.total_count,
            completed_deps: status.completed_count,
            current_dep: status.current_dep,
            current_step: status.current_step,
            error: None,
        }
    }

    /// Percentage of dependencies built, rounded down (0 when there are
    /// none, capped at the largest `u16`).
    pub fn progress_percent(&self) -> (r: u16)
        ensures
            self.total_deps == 0 ==> r == 0,
            self.total_deps > 0 ==> r == (if self.completed_deps as int * 100 / self.total_deps as int
                > u16::MAX {
                u16::MAX as int
            } else {
                self.completed_deps as int * 100 / self.total_deps as int
            }),
    {
        if self.total_deps == 0 {
            0
        } else {
            assert(self.completed_deps as int * 100 / self.total_deps as int <= self.completed_deps as int * 100)
                by (nonlinear_arith)
                requires self.total_deps > 0;
            let p: u128 = (self.completed_deps as u128 * 100) / self.total_deps as u128;
            if p > u16::MAX as u128 {
                u16::MAX
            } else {
                p as u16
            }
        }
    }

    /// `"<dependency>: <stage>..."` while a dependency is being worked on.
    pub fn step_text(&self) -> (r: Option<String>)
        ensures
            (self.current_dep is Some && self.current_step is Some) ==> r is Some && r->Some_0@
                == self.current_dep->Some_0@ + ": "@ + step_label(self.current_step->Some_0)
                + "..."@,
            !(self.current_dep is Some && self.current_step is Some) ==> r is None,
    {
        match (&self.current_dep, &self.current_step) {
            (Some(dep), Some(step)) => {
                let label = match step {
                    DepsCompilationStep::Downloading => "Téléchargement",
                    DepsCompilationStep::Building => "Compilation",
                    DepsCompilationStep::Verifying => "Vérification",
                };
                Some(dep.clone().concat(": ").concat(label).concat("..."))
            },
            _ => None,
        }
    }
}

impl Default for LoadingState {
    fn default() -> (r: Self)
        ensures
            r.total_deps == 0,
            r.completed_deps == 0,
            r.current_dep.is_none(),
            r.current_step.is_none(),
            r.error.is_none(),
    {
        LoadingState::new()
    }
}

/// One line of the file browser.
#[derive(Debug, Clone)]
pub struct DirEntry {
    pub path: String,
    pub name: String,
    pub is_dir: bool,
    pub is_video: bool,
}

/// Confirmations the client can ask for.
#[derive(Debug, Clone, Copy, PartialEq, Eq, Structural)]
pub enum ConfirmAction {
    CancelJob,
    RemoveFromHistory,
    ClearHistory,
    Quit,
}

/// Modal dialogs of the client.
#[derive(Debug, Clone)]
pub enum Dialog {
    EncodeConfig(EncodeConfigDialog),
    Confirm { message: String, on_confirm: ConfirmAction },
    Error { message: String },
}

/// Index of the last `c` before `i`, or -1.
pub open spec fn last_index(p: Seq<char>, c: char, i: int) -> int
    decreases i,
{
    if i <= 0 {
        -1
    } else if p[i - 1] == c {
        i - 1
    } else {
        last_index(p, c, i - 1)
    }
}

/// The last path component.
pub open spec fn file_name_of(p: Seq<char>) -> Seq<char> {
    p.subrange(last_index(p, '/', p.len() as int) + 1, p.len() as int)
}

/// Start of the extension in `p` (after its dot), or -1 when the file
/// name has none: no dot, or only a leading one.
pub open spec fn extension_start(p: Seq<char>) -> int {
    let slash = last_index(p, '/', p.len() as int);
    let dot = last_index(p, '.', p.len() as int);
    if dot > slash + 1 {
        dot + 1
    } else {
        -1
    }
}

pub open spec fn ascii_lower(c: char) -> char {
    if 'A' <= c && c <= 'Z' {
        (((c as u8) + 32) as u8) as char
    } else {
        c
    }
}

pub open spec fn lower_text(t: Seq<char>) -> Seq<char> {
    t.map_values(|c: char| ascii_lower(c))
}

/// Container extensions the browser offers for encoding.
pub open spec fn video_extensions() -> Seq<Seq<char>> {
    seq!["mp4"@, "mkv"@, "avi"@, "mov"@, "webm"@, "flv"@, "wmv"@, "m4v"@, "m2ts"@]
}

/// The path has one of the video extensions, ignoring ASCII case.
pub open spec fn is_video_path(p: Seq<char>) -> bool {
    let k = extension_start(p);
    k >= 0 && video_extensions().contains(lower_text(p.subrange(k, p.len() as int)))
}

pub(crate) fn find_last(t: &str, c: char) -> (r: usize)
    ensures
        r as int == last_index(t@, c, t@.len() as int) + 1,
        r <= t@.len(),
{
    let mut i: usize = t.unicode_len();
    let ghost n = t@.len() as int;
    while i > 0 && t.get_char(i - 1) != c
        invariant
            i <= n,
            n == t@.len(),
            last_index(t@, c, n) == last_index(t@, c, i as int),
        decreases i,
    {
        i = i - 1;
    }
    i
}

fn lowered(t: &str, from: usize) -> (r: Vec<char>)
    requires
        from <= t@.len(),
    ensures
        r@ == lower_text(t@.subrange(from as int, t@.len() as int)),
{
    let n = t.unicode_len();
    let mut out: Vec<char> = Vec::new();
    let mut i = from;
    while i < n
        invariant
            n == t@.len(),
            from <= i <= n,
            out@ == lower_text(t@.subrange(from as int, i as int)),
        decreases n - i,
    {
        let c = t.get_char(i);
        let l = if 'A' <= c && c <= 'Z' {
            ((c as u8) + 32) as char
        } else {
            c
        };
        out.push(l);
        i = i + 1;
        proof {
            assert(out@ =~= lower_text(t@.subrange(from as int, i as int)));
        }
    }
    out
}

/// Whether the path names a video file by its extension.
pub fn is_video_file(path: &str) -> (r: bool)
    ensures
        r == is_video_path(path@),
{
    let after_slash = find_last(path, '/');
    let after_dot = find_last(path, '.');
    if !(after_dot > after_slash && after_dot - after_slash > 1) {
        return false;
    }
    let ext = lowered(path, after_dot);
    let known = ["mp4", "mkv", "avi", "mov", "webm", "flv", "wmv", "m4v", "m2ts"];
    let mut i: usize = 0;
    let ghost target = lower_text(path@.subrange(after_dot as int, path@.len() as int));
    proof {
        assert(known@.map_values(|s: &str| s@) =~= video_extensions());
    }
    while i < 9
        invariant
            i <= 9,
            known@.len() == 9,
            known@.map_values(|s: &str| s@) == video_extensions(),
            ext@ == target,
            extension_start(path@) == after_dot as int,
            target == lower_text(path@.subrange(after_dot as int, path@.len() as int)),
            forall|k: int| 0 <= k < i ==> video_extensions()[k] != target,
        decreases 9 - i,
    {
        if crate::text::equals_text(&ext, known[i]) {
            proof {
                assert(known@.map_values(|s: &str| s@)[i as int] == known@[i as int]@);
                assert(video_extensions()[i as int] == target);
                assert(video_extensions().contains(target));
            }
            return true;
        }
        i = i + 1;
    }
    false
}

/// Output path proposed for a single input: its extension replaced by
/// `.av1.mkv`.
pub open spec fn default_output(input: Seq<char>) -> Seq<char> {
    let k = extension_start(input);
    let stem = if k >= 0 {
        input.subrange(0, k - 1)
    } else {
        input
    };
    stem + ".av1.mkv"@
}

/// The encode settings dialog, for one file or a batch.
#[derive(Debug, Clone)]
pub struct EncodeConfigDialog {
    pub input_paths: Vec<String>,
    pub output_path: String,
    pub output_path_string: String,
    pub output_path_cursor: usize,
    pub is_editing_output: bool,
    pub config: EncodingConfig,
    pub selected_field: usize,
}

/// Index of the last field (output path) of the dialog.
pub const LAST_FIELD: usize = 5;

impl EncodeConfigDialog {
    /// Dialog for a single file.
    pub fn new(input_path: String) -> (r: Self)
        ensures
            r.input_paths@ == seq![input_path],
            r.output_path@ == default_output(input_path@),
            r.output_path_string@ == r.output_path@,
            r.selected_field == 0,
            !r.is_editing_output,
    {
        EncodeConfigDialog::new_batch(vec![input_path])
    }

    /// Dialog for several files; their outputs are named automatically.
    pub fn new_batch(input_paths: Vec<String>) -> (r: Self)
        ensures
            r.input_paths@ == input_paths@,
            input_paths@.len() == 1 ==> r.output_path@ == default_output(input_paths@[0]@),
            input_paths@.len() != 1 ==> r.output_path@ == "<auto-generated>"@,
            r.output_path_string@ == r.output_path@,
            r.output_path_cursor == 0,
            r.selected_field == 0,
            !r.is_editing_output,
    {
        let output_path = if input_paths.len() == 1 {
            let input = input_paths[0].as_str();
            let after_slash = find_last(input, '/');
            let after_dot = find_last(input, '.');
            let stem = if after_dot > after_slash && after_dot - after_slash > 1 {
                String::from_str(input.substring_char(0, after_dot - 1))
            } else {
                String::from_str(input)
            };
            stem.concat(".av1.mkv")
        } else {
            String::from_str("<auto-generated>")
        };
        let output_path_string = output_path.clone();
        EncodeConfigDialog {
            input_paths,
            output_path,
            output_path_string,
            output_path_cursor: 0,
            is_editing_output: false,
            config: EncodingConfig::default(),
            selected_field: 0,
        }
    }

    pub fn is_batch(&self) -> (r: bool)
        ensures
            r == (self.input_paths@.len() > 1),
    {
        self.input_paths.len() > 1
    }

    pub fn move_field_up(&mut self)
        ensures
            *final(self) == (EncodeConfigDialog {
                selected_field: if old(self).selected_field > 0 {
                    (old(self).selected_field - 1) as usize
                } else {
                    old(self).selected_field
                },
                ..*old(self)
            }),
    {
        if self.selected_field > 0 {
            self.selected_field = self.selected_field - 1;
        }
    }

    pub fn move_field_down(&mut self)
        ensures
            *final(self) == (EncodeConfigDialog {
                selected_field: if old(self).selected_field < LAST_FIELD {
                    (old(self).selected_field + 1) as usize
                } else {
                    old(self).selected_field
                },
                ..*old(self)
            }),
    {
        if self.selected_field < LAST_FIELD {
            self.selected_field = self.selected_field + 1;
        }
    }

    /// Begin editing the output path, cursor at its end; not for batches.
    pub fn start_editing_output(&mut self)
        ensures
            old(self).input_paths@.len() > 1 ==> *final(self) == *old(self),
            old(self).input_paths@.len() <= 1 ==> final(self).is_editing_output
                && final(self).output_path_cursor == old(self).output_path_string@.len()
                && final(self).output_path_string == old(self).output_path_string
                && final(self).output_path == old(self).output_path,
    {
        if self.is_batch() {
            return;
        }
        self.is_editing_output = true;
        self.output_path_cursor = self.output_path_string.as_str().unicode_len();
    }

    /// Stop editing and take the edited text as the output path.
    pub fn stop_editing_output(&mut self)
        ensures
            !final(self).is_editing_output,
            final(self).output_path@ == old(self).output_path_string@,
            final(self).output_path_string == old(self).output_path_string,
    {
        self.is_editing_output = false;
        self.sync_output_path();
    }

    /// Take the edited text as the output path.
    pub fn sync_output_path(&mut self)
        ensures
            final(self).output_path@ == old(self).output_path_string@,
            final(self).output_path_string == old(self).output_path_string,
            final(self).is_editing_output == old(self).is_editing_output,
    {
        self.output_path = self.output_path_string.clone();
    }
}

fn position_of(v: &Vec<String>, path: &str) -> (r: Option<usize>)
    ensures
        match r {
            Some(i) => i < v@.len() && v@[i as int]@ == path@,
            None => !texts(v@).contains(path@),
        },
{
    let mut i: usize = 0;
    while i < v.len()
        invariant
            i <= v@.len(),
            forall|k: int| 0 <= k < i ==> v@[k]@ != path@,
        decreases v@.len() - i,
    {
        if same_text(v[i].as_str(), path) {
            return Some(i);
        }
        i = i + 1;
    }
    proof {
        if texts(v@).contains(path@) {
            let k = choose|k: int| 0 <= k < texts(v@).len() && texts(v@)[k] == path@;
            assert(v@[k]@ == path@);
        }
    }
    None
}

proof fn lemma_remove_unique(s: Seq<Seq<char>>, i: int)
    requires
        s.no_duplicates(),
        0 <= i < s.len(),
    ensures
        !s.remove(i).contains(s[i]),
        s.remove(i).no_duplicates(),
{
    let r = s.remove(i);
    if r.contains(s[i]) {
        let k = choose|k: int| 0 <= k < r.len() && r[k] == s[i];
        if k < i {
            assert(s[k] == s[i]);
        } else {
            assert(s[k + 1] == s[i]);
        }
    }
    assert forall|a: int, b: int| 0 <= a < r.len() && 0 <= b < r.len() && a != b implies r[a] != r[b] by {
        let x = if a < i { a } else { a + 1 };
        let y = if b < i { b } else { b + 1 };
        assert(r[a] == s[x] && r[b] == s[y]);
    }
}

/// `a` sorts before or equal to `b`, character by character.
pub open spec fn text_le(a: Seq<char>, b: Seq<char>) -> bool
    decreases a.len(),
{
    if a.len() == 0 {
        true
    } else if b.len() == 0 {
        false
    } else if a[0] != b[0] {
        a[0] < b[0]
    } else {
        text_le(a.drop_first(), b.drop_first())
    }
}

proof fn lemma_text_le_total(a: Seq<char>, b: Seq<char>)
    ensures
        text_le(a, b) || text_le(b, a),
    decreases a.len(),
{
    if a.len() > 0 && b.len() > 0 && a[0] == b[0] {
        lemma_text_le_total(a.drop_first(), b.drop_first());
    }
}

proof fn lemma_text_le_trans(a: Seq<char>, b: Seq<char>, c: Seq<char>)
    requires
        text_le(a, b),
        text_le(b, c),
    ensures
        text_le(a, c),
    decreases a.len(),
{
    if a.len() > 0 && b.len() > 0 && c.len() > 0 && a[0] == b[0] && b[0] == c[0] {
        lemma_text_le_trans(a.drop_first(), b.drop_first(), c.drop_first());
    }
}

pub open spec fn sorted_texts(s: Seq<Seq<char>>) -> bool {
    forall|i: int, j: int| 0 <= i < j < s.len() ==> text_le(s[i], s[j])
}

fn text_le_exec(a: &str, b: &str) -> (r: bool)
    ensures
        r == text_le(a@, b@),
{
    let n = a.unicode_len();
    let m = b.unicode_len();
    let mut i: usize = 0;
    proof {
        assert(a@.subrange(0, n as int) =~= a@);
        assert(b@.subrange(0, m as int) =~= b@);
    }
    loop
        invariant
            n == a@.len(),
            m == b@.len(),
            i <= n,
            i <= m,
            text_le(a@, b@) == text_le(a@.subrange(i as int, n as int), b@.subrange(i as int, m as int)),
        decreases n - i,
    {
        let ghost sa = a@.subrange(i as int, n as int);
        let ghost sb = b@.subrange(i as int, m as int);
        if i == n {
            return true;
        }
        if i == m {
            return false;
        }
        let ca = a.get_char(i);
        let cb = b.get_char(i);
        proof {
            assert(sa[0] == ca && sb[0] == cb);
        }
        if ca != cb {
            return ca < cb;
        }
        proof {
            assert(sa.drop_first() =~= a@.subrange(i + 1, n as int));
            assert(sb.drop_first() =~= b@.subrange(i + 1, m as int));
        }
        i = i + 1;
    }
}

/// `v` in character order.
fn sorted_copy(v: &Vec<String>) -> (r: Vec<String>)
    ensures
        r@.len() == v@.len() || !texts(v@).no_duplicates(),
        sorted_texts(texts(r@)),
        forall|p: Seq<char>| texts(r@).contains(p) <==> texts(v@).contains(p),
{
    let mut out: Vec<String> = Vec::new();
    let mut i: usize = 0;
    while i < v.len()
        invariant
            i <= v@.len(),
            sorted_texts(texts(out@)),
            forall|p: Seq<char>|
                texts(out@).contains(p) <==> texts(v@.subrange(0, i as int)).contains(p),
            texts(v@).no_duplicates() ==> out@.len() == i,
        decreases v@.len() - i,
    {
        let x = v[i].clone();
        let mut p: usize = 0;
        while p < out.len() && text_le_exec(out[p].as_str(), x.as_str())
            invariant
                p <= out@.len(),
                forall|k: int| 0 <= k < p ==> text_le(#[trigger] out@[k]@, x@),
            decreases out@.len() - p,
        {
            p = p + 1;
        }
        let ghost before = out@;
        proof {
            if p < out@.len() {
                lemma_text_le_total(out@[p as int]@, x@);
                assert forall|k: int| p <= k < out@.len() implies text_le(x@, #[trigger] out@[k]@) by {
                    if k > p {
                        assert(texts(out@)[p as int] == out@[p as int]@);
                        assert(texts(out@)[k] == out@[k]@);
                        lemma_text_le_trans(x@, out@[p as int]@, out@[k]@);
                    }
                }
            }
        }
        out.insert(p, x);
        proof {
            let t = texts(out@);
            let tb = texts(before);
            assert(t.len() == tb.len() + 1);
            assert forall|k: int| 0 <= k < p implies t[k] == tb[k] by {
                assert(out@[k] == before[k]);
            }
            assert forall|k: int| p < k < t.len() implies t[k] == tb[k - 1] by {
                assert(out@[k] == before[k - 1]);
            }
            assert(t[p as int] == v@[i as int]@);
            assert forall|a: int, b: int| 0 <= a < b < t.len() implies text_le(t[a], t[b]) by {
                if a < p && b > p {
                    lemma_text_le_trans(t[a], v@[i as int]@, t[b]);
                }
            }
            assert(v@.subrange(0, i as int + 1) =~= v@.subrange(0, i as int).push(v@[i as int]));
            let vs = texts(v@.subrange(0, i as int + 1));
            let vb = texts(v@.subrange(0, i as int));
            assert(vs =~= vb.push(v@[i as int]@));
            assert forall|q: Seq<char>| t.contains(q) <==> vs.contains(q) by {
                if t.contains(q) {
                    let k = choose|k: int| 0 <= k < t.len() && t[k] == q;
                    if k < p {
                        assert(tb[k] == q);
                        assert(tb.contains(q));
                        let j = choose|j: int| 0 <= j < vb.len() && vb[j] == q;
                        assert(vs[j] == q);
                    } else if k > p {
                        assert(tb[k - 1] == q);
                        assert(tb.contains(q));
                        let j = choose|j: int| 0 <= j < vb.len() && vb[j] == q;
                        assert(vs[j] == q);
                    } else {
                        assert(vs[i as int] == q);
                    }
                }
                if vs.contains(q) {
                    let j = choose|j: int| 0 <= j < vs.len() && vs[j] == q;
                    if j < i {
                        assert(vb[j] == q);
                        assert(vb.contains(q));
                        assert(tb.contains(q));
                        let k = choose|k: int| 0 <= k < tb.len() && tb[k] == q;
                        if k < p {
                            assert(t[k] == q);
                        } else {
                            assert(t[k + 1] == q);
                        }
                    } else {
                        assert(t[p as int] == q);
                    }
                }
            }
        }
        i = i + 1;
    }
    proof {
        assert(v@.subrange(0, v@.len() as int) =~= v@);
    }
    out
}

/// `p` is the path of a video entry of `entries` other than `..`.
pub open spec fn is_listed_video(entries: Seq<DirEntry>, p: Seq<char>) -> bool {
    exists|k: int|
        0 <= k < entries.len() && entries[k].is_video && entries[k].name@ != ".."@
            && #[trigger] entries[k].path@ == p
}

/// The file browser: the listed directory and the chosen videos.
pub struct FileBrowserState {
    pub current_dir: String,
    pub entries: Vec<DirEntry>,
    pub selected_files: Vec<String>,
}

impl FileBrowserState {
    /// Chosen paths, in the order they were chosen.
    pub open spec fn selection(&self) -> Seq<Seq<char>> {
        texts(self.selected_files@)
    }

    /// No path is chosen twice.
    pub open spec fn wf(&self) -> bool {
        self.selection().no_duplicates()
    }

    /// An empty browser at `start_dir`; the caller lists the directory
    /// into it with `set_entries`.
    pub fn new(start_dir: String) -> (r: Self)
        ensures
            r.wf(),
            r.current_dir == start_dir,
            r.entries@.len() == 0,
            r.selection().len() == 0,
    {
        proof {
            assert(texts(Seq::<String>::empty()) =~= Seq::<Seq<char>>::empty());
        }
        FileBrowserState { current_dir: start_dir, entries: Vec::new(), selected_files: Vec::new() }
    }

    /// Replace the listing of the current directory.
    pub fn set_entries(&mut self, entries: Vec<DirEntry>)
        requires
            old(self).wf(),
        ensures
            final(self).wf(),
            final(self).entries == entries,
            final(self).current_dir == old(self).current_dir,
            final(self).selection() == old(self).selection(),
    {
        self.entries = entries;
    }

    /// Move to another directory, dropping the listing and the selection.
    pub fn navigate_to(&mut self, path: String)
        ensures
            final(self).wf(),
            final(self).current_dir == path,
            final(self).entries@.len() == 0,
            final(self).selection().len() == 0,
    {
        self.current_dir = path;
        self.entries = Vec::new();
        self.selected_files = Vec::new();
        proof {
            assert(texts(self.selected_files@) =~= Seq::<Seq<char>>::empty());
        }
    }

    pub fn get_selected(&self, index: usize) -> (r: Option<&DirEntry>)
        ensures
            index < self.entries@.len() ==> r == Some(&self.entries@[index as int]),
            index >= self.entries@.len() ==> r.is_none(),
    {
        if index < self.entries.len() {
            Some(&self.entries[index])
        } else {
            None
        }
    }

    pub fn is_selected(&self, path: &str) -> (r: bool)
        ensures
            r == self.selection().contains(path@),
    {
        match position_of(&self.selected_files, path) {
            Some(i) => {
                proof {
                    assert(self.selection()[i as int] == path@);
                }
                true
            },
            None => false,
        }
    }

    fn add_path(&mut self, path: &String)
        requires
            old(self).wf(),
        ensures
            final(self).wf(),
            final(self).current_dir == old(self).current_dir,
            final(self).entries == old(self).entries,
            old(self).selection().contains(path@) ==> final(self).selection() == old(self).selection(),
            !old(self).selection().contains(path@) ==> final(self).selection() == old(self).selection().push(path@),
    {
        match position_of(&self.selected_files, path.as_str()) {
            None => {
                let copy = path.clone();
                self.selected_files.push(copy);
                proof {
                    assert(self.selected_files@ =~= old(self).selected_files@.push(*path));
                    assert(texts(self.selected_files@) =~= texts(old(self).selected_files@).push(path@));
                    let t = texts(self.selected_files@);
                    assert forall|a: int, b: int| 0 <= a < t.len() && 0 <= b < t.len() && a != b implies t[a]
                        != t[b] by {
                        if a == t.len() - 1 {
                            assert(!texts(old(self).selected_files@).contains(t[a]));
                            assert(texts(old(self).selected_files@)[b] == t[b]);
                        } else if b == t.len() - 1 {
                            assert(texts(old(self).selected_files@)[a] == t[a]);
                        }
                    }
                }
            },
            Some(i) => {
                proof {
                    assert(texts(self.selected_files@)[i as int] == path@);
                }
            },
        }
    }

    /// Select or unselect the video at `index`; other entries are ignored.
    pub fn toggle_selection(&mut self, index: usize)
        requires
            old(self).wf(),
        ensures
            final(self).wf(),
            final(self).current_dir == old(self).current_dir,
            final(self).entries == old(self).entries,
            !(index < old(self).entries@.len() && old(self).entries@[index as int].is_video) ==> final(self).selection() == old(self).selection(),
            index < old(self).entries@.len() && old(self).entries@[index as int].is_video ==> {
                let p = old(self).entries@[index as int].path@;
                &&& old(self).selection().contains(p) ==> exists|k: int|
                    0 <= k < old(self).selection().len() && old(self).selection()[k] == p
                        && #[trigger] final(self).selection() == old(self).selection().remove(k)
                &&& old(self).selection().contains(p) ==> !final(self).selection().contains(p)
                &&& !old(self).selection().contains(p) ==> final(self).selection() == old(self).selection().push(p)
            },
    {
        if index >= self.entries.len() || !self.entries[index].is_video {
            return;
        }
        let path = self.entries[index].path.clone();
        match position_of(&self.selected_files, path.as_str()) {
            Some(i) => {
                let ghost before = self.selected_files@;
                let _ = self.selected_files.remove(i);
                proof {
                    assert(texts(self.selected_files@) =~= texts(before).remove(i as int));
                    lemma_remove_unique(texts(before), i as int);
                }
            },
            None => {
                self.selected_files.push(path);
                proof {
                    assert(texts(self.selected_files@) =~= texts(old(self).selected_files@).push(
                        old(self).entries@[index as int].path@,
                    ));
                }
            },
        }
    }

    /// Select every video of the listing.
    pub fn select_all_videos(&mut self)
        requires
            old(self).wf(),
        ensures
            final(self).wf(),
            final(self).current_dir == old(self).current_dir,
            final(self).entries == old(self).entries,
            forall|p: Seq<char>|
                #[trigger] final(self).selection().contains(p) <==> (old(self).selection().contains(p)
                    || is_listed_video(old(self).entries@, p)),
    {
        let mut i: usize = 0;
        while i < self.entries.len()
            invariant
                self.wf(),
                i <= self.entries@.len(),
                self.entries == old(self).entries,
                self.current_dir == old(self).current_dir,
                forall|p: Seq<char>|
                    #[trigger] self.selection().contains(p) <==> (old(self).selection().contains(p)
                        || is_listed_video(self.entries@.subrange(0, i as int), p)),
            decreases self.entries@.len() - i,
        {
            let ghost before = self.selection();
            let ghost e0 = self.entries@.subrange(0, i as int);
            let ghost e1 = self.entries@.subrange(0, i as int + 1);
            let ghost item = self.entries@[i as int];
            let picked = self.entries[i].is_video && !same_text(self.entries[i].name.as_str(), "..");
            if picked {
                let path = self.entries[i].path.clone();
                self.add_path(&path);
                proof {
                    if !before.contains(path@) {
                        assert forall|p: Seq<char>| before.contains(p) implies self.selection().contains(p) by {
                            let k = choose|k: int| 0 <= k < before.len() && before[k] == p;
                            assert(self.selection()[k] == p);
                        }
                        assert(self.selection()[before.len() as int] == path@);
                        assert forall|p: Seq<char>| self.selection().contains(p) implies before.contains(p)
                            || p == path@ by {
                            let k = choose|k: int| 0 <= k < self.selection().len() && self.selection()[k] == p;
                            if k < before.len() {
                                assert(before[k] == p);
                            }
                        }
                    }
                }
            }
            proof {
                assert forall|p: Seq<char>| is_listed_video(e1, p) <==> (is_listed_video(e0, p) || (
                    item.is_video && item.name@ != ".."@ && item.path@ == p)) by {
                    if is_listed_video(e1, p) {
                        let k = choose|k: int|
                            0 <= k < e1.len() && e1[k].is_video && e1[k].name@ != ".."@ && #[trigger] e1[k].path@ == p;
                        if k < i {
                            assert(e0[k] == e1[k]);
                        }
                    }
                    if is_listed_video(e0, p) {
                        let k = choose|k: int|
                            0 <= k < e0.len() && e0[k].is_video && e0[k].name@ != ".."@ && #[trigger] e0[k].path@ == p;
                        assert(e1[k] == e0[k]);
                    }
                    if item.is_video && item.name@ != ".."@ && item.path@ == p {
                        assert(e1[i as int] == item);
                    }
                }
                assert(picked == (item.is_video && item.name@ != ".."@));
                assert forall|p: Seq<char>| self.selection().contains(p) <==> (before.contains(p) || (
                    item.is_video && item.name@ != ".."@ && item.path@ == p)) by {
                    if picked && item.path@ == p && before.contains(p) {
                        assert(self.selection() == before);
                    }
                }
                assert forall|p: Seq<char>| #[trigger] self.selection().contains(p) <==> (old(self).selection().contains(p)
                    || is_listed_video(e1, p)) by {
                    assert(before.contains(p) <==> (old(self).selection().contains(p) || is_listed_video(e0, p)));
                }
            }
            i = i + 1;
        }
        proof {
            assert(self.entries@.subrange(0, self.entries@.len() as int) =~= self.entries@);
        }
    }

    pub fn clear_selection(&mut self)
        ensures
            final(self).wf(),
            final(self).selection().len() == 0,
            final(self).current_dir == old(self).current_dir,
            final(self).entries == old(self).entries,
    {
        self.selected_files.clear();
        proof {
            assert(texts(self.selected_files@) =~= Seq::<Seq<char>>::empty());
        }
    }

    /// The chosen paths, in character order.
    pub fn get_selected_files(&self) -> (r: Vec<String>)
        requires
            self.wf(),
        ensures
            r@.len() == self.selection().len(),
            sorted_texts(texts(r@)),
            forall|p: Seq<char>| texts(r@).contains(p) <==> self.selection().contains(p),
    {
        sorted_copy(&self.selected_files)
    }
}

/// Everything the interactive client shows.
pub struct AppState {
    pub current_view: Screen,
    pub should_quit: bool,
    pub loading_state: Option<LoadingState>,
    pub file_browser: FileBrowserState,
    pub queue_jobs: Vec<EncodingJob>,
    pub active_jobs: Vec<EncodingJob>,
    pub history_jobs: Vec<EncodingJob>,
    /// Highlighted line of the current list.
    pub selected_index: usize,
    pub dialog: Option<Dialog>,
    pub status_message: Option<String>,
}

impl AppState {
    /// Length of the list the current screen shows.
    pub open spec fn list_len(&self) -> nat {
        match self.current_view {
            Screen::Loading => 0,
            Screen::FileBrowser => self.file_browser.entries@.len(),
            Screen::Queue => self.queue_jobs@.len(),
            Screen::Active => self.active_jobs@.len(),
            Screen::History => self.history_jobs@.len(),
        }
    }

    /// Start on the loading screen with an empty browser at `start_dir`.
    pub fn new(start_dir: String) -> (r: Self)
        ensures
            r.current_view == Screen::Loading,
            !r.should_quit,
            r.loading_state is Some,
            r.file_browser.current_dir == start_dir,
            r.file_browser.wf(),
            r.queue_jobs@.len() == 0 && r.active_jobs@.len() == 0 && r.history_jobs@.len() == 0,
            r.selected_index == 0,
            r.dialog is None,
            r.status_message is None,
    {
        AppState {
            current_view: Screen::Loading,
            should_quit: false,
            loading_state: Some(LoadingState::new()),
            file_browser: FileBrowserState::new(start_dir),
            queue_jobs: Vec::new(),
            active_jobs: Vec::new(),
            history_jobs: Vec::new(),
            selected_index: 0,
            dialog: None,
            status_message: None,
        }
    }

    /// Show another screen, highlighting its first line.
    pub fn switch_view(&mut self, view: Screen)
        ensures
            final(self).current_view == view,
            final(self).selected_index == 0,
    {
        self.current_view = view;
        self.selected_index = 0;
    }

    pub fn move_up(&mut self)
        ensures
            final(self).selected_index == if old(self).selected_index > 0 {
                (old(self).selected_index - 1) as usize
            } else {
                0
            },
            final(self).current_view == old(self).current_view,
    {
        if self.selected_index > 0 {
            self.selected_index = self.selected_index - 1;
        }
    }

    /// Move the highlight down, stopping at the last line.
    pub fn move_down(&mut self)
        ensures
            final(self).selected_index == if old(self).selected_index + 1 < old(self).list_len() {
                (old(self).selected_index + 1) as usize
            } else {
                old(self).selected_index
            },
            final(self).current_view == old(self).current_view,
    {
        let max = self.get_current_list_len();
        if max > 0 && self.selected_index < max - 1 {
            self.selected_index = self.selected_index + 1;
        }
    }

    fn get_current_list_len(&self) -> (r: usize)
        ensures
            r == self.list_len(),
    {
        match self.current_view {
            Screen::Loading => 0,
            Screen::FileBrowser => self.file_browser.entries.len(),
            Screen::Queue => self.queue_jobs.len(),
            Screen::Active => self.active_jobs.len(),
            Screen::History => self.history_jobs.len(),
        }
    }

    pub fn set_status(&mut self, message: String)
        ensures
            final(self).status_message == Some(message),
            final(self).current_view == old(self).current_view,
    {
        self.status_message = Some(message);
    }

    pub fn clear_status(&mut self)
        ensures
            final(self).status_message is None,
            final(self).current_view == old(self).current_view,
    {
        self.status_message = None;
    }
}

} // verus!
