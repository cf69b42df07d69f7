use vstd::prelude::*;
use vstd::string::*;
use crate::paths::{join_path, joined, AppPaths};
use crate::text::same_text;

verus! {

/// Where each tool is taken from: `"system"` (found on the search path)
/// or `"compiled"` (built locally).
#[derive(Debug, Clone)]
pub struct BinarySourceSettings {
    pub ffmpeg_source: String,
    pub svt_av1_source: String,
    pub aom_source: String,
}

/// The default source for ffmpeg and ffprobe.
pub fn default_system() -> (r: String)
    ensures
        r@ == "system"@,
{
    String::from_str("system")
}

/// The default source for the AV1 encoders.
pub fn default_compiled() -> (r: String)
    ensures
        r@ == "compiled"@,
{
    String::from_str("compiled")
}

impl Default for BinarySourceSettings {
    fn default() -> (r: Self)
        ensures
            r.ffmpeg_source@ == "system"@,
            r.svt_av1_source@ == "compiled"@,
            r.aom_source@ == "compiled"@,
    {
        BinarySourceSettings {
            ffmpeg_source: default_system(),
            svt_av1_source: default_compiled(),
            aom_source: default_compiled(),
        }
    }
}

/// Which of the four required tools are usable.
#[derive(Debug, Clone, Copy, PartialEq, Eq, Structural)]
pub struct DependencyStatus {
    pub ffmpeg: bool,
    pub ffprobe: bool,
    pub svt_av1: bool,
    pub aomenc: bool,
}

/// Names of the missing tools, in the fixed order ffmpeg, ffprobe,
/// SvtAv1EncApp, aomenc.
pub open spec fn missing_names(s: DependencyStatus) -> Seq<Seq<char>> {
    let a = if s.ffmpeg { Seq::empty() } else { seq!["ffmpeg"@] };
    let b = if s.ffprobe { a } else { a.push("ffprobe"@) };
    let c = if s.svt_av1 { b } else { b.push("SvtAv1EncApp"@) };
    if s.aomenc { c } else { c.push("aomenc"@) }
}

impl DependencyStatus {
    pub fn all_present(&self) -> (r: bool)
        ensures
            r == (self.ffmpeg && self.ffprobe && self.svt_av1 && self.aomenc),
    {
        self.ffmpeg && self.ffprobe && self.svt_av1 && self.aomenc
    }

    pub fn missing(&self) -> (r: Vec<&'static str>)
        ensures
            r@.map_values(|s: &str| s@) == missing_names(*self),
    {
        let mut out: Vec<&'static str> = Vec::new();
        if !self.ffmpeg {
            out.push("ffmpeg");
        }
        if !self.ffprobe {
            out.push("ffprobe");
        }
        if !self.svt_av1 {
            out.push("SvtAv1EncApp");
        }
        if !self.aomenc {
            out.push("aomenc");
        }
        proof {
            assert(out@.map_values(|s: &str| s@) =~= missing_names(*self));
        }
        out
    }
}

/// Looks for the tools in the local build directory.
#[derive(Debug, Clone)]
pub struct DependencyDetector {
    bin_dir: String,
}

impl DependencyDetector {
    pub closed spec fn dir(&self) -> Seq<char> {
        self.bin_dir@
    }

    pub fn new(bin_dir: String) -> (r: Self)
        ensures
            r.dir() == bin_dir@,
    {
        DependencyDetector { bin_dir }
    }

    /// The tools a complete installation holds.
    pub fn required_binaries() -> (r: Vec<&'static str>)
        ensures
            r@.map_values(|s: &str| s@) == seq!["ffmpeg"@, "ffprobe"@, "SvtAv1EncApp"@, "aomenc"@],
    {
        let out = vec!["ffmpeg", "ffprobe", "SvtAv1EncApp", "aomenc"];
        proof {
            assert(out@.map_values(|s: &str| s@) =~= seq![
                "ffmpeg"@,
                "ffprobe"@,
                "SvtAv1EncApp"@,
                "aomenc"@,
            ]);
        }
        out
    }

    /// Where a locally built tool lives.
    pub fn binary_path(&self, name: &str) -> (r: String)
        ensures
            r@ == joined(self.dir(), name@),
    {
        join_path(self.bin_dir.as_str(), name)
    }

    /// Status from the presence of each required tool, in the order of
    /// `required_binaries`.
    pub fn status_from(found: &Vec<bool>) -> (r: DependencyStatus)
        requires
            found@.len() == 4,
        ensures
            r == (DependencyStatus {
                ffmpeg: found@[0],
                ffprobe: found@[1],
                svt_av1: found@[2],
                aomenc: found@[3],
            }),
    {
        DependencyStatus { ffmpeg: found[0], ffprobe: found[1], svt_av1: found[2], aomenc: found[3] }
    }

    /// Build tools that compiling the dependencies needs.
    pub fn system_build_tools() -> (r: Vec<&'static str>)
        ensures
            r@.map_values(|s: &str| s@) == seq!["gcc"@, "g++"@, "make"@, "cmake"@, "git"@, "nasm"@],
    {
        let out = vec!["gcc", "g++", "make", "cmake", "git", "nasm"];
        proof {
            assert(out@.map_values(|s: &str| s@) =~= seq![
                "gcc"@,
                "g++"@,
                "make"@,
                "cmake"@,
                "git"@,
                "nasm"@,
            ]);
        }
        out
    }
}

/// Whether the settings ask for the system copy of the named tool.
pub open spec fn prefers_system(config: BinarySourceSettings, name: Seq<char>) -> bool {
    if name == "ffmpeg"@ || name == "ffprobe"@ {
        config.ffmpeg_source@ == "system"@
    } else if name == "SvtAv1EncApp"@ {
        config.svt_av1_source@ == "system"@
    } else if name == "aomenc"@ {
        config.aom_source@ == "system"@
    } else {
        false
    }
}

/// Decides where each tool is taken from.
#[derive(Debug, Clone)]
pub struct DependencyManager {
    paths: AppPaths,
    config: BinarySourceSettings,
}

impl DependencyManager {
    pub closed spec fn settings(&self) -> BinarySourceSettings {
        self.config
    }

    pub closed spec fn bin_dir(&self) -> Seq<char> {
        self.paths.deps_bin_dir@
    }

    pub fn new(paths: AppPaths, config: BinarySourceSettings) -> (r: Self)
        ensures
            r.settings() == config,
            r.bin_dir() == paths.deps_bin_dir@,
    {
        DependencyManager { paths, config }
    }

    /// A detector for the local build directory.
    pub fn detector(&self) -> (r: DependencyDetector)
        ensures
            r.dir() == self.bin_dir(),
    {
        DependencyDetector::new(self.paths.deps_bin_dir.clone())
    }

    /// Whether `name` should first be looked up on the system.
    pub fn uses_system_binary(&self, name: &str) -> (r: bool)
        ensures
            r == prefers_system(self.settings(), name@),
    {
        if same_text(name, "ffmpeg") || same_text(name, "ffprobe") {
            same_text(self.config.ffmpeg_source.as_str(), "system")
        } else if same_text(name, "SvtAv1EncApp") {
            same_text(self.config.svt_av1_source.as_str(), "system")
        } else if same_text(name, "aomenc") {
            same_text(self.config.aom_source.as_str(), "system")
        } else {
            false
        }
    }

    /// Path of a tool, from the preferred source when it has one and from
    /// the other source otherwise. `system_copy` is the result of searching
    /// the system; `local_exists` says whether the locally built copy is
    /// there. With neither, the local path is given.
    pub fn get_binary_path(&self, name: &str, system_copy: Option<String>, local_exists: bool) -> (r:
        String)
        ensures
            prefers_system(self.settings(), name@) ==> match system_copy {
                Some(s) => r == s,
                None => r@ == joined(self.bin_dir(), name@),
            },
            !prefers_system(self.settings(), name@) ==> if local_exists {
                r@ == joined(self.bin_dir(), name@)
            } else {
                match system_copy {
                    Some(s) => r == s,
                    None => r@ == joined(self.bin_dir(), name@),
                }
            },
    {
        let system_first = self.uses_system_binary(name);
        if system_first || !local_exists {
            if let Some(p) = system_copy {
                return p;
            }
        }
        join_path(self.paths.deps_bin_dir.as_str(), name)
    }
}

/// Holds the directory that dependency sources are fetched into.
#[derive(Debug, Clone)]
pub struct Downloader {
    pub src_dir: String,
}

impl Downloader {
    pub fn new(src_dir: String) -> (r: Self)
        ensures
            r.src_dir == src_dir,
    {
        Downloader { src_dir }
    }
}

/// Builds libaom.
#[derive(Debug, Clone)]
pub struct AomBuilder {
    pub downloader: Downloader,
}

impl AomBuilder {
    pub fn new(src_dir: String) -> (r: Self)
        ensures
            r.downloader.src_dir == src_dir,
    {
        AomBuilder { downloader: Downloader::new(src_dir) }
    }

    pub fn name(&self) -> (r: &'static str)
        ensures
            r@ == "libaom"@,
    {
        "libaom"
    }
}

/// Builds ffmpeg and ffprobe.
#[derive(Debug, Clone)]
pub struct FFmpegBuilder {
    pub downloader: Downloader,
}

impl FFmpegBuilder {
    pub fn new(src_dir: String) -> (r: Self)
        ensures
            r.downloader.src_dir == src_dir,
    {
        FFmpegBuilder { downloader: Downloader::new(src_dir) }
    }

    pub fn name(&self) -> (r: &'static str)
        ensures
            r@ == "ffmpeg"@,
    {
        "ffmpeg"
    }
}

/// Builds mkvtoolnix.
#[derive(Debug, Clone)]
pub struct MkvtoolnixBuilder {
    pub downloader: Downloader,
}

impl MkvtoolnixBuilder {
    pub fn new(src_dir: String) -> (r: Self)
        ensures
            r.downloader.src_dir == src_dir,
    {
        MkvtoolnixBuilder { downloader: Downloader::new(src_dir) }
    }

    pub fn name(&self) -> (r: &'static str)
        ensures
            r@ == "mkvtoolnix"@,
    {
        "mkvtoolnix"
    }
}

/// Installs a prebuilt ffmpeg.
#[derive(Debug, Clone)]
pub struct PrecompiledFFmpegBuilder {
    pub downloader: Downloader,
}

impl PrecompiledFFmpegBuilder {
    pub fn new(src_dir: String) -> (r: Self)
        ensures
            r.downloader.src_dir == src_dir,
    {
        PrecompiledFFmpegBuilder { downloader: Downloader::new(src_dir) }
    }

    pub fn name(&self) -> (r: &'static str)
        ensures
            r@ == "ffmpeg-precompiled"@,
    {
        "ffmpeg-precompiled"
    }
}

/// Builds SVT-AV1-psy.
#[derive(Debug, Clone)]
pub struct SvtAv1Builder {
    pub downloader: Downloader,
}

impl SvtAv1Builder {
    pub fn new(src_dir: String) -> (r: Self)
        ensures
            r.downloader.src_dir == src_dir,
    {
        SvtAv1Builder { downloader: Downloader::new(src_dir) }
    }

    pub fn name(&self) -> (r: &'static str)
        ensures
            r@ == "SVT-AV1-psy"@,
    {
        "SVT-AV1-psy"
    }
}

} // verus!
