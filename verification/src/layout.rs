//! Where the application keeps its files under the user's home directory.
//!
//! Paths are texts. The layout is
//!
//! ```text
//! <home>/.nightingale/
//!     cache/   videos/   models/
//!     vendor/  ffmpeg  uv  venv/  analyzer/  .ready
//! ```
//!
//! Each function takes the home directory (which the caller looks up) and
//! the platform the program runs on, since file names and separators differ
//! on Windows.
use vstd::prelude::*;
use crate::text::{chars_of, owned, push_str, same_text};

verus! {

/// The operating system and CPU architecture the program runs on, named as
/// `std::env::consts::OS` and `std::env::consts::ARCH` name them.
#[derive(Clone, Debug)]
pub struct Platform {
    pub os: String,
    pub arch: String,
}

impl Platform {
    /// The program runs on Windows.
    pub open spec fn windows(&self) -> bool {
        self.os@ == "windows"@
    }

    /// Whether the program runs on Windows.
    pub fn is_windows(&self) -> (r: bool)
        ensures
            r == self.windows(),
    {
        same_text(self.os.as_str(), "windows")
    }

    /// Whether the program runs on macOS.
    pub fn is_macos(&self) -> (r: bool)
        ensures
            r == (self.os@ == "macos"@),
    {
        same_text(self.os.as_str(), "macos")
    }
}

/// `c` separates path components (Windows also accepts `/`).
pub open spec fn is_sep(c: char, windows: bool) -> bool {
    c == '/' || (windows && c == '\\')
}

/// The separator written between components.
pub open spec fn main_sep(windows: bool) -> char {
    if windows {
        '\\'
    } else {
        '/'
    }
}

/// `base` with the relative component `part` appended: a separator goes
/// between them unless `base` is empty or already ends with one.
pub open spec fn path_join(base: Seq<char>, part: Seq<char>, windows: bool) -> Seq<char> {
    if base.len() == 0 || is_sep(base.last(), windows) {
        base + part
    } else {
        base.push(main_sep(windows)) + part
    }
}

/// Appends the relative component `part` to the path `base`.
pub fn join(base: &str, part: &str, windows: bool) -> (out: String)
    ensures
        out@ == path_join(base@, part@, windows),
{
    let v = chars_of(base);
    let mut out = owned(base);
    if v.len() > 0 {
        let last = v[v.len() - 1];
        assert(last == base@.last());
        if !(last == '/' || (windows && last == '\\')) {
            if windows {
                out.push('\\');
            } else {
                out.push('/');
            }
        }
    }
    push_str(&mut out, part);
    out
}

/// `<home>/.nightingale`
pub open spec fn app_dir_spec(home: Seq<char>, windows: bool) -> Seq<char> {
    path_join(home, ".nightingale"@, windows)
}

/// `<home>/.nightingale/vendor`
pub open spec fn vendor_dir_spec(home: Seq<char>, windows: bool) -> Seq<char> {
    path_join(app_dir_spec(home, windows), "vendor"@, windows)
}

/// The file name of an executable called `stem` on this platform.
pub open spec fn exe_name(stem: Seq<char>, windows: bool) -> Seq<char> {
    if windows {
        stem + ".exe"@
    } else {
        stem
    }
}

/// The directory that holds all of the application's data.
pub fn nightingale_dir(home: &str, platform: &Platform) -> (out: String)
    ensures
        out@ == app_dir_spec(home@, platform.windows()),
{
    join(home, ".nightingale", platform.is_windows())
}

/// The directory holding ffmpeg, uv, Python and the analyzer scripts.
pub fn vendor_dir(home: &str, platform: &Platform) -> (out: String)
    ensures
        out@ == vendor_dir_spec(home@, platform.windows()),
{
    let app = nightingale_dir(home, platform);
    join(app.as_str(), "vendor", platform.is_windows())
}

/// The directory where the machine-learning models are cached.
pub fn models_dir(home: &str, platform: &Platform) -> (out: String)
    ensures
        out@ == path_join(app_dir_spec(home@, platform.windows()), "models"@, platform.windows()),
{
    let app = nightingale_dir(home, platform);
    join(app.as_str(), "models", platform.is_windows())
}

/// The settings file, in the application directory.
pub fn config_path(home: &str, platform: &Platform) -> (out: String)
    ensures
        out@ == path_join(app_dir_spec(home@, platform.windows()), "config.json"@, platform.windows()),
{
    let app = nightingale_dir(home, platform);
    join(app.as_str(), "config.json", platform.is_windows())
}

/// The directory where downloaded video backgrounds are kept.
pub fn videos_dir(home: &str, platform: &Platform) -> (out: String)
    ensures
        out@ == path_join(app_dir_spec(home@, platform.windows()), "videos"@, platform.windows()),
{
    let app = nightingale_dir(home, platform);
    join(app.as_str(), "videos", platform.is_windows())
}

/// The directory where analysis results are cached.
pub fn cache_dir(home: &str, platform: &Platform) -> (out: String)
    ensures
        out@ == path_join(app_dir_spec(home@, platform.windows()), "cache"@, platform.windows()),
{
    let app = nightingale_dir(home, platform);
    join(app.as_str(), "cache", platform.is_windows())
}

/// The executable called `stem` inside the vendor directory.
fn vendor_exe(home: &str, platform: &Platform, stem: &str) -> (out: String)
    ensures
        out@ == path_join(
            vendor_dir_spec(home@, platform.windows()),
            exe_name(stem@, platform.windows()),
            platform.windows(),
        ),
{
    let dir = vendor_dir(home, platform);
    let mut name = owned(stem);
    if platform.is_windows() {
        push_str(&mut name, ".exe");
    }
    join(dir.as_str(), name.as_str(), platform.is_windows())
}

/// The bundled ffmpeg binary.
pub fn ffmpeg_path(home: &str, platform: &Platform) -> (out: String)
    ensures
        out@ == path_join(
            vendor_dir_spec(home@, platform.windows()),
            exe_name("ffmpeg"@, platform.windows()),
            platform.windows(),
        ),
{
    vendor_exe(home, platform, "ffmpeg")
}

/// The bundled uv binary.
pub fn uv_path(home: &str, platform: &Platform) -> (out: String)
    ensures
        out@ == path_join(
            vendor_dir_spec(home@, platform.windows()),
            exe_name("uv"@, platform.windows()),
            platform.windows(),
        ),
{
    vendor_exe(home, platform, "uv")
}

/// `venv/Scripts/python.exe` on Windows, `venv/bin/python` elsewhere, under
/// the vendor directory.
pub open spec fn python_path_spec(home: Seq<char>, windows: bool) -> Seq<char> {
    let venv = path_join(vendor_dir_spec(home, windows), "venv"@, windows);
    if windows {
        path_join(path_join(venv, "Scripts"@, windows), "python.exe"@, windows)
    } else {
        path_join(path_join(venv, "bin"@, windows), "python"@, windows)
    }
}

/// The Python interpreter of the virtual environment.
pub fn python_path(home: &str, platform: &Platform) -> (out: String)
    ensures
        out@ == python_path_spec(home@, platform.windows()),
{
    let w = platform.is_windows();
    let dir = vendor_dir(home, platform);
    let venv = join(dir.as_str(), "venv", w);
    if w {
        let scripts = join(venv.as_str(), "Scripts", w);
        join(scripts.as_str(), "python.exe", w)
    } else {
        let bin = join(venv.as_str(), "bin", w);
        join(bin.as_str(), "python", w)
    }
}

/// The directory the analyzer scripts are extracted to.
pub fn analyzer_dir(home: &str, platform: &Platform) -> (out: String)
    ensures
        out@ == path_join(vendor_dir_spec(home@, platform.windows()), "analyzer"@, platform.windows()),
{
    let dir = vendor_dir(home, platform);
    join(dir.as_str(), "analyzer", platform.is_windows())
}

/// The analyzer's entry script.
pub fn analyzer_script(home: &str, platform: &Platform) -> (out: String)
    ensures
        out@ == path_join(
            path_join(vendor_dir_spec(home@, platform.windows()), "analyzer"@, platform.windows()),
            "analyze.py"@,
            platform.windows(),
        ),
{
    let dir = analyzer_dir(home, platform);
    join(dir.as_str(), "analyze.py", platform.is_windows())
}

/// The marker file whose presence records that setup completed.
pub fn ready_marker(home: &str, platform: &Platform) -> (out: String)
    ensures
        out@ == path_join(vendor_dir_spec(home@, platform.windows()), ".ready"@, platform.windows()),
{
    let dir = vendor_dir(home, platform);
    join(dir.as_str(), ".ready", platform.is_windows())
}

/// Which of the files that a finished setup leaves behind exist.
#[derive(Clone, Copy, Debug)]
pub struct ReadyProbe {
    pub marker_is_file: bool,
    pub ffmpeg_is_file: bool,
    pub python_is_file: bool,
    pub analyzer_script_is_file: bool,
}

/// Setup is complete: the ready marker, ffmpeg, the virtual environment's
/// Python and the analyzer's entry script are all files.
pub fn is_ready(probe: &ReadyProbe) -> (r: bool)
    ensures
        r == (probe.marker_is_file && probe.ffmpeg_is_file && probe.python_is_file
            && probe.analyzer_script_is_file),
{
    probe.marker_is_file && probe.ffmpeg_is_file && probe.python_is_file
        && probe.analyzer_script_is_file
}

// ---------------------------------------------------------------------------
// Laws
// ---------------------------------------------------------------------------

/// `child` lies strictly inside the directory `dir`.
pub open spec fn inside(child: Seq<char>, dir: Seq<char>, windows: bool) -> bool {
    &&& child.len() > dir.len() + 1
    &&& child.subrange(0, dir.len() as int) == dir
    &&& is_sep(child[dir.len() as int], windows)
}

/// Joining a non-empty component onto a directory whose path does not end
/// in a separator gives a path inside that directory.
pub proof fn lemma_join_inside(base: Seq<char>, part: Seq<char>, windows: bool)
    requires
        base.len() > 0,
        !is_sep(base.last(), windows),
        part.len() > 0,
    ensures
        inside(path_join(base, part, windows), base, windows),
        path_join(base, part, windows).subrange(base.len() as int + 1, base.len() + 1 + part.len() as int)
            == part,
{
    let j = path_join(base, part, windows);
    assert(j.subrange(0, base.len() as int) =~= base);
    assert(j[base.len() as int] == main_sep(windows));
    assert(j.subrange(base.len() as int + 1, base.len() + 1 + part.len() as int) =~= part);
}

/// Being inside a directory passes on to paths joined below it.
pub proof fn lemma_inside_join(child: Seq<char>, dir: Seq<char>, part: Seq<char>, windows: bool)
    requires
        inside(child, dir, windows),
        !is_sep(child.last(), windows),
        part.len() > 0,
    ensures
        inside(path_join(child, part, windows), dir, windows),
{
    let j = path_join(child, part, windows);
    assert(j.subrange(0, dir.len() as int) =~= child.subrange(0, dir.len() as int));
    assert(j[dir.len() as int] == child[dir.len() as int]);
}

/// Every file of the vendor toolchain lies inside the vendor directory, and
/// the vendor directory lies inside the application directory.
pub proof fn law_vendor_files_inside_vendor_dir(home: Seq<char>, windows: bool)
    ensures
        inside(vendor_dir_spec(home, windows), app_dir_spec(home, windows), windows),
        inside(
            path_join(vendor_dir_spec(home, windows), exe_name("ffmpeg"@, windows), windows),
            vendor_dir_spec(home, windows),
            windows,
        ),
        inside(
            path_join(vendor_dir_spec(home, windows), exe_name("uv"@, windows), windows),
            vendor_dir_spec(home, windows),
            windows,
        ),
        inside(python_path_spec(home, windows), vendor_dir_spec(home, windows), windows),
        inside(
            path_join(vendor_dir_spec(home, windows), ".ready"@, windows),
            vendor_dir_spec(home, windows),
            windows,
        ),
        inside(
            path_join(vendor_dir_spec(home, windows), "analyzer"@, windows),
            vendor_dir_spec(home, windows),
            windows,
        ),
{
    reveal_strlit(".nightingale");
    reveal_strlit("vendor");
    reveal_strlit("ffmpeg");
    reveal_strlit("uv");
    reveal_strlit(".exe");
    reveal_strlit("venv");
    reveal_strlit("bin");
    reveal_strlit("python");
    reveal_strlit("Scripts");
    reveal_strlit("python.exe");
    reveal_strlit(".ready");
    reveal_strlit("analyzer");
    let app = app_dir_spec(home, windows);
    assert(app.last() == 'e');
    assert(app.len() > 0);
    let vd = vendor_dir_spec(home, windows);
    lemma_join_inside(app, "vendor"@, windows);
    assert(vd.last() == 'r');
    lemma_join_inside(vd, exe_name("ffmpeg"@, windows), windows);
    lemma_join_inside(vd, exe_name("uv"@, windows), windows);
    lemma_join_inside(vd, ".ready"@, windows);
    lemma_join_inside(vd, "analyzer"@, windows);
    let venv = path_join(vd, "venv"@, windows);
    lemma_join_inside(vd, "venv"@, windows);
    assert(venv.last() == 'v');
    if windows {
        let s = path_join(venv, "Scripts"@, windows);
        lemma_inside_join(venv, vd, "Scripts"@, windows);
        assert(s.last() == 's');
        lemma_inside_join(s, vd, "python.exe"@, windows);
    } else {
        let b = path_join(venv, "bin"@, windows);
        lemma_inside_join(venv, vd, "bin"@, windows);
        assert(b.last() == 'n');
        lemma_inside_join(b, vd, "python"@, windows);
    }
}

/// The toolchain's files directly inside the vendor directory have
/// different paths, so none of them overwrites another.
pub proof fn law_vendor_files_distinct(home: Seq<char>, windows: bool)
    ensures
        path_join(vendor_dir_spec(home, windows), exe_name("ffmpeg"@, windows), windows)
            != path_join(vendor_dir_spec(home, windows), exe_name("uv"@, windows), windows),
        path_join(vendor_dir_spec(home, windows), exe_name("ffmpeg"@, windows), windows)
            != path_join(vendor_dir_spec(home, windows), ".ready"@, windows),
        path_join(vendor_dir_spec(home, windows), exe_name("uv"@, windows), windows)
            != path_join(vendor_dir_spec(home, windows), ".ready"@, windows),
        path_join(vendor_dir_spec(home, windows), "analyzer"@, windows) != path_join(
            vendor_dir_spec(home, windows),
            ".ready"@,
            windows,
        ),
{
    reveal_strlit(".nightingale");
    reveal_strlit("vendor");
    reveal_strlit("ffmpeg");
    reveal_strlit("uv");
    reveal_strlit(".exe");
    reveal_strlit(".ready");
    reveal_strlit("analyzer");
    let vd = vendor_dir_spec(home, windows);
    let app = app_dir_spec(home, windows);
    assert(app.last() == 'e');
    assert(vd.last() == 'r');
    let n: int = vd.len() as int + 1;
    let f = path_join(vd, exe_name("ffmpeg"@, windows), windows);
    let u = path_join(vd, exe_name("uv"@, windows), windows);
    let r = path_join(vd, ".ready"@, windows);
    let a = path_join(vd, "analyzer"@, windows);
    assert(f[n] == 'f');
    assert(u[n] == 'u');
    assert(r[n] == '.');
    assert(a[n] == 'a');
}

/// Everything the application keeps lives under its directory in the home
/// directory: the models, the video backgrounds, the analysis cache and the
/// settings file.
pub proof fn law_data_inside_app_dir(home: Seq<char>, windows: bool)
    ensures
        inside(path_join(app_dir_spec(home, windows), "models"@, windows), app_dir_spec(home, windows), windows),
        inside(path_join(app_dir_spec(home, windows), "videos"@, windows), app_dir_spec(home, windows), windows),
        inside(path_join(app_dir_spec(home, windows), "cache"@, windows), app_dir_spec(home, windows), windows),
        inside(
            path_join(app_dir_spec(home, windows), "config.json"@, windows),
            app_dir_spec(home, windows),
            windows,
        ),
{
    reveal_strlit(".nightingale");
    reveal_strlit("models");
    reveal_strlit("videos");
    reveal_strlit("cache");
    reveal_strlit("config.json");
    let app = app_dir_spec(home, windows);
    assert(app.last() == 'e');
    lemma_join_inside(app, "models"@, windows);
    lemma_join_inside(app, "videos"@, windows);
    lemma_join_inside(app, "cache"@, windows);
    lemma_join_inside(app, "config.json"@, windows);
}

} // verus!
