//! What the setup stages run: where the tools are downloaded from, how the
//! archives are unpacked, the commands that install Python and its
//! packages, how an installed interpreter is recognised, which PyTorch build
//! suits the machine's GPU, and how a finished command's outcome reads.
use vstd::prelude::*;
use crate::layout::{path_join, uv_path, vendor_dir, vendor_dir_spec, Platform};
use crate::text::{
    chars_of, ends_with, find_char, has_suffix, owned, parse_u32, parse_u32_spec, push_str,
    same_text, texts, trim, trim_bounds,
};

verus! {


/// A program to run and its arguments.
#[derive(Clone, Debug)]
pub struct ToolCommand {
    pub program: String,
    pub args: Vec<String>,
}

fn args_of(items: &Vec<&str>) -> (out: Vec<String>)
    ensures
        texts(out@) == items@.map_values(|s: &str| s@),
{
    let mut out: Vec<String> = Vec::new();
    let mut i: usize = 0;
    while i < items.len()
        invariant
            i <= items.len(),
            out@.len() == i,
            forall|j: int| 0 <= j < i ==> #[trigger] out@[j]@ == items@[j]@,
        decreases items.len() - i,
    {
        out.push(owned(items[i]));
        i = i + 1;
    }
    assert(texts(out@) =~= items@.map_values(|s: &str| s@));
    out
}

// ---------------------------------------------------------------------------
// Downloads
// ---------------------------------------------------------------------------

/// The two tools that setup downloads.
#[derive(Clone, Copy, Debug, PartialEq, Eq, Structural)]
pub enum Tool {
    Ffmpeg,
    Uv,
}

/// The tool's name as it appears in reports and file names.
pub open spec fn tool_name(t: Tool) -> Seq<char> {
    match t {
        Tool::Ffmpeg => "ffmpeg"@,
        Tool::Uv => "uv"@,
    }
}

/// The supported platforms, as (operating system, architecture) pairs.
pub open spec fn supported(os: Seq<char>, arch: Seq<char>) -> bool {
    ||| (os == "linux"@ && arch == "x86_64"@)
    ||| (os == "linux"@ && arch == "aarch64"@)
    ||| (os == "macos"@ && arch == "aarch64"@)
    ||| (os == "macos"@ && arch == "x86_64"@)
    ||| (os == "windows"@ && arch == "x86_64"@)
}

/// Where the tool is downloaded from on a supported platform.
pub open spec fn download_url_spec(t: Tool, os: Seq<char>, arch: Seq<char>) -> Seq<char> {
    match t {
        Tool::Ffmpeg => if os == "linux"@ && arch == "x86_64"@ {
            "https://johnvansickle.com/ffmpeg/releases/ffmpeg-release-amd64-static.tar.xz"@
        } else if os == "linux"@ && arch == "aarch64"@ {
            "https://johnvansickle.com/ffmpeg/releases/ffmpeg-release-arm64-static.tar.xz"@
        } else if os == "macos"@ && arch == "aarch64"@ {
            "https://www.osxexperts.net/ffmpeg7arm.zip"@
        } else if os == "macos"@ && arch == "x86_64"@ {
            "https://www.osxexperts.net/ffmpeg7intel.zip"@
        } else {
            "https://www.gyan.dev/ffmpeg/builds/ffmpeg-release-essentials.zip"@
        },
        Tool::Uv => if os == "linux"@ && arch == "x86_64"@ {
            "https://github.com/astral-sh/uv/releases/latest/download/uv-x86_64-unknown-linux-gnu.tar.gz"@
        } else if os == "linux"@ && arch == "aarch64"@ {
            "https://github.com/astral-sh/uv/releases/latest/download/uv-aarch64-unknown-linux-gnu.tar.gz"@
        } else if os == "macos"@ && arch == "aarch64"@ {
            "https://github.com/astral-sh/uv/releases/latest/download/uv-aarch64-apple-darwin.tar.gz"@
        } else if os == "macos"@ && arch == "x86_64"@ {
            "https://github.com/astral-sh/uv/releases/latest/download/uv-x86_64-apple-darwin.tar.gz"@
        } else {
            "https://github.com/astral-sh/uv/releases/latest/download/uv-x86_64-pc-windows-msvc.zip"@
        },
    }
}

/// The report for an unsupported platform.
pub open spec fn unsupported_message(t: Tool, os: Seq<char>, arch: Seq<char>) -> Seq<char> {
    "Unsupported platform for "@ + tool_name(t) + ": "@ + os + "-"@ + arch
}

fn tool_text(t: Tool) -> (s: &'static str)
    ensures
        s@ == tool_name(t),
{
    match t {
        Tool::Ffmpeg => "ffmpeg",
        Tool::Uv => "uv",
    }
}

/// Where `tool` is downloaded from on `platform`, or why it cannot be.
pub fn download_url(tool: Tool, platform: &Platform) -> (r: Result<String, String>)
    ensures
        supported(platform.os@, platform.arch@) ==> (r matches Ok(u) && u@ == download_url_spec(
            tool,
            platform.os@,
            platform.arch@,
        )),
        !supported(platform.os@, platform.arch@) ==> (r matches Err(e) && e@
            == unsupported_message(tool, platform.os@, platform.arch@)),
{
    let os = platform.os.as_str();
    let arch = platform.arch.as_str();
    let linux = same_text(os, "linux");
    let macos = same_text(os, "macos");
    let windows = same_text(os, "windows");
    let x86 = same_text(arch, "x86_64");
    let arm = same_text(arch, "aarch64");
    let url = match tool {
        Tool::Ffmpeg => if linux && x86 {
            "https://johnvansickle.com/ffmpeg/releases/ffmpeg-release-amd64-static.tar.xz"
        } else if linux && arm {
            "https://johnvansickle.com/ffmpeg/releases/ffmpeg-release-arm64-static.tar.xz"
        } else if macos && arm {
            "https://www.osxexperts.net/ffmpeg7arm.zip"
        } else if macos && x86 {
            "https://www.osxexperts.net/ffmpeg7intel.zip"
        } else if windows && x86 {
            "https://www.gyan.dev/ffmpeg/builds/ffmpeg-release-essentials.zip"
        } else {
            ""
        },
        Tool::Uv => if linux && x86 {
            "https://github.com/astral-sh/uv/releases/latest/download/uv-x86_64-unknown-linux-gnu.tar.gz"
        } else if linux && arm {
            "https://github.com/astral-sh/uv/releases/latest/download/uv-aarch64-unknown-linux-gnu.tar.gz"
        } else if macos && arm {
            "https://github.com/astral-sh/uv/releases/latest/download/uv-aarch64-apple-darwin.tar.gz"
        } else if macos && x86 {
            "https://github.com/astral-sh/uv/releases/latest/download/uv-x86_64-apple-darwin.tar.gz"
        } else if windows && x86 {
            "https://github.com/astral-sh/uv/releases/latest/download/uv-x86_64-pc-windows-msvc.zip"
        } else {
            ""
        },
    };
    if (linux && (x86 || arm)) || (macos && (x86 || arm)) || (windows && x86) {
        Ok(owned(url))
    } else {
        let mut e = owned("Unsupported platform for ");
        push_str(&mut e, tool_text(tool));
        push_str(&mut e, ": ");
        push_str(&mut e, os);
        push_str(&mut e, "-");
        push_str(&mut e, arch);
        Err(e)
    }
}

/// The name the downloaded archive is saved under: `<tool>.tar.xz` or
/// `<tool>.zip` for ffmpeg, `<tool>.zip` or `<tool>.tar.gz` for uv, going by
/// how the download's address ends.
pub open spec fn archive_name_spec(t: Tool, url: Seq<char>) -> Seq<char> {
    match t {
        Tool::Ffmpeg => if ends_with(url, ".tar.xz"@) {
            "ffmpeg.tar.xz"@
        } else {
            "ffmpeg.zip"@
        },
        Tool::Uv => if ends_with(url, ".zip"@) {
            "uv.zip"@
        } else {
            "uv.tar.gz"@
        },
    }
}

/// The file name for the archive downloaded from `url`.
pub fn archive_name(tool: Tool, url: &str) -> (out: String)
    ensures
        out@ == archive_name_spec(tool, url@),
{
    let u = chars_of(url);
    match tool {
        Tool::Ffmpeg => {
            let sfx = chars_of(".tar.xz");
            if has_suffix(&u, &sfx) {
                owned("ffmpeg.tar.xz")
            } else {
                owned("ffmpeg.zip")
            }
        },
        Tool::Uv => {
            let sfx = chars_of(".zip");
            if has_suffix(&u, &sfx) {
                owned("uv.zip")
            } else {
                owned("uv.tar.gz")
            }
        },
    }
}

/// The scratch directory a download is unpacked in: `_tmp_<tool>` under the
/// vendor directory.
pub fn download_scratch_dir(tool: Tool, home: &str, platform: &Platform) -> (out: String)
    ensures
        out@ == path_join(
            vendor_dir_spec(home@, platform.windows()),
            "_tmp_"@ + tool_name(tool),
            platform.windows(),
        ),
{
    let dir = vendor_dir(home, platform);
    let mut name = owned("_tmp_");
    push_str(&mut name, tool_text(tool));
    crate::layout::join(dir.as_str(), name.as_str(), platform.is_windows())
}

/// The executable file name to look for inside an unpacked archive.
pub fn binary_name(tool: Tool, platform: &Platform) -> (out: String)
    ensures
        out@ == crate::layout::exe_name(tool_name(tool), platform.windows()),
{
    let mut name = owned(tool_text(tool));
    if platform.is_windows() {
        push_str(&mut name, ".exe");
    }
    name
}

// ---------------------------------------------------------------------------
// Unpacking archives
// ---------------------------------------------------------------------------

/// How an archive is unpacked into `dest`, going by its name: `tar` for
/// `.tar.xz` and `.tar.gz`; for `.zip`, `tar` on Windows and `unzip`
/// elsewhere.
pub open spec fn extraction_spec(archive: Seq<char>, dest: Seq<char>, windows: bool) -> Option<
    (Seq<char>, Seq<Seq<char>>),
> {
    if ends_with(archive, ".tar.xz"@) {
        Some(("tar"@, seq!["-xJf"@, archive, "-C"@, dest]))
    } else if ends_with(archive, ".tar.gz"@) {
        Some(("tar"@, seq!["-xzf"@, archive, "-C"@, dest]))
    } else if ends_with(archive, ".zip"@) {
        if windows {
            Some(("tar"@, seq!["-xf"@, archive, "-C"@, dest]))
        } else {
            Some(("unzip"@, seq!["-o"@, archive, "-d"@, dest]))
        }
    } else {
        None
    }
}

/// The command that unpacks `archive` into `dest_dir`, or the report for an
/// archive of unknown format.
pub fn extract_archive(archive: &str, dest_dir: &str, platform: &Platform) -> (r: Result<
    ToolCommand,
    String,
>)
    ensures
        match extraction_spec(archive@, dest_dir@, platform.windows()) {
            Some((prog, args)) => r matches Ok(c) && c.program@ == prog && texts(c.args@)
                == args,
            None => r matches Err(e) && e@ == "Unknown archive format: "@ + archive@,
        },
{
    let a = chars_of(archive);
    let (program, flag, dest_flag) = if has_suffix(&a, &chars_of(".tar.xz")) {
        ("tar", "-xJf", "-C")
    } else if has_suffix(&a, &chars_of(".tar.gz")) {
        ("tar", "-xzf", "-C")
    } else if has_suffix(&a, &chars_of(".zip")) {
        if platform.is_windows() {
            ("tar", "-xf", "-C")
        } else {
            ("unzip", "-o", "-d")
        }
    } else {
        let mut e = owned("Unknown archive format: ");
        push_str(&mut e, archive);
        return Err(e);
    };
    let args = args_of(&vec![flag, archive, dest_flag, dest_dir]);
    let cmd = ToolCommand { program: owned(program), args };
    assert(texts(cmd.args@) =~= seq![flag@, archive@, dest_flag@, dest_dir@]);
    Ok(cmd)
}

// ---------------------------------------------------------------------------
// Running commands
// ---------------------------------------------------------------------------

/// How a command ended.
#[derive(Clone, Debug)]
pub enum CommandOutcome {
    /// The command could not be started, for the given reason.
    NotStarted(String),
    /// The command ran; whether it exited successfully and what it wrote to
    /// standard error.
    Exited { success: bool, stderr: String },
}

/// What a stage makes of a finished command: success when it exited
/// successfully; otherwise the report, made of the prefix that fits the
/// failure, `": "` and the reason or the error output.
pub fn check_outcome(outcome: &CommandOutcome, start_prefix: &str, failure_prefix: &str) -> (r:
    Result<(), String>)
    ensures
        match outcome {
            CommandOutcome::NotStarted(e) => r matches Err(m) && m@ == start_prefix@ + ": "@
                + e@,
            CommandOutcome::Exited { success, stderr } => if *success {
                r is Ok
            } else {
                r matches Err(m) && m@ == failure_prefix@ + ": "@ + stderr@
            },
        },
{
    match outcome {
        CommandOutcome::NotStarted(e) => {
            let mut m = owned(start_prefix);
            push_str(&mut m, ": ");
            push_str(&mut m, e.as_str());
            Err(m)
        },
        CommandOutcome::Exited { success, stderr } => {
            if *success {
                Ok(())
            } else {
                let mut m = owned(failure_prefix);
                push_str(&mut m, ": ");
                push_str(&mut m, stderr.as_str());
                Err(m)
            }
        },
    }
}

// ---------------------------------------------------------------------------
// Python
// ---------------------------------------------------------------------------

/// The interpreter's file name that marks an installed Python.
pub open spec fn python_binary_spec(windows: bool) -> Seq<char> {
    if windows {
        "python.exe"@
    } else {
        "python3.10"@
    }
}

/// The file name of the installed interpreter to look for.
pub fn python_binary_name(platform: &Platform) -> (out: &'static str)
    ensures
        out@ == python_binary_spec(platform.windows()),
{
    if platform.is_windows() {
        "python.exe"
    } else {
        "python3.10"
    }
}

/// The directory Python is installed into.
pub fn python_install_dir(home: &str, platform: &Platform) -> (out: String)
    ensures
        out@ == path_join(vendor_dir_spec(home@, platform.windows()), "python"@, platform.windows()),
{
    let dir = vendor_dir(home, platform);
    crate::layout::join(dir.as_str(), "python", platform.is_windows())
}

/// The command that installs Python into the vendor directory with uv.
pub fn python_install_command(home: &str, platform: &Platform) -> (c: ToolCommand)
    ensures
        c.program@ == path_join(
            vendor_dir_spec(home@, platform.windows()),
            crate::layout::exe_name("uv"@, platform.windows()),
            platform.windows(),
        ),
        texts(c.args@) == seq![
            "python"@,
            "install"@,
            "3.10"@,
            "--install-dir"@,
            path_join(vendor_dir_spec(home@, platform.windows()), "python"@, platform.windows()),
        ],
{
    let dir = python_install_dir(home, platform);
    let args = args_of(&vec!["python", "install", "3.10", "--install-dir", dir.as_str()]);
    let c = ToolCommand { program: uv_path(home, platform), args };
    assert(texts(c.args@) =~= seq!["python"@, "install"@, "3.10"@, "--install-dir"@, dir@]);
    c
}

/// One entry met while walking a directory tree.
#[derive(Clone, Debug)]
pub struct WalkEntry {
    pub path: String,
    pub file_name: String,
    pub is_file: bool,
}

/// The entry is a file called `name`.
pub open spec fn is_named_file(e: WalkEntry, name: Seq<char>) -> bool {
    e.is_file && e.file_name@ == name
}

/// The first entry of a directory walk that is a file called `name`.
pub fn find_file_named(entries: &Vec<WalkEntry>, name: &str) -> (r: Option<String>)
    ensures
        match r {
            Some(p) => exists|i: int|
                0 <= i < entries@.len() && is_named_file(entries@[i], name@) && p
                    == entries@[i].path && forall|j: int|
                    0 <= j < i ==> !is_named_file(#[trigger] entries@[j], name@),
            None => forall|i: int|
                0 <= i < entries@.len() ==> !is_named_file(#[trigger] entries@[i], name@),
        },
{
    let mut i: usize = 0;
    while i < entries.len()
        invariant
            i <= entries.len(),
            forall|j: int| 0 <= j < i ==> !is_named_file(#[trigger] entries@[j], name@),
        decreases entries.len() - i,
    {
        if entries[i].is_file && same_text(entries[i].file_name.as_str(), name) {
            return Some(entries[i].path.clone());
        }
        i = i + 1;
    }
    None
}

/// The installed interpreter among the entries found under the Python
/// installation directory.
pub fn find_installed_python(entries: &Vec<WalkEntry>, platform: &Platform) -> (r: Option<
    String,
>)
    ensures
        match r {
            Some(p) => exists|i: int|
                0 <= i < entries@.len() && is_named_file(
                    entries@[i],
                    python_binary_spec(platform.windows()),
                ) && p == entries@[i].path && forall|j: int|
                    0 <= j < i ==> !is_named_file(
                        #[trigger] entries@[j],
                        python_binary_spec(platform.windows()),
                    ),
            None => forall|i: int|
                0 <= i < entries@.len() ==> !is_named_file(
                    #[trigger] entries@[i],
                    python_binary_spec(platform.windows()),
                ),
        },
{
    find_file_named(entries, python_binary_name(platform))
}

/// The interpreter the virtual environment is made from: the first
/// installed one found, or the error that none was.
pub fn venv_base_python(entries: &Vec<WalkEntry>, platform: &Platform) -> (r: Result<String, String>)
    ensures
        match r {
            Ok(p) => exists|i: int|
                0 <= i < entries@.len() && is_named_file(
                    entries@[i],
                    python_binary_spec(platform.windows()),
                ) && p == entries@[i].path && forall|j: int|
                    0 <= j < i ==> !is_named_file(
                        #[trigger] entries@[j],
                        python_binary_spec(platform.windows()),
                    ),
            Err(e) => e@ == "Could not find installed Python — run python install first"@
                && forall|i: int|
                0 <= i < entries@.len() ==> !is_named_file(
                    #[trigger] entries@[i],
                    python_binary_spec(platform.windows()),
                ),
        },
{
    match find_installed_python(entries, platform) {
        Some(p) => Ok(p),
        None => Err(owned("Could not find installed Python — run python install first")),
    }
}

/// Python counts as installed when its directory exists and holds the
/// interpreter.
pub fn has_python_in(dir_is_dir: bool, entries: &Vec<WalkEntry>, platform: &Platform) -> (r:
    bool)
    ensures
        r == (dir_is_dir && exists|i: int|
            0 <= i < entries@.len() && is_named_file(
                #[trigger] entries@[i],
                python_binary_spec(platform.windows()),
            )),
{
    if !dir_is_dir {
        return false;
    }
    match find_installed_python(entries, platform) {
        Some(_) => true,
        None => false,
    }
}

/// The command that creates the virtual environment from the installed
/// interpreter.
pub fn venv_command(home: &str, platform: &Platform, installed_python: &str) -> (c: ToolCommand)
    ensures
        c.program@ == path_join(
            vendor_dir_spec(home@, platform.windows()),
            crate::layout::exe_name("uv"@, platform.windows()),
            platform.windows(),
        ),
        texts(c.args@) == seq![
            "venv"@,
            path_join(vendor_dir_spec(home@, platform.windows()), "venv"@, platform.windows()),
            "--python"@,
            installed_python@,
        ],
{
    let dir = vendor_dir(home, platform);
    let venv = crate::layout::join(dir.as_str(), "venv", platform.is_windows());
    let args = args_of(&vec!["venv", venv.as_str(), "--python", installed_python]);
    let c = ToolCommand { program: uv_path(home, platform), args };
    assert(texts(c.args@) =~= seq!["venv"@, venv@, "--python"@, installed_python@]);
    c
}

// ---------------------------------------------------------------------------
// GPU and PyTorch
// ---------------------------------------------------------------------------

/// The compute device and the package index to take PyTorch from.
#[derive(Clone, Copy, Debug)]
pub struct GpuInfo {
    pub device: &'static str,
    pub torch_index: &'static str,
}

/// The text before the first `.` of `s` (all of it when there is none).
pub open spec fn before_dot(s: Seq<char>) -> Seq<char> {
    if exists|i: int| 0 <= i < s.len() && s[i] == '.' {
        let i = choose|i: int|
            0 <= i < s.len() && s[i] == '.' && forall|j: int| 0 <= j < i ==> s[j] != '.';
        s.subrange(0, i)
    } else {
        s
    }
}

/// The major compute capability in the output of
/// `nvidia-smi --query-gpu=compute_cap`, if it reads as a number.
pub open spec fn compute_major(output: Seq<char>) -> Option<u32> {
    parse_u32_spec(before_dot(trim(output)))
}

/// The CUDA build to install: `cu128` for compute capability 10 and up,
/// `cu121` below that, and `cu126` when the capability is unknown (the
/// query failed or did not read as a number).
pub open spec fn cuda_index_spec(output: Option<Seq<char>>) -> Seq<char> {
    let major = match output {
        Some(o) => compute_major(o),
        None => None,
    };
    match major {
        Some(v) => if v >= 10 {
            "https://download.pytorch.org/whl/cu128"@
        } else {
            "https://download.pytorch.org/whl/cu121"@
        },
        None => "https://download.pytorch.org/whl/cu126"@,
    }
}

/// Reads the major compute capability out of the query's output.
pub fn parse_compute_major(output: &str) -> (r: Option<u32>)
    ensures
        r == compute_major(output@),
{
    let v = chars_of(output);
    let (lo, hi) = trim_bounds(&v, 0, v.len());
    assert(v@.subrange(0, v.len() as int) =~= v@);
    let ghost t = v@.subrange(lo as int, hi as int);
    let end = match find_char(&v, '.', lo) {
        Some(i) => if i < hi {
            i
        } else {
            hi
        },
        None => hi,
    };
    proof {
        if end < hi {
            let k = end - lo;
            assert(t[k] == '.');
            let c = choose|i: int|
                0 <= i < t.len() && t[i] == '.' && forall|j: int| 0 <= j < i ==> t[j] != '.';
            assert(forall|j: int| 0 <= j < k ==> t[j] == v@[lo + j]);
            if c < k {
                assert(t[c] == v@[lo + c]);
            }
            if k < c {
                assert(t[k] == '.');
            }
            assert(c == k);
            assert(before_dot(t) =~= v@.subrange(lo as int, end as int));
        } else {
            assert forall|i: int| 0 <= i < t.len() implies t[i] != '.' by {
                assert(t[i] == v@[lo + i]);
            }
            assert(before_dot(t) =~= v@.subrange(lo as int, end as int));
        }
    }
    parse_u32(&v, lo, end)
}

/// The PyTorch package index for an NVIDIA GPU, given the output of the
/// compute-capability query when the query succeeded.
pub fn query_cuda_index(output: Option<&str>) -> (r: &'static str)
    ensures
        r@ == cuda_index_spec(
            match output {
                Some(o) => Some(o@),
                None => None,
            },
        ),
{
    let major = match output {
        Some(o) => parse_compute_major(o),
        None => None,
    };
    match major {
        Some(v) => if v >= 10 {
            "https://download.pytorch.org/whl/cu128"
        } else {
            "https://download.pytorch.org/whl/cu121"
        },
        None => "https://download.pytorch.org/whl/cu126",
    }
}

/// Which accelerators were found on the machine.
#[derive(Clone, Debug)]
pub struct GpuProbe {
    /// `nvidia-smi` ran successfully.
    pub nvidia_smi_found: bool,
    /// The output of the compute-capability query, when it succeeded.
    pub compute_cap_output: Option<String>,
    /// `rocminfo` ran successfully.
    pub rocm_found: bool,
}

/// The device choice: Apple's MPS on macOS (with the CPU build of PyTorch),
/// otherwise CUDA when an NVIDIA GPU answers, ROCm when ROCm is installed,
/// and the CPU otherwise.
pub open spec fn gpu_spec(macos: bool, probe: GpuProbe) -> (Seq<char>, Seq<char>) {
    if macos {
        ("mps"@, "https://download.pytorch.org/whl/cpu"@)
    } else if probe.nvidia_smi_found {
        (
            "cuda"@,
            cuda_index_spec(
                match probe.compute_cap_output {
                    Some(o) => Some(o@),
                    None => None,
                },
            ),
        )
    } else if probe.rocm_found {
        ("rocm"@, "https://download.pytorch.org/whl/rocm6.3"@)
    } else {
        ("cpu"@, "https://download.pytorch.org/whl/cpu"@)
    }
}

/// Picks the compute device and PyTorch index for the machine.
pub fn detect_gpu(platform: &Platform, probe: &GpuProbe) -> (g: GpuInfo)
    ensures
        (g.device@, g.torch_index@) == gpu_spec(platform.os@ == "macos"@, *probe),
{
    if platform.is_macos() {
        GpuInfo { device: "mps", torch_index: "https://download.pytorch.org/whl/cpu" }
    } else if probe.nvidia_smi_found {
        let idx = match &probe.compute_cap_output {
            Some(o) => query_cuda_index(Some(o.as_str())),
            None => query_cuda_index(None),
        };
        GpuInfo { device: "cuda", torch_index: idx }
    } else if probe.rocm_found {
        GpuInfo { device: "rocm", torch_index: "https://download.pytorch.org/whl/rocm6.3" }
    } else {
        GpuInfo { device: "cpu", torch_index: "https://download.pytorch.org/whl/cpu" }
    }
}

/// The device has a GPU build of PyTorch (CUDA or ROCm).
pub open spec fn gpu_accelerated(device: Seq<char>) -> bool {
    device == "cuda"@ || device == "rocm"@
}

/// The report that opens the package stage.
pub fn compute_message(gpu: &GpuInfo) -> (m: String)
    ensures
        m@ == "Detected compute: "@ + gpu.device@ + " ("@ + gpu.torch_index@
            + "). Installing PyTorch..."@,
{
    let mut m = owned("Detected compute: ");
    push_str(&mut m, gpu.device);
    push_str(&mut m, " (");
    push_str(&mut m, gpu.torch_index);
    push_str(&mut m, "). Installing PyTorch...");
    m
}

/// The audio-separator package: its GPU flavour when PyTorch runs on a GPU.
pub fn audio_separator_package(device: &str) -> (p: &'static str)
    ensures
        gpu_accelerated(device@) ==> p@ == "audio-separator[gpu]>=0.25"@,
        !gpu_accelerated(device@) ==> p@ == "audio-separator>=0.25"@,
{
    if same_text(device, "cuda") || same_text(device, "rocm") {
        "audio-separator[gpu]>=0.25"
    } else {
        "audio-separator>=0.25"
    }
}

/// The command that installs the build dependencies into the environment.
pub fn build_deps_command(uv: &str, python: &str) -> (c: ToolCommand)
    ensures
        c.program@ == uv@,
        texts(c.args@) == seq![
            "pip"@,
            "install"@,
            "cython"@,
            "setuptools"@,
            "--python"@,
            python@,
        ],
{
    let args = args_of(&vec!["pip", "install", "cython", "setuptools", "--python", python]);
    let c = ToolCommand { program: owned(uv), args };
    assert(texts(c.args@) =~= seq![
        "pip"@,
        "install"@,
        "cython"@,
        "setuptools"@,
        "--python"@,
        python@,
    ]);
    c
}

/// The command that installs Demucs, WhisperX and audio-separator.
pub fn packages_command(uv: &str, python: &str, device: &str) -> (c: ToolCommand)
    ensures
        c.program@ == uv@,
        texts(c.args@) == seq![
            "pip"@,
            "install"@,
            "demucs>=4.0.0"@,
            "whisperx>=3.3.0"@,
            "soundfile"@,
            "huggingface_hub>=0.27.0"@,
            if gpu_accelerated(device@) {
                "audio-separator[gpu]>=0.25"@
            } else {
                "audio-separator>=0.25"@
            },
            "--python"@,
            python@,
        ],
{
    let pkg = audio_separator_package(device);
    let args = args_of(
        &vec![
            "pip",
            "install",
            "demucs>=4.0.0",
            "whisperx>=3.3.0",
            "soundfile",
            "huggingface_hub>=0.27.0",
            pkg,
            "--python",
            python,
        ],
    );
    let c = ToolCommand { program: owned(uv), args };
    assert(texts(c.args@) =~= seq![
        "pip"@,
        "install"@,
        "demucs>=4.0.0"@,
        "whisperx>=3.3.0"@,
        "soundfile"@,
        "huggingface_hub>=0.27.0"@,
        pkg@,
        "--python"@,
        python@,
    ]);
    c
}

/// For a GPU device, the label to report ("CUDA" or "ROCm") and the command
/// that reinstalls torch, torchaudio and torchvision from the GPU index;
/// nothing for other devices.
pub fn torch_command(uv: &str, python: &str, gpu: &GpuInfo) -> (r: Option<
    (&'static str, ToolCommand),
>)
    ensures
        !gpu_accelerated(gpu.device@) ==> r is None,
        gpu_accelerated(gpu.device@) ==> (r matches Some((label, c)) && label@ == (
        if gpu.device@ == "cuda"@ {
            "CUDA"@
        } else {
            "ROCm"@
        }) && c.program@ == uv@ && texts(c.args@) == seq![
            "pip"@,
            "install"@,
            "--reinstall-package"@,
            "torch"@,
            "--reinstall-package"@,
            "torchaudio"@,
            "--reinstall-package"@,
            "torchvision"@,
            "torch>=2.0.0"@,
            "torchaudio>=2.0.0"@,
            "torchvision>=0.15.0"@,
            "--python"@,
            python@,
            "--index-url"@,
            gpu.torch_index@,
        ]),
{
    let cuda = same_text(gpu.device, "cuda");
    let rocm = same_text(gpu.device, "rocm");
    if !(cuda || rocm) {
        return None;
    }
    let label = if cuda {
        "CUDA"
    } else {
        "ROCm"
    };
    let args = args_of(
        &vec![
            "pip",
            "install",
            "--reinstall-package",
            "torch",
            "--reinstall-package",
            "torchaudio",
            "--reinstall-package",
            "torchvision",
            "torch>=2.0.0",
            "torchaudio>=2.0.0",
            "torchvision>=0.15.0",
            "--python",
            python,
            "--index-url",
            gpu.torch_index,
        ],
    );
    let c = ToolCommand { program: owned(uv), args };
    assert(texts(c.args@) =~= seq![
        "pip"@,
        "install"@,
        "--reinstall-package"@,
        "torch"@,
        "--reinstall-package"@,
        "torchaudio"@,
        "--reinstall-package"@,
        "torchvision"@,
        "torch>=2.0.0"@,
        "torchaudio>=2.0.0"@,
        "torchvision>=0.15.0"@,
        "--python"@,
        python@,
        "--index-url"@,
        gpu.torch_index@,
    ]);
    Some((label, c))
}

// ---------------------------------------------------------------------------
// The steps' outcomes
// ---------------------------------------------------------------------------

/// The error a finished command gives, if any: when it could not start, the
/// start prefix and the reason; when it failed, the failure prefix and its
/// error output.
pub open spec fn outcome_error(outcome: CommandOutcome, start_prefix: Seq<char>, failure_prefix: Seq<
    char,
>) -> Option<Seq<char>> {
    match outcome {
        CommandOutcome::NotStarted(e) => Some(start_prefix + ": "@ + e@),
        CommandOutcome::Exited { success, stderr } => if success {
            None
        } else {
            Some(failure_prefix + ": "@ + stderr@)
        },
    }
}

/// A step's result carries exactly the error `e`, or succeeds when there is
/// none.
pub open spec fn result_is<T>(r: Result<T, String>, e: Option<Seq<char>>) -> bool {
    match r {
        Ok(_) => e is None,
        Err(m) => e == Some(m@),
    }
}

fn outcome_result(outcome: &CommandOutcome, start_prefix: &str, failure_prefix: &str) -> (r: Result<
    (),
    String,
>)
    ensures
        result_is(r, outcome_error(*outcome, start_prefix@, failure_prefix@)),
{
    check_outcome(outcome, start_prefix, failure_prefix)
}

/// What unpacking a downloaded archive came to.
pub fn extraction_result(outcome: &CommandOutcome) -> (r: Result<(), String>)
    ensures
        result_is(
            r,
            outcome_error(*outcome, "Failed to run extraction command"@, "Extraction failed"@),
        ),
{
    outcome_result(outcome, "Failed to run extraction command", "Extraction failed")
}

/// How a setup step begins: it is already done, with the detail to report,
/// or it reports a detail and runs a command.
#[derive(Clone, Debug)]
pub enum StepStart {
    Skip(&'static str),
    Run(&'static str, ToolCommand),
}

/// How installing Python begins: nothing to do when the install directory
/// already holds the interpreter; otherwise the install command runs.
pub fn python_install_start(
    home: &str,
    platform: &Platform,
    dir_is_dir: bool,
    entries: &Vec<WalkEntry>,
) -> (s: StepStart)
    ensures
        (dir_is_dir && exists|i: int|
            0 <= i < entries@.len() && is_named_file(
                #[trigger] entries@[i],
                python_binary_spec(platform.windows()),
            )) ==> (s matches StepStart::Skip(d) && d@ == "Already installed"@),
        !(dir_is_dir && exists|i: int|
            0 <= i < entries@.len() && is_named_file(
                #[trigger] entries@[i],
                python_binary_spec(platform.windows()),
            )) ==> (s matches StepStart::Run(d, c) && d@ == "Installing Python 3.10..."@
            && c.program@ == path_join(
            vendor_dir_spec(home@, platform.windows()),
            crate::layout::exe_name("uv"@, platform.windows()),
            platform.windows(),
        ) && texts(c.args@) == seq![
            "python"@,
            "install"@,
            "3.10"@,
            "--install-dir"@,
            path_join(vendor_dir_spec(home@, platform.windows()), "python"@, platform.windows()),
        ]),
{
    if has_python_in(dir_is_dir, entries, platform) {
        StepStart::Skip("Already installed")
    } else {
        StepStart::Run("Installing Python 3.10...", python_install_command(home, platform))
    }
}

/// What the Python install came to, with the detail reported on success.
pub fn python_install_result(outcome: &CommandOutcome) -> (r: Result<&'static str, String>)
    ensures
        result_is(r, outcome_error(*outcome, "Failed to run uv"@, "uv python install failed"@)),
        r matches Ok(d) ==> d@ == "Python 3.10 installed"@,
{
    match outcome_result(outcome, "Failed to run uv", "uv python install failed") {
        Ok(()) => Ok("Python 3.10 installed"),
        Err(e) => Err(e),
    }
}

/// What creating the virtual environment came to.
pub fn venv_result(outcome: &CommandOutcome) -> (r: Result<(), String>)
    ensures
        result_is(r, outcome_error(*outcome, "Failed to run uv venv"@, "uv venv failed"@)),
{
    outcome_result(outcome, "Failed to run uv venv", "uv venv failed")
}

/// What installing the build dependencies came to.
pub fn build_deps_result(outcome: &CommandOutcome) -> (r: Result<(), String>)
    ensures
        result_is(
            r,
            outcome_error(*outcome, "Failed to install build deps"@, "Build deps install failed"@),
        ),
{
    outcome_result(outcome, "Failed to install build deps", "Build deps install failed")
}

/// What installing the analyzer's packages came to.
pub fn packages_result(outcome: &CommandOutcome) -> (r: Result<(), String>)
    ensures
        result_is(
            r,
            outcome_error(*outcome, "Failed to run uv pip install"@, "Package install failed"@),
        ),
{
    outcome_result(outcome, "Failed to run uv pip install", "Package install failed")
}

/// What installing the GPU build of PyTorch came to, for the GPU named
/// `label` (CUDA or ROCm).
pub fn torch_result(label: &str, outcome: &CommandOutcome) -> (r: Result<(), String>)
    ensures
        result_is(
            r,
            outcome_error(
                *outcome,
                "Failed to install "@ + label@ + " PyTorch"@,
                label@ + " PyTorch install failed"@,
            ),
        ),
{
    let mut start = owned("Failed to install ");
    push_str(&mut start, label);
    push_str(&mut start, " PyTorch");
    let mut failure = owned(label);
    push_str(&mut failure, " PyTorch install failed");
    outcome_result(outcome, start.as_str(), failure.as_str())
}

/// The report while the GPU build of PyTorch installs.
pub fn torch_message(label: &str) -> (m: String)
    ensures
        m@ == "Installing "@ + label@ + " PyTorch..."@,
{
    let mut m = owned("Installing ");
    push_str(&mut m, label);
    push_str(&mut m, " PyTorch...");
    m
}

} // verus!
