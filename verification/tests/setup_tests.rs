use nightingale::bootstrap::{
    advance, done_report, error_report, first_stage, progress, send, send_done, send_error,
    BootstrapProgress, RunState, Stage,
};
use nightingale::layout::Platform;
use nightingale::toolchain::{
    archive_name, audio_separator_package, binary_name, build_deps_command, check_outcome,
    compute_message, detect_gpu, download_scratch_dir, download_url, extract_archive,
    find_file_named, find_installed_python, has_python_in, packages_command, parse_compute_major,
    python_binary_name, python_install_command, python_install_dir, query_cuda_index,
    torch_command, venv_base_python, venv_command, build_deps_result, extraction_result,
    packages_result, python_install_result, python_install_start, torch_message, torch_result,
    venv_result, StepStart, CommandOutcome, GpuProbe, Tool, WalkEntry,
};

fn platform(os: &str, arch: &str) -> Platform {
    Platform { os: os.to_string(), arch: arch.to_string() }
}

#[test]
fn reports_have_their_fixed_texts() {
    let p = progress("ffmpeg", "Downloading ffmpeg...".to_string());
    assert_eq!(p.step, "ffmpeg");
    assert_eq!(p.detail, "Downloading ffmpeg...");
    assert!(!p.done);
    assert!(p.error.is_none());
    let d = done_report();
    assert_eq!((d.step, d.detail.as_str(), d.done), ("Done", "Setup complete!", true));
    assert!(d.error.is_none());
    let e = error_report("boom".to_string());
    assert_eq!((e.step, e.detail.as_str(), e.done), ("Error", "", true));
    assert_eq!(e.error.as_deref(), Some("boom"));
}

#[test]
fn reports_reach_the_receiver() {
    let (tx, rx) = std::sync::mpsc::channel::<BootstrapProgress>();
    send(&tx, "uv", "uv ready".to_string());
    send_error(&tx, "bad".to_string());
    send_done(&tx);
    let got: Vec<BootstrapProgress> = rx.try_iter().collect();
    assert_eq!(got.len(), 3);
    assert_eq!(got[0].step, "uv");
    assert_eq!(got[0].detail, "uv ready");
    assert_eq!(got[1].error.as_deref(), Some("bad"));
    assert!(got[2].done && got[2].error.is_none());
}

#[test]
fn a_successful_setup_runs_every_stage_then_finishes() {
    let mut stage = first_stage();
    assert_eq!(stage, Stage::DownloadFfmpeg);
    let mut seen = vec![stage];
    loop {
        let (state, report) = advance(stage, Ok(()));
        match state {
            RunState::Running(next) => {
                assert!(report.is_none());
                stage = next;
                seen.push(next);
            }
            RunState::Finished => {
                let r = report.unwrap();
                assert_eq!(r.step, "Done");
                assert_eq!(r.detail, "Setup complete!");
                assert!(r.done);
                break;
            }
            RunState::Failed => panic!("no stage failed"),
        }
    }
    assert_eq!(seen.len(), 8);
    assert_eq!(seen[7], Stage::WriteReadyMarker);
}

#[test]
fn a_failed_stage_ends_the_setup_with_its_message() {
    let (state, report) = advance(Stage::InstallPackages, Err("no network".to_string()));
    assert_eq!(state, RunState::Failed);
    let r = report.unwrap();
    assert_eq!(r.step, "Error");
    assert_eq!(r.detail, "");
    assert_eq!(r.error.as_deref(), Some("Failed to install packages: no network"));
    let (state, report) = advance(Stage::DownloadFfmpeg, Err("404".to_string()));
    assert_eq!(state, RunState::Failed);
    assert_eq!(report.unwrap().error.as_deref(), Some("Failed to download ffmpeg: 404"));
    let (_, report) = advance(Stage::WriteReadyMarker, Err("disk full".to_string()));
    assert_eq!(report.unwrap().error.as_deref(), Some("Failed to write ready marker: disk full"));
}

#[test]
fn video_prefetch_never_fails_the_setup() {
    let (state, report) = advance(Stage::PrefetchVideos, Err("offline".to_string()));
    assert_eq!(state, RunState::Running(Stage::WriteReadyMarker));
    assert!(report.is_none());
}

#[test]
fn download_urls_per_platform() {
    assert_eq!(
        download_url(Tool::Ffmpeg, &platform("linux", "x86_64")).unwrap(),
        "https://johnvansickle.com/ffmpeg/releases/ffmpeg-release-amd64-static.tar.xz"
    );
    assert_eq!(
        download_url(Tool::Ffmpeg, &platform("macos", "aarch64")).unwrap(),
        "https://www.osxexperts.net/ffmpeg7arm.zip"
    );
    assert_eq!(
        download_url(Tool::Ffmpeg, &platform("windows", "x86_64")).unwrap(),
        "https://www.gyan.dev/ffmpeg/builds/ffmpeg-release-essentials.zip"
    );
    assert_eq!(
        download_url(Tool::Uv, &platform("linux", "aarch64")).unwrap(),
        "https://github.com/astral-sh/uv/releases/latest/download/uv-aarch64-unknown-linux-gnu.tar.gz"
    );
    assert_eq!(
        download_url(Tool::Uv, &platform("macos", "x86_64")).unwrap(),
        "https://github.com/astral-sh/uv/releases/latest/download/uv-x86_64-apple-darwin.tar.gz"
    );
}

#[test]
fn unsupported_platforms_are_refused() {
    assert_eq!(
        download_url(Tool::Ffmpeg, &platform("freebsd", "x86_64")).unwrap_err(),
        "Unsupported platform for ffmpeg: freebsd-x86_64"
    );
    assert_eq!(
        download_url(Tool::Uv, &platform("windows", "aarch64")).unwrap_err(),
        "Unsupported platform for uv: windows-aarch64"
    );
}

#[test]
fn archive_and_binary_names() {
    assert_eq!(archive_name(Tool::Ffmpeg, "https://x/ffmpeg.tar.xz"), "ffmpeg.tar.xz");
    assert_eq!(archive_name(Tool::Ffmpeg, "https://x/ffmpeg.zip"), "ffmpeg.zip");
    assert_eq!(archive_name(Tool::Uv, "https://x/uv.zip"), "uv.zip");
    assert_eq!(archive_name(Tool::Uv, "https://x/uv.tar.gz"), "uv.tar.gz");
    assert_eq!(binary_name(Tool::Ffmpeg, &platform("linux", "x86_64")), "ffmpeg");
    assert_eq!(binary_name(Tool::Uv, &platform("windows", "x86_64")), "uv.exe");
    assert_eq!(
        download_scratch_dir(Tool::Uv, "/h", &platform("linux", "x86_64")),
        "/h/.nightingale/vendor/_tmp_uv"
    );
}

#[test]
fn extraction_commands() {
    let lin = platform("linux", "x86_64");
    let c = extract_archive("/t/f.tar.xz", "/t", &lin).unwrap();
    assert_eq!(c.program, "tar");
    assert_eq!(c.args, vec!["-xJf", "/t/f.tar.xz", "-C", "/t"]);
    let c = extract_archive("/t/u.tar.gz", "/t", &lin).unwrap();
    assert_eq!(c.args, vec!["-xzf", "/t/u.tar.gz", "-C", "/t"]);
    let c = extract_archive("/t/f.zip", "/t", &lin).unwrap();
    assert_eq!(c.program, "unzip");
    assert_eq!(c.args, vec!["-o", "/t/f.zip", "-d", "/t"]);
    let c = extract_archive("C:\\t\\f.zip", "C:\\t", &platform("windows", "x86_64")).unwrap();
    assert_eq!(c.program, "tar");
    assert_eq!(c.args, vec!["-xf", "C:\\t\\f.zip", "-C", "C:\\t"]);
    assert_eq!(
        extract_archive("/t/f.rar", "/t", &lin).unwrap_err(),
        "Unknown archive format: /t/f.rar"
    );
}

#[test]
fn command_outcomes() {
    assert_eq!(
        check_outcome(&CommandOutcome::NotStarted("not found".to_string()), "Failed to run uv", "uv failed"),
        Err("Failed to run uv: not found".to_string())
    );
    assert_eq!(
        check_outcome(
            &CommandOutcome::Exited { success: false, stderr: "oops".to_string() },
            "Failed to run uv",
            "uv python install failed"
        ),
        Err("uv python install failed: oops".to_string())
    );
    assert_eq!(
        check_outcome(
            &CommandOutcome::Exited { success: true, stderr: "noise".to_string() },
            "a",
            "b"
        ),
        Ok(())
    );
}

#[test]
fn python_install_and_venv_commands() {
    let lin = platform("linux", "x86_64");
    assert_eq!(python_binary_name(&lin), "python3.10");
    assert_eq!(python_binary_name(&platform("windows", "x86_64")), "python.exe");
    assert_eq!(python_install_dir("/h", &lin), "/h/.nightingale/vendor/python");
    let c = python_install_command("/h", &lin);
    assert_eq!(c.program, "/h/.nightingale/vendor/uv");
    assert_eq!(
        c.args,
        vec!["python", "install", "3.10", "--install-dir", "/h/.nightingale/vendor/python"]
    );
    let v = venv_command("/h", &lin, "/h/py/bin/python3.10");
    assert_eq!(v.program, "/h/.nightingale/vendor/uv");
    assert_eq!(v.args, vec!["venv", "/h/.nightingale/vendor/venv", "--python", "/h/py/bin/python3.10"]);
}

fn entry(path: &str, name: &str, is_file: bool) -> WalkEntry {
    WalkEntry { path: path.to_string(), file_name: name.to_string(), is_file }
}

#[test]
fn finding_files_in_a_walk() {
    let entries = vec![
        entry("/t/ffmpeg", "ffmpeg", false),
        entry("/t/a/ffmpeg", "ffmpeg", true),
        entry("/t/b/ffmpeg", "ffmpeg", true),
    ];
    assert_eq!(find_file_named(&entries, "ffmpeg").as_deref(), Some("/t/a/ffmpeg"));
    assert_eq!(find_file_named(&entries, "uv"), None);
    let lin = platform("linux", "x86_64");
    let py = vec![entry("/p/bin/python3", "python3", true), entry("/p/bin/python3.10", "python3.10", true)];
    assert_eq!(find_installed_python(&py, &lin).as_deref(), Some("/p/bin/python3.10"));
    assert!(has_python_in(true, &py, &lin));
    assert!(!has_python_in(false, &py, &lin));
    assert!(!has_python_in(true, &py, &platform("windows", "x86_64")));
}

#[test]
fn compute_capability_major() {
    assert_eq!(parse_compute_major("8.6\n"), Some(8));
    assert_eq!(parse_compute_major("  12.0 "), Some(12));
    assert_eq!(parse_compute_major("9"), Some(9));
    assert_eq!(parse_compute_major("+7.5"), Some(7));
    assert_eq!(parse_compute_major("x.5"), None);
    assert_eq!(parse_compute_major(""), None);
}

#[test]
fn cuda_wheel_index() {
    assert_eq!(query_cuda_index(Some("12.0")), "https://download.pytorch.org/whl/cu128");
    assert_eq!(query_cuda_index(Some("10.0")), "https://download.pytorch.org/whl/cu128");
    assert_eq!(query_cuda_index(Some("8.9")), "https://download.pytorch.org/whl/cu121");
    assert_eq!(query_cuda_index(Some("n/a")), "https://download.pytorch.org/whl/cu126");
    assert_eq!(query_cuda_index(None), "https://download.pytorch.org/whl/cu126");
}

#[test]
fn gpu_detection() {
    let lin = platform("linux", "x86_64");
    let none = GpuProbe { nvidia_smi_found: false, compute_cap_output: None, rocm_found: false };
    let g = detect_gpu(&lin, &none);
    assert_eq!((g.device, g.torch_index), ("cpu", "https://download.pytorch.org/whl/cpu"));
    let rocm = GpuProbe { nvidia_smi_found: false, compute_cap_output: None, rocm_found: true };
    let g = detect_gpu(&lin, &rocm);
    assert_eq!((g.device, g.torch_index), ("rocm", "https://download.pytorch.org/whl/rocm6.3"));
    let cuda = GpuProbe { nvidia_smi_found: true, compute_cap_output: Some("8.6".to_string()), rocm_found: true };
    let g = detect_gpu(&lin, &cuda);
    assert_eq!((g.device, g.torch_index), ("cuda", "https://download.pytorch.org/whl/cu121"));
    let g = detect_gpu(&platform("macos", "aarch64"), &cuda);
    assert_eq!((g.device, g.torch_index), ("mps", "https://download.pytorch.org/whl/cpu"));
    assert_eq!(
        compute_message(&g),
        "Detected compute: mps (https://download.pytorch.org/whl/cpu). Installing PyTorch..."
    );
}

#[test]
fn package_commands() {
    assert_eq!(audio_separator_package("cuda"), "audio-separator[gpu]>=0.25");
    assert_eq!(audio_separator_package("rocm"), "audio-separator[gpu]>=0.25");
    assert_eq!(audio_separator_package("cpu"), "audio-separator>=0.25");
    let b = build_deps_command("/uv", "/py");
    assert_eq!(b.program, "/uv");
    assert_eq!(b.args, vec!["pip", "install", "cython", "setuptools", "--python", "/py"]);
    let p = packages_command("/uv", "/py", "cpu");
    assert_eq!(
        p.args,
        vec![
            "pip",
            "install",
            "demucs>=4.0.0",
            "whisperx>=3.3.0",
            "soundfile",
            "huggingface_hub>=0.27.0",
            "audio-separator>=0.25",
            "--python",
            "/py"
        ]
    );
    let cpu = detect_gpu(
        &platform("linux", "x86_64"),
        &GpuProbe { nvidia_smi_found: false, compute_cap_output: None, rocm_found: false },
    );
    assert!(torch_command("/uv", "/py", &cpu).is_none());
    let gpu = detect_gpu(
        &platform("linux", "x86_64"),
        &GpuProbe { nvidia_smi_found: true, compute_cap_output: Some("8.6".to_string()), rocm_found: false },
    );
    let (label, t) = torch_command("/uv", "/py", &gpu).unwrap();
    assert_eq!(label, "CUDA");
    assert_eq!(t.program, "/uv");
    assert_eq!(
        t.args,
        vec![
            "pip",
            "install",
            "--reinstall-package",
            "torch",
            "--reinstall-package",
            "torchaudio",
            "--reinstall-package",
            "torchvision",
            "torch>=2.0.0",
            "torchaudio>=2.0.0",
            "torchvision>=0.15.0",
            "--python",
            "/py",
            "--index-url",
            "https://download.pytorch.org/whl/cu121"
        ]
    );
}

#[test]
fn the_venv_needs_an_installed_python() {
    let lin = platform("linux", "x86_64");
    let py = vec![entry("/p/bin/python3.10", "python3.10", true)];
    assert_eq!(venv_base_python(&py, &lin), Ok("/p/bin/python3.10".to_string()));
    assert_eq!(
        venv_base_python(&vec![entry("/p/bin/python3", "python3", true)], &lin),
        Err("Could not find installed Python — run python install first".to_string())
    );
}

fn failed(stderr: &str) -> CommandOutcome {
    CommandOutcome::Exited { success: false, stderr: stderr.to_string() }
}

#[test]
fn step_outcomes_carry_their_messages() {
    let ok = CommandOutcome::Exited { success: true, stderr: String::new() };
    assert_eq!(extraction_result(&failed("bad")), Err("Extraction failed: bad".to_string()));
    assert_eq!(
        extraction_result(&CommandOutcome::NotStarted("no tar".to_string())),
        Err("Failed to run extraction command: no tar".to_string())
    );
    assert_eq!(extraction_result(&ok), Ok(()));
    assert_eq!(python_install_result(&ok), Ok("Python 3.10 installed"));
    assert_eq!(python_install_result(&failed("x")), Err("uv python install failed: x".to_string()));
    assert_eq!(venv_result(&failed("x")), Err("uv venv failed: x".to_string()));
    assert_eq!(build_deps_result(&failed("x")), Err("Build deps install failed: x".to_string()));
    assert_eq!(packages_result(&failed("x")), Err("Package install failed: x".to_string()));
    assert_eq!(torch_result("CUDA", &failed("x")), Err("CUDA PyTorch install failed: x".to_string()));
    assert_eq!(
        torch_result("ROCm", &CommandOutcome::NotStarted("gone".to_string())),
        Err("Failed to install ROCm PyTorch: gone".to_string())
    );
    assert_eq!(torch_result("CUDA", &ok), Ok(()));
    assert_eq!(torch_message("ROCm"), "Installing ROCm PyTorch...");
}

#[test]
fn python_install_starts_only_when_needed() {
    let lin = platform("linux", "x86_64");
    let found = vec![entry("/h/.nightingale/vendor/python/bin/python3.10", "python3.10", true)];
    assert!(matches!(python_install_start("/h", &lin, true, &found), StepStart::Skip("Already installed")));
    match python_install_start("/h", &lin, false, &found) {
        StepStart::Run(detail, cmd) => {
            assert_eq!(detail, "Installing Python 3.10...");
            assert_eq!(cmd.program, "/h/.nightingale/vendor/uv");
            assert_eq!(cmd.args[4], "/h/.nightingale/vendor/python");
        }
        other => panic!("unexpected {other:?}"),
    }
}
