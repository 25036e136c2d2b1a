use nightingale::cache::{CacheDir, CacheProbe};
use nightingale::layout::{
    analyzer_dir, analyzer_script, cache_dir, config_path, ffmpeg_path, is_ready, join, models_dir,
    nightingale_dir, python_path, ready_marker, uv_path, vendor_dir, videos_dir, Platform,
    ReadyProbe,
};

fn linux() -> Platform {
    Platform { os: "linux".to_string(), arch: "x86_64".to_string() }
}

fn windows() -> Platform {
    Platform { os: "windows".to_string(), arch: "x86_64".to_string() }
}

#[test]
fn app_dirs_on_linux() {
    let p = linux();
    assert_eq!(nightingale_dir("/home/ana", &p), "/home/ana/.nightingale");
    assert_eq!(vendor_dir("/home/ana", &p), "/home/ana/.nightingale/vendor");
    assert_eq!(models_dir("/home/ana", &p), "/home/ana/.nightingale/models");
    assert_eq!(videos_dir("/home/ana", &p), "/home/ana/.nightingale/videos");
    assert_eq!(cache_dir("/home/ana", &p), "/home/ana/.nightingale/cache");
    assert_eq!(analyzer_dir("/home/ana", &p), "/home/ana/.nightingale/vendor/analyzer");
    assert_eq!(config_path("/home/ana", &p), "/home/ana/.nightingale/config.json");
}

#[test]
fn vendor_files_on_linux() {
    let p = linux();
    assert_eq!(ffmpeg_path("/home/ana", &p), "/home/ana/.nightingale/vendor/ffmpeg");
    assert_eq!(uv_path("/home/ana", &p), "/home/ana/.nightingale/vendor/uv");
    assert_eq!(python_path("/home/ana", &p), "/home/ana/.nightingale/vendor/venv/bin/python");
    assert_eq!(ready_marker("/home/ana", &p), "/home/ana/.nightingale/vendor/.ready");
    assert_eq!(
        analyzer_script("/home/ana", &p),
        "/home/ana/.nightingale/vendor/analyzer/analyze.py"
    );
}

#[test]
fn vendor_files_on_windows() {
    let p = windows();
    let home = "C:\\Users\\ana";
    assert_eq!(vendor_dir(home, &p), "C:\\Users\\ana\\.nightingale\\vendor");
    assert_eq!(ffmpeg_path(home, &p), "C:\\Users\\ana\\.nightingale\\vendor\\ffmpeg.exe");
    assert_eq!(uv_path(home, &p), "C:\\Users\\ana\\.nightingale\\vendor\\uv.exe");
    assert_eq!(
        python_path(home, &p),
        "C:\\Users\\ana\\.nightingale\\vendor\\venv\\Scripts\\python.exe"
    );
}

#[test]
fn join_keeps_a_trailing_separator() {
    assert_eq!(join("/home/ana/", "x", false), "/home/ana/x");
    assert_eq!(join("/home/ana", "x", false), "/home/ana/x");
    assert_eq!(join("", "x", false), "x");
    assert_eq!(join("C:\\", "x", true), "C:\\x");
    assert_eq!(join("C:/data/", "x", true), "C:/data/x");
    assert_eq!(join("a\\", "x", false), "a\\/x");
}

#[test]
fn vendor_files_are_distinct_and_inside_the_vendor_dir() {
    let p = linux();
    let dir = vendor_dir("/home/ana", &p);
    let files = vec![
        ffmpeg_path("/home/ana", &p),
        uv_path("/home/ana", &p),
        python_path("/home/ana", &p),
        ready_marker("/home/ana", &p),
        analyzer_script("/home/ana", &p),
    ];
    for (i, f) in files.iter().enumerate() {
        assert!(f.starts_with(&format!("{dir}/")));
        for g in files.iter().skip(i + 1) {
            assert_ne!(f, g);
        }
    }
}

#[test]
fn ready_needs_every_file() {
    let all = ReadyProbe {
        marker_is_file: true,
        ffmpeg_is_file: true,
        python_is_file: true,
        analyzer_script_is_file: true,
    };
    assert!(is_ready(&all));
    assert!(!is_ready(&ReadyProbe { marker_is_file: false, ..all }));
    assert!(!is_ready(&ReadyProbe { ffmpeg_is_file: false, ..all }));
    assert!(!is_ready(&ReadyProbe { python_is_file: false, ..all }));
    assert!(!is_ready(&ReadyProbe { analyzer_script_is_file: false, ..all }));
}

#[test]
fn cache_file_paths() {
    let c = CacheDir { path: "/home/ana/.nightingale/cache".to_string(), windows: false };
    assert_eq!(c.transcript_path("abc"), "/home/ana/.nightingale/cache/abc_transcript.json");
    assert_eq!(c.instrumental_path("abc"), "/home/ana/.nightingale/cache/abc_instrumental.wav");
    assert_eq!(c.vocals_path("abc"), "/home/ana/.nightingale/cache/abc_vocals.wav");
    assert_eq!(c.lyrics_path("abc"), "/home/ana/.nightingale/cache/abc_lyrics.json");
}

#[test]
fn cache_files_of_two_songs_differ() {
    let c = CacheDir { path: "/c".to_string(), windows: false };
    assert_ne!(c.transcript_path("aaaa"), c.transcript_path("aaab"));
    assert_ne!(c.transcript_path("aaaa"), c.vocals_path("aaaa"));
}

#[test]
fn transcript_needs_all_three_files() {
    let c = CacheDir { path: "/c".to_string(), windows: false };
    let all = CacheProbe { transcript_is_file: true, instrumental_is_file: true, vocals_is_file: true };
    assert!(c.transcript_exists(&all));
    assert!(!c.transcript_exists(&CacheProbe { vocals_is_file: false, ..all }));
    assert!(!c.transcript_exists(&CacheProbe { instrumental_is_file: false, ..all }));
    assert!(!c.transcript_exists(&CacheProbe { transcript_is_file: false, ..all }));
}

#[test]
fn data_lives_under_the_app_dir() {
    for p in [linux(), windows()] {
        let home = if p.os == "windows" { "C:\\Users\\ana" } else { "/home/ana" };
        let sep = if p.os == "windows" { "\\" } else { "/" };
        let app = nightingale_dir(home, &p);
        for d in [
            models_dir(home, &p),
            videos_dir(home, &p),
            cache_dir(home, &p),
            config_path(home, &p),
            vendor_dir(home, &p),
        ] {
            assert!(d.starts_with(&format!("{app}{sep}")), "{d}");
        }
    }
}
