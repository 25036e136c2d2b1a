use nightingale::library::{
    any_analyzing, badge_text, compute_file_hash, finished_status, is_audio_file, is_video_file,
    live_badge_text, ready_count, reanalyze_visible, scanned_status, sort_songs, stats_text,
    transcript_source, AnalysisStatus, Song, TranscriptSource,
};
use nightingale::order::text_less;
use nightingale::paths::{extension, file_stem};

fn song(path: &str, title: &str, artist: &str, status: AnalysisStatus) -> Song {
    Song {
        path: path.to_string(),
        file_hash: String::new(),
        title: title.to_string(),
        artist: artist.to_string(),
        album: String::new(),
        analysis_status: status,
        language: None,
        is_video: false,
    }
}

#[test]
fn display_names_fall_back() {
    let s = song("/music/Some Song.mp3", "", "", AnalysisStatus::NotAnalyzed);
    assert_eq!(s.display_title(false), "Some Song");
    assert_eq!(s.display_artist(), "Unknown Artist");
    let t = song("/music/a.mp3", "Title", "Band", AnalysisStatus::NotAnalyzed);
    assert_eq!(t.display_title(false), "Title");
    assert_eq!(t.display_artist(), "Band");
    let root = song("/", "", "", AnalysisStatus::NotAnalyzed);
    assert_eq!(root.display_title(false), "Unknown");
}

#[test]
fn path_stems_and_extensions() {
    assert_eq!(file_stem("/a/b/song.tar.gz", false).as_deref(), Some("song.tar"));
    assert_eq!(extension("/a/b/song.tar.gz", false).as_deref(), Some("gz"));
    assert_eq!(file_stem("/a/.hidden", false).as_deref(), Some(".hidden"));
    assert_eq!(extension("/a/.hidden", false), None);
    assert_eq!(file_stem("/a/b/", false).as_deref(), Some("b"));
    assert_eq!(extension("noext", false), None);
    assert_eq!(file_stem("C:\\m\\x.flac", true).as_deref(), Some("x"));
    assert_eq!(file_stem("C:\\m\\x.flac", false).as_deref(), Some("C:\\m\\x"));
    assert_eq!(file_stem("/a/..", false), None);
    assert_eq!(extension("/a/b.", false).as_deref(), Some(""));
}

#[test]
fn audio_files_by_extension_without_case() {
    assert!(is_audio_file("/m/a.mp3", false));
    assert!(is_audio_file("/m/a.FLAC", false));
    assert!(is_audio_file("/m/a.M4a", false));
    assert!(is_audio_file("/m/a.wma", false));
    assert!(!is_audio_file("/m/a.mp4", false));
    assert!(!is_audio_file("/m/mp3", false));
    assert!(!is_audio_file("/m/.mp3", false));
}

#[test]
fn video_files_by_extension_without_case() {
    for ok in ["/v/a.mp4", "/v/a.MKV", "/v/a.avi", "/v/a.webm", "/v/a.mov", "/v/a.m4v"] {
        assert!(is_video_file(ok, false), "{ok}");
    }
    assert!(!is_video_file("/v/a.mp3", false));
    assert!(!is_video_file("/v/a", false));
    assert!(!is_audio_file("/v/a.mp4", false));
}

#[test]
fn songs_sort_by_artist_then_title_keeping_ties_in_order() {
    let songs = vec![
        song("/m/1.mp3", "Zebra", "Beta", AnalysisStatus::NotAnalyzed),
        song("/m/2.mp3", "Apple", "Beta", AnalysisStatus::NotAnalyzed),
        song("/m/3.mp3", "Song", "", AnalysisStatus::NotAnalyzed),
        song("/m/4.mp3", "Mid", "Alpha", AnalysisStatus::NotAnalyzed),
        song("/m/5.mp3", "Apple", "Beta", AnalysisStatus::Queued),
    ];
    let out = sort_songs(songs, false);
    let paths: Vec<&str> = out.iter().map(|s| s.path.as_str()).collect();
    assert_eq!(paths, vec!["/m/4.mp3", "/m/2.mp3", "/m/5.mp3", "/m/1.mp3", "/m/3.mp3"]);
    for w in out.windows(2) {
        let (a, b) = (&w[0], &w[1]);
        assert!(
            !text_less(&b.display_artist(), &a.display_artist())
                && (a.display_artist() != b.display_artist()
                    || !text_less(&b.display_title(false), &a.display_title(false)))
        );
    }
}

#[test]
fn text_order_is_by_characters() {
    assert!(text_less("Abc", "abc"));
    assert!(text_less("ab", "abc"));
    assert!(!text_less("abc", "abc"));
    assert!(!text_less("b", "abc"));
    assert!(text_less("", "a"));
    assert!(text_less("z", "é"));
}

#[test]
fn statuses_after_scanning_and_analysis() {
    assert!(matches!(
        scanned_status(true, TranscriptSource::Lyrics),
        AnalysisStatus::Ready(TranscriptSource::Lyrics)
    ));
    assert!(matches!(scanned_status(false, TranscriptSource::Lyrics), AnalysisStatus::NotAnalyzed));
    assert_eq!(transcript_source(Some("lyrics")), TranscriptSource::Lyrics);
    assert_eq!(transcript_source(Some("whisper")), TranscriptSource::Generated);
    assert_eq!(transcript_source(None), TranscriptSource::Generated);
    assert!(matches!(
        finished_status(true, true, Some("lyrics"), "x".to_string()),
        AnalysisStatus::Ready(TranscriptSource::Lyrics)
    ));
    assert!(matches!(
        finished_status(true, true, None, "x".to_string()),
        AnalysisStatus::Ready(TranscriptSource::Generated)
    ));
    match finished_status(true, false, Some("lyrics"), "missing".to_string()) {
        AnalysisStatus::Failed(m) => assert_eq!(m, "missing"),
        other => panic!("unexpected {other:?}"),
    }
    match finished_status(false, true, None, "crashed".to_string()) {
        AnalysisStatus::Failed(m) => assert_eq!(m, "crashed"),
        other => panic!("unexpected {other:?}"),
    }
}

#[test]
fn badges() {
    assert_eq!(badge_text(&AnalysisStatus::Ready(TranscriptSource::Lyrics)), "LYRICS");
    assert_eq!(badge_text(&AnalysisStatus::Ready(TranscriptSource::Generated)), "AI");
    assert_eq!(badge_text(&AnalysisStatus::NotAnalyzed), "NOT ANALYZED");
    assert_eq!(badge_text(&AnalysisStatus::Queued), "QUEUED");
    assert_eq!(badge_text(&AnalysisStatus::Analyzing), "ANALYZING...");
    assert_eq!(badge_text(&AnalysisStatus::Failed("e".to_string())), "FAILED");
    assert_eq!(live_badge_text(&AnalysisStatus::Analyzing, Some(42)), "42%");
    assert_eq!(live_badge_text(&AnalysisStatus::Analyzing, None), "ANALYZING...");
    assert_eq!(live_badge_text(&AnalysisStatus::Queued, Some(42)), "QUEUED");
    assert!(reanalyze_visible(&AnalysisStatus::Ready(TranscriptSource::Generated)));
    assert!(reanalyze_visible(&AnalysisStatus::Failed("e".to_string())));
    assert!(!reanalyze_visible(&AnalysisStatus::Queued));
    assert!(!reanalyze_visible(&AnalysisStatus::NotAnalyzed));
}

#[test]
fn library_statistics() {
    let songs = vec![
        song("/a.mp3", "", "", AnalysisStatus::Ready(TranscriptSource::Lyrics)),
        song("/b.mp3", "", "", AnalysisStatus::NotAnalyzed),
        song("/c.mp3", "", "", AnalysisStatus::Ready(TranscriptSource::Generated)),
    ];
    assert_eq!(ready_count(&songs), 2);
    assert_eq!(stats_text(&songs), "3 songs found · 2 ready for karaoke");
    assert!(!any_analyzing(&songs));
    let busy = vec![song("/d.mp3", "", "", AnalysisStatus::Queued)];
    assert!(any_analyzing(&busy));
    assert_eq!(stats_text(&Vec::new()), "0 songs found · 0 ready for karaoke");
}

#[test]
fn file_hash_is_the_first_half_of_the_blake3_hex_digest() {
    let data = b"hello nightingale";
    let expected = blake3::hash(data).to_hex()[..32].to_string();
    assert_eq!(compute_file_hash(data), expected);
    assert_eq!(compute_file_hash(b""), "af1349b9f5f9a1a6a0404dea36dcc949");
    assert_eq!(compute_file_hash(data).len(), 32);
    assert_ne!(compute_file_hash(b"a"), compute_file_hash(b"b"));
}
