use nightingale::lrclib::{
    album_matches, choose_record, lrc_entries, lrc_is_readable, lyrics_query_allowed, plain_lines, search_url,
    LyricsRecord,
};
use nightingale::probe::{read_probe, strip_meta_tag, tag_cut_possible};
use nightingale::videos::{
    clearable_video_bytes, is_mp4, kept_video, total_size, videos_to_clear, VideoFile,
};

#[test]
fn lyrics_lookups_need_a_title_and_an_artist() {
    assert!(lyrics_query_allowed("Song", "Band"));
    assert!(!lyrics_query_allowed("", "Band"));
    assert!(!lyrics_query_allowed("Song", "Unknown Artist"));
}

#[test]
fn search_urls_are_percent_encoded() {
    assert_eq!(
        search_url("Dancing Queen", "ABBA"),
        "https://lrclib.net/api/search?track_name=Dancing%20Queen&artist_name=ABBA"
    );
    assert_eq!(
        search_url("Ça & ça", "A/B~c_d.e-f"),
        "https://lrclib.net/api/search?track_name=%C3%87a%20%26%20%C3%A7a&artist_name=A%2FB~c_d.e-f"
    );
    let t = "Don't Stop Me Now?";
    let expected = format!(
        "https://lrclib.net/api/search?track_name={}&artist_name={}",
        urlencoding::encode(t),
        urlencoding::encode("Queen")
    );
    assert_eq!(search_url(t, "Queen"), expected);
}

fn rec(plain: bool, synced: bool, album: bool, penalty: i64) -> LyricsRecord {
    LyricsRecord { has_plain: plain, has_synced: synced, album_matches: album, duration_penalty: penalty }
}

#[test]
fn choosing_a_lyrics_record() {
    let records = vec![
        rec(false, false, true, 0),
        rec(true, false, true, 0),
        rec(true, true, false, 100),
        rec(true, true, true, 3000),
        rec(false, true, true, 200),
    ];
    assert_eq!(choose_record(&records), Some(4));
    let tie = vec![rec(true, true, true, 5), rec(true, true, true, 5)];
    assert_eq!(choose_record(&tie), Some(0));
    assert_eq!(choose_record(&vec![rec(false, false, true, 0)]), None);
    assert_eq!(choose_record(&Vec::new()), None);
    let plain_only = vec![rec(true, false, false, 0), rec(true, false, true, 0)];
    assert_eq!(choose_record(&plain_only), Some(1));
}

#[test]
fn lrc_lines_become_entries() {
    let lrc = "[ti:Title]\n[00:12.50] Hello there \n\n[00:15.00]\n[01:02.3]World\nno tag\r\n[bad]text";
    assert!(lrc_is_readable(lrc));
    let e = lrc_entries(lrc);
    let got: Vec<(&str, &str, &str)> =
        e.iter().map(|x| (x.minutes.as_str(), x.seconds.as_str(), x.text.as_str())).collect();
    assert_eq!(got, vec![("00", "12.50", "Hello there"), ("01", "02.3", "World")]);
    assert!(!lrc_is_readable("é]x"));
    assert!(lrc_is_readable("ok line"));
}

#[test]
fn plain_lyrics_keep_their_nonblank_lines() {
    assert_eq!(plain_lines("  Line one \n\n   \nLine two\r\n"), vec!["Line one", "Line two"]);
    assert!(plain_lines("").is_empty());
}

#[test]
fn media_report_metadata() {
    assert_eq!(strip_meta_tag("title           : My Song ", "title").as_deref(), Some("My Song"));
    assert_eq!(strip_meta_tag("TITLE: Loud", "title").as_deref(), Some("Loud"));
    assert_eq!(strip_meta_tag("title:", "title"), None);
    assert_eq!(strip_meta_tag("title  x: y", "title"), None);
    assert_eq!(strip_meta_tag("artist: A", "title"), None);
    assert_eq!(strip_meta_tag("tit", "title"), None);
    assert_eq!(strip_meta_tag("titles: y", "title"), None);
    let report = "Input #0, mov,mp4, from 'v.mp4':\n  Metadata:\n    title           : First\n    artist          : Band\n  Duration: 00:03:25.47, start: 0.000000, bitrate: 1000 kb/s\n    title           : Second\n";
    let info = read_probe(report).unwrap();
    assert_eq!(info.title, "Second");
    assert_eq!(info.artist, "Band");
    assert_eq!(info.album, "");
    assert_eq!(info.duration.as_deref(), Some("00:03:25.47"));
    let none = read_probe("nothing here").unwrap();
    assert_eq!((none.title.as_str(), none.duration), ("", None));
    assert_eq!(read_probe("Duration: N/A").unwrap().duration.as_deref(), Some("N/A"));
    assert_eq!(strip_meta_tag("Title: x", "TITLE"), None);
    assert_eq!(strip_meta_tag("ÀRTIST: Édith", "àrtist").as_deref(), Some("Édith"));
    assert!(tag_cut_possible("title: x", "title"));
    assert!(!tag_cut_possible("İ", "i"));
    assert!(!tag_cut_possible("İx", "i\u{307}x"));
    assert!(read_probe("İx\nmore").is_some());
}

fn video(name: &str, size: u64) -> VideoFile {
    VideoFile { name: name.to_string(), path: format!("/v/flavor/{name}"), size }
}

#[test]
fn clearing_videos_keeps_the_first_mp4_of_each_flavor() {
    assert!(is_mp4("a.mp4"));
    assert!(!is_mp4(".mp4"));
    assert!(!is_mp4("a.mp4.part"));
    let files = vec![video("c.mp4", 30), video("notes.txt", 5), video("a.mp4", 10), video("b.mp4", 20)];
    assert_eq!(kept_video(&files), Some(2));
    let gone: Vec<String> = videos_to_clear(&files).iter().map(|v| v.name.clone()).collect();
    assert_eq!(gone, vec!["c.mp4", "b.mp4"]);
    assert_eq!(total_size(&files), 65);
    let other = vec![video("only.mp4", 7)];
    let none: Vec<VideoFile> = vec![video("x.txt", 3)];
    assert_eq!(clearable_video_bytes(&vec![files, other, none]), 50);
    assert!(videos_to_clear(&vec![video("x.txt", 3)]).is_empty());
    assert_eq!(kept_video(&Vec::new()), None);
}

#[test]
fn album_names_match_without_case() {
    assert!(album_matches(Some("Arrival"), "ARRIVAL"));
    assert!(album_matches(Some("ÉTÉ"), "été"));
    assert!(!album_matches(Some("Arrival"), "Gold"));
    assert!(!album_matches(None, ""));
}

#[test]
fn clearing_twice_removes_nothing_more() {
    let files = vec![video("c.mp4", 30), video("notes.txt", 5), video("a.mp4", 10), video("b.mp4", 20)];
    let gone = videos_to_clear(&files);
    let left: Vec<VideoFile> =
        files.iter().filter(|f| !gone.iter().any(|g| g.path == f.path)).cloned().collect();
    assert_eq!(left.len() + gone.len(), files.len());
    assert!(videos_to_clear(&left).is_empty());
    assert_eq!(clearable_video_bytes(&vec![left]), 0);
}
