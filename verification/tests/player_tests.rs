use nightingale::display::{
    format_duration, format_guide_text, format_mic_text, score_text, star_counts, AppConfig,
    StarRow, ThemeMode, UiTheme,
};
use nightingale::lyrics::{
    find_current_segment, first_segment_start, last_segment_end, line_display, line_pieces,
    skip_intro_target, skip_intro_visible, skip_outro_visible, spaced_word, word_phase,
    LineDisplay, Segment, Word, WordPhase,
};
use nightingale::mic::{
    available_devices, is_virtual_name, next_device, select_device, MicDevice, MicrophoneCapture,
};
use nightingale::scoring::{push_recent, push_sample, window_range};
use std::collections::VecDeque;

fn word(w: &str, start: i64, end: i64) -> Word {
    Word { word: w.to_string(), start_ms: start, end_ms: end, estimated: false }
}

fn seg(start: i64, end: i64, words: Vec<Word>) -> Segment {
    let text = words.iter().map(|w| w.word.clone()).collect::<Vec<_>>().join(" ");
    Segment { text, start_ms: start, end_ms: end, words }
}

fn lines3() -> Vec<Segment> {
    vec![
        seg(5000, 7000, vec![word("one", 5000, 5500), word("two", 5600, 7000)]),
        seg(7500, 9000, vec![word("three", 7500, 9000)]),
        seg(20000, 22000, vec![]),
    ]
}

#[test]
fn current_line_follows_the_time() {
    let s = lines3();
    assert_eq!(find_current_segment(&s, 0, 0), 0);
    assert_eq!(find_current_segment(&s, 6000, 0), 0);
    assert_eq!(find_current_segment(&s, 7360, 0), 1);
    assert_eq!(find_current_segment(&s, 7400, 0), 1);
    assert_eq!(find_current_segment(&s, 9400, 0), 1);
    assert_eq!(find_current_segment(&s, 9600, 0), 2);
    assert_eq!(find_current_segment(&s, 99999, 1), 2);
    assert_eq!(find_current_segment(&s, 6000, 2), 0);
    assert_eq!(find_current_segment(&Vec::new(), 100, 0), 0);
}

#[test]
fn line_visibility_and_countdown() {
    let s = lines3();
    assert_eq!(
        line_display(&s, 0, 2500),
        LineDisplay { show_current: true, show_next: true, countdown: Some(3), active: false }
    );
    assert_eq!(line_display(&s, 0, 4000).countdown, Some(1));
    assert_eq!(
        line_display(&s, 0, 4900),
        LineDisplay { show_current: true, show_next: true, countdown: Some(1), active: true }
    );
    assert_eq!(
        line_display(&s, 0, 1000),
        LineDisplay { show_current: false, show_next: false, countdown: None, active: false }
    );
    assert_eq!(line_display(&s, 1, 7000).countdown, None);
    assert_eq!(line_display(&s, 2, 17000).countdown, Some(3));
    assert!(!line_display(&s, 2, 21000).show_next);
}

#[test]
fn countdown_stays_between_one_and_three() {
    let s = lines3();
    for t in 17000..20000 {
        if let Some(c) = line_display(&s, 2, t).countdown {
            assert!((1..=3).contains(&c));
        }
    }
}

#[test]
fn word_highlighting() {
    let w = word("la", 1000, 2000);
    assert_eq!(word_phase(&w, 700), WordPhase::Unsung);
    assert_eq!(word_phase(&w, 750), WordPhase::Singing);
    assert_eq!(word_phase(&w, 1749), WordPhase::Singing);
    assert_eq!(word_phase(&w, 1750), WordPhase::Sung);
    let mut last = WordPhase::Unsung;
    for t in 0..3000 {
        let p = word_phase(&w, t);
        if last == WordPhase::Sung {
            assert_eq!(p, WordPhase::Sung);
        }
        last = p;
    }
}

#[test]
fn skipping_intro_and_outro() {
    let s = lines3();
    assert_eq!(first_segment_start(&s), 5000);
    assert_eq!(last_segment_end(&s), 22000);
    assert!(skip_intro_visible(&s, 1999));
    assert!(!skip_intro_visible(&s, 2000));
    assert_eq!(skip_intro_target(&s), 2000);
    assert!(skip_outro_visible(&s, 23001));
    assert!(!skip_outro_visible(&s, 23000));
    let early = vec![seg(1000, 2000, vec![])];
    assert_eq!(skip_intro_target(&early), 0);
    assert_eq!(first_segment_start(&Vec::new()), 0);
}

#[test]
fn lyric_line_pieces() {
    let s = lines3();
    assert_eq!(line_pieces(&s, 0), vec!["one ", "two"]);
    assert_eq!(line_pieces(&s, 1), vec!["three"]);
    assert!(line_pieces(&s, 2).is_empty());
    assert!(line_pieces(&s, 3).is_empty());
    assert_eq!(spaced_word("hi", true), "hi ");
    assert_eq!(spaced_word("hi", false), "hi");
}

#[test]
fn durations() {
    assert_eq!(format_duration(0), "0:00");
    assert_eq!(format_duration(7), "0:07");
    assert_eq!(format_duration(187), "3:07");
    assert_eq!(format_duration(600), "10:00");
    assert_eq!(format_duration(3725), "62:05");
}

#[test]
fn score_stars() {
    assert_eq!(star_counts(0), StarRow { filled: 0, half: false, empty: 5 });
    assert_eq!(star_counts(49), StarRow { filled: 0, half: false, empty: 5 });
    assert_eq!(star_counts(50), StarRow { filled: 0, half: true, empty: 4 });
    assert_eq!(star_counts(149), StarRow { filled: 0, half: true, empty: 4 });
    assert_eq!(star_counts(150), StarRow { filled: 1, half: false, empty: 4 });
    assert_eq!(star_counts(750), StarRow { filled: 4, half: false, empty: 1 });
    assert_eq!(star_counts(1000), StarRow { filled: 5, half: false, empty: 0 });
    assert_eq!(star_counts(u32::MAX), StarRow { filled: 5, half: false, empty: 0 });
    for score in (0..1200).step_by(7) {
        let r = star_counts(score);
        assert_eq!(r.filled + r.half as u32 + r.empty, 5);
        let half_stars = ((score as f64 / 100.0).round().min(10.0)) as u32;
        assert_eq!(r.filled, half_stars / 2);
        assert_eq!(r.half, half_stars % 2 == 1);
    }
}

#[test]
fn status_lines() {
    assert_eq!(format_mic_text(true, "USB Mic"), "Mic: ON — USB Mic [M/N]");
    assert_eq!(format_mic_text(false, "USB Mic"), "Mic: OFF — USB Mic [M/N]");
    let long = "A".repeat(40);
    assert_eq!(format_mic_text(true, &long), format!("Mic: ON — {}… [M/N]", "A".repeat(29)));
    let thirty = "B".repeat(30);
    assert_eq!(format_mic_text(true, &thirty), format!("Mic: ON — {thirty} [M/N]"));
    assert_eq!(format_guide_text(0), "Guide: OFF [G +/-]");
    assert_eq!(format_guide_text(35), "Guide: 35% [G +/-]");
    assert_eq!(format_guide_text(-5), "Guide: -5% [G +/-]");
    assert_eq!(score_text(734, true), "Score: 734");
    assert_eq!(score_text(734, false), "Score: --");
}

#[test]
fn theme_and_settings() {
    let mut t = UiTheme::dark();
    assert_eq!(t.mode_label(), "Dark");
    t.toggle();
    assert_eq!(t, UiTheme::light());
    assert_eq!(t.mode_label(), "Light");
    t.toggle();
    assert_eq!(t.mode, ThemeMode::Dark);
    let mut c = AppConfig::empty();
    assert!(c.is_fullscreen());
    assert!(c.is_dark_mode());
    assert_eq!(UiTheme::from_config(&c).mode, ThemeMode::Dark);
    c.dark_mode = Some(false);
    assert_eq!(UiTheme::from_config(&c).mode, ThemeMode::Light);
    assert!(!c.toggle_fullscreen(true));
    assert_eq!(c.fullscreen, Some(false));
    assert!(!c.is_fullscreen());
    assert!(c.toggle_fullscreen(false));
    assert!(c.initial_mic_active(true));
    c.mic_active = Some(false);
    assert!(!c.initial_mic_active(true));
    c.mic_active = Some(true);
    assert!(!c.initial_mic_active(false));
}

fn dev(name: &str, rate: Option<u32>, bt: bool) -> MicDevice {
    MicDevice { name: name.to_string(), sample_rate: rate, bluetooth: bt }
}

#[test]
fn virtual_devices_by_name() {
    assert!(is_virtual_name("Monitor of Built-in Audio"));
    assert!(is_virtual_name("JACK Audio Connection Kit"));
    assert!(is_virtual_name("Zoom Audio Device"));
    assert!(is_virtual_name("NULL sink"));
    assert!(is_virtual_name("VB-Audio Virtual Cable"));
    assert!(!is_virtual_name("USB Microphone"));
    let devices = vec![dev("USB Microphone", Some(48000), false), dev("Loopback", Some(44100), false)];
    assert_eq!(available_devices(&devices), vec!["USB Microphone"]);
}

#[test]
fn choosing_the_microphone() {
    let devices = vec![
        dev("Headset", Some(16000), true),
        dev("Monitor of Speakers", Some(96000), false),
        dev("Built-in", Some(44100), false),
        dev("USB Mic", Some(48000), false),
        dev("Broken", None, false),
        dev("Other USB", Some(48000), false),
    ];
    assert_eq!(select_device(&devices, None), Some(3));
    assert_eq!(select_device(&devices, Some("Built-in")), Some(2));
    assert_eq!(select_device(&devices, Some("Monitor of Speakers")), Some(3));
    assert_eq!(select_device(&devices, Some("Broken")), Some(3));
    assert_eq!(select_device(&devices, Some("Missing")), Some(3));
    let only_bt = vec![dev("Headset", Some(16000), true), dev("Buds", Some(8000), true)];
    assert_eq!(select_device(&only_bt, None), Some(0));
    assert_eq!(select_device(&Vec::new(), None), None);
    assert_eq!(select_device(&vec![dev("null", Some(1), false)], None), None);
}

#[test]
fn microphone_health() {
    let mut off = MicrophoneCapture::started("Mic".to_string(), false);
    assert!(!off.active);
    assert!(off.check_health(true, true, 0));
    let mut h = MicrophoneCapture::started("Mic".to_string(), true);
    assert!(h.active);
    assert!(h.check_health(false, true, 0));
    assert!(!h.check_health(true, true, 5));
    assert!(h.check_health(true, false, 100));
    assert_eq!((h.last_checked_count, h.stale_ticks), (100, 0));
    for _ in 0..59 {
        assert!(h.check_health(true, false, 100));
    }
    assert!(!h.check_health(true, false, 100));
    assert!(h.check_health(true, false, 101));
    assert_eq!(h.stale_ticks, 0);
    assert_eq!(h.device_name, "Mic");
}

#[test]
fn pitch_history_keeps_the_latest() {
    let mut h: VecDeque<u32> = VecDeque::new();
    for i in 0..100u32 {
        push_recent(&mut h, i, 80);
        assert!(h.len() <= 80);
        assert_eq!(*h.back().unwrap(), i);
    }
    assert_eq!(h.len(), 80);
    assert_eq!(*h.front().unwrap(), 20);
}

#[test]
fn switching_to_the_next_microphone() {
    let names: Vec<String> = ["A", "B", "C"].iter().map(|s| s.to_string()).collect();
    assert_eq!(next_device(&names, "A"), Some(1));
    assert_eq!(next_device(&names, "C"), Some(0));
    assert_eq!(next_device(&names, "gone"), Some(0));
    assert_eq!(next_device(&names[..1].to_vec(), "A"), None);
    assert_eq!(next_device(&Vec::new(), "A"), None);
    let mut c = AppConfig::empty();
    assert!(!c.toggle_mic(true));
    assert_eq!(c.mic_active, Some(false));
    assert!(c.toggle_mic(false));
    assert_eq!(c.mic_active, Some(true));
}

#[test]
fn settings_defaults_and_restore() {
    let mut c = AppConfig::empty();
    assert_eq!(c.whisper_model(), "large-v3-turbo");
    assert_eq!(c.beam_size(), 5);
    assert_eq!(c.batch_size(), 16);
    assert_eq!(c.separator(), "karaoke");
    c.whisper_model = Some("large-v3".to_string());
    c.beam_size = Some(9);
    c.batch_size = Some(4);
    c.fullscreen = Some(false);
    c.dark_mode = Some(false);
    c.separator = Some("demucs".to_string());
    c.restore_defaults();
    assert_eq!((c.whisper_model.clone(), c.beam_size, c.batch_size, c.fullscreen), (None, None, None, None));
    assert_eq!(c.dark_mode, Some(false));
    assert_eq!(c.separator(), "demucs");
}

#[test]
fn microphone_toggle_and_switch() {
    let mut c = AppConfig::empty();
    let mut m = MicrophoneCapture::started("USB".to_string(), true);
    assert!(!m.toggle(&mut c));
    assert_eq!(c.mic_active, Some(false));
    assert!(m.toggle(&mut c));
    m.switch_to(&mut c, "Headset".to_string(), true);
    assert!(m.active);
    assert_eq!(m.device_name, "Headset");
    assert_eq!(c.preferred_mic.as_deref(), Some("Headset"));
    m.switch_to(&mut c, "Dead".to_string(), false);
    assert!(!m.active);
    m.switch_to(&mut c, "Other".to_string(), true);
    assert!(!m.active);
    let r = MicrophoneCapture::recovered("Mic".to_string(), false);
    assert_eq!((r.active, r.device_name.as_str()), (false, "(disconnected)"));
    let r = MicrophoneCapture::recovered("Mic".to_string(), true);
    assert_eq!((r.active, r.device_name.as_str()), (true, "Mic"));
}

#[test]
fn three_histories_stay_aligned() {
    let (mut a, mut b, mut c): (VecDeque<u32>, VecDeque<Option<u32>>, VecDeque<i8>) =
        (VecDeque::new(), VecDeque::new(), VecDeque::new());
    for i in 0..100u32 {
        push_sample(&mut a, &mut b, &mut c, i, Some(i), 1, 80);
        assert!(a.len() == b.len() && b.len() == c.len() && a.len() <= 80);
    }
    assert_eq!((*a.front().unwrap(), *a.back().unwrap()), (20, 99));
}

#[test]
fn vocal_windows() {
    assert_eq!(window_range(10, 5, 20), Some((10, 15)));
    assert_eq!(window_range(15, 5, 20), Some((15, 20)));
    assert_eq!(window_range(16, 5, 20), None);
    assert_eq!(window_range(0, 0, 0), Some((0, 0)));
}
