use nightingale::display::AppConfig;
use nightingale::library::{AnalysisStatus, Song};
use nightingale::menu::{
    batch_down, batch_up, beam_down, beam_up, cycle_model, edit_profile_name, edit_search,
    exit_confirmed, hover_song, navigate, profile_name_display, profile_name_to_create, refocus_after_search,
    search_display, sidebar_action, sidebar_position, song_matches, toggle_exit_focus,
    visible_songs, window_mode_label, apply_settings_action, FocusPanel, MenuFocus, NavStep,
    SettingsAction, SidebarAction, TextEdit,
};

fn song(title: &str, artist: &str) -> Song {
    Song {
        path: format!("/m/{title}.mp3"),
        file_hash: String::new(),
        title: title.to_string(),
        artist: artist.to_string(),
        album: String::new(),
        analysis_status: AnalysisStatus::NotAnalyzed,
        language: None,
        is_video: false,
    }
}

fn step(down: bool, up: bool) -> NavStep {
    NavStep { left: false, right: false, tab: false, vertical_due: true, up_held: up, down_held: down }
}

fn idle() -> NavStep {
    NavStep { left: false, right: false, tab: false, vertical_due: false, up_held: false, down_held: false }
}

#[test]
fn sidebar_order() {
    assert_eq!(sidebar_action(0), Some(SidebarAction::ChangeFolder));
    assert_eq!(sidebar_action(1), Some(SidebarAction::RescanFolder));
    assert_eq!(sidebar_action(2), Some(SidebarAction::Profile));
    assert_eq!(sidebar_action(3), Some(SidebarAction::Settings));
    assert_eq!(sidebar_action(4), Some(SidebarAction::ToggleTheme));
    assert_eq!(sidebar_action(5), Some(SidebarAction::Exit));
    assert_eq!(sidebar_action(6), None);
    for i in 0..6 {
        assert_eq!(sidebar_position(sidebar_action(i).unwrap()), i);
    }
}

#[test]
fn moving_through_visible_songs() {
    let visible = vec![2usize, 5, 9];
    let mut f = MenuFocus::new();
    f.song_index = 2;
    navigate(&mut f, &step(true, false), &visible);
    assert_eq!(f.song_index, 5);
    assert_eq!(f.nav_lock, 2);
    navigate(&mut f, &step(true, false), &visible);
    assert_eq!(f.song_index, 9);
    navigate(&mut f, &step(true, false), &visible);
    assert_eq!(f.song_index, 9);
    navigate(&mut f, &step(false, true), &visible);
    assert_eq!(f.song_index, 5);
    f.song_index = 7;
    navigate(&mut f, &step(false, true), &visible);
    assert_eq!(f.song_index, 2);
}

#[test]
fn down_then_up_comes_back() {
    let visible = vec![1usize, 4, 6, 8];
    for start in [1usize, 4, 6] {
        let mut f = MenuFocus::new();
        f.song_index = start;
        navigate(&mut f, &step(true, false), &visible);
        assert_ne!(f.song_index, start);
        navigate(&mut f, &step(false, true), &visible);
        assert_eq!(f.song_index, start);
    }
}

#[test]
fn the_lock_counts_down_and_nothing_else_moves_without_input() {
    let mut f = MenuFocus { panel: FocusPanel::SongList, song_index: 3, sidebar_index: 1, nav_lock: 2 };
    navigate(&mut f, &idle(), &vec![3usize]);
    assert_eq!(f, MenuFocus { panel: FocusPanel::SongList, song_index: 3, sidebar_index: 1, nav_lock: 1 });
    navigate(&mut f, &idle(), &vec![3usize]);
    navigate(&mut f, &idle(), &vec![3usize]);
    assert_eq!(f.nav_lock, 0);
}

#[test]
fn panels_and_the_sidebar() {
    let mut f = MenuFocus::new();
    let left = NavStep { left: true, ..idle() };
    navigate(&mut f, &left, &vec![]);
    assert_eq!(f.panel, FocusPanel::Sidebar);
    for _ in 0..10 {
        navigate(&mut f, &step(true, false), &vec![]);
    }
    assert_eq!(f.sidebar_index, 5);
    navigate(&mut f, &step(false, true), &vec![]);
    assert_eq!(f.sidebar_index, 4);
    let tab = NavStep { tab: true, ..idle() };
    navigate(&mut f, &tab, &vec![]);
    assert_eq!(f.panel, FocusPanel::SongList);
    navigate(&mut f, &tab, &vec![]);
    assert_eq!(f.panel, FocusPanel::Sidebar);
    let right = NavStep { right: true, ..idle() };
    navigate(&mut f, &right, &vec![]);
    assert_eq!(f.panel, FocusPanel::SongList);
    let mut top = MenuFocus { panel: FocusPanel::Sidebar, song_index: 0, sidebar_index: 0, nav_lock: 0 };
    navigate(&mut top, &step(false, true), &vec![]);
    assert_eq!(top.sidebar_index, 0);
}

#[test]
fn editing_the_search() {
    let mut q = String::new();
    assert!(edit_search(&mut q, &TextEdit::Typed("ab\u{7}c".to_string())));
    assert_eq!(q, "abc");
    assert!(edit_search(&mut q, &TextEdit::Backspace));
    assert_eq!(q, "ab");
    assert!(!edit_search(&mut q, &TextEdit::Typed("\n".to_string())));
    assert_eq!(q, "ab");
    assert!(edit_search(&mut q, &TextEdit::Escape));
    assert_eq!(q, "");
    assert!(!edit_search(&mut q, &TextEdit::Escape));
    assert!(!edit_search(&mut q, &TextEdit::Backspace));
    assert_eq!(search_display(""), "Type to search songs...");
    assert_eq!(search_display("abba"), "abba");
}

#[test]
fn search_matches_title_or_artist_without_case() {
    let songs = vec![song("Dancing Queen", "ABBA"), song("Yesterday", "The Beatles"), song("Ärger", "Ö")];
    assert!(song_matches(&songs[0], "queen", false));
    assert!(song_matches(&songs[0], "abb", false));
    assert!(!song_matches(&songs[1], "abba", false));
    assert!(song_matches(&songs[2], "ärg", false));
    assert!(song_matches(&songs[2], "ö", false));
    assert_eq!(visible_songs(&songs, "", false), vec![0, 1, 2]);
    assert_eq!(visible_songs(&songs, "E", false), vec![0, 1, 2]);
    assert_eq!(visible_songs(&songs, "BEATLES", false), vec![1]);
    assert_eq!(visible_songs(&songs, "zzz", false), Vec::<usize>::new());
}

#[test]
fn focus_moves_to_the_first_visible_song() {
    let mut f = MenuFocus { panel: FocusPanel::SongList, song_index: 0, sidebar_index: 2, nav_lock: 0 };
    refocus_after_search(&mut f, &vec![3usize, 1, 7]);
    assert_eq!(f.song_index, 1);
    refocus_after_search(&mut f, &vec![3usize, 1, 7]);
    assert_eq!(f.song_index, 1);
    let mut s = MenuFocus { panel: FocusPanel::Sidebar, song_index: 0, sidebar_index: 2, nav_lock: 0 };
    refocus_after_search(&mut s, &vec![3usize]);
    assert_eq!(s.song_index, 0);
    let mut e = MenuFocus { panel: FocusPanel::SongList, song_index: 4, sidebar_index: 0, nav_lock: 0 };
    refocus_after_search(&mut e, &vec![]);
    assert_eq!(e.song_index, 4);
}

#[test]
fn profile_name_box() {
    let mut n = String::new();
    edit_profile_name(&mut n, &TextEdit::Typed("Ana\tMaria".to_string()));
    assert_eq!(n, "AnaMaria");
    edit_profile_name(&mut n, &TextEdit::Backspace);
    assert_eq!(n, "AnaMari");
    edit_profile_name(&mut n, &TextEdit::Escape);
    assert_eq!(n, "AnaMari");
    let mut long = String::new();
    edit_profile_name(&mut long, &TextEdit::Typed("x".repeat(40)));
    assert_eq!(long.len(), 30);
    let mut wide = "a".repeat(29);
    edit_profile_name(&mut wide, &TextEdit::Typed("éé".to_string()));
    assert_eq!(wide, format!("{}é", "a".repeat(29)));
    assert_eq!(wide.len(), 31);
    assert_eq!(profile_name_display(""), "Type your name...");
    assert_eq!(profile_name_display("Ana"), "Ana_");
    assert_eq!(profile_name_to_create("  Ana  ").as_deref(), Some("Ana"));
    assert_eq!(profile_name_to_create(" \t "), None);
}

#[test]
fn exit_dialog() {
    assert_eq!(toggle_exit_focus(0), 1);
    assert_eq!(toggle_exit_focus(1), 0);
    assert!(exit_confirmed(1));
    assert!(!exit_confirmed(0));
}

#[test]
fn settings_steps() {
    assert_eq!(beam_up(5), 6);
    assert_eq!(beam_up(15), 15);
    assert_eq!(beam_up(40), 15);
    assert_eq!(beam_down(5), 4);
    assert_eq!(beam_down(1), 1);
    assert_eq!(beam_down(0), 1);
    assert_eq!(batch_up(15), 16);
    assert_eq!(batch_up(16), 16);
    assert_eq!(batch_down(2), 1);
    assert_eq!(batch_down(16), 15);
    assert_eq!(cycle_model("large-v3-turbo", true), "large-v3");
    assert_eq!(cycle_model("large-v3", true), "large-v3-turbo");
    assert_eq!(cycle_model("large-v3-turbo", false), "large-v3");
    assert_eq!(cycle_model("tiny", true), "large-v3");
    assert_eq!(cycle_model("tiny", false), "large-v3");
    assert_eq!(window_mode_label(true), "Fullscreen");
    assert_eq!(window_mode_label(false), "Windowed");
}

#[test]
fn hovering_focuses_a_song_unless_keys_just_moved() {
    let mut f = MenuFocus { panel: FocusPanel::Sidebar, song_index: 0, sidebar_index: 3, nav_lock: 0 };
    hover_song(&mut f, 7);
    assert_eq!(f, MenuFocus { panel: FocusPanel::SongList, song_index: 7, sidebar_index: 3, nav_lock: 0 });
    let mut g = MenuFocus { panel: FocusPanel::SongList, song_index: 2, sidebar_index: 0, nav_lock: 2 };
    hover_song(&mut g, 7);
    assert_eq!(g.song_index, 2);
    navigate(&mut g, &idle(), &vec![2usize, 7]);
    navigate(&mut g, &idle(), &vec![2usize, 7]);
    hover_song(&mut g, 7);
    assert_eq!(g.song_index, 7);
}

#[test]
fn settings_buttons() {
    let mut c = AppConfig::empty();
    apply_settings_action(&mut c, SettingsAction::BeamUp, true);
    assert_eq!(c.beam_size, Some(6));
    for _ in 0..20 {
        apply_settings_action(&mut c, SettingsAction::BeamUp, true);
    }
    assert_eq!(c.beam_size(), 15);
    apply_settings_action(&mut c, SettingsAction::BeamDown, true);
    assert_eq!(c.beam_size(), 14);
    apply_settings_action(&mut c, SettingsAction::BatchUp, true);
    assert_eq!(c.batch_size(), 16);
    for _ in 0..20 {
        apply_settings_action(&mut c, SettingsAction::BatchDown, true);
    }
    assert_eq!(c.batch_size(), 1);
    apply_settings_action(&mut c, SettingsAction::ModelNext, true);
    assert_eq!(c.whisper_model(), "large-v3");
    apply_settings_action(&mut c, SettingsAction::ModelPrev, true);
    assert_eq!(c.whisper_model(), "large-v3-turbo");
    apply_settings_action(&mut c, SettingsAction::ToggleFullscreen, true);
    assert_eq!(c.fullscreen, Some(false));
    c.dark_mode = Some(false);
    apply_settings_action(&mut c, SettingsAction::RestoreDefaults, false);
    assert_eq!((c.whisper_model.clone(), c.beam_size, c.batch_size, c.fullscreen), (None, None, None, None));
    assert_eq!(c.dark_mode, Some(false));
    let before = format!("{c:?}");
    apply_settings_action(&mut c, SettingsAction::Close, false);
    assert_eq!(format!("{c:?}"), before);
}
