//! What the screens show in text: durations, score stars, the player's
//! status lines, and the colour theme with the settings it is chosen by.
use vstd::prelude::*;
use crate::text::{decimal, push_decimal, push_str};

verus! {

// ---------------------------------------------------------------------------
// Durations
// ---------------------------------------------------------------------------

/// A number below one hundred written with two digits.
pub open spec fn two_digits(n: nat) -> Seq<char> {
    if n < 10 {
        "0"@ + decimal(n)
    } else {
        decimal(n)
    }
}

/// A duration in whole seconds written as minutes, a colon and two digits
/// of seconds.
pub open spec fn duration_text(total: nat) -> Seq<char> {
    decimal(total / 60) + ":"@ + two_digits(total % 60)
}

/// Writes a duration given in whole seconds, as `3:07`.
pub fn format_duration(total_secs: u64) -> (s: String)
    ensures
        s@ == duration_text(total_secs as nat),
{
    let mut s = String::new();
    push_decimal(&mut s, total_secs / 60);
    push_str(&mut s, ":");
    let secs = total_secs % 60;
    if secs < 10 {
        push_str(&mut s, "0");
    }
    push_decimal(&mut s, secs);
    assert(s@ =~= duration_text(total_secs as nat));
    s
}

// ---------------------------------------------------------------------------
// Score stars
// ---------------------------------------------------------------------------

/// The stars a score shows: five places, each filled, half or empty.
#[derive(Clone, Copy, Debug, PartialEq, Eq, Structural)]
pub struct StarRow {
    pub filled: u32,
    pub half: bool,
    pub empty: u32,
}

/// The number of half stars a score out of 1000 earns: the score in
/// hundreds, rounded half up, at most ten.
pub open spec fn half_stars(score: nat) -> nat {
    let h = (score + 50) / 100;
    if h > 10 {
        10
    } else {
        h
    }
}

/// The stars for a score out of 1000.
pub fn star_counts(score: u32) -> (r: StarRow)
    ensures
        r.filled == half_stars(score as nat) / 2,
        r.half == (half_stars(score as nat) % 2 == 1),
        r.filled + (if r.half {
            1int
        } else {
            0
        }) + r.empty == 5,
{
    let h64: u64 = (score as u64 + 50) / 100;
    let h: u32 = if h64 > 10 {
        10
    } else {
        h64 as u32
    };
    let filled = h / 2;
    let half = h % 2 == 1;
    let empty = 5 - filled - if half {
        1
    } else {
        0
    };
    StarRow { filled, half, empty }
}

// ---------------------------------------------------------------------------
// Player status lines
// ---------------------------------------------------------------------------

/// The longest device name, in bytes, shown whole.
pub open spec fn mic_name_limit() -> nat {
    30
}

/// The device name as the status line shows it: whole when it fits, else
/// its first 29 bytes and an ellipsis.
pub open spec fn short_device_name(name: Seq<char>) -> Seq<char> {
    let bytes = vstd::utf8::encode_utf8(name);
    if bytes.len() > mic_name_limit() {
        vstd::utf8::decode_utf8(bytes.subrange(0, 29)) + "…"@
    } else {
        name
    }
}

/// A device name can be shortened: it fits, or its 29th byte ends a
/// character.
pub open spec fn device_name_cuttable(name: Seq<char>) -> bool {
    let bytes = vstd::utf8::encode_utf8(name);
    bytes.len() > mic_name_limit() ==> vstd::utf8::is_char_boundary(bytes, 29)
}

/// The microphone status line.
pub fn format_mic_text(active: bool, device_name: &str) -> (s: String)
    requires
        device_name_cuttable(device_name@),
    ensures
        s@ == (if active {
            "Mic: ON — "@
        } else {
            "Mic: OFF — "@
        }) + short_device_name(device_name@) + " [M/N]"@,
{
    let mut s = String::new();
    if active {
        push_str(&mut s, "Mic: ON — ");
    } else {
        push_str(&mut s, "Mic: OFF — ");
    }
    let byte_count = device_name.as_bytes().len();
    if byte_count > 30 {
        let ghost before = s@;
        let (head, _) = device_name.split_at(29);
        proof {
            let bytes = vstd::utf8::encode_utf8(device_name@);
            assert(vstd::utf8::encode_utf8(head@) == bytes.subrange(0, 29));
            vstd::utf8::encode_utf8_decode_utf8(head@);
            assert(head@ == vstd::utf8::decode_utf8(bytes.subrange(0, 29)));
        }
        push_str(&mut s, head);
        push_str(&mut s, "…");
        assert(s@ =~= before + short_device_name(device_name@));
    } else {
        push_str(&mut s, device_name);
    }
    push_str(&mut s, " [M/N]");
    assert(s@ =~= (if active {
        "Mic: ON — "@
    } else {
        "Mic: OFF — "@
    }) + short_device_name(device_name@) + " [M/N]"@);
    s
}

/// The signed decimal writing of `n`.
pub open spec fn signed_decimal(n: int) -> Seq<char> {
    if n < 0 {
        "-"@ + decimal((-n) as nat)
    } else {
        decimal(n as nat)
    }
}

/// The guide-vocals status line for a volume in whole percent.
pub fn format_guide_text(percent: i32) -> (s: String)
    ensures
        percent == 0 ==> s@ == "Guide: OFF [G +/-]"@,
        percent != 0 ==> s@ == "Guide: "@ + signed_decimal(percent as int) + "% [G +/-]"@,
{
    let mut s = String::new();
    if percent == 0 {
        push_str(&mut s, "Guide: OFF [G +/-]");
        return s;
    }
    push_str(&mut s, "Guide: ");
    if percent < 0 {
        push_str(&mut s, "-");
        let magnitude: u64 = (0i64 - percent as i64) as u64;
        push_decimal(&mut s, magnitude);
    } else {
        push_decimal(&mut s, percent as u64);
    }
    push_str(&mut s, "% [G +/-]");
    s
}

/// The score line: the score while the microphone listens, dashes
/// otherwise.
pub fn score_text(score: u32, mic_active: bool) -> (s: String)
    ensures
        mic_active ==> s@ == "Score: "@ + decimal(score as nat),
        !mic_active ==> s@ == "Score: --"@,
{
    let mut s = String::new();
    if mic_active {
        push_str(&mut s, "Score: ");
        push_decimal(&mut s, score as u64);
    } else {
        push_str(&mut s, "Score: --");
    }
    s
}

// ---------------------------------------------------------------------------
// Theme and settings
// ---------------------------------------------------------------------------

/// The colour theme.
#[derive(Clone, Copy, Debug, PartialEq, Eq, Structural)]
pub enum ThemeMode {
    Dark,
    Light,
}

/// The other theme.
pub open spec fn other_theme(m: ThemeMode) -> ThemeMode {
    match m {
        ThemeMode::Dark => ThemeMode::Light,
        ThemeMode::Light => ThemeMode::Dark,
    }
}

/// Switching the theme twice gives back the theme one started with.
pub proof fn law_theme_toggle_twice(m: ThemeMode)
    ensures
        other_theme(other_theme(m)) == m,
        other_theme(m) != m,
{
}

/// The interface theme, as far as the logic chooses it: its colours follow
/// from the mode.
#[derive(Clone, Copy, Debug, PartialEq, Eq, Structural)]
pub struct UiTheme {
    pub mode: ThemeMode,
}

impl UiTheme {
    /// The dark theme.
    pub fn dark() -> (t: UiTheme)
        ensures
            t.mode == ThemeMode::Dark,
    {
        UiTheme { mode: ThemeMode::Dark }
    }

    /// The light theme.
    pub fn light() -> (t: UiTheme)
        ensures
            t.mode == ThemeMode::Light,
    {
        UiTheme { mode: ThemeMode::Light }
    }

    /// The theme the settings choose: dark unless they say otherwise.
    pub fn from_config(config: &AppConfig) -> (t: UiTheme)
        ensures
            (t.mode == ThemeMode::Dark) == match config.dark_mode {
                Some(b) => b,
                None => true,
            },
    {
        if config.is_dark_mode() {
            UiTheme::dark()
        } else {
            UiTheme::light()
        }
    }

    /// Switches to the other theme.
    pub fn toggle(&mut self)
        ensures
            final(self).mode == other_theme(old(self).mode),
    {
        *self = match self.mode {
            ThemeMode::Dark => UiTheme::light(),
            ThemeMode::Light => UiTheme::dark(),
        };
    }

    /// The theme's name in the settings.
    pub fn mode_label(&self) -> (s: &'static str)
        ensures
            self.mode == ThemeMode::Dark ==> s@ == "Dark"@,
            self.mode == ThemeMode::Light ==> s@ == "Light"@,
    {
        match self.mode {
            ThemeMode::Dark => "Dark",
            ThemeMode::Light => "Light",
        }
    }
}

/// The settings the application keeps between runs, as far as its logic
/// reads them.
#[derive(Clone, Debug)]
pub struct AppConfig {
    pub last_folder: Option<String>,
    pub last_theme: Option<usize>,
    pub fullscreen: Option<bool>,
    pub dark_mode: Option<bool>,
    pub mic_active: Option<bool>,
    /// The transcription model chosen in the settings.
    pub whisper_model: Option<String>,
    /// The transcription beam size chosen in the settings.
    pub beam_size: Option<u32>,
    /// The transcription batch size chosen in the settings.
    pub batch_size: Option<u32>,
    /// The vocal separator chosen in the settings.
    pub separator: Option<String>,
    /// The microphone last switched to.
    pub preferred_mic: Option<String>,
}

/// The transcription model used when the settings name none.
pub open spec fn default_model() -> Seq<char> {
    "large-v3-turbo"@
}

/// The beam size used when the settings give none.
pub open spec fn default_beam_size() -> u32 {
    5
}

/// The batch size used when the settings give none.
pub open spec fn default_batch_size() -> u32 {
    16
}

/// The vocal separator used when the settings name none.
pub open spec fn default_separator() -> Seq<char> {
    "karaoke"@
}

/// The transcription model the settings choose.
pub open spec fn model_of(c: AppConfig) -> Seq<char> {
    match c.whisper_model {
        Some(m) => m@,
        None => default_model(),
    }
}

/// The beam size the settings choose.
pub open spec fn beam_size_of(c: AppConfig) -> u32 {
    match c.beam_size {
        Some(b) => b,
        None => default_beam_size(),
    }
}

/// The batch size the settings choose.
pub open spec fn batch_size_of(c: AppConfig) -> u32 {
    match c.batch_size {
        Some(b) => b,
        None => default_batch_size(),
    }
}

/// The vocal separator the settings choose.
pub open spec fn separator_of(c: AppConfig) -> Seq<char> {
    match c.separator {
        Some(s) => s@,
        None => default_separator(),
    }
}

impl AppConfig {
    /// Nothing saved yet.
    pub fn empty() -> (c: AppConfig)
        ensures
            c.last_folder is None,
            c.last_theme is None,
            c.fullscreen is None,
            c.dark_mode is None,
            c.mic_active is None,
            c.whisper_model is None,
            c.beam_size is None,
            c.batch_size is None,
            c.separator is None,
            c.preferred_mic is None,
    {
        AppConfig {
            last_folder: None,
            last_theme: None,
            fullscreen: None,
            dark_mode: None,
            mic_active: None,
            whisper_model: None,
            beam_size: None,
            batch_size: None,
            separator: None,
            preferred_mic: None,
        }
    }

    /// The window is fullscreen unless the settings say otherwise.
    pub fn is_fullscreen(&self) -> (r: bool)
        ensures
            r == match self.fullscreen {
                Some(b) => b,
                None => true,
            },
    {
        match self.fullscreen {
            Some(b) => b,
            None => true,
        }
    }

    /// The theme is dark unless the settings say otherwise.
    pub fn is_dark_mode(&self) -> (r: bool)
        ensures
            r == match self.dark_mode {
                Some(b) => b,
                None => true,
            },
    {
        match self.dark_mode {
            Some(b) => b,
            None => true,
        }
    }

    /// The transcription model to use.
    pub fn whisper_model(&self) -> (m: String)
        ensures
            m@ == model_of(*self),
    {
        match &self.whisper_model {
            Some(m) => m.clone(),
            None => crate::text::owned("large-v3-turbo"),
        }
    }

    /// The beam size to use.
    pub fn beam_size(&self) -> (b: u32)
        ensures
            b == beam_size_of(*self),
    {
        match self.beam_size {
            Some(b) => b,
            None => 5,
        }
    }

    /// The batch size to use.
    pub fn batch_size(&self) -> (b: u32)
        ensures
            b == batch_size_of(*self),
    {
        match self.batch_size {
            Some(b) => b,
            None => 16,
        }
    }

    /// The vocal separator to use.
    pub fn separator(&self) -> (s: String)
        ensures
            s@ == separator_of(*self),
    {
        match &self.separator {
            Some(s) => s.clone(),
            None => crate::text::owned("karaoke"),
        }
    }

    /// Forgets the chosen model, beam size, batch size and window mode, so
    /// that their defaults apply again; the rest stays.
    pub fn restore_defaults(&mut self)
        ensures
            *final(self) == (AppConfig {
                whisper_model: None,
                beam_size: None,
                batch_size: None,
                fullscreen: None,
                ..*old(self)
            }),
    {
        self.whisper_model = None;
        self.beam_size = None;
        self.batch_size = None;
        self.fullscreen = None;
    }

    /// Switches the window between fullscreen and windowed, given whether
    /// it is fullscreen now, and records the new mode; returns it.
    pub fn toggle_fullscreen(&mut self, is_fullscreen: bool) -> (now: bool)
        ensures
            now == !is_fullscreen,
            *final(self) == (AppConfig { fullscreen: Some(now), ..*old(self) }),
    {
        self.fullscreen = Some(!is_fullscreen);
        !is_fullscreen
    }

    /// Turns the microphone on or off, given whether it listens now, and
    /// records the new state; returns it.
    pub fn toggle_mic(&mut self, active: bool) -> (now: bool)
        ensures
            now == !active,
            *final(self) == (AppConfig { mic_active: Some(now), ..*old(self) }),
    {
        self.mic_active = Some(!active);
        !active
    }

    /// Records the microphone switched to, to be preferred next time.
    pub fn remember_mic(&mut self, device_name: String)
        ensures
            *final(self) == (AppConfig { preferred_mic: Some(device_name), ..*old(self) }),
    {
        self.preferred_mic = Some(device_name);
    }

    /// Whether the microphone listens when a song starts: only with a
    /// device, and then as last saved, listening when nothing was saved.
    pub fn initial_mic_active(&self, has_device: bool) -> (r: bool)
        ensures
            r == (has_device && match self.mic_active {
                Some(b) => b,
                None => true,
            }),
    {
        if !has_device {
            return false;
        }
        match self.mic_active {
            Some(b) => b,
            None => true,
        }
    }
}

} // verus!
