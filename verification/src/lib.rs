//! The logic of Nightingale, a karaoke player for a local music library:
//! where its files live, the first-time setup, scanning and sorting the
//! library, queueing songs for analysis and reading the analyzer's reports,
//! finding lyrics online, following the lyrics during playback, the menu's
//! navigation and search, microphone choice, and what the screens show.

pub mod analysis;
pub mod bootstrap;
pub mod cache;
pub mod display;
pub mod layout;
pub mod library;
pub mod lrclib;
pub mod lyrics;
pub mod menu;
pub mod mic;
pub mod order;
pub mod paths;
pub mod probe;
pub mod scoring;
pub mod text;
pub mod toolchain;
pub mod videos;
