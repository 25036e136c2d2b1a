# nightingale

The logic of Nightingale, a karaoke player for a local music library,
written in Verus with its behaviour stated in contracts and proved.

- `src/` is the verified library:
  - `layout`, `cache`: where the application keeps its tools, models,
    videos, settings and per-song analysis files;
  - `bootstrap`, `toolchain`: the first-time setup as a state machine over
    its stages, and the downloads and commands each stage runs;
  - `library`, `paths`, `order`, `probe`: songs, their display names, file
    formats, the library's sort order, file hashes, and video metadata;
  - `analysis`, `lrclib`: the analysis queue, the analyzer's command line,
    progress reports and exit, and lyrics found on LRCLIB;
  - `lyrics`, `scoring`, `mic`, `display`: following the lyrics during
    playback, the pitch history, choosing a microphone, and status texts;
  - `menu`: keyboard and gamepad navigation, search, and the settings steps;
  - `text`: the character-level helpers the rest is built on.
- `tests/` runs the library on concrete values.
- `app/` is a command-line program around the library: setup, scanning,
  analysis and pitch tracking, with the file, network and process work that
  stays outside the proofs.
