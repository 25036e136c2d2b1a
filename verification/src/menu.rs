//! The song menu: moving the focus with keyboard or gamepad, the search
//! box, the profile-name box, the exit dialog and the settings' steps.
use vstd::prelude::*;
use crate::display::{batch_size_of, beam_size_of, model_of, AppConfig};
use crate::library::{display_artist_spec, display_title_spec, Song};
use crate::paths::file_stem_spec;
use crate::text::{
    chars_of, contains_text, is_control, is_ctrl, lowercase_of, owned, push_str, to_lowercase, trim,
    trimmed,
};

verus! {

// ---------------------------------------------------------------------------
// Focus
// ---------------------------------------------------------------------------

/// The two panels of the menu.
#[derive(Clone, Copy, Debug, PartialEq, Eq, Structural)]
pub enum FocusPanel {
    SongList,
    Sidebar,
}

/// The sidebar's actions, top to bottom.
#[derive(Clone, Copy, Debug, PartialEq, Eq, Structural)]
pub enum SidebarAction {
    RescanFolder,
    ChangeFolder,
    Settings,
    ToggleTheme,
    Profile,
    Exit,
}

/// The sidebar's actions in the order they are shown.
pub open spec fn sidebar_actions() -> Seq<SidebarAction> {
    seq![
        SidebarAction::ChangeFolder,
        SidebarAction::RescanFolder,
        SidebarAction::Profile,
        SidebarAction::Settings,
        SidebarAction::ToggleTheme,
        SidebarAction::Exit,
    ]
}

/// The sidebar action at a position.
pub fn sidebar_action(i: usize) -> (a: Option<SidebarAction>)
    ensures
        i < sidebar_actions().len() ==> a == Some(sidebar_actions()[i as int]),
        i >= sidebar_actions().len() ==> a is None,
{
    match i {
        0 => Some(SidebarAction::ChangeFolder),
        1 => Some(SidebarAction::RescanFolder),
        2 => Some(SidebarAction::Profile),
        3 => Some(SidebarAction::Settings),
        4 => Some(SidebarAction::ToggleTheme),
        5 => Some(SidebarAction::Exit),
        _ => None,
    }
}

/// The position of a sidebar action.
pub fn sidebar_position(a: SidebarAction) -> (i: usize)
    ensures
        i < sidebar_actions().len(),
        sidebar_actions()[i as int] == a,
{
    match a {
        SidebarAction::ChangeFolder => 0,
        SidebarAction::RescanFolder => 1,
        SidebarAction::Profile => 2,
        SidebarAction::Settings => 3,
        SidebarAction::ToggleTheme => 4,
        SidebarAction::Exit => 5,
    }
}

/// Where the menu's focus is.
#[derive(Clone, Copy, Debug, PartialEq, Eq, Structural)]
pub struct MenuFocus {
    pub panel: FocusPanel,
    pub song_index: usize,
    pub sidebar_index: usize,
    /// For how many more frames hovering must not move the focus.
    pub nav_lock: u8,
}

impl MenuFocus {
    /// The focus when the menu opens: the first song.
    pub fn new() -> (f: MenuFocus)
        ensures
            f.panel == FocusPanel::SongList,
            f.song_index == 0,
            f.sidebar_index == 0,
            f.nav_lock == 0,
    {
        MenuFocus { panel: FocusPanel::SongList, song_index: 0, sidebar_index: 0, nav_lock: 0 }
    }
}

/// The navigation input of one frame.
#[derive(Clone, Copy, Debug)]
pub struct NavStep {
    /// Left was pressed.
    pub left: bool,
    /// Right was pressed.
    pub right: bool,
    /// Tab was pressed.
    pub tab: bool,
    /// Up or down is due to act this frame (pressed now, or repeating).
    pub vertical_due: bool,
    /// Up is held.
    pub up_held: bool,
    /// Down is held.
    pub down_held: bool,
}

/// The smallest visible song index.
pub open spec fn is_min_visible(visible: Seq<usize>, m: usize) -> bool {
    visible.contains(m) && forall|j: int| 0 <= j < visible.len() ==> m <= #[trigger] visible[j]
}

/// The nearest visible song after `cur`.
pub open spec fn is_next_visible(visible: Seq<usize>, cur: usize, m: usize) -> bool {
    visible.contains(m) && cur < m && forall|j: int|
        0 <= j < visible.len() && cur < #[trigger] visible[j] ==> m <= visible[j]
}

/// The nearest visible song before `cur`.
pub open spec fn is_prev_visible(visible: Seq<usize>, cur: usize, m: usize) -> bool {
    visible.contains(m) && m < cur && forall|j: int|
        0 <= j < visible.len() && #[trigger] visible[j] < cur ==> visible[j] <= m
}

fn smallest(visible: &Vec<usize>) -> (r: Option<usize>)
    ensures
        match r {
            Some(m) => is_min_visible(visible@, m),
            None => visible@.len() == 0,
        },
{
    if visible.len() == 0 {
        return None;
    }
    let mut m = visible[0];
    let mut i: usize = 1;
    while i < visible.len()
        invariant
            1 <= i <= visible@.len(),
            visible@.contains(m),
            forall|j: int| 0 <= j < i ==> m <= #[trigger] visible@[j],
        decreases visible@.len() - i,
    {
        if visible[i] < m {
            m = visible[i];
        }
        i = i + 1;
    }
    Some(m)
}

fn next_after(visible: &Vec<usize>, cur: usize) -> (r: Option<usize>)
    ensures
        match r {
            Some(m) => is_next_visible(visible@, cur, m),
            None => forall|j: int| 0 <= j < visible@.len() ==> #[trigger] visible@[j] <= cur,
        },
{
    let mut best: Option<usize> = None;
    let mut i: usize = 0;
    while i < visible.len()
        invariant
            i <= visible@.len(),
            match best {
                Some(m) => visible@.contains(m) && cur < m && forall|j: int|
                    0 <= j < i && cur < #[trigger] visible@[j] ==> m <= visible@[j],
                None => forall|j: int| 0 <= j < i ==> #[trigger] visible@[j] <= cur,
            },
        decreases visible@.len() - i,
    {
        let v = visible[i];
        if v > cur {
            match best {
                None => best = Some(v),
                Some(m) => if v < m {
                    best = Some(v);
                },
            }
        }
        i = i + 1;
    }
    best
}

fn prev_before(visible: &Vec<usize>, cur: usize) -> (r: Option<usize>)
    ensures
        match r {
            Some(m) => is_prev_visible(visible@, cur, m),
            None => forall|j: int| 0 <= j < visible@.len() ==> cur <= #[trigger] visible@[j],
        },
{
    let mut best: Option<usize> = None;
    let mut i: usize = 0;
    while i < visible.len()
        invariant
            i <= visible@.len(),
            match best {
                Some(m) => visible@.contains(m) && m < cur && forall|j: int|
                    0 <= j < i && #[trigger] visible@[j] < cur ==> visible@[j] <= m,
                None => forall|j: int| 0 <= j < i ==> cur <= #[trigger] visible@[j],
            },
        decreases visible@.len() - i,
    {
        let v = visible[i];
        if v < cur {
            match best {
                None => best = Some(v),
                Some(m) => if v > m {
                    best = Some(v);
                },
            }
        }
        i = i + 1;
    }
    best
}

fn is_visible(visible: &Vec<usize>, cur: usize) -> (r: bool)
    ensures
        r == visible@.contains(cur),
{
    let mut i: usize = 0;
    while i < visible.len()
        invariant
            i <= visible@.len(),
            forall|j: int| 0 <= j < i ==> visible@[j] != cur,
        decreases visible@.len() - i,
    {
        if visible[i] == cur {
            return true;
        }
        i = i + 1;
    }
    false
}

/// The song focused after moving down from `cur`: the next visible song;
/// the first visible song when `cur` is hidden; `cur` itself at the end.
pub open spec fn step_down_spec(visible: Seq<usize>, cur: usize, r: usize) -> bool {
    if !visible.contains(cur) {
        is_min_visible(visible, r)
    } else if exists|m: usize| is_next_visible(visible, cur, m) {
        is_next_visible(visible, cur, r)
    } else {
        r == cur
    }
}

/// The song focused after moving up from `cur`: the previous visible song;
/// the first visible song when `cur` is hidden; `cur` itself at the top.
pub open spec fn step_up_spec(visible: Seq<usize>, cur: usize, r: usize) -> bool {
    if !visible.contains(cur) {
        is_min_visible(visible, r)
    } else if exists|m: usize| is_prev_visible(visible, cur, m) {
        is_prev_visible(visible, cur, r)
    } else {
        r == cur
    }
}

fn step_down(visible: &Vec<usize>, cur: usize) -> (r: usize)
    requires
        visible@.len() > 0,
    ensures
        step_down_spec(visible@, cur, r),
{
    if !is_visible(visible, cur) {
        return smallest(visible).unwrap();
    }
    match next_after(visible, cur) {
        Some(m) => m,
        None => {
            proof {
                if exists|m: usize| is_next_visible(visible@, cur, m) {
                    let m = choose|m: usize| is_next_visible(visible@, cur, m);
                    let j = choose|j: int| 0 <= j < visible@.len() && visible@[j] == m;
                    assert(visible@[j] <= cur);
                }
            }
            cur
        },
    }
}

fn step_up(visible: &Vec<usize>, cur: usize) -> (r: usize)
    requires
        visible@.len() > 0,
    ensures
        step_up_spec(visible@, cur, r),
{
    if !is_visible(visible, cur) {
        return smallest(visible).unwrap();
    }
    match prev_before(visible, cur) {
        Some(m) => m,
        None => {
            proof {
                if exists|m: usize| is_prev_visible(visible@, cur, m) {
                    let m = choose|m: usize| is_prev_visible(visible@, cur, m);
                    let j = choose|j: int| 0 <= j < visible@.len() && visible@[j] == m;
                    assert(cur <= visible@[j]);
                }
            }
            cur
        },
    }
}

/// The panel after a frame's input: left picks the sidebar, right the song
/// list, and Tab switches between them.
pub open spec fn panel_after(panel: FocusPanel, nav: NavStep) -> FocusPanel {
    if nav.left {
        FocusPanel::Sidebar
    } else if nav.right {
        FocusPanel::SongList
    } else if nav.tab {
        if panel == FocusPanel::SongList {
            FocusPanel::Sidebar
        } else {
            FocusPanel::SongList
        }
    } else {
        panel
    }
}

/// The sidebar entry after a step down (to the last entry at most) and
/// then a step up (to the first at least), each when asked.
pub open spec fn sidebar_after(idx: usize, down: bool, up: bool) -> int {
    let d: int = if down {
        if idx + 1 < 5 {
            idx + 1
        } else {
            5
        }
    } else {
        idx as int
    };
    if up {
        if d > 0 {
            d - 1
        } else {
            0
        }
    } else {
        d
    }
}

/// Moving from `cur` to `mid` (down, when asked) and then to `r` (up, when
/// asked) among the visible songs.
pub open spec fn song_steps_via(
    visible: Seq<usize>,
    cur: usize,
    mid: usize,
    r: usize,
    down: bool,
    up: bool,
) -> bool {
    &&& if down {
        step_down_spec(visible, cur, mid)
    } else {
        mid == cur
    }
    &&& if up {
        step_up_spec(visible, mid, r)
    } else {
        r == mid
    }
}

/// The song focused after the steps asked for.
pub open spec fn song_steps(visible: Seq<usize>, cur: usize, r: usize, down: bool, up: bool) -> bool {
    exists|mid: usize| #[trigger] song_steps_via(visible, cur, mid, r, down, up)
}

/// The panel that has the focus after a frame's input.
pub open spec fn panel_now(panel: FocusPanel, nav: NavStep) -> FocusPanel {
    if nav.vertical_due || nav.left || nav.right || nav.tab {
        panel_after(panel, nav)
    } else {
        panel
    }
}

/// The hover lock after a frame: two frames after a step in the song list,
/// else one less than before, down to zero.
pub open spec fn lock_after(lock: u8, stepped_songs: bool) -> u8 {
    if stepped_songs {
        2
    } else if lock > 0 {
        (lock - 1) as u8
    } else {
        0
    }
}

/// Moves the focus for one frame of input. The hover lock counts down;
/// with no navigation nothing else changes. Otherwise the panel changes as
/// asked, then a due step down and a due step up move, in that order,
/// within the panel: among the visible songs (locking hover for two
/// frames), or along the sidebar without leaving it.
pub fn navigate(focus: &mut MenuFocus, nav: &NavStep, visible: &Vec<usize>)
    requires
        old(focus).sidebar_index < usize::MAX,
    ensures
        ({
            let down = nav.vertical_due && nav.down_held;
            let up = nav.vertical_due && nav.up_held;
            let panel = panel_now(old(focus).panel, *nav);
            let stepped = panel == FocusPanel::SongList && (down || up) && visible@.len() > 0;
            &&& final(focus).panel == panel
            &&& final(focus).nav_lock == lock_after(old(focus).nav_lock, stepped)
            &&& stepped ==> song_steps(visible@, old(focus).song_index, final(focus).song_index, down, up)
            &&& !stepped ==> final(focus).song_index == old(focus).song_index
            &&& panel == FocusPanel::Sidebar ==> final(focus).sidebar_index == sidebar_after(
                old(focus).sidebar_index,
                down,
                up,
            )
            &&& panel == FocusPanel::SongList ==> final(focus).sidebar_index == old(
                focus,
            ).sidebar_index
        }),
{
    if focus.nav_lock > 0 {
        focus.nav_lock = focus.nav_lock - 1;
    }
    let any = nav.vertical_due || nav.left || nav.right || nav.tab;
    if !any {
        return;
    }
    if nav.left {
        focus.panel = FocusPanel::Sidebar;
    } else if nav.right {
        focus.panel = FocusPanel::SongList;
    } else if nav.tab {
        focus.panel = if focus.panel == FocusPanel::SongList {
            FocusPanel::Sidebar
        } else {
            FocusPanel::SongList
        };
    }
    let down = nav.vertical_due && nav.down_held;
    let up = nav.vertical_due && nav.up_held;
    if down || up {
        match focus.panel {
            FocusPanel::SongList => {
                if visible.len() > 0 {
                    let cur = focus.song_index;
                    let mid = if down {
                        step_down(visible, cur)
                    } else {
                        cur
                    };
                    let r = if up {
                        step_up(visible, mid)
                    } else {
                        mid
                    };
                    assert(song_steps_via(visible@, cur, mid, r, down, up));
                    focus.song_index = r;
                    focus.nav_lock = 2;
                }
            },
            FocusPanel::Sidebar => {
                let idx = focus.sidebar_index;
                let d = if down {
                    if idx < 4 {
                        idx + 1
                    } else {
                        5
                    }
                } else {
                    idx
                };
                focus.sidebar_index = if up {
                    if d > 0 {
                        d - 1
                    } else {
                        0
                    }
                } else {
                    d
                };
            },
        }
    }
}

/// The pointer resting on a song focuses it, unless the keyboard or the
/// gamepad moved the focus a moment ago.
pub fn hover_song(focus: &mut MenuFocus, song_index: usize)
    ensures
        old(focus).nav_lock == 0 ==> *final(focus) == (MenuFocus {
            panel: FocusPanel::SongList,
            song_index,
            ..*old(focus)
        }),
        old(focus).nav_lock != 0 ==> *final(focus) == *old(focus),
{
    if focus.nav_lock == 0 {
        focus.panel = FocusPanel::SongList;
        focus.song_index = song_index;
    }
}

/// Moving down and then up among the visible songs comes back to where it
/// started, whenever the move down went anywhere.
pub proof fn law_down_then_up_returns(visible: Seq<usize>, cur: usize, mid: usize, back: usize)
    requires
        visible.contains(cur),
        step_down_spec(visible, cur, mid),
        step_up_spec(visible, mid, back),
        mid != cur,
    ensures
        back == cur,
{
    assert(is_next_visible(visible, cur, mid));
    assert(is_prev_visible(visible, mid, cur)) by {
        assert forall|j: int| 0 <= j < visible.len() && #[trigger] visible[j] < mid implies visible[j]
            <= cur by {
            if visible[j] > cur {
                assert(mid <= visible[j]);
            }
        }
    }
    assert(is_prev_visible(visible, mid, back));
    let jb = choose|j: int| 0 <= j < visible.len() && visible[j] == back;
    let jc = choose|j: int| 0 <= j < visible.len() && visible[j] == cur;
    assert(visible[jb] < mid);
    assert(visible[jc] < mid);
}

// ---------------------------------------------------------------------------
// The search box
// ---------------------------------------------------------------------------

/// An edit of a text box.
#[derive(Clone, Debug)]
pub enum TextEdit {
    Backspace,
    Escape,
    Typed(String),
}

/// The text after typing `typed` into `q`: every character but control
/// characters is appended.
pub open spec fn typed_into(q: Seq<char>, typed: Seq<char>) -> Seq<char>
    decreases typed.len(),
{
    if typed.len() == 0 {
        q
    } else {
        let before = typed_into(q, typed.drop_last());
        if is_ctrl(typed.last()) {
            before
        } else {
            before.push(typed.last())
        }
    }
}

/// The search text after one edit: backspace drops the last character,
/// escape clears it, typing appends the typed non-control characters.
pub open spec fn search_after(q: Seq<char>, e: TextEdit) -> Seq<char> {
    match e {
        TextEdit::Backspace => if q.len() > 0 {
            q.drop_last()
        } else {
            q
        },
        TextEdit::Escape => seq![],
        TextEdit::Typed(t) => typed_into(q, t@),
    }
}

fn type_chars(out: &mut String, typed: &str)
    ensures
        final(out)@ == typed_into(old(out)@, typed@),
{
    let v = chars_of(typed);
    let mut i: usize = 0;
    while i < v.len()
        invariant
            i <= v.len(),
            v@ == typed@,
            out@ == typed_into(old(out)@, typed@.subrange(0, i as int)),
        decreases v.len() - i,
    {
        let c = v[i];
        proof {
            let s = typed@.subrange(0, i + 1);
            assert(s.drop_last() =~= typed@.subrange(0, i as int));
            assert(s.last() == c);
        }
        if !is_control(c) {
            out.push(c);
        }
        i = i + 1;
    }
    assert(typed@.subrange(0, v.len() as int) =~= typed@);
}

fn pop_char(s: &mut String)
    requires
        old(s)@.len() > 0,
    ensures
        final(s)@ == old(s)@.drop_last(),
{
    let v = chars_of(s.as_str());
    *s = crate::text::string_of(&v, 0, v.len() - 1);
}

/// Applies one edit to the search text; tells whether it changed.
pub fn edit_search(query: &mut String, edit: &TextEdit) -> (changed: bool)
    ensures
        final(query)@ == search_after(old(query)@, *edit),
        changed == (final(query)@ != old(query)@),
{
    match edit {
        TextEdit::Backspace => {
            if !query.as_str().is_empty() {
                pop_char(query);
                true
            } else {
                false
            }
        },
        TextEdit::Escape => {
            if !query.as_str().is_empty() {
                *query = String::new();
                true
            } else {
                proof {
                    assert(old(query)@ =~= Seq::<char>::empty());
                }
                false
            }
        },
        TextEdit::Typed(t) => {
            let before = query.clone();
            type_chars(query, t.as_str());
            !crate::text::same_text(query.as_str(), before.as_str())
        },
    }
}

/// What the search box shows.
pub fn search_display(query: &str) -> (s: String)
    ensures
        query@.len() == 0 ==> s@ == "Type to search songs..."@,
        query@.len() > 0 ==> s@ == query@,
{
    if query.is_empty() {
        owned("Type to search songs...")
    } else {
        owned(query)
    }
}

/// A song matches the search when the search is empty or its display title
/// or display artist contains it, all lowercased.
pub open spec fn matches_search(song: Song, query: Seq<char>, windows: bool) -> bool {
    let q = lowercase_of(query);
    q.len() == 0 || contains_text(lowercase_of(display_title_spec(song, windows)), q)
        || contains_text(lowercase_of(display_artist_spec(song)), q)
}

/// Whether the song shows under the search.
pub fn song_matches(song: &Song, query: &str, windows: bool) -> (r: bool)
    ensures
        r == matches_search(*song, query@, windows),
{
    let q = to_lowercase(query);
    if q.as_str().is_empty() {
        return true;
    }
    let t = to_lowercase(song.display_title(windows).as_str());
    if crate::text::contains(t.as_str(), q.as_str()) {
        return true;
    }
    let a = to_lowercase(song.display_artist().as_str());
    crate::text::contains(a.as_str(), q.as_str())
}

/// The search looks at the names the list shows: a song is found by a
/// query that its title tag contains, or, when it has no title tag, that the
/// stem of its file name contains; or that its artist tag contains. A
/// song with both tags that contain neither the query is not found. All
/// comparisons are on lowercased text; an empty query finds every song.
pub proof fn law_search_sees_shown_names(song: Song, query: Seq<char>, windows: bool)
    ensures
        lowercase_of(query).len() == 0 ==> matches_search(song, query, windows),
        song.title@.len() > 0 && contains_text(lowercase_of(song.title@), lowercase_of(query))
            ==> matches_search(song, query, windows),
        song.title@.len() == 0 ==> (file_stem_spec(song.path@, windows) matches Some(stem)
            ==> (contains_text(lowercase_of(stem), lowercase_of(query)) ==> matches_search(
            song,
            query,
            windows,
        ))),
        song.artist@.len() > 0 && contains_text(lowercase_of(song.artist@), lowercase_of(query))
            ==> matches_search(song, query, windows),
        song.title@.len() > 0 && song.artist@.len() > 0 && lowercase_of(query).len() > 0
            && !contains_text(lowercase_of(song.title@), lowercase_of(query)) && !contains_text(
            lowercase_of(song.artist@),
            lowercase_of(query),
        ) ==> !matches_search(song, query, windows),
{
}

/// The positions of the songs that show under the search, in order.
pub fn visible_songs(songs: &Vec<Song>, query: &str, windows: bool) -> (out: Vec<usize>)
    ensures
        forall|j: int| 0 <= j < out@.len() ==> #[trigger] out@[j] < songs@.len(),
        forall|a: int, b: int| 0 <= a < b < out@.len() ==> out@[a] < out@[b],
        forall|i: int|
            0 <= i < songs@.len() ==> (out@.contains(i as usize) <==> matches_search(
                #[trigger] songs@[i],
                query@,
                windows,
            )),
{
    let mut out: Vec<usize> = Vec::new();
    let mut i: usize = 0;
    while i < songs.len()
        invariant
            i <= songs@.len(),
            forall|j: int| 0 <= j < out@.len() ==> #[trigger] out@[j] < i,
            forall|a: int, b: int| 0 <= a < b < out@.len() ==> out@[a] < out@[b],
            forall|k: int|
                0 <= k < i ==> (out@.contains(k as usize) <==> matches_search(
                    #[trigger] songs@[k],
                    query@,
                    windows,
                )),
        decreases songs@.len() - i,
    {
        let m = song_matches(&songs[i], query, windows);
        let ghost before = out@;
        if m {
            out.push(i);
        }
        proof {
            assert forall|k: int| 0 <= k < i + 1 implies (out@.contains(k as usize)
                <==> matches_search(#[trigger] songs@[k], query@, windows)) by {
                if k < i {
                    if out@.contains(k as usize) && !before.contains(k as usize) {
                        let w = choose|w: int| 0 <= w < out@.len() && out@[w] == k as usize;
                        assert(w == before.len());
                    }
                    if before.contains(k as usize) {
                        let w = choose|w: int| 0 <= w < before.len() && before[w] == k as usize;
                        assert(out@[w] == k as usize);
                    }
                } else {
                    if m {
                        assert(out@[out@.len() - 1] == i);
                    } else if out@.contains(k as usize) {
                        let w = choose|w: int| 0 <= w < out@.len() && out@[w] == k as usize;
                        assert(before[w] < i);
                    }
                }
            }
        }
        i = i + 1;
    }
    out
}

/// After the search changes, a focused song that no longer shows gives the
/// focus to the first song that does.
pub fn refocus_after_search(focus: &mut MenuFocus, visible: &Vec<usize>)
    ensures
        final(focus).panel == old(focus).panel,
        final(focus).sidebar_index == old(focus).sidebar_index,
        final(focus).nav_lock == old(focus).nav_lock,
        (old(focus).panel == FocusPanel::SongList && !visible@.contains(old(focus).song_index)
            && visible@.len() > 0) ==> is_min_visible(visible@, final(focus).song_index),
        !(old(focus).panel == FocusPanel::SongList && !visible@.contains(old(focus).song_index)
            && visible@.len() > 0) ==> final(focus).song_index == old(focus).song_index,
{
    if focus.panel == FocusPanel::SongList && !is_visible(visible, focus.song_index) {
        if let Some(m) = smallest(visible) {
            focus.song_index = m;
        }
    }
}

// ---------------------------------------------------------------------------
// The profile name box
// ---------------------------------------------------------------------------

/// The longest profile name, in bytes, that still takes more typing.
pub open spec fn name_limit() -> nat {
    30
}

/// The name after typing `typed`: a non-control character is appended
/// while the name is shorter than the limit in UTF-8 bytes.
pub open spec fn name_typed(name: Seq<char>, typed: Seq<char>) -> Seq<char>
    decreases typed.len(),
{
    if typed.len() == 0 {
        name
    } else {
        let before = name_typed(name, typed.drop_last());
        if !is_ctrl(typed.last()) && vstd::utf8::encode_utf8(before).len() < name_limit() {
            before.push(typed.last())
        } else {
            before
        }
    }
}

/// Applies one edit to the profile name being typed (escape is not an
/// edit there).
pub fn edit_profile_name(name: &mut String, edit: &TextEdit)
    ensures
        match edit {
            TextEdit::Backspace => final(name)@ == if old(name)@.len() > 0 {
                old(name)@.drop_last()
            } else {
                old(name)@
            },
            TextEdit::Escape => final(name)@ == old(name)@,
            TextEdit::Typed(t) => final(name)@ == name_typed(old(name)@, t@),
        },
{
    match edit {
        TextEdit::Backspace => {
            if !name.as_str().is_empty() {
                pop_char(name);
            }
        },
        TextEdit::Escape => {},
        TextEdit::Typed(t) => {
            let v = chars_of(t.as_str());
            let mut i: usize = 0;
            while i < v.len()
                invariant
                    i <= v.len(),
                    v@ == t@,
                    name@ == name_typed(old(name)@, t@.subrange(0, i as int)),
                decreases v.len() - i,
            {
                let c = v[i];
                proof {
                    let s = t@.subrange(0, i + 1);
                    assert(s.drop_last() =~= t@.subrange(0, i as int));
                    assert(s.last() == c);
                }
                if !is_control(c) && name.as_str().as_bytes().len() < 30 {
                    name.push(c);
                }
                i = i + 1;
            }
            assert(t@.subrange(0, v.len() as int) =~= t@);
        },
    }
}

/// What the profile name box shows.
pub fn profile_name_display(name: &str) -> (s: String)
    ensures
        name@.len() == 0 ==> s@ == "Type your name..."@,
        name@.len() > 0 ==> s@ == name@ + "_"@,
{
    if name.is_empty() {
        owned("Type your name...")
    } else {
        let mut s = owned(name);
        push_str(&mut s, "_");
        s
    }
}

/// The name a new profile is created with: the typed name, trimmed; none
/// when that is empty.
pub fn profile_name_to_create(typed: &str) -> (r: Option<String>)
    ensures
        trim(typed@).len() == 0 ==> r is None,
        trim(typed@).len() > 0 ==> (r matches Some(n) && n@ == trim(typed@)),
{
    let n = trimmed(typed);
    if n.as_str().is_empty() {
        None
    } else {
        Some(n)
    }
}

// ---------------------------------------------------------------------------
// The exit dialog
// ---------------------------------------------------------------------------

/// The exit dialog's buttons: 0 is Cancel, 1 is Exit.
pub open spec fn exit_focus_ok(f: usize) -> bool {
    f <= 1
}

/// Any navigation moves the exit dialog's focus to the other button.
pub fn toggle_exit_focus(f: usize) -> (g: usize)
    requires
        exit_focus_ok(f),
    ensures
        exit_focus_ok(g),
        g != f,
{
    1 - f
}

/// Moving twice in the exit dialog comes back to the same button.
pub proof fn law_exit_focus_toggles_back(f: usize, g: usize, h: usize)
    requires
        exit_focus_ok(f),
        exit_focus_ok(g) && g != f,
        exit_focus_ok(h) && h != g,
    ensures
        h == f,
{
}

/// Confirming in the exit dialog quits when Exit has the focus.
pub fn exit_confirmed(f: usize) -> (quit: bool)
    ensures
        quit == (f == 1),
{
    f == 1
}

// ---------------------------------------------------------------------------
// Settings
// ---------------------------------------------------------------------------

/// One step up, to `max` at most.
pub open spec fn step_up_to(v: int, max: int) -> int {
    if v + 1 < max {
        v + 1
    } else {
        max
    }
}

/// One step down, to one at least.
pub open spec fn step_down_to_one(v: int) -> int {
    if v > 2 {
        v - 1
    } else {
        1
    }
}

/// One more beam, up to fifteen.
pub fn beam_up(v: u32) -> (r: u32)
    requires
        v < u32::MAX,
    ensures
        r == step_up_to(v as int, 15),
{
    if v < 14 {
        v + 1
    } else {
        15
    }
}

/// One beam less, down to one.
pub fn beam_down(v: u32) -> (r: u32)
    ensures
        r == step_down_to_one(v as int),
{
    if v > 2 {
        v - 1
    } else {
        1
    }
}

/// A larger batch, up to sixteen.
pub fn batch_up(v: u32) -> (r: u32)
    requires
        v < u32::MAX,
    ensures
        r == step_up_to(v as int, 16),
{
    if v < 15 {
        v + 1
    } else {
        16
    }
}

/// A smaller batch, down to one.
pub fn batch_down(v: u32) -> (r: u32)
    ensures
        r == step_down_to_one(v as int),
{
    beam_down(v)
}

/// The transcription models to choose from, in order.
pub open spec fn models() -> Seq<Seq<char>> {
    seq!["large-v3-turbo"@, "large-v3"@]
}

/// The position of `current` among the models; the first when it is none
/// of them.
pub open spec fn model_position(current: Seq<char>) -> int {
    if current == models()[0] {
        0
    } else if current == models()[1] {
        1
    } else {
        0
    }
}

/// The model after `current`, or before it, going round.
pub open spec fn cycled_model(current: Seq<char>, forward: bool) -> Seq<char> {
    models()[(model_position(current) + if forward {
        1
    } else {
        models().len() - 1
    }) % (models().len() as int)]
}

/// Stepping to the next model and back again returns to a listed model, and
/// so does stepping back and then forward.
pub proof fn law_model_cycle_round_trip(m: Seq<char>, forward: bool)
    requires
        models().contains(m),
    ensures
        cycled_model(cycled_model(m, forward), !forward) == m,
{
    reveal_strlit("large-v3-turbo");
    reveal_strlit("large-v3");
    assert(models()[0] != models()[1]) by {
        assert(models()[0].len() != models()[1].len());
    }
    let k = choose|k: int| 0 <= k < models().len() && models()[k] == m;
    assert(models().len() == 2);
    let step: int = if forward {
        1
    } else {
        models().len() - 1
    };
    assert(step == 1);
    if k == 0 {
        assert((model_position(m) + step) % 2 == 1);
        assert(model_position(m) == 0);
        assert(cycled_model(m, forward) == models()[1]);
        assert(model_position(models()[1]) == 1);
    } else {
        assert(model_position(m) == 1);
        assert((model_position(m) + step) % 2 == 0);
        assert(cycled_model(m, forward) == models()[0]);
        assert(model_position(models()[0]) == 0);
    }
}

/// The model after `current`, or before it, going round.
pub fn cycle_model(current: &str, forward: bool) -> (m: &'static str)
    ensures
        m@ == cycled_model(current@, forward),
{
    let first = crate::text::same_text(current, "large-v3-turbo");
    let second = crate::text::same_text(current, "large-v3");
    let idx: usize = if first {
        0
    } else if second {
        1
    } else {
        0
    };
    let next = if forward {
        (idx + 1) % 2
    } else {
        (idx + 2 - 1) % 2
    };
    if next == 0 {
        "large-v3-turbo"
    } else {
        "large-v3"
    }
}

/// What the window setting shows.
pub fn window_mode_label(fullscreen: bool) -> (s: &'static str)
    ensures
        fullscreen ==> s@ == "Fullscreen"@,
        !fullscreen ==> s@ == "Windowed"@,
{
    if fullscreen {
        "Fullscreen"
    } else {
        "Windowed"
    }
}

/// A button of the settings dialog.
#[derive(Clone, Copy, Debug, PartialEq, Eq, Structural)]
pub enum SettingsAction {
    ToggleFullscreen,
    ModelPrev,
    ModelNext,
    BeamUp,
    BeamDown,
    BatchUp,
    BatchDown,
    RestoreDefaults,
    Close,
}

/// Applies a settings button to the settings, given whether the window is
/// fullscreen now. Each button changes only what it names: the window mode,
/// the model (going round the list), the beam size (1 to 15), the batch
/// size (1 to 16), or, for Restore Defaults, all four back to their
/// defaults; Close changes nothing.
pub fn apply_settings_action(config: &mut AppConfig, action: SettingsAction, is_fullscreen: bool)
    requires
        action == SettingsAction::BeamUp ==> beam_size_of(*old(config)) < u32::MAX,
        action == SettingsAction::BatchUp ==> batch_size_of(*old(config)) < u32::MAX,
    ensures
        match action {
            SettingsAction::ToggleFullscreen => *final(config) == (AppConfig {
                fullscreen: Some(!is_fullscreen),
                ..*old(config)
            }),
            SettingsAction::ModelPrev | SettingsAction::ModelNext => {
                &&& *final(config) == (AppConfig {
                    whisper_model: final(config).whisper_model,
                    ..*old(config)
                })
                &&& final(config).whisper_model matches Some(m)
                &&& m@ == cycled_model(
                    model_of(*old(config)),
                    action == SettingsAction::ModelNext,
                )
            },
            SettingsAction::BeamUp => *final(config) == (AppConfig {
                beam_size: Some(step_up_to(beam_size_of(*old(config)) as int, 15) as u32),
                ..*old(config)
            }),
            SettingsAction::BeamDown => *final(config) == (AppConfig {
                beam_size: Some(step_down_to_one(beam_size_of(*old(config)) as int) as u32),
                ..*old(config)
            }),
            SettingsAction::BatchUp => *final(config) == (AppConfig {
                batch_size: Some(step_up_to(batch_size_of(*old(config)) as int, 16) as u32),
                ..*old(config)
            }),
            SettingsAction::BatchDown => *final(config) == (AppConfig {
                batch_size: Some(step_down_to_one(batch_size_of(*old(config)) as int) as u32),
                ..*old(config)
            }),
            SettingsAction::RestoreDefaults => *final(config) == (AppConfig {
                whisper_model: None,
                beam_size: None,
                batch_size: None,
                fullscreen: None,
                ..*old(config)
            }),
            SettingsAction::Close => *final(config) == *old(config),
        },
{
    match action {
        SettingsAction::ToggleFullscreen => {
            config.toggle_fullscreen(is_fullscreen);
        },
        SettingsAction::ModelPrev | SettingsAction::ModelNext => {
            let current = config.whisper_model();
            let next = cycle_model(current.as_str(), action == SettingsAction::ModelNext);
            config.whisper_model = Some(owned(next));
        },
        SettingsAction::BeamUp => {
            config.beam_size = Some(beam_up(config.beam_size()));
        },
        SettingsAction::BeamDown => {
            config.beam_size = Some(beam_down(config.beam_size()));
        },
        SettingsAction::BatchUp => {
            config.batch_size = Some(batch_up(config.batch_size()));
        },
        SettingsAction::BatchDown => {
            config.batch_size = Some(batch_down(config.batch_size()));
        },
        SettingsAction::RestoreDefaults => {
            config.restore_defaults();
        },
        SettingsAction::Close => {},
    }
}

/// Within its range, a setting's step up and step down undo each other, and
/// the steps never leave the range.
pub proof fn law_steps_undo_each_other(v: int, max: int)
    requires
        max >= 2,
    ensures
        1 <= v < max ==> step_down_to_one(step_up_to(v, max)) == v,
        1 < v <= max ==> step_up_to(step_down_to_one(v), max) == v,
        1 <= step_down_to_one(v),
        v < max ==> step_up_to(v, max) <= max,
{
}

} // verus!
