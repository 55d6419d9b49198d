//! Persisted app state: recent paths, last action, window size.
//!
//! The state lives in `$XDG_CONFIG_HOME/mtui/state.json` (default
//! `~/.config/mtui/state.json`); the application reads and writes the
//! file. The value, its defaults and the recent-paths list are kept here.

use std::collections::HashMap;

use vstd::prelude::*;

use crate::clock::system_now;
use crate::text::{home_dir, join_path, path_join};

verus! {

/// The number of recent paths that are kept.
pub const MAX_RECENTS: usize = 16;

#[derive(Debug, PartialEq)]
pub struct PersistedState {
    pub version: u32,
    pub window: WindowState,
    pub last_action: Option<String>,
    pub recent_paths: Vec<RecentPath>,
    pub show_hidden: bool,
    pub log_pane_pct: u8,
    pub sort: Option<String>,
    pub danger_zone_acknowledged: HashMap<String, bool>,
}

#[derive(Debug, Clone, Copy, PartialEq, Eq, Structural)]
pub struct WindowState {
    pub cols: u16,
    pub rows: u16,
}

#[derive(Debug, PartialEq)]
pub struct RecentPath {
    pub path: String,
    pub last_used: std::time::SystemTime,
}

/// The window size assumed when none was saved: 120 × 40.
pub fn default_window() -> (w: WindowState)
    ensures
        w == (WindowState { cols: 120, rows: 40 }),
{
    WindowState { cols: 120, rows: 40 }
}

/// The log pane's share of the terminal height, in percent, when none
/// was saved.
pub fn default_log_pane_pct() -> (p: u8)
    ensures
        p == 30,
{
    30
}

impl Default for PersistedState {
    fn default() -> (s: Self)
        ensures
            s.version == 1,
            s.window == (WindowState { cols: 120, rows: 40 }),
            s.last_action is None,
            s.recent_paths@.len() == 0,
            !s.show_hidden,
            s.log_pane_pct == 30,
            s.sort is None,
            s.danger_zone_acknowledged@.len() == 0,
    {
        PersistedState {
            version: 1,
            window: default_window(),
            last_action: None,
            recent_paths: Vec::new(),
            show_hidden: false,
            log_pane_pct: 30,
            sort: None,
            danger_zone_acknowledged: HashMap::new(),
        }
    }
}

/// A recent path as (path, last used).
pub type RecentView = (Seq<char>, std::time::SystemTime);

/// The recent paths, as (path, last used) pairs.
pub open spec fn recents_view(v: Seq<RecentPath>) -> Seq<RecentView> {
    v.map_values(|r: RecentPath| (r.path@, r.last_used))
}

/// The paths of a list of recents.
pub open spec fn recent_paths_of(s: Seq<RecentView>) -> Seq<Seq<char>> {
    s.map_values(|r: RecentView| r.0)
}

/// `s` without the entries for `path`, in order.
pub open spec fn without_path(s: Seq<RecentView>, path: Seq<char>) -> Seq<RecentView>
    decreases s.len(),
{
    if s.len() == 0 {
        s
    } else {
        let rest = without_path(s.drop_last(), path);
        if s.last().0 == path {
            rest
        } else {
            rest.push(s.last())
        }
    }
}

/// Most-recently-used insertion: `entry` goes to the front, the older
/// entry for the same path (if any) is dropped, and the list is cut to
/// [`MAX_RECENTS`] entries.
pub open spec fn mru_push(s: Seq<RecentView>, entry: RecentView) -> Seq<RecentView> {
    let all = seq![entry] + without_path(s, entry.0);
    if all.len() > MAX_RECENTS {
        all.take(MAX_RECENTS as int)
    } else {
        all
    }
}

impl PersistedState {
    /// Path to the state file, given `$XDG_CONFIG_HOME` (as the
    /// application read it), or `None` if the user's config dir can't be
    /// located: `$XDG_CONFIG_HOME` when set, else `~/.config`.
    pub fn config_path(xdg_config_home: Option<String>) -> (r: Option<String>)
        ensures
            xdg_config_home matches Some(x) ==> r matches Some(p) && p@ == path_join(
                path_join(x@, "mtui"@),
                "state.json"@,
            ),
            xdg_config_home is None ==> (r matches Some(p) ==> exists|h: Seq<char>|
                p@ == path_join(path_join(path_join(h, ".config"@), "mtui"@), "state.json"@)),
    {
        match xdg_config_home {
            Some(x) => Self::config_path_from(Some(x), None),
            None => Self::config_path_from(None, home_dir()),
        }
    }

    /// The state file inside `$XDG_CONFIG_HOME` when that is set, else
    /// inside `<home>/.config`, else nothing.
    pub fn config_path_from(xdg_config_home: Option<String>, home: Option<String>) -> (r: Option<
        String,
    >)
        ensures
            xdg_config_home matches Some(x) ==> r matches Some(p) && p@ == path_join(
                path_join(x@, "mtui"@),
                "state.json"@,
            ),
            xdg_config_home is None ==> (home matches Some(h) ==> r matches Some(p) && p@
                == path_join(path_join(path_join(h@, ".config"@), "mtui"@), "state.json"@)),
            xdg_config_home is None && home is None ==> r is None,
    {
        let base = match xdg_config_home {
            Some(x) => x,
            None => match home {
                Some(h) => join_path(h.as_str(), ".config"),
                None => {
                    return None;
                },
            },
        };
        let dir = join_path(base.as_str(), "mtui");
        Some(join_path(dir.as_str(), "state.json"))
    }

    /// Push a path to the recents list (MRU; capped at 16), stamped with
    /// the current time.
    pub fn push_recent(&mut self, path: &str)
        ensures
            exists|now: std::time::SystemTime|
                recents_view(final(self).recent_paths@) == mru_push(
                    recents_view(old(self).recent_paths@),
                    (path@, now),
                ),
            final(self).version == old(self).version,
            final(self).window == old(self).window,
            final(self).last_action == old(self).last_action,
            final(self).show_hidden == old(self).show_hidden,
            final(self).log_pane_pct == old(self).log_pane_pct,
            final(self).sort == old(self).sort,
            final(self).danger_zone_acknowledged == old(self).danger_zone_acknowledged,
    {
        let now = system_now();
        self.push_recent_at(path, now);
    }

    /// Push a path to the recents list (MRU; capped at 16) with the given
    /// time of use.
    pub fn push_recent_at(&mut self, path: &str, now: std::time::SystemTime)
        ensures
            recents_view(final(self).recent_paths@) == mru_push(
                recents_view(old(self).recent_paths@),
                (path@, now),
            ),
            final(self).version == old(self).version,
            final(self).window == old(self).window,
            final(self).last_action == old(self).last_action,
            final(self).show_hidden == old(self).show_hidden,
            final(self).log_pane_pct == old(self).log_pane_pct,
            final(self).sort == old(self).sort,
            final(self).danger_zone_acknowledged == old(self).danger_zone_acknowledged,
    {
        let ghost old_view = recents_view(self.recent_paths@);
        let mut old_list: Vec<RecentPath> = Vec::new();
        std::mem::swap(&mut old_list, &mut self.recent_paths);
        let ghost src = old_list@;
        assert(recents_view(src) == old_view);
        let mut kept: Vec<RecentPath> = Vec::new();
        kept.push(RecentPath { path: path.to_owned(), last_used: now });
        let mut i: usize = 0;
        let n = old_list.len();
        assert(without_path(recents_view(src).take(0), path@) =~= Seq::<RecentView>::empty());
        while old_list.len() > 0
            invariant
                n == src.len(),
                i + old_list@.len() == n,
                old_list@ == src.skip(i as int),
                recents_view(kept@) =~= seq![(path@, now)] + without_path(
                    recents_view(src).take(i as int),
                    path@,
                ),
            decreases old_list.len(),
        {
            let r = old_list.remove(0);
            proof {
                assert(r == src[i as int]);
                assert(old_list@ =~= src.skip(i + 1));
                let t = recents_view(src).take(i + 1);
                assert(t.drop_last() =~= recents_view(src).take(i as int));
                assert(t.last() == (r.path@, r.last_used));
            }
            if !crate::text::text_eq(r.path.as_str(), path) {
                let ghost before = kept@;
                kept.push(r);
                assert(recents_view(kept@) =~= recents_view(before).push(
                    (src[i as int].path@, src[i as int].last_used),
                ));
            }
            i += 1;
        }
        assert(recents_view(src).take(n as int) =~= recents_view(src));
        if kept.len() > MAX_RECENTS {
            let ghost before = kept@;
            kept.truncate(MAX_RECENTS);
            assert(recents_view(kept@) =~= recents_view(before).take(MAX_RECENTS as int));
        }
        self.recent_paths = kept;
    }
}

// ---------------------------------------------------------------------
// Laws of the recents list
// ---------------------------------------------------------------------

proof fn lemma_without_path_facts(s: Seq<RecentView>, path: Seq<char>)
    ensures
        !recent_paths_of(without_path(s, path)).contains(path),
        without_path(s, path).len() <= s.len(),
        forall|e: RecentView| #[trigger] without_path(s, path).contains(e) ==> s.contains(e),
        recent_paths_of(s).no_duplicates() ==> recent_paths_of(without_path(s, path)).no_duplicates(),
    decreases s.len(),
{
    if s.len() > 0 {
        let rest = without_path(s.drop_last(), path);
        lemma_without_path_facts(s.drop_last(), path);
        assert(recent_paths_of(s.drop_last()) =~= recent_paths_of(s).drop_last());
        assert forall|e: RecentView| #[trigger] s.drop_last().contains(e) implies s.contains(e) by {
            let k = choose|k: int| 0 <= k < s.drop_last().len() && s.drop_last()[k] == e;
            assert(s[k] == e);
        }
        if s.last().0 != path {
            let w = rest.push(s.last());
            assert(recent_paths_of(w) =~= recent_paths_of(rest).push(s.last().0));
            assert(s.contains(s.last()));
            assert forall|e: RecentView| #[trigger] w.contains(e) implies s.contains(e) by {
                let k = choose|k: int| 0 <= k < w.len() && w[k] == e;
                if k < rest.len() {
                    assert(rest.contains(e));
                }
            }
            if recent_paths_of(s).no_duplicates() {
                assert forall|k: int| 0 <= k < rest.len() implies recent_paths_of(rest)[k]
                    != s.last().0 by {
                    assert(rest.contains(rest[k]));
                    assert(s.drop_last().contains(rest[k]));
                    let m = choose|m: int| 0 <= m < s.drop_last().len() && s.drop_last()[m] == rest[k];
                    assert(recent_paths_of(s)[m] == rest[k].0);
                    assert(recent_paths_of(s)[s.len() - 1] == s.last().0);
                }
            }
        }
    }
}

/// The law of the recents list: after a push, the pushed path comes
/// first and occurs once, the list holds at most [`MAX_RECENTS`] entries,
/// every other entry was there before, and a list without repeated paths
/// keeps that property.
pub proof fn lemma_push_recent_mru(s: Seq<RecentView>, path: Seq<char>, now: std::time::SystemTime)
    ensures
        mru_push(s, (path, now))[0] == (path, now),
        mru_push(s, (path, now)).len() <= MAX_RECENTS,
        mru_push(s, (path, now)).len() >= 1,
        forall|k: int| 1 <= k < mru_push(s, (path, now)).len() ==> #[trigger] mru_push(s, (path, now))[k].0 != path,
        forall|k: int|
            1 <= k < mru_push(s, (path, now)).len() ==> s.contains(#[trigger] mru_push(s, (path, now))[k]),
        recent_paths_of(s).no_duplicates() ==> recent_paths_of(mru_push(s, (path, now))).no_duplicates(),
{
    let w = without_path(s, path);
    lemma_without_path_facts(s, path);
    let all = seq![(path, now)] + w;
    let r = mru_push(s, (path, now));
    assert forall|k: int| 1 <= k < r.len() implies (#[trigger] r[k]).0 != path && s.contains(r[k]) by {
        assert(r[k] == w[k - 1]);
        assert(recent_paths_of(w)[k - 1] == w[k - 1].0);
        assert(w.contains(w[k - 1]));
    }
    if recent_paths_of(s).no_duplicates() {
        assert forall|a: int, b: int|
            0 <= a < b < r.len() implies recent_paths_of(r)[a] != recent_paths_of(r)[b] by {
            if a == 0 {
                assert(r[b].0 != path);
            } else {
                assert(recent_paths_of(w)[a - 1] == r[a].0);
                assert(recent_paths_of(w)[b - 1] == r[b].0);
            }
        }
    }
}

/// Dropping a path from the recents keeps the other entries, in order.
proof fn lemma_without_path_is_filter(s: Seq<RecentView>, path: Seq<char>)
    ensures
        without_path(s, path) == s.filter(|e: RecentView| e.0 != path),
    decreases s.len(),
{
    reveal(Seq::filter);
    if s.len() > 0 {
        lemma_without_path_is_filter(s.drop_last(), path);
    }
}

/// A push puts the path first, stamped `now`; after it come the older
/// entries for other paths, in their order, newest first, as many as fit:
/// at the cap the oldest ones are dropped.
pub proof fn lemma_push_recent_drops_oldest(s: Seq<RecentView>, path: Seq<char>, now: std::time::SystemTime)
    ensures
        ({
            let r = mru_push(s, (path, now));
            let older = s.filter(|e: RecentView| e.0 != path);
            &&& r[0] == (path, now)
            &&& r.len() == (if older.len() + 1 > MAX_RECENTS {
                MAX_RECENTS as int
            } else {
                older.len() + 1int
            })
            &&& forall|k: int| 1 <= k < r.len() ==> #[trigger] r[k] == older[k - 1]
        }),
{
    lemma_without_path_is_filter(s, path);
}

} // verus!
