//! Where to look for the `bin/` directory containing the bash scripts.
//!
//! Search order:
//!   1. `$MTUI_BIN_DIR` if set
//!   2. `<cwd>/../bin` (running from `tui/`)
//!   3. `<cwd>/bin` (running from the repo root)
//!   4. `bin/` relative to the binary's location (via `current_exe`):
//!      `<exe dir>/../../../bin` (binary in `tui/target/release/`), then
//!      `<exe dir>/bin`
//!   5. `$PATH` (last resort — scripts must be on PATH)
//!
//! The first directory that contains the sentinel script `install_pkgs`
//! wins; the candidates of steps 1–4 are canonicalized when chosen. The
//! application reads the environment and probes the file system; the
//! candidates and the choice among them are computed here.

use vstd::prelude::*;

use crate::text::{join_path, parent_of, path_join, path_parent};

verus! {

/// The script whose presence marks a `bin/` directory.
pub const SENTINEL: &'static str = "install_pkgs";

/// A directory that may hold the scripts, and whether it is canonicalized
/// when chosen.
#[derive(Debug)]
pub struct BinDirCandidate {
    pub path: String,
    pub canonicalize: bool,
}

/// `dir/..` ... `/bin`: `dir` joined with each of `parts`, in order.
pub open spec fn join_all(dir: Seq<char>, parts: Seq<Seq<char>>) -> Seq<char>
    decreases parts.len(),
{
    if parts.len() == 0 {
        dir
    } else {
        path_join(join_all(dir, parts.drop_last()), parts.last())
    }
}

/// The candidates, as (path, canonicalized) pairs, in search order.
pub open spec fn candidate_list(
    env_dir: Option<Seq<char>>,
    cwd: Option<Seq<char>>,
    exe: Option<Seq<char>>,
    path_dirs: Seq<Seq<char>>,
) -> Seq<(Seq<char>, bool)> {
    let from_env = match env_dir {
        Some(d) => seq![(d, true)],
        None => seq![],
    };
    let from_cwd = match cwd {
        Some(c) => seq![(join_all(c, seq![".."@, "bin"@]), true), (path_join(c, "bin"@), true)],
        None => seq![],
    };
    let exe_dir = match exe {
        Some(e) => path_parent(e),
        None => None,
    };
    let from_exe = match exe_dir {
        Some(p) => seq![
            (join_all(p, seq![".."@, ".."@, ".."@, "bin"@]), true),
            (path_join(p, "bin"@), true),
        ],
        None => seq![],
    };
    from_env + from_cwd + from_exe + path_dirs.map_values(|d: Seq<char>| (d, false))
}

/// The view of a list of candidates.
pub open spec fn candidates_view(v: Seq<BinDirCandidate>) -> Seq<(Seq<char>, bool)> {
    v.map_values(|c: BinDirCandidate| (c.path@, c.canonicalize))
}

fn push_candidate(v: &mut Vec<BinDirCandidate>, path: String, canonicalize: bool)
    ensures
        candidates_view(final(v)@) == candidates_view(old(v)@).push((path@, canonicalize)),
{
    let ghost before = v@;
    v.push(BinDirCandidate { path, canonicalize });
    assert(candidates_view(v@) =~= candidates_view(before).push((path@, canonicalize)));
}

/// The candidate directories, in search order, from `$MTUI_BIN_DIR`, the
/// working directory, the path of the running binary and the entries of
/// `$PATH` (each `None` when it could not be read).
pub fn bin_dir_candidates(
    env_dir: Option<String>,
    cwd: Option<String>,
    exe: Option<String>,
    path_dirs: Vec<String>,
) -> (r: Vec<BinDirCandidate>)
    ensures
        candidates_view(r@) == candidate_list(
            env_dir.deep_view(),
            cwd.deep_view(),
            exe.deep_view(),
            path_dirs.deep_view(),
        ),
{
    let mut out: Vec<BinDirCandidate> = Vec::new();
    let ghost from_env: Seq<(Seq<char>, bool)> = match env_dir.deep_view() {
        Some(d) => seq![(d, true)],
        None => seq![],
    };
    match env_dir {
        Some(d) => push_candidate(&mut out, d, true),
        None => {},
    }
    assert(candidates_view(out@) =~= from_env);
    match &cwd {
        Some(c) => {
            let up = join_path(c.as_str(), "..");
            let a = join_path(up.as_str(), "bin");
            push_candidate(&mut out, a, true);
            let b = join_path(c.as_str(), "bin");
            push_candidate(&mut out, b, true);
            proof {
                let parts = seq![".."@, "bin"@];
                assert(parts.drop_last() =~= seq![".."@]);
                assert(parts.drop_last().drop_last() =~= Seq::<Seq<char>>::empty());
                assert(join_all(c@, parts.drop_last().drop_last()) == c@);
                assert(join_all(c@, parts.drop_last()) == path_join(c@, ".."@));
                assert(join_all(c@, parts) == a@);
            }
        },
        None => {},
    }
    let ghost from_cwd: Seq<(Seq<char>, bool)> = match cwd.deep_view() {
        Some(c) => seq![(join_all(c, seq![".."@, "bin"@]), true), (path_join(c, "bin"@), true)],
        None => seq![],
    };
    assert(candidates_view(out@) =~= from_env + from_cwd);
    let ghost after_cwd = candidates_view(out@);
    let exe_dir = match &exe {
        Some(e) => parent_of(e.as_str()),
        None => None,
    };
    match &exe_dir {
        Some(p) => {
            let u1 = join_path(p.as_str(), "..");
            let u2 = join_path(u1.as_str(), "..");
            let u3 = join_path(u2.as_str(), "..");
            let a = join_path(u3.as_str(), "bin");
            push_candidate(&mut out, a, true);
            let b = join_path(p.as_str(), "bin");
            push_candidate(&mut out, b, true);
            proof {
                let parts = seq![".."@, ".."@, ".."@, "bin"@];
                assert(parts.drop_last() =~= seq![".."@, ".."@, ".."@]);
                assert(parts.drop_last().drop_last() =~= seq![".."@, ".."@]);
                assert(parts.drop_last().drop_last().drop_last() =~= seq![".."@]);
                assert(parts.drop_last().drop_last().drop_last().drop_last()
                    =~= Seq::<Seq<char>>::empty());
                assert(join_all(p@, parts.drop_last().drop_last().drop_last().drop_last()) == p@);
                assert(join_all(p@, parts.drop_last().drop_last().drop_last()) == u1@);
                assert(join_all(p@, parts.drop_last().drop_last()) == u2@);
                assert(join_all(p@, parts.drop_last()) == u3@);
                assert(join_all(p@, parts) == a@);
            }
        },
        None => {},
    }
    let ghost exe_parent = match exe.deep_view() {
        Some(e) => path_parent(e),
        None => None,
    };
    assert(exe_dir.deep_view() == exe_parent);
    let ghost from_exe: Seq<(Seq<char>, bool)> = match exe_parent {
        Some(p) => seq![
            (join_all(p, seq![".."@, ".."@, ".."@, "bin"@]), true),
            (path_join(p, "bin"@), true),
        ],
        None => seq![],
    };
    assert(candidates_view(out@) =~= after_cwd + from_exe);
    let ghost after_exe = candidates_view(out@);
    let ghost dirs = path_dirs.deep_view();
    let mut i: usize = 0;
    while i < path_dirs.len()
        invariant
            i <= path_dirs@.len(),
            dirs == path_dirs.deep_view(),
            candidates_view(out@) =~= after_exe + dirs.take(i as int).map_values(
                |d: Seq<char>| (d, false),
            ),
        decreases path_dirs.len() - i,
    {
        let d = path_dirs[i].clone();
        push_candidate(&mut out, d, false);
        assert(dirs.take(i + 1) =~= dirs.take(i as int).push(dirs[i as int]));
        i += 1;
    }
    assert(dirs.take(path_dirs.len() as int) =~= dirs);
    out
}

/// The path of the sentinel script inside `dir`.
pub fn sentinel_path(dir: &str) -> (r: String)
    ensures
        r@ == path_join(dir@, SENTINEL@),
{
    join_path(dir, SENTINEL)
}

/// The first candidate found to be a `bin/` directory: `is_bin[i]` tells
/// whether candidate `i` holds the sentinel script.
pub fn pick_bin_dir(is_bin: &Vec<bool>) -> (r: Option<usize>)
    ensures
        r matches Some(i) ==> i < is_bin@.len() && is_bin@[i as int] && forall|j: int|
            0 <= j < i ==> !is_bin@[j],
        r is None ==> forall|j: int| 0 <= j < is_bin@.len() ==> !is_bin@[j],
{
    let mut i: usize = 0;
    while i < is_bin.len()
        invariant
            i <= is_bin@.len(),
            forall|j: int| 0 <= j < i ==> !is_bin@[j],
        decreases is_bin.len() - i,
    {
        if is_bin[i] {
            return Some(i);
        }
        i += 1;
    }
    None
}

} // verus!
