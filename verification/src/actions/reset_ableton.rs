//! `reset_ableton` action: discover installed Ableton versions, let the
//! user pick one, and reset its prefs + templates.
//!
//! Discovery scans `~/Library/Preferences/Ableton/*/Preferences.cfg`. A
//! folder is considered an "installed version" if it has a
//! `Preferences.cfg` inside it. The folder name is the version string
//! (e.g. `12.1.5`). The application reads the folders; which of them are
//! versions, and in which order they are shown, is decided here
//! ([`select_versions`]).
//!
//! The action itself is `InputKind::Choice`; the App reads the picked
//! version from `ResolvedInputs::choice`.

use vstd::prelude::*;
use vstd::relations::sorted_by;

use crate::actions::{info_view, Action, ActionInfo, InfoView, InputKind, ResolvedInputs};
use crate::process::{bare_command, CommandSpec, CommandView};
use crate::sort::{alike, sort_by_leq, total_preorder};
use crate::text::{
    join_path, lemma_text_le_reflexive, lemma_text_le_total, lemma_text_le_transitive, path_join,
    text_le, text_le_exec,
};

verus! {

#[derive(Debug)]
pub struct AbletonVersion {
    pub version: String,
    /// mtime of the `Preferences.cfg` file, if available.
    pub cfg_mtime: Option<std::time::SystemTime>,
    /// Total size of the `Undo/` directory in bytes, if any.
    pub undo_size: u64,
    /// Total size of the global `Templates/` directory in bytes.
    /// (Shown per row so the user knows what gets backed up.)
    pub templates_size: u64,
}

/// What the application found out about one entry of the Ableton
/// preferences folder.
#[derive(Debug)]
pub struct VersionProbe {
    /// The entry's name, or `None` when it is not valid UTF-8.
    pub name: Option<String>,
    /// Whether the entry is a directory.
    pub is_dir: bool,
    /// Whether the entry holds a `Preferences.cfg` file.
    pub has_cfg: bool,
    /// mtime of its `Preferences.cfg`, if available.
    pub cfg_mtime: Option<std::time::SystemTime>,
    /// Total size of its `Undo/` directory in bytes.
    pub undo_size: u64,
}

/// An entry is an installed version when it is a directory with a
/// `Preferences.cfg` and a readable name.
pub open spec fn is_installed_version(p: VersionProbe) -> bool {
    p.is_dir && p.has_cfg && p.name is Some
}

/// The row shown for an installed version.
pub open spec fn version_row(p: VersionProbe, templates_size: u64) -> AbletonVersion {
    AbletonVersion {
        version: p.name->0,
        cfg_mtime: p.cfg_mtime,
        undo_size: p.undo_size,
        templates_size,
    }
}

/// The rows of the installed versions among `probes`, in the order found.
pub open spec fn installed_versions(probes: Seq<VersionProbe>, templates_size: u64) -> Seq<
    AbletonVersion,
>
    decreases probes.len(),
{
    if probes.len() == 0 {
        seq![]
    } else {
        let rest = installed_versions(probes.drop_last(), templates_size);
        if is_installed_version(probes.last()) {
            rest.push(version_row(probes.last(), templates_size))
        } else {
            rest
        }
    }
}

/// Versions are listed in the order of their names.
pub open spec fn version_le(a: AbletonVersion, b: AbletonVersion) -> bool {
    text_le(a.version@, b.version@)
}

/// Versions in text order, as a relation.
pub open spec fn version_order() -> spec_fn(AbletonVersion, AbletonVersion) -> bool {
    |a: AbletonVersion, b: AbletonVersion| version_le(a, b)
}

pub proof fn lemma_version_le_total_preorder()
    ensures
        total_preorder(version_order()),
{
    assert forall|a: AbletonVersion| #[trigger] version_le(a, a) by {
        lemma_text_le_reflexive(a.version@);
    }
    assert forall|a: AbletonVersion, b: AbletonVersion, c: AbletonVersion|
        #[trigger] version_le(a, b) && #[trigger] version_le(b, c) implies version_le(a, c) by {
        lemma_text_le_transitive(a.version@, b.version@, c.version@);
    }
    assert forall|a: AbletonVersion, b: AbletonVersion|
        #[trigger] version_le(a, b) || version_le(b, a) by {
        lemma_text_le_total(a.version@, b.version@);
    }
}

fn version_le_exec(a: &AbletonVersion, b: &AbletonVersion) -> (r: bool)
    ensures
        r == version_le(*a, *b),
{
    text_le_exec(a.version.as_str(), b.version.as_str())
}

/// The installed versions among `probes`, sorted by version: the rows
/// are exactly those of [`installed_versions`], ordered by name.
pub fn select_versions(probes: Vec<VersionProbe>, templates_size: u64) -> (r: Vec<AbletonVersion>)
    ensures
        r@.to_multiset() == installed_versions(probes@, templates_size).to_multiset(),
        sorted_by(r@, version_order()),
        forall|x: AbletonVersion| #[trigger] r@.filter(
            alike(version_order(), x),
        ) == installed_versions(probes@, templates_size).filter(
            alike(version_order(), x),
        ),
{
    let ghost all = probes@;
    let mut rest = probes;
    let mut found: Vec<AbletonVersion> = Vec::new();
    let mut i: usize = 0;
    let n = rest.len();
    while rest.len() > 0
        invariant
            n == all.len(),
            i + rest@.len() == all.len(),
            rest@ == all.skip(i as int),
            found@ == installed_versions(all.take(i as int), templates_size),
        decreases rest.len(),
    {
        let p = rest.remove(0);
        proof {
            assert(p == all[i as int]);
            assert(all.take(i + 1).drop_last() =~= all.take(i as int));
            assert(all.take(i + 1).last() == p);
            assert(rest@ =~= all.skip(i + 1));
        }
        if p.is_dir && p.has_cfg {
            match p.name {
                Some(name) => {
                    found.push(
                        AbletonVersion {
                            version: name,
                            cfg_mtime: p.cfg_mtime,
                            undo_size: p.undo_size,
                            templates_size,
                        },
                    );
                },
                None => {},
            }
        }
        i += 1;
    }
    proof {
        assert(all.take(i as int) =~= all);
        lemma_version_le_total_preorder();
    }
    sort_by_leq(
        found,
        Ghost(version_order()),
        version_le_exec,
    )
}

pub struct ResetAbletonAction;

impl Action for ResetAbletonAction {
    open spec fn info_view(&self) -> InfoView {
        info_view(
            "reset_ableton"@,
            "Maintenance"@,
            "Reset Ableton"@,
            "Back up & clear prefs + templates for an installed Ableton version"@,
            InputKind::Choice,
        )
    }

    fn info(&self) -> (r: ActionInfo) {
        ActionInfo {
            id: "reset_ableton",
            category: "Maintenance",
            label: "Reset Ableton",
            hint: "Back up & clear prefs + templates for an installed Ableton version",
            input_kind: InputKind::Choice,
        }
    }

    open spec fn needs_sudo(&self) -> bool {
        true
    }

    fn requires_sudo(&self) -> (r: bool) {
        true
    }

    open spec fn uses_bin_dir(&self) -> bool {
        true
    }

    fn needs_bin_dir(&self) -> (r: bool) {
        true
    }

    proof fn lemma_bin_dir_unused(&self, b1: Seq<char>, b2: Seq<char>, inputs: ResolvedInputs) {
    }

    /// A chosen version is needed.
    open spec fn accepts(&self, bin_dir: Seq<char>, inputs: ResolvedInputs) -> bool {
        inputs.choice is Some
    }

    /// `bash <bin>/reset_ableton <version>`.
    open spec fn command(&self, bin_dir: Seq<char>, inputs: ResolvedInputs) -> CommandView {
        CommandView {
            args: seq![path_join(bin_dir, "reset_ableton"@), inputs.choice->0@],
            ..bare_command("bash"@)
        }
    }

    fn can_build(&self, bin_dir: &str, inputs: &ResolvedInputs) -> (r: bool) {
        inputs.choice.is_some()
    }

    fn build_command(&self, bin_dir: &str, inputs: ResolvedInputs) -> (r: CommandSpec) {
        let version = inputs.choice.unwrap();
        let script = join_path(bin_dir, "reset_ableton");
        let r = CommandSpec::new("bash").path_arg(script.as_str()).arg(version.as_str());
        assert(r@.args =~= seq![script@, version@]);
        r
    }
}

} // verus!
