//! `patch_ozone` action: binary-patch iZotope Ozone 12's core libraries.
//!
//! The bundled bash script in `ozone-12/patch-ozone.sh` finds
//! `/Library/Application Support/iZotope/*/iZOzone12Core` and applies a
//! `xxd | sed | xxd` round-trip followed by a re-codesign. This modifies
//! system binaries — the application shows a "danger zone" border and a
//! confirmation before running. The script lives next to `bin/`, in the
//! repository root.

use vstd::prelude::*;

use crate::actions::{info_view, Action, ActionInfo, InfoView, InputKind, ResolvedInputs};
use crate::process::{bare_command, CommandSpec, CommandView};
use crate::text::{join_path, parent_of, path_join, path_parent};

verus! {

pub struct PatchOzoneAction;

impl Action for PatchOzoneAction {
    open spec fn info_view(&self) -> InfoView {
        info_view(
            "patch_ozone"@,
            "System patches"@,
            "Patch iZotope Ozone 12"@,
            "Binary-patch iZotope Ozone 12 core libraries (system-level)"@,
            InputKind::NoInput,
        )
    }

    fn info(&self) -> (r: ActionInfo) {
        ActionInfo {
            id: "patch_ozone",
            category: "System patches",
            label: "Patch iZotope Ozone 12",
            hint: "Binary-patch iZotope Ozone 12 core libraries (system-level)",
            input_kind: InputKind::NoInput,
        }
    }

    open spec fn needs_sudo(&self) -> bool {
        true
    }

    fn requires_sudo(&self) -> (r: bool) {
        true
    }

    open spec fn uses_bin_dir(&self) -> bool {
        true
    }

    fn needs_bin_dir(&self) -> (r: bool) {
        true
    }

    proof fn lemma_bin_dir_unused(&self, b1: Seq<char>, b2: Seq<char>, inputs: ResolvedInputs) {
    }

    /// The scripts directory must have a parent (the repository root).
    open spec fn accepts(&self, bin_dir: Seq<char>, inputs: ResolvedInputs) -> bool {
        path_parent(bin_dir) is Some
    }

    /// `bash <bin>/../ozone-12/patch-ozone.sh`, with the parent of `bin`
    /// taken as `Path::parent` takes it.
    open spec fn command(&self, bin_dir: Seq<char>, inputs: ResolvedInputs) -> CommandView {
        let root = path_parent(bin_dir)->0;
        CommandView {
            args: seq![path_join(path_join(root, "ozone-12"@), "patch-ozone.sh"@)],
            ..bare_command("bash"@)
        }
    }

    fn can_build(&self, bin_dir: &str, inputs: &ResolvedInputs) -> (r: bool) {
        parent_of(bin_dir).is_some()
    }

    fn build_command(&self, bin_dir: &str, inputs: ResolvedInputs) -> (r: CommandSpec) {
        let root = parent_of(bin_dir).unwrap();
        let dir = join_path(root.as_str(), "ozone-12");
        let script = join_path(dir.as_str(), "patch-ozone.sh");
        let r = CommandSpec::new("bash").path_arg(script.as_str());
        assert(r@.args =~= seq![script@]);
        r
    }
}

} // verus!
