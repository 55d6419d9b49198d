//! `remove_protection` action: strip xattrs/quarantine and re-codesign
//! a file or directory.

use vstd::prelude::*;

use crate::actions::{info_view, Action, ActionInfo, InfoView, InputKind, ResolvedInputs};
use crate::process::{bare_command, CommandSpec, CommandView};
use crate::text::{join_path, path_join};

verus! {

pub struct RemoveProtectionAction;

impl Action for RemoveProtectionAction {
    open spec fn info_view(&self) -> InfoView {
        info_view(
            "remove_protection"@,
            "Plugins"@,
            "Remove protection"@,
            "Strip xattrs/quarantine and re-codesign a file or folder"@,
            InputKind::File,
        )
    }

    fn info(&self) -> (r: ActionInfo) {
        ActionInfo {
            id: "remove_protection",
            category: "Plugins",
            label: "Remove protection",
            hint: "Strip xattrs/quarantine and re-codesign a file or folder",
            input_kind: InputKind::File,
        }
    }

    open spec fn needs_sudo(&self) -> bool {
        true
    }

    fn requires_sudo(&self) -> (r: bool) {
        true
    }

    open spec fn uses_bin_dir(&self) -> bool {
        true
    }

    fn needs_bin_dir(&self) -> (r: bool) {
        true
    }

    proof fn lemma_bin_dir_unused(&self, b1: Seq<char>, b2: Seq<char>, inputs: ResolvedInputs) {
    }

    /// A file is needed.
    open spec fn accepts(&self, bin_dir: Seq<char>, inputs: ResolvedInputs) -> bool {
        inputs.file is Some
    }

    /// `bash <bin>/remove_protection <file>`.
    open spec fn command(&self, bin_dir: Seq<char>, inputs: ResolvedInputs) -> CommandView {
        CommandView {
            args: seq![path_join(bin_dir, "remove_protection"@), inputs.file->0@],
            ..bare_command("bash"@)
        }
    }

    fn can_build(&self, bin_dir: &str, inputs: &ResolvedInputs) -> (r: bool) {
        inputs.file.is_some()
    }

    fn build_command(&self, bin_dir: &str, inputs: ResolvedInputs) -> (r: CommandSpec) {
        let file = inputs.file.unwrap();
        let script = join_path(bin_dir, "remove_protection");
        let r = CommandSpec::new("bash").path_arg(script.as_str()).path_arg(file.as_str());
        assert(r@.args =~= seq![script@, file@]);
        r
    }
}

} // verus!
