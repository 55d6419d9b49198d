//! `move_kd_plugs` action: copy *.vst / *.vst3 / *.component from a chosen
//! directory into `/Library/Audio/Plug-Ins/...`.

use vstd::prelude::*;

use crate::actions::{info_view, Action, ActionInfo, InfoView, InputKind, ResolvedInputs};
use crate::process::{bare_command, CommandSpec, CommandView};
use crate::text::{join_path, path_join};

verus! {

pub struct MoveKdPlugsAction;

impl Action for MoveKdPlugsAction {
    open spec fn info_view(&self) -> InfoView {
        info_view(
            "move_kd_plugs"@,
            "Plugins"@,
            "Move k'd plugins"@,
            "Copy *.vst / *.vst3 / *.component into /Library/Audio/Plug-Ins"@,
            InputKind::Dir,
        )
    }

    fn info(&self) -> (r: ActionInfo) {
        ActionInfo {
            id: "move_kd_plugs",
            category: "Plugins",
            label: "Move k'd plugins",
            hint: "Copy *.vst / *.vst3 / *.component into /Library/Audio/Plug-Ins",
            input_kind: InputKind::Dir,
        }
    }

    open spec fn needs_sudo(&self) -> bool {
        true
    }

    fn requires_sudo(&self) -> (r: bool) {
        true
    }

    open spec fn uses_bin_dir(&self) -> bool {
        true
    }

    fn needs_bin_dir(&self) -> (r: bool) {
        true
    }

    proof fn lemma_bin_dir_unused(&self, b1: Seq<char>, b2: Seq<char>, inputs: ResolvedInputs) {
    }

    /// A directory is needed.
    open spec fn accepts(&self, bin_dir: Seq<char>, inputs: ResolvedInputs) -> bool {
        inputs.dir is Some
    }

    /// `bash <bin>/move_kd_plugs`, run in the chosen directory: the script
    /// copies `*.vst` etc. from its working directory.
    open spec fn command(&self, bin_dir: Seq<char>, inputs: ResolvedInputs) -> CommandView {
        CommandView {
            args: seq![path_join(bin_dir, "move_kd_plugs"@)],
            cwd: Some(inputs.dir->0@),
            ..bare_command("bash"@)
        }
    }

    fn can_build(&self, bin_dir: &str, inputs: &ResolvedInputs) -> (r: bool) {
        inputs.dir.is_some()
    }

    fn build_command(&self, bin_dir: &str, inputs: ResolvedInputs) -> (r: CommandSpec) {
        let dir = inputs.dir.unwrap();
        let script = join_path(bin_dir, "move_kd_plugs");
        let r = CommandSpec::new("bash").path_arg(script.as_str()).cwd(dir.as_str());
        assert(r@.args =~= seq![script@]);
        r
    }
}

} // verus!
