//! `install_pkgs` action: install every .pkg in a chosen directory.

use vstd::prelude::*;

use crate::actions::{info_view, Action, ActionId, ActionInfo, InfoView, InputKind, ResolvedInputs};
use crate::process::{bare_command, CommandSpec, CommandView};
use crate::text::{join_path, path_join};

verus! {

pub const ID: ActionId = "install_pkgs";

pub const SCRIPT_NAME: &'static str = "install_pkgs";

pub struct InstallPkgsAction;

impl Action for InstallPkgsAction {
    open spec fn info_view(&self) -> InfoView {
        info_view(
            "install_pkgs"@,
            "Installers"@,
            "Install .pkg files"@,
            "Install every .pkg in the chosen directory"@,
            InputKind::Dir,
        )
    }

    fn info(&self) -> (r: ActionInfo) {
        ActionInfo {
            id: "install_pkgs",
            category: "Installers",
            label: "Install .pkg files",
            hint: "Install every .pkg in the chosen directory",
            input_kind: InputKind::Dir,
        }
    }

    open spec fn needs_sudo(&self) -> bool {
        true
    }

    fn requires_sudo(&self) -> (r: bool) {
        true
    }

    open spec fn uses_bin_dir(&self) -> bool {
        true
    }

    fn needs_bin_dir(&self) -> (r: bool) {
        true
    }

    proof fn lemma_bin_dir_unused(&self, b1: Seq<char>, b2: Seq<char>, inputs: ResolvedInputs) {
    }

    /// A directory is needed.
    open spec fn accepts(&self, bin_dir: Seq<char>, inputs: ResolvedInputs) -> bool {
        inputs.dir is Some
    }

    /// `bash <bin>/install_pkgs <dir>`, run in `<dir>`.
    open spec fn command(&self, bin_dir: Seq<char>, inputs: ResolvedInputs) -> CommandView {
        let dir = inputs.dir->0@;
        CommandView {
            args: seq![path_join(bin_dir, "install_pkgs"@), dir],
            cwd: Some(dir),
            ..bare_command("bash"@)
        }
    }

    fn can_build(&self, bin_dir: &str, inputs: &ResolvedInputs) -> (r: bool) {
        inputs.dir.is_some()
    }

    fn build_command(&self, bin_dir: &str, inputs: ResolvedInputs) -> (r: CommandSpec) {
        let dir = inputs.dir.unwrap();
        let script = join_path(bin_dir, "install_pkgs");
        let r = CommandSpec::new("bash").path_arg(script.as_str()).path_arg(dir.as_str()).cwd(
            dir.as_str(),
        );
        assert(r@.args =~= seq![script@, dir@]);
        r
    }
}

} // verus!
