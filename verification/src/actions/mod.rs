//! The Action trait and the in-process action registry.
//!
//! Each `bin/` script (and the `ozone-12` patcher) corresponds to one
//! `Action` implementation. The trait decouples "what does the action
//! need from the user" (the [`InputKind`]) from "how does it execute"
//! (`build_command`). The registry ([`all`]) holds a test action and six
//! placeholders for the six real actions, which stand in their own
//! modules until they are wired into the registry.
//!
//! Where the bash scripts live is found by the application (it probes the
//! file system, see [`locate`]); a command is built from that directory.

pub mod install_pkgs;
pub mod locate;
pub mod move_kd_plugs;
pub mod patch_ozone;
pub mod remove_protection;
pub mod reset_ableton;
pub mod run_patchers;

use vstd::prelude::*;

use crate::process::{bare_command, CommandSpec, CommandView};
use crate::text::{copy_opt_text, text_eq};

verus! {

/// Inputs collected from the user. Default is empty (used by the test
/// action and by no-input actions).
#[derive(Debug)]
pub struct ResolvedInputs {
    pub dir: Option<String>,
    pub file: Option<String>,
    pub choice: Option<String>,
}

impl Default for ResolvedInputs {
    fn default() -> (r: Self)
        ensures
            r.dir is None,
            r.file is None,
            r.choice is None,
    {
        ResolvedInputs { dir: None, file: None, choice: None }
    }
}

impl ResolvedInputs {
    /// An owned copy of these inputs.
    pub fn duplicate(&self) -> (r: Self)
        ensures
            r == *self,
    {
        ResolvedInputs {
            dir: copy_opt_text(&self.dir),
            file: copy_opt_text(&self.file),
            choice: copy_opt_text(&self.choice),
        }
    }
}

/// The shape of inputs an action wants. Drives the main-pane widget.
#[derive(Debug, Clone, Copy, PartialEq, Eq, Structural)]
pub enum InputKind {
    /// No input — just a "Run" button.
    NoInput,
    /// A directory.
    Dir,
    /// A single file.
    File,
    /// A picker over a fixed set of options.
    Choice,
}

/// Stable, machine-readable ID. Used as the sidebar key and in the job
/// log to identify which action produced which line.
pub type ActionId = &'static str;

/// Display metadata.
#[derive(Debug, Clone, Copy)]
pub struct ActionInfo {
    pub id: ActionId,
    pub category: &'static str,
    pub label: &'static str,
    pub hint: &'static str,
    pub input_kind: InputKind,
}

/// The contents of an [`ActionInfo`], as text.
pub struct InfoView {
    pub id: Seq<char>,
    pub category: Seq<char>,
    pub label: Seq<char>,
    pub hint: Seq<char>,
    pub input_kind: InputKind,
}

impl View for ActionInfo {
    type V = InfoView;

    open spec fn view(&self) -> InfoView {
        InfoView {
            id: self.id@,
            category: self.category@,
            label: self.label@,
            hint: self.hint@,
            input_kind: self.input_kind,
        }
    }
}

/// Builds an [`InfoView`] from its parts.
pub open spec fn info_view(
    id: Seq<char>,
    category: Seq<char>,
    label: Seq<char>,
    hint: Seq<char>,
    input_kind: InputKind,
) -> InfoView {
    InfoView { id, category, label, hint, input_kind }
}

/// Trait implemented by every action.
///
/// `bin_dir` is the directory that holds the bash scripts, as the
/// application located it.
pub trait Action: Sized {
    /// The action's metadata.
    spec fn info_view(&self) -> InfoView;

    fn info(&self) -> (r: ActionInfo)
        ensures
            r@ == self.info_view(),
    ;

    /// Whether the spawned child is wrapped in `sudo -A -E`.
    spec fn needs_sudo(&self) -> bool;

    /// Whether the spawned child should be wrapped in `sudo -A -E`. Most
    /// actions install files to `/Library/...` or modify system paths;
    /// the test action and read-only actions do not.
    fn requires_sudo(&self) -> (r: bool)
        ensures
            r == self.needs_sudo(),
    ;

    /// Whether the action runs a script of the `bin/` directory.
    spec fn uses_bin_dir(&self) -> bool;

    /// Whether the action runs a script of the `bin/` directory (without
    /// one, its command cannot be run when `bin/` was not found).
    fn needs_bin_dir(&self) -> (r: bool)
        ensures
            r == self.uses_bin_dir(),
    ;

    /// An action that runs no script of `bin/` accepts the same inputs and
    /// builds the same command whatever the `bin/` directory.
    proof fn lemma_bin_dir_unused(&self, b1: Seq<char>, b2: Seq<char>, inputs: ResolvedInputs)
        ensures
            !self.uses_bin_dir() ==> self.accepts(b1, inputs) == self.accepts(b2, inputs),
            !self.uses_bin_dir() ==> self.command(b1, inputs) == self.command(b2, inputs),
    ;

    /// Whether a command can be built for these inputs: the inputs the
    /// action needs are present.
    spec fn accepts(&self, bin_dir: Seq<char>, inputs: ResolvedInputs) -> bool;

    /// The command that the action runs for these inputs.
    spec fn command(&self, bin_dir: Seq<char>, inputs: ResolvedInputs) -> CommandView;

    /// Tests [`Action::accepts`].
    fn can_build(&self, bin_dir: &str, inputs: &ResolvedInputs) -> (r: bool)
        ensures
            r == self.accepts(bin_dir@, *inputs),
    ;

    /// Build the command to run, given the user's resolved inputs.
    /// Called once, just before the job is started.
    fn build_command(&self, bin_dir: &str, inputs: ResolvedInputs) -> (r: CommandSpec)
        requires
            self.accepts(bin_dir@, inputs),
        ensures
            r@ == self.command(bin_dir@, inputs),
    ;
}

/// The command of `action` for these inputs, or `None` when the action
/// cannot build one from them.
pub fn command_for<A: Action>(action: &A, bin_dir: &str, inputs: ResolvedInputs) -> (r: Option<
    CommandSpec,
>)
    ensures
        r is Some <==> action.accepts(bin_dir@, inputs),
        r matches Some(c) ==> c@ == action.command(bin_dir@, inputs),
{
    if action.can_build(bin_dir, &inputs) {
        Some(action.build_command(bin_dir, inputs))
    } else {
        None
    }
}

// =====================================================================
// TestAction
// =====================================================================

/// A dev-only action that just runs a shell command. Proves the
/// process + streaming + cancellation pipeline end-to-end. Lives under
/// the "Dev" category.
#[derive(Debug)]
pub struct TestAction {
    pub shell_command: String,
}

impl TestAction {
    pub const ID: ActionId = "test";

    pub fn new(shell_command: &str) -> (r: Self)
        ensures
            r.shell_command@ == shell_command@,
    {
        TestAction { shell_command: shell_command.to_owned() }
    }
}

/// Metadata of the test action.
pub open spec fn test_action_info() -> InfoView {
    info_view(
        "test"@,
        "Dev"@,
        "Test action"@,
        "Runs a shell command via the streaming pipeline. Dev only."@,
        InputKind::NoInput,
    )
}

impl Action for TestAction {
    open spec fn info_view(&self) -> InfoView {
        test_action_info()
    }

    fn info(&self) -> (r: ActionInfo) {
        ActionInfo {
            id: Self::ID,
            category: "Dev",
            label: "Test action",
            hint: "Runs a shell command via the streaming pipeline. Dev only.",
            input_kind: InputKind::NoInput,
        }
    }

    open spec fn needs_sudo(&self) -> bool {
        false
    }

    fn requires_sudo(&self) -> (r: bool) {
        false
    }

    open spec fn uses_bin_dir(&self) -> bool {
        false
    }

    fn needs_bin_dir(&self) -> (r: bool) {
        false
    }

    proof fn lemma_bin_dir_unused(&self, b1: Seq<char>, b2: Seq<char>, inputs: ResolvedInputs) {
    }

    open spec fn accepts(&self, bin_dir: Seq<char>, inputs: ResolvedInputs) -> bool {
        true
    }

    /// `bash -c <shell command>`.
    open spec fn command(&self, bin_dir: Seq<char>, inputs: ResolvedInputs) -> CommandView {
        CommandView { args: seq!["-c"@, self.shell_command@], ..bare_command("bash"@) }
    }

    fn can_build(&self, bin_dir: &str, inputs: &ResolvedInputs) -> (r: bool) {
        true
    }

    fn build_command(&self, bin_dir: &str, inputs: ResolvedInputs) -> (r: CommandSpec) {
        let mut args: Vec<String> = Vec::new();
        args.push("-c".to_owned());
        args.push(self.shell_command.clone());
        let r = CommandSpec::new("bash").args(args);
        assert(r@.args =~= seq!["-c"@, self.shell_command@]);
        r
    }
}

// =====================================================================
// ComingSoonAction (placeholder for the six real actions)
// =====================================================================

/// Placeholder for an action that is not wired into the registry yet.
/// Renders a "Coming soon" main pane; its command does nothing.
#[derive(Debug, Clone, Copy)]
pub struct ComingSoonAction {
    pub id: ActionId,
    pub category: &'static str,
    pub label: &'static str,
    pub hint: &'static str,
    pub input_kind: InputKind,
}

impl Action for ComingSoonAction {
    open spec fn info_view(&self) -> InfoView {
        info_view(self.id@, self.category@, self.label@, self.hint@, self.input_kind)
    }

    fn info(&self) -> (r: ActionInfo) {
        ActionInfo {
            id: self.id,
            category: self.category,
            label: self.label,
            hint: self.hint,
            input_kind: self.input_kind,
        }
    }

    /// The real actions need sudo; the placeholder keeps that so nothing
    /// changes when it is swapped out.
    open spec fn needs_sudo(&self) -> bool {
        true
    }

    fn requires_sudo(&self) -> (r: bool) {
        true
    }

    open spec fn uses_bin_dir(&self) -> bool {
        false
    }

    fn needs_bin_dir(&self) -> (r: bool) {
        false
    }

    proof fn lemma_bin_dir_unused(&self, b1: Seq<char>, b2: Seq<char>, inputs: ResolvedInputs) {
    }

    open spec fn accepts(&self, bin_dir: Seq<char>, inputs: ResolvedInputs) -> bool {
        true
    }

    /// `true`: a command that does nothing.
    open spec fn command(&self, bin_dir: Seq<char>, inputs: ResolvedInputs) -> CommandView {
        bare_command("true"@)
    }

    fn can_build(&self, bin_dir: &str, inputs: &ResolvedInputs) -> (r: bool) {
        true
    }

    fn build_command(&self, bin_dir: &str, inputs: ResolvedInputs) -> (r: CommandSpec) {
        CommandSpec::new("true")
    }
}

// =====================================================================
// Registry
// =====================================================================

/// An action of the registry.
#[derive(Debug)]
pub enum RegisteredAction {
    Test(TestAction),
    ComingSoon(ComingSoonAction),
}

impl Action for RegisteredAction {
    open spec fn info_view(&self) -> InfoView {
        match self {
            RegisteredAction::Test(a) => a.info_view(),
            RegisteredAction::ComingSoon(a) => a.info_view(),
        }
    }

    fn info(&self) -> (r: ActionInfo) {
        match self {
            RegisteredAction::Test(a) => a.info(),
            RegisteredAction::ComingSoon(a) => a.info(),
        }
    }

    open spec fn needs_sudo(&self) -> bool {
        match self {
            RegisteredAction::Test(a) => a.needs_sudo(),
            RegisteredAction::ComingSoon(a) => a.needs_sudo(),
        }
    }

    fn requires_sudo(&self) -> (r: bool) {
        match self {
            RegisteredAction::Test(a) => a.requires_sudo(),
            RegisteredAction::ComingSoon(a) => a.requires_sudo(),
        }
    }

    open spec fn uses_bin_dir(&self) -> bool {
        match self {
            RegisteredAction::Test(a) => a.uses_bin_dir(),
            RegisteredAction::ComingSoon(a) => a.uses_bin_dir(),
        }
    }

    fn needs_bin_dir(&self) -> (r: bool) {
        match self {
            RegisteredAction::Test(a) => a.needs_bin_dir(),
            RegisteredAction::ComingSoon(a) => a.needs_bin_dir(),
        }
    }

    proof fn lemma_bin_dir_unused(&self, b1: Seq<char>, b2: Seq<char>, inputs: ResolvedInputs) {
        match self {
            RegisteredAction::Test(a) => a.lemma_bin_dir_unused(b1, b2, inputs),
            RegisteredAction::ComingSoon(a) => a.lemma_bin_dir_unused(b1, b2, inputs),
        }
    }

    open spec fn accepts(&self, bin_dir: Seq<char>, inputs: ResolvedInputs) -> bool {
        match self {
            RegisteredAction::Test(a) => a.accepts(bin_dir, inputs),
            RegisteredAction::ComingSoon(a) => a.accepts(bin_dir, inputs),
        }
    }

    open spec fn command(&self, bin_dir: Seq<char>, inputs: ResolvedInputs) -> CommandView {
        match self {
            RegisteredAction::Test(a) => a.command(bin_dir, inputs),
            RegisteredAction::ComingSoon(a) => a.command(bin_dir, inputs),
        }
    }

    fn can_build(&self, bin_dir: &str, inputs: &ResolvedInputs) -> (r: bool) {
        match self {
            RegisteredAction::Test(a) => a.can_build(bin_dir, inputs),
            RegisteredAction::ComingSoon(a) => a.can_build(bin_dir, inputs),
        }
    }

    fn build_command(&self, bin_dir: &str, inputs: ResolvedInputs) -> (r: CommandSpec) {
        match self {
            RegisteredAction::Test(a) => a.build_command(bin_dir, inputs),
            RegisteredAction::ComingSoon(a) => a.build_command(bin_dir, inputs),
        }
    }
}

/// The shell command of the registered test action.
pub open spec fn registry_test_command() -> Seq<char> {
    "echo 'hello from mtui'; echo 'this is stderr' >&2; sleep 0.2; echo 'done'"@
}

/// Metadata of all registered actions, in display order.
pub open spec fn registry_infos() -> Seq<InfoView> {
    seq![
        test_action_info(),
        info_view(
            "install_pkgs"@,
            "Installers"@,
            "Install .pkg files"@,
            "Install every .pkg in a chosen directory"@,
            InputKind::Dir,
        ),
        info_view(
            "run_patchers"@,
            "Installers"@,
            "Run patchers (.command)"@,
            "Run every .command in a chosen directory"@,
            InputKind::Dir,
        ),
        info_view(
            "move_kd_plugs"@,
            "Plugins"@,
            "Move k'd plugins"@,
            "Copy *.vst / *.vst3 / *.component into /Library/Audio/Plug-Ins"@,
            InputKind::Dir,
        ),
        info_view(
            "remove_protection"@,
            "Plugins"@,
            "Remove protection"@,
            "Strip xattrs/quarantine and re-codesign a file or folder"@,
            InputKind::File,
        ),
        info_view(
            "reset_ableton"@,
            "Maintenance"@,
            "Reset Ableton"@,
            "Back up & clear prefs + templates for an installed Ableton version"@,
            InputKind::Choice,
        ),
        info_view(
            "patch_ozone"@,
            "System patches"@,
            "Patch iZotope Ozone 12"@,
            "Binary-patch iZotope Ozone 12 core libraries (system-level)"@,
            InputKind::NoInput,
        ),
    ]
}

/// All registered actions, in display order. New actions are appended.
pub fn all() -> (r: Vec<RegisteredAction>)
    ensures
        r@.len() == registry_infos().len(),
        forall|i: int| 0 <= i < r@.len() ==> (#[trigger] r@[i]).info_view() == registry_infos()[i],
        r@[0] matches RegisteredAction::Test(t) && t.shell_command@ == registry_test_command(),
        forall|i: int| 1 <= i < r@.len() ==> (#[trigger] r@[i]) is ComingSoon,
{
    let mut v: Vec<RegisteredAction> = Vec::new();
    v.push(
        RegisteredAction::Test(
            TestAction::new(
                "echo 'hello from mtui'; echo 'this is stderr' >&2; sleep 0.2; echo 'done'",
            ),
        ),
    );
    v.push(
        RegisteredAction::ComingSoon(
            ComingSoonAction {
                id: "install_pkgs",
                category: "Installers",
                label: "Install .pkg files",
                hint: "Install every .pkg in a chosen directory",
                input_kind: InputKind::Dir,
            },
        ),
    );
    v.push(
        RegisteredAction::ComingSoon(
            ComingSoonAction {
                id: "run_patchers",
                category: "Installers",
                label: "Run patchers (.command)",
                hint: "Run every .command in a chosen directory",
                input_kind: InputKind::Dir,
            },
        ),
    );
    v.push(
        RegisteredAction::ComingSoon(
            ComingSoonAction {
                id: "move_kd_plugs",
                category: "Plugins",
                label: "Move k'd plugins",
                hint: "Copy *.vst / *.vst3 / *.component into /Library/Audio/Plug-Ins",
                input_kind: InputKind::Dir,
            },
        ),
    );
    v.push(
        RegisteredAction::ComingSoon(
            ComingSoonAction {
                id: "remove_protection",
                category: "Plugins",
                label: "Remove protection",
                hint: "Strip xattrs/quarantine and re-codesign a file or folder",
                input_kind: InputKind::File,
            },
        ),
    );
    v.push(
        RegisteredAction::ComingSoon(
            ComingSoonAction {
                id: "reset_ableton",
                category: "Maintenance",
                label: "Reset Ableton",
                hint: "Back up & clear prefs + templates for an installed Ableton version",
                input_kind: InputKind::Choice,
            },
        ),
    );
    v.push(
        RegisteredAction::ComingSoon(
            ComingSoonAction {
                id: "patch_ozone",
                category: "System patches",
                label: "Patch iZotope Ozone 12",
                hint: "Binary-patch iZotope Ozone 12 core libraries (system-level)",
                input_kind: InputKind::NoInput,
            },
        ),
    );
    assert(v@.len() == 7);
    v
}

/// Static metadata for all registered actions, in display order.
/// The sidebar reads from this; the App uses [`all`] to start jobs.
pub fn metadata() -> (r: Vec<ActionInfo>)
    ensures
        r@.len() == registry_infos().len(),
        forall|i: int| 0 <= i < r@.len() ==> (#[trigger] r@[i])@ == registry_infos()[i],
{
    let actions = all();
    let mut out: Vec<ActionInfo> = Vec::new();
    let mut i: usize = 0;
    while i < actions.len()
        invariant
            i <= actions@.len(),
            actions@.len() == registry_infos().len(),
            forall|k: int| 0 <= k < actions@.len() ==> (#[trigger] actions@[k]).info_view() == registry_infos()[k],
            out@.len() == i,
            forall|k: int| 0 <= k < i ==> (#[trigger] out@[k])@ == registry_infos()[k],
        decreases actions.len() - i,
    {
        out.push(actions[i].info());
        i += 1;
    }
    out
}

/// Number of registered actions.
pub fn count() -> (n: usize)
    ensures
        n == registry_infos().len(),
{
    metadata().len()
}

/// Finds a registered action by id: its position in [`all`], the first
/// one whose id is `id`.
pub fn find_action(id: &str) -> (r: Option<usize>)
    ensures
        r matches Some(i) ==> i < registry_infos().len() && registry_infos()[i as int].id == id@
            && forall|j: int| 0 <= j < i ==> registry_infos()[j].id != id@,
        r is None ==> forall|j: int| 0 <= j < registry_infos().len() ==> registry_infos()[j].id != id@,
{
    let metas = metadata();
    let mut i: usize = 0;
    while i < metas.len()
        invariant
            i <= metas@.len(),
            metas@.len() == registry_infos().len(),
            forall|k: int| 0 <= k < metas@.len() ==> (#[trigger] metas@[k])@ == registry_infos()[k],
            forall|j: int| 0 <= j < i ==> registry_infos()[j].id != id@,
        decreases metas.len() - i,
    {
        if text_eq(metas[i].id, id) {
            return Some(i);
        }
        i += 1;
    }
    None
}

/// The registry lists seven actions, no two with the same id, so an id
/// names at most one of them.
pub proof fn lemma_registry_ids_distinct()
    ensures
        registry_infos().len() == 7,
        forall|i: int, j: int|
            0 <= i < j < registry_infos().len() ==> registry_infos()[i].id != registry_infos()[j].id,
{
    reveal_strlit("test");
    reveal_strlit("install_pkgs");
    reveal_strlit("run_patchers");
    reveal_strlit("move_kd_plugs");
    reveal_strlit("remove_protection");
    reveal_strlit("reset_ableton");
    reveal_strlit("patch_ozone");
    let r = registry_infos();
    assert forall|i: int, j: int| 0 <= i < j < r.len() implies r[i].id != r[j].id by {
        if r[i].id.len() == r[j].id.len() {
            assert(r[i].id[0] != r[j].id[0]);
        }
    }
}

} // verus!
