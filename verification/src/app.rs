//! Top-level application state and what each key does to it.
//!
//! The application around this library runs the event loop: it draws the
//! UI, reads keys, performs the effects that [`App::handle_key`] asks for
//! (starting or cancelling a job's process), reads browser listings, and
//! reports process output and exits back to the [`App`].

use vstd::prelude::*;

use crate::actions::{self, ActionInfo, InfoView, InputKind, ResolvedInputs};
use crate::clock::local_now;
use crate::config::Cli;
use crate::input::InputAction;
use crate::jobs::{JobManager, JobStatus};
use crate::log::{LogLine, LogStream};
use crate::text::{concat2, concat3, home_dir, path_le, text_eq};
use crate::ui::browser::{browser_wf, Browser, BrowserView};

verus! {

/// The number of lines kept in the on-screen log.
pub const MAX_LOG_LINES: usize = 2000;

/// Which pane has keyboard focus.
#[derive(Debug, Clone, Copy, PartialEq, Eq, Structural)]
pub enum Focus {
    Sidebar,
    Main,
    Log,
}

/// The pane after `f` when focus cycles forward.
pub open spec fn focus_next(f: Focus) -> Focus {
    match f {
        Focus::Sidebar => Focus::Main,
        Focus::Main => Focus::Log,
        Focus::Log => Focus::Sidebar,
    }
}

/// The pane before `f` when focus cycles backward.
pub open spec fn focus_prev(f: Focus) -> Focus {
    match f {
        Focus::Sidebar => Focus::Log,
        Focus::Main => Focus::Sidebar,
        Focus::Log => Focus::Main,
    }
}

/// What the application must do after a key.
#[derive(Debug)]
pub enum AppEffect {
    /// Nothing beyond the new state.
    Nothing,
    /// Start the registered action at position `action` of
    /// [`actions::all`] with these inputs.
    Start { action: usize, inputs: ResolvedInputs },
    /// Cancel the running job's process.
    Cancel,
}

/// The line logged when a job finishes with `status`.
pub open spec fn finished_line(status: JobStatus, action_id: Seq<char>) -> LineView {
    match status {
        JobStatus::Done => (LogStream::Success, "✓ Done: "@ + action_id),
        JobStatus::Failed => (
            LogStream::Failure,
            "✗ Failed: "@ + action_id + " (see log pane for details)"@,
        ),
        JobStatus::Cancelled => (LogStream::Info, "↻ Cancelled: "@ + action_id),
        JobStatus::Running => (LogStream::Info, "… Still running: "@ + action_id),
    }
}

/// The first position of an action with id `id` among `metas`.
pub open spec fn meta_position(metas: Seq<InfoView>, id: Seq<char>) -> Option<int> {
    if exists|i: int| 0 <= i < metas.len() && metas[i].id == id {
        Some(choose|i: int| 0 <= i < metas.len() && metas[i].id == id && forall|k: int| 0 <= k < i ==> metas[k].id != id)
    } else {
        None
    }
}

/// Top-level app state.
pub struct App {
    pub cli: Cli,
    pub focus: Focus,
    pub sidebar_index: usize,
    pub show_help: bool,
    pub log_lines: Vec<LogLine>,
    pub should_quit: bool,
    pub job_manager: JobManager,
    /// Cached metadata for the sidebar.
    pub action_metas: Vec<ActionInfo>,
    /// Last status of each action's most recent job.
    pub last_status: Vec<Option<JobStatus>>,
    /// Per-action browser state, by position in the sidebar. Created when
    /// an action is first focused in the main pane.
    pub browsers: Vec<Option<Browser>>,
}

/// A log line as (stream, message).
pub type LineView = (LogStream, Seq<char>);

/// The on-screen log as (stream, message) pairs.
pub open spec fn lines_view(lines: Seq<LogLine>) -> Seq<LineView> {
    lines.map_values(|l: LogLine| (l.stream, l.message@))
}

/// The metadata of the sidebar's actions.
pub open spec fn metas_view(metas: Seq<ActionInfo>) -> Seq<InfoView> {
    metas.map_values(|m: ActionInfo| m@)
}

/// The browsers' states.
pub open spec fn browsers_view(b: Seq<Option<Browser>>) -> Seq<Option<BrowserView>> {
    b.map_values(|o: Option<Browser>| match o {
        Some(x) => Some(x@),
        None => None,
    })
}

/// The well-formedness of an [`App`]: one status and one browser slot per
/// action, and the selection on an action when there is one.
pub open spec fn app_wf(a: &App) -> bool {
    &&& a.last_status@.len() == a.action_metas@.len()
    &&& a.browsers@.len() == a.action_metas@.len()
    &&& (a.action_metas@.len() > 0 ==> a.sidebar_index < a.action_metas@.len())
    &&& forall|i: int|
        0 <= i < a.browsers@.len() && #[trigger] a.browsers@[i] is Some ==> browser_wf(
            a.browsers@[i]->0@,
        )
}

/// The log `new` keeps every line of `old`, stamps included, and may have
/// more after them.
pub open spec fn log_grows(old: Seq<LogLine>, new: Seq<LogLine>) -> bool {
    &&& new.len() >= old.len()
    &&& forall|i: int| 0 <= i < old.len() ==> #[trigger] new[i] == old[i]
}

/// The welcome lines of a new App.
pub open spec fn welcome_lines() -> Seq<LineView> {
    seq![
        (LogStream::Info, "mtui ready. Press ? for help, Tab to cycle focus, q to quit."@),
        (LogStream::Info, "M3: real actions wired. Pick one in the sidebar and use the browser."@),
    ]
}

/// The fields of an [`App`] that its key handling keeps when only the
/// log and the navigation change.
pub open spec fn same_jobs_and_browsers(a: &App, b: &App) -> bool {
    &&& a.job_manager == b.job_manager
    &&& a.action_metas@ == b.action_metas@
    &&& a.last_status@ == b.last_status@
    &&& a.browsers@ == b.browsers@
    &&& a.cli == b.cli
}

/// The contents of [`ResolvedInputs`], as text.
pub struct InputsView {
    pub dir: Option<Seq<char>>,
    pub file: Option<Seq<char>>,
    pub choice: Option<Seq<char>>,
}

pub open spec fn inputs_view(i: ResolvedInputs) -> InputsView {
    InputsView { dir: i.dir.deep_view(), file: i.file.deep_view(), choice: i.choice.deep_view() }
}

/// An [`AppEffect`], with its inputs as text.
pub enum EffectView {
    Nothing,
    Start { action: nat, inputs: InputsView },
    Cancel,
}

pub open spec fn effect_view(e: AppEffect) -> EffectView {
    match e {
        AppEffect::Nothing => EffectView::Nothing,
        AppEffect::Start { action, inputs } => EffectView::Start {
            action: action as nat,
            inputs: inputs_view(inputs),
        },
        AppEffect::Cancel => EffectView::Cancel,
    }
}

/// The contents of an [`App`] that keys act on.
pub struct AppView {
    pub focus: Focus,
    pub sidebar_index: nat,
    pub show_help: bool,
    pub should_quit: bool,
    pub lines: Seq<LineView>,
    pub running: bool,
    pub metas: Seq<InfoView>,
    pub browsers: Seq<Option<BrowserView>>,
}

impl View for App {
    type V = AppView;

    open spec fn view(&self) -> AppView {
        AppView {
            focus: self.focus,
            sidebar_index: self.sidebar_index as nat,
            show_help: self.show_help,
            should_quit: self.should_quit,
            lines: lines_view(self.log_lines@),
            running: self.job_manager.current is Some,
            metas: metas_view(self.action_metas@),
            browsers: browsers_view(self.browsers@),
        }
    }
}

/// The browser a new action pane starts with: at `path`, to be read.
pub open spec fn fresh_browser(path: Seq<char>, kind: InputKind) -> BrowserView {
    BrowserView {
        path,
        entries: seq![],
        cursor: 0,
        show_hidden: false,
        sort: crate::ui::browser::SortBy::Name,
        path_input: seq![],
        path_input_active: false,
        error: None,
        checked: seq![],
        input_kind: kind,
        needs_refresh: true,
    }
}

/// Where a new browser starts: the home directory, else `/`.
pub open spec fn default_browser_path(home: Option<Seq<char>>) -> Seq<char> {
    match home {
        Some(h) => h,
        None => "/"@,
    }
}

/// `a` with a browser for the selected action, created if missing.
pub open spec fn with_browser(a: AppView, home: Option<Seq<char>>) -> AppView {
    let i = a.sidebar_index as int;
    if a.browsers[i] is None {
        AppView {
            browsers: a.browsers.update(
                i,
                Some(fresh_browser(default_browser_path(home), a.metas[i].input_kind)),
            ),
            ..a
        }
    } else {
        a
    }
}

/// `a` with one more log line.
pub open spec fn log_push(a: AppView, stream: LogStream, msg: Seq<char>) -> AppView {
    AppView { lines: a.lines.push((stream, msg)), ..a }
}

/// Whether keys go to the selected action's browser first: the main
/// pane has focus and the action takes an input.
pub open spec fn routes_to_browser(a: AppView) -> bool {
    a.focus == Focus::Main && a.sidebar_index < a.metas.len()
        && a.metas[a.sidebar_index as int].input_kind != InputKind::NoInput
}

/// The first registered action with id `id`.
pub open spec fn registered_position(id: Seq<char>) -> Option<nat> {
    if exists|j: int| 0 <= j < actions::registry_infos().len() && actions::registry_infos()[j].id == id {
        Some(
            (choose|j: int|
                0 <= j < actions::registry_infos().len() && actions::registry_infos()[j].id == id
                    && forall|k: int| 0 <= k < j ==> actions::registry_infos()[k].id != id) as nat,
        )
    } else {
        None
    }
}

/// After the inputs are resolved: start the registered action with the
/// selected action's id, or report that there is none.
pub open spec fn start_model(a: AppView, inputs: InputsView) -> (AppView, EffectView) {
    let meta = a.metas[a.sidebar_index as int];
    match registered_position(meta.id) {
        Some(j) => (a, EffectView::Start { action: j, inputs }),
        None => (
            log_push(
                a,
                LogStream::Failure,
                "No action instance registered for id \""@ + meta.id + "\"."@,
            ),
            EffectView::Nothing,
        ),
    }
}

pub open spec fn no_inputs() -> InputsView {
    InputsView { dir: None, file: None, choice: None }
}

/// Enter: resolve the selected action's inputs and start it.
pub open spec fn run_model(a: AppView, home: Option<Seq<char>>) -> (AppView, EffectView) {
    if a.running {
        (
            log_push(a, LogStream::Failure, "A job is already running. Press Esc to cancel."@),
            EffectView::Nothing,
        )
    } else if a.sidebar_index >= a.metas.len() {
        (a, EffectView::Nothing)
    } else {
        let meta = a.metas[a.sidebar_index as int];
        match meta.input_kind {
            InputKind::NoInput => start_model(a, no_inputs()),
            InputKind::Dir => {
                let a1 = with_browser(a, home);
                let b = a1.browsers[a.sidebar_index as int]->0;
                match crate::ui::browser::selected_dir_of(b) {
                    Some(d) => start_model(a1, InputsView { dir: Some(d), ..no_inputs() }),
                    None => (
                        log_push(
                            a1,
                            LogStream::Failure,
                            "Select a directory for \""@ + meta.label + "\" first."@,
                        ),
                        EffectView::Nothing,
                    ),
                }
            },
            InputKind::File => {
                let a1 = with_browser(a, home);
                let b = a1.browsers[a.sidebar_index as int]->0;
                match crate::ui::browser::resolved_file_of(b) {
                    Some(f) => start_model(a1, InputsView { file: Some(f), ..no_inputs() }),
                    None => (
                        log_push(
                            a1,
                            LogStream::Failure,
                            "Select a file for \""@ + meta.label + "\" first."@,
                        ),
                        EffectView::Nothing,
                    ),
                }
            },
            InputKind::Choice => {
                let a1 = with_browser(a, home);
                let b = a1.browsers[a.sidebar_index as int]->0;
                if b.path.len() == 0 {
                    (
                        log_push(
                            a1,
                            LogStream::Failure,
                            "Make a choice for \""@ + meta.label + "\" first."@,
                        ),
                        EffectView::Nothing,
                    )
                } else {
                    start_model(a1, InputsView { choice: Some(b.path), ..no_inputs() })
                }
            },
        }
    }
}

/// Whether a key acts on the selected action's browser: it goes to the
/// browser (main pane focused), or it is Enter and starts the action
/// with the browser's selection. Such a key creates the browser first.
pub open spec fn key_wants_browser(a: AppView, action: InputAction) -> bool {
    &&& !a.show_help
    &&& a.sidebar_index < a.metas.len()
    &&& a.metas[a.sidebar_index as int].input_kind != InputKind::NoInput
    &&& (a.focus == Focus::Main || (action == InputAction::Enter && !a.running))
}

/// `a` with the browser that `action` will act on created, so that its
/// directory can be read before the key is handled.
pub open spec fn prepare_model(a: AppView, action: InputAction, home: Option<Seq<char>>) -> AppView {
    if key_wants_browser(a, action) {
        with_browser(a, home)
    } else {
        a
    }
}

/// A key at App level (not taken by a browser).
pub open spec fn app_key_model(a: AppView, action: InputAction, home: Option<Seq<char>>) -> (
    AppView,
    EffectView,
) {
    let n = a.metas.len();
    let on_sidebar = a.focus == Focus::Sidebar;
    match action {
        InputAction::Quit => (AppView { should_quit: true, ..a }, EffectView::Nothing),
        InputAction::Help => (AppView { show_help: true, ..a }, EffectView::Nothing),
        InputAction::TabFocusNext => (AppView { focus: focus_next(a.focus), ..a }, EffectView::Nothing),
        InputAction::TabFocusPrev => (AppView { focus: focus_prev(a.focus), ..a }, EffectView::Nothing),
        InputAction::SidebarDown => (
            if on_sidebar && a.sidebar_index + 1 < n {
                AppView { sidebar_index: a.sidebar_index + 1, ..a }
            } else {
                a
            },
            EffectView::Nothing,
        ),
        InputAction::SidebarUp => (
            if on_sidebar && a.sidebar_index > 0 {
                AppView { sidebar_index: (a.sidebar_index - 1) as nat, ..a }
            } else {
                a
            },
            EffectView::Nothing,
        ),
        InputAction::SidebarTop => (
            if on_sidebar {
                AppView { sidebar_index: 0, ..a }
            } else {
                a
            },
            EffectView::Nothing,
        ),
        InputAction::SidebarBottom => (
            if on_sidebar && n > 0 {
                AppView { sidebar_index: (n - 1) as nat, ..a }
            } else {
                a
            },
            EffectView::Nothing,
        ),
        InputAction::JumpTo(k) => (
            if 1 <= k <= n {
                AppView { sidebar_index: (k - 1) as nat, focus: Focus::Main, ..a }
            } else {
                a
            },
            EffectView::Nothing,
        ),
        InputAction::Enter => run_model(a, home),
        InputAction::Esc => if a.running {
            (log_push(a, LogStream::Info, "Cancelling…"@), EffectView::Cancel)
        } else {
            (a, EffectView::Nothing)
        },
        InputAction::ClearLog => (
            AppView { lines: seq![(LogStream::Info, "Log cleared."@)], ..a },
            EffectView::Nothing,
        ),
        InputAction::YankLog => (
            log_push(a, LogStream::Info, "Yank to clipboard will be wired up in M3 (pbcopy)."@),
            EffectView::Nothing,
        ),
        _ => (a, EffectView::Nothing),
    }
}

/// One key: the help overlay is modal; then, with the main pane focused,
/// the selected action's browser gets the key first; what it leaves is
/// handled at App level. `home` is the user's home directory.
pub open spec fn key_model(a: AppView, action: InputAction, home: Option<Seq<char>>) -> (
    AppView,
    EffectView,
) {
    if a.show_help {
        (
            AppView {
                show_help: !(action == InputAction::Quit || action == InputAction::Help || action
                    == InputAction::Esc),
                ..a
            },
            EffectView::Nothing,
        )
    } else if routes_to_browser(a) {
        let i = a.sidebar_index as int;
        let a1 = with_browser(a, home);
        let (b, consumed) = crate::ui::browser::key_step(a1.browsers[i]->0, action, home);
        if consumed {
            (AppView { browsers: a1.browsers.update(i, Some(b)), ..a1 }, EffectView::Nothing)
        } else {
            app_key_model(a1, action, home)
        }
    } else {
        app_key_model(a, action, home)
    }
}

impl App {
    pub fn new(cli: Cli) -> (app: Self)
        ensures
            app.focus == Focus::Sidebar,
            app.sidebar_index == 0,
            !app.show_help,
            !app.should_quit,
            app.job_manager.current is None,
            app.job_manager.history@.len() == 0,
            metas_view(app.action_metas@) == actions::registry_infos(),
            forall|i: int| 0 <= i < app.last_status@.len() ==> app.last_status@[i] is None,
            forall|i: int| 0 <= i < app.browsers@.len() ==> app.browsers@[i] is None,
            lines_view(app.log_lines@) == welcome_lines(),
            app_wf(&app),
    {
        let action_metas = actions::metadata();
        let n = action_metas.len();
        let mut last_status: Vec<Option<JobStatus>> = Vec::new();
        let mut browsers: Vec<Option<Browser>> = Vec::new();
        let mut i: usize = 0;
        while i < n
            invariant
                i <= n,
                last_status@.len() == i,
                browsers@.len() == i,
                forall|k: int| 0 <= k < i ==> last_status@[k] is None,
                forall|k: int| 0 <= k < i ==> browsers@[k] is None,
            decreases n - i,
        {
            last_status.push(None);
            browsers.push(None);
            i += 1;
        }
        let mut app = App {
            cli,
            focus: Focus::Sidebar,
            sidebar_index: 0,
            show_help: false,
            log_lines: Vec::new(),
            should_quit: false,
            job_manager: JobManager::new(),
            action_metas,
            last_status,
            browsers,
        };
        assert(metas_view(app.action_metas@) =~= actions::registry_infos());
        app.push_log(
            LogStream::Info,
            "mtui ready. Press ? for help, Tab to cycle focus, q to quit.".to_owned(),
        );
        app.push_log(
            LogStream::Info,
            "M3: real actions wired. Pick one in the sidebar and use the browser.".to_owned(),
        );
        assert(lines_view(app.log_lines@) =~= welcome_lines());
        app
    }

    /// Appends a line, stamped now, to the on-screen log.
    pub fn push_log(&mut self, stream: LogStream, message: String)
        ensures
            log_grows(old(self).log_lines@, final(self).log_lines@),
            lines_view(final(self).log_lines@) == lines_view(old(self).log_lines@).push(
                (stream, message@),
            ),
            final(self).focus == old(self).focus,
            final(self).sidebar_index == old(self).sidebar_index,
            final(self).show_help == old(self).show_help,
            final(self).should_quit == old(self).should_quit,
            same_jobs_and_browsers(final(self), old(self)),
    {
        let ghost before = self.log_lines@;
        self.log_lines.push(LogLine { timestamp: local_now(), stream, message });
        assert(lines_view(self.log_lines@) =~= lines_view(before).push((stream, message@)));
    }

    /// Keeps the newest [`MAX_LOG_LINES`] lines of the on-screen log.
    pub fn trim_log(&mut self)
        ensures
            final(self).log_lines@ == (if old(self).log_lines@.len() > MAX_LOG_LINES {
                old(self).log_lines@.skip(old(self).log_lines@.len() - MAX_LOG_LINES)
            } else {
                old(self).log_lines@
            }),
            final(self).focus == old(self).focus,
            final(self).sidebar_index == old(self).sidebar_index,
            final(self).show_help == old(self).show_help,
            final(self).should_quit == old(self).should_quit,
            same_jobs_and_browsers(final(self), old(self)),
    {
        if self.log_lines.len() > MAX_LOG_LINES {
            let drop = self.log_lines.len() - MAX_LOG_LINES;
            let ghost before = self.log_lines@;
            let tail = self.log_lines.split_off(drop);
            self.log_lines = tail;
            assert(self.log_lines@ =~= before.skip(drop as int));
        }
    }

    /// Creates the browser of the selected action if it has none yet,
    /// starting at the home directory (else `/`).
    fn ensure_browser(&mut self, home: &Option<String>)
        requires
            app_wf(old(self)),
            old(self).sidebar_index < old(self).action_metas@.len(),
        ensures
            final(self)@ == with_browser(old(self)@, home.deep_view()),
            app_wf(final(self)),
            final(self).job_manager == old(self).job_manager,
            final(self).action_metas@ == old(self).action_metas@,
            final(self).last_status@ == old(self).last_status@,
            final(self).cli == old(self).cli,
            final(self).log_lines@ == old(self).log_lines@,
            final(self).browsers@[final(self).sidebar_index as int] is Some,
    {
        let i = self.sidebar_index;
        let ghost before = self.browsers@;
        if self.browsers[i].is_none() {
            let path = match home {
                Some(h) => h.clone(),
                None => "/".to_owned(),
            };
            let b = Browser::new(path.as_str(), self.action_metas[i].input_kind);
            let _ = self.browsers.remove(i);
            self.browsers.insert(i, Some(b));
            proof {
                reveal_strlit("/");
                assert(b@.entries =~= seq![]);
                assert(b@.checked =~= seq![]);
                assert(b@.path_input =~= seq![]);
                assert(path@ == default_browser_path(home.deep_view()));
                assert(b@ == fresh_browser(default_browser_path(home.deep_view()), self.action_metas@[i as int].input_kind));
                assert(self.browsers@ =~= before.update(i as int, Some(b)));
                let bv = browsers_view(self.browsers@);
                assert(bv =~= browsers_view(before).update(
                    i as int,
                    Some(fresh_browser(default_browser_path(home.deep_view()), self.action_metas@[i as int].input_kind)),
                ));
            }
        }
    }

    /// Appends a line to the log: `prefix`, the text `middle`, `suffix`.
    fn log3(&mut self, stream: LogStream, prefix: &str, middle: &str, suffix: &str)
        ensures
            log_grows(old(self).log_lines@, final(self).log_lines@),
            final(self)@ == log_push(old(self)@, stream, prefix@ + middle@ + suffix@),
            final(self).job_manager == old(self).job_manager,
            final(self).action_metas@ == old(self).action_metas@,
            final(self).last_status@ == old(self).last_status@,
            final(self).cli == old(self).cli,
            final(self).browsers@ == old(self).browsers@,
    {
        let msg = concat3(prefix, middle, suffix);
        self.push_log(stream, msg);
    }

    /// Start the selected action with `inputs`, or report that it has no
    /// registered instance.
    fn start_selected(&mut self, inputs: ResolvedInputs) -> (e: AppEffect)
        requires
            app_wf(old(self)),
            old(self).sidebar_index < old(self).action_metas@.len(),
        ensures
            log_grows(old(self).log_lines@, final(self).log_lines@),
            (final(self)@, effect_view(e)) == start_model(old(self)@, inputs_view(inputs)),
            app_wf(final(self)),
            final(self).job_manager == old(self).job_manager,
            final(self).action_metas@ == old(self).action_metas@,
            final(self).last_status@ == old(self).last_status@,
            final(self).cli == old(self).cli,
            final(self).browsers@ == old(self).browsers@,
    {
        let meta = self.action_metas[self.sidebar_index];
        assert(meta@ == self@.metas[self.sidebar_index as int]);
        match actions::find_action(meta.id) {
            Some(j) => {
                proof {
                    let id = meta.id@;
                    let reg = actions::registry_infos();
                    assert(0 <= j < reg.len() && reg[j as int].id == id && forall|k: int|
                        0 <= k < j ==> reg[k].id != id);
                    let c = choose|c: int|
                        0 <= c < reg.len() && reg[c].id == id && forall|k: int| 0 <= k < c ==> reg[k].id != id;
                    assert(c == j as int) by {
                        if c < j {
                            assert(reg[c].id != id);
                        } else if c > j {
                            assert(reg[j as int].id != id);
                        }
                    }
                }
                AppEffect::Start { action: j, inputs }
            },
            None => {
                self.log3(LogStream::Failure, "No action instance registered for id \"", meta.id, "\".");
                proof {
                    reveal_strlit("No action instance registered for id \"");
                    reveal_strlit("\".");
                }
                AppEffect::Nothing
            },
        }
    }

    /// Enter: resolve the selected action's inputs from its browser (if
    /// any) and ask for the action to be started.
    fn run_focused(&mut self, home: &Option<String>) -> (e: AppEffect)
        requires
            app_wf(old(self)),
        ensures
            log_grows(old(self).log_lines@, final(self).log_lines@),
            (final(self)@, effect_view(e)) == run_model(old(self)@, home.deep_view()),
            app_wf(final(self)),
            final(self).job_manager == old(self).job_manager,
            final(self).action_metas@ == old(self).action_metas@,
            final(self).last_status@ == old(self).last_status@,
            final(self).cli == old(self).cli,
    {
        if self.job_manager.is_running() {
            self.push_log(LogStream::Failure, "A job is already running. Press Esc to cancel.".to_owned());
            return AppEffect::Nothing;
        }
        if self.sidebar_index >= self.action_metas.len() {
            return AppEffect::Nothing;
        }
        let i = self.sidebar_index;
        let meta = self.action_metas[i];
        assert(meta@ == self@.metas[i as int]);
        match meta.input_kind {
            InputKind::NoInput => {
                let inputs = ResolvedInputs { dir: None, file: None, choice: None };
                self.start_selected(inputs)
            },
            InputKind::Dir => {
                self.ensure_browser(home);
                let dir = match &self.browsers[i] {
                    Some(b) => b.selected_dir(),
                    None => None,
                };
                match dir {
                    Some(d) => self.start_selected(ResolvedInputs { dir: Some(d), file: None, choice: None }),
                    None => {
                        self.log3(LogStream::Failure, "Select a directory for \"", meta.label, "\" first.");
                        AppEffect::Nothing
                    },
                }
            },
            InputKind::File => {
                self.ensure_browser(home);
                let file = match &self.browsers[i] {
                    Some(b) => b.resolved_file(),
                    None => None,
                };
                match file {
                    Some(f) => self.start_selected(ResolvedInputs { dir: None, file: Some(f), choice: None }),
                    None => {
                        self.log3(LogStream::Failure, "Select a file for \"", meta.label, "\" first.");
                        AppEffect::Nothing
                    },
                }
            },
            InputKind::Choice => {
                self.ensure_browser(home);
                let choice = match &self.browsers[i] {
                    Some(b) => b.path.clone(),
                    None => String::new(),
                };
                if choice.as_str().unicode_len() == 0 {
                    self.log3(LogStream::Failure, "Make a choice for \"", meta.label, "\" first.");
                    AppEffect::Nothing
                } else {
                    self.start_selected(ResolvedInputs { dir: None, file: None, choice: Some(choice) })
                }
            },
        }
    }

    /// A key at App level (not taken by a browser).
    fn app_key(&mut self, action: InputAction, home: &Option<String>) -> (e: AppEffect)
        requires
            app_wf(old(self)),
        ensures
            action != InputAction::ClearLog ==> log_grows(old(self).log_lines@, final(self).log_lines@),
            (final(self)@, effect_view(e)) == app_key_model(old(self)@, action, home.deep_view()),
            app_wf(final(self)),
            final(self).job_manager == old(self).job_manager,
            final(self).action_metas@ == old(self).action_metas@,
            final(self).last_status@ == old(self).last_status@,
            final(self).cli == old(self).cli,
    {
        match action {
            InputAction::Quit => {
                self.should_quit = true;
            },
            InputAction::Help => {
                self.show_help = true;
            },
            InputAction::TabFocusNext => {
                self.focus = match self.focus {
                    Focus::Sidebar => Focus::Main,
                    Focus::Main => Focus::Log,
                    Focus::Log => Focus::Sidebar,
                };
            },
            InputAction::TabFocusPrev => {
                self.focus = match self.focus {
                    Focus::Sidebar => Focus::Log,
                    Focus::Main => Focus::Sidebar,
                    Focus::Log => Focus::Main,
                };
            },
            InputAction::SidebarDown => {
                // With the main pane or the log focused, the key is not
                // the sidebar's.
                if self.focus == Focus::Sidebar {
                    let max = self.action_metas.len();
                    if self.sidebar_index < max && max - self.sidebar_index > 1 {
                        self.sidebar_index += 1;
                    }
                }
            },
            InputAction::SidebarUp => {
                if self.focus == Focus::Sidebar && self.sidebar_index > 0 {
                    self.sidebar_index -= 1;
                }
            },
            InputAction::SidebarTop => {
                if self.focus == Focus::Sidebar {
                    self.sidebar_index = 0;
                }
            },
            InputAction::SidebarBottom => {
                if self.focus == Focus::Sidebar && self.action_metas.len() > 0 {
                    self.sidebar_index = self.action_metas.len() - 1;
                }
            },
            InputAction::JumpTo(n) => {
                if n >= 1 && n <= self.action_metas.len() {
                    self.sidebar_index = n - 1;
                    self.focus = Focus::Main;
                }
            },
            InputAction::Enter => {
                return self.run_focused(home);
            },
            InputAction::Esc => {
                if self.job_manager.is_running() {
                    self.push_log(LogStream::Info, "Cancelling…".to_owned());
                    return AppEffect::Cancel;
                }
            },
            InputAction::ClearLog => {
                self.log_lines.clear();
                self.push_log(LogStream::Info, "Log cleared.".to_owned());
                assert(self@.lines =~= seq![(LogStream::Info, "Log cleared."@)]);
            },
            InputAction::YankLog => {
                self.push_log(
                    LogStream::Info,
                    "Yank to clipboard will be wired up in M3 (pbcopy).".to_owned(),
                );
            },
            _ => {},
        }
        AppEffect::Nothing
    }

    /// Creates the browser that `action` will act on, if it has none yet,
    /// given the user's home directory (where a new browser starts). The
    /// application reads the new browser's directory before it hands the
    /// key to [`App::handle_key`], so the key acts on the listing.
    pub fn prepare_key_with_home(&mut self, action: InputAction, home: Option<String>)
        requires
            app_wf(old(self)),
        ensures
            final(self)@ == prepare_model(old(self)@, action, home.deep_view()),
            app_wf(final(self)),
            final(self).job_manager == old(self).job_manager,
            final(self).action_metas@ == old(self).action_metas@,
            final(self).last_status@ == old(self).last_status@,
            final(self).cli == old(self).cli,
            final(self).log_lines@ == old(self).log_lines@,
    {
        if !self.show_help && self.sidebar_index < self.action_metas.len() {
            let kind = self.action_metas[self.sidebar_index].input_kind;
            let enter_to_run = match action {
                InputAction::Enter => !self.job_manager.is_running(),
                _ => false,
            };
            if kind != InputKind::NoInput && (self.focus == Focus::Main || enter_to_run) {
                self.ensure_browser(&home);
            }
        }
    }

    /// Creates the browser that `action` will act on, if it has none yet
    /// (at the home directory, else `/`).
    pub fn prepare_key(&mut self, action: InputAction)
        requires
            app_wf(old(self)),
        ensures
            exists|home: Option<Seq<char>>| final(self)@ == prepare_model(old(self)@, action, home),
            app_wf(final(self)),
            final(self).job_manager == old(self).job_manager,
            final(self).action_metas@ == old(self).action_metas@,
            final(self).last_status@ == old(self).last_status@,
            final(self).cli == old(self).cli,
            final(self).log_lines@ == old(self).log_lines@,
    {
        let home = home_dir();
        self.prepare_key_with_home(action, home)
    }

    /// Handle a key, given the user's home directory (where new browsers
    /// start and where `~` leads). Returns what the application must do.
    pub fn handle_key_with_home(&mut self, action: InputAction, home: Option<String>) -> (e: AppEffect)
        requires
            app_wf(old(self)),
        ensures
            action != InputAction::ClearLog ==> log_grows(old(self).log_lines@, final(self).log_lines@),
            old(self).show_help ==> final(self).log_lines@ == old(self).log_lines@,
            (final(self)@, effect_view(e)) == key_model(old(self)@, action, home.deep_view()),
            app_wf(final(self)),
            final(self).job_manager == old(self).job_manager,
            final(self).action_metas@ == old(self).action_metas@,
            final(self).last_status@ == old(self).last_status@,
            final(self).cli == old(self).cli,
    {
        // The help overlay is modal.
        if self.show_help {
            match action {
                InputAction::Quit | InputAction::Help | InputAction::Esc => {
                    self.show_help = false;
                },
                _ => {},
            }
            return AppEffect::Nothing;
        }
        // With the main pane focused, the browser gets navigation keys
        // first; it leaves App-level keys (Enter to run, etc.).
        if self.focus == Focus::Main && self.sidebar_index < self.action_metas.len() {
            let i = self.sidebar_index;
            if self.action_metas[i].input_kind != InputKind::NoInput {
                self.ensure_browser(&home);
                let ghost a1 = self@;
                let slot = self.browsers.remove(i);
                match slot {
                    Some(mut b) => {
                        let ghost b0 = b@;
                        let consumed = b.handle_key_with_home(action, crate::text::copy_opt_text(&home));
                        let ghost b1 = b@;
                        self.browsers.insert(i, Some(b));
                        proof {
                            assert(browsers_view(self.browsers@) =~= a1.browsers.update(i as int, Some(b1)));
                            assert(a1.browsers[i as int] == Some(b0));
                        }
                        if consumed {
                            return AppEffect::Nothing;
                        }
                        proof {
                            assert(b1 == b0);
                            assert(browsers_view(self.browsers@) =~= a1.browsers);
                        }
                    },
                    None => {
                        self.browsers.insert(i, None);
                    },
                }
            }
        }
        self.app_key(action, &home)
    }

    /// Handle a key. Returns what the application must do.
    pub fn handle_key(&mut self, action: InputAction) -> (e: AppEffect)
        requires
            app_wf(old(self)),
        ensures
            action != InputAction::ClearLog ==> log_grows(old(self).log_lines@, final(self).log_lines@),
            old(self).show_help ==> final(self).log_lines@ == old(self).log_lines@,
            exists|home: Option<Seq<char>>|
                (final(self)@, effect_view(e)) == key_model(old(self)@, action, home),
            app_wf(final(self)),
            final(self).job_manager == old(self).job_manager,
            final(self).action_metas@ == old(self).action_metas@,
            final(self).last_status@ == old(self).last_status@,
            final(self).cli == old(self).cli,
    {
        let home = home_dir();
        self.handle_key_with_home(action, home)
    }

    /// Shows the lines the running job produced since the last call.
    pub fn pump_job_logs(&mut self)
        ensures
            log_grows(old(self).log_lines@, final(self).log_lines@),
            final(self).job_manager == crate::jobs::drained(old(self).job_manager),
            lines_view(final(self).log_lines@) == lines_view(old(self).log_lines@) + lines_view(
                crate::jobs::undrained_lines(old(self).job_manager),
            ),
            final(self).focus == old(self).focus,
            final(self).sidebar_index == old(self).sidebar_index,
            final(self).show_help == old(self).show_help,
            final(self).should_quit == old(self).should_quit,
            final(self).action_metas@ == old(self).action_metas@,
            final(self).last_status@ == old(self).last_status@,
            final(self).browsers@ == old(self).browsers@,
            final(self).cli == old(self).cli,
            final(self).job_manager.current is Some == old(self).job_manager.current is Some,
            final(self).job_manager.history == old(self).job_manager.history,
            old(self).job_manager.current matches Some(before) ==> (final(self).job_manager.current matches Some(after)
                && after.log_buffer == before.log_buffer && lines_view(final(self).log_lines@)
                == lines_view(old(self).log_lines@) + lines_view(before.log_buffer@.subrange(
                if before.drained_to < before.log_buffer@.len() {
                    before.drained_to as int
                } else {
                    before.log_buffer@.len() as int
                },
                before.log_buffer@.len() as int,
            ))),
            old(self).job_manager.current is None ==> lines_view(final(self).log_lines@) == lines_view(old(self).log_lines@),
    {
        let new_lines = self.job_manager.take_new_logs();
        let ghost jm = self.job_manager;
        let ghost fresh = new_lines@;
        let ghost start = lines_view(self.log_lines@);
        let mut rest = new_lines;
        let mut i: usize = 0;
        let n = rest.len();
        while rest.len() > 0
            invariant
                n == fresh.len(),
                i + rest@.len() == n,
                rest@ == fresh.skip(i as int),
                lines_view(self.log_lines@) == start + lines_view(fresh.take(i as int)),
                self.focus == old(self).focus,
                self.sidebar_index == old(self).sidebar_index,
                self.show_help == old(self).show_help,
                self.should_quit == old(self).should_quit,
                self.action_metas@ == old(self).action_metas@,
                self.last_status@ == old(self).last_status@,
                self.browsers@ == old(self).browsers@,
                self.cli == old(self).cli,
                self.job_manager == jm,
                log_grows(old(self).log_lines@, self.log_lines@),
            decreases rest.len(),
        {
            let line = rest.remove(0);
            proof {
                assert(line == fresh[i as int]);
                assert(rest@ =~= fresh.skip(i + 1));
                assert(lines_view(fresh.take(i + 1)) =~= lines_view(fresh.take(i as int)).push(
                    (line.stream, line.message@),
                ));
            }
            self.push_log(line.stream, line.message);
            i += 1;
        }
        assert(fresh.take(n as int) =~= fresh);
    }

    /// The process of the registered action at position `action` was
    /// spawned: the job is recorded and the start is logged.
    pub fn on_job_started(&mut self, action: usize, inputs: ResolvedInputs)
        requires
            app_wf(old(self)),
            action < actions::registry_infos().len(),
        ensures
            log_grows(old(self).log_lines@, final(self).log_lines@),
            app_wf(final(self)),
            final(self).focus == old(self).focus,
            final(self).sidebar_index == old(self).sidebar_index,
            final(self).show_help == old(self).show_help,
            final(self).should_quit == old(self).should_quit,
            final(self).action_metas@ == old(self).action_metas@,
            final(self).last_status@ == old(self).last_status@,
            final(self).browsers@ == old(self).browsers@,
            old(self).job_manager.current is Some ==> final(self).job_manager == old(self).job_manager
                && lines_view(final(self).log_lines@) == lines_view(old(self).log_lines@).push(
                (
                    LogStream::Failure,
                    "Failed to start \""@ + actions::registry_infos()[action as int].label + "\": "@
                        + "a job is already running; cancel it first"@,
                ),
            ),
            old(self).job_manager.current is None ==> (final(self).job_manager.current matches Some(run)
                && run.job.id == old(self).job_manager.next_job_id
                && run.job.action_id@ == actions::registry_infos()[action as int].id
                && run.job.inputs == inputs && run.job.status == JobStatus::Running
                && run.log_buffer@.len() == 0 && run.drained_to == 0
                && final(self).job_manager.history == old(self).job_manager.history
                && lines_view(final(self).log_lines@) == lines_view(old(self).log_lines@).push(
                (LogStream::Info, "Started \""@ + actions::registry_infos()[action as int].label + "\"."@),
            )),
    {
        let metas = actions::metadata();
        let info = metas[action];
        match self.job_manager.start(info.id, inputs) {
            Ok(_) => {
                self.log3(LogStream::Info, "Started \"", info.label, "\".");
            },
            Err(e) => {
                let head = concat3("Failed to start \"", info.label, "\": ");
                let msg = concat2(head.as_str(), e.message());
                self.push_log(LogStream::Failure, msg);
            },
        }
    }

    /// Spawning the process of the registered action at position `action`
    /// failed with the error text `err`.
    pub fn on_job_start_failed(&mut self, action: usize, err: &str)
        requires
            app_wf(old(self)),
            action < actions::registry_infos().len(),
        ensures
            log_grows(old(self).log_lines@, final(self).log_lines@),
            app_wf(final(self)),
            final(self)@ == log_push(
                old(self)@,
                LogStream::Failure,
                "Failed to start \""@ + actions::registry_infos()[action as int].label + "\": "@ + err@,
            ),
            same_jobs_and_browsers(final(self), old(self)),
    {
        let metas = actions::metadata();
        let info = metas[action];
        let head = concat3("Failed to start \"", info.label, "\": ");
        let msg = concat2(head.as_str(), err);
        self.push_log(LogStream::Failure, msg);
    }

    /// Cancelling the running job's process failed with the error text
    /// `err`.
    pub fn on_cancel_failed(&mut self, err: &str)
        ensures
            log_grows(old(self).log_lines@, final(self).log_lines@),
            final(self)@ == log_push(old(self)@, LogStream::Failure, "Cancel failed: "@ + err@),
            same_jobs_and_browsers(final(self), old(self)),
    {
        let msg = concat2("Cancel failed: ", err);
        self.push_log(LogStream::Failure, msg);
    }

    /// A job finished with `status`: log it and show the status on the
    /// sidebar row of the job's action (the newest job in the history).
    #[verifier::rlimit(40)]
    pub fn on_job_finished(&mut self, status: JobStatus)
        requires
            app_wf(old(self)),
        ensures
            log_grows(old(self).log_lines@, final(self).log_lines@),
            app_wf(final(self)),
            final(self).job_manager == old(self).job_manager,
            final(self).action_metas@ == old(self).action_metas@,
            final(self).browsers@ == old(self).browsers@,
            final(self).focus == old(self).focus,
            final(self).sidebar_index == old(self).sidebar_index,
            final(self).show_help == old(self).show_help,
            final(self).should_quit == old(self).should_quit,
            ({
                let id = if old(self).job_manager.history@.len() > 0 {
                    old(self).job_manager.history@[0].action_id@
                } else {
                    Seq::<char>::empty()
                };
                &&& lines_view(final(self).log_lines@) == lines_view(old(self).log_lines@).push(
                    finished_line(status, id),
                )
                &&& final(self).last_status@ == match meta_position(metas_view(old(self).action_metas@), id) {
                    Some(p) => old(self).last_status@.update(p, Some(status)),
                    None => old(self).last_status@,
                }
            }),
    {
        let action_id = if self.job_manager.history.len() > 0 {
            self.job_manager.history[0].action_id.clone()
        } else {
            String::new()
        };
        let id = action_id.as_str();
        let msg = match status {
            JobStatus::Done => concat2("✓ Done: ", id),
            JobStatus::Failed => concat3("✗ Failed: ", id, " (see log pane for details)"),
            JobStatus::Cancelled => concat2("↻ Cancelled: ", id),
            JobStatus::Running => concat2("… Still running: ", id),
        };
        let stream = match status {
            JobStatus::Done => LogStream::Success,
            JobStatus::Failed => LogStream::Failure,
            JobStatus::Cancelled => LogStream::Info,
            JobStatus::Running => LogStream::Info,
        };
        self.push_log(stream, msg);
        let ghost idv = if old(self).job_manager.history@.len() > 0 {
            old(self).job_manager.history@[0].action_id@
        } else {
            Seq::<char>::empty()
        };
        assert(id@ == idv);
        assert((stream, msg@) == finished_line(status, idv));
        match self.find_meta(id) {
            Some(i) => {
                if i < self.last_status.len() {
                    self.last_status.set(i, Some(status));
                }
            },
            None => {},
        }
    }

    /// The first position of an action with id `id` in the sidebar.
    fn find_meta(&self, id: &str) -> (r: Option<usize>)
        ensures
            r matches Some(i) ==> meta_position(metas_view(self.action_metas@), id@) == Some(i as int)
                && i < self.action_metas@.len(),
            r is None ==> meta_position(metas_view(self.action_metas@), id@) is None,
    {
        let ghost ms = metas_view(self.action_metas@);
        let mut i: usize = 0;
        while i < self.action_metas.len()
            invariant
                i <= self.action_metas@.len(),
                ms == metas_view(self.action_metas@),
                forall|k: int| 0 <= k < i ==> ms[k].id != id@,
            decreases self.action_metas.len() - i,
        {
            if text_eq(self.action_metas[i].id, id) {
                proof {
                    assert(ms[i as int].id == id@);
                    let c = choose|c: int|
                        0 <= c < ms.len() && ms[c].id == id@ && forall|k: int| 0 <= k < c ==> ms[k].id != id@;
                    assert(c == i as int) by {
                        if c < i {
                            assert(ms[c].id != id@);
                        } else if c > i {
                            assert(ms[i as int].id != id@);
                        }
                    }
                }
                return Some(i);
            }
            i += 1;
        }
        None
    }

    /// The running job's process ended as `exit` describes (or is still
    /// running, with `None`): finish the job and report it. Returns the
    /// job's new status if it just finished.
    pub fn poll_job(&mut self, exit: Option<crate::jobs::ExitInfo>) -> (r: Option<JobStatus>)
        requires
            app_wf(old(self)),
        ensures
            log_grows(old(self).log_lines@, final(self).log_lines@),
            app_wf(final(self)),
            final(self).focus == old(self).focus,
            final(self).sidebar_index == old(self).sidebar_index,
            final(self).action_metas@ == old(self).action_metas@,
            final(self).browsers@ == old(self).browsers@,
            (old(self).job_manager.current is None || exit is None) ==> r is None
                && final(self).job_manager == old(self).job_manager
                && final(self).log_lines@ == old(self).log_lines@
                && final(self).last_status@ == old(self).last_status@,
            old(self).job_manager.current matches Some(before) ==> (exit matches Some(e) ==> (r == Some(
                crate::jobs::exit_status(e),
            ) && final(self).job_manager.current is None && final(self).job_manager.history@[0].action_id
                == before.job.action_id && lines_view(final(self).log_lines@) == lines_view(
                old(self).log_lines@,
            ).push(finished_line(crate::jobs::exit_status(e), before.job.action_id@)))),
    {
        let r = self.job_manager.poll(exit);
        match r {
            Some(status) => {
                self.on_job_finished(status);
            },
            None => {},
        }
        r
    }
}

/// Focus cycles through the three panes: forward then backward (or
/// backward then forward) comes back, and three steps forward too.
pub proof fn lemma_focus_cycle(f: Focus)
    ensures
        focus_prev(focus_next(f)) == f,
        focus_next(focus_prev(f)) == f,
        focus_next(focus_next(focus_next(f))) == f,
{
}

/// Tab followed by Shift-Tab leaves focus where it was, unless the
/// selected action's browser has its path field open (which takes the
/// keys as typing).
pub proof fn lemma_tab_then_backtab_keeps_focus(a: AppView, home: Option<Seq<char>>)
    requires
        a.browsers.len() == a.metas.len(),
        !(a.browsers[a.sidebar_index as int] matches Some(b) && b.path_input_active),
    ensures
        key_model(key_model(a, InputAction::TabFocusNext, home).0, InputAction::TabFocusPrev, home).0.focus
            == a.focus,
{
    let a1 = key_model(a, InputAction::TabFocusNext, home).0;
    lemma_key_focus(a, InputAction::TabFocusNext, home);
    lemma_key_focus(a1, InputAction::TabFocusPrev, home);
    if !a.show_help && a1.focus != a.focus {
        let i = a.sidebar_index as int;
        if routes_to_browser(a) {
            // The first key went through the browser, which left it.
            assert(a1.focus == Focus::Log);
        } else {
            assert(a1 == app_key_model(a, InputAction::TabFocusNext, home).0);
            assert(a1.browsers == a.browsers);
            if routes_to_browser(a1) {
                let w = with_browser(a1, home);
                assert(!w.browsers[i]->0.path_input_active);
            }
        }
    }
}

/// What a key does to focus: Tab and Shift-Tab cycle it unless the key
/// is absorbed (by the help overlay or an active path field), in which
/// case it stays.
proof fn lemma_key_focus(a: AppView, action: InputAction, home: Option<Seq<char>>)
    requires
        action == InputAction::TabFocusNext || action == InputAction::TabFocusPrev,
    ensures
        ({
            let f = key_model(a, action, home).0.focus;
            f == a.focus || (f == (if action == InputAction::TabFocusNext {
                focus_next(a.focus)
            } else {
                focus_prev(a.focus)
            }) && !a.show_help && !(routes_to_browser(a) && with_browser(a, home).browsers[a.sidebar_index as int]->0.path_input_active))
        }),
        key_model(a, action, home).0.focus == a.focus ==> (a.show_help || (routes_to_browser(a) && with_browser(a, home).browsers[a.sidebar_index as int]->0.path_input_active)),
        key_model(a, action, home).0.show_help == a.show_help,
        key_model(a, action, home).0.sidebar_index == a.sidebar_index,
        key_model(a, action, home).0.metas == a.metas,
{
    if !a.show_help && routes_to_browser(a) {
        let a1 = with_browser(a, home);
        let b = a1.browsers[a.sidebar_index as int]->0;
        let (b2, consumed) = crate::ui::browser::key_step(b, action, home);
        if !b.path_input_active {
            assert(!consumed);
        }
    }
}

/// One job at a time: while a job runs, no key starts another.
pub proof fn lemma_no_start_while_running(a: AppView, action: InputAction, home: Option<Seq<char>>)
    requires
        a.running,
    ensures
        !(key_model(a, action, home).1 is Start),
{
}

/// The help overlay is modal: while it is open a key does nothing but,
/// for `q`, `?` and Esc, close it.
pub proof fn lemma_help_is_modal(a: AppView, action: InputAction, home: Option<Seq<char>>)
    requires
        a.show_help,
    ensures
        key_model(a, action, home).1 == EffectView::Nothing,
        key_model(a, action, home).0 == (AppView {
            show_help: !(action == InputAction::Quit || action == InputAction::Help || action
                == InputAction::Esc),
            ..a
        }),
{
}

/// A key never changes whether a job runs or which actions are listed.
pub proof fn lemma_key_keeps_jobs_and_actions(a: AppView, action: InputAction, home: Option<Seq<char>>)
    ensures
        key_model(a, action, home).0.running == a.running,
        key_model(a, action, home).0.metas == a.metas,
{
    if !a.show_help {
        if routes_to_browser(a) {
            let a1 = with_browser(a, home);
            let (b, consumed) = crate::ui::browser::key_step(a1.browsers[a.sidebar_index as int]->0, action, home);
            if !consumed {
                lemma_app_key_keeps(a1, action, home);
            }
        } else {
            lemma_app_key_keeps(a, action, home);
        }
    }
}

proof fn lemma_app_key_keeps(a: AppView, action: InputAction, home: Option<Seq<char>>)
    ensures
        app_key_model(a, action, home).0.running == a.running,
        app_key_model(a, action, home).0.metas == a.metas,
{
    if action == InputAction::Enter {
        lemma_run_model_keeps(a, home);
    }
}

proof fn lemma_run_model_keeps(a: AppView, home: Option<Seq<char>>)
    ensures
        run_model(a, home).0.running == a.running,
        run_model(a, home).0.metas == a.metas,
{
}

/// Creating the browser ahead of a key changes nothing the key does: the
/// key makes the same state and effect, whether or not the browser was
/// created first.
pub proof fn lemma_prepare_then_key(a: AppView, action: InputAction, home: Option<Seq<char>>)
    requires
        a.browsers.len() == a.metas.len(),
    ensures
        key_model(prepare_model(a, action, home), action, home) == key_model(a, action, home),
{
    if key_wants_browser(a, action) {
        let i = a.sidebar_index as int;
        let a1 = with_browser(a, home);
        assert(a1.browsers[i] is Some);
        assert(with_browser(a1, home) == a1);
        assert(routes_to_browser(a1) == routes_to_browser(a));
        if !routes_to_browser(a) {
            assert(action == InputAction::Enter);
            assert(run_model(a1, home) == run_model(a, home));
        }
    }
}

/// Enter on a file action starts it on the file the user picked: the
/// first checked file in path order when files are checked (whatever the
/// cursor is on), else the file under the cursor; with no file at all it
/// starts nothing.
pub proof fn lemma_enter_runs_checked_file(a: AppView, home: Option<Seq<char>>)
    requires
        !a.show_help,
        !a.running,
        a.browsers.len() == a.metas.len(),
        a.sidebar_index < a.metas.len(),
        a.metas[a.sidebar_index as int].input_kind == InputKind::File,
        a.browsers[a.sidebar_index as int] matches Some(b) && !b.path_input_active,
        registered_position(a.metas[a.sidebar_index as int].id) is Some,
    ensures
        ({
            let b = a.browsers[a.sidebar_index as int]->0;
            let e = key_model(a, InputAction::Enter, home).1;
            &&& b.checked.len() > 0 ==> {
                &&& e is Start
                &&& e->action == registered_position(a.metas[a.sidebar_index as int].id)->0
                &&& e->inputs.dir is None && e->inputs.choice is None
                &&& e->inputs.file is Some
                &&& b.checked.contains(e->inputs.file->0)
                &&& forall|k: int|
                    0 <= k < b.checked.len() ==> path_le(e->inputs.file->0, #[trigger] b.checked[k])
            }
            &&& b.checked.len() == 0 && b.cursor < b.entries.len() ==> {
                &&& e is Start
                &&& e->action == registered_position(a.metas[a.sidebar_index as int].id)->0
                &&& e->inputs.dir is None && e->inputs.choice is None
                &&& e->inputs.file == Some(b.entries[b.cursor as int].path)
            }
            &&& b.checked.len() == 0 && b.cursor >= b.entries.len() ==> e == EffectView::Nothing
        }),
{
    let i = a.sidebar_index as int;
    let b = a.browsers[i]->0;
    assert(with_browser(a, home) == a);
    if b.checked.len() > 0 {
        crate::ui::browser::lemma_least_checked_is_least(b.checked);
    }
    if routes_to_browser(a) {
        let (b2, consumed) = crate::ui::browser::key_step(b, InputAction::Enter, home);
        assert(!consumed);
    }
}

} // verus!
