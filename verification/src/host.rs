//! The dsh Host child process: its configuration, the events it reports on
//! stdout, and the supervisor state machine that tracks it.
//!
//! The event names match the `DesktopHostEvent` reports of the Electron shell,
//! so the Host needs no change for the new shell. Spawning, killing and reading
//! the child are done by the application, which hands every decision to
//! `HostSupervisor`.
use vstd::prelude::*;
use crate::text::{
    contains_text, is_white_space, lemma_blank_has_no_words, lemma_whitespace_split_clean, texts, text_contains,
    whitespace_split, split_whitespace_words, words_are_clean,
};

verus! {

/// Program that runs the Host when `DSH_HOST_NODE` is not set.
pub const DEFAULT_NODE: &'static str = "node";

/// Reason shown while `DSH_HOST_ENTRY` is not set.
pub const NOT_CONFIGURED_REASON: &'static str = "环境变量 DSH_HOST_ENTRY 未设置";

/// Error returned by a spawn request while the Host is not configured.
pub const NOT_CONFIGURED_ERROR: &'static str = "dsh Host 未配置";

/// Error returned when the child's stdout could not be taken over.
pub const STDOUT_UNAVAILABLE_ERROR: &'static str = "未能接管 Host 的 stdout";

/// Start of the error text for a child process that could not be started.
pub const SPAWN_ERROR_HEAD: &'static str = "无法启动 ";

/// Separator between the program and the operating system's error text.
pub const SPAWN_ERROR_SEPARATOR: &'static str = "：";

/// Copies a vector of strings, text for text.
pub fn copy_strings(v: &Vec<String>) -> (r: Vec<String>)
    ensures
        texts(r@) == texts(v@),
{
    let mut r: Vec<String> = Vec::new();
    let mut i: usize = 0;
    while i < v.len()
        invariant
            i <= v.len(),
            r@.len() == i,
            forall|j: int| 0 <= j < i ==> #[trigger] r@[j]@ == v@[j]@,
        decreases v.len() - i,
    {
        r.push(v[i].clone());
        i = i + 1;
    }
    assert(texts(r@) =~= texts(v@));
    r
}

/// What the Host is started with: the program, entry script and arguments
/// from environment variables, and the desktop profile directory.
#[derive(Debug, Clone)]
pub struct HostConfig {
    /// Node executable that runs the Host.
    pub node: String,
    /// Absolute path of the dsh CLI entry script; without it no Host is started.
    pub entry: Option<String>,
    /// Arguments appended after the entry script.
    pub args: Vec<String>,
    /// The desktop profile directory, which is also the Host's working
    /// directory.
    pub working_dir: String,
}

/// Mathematical model of a `HostConfig`.
#[verifier::ext_equal]
pub struct HostConfigView {
    pub node: Seq<char>,
    pub entry: Option<Seq<char>>,
    pub args: Seq<Seq<char>>,
    pub working_dir: Seq<char>,
}

impl View for HostConfig {
    type V = HostConfigView;

    open spec fn view(&self) -> HostConfigView {
        HostConfigView {
            node: self.node@,
            entry: match self.entry {
                Some(e) => Some(e@),
                None => None,
            },
            args: texts(self.args@),
            working_dir: self.working_dir@,
        }
    }
}

/// The configuration read from the values of `DSH_HOST_NODE`,
/// `DSH_HOST_ENTRY` and `DSH_HOST_ARGS` (`None` for a variable that is unset
/// or not Unicode): the node program defaults to `node`; an empty entry counts
/// as unset; the arguments are the whitespace-separated words of the variable.
/// The Host runs in the desktop profile directory.
pub open spec fn config_from_values(
    node: Option<Seq<char>>,
    entry: Option<Seq<char>>,
    args: Option<Seq<char>>,
    working_dir: Seq<char>,
) -> HostConfigView {
    HostConfigView {
        node: match node {
            Some(n) => n,
            None => DEFAULT_NODE@,
        },
        entry: match entry {
            Some(e) => if e.len() > 0 { Some(e) } else { None },
            None => None,
        },
        args: match args {
            Some(a) => whitespace_split(a),
            None => Seq::empty(),
        },
        working_dir,
    }
}

impl HostConfig {
    /// Builds the configuration from the values of the three environment
    /// variables and the profile directory, as `config_from_values` says.
    pub fn from_values(
        node: Option<String>,
        entry: Option<String>,
        args: Option<String>,
        working_dir: String,
    ) -> (config: HostConfig)
        ensures
            config@ == config_from_values(
                match node { Some(n) => Some(n@), None => None },
                match entry { Some(e) => Some(e@), None => None },
                match args { Some(a) => Some(a@), None => None },
                working_dir@,
            ),
    {
        let node = match node {
            Some(n) => n,
            None => String::from_str(DEFAULT_NODE),
        };
        let entry = match entry {
            Some(e) => if e.as_str().is_empty() { None } else { Some(e) },
            None => None,
        };
        let args = match args {
            Some(a) => split_whitespace_words(a.as_str()),
            None => Vec::new(),
        };
        let config = HostConfig { node, entry, args, working_dir };
        config
    }
}

/// An event that the Host reports on stdout.
#[derive(Debug, Clone, PartialEq, Eq)]
pub enum HostEvent {
    /// The Host has finished starting: the address the renderer can reach, and
    /// the boot injections it hands the renderer, each as JSON text.
    Ready { url: String, injections: Vec<String> },
    /// The Host cannot go on; its process is about to exit.
    Fatal { message: String },
    /// The Host has finished its clean-up after a shutdown request.
    ShutdownComplete,
    /// The Host process has exited: its exit code, when it has one, and the
    /// tail of what it wrote to stderr.
    Exit { code: Option<i32>, stderr: String },
}

/// Mathematical model of a `HostEvent`.
#[verifier::ext_equal]
pub enum HostEventView {
    Ready { url: Seq<char>, injections: Seq<Seq<char>> },
    Fatal { message: Seq<char> },
    ShutdownComplete,
    Exit { code: Option<i32>, stderr: Seq<char> },
}

impl View for HostEvent {
    type V = HostEventView;

    open spec fn view(&self) -> HostEventView {
        match self {
            HostEvent::Ready { url, injections } => HostEventView::Ready {
                url: url@,
                injections: texts(injections@),
            },
            HostEvent::Fatal { message } => HostEventView::Fatal { message: message@ },
            HostEvent::ShutdownComplete => HostEventView::ShutdownComplete,
            HostEvent::Exit { code, stderr } => HostEventView::Exit { code: *code, stderr: stderr@ },
        }
    }
}

/// The Host state that the shell shows the loading page.
#[derive(Debug, Clone, PartialEq, Eq)]
pub enum HostState {
    /// No dsh runtime is configured; the Host will not be started.
    NotConfigured { reason: String },
    /// The child process exists and has not reported readiness yet.
    Starting,
    /// The Host is ready.
    Ready { url: String, injections: Vec<String> },
    /// The Host failed: the fatal message it reported, or the unexpected-exit
    /// message; its exit code once it has exited; whether the failure is a
    /// port already in use; and the diagnostic tail of its stderr.
    Failed { message: String, exit_code: Option<i32>, port_in_use: bool, diagnostics: String },
    /// The child process has exited.
    Stopped,
}

/// Mathematical model of a `HostState`.
#[verifier::ext_equal]
pub enum HostStateView {
    NotConfigured { reason: Seq<char> },
    Starting,
    Ready { url: Seq<char>, injections: Seq<Seq<char>> },
    Failed { message: Seq<char>, exit_code: Option<i32>, port_in_use: bool, diagnostics: Seq<char> },
    Stopped,
}

impl View for HostState {
    type V = HostStateView;

    open spec fn view(&self) -> HostStateView {
        match self {
            HostState::NotConfigured { reason } => HostStateView::NotConfigured { reason: reason@ },
            HostState::Starting => HostStateView::Starting,
            HostState::Ready { url, injections } => HostStateView::Ready {
                url: url@,
                injections: texts(injections@),
            },
            HostState::Failed { message, exit_code, port_in_use, diagnostics } => HostStateView::Failed {
                message: message@,
                exit_code: *exit_code,
                port_in_use: *port_in_use,
                diagnostics: diagnostics@,
            },
            HostState::Stopped => HostStateView::Stopped,
        }
    }
}

/// Message of a Host that exited without reporting a fatal error or finishing
/// a shutdown.
pub const UNEXPECTED_EXIT_MESSAGE: &'static str = "Host 意外退出";

/// The error code Node reports for a listening port already in use.
pub const PORT_IN_USE_MARKER: &'static str = "EADDRINUSE";

/// Whether a diagnostic text reports a port already in use.
pub open spec fn reports_port_in_use(text: Seq<char>) -> bool {
    contains_text(text, PORT_IN_USE_MARKER@)
}

/// The state that an event leaves the Host in, from `state`.
///
/// An exit keeps a reported fatal message and replaces its diagnostics with
/// the fuller stderr of the exit; an exit after a finished shutdown leaves the
/// Host stopped; any other exit of a running Host is an unexpected exit.
/// A failure is classified as a port in use when its message or its stderr
/// carries Node's `EADDRINUSE`.
pub open spec fn state_after_event(state: HostStateView, event: HostEventView) -> HostStateView {
    match event {
        HostEventView::Ready { url, injections } => HostStateView::Ready { url, injections },
        HostEventView::Fatal { message } => HostStateView::Failed {
            message,
            exit_code: None,
            port_in_use: reports_port_in_use(message),
            diagnostics: Seq::empty(),
        },
        HostEventView::ShutdownComplete => HostStateView::Stopped,
        HostEventView::Exit { code, stderr } => match state {
            HostStateView::Failed { message, port_in_use, .. } => HostStateView::Failed {
                message,
                exit_code: code,
                port_in_use: port_in_use || reports_port_in_use(stderr),
                diagnostics: stderr,
            },
            HostStateView::Stopped => HostStateView::Stopped,
            HostStateView::NotConfigured { .. } => state,
            _ => HostStateView::Failed {
                message: UNEXPECTED_EXIT_MESSAGE@,
                exit_code: code,
                port_in_use: reports_port_in_use(stderr),
                diagnostics: stderr,
            },
        },
    }
}

/// The state shown while no entry script is configured.
pub open spec fn not_configured_state() -> HostStateView {
    HostStateView::NotConfigured { reason: NOT_CONFIGURED_REASON@ }
}

impl HostState {
    /// A copy of this state.
    pub fn duplicate(&self) -> (r: HostState)
        ensures
            r@ == self@,
    {
        match self {
            HostState::NotConfigured { reason } => HostState::NotConfigured { reason: reason.clone() },
            HostState::Starting => HostState::Starting,
            HostState::Ready { url, injections } => HostState::Ready {
                url: url.clone(),
                injections: copy_strings(injections),
            },
            HostState::Failed { message, exit_code, port_in_use, diagnostics } => HostState::Failed {
                message: message.clone(),
                exit_code: *exit_code,
                port_in_use: *port_in_use,
                diagnostics: diagnostics.clone(),
            },
            HostState::Stopped => HostState::Stopped,
        }
    }

    /// The state that `event` leaves the Host in, from this state.
    pub fn after_event(&self, event: &HostEvent) -> (r: HostState)
        ensures
            r@ == state_after_event(self@, event@),
    {
        match event {
            HostEvent::Ready { url, injections } => HostState::Ready {
                url: url.clone(),
                injections: copy_strings(injections),
            },
            HostEvent::Fatal { message } => HostState::Failed {
                message: message.clone(),
                exit_code: None,
                port_in_use: text_contains(message.as_str(), PORT_IN_USE_MARKER),
                diagnostics: String::new(),
            },
            HostEvent::ShutdownComplete => HostState::Stopped,
            HostEvent::Exit { code, stderr } => match self {
                HostState::Failed { message, port_in_use, .. } => HostState::Failed {
                    message: message.clone(),
                    exit_code: *code,
                    port_in_use: *port_in_use || text_contains(stderr.as_str(), PORT_IN_USE_MARKER),
                    diagnostics: stderr.clone(),
                },
                HostState::Stopped => HostState::Stopped,
                HostState::NotConfigured { .. } => self.duplicate(),
                _ => HostState::Failed {
                    message: String::from_str(UNEXPECTED_EXIT_MESSAGE),
                    exit_code: *code,
                    port_in_use: text_contains(stderr.as_str(), PORT_IN_USE_MARKER),
                    diagnostics: stderr.clone(),
                },
            },
        }
    }

    /// The address to navigate the main window to: that of a ready Host.
    pub fn ready_url(&self) -> (r: Option<String>)
        ensures
            r matches Some(u) ==> self@ matches HostStateView::Ready { url, .. } && u@ == url,
            r is None ==> !(self@ is Ready),
    {
        match self {
            HostState::Ready { url, .. } => Some(url.clone()),
            _ => None,
        }
    }
}

/// How the Host is started: the program, its arguments, and the working
/// directory it runs in.
#[derive(Debug, Clone)]
pub struct HostLaunch {
    pub program: String,
    pub args: Vec<String>,
    pub current_dir: String,
}

/// The supervisor's record: its configuration, the state last reported, and
/// whether it holds a running child process.
#[verifier::ext_equal]
pub struct SupervisorView {
    pub config: HostConfigView,
    pub state: HostStateView,
    pub running: bool,
}

impl SupervisorView {
    /// What every supervisor keeps: a child runs only with an entry script,
    /// the state says "not configured" only when there is none, and it says
    /// "starting" only while a child runs.
    pub open spec fn wf(self) -> bool {
        &&& self.running ==> self.config.entry is Some
        &&& self.state is NotConfigured ==> self.config.entry is None
        &&& self.state is Starting ==> self.running
    }

    /// The record after `stop`: a running child is gone and the state is
    /// `Stopped`; without a child nothing changes.
    pub open spec fn stopped(self) -> SupervisorView {
        if self.running {
            SupervisorView { running: false, state: HostStateView::Stopped, ..self }
        } else {
            self
        }
    }

    /// The record after a recorded event.
    pub open spec fn applied(self, event: HostEventView) -> SupervisorView {
        SupervisorView { state: state_after_event(self.state, event), ..self }
    }

    /// The record after a spawn request has stopped any previous child and
    /// checked the configuration.
    pub open spec fn spawn_requested(self) -> SupervisorView {
        if self.config.entry is Some {
            self.stopped()
        } else {
            SupervisorView { running: false, state: not_configured_state(), ..self }
        }
    }

    /// The record once the child has been started.
    pub open spec fn started(self) -> SupervisorView {
        if self.config.entry is Some {
            SupervisorView { running: true, state: HostStateView::Starting, ..self }
        } else {
            self
        }
    }

    /// The arguments the Host is started with: the entry script, then the
    /// configured arguments.
    pub open spec fn launch_args(self) -> Seq<Seq<char>> {
        seq![self.config.entry->0] + self.config.args
    }
}

/// The initial record for a configuration: stopped when an entry script is
/// configured, "not configured" otherwise.
pub open spec fn initial_supervisor(config: HostConfigView) -> SupervisorView {
    SupervisorView {
        config,
        state: if config.entry is Some { HostStateView::Stopped } else { not_configured_state() },
        running: false,
    }
}

/// The outcome of a spawn request: whether the caller must first kill and reap
/// the child it holds, and the command line to start, or the error to return.
pub struct SpawnPlan {
    pub stop_previous: bool,
    pub launch: Result<HostLaunch, String>,
}

/// Holds the Host's configuration and the state it last reported, and tracks
/// whether the application holds a running child process.
pub struct HostSupervisor {
    config: HostConfig,
    state: HostState,
    running: bool,
}

impl View for HostSupervisor {
    type V = SupervisorView;

    /// The supervisor's record.
    closed spec fn view(&self) -> SupervisorView {
        SupervisorView { config: self.config@, state: self.state@, running: self.running }
    }
}

impl HostSupervisor {
    /// Every supervisor is well formed (see `SupervisorView::wf`).
    #[verifier::type_invariant]
    closed spec fn well_formed(&self) -> bool {
        self@.wf()
    }

    /// A supervisor that has not started the Host yet.
    pub fn new(config: HostConfig) -> (s: HostSupervisor)
        ensures
            s@ == initial_supervisor(config@),
            s@.wf(),
    {
        let state = match &config.entry {
            Some(_) => HostState::Stopped,
            None => HostState::NotConfigured { reason: String::from_str(NOT_CONFIGURED_REASON) },
        };
        HostSupervisor { config, state, running: false }
    }

    /// The current state; every supervisor is well formed.
    pub fn state(&self) -> (r: HostState)
        ensures
            r@ == self@.state,
            self@.wf(),
    {
        proof { use_type_invariant(self); }
        self.state.duplicate()
    }

    /// The configuration.
    pub fn config(&self) -> (r: &HostConfig)
        ensures
            r@ == self@.config,
    {
        &self.config
    }

    /// Whether a child process is held.
    pub fn is_running(&self) -> (r: bool)
        ensures
            r == self@.running,
    {
        self.running
    }

    /// Records a reported event.
    pub fn apply(&mut self, event: &HostEvent)
        ensures
            final(self)@ == old(self)@.applied(event@),
            final(self)@.wf(),
    {
        proof { use_type_invariant(&*self); }
        self.state = self.state.after_event(event);
        proof { use_type_invariant(&*self); }
    }

    /// Forgets the child process; returns whether there was one, which the
    /// caller must then kill and reap. Without a child this does nothing.
    pub fn stop(&mut self) -> (had_child: bool)
        ensures
            had_child == old(self)@.running,
            final(self)@ == old(self)@.stopped(),
            final(self)@.wf(),
    {
        proof { use_type_invariant(&*self); }
        if !self.running {
            return false;
        }
        self.state = HostState::Stopped;
        self.running = false;
        proof { use_type_invariant(&*self); }
        true
    }

    /// Starts a spawn: stops the previous child, then returns the command line
    /// to start or, without an entry script, records "not configured" and
    /// returns the error.
    pub fn begin_spawn(&mut self) -> (plan: SpawnPlan)
        ensures
            plan.stop_previous == old(self)@.running,
            final(self)@ == old(self)@.spawn_requested(),
            final(self)@.wf(),
            old(self)@.config.entry is None ==> (plan.launch matches Err(e)
                && e@ == NOT_CONFIGURED_ERROR@),
            old(self)@.config.entry is Some ==> (plan.launch matches Ok(l)
                && l.program@ == old(self)@.config.node
                && texts(l.args@) == old(self)@.launch_args()
                && l.current_dir@ == old(self)@.config.working_dir),
    {
        proof { use_type_invariant(&*self); }
        let stop_previous = self.stop();
        match &self.config.entry {
            None => {
                self.state = HostState::NotConfigured { reason: String::from_str(NOT_CONFIGURED_REASON) };
                proof { use_type_invariant(&*self); }
                SpawnPlan { stop_previous, launch: Err(String::from_str(NOT_CONFIGURED_ERROR)) }
            },
            Some(entry) => {
                let mut args: Vec<String> = Vec::new();
                args.push(entry.clone());
                let mut i: usize = 0;
                while i < self.config.args.len()
                    invariant
                        i <= self.config.args.len(),
                        args@.len() == i + 1,
                        args@[0]@ == entry@,
                        forall|k: int| 1 <= k <= i ==> #[trigger] args@[k]@ == self.config.args@[k - 1]@,
                    decreases self.config.args.len() - i,
                {
                    args.push(self.config.args[i].clone());
                    i = i + 1;
                }
                assert(texts(args@) =~= seq![entry@] + texts(self.config.args@));
                let launch = HostLaunch {
                    program: self.config.node.clone(),
                    args,
                    current_dir: self.config.working_dir.clone(),
                };
                proof { use_type_invariant(&*self); }
                SpawnPlan { stop_previous, launch: Ok(launch) }
            },
        }
    }

    /// Records that the child process was started: the supervisor now holds
    /// it and the Host is starting. Without an entry script nothing changes.
    pub fn mark_started(&mut self)
        ensures
            final(self)@ == old(self)@.started(),
            final(self)@.wf(),
    {
        proof { use_type_invariant(&*self); }
        if self.config.entry.is_some() {
            self.running = true;
            self.state = HostState::Starting;
        }
        proof { use_type_invariant(&*self); }
    }

    /// The error text for a child process that could not be started: the
    /// program's name and the operating system's error.
    pub fn spawn_error(&self, error: &str) -> (r: String)
        ensures
            r@ == SPAWN_ERROR_HEAD@ + self@.config.node + SPAWN_ERROR_SEPARATOR@ + error@,
    {
        let mut r = String::from_str(SPAWN_ERROR_HEAD);
        r.append(self.config.node.as_str());
        r.append(SPAWN_ERROR_SEPARATOR);
        r.append(error);
        r
    }
}

/// The Host's arguments are the words of `DSH_HOST_ARGS`: none of them is
/// empty or holds white space, and a blank value gives no arguments.
pub proof fn lemma_args_are_words(node: Option<Seq<char>>, entry: Option<Seq<char>>, args: Seq<char>, dir: Seq<char>)
    ensures
        words_are_clean(config_from_values(node, entry, Some(args), dir).args),
        (forall|j: int| 0 <= j < args.len() ==> is_white_space(#[trigger] args[j]))
            ==> config_from_values(node, entry, Some(args), dir).args.len() == 0,
{
    lemma_whitespace_split_clean(args);
    if forall|j: int| 0 <= j < args.len() ==> is_white_space(#[trigger] args[j]) {
        lemma_blank_has_no_words(args);
    }
}

/// A spawn request never leaves the Host "starting": until the child is
/// started (`mark_started`) no child runs, so a launch that fails leaves the
/// state stopped, "not configured", or as it was.
pub proof fn lemma_spawn_request_is_not_starting(v: SupervisorView)
    requires
        v.wf(),
    ensures
        !v.spawn_requested().running,
        !(v.spawn_requested().state is Starting),
        v.running ==> v.spawn_requested().state == HostStateView::Stopped || v.config.entry is None,
        !v.running && v.config.entry is Some ==> v.spawn_requested().state == v.state,
{
}

/// Stopping twice is stopping once: the second stop finds no child and
/// changes nothing.
pub proof fn lemma_stop_idempotent(v: SupervisorView)
    ensures
        v.stopped().stopped() == v.stopped(),
        !v.stopped().running,
{
}

/// Every operation of the supervisor keeps its well-formedness.
pub proof fn lemma_operations_keep_wf(v: SupervisorView, event: HostEventView)
    requires
        v.wf(),
    ensures
        v.stopped().wf(),
        v.applied(event).wf(),
        v.spawn_requested().wf(),
        v.started().wf(),
        initial_supervisor(v.config).wf(),
{
}

/// Without an entry script the Host never runs: a spawn request leaves the
/// supervisor "not configured" with no child, and marking it started changes
/// nothing.
pub proof fn lemma_unconfigured_never_runs(v: SupervisorView)
    requires
        v.wf(),
        v.config.entry is None,
    ensures
        v.spawn_requested().state == not_configured_state(),
        !v.spawn_requested().running,
        v.spawn_requested().started() == v.spawn_requested(),
{
}

/// With an entry script, a spawn request followed by a successful start
/// leaves exactly one running child and the state `Starting`; a later event
/// moves the state on and keeps the child.
pub proof fn lemma_spawn_then_start(v: SupervisorView, event: HostEventView)
    requires
        v.wf(),
        v.config.entry is Some,
    ensures
        v.spawn_requested().started().running,
        v.spawn_requested().started().state == HostStateView::Starting,
        v.spawn_requested().started().config == v.config,
        v.spawn_requested().started().applied(event).state == state_after_event(HostStateView::Starting, event),
        v.spawn_requested().started().applied(event).running,
{
}

/// Apart from an exit, a recorded event decides the state alone: recording
/// it after any history gives the same state, and recording it twice is
/// recording it once.
pub proof fn lemma_event_decides_state(v: SupervisorView, w: SupervisorView, event: HostEventView)
    requires
        !(event is Exit),
    ensures
        v.applied(event).state == w.applied(event).state,
        v.applied(event).applied(event) == v.applied(event),
{
}

/// An exit after a fatal report keeps the fatal message, records the exit
/// code, and takes the fuller stderr of the exit as the diagnostics; the
/// failure counts as a port in use when either text says so.
pub proof fn lemma_exit_keeps_fatal_message(
    v: SupervisorView,
    message: Seq<char>,
    code: Option<i32>,
    stderr: Seq<char>,
)
    ensures
        v.applied(HostEventView::Fatal { message }).applied(HostEventView::Exit { code, stderr }).state
            == (HostStateView::Failed {
                message,
                exit_code: code,
                port_in_use: reports_port_in_use(message) || reports_port_in_use(stderr),
                diagnostics: stderr,
            }),
{
}

/// An exit after a finished shutdown leaves the Host stopped.
pub proof fn lemma_exit_after_shutdown(v: SupervisorView, code: Option<i32>, stderr: Seq<char>)
    ensures
        v.applied(HostEventView::ShutdownComplete).applied(HostEventView::Exit { code, stderr }).state
            == HostStateView::Stopped,
{
}

/// A Host that exits while starting or ready, without a fatal report or a
/// shutdown, has failed with an unexpected exit; the supervisor still holds
/// the child until it is stopped, which reaps it.
pub proof fn lemma_unexpected_exit(v: SupervisorView, code: Option<i32>, stderr: Seq<char>)
    requires
        v.state is Starting || v.state is Ready,
    ensures
        v.applied(HostEventView::Exit { code, stderr }).state == (HostStateView::Failed {
            message: UNEXPECTED_EXIT_MESSAGE@,
            exit_code: code,
            port_in_use: reports_port_in_use(stderr),
            diagnostics: stderr,
        }),
        v.applied(HostEventView::Exit { code, stderr }).running == v.running,
{
}

/// A ready report makes the Host ready at the reported address with every
/// reported injection, in order, whatever the state before it.
pub proof fn lemma_ready_keeps_every_injection(state: HostStateView, url: Seq<char>, injections: Seq<Seq<char>>)
    ensures
        state_after_event(state, HostEventView::Ready { url, injections }) is Ready,
        state_after_event(state, HostEventView::Ready { url, injections })->Ready_url == url,
        state_after_event(state, HostEventView::Ready { url, injections })->Ready_injections.len() == injections.len(),
        forall|i: int| 0 <= i < injections.len() ==>
            #[trigger] state_after_event(state, HostEventView::Ready { url, injections })->Ready_injections[i] == injections[i],
{
}

/// A fatal report makes the Host failed with the reported message, no exit
/// code yet and no diagnostics, whatever the state before it; a finished
/// shutdown makes it stopped.
pub proof fn lemma_fatal_and_shutdown_reports(state: HostStateView, message: Seq<char>)
    ensures
        state_after_event(state, HostEventView::Fatal { message }) is Failed,
        state_after_event(state, HostEventView::Fatal { message })->Failed_message == message,
        state_after_event(state, HostEventView::Fatal { message })->Failed_exit_code is None,
        state_after_event(state, HostEventView::Fatal { message })->Failed_diagnostics.len() == 0,
        state_after_event(state, HostEventView::ShutdownComplete) is Stopped,
{
}

/// With an entry script configured, the Host is started as the program with
/// the entry script as its first argument and the configured arguments after
/// it, in order, even when there are none.
pub proof fn lemma_launch_runs_the_entry_script(v: SupervisorView)
    requires
        v.config.entry is Some,
    ensures
        v.launch_args().len() == 1 + v.config.args.len(),
        v.launch_args()[0] == v.config.entry->0,
        forall|k: int| 0 <= k < v.config.args.len() ==> #[trigger] v.launch_args()[k + 1] == v.config.args[k],
{
}

} // verus!
