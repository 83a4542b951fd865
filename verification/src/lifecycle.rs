//! The lifecycle of the execution contexts of one process.
//!
//! A process installs its panic policy, then boots a compiler context and
//! runs it to completion, then boots a main context and runs it to
//! completion. Each context is constructed, executes its bootstrap script,
//! and runs its event loop until no work is left. The first failure ends
//! the process.
//!
//! The work itself is done outside: this module decides. The caller
//! performs the action that it is handed, reports what happened as an
//! event, and is handed the next action.

use vstd::prelude::*;
use crate::errors::{DenoError, ErrorView};
use crate::source_maps::SourceMapGetter;

verus! {

/// The two execution contexts of a process.
#[derive(Clone, Copy, Debug, PartialEq, Eq, Structural)]
pub enum Role {
    Compiler,
    Main,
}

/// How far one execution context has come.
#[derive(Clone, Copy, Debug, PartialEq, Eq, Structural)]
pub enum ContextState {
    Uninitialized,
    Constructed,
    Running,
    Completed,
    Failed,
}

/// How far the process has come.
#[derive(Clone, Copy, Debug, PartialEq, Eq, Structural)]
pub struct Progress {
    pub policy_installed: bool,
    pub compiler: ContextState,
    pub main: ContextState,
}

/// The lifecycle of a process: its progress, which is well formed at every
/// moment, and the rule by which it goes on.
#[derive(Clone, Copy, Debug)]
pub struct Lifecycle {
    progress: Progress,
}

/// What the caller reports after it has performed an action.
#[derive(Debug)]
pub enum Event {
    /// The panic policy of the process is in place.
    PolicyInstalled,
    /// The context that was asked for is constructed.
    ContextConstructed,
    /// The bootstrap script ran to its end.
    BootstrapSucceeded,
    /// The bootstrap script failed.
    BootstrapFailed(DenoError),
    /// The event loop has no work left.
    LoopDrained,
    /// The event loop failed.
    LoopFailed(DenoError),
}

/// What the caller is to do next.
#[derive(Debug)]
pub enum Action {
    /// Make every panic print its message and abort the process.
    InstallPanicPolicy,
    /// Construct the context of this role from the startup state.
    Construct(Role),
    /// Execute the bootstrap script of this role in its context.
    Execute(Role),
    /// Run the event loop of this context until no work is left.
    RunEventLoop(Role),
    /// Write the error to the diagnostic stream and exit with status 1.
    Abort(DenoError),
    /// Exit with status 0.
    Exit,
}

pub enum EventView {
    PolicyInstalled,
    ContextConstructed,
    BootstrapSucceeded,
    BootstrapFailed(ErrorView),
    LoopDrained,
    LoopFailed(ErrorView),
}

pub enum ActionView {
    InstallPanicPolicy,
    Construct(Role),
    Execute(Role),
    RunEventLoop(Role),
    Abort(ErrorView),
    Exit,
}

impl View for Event {
    type V = EventView;

    open spec fn view(&self) -> EventView {
        match self {
            Event::PolicyInstalled => EventView::PolicyInstalled,
            Event::ContextConstructed => EventView::ContextConstructed,
            Event::BootstrapSucceeded => EventView::BootstrapSucceeded,
            Event::BootstrapFailed(err) => EventView::BootstrapFailed(err@),
            Event::LoopDrained => EventView::LoopDrained,
            Event::LoopFailed(err) => EventView::LoopFailed(err@),
        }
    }
}

impl View for Action {
    type V = ActionView;

    open spec fn view(&self) -> ActionView {
        match self {
            Action::InstallPanicPolicy => ActionView::InstallPanicPolicy,
            Action::Construct(role) => ActionView::Construct(*role),
            Action::Execute(role) => ActionView::Execute(*role),
            Action::RunEventLoop(role) => ActionView::RunEventLoop(*role),
            Action::Abort(err) => ActionView::Abort(err@),
            Action::Exit => ActionView::Exit,
        }
    }
}

impl ActionView {
    /// The status that the process exits with, where the action ends it.
    pub open spec fn exit_status(self) -> Option<i32> {
        match self {
            ActionView::Abort(_) => Some(1),
            ActionView::Exit => Some(0),
            _ => None,
        }
    }
}

impl Role {
    /// The file name of the bootstrap script of the role.
    pub open spec fn script_name(self) -> Seq<char> {
        match self {
            Role::Compiler => "compiler_main.js"@,
            Role::Main => "deno_main.js"@,
        }
    }

    /// The source of the bootstrap script of the role.
    pub open spec fn script_source(self) -> Seq<char> {
        match self {
            Role::Compiler => "compilerMain();"@,
            Role::Main => "denoMain();"@,
        }
    }

    /// The bootstrap script of the role: its file name and its source.
    pub fn bootstrap_script(self) -> (script: (&'static str, &'static str))
        ensures
            script.0@ == self.script_name(),
            script.1@ == self.script_source(),
    {
        match self {
            Role::Compiler => ("compiler_main.js", "compilerMain();"),
            Role::Main => ("deno_main.js", "denoMain();"),
        }
    }
}

impl Progress {
    /// The state of the context of `role`.
    pub open spec fn context(self, role: Role) -> ContextState {
        match role {
            Role::Compiler => self.compiler,
            Role::Main => self.main,
        }
    }

    /// This progress, with the context of `role` in state `state`.
    pub open spec fn with_context(self, role: Role, state: ContextState) -> Progress {
        match role {
            Role::Compiler => Progress { compiler: state, ..self },
            Role::Main => Progress { main: state, ..self },
        }
    }

    /// The context that the process is working on: the compiler context
    /// until it has completed, the main context from then on.
    pub open spec fn active(self) -> Role {
        if self.compiler == ContextState::Completed {
            Role::Main
        } else {
            Role::Compiler
        }
    }

    /// No context exists before the panic policy is installed, and the
    /// main context does not exist before the compiler context has
    /// completed.
    pub open spec fn well_formed(self) -> bool {
        &&& self.compiler != ContextState::Uninitialized ==> self.policy_installed
        &&& self.main != ContextState::Uninitialized ==> self.compiler == ContextState::Completed
    }

    /// The process has ended: a context has failed, or both have completed.
    pub open spec fn terminal(self) -> bool {
        ||| self.compiler == ContextState::Failed
        ||| self.main == ContextState::Failed
        ||| (self.compiler == ContextState::Completed && self.main == ContextState::Completed)
    }

    /// The progress of a process that has done nothing yet.
    pub open spec fn initial() -> Progress {
        Progress {
            policy_installed: false,
            compiler: ContextState::Uninitialized,
            main: ContextState::Uninitialized,
        }
    }

    /// What follows when `event` is reported: the progress made and the
    /// next action, or `None` where the event cannot happen at this point.
    pub open spec fn next(self, event: EventView) -> Option<(Progress, ActionView)> {
        let role = self.active();
        if !self.policy_installed {
            if event is PolicyInstalled && self == Progress::initial() {
                Some(
                    (
                        Progress { policy_installed: true, ..self },
                        ActionView::Construct(Role::Compiler),
                    ),
                )
            } else {
                None
            }
        } else {
            match (self.context(role), event) {
                (ContextState::Uninitialized, EventView::ContextConstructed) => Some(
                    (self.with_context(role, ContextState::Constructed), ActionView::Execute(role)),
                ),
                (ContextState::Constructed, EventView::BootstrapSucceeded) => Some(
                    (self.with_context(role, ContextState::Running), ActionView::RunEventLoop(role)),
                ),
                (ContextState::Constructed, EventView::BootstrapFailed(err)) => Some(
                    (self.with_context(role, ContextState::Failed), ActionView::Abort(err)),
                ),
                (ContextState::Running, EventView::LoopDrained) => Some(
                    (
                        self.with_context(role, ContextState::Completed),
                        match role {
                            Role::Compiler => ActionView::Construct(Role::Main),
                            Role::Main => ActionView::Exit,
                        },
                    ),
                ),
                (ContextState::Running, EventView::LoopFailed(err)) => Some(
                    (self.with_context(role, ContextState::Failed), ActionView::Abort(err)),
                ),
                _ => None,
            }
        }
    }
}

impl View for Lifecycle {
    type V = Progress;

    closed spec fn view(&self) -> Progress {
        self.progress
    }
}

impl Lifecycle {
    #[verifier::type_invariant]
    spec fn in_order(self) -> bool {
        self.progress.well_formed()
    }

    /// The lifecycle of a process that has done nothing yet, and its first
    /// action: to install the panic policy.
    pub fn start() -> (first: (Lifecycle, Action))
        ensures
            first.0@ == Progress::initial(),
            first.1@ == ActionView::InstallPanicPolicy,
    {
        (
            Lifecycle {
                progress: Progress {
                    policy_installed: false,
                    compiler: ContextState::Uninitialized,
                    main: ContextState::Uninitialized,
                },
            },
            Action::InstallPanicPolicy,
        )
    }

    /// How far the process has come.
    pub fn progress(&self) -> (progress: Progress)
        ensures
            progress == self@,
            progress.well_formed(),
    {
        proof {
            use_type_invariant(self);
        }
        self.progress
    }

    /// The context that the process is working on.
    pub fn active_role(&self) -> (role: Role)
        ensures
            role == self@.active(),
    {
        match self.progress.compiler {
            ContextState::Completed => Role::Main,
            _ => Role::Compiler,
        }
    }

    /// Says whether the process has ended.
    pub fn is_terminal(&self) -> (ended: bool)
        ensures
            ended == self@.terminal(),
    {
        let compiler_failed = matches!(self.progress.compiler, ContextState::Failed);
        let main_failed = matches!(self.progress.main, ContextState::Failed);
        let compiler_done = matches!(self.progress.compiler, ContextState::Completed);
        let main_done = matches!(self.progress.main, ContextState::Completed);
        compiler_failed || main_failed || (compiler_done && main_done)
    }

    fn moved(&self, role: Role, state: ContextState) -> (next: Lifecycle)
        requires
            self@.with_context(role, state).well_formed(),
        ensures
            next@ == self@.with_context(role, state),
    {
        match role {
            Role::Compiler => Lifecycle {
                progress: Progress {
                    policy_installed: self.progress.policy_installed,
                    compiler: state,
                    main: self.progress.main,
                },
            },
            Role::Main => Lifecycle {
                progress: Progress {
                    policy_installed: self.progress.policy_installed,
                    compiler: self.progress.compiler,
                    main: state,
                },
            },
        }
    }

    /// Takes the report of what happened and decides what is done next.
    /// Returns the lifecycle as it goes on and the next action, or `None`
    /// where `event` cannot happen at this point.
    pub fn step(&self, event: Event) -> (outcome: Option<(Lifecycle, Action)>)
        ensures
            match outcome {
                Some((state, action)) => self@.next(event@) == Some((state@, action@)),
                None => self@.next(event@) is None,
            },
    {
        proof {
            use_type_invariant(self);
        }
        let role = self.active_role();
        if !self.progress.policy_installed {
            return match event {
                Event::PolicyInstalled => Some(
                    (
                        Lifecycle {
                            progress: Progress {
                                policy_installed: true,
                                compiler: self.progress.compiler,
                                main: self.progress.main,
                            },
                        },
                        Action::Construct(Role::Compiler),
                    ),
                ),
                _ => None,
            };
        }
        let context = match role {
            Role::Compiler => self.progress.compiler,
            Role::Main => self.progress.main,
        };
        match (context, event) {
            (ContextState::Uninitialized, Event::ContextConstructed) => Some(
                (self.moved(role, ContextState::Constructed), Action::Execute(role)),
            ),
            (ContextState::Constructed, Event::BootstrapSucceeded) => Some(
                (self.moved(role, ContextState::Running), Action::RunEventLoop(role)),
            ),
            (ContextState::Constructed, Event::BootstrapFailed(err)) => Some(
                (self.moved(role, ContextState::Failed), Action::Abort(err)),
            ),
            (ContextState::Running, Event::LoopDrained) => Some(
                (
                    self.moved(role, ContextState::Completed),
                    match role {
                        Role::Compiler => Action::Construct(Role::Main),
                        Role::Main => Action::Exit,
                    },
                ),
            ),
            (ContextState::Running, Event::LoopFailed(err)) => Some(
                (self.moved(role, ContextState::Failed), Action::Abort(err)),
            ),
            _ => None,
        }
    }
}

impl Action {
    /// The status that the process exits with, where the action ends it:
    /// 1 after a failure, 0 after both contexts have completed.
    pub fn exit_status(&self) -> (status: Option<i32>)
        ensures
            status == self@.exit_status(),
    {
        match self {
            Action::Abort(_) => Some(1),
            Action::Exit => Some(0),
            _ => None,
        }
    }
}

/// The text that a fatal error is reported with: the error, translated to
/// the original source where it is a script exception, and rendered.
pub fn fatal_report<G: SourceMapGetter>(err: DenoError, getter: &G) -> (text: String)
    ensures
        text@ == err@.translated(getter).text(),
{
    let mapped = err.apply_source_map(getter);
    mapped.to_string()
}

} // verus!
