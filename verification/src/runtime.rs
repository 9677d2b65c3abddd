use vstd::prelude::*;

use crate::builder::Application;
use crate::errors::{FatalError, RuntimeStartError, SetupError};
use crate::plugin::SetupHook;

verus! {

/// The milestones of the bootstrap phase, in the one direction they may be
/// crossed: `Created` (the application exists, nothing has run), then
/// `PluginsRegistered` (context resolved and every plugin registered), then
/// `SetupRan` (the setup hook reported success), then `EventLoopRunning`,
/// and finally one of the terminal states `Terminated` (clean shutdown,
/// exit code 0) or `FatalExit` (any failure on the way, exit code 1).
#[derive(Clone, Copy, PartialEq, Eq, Structural, Debug)]
pub enum Phase {
    Created,
    PluginsRegistered,
    SetupRan,
    EventLoopRunning,
    Terminated,
    FatalExit,
}

/// What the host reports back after performing an [`Action`].  Failure
/// events carry the host's human-readable diagnostic.
#[derive(Clone, PartialEq, Eq, Debug)]
pub enum Event {
    /// The driver begins the run.
    Start,
    /// The packaged configuration was resolved.
    ContextResolved,
    /// The packaged configuration could not be resolved.
    ContextFailed(String),
    /// The plugin the runtime last asked for was registered.
    PluginRegistered,
    /// The host rejected that plugin's registration.
    PluginRejected(String),
    /// The setup hook ran and reported success.
    SetupCompleted,
    /// The setup hook ran and reported failure.
    SetupFailed(String),
    /// The event loop started and is accepting work.
    EventLoopStarted,
    /// The event loop could not be started.
    EventLoopFailed(String),
    /// The host asked for a clean shutdown and the loop exited.
    ShutdownRequested,
    /// The running event loop ended with an unrecoverable error.
    EventLoopCrashed(String),
}

/// What the runtime asks the host to do next.  The bootstrap is strictly
/// sequential: the driver performs the action, reports the outcome as an
/// [`Event`], and asks again, until it is told to exit.
#[derive(Clone, Copy, PartialEq, Eq, Structural, Debug)]
pub enum Action {
    /// Resolve the packaged configuration.
    ResolveContext,
    /// Register the plugin at this position of the application's list.
    RegisterPlugin(usize),
    /// Invoke this setup hook, once.
    InvokeSetup(SetupHook),
    /// Start the event loop.
    StartEventLoop,
    /// Serve the event loop until shutdown or an unrecoverable error.
    ServeEventLoop,
    /// Terminate the process with this exit code.
    Exit(i32),
}

/// The bootstrap state machine.  It owns the built [`Application`] and
/// decides every transition; all host-side work (context loading, plugin
/// initialization, the hook's body, the event loop) happens outside, and
/// its outcomes come back as [`Event`]s.
pub struct Runtime {
    pub app: Application,
    pub phase: Phase,
    /// The driver has begun the run.
    pub started: bool,
    /// The packaged configuration has been resolved.
    pub context_ready: bool,
    /// How many plugins have completed registration.
    pub registered: usize,
    /// The error that ended the bootstrap, once the phase is `FatalExit`.
    pub fault: Option<FatalError>,
}

impl Runtime {
    /// The state a fresh run starts from.
    pub open spec fn initial(app: Application) -> Runtime {
        Runtime {
            app,
            phase: Phase::Created,
            started: false,
            context_ready: false,
            registered: 0,
            fault: None,
        }
    }

    pub open spec fn plugin_count(self) -> int {
        self.app.plugins.len() as int
    }

    /// The action the runtime emits when the last registration milestone is
    /// reached: invoke the attached hook, or go straight for the event loop
    /// when no hook was attached.
    pub open spec fn after_registration(self) -> Action {
        match self.app.setup {
            Some(h) => Action::InvokeSetup(h),
            None => Action::StartEventLoop,
        }
    }

    /// Which events the runtime can accept in its current state.  The
    /// driver only ever reports the outcome of the action it was last
    /// handed, so each event presupposes the matching stage.
    pub open spec fn admits(self, ev: Event) -> bool {
        match ev {
            Event::Start => self.phase is Created && !self.started,
            Event::ContextResolved | Event::ContextFailed(_) => self.phase is Created
                && self.started && !self.context_ready,
            Event::PluginRegistered | Event::PluginRejected(_) => self.phase is Created
                && self.context_ready && self.registered < self.plugin_count(),
            Event::SetupCompleted | Event::SetupFailed(_) => self.phase is PluginsRegistered
                && self.app.setup is Some,
            Event::EventLoopStarted | Event::EventLoopFailed(_) => self.phase is SetupRan || (
            self.phase is PluginsRegistered && self.app.setup is None),
            Event::ShutdownRequested | Event::EventLoopCrashed(_) => self.phase
                is EventLoopRunning,
        }
    }

    /// The state after absorbing one event.
    pub open spec fn next(self, ev: Event) -> Runtime {
        match ev {
            Event::Start => Runtime { started: true, ..self },
            Event::ContextResolved => if self.plugin_count() == 0 {
                Runtime { context_ready: true, phase: Phase::PluginsRegistered, ..self }
            } else {
                Runtime { context_ready: true, ..self }
            },
            Event::ContextFailed(d) => Runtime {
                phase: Phase::FatalExit,
                fault: Some(FatalError::Start(RuntimeStartError::ContextLoad(d))),
                ..self
            },
            Event::PluginRegistered => if self.registered + 1 == self.plugin_count() {
                Runtime {
                    registered: (self.registered + 1) as usize,
                    phase: Phase::PluginsRegistered,
                    ..self
                }
            } else {
                Runtime { registered: (self.registered + 1) as usize, ..self }
            },
            Event::PluginRejected(d) => Runtime {
                phase: Phase::FatalExit,
                fault: Some(FatalError::Start(RuntimeStartError::PluginRegistration(d))),
                ..self
            },
            Event::SetupCompleted => Runtime { phase: Phase::SetupRan, ..self },
            Event::SetupFailed(d) => Runtime {
                phase: Phase::FatalExit,
                fault: Some(FatalError::Setup(SetupError { message: d })),
                ..self
            },
            Event::EventLoopStarted => Runtime { phase: Phase::EventLoopRunning, ..self },
            Event::EventLoopFailed(d) => Runtime {
                phase: Phase::FatalExit,
                fault: Some(FatalError::Start(RuntimeStartError::EventLoopStart(d))),
                ..self
            },
            Event::ShutdownRequested => Runtime { phase: Phase::Terminated, ..self },
            Event::EventLoopCrashed(d) => Runtime {
                phase: Phase::FatalExit,
                fault: Some(FatalError::EventLoop(d)),
                ..self
            },
        }
    }

    /// The action the runtime hands the driver after absorbing one event.
    pub open spec fn emit(self, ev: Event) -> Action {
        match ev {
            Event::Start => Action::ResolveContext,
            Event::ContextResolved => if self.plugin_count() == 0 {
                self.after_registration()
            } else {
                Action::RegisterPlugin(0)
            },
            Event::PluginRegistered => if self.registered + 1 == self.plugin_count() {
                self.after_registration()
            } else {
                Action::RegisterPlugin((self.registered + 1) as usize)
            },
            Event::SetupCompleted => Action::StartEventLoop,
            Event::EventLoopStarted => Action::ServeEventLoop,
            Event::ShutdownRequested => Action::Exit(0),
            Event::ContextFailed(_) | Event::PluginRejected(_) | Event::SetupFailed(_)
                | Event::EventLoopFailed(_) | Event::EventLoopCrashed(_) => Action::Exit(1),
        }
    }

    /// Consistency of a recorded fatal error with the rest of the state.
    pub open spec fn fault_wf(self, f: FatalError) -> bool {
        match f {
            FatalError::Start(RuntimeStartError::ContextLoad(_)) => self.started
                && !self.context_ready && self.registered == 0,
            FatalError::Start(RuntimeStartError::PluginRegistration(_)) => self.context_ready
                && self.registered < self.plugin_count(),
            FatalError::Setup(_) => self.context_ready && self.registered == self.plugin_count()
                && self.app.setup is Some,
            FatalError::Start(RuntimeStartError::EventLoopStart(_)) => self.context_ready
                && self.registered == self.plugin_count(),
            FatalError::EventLoop(_) => self.context_ready && self.registered
                == self.plugin_count(),
        }
    }

    /// Invariant of every reachable runtime state.
    pub open spec fn inv(self) -> bool {
        &&& self.registered <= self.plugin_count()
        &&& (self.context_ready ==> self.started)
        &&& (!self.context_ready ==> self.registered == 0)
        &&& (self.phase is Created ==> self.fault is None && (self.context_ready
            ==> self.registered < self.plugin_count()))
        &&& ((self.phase is PluginsRegistered || self.phase is SetupRan || self.phase
            is EventLoopRunning || self.phase is Terminated) ==> self.fault is None
            && self.context_ready && self.registered == self.plugin_count())
        &&& (self.phase is SetupRan ==> self.app.setup is Some)
        &&& (self.phase is FatalExit <==> self.fault is Some)
        &&& (self.fault matches Some(f) ==> self.fault_wf(f))
    }

    /// Hands the runtime the built application; the run starts in the
    /// `Created` phase with nothing done yet.
    pub fn new(app: Application) -> (rt: Runtime)
        ensures
            rt == Runtime::initial(app),
            rt.inv(),
    {
        Runtime {
            app,
            phase: Phase::Created,
            started: false,
            context_ready: false,
            registered: 0,
            fault: None,
        }
    }

    /// Absorbs the outcome of the last action and hands out the next one.
    /// The new state and the action are exactly [`Runtime::next`] and
    /// [`Runtime::emit`] of the old state, so every property proved of the
    /// transition relation holds of what this function does.
    pub fn step(&mut self, ev: Event) -> (a: Action)
        requires
            old(self).admits(ev),
        ensures
            *final(self) == old(self).next(ev),
            a == old(self).emit(ev),
    {
        match ev {
            Event::Start => {
                self.started = true;
                Action::ResolveContext
            },
            Event::ContextResolved => {
                self.context_ready = true;
                if self.app.plugins.len() == 0 {
                    self.phase = Phase::PluginsRegistered;
                    self.after_registration_exec()
                } else {
                    Action::RegisterPlugin(0)
                }
            },
            Event::ContextFailed(d) => {
                self.phase = Phase::FatalExit;
                self.fault = Some(FatalError::Start(RuntimeStartError::ContextLoad(d)));
                Action::Exit(1)
            },
            Event::PluginRegistered => {
                self.registered = self.registered + 1;
                if self.registered == self.app.plugins.len() {
                    self.phase = Phase::PluginsRegistered;
                    self.after_registration_exec()
                } else {
                    Action::RegisterPlugin(self.registered)
                }
            },
            Event::PluginRejected(d) => {
                self.phase = Phase::FatalExit;
                self.fault = Some(FatalError::Start(RuntimeStartError::PluginRegistration(d)));
                Action::Exit(1)
            },
            Event::SetupCompleted => {
                self.phase = Phase::SetupRan;
                Action::StartEventLoop
            },
            Event::SetupFailed(d) => {
                self.phase = Phase::FatalExit;
                self.fault = Some(FatalError::Setup(SetupError { message: d }));
                Action::Exit(1)
            },
            Event::EventLoopStarted => {
                self.phase = Phase::EventLoopRunning;
                Action::ServeEventLoop
            },
            Event::EventLoopFailed(d) => {
                self.phase = Phase::FatalExit;
                self.fault = Some(FatalError::Start(RuntimeStartError::EventLoopStart(d)));
                Action::Exit(1)
            },
            Event::ShutdownRequested => {
                self.phase = Phase::Terminated;
                Action::Exit(0)
            },
            Event::EventLoopCrashed(d) => {
                self.phase = Phase::FatalExit;
                self.fault = Some(FatalError::EventLoop(d));
                Action::Exit(1)
            },
        }
    }

    /// Executable mirror of [`Runtime::after_registration`].
    fn after_registration_exec(&self) -> (a: Action)
        ensures
            a == self.after_registration(),
    {
        match self.app.setup {
            Some(h) => Action::InvokeSetup(h),
            None => Action::StartEventLoop,
        }
    }
}

} // verus!
