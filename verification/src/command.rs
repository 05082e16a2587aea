//! The vocabulary shared by the controller and its driver: the work that the
//! controller asks for, the outcomes that the driver reports, and the reports
//! that close a sequence.

use vstd::prelude::*;
use crate::filter::FilterConfig;

verus! {

/// Name under which the payload module is known inside the target process.
pub const PAYLOAD_MODULE_NAME: &'static str = "BurntSushiBlocker_x86.dll";

/// Remote procedure of the payload that opens the control channel.
pub const START_CHANNEL_PROCEDURE: &'static str = "start_rpc";

/// Remote procedure of the payload that closes the control channel.
pub const STOP_CHANNEL_PROCEDURE: &'static str = "stop_rpc";

/// Reference to one instance of the target process.
#[derive(Clone, Copy, Debug, PartialEq, Eq, Structural)]
pub struct ProcessId(pub u32);

/// Token for a module loaded in the target process. The driver issues it and
/// keeps the resource that it stands for.
#[derive(Clone, Copy, Debug, PartialEq, Eq, Structural)]
pub struct ModuleHandle(pub u64);

/// Token for a running control-channel task. The driver issues it and keeps
/// the execution context that it stands for.
#[derive(Clone, Copy, Debug, PartialEq, Eq, Structural)]
pub struct TaskHandle(pub u64);

/// Local endpoint on which the payload serves the control channel.
#[derive(Clone, Copy, Debug, PartialEq, Eq, Structural)]
pub struct ChannelAddress {
    pub ip: u32,
    pub port: u16,
}

/// Why a call into the target failed.
#[derive(Clone, Copy, Debug, PartialEq, Eq, Structural)]
pub enum InjectorError {
    /// The target process can no longer be reached.
    ProcessInaccessible,
    /// The module is no longer loaded in the target.
    ModuleInaccessible,
    /// Anything else.
    Other,
}

impl InjectorError {
    /// The target or the module is already gone: there is nothing left to
    /// undo, so the failure is an acceptable outcome.
    pub open spec fn benign(self) -> bool {
        self is ProcessInaccessible || self is ModuleInaccessible
    }

    /// Tells whether the failure only says that the target is already gone.
    pub fn is_benign(&self) -> (benign: bool)
        ensures
            benign == self.benign(),
    {
        match self {
            InjectorError::ProcessInaccessible => true,
            InjectorError::ModuleInaccessible => true,
            InjectorError::Other => false,
        }
    }
}

/// How a control-channel task ended, as seen by the one who joined it.
#[derive(Clone, Copy, Debug, PartialEq, Eq, Structural)]
pub enum TaskExit {
    /// The serving loop returned.
    Clean,
    /// The task failed inside its own context.
    Faulted,
}

/// One piece of outside work. The driver performs it and reports the outcome
/// with the [`Event`] named at each variant.
#[derive(Debug, PartialEq, Eq)]
pub enum Command {
    /// Look in the target for a module named [`PAYLOAD_MODULE_NAME`].
    /// Answered by [`Event::ModuleLookup`].
    FindModule { target: ProcessId },
    /// Call [`STOP_CHANNEL_PROCEDURE`] in the module.
    /// Answered by [`Event::ChannelStopped`].
    StopChannel { module: ModuleHandle },
    /// Unload the module from its process. Answered by [`Event::Ejected`].
    Eject { module: ModuleHandle },
    /// Locate and load the filter configuration.
    /// Answered by [`Event::ConfigResolved`].
    ResolveConfig,
    /// Locate the payload image. Answered by [`Event::PayloadResolved`].
    ResolvePayload,
    /// Load the image at `path` into the target.
    /// Answered by [`Event::Injected`].
    Inject { target: ProcessId, path: String },
    /// Call [`START_CHANNEL_PROCEDURE`] in the module.
    /// Answered by [`Event::ChannelStarted`].
    StartChannel { module: ModuleHandle },
    /// Start a control-channel task on a context of its own, bound to
    /// `address` and owning `config`. Answered by [`Event::TaskSpawned`].
    SpawnTask { address: ChannelAddress, config: FilterConfig },
    /// Wait until the task's context has shut down.
    /// Answered by [`Event::TaskJoined`].
    JoinTask { task: TaskHandle },
    /// Ask whether the module's process is still running.
    /// Answered by [`Event::Liveness`].
    CheckAlive { module: ModuleHandle },
}

/// Outcome of the command that the controller issued last.
#[derive(Debug, PartialEq, Eq)]
pub enum Event {
    /// The module found under the payload's name, if there is one.
    ModuleLookup(Option<ModuleHandle>),
    ChannelStopped(Result<(), InjectorError>),
    Ejected(Result<(), InjectorError>),
    /// The configuration, or `None` where no layer could supply one.
    ConfigResolved(Option<FilterConfig>),
    /// Path of a usable payload image, or `None` where none could be found
    /// or written.
    PayloadResolved(Option<String>),
    Injected(Result<ModuleHandle, InjectorError>),
    ChannelStarted(Result<ChannelAddress, InjectorError>),
    /// The new task, or `None` where its context could not be started.
    TaskSpawned(Option<TaskHandle>),
    TaskJoined(TaskExit),
    Liveness(bool),
}

/// The resources of one successful hook: the module injected into the target
/// and the task that serves its control channel.
#[derive(Clone, Copy, Debug, PartialEq, Eq, Structural)]
pub struct ActiveHook {
    pub module: ModuleHandle,
    pub task: TaskHandle,
}

/// Whether the controller holds a hook.
#[derive(Clone, Copy, Debug, PartialEq, Eq, Structural)]
pub enum HookState {
    Unhooked,
    Hooked(ActiveHook),
}

/// What became of the module when its hook was retired.
#[derive(Clone, Copy, Debug, PartialEq, Eq, Structural)]
pub enum Ejection {
    /// The process was no longer running: no ejection was attempted.
    Skipped,
    /// The module was unloaded.
    Ejected,
    /// The ejection failed because process or module had gone meanwhile.
    AlreadyGone,
    /// The ejection failed for another reason; the module may still be loaded.
    Failed,
}

/// How an unhook ended. Whatever the outcome, the controller holds no hook
/// afterwards.
#[derive(Clone, Copy, Debug, PartialEq, Eq, Structural)]
pub enum UnhookOutcome {
    /// There was no hook: nothing was done.
    NotHooked,
    /// The channel could not be told to stop, for a reason other than the
    /// target being gone. The task was not joined and nothing was ejected.
    StopFailed,
    /// The channel was stopped (or the target had gone) and the task joined.
    Retired { task: TaskExit, ejection: Ejection },
}

impl UnhookOutcome {
    /// The outcome is to be recorded as an error.
    pub open spec fn is_failure(self) -> bool {
        match self {
            UnhookOutcome::NotHooked => false,
            UnhookOutcome::StopFailed => true,
            UnhookOutcome::Retired { task, ejection } => task is Faulted || ejection is Failed,
        }
    }

    /// Tells whether the outcome is to be recorded as an error.
    pub fn is_error(&self) -> (failure: bool)
        ensures
            failure == self.is_failure(),
    {
        match self {
            UnhookOutcome::NotHooked => false,
            UnhookOutcome::StopFailed => true,
            UnhookOutcome::Retired { task, ejection } => {
                matches!(task, TaskExit::Faulted) || matches!(ejection, Ejection::Failed)
            },
        }
    }
}

/// The step at which a hook attempt was given up.
#[derive(Clone, Copy, Debug, PartialEq, Eq, Structural)]
pub enum HookFailure {
    ConfigUnavailable,
    PayloadUnavailable,
    InjectionFailed(InjectorError),
    ChannelStartFailed(InjectorError),
    SpawnFailed,
}

/// How a hook attempt ended.
#[derive(Clone, Copy, Debug, PartialEq, Eq)]
pub struct HookReport {
    /// How the hook that was held when the attempt began was retired;
    /// `NotHooked` where none was held.
    pub retired: UnhookOutcome,
    /// The hook now held, or the reason why none is.
    pub result: Result<ActiveHook, HookFailure>,
}

impl HookReport {
    /// The report is to be recorded as an error.
    pub open spec fn is_failure(self) -> bool {
        self.retired.is_failure() || self.result is Err
    }

    /// Tells whether the report is to be recorded as an error.
    pub fn is_error(&self) -> (failure: bool)
        ensures
            failure == self.is_failure(),
    {
        self.retired.is_error() || self.result.is_err()
    }
}

/// What closes a sequence.
#[derive(Clone, Copy, Debug, PartialEq, Eq)]
pub enum Report {
    Hook(HookReport),
    Unhook(UnhookOutcome),
}

impl Report {
    /// The report is to be recorded as an error.
    pub open spec fn is_failure(self) -> bool {
        match self {
            Report::Hook(report) => report.is_failure(),
            Report::Unhook(outcome) => outcome.is_failure(),
        }
    }

    /// Tells whether the report is to be recorded as an error.
    pub fn is_error(&self) -> (failure: bool)
        ensures
            failure == self.is_failure(),
    {
        match self {
            Report::Hook(report) => report.is_error(),
            Report::Unhook(outcome) => outcome.is_error(),
        }
    }
}

/// What the controller answers to an input that it takes.
#[derive(Debug, PartialEq, Eq)]
pub enum Step {
    /// The sequence goes on: perform the command and report its outcome.
    Perform(Command),
    /// The sequence is over and the controller is idle again.
    Done(Report),
}

/// Answer of the controller to one input.
pub type Answer = Result<Step, ProtocolError>;

/// The answer that asks the driver for `command`.
pub open spec fn perform(command: Command) -> Answer {
    Ok(Step::Perform(command))
}

/// The answer that closes a sequence with `report`.
pub open spec fn done(report: Report) -> Answer {
    Ok(Step::Done(report))
}

/// An input that a machine cannot take in its present state. The machine is
/// left as it was.
#[derive(Clone, Copy, Debug, PartialEq, Eq, Structural)]
pub enum ProtocolError {
    /// A new sequence was asked for while one is under way.
    Busy,
    /// An outcome was reported while no command is outstanding.
    NothingPending,
    /// The outcome reported is not that of the outstanding command.
    Mismatch,
    /// The machine has shut down for good.
    Exited,
}

} // verus!
