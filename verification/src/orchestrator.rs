//! The orchestrator: what the controller is asked to do when the target
//! appears or disappears, and how the whole comes to an end.
//!
//! Three sources are raced by the driver: the presence of the target, a
//! request to terminate, and the exit of the user interface. Each firing is a
//! [`Signal`]. A signal is taken only between sequences: a hook attempt or a
//! retirement that has begun is never cut short.

use vstd::prelude::*;
use crate::command::ActiveHook;
use crate::command::Answer;
use crate::command::Command;
use crate::command::Event;
use crate::command::HookState;
use crate::command::ProcessId;
use crate::command::ProtocolError;
use crate::command::Report;
use crate::command::Step;
use crate::command::UnhookOutcome;
use crate::controller::HookController;
use crate::controller::Input;
use crate::controller::Phase;

verus! {

/// The target process was seen to start, or to be gone.
#[derive(Clone, Copy, Debug, PartialEq, Eq, Structural)]
pub enum PresenceEvent {
    Started(ProcessId),
    Stopped,
}

/// One firing of a source that the orchestrator listens to.
#[derive(Clone, Copy, Debug, PartialEq, Eq, Structural)]
pub enum Signal {
    Presence(PresenceEvent),
    /// Termination was requested from outside.
    Terminate,
    /// The user interface has exited.
    UiExit,
}

impl Signal {
    /// The signal asks the orchestrator to shut down.
    pub open spec fn stops(self) -> bool {
        self is Terminate || self is UiExit
    }
}

/// How far the orchestrator is from its end.
#[derive(Clone, Copy, Debug, PartialEq, Eq, Structural)]
pub enum Lifecycle {
    /// Signals are served.
    Running,
    /// Shutdown was requested while a hook was held; the hook is being
    /// retired.
    Draining,
    /// Nothing is served any more.
    Exited,
}

/// What the driver does next.
#[derive(Debug, PartialEq, Eq)]
pub enum Directive {
    /// Perform the command and report its outcome.
    Perform(Command),
    /// Wait for the next signal.
    Await,
    /// Leave: nothing is held any more.
    Exit,
}

/// Answer of the orchestrator to one input.
#[derive(Debug, PartialEq, Eq)]
pub struct Turn {
    pub directive: Directive,
    /// The report of the sequence that this input closed, for the record.
    pub report: Option<Report>,
}

/// State of the orchestrator: that of its controller, and its own.
pub struct Orchestration {
    pub controller: Phase,
    pub lifecycle: Lifecycle,
}

/// The orchestrator's answer to one input.
pub type Reply = Result<Turn, ProtocolError>;

/// The orchestrator's next state together with its answer.
pub type Reaction = (Orchestration, Reply);

/// The answer that gives the driver `directive`, with `report` for the record.
pub open spec fn tell(directive: Directive, report: Option<Report>) -> Reply {
    Ok(Turn { directive, report })
}

impl Orchestration {
    /// The orchestrator as it starts.
    pub open spec fn initial() -> Orchestration {
        Orchestration { controller: Phase::initial(), lifecycle: Lifecycle::Running }
    }

    /// What holds of every state that the orchestrator can reach: while it
    /// drains, its controller is retiring the hook with no attempt to
    /// follow, and once it has exited no hook is held.
    pub open spec fn wf(self) -> bool {
        match self.lifecycle {
            Lifecycle::Running => true,
            Lifecycle::Draining => self.controller matches Phase::Retiring(retirement)
                && retirement.next is None,
            Lifecycle::Exited => self.controller == Phase::Idle(HookState::Unhooked),
        }
    }

    /// The same orchestrator at another point of its life.
    pub open spec fn at(self, lifecycle: Lifecycle) -> Orchestration {
        Orchestration { controller: self.controller, lifecycle }
    }

    /// The request that the signal makes of the controller.
    pub open spec fn request(self, signal: Signal) -> (Phase, Answer) {
        match signal {
            Signal::Presence(PresenceEvent::Started(target)) => self.controller.hook(target),
            _ => self.controller.unhook(),
        }
    }

    /// The controller answered `answer` and is now in `controller`: what the
    /// driver is told, and where the orchestrator stands.
    pub open spec fn conclude(self, controller: Phase, answer: Answer) -> Reaction {
        match answer {
            Err(error) => (self, Err(error)),
            Ok(Step::Perform(command)) => (
                Orchestration { controller, lifecycle: self.lifecycle },
                tell(Directive::Perform(command), None),
            ),
            Ok(Step::Done(report)) => if self.lifecycle is Draining {
                (
                    Orchestration { controller, lifecycle: Lifecycle::Exited },
                    tell(Directive::Exit, Some(report)),
                )
            } else {
                (
                    Orchestration { controller, lifecycle: self.lifecycle },
                    tell(Directive::Await, Some(report)),
                )
            },
        }
    }

    /// A signal has fired.
    ///
    /// The target's start asks for a hook on it, its stop for an unhook. A
    /// request to shut down retires the hook first, where one is held, and
    /// otherwise ends the orchestrator at once.
    pub open spec fn signal(self, signal: Signal) -> Reaction {
        if self.lifecycle is Exited {
            (self, Err(ProtocolError::Exited))
        } else if !(self.controller is Idle) {
            (self, Err(ProtocolError::Busy))
        } else if signal.stops() {
            if self.controller.state() is Hooked {
                let (controller, answer) = self.controller.unhook();
                self.at(Lifecycle::Draining).conclude(controller, answer)
            } else {
                (self.at(Lifecycle::Exited), tell(Directive::Exit, None))
            }
        } else {
            let (controller, answer) = self.request(signal);
            self.conclude(controller, answer)
        }
    }

    /// The outcome of the outstanding command has arrived.
    pub open spec fn resume(self, event: Event) -> Reaction {
        if self.lifecycle is Exited {
            (self, Err(ProtocolError::Exited))
        } else {
            let (controller, answer) = self.controller.resume(event);
            self.conclude(controller, answer)
        }
    }
}

/// One input to the orchestrator: a signal, or the outcome of a command.
pub enum Stimulus {
    Signal(Signal),
    Outcome(Event),
}

impl Orchestration {
    /// What the orchestrator makes of `stimulus`.
    pub open spec fn take(self, stimulus: Stimulus) -> Reaction {
        match stimulus {
            Stimulus::Signal(signal) => self.signal(signal),
            Stimulus::Outcome(event) => self.resume(event),
        }
    }

    /// The state that the inputs, taken in order, lead to.
    pub open spec fn after(self, inputs: Seq<Stimulus>) -> Orchestration
        decreases inputs.len(),
    {
        if inputs.len() == 0 {
            self
        } else {
            self.after(inputs.drop_last()).take(inputs.last()).0
        }
    }
}

/// The input that the orchestrator hands to its controller for `stimulus`.
pub open spec fn input_for(stimulus: Stimulus) -> Input {
    match stimulus {
        Stimulus::Signal(Signal::Presence(PresenceEvent::Started(target))) => Input::Hook(target),
        Stimulus::Signal(_) => Input::Unhook,
        Stimulus::Outcome(event) => Input::Outcome(event),
    }
}

/// The orchestrator moves its controller by the controller's own inputs
/// only: a start asks for a hook, a stop or a shutdown for an unhook, and an
/// outcome is passed on. What it refuses leaves the controller untouched. So
/// whatever holds of every run of the controller holds of the controller
/// inside the orchestrator.
pub proof fn lemma_controller_is_driven_by_its_inputs(
    orchestration: Orchestration,
    stimulus: Stimulus,
)
    ensures
        ({
            let before = orchestration.controller;
            let after = orchestration.take(stimulus).0.controller;
            after == before || after == before.take(input_for(stimulus)).0
        }),
{
}

/// Whatever the input, the orchestrator stays well-formed.
pub proof fn lemma_orchestration_stays_well_formed(orchestration: Orchestration, stimulus: Stimulus)
    requires
        orchestration.wf(),
    ensures
        orchestration.take(stimulus).0.wf(),
{
}

/// Every state that the orchestrator reaches from its start is well-formed.
pub proof fn lemma_reachable_orchestration_is_well_formed(inputs: Seq<Stimulus>)
    ensures
        Orchestration::initial().after(inputs).wf(),
    decreases inputs.len(),
{
    if inputs.len() > 0 {
        let earlier = inputs.drop_last();
        lemma_reachable_orchestration_is_well_formed(earlier);
        lemma_orchestration_stays_well_formed(
            Orchestration::initial().after(earlier),
            inputs.last(),
        );
    }
}

/// The driver is told to leave only when no hook is held and nothing is under
/// way; and from then on every input is refused.
pub proof fn lemma_exit_leaves_no_hook(inputs: Seq<Stimulus>, last: Stimulus, later: Stimulus)
    requires
        Orchestration::initial().after(inputs).take(last).1 matches Ok(turn) && turn.directive
            is Exit,
    ensures
        ({
            let ended = Orchestration::initial().after(inputs).take(last).0;
            &&& ended.controller == Phase::Idle(HookState::Unhooked)
            &&& ended.lifecycle is Exited
            &&& ended.take(later) == (ended, Err::<Turn, _>(ProtocolError::Exited))
        }),
{
    lemma_reachable_orchestration_is_well_formed(inputs);
}

/// A request to shut down while a hook is held begins the retirement of that
/// hook.
pub proof fn lemma_shutdown_retires_the_hook(
    orchestration: Orchestration,
    signal: Signal,
    hook: ActiveHook,
)
    requires
        orchestration.lifecycle is Running,
        orchestration.controller == Phase::Idle(HookState::Hooked(hook)),
        signal.stops(),
    ensures
        orchestration.signal(signal) == (
            Orchestration {
                controller: Phase::retire(hook, None).0,
                lifecycle: Lifecycle::Draining,
            },
            tell(Directive::Perform(Command::StopChannel { module: hook.module }), None),
        ),
{
}

/// The retirement that a shutdown began is followed by nothing but the exit:
/// while draining, the driver is never told to wait for a signal, and no
/// hook attempt begins.
pub proof fn lemma_draining_ends_in_exit(orchestration: Orchestration, event: Event)
    requires
        orchestration.wf(),
        orchestration.lifecycle is Draining,
    ensures
        match orchestration.resume(event) {
            (after, Ok(turn)) => match turn.directive {
                Directive::Perform(_) => after.lifecycle is Draining && after.controller
                    is Retiring,
                Directive::Exit => turn.report matches Some(Report::Unhook(_)),
                Directive::Await => false,
            },
            (after, Err(_)) => after == orchestration,
        },
{
}

/// A signal is served only between sequences: while a hook attempt or a
/// retirement is under way every signal is refused and changes nothing.
pub proof fn lemma_sequences_are_not_interrupted(orchestration: Orchestration, signal: Signal)
    requires
        !(orchestration.controller is Idle),
    ensures
        orchestration.signal(signal).0 == orchestration,
        orchestration.signal(signal).1 is Err,
{
}

/// The target's stop while no hook is held asks nothing of the driver and
/// records no error: the orchestrator is unchanged and waits on.
pub proof fn lemma_stop_without_hook_is_quiet(orchestration: Orchestration)
    requires
        orchestration.lifecycle is Running,
        orchestration.controller == Phase::Idle(HookState::Unhooked),
    ensures
        orchestration.signal(Signal::Presence(PresenceEvent::Stopped)) == (
            orchestration,
            tell(Directive::Await, Some(Report::Unhook(UnhookOutcome::NotHooked))),
        ),
        !Report::Unhook(UnhookOutcome::NotHooked).is_failure(),
{
}

/// The target's start while a hook is held begins with the retirement of
/// that hook; the probe of the new target comes after it.
pub proof fn lemma_rehook_retires_first(
    orchestration: Orchestration,
    hook: ActiveHook,
    target: ProcessId,
)
    requires
        orchestration.lifecycle is Running,
        orchestration.controller == Phase::Idle(HookState::Hooked(hook)),
    ensures
        orchestration.signal(Signal::Presence(PresenceEvent::Started(target))) == (
            Orchestration {
                controller: Phase::retire(hook, Some(target)).0,
                lifecycle: Lifecycle::Running,
            },
            tell(Directive::Perform(Command::StopChannel { module: hook.module }), None),
        ),
{
}

/// Driver-facing owner of the controller. It turns signals into requests and
/// sees to it that shutdown retires the hook before the driver leaves.
#[derive(Debug)]
pub struct Orchestrator {
    controller: HookController,
    lifecycle: Lifecycle,
}

impl View for Orchestrator {
    type V = Orchestration;

    closed spec fn view(&self) -> Orchestration {
        Orchestration { controller: self.controller@, lifecycle: self.lifecycle }
    }
}

impl Orchestrator {
    /// An orchestrator that serves signals and holds no hook.
    pub fn new() -> (orchestrator: Orchestrator)
        ensures
            orchestrator@ == Orchestration::initial(),
            orchestrator@.wf(),
    {
        Orchestrator { controller: HookController::new(), lifecycle: Lifecycle::Running }
    }

    /// The hook that is held, if one is.
    pub fn state(&self) -> (state: HookState)
        ensures
            state == self@.controller.state(),
    {
        self.controller.state()
    }

    /// Where the orchestrator stands.
    pub fn lifecycle(&self) -> (lifecycle: Lifecycle)
        ensures
            lifecycle == self@.lifecycle,
    {
        self.lifecycle
    }

    /// Tells the driver what the controller's answer means for it.
    fn conclude(&mut self, answer: Answer) -> (turn: Reply)
        ensures
            (final(self)@, turn) == old(self)@.conclude(old(self)@.controller, answer),
    {
        match answer {
            Err(error) => Err(error),
            Ok(Step::Perform(command)) => Ok(
                Turn { directive: Directive::Perform(command), report: None },
            ),
            Ok(Step::Done(report)) => {
                match self.lifecycle {
                    Lifecycle::Draining => {
                        self.lifecycle = Lifecycle::Exited;
                        Ok(Turn { directive: Directive::Exit, report: Some(report) })
                    },
                    _ => Ok(Turn { directive: Directive::Await, report: Some(report) }),
                }
            },
        }
    }

    /// Takes a signal.
    ///
    /// Refused as `Exited` once the orchestrator has ended, and as `Busy`
    /// while a sequence is under way.
    pub fn signal(&mut self, signal: Signal) -> (turn: Reply)
        ensures
            (final(self)@, turn) == old(self)@.signal(signal),
            old(self)@.wf() ==> final(self)@.wf(),
    {
        if matches!(self.lifecycle, Lifecycle::Exited) {
            return Err(ProtocolError::Exited);
        }
        if !self.controller.is_idle() {
            return Err(ProtocolError::Busy);
        }
        match signal {
            Signal::Presence(PresenceEvent::Started(target)) => {
                let answer = self.controller.hook(target);
                self.conclude(answer)
            },
            Signal::Presence(PresenceEvent::Stopped) => {
                let answer = self.controller.unhook();
                self.conclude(answer)
            },
            Signal::Terminate | Signal::UiExit => {
                if self.controller.is_hooked() {
                    self.lifecycle = Lifecycle::Draining;
                    let answer = self.controller.unhook();
                    self.conclude(answer)
                } else {
                    self.lifecycle = Lifecycle::Exited;
                    Ok(Turn { directive: Directive::Exit, report: None })
                }
            },
        }
    }

    /// Takes the outcome of the command that was answered last.
    ///
    /// Refused as `Exited` once the orchestrator has ended; otherwise as the
    /// controller refuses it.
    pub fn resume(&mut self, event: Event) -> (turn: Reply)
        ensures
            (final(self)@, turn) == old(self)@.resume(event),
            old(self)@.wf() ==> final(self)@.wf(),
    {
        if matches!(self.lifecycle, Lifecycle::Exited) {
            return Err(ProtocolError::Exited);
        }
        let answer = self.controller.resume(event);
        self.conclude(answer)
    }
}

} // verus!
