use burnt_sushi::command::{
    ActiveHook, ChannelAddress, Command, Ejection, Event, HookFailure, HookReport, HookState,
    InjectorError, ModuleHandle, ProcessId, ProtocolError, Report, TaskExit, TaskHandle,
    UnhookOutcome,
};
use burnt_sushi::filter::FilterConfig;
use burnt_sushi::orchestrator::{Directive, Lifecycle, Orchestrator, PresenceEvent, Signal, Turn};

/// A target process as the tests imagine it: which modules it holds, which
/// tasks run, and everything that was asked of it, in order.
struct Target {
    alive: bool,
    modules: Vec<u64>,
    tasks: Vec<u64>,
    next_handle: u64,
    eject_error: Option<InjectorError>,
    log: Vec<Command>,
}

impl Target {
    fn with_stale(stale: &[u64]) -> Target {
        Target {
            alive: true,
            modules: stale.to_vec(),
            tasks: Vec::new(),
            next_handle: 100,
            eject_error: None,
            log: Vec::new(),
        }
    }

    fn perform(&mut self, command: Command) -> Event {
        let event = match &command {
            Command::FindModule { .. } => {
                Event::ModuleLookup(self.modules.first().map(|m| ModuleHandle(*m)))
            }
            Command::StopChannel { .. } => {
                if self.alive {
                    Event::ChannelStopped(Ok(()))
                } else {
                    Event::ChannelStopped(Err(InjectorError::ProcessInaccessible))
                }
            }
            Command::Eject { module } => match self.eject_error {
                Some(error) => Event::Ejected(Err(error)),
                None => {
                    self.modules.retain(|m| *m != module.0);
                    Event::Ejected(Ok(()))
                }
            },
            Command::ResolveConfig => {
                Event::ConfigResolved(Some(FilterConfig::new(vec![String::from("ok")], vec![])))
            }
            Command::ResolvePayload => Event::PayloadResolved(Some(String::from("payload.dll"))),
            Command::Inject { .. } => {
                assert!(self.modules.is_empty(), "injected next to {:?}", self.modules);
                self.next_handle += 1;
                self.modules.push(self.next_handle);
                Event::Injected(Ok(ModuleHandle(self.next_handle)))
            }
            Command::StartChannel { .. } => {
                Event::ChannelStarted(Ok(ChannelAddress { ip: 0x7f00_0001, port: 4000 }))
            }
            Command::SpawnTask { .. } => {
                assert!(self.tasks.is_empty(), "spawned next to {:?}", self.tasks);
                self.next_handle += 1;
                self.tasks.push(self.next_handle);
                Event::TaskSpawned(Some(TaskHandle(self.next_handle)))
            }
            Command::JoinTask { task } => {
                self.tasks.retain(|t| *t != task.0);
                Event::TaskJoined(TaskExit::Clean)
            }
            Command::CheckAlive { .. } => Event::Liveness(self.alive),
        };
        self.log.push(command);
        event
    }
}

/// Delivers the signal and performs every command until the orchestrator
/// waits or exits. Returns the closing turn.
fn deliver(orchestrator: &mut Orchestrator, target: &mut Target, signal: Signal) -> Turn {
    let mut turn = orchestrator.signal(signal).unwrap();
    loop {
        match turn.directive {
            Directive::Perform(command) => {
                let event = target.perform(command);
                turn = orchestrator.resume(event).unwrap();
            }
            _ => return turn,
        }
    }
}

fn started(pid: u32) -> Signal {
    Signal::Presence(PresenceEvent::Started(ProcessId(pid)))
}

fn stopped() -> Signal {
    Signal::Presence(PresenceEvent::Stopped)
}

fn held(orchestrator: &Orchestrator) -> ActiveHook {
    match orchestrator.state() {
        HookState::Hooked(hook) => hook,
        HookState::Unhooked => panic!("no hook is held"),
    }
}

#[test]
fn new_orchestrator_runs_without_hook() {
    let orchestrator = Orchestrator::new();
    assert_eq!(orchestrator.lifecycle(), Lifecycle::Running);
    assert_eq!(orchestrator.state(), HookState::Unhooked);
}

#[test]
fn stopped_while_unhooked_makes_no_call_and_logs_no_error() {
    let mut orchestrator = Orchestrator::new();
    let mut target = Target::with_stale(&[]);
    let turn = deliver(&mut orchestrator, &mut target, stopped());
    assert_eq!(
        turn,
        Turn { directive: Directive::Await, report: Some(Report::Unhook(UnhookOutcome::NotHooked)) }
    );
    assert!(!turn.report.unwrap().is_error());
    assert!(target.log.is_empty());
    assert_eq!(orchestrator.state(), HookState::Unhooked);
    assert_eq!(orchestrator.lifecycle(), Lifecycle::Running);
}

#[test]
fn started_installs_a_hook() {
    let mut orchestrator = Orchestrator::new();
    let mut target = Target::with_stale(&[]);
    let turn = deliver(&mut orchestrator, &mut target, started(1));
    let hook = held(&orchestrator);
    assert_eq!(
        turn,
        Turn {
            directive: Directive::Await,
            report: Some(Report::Hook(HookReport {
                retired: UnhookOutcome::NotHooked,
                result: Ok(hook),
            })),
        }
    );
    assert_eq!(target.modules, vec![hook.module.0]);
    assert_eq!(target.tasks, vec![hook.task.0]);
}

#[test]
fn started_twice_retires_first_hook_before_installing_second() {
    let mut orchestrator = Orchestrator::new();
    let mut target = Target::with_stale(&[]);
    deliver(&mut orchestrator, &mut target, started(1));
    let first = held(&orchestrator);
    target.log.clear();

    let turn = deliver(&mut orchestrator, &mut target, started(2));
    let second = held(&orchestrator);
    assert_ne!(first, second);
    assert_eq!(
        turn.report,
        Some(Report::Hook(HookReport {
            retired: UnhookOutcome::Retired { task: TaskExit::Clean, ejection: Ejection::Ejected },
            result: Ok(second),
        }))
    );
    assert_eq!(
        target.log[..5],
        [
            Command::StopChannel { module: first.module },
            Command::JoinTask { task: first.task },
            Command::CheckAlive { module: first.module },
            Command::Eject { module: first.module },
            Command::FindModule { target: ProcessId(2) },
        ]
    );
    assert_eq!(target.modules, vec![second.module.0]);
    assert_eq!(target.tasks, vec![second.task.0]);
}

#[test]
fn repeated_starts_never_leave_more_than_one_hook() {
    let mut orchestrator = Orchestrator::new();
    let mut target = Target::with_stale(&[]);
    for pid in 1..6 {
        deliver(&mut orchestrator, &mut target, started(pid));
        let hook = held(&orchestrator);
        assert_eq!(target.modules, vec![hook.module.0]);
        assert_eq!(target.tasks, vec![hook.task.0]);
    }
}

#[test]
fn stale_modules_are_gone_before_the_fresh_injection() {
    for stale in [vec![], vec![11], vec![11, 12]] {
        let mut orchestrator = Orchestrator::new();
        let mut target = Target::with_stale(&stale);
        deliver(&mut orchestrator, &mut target, started(1));
        let ejects = target.log.iter().filter(|c| matches!(c, Command::Eject { .. })).count();
        assert_eq!(ejects, stale.len());
        let hook = held(&orchestrator);
        assert_eq!(target.modules, vec![hook.module.0]);
    }
}

#[test]
fn stopped_retires_the_hook_in_order() {
    let mut orchestrator = Orchestrator::new();
    let mut target = Target::with_stale(&[]);
    deliver(&mut orchestrator, &mut target, started(1));
    let hook = held(&orchestrator);
    target.log.clear();
    let turn = deliver(&mut orchestrator, &mut target, stopped());
    assert_eq!(
        target.log,
        vec![
            Command::StopChannel { module: hook.module },
            Command::JoinTask { task: hook.task },
            Command::CheckAlive { module: hook.module },
            Command::Eject { module: hook.module },
        ]
    );
    assert_eq!(
        turn,
        Turn {
            directive: Directive::Await,
            report: Some(Report::Unhook(UnhookOutcome::Retired {
                task: TaskExit::Clean,
                ejection: Ejection::Ejected,
            })),
        }
    );
    assert_eq!(orchestrator.state(), HookState::Unhooked);
    assert!(target.modules.is_empty());
    assert!(target.tasks.is_empty());
}

#[test]
fn stopped_after_process_exit_does_not_eject() {
    let mut orchestrator = Orchestrator::new();
    let mut target = Target::with_stale(&[]);
    deliver(&mut orchestrator, &mut target, started(1));
    let hook = held(&orchestrator);
    target.alive = false;
    target.log.clear();
    let turn = deliver(&mut orchestrator, &mut target, stopped());
    assert_eq!(
        target.log,
        vec![
            Command::StopChannel { module: hook.module },
            Command::JoinTask { task: hook.task },
            Command::CheckAlive { module: hook.module },
        ]
    );
    assert_eq!(
        turn.report,
        Some(Report::Unhook(UnhookOutcome::Retired {
            task: TaskExit::Clean,
            ejection: Ejection::Skipped,
        }))
    );
    assert!(!turn.report.unwrap().is_error());
    assert_eq!(orchestrator.state(), HookState::Unhooked);
}

#[test]
fn benign_eject_error_leaves_the_orchestrator_unhooked_and_waiting() {
    for error in [InjectorError::ProcessInaccessible, InjectorError::ModuleInaccessible] {
        let mut orchestrator = Orchestrator::new();
        let mut target = Target::with_stale(&[]);
        deliver(&mut orchestrator, &mut target, started(1));
        target.eject_error = Some(error);
        let turn = deliver(&mut orchestrator, &mut target, stopped());
        assert_eq!(turn.directive, Directive::Await);
        assert_eq!(
            turn.report,
            Some(Report::Unhook(UnhookOutcome::Retired {
                task: TaskExit::Clean,
                ejection: Ejection::AlreadyGone,
            }))
        );
        assert!(!turn.report.unwrap().is_error());
        assert_eq!(orchestrator.state(), HookState::Unhooked);
        assert_eq!(orchestrator.lifecycle(), Lifecycle::Running);
    }
}

#[test]
fn terminate_without_hook_exits_at_once() {
    let mut orchestrator = Orchestrator::new();
    let mut target = Target::with_stale(&[]);
    let turn = deliver(&mut orchestrator, &mut target, Signal::Terminate);
    assert_eq!(turn, Turn { directive: Directive::Exit, report: None });
    assert!(target.log.is_empty());
    assert_eq!(orchestrator.lifecycle(), Lifecycle::Exited);
}

#[test]
fn terminate_with_hook_retires_it_before_exit() {
    let mut orchestrator = Orchestrator::new();
    let mut target = Target::with_stale(&[]);
    deliver(&mut orchestrator, &mut target, started(1));
    let hook = held(&orchestrator);
    target.log.clear();
    let first = orchestrator.signal(Signal::Terminate).unwrap();
    assert_eq!(
        first,
        Turn {
            directive: Directive::Perform(Command::StopChannel { module: hook.module }),
            report: None,
        }
    );
    assert_eq!(orchestrator.lifecycle(), Lifecycle::Draining);
    let mut turn = orchestrator.resume(Event::ChannelStopped(Ok(()))).unwrap();
    loop {
        match turn.directive {
            Directive::Perform(command) => {
                turn = orchestrator.resume(target.perform(command)).unwrap();
            }
            _ => break,
        }
    }
    assert_eq!(
        turn,
        Turn {
            directive: Directive::Exit,
            report: Some(Report::Unhook(UnhookOutcome::Retired {
                task: TaskExit::Clean,
                ejection: Ejection::Ejected,
            })),
        }
    );
    assert_eq!(orchestrator.state(), HookState::Unhooked);
    assert_eq!(orchestrator.lifecycle(), Lifecycle::Exited);
    assert!(target.modules.is_empty());
    assert!(target.tasks.is_empty());
}

#[test]
fn ui_exit_shuts_down_like_terminate() {
    let mut orchestrator = Orchestrator::new();
    let mut target = Target::with_stale(&[]);
    deliver(&mut orchestrator, &mut target, started(1));
    let turn = deliver(&mut orchestrator, &mut target, Signal::UiExit);
    assert_eq!(turn.directive, Directive::Exit);
    assert_eq!(orchestrator.state(), HookState::Unhooked);
    assert_eq!(orchestrator.lifecycle(), Lifecycle::Exited);

    let mut idle = Orchestrator::new();
    assert_eq!(
        idle.signal(Signal::UiExit),
        Ok(Turn { directive: Directive::Exit, report: None })
    );
}

#[test]
fn nothing_is_served_after_exit() {
    let mut orchestrator = Orchestrator::new();
    orchestrator.signal(Signal::Terminate).unwrap();
    assert_eq!(orchestrator.signal(started(1)), Err(ProtocolError::Exited));
    assert_eq!(orchestrator.signal(stopped()), Err(ProtocolError::Exited));
    assert_eq!(orchestrator.signal(Signal::Terminate), Err(ProtocolError::Exited));
    assert_eq!(orchestrator.resume(Event::Liveness(true)), Err(ProtocolError::Exited));
    assert_eq!(orchestrator.lifecycle(), Lifecycle::Exited);
}

#[test]
fn signals_are_refused_while_a_sequence_is_under_way() {
    let mut orchestrator = Orchestrator::new();
    orchestrator.signal(started(1)).unwrap();
    assert_eq!(orchestrator.signal(started(2)), Err(ProtocolError::Busy));
    assert_eq!(orchestrator.signal(stopped()), Err(ProtocolError::Busy));
    assert_eq!(orchestrator.signal(Signal::Terminate), Err(ProtocolError::Busy));
    assert_eq!(orchestrator.lifecycle(), Lifecycle::Running);
    assert_eq!(
        orchestrator.resume(Event::ModuleLookup(None)),
        Ok(Turn { directive: Directive::Perform(Command::ResolveConfig), report: None })
    );
}

#[test]
fn orchestrator_passes_on_controller_refusals() {
    let mut orchestrator = Orchestrator::new();
    assert_eq!(orchestrator.resume(Event::Liveness(true)), Err(ProtocolError::NothingPending));
    orchestrator.signal(started(1)).unwrap();
    assert_eq!(orchestrator.resume(Event::Liveness(true)), Err(ProtocolError::Mismatch));
}

#[test]
fn failed_attempt_keeps_the_orchestrator_watching() {
    let mut orchestrator = Orchestrator::new();
    orchestrator.signal(started(1)).unwrap();
    orchestrator.resume(Event::ModuleLookup(None)).unwrap();
    let turn = orchestrator.resume(Event::ConfigResolved(None)).unwrap();
    assert_eq!(
        turn,
        Turn {
            directive: Directive::Await,
            report: Some(Report::Hook(HookReport {
                retired: UnhookOutcome::NotHooked,
                result: Err(HookFailure::ConfigUnavailable),
            })),
        }
    );
    assert!(turn.report.unwrap().is_error());
    assert_eq!(orchestrator.lifecycle(), Lifecycle::Running);
    let mut target = Target::with_stale(&[]);
    deliver(&mut orchestrator, &mut target, started(1));
    assert!(matches!(orchestrator.state(), HookState::Hooked(_)));
}

#[test]
fn slow_join_holds_back_the_liveness_check() {
    let mut orchestrator = Orchestrator::new();
    let mut target = Target::with_stale(&[]);
    deliver(&mut orchestrator, &mut target, started(1));
    let hook = held(&orchestrator);

    let mut finished: Vec<(Command, std::time::Instant)> = Vec::new();
    let mut turn = orchestrator.signal(stopped()).unwrap();
    let mut join_returned = None;
    let mut liveness_asked = None;
    loop {
        match turn.directive {
            Directive::Perform(command) => {
                if matches!(command, Command::CheckAlive { .. }) {
                    liveness_asked = Some(std::time::Instant::now());
                }
                let event = match &command {
                    Command::JoinTask { .. } => {
                        let until = std::time::Instant::now() + std::time::Duration::from_millis(50);
                        while std::time::Instant::now() < until {
                            std::hint::spin_loop();
                        }
                        join_returned = Some(std::time::Instant::now());
                        Event::TaskJoined(TaskExit::Clean)
                    }
                    Command::StopChannel { .. } => Event::ChannelStopped(Ok(())),
                    Command::CheckAlive { .. } => Event::Liveness(true),
                    Command::Eject { .. } => Event::Ejected(Ok(())),
                    other => panic!("unexpected command {:?}", other),
                };
                finished.push((command, std::time::Instant::now()));
                turn = orchestrator.resume(event).unwrap();
            }
            _ => break,
        }
    }
    let order: Vec<&Command> = finished.iter().map(|(command, _)| command).collect();
    assert_eq!(
        order,
        vec![
            &Command::StopChannel { module: hook.module },
            &Command::JoinTask { task: hook.task },
            &Command::CheckAlive { module: hook.module },
            &Command::Eject { module: hook.module },
        ]
    );
    assert!(join_returned.unwrap() <= liveness_asked.unwrap());
    assert!(finished[1].1.duration_since(finished[0].1) >= std::time::Duration::from_millis(50));
    assert_eq!(orchestrator.state(), HookState::Unhooked);
}
