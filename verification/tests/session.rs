use debugger::command::{CommandError, DebuggerCommand};
use debugger::register::{Register, RegisterError, RegisterSnapshot};
use debugger::session::{
    continue_outcome, next_command, read_outcome, resume_failure, write_report,
    Debugger, Input, Next, Prompted, Report, SessionError, SessionState, Step, Turn, PROMPT,
    SIGTRAP,
};
use debugger::tracee::{
    read_from, write_into, write_outcome, EventKind, RegisterReadWrite, TraceeEvent,
};
use nix::errno::Errno;
use nix::sys::signal::Signal;
use nix::unistd::getpid;

fn event(kind: EventKind, text: &str) -> TraceeEvent {
    TraceeEvent { kind, text: text.to_string() }
}

fn trap_stop() -> TraceeEvent {
    event(EventKind::Stopped { pid: 4321, signal: SIGTRAP }, "Stopped(Pid(4321), SIGTRAP)")
}

fn exited() -> TraceeEvent {
    event(EventKind::Exited { pid: 4321, code: 0 }, "Exited(Pid(4321), 0)")
}

#[test]
fn trap_signal_has_the_number_of_the_system() {
    assert_eq!(SIGTRAP, Signal::SIGTRAP as i32);
}

#[test]
fn prompt_is_exact() {
    assert_eq!(PROMPT, "debugger> ");
}

fn ready() -> Debugger {
    let mut debugger = Debugger::new(getpid().as_raw());
    assert_eq!(debugger.first_event(Ok(trap_stop())), Ok(Report::Attached(4321)));
    debugger
}

#[test]
fn first_stop_by_trap_attaches() {
    let mut debugger = Debugger::new(4321);
    assert_eq!(debugger.first_event(Ok(trap_stop())), Ok(Report::Attached(4321)));
    assert_eq!(debugger.state(), SessionState::Ready);
    assert_eq!(debugger.pid(), 4321);
}

#[test]
fn first_event_exited_is_fatal() {
    let mut debugger = Debugger::new(4321);
    assert_eq!(
        debugger.first_event(Ok(exited())),
        Err(SessionError::UnexpectedEvent(exited()))
    );
    assert_eq!(debugger.state(), SessionState::Errored);
}

#[test]
fn first_stop_by_another_signal_is_fatal() {
    let stop = event(
        EventKind::Stopped { pid: 4321, signal: Signal::SIGSTOP as i32 },
        "Stopped(Pid(4321), SIGSTOP)",
    );
    let mut debugger = Debugger::new(4321);
    assert_eq!(
        debugger.first_event(Ok(stop.clone())),
        Err(SessionError::UnexpectedEvent(stop))
    );
    assert_eq!(debugger.state(), SessionState::Errored);
}

#[test]
fn first_event_of_another_kind_is_fatal() {
    let other = event(EventKind::Other, "Signaled(Pid(4321), SIGKILL, false)");
    let mut debugger = Debugger::new(4321);
    assert_eq!(
        debugger.first_event(Ok(other.clone())),
        Err(SessionError::UnexpectedEvent(other))
    );
    assert_eq!(debugger.state(), SessionState::Errored);
}

#[test]
fn failed_first_wait_is_fatal() {
    let mut debugger = Debugger::new(4321);
    assert_eq!(
        debugger.first_event(Err(Errno::ECHILD as i32)),
        Err(SessionError::Tracing(Errno::ECHILD as i32))
    );
    assert_eq!(debugger.state(), SessionState::Errored);
}

#[test]
fn interrupt_at_the_prompt_ends_the_session_in_good_order() {
    let mut debugger = ready();
    assert_eq!(
        debugger.handle(Input::Interrupted),
        Step { report: None, remember: None, next: Next::Finish }
    );
    assert_eq!(debugger.state(), SessionState::Exited);
}

#[test]
fn end_of_input_ends_the_session_in_good_order() {
    let mut debugger = ready();
    assert_eq!(
        debugger.handle(Input::EndOfInput),
        Step { report: None, remember: None, next: Next::Finish }
    );
    assert_eq!(debugger.state(), SessionState::Exited);
}

#[test]
fn exit_command_ends_the_session_as_an_interrupt_does() {
    let mut debugger = ready();
    assert_eq!(
        debugger.execute(DebuggerCommand::Exit),
        Turn { report: None, next: Next::Finish }
    );
    assert_eq!(debugger.state(), SessionState::Exited);
}

#[test]
fn input_failure_ends_the_session_with_an_error() {
    let mut debugger = ready();
    assert_eq!(
        debugger.handle(Input::Failed("broken pipe".to_string())),
        Step {
            report: None,
            remember: None,
            next: Next::Abort(SessionError::Input("broken pipe".to_string()))
        }
    );
    assert_eq!(debugger.state(), SessionState::Errored);
}

#[test]
fn rejected_line_is_reported_and_the_session_goes_on() {
    let mut debugger = ready();
    assert_eq!(
        debugger.handle(Input::Line("register write rbx abc".to_string())),
        Step {
            report: Some(Report::Rejected(CommandError::InvalidValue("abc".to_string()))),
            remember: None,
            next: Next::Prompt
        }
    );
    assert_eq!(debugger.state(), SessionState::Ready);
    assert_eq!(
        debugger.handle(Input::Line("register read notareg".to_string())),
        Step {
            report: Some(Report::Rejected(CommandError::UnknownRegister("notareg".to_string()))),
            remember: None,
            next: Next::Prompt
        }
    );
    assert_eq!(debugger.state(), SessionState::Ready);
}

#[test]
fn register_failure_is_reported_and_the_session_goes_on() {
    let mut debugger = ready();
    let step = debugger.handle(Input::Line("register read rax".to_string()));
    assert!(matches!(
        step.report,
        Some(Report::RegisterFailed(RegisterError::ProcessStateUnavailable(_)))
    ));
    assert_eq!(step.remember, Some("register read rax".to_string()));
    assert_eq!(step.next, Next::Prompt);
    assert_eq!(debugger.state(), SessionState::Ready);

    let step = debugger.handle(Input::Line("register write rbx 42".to_string()));
    assert!(matches!(
        step.report,
        Some(Report::RegisterFailed(RegisterError::ProcessStateUnavailable(_)))
    ));
    assert_eq!(step.remember, Some("register write rbx 42".to_string()));
    assert_eq!(step.next, Next::Prompt);
    assert_eq!(debugger.state(), SessionState::Ready);
}

#[test]
fn failed_resume_ends_the_session_with_an_error() {
    let mut debugger = ready();
    let step = debugger.handle(Input::Line("c".to_string()));
    assert_eq!(step.report, None);
    assert_eq!(step.remember, Some("c".to_string()));
    assert!(matches!(step.next, Next::Abort(SessionError::Tracing(_))));
    assert_eq!(debugger.state(), SessionState::Errored);
}

#[test]
fn continue_until_exit_ends_the_session_in_good_order() {
    assert_eq!(
        continue_outcome(Ok(exited())),
        Turn { report: Some(Report::DebuggeeExited), next: Next::Finish }
    );
    let failed = event(EventKind::Exited { pid: 4321, code: 3 }, "Exited(Pid(4321), 3)");
    assert_eq!(
        continue_outcome(Ok(failed)),
        Turn { report: Some(Report::DebuggeeExited), next: Next::Finish }
    );
}

#[test]
fn continue_until_another_stop_shows_the_event_and_goes_on() {
    let stop = event(
        EventKind::Stopped { pid: 4321, signal: Signal::SIGSEGV as i32 },
        "Stopped(Pid(4321), SIGSEGV)",
    );
    assert_eq!(
        continue_outcome(Ok(stop)),
        Turn {
            report: Some(Report::Event("Stopped(Pid(4321), SIGSEGV)".to_string())),
            next: Next::Prompt
        }
    );
    assert_eq!(
        continue_outcome(Ok(trap_stop())),
        Turn {
            report: Some(Report::Event("Stopped(Pid(4321), SIGTRAP)".to_string())),
            next: Next::Prompt
        }
    );
}

#[test]
fn continue_until_a_kill_shows_the_event_and_goes_on() {
    let killed = event(EventKind::Other, "Signaled(Pid(4321), SIGKILL, false)");
    assert_eq!(
        continue_outcome(Ok(killed)),
        Turn {
            report: Some(Report::Event("Signaled(Pid(4321), SIGKILL, false)".to_string())),
            next: Next::Prompt
        }
    );
}

#[test]
fn failed_wait_or_resume_is_fatal() {
    assert_eq!(
        continue_outcome(Err(Errno::ECHILD as i32)),
        Turn { report: None, next: Next::Abort(SessionError::Tracing(Errno::ECHILD as i32)) }
    );
    assert_eq!(
        resume_failure(Errno::ESRCH as i32),
        Turn { report: None, next: Next::Abort(SessionError::Tracing(Errno::ESRCH as i32)) }
    );
}

#[test]
fn register_outcomes_never_end_the_session() {
    assert_eq!(
        read_outcome(Ok(42)),
        Turn { report: Some(Report::Value(42)), next: Next::Prompt }
    );
    assert_eq!(
        read_outcome(Err(RegisterError::ProcessStateUnavailable(3))),
        Turn {
            report: Some(Report::RegisterFailed(RegisterError::ProcessStateUnavailable(3))),
            next: Next::Prompt
        }
    );
    assert_eq!(
        write_report(Ok(())),
        Turn { report: Some(Report::RegisterUpdated), next: Next::Prompt }
    );
    assert_eq!(
        write_report(Err(RegisterError::ProcessStateUnavailable(3))),
        Turn {
            report: Some(Report::RegisterFailed(RegisterError::ProcessStateUnavailable(3))),
            next: Next::Prompt
        }
    );
}

#[test]
fn interrupt_and_end_of_input_stand_for_exit() {
    assert_eq!(next_command(Input::Interrupted), Prompted::Command(DebuggerCommand::Exit, None));
    assert_eq!(next_command(Input::EndOfInput), Prompted::Command(DebuggerCommand::Exit, None));
}

#[test]
fn parsed_lines_are_kept_for_recall() {
    assert_eq!(
        next_command(Input::Line("register write rbx 42".to_string())),
        Prompted::Command(
            DebuggerCommand::WriteRegister(Register::rbx, 42),
            Some("register write rbx 42".to_string())
        )
    );
    assert_eq!(
        next_command(Input::Line(String::new())),
        Prompted::Command(DebuggerCommand::Continue, Some(String::new()))
    );
}

#[test]
fn rejected_lines_are_not_kept() {
    assert_eq!(
        next_command(Input::Line("register write rbx abc".to_string())),
        Prompted::Rejected(CommandError::InvalidValue("abc".to_string()))
    );
    assert_eq!(
        next_command(Input::Line("register read notareg".to_string())),
        Prompted::Rejected(CommandError::UnknownRegister("notareg".to_string()))
    );
    assert_eq!(
        next_command(Input::Line("exit".to_string())),
        Prompted::Rejected(CommandError::UnknownCommand("exit".to_string()))
    );
}

#[test]
fn input_failure_is_passed_on() {
    assert_eq!(
        next_command(Input::Failed("broken pipe".to_string())),
        Prompted::Failed("broken pipe".to_string())
    );
}

#[test]
fn read_picks_the_register_out_of_what_was_fetched() {
    let mut snapshot = RegisterSnapshot::zeroed();
    snapshot.rax = 60;
    snapshot.eflags = 0x246;
    assert_eq!(read_from(Ok(snapshot), Register::rax), Ok(60));
    assert_eq!(read_from(Ok(snapshot), Register::rflags), Ok(0x246));
    assert_eq!(read_from(Ok(snapshot), Register::rbx), Ok(0));
    assert_eq!(
        read_from(Err(Errno::ESRCH as i32), Register::rax),
        Err(RegisterError::ProcessStateUnavailable(Errno::ESRCH as i32))
    );
}

#[test]
fn write_replaces_one_register_in_what_was_fetched() {
    let mut fetched = RegisterSnapshot::zeroed();
    fetched.rax = 60;
    fetched.rbx = 7;
    let mut expected = fetched;
    expected.rbx = 42;
    assert_eq!(write_into(Ok(fetched), Register::rbx, 42), Ok(expected));
    assert_eq!(
        write_into(Err(Errno::ESRCH as i32), Register::rbx, 42),
        Err(RegisterError::ProcessStateUnavailable(Errno::ESRCH as i32))
    );
}

#[test]
fn write_then_read_round_trips_through_the_snapshot() {
    let fetched = RegisterSnapshot::zeroed();
    let stored = write_into(Ok(fetched), Register::rbx, 42).unwrap();
    assert_eq!(read_from(Ok(stored), Register::rbx), Ok(42));
}

#[test]
fn failed_store_is_a_failed_write() {
    assert_eq!(write_outcome(Ok(())), Ok(()));
    assert_eq!(
        write_outcome(Err(Errno::EIO as i32)),
        Err(RegisterError::ProcessStateUnavailable(Errno::EIO as i32))
    );
}

#[test]
fn new_session_is_attaching() {
    let debugger = Debugger::new(4321);
    assert_eq!(debugger.pid(), 4321);
    assert_eq!(debugger.state(), SessionState::Attaching);
}

#[test]
fn attach_to_a_process_that_is_no_child_fails() {
    let own = getpid().as_raw();
    let mut debugger = Debugger::new(own);
    match debugger.attach() {
        Err(SessionError::Tracing(errno)) => assert_eq!(errno, Errno::ECHILD as i32),
        other => panic!("{:?}", other),
    }
    assert_eq!(debugger.state(), SessionState::Errored);
    assert_eq!(debugger.pid(), own);
}

#[test]
fn registers_of_a_process_that_is_not_traced_are_unavailable() {
    let own = getpid().as_raw();
    assert!(matches!(
        Debugger::read_register(own, Register::rax),
        Err(RegisterError::ProcessStateUnavailable(_))
    ));
    assert!(matches!(
        Debugger::write_register(own, Register::rbx, 42),
        Err(RegisterError::ProcessStateUnavailable(_))
    ));
}
