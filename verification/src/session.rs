use crate::command::{command_of, parse_command, CommandError, DebuggerCommand};
use crate::register::RegisterError;
use crate::tracee::{resume, wait_for_event, EventKind, RegisterReadWrite, TraceeEvent};
use vstd::prelude::*;

verus! {

/// The number of the signal by which a process stops for its tracer.
pub const SIGTRAP: i32 = 5;

/// The text that asks the operator for a command.
pub const PROMPT: &'static str = "debugger> ";

/// Where a session stands.
#[derive(Clone, Copy, Debug, PartialEq, Eq, Structural)]
pub enum SessionState {
    /// The first stop of the traced process has not been seen yet.
    Attaching,
    /// The traced process is stopped and the next command may be taken.
    Ready,
    /// The session has ended in good order.
    Exited,
    /// The session has ended with an error.
    Errored,
}

/// What ends a session at once. None of these is tried again.
#[derive(Clone, Debug, PartialEq, Eq)]
pub enum SessionError {
    /// The first event of the traced process was not a stop by the trap
    /// signal.
    UnexpectedEvent(TraceeEvent),
    /// Waiting for the traced process, or letting it run, failed with this
    /// error number.
    Tracing(i32),
    /// The input source failed other than by an interrupt or its end; the
    /// text is its own account of the failure.
    Input(String),
}

/// What the input source gave when it was asked for a line.
#[derive(Clone, Debug, PartialEq, Eq)]
pub enum Input {
    /// A line of text, without its line end.
    Line(String),
    /// The operator cancelled the input.
    Interrupted,
    /// There is no more input.
    EndOfInput,
    /// The input source failed; the text is its own account of the failure.
    Failed(String),
}

/// What the operator is told.
#[derive(Clone, Debug, PartialEq, Eq)]
pub enum Report {
    /// The debugger is attached to the process with this identifier.
    Attached(i32),
    /// The traced process has ended.
    DebuggeeExited,
    /// The traced process reported this event and goes on living.
    Event(String),
    /// The register that was read holds this value.
    Value(u64),
    /// The register was written.
    RegisterUpdated,
    /// The register could not be read or written.
    RegisterFailed(RegisterError),
    /// The line was no command.
    Rejected(CommandError),
}

/// What the session does after a command.
#[derive(Clone, Debug, PartialEq, Eq)]
pub enum Next {
    /// Ask for the next command.
    Prompt,
    /// End the session in good order.
    Finish,
    /// End the session with this error.
    Abort(SessionError),
}

/// What came of one command: what to tell the operator, if anything, and how
/// the session goes on.
#[derive(Clone, Debug, PartialEq, Eq)]
pub struct Turn {
    pub report: Option<Report>,
    pub next: Next,
}

/// What one answer of the input source asks for.
#[derive(Clone, Debug, PartialEq, Eq)]
pub enum Prompted {
    /// A command to carry out, and the line to keep for recall if the
    /// operator typed one.
    Command(DebuggerCommand, Option<String>),
    /// The line was no command: tell the operator and ask again.
    Rejected(CommandError),
    /// The input source failed; the session cannot go on.
    Failed(String),
}

/// What came of one answer of the input source.
#[derive(Clone, Debug, PartialEq, Eq)]
pub struct Step {
    /// What to tell the operator, if anything.
    pub report: Option<Report>,
    /// The line to keep for recall: the one that was typed, if it was a
    /// command.
    pub remember: Option<String>,
    /// How the session goes on.
    pub next: Next,
}

/// The state in which a session is after a command.
pub open spec fn state_after(next: Next) -> SessionState {
    match next {
        Next::Prompt => SessionState::Ready,
        Next::Finish => SessionState::Exited,
        Next::Abort(_) => SessionState::Errored,
    }
}

/// What the first event of the traced process comes to. Only a stop by the
/// trap signal attaches the debugger; every other event, and a failure to
/// wait, ends the session.
pub open spec fn attached(waited: Result<TraceeEvent, i32>) -> Result<Report, SessionError> {
    match waited {
        Ok(event) => match event.kind {
            EventKind::Stopped { pid, signal } => if signal == SIGTRAP {
                Ok(Report::Attached(pid))
            } else {
                Err(SessionError::UnexpectedEvent(event))
            },
            _ => Err(SessionError::UnexpectedEvent(event)),
        },
        Err(errno) => Err(SessionError::Tracing(errno)),
    }
}

/// What the event after a resume comes to. The end of the traced process
/// ends the session in good order; any other event is shown and the session
/// goes on; a failure to wait ends the session with an error.
pub open spec fn continued(waited: Result<TraceeEvent, i32>) -> Turn {
    match waited {
        Ok(event) => match event.kind {
            EventKind::Exited { pid, code } => Turn {
                report: Some(Report::DebuggeeExited),
                next: Next::Finish,
            },
            _ => Turn { report: Some(Report::Event(event.text)), next: Next::Prompt },
        },
        Err(errno) => Turn { report: None, next: Next::Abort(SessionError::Tracing(errno)) },
    }
}

/// Decides what the event after a resume comes to.
pub fn continue_outcome(waited: Result<TraceeEvent, i32>) -> (turn: Turn)
    ensures
        turn == continued(waited),
{
    match waited {
        Ok(event) => {
            match event.kind {
                EventKind::Exited { pid: _, code: _ } => Turn {
                    report: Some(Report::DebuggeeExited),
                    next: Next::Finish,
                },
                _ => Turn { report: Some(Report::Event(event.text)), next: Next::Prompt },
            }
        },
        Err(errno) => Turn { report: None, next: Next::Abort(SessionError::Tracing(errno)) },
    }
}

/// What a failed resume comes to: the session ends with an error.
pub fn resume_failure(errno: i32) -> (turn: Turn)
    ensures
        turn == (Turn { report: None, next: Next::Abort(SessionError::Tracing(errno)) }),
{
    Turn { report: None, next: Next::Abort(SessionError::Tracing(errno)) }
}

/// What reading a register comes to: the value is shown, or the error is,
/// and the session goes on either way.
pub fn read_outcome(read: Result<u64, RegisterError>) -> (turn: Turn)
    ensures
        turn.next == Next::Prompt,
        turn.report == Some(
            match read {
                Ok(value) => Report::Value(value),
                Err(error) => Report::RegisterFailed(error),
            },
        ),
{
    match read {
        Ok(value) => Turn { report: Some(Report::Value(value)), next: Next::Prompt },
        Err(error) => Turn { report: Some(Report::RegisterFailed(error)), next: Next::Prompt },
    }
}

/// What writing a register comes to: the write is confirmed, or the error
/// is shown, and the session goes on either way.
pub fn write_report(written: Result<(), RegisterError>) -> (turn: Turn)
    ensures
        turn.next == Next::Prompt,
        turn.report == Some(
            match written {
                Ok(done) => Report::RegisterUpdated,
                Err(error) => Report::RegisterFailed(error),
            },
        ),
{
    match written {
        Ok(_) => Turn { report: Some(Report::RegisterUpdated), next: Next::Prompt },
        Err(error) => Turn { report: Some(Report::RegisterFailed(error)), next: Next::Prompt },
    }
}

/// Whether `prompted` is what `input` asks for. A line is the command it
/// parses to, kept for recall, or is rejected with the parser's error; an
/// interrupt and the end of the input both stand for the command `Exit`,
/// with nothing to recall; a failure of the input source is passed on.
pub open spec fn asked_by(input: Input, prompted: Prompted) -> bool {
    match input {
        Input::Line(line) => match command_of(line@) {
            Ok(command) => prompted == Prompted::Command(command, Some(line)),
            Err(fault) => prompted matches Prompted::Rejected(error) && error@ == fault,
        },
        Input::Interrupted => prompted == Prompted::Command(DebuggerCommand::Exit, None),
        Input::EndOfInput => prompted == Prompted::Command(DebuggerCommand::Exit, None),
        Input::Failed(text) => prompted == Prompted::Failed(text),
    }
}

/// Decides what one answer of the input source asks for.
pub fn next_command(input: Input) -> (prompted: Prompted)
    ensures
        asked_by(input, prompted),
{
    match input {
        Input::Line(line) => match parse_command(line.as_str()) {
            Ok(command) => Prompted::Command(command, Some(line)),
            Err(error) => Prompted::Rejected(error),
        },
        Input::Interrupted => Prompted::Command(DebuggerCommand::Exit, None),
        Input::EndOfInput => Prompted::Command(DebuggerCommand::Exit, None),
        Input::Failed(text) => Prompted::Failed(text),
    }
}

/// What a resume and the wait that follows it come to. The wait is made
/// only if the resume succeeded; a failed resume ends the session with an
/// error.
pub open spec fn resumed(resumed: Result<(), i32>, waited: Result<TraceeEvent, i32>) -> Turn {
    match resumed {
        Ok(_) => continued(waited),
        Err(errno) => Turn { report: None, next: Next::Abort(SessionError::Tracing(errno)) },
    }
}

/// Whether `turn` can come of `command`. What the traced process does is
/// not for the debugger to say, so several turns can come of one command;
/// this tells which.
///
/// `Continue` comes to what the resume and the event after it come to.
/// `Exit` ends the session in good order and reports nothing. A read shows
/// a value and a write is confirmed, or either shows that the state of the
/// process was not to be had; after both the session asks for the next
/// command, whatever happened.
pub open spec fn may_follow(command: DebuggerCommand, turn: Turn) -> bool {
    match command {
        DebuggerCommand::Continue => exists|done: Result<(), i32>, waited: Result<TraceeEvent, i32>|
            turn == #[trigger] resumed(done, waited),
        DebuggerCommand::Exit => turn == (Turn { report: None, next: Next::Finish }),
        DebuggerCommand::ReadRegister(register) => {
            &&& turn.next == Next::Prompt
            &&& turn.report matches Some(report)
            &&& report is Value || (report matches Report::RegisterFailed(error)
                && error is ProcessStateUnavailable)
        },
        DebuggerCommand::WriteRegister(register, value) => {
            &&& turn.next == Next::Prompt
            &&& turn.report matches Some(report)
            &&& report is RegisterUpdated || (report matches Report::RegisterFailed(error)
                && error is ProcessStateUnavailable)
        },
    }
}

/// Whether `step` can come of `input` in a session that is ready for a
/// command. A line that is a command is kept for recall and carried out; a
/// line that is none is rejected with the parser's error, is not kept, and
/// the session asks again. An interrupt and the end of the input end the
/// session as the command `Exit` does. A failure of the input source ends
/// the session with that failure.
pub open spec fn may_answer(input: Input, step: Step) -> bool {
    match input {
        Input::Line(line) => match command_of(line@) {
            Ok(command) => {
                &&& step.remember == Some(line)
                &&& may_follow(command, Turn { report: step.report, next: step.next })
            },
            Err(fault) => {
                &&& step.remember is None
                &&& step.next == Next::Prompt
                &&& step.report matches Some(Report::Rejected(error))
                &&& error@ == fault
            },
        },
        Input::Interrupted => step == (Step { report: None, remember: None, next: Next::Finish }),
        Input::EndOfInput => step == (Step { report: None, remember: None, next: Next::Finish }),
        Input::Failed(text) => step == (Step {
            report: None,
            remember: None,
            next: Next::Abort(SessionError::Input(text)),
        }),
    }
}

/// One debugging session over one traced process. The session alone holds
/// the identity of the process, from its start to its end.
pub struct Debugger {
    pid: i32,
    state: SessionState,
}

impl RegisterReadWrite for Debugger {

}

impl Debugger {
    /// The identifier of the traced process.
    pub closed spec fn spec_pid(&self) -> i32 {
        self.pid
    }

    /// Where the session stands.
    pub closed spec fn spec_state(&self) -> SessionState {
        self.state
    }

    /// A session over the process `pid`, which has asked to be traced and
    /// whose first stop has not been waited for yet.
    pub fn new(pid: i32) -> (debugger: Debugger)
        ensures
            debugger.pid() == pid,
            debugger.state() == SessionState::Attaching,
    {
        Debugger { pid, state: SessionState::Attaching }
    }

    /// The identifier of the traced process.
    #[verifier::when_used_as_spec(spec_pid)]
    pub fn pid(&self) -> (pid: i32)
        ensures
            pid == self.spec_pid(),
    {
        self.pid
    }

    /// Where the session stands.
    #[verifier::when_used_as_spec(spec_state)]
    pub fn state(&self) -> (state: SessionState)
        ensures
            state == self.spec_state(),
    {
        self.state
    }

    /// Waits for the first event of the traced process and takes it as
    /// `first_event` does. If it is a stop by the trap signal the session is
    /// ready for commands; on anything else it has ended with an error, and
    /// no command is taken.
    pub fn attach(&mut self) -> (outcome: Result<Report, SessionError>)
        requires
            old(self).state() == SessionState::Attaching,
        ensures
            final(self).pid() == old(self).pid(),
            final(self).state() == if outcome is Ok {
                SessionState::Ready
            } else {
                SessionState::Errored
            },
            exists|waited: Result<TraceeEvent, i32>| outcome == #[trigger] attached(waited),
    {
        let waited = wait_for_event(self.pid);
        self.first_event(waited)
    }

    /// Takes what waiting for the first event of the traced process gave.
    /// Only a stop by the trap signal makes the session ready, and the
    /// operator is told the process it is attached to; every other event,
    /// and a failure to wait, ends the session with an error.
    pub fn first_event(&mut self, waited: Result<TraceeEvent, i32>) -> (outcome: Result<
        Report,
        SessionError,
    >)
        requires
            old(self).state() == SessionState::Attaching,
        ensures
            final(self).pid() == old(self).pid(),
            final(self).state() == if outcome is Ok {
                SessionState::Ready
            } else {
                SessionState::Errored
            },
            outcome == attached(waited),
    {
        let outcome = match waited {
            Ok(event) => {
                match event.kind {
                    EventKind::Stopped { pid, signal } => {
                        if signal == SIGTRAP {
                            Ok(Report::Attached(pid))
                        } else {
                            Err(SessionError::UnexpectedEvent(event))
                        }
                    },
                    _ => Err(SessionError::UnexpectedEvent(event)),
                }
            },
            Err(errno) => Err(SessionError::Tracing(errno)),
        };
        if outcome.is_ok() {
            self.state = SessionState::Ready;
        } else {
            self.state = SessionState::Errored;
        }
        outcome
    }

    /// Carries out one command against the traced process.
    pub fn execute(&mut self, command: DebuggerCommand) -> (turn: Turn)
        requires
            old(self).state() == SessionState::Ready,
        ensures
            final(self).pid() == old(self).pid(),
            final(self).state() == state_after(turn.next),
            may_follow(command, turn),
    {
        let turn = match command {
            DebuggerCommand::Continue => {
                let done = resume(self.pid);
                match done {
                    Ok(_) => {
                        let waited = wait_for_event(self.pid);
                        let turn = continue_outcome(waited);
                        assert(turn == resumed(done, waited));
                        turn
                    },
                    Err(errno) => {
                        let turn = resume_failure(errno);
                        assert(turn == resumed(done, Err(errno)));
                        turn
                    },
                }
            },
            DebuggerCommand::Exit => Turn { report: None, next: Next::Finish },
            DebuggerCommand::ReadRegister(register) => {
                read_outcome(Self::read_register(self.pid, register))
            },
            DebuggerCommand::WriteRegister(register, value) => {
                write_report(Self::write_register(self.pid, register, value))
            },
        };
        self.state = match &turn.next {
            Next::Prompt => SessionState::Ready,
            Next::Finish => SessionState::Exited,
            Next::Abort(_) => SessionState::Errored,
        };
        turn
    }

    /// Takes one answer of the input source and does what it asks for.
    pub fn handle(&mut self, input: Input) -> (step: Step)
        requires
            old(self).state() == SessionState::Ready,
        ensures
            final(self).pid() == old(self).pid(),
            final(self).state() == state_after(step.next),
            may_answer(input, step),
    {
        match next_command(input) {
            Prompted::Command(command, remember) => {
                let turn = self.execute(command);
                Step { report: turn.report, remember, next: turn.next }
            },
            Prompted::Rejected(error) => Step {
                report: Some(Report::Rejected(error)),
                remember: None,
                next: Next::Prompt,
            },
            Prompted::Failed(text) => {
                self.state = SessionState::Errored;
                Step { report: None, remember: None, next: Next::Abort(SessionError::Input(text)) }
            },
        }
    }
}

/// An interrupt at the prompt ends the session as the command `Exit` does:
/// in good order, with nothing reported and nothing kept for recall. The end
/// of the input does the same.
pub proof fn lemma_interrupt_is_exit(input: Input, step: Step)
    requires
        input is Interrupted || input is EndOfInput,
        may_answer(input, step),
    ensures
        may_follow(DebuggerCommand::Exit, Turn { report: step.report, next: step.next }),
        state_after(step.next) == SessionState::Exited,
        step.remember is None,
{
}

/// A command on a register never ends the session, whatever becomes of it.
pub proof fn lemma_register_commands_go_on(command: DebuggerCommand, turn: Turn)
    requires
        command is ReadRegister || command is WriteRegister,
        may_follow(command, turn),
    ensures
        state_after(turn.next) == SessionState::Ready,
{
}

/// A line that is no command leaves the session ready for the next one and
/// is not kept for recall.
pub proof fn lemma_rejected_line_goes_on(line: String, step: Step)
    requires
        command_of(line@) is Err,
        may_answer(Input::Line(line), step),
    ensures
        state_after(step.next) == SessionState::Ready,
        step.remember is None,
{
}

} // verus!
