use crate::register::Register;
use crate::text::{
    decimal_u64, lemma_first_piece, parse_u64, split_at_blanks, split_blanks, starts_with,
    text_eq, texts,
};
use vstd::prelude::*;

verus! {

/// What the operator asks the debugger to do.
#[derive(Clone, Copy, Debug, PartialEq, Eq, Structural)]
pub enum DebuggerCommand {
    /// Let the traced process run until its next event.
    Continue,
    /// End the session.
    Exit,
    /// Show what a register holds.
    ReadRegister(Register),
    /// Put a value into a register.
    WriteRegister(Register, u64),
}

/// Why a line is no command. The operator may try again after any of these.
#[derive(Clone, Debug, PartialEq, Eq)]
pub enum CommandError {
    /// The line follows no rule of the grammar; it is kept for display.
    UnknownCommand(String),
    /// A `register` command lacks the name or the value it needs.
    Usage,
    /// No register goes by the name that was given.
    UnknownRegister(String),
    /// The value to write is no unsigned 64-bit decimal number.
    InvalidValue(String),
}

/// A `CommandError` as contracts see it, with each text as its characters.
pub enum CommandFault {
    UnknownCommand(Seq<char>),
    Usage,
    UnknownRegister(Seq<char>),
    InvalidValue(Seq<char>),
}

impl View for CommandError {
    type V = CommandFault;

    open spec fn view(&self) -> CommandFault {
        match self {
            CommandError::UnknownCommand(line) => CommandFault::UnknownCommand(line@),
            CommandError::Usage => CommandFault::Usage,
            CommandError::UnknownRegister(name) => CommandFault::UnknownRegister(name@),
            CommandError::InvalidValue(value) => CommandFault::InvalidValue(value@),
        }
    }
}

impl CommandFault {
    /// The text that tells the operator what was wrong with the line.
    pub open spec fn message(self) -> Seq<char> {
        match self {
            CommandFault::UnknownCommand(line) => "Unknown command: "@ + line,
            CommandFault::Usage => "register read <register> OR register write <register> <value>)"@,
            CommandFault::UnknownRegister(name) => "Unknown register: "@ + name,
            CommandFault::InvalidValue(value) => value + " is not a valid register value"@,
        }
    }
}

impl CommandError {
    /// The text that tells the operator what was wrong with the line.
    pub fn message(&self) -> (text: String)
        ensures
            text@ == self@.message(),
    {
        match self {
            CommandError::UnknownCommand(line) => {
                String::from_str("Unknown command: ").concat(line.as_str())
            },
            CommandError::Usage => {
                String::from_str("register read <register> OR register write <register> <value>)")
            },
            CommandError::UnknownRegister(name) => {
                String::from_str("Unknown register: ").concat(name.as_str())
            },
            CommandError::InvalidValue(value) => {
                value.clone().concat(" is not a valid register value")
            },
        }
    }
}

/// What `register read` followed by these pieces asks for. The pieces are
/// those of the whole line: the name is the third.
pub open spec fn read_command_of(pieces: Seq<Seq<char>>) -> Result<DebuggerCommand, CommandFault> {
    if pieces.len() < 3 {
        Err(CommandFault::Usage)
    } else {
        match Register::named(pieces[2]) {
            Some(register) => Ok(DebuggerCommand::ReadRegister(register)),
            None => Err(CommandFault::UnknownRegister(pieces[2])),
        }
    }
}

/// What `register write` followed by these pieces asks for. The pieces are
/// those of the whole line: the name is the third and the value the fourth.
/// A value that is no number is reported before a name that is no register.
pub open spec fn write_command_of(pieces: Seq<Seq<char>>) -> Result<DebuggerCommand, CommandFault> {
    if pieces.len() < 4 {
        Err(CommandFault::Usage)
    } else {
        match decimal_u64(pieces[3]) {
            None => Err(CommandFault::InvalidValue(pieces[3])),
            Some(value) => match Register::named(pieces[2]) {
                Some(register) => Ok(DebuggerCommand::WriteRegister(register, value)),
                None => Err(CommandFault::UnknownRegister(pieces[2])),
            },
        }
    }
}

/// The command that a line stands for.
///
/// A line that is a beginning of the word `continue`, the empty line among
/// them, is `Continue`; this is tested first. Otherwise the line is parted at
/// its blanks: the first piece has to be the whole word `register` and the
/// second `read` or `write`, and the pieces after those are the name and the
/// value. Pieces beyond these are not looked at. Every other line is an
/// unknown command.
pub open spec fn command_of(line: Seq<char>) -> Result<DebuggerCommand, CommandFault> {
    let pieces = split_at_blanks(line);
    if line.is_prefix_of("continue"@) {
        Ok(DebuggerCommand::Continue)
    } else if pieces[0] != "register"@ {
        Err(CommandFault::UnknownCommand(line))
    } else if pieces.len() >= 2 && pieces[1] == "read"@ {
        read_command_of(pieces)
    } else if pieces.len() >= 2 && pieces[1] == "write"@ {
        write_command_of(pieces)
    } else {
        Err(CommandFault::UnknownCommand(line))
    }
}

/// Whether `parsed` is what `expected` says, the texts compared by their
/// characters.
pub open spec fn agrees(
    parsed: Result<DebuggerCommand, CommandError>,
    expected: Result<DebuggerCommand, CommandFault>,
) -> bool {
    match parsed {
        Ok(command) => expected == Ok::<DebuggerCommand, CommandFault>(command),
        Err(error) => expected == Err::<DebuggerCommand, CommandFault>(error@),
    }
}

/// Turns one line of text, without its line end, into a command.
pub fn parse_command(line: &str) -> (parsed: Result<DebuggerCommand, CommandError>)
    ensures
        agrees(parsed, command_of(line@)),
{
    if starts_with("continue", line) {
        return Ok(DebuggerCommand::Continue);
    }
    let pieces = split_blanks(line);
    assert(texts(pieces@)[0] == pieces@[0]@);
    if !text_eq(pieces[0], "register") {
        return Err(CommandError::UnknownCommand(line.to_owned()));
    }
    if pieces.len() < 2 {
        return Err(CommandError::UnknownCommand(line.to_owned()));
    }
    assert(texts(pieces@)[1] == pieces@[1]@);
    if text_eq(pieces[1], "read") {
        if pieces.len() < 3 {
            return Err(CommandError::Usage);
        }
        assert(texts(pieces@)[2] == pieces@[2]@);
        match Register::from_str(pieces[2]) {
            Ok(register) => Ok(DebuggerCommand::ReadRegister(register)),
            Err(_) => Err(CommandError::UnknownRegister(pieces[2].to_owned())),
        }
    } else if text_eq(pieces[1], "write") {
        if pieces.len() < 4 {
            return Err(CommandError::Usage);
        }
        assert(texts(pieces@)[2] == pieces@[2]@);
        assert(texts(pieces@)[3] == pieces@[3]@);
        match parse_u64(pieces[3]) {
            None => Err(CommandError::InvalidValue(pieces[3].to_owned())),
            Some(value) => match Register::from_str(pieces[2]) {
                Ok(register) => Ok(DebuggerCommand::WriteRegister(register, value)),
                Err(_) => Err(CommandError::UnknownRegister(pieces[2].to_owned())),
            },
        }
    } else {
        Err(CommandError::UnknownCommand(line.to_owned()))
    }
}

/// Every beginning of the word `continue`, the empty line and the whole word
/// among them, is the command `Continue`.
pub proof fn lemma_continue_shorthand(line: Seq<char>)
    requires
        line.is_prefix_of("continue"@),
    ensures
        command_of(line) == Ok::<DebuggerCommand, CommandFault>(DebuggerCommand::Continue),
{
}

/// A line that is no beginning of `continue` and does not begin with
/// `register` is an unknown command, and the error holds the line as it was.
pub proof fn lemma_unknown_command(line: Seq<char>)
    requires
        !line.is_prefix_of("continue"@),
        !"register"@.is_prefix_of(line),
    ensures
        command_of(line) == Err::<DebuggerCommand, CommandFault>(
            CommandFault::UnknownCommand(line),
        ),
{
    lemma_first_piece(line);
    let first = split_at_blanks(line)[0];
    if first == "register"@ {
        assert(first.is_prefix_of(line));
    }
}

} // verus!
