use crate::register::{Register, RegisterError, RegisterSnapshot};
use nix::libc::user_regs_struct;
use nix::sys::ptrace;
use nix::sys::wait::{waitpid, WaitStatus};
use nix::unistd::Pid;
use vstd::prelude::*;

verus! {

/// What kind of change a traced process reported.
#[derive(Clone, Copy, Debug, PartialEq, Eq, Structural)]
pub enum EventKind {
    /// The process is alive and was stopped by the signal with this number.
    Stopped { pid: i32, signal: i32 },
    /// The process ended of its own accord with this exit code.
    Exited { pid: i32, code: i32 },
    /// Anything else.
    Other,
}

/// A change of state that a traced process reported, with the text by which
/// it is shown to the operator.
#[derive(Clone, Debug, PartialEq, Eq)]
pub struct TraceeEvent {
    pub kind: EventKind,
    pub text: String,
}

/// Blocks until the process changes state, by `nix::sys::wait::waitpid`
/// without options. Nothing is claimed of what comes back: it is the
/// operating system's answer. The kind tells a `Stopped` and an `Exited`
/// status from every other and copies their fields; the text is the status
/// as its `Debug` form writes it. An error is given as its error number.
#[verifier::external_body]
pub(crate) fn wait_for_event(pid: i32) -> (waited: Result<TraceeEvent, i32>) {
    let status = waitpid(Pid::from_raw(pid), None).map_err(|errno| errno as i32)?;
    let kind = match status {
        WaitStatus::Stopped(pid, signal) => EventKind::Stopped {
            pid: pid.as_raw(),
            signal: signal as i32,
        },
        WaitStatus::Exited(pid, code) => EventKind::Exited { pid: pid.as_raw(), code },
        _ => EventKind::Other,
    };
    Ok(TraceeEvent { kind, text: format!("{:?}", status) })
}

/// Lets the stopped process run on and hands it no signal, by
/// `nix::sys::ptrace::cont`. Nothing is claimed of the outcome. An error is
/// given as its error number.
#[verifier::external_body]
pub(crate) fn resume(pid: i32) -> (resumed: Result<(), i32>) {
    ptrace::cont(Pid::from_raw(pid), None).map_err(|errno| errno as i32)
}

/// Fetches the saved registers of the stopped process, by
/// `nix::sys::ptrace::getregs`, and copies them field by field. Nothing is
/// claimed of what they hold. An error is given as its error number.
#[verifier::external_body]
pub(crate) fn fetch_registers(pid: i32) -> (fetched: Result<RegisterSnapshot, i32>) {
    let r = ptrace::getregs(Pid::from_raw(pid)).map_err(|errno| errno as i32)?;
    Ok(RegisterSnapshot {
        r15: r.r15, r14: r.r14, r13: r.r13, r12: r.r12, rbp: r.rbp, rbx: r.rbx,
        r11: r.r11, r10: r.r10, r9: r.r9, r8: r.r8, rax: r.rax, rcx: r.rcx,
        rdx: r.rdx, rsi: r.rsi, rdi: r.rdi, orig_rax: r.orig_rax, rip: r.rip,
        cs: r.cs, eflags: r.eflags, rsp: r.rsp, ss: r.ss, fs_base: r.fs_base,
        gs_base: r.gs_base, ds: r.ds, es: r.es, fs: r.fs, gs: r.gs,
    })
}

/// Copies the snapshot field by field and stores it as the saved registers
/// of the stopped process, by `nix::sys::ptrace::setregs`. Nothing is claimed
/// of the outcome. An error is given as its error number.
#[verifier::external_body]
pub(crate) fn store_registers(pid: i32, s: &RegisterSnapshot) -> (stored: Result<(), i32>) {
    let raw = user_regs_struct {
        r15: s.r15, r14: s.r14, r13: s.r13, r12: s.r12, rbp: s.rbp, rbx: s.rbx,
        r11: s.r11, r10: s.r10, r9: s.r9, r8: s.r8, rax: s.rax, rcx: s.rcx,
        rdx: s.rdx, rsi: s.rsi, rdi: s.rdi, orig_rax: s.orig_rax, rip: s.rip,
        cs: s.cs, eflags: s.eflags, rsp: s.rsp, ss: s.ss, fs_base: s.fs_base,
        gs_base: s.gs_base, ds: s.ds, es: s.es, fs: s.fs, gs: s.gs,
    };
    ptrace::setregs(Pid::from_raw(pid), raw).map_err(|errno| errno as i32)
}

/// What reading `register` comes to, given what fetching the registers gave.
pub open spec fn value_read(fetched: Result<RegisterSnapshot, i32>, register: Register) -> Result<
    u64,
    RegisterError,
> {
    match fetched {
        Ok(snapshot) => Ok(snapshot.value(register)),
        Err(errno) => Err(RegisterError::ProcessStateUnavailable(errno)),
    }
}

/// Picks the value of `register` out of what fetching the registers gave.
pub fn read_from(fetched: Result<RegisterSnapshot, i32>, register: Register) -> (read: Result<
    u64,
    RegisterError,
>)
    ensures
        read == value_read(fetched, register),
{
    match fetched {
        Ok(snapshot) => Ok(snapshot.get(register)),
        Err(errno) => Err(RegisterError::ProcessStateUnavailable(errno)),
    }
}

/// What is to be stored for a write of `value` to `register`, given what
/// fetching the registers gave: the snapshot as fetched but for that one
/// register.
pub open spec fn snapshot_written(
    fetched: Result<RegisterSnapshot, i32>,
    register: Register,
    value: u64,
) -> Result<RegisterSnapshot, RegisterError> {
    match fetched {
        Ok(snapshot) => Ok(snapshot.with(register, value)),
        Err(errno) => Err(RegisterError::ProcessStateUnavailable(errno)),
    }
}

/// Puts `value` for `register` into what fetching the registers gave.
pub fn write_into(fetched: Result<RegisterSnapshot, i32>, register: Register, value: u64) -> (to_store:
    Result<RegisterSnapshot, RegisterError>)
    ensures
        to_store == snapshot_written(fetched, register, value),
{
    match fetched {
        Ok(snapshot) => {
            let mut snapshot = snapshot;
            snapshot.set(register, value);
            Ok(snapshot)
        },
        Err(errno) => Err(RegisterError::ProcessStateUnavailable(errno)),
    }
}

/// What a write comes to, given what storing the registers gave: it has
/// taken place only if the whole snapshot was stored.
pub fn write_outcome(stored: Result<(), i32>) -> (written: Result<(), RegisterError>)
    ensures
        written == store_outcome(stored),
{
    match stored {
        Ok(_) => Ok(()),
        Err(errno) => Err(RegisterError::ProcessStateUnavailable(errno)),
    }
}

/// Access to the registers of a stopped traced process, one register at a
/// time. Nothing is kept between two calls: each fetches the saved state
/// anew.
pub trait RegisterReadWrite {
    /// Reads one register of the process `pid`: fetches its saved registers
    /// and picks the one asked for. What was fetched lies with the process;
    /// whatever it was, the result is what `value_read` makes of it: the
    /// value that the fetched registers hold for `register`, or, if they
    /// could not be fetched, that the state of the process is unavailable.
    fn read_register(pid: i32, register: Register) -> (read: Result<u64, RegisterError>)
        ensures
            exists|fetched: Result<RegisterSnapshot, i32>|
                read == #[trigger] value_read(fetched, register),
    {
        let fetched = fetch_registers(pid);
        read_from(fetched, register)
    }

    /// Writes one register of the process `pid`: fetches its saved
    /// registers, replaces the one asked for and stores them all again.
    /// What the fetch and the store give lies with the process; whatever
    /// they gave, the result is what `write_result` makes of it: the write
    /// is reported as done only if the registers were fetched and the whole
    /// snapshot was stored, and a failure of either is reported as the state
    /// of the process being unavailable.
    fn write_register(pid: i32, register: Register, value: u64) -> (written: Result<
        (),
        RegisterError,
    >)
        ensures
            exists|fetched: Result<RegisterSnapshot, i32>, stored: Result<(), i32>|
                written == #[trigger] write_result(fetched, register, value, stored),
    {
        let fetched = fetch_registers(pid);
        match write_into(fetched, register, value) {
            Ok(snapshot) => {
                let stored = store_registers(pid, &snapshot);
                let written = write_outcome(stored);
                assert(written == write_result(fetched, register, value, stored));
                written
            },
            Err(error) => {
                assert(Err::<(), RegisterError>(error) == write_result(
                    fetched,
                    register,
                    value,
                    Ok(()),
                ));
                Err(error)
            },
        }
    }
}

/// What storing the registers comes to: the write has taken place if they
/// were stored, and else the state of the process is unavailable, with the
/// error number that the store gave.
pub open spec fn store_outcome(stored: Result<(), i32>) -> Result<(), RegisterError> {
    match stored {
        Ok(_) => Ok(()),
        Err(errno) => Err(RegisterError::ProcessStateUnavailable(errno)),
    }
}

/// What a write of `value` to `register` comes to, given what fetching the
/// registers gave and what storing them gave. If the fetch failed, nothing
/// is stored and the failure of the fetch is the result, whatever `stored`
/// is; else the snapshot to store is the one fetched with that one register
/// replaced, and the store decides.
pub open spec fn write_result(
    fetched: Result<RegisterSnapshot, i32>,
    register: Register,
    value: u64,
    stored: Result<(), i32>,
) -> Result<(), RegisterError> {
    match snapshot_written(fetched, register, value) {
        Ok(snapshot) => store_outcome(stored),
        Err(error) => Err(error),
    }
}

/// A value written to a register is the value read from it afterwards, as
/// long as the process gives back the registers that were stored.
pub proof fn lemma_write_read_round_trip(fetched: RegisterSnapshot, register: Register, value: u64)
    ensures
        snapshot_written(Ok(fetched), register, value) matches Ok(stored) && value_read(
            Ok(stored),
            register,
        ) == Ok::<u64, RegisterError>(value),
{
}

/// Reading `rflags` gives what the fetched registers hold as `eflags`.
pub proof fn lemma_read_rflags(fetched: RegisterSnapshot)
    ensures
        value_read(Ok(fetched), Register::rflags) == Ok::<u64, RegisterError>(fetched.eflags),
{
}

} // verus!
