//! Trusted boundary to the OS tracing facility.
//!
//! Each function here wraps exactly one call into the `nix` crate. The
//! tracee is another process: what a wait or a register read returns depends
//! on that process's state, so these contracts promise nothing about the
//! values that come back; the verified code in [`crate::dbg`] states what
//! holds of every outcome. Errors are handed back as the raw `errno` value.

use vstd::prelude::*;

verus! {

/// The architecture's full register file, as the OS hands it out.
/// Declared so that a register snapshot can be carried through the library
/// and back to `setregs`; the library reads it only through [`regs_rip`].
#[verifier::external_type_specification]
#[verifier::external_body]
pub struct ExUserRegs(nix::libc::user_regs_struct);

/// What a wait on the target reported: the tracee stopped under trace,
/// exited with a code, was terminated by a signal, or something else
/// (a resume notice, a ptrace event, or no change).
#[derive(Clone, Copy, Debug, PartialEq, Eq, Structural)]
pub enum WaitEvent {
    /// Tracee is suspended and available for inspection (signal number).
    Stopped(i32),
    /// Tracee exited on its own (exit code).
    Exited(i32),
    /// Tracee was terminated by a signal (signal number).
    Signaled(i32),
    /// Any other wait status.
    Other,
}

/// Relies on nix::sys::wait::waitpid: blocks until the child changes state
/// and reports how. Which variant comes back depends on the tracee alone.
#[verifier::external_body]
pub(crate) fn wait_target(pid: i32) -> (r: Result<WaitEvent, i32>)
{
    match nix::sys::wait::waitpid(nix::unistd::Pid::from_raw(pid), None) {
        Ok(nix::sys::wait::WaitStatus::Stopped(_, sig)) => Ok(WaitEvent::Stopped(sig as i32)),
        Ok(nix::sys::wait::WaitStatus::Exited(_, code)) => Ok(WaitEvent::Exited(code)),
        Ok(nix::sys::wait::WaitStatus::Signaled(_, sig, _)) => Ok(WaitEvent::Signaled(sig as i32)),
        Ok(_) => Ok(WaitEvent::Other),
        Err(e) => Err(e as i32),
    }
}

/// Relies on nix::sys::ptrace::read (PTRACE_PEEKDATA): returns the 8-byte
/// word of tracee memory at `addr`. The value depends on the tracee's
/// address space, so nothing is promised of it.
#[verifier::external_body]
pub(crate) fn read_word(pid: i32, addr: u64) -> (r: Result<u64, i32>)
{
    match nix::sys::ptrace::read(nix::unistd::Pid::from_raw(pid), addr as nix::sys::ptrace::AddressType) {
        Ok(v) => Ok(v as u64),
        Err(e) => Err(e as i32),
    }
}

/// Relies on nix::sys::ptrace::write (PTRACE_POKEDATA): writes the 8-byte
/// word `val` into tracee memory at `addr`.
#[verifier::external_body]
pub(crate) fn write_word(pid: i32, addr: u64, val: u64) -> (r: Result<(), i32>)
{
    match nix::sys::ptrace::write(nix::unistd::Pid::from_raw(pid), addr as nix::sys::ptrace::AddressType, val as i64) {
        Ok(()) => Ok(()),
        Err(e) => Err(e as i32),
    }
}

/// Relies on nix::sys::ptrace::cont (PTRACE_CONT): resumes the stopped
/// tracee without delivering a signal.
#[verifier::external_body]
pub(crate) fn cont_target(pid: i32) -> (r: Result<(), i32>)
{
    match nix::sys::ptrace::cont(nix::unistd::Pid::from_raw(pid), None) {
        Ok(()) => Ok(()),
        Err(e) => Err(e as i32),
    }
}

/// Relies on nix::sys::ptrace::step (PTRACE_SINGLESTEP): lets the stopped
/// tracee execute one instruction.
#[verifier::external_body]
pub(crate) fn step_target(pid: i32) -> (r: Result<(), i32>)
{
    match nix::sys::ptrace::step(nix::unistd::Pid::from_raw(pid), None) {
        Ok(()) => Ok(()),
        Err(e) => Err(e as i32),
    }
}

/// Relies on nix::sys::ptrace::kill (PTRACE_KILL): asks the OS to deliver
/// SIGKILL to the tracee. The tracee is not assumed dead afterwards; the
/// caller must wait and observe.
#[verifier::external_body]
pub(crate) fn kill_target(pid: i32) -> (r: Result<(), i32>)
{
    match nix::sys::ptrace::kill(nix::unistd::Pid::from_raw(pid)) {
        Ok(()) => Ok(()),
        Err(e) => Err(e as i32),
    }
}

/// Relies on nix::sys::ptrace::getregs (PTRACE_GETREGS): snapshots the
/// stopped tracee's register file.
#[verifier::external_body]
pub(crate) fn get_regs(pid: i32) -> (r: Result<nix::libc::user_regs_struct, i32>)
{
    match nix::sys::ptrace::getregs(nix::unistd::Pid::from_raw(pid)) {
        Ok(regs) => Ok(regs),
        Err(e) => Err(e as i32),
    }
}

/// Relies on nix::sys::ptrace::setregs (PTRACE_SETREGS): writes a register
/// snapshot back into the stopped tracee.
#[verifier::external_body]
pub(crate) fn set_regs(pid: i32, regs: &nix::libc::user_regs_struct) -> (r: Result<(), i32>)
{
    match nix::sys::ptrace::setregs(nix::unistd::Pid::from_raw(pid), *regs) {
        Ok(()) => Ok(()),
        Err(e) => Err(e as i32),
    }
}

/// Relies on the `rip` field of libc's user_regs_struct: the program
/// counter of the snapshot.
#[verifier::external_body]
pub(crate) fn regs_rip(regs: &nix::libc::user_regs_struct) -> (r: u64)
{
    regs.rip
}

/// Relies on the `rip` field of libc's user_regs_struct: replaces the
/// program counter of the snapshot.
#[verifier::external_body]
pub(crate) fn set_rip(regs: &mut nix::libc::user_regs_struct, v: u64)
{
    regs.rip = v;
}

} // verus!
