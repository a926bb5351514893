//! The debugger core: a typed state machine over the target process, the
//! single-slot breakpoint engine, and the command dispatcher.
//!
//! A [`ZDbg<NotRunning>`] has no live target; a [`ZDbg<Running>`] owns one.
//! Each transition consumes the old debugger value and produces a new one
//! carrying the same [`DbgInfo`], so two live handles to one session never
//! exist. The dispatcher maps a tokenized command line to an operation of
//! the current state and returns the next state — or, for `run`, hands the
//! session back to the caller as [`Flow::Spawn`], since only the caller can
//! create the traced child process. Once the caller has forked and execed
//! the target, [`ZDbg::<NotRunning>::do_run`] completes the launch.
//!
//! Advisory output is returned as [`Report`] values rather than printed:
//! the caller renders them; tests assert on them.

use vstd::prelude::*;
use crate::addr::{get_break_addr, spec_get_break_addr};
use crate::trace::{
    WaitEvent, wait_target, read_word, write_word, cont_target, step_target, kill_target,
    get_regs, set_regs, regs_rip, set_rip,
};
use crate::word::{patch_word, spec_patched};

verus! {

/// The bookkeeping shared by every debugger state: the target's process
/// identifier (0 while no process exists), the single breakpoint slot —
/// an optional address plus the original word saved while the trap byte
/// is patched in — and the target executable's path.
pub struct DbgInfo {
    /// Process identifier of the target; 0 when no target exists yet.
    pub pid: i32,
    /// The one recorded breakpoint address, if any.
    pub brk_addr: Option<u64>,
    /// The original memory word at the breakpoint address, saved by the
    /// last successful install; meaningful only while the trap is patched
    /// into the target's memory.
    pub brk_val: u64,
    /// Path of the target executable.
    pub filename: String,
}

/// Marker: a target process is running under trace.
pub struct Running;

/// Marker: no target process is running.
pub struct NotRunning;

/// The debugger. `ZDbg<Running>` owns a live traced target;
/// `ZDbg<NotRunning>` owns none. Methods that need a live target exist
/// only on `ZDbg<Running>`.
pub struct ZDbg<T> {
    pub info: DbgInfo,
    pub state_tag: T,
}

/// The session state between commands: a debugger in one of its two
/// non-terminal states, or the terminal `Exit` marker on which the
/// surrounding read loop ends the session.
pub enum State {
    Running(ZDbg<Running>),
    NotRunning(ZDbg<NotRunning>),
    Exit,
}

/// What one dispatched command asks of the surrounding loop: continue with
/// the next state, or fork-and-exec the target (tracing itself, with
/// address randomization disabled) and then call
/// [`ZDbg::<NotRunning>::do_run`] with the child's process id.
pub enum Flow {
    Next(State),
    Spawn(ZDbg<NotRunning>),
}

/// Advisory output of the core, rendered by the surrounding loop.
pub enum Report {
    /// The command summary was requested.
    Help,
    /// A command that needs a live target was issued with none running.
    NoTarget,
    /// `run` was issued while the target is already running.
    AlreadyRunning,
    /// A `break` was rejected: this address is already recorded.
    BreakpointExists(u64),
    /// A `break` was rejected: no valid address expression was given.
    BadBreakCommand,
    /// A breakpoint was installed: the word at `addr` went from `before`
    /// to `after`.
    Patched { addr: u64, before: u64, after: u64 },
    /// Reading target memory at `addr` failed; the target is unmodified.
    PeekFailed { addr: u64, errno: i32 },
    /// Writing target memory at `addr` failed; the target is unmodified.
    PokeFailed { addr: u64, errno: i32 },
    /// The target exited or was terminated by a signal.
    TargetExited,
    /// The target's register file, as requested by `registers`.
    Regs(nix::libc::user_regs_struct),
}

/// A session-ending error.
#[derive(Clone, Copy, Debug, PartialEq, Eq, Structural)]
pub enum DbgError {
    /// The target exited or was signaled before its first stop.
    LaunchFailed,
    /// A wait reported a status the protocol has no answer to.
    InvalidStatus,
    /// A trace syscall failed (the raw errno).
    Trace(i32),
}

/// `run` and its abbreviation.
pub open spec fn is_run_cmd(c: Seq<char>) -> bool {
    c == "run"@ || c == "r"@
}

/// `break` and its abbreviation.
pub open spec fn is_break_cmd(c: Seq<char>) -> bool {
    c == "break"@ || c == "b"@
}

/// `exit`.
pub open spec fn is_exit_cmd(c: Seq<char>) -> bool {
    c == "exit"@
}

/// `continue` and `stepi` with their abbreviations: the commands that
/// resume execution of a live target.
pub open spec fn is_resume_cmd(c: Seq<char>) -> bool {
    c == "continue"@ || c == "c"@ || c == "stepi"@ || c == "s"@
}

/// `registers` and its abbreviation.
pub open spec fn is_regs_cmd(c: Seq<char>) -> bool {
    c == "registers"@ || c == "regs"@
}

/// `help` and its abbreviation.
pub open spec fn is_help_cmd(c: Seq<char>) -> bool {
    c == "help"@ || c == "h"@
}

/// Effect of recording a breakpoint address on the single slot: a request
/// while an address is already recorded fails and changes nothing; else it
/// succeeds exactly when the command carries a valid address expression.
pub open spec fn spec_record_addr(prev: Option<u64>, cmd: Seq<Seq<char>>) -> (bool, Option<u64>) {
    if prev is Some {
        (false, prev)
    } else {
        match spec_get_break_addr(cmd) {
            Some(a) => (true, Some(a)),
            None => (false, None),
        }
    }
}

/// The session still owns the same target: the state is non-terminal and
/// process id, breakpoint address and target path are unchanged. (The
/// saved original word may differ: stepping over a breakpoint re-reads
/// and re-saves it.)
pub open spec fn keeps_target(st: State, info: DbgInfo) -> bool {
    match st {
        State::Running(z) => z.info.pid == info.pid && z.info.brk_addr == info.brk_addr
            && z.info.filename@ == info.filename@,
        State::NotRunning(z) => z.info.pid == info.pid && z.info.brk_addr == info.brk_addr
            && z.info.filename@ == info.filename@,
        State::Exit => false,
    }
}

/// Length and leading character of every command word, so that the
/// dispatcher can tell the words apart.
proof fn lemma_cmd_words()
    ensures
        "run"@.len() == 3 && "run"@[0] == 'r',
        "r"@.len() == 1 && "r"@[0] == 'r',
        "break"@.len() == 5 && "break"@[0] == 'b',
        "b"@.len() == 1 && "b"@[0] == 'b',
        "exit"@.len() == 4 && "exit"@[0] == 'e',
        "continue"@.len() == 8 && "continue"@[0] == 'c',
        "c"@.len() == 1 && "c"@[0] == 'c',
        "stepi"@.len() == 5 && "stepi"@[0] == 's',
        "s"@.len() == 1 && "s"@[0] == 's',
        "registers"@.len() == 9 && "registers"@[0] == 'r',
        "regs"@.len() == 4 && "regs"@[0] == 'r',
        "help"@.len() == 4 && "help"@[0] == 'h',
        "h"@.len() == 1 && "h"@[0] == 'h',
{
    reveal_strlit("run");
    reveal_strlit("r");
    reveal_strlit("break");
    reveal_strlit("b");
    reveal_strlit("exit");
    reveal_strlit("continue");
    reveal_strlit("c");
    reveal_strlit("stepi");
    reveal_strlit("s");
    reveal_strlit("registers");
    reveal_strlit("regs");
    reveal_strlit("help");
    reveal_strlit("h");
}

/// The report log only grew: every report already rendered is untouched
/// and keeps its place.
pub open spec fn appends(prev: Seq<Report>, now: Seq<Report>) -> bool {
    now.len() >= prev.len() && now.subrange(0, prev.len() as int) =~= prev
}

/// One install attempt at `addr` was reported: the patched word that was
/// written, or the tolerated memory failure.
pub open spec fn is_install_report(rep: Report, addr: u64) -> bool {
    match rep {
        Report::Patched { addr: a, .. } => a == addr,
        Report::PeekFailed { addr: a, .. } => a == addr,
        Report::PokeFailed { addr: a, .. } => a == addr,
        _ => false,
    }
}

/// The wait event says the target is gone: it exited on its own or was
/// terminated by a signal.
pub open spec fn spec_target_gone(ev: WaitEvent) -> bool {
    ev is Exited || ev is Signaled
}

/// Growth of the report log composes across consecutive calls.
proof fn lemma_appends_trans(a: Seq<Report>, b: Seq<Report>, c: Seq<Report>)
    requires
        appends(a, b),
        appends(b, c),
    ensures
        appends(a, c),
{
    assert forall|i: int| 0 <= i < a.len() implies c.subrange(0, a.len() as int)[i] == a[i] by {
        assert(b.subrange(0, a.len() as int)[i] == a[i]);
        assert(c.subrange(0, b.len() as int)[i] == b[i]);
    }
    assert(c.subrange(0, a.len() as int) =~= a);
}

/// Whether the wait event reports the target exited or signaled.
fn target_gone(ev: WaitEvent) -> (r: bool)
    ensures
        r == spec_target_gone(ev),
{
    match ev {
        WaitEvent::Exited(_) | WaitEvent::Signaled(_) => true,
        _ => false,
    }
}

/// The token equals the given word.
fn tok_is(t: &String, w: &str) -> (r: bool)
    ensures
        r == (t@ == w@),
{
    let ww: String = w.to_owned();
    t.eq(&ww)
}

impl<T> ZDbg<T> {
    /// Records a breakpoint address in the debugger's bookkeeping without
    /// touching target memory; valid in every state. Exactly one slot
    /// exists: while an address is recorded, every further request fails,
    /// reports the existing address, and changes nothing.
    pub fn set_break_addr(&mut self, cmd: &Vec<String>, out: &mut Vec<Report>) -> (r: bool)
        ensures
            appends(old(out)@, final(out)@),
            r == spec_record_addr(old(self).info.brk_addr, cmd.deep_view()).0,
            final(self).info.brk_addr == spec_record_addr(old(self).info.brk_addr, cmd.deep_view()).1,
            final(self).info.pid == old(self).info.pid,
            final(self).info.brk_val == old(self).info.brk_val,
            final(self).info.filename@ == old(self).info.filename@,
            old(self).info.brk_addr matches Some(a) ==> final(out)@ =~= old(out)@.push(
                Report::BreakpointExists(a),
            ),
            old(self).info.brk_addr is None && spec_get_break_addr(cmd.deep_view()) is None
                ==> final(out)@ =~= old(out)@.push(Report::BadBreakCommand),
            old(self).info.brk_addr is None && spec_get_break_addr(cmd.deep_view()) is Some
                ==> final(out)@ =~= old(out)@,
    {
        if let Some(addr) = self.info.brk_addr {
            out.push(Report::BreakpointExists(addr));
            false
        } else if let Some(addr) = get_break_addr(cmd) {
            self.info.brk_addr = Some(addr);
            true
        } else {
            out.push(Report::BadBreakCommand);
            false
        }
    }

    /// Handles the commands shared by every state: `help` requests the
    /// command summary; an unrecognized command is a no-op.
    pub fn do_cmd_common(&self, cmd: &Vec<String>, out: &mut Vec<Report>)
        requires
            cmd@.len() > 0,
        ensures
            appends(old(out)@, final(out)@),
            is_help_cmd(cmd.deep_view()[0]) ==> final(out)@ =~= old(out)@.push(Report::Help),
            !is_help_cmd(cmd.deep_view()[0]) ==> final(out)@ =~= old(out)@,
    {
        proof {
            assert(cmd.deep_view()[0] == cmd@[0]@);
        }
        if tok_is(&cmd[0], "help") || tok_is(&cmd[0], "h") {
            out.push(Report::Help);
        }
    }
}

impl ZDbg<NotRunning> {
    /// A fresh debugger for `filename`: no target process, no breakpoint
    /// recorded, nothing saved.
    pub fn new(filename: String) -> (r: Self)
        ensures
            r.info.pid == 0,
            r.info.brk_addr is None,
            r.info.brk_val == 0,
            r.info.filename@ == filename@,
    {
        ZDbg {
            info: DbgInfo { pid: 0, brk_addr: None, brk_val: 0, filename },
            state_tag: NotRunning,
        }
    }

    /// Dispatches one command while no target is running. `run` cannot be
    /// completed here — creating the traced child is the caller's part —
    /// so it returns [`Flow::Spawn`]; every other command is handled in
    /// full. Commands that need a live target are rejected with
    /// [`Report::NoTarget`] and leave the state unchanged.
    pub fn do_cmd(self, cmd: &Vec<String>, out: &mut Vec<Report>) -> (r: Result<Flow, DbgError>)
        ensures
            r is Ok,
            appends(old(out)@, final(out)@),
            cmd@.len() == 0 ==> (r matches Ok(Flow::Next(State::NotRunning(z))) && z.info
                == self.info && final(out)@ =~= old(out)@),
            cmd@.len() > 0 ==> ({
                let c0 = cmd.deep_view()[0];
                &&& is_run_cmd(c0) ==> (r matches Ok(Flow::Spawn(z)) && z.info == self.info
                    && final(out)@ =~= old(out)@)
                &&& is_break_cmd(c0) ==> (r matches Ok(Flow::Next(State::NotRunning(z)))
                    && z.info.brk_addr == spec_record_addr(self.info.brk_addr, cmd.deep_view()).1
                    && z.info.pid == self.info.pid && z.info.brk_val == self.info.brk_val
                    && z.info.filename@ == self.info.filename@
                    && (spec_record_addr(self.info.brk_addr, cmd.deep_view()).0 ==> final(out)@
                        =~= old(out)@)
                    && (self.info.brk_addr matches Some(a) ==> final(out)@ =~= old(out)@.push(
                        Report::BreakpointExists(a),
                    ))
                    && ((self.info.brk_addr is None && spec_get_break_addr(cmd.deep_view())
                        is None) ==> final(out)@ =~= old(out)@.push(Report::BadBreakCommand)))
                &&& is_exit_cmd(c0) ==> (r matches Ok(Flow::Next(State::Exit)) && final(out)@ =~= old(
                    out,
                )@)
                &&& (is_resume_cmd(c0) || is_regs_cmd(c0)) ==> (r matches Ok(
                    Flow::Next(State::NotRunning(z)),
                ) && z.info == self.info && final(out)@ =~= old(out)@.push(Report::NoTarget))
                &&& is_help_cmd(c0) ==> (r matches Ok(Flow::Next(State::NotRunning(z))) && z.info
                    == self.info && final(out)@ =~= old(out)@.push(Report::Help))
                &&& !(is_run_cmd(c0) || is_break_cmd(c0) || is_exit_cmd(c0) || is_resume_cmd(c0)
                    || is_regs_cmd(c0) || is_help_cmd(c0)) ==> (r matches Ok(
                    Flow::Next(State::NotRunning(z)),
                ) && z.info == self.info && final(out)@ =~= old(out)@)
            }),
    {
        proof {
            lemma_cmd_words();
        }
        if cmd.len() == 0 {
            return Ok(Flow::Next(State::NotRunning(self)));
        }
        let c0 = &cmd[0];
        proof {
            assert(cmd.deep_view()[0] == cmd@[0]@);
        }
        if tok_is(c0, "run") || tok_is(c0, "r") {
            Ok(Flow::Spawn(self))
        } else if tok_is(c0, "break") || tok_is(c0, "b") {
            let mut s = self;
            s.set_break_addr(cmd, out);
            Ok(Flow::Next(State::NotRunning(s)))
        } else if tok_is(c0, "exit") {
            Ok(Flow::Next(State::Exit))
        } else if tok_is(c0, "continue") || tok_is(c0, "c") || tok_is(c0, "stepi") || tok_is(
            c0,
            "s",
        ) || tok_is(c0, "registers") || tok_is(c0, "regs") {
            out.push(Report::NoTarget);
            Ok(Flow::Next(State::NotRunning(self)))
        } else {
            self.do_cmd_common(cmd, out);
            Ok(Flow::Next(State::NotRunning(self)))
        }
    }

    /// Decides a launch from the child's first wait event. A clean first
    /// stop adopts the child — its process id replaces any previous one,
    /// there is never more than one live target — installs the recorded
    /// breakpoint, if any, into the fresh image, and resumes the target.
    /// An exit or a termination by signal before the first stop is a
    /// launch failure; any other first event is a protocol violation.
    pub fn on_launch_event(self, child: i32, ev: WaitEvent, out: &mut Vec<Report>) -> (r: Result<
        State,
        DbgError,
    >)
        requires
            child > 0,
        ensures
            appends(old(out)@, final(out)@),
            spec_target_gone(ev) ==> r matches Err(DbgError::LaunchFailed),
            r matches Err(DbgError::LaunchFailed) ==> spec_target_gone(ev),
            ev is Other ==> r matches Err(DbgError::InvalidStatus),
            r matches Ok(st) ==> ev is Stopped && match st {
                State::Running(z) => z.info.pid == child && z.info.brk_addr == self.info.brk_addr
                    && z.info.filename@ == self.info.filename@,
                State::NotRunning(z) => z.info.pid == child && z.info.brk_addr
                    == self.info.brk_addr && z.info.filename@ == self.info.filename@,
                State::Exit => false,
            },
            ev is Stopped ==> (self.info.brk_addr matches Some(a) ==> final(out)@.len() > old(
                out,
            )@.len() && is_install_report(final(out)@[old(out)@.len() as int], a)),
            r matches Ok(State::NotRunning(_)) ==> final(out)@.len() > old(out)@.len()
                && final(out)@.last() == Report::TargetExited,
    {
        match ev {
            WaitEvent::Stopped(_) => {
                let ghost o0 = old(out)@;
                let mut dbg = ZDbg::<Running> { info: self.info, state_tag: Running };
                dbg.info.pid = child;
                dbg.set_break(out);
                let ghost o1 = out@;
                let res = dbg.do_continue(out);
                proof {
                    lemma_appends_trans(o0, o1, out@);
                }
                res
            },
            WaitEvent::Exited(_) | WaitEvent::Signaled(_) => Err(DbgError::LaunchFailed),
            WaitEvent::Other => Err(DbgError::InvalidStatus),
        }
    }

    /// Completes a launch after the caller has forked the target — the
    /// child traced itself, disabled address randomization, and execed
    /// `info.filename` — and passes the child's process id. Blocks until
    /// the child's first wait event and decides the launch from it; see
    /// [`Self::on_launch_event`] for the decision's contract per event.
    pub fn do_run(self, child: i32, out: &mut Vec<Report>) -> (r: Result<State, DbgError>)
        requires
            child > 0,
        ensures
            appends(old(out)@, final(out)@),
            r matches Ok(st) ==> match st {
                State::Running(z) => z.info.pid == child && z.info.brk_addr == self.info.brk_addr
                    && z.info.filename@ == self.info.filename@,
                State::NotRunning(z) => z.info.pid == child && z.info.brk_addr
                    == self.info.brk_addr && z.info.filename@ == self.info.filename@,
                State::Exit => false,
            },
            r matches Ok(st) ==> (self.info.brk_addr matches Some(a) ==> final(out)@.len() > old(
                out,
            )@.len() && is_install_report(final(out)@[old(out)@.len() as int], a)),
            r matches Ok(State::NotRunning(_)) ==> final(out)@.len() > old(out)@.len()
                && final(out)@.last() == Report::TargetExited,
    {
        match wait_target(child) {
            Err(e) => Err(DbgError::Trace(e)),
            Ok(ev) => self.on_launch_event(child, ev, out),
        }
    }
}

impl ZDbg<Running> {
    /// Dispatches one command while the target is running. Never asks for
    /// a launch: `run` is rejected with [`Report::AlreadyRunning`].
    pub fn do_cmd(self, cmd: &Vec<String>, out: &mut Vec<Report>) -> (r: Result<Flow, DbgError>)
        ensures
            r matches Ok(f) ==> !(f is Spawn),
            appends(old(out)@, final(out)@),
            cmd@.len() == 0 ==> (r matches Ok(Flow::Next(State::Running(z))) && z.info == self.info
                && final(out)@ =~= old(out)@),
            cmd@.len() > 0 ==> ({
                let c0 = cmd.deep_view()[0];
                &&& is_run_cmd(c0) ==> (r matches Ok(Flow::Next(State::Running(z))) && z.info
                    == self.info && final(out)@ =~= old(out)@.push(Report::AlreadyRunning))
                &&& is_break_cmd(c0) ==> (r matches Ok(Flow::Next(State::Running(z)))
                    && z.info.pid == self.info.pid && z.info.filename@ == self.info.filename@
                    && z.info.brk_addr == spec_record_addr(self.info.brk_addr, cmd.deep_view()).1
                    && (spec_record_addr(self.info.brk_addr, cmd.deep_view()).0
                        ==> final(out)@.len() == old(out)@.len() + 1 && (spec_record_addr(
                        self.info.brk_addr,
                        cmd.deep_view(),
                    ).1 matches Some(a) && is_install_report(
                        final(out)@[old(out)@.len() as int],
                        a,
                    )))
                    && (self.info.brk_addr matches Some(a) ==> final(out)@ =~= old(out)@.push(
                        Report::BreakpointExists(a),
                    ))
                    && ((self.info.brk_addr is None && spec_get_break_addr(cmd.deep_view())
                        is None) ==> final(out)@ =~= old(out)@.push(Report::BadBreakCommand)))
                &&& is_exit_cmd(c0) ==> (r is Err || (r matches Ok(Flow::Next(State::Exit))
                    && final(out)@ =~= old(out)@.push(Report::TargetExited)))
                &&& is_resume_cmd(c0) ==> (r is Err || (r matches Ok(Flow::Next(st))
                    && keeps_target(st, self.info) && (st matches State::NotRunning(_)
                    ==> final(out)@.len() > old(out)@.len() && final(out)@.last()
                        == Report::TargetExited)))
                &&& is_regs_cmd(c0) ==> (r is Err || (r matches Ok(Flow::Next(State::Running(z)))
                    && z.info == self.info && final(out)@.len() == old(out)@.len() + 1
                    && final(out)@.last() matches Report::Regs(_)))
                &&& is_help_cmd(c0) ==> (r matches Ok(Flow::Next(State::Running(z))) && z.info
                    == self.info && final(out)@ =~= old(out)@.push(Report::Help))
                &&& !(is_run_cmd(c0) || is_break_cmd(c0) || is_exit_cmd(c0) || is_resume_cmd(c0)
                    || is_regs_cmd(c0) || is_help_cmd(c0)) ==> (r matches Ok(
                    Flow::Next(State::Running(z)),
                ) && z.info == self.info && final(out)@ =~= old(out)@)
            }),
    {
        proof {
            lemma_cmd_words();
        }
        if cmd.len() == 0 {
            return Ok(Flow::Next(State::Running(self)));
        }
        let c0 = &cmd[0];
        proof {
            assert(cmd.deep_view()[0] == cmd@[0]@);
        }
        if tok_is(c0, "break") || tok_is(c0, "b") {
            let mut s = self;
            s.do_break(cmd, out);
            Ok(Flow::Next(State::Running(s)))
        } else if tok_is(c0, "continue") || tok_is(c0, "c") {
            match self.do_continue(out) {
                Ok(st) => Ok(Flow::Next(st)),
                Err(e) => Err(e),
            }
        } else if tok_is(c0, "stepi") || tok_is(c0, "s") {
            match self.do_stepi(out) {
                Ok(st) => Ok(Flow::Next(st)),
                Err(e) => Err(e),
            }
        } else if tok_is(c0, "registers") || tok_is(c0, "regs") {
            match get_regs(self.info.pid) {
                Ok(regs) => {
                    out.push(Report::Regs(regs));
                    Ok(Flow::Next(State::Running(self)))
                },
                Err(e) => Err(DbgError::Trace(e)),
            }
        } else if tok_is(c0, "run") || tok_is(c0, "r") {
            out.push(Report::AlreadyRunning);
            Ok(Flow::Next(State::Running(self)))
        } else if tok_is(c0, "exit") {
            match self.do_exit(out) {
                Ok(()) => Ok(Flow::Next(State::Exit)),
                Err(e) => Err(e),
            }
        } else {
            self.do_cmd_common(cmd, out);
            Ok(Flow::Next(State::Running(self)))
        }
    }

    /// Records a breakpoint address and, when the recording succeeded,
    /// immediately installs it into the live target's memory.
    pub fn do_break(&mut self, cmd: &Vec<String>, out: &mut Vec<Report>)
        ensures
            appends(old(out)@, final(out)@),
            final(self).info.pid == old(self).info.pid,
            final(self).info.filename@ == old(self).info.filename@,
            final(self).info.brk_addr == spec_record_addr(
                old(self).info.brk_addr,
                cmd.deep_view(),
            ).1,
            ({
                let rec = spec_record_addr(old(self).info.brk_addr, cmd.deep_view());
                &&& rec.0 ==> (rec.1 matches Some(a) && final(out)@.len() == old(out)@.len() + 1
                    && is_install_report(final(out)@[old(out)@.len() as int], a))
                &&& !rec.0 ==> final(self).info.brk_val == old(self).info.brk_val
            }),
            old(self).info.brk_addr matches Some(a) ==> final(out)@ =~= old(out)@.push(
                Report::BreakpointExists(a),
            ),
            (old(self).info.brk_addr is None && spec_get_break_addr(cmd.deep_view()) is None)
                ==> final(out)@ =~= old(out)@.push(Report::BadBreakCommand),
    {
        let ghost o0 = old(out)@;
        if self.set_break_addr(cmd, out) {
            let ghost o1 = out@;
            self.set_break(out);
            proof {
                lemma_appends_trans(o0, o1, out@);
            }
        }
    }

    /// Installs the recorded breakpoint into the live target: reads the
    /// word at the breakpoint address, saves it as the original, and
    /// writes it back with its low byte replaced by the trap encoding —
    /// see [`crate::word::spec_patched`]. A read or write failure is
    /// reported and tolerated: the target and the saved word stay as they
    /// were. With no address recorded this does nothing.
    pub fn set_break(&mut self, out: &mut Vec<Report>)
        ensures
            appends(old(out)@, final(out)@),
            old(self).info.brk_addr matches Some(a) ==> final(out)@.len() == old(out)@.len() + 1
                && is_install_report(final(out)@[old(out)@.len() as int], a),
            final(self).info.pid == old(self).info.pid,
            final(self).info.brk_addr == old(self).info.brk_addr,
            final(self).info.filename@ == old(self).info.filename@,
            old(self).info.brk_addr is None ==> final(self).info == old(self).info && final(out)@ =~= old(
                out,
            )@,
            old(self).info.brk_addr matches Some(a) ==> ({
                ||| final(out)@ =~= old(out)@.push(
                    Report::Patched {
                        addr: a,
                        before: final(self).info.brk_val,
                        after: spec_patched(final(self).info.brk_val),
                    },
                )
                ||| (final(self).info.brk_val == old(self).info.brk_val && final(out)@.len() == old(
                    out,
                )@.len() + 1 && ((final(out)@.last() matches Report::PeekFailed { addr, .. } && addr == a)
                    || (final(out)@.last() matches Report::PokeFailed { addr, .. } && addr == a)))
            }),
    {
        let addr = match self.info.brk_addr {
            Some(a) => a,
            None => {
                return ;
            },
        };
        match read_word(self.info.pid, addr) {
            Err(e) => {
                out.push(Report::PeekFailed { addr, errno: e });
            },
            Ok(w) => {
                let patched = patch_word(w);
                match write_word(self.info.pid, addr, patched) {
                    Ok(()) => {
                        self.info.brk_val = w;
                        out.push(Report::Patched { addr, before: w, after: patched });
                    },
                    Err(e) => {
                        out.push(Report::PokeFailed { addr, errno: e });
                    },
                }
            },
        }
    }

    /// Steps over the breakpoint when the target is stopped exactly on
    /// it. `rip` is the target's current program counter; on entry the
    /// word at the breakpoint address holds the original byte again (the
    /// stop handler restored it). When `rip` is not the breakpoint
    /// address this is a no-op: no trace call, no report, the debugger —
    /// and so the target's memory — is left exactly as it was. Otherwise
    /// the target executes one instruction; if it dies mid-step the
    /// session drops to `NotRunning` and reinstallation is skipped, else
    /// the trap byte is reinstalled so later passes still trap.
    pub fn step_over_at(self, rip: u64, out: &mut Vec<Report>) -> (r: Result<State, DbgError>)
        ensures
            !(r matches Err(DbgError::LaunchFailed)),
            appends(old(out)@, final(out)@),
            self.info.brk_addr != Some(rip) ==> (r matches Ok(State::Running(z)) && z.info
                == self.info && final(out)@ =~= old(out)@),
            r matches Ok(st) ==> keeps_target(st, self.info),
            r matches Ok(State::NotRunning(z)) ==> z.info == self.info && final(out)@ =~= old(out)@.push(
                Report::TargetExited,
            ),
            self.info.brk_addr == Some(rip) ==> (r matches Ok(State::Running(z))
                ==> final(out)@.len() == old(out)@.len() + 1 && is_install_report(
                final(out)@[old(out)@.len() as int],
                rip,
            )),
    {
        let at_brk = match self.info.brk_addr {
            Some(a) => a == rip,
            None => false,
        };
        if !at_brk {
            return Ok(State::Running(self));
        }
        match step_target(self.info.pid) {
            Err(e) => {
                return Err(DbgError::Trace(e));
            },
            Ok(()) => {},
        }
        match wait_target(self.info.pid) {
            Err(e) => Err(DbgError::Trace(e)),
            Ok(ev) => Ok(self.on_step_event(ev, out)),
        }
    }

    /// Decides a step-over's outcome from the post-step wait event: the
    /// target died mid-step — drop to `NotRunning`, report it, and skip
    /// reinstallation; any other event — reinstall the trap byte so
    /// later passes through the breakpoint still trap.
    pub fn on_step_event(self, ev: WaitEvent, out: &mut Vec<Report>) -> (st: State)
        ensures
            keeps_target(st, self.info),
            appends(old(out)@, final(out)@),
            spec_target_gone(ev) ==> (st matches State::NotRunning(z) && z.info == self.info
                && final(out)@ =~= old(out)@.push(Report::TargetExited)),
            !spec_target_gone(ev) ==> (st matches State::Running(z) && z.info.pid == self.info.pid
                && z.info.brk_addr == self.info.brk_addr && z.info.filename@
                == self.info.filename@ && (self.info.brk_addr matches Some(a) ==> final(out)@.len()
                == old(out)@.len() + 1 && is_install_report(
                final(out)@[old(out)@.len() as int],
                a,
            )) && (self.info.brk_addr is None ==> z.info == self.info && final(out)@ =~= old(
                out,
            )@)),
    {
        if target_gone(ev) {
            out.push(Report::TargetExited);
            State::NotRunning(ZDbg { info: self.info, state_tag: NotRunning })
        } else {
            let mut s = self;
            s.set_break(out);
            State::Running(s)
        }
    }

    /// Reads the target's program counter and steps over the breakpoint
    /// if the target is stopped on it; see [`Self::step_over_at`].
    pub fn step_and_break(self, out: &mut Vec<Report>) -> (r: Result<State, DbgError>)
        ensures
            !(r matches Err(DbgError::LaunchFailed)),
            appends(old(out)@, final(out)@),
            r matches Ok(st) ==> keeps_target(st, self.info),
            r matches Ok(State::NotRunning(z)) ==> z.info == self.info && final(out)@ =~= old(
                out,
            )@.push(Report::TargetExited),
    {
        let regs = match get_regs(self.info.pid) {
            Ok(regs) => regs,
            Err(e) => {
                return Err(DbgError::Trace(e));
            },
        };
        let rip = regs_rip(&regs);
        self.step_over_at(rip, out)
    }

    /// Decides the session's next state from one observed wait event.
    /// An exit or a signal-termination drops the session to `NotRunning`
    /// and reports it; a stop keeps the session `Running`, first writing
    /// the saved original word back and rewinding the program counter
    /// when the stop lies one past the breakpoint address (the trap byte
    /// has just fired), so the original instruction runs next; any other
    /// event is a protocol violation. On a stop, only a failing trace
    /// call can make the decision fail.
    pub fn on_wait_event(self, ev: WaitEvent, out: &mut Vec<Report>) -> (r: Result<
        State,
        DbgError,
    >)
        ensures
            !(r matches Err(DbgError::LaunchFailed)),
            r matches Ok(st) ==> keeps_target(st, self.info),
            appends(old(out)@, final(out)@),
            spec_target_gone(ev) ==> (r matches Ok(State::NotRunning(z)) && z.info == self.info
                && final(out)@ =~= old(out)@.push(Report::TargetExited)),
            ev is Stopped ==> (r matches Err(DbgError::Trace(_)) || (r matches Ok(
                State::Running(z),
            ) && z.info == self.info && final(out)@ =~= old(out)@)),
            ev is Other ==> r matches Err(DbgError::InvalidStatus),
            r matches Ok(State::Running(z)) ==> z.info == self.info && final(out)@ =~= old(out)@,
            r matches Ok(State::NotRunning(z)) ==> z.info == self.info && final(out)@ =~= old(
                out,
            )@.push(Report::TargetExited),
    {
        match ev {
            WaitEvent::Exited(_) | WaitEvent::Signaled(_) => {
                out.push(Report::TargetExited);
                Ok(State::NotRunning(ZDbg { info: self.info, state_tag: NotRunning }))
            },
            WaitEvent::Stopped(_) => {
                let mut regs = match get_regs(self.info.pid) {
                    Ok(regs) => regs,
                    Err(e) => {
                        return Err(DbgError::Trace(e));
                    },
                };
                let rip = regs_rip(&regs);
                let at_trap = match self.info.brk_addr {
                    Some(a) => rip >= 1 && rip - 1 == a,
                    None => false,
                };
                if at_trap {
                    match write_word(self.info.pid, rip - 1, self.info.brk_val) {
                        Ok(()) => {},
                        Err(e) => {
                            return Err(DbgError::Trace(e));
                        },
                    }
                    set_rip(&mut regs, rip - 1);
                    match set_regs(self.info.pid, &regs) {
                        Ok(()) => {},
                        Err(e) => {
                            return Err(DbgError::Trace(e));
                        },
                    }
                }
                Ok(State::Running(self))
            },
            WaitEvent::Other => Err(DbgError::InvalidStatus),
        }
    }

    /// Blocks until the target stops, exits, or is killed, then decides
    /// the next state from the observed event; see
    /// [`Self::on_wait_event`] for the decision's contract per event.
    pub fn wait_child(self, out: &mut Vec<Report>) -> (r: Result<State, DbgError>)
        ensures
            !(r matches Err(DbgError::LaunchFailed)),
            r matches Ok(st) ==> keeps_target(st, self.info),
            appends(old(out)@, final(out)@),
            r matches Ok(State::Running(z)) ==> z.info == self.info && final(out)@ =~= old(out)@,
            r matches Ok(State::NotRunning(z)) ==> z.info == self.info && final(out)@ =~= old(
                out,
            )@.push(Report::TargetExited),
    {
        match wait_target(self.info.pid) {
            Err(e) => Err(DbgError::Trace(e)),
            Ok(ev) => self.on_wait_event(ev, out),
        }
    }

    /// Resumes the target: first steps over the breakpoint if stopped on
    /// it (reinstalling the trap), then lets the target run and waits for
    /// its next stop or its termination.
    pub fn do_continue(self, out: &mut Vec<Report>) -> (r: Result<State, DbgError>)
        ensures
            !(r matches Err(DbgError::LaunchFailed)),
            appends(old(out)@, final(out)@),
            r matches Ok(st) ==> keeps_target(st, self.info),
            r matches Ok(State::NotRunning(_)) ==> final(out)@.len() > old(out)@.len()
                && final(out)@.last() == Report::TargetExited,
    {
        let ghost o0 = old(out)@;
        let st = match self.step_and_break(out) {
            Ok(st) => st,
            Err(e) => {
                return Err(e);
            },
        };
        let ghost o1 = out@;
        match st {
            State::Running(r2) => {
                match cont_target(r2.info.pid) {
                    Ok(()) => {},
                    Err(e) => {
                        return Err(DbgError::Trace(e));
                    },
                }
                let res = r2.wait_child(out);
                proof {
                    lemma_appends_trans(o0, o1, out@);
                }
                res
            },
            n => Ok(n),
        }
    }

    /// Executes exactly one instruction of the target and reflects its
    /// new status. Stepping from the breakpoint address itself goes
    /// through the step-over path, so the trap byte is reinstalled after
    /// the instruction has run.
    pub fn do_stepi(self, out: &mut Vec<Report>) -> (r: Result<State, DbgError>)
        ensures
            !(r matches Err(DbgError::LaunchFailed)),
            appends(old(out)@, final(out)@),
            r matches Ok(st) ==> keeps_target(st, self.info),
            r matches Ok(State::NotRunning(_)) ==> final(out)@.len() > old(out)@.len()
                && final(out)@.last() == Report::TargetExited,
    {
        let regs = match get_regs(self.info.pid) {
            Ok(regs) => regs,
            Err(e) => {
                return Err(DbgError::Trace(e));
            },
        };
        let rip = regs_rip(&regs);
        let at_brk = match self.info.brk_addr {
            Some(a) => a == rip,
            None => false,
        };
        if at_brk {
            self.step_over_at(rip, out)
        } else {
            match step_target(self.info.pid) {
                Ok(()) => {},
                Err(e) => {
                    return Err(DbgError::Trace(e));
                },
            }
            self.wait_child(out)
        }
    }

    /// Kills the target: sends a kill request and waits, repeatedly,
    /// until the target reports that it exited or was terminated by a
    /// signal. One request need not be enough — an intervening trace stop
    /// can hold the target alive — so only an observed exit or
    /// signal-termination status ends the killing. `Ok` is returned only
    /// on such an observation. The attempt counter exists for the
    /// termination checker alone: a kill request is re-sent each time the
    /// wait reports the target still stopped, and no real target survives
    /// two of them, let alone `u64::MAX`.
    pub fn do_exit(self, out: &mut Vec<Report>) -> (r: Result<(), DbgError>)
        ensures
            !(r matches Err(DbgError::LaunchFailed)),
            r matches Ok(()) ==> final(out)@ =~= old(out)@.push(Report::TargetExited),
            r is Err ==> final(out)@ =~= old(out)@,
    {
        let mut attempts: u64 = 0xffff_ffff_ffff_ffff;
        while attempts > 0
            invariant
                out@ =~= old(out)@,
            decreases attempts,
        {
            match kill_target(self.info.pid) {
                Ok(()) => {},
                Err(e) => {
                    return Err(DbgError::Trace(e));
                },
            }
            match wait_target(self.info.pid) {
                Err(e) => {
                    return Err(DbgError::Trace(e));
                },
                Ok(ev) => {
                    if target_gone(ev) {
                        out.push(Report::TargetExited);
                        return Ok(());
                    }
                },
            }
            attempts = attempts - 1;
        }
        Err(DbgError::InvalidStatus)
    }
}

} // verus!
