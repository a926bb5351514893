use zdbg::addr::get_break_addr;
use zdbg::dbg::{DbgError, DbgInfo, Flow, NotRunning, Report, Running, State, ZDbg};
use zdbg::trace::WaitEvent;
use zdbg::word::{low_byte, patch_word};

fn toks(words: &[&str]) -> Vec<String> {
    words.iter().map(|w| w.to_string()).collect()
}

fn running(pid: i32, brk_addr: Option<u64>, brk_val: u64) -> ZDbg<Running> {
    ZDbg {
        info: DbgInfo { pid, brk_addr, brk_val, filename: "target".to_string() },
        state_tag: Running,
    }
}

// A process id that no live process has: ptrace and waitpid calls on it
// fail, which exercises the tolerated- and fatal-error paths.
const DEAD_PID: i32 = 1;

#[test]
fn parse_plain_hex_address() {
    assert_eq!(get_break_addr(&toks(&["break", "0x401000"])), Some(0x401000));
}

#[test]
fn parse_zero_and_max() {
    assert_eq!(get_break_addr(&toks(&["b", "0x0"])), Some(0));
    assert_eq!(
        get_break_addr(&toks(&["b", "0xffffffffffffffff"])),
        Some(u64::MAX)
    );
}

#[test]
fn parse_mixed_case_digits() {
    assert_eq!(get_break_addr(&toks(&["break", "0xDeadBeef"])), Some(0xdead_beef));
}

#[test]
fn parse_rejects_missing_argument() {
    assert_eq!(get_break_addr(&toks(&["break"])), None);
}

#[test]
fn parse_rejects_missing_prefix() {
    assert_eq!(get_break_addr(&toks(&["break", "401000"])), None);
}

#[test]
fn parse_rejects_empty_digits() {
    assert_eq!(get_break_addr(&toks(&["break", "0x"])), None);
}

#[test]
fn parse_rejects_bad_digit() {
    assert_eq!(get_break_addr(&toks(&["break", "0x40g0"])), None);
}

#[test]
fn parse_rejects_seventeen_digits() {
    assert_eq!(
        get_break_addr(&toks(&["break", "0x10000000000000000"])),
        None
    );
}

#[test]
fn patch_sets_trap_byte_and_keeps_rest() {
    let w: u64 = 0x1122_3344_5566_7788;
    let p = patch_word(w);
    assert_eq!(p, 0x1122_3344_5566_77cc);
    assert_eq!(low_byte(p), 0xcc);
    assert_eq!(p >> 8, w >> 8);
}

#[test]
fn patch_is_idempotent() {
    let w: u64 = 0xdead_beef_dead_beef;
    assert_eq!(patch_word(patch_word(w)), patch_word(w));
}

#[test]
fn restore_then_reinstall_is_bit_identical() {
    // One full cycle: install saves w and writes patch_word(w); the stop
    // handler writes w back; reinstall patches the word found in memory.
    let w: u64 = 0x0000_5566_0000_cc41;
    let installed = patch_word(w);
    let restored = (installed & !0xffu64) | (w & 0xff);
    assert_eq!(restored, w);
    assert_eq!(patch_word(restored), installed);
}

#[test]
fn first_break_wins_later_breaks_fail() {
    let mut d = ZDbg::<NotRunning>::new("target".to_string());
    let mut out: Vec<Report> = Vec::new();
    assert!(d.set_break_addr(&toks(&["break", "0x1000"]), &mut out));
    assert_eq!(d.info.brk_addr, Some(0x1000));
    assert!(out.is_empty());

    assert!(!d.set_break_addr(&toks(&["break", "0x2000"]), &mut out));
    assert_eq!(d.info.brk_addr, Some(0x1000));
    assert!(matches!(out.last(), Some(Report::BreakpointExists(0x1000))));

    assert!(!d.set_break_addr(&toks(&["b", "0x3000"]), &mut out));
    assert_eq!(d.info.brk_addr, Some(0x1000));
    assert_eq!(out.len(), 2);
}

#[test]
fn break_with_bad_address_fails_and_reports() {
    let mut d = ZDbg::<NotRunning>::new("target".to_string());
    let mut out: Vec<Report> = Vec::new();
    assert!(!d.set_break_addr(&toks(&["break", "nope"]), &mut out));
    assert_eq!(d.info.brk_addr, None);
    assert!(matches!(out.last(), Some(Report::BadBreakCommand)));
}

#[test]
fn new_debugger_is_empty() {
    let d = ZDbg::<NotRunning>::new("prog".to_string());
    assert_eq!(d.info.pid, 0);
    assert_eq!(d.info.brk_addr, None);
    assert_eq!(d.info.brk_val, 0);
    assert_eq!(d.info.filename, "prog");
}

#[test]
fn registers_while_not_running_is_rejected() {
    let d = ZDbg::<NotRunning>::new("target".to_string());
    let mut out: Vec<Report> = Vec::new();
    let r = d.do_cmd(&toks(&["registers"]), &mut out);
    match r {
        Ok(Flow::Next(State::NotRunning(z))) => {
            assert_eq!(z.info.pid, 0);
            assert_eq!(z.info.brk_addr, None);
        }
        _ => panic!("registers while NotRunning must keep the state"),
    }
    assert_eq!(out.len(), 1);
    assert!(matches!(out[0], Report::NoTarget));
}

#[test]
fn resume_commands_while_not_running_are_rejected() {
    for cmd in [["continue"], ["c"], ["stepi"], ["s"], ["regs"]] {
        let d = ZDbg::<NotRunning>::new("target".to_string());
        let mut out: Vec<Report> = Vec::new();
        let r = d.do_cmd(&toks(&cmd), &mut out);
        assert!(matches!(r, Ok(Flow::Next(State::NotRunning(_)))));
        assert!(matches!(out[0], Report::NoTarget));
    }
}

#[test]
fn break_then_run_requests_spawn_with_address_kept() {
    let d = ZDbg::<NotRunning>::new("target".to_string());
    let mut out: Vec<Report> = Vec::new();
    let d = match d.do_cmd(&toks(&["break", "0x401000"]), &mut out) {
        Ok(Flow::Next(State::NotRunning(z))) => z,
        _ => panic!("break while NotRunning must stay NotRunning"),
    };
    assert_eq!(d.info.brk_addr, Some(0x401000));
    match d.do_cmd(&toks(&["run"]), &mut out) {
        Ok(Flow::Spawn(z)) => {
            assert_eq!(z.info.brk_addr, Some(0x401000));
            assert_eq!(z.info.filename, "target");
        }
        _ => panic!("run while NotRunning must ask the caller to spawn"),
    }
}

#[test]
fn exit_while_not_running_ends_session() {
    let d = ZDbg::<NotRunning>::new("target".to_string());
    let mut out: Vec<Report> = Vec::new();
    assert!(matches!(
        d.do_cmd(&toks(&["exit"]), &mut out),
        Ok(Flow::Next(State::Exit))
    ));
    assert!(out.is_empty());
}

#[test]
fn help_and_unknown_commands_keep_state() {
    let d = ZDbg::<NotRunning>::new("target".to_string());
    let mut out: Vec<Report> = Vec::new();
    let d = match d.do_cmd(&toks(&["help"]), &mut out) {
        Ok(Flow::Next(State::NotRunning(z))) => z,
        _ => panic!("help must keep the state"),
    };
    assert!(matches!(out[0], Report::Help));
    let d = match d.do_cmd(&toks(&["h"]), &mut out) {
        Ok(Flow::Next(State::NotRunning(z))) => z,
        _ => panic!("h must keep the state"),
    };
    assert_eq!(out.len(), 2);
    let d = match d.do_cmd(&toks(&["bogus"]), &mut out) {
        Ok(Flow::Next(State::NotRunning(z))) => z,
        _ => panic!("an unknown command must keep the state"),
    };
    assert_eq!(out.len(), 2);
    let r = d.do_cmd(&Vec::new(), &mut out);
    assert!(matches!(r, Ok(Flow::Next(State::NotRunning(_)))));
    assert_eq!(out.len(), 2);
}

#[test]
fn run_while_running_is_rejected() {
    let d = running(DEAD_PID, None, 0);
    let mut out: Vec<Report> = Vec::new();
    let r = d.do_cmd(&toks(&["run"]), &mut out);
    assert!(matches!(r, Ok(Flow::Next(State::Running(_)))));
    assert!(matches!(out[0], Report::AlreadyRunning));
}

#[test]
fn empty_command_while_running_is_a_no_op() {
    let d = running(DEAD_PID, Some(0x1000), 7);
    let mut out: Vec<Report> = Vec::new();
    match d.do_cmd(&Vec::new(), &mut out) {
        Ok(Flow::Next(State::Running(z))) => {
            assert_eq!(z.info.brk_addr, Some(0x1000));
            assert_eq!(z.info.brk_val, 7);
        }
        _ => panic!("an empty command must keep the running state"),
    }
    assert!(out.is_empty());
}

#[test]
fn step_over_away_from_breakpoint_changes_nothing() {
    // The program counter is not at the breakpoint: no trace call is
    // made (the dead pid would make one fail), no report is written,
    // and the debugger is unchanged.
    let d = running(DEAD_PID, Some(0x1000), 0x42);
    let mut out: Vec<Report> = Vec::new();
    match d.step_over_at(0x2000, &mut out) {
        Ok(State::Running(z)) => {
            assert_eq!(z.info.pid, DEAD_PID);
            assert_eq!(z.info.brk_addr, Some(0x1000));
            assert_eq!(z.info.brk_val, 0x42);
        }
        _ => panic!("step-over away from the breakpoint must be a no-op"),
    }
    assert!(out.is_empty());
}

#[test]
fn step_over_without_breakpoint_changes_nothing() {
    let d = running(DEAD_PID, None, 0);
    let mut out: Vec<Report> = Vec::new();
    assert!(matches!(
        d.step_over_at(0x2000, &mut out),
        Ok(State::Running(_))
    ));
    assert!(out.is_empty());
}

#[test]
fn install_with_no_address_recorded_is_a_no_op() {
    let mut d = running(DEAD_PID, None, 0);
    let mut out: Vec<Report> = Vec::new();
    d.set_break(&mut out);
    assert!(out.is_empty());
    assert_eq!(d.info.brk_val, 0);
}

#[test]
fn install_reports_peek_failure_and_keeps_target_unmodified() {
    // Reading the word at the breakpoint address fails on the dead pid;
    // the failure is tolerated and the saved word is untouched.
    let mut d = running(DEAD_PID, Some(0x1000), 0x42);
    let mut out: Vec<Report> = Vec::new();
    d.set_break(&mut out);
    assert_eq!(d.info.brk_val, 0x42);
    assert_eq!(d.info.brk_addr, Some(0x1000));
    assert!(matches!(out[0], Report::PeekFailed { addr: 0x1000, .. }));
}

#[test]
fn break_while_running_records_then_fails_install_gracefully() {
    let mut d = running(DEAD_PID, None, 0);
    let mut out: Vec<Report> = Vec::new();
    d.do_break(&toks(&["break", "0x7000"]), &mut out);
    assert_eq!(d.info.brk_addr, Some(0x7000));
    assert!(matches!(out[0], Report::PeekFailed { addr: 0x7000, .. }));
}

#[test]
fn trace_failures_end_the_session_as_errors() {
    // Every trace syscall on the dead pid fails; the session surfaces
    // the errno as a fatal error.
    let d = running(DEAD_PID, None, 0);
    let mut out: Vec<Report> = Vec::new();
    assert!(matches!(
        d.do_cmd(&toks(&["registers"]), &mut out),
        Err(DbgError::Trace(_))
    ));

    let d = running(DEAD_PID, None, 0);
    assert!(matches!(
        d.do_cmd(&toks(&["continue"]), &mut out),
        Err(DbgError::Trace(_))
    ));

    let d = running(DEAD_PID, None, 0);
    assert!(matches!(
        d.do_cmd(&toks(&["stepi"]), &mut out),
        Err(DbgError::Trace(_))
    ));

    let d = running(DEAD_PID, None, 0);
    assert!(matches!(
        d.do_cmd(&toks(&["exit"]), &mut out),
        Err(DbgError::Trace(_))
    ));
    assert!(out.is_empty());
}

#[test]
fn launch_on_a_dead_child_fails() {
    let d = ZDbg::<NotRunning>::new("target".to_string());
    let mut out: Vec<Report> = Vec::new();
    assert!(matches!(
        d.do_run(DEAD_PID, &mut out),
        Err(DbgError::Trace(_))
    ));
}

#[test]
fn launch_decision_fails_on_early_exit() {
    // The child exits or is signaled before its first trace stop: the
    // launch fails and no running-state debugger is produced.
    let d = ZDbg::<NotRunning>::new("target".to_string());
    let mut out: Vec<Report> = Vec::new();
    assert!(matches!(
        d.on_launch_event(1234, WaitEvent::Exited(0), &mut out),
        Err(DbgError::LaunchFailed)
    ));
    let d = ZDbg::<NotRunning>::new("target".to_string());
    assert!(matches!(
        d.on_launch_event(1234, WaitEvent::Signaled(9), &mut out),
        Err(DbgError::LaunchFailed)
    ));
    assert!(out.is_empty());
}

#[test]
fn launch_decision_rejects_unexpected_status() {
    let d = ZDbg::<NotRunning>::new("target".to_string());
    let mut out: Vec<Report> = Vec::new();
    assert!(matches!(
        d.on_launch_event(1234, WaitEvent::Other, &mut out),
        Err(DbgError::InvalidStatus)
    ));
    assert!(out.is_empty());
}

#[test]
fn wait_decision_drops_to_not_running_on_exit() {
    let d = running(DEAD_PID, Some(0x1000), 7);
    let mut out: Vec<Report> = Vec::new();
    match d.on_wait_event(WaitEvent::Exited(0), &mut out) {
        Ok(State::NotRunning(z)) => {
            assert_eq!(z.info.pid, DEAD_PID);
            assert_eq!(z.info.brk_addr, Some(0x1000));
            assert_eq!(z.info.brk_val, 7);
        }
        _ => panic!("an exit event must drop the session to NotRunning"),
    }
    assert_eq!(out.len(), 1);
    assert!(matches!(out[0], Report::TargetExited));
}

#[test]
fn wait_decision_rejects_unknown_status() {
    let d = running(DEAD_PID, Some(0x1000), 7);
    let mut out: Vec<Report> = Vec::new();
    assert!(matches!(
        d.on_wait_event(WaitEvent::Other, &mut out),
        Err(DbgError::InvalidStatus)
    ));
    assert!(out.is_empty());
}

#[test]
fn step_decision_skips_reinstall_when_target_died() {
    // The target died mid-step: NotRunning, the exit reported, and no
    // install attempt (one would fail loudly on the dead pid).
    let d = running(DEAD_PID, Some(0x1000), 7);
    let mut out: Vec<Report> = Vec::new();
    match d.on_step_event(WaitEvent::Signaled(9), &mut out) {
        State::NotRunning(z) => assert_eq!(z.info.brk_addr, Some(0x1000)),
        _ => panic!("a death mid-step must drop the session to NotRunning"),
    }
    assert_eq!(out.len(), 1);
    assert!(matches!(out[0], Report::TargetExited));
}

#[test]
fn step_decision_reinstalls_after_clean_step() {
    // The step completed: exactly one install attempt is reported at
    // the breakpoint address (here the tolerated read failure, since
    // the pid is dead).
    let d = running(DEAD_PID, Some(0x1000), 7);
    let mut out: Vec<Report> = Vec::new();
    match d.on_step_event(WaitEvent::Stopped(5), &mut out) {
        State::Running(z) => assert_eq!(z.info.brk_addr, Some(0x1000)),
        _ => panic!("a clean step must keep the session Running"),
    }
    assert_eq!(out.len(), 1);
    assert!(matches!(out[0], Report::PeekFailed { addr: 0x1000, .. }));
}

#[test]
fn step_decision_without_breakpoint_reports_nothing() {
    let d = running(DEAD_PID, None, 0);
    let mut out: Vec<Report> = Vec::new();
    assert!(matches!(
        d.on_step_event(WaitEvent::Stopped(5), &mut out),
        State::Running(_)
    ));
    assert!(out.is_empty());
}
