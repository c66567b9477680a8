use tifflin_syscalls::gui::Window;
use tifflin_syscalls::threads::{
    CurProcess, CurProcessCall, Process, ProcessCall, ProtoProcess, ProtoProcessCall, ProtoProcessOp,
    ProtoProcessValCall, ProtoProcessValRequest, Wait, WaitAction,
};
use tifflin_syscalls::values::{
    WaitItem, CLASS_CORE_PROCESS, CORE_PROCESS_KILL, CLASS_CORE_PROTOPROCESS, CLASS_CORE_THISPROCESS,
    CORE_PROCESS_SENDOBJ, CORE_PROTOPROCESS_SENDOBJ, CORE_PROTOPROCESS_START,
    CORE_THISPROCESS_RECVOBJ, EV_PROCESS_TERMINATED,
};

#[derive(Debug, PartialEq)]
enum KernelError {
    NoSuchObject(u32),
}

#[test]
fn current_process_object() {
    assert_eq!(CurProcess::class(), CLASS_CORE_THISPROCESS);
    assert_eq!(CurProcess::handle_syscall_ref(CORE_THISPROCESS_RECVOBJ), Some(CurProcessCall::RecvObj));
    assert_eq!(CurProcess::handle_syscall_ref(1), None);
    assert_eq!(CurProcess::recvobj_reply(12), 12);
    assert_eq!(CurProcess::recvobj_reply(u64::MAX), u64::MAX);
    assert_eq!(CurProcess::bind_wait(u32::MAX), 0);
    assert_eq!(CurProcess::clear_wait(u32::MAX), 0);
}

#[test]
fn process_being_set_up() {
    assert_eq!(ProtoProcess::<u8>::class(), CLASS_CORE_PROTOPROCESS);
    assert_eq!(
        ProtoProcess::<u8>::handle_syscall_ref(CORE_PROTOPROCESS_SENDOBJ),
        Some(ProtoProcessCall::SendObj)
    );
    assert_eq!(ProtoProcess::<u8>::handle_syscall_ref(CORE_PROTOPROCESS_START), None);
    assert_eq!(
        ProtoProcess::<u8>::handle_syscall_val(CORE_PROTOPROCESS_START),
        Some(ProtoProcessValCall::Start)
    );
    assert_eq!(ProtoProcess::<u8>::handle_syscall_val(CORE_PROTOPROCESS_SENDOBJ), None);
    assert_eq!(ProtoProcess::<u8>::bind_wait(1), 0);
    assert_eq!(ProtoProcess::<u8>::clear_wait(1), 0);
    assert_eq!(ProtoProcess::<u8>::sendobj_reply::<u32, KernelError>(Ok(9)), Ok(0));
    assert_eq!(
        ProtoProcess::<u8>::sendobj_reply::<u32, KernelError>(Err(KernelError::NoSuchObject(4))),
        Err(KernelError::NoSuchObject(4))
    );
    let (running, op) =
        ProtoProcess("init".to_string()).start(ProtoProcessValRequest::Start { ip: 0x1000, sp: 0x8000 });
    assert_eq!(running.0, "init");
    assert_eq!(op, ProtoProcessOp::StartRootThread { ip: 0x1000, sp: 0x8000 });
    assert_eq!(ProtoProcess::<u8>::start_reply(5), 5);
}

#[test]
fn running_process_waits_for_termination() {
    assert_eq!(Process::<u8>::class(), CLASS_CORE_PROCESS);
    assert_eq!(Process::<u8>::handle_syscall_ref(CORE_PROCESS_KILL), Some(ProcessCall::Kill));
    assert_eq!(Process::<u8>::handle_syscall_ref(CORE_PROCESS_SENDOBJ), None);
    assert!(Process::<u8>::watches_termination(EV_PROCESS_TERMINATED));
    assert!(!Process::<u8>::watches_termination(0b10));
    assert_eq!(Process::<u8>::bind_wait(EV_PROCESS_TERMINATED), 1);
    assert_eq!(Process::<u8>::bind_wait(0), 0);
    assert_eq!(Process::<u8>::clear_wait(EV_PROCESS_TERMINATED, true), EV_PROCESS_TERMINATED);
    assert_eq!(Process::<u8>::clear_wait(EV_PROCESS_TERMINATED, false), 0);
    assert_eq!(Process::<u8>::clear_wait(0, true), 0);
}

fn items() -> Vec<WaitItem> {
    vec![WaitItem { object: 3, flags: 1 }, WaitItem { object: 8, flags: 1 }]
}

#[test]
fn poll_binds_then_clears_and_counts() {
    let mut w = Wait::new(items(), 0);
    assert_eq!(w.action::<KernelError>(), WaitAction::Bind { object: 3, flags: 1 });
    assert_eq!(w.bound::<KernelError>(Ok(1)), WaitAction::Bind { object: 8, flags: 1 });
    assert_eq!(w.bound::<KernelError>(Ok(1)), WaitAction::Clear { object: 3, flags: 1 });
    assert_eq!(w.cleared::<KernelError>(1), WaitAction::Clear { object: 8, flags: 1 });
    assert_eq!(w.cleared::<KernelError>(0), WaitAction::Finish(Ok(1)));
}

#[test]
fn unbounded_wait_sleeps_once_when_something_is_bound() {
    let mut w = Wait::new(items(), u64::MAX);
    assert_eq!(w.action::<KernelError>(), WaitAction::Bind { object: 3, flags: 1 });
    assert_eq!(w.bound::<KernelError>(Ok(1)), WaitAction::Bind { object: 8, flags: 1 });
    assert_eq!(w.bound::<KernelError>(Ok(0)), WaitAction::Sleep);
    assert_eq!(w.woken::<KernelError>(), WaitAction::Clear { object: 3, flags: 1 });
    assert_eq!(w.cleared::<KernelError>(1), WaitAction::Clear { object: 8, flags: 1 });
    assert_eq!(w.cleared::<KernelError>(1), WaitAction::Finish(Ok(2)));
}

#[test]
fn unbounded_wait_on_nothing_sleeps_twice() {
    let mut w = Wait::new(items(), u64::MAX);
    assert_eq!(w.bound::<KernelError>(Ok(0)), WaitAction::Bind { object: 8, flags: 1 });
    assert_eq!(w.bound::<KernelError>(Ok(0)), WaitAction::Sleep);
    assert_eq!(w.woken::<KernelError>(), WaitAction::Sleep);
    assert_eq!(w.woken::<KernelError>(), WaitAction::Clear { object: 3, flags: 1 });

    let mut empty = Wait::new(vec![], u64::MAX);
    assert_eq!(empty.action::<KernelError>(), WaitAction::Sleep);
    assert_eq!(empty.woken::<KernelError>(), WaitAction::Sleep);
    assert_eq!(empty.woken::<KernelError>(), WaitAction::Finish(Ok(0)));
}

#[test]
fn polling_nothing_returns_zero_at_once() {
    let w = Wait::new(vec![], 0);
    assert_eq!(w.action::<KernelError>(), WaitAction::Finish(Ok(0)));
}

#[test]
fn failed_bind_ends_the_wait_with_its_error() {
    let mut w = Wait::new(items(), u64::MAX);
    assert_eq!(w.bound::<KernelError>(Ok(1)), WaitAction::Bind { object: 8, flags: 1 });
    assert_eq!(
        w.bound(Err(KernelError::NoSuchObject(8))),
        WaitAction::Finish(Err(KernelError::NoSuchObject(8)))
    );
}

#[test]
fn timed_wait_sleeps_once_until_the_deadline() {
    let mut w = Wait::new(items(), 1234);
    assert_eq!(w.action::<KernelError>(), WaitAction::Bind { object: 3, flags: 1 });
    assert_eq!(w.bound::<KernelError>(Ok(0)), WaitAction::Bind { object: 8, flags: 1 });
    assert_eq!(w.bound::<KernelError>(Ok(0)), WaitAction::SleepUntil(1234));
    assert_eq!(w.woken::<KernelError>(), WaitAction::Clear { object: 3, flags: 1 });
    assert_eq!(w.cleared::<KernelError>(0), WaitAction::Clear { object: 8, flags: 1 });
    assert_eq!(w.cleared::<KernelError>(1), WaitAction::Finish(Ok(1)));

    let mut empty = Wait::new(vec![], 5);
    assert_eq!(empty.action::<KernelError>(), WaitAction::SleepUntil(5));
    assert_eq!(empty.woken::<KernelError>(), WaitAction::Finish(Ok(0)));
}

#[test]
fn window_input_counts_in_a_wait() {
    let flags = tifflin_syscalls::values::EV_GUI_WIN_INPUT;
    let mut w = Wait::new(vec![WaitItem { object: 2, flags }], 0);
    assert_eq!(w.action::<KernelError>(), WaitAction::Bind { object: 2, flags });
    assert_eq!(w.bound::<KernelError>(Ok(Window::bind_wait(flags))), WaitAction::Clear { object: 2, flags });
    assert_eq!(w.cleared::<KernelError>(Window::clear_wait(flags, true)), WaitAction::Finish(Ok(1)));
}
