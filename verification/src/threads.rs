//! Thread management calls: the calling process, processes being set up and
//! running child processes, and waiting on the events of a set of objects.
use vstd::prelude::*;

use crate::ObjectHandle;
use crate::values::{
    WaitItem, CLASS_CORE_PROCESS, CLASS_CORE_PROTOPROCESS, CLASS_CORE_THISPROCESS,
    CORE_PROCESS_KILL, CORE_PROTOPROCESS_SENDOBJ, CORE_PROTOPROCESS_START,
    CORE_THISPROCESS_RECVOBJ, EV_PROCESS_TERMINATED,
};

verus! {

// ---------------------------------------------------------------------------
// The calling process
// ---------------------------------------------------------------------------

/// Current process type (provides an object handle for IPC)
pub struct CurProcess;

/// The methods of the current process object.
#[derive(Debug, Clone, Copy, PartialEq, Eq)]
pub enum CurProcessCall {
    /// Fetch a handle to an unclaimed object of the class given as argument.
    RecvObj,
}

impl CurProcess {
    /// The class of the current process object.
    pub fn class() -> (c: u16)
        ensures
            c == CLASS_CORE_THISPROCESS,
    {
        CLASS_CORE_THISPROCESS
    }

    /// The method with number `call`, if there is one.
    pub fn handle_syscall_ref(call: u16) -> (r: Option<CurProcessCall>)
        ensures
            r == (if call == CORE_THISPROCESS_RECVOBJ {
                Some(CurProcessCall::RecvObj)
            } else {
                None::<CurProcessCall>
            }),
    {
        if call == CORE_THISPROCESS_RECVOBJ {
            Some(CurProcessCall::RecvObj)
        } else {
            None
        }
    }

    /// What a fetch of an unclaimed object answers: the handle that the
    /// object table gave for the class named by the call's one argument,
    /// unchanged.
    pub fn recvobj_reply(handle: u64) -> (r: u64)
        ensures
            r == handle,
    {
        handle
    }

    /// The current process has no events: nothing is bound.
    pub fn bind_wait(flags: u32) -> (r: u32)
        ensures
            r == 0,
    {
        0
    }

    /// The current process has no events: nothing has fired.
    pub fn clear_wait(flags: u32) -> (r: u32)
        ensures
            r == 0,
    {
        0
    }
}

// ---------------------------------------------------------------------------
// A process being set up
// ---------------------------------------------------------------------------

/// A new process whose first thread has not been started, holding the
/// handle `H` to it.
pub struct ProtoProcess<H>(pub H);

/// The methods of a process being set up that leave the object in place.
#[derive(Debug, Clone, Copy, PartialEq, Eq)]
pub enum ProtoProcessCall {
    /// Give the new process the object whose handle is the argument.
    SendObj,
}

/// The methods of a process being set up that consume the object.
#[derive(Debug, Clone, Copy, PartialEq, Eq)]
pub enum ProtoProcessValCall {
    /// Start the first thread at the instruction and stack pointers given as
    /// arguments; the object becomes a running process.
    Start,
}

/// A consuming method call on a process being set up, with its arguments
/// (the instruction pointer first, then the stack pointer).
#[derive(Debug, Clone, Copy, PartialEq, Eq)]
pub enum ProtoProcessValRequest {
    Start { ip: usize, sp: usize },
}

/// What to ask of a process being started.
#[derive(Debug, Clone, Copy, PartialEq, Eq)]
pub enum ProtoProcessOp {
    /// Start the process's first thread at instruction pointer `ip` with
    /// stack pointer `sp`.
    StartRootThread { ip: usize, sp: usize },
}

impl<H> ProtoProcess<H> {
    /// The class of process objects being set up.
    pub fn class() -> (c: u16)
        ensures
            c == CLASS_CORE_PROTOPROCESS,
    {
        CLASS_CORE_PROTOPROCESS
    }

    /// The method with number `call` that leaves the object, if there is one.
    pub fn handle_syscall_ref(call: u16) -> (r: Option<ProtoProcessCall>)
        ensures
            r == (if call == CORE_PROTOPROCESS_SENDOBJ {
                Some(ProtoProcessCall::SendObj)
            } else {
                None::<ProtoProcessCall>
            }),
    {
        if call == CORE_PROTOPROCESS_SENDOBJ {
            Some(ProtoProcessCall::SendObj)
        } else {
            None
        }
    }

    /// The method with number `call` that consumes the object, if there is one.
    pub fn handle_syscall_val(call: u16) -> (r: Option<ProtoProcessValCall>)
        ensures
            r == (if call == CORE_PROTOPROCESS_START {
                Some(ProtoProcessValCall::Start)
            } else {
                None::<ProtoProcessValCall>
            }),
    {
        if call == CORE_PROTOPROCESS_START {
            Some(ProtoProcessValCall::Start)
        } else {
            None
        }
    }

    /// What giving an object to the new process answers: 0 where the object
    /// table gave it, else the table's error.
    pub fn sendobj_reply<T, E>(r: Result<T, E>) -> (a: Result<u64, E>)
        ensures
            match r {
                Ok(_) => a == Ok::<u64, E>(0),
                Err(e) => a == Err::<u64, E>(e),
            },
    {
        match r {
            Ok(_) => Ok(0),
            Err(e) => Err(e),
        }
    }

    /// Starting the first thread turns the object into the running process,
    /// with the same handle, whose root thread is to start at the request's
    /// instruction and stack pointers.
    pub fn start(self, req: ProtoProcessValRequest) -> (r: (Process<H>, ProtoProcessOp))
        ensures
            r.0.0 == self.0,
            match req {
                ProtoProcessValRequest::Start { ip, sp } => r.1 == (ProtoProcessOp::StartRootThread {
                    ip,
                    sp,
                }),
            },
    {
        match req {
            ProtoProcessValRequest::Start { ip, sp } => (
                Process(self.0),
                ProtoProcessOp::StartRootThread { ip, sp },
            ),
        }
    }

    /// What starting the process answers: the handle of the new running
    /// process object.
    pub fn start_reply(handle: ObjectHandle) -> (r: u64)
        ensures
            r == handle,
    {
        handle as u64
    }

    /// A process being set up has no events: nothing is bound.
    pub fn bind_wait(flags: u32) -> (r: u32)
        ensures
            r == 0,
    {
        0
    }

    /// A process being set up has no events: nothing has fired.
    pub fn clear_wait(flags: u32) -> (r: u32)
        ensures
            r == 0,
    {
        0
    }
}

// ---------------------------------------------------------------------------
// A running child process
// ---------------------------------------------------------------------------

/// A running process, holding the handle `H` to it.
pub struct Process<H>(pub H);

/// The methods of a running process object.
#[derive(Debug, Clone, Copy, PartialEq, Eq)]
pub enum ProcessCall {
    /// Request that the process be terminated (its termination event then
    /// fires).
    Kill,
}

impl<H> Process<H> {
    /// The class of process objects.
    pub fn class() -> (c: u16)
        ensures
            c == CLASS_CORE_PROCESS,
    {
        CLASS_CORE_PROCESS
    }

    /// The method with number `call`, if there is one.
    pub fn handle_syscall_ref(call: u16) -> (r: Option<ProcessCall>)
        ensures
            r == (if call == CORE_PROCESS_KILL {
                Some(ProcessCall::Kill)
            } else {
                None::<ProcessCall>
            }),
    {
        if call == CORE_PROCESS_KILL {
            Some(ProcessCall::Kill)
        } else {
            None
        }
    }

    /// Whether a wait with these flags watches for the process's termination.
    pub fn watches_termination(flags: u32) -> (r: bool)
        ensures
            r == (flags & EV_PROCESS_TERMINATED != 0),
    {
        flags & EV_PROCESS_TERMINATED != 0
    }

    /// The number of events a wait with these flags was bound to: one where
    /// it watches for termination (the caller binds it), else none.
    pub fn bind_wait(flags: u32) -> (r: u32)
        ensures
            r == (if flags & EV_PROCESS_TERMINATED != 0 { 1u32 } else { 0u32 }),
    {
        let mut ret: u32 = 0;
        if flags & EV_PROCESS_TERMINATED != 0 {
            ret = ret + 1;
        }
        ret
    }

    /// The events that fired, once a wait with these flags is cleared:
    /// termination where the wait watched for it and clearing it reported
    /// `terminated`, else none.
    pub fn clear_wait(flags: u32, terminated: bool) -> (r: u32)
        ensures
            r == (if flags & EV_PROCESS_TERMINATED != 0 && terminated {
                EV_PROCESS_TERMINATED
            } else {
                0u32
            }),
    {
        assert(EV_PROCESS_TERMINATED == 1u32 && 0u32 | 1u32 == 1u32) by (bit_vector);
        let mut ret: u32 = 0;
        if flags & EV_PROCESS_TERMINATED != 0 {
            if terminated {
                ret = ret | EV_PROCESS_TERMINATED;
            }
        }
        ret
    }
}


// ---------------------------------------------------------------------------
// Waiting on events
// ---------------------------------------------------------------------------

/// The sum of a sequence of counts.
pub open spec fn sum(s: Seq<u32>) -> int
    decreases s.len(),
{
    if s.len() == 0 {
        0
    } else {
        sum(s.drop_last()) + s.last()
    }
}

proof fn lemma_sum_push(s: Seq<u32>, n: u32)
    ensures
        sum(s.push(n)) == sum(s) + n,
        sum(s) >= 0,
    decreases s.len(),
{
    assert(s.push(n).drop_last() =~= s);
    if s.len() > 0 {
        lemma_sum_push(s.drop_last(), s.last());
    }
}

/// How often a wait sleeps once its events are bound: not at all with wake
/// time 0 (the events are only checked); once with any other wake time, and,
/// with no time limit (all ones), once more where no event was bound.
pub open spec fn sleeps_for(num_bound: int, wake_time_mono: u64) -> nat {
    (if num_bound == 0 && wake_time_mono == u64::MAX {
        1nat
    } else {
        0nat
    }) + (if wake_time_mono != 0 {
        1nat
    } else {
        0nat
    })
}

/// What a wait asks of the kernel next.
#[derive(Debug, PartialEq, Eq)]
pub enum WaitAction<E> {
    /// Bind the waiting thread to the `flags` events of `object`, and report
    /// how many were bound (or why it failed).
    Bind { object: u32, flags: u32 },
    /// Put the waiting thread to sleep, and report when it is woken.
    Sleep,
    /// Put the waiting thread to sleep until it is woken or the monotonic
    /// clock reaches the given time, and report when it runs again.
    SleepUntil(u64),
    /// Unbind the waiting thread from the `flags` events of `object`, and
    /// report how many of them fired.
    Clear { object: u32, flags: u32 },
    /// The wait is over; the call returns this.
    Finish(Result<u32, E>),
}

/// A call that waits for any of a set of events. The caller performs each
/// action that the wait asks for and reports back. The events are bound in
/// order; the first that fails ends the call with its error. Then the thread
/// sleeps as `sleeps_for` says, and the events are cleared in order. The
/// call returns the number of events that were triggered. A wake time of 0
/// only checks the events, all ones sleeps with no time limit, and any other
/// sleeps until that time of the monotonic clock at the latest.
pub struct Wait {
    events: Vec<WaitItem>,
    wake_time_mono: u64,
    num_bound: u32,
    n_bound: usize,
    sleeps_left: u8,
    n_cleared: usize,
    total: u32,
    failed: bool,
    bound: Ghost<Seq<u32>>,
    slept: Ghost<nat>,
    cleared: Ghost<Seq<u32>>,
}

impl Wait {
    /// The events waited on.
    pub closed spec fn events(&self) -> Seq<WaitItem> {
        self.events@
    }

    /// The wake time of the wait.
    pub closed spec fn wake_time(&self) -> u64 {
        self.wake_time_mono
    }

    /// The counts reported by the binds so far, in order.
    pub closed spec fn bound_counts(&self) -> Seq<u32> {
        self.bound@
    }

    /// How often the thread has slept so far.
    pub closed spec fn slept(&self) -> nat {
        self.slept@
    }

    /// The counts reported by the clears so far, in order.
    pub closed spec fn cleared_counts(&self) -> Seq<u32> {
        self.cleared@
    }

    /// Whether a bind failed (the wait is then over).
    pub closed spec fn failed(&self) -> bool {
        self.failed
    }

    /// The inner consistency of a wait.
    pub closed spec fn wf(&self) -> bool {
        &&& self.n_bound == self.bound@.len() <= self.events@.len()
        &&& self.num_bound == sum(self.bound@)
        &&& self.n_cleared == self.cleared@.len() <= self.events@.len()
        &&& self.total == sum(self.cleared@)
        &&& self.bound@.len() < self.events@.len() ==> self.slept@ == 0 && self.sleeps_left == 0
            && self.cleared@.len() == 0
        &&& self.bound@.len() == self.events@.len() ==> self.slept@ + self.sleeps_left == sleeps_for(self.num_bound as int, self.wake_time_mono)
        &&& self.cleared@.len() > 0 ==> self.sleeps_left == 0
    }

    /// What the wait asks for next, where no bind has failed.
    pub open spec fn next_action<E>(&self) -> WaitAction<E> {
        if self.bound_counts().len() < self.events().len() {
            WaitAction::Bind {
                object: self.events()[self.bound_counts().len() as int].object,
                flags: self.events()[self.bound_counts().len() as int].flags,
            }
        } else if self.slept() < sleeps_for(sum(self.bound_counts()), self.wake_time()) {
            if self.wake_time() == u64::MAX {
                WaitAction::Sleep
            } else {
                WaitAction::SleepUntil(self.wake_time())
            }
        } else if self.cleared_counts().len() < self.events().len() {
            WaitAction::Clear {
                object: self.events()[self.cleared_counts().len() as int].object,
                flags: self.events()[self.cleared_counts().len() as int].flags,
            }
        } else {
            WaitAction::Finish(Ok(sum(self.cleared_counts()) as u32))
        }
    }

    /// The number of sleeps, planned once every event is bound.
    fn plan_sleeps(num_bound: u32, wake_time_mono: u64) -> (n: u8)
        ensures
            n == sleeps_for(num_bound as int, wake_time_mono),
    {
        let mut n: u8 = 0;
        if num_bound == 0 && wake_time_mono == u64::MAX {
            n = n + 1;
        }
        if wake_time_mono != 0 {
            n = n + 1;
        }
        n
    }

    /// A wait on `events`, before anything is done.
    pub fn new(events: Vec<WaitItem>, wake_time_mono: u64) -> (w: Wait)
        ensures
            w.wf(),
            w.events() == events@,
            w.wake_time() == wake_time_mono,
            w.bound_counts() == Seq::<u32>::empty(),
            w.slept() == 0,
            w.cleared_counts() == Seq::<u32>::empty(),
            !w.failed(),
    {
        let sleeps_left = if events.len() == 0 {
            Self::plan_sleeps(0, wake_time_mono)
        } else {
            0
        };
        Wait {
            events,
            wake_time_mono,
            num_bound: 0,
            n_bound: 0,
            sleeps_left,
            n_cleared: 0,
            total: 0,
            failed: false,
            bound: Ghost(Seq::empty()),
            slept: Ghost(0),
            cleared: Ghost(Seq::empty()),
        }
    }

    /// What the wait asks for now.
    pub fn action<E>(&self) -> (a: WaitAction<E>)
        requires
            self.wf(),
            !self.failed(),
        ensures
            a == self.next_action::<E>(),
    {
        if self.n_bound < self.events.len() {
            let ev = self.events[self.n_bound];
            WaitAction::Bind { object: ev.object, flags: ev.flags }
        } else if self.sleeps_left > 0 {
            if self.wake_time_mono == u64::MAX {
                WaitAction::Sleep
            } else {
                WaitAction::SleepUntil(self.wake_time_mono)
            }
        } else if self.n_cleared < self.events.len() {
            let ev = self.events[self.n_cleared];
            WaitAction::Clear { object: ev.object, flags: ev.flags }
        } else {
            WaitAction::Finish(Ok(self.total))
        }
    }

    /// The kernel's answer to the pending bind: on success the count is
    /// recorded and the wait goes on; on failure the call ends with the error.
    /// The counts must fit in 32 bits.
    pub fn bound<E>(&mut self, r: Result<u32, E>) -> (a: WaitAction<E>)
        requires
            old(self).wf(),
            !old(self).failed(),
            old(self).next_action::<E>() is Bind,
            r is Ok ==> sum(old(self).bound_counts()) + r->Ok_0 <= u32::MAX,
        ensures
            final(self).wf(),
            final(self).events() == old(self).events(),
            final(self).wake_time() == old(self).wake_time(),
            final(self).slept() == old(self).slept(),
            final(self).cleared_counts() == old(self).cleared_counts(),
            match r {
                Ok(n) => {
                    &&& final(self).bound_counts() == old(self).bound_counts().push(n)
                    &&& !final(self).failed()
                    &&& a == final(self).next_action::<E>()
                },
                Err(e) => {
                    &&& final(self).bound_counts() == old(self).bound_counts()
                    &&& final(self).failed()
                    &&& a == WaitAction::<E>::Finish(Err(e))
                },
            },
    {
        match r {
            Ok(n) => {
                proof {
                    lemma_sum_push(self.bound@, n);
                }
                assert(self.n_bound < self.events.len());
                self.num_bound = self.num_bound + n;
                self.n_bound = self.n_bound + 1;
                self.bound = Ghost(self.bound@.push(n));
                if self.n_bound == self.events.len() {
                    self.sleeps_left = Self::plan_sleeps(self.num_bound, self.wake_time_mono);
                }
                self.action()
            },
            Err(e) => {
                self.failed = true;
                WaitAction::Finish(Err(e))
            },
        }
    }

    /// The thread runs again after the pending sleep.
    pub fn woken<E>(&mut self) -> (a: WaitAction<E>)
        requires
            old(self).wf(),
            !old(self).failed(),
            old(self).next_action::<E>() is Sleep || old(self).next_action::<E>() is SleepUntil,
        ensures
            final(self).wf(),
            !final(self).failed(),
            final(self).events() == old(self).events(),
            final(self).wake_time() == old(self).wake_time(),
            final(self).bound_counts() == old(self).bound_counts(),
            final(self).slept() == old(self).slept() + 1,
            final(self).cleared_counts() == old(self).cleared_counts(),
            a == final(self).next_action::<E>(),
    {
        self.sleeps_left = self.sleeps_left - 1;
        self.slept = Ghost(self.slept@ + 1);
        self.action()
    }

    /// The kernel's answer to the pending clear: how many of the object's
    /// events fired. The total must fit in 32 bits.
    pub fn cleared<E>(&mut self, n: u32) -> (a: WaitAction<E>)
        requires
            old(self).wf(),
            !old(self).failed(),
            old(self).next_action::<E>() is Clear,
            sum(old(self).cleared_counts()) + n <= u32::MAX,
        ensures
            final(self).wf(),
            !final(self).failed(),
            final(self).events() == old(self).events(),
            final(self).wake_time() == old(self).wake_time(),
            final(self).bound_counts() == old(self).bound_counts(),
            final(self).slept() == old(self).slept(),
            final(self).cleared_counts() == old(self).cleared_counts().push(n),
            a == final(self).next_action::<E>(),
    {
        proof {
            lemma_sum_push(self.cleared@, n);
        }
        self.total = self.total + n;
        self.n_cleared = self.n_cleared + 1;
        self.cleared = Ghost(self.cleared@.push(n));
        self.action()
    }
}

/// The phases of a wait that no bind failed follow each other: while events
/// are being bound, nothing has been slept or cleared; sleeping and clearing
/// begin only once every event is bound; and the wait finishes exactly when
/// every event is bound, the planned sleeps are done and every event is
/// cleared, returning the number of events that the clears reported.
pub proof fn lemma_wait_phases<E>(w: &Wait)
    requires
        w.wf(),
        !w.failed(),
    ensures
        w.next_action::<E>() is Bind ==> w.slept() == 0 && w.cleared_counts().len() == 0,
        w.next_action::<E>() is Sleep || w.next_action::<E>() is SleepUntil || w.next_action::<E>() is Clear ==> w.bound_counts().len()
            == w.events().len(),
        w.next_action::<E>() is Clear ==> w.slept() == sleeps_for(sum(w.bound_counts()), w.wake_time()),
        (w.next_action::<E>() is Finish) <==> (w.bound_counts().len() == w.events().len() && w.slept()
            == sleeps_for(sum(w.bound_counts()), w.wake_time()) && w.cleared_counts().len()
            == w.events().len()),
        w.next_action::<E>() is Finish ==> 0 <= sum(w.cleared_counts()) <= u32::MAX
            && w.next_action::<E>() == WaitAction::<E>::Finish(Ok(sum(w.cleared_counts()) as u32)),
{
}

/// A wait ends: every report moves it one step on (`bound`, `woken` and
/// `cleared` each add one count or sleep), and a wait on `n` events that no
/// bind failed has taken at most `2 * n + 2` steps; it sleeps at most twice.
pub proof fn lemma_wait_steps_bounded(w: &Wait)
    requires
        w.wf(),
        !w.failed(),
    ensures
        w.slept() <= 2,
        w.bound_counts().len() + w.slept() + w.cleared_counts().len() <= 2 * w.events().len() + 2,
{
}

/// How often a wait sleeps once its events are bound: never with wake time
/// 0; with no time limit once where some bind reported a count, and twice
/// only where every bind reported 0; with any other wake time once.
pub proof fn lemma_sleep_count(num_bound: int, wake_time_mono: u64)
    requires
        num_bound >= 0,
    ensures
        sleeps_for(num_bound, 0) == 0,
        num_bound > 0 ==> sleeps_for(num_bound, u64::MAX) == 1,
        sleeps_for(0, u64::MAX) == 2,
        0 < wake_time_mono < u64::MAX ==> sleeps_for(num_bound, wake_time_mono) == 1,
{
}

/// The sleeps of a wait that no bind failed, once every event is bound:
/// with wake time 0 it never sleeps; with no time limit, where some bind
/// reported a count, the first wake-up ends the sleeping and the events are
/// cleared next (or the wait finishes, with no events); where every bind
/// reported 0 it sleeps a second time; with any other wake time it sleeps
/// once, until that time.
pub proof fn lemma_wait_sleeps<E>(w: &Wait)
    requires
        w.wf(),
        !w.failed(),
        w.bound_counts().len() == w.events().len(),
    ensures
        w.wake_time() == 0 ==> w.slept() == 0 && !(w.next_action::<E>() is Sleep)
            && !(w.next_action::<E>() is SleepUntil),
        w.wake_time() == u64::MAX && sum(w.bound_counts()) > 0 && w.slept() == 0
            ==> w.next_action::<E>() == WaitAction::<E>::Sleep,
        w.wake_time() == u64::MAX && sum(w.bound_counts()) > 0 && w.slept() >= 1 ==> w.slept() == 1
            && if w.cleared_counts().len() < w.events().len() {
            w.next_action::<E>() == WaitAction::<E>::Clear {
                object: w.events()[w.cleared_counts().len() as int].object,
                flags: w.events()[w.cleared_counts().len() as int].flags,
            }
        } else {
            w.next_action::<E>() is Finish
        },
        w.wake_time() == u64::MAX && sum(w.bound_counts()) == 0 && w.slept() < 2
            ==> w.next_action::<E>() == WaitAction::<E>::Sleep,
        0 < w.wake_time() < u64::MAX && w.slept() == 0 ==> w.next_action::<E>()
            == WaitAction::<E>::SleepUntil(w.wake_time()),
        0 < w.wake_time() < u64::MAX ==> w.slept() <= 1,
{
    lemma_sleep_count(sum(w.bound_counts()), w.wake_time());
}

} // verus!
