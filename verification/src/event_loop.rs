//! The task table, the next-tick queue and the per-turn scheduling decisions.
//!
//! Pending work is kept in a slot-indexed table of `Option<PollTask>`; a slot
//! is `Some` from registration until the task fires or is cancelled, `None`
//! otherwise, and empty slots are reused lowest-index-first.  Each turn the
//! loop first drains the next-tick queue in FIFO order; only when the queue
//! was empty does it hand the host a batch of subscriptions to block on.

use vstd::prelude::*;

verus! {

/// The completion value delivered to a task's callback.
pub enum PollResult {
    /// A timer deadline passed.
    Timeout,
    /// A read finished; the buffer holds exactly the bytes read.
    Read(Vec<u8>),
    /// The platform reported an error, as its numeric code.
    Error(u16),
    /// A write finished; the count of bytes written.
    Write(usize),
}

/// A pending timer: an absolute deadline in nanoseconds and the token of
/// the host callback to fire when it passes.
pub struct TimeoutTask {
    pub timeout: u64,
    pub callback: u64,
}

/// A pending read: wait until `fd` is readable, then read up to `len` bytes,
/// positioned at `pos` if `pos` is non-negative, else at the stream cursor.
pub struct FdReadTask {
    pub fd: i32,
    pub pos: i64,
    pub len: u64,
    pub callback: u64,
}

/// A pending write of `buf`: wait until `fd` is writable, seek to `pos`
/// first unless `pos` is the stream-cursor sentinel `-1`.
pub struct FdWriteTask {
    pub fd: i32,
    pub pos: i64,
    pub buf: Vec<u8>,
    pub callback: u64,
}

/// A registered unit of pending work, one of the three interest kinds.
pub enum PollTask {
    Timeout(TimeoutTask),
    FdRead(FdReadTask),
    FdWrite(FdWriteTask),
}

/// What a subscription waits for.
pub enum Interest {
    Clock { timeout: u64 },
    FdRead { fd: i32 },
    FdWrite { fd: i32 },
}

/// One entry of the batch handed to the blocking wait primitive; `userdata`
/// carries the originating slot index so the event can be routed back.
pub struct Subscription {
    pub userdata: u64,
    pub interest: Interest,
}

/// The subscription a task placed at slot `i` contributes to the wait batch.
pub open spec fn sub_of(t: PollTask, i: int) -> Subscription {
    match t {
        PollTask::Timeout(tt) => Subscription {
            userdata: i as u64,
            interest: Interest::Clock { timeout: tt.timeout },
        },
        PollTask::FdRead(rt) => Subscription {
            userdata: i as u64,
            interest: Interest::FdRead { fd: rt.fd },
        },
        PollTask::FdWrite(wt) => Subscription {
            userdata: i as u64,
            interest: Interest::FdWrite { fd: wt.fd },
        },
    }
}

impl TimeoutTask {
    /// Build the clock subscription for this timer, tagged with its slot.
    pub fn as_subscription(&self, index: usize) -> (r: Subscription)
        ensures
            r == sub_of(PollTask::Timeout(*self), index as int),
    {
        Subscription {
            userdata: index as u64,
            interest: Interest::Clock { timeout: self.timeout },
        }
    }
}

impl FdReadTask {
    /// The subscription that waits for the descriptor to become readable.
    pub fn as_subscription(&self, index: usize) -> (r: Subscription)
        ensures
            r == sub_of(PollTask::FdRead(*self), index as int),
    {
        Subscription {
            userdata: index as u64,
            interest: Interest::FdRead { fd: self.fd },
        }
    }
}

impl FdWriteTask {
    /// The subscription that waits for the descriptor to become writable.
    pub fn as_subscription(&self, index: usize) -> (r: Subscription)
        ensures
            r == sub_of(PollTask::FdWrite(*self), index as int),
    {
        Subscription {
            userdata: index as u64,
            interest: Interest::FdWrite { fd: self.fd },
        }
    }
}

/// The slot-indexed registry of pending tasks.
pub struct IoSelector {
    tasks: Vec<Option<PollTask>>,
}

/// The index of the lowest empty slot, or the table length when none is empty.
pub open spec fn first_free(tasks: Seq<Option<PollTask>>) -> int
    decreases tasks.len(),
{
    if tasks.len() == 0 {
        0
    } else if tasks[0] is None {
        0
    } else {
        1 + first_free(tasks.drop_first())
    }
}

/// `first_free` really is the least empty slot: everything below it is
/// occupied, and it lies inside the table exactly when an empty slot exists.
pub proof fn lemma_first_free(tasks: Seq<Option<PollTask>>)
    ensures
        0 <= first_free(tasks) <= tasks.len(),
        forall|j: int| 0 <= j < first_free(tasks) ==> tasks[j] is Some,
        first_free(tasks) < tasks.len() ==> tasks[first_free(tasks)] is None,
    decreases tasks.len(),
{
    if tasks.len() > 0 && !(tasks[0] is None) {
        lemma_first_free(tasks.drop_first());
        assert forall|j: int| 0 <= j < first_free(tasks) implies tasks[j] is Some by {
            if j > 0 {
                assert(tasks.drop_first()[j - 1] is Some);
            }
        }
    }
}

/// Slot reuse: whenever slot `k` is empty, the next registration is placed
/// at a slot no higher than `k`.
pub proof fn lemma_slot_reuse(tasks: Seq<Option<PollTask>>, k: int)
    requires
        0 <= k < tasks.len(),
        tasks[k] is None,
    ensures
        first_free(tasks) <= k,
{
    lemma_first_free(tasks);
    if first_free(tasks) > k {
        assert(tasks[k] is Some);
    }
}

impl View for IoSelector {
    type V = Seq<Option<PollTask>>;

    closed spec fn view(&self) -> Seq<Option<PollTask>> {
        self.tasks@
    }
}

impl IoSelector {
    /// An empty table.
    pub fn new() -> (r: Self)
        ensures
            r@ == Seq::<Option<PollTask>>::empty(),
    {
        IoSelector { tasks: Vec::new() }
    }

    /// Store `task` in the lowest empty slot, growing the table by one slot
    /// only when every existing slot is occupied; return the slot index.
    #[verifier::loop_isolation(false)]
    pub fn add_task(&mut self, task: PollTask) -> (r: usize)
        ensures
            r == first_free(old(self)@),
            r <= old(self)@.len(),
            r < old(self)@.len() ==> final(self)@ == old(self)@.update(r as int, Some(task)),
            r == old(self)@.len() ==> final(self)@ == old(self)@.push(Some(task)),
    {
        let ghost entry = self.tasks@;
        let mut n: usize = 0;
        while n < self.tasks.len()
            invariant
                n <= self.tasks.len(),
                self.tasks@ == entry,
                forall|j: int| 0 <= j < n ==> entry[j] is Some,
            decreases self.tasks.len() - n,
        {
            if self.tasks[n].is_none() {
                proof {
                    lemma_first_free(entry);
                    lemma_slot_reuse(entry, n as int);
                }
                self.tasks[n] = Some(task);
                return n;
            }
            n += 1;
        }
        proof {
            lemma_first_free(entry);
        }
        self.tasks.push(Some(task));
        n
    }

    /// Remove and return the task at `id`; a slot that is out of range or
    /// already empty yields `None` and leaves the table unchanged.
    pub fn delete_task(&mut self, id: usize) -> (r: Option<PollTask>)
        ensures
            id < old(self)@.len() ==> r == old(self)@[id as int] && final(self)@ == old(
                self,
            )@.update(id as int, None),
            id >= old(self)@.len() ==> r is None && final(self)@ == old(self)@,
    {
        if id < self.tasks.len() {
            let mut t: Option<PollTask> = None;
            core::mem::swap(&mut t, &mut self.tasks[id]);
            t
        } else {
            None
        }
    }

    /// The wait batch for the first `n` slots: one subscription per occupied
    /// slot, in slot order, each tagged with its slot index.
    pub open spec fn subs_prefix(tasks: Seq<Option<PollTask>>, n: int) -> Seq<Subscription>
        decreases n,
    {
        if n <= 0 {
            Seq::empty()
        } else {
            Self::subs_prefix(tasks, n - 1) + match tasks[n - 1] {
                Some(t) => seq![sub_of(t, n - 1)],
                None => Seq::empty(),
            }
        }
    }

    /// The full wait batch of a table.
    pub open spec fn subs(tasks: Seq<Option<PollTask>>) -> Seq<Subscription> {
        Self::subs_prefix(tasks, tasks.len() as int)
    }

    /// The wait batch is empty exactly when no slot holds a task: a table of
    /// cancelled or fired slots contributes no subscriptions.
    pub proof fn lemma_subs_empty(tasks: Seq<Option<PollTask>>, n: int)
        requires
            0 <= n <= tasks.len(),
        ensures
            Self::subs_prefix(tasks, n).len() == 0 <==> (forall|j: int|
                0 <= j < n ==> tasks[j] is None),
        decreases n,
    {
        if n > 0 {
            Self::lemma_subs_empty(tasks, n - 1);
        }
    }

    /// Build the subscription batch for the current table.
    #[verifier::loop_isolation(false)]
    pub fn poll_subscriptions(&self) -> (r: Vec<Subscription>)
        ensures
            r@ == Self::subs(self@),
    {
        let mut v: Vec<Subscription> = Vec::new();
        let mut i: usize = 0;
        while i < self.tasks.len()
            invariant
                i <= self.tasks.len(),
                v@ == Self::subs_prefix(self@, i as int),
            decreases self.tasks.len() - i,
        {
            match &self.tasks[i] {
                Some(task) => {
                    let s = match task {
                        PollTask::Timeout(t) => t.as_subscription(i),
                        PollTask::FdRead(t) => t.as_subscription(i),
                        PollTask::FdWrite(t) => t.as_subscription(i),
                    };
                    v.push(s);
                },
                None => {
                    proof {
                        assert(v@ + Seq::<Subscription>::empty() =~= v@);
                    }
                },
            }
            i += 1;
        }
        v
    }
}

/// The readiness kind a completion event reports.
pub enum EventKind {
    Clock,
    FdRead,
    FdWrite,
}

/// One completion notification from the wait primitive: the slot it belongs
/// to (echoed back through `userdata`), the readiness kind, and the platform
/// error code (`0` for success).
pub struct Event {
    pub userdata: u64,
    pub error: u16,
    pub kind: EventKind,
}

/// What the loop must do with one event, after the matching task has been
/// consumed from the table.
pub enum DispatchStep {
    /// No task was pending at the slot, or the event's kind did not match
    /// the task's: nothing to do.
    Ignored,
    /// Deliver `result` to the callback now; no syscall is needed.
    Fire { callback: u64, result: PollResult },
    /// The descriptor is readable: read up to `len` bytes (positioned at
    /// `pos` if non-negative, else at the stream cursor), then deliver.
    Read { callback: u64, fd: i32, pos: i64, len: u64 },
    /// The descriptor is writable: seek to `pos` first unless it is `-1`,
    /// write `buf`, then deliver.
    Write { callback: u64, fd: i32, pos: i64, buf: Vec<u8> },
}

/// The step an event demands, given the task that was pending at its slot.
pub open spec fn step_of(t: PollTask, ev: Event) -> DispatchStep {
    match (t, ev.kind) {
        (PollTask::Timeout(tt), EventKind::Clock) => DispatchStep::Fire {
            callback: tt.callback,
            result: PollResult::Timeout,
        },
        (PollTask::FdRead(rt), EventKind::FdRead) => if ev.error > 0 {
            DispatchStep::Fire { callback: rt.callback, result: PollResult::Error(ev.error) }
        } else {
            DispatchStep::Read { callback: rt.callback, fd: rt.fd, pos: rt.pos, len: rt.len }
        },
        (PollTask::FdWrite(wt), EventKind::FdWrite) => if ev.error > 0 {
            DispatchStep::Fire { callback: wt.callback, result: PollResult::Error(ev.error) }
        } else {
            DispatchStep::Write { callback: wt.callback, fd: wt.fd, pos: wt.pos, buf: wt.buf }
        },
        _ => DispatchStep::Ignored,
    }
}

impl IoSelector {
    /// Consume the task at the event's slot and decide what the event means.
    /// The task leaves the table whether or not the kinds match; a mismatched
    /// pair is treated as impossible by construction and ignored.  An event
    /// carrying a platform error short-circuits: the callback gets the error
    /// and no read or write is attempted.
    pub fn dispatch_event(&mut self, ev: Event) -> (r: DispatchStep)
        requires
            ev.userdata <= usize::MAX as u64,
        ensures
            ev.userdata < old(self)@.len() ==> final(self)@ == old(self)@.update(
                ev.userdata as int,
                None,
            ),
            ev.userdata >= old(self)@.len() ==> final(self)@ == old(self)@,
            r == if ev.userdata < old(self)@.len() && old(self)@[ev.userdata as int] is Some {
                step_of(old(self)@[ev.userdata as int]->Some_0, ev)
            } else {
                DispatchStep::Ignored
            },
    {
        let index = ev.userdata as usize;
        match self.delete_task(index) {
            None => DispatchStep::Ignored,
            Some(task) => match (task, ev.kind) {
                (PollTask::Timeout(tt), EventKind::Clock) => DispatchStep::Fire {
                    callback: tt.callback,
                    result: PollResult::Timeout,
                },
                (PollTask::FdRead(rt), EventKind::FdRead) => {
                    if ev.error > 0 {
                        DispatchStep::Fire {
                            callback: rt.callback,
                            result: PollResult::Error(ev.error),
                        }
                    } else {
                        DispatchStep::Read {
                            callback: rt.callback,
                            fd: rt.fd,
                            pos: rt.pos,
                            len: rt.len,
                        }
                    }
                },
                (PollTask::FdWrite(wt), EventKind::FdWrite) => {
                    if ev.error > 0 {
                        DispatchStep::Fire {
                            callback: wt.callback,
                            result: PollResult::Error(ev.error),
                        }
                    } else {
                        DispatchStep::Write {
                            callback: wt.callback,
                            fd: wt.fd,
                            pos: wt.pos,
                            buf: wt.buf,
                        }
                    }
                },
                (_, _) => DispatchStep::Ignored,
            },
        }
    }
}

/// How a pending read addresses the file: at an absolute offset, or at the
/// descriptor's current stream cursor (negative offset sentinel).
pub enum ReadMode {
    Positioned(u64),
    Cursor,
}

/// A read is positioned exactly when its offset is non-negative.
pub fn read_mode(pos: i64) -> (r: ReadMode)
    ensures
        r == if pos >= 0 {
            ReadMode::Positioned(pos as u64)
        } else {
            ReadMode::Cursor
        },
{
    if pos >= 0 {
        ReadMode::Positioned(pos as u64)
    } else {
        ReadMode::Cursor
    }
}

/// How a pending write addresses the file: seek to an offset first, or write
/// at the current stream cursor (offset `-1`).
pub enum WriteMode {
    SeekThen(i64),
    Cursor,
}

/// A write seeks first exactly when its offset is not the `-1` sentinel.
pub fn write_mode(pos: i64) -> (r: WriteMode)
    ensures
        r == if pos == -1 {
            WriteMode::Cursor
        } else {
            WriteMode::SeekThen(pos)
        },
{
    if pos == -1 {
        WriteMode::Cursor
    } else {
        WriteMode::SeekThen(pos)
    }
}

/// Whether a positioned write may proceed to the write syscall.
pub enum WriteStage {
    Proceed,
    Abort(PollResult),
}

/// A failed seek aborts the write: the error is delivered to the callback
/// and the write syscall is never attempted.
pub fn after_seek(res: Result<(), u16>) -> (r: WriteStage)
    ensures
        res is Ok ==> r == WriteStage::Proceed,
        res matches Err(e) ==> r == WriteStage::Abort(PollResult::Error(e)),
{
    match res {
        Ok(()) => WriteStage::Proceed,
        Err(e) => WriteStage::Abort(PollResult::Error(e)),
    }
}

/// `s` resized to length `n`: truncated, or padded at the end with zeros.
pub open spec fn resized(s: Seq<u8>, n: int) -> Seq<u8> {
    if n <= s.len() {
        s.take(n)
    } else {
        s + Seq::new((n - s.len()) as nat, |i| 0u8)
    }
}

/// Turn a finished read into its completion value: on success the buffer the
/// syscall filled, shrunk (or zero-padded) to the byte count it reported; on
/// failure the platform error.  A count of zero yields an empty buffer, not
/// an error: reading past end-of-file completes with no bytes.
#[verifier::loop_isolation(false)]
pub fn finish_read(buf: Vec<u8>, res: Result<usize, u16>) -> (r: PollResult)
    ensures
        res matches Ok(rlen) ==> r matches PollResult::Read(b) && b@ == resized(buf@, rlen as int),
        res matches Err(e) ==> r == PollResult::Error(e),
{
    match res {
        Ok(rlen) => {
            let ghost buf0 = buf@;
            let mut b = buf;
            if rlen <= b.len() {
                b.truncate(rlen);
                proof {
                    assert(b@ =~= resized(buf0, rlen as int));
                }
            } else {
                while b.len() < rlen
                    invariant
                        rlen > buf0.len(),
                        buf0.len() <= b@.len() <= rlen,
                        b@ == resized(buf0, b@.len() as int),
                    decreases rlen - b.len(),
                {
                    b.push(0u8);
                    proof {
                        assert(b@ =~= resized(buf0, b@.len() as int));
                    }
                }
            }
            PollResult::Read(b)
        },
        Err(e) => PollResult::Error(e),
    }
}

/// Turn a finished write into its completion value: the byte count the
/// syscall reported, or the platform error.
pub fn finish_write(res: Result<usize, u16>) -> (r: PollResult)
    ensures
        res matches Ok(n) ==> r == PollResult::Write(n),
        res matches Err(e) ==> r == PollResult::Error(e),
{
    match res {
        Ok(n) => PollResult::Write(n),
        Err(e) => PollResult::Error(e),
    }
}

/// What one turn of the loop asks the host to do.
pub enum Turn {
    /// Run the host callback with this token now; immediate work existed,
    /// so no blocking wait happens this turn.
    Tick(u64),
    /// No immediate work: block on this non-empty subscription batch and
    /// feed the resulting events back through `dispatch_event`.
    Wait(Vec<Subscription>),
    /// Neither immediate work nor pending tasks: return at once with
    /// nothing done; the driver may stop.
    Idle,
}

/// The event loop: the task table plus the FIFO queue of deferred next-tick
/// callbacks.  Two ghost histories record every callback ever enqueued and
/// every callback handed out to run, in order.
pub struct EventLoop {
    next_tick_queue: Vec<u64>,
    io_selector: IoSelector,
    fired: Ghost<Seq<u64>>,
    enqueued: Ghost<Seq<u64>>,
}

impl EventLoop {
    /// The still-pending next-tick callbacks, front first.
    pub closed spec fn pending_ticks(&self) -> Seq<u64> {
        self.next_tick_queue@
    }

    /// Every next-tick callback handed out to run so far, in firing order.
    pub closed spec fn fired_ticks(&self) -> Seq<u64> {
        self.fired@
    }

    /// Every next-tick callback ever enqueued, in registration order.
    pub closed spec fn enqueued_ticks(&self) -> Seq<u64> {
        self.enqueued@
    }

    /// The task table's slots.
    pub closed spec fn tasks(&self) -> Seq<Option<PollTask>> {
        self.io_selector@
    }

    /// The FIFO law: what has fired, followed by what is still pending, is
    /// exactly the enqueue history.  Callbacks therefore run in the exact
    /// order they were registered, with no loss and no reordering.
    pub open spec fn wf(&self) -> bool {
        self.fired_ticks() + self.pending_ticks() == self.enqueued_ticks()
    }

    /// A fresh loop with no pending work and empty histories.
    pub fn new() -> (r: Self)
        ensures
            r.wf(),
            r.pending_ticks() == Seq::<u64>::empty(),
            r.fired_ticks() == Seq::<u64>::empty(),
            r.enqueued_ticks() == Seq::<u64>::empty(),
            r.tasks() == Seq::<Option<PollTask>>::empty(),
    {
        let r = EventLoop {
            next_tick_queue: Vec::new(),
            io_selector: IoSelector::new(),
            fired: Ghost(Seq::empty()),
            enqueued: Ghost(Seq::empty()),
        };
        proof {
            assert(r.fired_ticks() + r.pending_ticks() =~= Seq::<u64>::empty());
        }
        r
    }

    /// Append a deferred callback to the back of the next-tick queue,
    /// unconditionally.
    pub fn set_next_tick(&mut self, callback: u64)
        requires
            old(self).wf(),
        ensures
            final(self).wf(),
            final(self).pending_ticks() == old(self).pending_ticks().push(callback),
            final(self).enqueued_ticks() == old(self).enqueued_ticks().push(callback),
            final(self).fired_ticks() == old(self).fired_ticks(),
            final(self).tasks() == old(self).tasks(),
    {
        self.next_tick_queue.push(callback);
        self.enqueued = Ghost(self.enqueued@.push(callback));
        proof {
            assert(self.fired@ + self.next_tick_queue@ =~= self.enqueued@);
        }
    }

    /// Register a timer for `timeout` nanoseconds with the callback to fire
    /// when it passes; returns the slot index, the handle for cancellation.
    pub fn set_timeout(&mut self, callback: u64, timeout: u64) -> (id: usize)
        requires
            old(self).wf(),
        ensures
            final(self).wf(),
            final(self).pending_ticks() == old(self).pending_ticks(),
            final(self).enqueued_ticks() == old(self).enqueued_ticks(),
            final(self).fired_ticks() == old(self).fired_ticks(),
            id == first_free(old(self).tasks()),
            final(self).tasks() == if id < old(self).tasks().len() {
                old(self).tasks().update(
                    id as int,
                    Some(PollTask::Timeout(TimeoutTask { timeout, callback })),
                )
            } else {
                old(self).tasks().push(Some(PollTask::Timeout(TimeoutTask { timeout, callback })))
            },
    {
        self.io_selector.add_task(PollTask::Timeout(TimeoutTask { timeout, callback }))
    }

    /// Cancel the timer at `timeout_id`.  Only a slot still holding a timer
    /// is cleared: a slot that has fired, was never used, or has been reused
    /// for descriptor work is left untouched, so cancelling twice is a no-op
    /// the second time.
    pub fn clear_timeout(&mut self, timeout_id: usize)
        requires
            old(self).wf(),
        ensures
            final(self).wf(),
            final(self).pending_ticks() == old(self).pending_ticks(),
            final(self).enqueued_ticks() == old(self).enqueued_ticks(),
            final(self).fired_ticks() == old(self).fired_ticks(),
            final(self).tasks() == if timeout_id < old(self).tasks().len()
                && old(self).tasks()[timeout_id as int] matches Some(PollTask::Timeout(_)) {
                old(self).tasks().update(timeout_id as int, None)
            } else {
                old(self).tasks()
            },
    {
        if timeout_id < self.io_selector.tasks.len() {
            let clear = match &self.io_selector.tasks[timeout_id] {
                Some(PollTask::Timeout(_)) => true,
                _ => false,
            };
            if clear {
                self.io_selector.tasks[timeout_id] = None;
            }
        }
    }

    /// Register a pending read of up to `len` bytes from `fd` at offset
    /// `pos` (negative for the stream cursor); the callback receives the
    /// buffer or the error once the descriptor is readable.
    pub fn fd_read(&mut self, fd: i32, pos: i64, len: u64, callback: u64)
        requires
            old(self).wf(),
        ensures
            final(self).wf(),
            final(self).pending_ticks() == old(self).pending_ticks(),
            final(self).enqueued_ticks() == old(self).enqueued_ticks(),
            final(self).fired_ticks() == old(self).fired_ticks(),
            final(self).tasks() == if first_free(old(self).tasks()) < old(self).tasks().len() {
                old(self).tasks().update(
                    first_free(old(self).tasks()),
                    Some(PollTask::FdRead(FdReadTask { fd, pos, len, callback })),
                )
            } else {
                old(self).tasks().push(Some(PollTask::FdRead(FdReadTask { fd, pos, len, callback })))
            },
    {
        self.io_selector.add_task(PollTask::FdRead(FdReadTask { fd, pos, len, callback }));
    }

    /// Register a pending write of `buf` to `fd` at offset `pos` (`-1` for
    /// the stream cursor); the callback receives the byte count or the error
    /// once the descriptor is writable.
    pub fn fd_write(&mut self, fd: i32, pos: i64, buf: Vec<u8>, callback: u64)
        requires
            old(self).wf(),
        ensures
            final(self).wf(),
            final(self).pending_ticks() == old(self).pending_ticks(),
            final(self).enqueued_ticks() == old(self).enqueued_ticks(),
            final(self).fired_ticks() == old(self).fired_ticks(),
            final(self).tasks() == if first_free(old(self).tasks()) < old(self).tasks().len() {
                old(self).tasks().update(
                    first_free(old(self).tasks()),
                    Some(PollTask::FdWrite(FdWriteTask { fd, pos, buf, callback })),
                )
            } else {
                old(self).tasks().push(
                    Some(PollTask::FdWrite(FdWriteTask { fd, pos, buf, callback })),
                )
            },
    {
        self.io_selector.add_task(PollTask::FdWrite(FdWriteTask { fd, pos, buf, callback }));
    }

    /// Consume the task at the event's slot and decide what the event means;
    /// see `IoSelector::dispatch_event`.
    pub fn dispatch_event(&mut self, ev: Event) -> (r: DispatchStep)
        requires
            old(self).wf(),
            ev.userdata <= usize::MAX as u64,
        ensures
            final(self).wf(),
            final(self).pending_ticks() == old(self).pending_ticks(),
            final(self).enqueued_ticks() == old(self).enqueued_ticks(),
            final(self).fired_ticks() == old(self).fired_ticks(),
            ev.userdata < old(self).tasks().len() ==> final(self).tasks() == old(
                self,
            ).tasks().update(ev.userdata as int, None),
            ev.userdata >= old(self).tasks().len() ==> final(self).tasks() == old(self).tasks(),
            r == if ev.userdata < old(self).tasks().len() && old(self).tasks()[ev.userdata as int]
                is Some {
                step_of(old(self).tasks()[ev.userdata as int]->Some_0, ev)
            } else {
                DispatchStep::Ignored
            },
    {
        self.io_selector.dispatch_event(ev)
    }

    /// Decide one turn of the loop.  Immediate work always wins: while the
    /// next-tick queue is non-empty the front callback is popped and handed
    /// out, and the blocking wait is never reached.  Only with the queue
    /// empty is the wait batch built, and an empty batch — an empty task
    /// table — yields `Idle` at once: the loop never blocks with nothing to
    /// wait for.
    pub fn next_turn(&mut self) -> (r: Turn)
        requires
            old(self).wf(),
        ensures
            final(self).wf(),
            old(self).pending_ticks().len() > 0 ==> {
                &&& r == Turn::Tick(old(self).pending_ticks()[0])
                &&& final(self).pending_ticks() == old(self).pending_ticks().drop_first()
                &&& final(self).fired_ticks() == old(self).fired_ticks().push(
                    old(self).pending_ticks()[0],
                )
                &&& final(self).enqueued_ticks() == old(self).enqueued_ticks()
                &&& final(self).tasks() == old(self).tasks()
            },
            old(self).pending_ticks().len() == 0 ==> {
                &&& final(self).pending_ticks() == old(self).pending_ticks()
                &&& final(self).fired_ticks() == old(self).fired_ticks()
                &&& final(self).enqueued_ticks() == old(self).enqueued_ticks()
                &&& final(self).tasks() == old(self).tasks()
                &&& match r {
                    Turn::Tick(_) => false,
                    Turn::Wait(v) => v@ == IoSelector::subs(old(self).tasks()) && v@.len() > 0,
                    Turn::Idle => IoSelector::subs(old(self).tasks()).len() == 0,
                }
            },
    {
        if self.next_tick_queue.len() > 0 {
            let cb = self.next_tick_queue.remove(0);
            self.fired = Ghost(self.fired@.push(cb));
            proof {
                assert(self.fired@ + self.next_tick_queue@ =~= self.enqueued@);
            }
            Turn::Tick(cb)
        } else {
            let subs = self.io_selector.poll_subscriptions();
            if subs.len() == 0 {
                Turn::Idle
            } else {
                Turn::Wait(subs)
            }
        }
    }
}

/// The FIFO ordering law of the next-tick queue, as a statement about any
/// well-formed loop: the callbacks that have fired, in firing order,
/// followed by those still pending, in queue order, are exactly the
/// callbacks enqueued, in registration order.  In particular two callbacks
/// never fire in the opposite of their registration order.
pub proof fn lemma_next_tick_fifo(el: &EventLoop)
    requires
        el.wf(),
    ensures
        el.fired_ticks() + el.pending_ticks() == el.enqueued_ticks(),
        forall|i: int|
            0 <= i < el.fired_ticks().len() ==> el.fired_ticks()[i] == el.enqueued_ticks()[i],
{
    assert(forall|i: int|
        0 <= i < el.fired_ticks().len() ==> el.fired_ticks()[i] == (el.fired_ticks()
            + el.pending_ticks())[i]);
}

/// Cancelling every registered timer leaves the next wait batch empty: a
/// table whose slots are all clear contributes no subscriptions, so the
/// following turn returns at once instead of blocking.
pub proof fn lemma_cancelled_all_no_subscriptions(tasks: Seq<Option<PollTask>>)
    requires
        forall|j: int| 0 <= j < tasks.len() ==> tasks[j] is None,
    ensures
        IoSelector::subs(tasks).len() == 0,
{
    IoSelector::lemma_subs_empty(tasks, tasks.len() as int);
}

} // verus!
