//! Tasks: the handles of operations in flight.
//!
//! A task has an identity (its slot in the registry) and a phase, which starts
//! at `Waiting` and moves at most once, to `Canceled` or to `Done`. The phase is
//! held in one atomic flag that the caller's handle and the worker share; both
//! sides move it by compare-and-swap from `Waiting`, so whichever side comes first
//! decides and the other one sees that it lost.

use std::sync::atomic::AtomicU8;
use std::sync::atomic::Ordering;
use std::sync::Arc;
use vstd::prelude::*;

verus! {

/// The slot map that backs the registry: a `sharded_slab::Slab` of task flags.
/// The slot map's own methods take `&self`; the registry owns it and passes it
/// exclusively.
#[verifier::external_body]
pub struct TaskSlots {
    inner: sharded_slab::Slab<Arc<AtomicU8>>,
}

/// The keys that hold a value in a slot map of task flags.
pub uninterp spec fn registered_keys(slots: TaskSlots) -> Set<usize>;

/// The phase of a task.
#[derive(Clone, Copy, Debug, PartialEq, Eq, Structural)]
pub enum TaskPhase {
    /// Submitted and not yet taken up by the worker.
    Waiting,
    /// Canceled before the worker took it up.
    Canceled,
    /// Taken up and finished by the worker.
    Done,
}

/// The flag value that stands for `Waiting`.
pub const WAITING: u8 = 0;

/// The flag value that stands for `Canceled`.
pub const CANCELED: u8 = 1;

/// The flag value that stands for `Done`.
pub const DONE: u8 = 2;

impl TaskPhase {
    /// The flag value that stands for this phase.
    pub open spec fn flag(self) -> u8 {
        match self {
            TaskPhase::Waiting => WAITING,
            TaskPhase::Canceled => CANCELED,
            TaskPhase::Done => DONE,
        }
    }

    /// The phase that a flag value stands for.
    pub open spec fn of_flag(raw: u8) -> Option<TaskPhase> {
        if raw == WAITING {
            Some(TaskPhase::Waiting)
        } else if raw == CANCELED {
            Some(TaskPhase::Canceled)
        } else if raw == DONE {
            Some(TaskPhase::Done)
        } else {
            None
        }
    }

    /// Whether a cancellation attempted in this phase takes effect.
    pub open spec fn cancel_wins(self) -> bool {
        self is Waiting
    }

    /// The phase after a cancellation was attempted in this one.
    pub open spec fn after_cancel(self) -> TaskPhase {
        if self is Waiting {
            TaskPhase::Canceled
        } else {
            self
        }
    }

    /// The phase after the worker marked the task done in this one.
    pub open spec fn after_done(self) -> TaskPhase {
        if self is Waiting {
            TaskPhase::Done
        } else {
            self
        }
    }

    /// Whether no further move is possible from this phase.
    pub open spec fn is_terminal(self) -> bool {
        !(self is Waiting)
    }

    pub fn to_flag(self) -> (raw: u8)
        ensures
            raw == self.flag(),
    {
        match self {
            TaskPhase::Waiting => WAITING,
            TaskPhase::Canceled => CANCELED,
            TaskPhase::Done => DONE,
        }
    }

    pub fn from_flag(raw: u8) -> (phase: Option<TaskPhase>)
        ensures
            phase == Self::of_flag(raw),
    {
        if raw == WAITING {
            Some(TaskPhase::Waiting)
        } else if raw == CANCELED {
            Some(TaskPhase::Canceled)
        } else if raw == DONE {
            Some(TaskPhase::Done)
        } else {
            None
        }
    }

    /// Attempts a cancellation on a phase held by value: the new phase, and
    /// whether the attempt took effect.
    pub fn cancel(self) -> (moved: (TaskPhase, bool))
        ensures
            moved.0 == self.after_cancel(),
            moved.1 == self.cancel_wins(),
    {
        match self {
            TaskPhase::Waiting => (TaskPhase::Canceled, true),
            other => (other, false),
        }
    }

    /// Marks a phase held by value as done.
    pub fn done(self) -> (next: TaskPhase)
        ensures
            next == self.after_done(),
    {
        match self {
            TaskPhase::Waiting => TaskPhase::Done,
            other => other,
        }
    }
}

/// A flag value and the phase it stands for determine each other.
pub proof fn lemma_flag_round_trip(phase: TaskPhase, raw: u8)
    ensures
        TaskPhase::of_flag(phase.flag()) == Some(phase),
        TaskPhase::of_flag(raw) matches Some(p) ==> p.flag() == raw,
{
}

/// A phase moves at most once. From `Waiting`, a cancellation and a completion
/// each take effect; once either has, every later cancellation and completion
/// leaves the phase as it is, and no later cancellation wins. So a task ends as
/// canceled or as done, never as both.
pub proof fn lemma_phase_moves_once(phase: TaskPhase)
    ensures
        phase.is_terminal() ==> phase.after_cancel() == phase && phase.after_done() == phase
            && !phase.cancel_wins(),
        phase.after_cancel().is_terminal(),
        phase.after_done().is_terminal(),
        !phase.after_cancel().cancel_wins(),
        !phase.after_done().cancel_wins(),
        phase.after_cancel().after_done() == phase.after_cancel(),
        phase.after_done().after_cancel() == phase.after_done(),
        phase.cancel_wins() ==> phase.after_cancel() is Canceled,
        !(phase.after_cancel() is Canceled && phase.after_cancel() is Done),
{
}

/// Whether a compare-and-swap from `Waiting` took effect, from what it returned.
pub fn swap_took_effect(swapped: Result<u8, u8>) -> (won: bool)
    ensures
        won == (swapped is Ok),
{
    match swapped {
        Ok(_) => true,
        Err(_) => false,
    }
}

/// Whether a flag value read from a task says that the task is canceled.
pub fn flag_is_canceled(raw: u8) -> (canceled: bool)
    ensures
        canceled == (TaskPhase::of_flag(raw) == Some(TaskPhase::Canceled)),
{
    raw == CANCELED
}

/// The identity of a task and the flag that holds its phase. Copies made with
/// [`TaskContext::share`] have the same identity and the same flag.
#[derive(Debug)]
pub struct TaskContext {
    id: usize,
    flag: Arc<AtomicU8>,
}

impl TaskContext {
    /// The identity of the task.
    pub closed spec fn task_id(&self) -> usize {
        self.id
    }

    /// A context for the task `id`, in phase `Waiting`.
    pub fn new(id: usize) -> (ctx: TaskContext)
        ensures
            ctx.task_id() == id,
    {
        TaskContext { id, flag: Arc::new(AtomicU8::new(TaskPhase::Waiting.to_flag())) }
    }

    /// Attempts to move the task from `Waiting` to `Canceled`, and says whether
    /// that took effect. Never blocks. The answer depends on what the other
    /// holders of the flag did before.
    pub fn cancel(&self) -> bool {
        let swapped = self.flag.compare_exchange(
            TaskPhase::Waiting.to_flag(),
            TaskPhase::Canceled.to_flag(),
            Ordering::SeqCst,
            Ordering::SeqCst,
        );
        swap_took_effect(swapped)
    }

    pub fn id(&self) -> (id: usize)
        ensures
            id == self.task_id(),
    {
        self.id
    }

    /// Whether the flag says `Canceled` at the moment it is read.
    pub fn is_canceled(&self) -> bool {
        let raw: u8 = self.flag.load(Ordering::SeqCst);
        flag_is_canceled(raw)
    }

    /// Attempts to move the task from `Waiting` to `Done`. A task that was
    /// canceled in the meantime stays canceled.
    pub fn done(&self) {
        let _ = self.flag.compare_exchange(
            TaskPhase::Waiting.to_flag(),
            TaskPhase::Done.to_flag(),
            Ordering::SeqCst,
            Ordering::SeqCst,
        );
    }

    /// The phase the flag holds at the moment it is read; `None` only if the
    /// flag holds a value that stands for no phase.
    pub fn phase(&self) -> Option<TaskPhase> {
        let raw: u8 = self.flag.load(Ordering::SeqCst);
        TaskPhase::from_flag(raw)
    }

    /// The context of a task whose flag was offered to the registry: if the
    /// registry stored the flag, the context of the task under the key it was
    /// stored at; if it did not, none.
    pub fn at_slot(slot: Option<usize>, flag: Arc<AtomicU8>) -> (ctx: Option<TaskContext>)
        ensures
            match slot {
                Some(key) => ctx matches Some(c) && c.task_id() == key,
                None => ctx is None,
            },
    {
        match slot {
            Some(id) => Some(TaskContext { id, flag }),
            None => None,
        }
    }

    /// Another handle on the same task: the same identity and the same flag.
    pub fn share(&self) -> (other: TaskContext)
        ensures
            other.task_id() == self.task_id(),
    {
        TaskContext { id: self.id, flag: share_flag(&self.flag) }
    }
}

/// Calls `Arc::clone`: another pointer to the same flag.
#[verifier::external_body]
fn share_flag(flag: &Arc<AtomicU8>) -> Arc<AtomicU8> {
    Arc::clone(flag)
}

/// Calls `sharded_slab::Slab::new`: a slot map that holds nothing.
#[verifier::external_body]
fn slots_new() -> (slots: TaskSlots)
    ensures
        registered_keys(slots) == Set::<usize>::empty(),
{
    TaskSlots { inner: sharded_slab::Slab::new() }
}

/// Calls `sharded_slab::Slab::insert`. It stores the value under a key that held
/// nothing and returns that key, or stores nothing and returns `None` when the
/// slot map cannot grow.
#[verifier::external_body]
fn slots_insert(
    slots: &mut TaskSlots,
    flag: Arc<AtomicU8>,
) -> (key: Option<usize>)
    ensures
        match key {
            Some(k) => !registered_keys(*old(slots)).contains(k) && registered_keys(*final(slots))
                == registered_keys(*old(slots)).insert(k),
            None => registered_keys(*final(slots)) == registered_keys(*old(slots)),
        },
{
    slots.inner.insert(flag)
}

/// Calls `sharded_slab::Slab::take`. It removes and returns the value under the
/// key, or returns `None` and changes nothing when the key holds no value.
#[verifier::external_body]
fn slots_take(
    slots: &mut TaskSlots,
    key: usize,
) -> (flag: Option<Arc<AtomicU8>>)
    ensures
        flag is Some <==> registered_keys(*old(slots)).contains(key),
        registered_keys(*final(slots)) == registered_keys(*old(slots)).remove(key),
{
    slots.inner.take(key)
}

/// The registry of pending tasks, owned by the caller side.
pub struct Tasks {
    slots: TaskSlots,
}

impl View for Tasks {
    type V = Set<usize>;

    /// The identities of the pending tasks.
    closed spec fn view(&self) -> Set<usize> {
        registered_keys(self.slots)
    }
}

impl Tasks {
    /// A registry with no pending task.
    pub fn new() -> (tasks: Tasks)
        ensures
            tasks@ == Set::<usize>::empty(),
    {
        Tasks { slots: slots_new() }
    }

    /// Registers a new task and returns its context, whose identity was not
    /// pending before and is now. Returns `None`, and registers nothing, when the
    /// registry cannot take another task.
    pub fn create(&mut self) -> (ctx: Option<TaskContext>)
        ensures
            match ctx {
                Some(c) => !old(self)@.contains(c.task_id()) && final(self)@ == old(self)@.insert(
                    c.task_id(),
                ),
                None => final(self)@ == old(self)@,
            },
    {
        let flag = Arc::new(AtomicU8::new(TaskPhase::Waiting.to_flag()));
        let kept = share_flag(&flag);
        let slot = slots_insert(&mut self.slots, kept);
        TaskContext::at_slot(slot, flag)
    }

    /// Removes a pending task and returns its context. Returns `None`, and
    /// changes nothing, when no task of that identity is pending; so a task is
    /// taken at most once.
    pub fn take(&mut self, key: usize) -> (ctx: Option<TaskContext>)
        ensures
            ctx is Some <==> old(self)@.contains(key),
            ctx matches Some(c) ==> c.task_id() == key,
            final(self)@ == old(self)@.remove(key),
            !final(self)@.contains(key),
    {
        match slots_take(&mut self.slots, key) {
            Some(flag) => Some(TaskContext { id: key, flag }),
            None => None,
        }
    }
}

/// Registers a new task, as [`Tasks::create`] does.
pub fn create(tasks: &mut Tasks) -> (ctx: Option<TaskContext>)
    ensures
        match ctx {
            Some(c) => !old(tasks)@.contains(c.task_id()) && final(tasks)@ == old(tasks)@.insert(
                c.task_id(),
            ),
            None => final(tasks)@ == old(tasks)@,
        },
{
    tasks.create()
}

} // verus!
