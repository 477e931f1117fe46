//! The caller side: what to do about a response of the worker.
//!
//! The caller side owns the registry of pending tasks. A response resolves its
//! task: the task leaves the registry and its handle receives the result, once.
//! A response for a task that is not pending is dropped and reported. A backup
//! that is not yet done does not resolve its task: its progress is reported and
//! the next step is requested.

use vstd::prelude::*;
use crate::backup::lemma_backup_completes;
use crate::backup::remaining_after;
use crate::backup::run;
use crate::backup::steps_needed;
use crate::backup::BackupState;
use crate::backup::Progress;
use crate::dispatch::handled;
use crate::dispatch::Dispatch;
use crate::transaction::TransactionState;
use crate::error::AsletError;
use crate::error::InternalError;
use crate::messages::InputMessage;
use crate::messages::OutputMessage;
use crate::tasks::Tasks;
use crate::types::Columns;
use crate::types::Rows;

verus! {

/// What a task that succeeded hands to its caller.
#[derive(Debug)]
pub enum Payload {
    /// A connection was opened: its id and its path.
    Connection(usize, String),
    /// A statement was executed: the number of affected rows.
    Affected(i64),
    /// A query was run: the rows and the column names.
    Table(Rows, Columns),
    /// A transaction began: the id of its connection, and its ticket.
    Transaction(usize, usize),
    /// The operation succeeded and has nothing to hand over.
    Nothing,
}

/// The result that a task resolves with.
#[derive(Debug)]
pub enum TaskResult {
    /// The operation succeeded: what it hands over.
    Done(Payload),
    /// The code of the error and its human-readable message.
    Failed(i64, String),
}

/// What the caller side does about a response.
#[derive(Debug)]
pub enum Action {
    /// The task was pending and has left the registry: hand its handle the
    /// result.
    Complete(usize, TaskResult),
    /// No task of this identity is pending: drop the result and report it.
    Unknown(usize),
    /// The backup goes on: send this request to the worker.
    Send(InputMessage),
}

/// The progress to report, if the response came from a step of a backup, and
/// what to do. There is one report for each step that was taken.
#[derive(Debug)]
pub struct Handled {
    pub progress: Option<Progress>,
    pub action: Action,
}

/// Whether `result` is the failure that the error resolves a task with: the
/// code of the error and its message.
pub open spec fn fails_with(error: AsletError, result: TaskResult) -> bool {
    result matches TaskResult::Failed(code, text) && code == error.spec_code() && error.has_message(
        text@,
    )
}

/// Whether `result` is what a response resolves its task with. A response for
/// a backup that is not done resolves nothing.
pub open spec fn resolves_with(msg: OutputMessage, result: TaskResult) -> bool {
    match msg {
        OutputMessage::Open(_, Ok((id, path))) => result matches TaskResult::Done(
            Payload::Connection(i, p),
        ) && i == id && p == path,
        OutputMessage::Open(_, Err(e)) => fails_with(e, result),
        OutputMessage::Exec(_, Ok(n)) => result matches TaskResult::Done(Payload::Affected(m)) && m
            == n,
        OutputMessage::Exec(_, Err(e)) => fails_with(e, result),
        OutputMessage::Fetch(_, Ok((rows, columns))) => result matches TaskResult::Done(
            Payload::Table(r, c),
        ) && r == rows && c == columns,
        OutputMessage::Fetch(_, Err(e)) => fails_with(e, result),
        OutputMessage::TransactionStarted(_, Ok((id, ticket))) => result matches TaskResult::Done(
            Payload::Transaction(i, t),
        ) && i == id && t == ticket,
        OutputMessage::TransactionStarted(_, Err(e)) => fails_with(e, result),
        OutputMessage::TransactionCommitted(_, Ok(_)) => result matches TaskResult::Done(
            Payload::Nothing,
        ),
        OutputMessage::TransactionCommitted(_, Err(e)) => fails_with(e, result),
        OutputMessage::TransactionRolledBack(_, Ok(_)) => result matches TaskResult::Done(
            Payload::Nothing,
        ),
        OutputMessage::TransactionRolledBack(_, Err(e)) => fails_with(e, result),
        OutputMessage::Backup(_, Ok(state)) => state.done && result matches TaskResult::Done(
            Payload::Nothing,
        ),
        OutputMessage::Backup(_, Err(e)) => fails_with(e, result),
        OutputMessage::Canceled(_) => fails_with(
            AsletError::Internal(InternalError::TaskCanceled),
            result,
        ),
    }
}

/// Whether the response is that of a backup that has more steps to take.
pub open spec fn continues(msg: OutputMessage) -> bool {
    msg matches OutputMessage::Backup(_, Ok(state)) && !state.done
}

/// The failure that an error resolves a task with.
pub fn failed(error: &AsletError) -> (result: TaskResult)
    ensures
        fails_with(*error, result),
{
    TaskResult::Failed(error.code(), error.message())
}

/// The result that the outcome of an operation resolves a task with: its
/// payload, or the failure of its error.
pub fn task_result(outcome: Result<Payload, AsletError>) -> (result: TaskResult)
    ensures
        match outcome {
            Ok(payload) => result == TaskResult::Done(payload),
            Err(e) => fails_with(e, result),
        },
{
    match outcome {
        Ok(payload) => TaskResult::Done(payload),
        Err(e) => failed(&e),
    }
}

/// Resolves the task `id`: if it is pending it leaves the registry and is to be
/// completed with the result; if not, the result is dropped. Either way the task
/// is not pending afterwards, so no task is completed twice.
pub fn complete_task(tasks: &mut Tasks, id: usize, result: TaskResult) -> (action: Action)
    ensures
        final(tasks)@ == old(tasks)@.remove(id),
        old(tasks)@.contains(id) ==> action == Action::Complete(id, result),
        !old(tasks)@.contains(id) ==> action == Action::Unknown(id),
{
    match tasks.take(id) {
        Some(_) => Action::Complete(id, result),
        None => Action::Unknown(id),
    }
}

/// What handling a response gives.
///
/// - A backup that has more steps to take: the progress of its last step is
///   reported, and nothing if it has taken no step yet; the next step is
///   requested for the same task with the same state, and the registry is as it
///   was.
/// - Any other response resolves its task: the task is not pending afterwards;
///   if it was pending, it is completed with the result of the response, and if
///   it was not, it is reported as unknown. The progress of a backup that is
///   done is reported too.
pub open spec fn bridged(
    before: Set<usize>,
    msg: OutputMessage,
    out: Handled,
    after: Set<usize>,
) -> bool {
    if continues(msg) {
        &&& out.progress == msg->Backup_1->Ok_0.progress
        &&& out.action == Action::Send(
            InputMessage::BackupStep(msg.task(), msg->Backup_1->Ok_0),
        )
        &&& after == before
    } else {
        &&& out.progress == (match msg {
            OutputMessage::Backup(_, Ok(state)) => state.progress,
            _ => None,
        })
        &&& after == before.remove(msg.task().task_id())
        &&& if before.contains(msg.task().task_id()) {
            out.action matches Action::Complete(id, result) && id == msg.task().task_id()
                && resolves_with(msg, result)
        } else {
            out.action == Action::Unknown(msg.task().task_id())
        }
    }
}

/// Handles one response of the worker: see [`bridged`].
pub fn handle_msg(tasks: &mut Tasks, msg: OutputMessage) -> (out: Handled)
    ensures
        bridged(old(tasks)@, msg, out, final(tasks)@),
{
    match msg {
        OutputMessage::Open(ctx, result) => {
            let outcome = match result {
                Ok((id, path)) => Ok(Payload::Connection(id, path)),
                Err(e) => Err(e),
            };
            let action = complete_task(tasks, ctx.id(), task_result(outcome));
            Handled { progress: None, action }
        },
        OutputMessage::Exec(ctx, result) => {
            let outcome = match result {
                Ok(n) => Ok(Payload::Affected(n)),
                Err(e) => Err(e),
            };
            let action = complete_task(tasks, ctx.id(), task_result(outcome));
            Handled { progress: None, action }
        },
        OutputMessage::Fetch(ctx, result) => {
            let outcome = match result {
                Ok((rows, columns)) => Ok(Payload::Table(rows, columns)),
                Err(e) => Err(e),
            };
            let action = complete_task(tasks, ctx.id(), task_result(outcome));
            Handled { progress: None, action }
        },
        OutputMessage::TransactionStarted(ctx, result) => {
            let outcome = match result {
                Ok((id, ticket)) => Ok(Payload::Transaction(id, ticket)),
                Err(e) => Err(e),
            };
            let action = complete_task(tasks, ctx.id(), task_result(outcome));
            Handled { progress: None, action }
        },
        OutputMessage::TransactionCommitted(ctx, result) => {
            let outcome = match result {
                Ok(_) => Ok(Payload::Nothing),
                Err(e) => Err(e),
            };
            let action = complete_task(tasks, ctx.id(), task_result(outcome));
            Handled { progress: None, action }
        },
        OutputMessage::TransactionRolledBack(ctx, result) => {
            let outcome = match result {
                Ok(_) => Ok(Payload::Nothing),
                Err(e) => Err(e),
            };
            let action = complete_task(tasks, ctx.id(), task_result(outcome));
            Handled { progress: None, action }
        },
        OutputMessage::Backup(ctx, result) => match result {
            Ok(state) => {
                let main = state.main();
                let progress = main.tick();
                if main.is_done() {
                    let action = complete_task(tasks, ctx.id(), TaskResult::Done(Payload::Nothing));
                    Handled { progress, action }
                } else {
                    Handled { progress, action: Action::Send(InputMessage::BackupStep(ctx, state)) }
                }
            },
            Err(e) => {
                let action = complete_task(tasks, ctx.id(), failed(&e));
                Handled { progress: None, action }
            },
        },
        OutputMessage::Canceled(ctx) => {
            let error = AsletError::Internal(InternalError::TaskCanceled);
            let action = complete_task(tasks, ctx.id(), failed(&error));
            Handled { progress: None, action }
        },
    }
}

/// What waiting for the next response came to.
#[derive(Debug)]
pub enum Received {
    /// A response arrived in time.
    Message(OutputMessage),
    /// The time ran out.
    Timeout,
    /// The worker is gone: no response will ever arrive.
    Disconnected,
}

/// How long a poll may still wait, in milliseconds: the time to the deadline, or
/// `None` when the deadline is reached.
pub fn wait_budget(now: u64, deadline: u64) -> (budget: Option<u64>)
    ensures
        budget == (if now >= deadline {
            None
        } else {
            Some((deadline - now) as u64)
        }),
{
    if now >= deadline {
        None
    } else {
        Some(deadline - now)
    }
}

/// One turn of a poll: handles the response if one arrived. The poll goes on
/// exactly when one did; when the time ran out or the worker is gone it stops,
/// without an error, and the registry is as it was.
pub fn poll_turn(tasks: &mut Tasks, received: Received) -> (turn: Option<Handled>)
    ensures
        match received {
            Received::Message(msg) => turn matches Some(out) && bridged(
                old(tasks)@,
                msg,
                out,
                final(tasks)@,
            ),
            _ => turn is None && final(tasks)@ == old(tasks)@,
        },
{
    match received {
        Received::Message(msg) => Some(handle_msg(tasks, msg)),
        Received::Timeout => None,
        Received::Disconnected => None,
    }
}

/// A task resolves once. After a response for a task was handled, a second
/// response for the same task completes nothing: it is reported as unknown and
/// the registry stays as it is.
pub proof fn lemma_resolves_once(
    before: Set<usize>,
    first: OutputMessage,
    first_out: Handled,
    between: Set<usize>,
    second: OutputMessage,
    second_out: Handled,
    after: Set<usize>,
)
    requires
        bridged(before, first, first_out, between),
        bridged(between, second, second_out, after),
        !continues(first),
        !continues(second),
        second.task().task_id() == first.task().task_id(),
    ensures
        second_out.action == Action::Unknown(first.task().task_id()),
        after == between,
{
    assert(between.remove(first.task().task_id()) =~= between);
}

/// One report for each step. The answer to the request that begins a backup
/// carries a state that has taken no step, and handling it reports nothing. The
/// answer to the step number `taken` of a backup of `pages` pages in steps of
/// `step` pages reports all the pages as the total and the pages that remain
/// after that step; what remains never goes up from one report to the next and
/// is 0 in the report of the step that completes the backup.
pub proof fn lemma_one_report_per_step(
    before: Set<usize>,
    msg: OutputMessage,
    out: Handled,
    after: Set<usize>,
    pages: nat,
    step: nat,
    taken: nat,
)
    requires
        pages >= 1,
        step >= 1,
        pages <= i32::MAX,
        step <= i32::MAX,
        msg matches OutputMessage::Backup(_, Ok(state)) && state == run(
            BackupState::initial(step as i32),
            pages,
            step,
            taken,
        ),
        bridged(before, msg, out, after),
    ensures
        taken == 0 ==> out.progress is None && out.action is Send,
        taken >= 1 ==> out.progress == Some(
            Progress {
                pagecount: pages as i32,
                remaining: remaining_after(pages, step, taken) as i32,
            },
        ),
        remaining_after(pages, step, taken + 1) <= remaining_after(pages, step, taken),
        out.action is Send <==> taken < steps_needed(pages, step),
        taken == steps_needed(pages, step) ==> remaining_after(pages, step, taken) == 0,
{
    lemma_backup_completes(pages, step, taken);
}

/// From request to resolution. A request for a pending task that the worker
/// answers is answered for that task, with `Canceled` exactly if the task was
/// seen canceled; and when the caller side handles the answer, the task is
/// completed with the result of that answer and is pending no longer. So a task
/// resolves as canceled or as carried out, never as both, and once.
pub proof fn lemma_resolves_as_handled(
    before: (Set<usize>, Seq<TransactionState>),
    msg: InputMessage,
    canceled: bool,
    response: OutputMessage,
    after: (Set<usize>, Seq<TransactionState>),
    pending: Set<usize>,
    out: Handled,
    left: Set<usize>,
)
    requires
        msg.task() is Some,
        handled(before, msg, canceled, Dispatch::Reply(response), after),
        pending.contains(msg.task()->Some_0.task_id()),
        bridged(pending, response, out, left),
    ensures
        response.task() == msg.task()->Some_0,
        canceled <==> response is Canceled,
        canceled ==> after == before,
        !continues(response) ==> {
            &&& out.action matches Action::Complete(id, result)
            &&& id == msg.task()->Some_0.task_id()
            &&& resolves_with(response, result)
            &&& !left.contains(id)
        },
{
}

} // verus!
