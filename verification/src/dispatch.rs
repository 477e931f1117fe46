//! The dispatch engine: the worker's handling of one request.
//!
//! The worker owns the connection pool and the state of every transaction it
//! has begun. It takes the requests one at a time, in the order they were sent.
//! For a request that belongs to a task it first looks whether the task was
//! canceled: if so it answers `Canceled` and does nothing else; if not it
//! carries out the operation, marks the task done and answers with the result.
//! An error of one request is the result of that request and nothing more.
//!
//! Three kinds of request are not carried out in one go but handed to whoever
//! drives the worker, after the look at the task: a backup to begin and a
//! backup to step, because the driver holds the engine's cursor, and a query,
//! because the names of its columns are read by the driver, who can deal with
//! a name that the engine cannot hand out as text.

use vstd::prelude::*;
use crate::backup::BackupRequest;
use crate::backup::BackupState;
use crate::error::AsletError;
use crate::messages::InputMessage;
use crate::messages::OutputMessage;
use crate::ops::batch_insert;
use crate::ops::begin_transaction;
use crate::ops::close;
use crate::ops::commit;
use crate::ops::ended_as;
use crate::ops::exec;
use crate::ops::fetch;
use crate::ops::fetched;
use crate::ops::invalid_transaction;
use crate::ops::on_connection;
use crate::ops::open;
use crate::ops::rollback;
use crate::ops::total;
use crate::pool::ConnPool;
use crate::tasks::TaskContext;
use crate::types::DataRow;
use crate::transaction::TransactionState;
use crate::transaction::TxPhase;
use crate::error::InternalError;

verus! {

/// What the worker does about one request.
#[derive(Debug)]
pub enum Dispatch {
    /// Send this response.
    Reply(OutputMessage),
    /// Begin this backup: open its connections and its cursor, then answer with
    /// [`reply_backup`].
    BeginBackup(TaskContext, BackupRequest),
    /// Take the next step of this backup on its cursor, then answer with
    /// [`reply_backup`].
    StepBackup(TaskContext, BackupState),
    /// Run this query on this connection with these parameters: read the names
    /// of the query's columns from the connection, then answer with
    /// [`Dispatcher::fetch`].
    Fetch(TaskContext, usize, String, DataRow),
    /// The connection was closed. Nothing is sent.
    Closed(usize),
    /// There was no such connection to close. Nothing is sent; this is worth a
    /// diagnostic.
    NotOpen(usize),
    /// Stop.
    Quit,
}

/// The worker's state: the live connections, and the state of every transaction
/// begun so far, under its ticket.
pub struct Dispatcher {
    pool: ConnPool,
    transactions: Vec<TransactionState>,
}

impl View for Dispatcher {
    type V = (Set<usize>, Seq<TransactionState>);

    /// The ids of the live connections, and the transaction states by ticket.
    closed spec fn view(&self) -> (Set<usize>, Seq<TransactionState>) {
        (self.pool@, self.transactions@)
    }
}

/// What ending the transaction with this ticket leaves behind. A ticket that
/// was never given out stands for no transaction: the result is
/// `InvalidTransaction` and nothing changes. Otherwise only that transaction's
/// state and the pool can change, as [`ended_as`] says.
pub open spec fn ended_ticket(
    before: (Set<usize>, Seq<TransactionState>),
    conn_id: usize,
    ticket: usize,
    ended: TxPhase,
    r: Result<(), AsletError>,
    after: (Set<usize>, Seq<TransactionState>),
) -> bool {
    if ticket < before.1.len() {
        &&& after.1 == before.1.update(ticket as int, after.1[ticket as int])
        &&& ended_as(
            (before.1[ticket as int]@, before.0),
            conn_id,
            ended,
            r,
            (after.1[ticket as int]@, after.0),
        )
    } else {
        r == Err::<(), AsletError>(invalid_transaction()) && after == before
    }
}

/// What carrying out a request that was not canceled gives: the response of the
/// kind that belongs to the request, for the same task, with the result of the
/// operation, and the worker's state after it.
pub open spec fn executed(
    before: (Set<usize>, Seq<TransactionState>),
    msg: InputMessage,
    out: Dispatch,
    after: (Set<usize>, Seq<TransactionState>),
) -> bool {
    match msg {
        InputMessage::Open(ctx, path) => {
            &&& out matches Dispatch::Reply(OutputMessage::Open(c, r))
            &&& c == ctx
            &&& after.1 == before.1
            &&& match r {
                Ok((id, p)) => p == path && !before.0.contains(id) && after.0 == before.0.insert(
                    id,
                ),
                Err(e) => e.is_engine() && after.0 == before.0,
            }
        },
        InputMessage::BatchInsert(conn_id, ctx, _, rows) => {
            &&& out matches Dispatch::Reply(OutputMessage::Exec(c, r))
            &&& c == ctx
            &&& after == before
            &&& on_connection(before.0, conn_id, r)
            &&& r matches Ok(n) ==> exists|counts: Seq<usize>|
                counts.len() == rows@.len() && n == #[trigger] total(counts) as i64
        },
        InputMessage::Exec(conn_id, ctx, _, _) => {
            &&& out matches Dispatch::Reply(OutputMessage::Exec(c, r))
            &&& c == ctx
            &&& after == before
            &&& on_connection(before.0, conn_id, r)
        },
        InputMessage::Fetch(conn_id, ctx, query, params) => out == Dispatch::Fetch(
            ctx,
            conn_id,
            query,
            params,
        ) && after == before,
        InputMessage::BeginTransaction(ctx, _) => {
            &&& out matches Dispatch::Reply(OutputMessage::TransactionStarted(c, r))
            &&& c == ctx
            &&& match r {
                Ok((id, ticket)) => {
                    &&& !before.0.contains(id)
                    &&& after.0 == before.0.insert(id)
                    &&& ticket == before.1.len()
                    &&& after.1 == before.1.push(TransactionState::fresh())
                },
                Err(e) => e.is_engine() && after == before,
            }
        },
        InputMessage::Rollback(ctx, conn_id, ticket) => {
            &&& out matches Dispatch::Reply(OutputMessage::TransactionRolledBack(c, r))
            &&& c == ctx
            &&& ended_ticket(before, conn_id, ticket, TxPhase::RolledBack, r, after)
        },
        InputMessage::Commit(ctx, conn_id, ticket) => {
            &&& out matches Dispatch::Reply(OutputMessage::TransactionCommitted(c, r))
            &&& c == ctx
            &&& ended_ticket(before, conn_id, ticket, TxPhase::Committed, r, after)
        },
        InputMessage::BeginBackup(ctx, request) => out == Dispatch::BeginBackup(ctx, request)
            && after == before,
        InputMessage::BackupStep(ctx, state) => out == Dispatch::StepBackup(ctx, state) && after
            == before,
        InputMessage::CloseConn(_) => false,
        InputMessage::Quit => false,
    }
}

/// What handling a request gives, where `canceled` is what the worker saw when
/// it looked at the request's task.
///
/// - `Quit` stops the worker and changes nothing.
/// - `CloseConn` removes the connection from the pool if it is there, and says
///   which was the case.
/// - Any other request whose task was seen canceled is answered with
///   `Canceled` for that task, and nothing changes: no connection is opened,
///   used or closed, and no transaction moves.
/// - Any other request is carried out, as [`executed`] says.
pub open spec fn handled(
    before: (Set<usize>, Seq<TransactionState>),
    msg: InputMessage,
    canceled: bool,
    out: Dispatch,
    after: (Set<usize>, Seq<TransactionState>),
) -> bool {
    match msg {
        InputMessage::Quit => out == Dispatch::Quit && after == before,
        InputMessage::CloseConn(id) => {
            &&& after == (before.0.remove(id), before.1)
            &&& out == (if before.0.contains(id) {
                Dispatch::Closed(id)
            } else {
                Dispatch::NotOpen(id)
            })
        },
        _ => if canceled {
            out == Dispatch::Reply(OutputMessage::Canceled(msg.task()->Some_0)) && after == before
        } else {
            executed(before, msg, out, after)
        },
    }
}

/// What handling a batch of requests gives: each request was handled in turn,
/// in the order of the batch, starting from the state that the one before it
/// left; `outs` holds what each came to, in the same order.
pub open spec fn served(
    before: (Set<usize>, Seq<TransactionState>),
    requests: Seq<InputMessage>,
    outs: Seq<Dispatch>,
    after: (Set<usize>, Seq<TransactionState>),
) -> bool
    decreases requests.len(),
{
    if requests.len() == 0 {
        outs.len() == 0 && after == before
    } else {
        &&& outs.len() == requests.len()
        &&& exists|mid: (Set<usize>, Seq<TransactionState>), canceled: bool|
            {
                &&& served(before, requests.drop_last(), outs.drop_last(), mid)
                &&& requests.last().task() is None ==> !canceled
                &&& #[trigger] handled(mid, requests.last(), canceled, outs.last(), after)
            }
    }
}

impl Dispatch {
    /// The task that the worker's doing belongs to.
    pub open spec fn task(self) -> Option<TaskContext> {
        match self {
            Dispatch::Reply(response) => Some(response.task()),
            Dispatch::BeginBackup(ctx, _) => Some(ctx),
            Dispatch::StepBackup(ctx, _) => Some(ctx),
            Dispatch::Fetch(ctx, _, _, _) => Some(ctx),
            Dispatch::Closed(_) => None,
            Dispatch::NotOpen(_) => None,
            Dispatch::Quit => None,
        }
    }

    /// Whether this is the answer `Canceled`.
    pub open spec fn is_cancellation(self) -> bool {
        self matches Dispatch::Reply(OutputMessage::Canceled(_))
    }
}

/// A request for a task comes to exactly one thing, for that task: the answer
/// `Canceled` if the task was seen canceled, and the carrying out of the
/// operation if it was not; never both. If it was seen canceled, nothing of the
/// worker's state has changed: no connection was opened, used or closed.
pub proof fn lemma_canceled_or_carried_out(
    before: (Set<usize>, Seq<TransactionState>),
    msg: InputMessage,
    canceled: bool,
    out: Dispatch,
    after: (Set<usize>, Seq<TransactionState>),
)
    requires
        msg.task() is Some,
        handled(before, msg, canceled, out, after),
    ensures
        out.task() == msg.task(),
        out.is_cancellation() <==> canceled,
        canceled ==> after == before,
{
}

/// Marks the task done and builds the response to a backup request from what
/// came of it.
pub fn reply_backup(ctx: TaskContext, result: Result<BackupState, AsletError>) -> (out:
    OutputMessage)
    ensures
        out == OutputMessage::Backup(ctx, result),
{
    ctx.done();
    OutputMessage::Backup(ctx, result)
}

/// Looks whether the task of a request is canceled at this moment. A request
/// that belongs to no task is never canceled.
pub fn observe(msg: &InputMessage) -> (canceled: bool)
    ensures
        msg.task() is None ==> !canceled,
{
    match msg {
        InputMessage::Open(ctx, _) => ctx.is_canceled(),
        InputMessage::BatchInsert(_, ctx, _, _) => ctx.is_canceled(),
        InputMessage::Exec(_, ctx, _, _) => ctx.is_canceled(),
        InputMessage::Fetch(_, ctx, _, _) => ctx.is_canceled(),
        InputMessage::BeginTransaction(ctx, _) => ctx.is_canceled(),
        InputMessage::Rollback(ctx, _, _) => ctx.is_canceled(),
        InputMessage::Commit(ctx, _, _) => ctx.is_canceled(),
        InputMessage::BeginBackup(ctx, _) => ctx.is_canceled(),
        InputMessage::BackupStep(ctx, _) => ctx.is_canceled(),
        InputMessage::CloseConn(_) => false,
        InputMessage::Quit => false,
    }
}

impl Dispatcher {
    /// A worker with no connection and no transaction.
    pub fn new() -> (dispatcher: Dispatcher)
        ensures
            dispatcher@ == (Set::<usize>::empty(), Seq::<TransactionState>::empty()),
    {
        Dispatcher { pool: ConnPool::new(), transactions: Vec::new() }
    }

    /// Whether a connection with this id is live.
    pub fn is_live(&self, conn_id: usize) -> (live: bool)
        ensures
            live == self@.0.contains(conn_id),
    {
        self.pool.contains(conn_id)
    }

    /// The live connection with this id, for reading the names of the columns
    /// of a query.
    pub fn connection(&self, conn_id: usize) -> (conn: Option<&rusqlite::Connection>)
        ensures
            conn is Some <==> self@.0.contains(conn_id),
    {
        self.pool.get(conn_id)
    }

    /// Carries out a query that [`Dispatch::Fetch`] asked for, marks the task
    /// done and builds the response. `names` is what reading the names of the
    /// query's columns came to. The response is for the same task and holds
    /// what [`fetched`] says; the worker's state is as it was.
    pub fn fetch(
        &self,
        ctx: TaskContext,
        conn_id: usize,
        query: String,
        params: DataRow,
        names: Result<Vec<String>, rusqlite::Error>,
    ) -> (out: OutputMessage)
        ensures
            out matches OutputMessage::Fetch(c, r) && c == ctx && fetched(
                self@.0,
                conn_id,
                names,
                r,
            ),
    {
        let r = fetch(&self.pool, conn_id, params, query, names);
        ctx.done();
        OutputMessage::Fetch(ctx, r)
    }

    /// The state of the transaction with this ticket, if the ticket was given
    /// out.
    pub fn transaction(&self, ticket: usize) -> (state: Option<&TransactionState>)
        ensures
            state == (if ticket < self@.1.len() {
                Some(&self@.1[ticket as int])
            } else {
                None
            }),
    {
        if ticket < self.transactions.len() {
            Some(&self.transactions[ticket])
        } else {
            None
        }
    }

    /// Ends the transaction with this ticket, by commit or by rollback.
    fn end(&mut self, conn_id: usize, ticket: usize, ended: TxPhase) -> (r: Result<
        (),
        AsletError,
    >)
        requires
            ended == TxPhase::Committed || ended == TxPhase::RolledBack,
        ensures
            ended_ticket(old(self)@, conn_id, ticket, ended, r, final(self)@),
    {
        if ticket >= self.transactions.len() {
            return Err(AsletError::Internal(InternalError::InvalidTransaction));
        }
        let state = &mut self.transactions[ticket];
        let r = match ended {
            TxPhase::Committed => commit(&mut self.pool, conn_id, state),
            _ => rollback(&mut self.pool, conn_id, state),
        };
        proof {
            assert(self.transactions@ =~= old(self).transactions@.update(
                ticket as int,
                self.transactions@[ticket as int],
            ));
        }
        r
    }

    /// Handles one request, given what was seen of its task: see [`handled`].
    pub fn handle(&mut self, msg: InputMessage, canceled: bool) -> (out: Dispatch)
        ensures
            handled(old(self)@, msg, canceled, out, final(self)@),
    {
        match msg {
            InputMessage::Quit => Dispatch::Quit,
            InputMessage::CloseConn(conn_id) => {
                if close(&mut self.pool, conn_id) {
                    Dispatch::Closed(conn_id)
                } else {
                    Dispatch::NotOpen(conn_id)
                }
            },
            InputMessage::Open(ctx, path) => {
                if canceled {
                    return Dispatch::Reply(OutputMessage::Canceled(ctx));
                }
                let r = open(&mut self.pool, path);
                ctx.done();
                Dispatch::Reply(OutputMessage::Open(ctx, r))
            },
            InputMessage::BatchInsert(conn_id, ctx, query, rows) => {
                if canceled {
                    return Dispatch::Reply(OutputMessage::Canceled(ctx));
                }
                let r = batch_insert(&mut self.pool, conn_id, rows, query);
                ctx.done();
                Dispatch::Reply(OutputMessage::Exec(ctx, r))
            },
            InputMessage::Exec(conn_id, ctx, query, params) => {
                if canceled {
                    return Dispatch::Reply(OutputMessage::Canceled(ctx));
                }
                let r = exec(&self.pool, conn_id, params, query);
                ctx.done();
                Dispatch::Reply(OutputMessage::Exec(ctx, r))
            },
            InputMessage::Fetch(conn_id, ctx, query, params) => {
                if canceled {
                    return Dispatch::Reply(OutputMessage::Canceled(ctx));
                }
                Dispatch::Fetch(ctx, conn_id, query, params)
            },
            InputMessage::BeginTransaction(ctx, path) => {
                if canceled {
                    return Dispatch::Reply(OutputMessage::Canceled(ctx));
                }
                let r = match begin_transaction(&mut self.pool, path) {
                    Ok(conn_id) => {
                        let ticket = self.transactions.len();
                        self.transactions.push(TransactionState::new());
                        Ok((conn_id, ticket))
                    },
                    Err(e) => Err(e),
                };
                ctx.done();
                Dispatch::Reply(OutputMessage::TransactionStarted(ctx, r))
            },
            InputMessage::Rollback(ctx, conn_id, ticket) => {
                if canceled {
                    return Dispatch::Reply(OutputMessage::Canceled(ctx));
                }
                let r = self.end(conn_id, ticket, TxPhase::RolledBack);
                ctx.done();
                Dispatch::Reply(OutputMessage::TransactionRolledBack(ctx, r))
            },
            InputMessage::Commit(ctx, conn_id, ticket) => {
                if canceled {
                    return Dispatch::Reply(OutputMessage::Canceled(ctx));
                }
                let r = self.end(conn_id, ticket, TxPhase::Committed);
                ctx.done();
                Dispatch::Reply(OutputMessage::TransactionCommitted(ctx, r))
            },
            InputMessage::BeginBackup(ctx, request) => {
                if canceled {
                    return Dispatch::Reply(OutputMessage::Canceled(ctx));
                }
                Dispatch::BeginBackup(ctx, request)
            },
            InputMessage::BackupStep(ctx, state) => {
                if canceled {
                    return Dispatch::Reply(OutputMessage::Canceled(ctx));
                }
                Dispatch::StepBackup(ctx, state)
            },
        }
    }

    /// Handles the requests of a batch in order, up to and including the first
    /// `Quit`, and returns what each came to, in order.
    pub fn message_loop(&mut self, inbox: Vec<InputMessage>) -> (outs: Vec<Dispatch>)
        ensures
            outs@.len() <= inbox@.len(),
            served(old(self)@, inbox@.take(outs@.len() as int), outs@, final(self)@),
            forall|i: int| 0 <= i < outs@.len() - 1 ==> !(inbox@[i] is Quit),
            outs@.len() < inbox@.len() ==> outs@.len() >= 1 && inbox@[outs@.len() - 1] is Quit,
    {
        let mut outs: Vec<Dispatch> = Vec::new();
        let ghost requests = inbox@;
        for msg in it: inbox
            invariant
                requests == it.seq(),
                outs@.len() == it.index(),
                served(old(self)@, requests.take(it.index() as int), outs@, self@),
                forall|i: int| 0 <= i < outs@.len() ==> !(requests[i] is Quit),
        {
            let ghost mid = self@;
            let ghost earlier = outs@;
            let ghost k = it.index() as int;
            let ghost request = msg;
            let stop = match msg {
                InputMessage::Quit => true,
                _ => false,
            };
            let out = self.dispatch(msg);
            let ghost answer = out;
            outs.push(out);
            proof {
                let canceled = choose|canceled: bool|
                    (request.task() is None ==> !canceled) && #[trigger] handled(
                        mid,
                        request,
                        canceled,
                        answer,
                        self@,
                    );
                assert(request == requests[k]);
                assert(requests.take(k + 1).drop_last() =~= requests.take(k));
                assert(requests.take(k + 1).last() == request);
                assert(outs@.drop_last() =~= earlier);
                assert(outs@.last() == answer);
                assert(handled(mid, requests.take(k + 1).last(), canceled, outs@.last(), self@));
                assert(served(old(self)@, requests.take(k + 1), outs@, self@));
            }
            if stop {
                return outs;
            }
        }
        proof {
            assert(requests.take(requests.len() as int) =~= requests);
        }
        outs
    }

    /// Handles one request: looks at its task, then does what [`handled`] says
    /// for what it saw.
    pub fn dispatch(&mut self, msg: InputMessage) -> (out: Dispatch)
        ensures
            exists|canceled: bool|
                (msg.task() is None ==> !canceled) && #[trigger] handled(
                    old(self)@,
                    msg,
                    canceled,
                    out,
                    final(self)@,
                ),
    {
        let canceled = observe(&msg);
        self.handle(msg, canceled)
    }
}

} // verus!
