//! The messages between the caller side and the worker.
//!
//! Requests travel in one queue, responses in another, each in the order they
//! were sent. Only ids and owned values cross: no connection ever leaves the
//! worker.

use vstd::prelude::*;
use crate::backup::BackupRequest;
use crate::backup::BackupState;
use crate::error::AsletError;
use crate::tasks::TaskContext;
use crate::types::Columns;
use crate::types::DataRow;
use crate::types::Rows;

verus! {

/// A request to the worker.
#[derive(Debug)]
pub enum InputMessage {
    /// Open a connection to the database at the path.
    Open(TaskContext, String),
    /// On the connection, execute the statement once for each row, all or none.
    BatchInsert(usize, TaskContext, String, Rows),
    /// On the connection, execute the statement with the parameters.
    Exec(usize, TaskContext, String, DataRow),
    /// On the connection, run the query with the parameters.
    Fetch(usize, TaskContext, String, DataRow),
    /// Begin a transaction on a new connection to the database at the path.
    BeginTransaction(TaskContext, String),
    /// Roll back the transaction with this ticket on its connection.
    Rollback(TaskContext, usize, usize),
    /// Commit the transaction with this ticket on its connection.
    Commit(TaskContext, usize, usize),
    /// Begin a backup.
    BeginBackup(TaskContext, BackupRequest),
    /// Take the next step of a backup.
    BackupStep(TaskContext, BackupState),
    /// Close the connection. Nobody waits for the answer.
    CloseConn(usize),
    /// Stop the worker.
    Quit,
}

/// A response of the worker.
#[derive(Debug)]
pub enum OutputMessage {
    /// The id of the new connection and the path it was opened on.
    Open(TaskContext, Result<(usize, String), AsletError>),
    /// The number of affected rows.
    Exec(TaskContext, Result<i64, AsletError>),
    /// The rows and the column names.
    Fetch(TaskContext, Result<(Rows, Columns), AsletError>),
    /// The id of the transaction's connection and the transaction's ticket.
    TransactionStarted(TaskContext, Result<(usize, usize), AsletError>),
    TransactionCommitted(TaskContext, Result<(), AsletError>),
    TransactionRolledBack(TaskContext, Result<(), AsletError>),
    /// The state of the backup after it began or after a step.
    Backup(TaskContext, Result<BackupState, AsletError>),
    /// The task was canceled before the worker started on it.
    Canceled(TaskContext),
}

impl InputMessage {
    /// The task that the request belongs to. Closing a connection and stopping
    /// the worker belong to no task.
    pub open spec fn task(self) -> Option<TaskContext> {
        match self {
            InputMessage::Open(ctx, _) => Some(ctx),
            InputMessage::BatchInsert(_, ctx, _, _) => Some(ctx),
            InputMessage::Exec(_, ctx, _, _) => Some(ctx),
            InputMessage::Fetch(_, ctx, _, _) => Some(ctx),
            InputMessage::BeginTransaction(ctx, _) => Some(ctx),
            InputMessage::Rollback(ctx, _, _) => Some(ctx),
            InputMessage::Commit(ctx, _, _) => Some(ctx),
            InputMessage::BeginBackup(ctx, _) => Some(ctx),
            InputMessage::BackupStep(ctx, _) => Some(ctx),
            InputMessage::CloseConn(_) => None,
            InputMessage::Quit => None,
        }
    }
}

impl OutputMessage {
    /// The task that the response belongs to.
    pub open spec fn task(self) -> TaskContext {
        match self {
            OutputMessage::Open(ctx, _) => ctx,
            OutputMessage::Exec(ctx, _) => ctx,
            OutputMessage::Fetch(ctx, _) => ctx,
            OutputMessage::TransactionStarted(ctx, _) => ctx,
            OutputMessage::TransactionCommitted(ctx, _) => ctx,
            OutputMessage::TransactionRolledBack(ctx, _) => ctx,
            OutputMessage::Backup(ctx, _) => ctx,
            OutputMessage::Canceled(ctx) => ctx,
        }
    }

    /// The identity of the task that the response belongs to.
    pub fn task_id(&self) -> (id: usize)
        ensures
            id == self.task().task_id(),
    {
        match self {
            OutputMessage::Open(ctx, _) => ctx.id(),
            OutputMessage::Exec(ctx, _) => ctx.id(),
            OutputMessage::Fetch(ctx, _) => ctx.id(),
            OutputMessage::TransactionStarted(ctx, _) => ctx.id(),
            OutputMessage::TransactionCommitted(ctx, _) => ctx.id(),
            OutputMessage::TransactionRolledBack(ctx, _) => ctx.id(),
            OutputMessage::Backup(ctx, _) => ctx.id(),
            OutputMessage::Canceled(ctx) => ctx.id(),
        }
    }
}

} // verus!
