//! Non-blocking access to an embedded SQL database.
//!
//! All database work is done by one worker, which owns every connection. The
//! caller side submits requests and polls for responses; each request belongs to
//! a task, which can be canceled until the worker takes it up.
//!
//! - [`types`]: the value model.
//! - [`error`]: the errors and their codes.
//! - [`tasks`]: the registry of pending tasks and the shared phase of a task.
//! - [`transaction`]: the state of a transaction.
//! - [`pool`]: the connection pool.
//! - [`engine`]: the calls into the SQL engine.
//! - [`ops`]: the operations of the worker.
//! - [`backup`]: incremental backup.
//! - [`messages`]: requests and responses.
//! - [`dispatch`]: the worker's handling of a request.
//! - [`bridge`]: the caller side's handling of a response.

pub mod backup;
pub mod bridge;
pub mod dispatch;
pub mod engine;
pub mod error;
pub mod messages;
pub mod ops;
pub mod pool;
pub mod tasks;
pub mod transaction;
pub mod types;

pub use backup::BackupRequest;
pub use backup::BackupState;
pub use backup::Main;
pub use backup::Progress;
pub use backup::Worker;
pub use bridge::handle_msg;
pub use bridge::Action;
pub use bridge::Handled;
pub use bridge::Payload;
pub use bridge::TaskResult;
pub use dispatch::Dispatch;
pub use dispatch::Dispatcher;
pub use error::AsletError;
pub use error::EngineError;
pub use error::EngineFault;
pub use error::InternalError;
pub use messages::InputMessage;
pub use messages::OutputMessage;
pub use pool::ConnPool;
pub use tasks::TaskContext;
pub use tasks::TaskPhase;
pub use tasks::Tasks;
pub use transaction::TransactionState;
pub use transaction::TxPhase;
pub use types::Columns;
pub use types::Real;
pub use types::DataRow;
pub use types::Rows;
pub use types::Value;
