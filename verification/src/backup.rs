//! Incremental backup: a copy of one database into another that advances a few
//! pages at a time, so that the worker can serve other requests between steps.
//!
//! A backup is `Initialized`, then stepped any number of times, then `Done`. The
//! engine's cursor and the two connections it copies between belong to whoever
//! drives the backup; [`BackupState`] holds what travels between the worker and
//! the caller: the step size, whether the copy is complete, and the progress as
//! of the last step.

use vstd::prelude::*;
use vstd::arithmetic::div_mod::lemma_fundamental_div_mod;
use crate::engine::open_connection;
use crate::error::AsletError;
use crate::error::InternalError;

verus! {

/// The engine's cursor of a backup in progress, which borrows the source and
/// the destination connection.
#[verifier::external_type_specification]
#[verifier::external_body]
pub struct ExCursor<'a, 'b>(rusqlite::backup::Backup<'a, 'b>);

/// Calls `rusqlite::backup::Backup::new`.
#[verifier::external_body]
fn cursor_new<'a, 'b>(src: &'a rusqlite::Connection, dst: &'b mut rusqlite::Connection) -> Result<
    rusqlite::backup::Backup<'a, 'b>,
    rusqlite::Error,
> {
    rusqlite::backup::Backup::new(src, dst)
}

/// Calls `rusqlite::backup::Backup::step` and says whether the engine answered
/// that the copy is complete.
#[verifier::external_body]
fn cursor_step(cursor: &rusqlite::backup::Backup<'_, '_>, pages: i32) -> Result<
    bool,
    rusqlite::Error,
> {
    cursor.step(pages).map(|answer| matches!(answer, rusqlite::backup::StepResult::Done))
}

/// Calls `rusqlite::backup::Backup::progress` and moves its two fields over.
#[verifier::external_body]
fn cursor_progress(cursor: &rusqlite::backup::Backup<'_, '_>) -> Progress {
    let progress = cursor.progress();
    Progress { pagecount: progress.pagecount, remaining: progress.remaining }
}

/// What is needed to begin a backup: the two paths and the step size in pages.
#[derive(Debug, Clone, PartialEq, Eq)]
pub struct BackupRequest {
    pub src: String,
    pub dst: String,
    pub step: i32,
}

/// The progress of a backup as of its last step.
#[derive(Debug, Clone, Copy, PartialEq, Eq, Structural)]
pub struct Progress {
    /// The number of pages of the source database.
    pub pagecount: i32,
    /// The number of pages still to be copied.
    pub remaining: i32,
}

/// The state of one backup.
#[derive(Debug, Clone, Copy, PartialEq, Eq, Structural)]
pub struct BackupState {
    pub step: i32,
    pub done: bool,
    /// The progress as of the last step; `None` as long as no step was taken.
    pub progress: Option<Progress>,
}

/// Opens the two connections of a backup, the source first, and the destination
/// only if the source was opened. If the engine refuses either, the error is the
/// one that stands for the engine's failure, and no connection is kept.
pub fn open_pair(request: &BackupRequest) -> (r: Result<
    (rusqlite::Connection, rusqlite::Connection),
    AsletError,
>)
    ensures
        r matches Err(e) ==> e.is_engine(),
{
    match AsletError::settle(open_connection(request.src.as_str())) {
        Ok(src) => match AsletError::settle(open_connection(request.dst.as_str())) {
            Ok(dst) => Ok((src, dst)),
            Err(e) => Err(e),
        },
        Err(e) => Err(e),
    }
}

/// Establishes the engine's cursor from `src` to `dst`. If the engine refuses,
/// the error is the one that stands for the engine's failure.
pub fn establish<'a, 'b>(src: &'a rusqlite::Connection, dst: &'b mut rusqlite::Connection) -> (r:
    Result<rusqlite::backup::Backup<'a, 'b>, AsletError>)
    ensures
        r matches Err(e) ==> e.is_engine(),
{
    AsletError::settle(cursor_new(src, dst))
}

impl BackupState {
    /// The state of a backup that has not been stepped yet.
    pub fn new(request: &BackupRequest) -> (state: BackupState)
        ensures
            state == Self::initial(request.step),
    {
        BackupState { step: request.step, done: false, progress: None }
    }

    /// The state of a backup with this step size before its first step.
    pub open spec fn initial(step: i32) -> BackupState {
        BackupState { step, done: false, progress: None }
    }

    /// The state after a step that the engine answered: complete once any step
    /// was answered with "complete", and with the progress read after the step.
    pub open spec fn stepped(self, complete: bool, progress: Progress) -> BackupState {
        BackupState { step: self.step, done: self.done || complete, progress: Some(progress) }
    }

    /// Settles one step. If the engine answered, the state becomes
    /// `stepped(complete, progress)` and the result says whether the backup is
    /// now done. If the engine failed, the state is as it was and the error is
    /// the engine's.
    pub fn record(&mut self, answer: Result<bool, rusqlite::Error>, progress: Progress) -> (r:
        Result<bool, AsletError>)
        ensures
            match answer {
                Ok(complete) => *final(self) == old(self).stepped(complete, progress) && r == Ok::<
                    bool,
                    AsletError,
                >(final(self).done),
                Err(failure) => *final(self) == *old(self) && (r matches Err(e) && e.stands_for(
                    failure,
                )),
            },
    {
        match answer {
            Ok(complete) => {
                if complete {
                    self.done = true;
                }
                self.progress = Some(progress);
                Ok(self.done)
            },
            Err(failure) => Err(AsletError::engine(failure)),
        }
    }

    /// The worker's side of the backup.
    pub fn worker<'a>(&'a mut self) -> (worker: Worker<'a>)
        ensures
            *worker.0 == *old(self),
            *final(self) == *final(worker.0),
    {
        Worker(self)
    }

    /// The caller's side of the backup.
    pub fn main<'a>(&'a self) -> (main: Main<'a>)
        ensures
            *main.0 == *self,
    {
        Main(self)
    }
}

/// Settles a step of the backup of the task `task`. `stepped` is what the step
/// came to, and `None` if the backup has no cursor to step, which cannot come
/// about; `state` is the state that the step left. The result is the answer to
/// send: the state, or the error of the step, or `Unreachable`. The flag says
/// whether the backup is over, so that its cursor and its connections are to be
/// released, the cursor first: it is over when it is done and when it failed.
pub fn settle_step(state: BackupState, stepped: Option<Result<bool, AsletError>>) -> (out: (
    Result<BackupState, AsletError>,
    bool,
))
    ensures
        out.0 == (match stepped {
            Some(Ok(_)) => Ok::<BackupState, AsletError>(state),
            Some(Err(e)) => Err::<BackupState, AsletError>(e),
            None => Err::<BackupState, AsletError>(
                AsletError::Internal(InternalError::Unreachable),
            ),
        }),
        out.1 == (out.0 matches Ok(left) ==> left.done),
{
    match stepped {
        Some(Ok(_)) => (Ok(state), state.done),
        Some(Err(e)) => (Err(e), true),
        None => (Err(AsletError::Internal(InternalError::Unreachable)), true),
    }
}

/// The worker's side of a backup: it advances the copy.
pub struct Worker<'a>(pub &'a mut BackupState);

impl<'a> Worker<'a> {
    /// Advances the copy by up to `step` pages with one call of the engine, reads
    /// the progress, and says whether the backup is now done. If the engine
    /// fails, the state is as it was and the error is the engine's. The step
    /// size never changes, a backup that is done stays done, and a step that
    /// the engine answered leaves a progress to report.
    pub fn step(&mut self, cursor: &rusqlite::backup::Backup<'_, '_>) -> (r: Result<
        bool,
        AsletError,
    >)
        ensures
            final(self).0.step == old(self).0.step,
            old(self).0.done ==> final(self).0.done,
            match r {
                Ok(done) => done == final(self).0.done && final(self).0.progress is Some,
                Err(e) => e.is_engine() && *final(self).0 == *old(self).0,
            },
    {
        let answer = cursor_step(cursor, self.0.step);
        let progress = cursor_progress(cursor);
        self.0.record(answer, progress)
    }
}

/// The caller's side of a backup: it reads what the last step left.
pub struct Main<'a>(pub &'a BackupState);

impl<'a> Main<'a> {
    /// The progress to report: the page count and the pages that remain as of
    /// the last step, and nothing as long as no step was taken.
    pub fn tick(&self) -> (progress: Option<Progress>)
        ensures
            progress == self.0.progress,
    {
        self.0.progress
    }

    pub fn is_done(&self) -> (done: bool)
        ensures
            done == self.0.done,
    {
        self.0.done
    }
}

/// The number of steps of `step` pages that it takes to copy `pages` pages: the
/// quotient, rounded up.
pub open spec fn steps_needed(pages: nat, step: nat) -> nat {
    if step == 0 {
        0
    } else {
        ((pages + step - 1) / (step as int)) as nat
    }
}

/// The pages that remain after `taken` steps of `step` pages each.
pub open spec fn remaining_after(pages: nat, step: nat, taken: nat) -> nat {
    if taken * step >= pages {
        0
    } else {
        (pages - taken * step) as nat
    }
}

/// The state after `taken` steps of a backup of `pages` pages, where each step
/// copies up to `step` pages and the engine answers "complete" with the step
/// that leaves nothing to copy.
pub open spec fn run(state: BackupState, pages: nat, step: nat, taken: nat) -> BackupState
    decreases taken,
{
    if taken == 0 {
        state
    } else {
        let left = remaining_after(pages, step, taken);
        run(state, pages, step, (taken - 1) as nat).stepped(
            left == 0,
            Progress { pagecount: pages as i32, remaining: left as i32 },
        )
    }
}

/// `steps_needed` is the least number of steps that leaves nothing to copy.
pub proof fn lemma_steps_needed(pages: nat, step: nat, taken: nat)
    requires
        pages >= 1,
        step >= 1,
    ensures
        steps_needed(pages, step) >= 1,
        remaining_after(pages, step, taken) == 0 <==> taken >= steps_needed(pages, step),
{
    let n = steps_needed(pages, step);
    let x = (pages + step - 1) as int;
    let d = step as int;
    lemma_fundamental_div_mod(x, d);
    assert(x == d * (x / d) + x % d);
    assert(0 <= x % d < d);
    assert(n as int == x / d);
    assert(d * n >= pages as int);
    assert(d * (n - 1) < pages as int) by (nonlinear_arith)
        requires
            x == d * (n as int) + x % d,
            0 <= x % d,
            x == pages + d - 1,
    ;
    assert(n >= 1) by (nonlinear_arith)
        requires
            d * (n as int) >= pages as int,
            pages >= 1,
            d >= 1,
            n >= 0,
    ;
    if taken >= n {
        assert(taken * step >= pages) by (nonlinear_arith)
            requires
                taken >= n,
                d * (n as int) >= pages as int,
                d == step as int,
                d >= 1,
        ;
    } else {
        assert(taken * step < pages) by (nonlinear_arith)
            requires
                taken <= n - 1,
                d * (n - 1) < pages as int,
                d == step as int,
                d >= 1,
        ;
    }
}

/// A backup of `pages` pages in steps of `step` pages is done after exactly
/// `steps_needed(pages, step)` steps: not before, and from then on. The pages
/// that remain never go up from one step to the next, the progress after each
/// step reports them, and they are zero at the step that completes the backup.
pub proof fn lemma_backup_completes(pages: nat, step: nat, taken: nat)
    requires
        pages >= 1,
        step >= 1,
        pages <= i32::MAX,
        step <= i32::MAX,
    ensures
        run(BackupState::initial(step as i32), pages, step, taken).done <==> taken >= steps_needed(
            pages,
            step,
        ),
        remaining_after(pages, step, taken + 1) <= remaining_after(pages, step, taken),
        run(BackupState::initial(step as i32), pages, step, taken).progress == (if taken == 0 {
            None
        } else {
            Some(
                Progress {
                    pagecount: pages as i32,
                    remaining: remaining_after(pages, step, taken) as i32,
                },
            )
        }),
        remaining_after(pages, step, steps_needed(pages, step)) == 0,
        run(BackupState::initial(step as i32), pages, step, taken).step == step,
    decreases taken,
{
    lemma_steps_needed(pages, step, taken);
    lemma_steps_needed(pages, step, steps_needed(pages, step));
    assert(remaining_after(pages, step, taken + 1) <= remaining_after(pages, step, taken)) by {
        assert((taken + 1) * step >= taken * step) by (nonlinear_arith)
            requires
                step >= 1,
        ;
    }
    if taken > 0 {
        lemma_backup_completes(pages, step, (taken - 1) as nat);
        lemma_steps_needed(pages, step, (taken - 1) as nat);
    }
}

} // verus!
