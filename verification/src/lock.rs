//! The save lock: a file that holds who took it, so that two saves cannot run
//! at once and a lock left by a dead process is taken over.
use vstd::prelude::*;

use crate::text::{concat2, owned};

verus! {

/// What a lock file records about its holder.
#[derive(Debug, Clone)]
pub struct LockMeta {
    pub pid: u32,
    pub started_at: String,
    pub operation: String,
}

/// A lock that was taken; the file at `path` is removed when it is released.
#[derive(Debug)]
pub struct FileLock {
    path: String,
}

/// What creating the lock file exclusively did.
#[derive(Debug, Clone)]
pub enum CreateOutcome {
    /// The file was created.
    Created,
    /// The file already exists.
    AlreadyExists,
    /// Creating it failed for another reason, given.
    Failed(String),
}

/// Why the lock was not taken.
#[derive(Debug, Clone)]
pub enum LockError {
    /// Someone else holds it; the caller's message.
    Busy(String),
    /// The lock file could not be created: its path and the reason.
    CreateFailed(String, String),
}

impl LockMeta {
    /// The record of a lock taken by process `pid` at `started_at` for
    /// `operation`.
    pub fn new(pid: u32, started_at: &str, operation: &str) -> (r: LockMeta)
        ensures
            r.pid == pid,
            r.started_at@ == started_at@,
            r.operation@ == operation@,
    {
        LockMeta { pid, started_at: owned(started_at), operation: owned(operation) }
    }
}

/// The text of a lock error.
pub open spec fn lock_error_text(e: LockError) -> Seq<char> {
    match e {
        LockError::Busy(m) => m@,
        LockError::CreateFailed(p, reason) => "failed to create lock "@ + p@ + ": "@ + reason@,
    }
}

impl LockError {
    /// The text of the error.
    pub fn message(&self) -> (r: String)
        ensures
            r@ == lock_error_text(*self),
    {
        match self {
            LockError::Busy(m) => m.clone(),
            LockError::CreateFailed(p, reason) => {
                let mut r = concat2("failed to create lock ", p.as_str());
                r.append(": ");
                r.append(reason.as_str());
                r
            },
        }
    }
}

impl FileLock {
    /// The lock file's path.
    pub closed spec fn lock_path(&self) -> Seq<char> {
        self.path@
    }

    /// The lock file.
    pub fn path(&self) -> (r: &str)
        ensures
            r@ == self.lock_path(),
    {
        self.path.as_str()
    }

    /// Whether the lock file found before taking the lock is stale and must
    /// be removed first: it names a holder, and that process is gone.
    pub fn is_stale(existing: &Option<LockMeta>, holder_running: bool) -> (r: bool)
        ensures
            r == (existing is Some && !holder_running),
    {
        existing.is_some() && !holder_running
    }

    /// The lock at `path`, given what creating its file exclusively did: taken
    /// when the file was created, `busy_message` when it already exists.
    pub fn acquire(path: &str, busy_message: &str, outcome: CreateOutcome) -> (r: Result<
        FileLock,
        LockError,
    >)
        ensures
            match outcome {
                CreateOutcome::Created => r matches Ok(l) && l.lock_path() == path@,
                CreateOutcome::AlreadyExists => r matches Err(LockError::Busy(m)) && m@
                    == busy_message@,
                CreateOutcome::Failed(reason) => r matches Err(LockError::CreateFailed(p, x)) && p@
                    == path@ && x@ == reason@,
            },
    {
        match outcome {
            CreateOutcome::Created => Ok(FileLock { path: owned(path) }),
            CreateOutcome::AlreadyExists => Err(LockError::Busy(owned(busy_message))),
            CreateOutcome::Failed(reason) => Err(LockError::CreateFailed(owned(path), reason)),
        }
    }
}

} // verus!
