use vstd::prelude::*;

use std::path::PathBuf;

use crate::error::{DBError, ErrorKind};

verus! {

/// std's PathBuf, carried opaquely as the root directory of a handle.
#[verifier::external_type_specification]
#[verifier::external_body]
pub struct ExPathBuf(std::path::PathBuf);

/// Relies on PathBuf::new: an empty path, made without failing.
pub assume_specification[ std::path::PathBuf::new ]() -> std::path::PathBuf;

/// The payload of a collection that holds no records: an empty JSON array.
pub const EMPTY_COLLECTION: &'static str = "[]";

/// What the filesystem says of a path that a database is connected to.
#[derive(Debug, Clone, Copy, PartialEq, Eq, Structural)]
pub enum PathStatus {
    /// The path names an existing directory.
    Directory,
    /// The path exists and is not a directory.
    NotDirectory,
    /// Nothing exists at the path.
    Missing,
}

/// What connecting to a path does next.
#[derive(Debug, Clone, Copy, PartialEq, Eq, Structural)]
pub enum ConnectStep {
    /// Use the path as the root directory.
    Use,
    /// Create the directory and its missing ancestors, then use it.
    CreateDirectory,
    /// Refuse the path with this error.
    Refuse(DBError),
}

/// Database handle: the root directory under which each collection is one file.
pub struct Database {
    path: PathBuf,
}

impl Database {
    /// The root directory of the handle.
    pub closed spec fn root(&self) -> PathBuf {
        self.path
    }

    /// Creates a handle that is not yet connected (its root is the empty path).
    pub fn new() -> (r: Database) {
        Database { path: PathBuf::new() }
    }

    /// The root directory that collections are resolved under.
    pub fn path(&self) -> (r: &PathBuf)
        ensures
            *r == self.root(),
    {
        &self.path
    }

    /// Decides how a connect proceeds from what exists at the target path.
    pub fn connect_step(status: PathStatus) -> (r: ConnectStep)
        ensures
            r == match status {
                PathStatus::Directory => ConnectStep::Use,
                PathStatus::Missing => ConnectStep::CreateDirectory,
                PathStatus::NotDirectory => ConnectStep::Refuse(DBError(ErrorKind::InvalidPath)),
            },
    {
        match status {
            PathStatus::Directory => ConnectStep::Use,
            PathStatus::Missing => ConnectStep::CreateDirectory,
            PathStatus::NotDirectory => ConnectStep::Refuse(DBError(ErrorKind::InvalidPath)),
        }
    }

    /// Completes a connect: `ready` tells whether the directory is there (it
    /// existed, or creating it succeeded). Only then is the handle re-pointed.
    pub fn finish_connect(&mut self, path: PathBuf, ready: bool) -> (r: Result<(), DBError>)
        ensures
            ready ==> r is Ok && final(self).root() == path,
            !ready ==> r == Err::<(), DBError>(DBError(ErrorKind::IOError)) && final(self).root()
                == old(self).root(),
    {
        if ready {
            self.path = path;
            Ok(())
        } else {
            Err(DBError(ErrorKind::IOError))
        }
    }
}

/// Maps the success of a filesystem operation to the engine's result: any
/// failure is an `IOError`.
pub fn io_result(ok: bool) -> (r: Result<(), DBError>)
    ensures
        ok ==> r is Ok,
        !ok ==> r == Err::<(), DBError>(DBError(ErrorKind::IOError)),
{
    if ok {
        Ok(())
    } else {
        Err(DBError(ErrorKind::IOError))
    }
}

/// Collection data that cannot be decoded from, or encoded to, its file is
/// reported as `CorruptData` rather than failing the process.
pub fn check_data(ok: bool) -> (r: Result<(), DBError>)
    ensures
        ok ==> r is Ok,
        !ok ==> r == Err::<(), DBError>(DBError(ErrorKind::CorruptData)),
{
    if ok {
        Ok(())
    } else {
        Err(DBError(ErrorKind::CorruptData))
    }
}

/// A collection may be created only when its file does not exist yet.
pub fn check_create(exists: bool) -> (r: Result<(), DBError>)
    ensures
        !exists ==> r is Ok,
        exists ==> r == Err::<(), DBError>(DBError(ErrorKind::AlreadyExists)),
{
    if exists {
        Err(DBError(ErrorKind::AlreadyExists))
    } else {
        Ok(())
    }
}

/// A collection is read, written or deleted only when its file exists.
pub fn check_exists(exists: bool) -> (r: Result<(), DBError>)
    ensures
        exists ==> r is Ok,
        !exists ==> r == Err::<(), DBError>(DBError(ErrorKind::NotFound)),
{
    if exists {
        Ok(())
    } else {
        Err(DBError(ErrorKind::NotFound))
    }
}

/// A rename needs the source collection and must not overwrite another one;
/// a missing source is reported first.
pub fn check_rename(exists: bool, target_exists: bool) -> (r: Result<(), DBError>)
    ensures
        !exists ==> r == Err::<(), DBError>(DBError(ErrorKind::NotFound)),
        exists && target_exists ==> r == Err::<(), DBError>(DBError(ErrorKind::AlreadyExists)),
        exists && !target_exists ==> r is Ok,
{
    if !exists {
        Err(DBError(ErrorKind::NotFound))
    } else if target_exists {
        Err(DBError(ErrorKind::AlreadyExists))
    } else {
        Ok(())
    }
}

} // verus!
