//! The path of the local socket through which clients reach the server.
//!
//! This module names the endpoint. The filesystem side of its life (creating
//! the data directory, clearing a stale socket file before binding, removing
//! the file on shutdown) belongs to the process that binds it.

use std::path::PathBuf;

use directories::ProjectDirs;
use vstd::prelude::*;
use vstd::string::StringExecFns;

verus! {

#[verifier::external_type_specification]
#[verifier::external_body]
pub struct ExPathBuf(std::path::PathBuf);

#[verifier::external_type_specification]
#[verifier::external_body]
pub struct ExProjectDirs(directories::ProjectDirs);

/// Relies on `directories::ProjectDirs::from`: the directories of an
/// application, or `None` where no home directory can be found. What comes
/// back depends on the environment, so nothing is promised of it.
pub assume_specification[ directories::ProjectDirs::from ](
    qualifier: &str,
    organization: &str,
    application: &str,
) -> Option<ProjectDirs>;

/// Relies on `directories::ProjectDirs::data_dir`: the application's
/// per-user data directory.
#[verifier::external_body]
fn data_dir_of(dirs: &ProjectDirs) -> PathBuf {
    dirs.data_dir().to_path_buf()
}

/// The path of `name` below the directory `dir`, as `Path::join` makes it.
pub uninterp spec fn joined_path(dir: PathBuf, name: Seq<char>) -> PathBuf;

/// Relies on `std::path::Path::join`: `name` below the directory `dir`; the
/// result depends on its two arguments alone.
#[verifier::external_body]
fn join_path(dir: &PathBuf, name: &String) -> (r: PathBuf)
    ensures
        r == joined_path(*dir, name@),
{
    dir.join(name)
}

/// Why the endpoint's path could not be found.
#[derive(Debug, Clone, Copy, PartialEq, Eq, Structural)]
pub enum SocketError {
    /// No home directory, hence no per-user data directory.
    HomeDirectoryNotFound,
}

impl SocketError {
    /// A sentence that tells a user what went wrong.
    pub fn message(&self) -> (r: &'static str)
        ensures
            r@ == "failed to find home directory"@,
    {
        match self {
            SocketError::HomeDirectoryNotFound => "failed to find home directory",
        }
    }
}

/// The file name of an application's socket: its name followed by `.socket`.
pub open spec fn socket_name(app_name: Seq<char>) -> Seq<char> {
    app_name + ".socket"@
}

/// The file name of the socket of `app_name`.
pub fn socket_file_name(app_name: &str) -> (r: String)
    ensures
        r@ == socket_name(app_name@),
{
    let mut r = String::from_str(app_name);
    r.append(".socket");
    r
}

/// The path of the socket of `app_name` in the data directory `data_dir`, if
/// one was found.
pub fn socket_path_in(data_dir: Option<PathBuf>, app_name: &str) -> (r: Result<
    PathBuf,
    SocketError,
>)
    ensures
        r is Err <==> data_dir is None,
        r matches Err(e) ==> e == SocketError::HomeDirectoryNotFound,
        r matches Ok(p) ==> (data_dir matches Some(d) && p == joined_path(
            d,
            socket_name(app_name@),
        )),
{
    match data_dir {
        Some(dir) => Ok(join_path(&dir, &socket_file_name(app_name))),
        None => Err(SocketError::HomeDirectoryNotFound),
    }
}

/// The default path of the socket of `app_name`: `<app_name>.socket` in the
/// application's per-user data directory, if a home directory can be found.
pub fn socket_filename(app_name: &str) -> (r: Result<PathBuf, SocketError>)
    ensures
        r matches Err(e) ==> e == SocketError::HomeDirectoryNotFound,
        r matches Ok(p) ==> exists|d: PathBuf| p == joined_path(d, socket_name(app_name@)),
{
    let data_dir = match ProjectDirs::from("", "", app_name) {
        Some(dirs) => Some(data_dir_of(&dirs)),
        None => None,
    };
    socket_path_in(data_dir, app_name)
}

/// What to do before binding a listener to an endpoint's path.
#[derive(Debug, Clone, Copy, PartialEq, Eq, Structural)]
pub enum AcquireStep {
    /// Nothing is at the path: bind.
    Bind,
    /// A file is left at the path by a server that did not clean up: remove
    /// it, then bind.
    RemoveStale,
    /// A live server listens at the path: do not bind, the address is in use.
    InUse,
}

/// The step that acquiring an endpoint takes, given whether a file is at its
/// path and whether a server answers there. A leftover file that no server
/// answers on is cleared rather than reported; a live endpoint is never
/// taken over.
pub fn acquire_step(exists: bool, listening: bool) -> (r: AcquireStep)
    ensures
        !exists ==> r == AcquireStep::Bind,
        exists && !listening ==> r == AcquireStep::RemoveStale,
        exists && listening ==> r == AcquireStep::InUse,
{
    if !exists {
        AcquireStep::Bind
    } else if listening {
        AcquireStep::InUse
    } else {
        AcquireStep::RemoveStale
    }
}

/// The path of a socket endpoint.
#[derive(Debug)]
pub struct SocketFile {
    path: PathBuf,
}

impl SocketFile {
    /// The endpoint's path.
    pub closed spec fn spec_path(&self) -> PathBuf {
        self.path
    }

    /// The endpoint at the default path of `app_name` (see `socket_filename`).
    pub fn new(app_name: &str) -> (r: Result<SocketFile, SocketError>)
        ensures
            r matches Err(e) ==> e == SocketError::HomeDirectoryNotFound,
            r matches Ok(s) ==> exists|d: PathBuf|
                s.spec_path() == joined_path(d, socket_name(app_name@)),
    {
        match socket_filename(app_name) {
            Ok(path) => Ok(SocketFile::with_path(path)),
            Err(e) => Err(e),
        }
    }

    /// The endpoint at `path`.
    pub fn with_path(path: PathBuf) -> (r: SocketFile)
        ensures
            r.spec_path() == path,
    {
        SocketFile { path }
    }

    /// The endpoint's path.
    pub fn path(&self) -> (r: &PathBuf)
        ensures
            *r == self.spec_path(),
    {
        &self.path
    }
}

} // verus!
