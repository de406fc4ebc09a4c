//! The modes in which a database can be opened, and what each one does.

use vstd::prelude::*;
use crate::error::{database_argument_error, database_argument_text, error_is, unsupported_mode_error,
    unsupported_mode_text, ErrorKind, ReaderError};

verus! {

/// Let the reader choose; this is memory-mapping.
pub const MODE_AUTO: i32 = 0;
/// Memory-map the file (the same reader as `MODE_MMAP`).
pub const MODE_MMAP_EXT: i32 = 1;
/// Memory-map the file.
pub const MODE_MMAP: i32 = 2;
/// Read the whole file into memory.
pub const MODE_FILE: i32 = 4;
/// Read the whole file into memory.
pub const MODE_MEMORY: i32 = 8;
/// Read a readable binary object (its `read()` from the current position).
pub const MODE_FD: i32 = 16;

/// How a database is brought in.
#[derive(PartialEq, Eq, Structural, Clone, Copy, Debug)]
pub enum OpenPlan {
    /// Map the file at the given path into memory.
    MapFile,
    /// Read the file at the given path into a buffer.
    ReadFile,
    /// Read all bytes from the given readable object.
    ReadObject,
}

/// The plan each known mode stands for.
pub open spec fn plan_of(mode: i32) -> Option<OpenPlan> {
    if mode == MODE_AUTO || mode == MODE_MMAP || mode == MODE_MMAP_EXT {
        Some(OpenPlan::MapFile)
    } else if mode == MODE_MEMORY || mode == MODE_FILE {
        Some(OpenPlan::ReadFile)
    } else if mode == MODE_FD {
        Some(OpenPlan::ReadObject)
    } else {
        None
    }
}

/// Chooses how to open a database in `mode`; an unknown mode is a
/// `ValueError` that names it.
pub fn open_plan(mode: i32) -> (r: Result<OpenPlan, ReaderError>)
    ensures
        plan_of(mode) matches Some(p) ==> r == Ok::<OpenPlan, ReaderError>(p),
        plan_of(mode) is None ==> (r matches Err(e) && error_is(
            e,
            ErrorKind::ValueError,
            unsupported_mode_text(mode as int),
        )),
{
    if mode == MODE_AUTO || mode == MODE_MMAP || mode == MODE_MMAP_EXT {
        Ok(OpenPlan::MapFile)
    } else if mode == MODE_MEMORY || mode == MODE_FILE {
        Ok(OpenPlan::ReadFile)
    } else if mode == MODE_FD {
        Ok(OpenPlan::ReadObject)
    } else {
        Err(unsupported_mode_error(mode))
    }
}

/// Whether a plan opens a file by its path (the database argument must then
/// be a path); only reading from an object does not.
pub fn plan_needs_path(plan: OpenPlan) -> (r: bool)
    ensures
        r == (plan != OpenPlan::ReadObject),
{
    plan != OpenPlan::ReadObject
}

/// What opening a database asks for.
#[derive(Debug)]
pub enum OpenRequest {
    /// Map the file at this path.
    MapFile(String),
    /// Read the file at this path into memory.
    ReadFile(String),
    /// Read all bytes of the database argument, a readable object.
    ReadObject,
}

/// Whether opening in `mode` needs the database argument as a path: every
/// mode but reading from an object does, an unknown mode too (the argument
/// is checked before the mode).
pub open spec fn mode_needs_path(mode: i32) -> bool {
    plan_of(mode) != Some(OpenPlan::ReadObject)
}

/// Tells whether the database argument must be read as a path.
pub fn needs_path(mode: i32) -> (r: bool)
    ensures
        r == mode_needs_path(mode),
{
    mode != MODE_FD
}

/// What opening asks for, as plain values; `Refused` is the class and
/// message of the error.
pub enum RequestView {
    MapFile(Seq<char>),
    ReadFile(Seq<char>),
    ReadObject,
    Refused(ErrorKind, Seq<char>),
}

/// What opening in `mode` asks for when the database argument names the path
/// `path` (`None`: it names none).
pub open spec fn request_of(mode: i32, path: Option<Seq<char>>) -> RequestView {
    if !mode_needs_path(mode) {
        RequestView::ReadObject
    } else {
        match path {
            None => RequestView::Refused(ErrorKind::ValueError, database_argument_text()),
            Some(p) => match plan_of(mode) {
                None => RequestView::Refused(ErrorKind::ValueError, unsupported_mode_text(mode as int)),
                Some(OpenPlan::MapFile) => RequestView::MapFile(p),
                Some(OpenPlan::ReadFile) => RequestView::ReadFile(p),
                Some(OpenPlan::ReadObject) => RequestView::ReadObject,
            },
        }
    }
}

/// `r` is the request `v` describes.
pub open spec fn request_is(r: Result<OpenRequest, ReaderError>, v: RequestView) -> bool {
    match v {
        RequestView::MapFile(p) => r matches Ok(OpenRequest::MapFile(q)) && q@ == p,
        RequestView::ReadFile(p) => r matches Ok(OpenRequest::ReadFile(q)) && q@ == p,
        RequestView::ReadObject => r matches Ok(OpenRequest::ReadObject),
        RequestView::Refused(k, m) => r matches Err(e) && error_is(e, k, m),
    }
}

/// Decides what to open from the mode and the database argument's path
/// (`None` when the argument is neither a string nor path-like). For the
/// path-taking modes the argument is checked first, then the mode.
pub fn open_request(mode: i32, path: Option<String>) -> (r: Result<OpenRequest, ReaderError>)
    ensures
        request_is(
            r,
            request_of(
                mode,
                match path {
                    Some(p) => Some(p@),
                    None => None,
                },
            ),
        ),
{
    if !needs_path(mode) {
        return Ok(OpenRequest::ReadObject);
    }
    match path {
        None => Err(database_argument_error()),
        Some(p) => match open_plan(mode) {
            Err(e) => Err(e),
            Ok(OpenPlan::MapFile) => Ok(OpenRequest::MapFile(p)),
            Ok(OpenPlan::ReadFile) => Ok(OpenRequest::ReadFile(p)),
            Ok(OpenPlan::ReadObject) => Ok(OpenRequest::ReadObject),
        },
    }
}

} // verus!
