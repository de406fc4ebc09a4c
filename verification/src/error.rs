//! The errors the reader reports: the Python exception class each maps to,
//! and the exact text of each message.

use vstd::prelude::*;
use crate::text::{contains, join2, join3, push_signed_decimal, signed_decimal,
    text_contains, text_of};

verus! {

/// The exception class an error is raised as.
#[derive(PartialEq, Eq, Structural, Clone, Copy, Debug)]
pub enum ErrorKind {
    /// `ValueError`
    ValueError,
    /// `InvalidDatabaseError`, a subclass of `RuntimeError`
    InvalidDatabase,
    /// `OSError`
    OsError,
    /// `TypeError`
    TypeError,
    /// `FileNotFoundError`
    FileNotFound,
    /// `IOError`
    IoError,
}

/// An error with its class and message.
#[derive(Debug)]
pub struct ReaderError {
    pub kind: ErrorKind,
    pub message: String,
}

/// `e` is an error of class `kind` with message `text`.
pub open spec fn error_is(e: ReaderError, kind: ErrorKind, text: Seq<char>) -> bool {
    e.kind == kind && e.message@ == text
}

/// Builds an error.
pub fn new_error(kind: ErrorKind, message: String) -> (e: ReaderError)
    ensures
        e.kind == kind,
        e.message@ == message@,
{
    ReaderError { kind, message }
}

pub open spec fn closed_db_text() -> Seq<char> {
    "Attempt to read from a closed MaxMind DB."@
}

pub open spec fn bad_data_text() -> Seq<char> {
    "The MaxMind DB file's data section contains bad data (unknown data type or corrupt data)"@
}

pub open spec fn bad_data_marker() -> Seq<char> {
    "data section contains bad data"@
}

pub open spec fn reopen_text() -> Seq<char> {
    "Attempt to reopen a closed MaxMind DB"@
}

pub open spec fn argument_type_text() -> Seq<char> {
    "argument 1 must be a string or ipaddress object"@
}

pub open spec fn database_argument_text() -> Seq<char> {
    "database must be a string, PathLike, or file descriptor"@
}

pub open spec fn path_element_text() -> Seq<char> {
    "path elements must be strings or integers"@
}

pub open spec fn not_an_address_text(ip: Seq<char>) -> Seq<char> {
    "'"@ + ip + "' does not appear to be an IPv4 or IPv6 address"@
}

pub open spec fn ipv6_in_ipv4_text(ip: Seq<char>) -> Seq<char> {
    "Error looking up "@ + ip
        + ". You attempted to look up an IPv6 address in an IPv4-only database"@
}

pub open spec fn database_error_text(detail: Seq<char>) -> Seq<char> {
    "Database error: "@ + detail
}

pub open spec fn invalid_address_text(ip: Seq<char>) -> Seq<char> {
    "Invalid IP address: "@ + ip
}

pub open spec fn lookup_error_text(detail: Seq<char>) -> Seq<char> {
    "Lookup error: "@ + detail
}

pub open spec fn unsupported_mode_text(mode: int) -> Seq<char> {
    "Unsupported open mode ("@ + signed_decimal(mode) + ")"@
}

pub open spec fn open_failure_text(path: Seq<char>) -> Seq<char> {
    "Error opening database file ("@ + path + "). Is this a valid MaxMind DB file?"@
}

pub open spec fn map_failure_text(detail: Seq<char>) -> Seq<char> {
    "Failed to memory-map database: "@ + detail
}

pub open spec fn read_failure_text(detail: Seq<char>) -> Seq<char> {
    "Failed to read database file: "@ + detail
}

pub open spec fn network_failure_text(family: Seq<char>, detail: Seq<char>) -> Seq<char> {
    "Failed to create "@ + family + " network: "@ + detail
}

pub open spec fn iterate_failure_text(family: Seq<char>, detail: Seq<char>) -> Seq<char> {
    "Failed to iterate "@ + family + ": "@ + detail
}

pub open spec fn iteration_error_text(detail: Seq<char>) -> Seq<char> {
    "Iteration error: "@ + detail
}

pub open spec fn int_range_text(value: int) -> Seq<char> {
    "integer "@ + signed_decimal(value) + " out of i32 range"@
}

/// The class a lookup error is raised as: a message that speaks of bad data
/// in the data section is an `InvalidDatabaseError`, any other a `ValueError`.
pub open spec fn lookup_error_kind(message: Seq<char>) -> ErrorKind {
    if text_contains(message, bad_data_marker()) {
        ErrorKind::InvalidDatabase
    } else {
        ErrorKind::ValueError
    }
}

/// Reading from a closed database (`ValueError`).
pub fn closed_db_error() -> (e: ReaderError)
    ensures
        error_is(e, ErrorKind::ValueError, closed_db_text()),
{
    new_error(ErrorKind::ValueError, text_of("Attempt to read from a closed MaxMind DB."))
}

/// Reading the metadata of a closed database (`OSError`).
pub fn closed_metadata_error() -> (e: ReaderError)
    ensures
        error_is(e, ErrorKind::OsError, closed_db_text()),
{
    new_error(ErrorKind::OsError, text_of("Attempt to read from a closed MaxMind DB."))
}

/// Entering a `with` block on a closed database (`ValueError`).
pub fn reopen_error() -> (e: ReaderError)
    ensures
        error_is(e, ErrorKind::ValueError, reopen_text()),
{
    new_error(ErrorKind::ValueError, text_of("Attempt to reopen a closed MaxMind DB"))
}

/// An address argument of the wrong type (`TypeError`).
pub fn argument_type_error() -> (e: ReaderError)
    ensures
        error_is(e, ErrorKind::TypeError, argument_type_text()),
{
    new_error(ErrorKind::TypeError, text_of("argument 1 must be a string or ipaddress object"))
}

/// A database argument that is neither a path nor path-like (`ValueError`).
pub fn database_argument_error() -> (e: ReaderError)
    ensures
        error_is(e, ErrorKind::ValueError, database_argument_text()),
{
    new_error(
        ErrorKind::ValueError,
        text_of("database must be a string, PathLike, or file descriptor"),
    )
}

/// A path element that is neither a key nor an index (`TypeError`).
pub fn path_element_error() -> (e: ReaderError)
    ensures
        error_is(e, ErrorKind::TypeError, path_element_text()),
{
    new_error(ErrorKind::TypeError, text_of("path elements must be strings or integers"))
}

/// The message for bad data in the data section.
pub fn bad_data_message() -> (m: String)
    ensures
        m@ == bad_data_text(),
{
    text_of(
        "The MaxMind DB file's data section contains bad data (unknown data type or corrupt data)",
    )
}

/// The message for a text that is not an IP address.
pub fn not_an_address_message(ip: &str) -> (m: String)
    ensures
        m@ == not_an_address_text(ip@),
{
    join3("'", ip, "' does not appear to be an IPv4 or IPv6 address")
}

/// The message for an IPv6 address looked up in an IPv4-only database.
pub fn ipv6_in_ipv4_message(ip: &str) -> (m: String)
    ensures
        m@ == ipv6_in_ipv4_text(ip@),
{
    join3(
        "Error looking up ",
        ip,
        ". You attempted to look up an IPv6 address in an IPv4-only database",
    )
}

/// The message for any other failure of a lookup.
pub fn database_error_message(detail: &str) -> (m: String)
    ensures
        m@ == database_error_text(detail@),
{
    join2("Database error: ", detail)
}

/// A text of a batch that is not an IP address (`ValueError`).
pub fn invalid_address_error(ip: &str) -> (e: ReaderError)
    ensures
        error_is(e, ErrorKind::ValueError, invalid_address_text(ip@)),
{
    new_error(ErrorKind::ValueError, join2("Invalid IP address: ", ip))
}

/// A failed lookup of a batch (`InvalidDatabaseError`).
pub fn lookup_error(detail: &str) -> (e: ReaderError)
    ensures
        error_is(e, ErrorKind::InvalidDatabase, lookup_error_text(detail@)),
{
    new_error(ErrorKind::InvalidDatabase, join2("Lookup error: ", detail))
}

/// An open mode that is not one of the known ones (`ValueError`).
pub fn unsupported_mode_error(mode: i32) -> (e: ReaderError)
    ensures
        error_is(e, ErrorKind::ValueError, unsupported_mode_text(mode as int)),
{
    let mut m = text_of("Unsupported open mode (");
    push_signed_decimal(&mut m, mode as i64);
    m.append(")");
    new_error(ErrorKind::ValueError, m)
}

/// A file that the database format refuses (`InvalidDatabaseError`).
pub fn open_failure_error(path: &str) -> (e: ReaderError)
    ensures
        error_is(e, ErrorKind::InvalidDatabase, open_failure_text(path@)),
{
    new_error(
        ErrorKind::InvalidDatabase,
        join3("Error opening database file (", path, "). Is this a valid MaxMind DB file?"),
    )
}

/// A file that could not be memory-mapped (`IOError`).
pub fn map_failure_error(detail: &str) -> (e: ReaderError)
    ensures
        error_is(e, ErrorKind::IoError, map_failure_text(detail@)),
{
    new_error(ErrorKind::IoError, join2("Failed to memory-map database: ", detail))
}

/// A file that could not be read (`IOError`).
pub fn read_failure_error(detail: &str) -> (e: ReaderError)
    ensures
        error_is(e, ErrorKind::IoError, read_failure_text(detail@)),
{
    new_error(ErrorKind::IoError, join2("Failed to read database file: ", detail))
}

/// A file that could not be opened: `FileNotFoundError` when it does not
/// exist, `IOError` otherwise; the message is the system's.
pub fn file_open_error(not_found: bool, detail: &str) -> (e: ReaderError)
    ensures
        error_is(
            e,
            if not_found { ErrorKind::FileNotFound } else { ErrorKind::IoError },
            detail@,
        ),
{
    let kind = if not_found { ErrorKind::FileNotFound } else { ErrorKind::IoError };
    new_error(kind, text_of(detail))
}

/// The root network of an iteration could not be built
/// (`InvalidDatabaseError`).
pub fn network_failure_error(family: &str, detail: &str) -> (e: ReaderError)
    ensures
        error_is(e, ErrorKind::InvalidDatabase, network_failure_text(family@, detail@)),
{
    let mut m = join3("Failed to create ", family, " network: ");
    m.append(detail);
    new_error(ErrorKind::InvalidDatabase, m)
}

/// An iteration could not start (`InvalidDatabaseError`).
pub fn iterate_failure_error(family: &str, detail: &str) -> (e: ReaderError)
    ensures
        error_is(e, ErrorKind::InvalidDatabase, iterate_failure_text(family@, detail@)),
{
    let mut m = join3("Failed to iterate ", family, ": ");
    m.append(detail);
    new_error(ErrorKind::InvalidDatabase, m)
}

/// A step of an iteration failed (`InvalidDatabaseError`).
pub fn iteration_error(detail: &str) -> (e: ReaderError)
    ensures
        error_is(e, ErrorKind::InvalidDatabase, iteration_error_text(detail@)),
{
    new_error(ErrorKind::InvalidDatabase, join2("Iteration error: ", detail))
}

/// The message for a signed integer too wide for the format's 32 bits.
pub fn int_range_message(value: i64) -> (m: String)
    ensures
        m@ == int_range_text(value as int),
{
    let mut m = text_of("integer ");
    push_signed_decimal(&mut m, value);
    m.append(" out of i32 range");
    m
}

/// Raises a lookup message with the class `lookup_error_kind` gives it.
pub fn classify_lookup_error(message: String) -> (e: ReaderError)
    ensures
        e.kind == lookup_error_kind(message@),
        e.message@ == message@,
{
    let bad = contains(message.as_str(), "data section contains bad data");
    let kind = if bad { ErrorKind::InvalidDatabase } else { ErrorKind::ValueError };
    new_error(kind, message)
}

} // verus!
