//! An open database and the requests it answers: single lookups, lookups
//! with the network's prefix length, batches, and lookups of one field.
//!
//! The search in the database's tree is done by the caller's `lookup`
//! function, which reports what it found as a `LookupOutcome`; everything
//! around it (when a request is refused, which failures count as "not
//! found", which exception and message each failure becomes) is decided
//! here.

use vstd::prelude::*;
use crate::address::IpAddress;
use crate::error::{bad_data_message, bad_data_text, classify_lookup_error, closed_db_error,
    closed_db_text, closed_metadata_error, database_error_message, database_error_text, error_is,
    invalid_address_error, invalid_address_text, ipv6_in_ipv4_message, ipv6_in_ipv4_text,
    lookup_error, lookup_error_kind, lookup_error_text, not_an_address_message,
    not_an_address_text, reopen_error, reopen_text, ErrorKind, ReaderError};
use crate::metadata::Metadata;
use crate::text::{contains, text_contains};
use crate::value::{path_target, take_path, PathElement, Value};

verus! {

/// What a search of the database's tree for one address gave back.
#[derive(Debug)]
pub enum LookupOutcome {
    /// The address's network has this record.
    Found(Value),
    /// The address's network has no record.
    Missing,
    /// The database failed; the text (`Display`) of its error.
    Failed(String),
}

/// An error as its class and message.
pub type ErrorModel = (ErrorKind, Seq<char>);

/// `r` is the answer `s` describes: the same value, or an error of the
/// described class and message.
pub open spec fn answers<T>(r: Result<T, ReaderError>, s: Result<T, ErrorModel>) -> bool {
    match s {
        Ok(v) => r == Ok::<T, ReaderError>(v),
        Err(m) => r matches Err(e) && error_is(e, m.0, m.1),
    }
}

/// A lookup error with the class its message gives it.
pub open spec fn lookup_failure(message: Seq<char>) -> ErrorModel {
    (lookup_error_kind(message), message)
}

/// Checks on the address before a lookup: its text must be an IP address,
/// and an IPv6 address cannot be looked up in an IPv4-only database.
pub open spec fn address_answer(ip: Seq<char>, parsed: Option<IpAddress>, ip_version: u16) -> Result<
    IpAddress,
    ErrorModel,
> {
    match parsed {
        None => Err(lookup_failure(not_an_address_text(ip))),
        Some(a) => if ip_version == 4 && a is V6 {
            Err(lookup_failure(ipv6_in_ipv4_text(ip)))
        } else {
            Ok(a)
        },
    }
}

/// How a failed lookup is reported: `None` when it counts as "not found",
/// else the message.
pub open spec fn failure_text(detail: Seq<char>) -> Option<Seq<char>> {
    if text_contains(detail, "Invalid database"@) {
        Some(bad_data_text())
    } else if text_contains(detail, "AddressNotFoundError"@) {
        None
    } else {
        Some(database_error_text(detail))
    }
}

/// The answer to a single lookup, from what the search gave back.
pub open spec fn get_answer(o: LookupOutcome) -> Result<Option<Value>, ErrorModel> {
    match o {
        LookupOutcome::Found(v) => Ok(Some(v)),
        LookupOutcome::Missing => Ok(None),
        LookupOutcome::Failed(d) => match failure_text(d@) {
            None => Ok(None),
            Some(m) => Err(lookup_failure(m)),
        },
    }
}

/// How a failed lookup with prefix length is reported: as for a single
/// lookup, and a failure that speaks of an IPv6 address in an IPv4-only
/// database is reported as such for the address asked for.
pub open spec fn prefix_failure_text(ip: Seq<char>, detail: Seq<char>) -> Option<Seq<char>> {
    if text_contains(detail, "Invalid database"@) {
        Some(bad_data_text())
    } else if text_contains(detail, "AddressNotFoundError"@) {
        None
    } else if text_contains(detail, "IPv6 address in an IPv4-only database"@) {
        Some(ipv6_in_ipv4_text(ip))
    } else {
        Some(database_error_text(detail))
    }
}

/// The answer to a lookup with prefix length: the record (if any) and the
/// prefix length of its network; "not found" failures report length 0.
pub open spec fn prefix_answer(ip: Seq<char>, o: LookupOutcome, prefix_len: usize) -> Result<
    (Option<Value>, usize),
    ErrorModel,
> {
    match o {
        LookupOutcome::Found(v) => Ok((Some(v), prefix_len)),
        LookupOutcome::Missing => Ok((None, prefix_len)),
        LookupOutcome::Failed(d) => match prefix_failure_text(ip, d@) {
            None => Ok((None, 0)),
            Some(m) => Err(lookup_failure(m)),
        },
    }
}

/// The answer for one address of a batch whose text is an IP address.
pub open spec fn batch_item_answer(o: LookupOutcome) -> Result<Option<Value>, ErrorModel> {
    match o {
        LookupOutcome::Found(v) => Ok(Some(v)),
        LookupOutcome::Missing => Ok(None),
        LookupOutcome::Failed(d) => Err((ErrorKind::InvalidDatabase, lookup_error_text(d@))),
    }
}

/// The answer to a lookup of one field: the value the path leads to in the
/// record, or nothing when there is no record or no such field.
pub open spec fn path_answer(o: LookupOutcome, path: Seq<PathElement>) -> Result<
    Option<Value>,
    ErrorModel,
> {
    match get_answer(o) {
        Ok(Some(v)) => Ok(path_target(v, path)),
        Ok(None) => Ok(None),
        Err(m) => Err(m),
    }
}

/// The answer for one address of a batch, reading `path` in its record.
pub open spec fn batch_answer(o: LookupOutcome, path: Seq<PathElement>) -> Result<
    Option<Value>,
    ErrorModel,
> {
    match o {
        LookupOutcome::Found(v) => Ok(path_target(v, path)),
        LookupOutcome::Missing => Ok(None),
        LookupOutcome::Failed(d) => Err((ErrorKind::InvalidDatabase, lookup_error_text(d@))),
    }
}

/// `answer` is one that a batch may give for the text `ip`: the text is
/// parsed by `parse`; a text that is not an address is a `ValueError`, and
/// an address is searched with `lookup` on `s`.
pub open spec fn batch_item_possible<S, P, F>(
    parse: P,
    lookup: F,
    s: S,
    ip: String,
    path: Seq<PathElement>,
    answer: Result<Option<Value>, ErrorModel>,
) -> bool where P: Fn(&String) -> Option<IpAddress>, F: Fn(&S, IpAddress) -> LookupOutcome {
    exists|p: Option<IpAddress>|
        call_ensures(parse, (&ip,), p) && match p {
            None => answer == Err::<Option<Value>, ErrorModel>(
                (ErrorKind::ValueError, invalid_address_text(ip@)),
            ),
            Some(a) => exists|o: LookupOutcome|
                call_ensures(lookup, (&s, a), o) && answer == batch_answer(o, path),
        }
}

/// Some value is an answer the batch may give for the text `ip`.
pub open spec fn batch_item_may_succeed<S, P, F>(
    parse: P,
    lookup: F,
    s: S,
    ip: String,
    path: Seq<PathElement>,
) -> bool where P: Fn(&String) -> Option<IpAddress>, F: Fn(&S, IpAddress) -> LookupOutcome {
    exists|v: Option<Value>| batch_item_possible(parse, lookup, s, ip, path, Ok(v))
}

/// `r` is an answer a batch may give: every item's value in order, or the
/// error of the first item that fails.
pub open spec fn batch_possible<S, P, F>(
    parse: P,
    lookup: F,
    s: S,
    ips: Seq<String>,
    path: Seq<PathElement>,
    r: Result<Vec<Option<Value>>, ReaderError>,
) -> bool where P: Fn(&String) -> Option<IpAddress>, F: Fn(&S, IpAddress) -> LookupOutcome {
    match r {
        Ok(vals) => vals@.len() == ips.len() && forall|i: int|
            0 <= i < ips.len() ==> #[trigger] batch_item_possible(
                parse,
                lookup,
                s,
                ips[i],
                path,
                Ok(vals@[i]),
            ),
        Err(e) => exists|k: int|
            0 <= k < ips.len() && (forall|i: int|
                0 <= i < k ==> #[trigger] batch_item_may_succeed(parse, lookup, s, ips[i], path))
                && batch_item_possible(parse, lookup, s, ips[k], path, Err((e.kind, e.message@))),
    }
}

/// `r` is an answer a single lookup of the text `ip` may give: the text is
/// parsed by `parse`, checked, and searched with `lookup` on `s`.
pub open spec fn get_possible<S, P, F>(
    parse: P,
    lookup: F,
    s: S,
    ip_version: u16,
    ip: String,
    r: Result<Option<Value>, ReaderError>,
) -> bool where P: Fn(&String) -> Option<IpAddress>, F: Fn(&S, IpAddress) -> LookupOutcome {
    exists|p: Option<IpAddress>|
        #[trigger] call_ensures(parse, (&ip,), p) && match address_answer(ip@, p, ip_version) {
            Err(m) => answers(r, Err(m)),
            Ok(a) => exists|o: LookupOutcome|
                #[trigger] call_ensures(lookup, (&s, a), o) && answers(r, get_answer(o)),
        }
}

/// `r` is an answer a lookup with prefix length of the text `ip` may give.
pub open spec fn prefix_possible<S, P, F>(
    parse: P,
    lookup: F,
    s: S,
    ip_version: u16,
    ip: String,
    r: Result<(Option<Value>, usize), ReaderError>,
) -> bool where P: Fn(&String) -> Option<IpAddress>, F: Fn(&S, IpAddress) -> (LookupOutcome, usize) {
    exists|p: Option<IpAddress>|
        #[trigger] call_ensures(parse, (&ip,), p) && match address_answer(ip@, p, ip_version) {
            Err(m) => answers(r, Err(m)),
            Ok(a) => exists|o: (LookupOutcome, usize)|
                #[trigger] call_ensures(lookup, (&s, a), o) && answers(
                    r,
                    prefix_answer(ip@, o.0, o.1),
                ),
        }
}

/// `r` is an answer a lookup of the field at `path` of the text `ip` may
/// give.
pub open spec fn path_possible<S, P, F>(
    parse: P,
    lookup: F,
    s: S,
    ip_version: u16,
    ip: String,
    path: Seq<PathElement>,
    r: Result<Option<Value>, ReaderError>,
) -> bool where P: Fn(&String) -> Option<IpAddress>, F: Fn(&S, IpAddress) -> LookupOutcome {
    exists|p: Option<IpAddress>|
        #[trigger] call_ensures(parse, (&ip,), p) && match address_answer(ip@, p, ip_version) {
            Err(m) => answers(r, Err(m)),
            Ok(a) => exists|o: LookupOutcome|
                #[trigger] call_ensures(lookup, (&s, a), o) && answers(r, path_answer(o, path)),
        }
}

/// Checks an address before a lookup.
pub fn check_address(ip: &str, parsed: Option<IpAddress>, ip_version: u16) -> (r: Result<
    IpAddress,
    ReaderError,
>)
    ensures
        answers(r, address_answer(ip@, parsed, ip_version)),
{
    match parsed {
        None => Err(classify_lookup_error(not_an_address_message(ip))),
        Some(a) => {
            let v6 = match a {
                IpAddress::V6(_) => true,
                IpAddress::V4(_) => false,
            };
            if ip_version == 4 && v6 {
                Err(classify_lookup_error(ipv6_in_ipv4_message(ip)))
            } else {
                Ok(a)
            }
        },
    }
}

/// Reports a single lookup.
pub fn finish_get(o: LookupOutcome) -> (r: Result<Option<Value>, ReaderError>)
    ensures
        answers(r, get_answer(o)),
{
    match o {
        LookupOutcome::Found(v) => Ok(Some(v)),
        LookupOutcome::Missing => Ok(None),
        LookupOutcome::Failed(d) => {
            if contains(d.as_str(), "Invalid database") {
                Err(classify_lookup_error(bad_data_message()))
            } else if contains(d.as_str(), "AddressNotFoundError") {
                Ok(None)
            } else {
                Err(classify_lookup_error(database_error_message(d.as_str())))
            }
        },
    }
}

/// Reports a lookup with prefix length.
pub fn finish_prefix(ip: &str, o: LookupOutcome, prefix_len: usize) -> (r: Result<
    (Option<Value>, usize),
    ReaderError,
>)
    ensures
        answers(r, prefix_answer(ip@, o, prefix_len)),
{
    match o {
        LookupOutcome::Found(v) => Ok((Some(v), prefix_len)),
        LookupOutcome::Missing => Ok((None, prefix_len)),
        LookupOutcome::Failed(d) => {
            if contains(d.as_str(), "Invalid database") {
                Err(classify_lookup_error(bad_data_message()))
            } else if contains(d.as_str(), "AddressNotFoundError") {
                Ok((None, 0))
            } else if contains(d.as_str(), "IPv6 address in an IPv4-only database") {
                Err(classify_lookup_error(ipv6_in_ipv4_message(ip)))
            } else {
                Err(classify_lookup_error(database_error_message(d.as_str())))
            }
        },
    }
}

/// Reports the lookup of one address of a batch.
pub fn finish_batch_item(o: LookupOutcome) -> (r: Result<Option<Value>, ReaderError>)
    ensures
        answers(r, batch_item_answer(o)),
{
    match o {
        LookupOutcome::Found(v) => Ok(Some(v)),
        LookupOutcome::Missing => Ok(None),
        LookupOutcome::Failed(d) => Err(lookup_error(d.as_str())),
    }
}

/// Reports a lookup of one field.
pub fn finish_path(o: LookupOutcome, path: &[PathElement]) -> (r: Result<
    Option<Value>,
    ReaderError,
>)
    ensures
        answers(r, path_answer(o, path@)),
{
    match finish_get(o) {
        Ok(Some(v)) => Ok(take_path(v, path)),
        Ok(None) => Ok(None),
        Err(e) => Err(e),
    }
}


/// An opened database: the caller's handle `S` on the reader of its bytes,
/// and its metadata, until it is closed.
pub struct Database<S> {
    source: Option<S>,
    metadata: Metadata,
}

impl<S> Database<S> {
    /// The database has not been closed.
    pub closed spec fn is_open(&self) -> bool {
        self.source is Some
    }

    /// The handle on the reader (meaningful while open).
    pub closed spec fn reader(&self) -> S {
        self.source->Some_0
    }

    /// The metadata read when the database was opened.
    pub closed spec fn meta(&self) -> Metadata {
        self.metadata
    }

    /// A database opened on `source`, whose metadata is `metadata`.
    pub fn new(source: S, metadata: Metadata) -> (d: Database<S>)
        ensures
            d.is_open(),
            d.reader() == source,
            d.meta() == metadata,
    {
        Database { source: Some(source), metadata }
    }

    /// Whether the database has been closed.
    pub fn closed(&self) -> (r: bool)
        ensures
            r == !self.is_open(),
    {
        self.source.is_none()
    }

    /// Closes the database and lets go of its reader; closing again does
    /// nothing more.
    pub fn close(&mut self)
        ensures
            !final(self).is_open(),
            final(self).meta() == old(self).meta(),
    {
        self.source = None;
    }

    /// Entering a `with` block: refused once the database is closed.
    pub fn enter(&self) -> (r: Result<(), ReaderError>)
        ensures
            self.is_open() ==> r is Ok,
            !self.is_open() ==> (r matches Err(e) && error_is(
                e,
                ErrorKind::ValueError,
                reopen_text(),
            )),
    {
        if self.source.is_some() {
            Ok(())
        } else {
            Err(reopen_error())
        }
    }

    /// Leaving a `with` block closes the database.
    pub fn exit(&mut self)
        ensures
            !final(self).is_open(),
            final(self).meta() == old(self).meta(),
    {
        self.close();
    }

    /// Refuses a request on a closed database (`ValueError`).
    pub fn ensure_open(&self) -> (r: Result<(), ReaderError>)
        ensures
            self.is_open() ==> r is Ok,
            !self.is_open() ==> (r matches Err(e) && error_is(
                e,
                ErrorKind::ValueError,
                closed_db_text(),
            )),
    {
        if self.source.is_some() {
            Ok(())
        } else {
            Err(closed_db_error())
        }
    }

    /// The reader, for requests that go to it directly (iteration).
    pub fn reader_handle(&self) -> (r: Result<&S, ReaderError>)
        ensures
            self.is_open() ==> r == Ok::<&S, ReaderError>(&self.reader()),
            !self.is_open() ==> (r matches Err(e) && error_is(
                e,
                ErrorKind::ValueError,
                closed_db_text(),
            )),
    {
        match &self.source {
            Some(s) => Ok(s),
            None => Err(closed_db_error()),
        }
    }

    /// The metadata; a closed database refuses with an `OSError`.
    pub fn metadata(&self) -> (r: Result<&Metadata, ReaderError>)
        ensures
            self.is_open() ==> r == Ok::<&Metadata, ReaderError>(&self.meta()),
            !self.is_open() ==> (r matches Err(e) && error_is(
                e,
                ErrorKind::OsError,
                closed_db_text(),
            )),
    {
        if self.source.is_some() {
            Ok(&self.metadata)
        } else {
            Err(closed_metadata_error())
        }
    }

    /// Looks up the addresses written in `ips`, parsing each with `parse`
    /// and searching with `lookup`, and reads `path` in each record found.
    fn batch<P, F>(&self, ips: &Vec<String>, path: &[PathElement], parse: P, lookup: F) -> (r:
        Result<Vec<Option<Value>>, ReaderError>) where
        P: Fn(&String) -> Option<IpAddress>,
        F: Fn(&S, IpAddress) -> LookupOutcome,

        requires
            self.is_open(),
            forall|t: &String| call_requires(parse, (t,)),
            forall|s: &S, a: IpAddress| call_requires(lookup, (s, a)),
        ensures
            batch_possible(parse, lookup, self.reader(), ips@, path@, r),
    {
        let s = match &self.source {
            Some(s) => s,
            None => {
                return Err(closed_db_error());
            },
        };
        let n = ips.len();
        let mut vals: Vec<Option<Value>> = Vec::new();
        let mut i: usize = 0;
        while i < n
            invariant
                n == ips@.len(),
                i <= n,
                *s == self.reader(),
                forall|t: &String| call_requires(parse, (t,)),
                forall|s: &S, a: IpAddress| call_requires(lookup, (s, a)),
                vals@.len() == i,
                forall|j: int|
                    0 <= j < i ==> #[trigger] batch_item_possible(
                        parse,
                        lookup,
                        self.reader(),
                        ips@[j],
                        path@,
                        Ok(vals@[j]),
                    ),
            decreases n - i,
        {
            let ip = &ips[i];
            let p = parse(ip);
            assert(call_ensures(parse, (&ips@[i as int],), p));
            match p {
                None => {
                    let e = invalid_address_error(ip.as_str());
                    proof {
                        assert(batch_item_possible(
                            parse,
                            lookup,
                            self.reader(),
                            ips@[i as int],
                            path@,
                            Err((e.kind, e.message@)),
                        ));
                        assert forall|j: int| 0 <= j < i implies #[trigger] batch_item_may_succeed(
                                parse,
                                lookup,
                                self.reader(),
                                ips@[j],
                                path@,
                            ) by {
                            assert(batch_item_possible(
                                parse,
                                lookup,
                                self.reader(),
                                ips@[j],
                                path@,
                                Ok(vals@[j]),
                            ));
                        }
                    }
                    return Err(e);
                },
                Some(a) => {
                    let o = lookup(s, a);
                    let ghost o0 = o;
                    assert(call_ensures(lookup, (&self.reader(), a), o0));
                    let answer = match o {
                        LookupOutcome::Found(v) => Ok(take_path(v, path)),
                        LookupOutcome::Missing => Ok(None),
                        LookupOutcome::Failed(d) => Err(lookup_error(d.as_str())),
                    };
                    assert(answers(answer, batch_answer(o0, path@)));
                    match answer {
                        Ok(v) => {
                            proof {
                                assert(batch_item_possible(
                                    parse,
                                    lookup,
                                    self.reader(),
                                    ips@[i as int],
                                    path@,
                                    Ok(v),
                                )) by {
                                    assert(call_ensures(lookup, (&self.reader(), a), o0));
                                }
                            }
                            vals.push(v);
                        },
                        Err(e) => {
                            proof {
                                assert(batch_item_possible(
                                    parse,
                                    lookup,
                                    self.reader(),
                                    ips@[i as int],
                                    path@,
                                    Err((e.kind, e.message@)),
                                )) by {
                                    assert(call_ensures(lookup, (&self.reader(), a), o0));
                                }
                                assert forall|j: int| 0 <= j < i implies #[trigger] batch_item_may_succeed(
                                        parse,
                                        lookup,
                                        self.reader(),
                                        ips@[j],
                                        path@,
                                    ) by {
                                    assert(batch_item_possible(
                                        parse,
                                        lookup,
                                        self.reader(),
                                        ips@[j],
                                        path@,
                                        Ok(vals@[j]),
                                    ));
                                }
                            }
                            return Err(e);
                        },
                    }
                },
            }
            i = i + 1;
        }
        Ok(vals)
    }

    /// Looks up a batch of addresses given as texts: the records in order,
    /// or the error of the first text that is not an address or whose
    /// lookup failed. Addresses are parsed with `parse` and searched with
    /// `lookup`.
    pub fn get_many<P, F>(&self, ips: &Vec<String>, parse: P, lookup: F) -> (r: Result<
        Vec<Option<Value>>,
        ReaderError,
    >) where P: Fn(&String) -> Option<IpAddress>, F: Fn(&S, IpAddress) -> LookupOutcome
        requires
            forall|t: &String| call_requires(parse, (t,)),
            forall|s: &S, a: IpAddress| call_requires(lookup, (s, a)),
        ensures
            !self.is_open() ==> (r matches Err(e) && error_is(
                e,
                ErrorKind::ValueError,
                closed_db_text(),
            )),
            self.is_open() ==> batch_possible(
                parse,
                lookup,
                self.reader(),
                ips@,
                Seq::<PathElement>::empty(),
                r,
            ),
    {
        if self.source.is_none() {
            return Err(closed_db_error());
        }
        let empty: Vec<PathElement> = Vec::new();
        assert(empty@ =~= Seq::<PathElement>::empty());
        self.batch(ips, empty.as_slice(), parse, lookup)
    }

    /// Looks up a batch of addresses as `get_many` does and reads `path`
    /// in each record found.
    pub fn get_many_path<P, F>(
        &self,
        ips: &Vec<String>,
        path: &[PathElement],
        parse: P,
        lookup: F,
    ) -> (r: Result<Vec<Option<Value>>, ReaderError>) where
        P: Fn(&String) -> Option<IpAddress>,
        F: Fn(&S, IpAddress) -> LookupOutcome,

        requires
            forall|t: &String| call_requires(parse, (t,)),
            forall|s: &S, a: IpAddress| call_requires(lookup, (s, a)),
        ensures
            !self.is_open() ==> (r matches Err(e) && error_is(
                e,
                ErrorKind::ValueError,
                closed_db_text(),
            )),
            self.is_open() ==> batch_possible(parse, lookup, self.reader(), ips@, path@, r),
    {
        if self.source.is_none() {
            return Err(closed_db_error());
        }
        self.batch(ips, path, parse, lookup)
    }

    /// Looks up the record of the address written `ip`, parsing it with
    /// `parse` (`None` when the text is not an IP address) and searching
    /// with `lookup`.
    pub fn get<P, F>(&self, ip: &String, parse: P, lookup: F) -> (r: Result<
        Option<Value>,
        ReaderError,
    >) where P: Fn(&String) -> Option<IpAddress>, F: Fn(&S, IpAddress) -> LookupOutcome
        requires
            forall|t: &String| call_requires(parse, (t,)),
            forall|s: &S, a: IpAddress| call_requires(lookup, (s, a)),
        ensures
            !self.is_open() ==> (r matches Err(e) && error_is(
                e,
                ErrorKind::ValueError,
                closed_db_text(),
            )),
            self.is_open() ==> get_possible(
                parse,
                lookup,
                self.reader(),
                self.meta().ip_version,
                *ip,
                r,
            ),
    {
        match &self.source {
            None => Err(closed_db_error()),
            Some(s) => {
                let parsed = parse(ip);
                match check_address(ip.as_str(), parsed, self.metadata.ip_version) {
                    Err(e) => Err(e),
                    Ok(a) => {
                        let o = lookup(s, a);
                        let ghost o0 = o;
                        let r = finish_get(o);
                        assert(call_ensures(lookup, (&self.reader(), a), o0));
                        r
                    },
                }
            },
        }
    }

    /// Looks up the address written `ip` as `get` does, with the prefix
    /// length of the network found; `lookup` gives both.
    pub fn get_with_prefix_len<P, F>(&self, ip: &String, parse: P, lookup: F) -> (r: Result<
        (Option<Value>, usize),
        ReaderError,
    >) where P: Fn(&String) -> Option<IpAddress>, F: Fn(&S, IpAddress) -> (LookupOutcome, usize)
        requires
            forall|t: &String| call_requires(parse, (t,)),
            forall|s: &S, a: IpAddress| call_requires(lookup, (s, a)),
        ensures
            !self.is_open() ==> (r matches Err(e) && error_is(
                e,
                ErrorKind::ValueError,
                closed_db_text(),
            )),
            self.is_open() ==> prefix_possible(
                parse,
                lookup,
                self.reader(),
                self.meta().ip_version,
                *ip,
                r,
            ),
    {
        match &self.source {
            None => Err(closed_db_error()),
            Some(s) => {
                let parsed = parse(ip);
                match check_address(ip.as_str(), parsed, self.metadata.ip_version) {
                    Err(e) => Err(e),
                    Ok(a) => {
                        let (o, n) = lookup(s, a);
                        let ghost o0 = o;
                        let r = finish_prefix(ip.as_str(), o, n);
                        assert(call_ensures(lookup, (&self.reader(), a), (o0, n)));
                        r
                    },
                }
            },
        }
    }

    /// Looks up the address written `ip` as `get` does and reads `path` in
    /// its record.
    pub fn get_path<P, F>(&self, ip: &String, path: &[PathElement], parse: P, lookup: F) -> (r:
        Result<Option<Value>, ReaderError>) where
        P: Fn(&String) -> Option<IpAddress>,
        F: Fn(&S, IpAddress) -> LookupOutcome,

        requires
            forall|t: &String| call_requires(parse, (t,)),
            forall|s: &S, a: IpAddress| call_requires(lookup, (s, a)),
        ensures
            !self.is_open() ==> (r matches Err(e) && error_is(
                e,
                ErrorKind::ValueError,
                closed_db_text(),
            )),
            self.is_open() ==> path_possible(
                parse,
                lookup,
                self.reader(),
                self.meta().ip_version,
                *ip,
                path@,
                r,
            ),
    {
        match &self.source {
            None => Err(closed_db_error()),
            Some(s) => {
                let parsed = parse(ip);
                match check_address(ip.as_str(), parsed, self.metadata.ip_version) {
                    Err(e) => Err(e),
                    Ok(a) => {
                        let o = lookup(s, a);
                        let ghost o0 = o;
                        let r = finish_path(o, path);
                        assert(call_ensures(lookup, (&self.reader(), a), o0));
                        r
                    },
                }
            },
        }
    }
}

} // verus!
