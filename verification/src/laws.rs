//! Properties that hold across the library's operations.

use vstd::prelude::*;
use crate::address::IpAddress;
use crate::database::{address_answer, answers, batch_answer, batch_item_possible, batch_possible,
    get_answer, get_possible, path_answer, prefix_answer, prefix_possible, ErrorModel, LookupOutcome};
use crate::error::ReaderError;
use crate::mode::{request_of, plan_of, OpenPlan, MODE_AUTO, MODE_FD, MODE_FILE, MODE_MEMORY, MODE_MMAP,
    MODE_MMAP_EXT};
use crate::text::{occurs_at, text_contains, utf8};
use crate::error::{bad_data_marker, bad_data_text, invalid_address_text, lookup_error_kind, ErrorKind};
use crate::text_map::TextMap;
use crate::metadata::Metadata;
use crate::value::{int32_of, path_target, step, PathElement, Value};

verus! {

/// Reading a field along `p` and then along `q` from what was found reaches
/// the same value as reading along `p + q`; a path that fails part way
/// fails as a whole.
pub proof fn law_path_composes(v: Value, p: Seq<PathElement>, q: Seq<PathElement>)
    ensures
        path_target(v, p + q) == match path_target(v, p) {
            Some(w) => path_target(w, q),
            None => None,
        },
    decreases p.len(),
{
    if p.len() == 0 {
        assert(p + q =~= q);
    } else {
        assert((p + q)[0] == p[0]);
        assert((p + q).drop_first() =~= p.drop_first() + q);
        match step(v, p[0]) {
            Some(w) => law_path_composes(w, p.drop_first(), q),
            None => {},
        }
    }
}

/// A lookup of a field along the empty path answers exactly as a lookup of
/// the whole record.
pub proof fn law_empty_path_is_whole_record(o: LookupOutcome)
    ensures
        path_answer(o, Seq::<PathElement>::empty()) == get_answer(o),
{
}

/// A lookup with prefix length reports the same record or the same error as
/// a plain lookup of the same search outcome, except for a failure whose
/// text speaks of an IPv6 address in an IPv4-only database, which it
/// reports for the address asked for.
pub proof fn law_prefix_lookup_agrees(ip: Seq<char>, o: LookupOutcome, prefix_len: usize)
    requires
        !(o matches LookupOutcome::Failed(d) && text_contains(
            d@,
            "IPv6 address in an IPv4-only database"@,
        )),
    ensures
        match (get_answer(o), prefix_answer(ip, o, prefix_len)) {
            (Ok(v), Ok(w)) => v == w.0,
            (Err(a), Err(b)) => a == b,
            _ => false,
        },
{
}

/// For an address whose search succeeds (a record or none), a batch
/// answers what a single lookup answers.
pub proof fn law_batch_agrees_on_success(o: LookupOutcome)
    requires
        !(o is Failed),
    ensures
        batch_answer(o, Seq::<PathElement>::empty()) == get_answer(o),
{
}

/// Every 32-bit signed integer passes the format's range check unchanged.
pub proof fn law_int32_kept(x: i32)
    ensures
        int32_of(x as int) == Some(x),
{
}

/// The modes documented as equivalent open a database the same way:
/// `MODE_AUTO` and `MODE_MMAP_EXT` as `MODE_MMAP`, `MODE_FILE` as
/// `MODE_MEMORY`, and every documented mode is supported.
pub proof fn law_documented_modes()
    ensures
        plan_of(MODE_AUTO) == plan_of(MODE_MMAP),
        plan_of(MODE_MMAP_EXT) == plan_of(MODE_MMAP),
        plan_of(MODE_FILE) == plan_of(MODE_MEMORY),
        plan_of(MODE_MMAP) == Some(OpenPlan::MapFile),
        plan_of(MODE_MEMORY) == Some(OpenPlan::ReadFile),
        plan_of(MODE_FD) == Some(OpenPlan::ReadObject),
{
}

/// Reading a key of a text map after storing under it gives what was stored;
/// every other key reads as before (`after` is a map as `insert(key,
/// value)` leaves `before`).
pub proof fn law_map_read_after_write<V>(
    before: TextMap<V>,
    after: TextMap<V>,
    key: Seq<char>,
    value: V,
    other: Seq<char>,
)
    requires
        after@ == before@.insert(key, value),
    ensures
        after@.contains_key(key),
        after@[key] == value,
        other != key ==> after@.contains_key(other) == before@.contains_key(other),
        other != key && before@.contains_key(other) ==> after@[other] == before@[other],
{
}

/// The message for bad data in the data section is raised as an
/// `InvalidDatabaseError`.
pub proof fn law_bad_data_is_invalid_database()
    ensures
        lookup_error_kind(bad_data_text()) == ErrorKind::InvalidDatabase,
{
    reveal_strlit(
        "The MaxMind DB file's data section contains bad data (unknown data type or corrupt data)",
    );
    reveal_strlit("data section contains bad data");
    let h = bad_data_text();
    let n = bad_data_marker();
    assert(vstd::utf8::is_ascii_chars(h));
    assert(vstd::utf8::is_ascii_chars(n));
    vstd::utf8::is_ascii_chars_encode_utf8(h);
    vstd::utf8::is_ascii_chars_encode_utf8(n);
    assert(utf8(h).subrange(22, 52) =~= utf8(n));
    assert(occurs_at(utf8(h), utf8(n), 22));
}

/// A lookup that fails with an error of the database's format ("Invalid
/// database") is raised as an `InvalidDatabaseError` with the bad-data
/// message.
pub proof fn law_invalid_database_failure(d: String)
    requires
        text_contains(d@, "Invalid database"@),
    ensures
        get_answer(LookupOutcome::Failed(d)) == Err::<Option<Value>, (ErrorKind, Seq<char>)>(
            (ErrorKind::InvalidDatabase, bad_data_text()),
        ),
{
    law_bad_data_is_invalid_database();
}

/// Two requests for the same text, a lookup and a lookup with prefix length,
/// answer alike (the same record, or an error of the same class and
/// message) when the text parses one way and both searches find the same
/// outcome, unless that outcome is a failure speaking of an IPv6 address in
/// an IPv4-only database.
pub proof fn law_prefix_request_agrees<S, P, F, G>(
    parse: P,
    lookup: F,
    prefix_lookup: G,
    s: S,
    ip_version: u16,
    ip: String,
    r1: Result<Option<Value>, ReaderError>,
    r2: Result<(Option<Value>, usize), ReaderError>,
) where
    P: Fn(&String) -> Option<IpAddress>,
    F: Fn(&S, IpAddress) -> LookupOutcome,
    G: Fn(&S, IpAddress) -> (LookupOutcome, usize),

    requires
        get_possible(parse, lookup, s, ip_version, ip, r1),
        prefix_possible(parse, prefix_lookup, s, ip_version, ip, r2),
        forall|p1: Option<IpAddress>, p2: Option<IpAddress>|
            call_ensures(parse, (&ip,), p1) && call_ensures(parse, (&ip,), p2) ==> p1 == p2,
        forall|a: IpAddress, o: LookupOutcome, q: (LookupOutcome, usize)|
            call_ensures(lookup, (&s, a), o) && call_ensures(prefix_lookup, (&s, a), q) ==> q.0
                == o && !(o matches LookupOutcome::Failed(d) && text_contains(
                d@,
                "IPv6 address in an IPv4-only database"@,
            )),
    ensures
        match (r1, r2) {
            (Ok(v), Ok(w)) => v == w.0,
            (Err(e1), Err(e2)) => e1.kind == e2.kind && e1.message@ == e2.message@,
            _ => false,
        },
{
    let p1 = choose|p: Option<IpAddress>|
        #[trigger] call_ensures(parse, (&ip,), p) && match address_answer(ip@, p, ip_version) {
            Err(m) => answers(r1, Err(m)),
            Ok(a) => exists|o: LookupOutcome|
                #[trigger] call_ensures(lookup, (&s, a), o) && answers(r1, get_answer(o)),
        };
    let p2 = choose|p: Option<IpAddress>|
        #[trigger] call_ensures(parse, (&ip,), p) && match address_answer(ip@, p, ip_version) {
            Err(m) => answers(r2, Err(m)),
            Ok(a) => exists|o: (LookupOutcome, usize)|
                #[trigger] call_ensures(prefix_lookup, (&s, a), o) && answers(
                    r2,
                    prefix_answer(ip@, o.0, o.1),
                ),
        };
    assert(p1 == p2);
    match address_answer(ip@, p1, ip_version) {
        Err(m) => {},
        Ok(a) => {
            let o = choose|o: LookupOutcome|
                #[trigger] call_ensures(lookup, (&s, a), o) && answers(r1, get_answer(o));
            let q = choose|q: (LookupOutcome, usize)|
                #[trigger] call_ensures(prefix_lookup, (&s, a), q) && answers(
                    r2,
                    prefix_answer(ip@, q.0, q.1),
                );
            assert(q.0 == o);
            law_prefix_lookup_agrees(ip@, o, q.1);
        },
    }
}

/// Each answer of a batch is what a single lookup of the same text answers,
/// when the text parses one way to an address the database accepts and its
/// search finds one outcome that is not a failure.
pub proof fn law_batch_request_agrees<S, P, F>(
    parse: P,
    lookup: F,
    s: S,
    ip_version: u16,
    ips: Seq<String>,
    vals: Vec<Option<Value>>,
    i: int,
    r: Result<Option<Value>, ReaderError>,
) where P: Fn(&String) -> Option<IpAddress>, F: Fn(&S, IpAddress) -> LookupOutcome
    requires
        batch_possible(
            parse,
            lookup,
            s,
            ips,
            Seq::<PathElement>::empty(),
            Ok::<Vec<Option<Value>>, ReaderError>(vals),
        ),
        0 <= i < ips.len(),
        get_possible(parse, lookup, s, ip_version, ips[i], r),
        forall|p: Option<IpAddress>|
            call_ensures(parse, (&ips[i],), p) ==> (p matches Some(a) && !(ip_version == 4
                && a is V6)),
        forall|p1: Option<IpAddress>, p2: Option<IpAddress>|
            call_ensures(parse, (&ips[i],), p1) && call_ensures(parse, (&ips[i],), p2) ==> p1
                == p2,
        forall|a: IpAddress, o1: LookupOutcome, o2: LookupOutcome|
            call_ensures(lookup, (&s, a), o1) && call_ensures(lookup, (&s, a), o2) ==> o1 == o2
                && !(o1 is Failed),
    ensures
        r == Ok::<Option<Value>, ReaderError>(vals@[i]),
{
    let empty = Seq::<PathElement>::empty();
    assert(batch_item_possible(parse, lookup, s, ips[i], empty, Ok(vals@[i])));
    let p1 = choose|p: Option<IpAddress>|
        call_ensures(parse, (&ips[i],), p) && match p {
            None => Ok::<Option<Value>, ErrorModel>(vals@[i])
                == Err::<Option<Value>, ErrorModel>(
                (ErrorKind::ValueError, invalid_address_text(ips[i]@)),
            ),
            Some(a) => exists|o: LookupOutcome|
                call_ensures(lookup, (&s, a), o) && Ok::<Option<Value>, ErrorModel>(
                    vals@[i],
                ) == batch_answer(o, empty),
        };
    let p2 = choose|p: Option<IpAddress>|
        #[trigger] call_ensures(parse, (&ips[i],), p) && match address_answer(
            ips[i]@,
            p,
            ip_version,
        ) {
            Err(m) => answers(r, Err(m)),
            Ok(a) => exists|o: LookupOutcome|
                #[trigger] call_ensures(lookup, (&s, a), o) && answers(r, get_answer(o)),
        };
    assert(p1 == p2);
    let a = p1->Some_0;
    let o1 = choose|o: LookupOutcome|
        call_ensures(lookup, (&s, a), o) && Ok::<Option<Value>, ErrorModel>(
                    vals@[i],
                ) == batch_answer(o, empty);
    let o2 = choose|o: LookupOutcome|
        #[trigger] call_ensures(lookup, (&s, a), o) && answers(r, get_answer(o));
    assert(o1 == o2);
    law_batch_agrees_on_success(o1);
}

/// Opening in modes documented as equivalent asks for the same thing:
/// `MODE_AUTO`, `MODE_MMAP_EXT` and `MODE_MMAP` map the file, `MODE_FILE` and
/// `MODE_MEMORY` read it into memory, whatever the database argument.
pub proof fn law_equivalent_modes_same_request(path: Option<Seq<char>>)
    ensures
        request_of(MODE_AUTO, path) == request_of(MODE_MMAP, path),
        request_of(MODE_MMAP_EXT, path) == request_of(MODE_MMAP, path),
        request_of(MODE_FILE, path) == request_of(MODE_MEMORY, path),
{
}

/// Two lookups of texts that read the same (such as an address object and
/// its `str()`) answer alike when the parse gives one address per text and
/// the search one outcome per address.
pub proof fn law_same_text_same_answer<S, P, F>(
    parse: P,
    lookup: F,
    s: S,
    ip_version: u16,
    ip1: String,
    ip2: String,
    r1: Result<Option<Value>, ReaderError>,
    r2: Result<Option<Value>, ReaderError>,
) where P: Fn(&String) -> Option<IpAddress>, F: Fn(&S, IpAddress) -> LookupOutcome
    requires
        ip1@ == ip2@,
        get_possible(parse, lookup, s, ip_version, ip1, r1),
        get_possible(parse, lookup, s, ip_version, ip2, r2),
        forall|p1: Option<IpAddress>, p2: Option<IpAddress>|
            call_ensures(parse, (&ip1,), p1) && call_ensures(parse, (&ip2,), p2) ==> p1 == p2,
        forall|a: IpAddress, o1: LookupOutcome, o2: LookupOutcome|
            call_ensures(lookup, (&s, a), o1) && call_ensures(lookup, (&s, a), o2) ==> o1 == o2,
    ensures
        match (r1, r2) {
            (Ok(v), Ok(w)) => v == w,
            (Err(e1), Err(e2)) => e1.kind == e2.kind && e1.message@ == e2.message@,
            _ => false,
        },
{
    let p1 = choose|p: Option<IpAddress>|
        #[trigger] call_ensures(parse, (&ip1,), p) && match address_answer(ip1@, p, ip_version) {
            Err(m) => answers(r1, Err(m)),
            Ok(a) => exists|o: LookupOutcome|
                #[trigger] call_ensures(lookup, (&s, a), o) && answers(r1, get_answer(o)),
        };
    let p2 = choose|p: Option<IpAddress>|
        #[trigger] call_ensures(parse, (&ip2,), p) && match address_answer(ip2@, p, ip_version) {
            Err(m) => answers(r2, Err(m)),
            Ok(a) => exists|o: LookupOutcome|
                #[trigger] call_ensures(lookup, (&s, a), o) && answers(r2, get_answer(o)),
        };
    assert(p1 == p2);
    match address_answer(ip1@, p1, ip_version) {
        Err(m) => {},
        Ok(a) => {
            let o1 = choose|o: LookupOutcome|
                #[trigger] call_ensures(lookup, (&s, a), o) && answers(r1, get_answer(o));
            let o2 = choose|o: LookupOutcome|
                #[trigger] call_ensures(lookup, (&s, a), o) && answers(r2, get_answer(o));
            assert(o1 == o2);
        },
    }
}

/// A lookup with prefix length that finds a record, or finds that the
/// address has none, reports exactly the prefix length the search gave.
pub proof fn law_prefix_length_kept(ip: Seq<char>, v: Value, prefix_len: usize)
    ensures
        prefix_answer(ip, LookupOutcome::Found(v), prefix_len) == Ok::<
            (Option<Value>, usize),
            ErrorModel,
        >((Some(v), prefix_len)),
        prefix_answer(ip, LookupOutcome::Missing, prefix_len) == Ok::<
            (Option<Value>, usize),
            ErrorModel,
        >((None, prefix_len)),
{
}

/// One key step reads the map's entry for the key, or nothing when the
/// map lacks it; a key step on anything but a map reads nothing.
pub proof fn law_key_step(v: Value, k: String)
    ensures
        v matches Value::Mapping(m) ==> path_target(v, seq![PathElement::Key(k)]) == (if m@.contains_key(
            k@,
        ) {
            Some(m@[k@])
        } else {
            None
        }),
        !(v is Mapping) ==> path_target(v, seq![PathElement::Key(k)]) == None::<Value>,
{
    let p = seq![PathElement::Key(k)];
    assert(p.drop_first() =~= Seq::<PathElement>::empty());
    assert(p[0] == PathElement::Key(k));
    reveal_with_fuel(path_target, 2);
}

/// One index step reads the array's element at the index, counted from the
/// end when negative (`-1` is the last), or nothing when out of range; an
/// index step on anything but an array reads nothing.
pub proof fn law_index_step(v: Value, i: i64)
    ensures
        v matches Value::Array(a) ==> path_target(v, seq![PathElement::Index(i)]) == (if 0 <= i
            < a@.len() {
            Some(a@[i as int])
        } else if i < 0 && 0 <= a@.len() + i {
            Some(a@[a@.len() + i])
        } else {
            None
        }),
        !(v is Array) ==> path_target(v, seq![PathElement::Index(i)]) == None::<Value>,
{
    let p = seq![PathElement::Index(i)];
    assert(p.drop_first() =~= Seq::<PathElement>::empty());
    assert(p[0] == PathElement::Index(i));
    reveal_with_fuel(path_target, 2);
}

/// A field lookup along `p + q` answers what reading `q` in the value `p`
/// reaches answers: every step of the path is taken in turn.
pub proof fn law_field_lookup_composes(v: Value, p: Seq<PathElement>, q: Seq<PathElement>)
    ensures
        path_answer(LookupOutcome::Found(v), p + q) == match path_answer(
            LookupOutcome::Found(v),
            p,
        ) {
            Ok(Some(w)) => path_answer(LookupOutcome::Found(w), q),
            other => other,
        },
        path_answer(LookupOutcome::Found(v), p) == Ok::<Option<Value>, ErrorModel>(
            path_target(v, p),
        ),
{
    law_path_composes(v, p, q);
}

/// Each item of a batch field lookup whose search does not fail answers
/// what a single field lookup with the same outcome and path answers.
pub proof fn law_batch_field_is_single_field(o: LookupOutcome, path: Seq<PathElement>)
    requires
        !(o is Failed),
    ensures
        batch_answer(o, path) == path_answer(o, path),
{
}

/// A node of the search tree holds two records of `record_size` bits, so it
/// takes `record_size / 4` bytes, and the tree `node_count` times that.
pub proof fn law_search_tree_size(m: Metadata)
    requires
        m.record_size % 4 == 0,
    ensures
        m.spec_node_byte_size() * 4 == m.record_size,
        m.spec_search_tree_size() * 4 == m.node_count * m.record_size,
        m.record_size == 24 ==> m.spec_search_tree_size() == m.node_count * 6,
        m.record_size == 28 ==> m.spec_search_tree_size() == m.node_count * 7,
        m.record_size == 32 ==> m.spec_search_tree_size() == m.node_count * 8,
{
    let n = m.node_count as int;
    let b = m.spec_node_byte_size();
    assert(b * 4 == m.record_size);
    assert(n * b * 4 == n * (b * 4)) by (nonlinear_arith);
}

} // verus!
