use maxminddb_rust::address::{argument_kind, iteration_root, ArgumentKind, IpAddress};
use maxminddb_rust::database::{
    check_address, finish_batch_item, finish_get, finish_prefix, Database, LookupOutcome,
};
use maxminddb_rust::error::ErrorKind;
use maxminddb_rust::metadata::Metadata;
use maxminddb_rust::mode::{
    open_plan, plan_needs_path, OpenPlan, MODE_AUTO, MODE_FD, MODE_FILE, MODE_MEMORY, MODE_MMAP,
    MODE_MMAP_EXT,
};
use maxminddb_rust::text_map::TextMap;
use maxminddb_rust::value::{PathElement, Value};

fn metadata(ip_version: u16) -> Metadata {
    Metadata {
        binary_format_major_version: 2,
        binary_format_minor_version: 0,
        build_epoch: 1_700_000_000,
        database_type: "Test".to_string(),
        description: {
            let mut d = TextMap::new();
            d.insert("en".to_string(), "Test Database".to_string());
            d
        },
        ip_version,
        languages: vec!["en".to_string()],
        node_count: 1000,
        record_size: 28,
    }
}

fn record(code: &str) -> Value {
    let mut m = TextMap::new();
    m.insert("code".to_string(), Value::String(code.to_string()));
    Value::Mapping(m)
}

fn code(v: &Value) -> Option<String> {
    match v {
        Value::Mapping(m) => match m.get("code") {
            Some(Value::String(s)) => Some(s.clone()),
            _ => None,
        },
        Value::String(s) => Some(s.clone()),
        _ => None,
    }
}

/// A database of the addresses 1.0.0.0/8 (record "A"), where 2.2.2.2 fails
/// and everything else has no record.
fn search(_: &u8, a: IpAddress) -> LookupOutcome {
    match a {
        IpAddress::V4(n) if n >> 24 == 1 => LookupOutcome::Found(record("A")),
        IpAddress::V4(0x0202_0202) => LookupOutcome::Failed("Decoding error: broken".to_string()),
        _ => LookupOutcome::Missing,
    }
}

/// Dotted quads, and `::` followed by a hexadecimal number, are enough here.
fn parse(s: &String) -> Option<IpAddress> {
    if let Some(rest) = s.strip_prefix("::") {
        return u128::from_str_radix(rest, 16).ok().map(IpAddress::V6);
    }
    let parts: Vec<&str> = s.split('.').collect();
    if parts.len() != 4 {
        return None;
    }
    let mut n: u32 = 0;
    for p in parts {
        n = (n << 8) | p.parse::<u8>().ok()? as u32;
    }
    Some(IpAddress::V4(n))
}

#[test]
fn get_found_missing_and_invalid_text() {
    let db = Database::new(7u8, metadata(4));
    let r = db.get(&"1.2.3.4".to_string(), parse, search).unwrap();
    assert_eq!(r.as_ref().and_then(code), Some("A".to_string()));
    let r = db.get(&"9.9.9.9".to_string(), parse, search).unwrap();
    assert!(r.is_none());
    let e = db.get(&"1.2.3".to_string(), parse, search).unwrap_err();
    assert_eq!(e.kind, ErrorKind::ValueError);
    assert_eq!(e.message, "'1.2.3' does not appear to be an IPv4 or IPv6 address");
}

#[test]
fn get_refuses_ipv6_in_ipv4_database() {
    let db = Database::new(7u8, metadata(4));
    let e = db.get(&"::1".to_string(), parse, search).unwrap_err();
    assert_eq!(e.kind, ErrorKind::ValueError);
    assert_eq!(
        e.message,
        "Error looking up ::1. You attempted to look up an IPv6 address in an IPv4-only database"
    );
    let db6 = Database::new(7u8, metadata(6));
    assert!(db6.get(&"::1".to_string(), parse, search).unwrap().is_none());
}

#[test]
fn get_reports_failures() {
    let db = Database::new(7u8, metadata(4));
    let e = db.get(&"2.2.2.2".to_string(), parse, search).unwrap_err();
    assert_eq!(e.kind, ErrorKind::ValueError);
    assert_eq!(e.message, "Database error: Decoding error: broken");
}

#[test]
fn finish_get_maps_failures() {
    let e = finish_get(LookupOutcome::Failed("Invalid database: bad pointer".to_string())).unwrap_err();
    assert_eq!(e.kind, ErrorKind::InvalidDatabase);
    assert_eq!(
        e.message,
        "The MaxMind DB file's data section contains bad data (unknown data type or corrupt data)"
    );
    assert!(finish_get(LookupOutcome::Failed("AddressNotFoundError".to_string())).unwrap().is_none());
    let e = finish_get(LookupOutcome::Failed("I/O error: gone".to_string())).unwrap_err();
    assert_eq!((e.kind, e.message.as_str()), (ErrorKind::ValueError, "Database error: I/O error: gone"));
    let e = finish_get(LookupOutcome::Failed("x data section contains bad data y".to_string())).unwrap_err();
    assert_eq!(e.kind, ErrorKind::InvalidDatabase);
    assert_eq!(e.message, "Database error: x data section contains bad data y");
}

#[test]
fn check_address_cases() {
    assert_eq!(check_address("1.1.1.1", Some(IpAddress::V4(1)), 4).unwrap(), IpAddress::V4(1));
    assert_eq!(check_address("::2", Some(IpAddress::V6(2)), 6).unwrap(), IpAddress::V6(2));
    assert!(check_address("::2", Some(IpAddress::V6(2)), 4).is_err());
    let e = check_address("data section contains bad data", None, 6).unwrap_err();
    assert_eq!(e.kind, ErrorKind::InvalidDatabase);
}

#[test]
fn prefix_lookups() {
    let db = Database::new(7u8, metadata(4));
    let lookup = |s: &u8, a: IpAddress| (search(s, a), 8usize);
    let (v, n) = db.get_with_prefix_len(&"1.0.0.1".to_string(), parse, lookup).unwrap();
    assert_eq!(v.as_ref().and_then(code), Some("A".to_string()));
    assert_eq!(n, 8);
    let (v, n) = db.get_with_prefix_len(&"9.0.0.1".to_string(), parse, lookup).unwrap();
    assert!(v.is_none());
    assert_eq!(n, 8);
    let r = finish_prefix("1.1.1.1", LookupOutcome::Failed("AddressNotFoundError".to_string()), 24).unwrap();
    assert!(r.0.is_none());
    assert_eq!(r.1, 0);
    let e = finish_prefix(
        "::1",
        LookupOutcome::Failed("IPv6 address in an IPv4-only database".to_string()),
        0,
    )
    .unwrap_err();
    assert_eq!(
        e.message,
        "Error looking up ::1. You attempted to look up an IPv6 address in an IPv4-only database"
    );
    let e = finish_prefix("1.1.1.1", LookupOutcome::Failed("Invalid database: t".to_string()), 3).unwrap_err();
    assert_eq!(e.kind, ErrorKind::InvalidDatabase);
}

#[test]
fn prefix_and_plain_lookup_agree() {
    for o in ["Decoding error: q", "Invalid database: q", "AddressNotFoundError"] {
        let a = finish_get(LookupOutcome::Failed(o.to_string()));
        let b = finish_prefix("5.5.5.5", LookupOutcome::Failed(o.to_string()), 9);
        match (a, b) {
            (Ok(x), Ok((y, _))) => assert_eq!(x.is_none(), y.is_none()),
            (Err(x), Err(y)) => assert_eq!((x.kind, x.message), (y.kind, y.message)),
            _ => panic!("disagreement for {o}"),
        }
    }
}

#[test]
fn batch_lookups() {
    let db = Database::new(7u8, metadata(4));
    let ips = vec!["1.2.3.4".to_string(), "8.8.8.8".to_string(), "1.0.0.0".to_string()];
    let r = db.get_many(&ips, parse, search).unwrap();
    assert_eq!(r.len(), 3);
    assert_eq!(r[0].as_ref().and_then(code), Some("A".to_string()));
    assert!(r[1].is_none());
    assert_eq!(r[2].as_ref().and_then(code), Some("A".to_string()));
    let bad = vec!["1.2.3.4".to_string(), "2.2.2.2".to_string(), "junk".to_string()];
    let e = db.get_many(&bad, parse, search).unwrap_err();
    assert_eq!((e.kind, e.message.as_str()), (ErrorKind::InvalidDatabase, "Lookup error: Decoding error: broken"));
    let bad = vec!["junk".to_string(), "2.2.2.2".to_string()];
    let e = db.get_many(&bad, parse, search).unwrap_err();
    assert_eq!((e.kind, e.message.as_str()), (ErrorKind::ValueError, "Invalid IP address: junk"));
    assert!(db.get_many(&Vec::new(), parse, search).unwrap().is_empty());
    // no IPv6 check in batches
    let six = vec!["::1".to_string()];
    assert!(db.get_many(&six, parse, search).unwrap()[0].is_none());
    assert!(finish_batch_item(LookupOutcome::Missing).unwrap().is_none());
}

#[test]
fn field_lookups() {
    let db = Database::new(7u8, metadata(4));
    let path = [PathElement::Key("code".to_string())];
    let v = db.get_path(&"1.9.9.9".to_string(), &path, parse, search).unwrap();
    assert_eq!(v.as_ref().and_then(code), Some("A".to_string()));
    let missing = [PathElement::Key("other".to_string())];
    assert!(db.get_path(&"1.9.9.9".to_string(), &missing, parse, search).unwrap().is_none());
    assert!(db.get_path(&"9.9.9.9".to_string(), &path, parse, search).unwrap().is_none());
    let ips = vec!["1.2.3.4".to_string(), "3.3.3.3".to_string()];
    let r = db.get_many_path(&ips, &path, parse, search).unwrap();
    assert_eq!(r[0].as_ref().and_then(code), Some("A".to_string()));
    assert!(r[1].is_none());
}

#[test]
fn closed_database_refuses_everything() {
    let mut db = Database::new(7u8, metadata(4));
    assert!(!db.closed());
    assert!(db.enter().is_ok());
    assert!(db.metadata().is_ok());
    db.close();
    assert!(db.closed());
    let e = db.get(&"1.2.3.4".to_string(), parse, search).unwrap_err();
    assert_eq!((e.kind, e.message.as_str()), (ErrorKind::ValueError, "Attempt to read from a closed MaxMind DB."));
    let e = db.metadata().unwrap_err();
    assert_eq!((e.kind, e.message.as_str()), (ErrorKind::OsError, "Attempt to read from a closed MaxMind DB."));
    let e = db.enter().unwrap_err();
    assert_eq!(e.message, "Attempt to reopen a closed MaxMind DB");
    assert!(db.ensure_open().is_err());
    assert!(db.reader_handle().is_err());
    assert!(db.get_many(&vec!["1.2.3.4".to_string()], parse, search).is_err());
    assert!(db.get_with_prefix_len(&"1.2.3.4".to_string(), parse, |s: &u8, a| (search(s, a), 0)).is_err());
    db.close();
    assert!(db.closed());
    let mut db2 = Database::new(1u8, metadata(6));
    db2.exit();
    assert!(db2.closed());
}

#[test]
fn open_database_reads_metadata() {
    let db = Database::new(7u8, metadata(6));
    let m = db.metadata().unwrap();
    assert_eq!(m.ip_version, 6);
    assert_eq!(m.node_byte_size(), 7);
    assert_eq!(m.search_tree_size(), 7000);
    assert_eq!(*db.reader_handle().unwrap(), 7u8);
}

#[test]
fn metadata_sizes() {
    let mut m = metadata(4);
    m.record_size = 32;
    m.node_count = u32::MAX;
    assert_eq!(m.node_byte_size(), 8);
    assert_eq!(m.search_tree_size(), 8 * u32::MAX as u64);
    m.record_size = 24;
    assert_eq!(m.node_byte_size(), 6);
}

#[test]
fn modes() {
    assert_eq!(open_plan(MODE_AUTO).unwrap(), OpenPlan::MapFile);
    assert_eq!(open_plan(MODE_MMAP).unwrap(), OpenPlan::MapFile);
    assert_eq!(open_plan(MODE_MMAP_EXT).unwrap(), OpenPlan::MapFile);
    assert_eq!(open_plan(MODE_MEMORY).unwrap(), OpenPlan::ReadFile);
    assert_eq!(open_plan(MODE_FILE).unwrap(), OpenPlan::ReadFile);
    assert_eq!(open_plan(MODE_FD).unwrap(), OpenPlan::ReadObject);
    assert_eq!(open_plan(3).unwrap_err().message, "Unsupported open mode (3)");
    assert!(plan_needs_path(OpenPlan::MapFile));
    assert!(!plan_needs_path(OpenPlan::ReadObject));
    assert_eq!((MODE_AUTO, MODE_MMAP_EXT, MODE_MMAP, MODE_FILE, MODE_MEMORY, MODE_FD), (0, 1, 2, 4, 8, 16));
}

#[test]
fn address_arguments() {
    assert_eq!(argument_kind(true, "str").unwrap(), ArgumentKind::Text);
    assert_eq!(argument_kind(false, "IPv4Address").unwrap(), ArgumentKind::AddressObject);
    assert_eq!(argument_kind(false, "IPv6Address").unwrap(), ArgumentKind::AddressObject);
    let e = argument_kind(false, "int").unwrap_err();
    assert_eq!(e.kind, ErrorKind::TypeError);
}

#[test]
fn iteration_roots() {
    let v4 = iteration_root(4).unwrap();
    assert_eq!(v4.to_string(), "0.0.0.0/0");
    assert!(v4.is_ipv4());
    let v6 = iteration_root(6).unwrap();
    assert_eq!(v6.to_string(), "::/0");
    assert!(v6.is_ipv6());
    assert_eq!(v6.prefix(), 0);
}

#[test]
fn batch_and_single_lookups_agree_on_success() {
    let db = Database::new(7u8, metadata(4));
    let ips = vec!["1.2.3.4".to_string(), "9.9.9.9".to_string()];
    let batch = db.get_many(&ips, parse, search).unwrap();
    for (ip, got) in ips.iter().zip(batch.iter()) {
        let single = db.get(ip, parse, search).unwrap();
        assert_eq!(single.as_ref().and_then(code), got.as_ref().and_then(code));
        assert_eq!(single.is_none(), got.is_none());
    }
}
