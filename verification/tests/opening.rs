use maxminddb_rust::error::ErrorKind;
use maxminddb_rust::metadata::{Metadata, MetadataRecord};
use maxminddb_rust::mode::{needs_path, open_request, OpenRequest, MODE_AUTO, MODE_FD, MODE_FILE, MODE_MEMORY};
use maxminddb_rust::source::{open_source, MemoryReader, ReaderSource};

fn text(out: &mut Vec<u8>, s: &str) {
    out.push(0x40 | s.len() as u8);
    out.extend_from_slice(s.as_bytes());
}

/// An empty IPv4 database (no nodes), in the MaxMind DB format.
fn empty_database(description: &[(&str, &str)]) -> Vec<u8> {
    let mut b = vec![0u8; 16];
    b.extend_from_slice(b"\xab\xcd\xefMaxMind.com");
    b.push(0xE0 | 9);
    text(&mut b, "binary_format_major_version");
    b.extend_from_slice(&[0xA1, 2]);
    text(&mut b, "binary_format_minor_version");
    b.push(0xA0);
    text(&mut b, "build_epoch");
    b.extend_from_slice(&[0x01, 0x02, 7]);
    text(&mut b, "database_type");
    text(&mut b, "Test");
    text(&mut b, "description");
    b.push(0xE0 | description.len() as u8);
    for (k, v) in description {
        text(&mut b, k);
        text(&mut b, v);
    }
    text(&mut b, "ip_version");
    b.extend_from_slice(&[0xA1, 4]);
    text(&mut b, "languages");
    b.extend_from_slice(&[0x01, 0x04]);
    text(&mut b, "en");
    text(&mut b, "node_count");
    b.push(0xC0);
    text(&mut b, "record_size");
    b.extend_from_slice(&[0xA1, 24]);
    b
}

fn read(bytes: Vec<u8>) -> Option<(ReaderSource, MetadataRecord)> {
    let reader = maxminddb::Reader::from_source(bytes).ok()?;
    let m = &reader.metadata;
    let record = MetadataRecord {
        binary_format_major_version: m.binary_format_major_version,
        binary_format_minor_version: m.binary_format_minor_version,
        build_epoch: m.build_epoch,
        database_type: m.database_type.clone(),
        description: m.description.iter().map(|(k, v)| (k.clone(), v.clone())).collect(),
        ip_version: m.ip_version,
        languages: m.languages.clone(),
        node_count: m.node_count,
        record_size: m.record_size,
    };
    Some((ReaderSource::Memory(MemoryReader { inner: reader }), record))
}

#[test]
fn open_source_reads_metadata() {
    let db = open_source("test.mmdb", read(empty_database(&[("zh", "Chinese"), ("en", "Test Database")]))).unwrap();
    assert!(!db.closed());
    let m = db.metadata().unwrap();
    assert_eq!(m.database_type, "Test");
    assert_eq!(m.ip_version, 4);
    assert_eq!(m.record_size, 24);
    assert_eq!(m.node_count, 0);
    assert_eq!(m.build_epoch, 7);
    assert_eq!(m.binary_format_major_version, 2);
    assert_eq!(m.languages, vec!["en".to_string()]);
    let keys: Vec<(&str, &str)> =
        m.description.entries().iter().map(|(k, v)| (k.as_str(), v.as_str())).collect();
    assert_eq!(keys, vec![("en", "Test Database"), ("zh", "Chinese")]);
    match &**db.reader_handle().unwrap() {
        ReaderSource::Memory(r) => {
            let ip = "1.2.3.4".parse().unwrap();
            let found: Option<serde::de::IgnoredAny> = r.inner.lookup(ip).unwrap();
            assert!(found.is_none());
        }
        ReaderSource::Mapped(_) => panic!("expected a reader over memory"),
    }
}

#[test]
fn open_source_refuses_other_bytes() {
    assert!(read(vec![1, 2, 3]).is_none());
    let e = open_source("bad.mmdb", None).err().unwrap();
    assert_eq!(e.kind, ErrorKind::InvalidDatabase);
    assert_eq!(e.message, "Error opening database file (bad.mmdb). Is this a valid MaxMind DB file?");
}

#[test]
fn metadata_from_record_sorts_descriptions() {
    let record = MetadataRecord {
        binary_format_major_version: 2,
        binary_format_minor_version: 0,
        build_epoch: 1,
        database_type: "T".to_string(),
        description: vec![
            ("zh".to_string(), "Chinese".to_string()),
            ("en".to_string(), "English".to_string()),
            ("zh".to_string(), "Chinese 2".to_string()),
        ],
        ip_version: 6,
        languages: vec![],
        node_count: 3,
        record_size: 28,
    };
    let m = Metadata::from_record(record);
    let keys: Vec<(&str, &str)> =
        m.description.entries().iter().map(|(k, v)| (k.as_str(), v.as_str())).collect();
    assert_eq!(keys, vec![("en", "English"), ("zh", "Chinese 2")]);
    assert_eq!(m.description.len(), 2);
}

#[test]
fn open_requests() {
    assert!(matches!(open_request(MODE_FILE, Some("a".to_string())), Ok(OpenRequest::ReadFile(p)) if p == "a"));
    assert!(matches!(open_request(MODE_MEMORY, Some("a".to_string())), Ok(OpenRequest::ReadFile(p)) if p == "a"));
    assert!(matches!(open_request(MODE_AUTO, Some("b".to_string())), Ok(OpenRequest::MapFile(p)) if p == "b"));
    assert!(matches!(open_request(MODE_FD, None), Ok(OpenRequest::ReadObject)));
    let e = open_request(3, None).err().unwrap();
    assert_eq!(e.message, "database must be a string, PathLike, or file descriptor");
    let e = open_request(3, Some("c".to_string())).err().unwrap();
    assert_eq!(e.message, "Unsupported open mode (3)");
    assert!(needs_path(MODE_AUTO));
    assert!(!needs_path(MODE_FD));
}
