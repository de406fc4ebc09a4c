use maxminddb_rust::text_map::TextMap;
use maxminddb_rust::value::{get_path, int32_from_i64, take_path, PathElement, Value};

fn text(v: &Value) -> Option<&str> {
    match v {
        Value::String(s) => Some(s.as_str()),
        _ => None,
    }
}

fn uint32(v: &Value) -> Option<u32> {
    match v {
        Value::Uint32(n) => Some(*n),
        _ => None,
    }
}

fn country_record() -> Value {
    let mut names = TextMap::new();
    names.insert("en".to_string(), Value::String("Sweden".to_string()));
    names.insert("de".to_string(), Value::String("Schweden".to_string()));
    let mut country = TextMap::new();
    country.insert("iso_code".to_string(), Value::String("SE".to_string()));
    country.insert("geoname_id".to_string(), Value::Uint32(2661886));
    country.insert("names".to_string(), Value::Mapping(names));
    let mut sub_a = TextMap::new();
    sub_a.insert("iso_code".to_string(), Value::String("E".to_string()));
    let mut sub_b = TextMap::new();
    sub_b.insert("iso_code".to_string(), Value::String("AB".to_string()));
    let mut record = TextMap::new();
    record.insert("country".to_string(), Value::Mapping(country));
    record.insert(
        "subdivisions".to_string(),
        Value::Array(vec![Value::Mapping(sub_a), Value::Mapping(sub_b)]),
    );
    Value::Mapping(record)
}

#[test]
fn map_keeps_keys_sorted_by_bytes() {
    let mut m = TextMap::new();
    for k in ["b", "a", "\u{e9}", "Z", "ab", ""] {
        m.insert(k.to_string(), Value::Boolean(true));
    }
    let keys: Vec<&str> = m.entries().iter().map(|(k, _)| k.as_str()).collect();
    assert_eq!(keys, vec!["", "Z", "a", "ab", "b", "\u{e9}"]);
    assert_eq!(m.len(), 6);
}

#[test]
fn map_insert_replaces_existing_key() {
    let mut m = TextMap::new();
    m.insert("city".to_string(), Value::Uint16(1));
    m.insert("city".to_string(), Value::Uint16(2));
    assert_eq!(m.len(), 1);
    assert!(matches!(m.get("city"), Some(Value::Uint16(2))));
    assert!(m.get("town").is_none());
}

#[test]
fn map_take_gives_stored_value() {
    let mut m = TextMap::new();
    m.insert("x".to_string(), Value::Int32(-7));
    m.insert("y".to_string(), Value::Int32(8));
    assert!(matches!(m.take("y"), Some(Value::Int32(8))));
    let mut m2 = TextMap::new();
    m2.insert("x".to_string(), Value::Int32(-7));
    assert!(m2.take("z").is_none());
}

#[test]
fn int32_range_check() {
    assert_eq!(int32_from_i64(0), Some(0));
    assert_eq!(int32_from_i64(-2147483648), Some(i32::MIN));
    assert_eq!(int32_from_i64(2147483647), Some(i32::MAX));
    assert_eq!(int32_from_i64(2147483648), None);
    assert_eq!(int32_from_i64(-2147483649), None);
    assert_eq!(int32_from_i64(i64::MIN), None);
}

#[test]
fn path_reads_keys_and_indices() {
    let record = country_record();
    let iso = [PathElement::Key("country".to_string()), PathElement::Key("iso_code".to_string())];
    assert_eq!(get_path(&record, &iso).and_then(text), Some("SE"));
    let name = [
        PathElement::Key("country".to_string()),
        PathElement::Key("names".to_string()),
        PathElement::Key("de".to_string()),
    ];
    assert_eq!(get_path(&record, &name).and_then(text), Some("Schweden"));
    let first = [
        PathElement::Key("subdivisions".to_string()),
        PathElement::Index(0),
        PathElement::Key("iso_code".to_string()),
    ];
    assert_eq!(get_path(&record, &first).and_then(text), Some("E"));
    let last = [
        PathElement::Key("subdivisions".to_string()),
        PathElement::Index(-1),
        PathElement::Key("iso_code".to_string()),
    ];
    assert_eq!(get_path(&record, &last).and_then(text), Some("AB"));
    let id = [PathElement::Key("country".to_string()), PathElement::Key("geoname_id".to_string())];
    assert_eq!(get_path(&record, &id).and_then(uint32), Some(2661886));
}

#[test]
fn path_misses_give_none() {
    let record = country_record();
    let missing = [PathElement::Key("city".to_string())];
    assert!(get_path(&record, &missing).is_none());
    let past_end = [PathElement::Key("subdivisions".to_string()), PathElement::Index(2)];
    assert!(get_path(&record, &past_end).is_none());
    let before_start = [PathElement::Key("subdivisions".to_string()), PathElement::Index(-3)];
    assert!(get_path(&record, &before_start).is_none());
    let index_into_map = [PathElement::Index(0)];
    assert!(get_path(&record, &index_into_map).is_none());
    let key_into_text = [
        PathElement::Key("country".to_string()),
        PathElement::Key("iso_code".to_string()),
        PathElement::Key("x".to_string()),
    ];
    assert!(get_path(&record, &key_into_text).is_none());
}

#[test]
fn empty_path_is_whole_record() {
    let record = country_record();
    let found = get_path(&record, &[]).unwrap();
    assert!(std::ptr::eq(found, &record));
}

#[test]
fn path_composition_example() {
    let record = country_record();
    let p = [PathElement::Key("country".to_string())];
    let q = [PathElement::Key("names".to_string()), PathElement::Key("en".to_string())];
    let pq = [
        PathElement::Key("country".to_string()),
        PathElement::Key("names".to_string()),
        PathElement::Key("en".to_string()),
    ];
    let step = get_path(&record, &p).unwrap();
    assert_eq!(get_path(step, &q).and_then(text), get_path(&record, &pq).and_then(text));
    assert_eq!(get_path(&record, &pq).and_then(text), Some("Sweden"));
}

#[test]
fn take_path_moves_value_out() {
    let last = [
        PathElement::Key("subdivisions".to_string()),
        PathElement::Index(-2),
        PathElement::Key("iso_code".to_string()),
    ];
    let v = take_path(country_record(), &last);
    assert!(matches!(v, Some(Value::String(ref s)) if s == "E"));
    let none = take_path(country_record(), &[PathElement::Key("nope".to_string())]);
    assert!(none.is_none());
}
