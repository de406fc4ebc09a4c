//! The decoded form of a record of the database, and navigation into a
//! record along a path of keys and indices.

use vstd::prelude::*;
use crate::text_map::TextMap;

verus! {

/// One value of the database's data section.
///
/// Floating-point values are held by their IEEE-754 bit patterns
/// (`f64::to_bits`, `f32::to_bits`); they are only carried, never computed on.
#[derive(Debug)]
pub enum Value {
    Array(Vec<Value>),
    Boolean(bool),
    Bytes(Vec<u8>),
    Double(u64),
    Float(u32),
    Int32(i32),
    Mapping(TextMap<Value>),
    String(String),
    Uint16(u16),
    Uint32(u32),
    Uint64(u64),
    Uint128(u128),
}

/// The `i32` a signed integer of the data section stands for: the format
/// stores signed integers as 32-bit values, so a wider one is refused.
pub open spec fn int32_of(value: int) -> Option<i32> {
    if i32::MIN <= value <= i32::MAX {
        Some(value as i32)
    } else {
        None
    }
}

/// Narrows a decoded signed integer to `i32`, or refuses it when it is out
/// of range.
pub fn int32_from_i64(value: i64) -> (r: Option<i32>)
    ensures
        r == int32_of(value as int),
{
    if value >= -2147483648i64 && value <= 2147483647i64 {
        Some(value as i32)
    } else {
        None
    }
}

/// One step of a path into a record: a map key or an array index; a
/// negative index counts from the end of the array (`-1` is the last).
#[derive(Debug)]
pub enum PathElement {
    Key(String),
    Index(i64),
}

/// The array position an index selects in an array of `len` elements.
pub open spec fn array_slot(len: int, index: int) -> int {
    if index >= 0 {
        index
    } else {
        len + index
    }
}

/// The value one path step leads to, if the step applies: a key into a map
/// that holds it, or an index within the bounds of an array.
pub open spec fn step(v: Value, e: PathElement) -> Option<Value> {
    match e {
        PathElement::Key(k) => match v {
            Value::Mapping(m) => if m@.contains_key(k@) {
                Some(m@[k@])
            } else {
                None
            },
            _ => None,
        },
        PathElement::Index(i) => match v {
            Value::Array(a) => {
                let slot = array_slot(a@.len() as int, i as int);
                if 0 <= slot < a@.len() {
                    Some(a@[slot])
                } else {
                    None
                }
            },
            _ => None,
        },
    }
}

/// The value a path leads to from `v`, if every step applies.
pub open spec fn path_target(v: Value, path: Seq<PathElement>) -> Option<Value>
    decreases path.len(),
{
    if path.len() == 0 {
        Some(v)
    } else {
        match step(v, path[0]) {
            Some(w) => path_target(w, path.drop_first()),
            None => None,
        }
    }
}

/// Takes one path step from `v`.
pub fn step_into<'a>(v: &'a Value, e: &PathElement) -> (r: Option<&'a Value>)
    ensures
        r is Some <==> step(*v, *e) is Some,
        r matches Some(w) ==> step(*v, *e) == Some(*w),
{
    match e {
        PathElement::Key(k) => match v {
            Value::Mapping(m) => m.get(k.as_str()),
            _ => None,
        },
        PathElement::Index(i) => match v {
            Value::Array(a) => {
                let len = a.len();
                let index: i64 = *i;
                if index >= 0 {
                    let ahead: u64 = index as u64;
                    if ahead < len as u64 {
                        Some(&a[ahead as usize])
                    } else {
                        None
                    }
                } else {
                    let back: u64 = (-(index + 1)) as u64 + 1;
                    if back <= len as u64 {
                        Some(&a[len - back as usize])
                    } else {
                        None
                    }
                }
            },
            _ => None,
        },
    }
}

/// Takes one path step from `v`, giving up the rest of `v`.
pub fn take_step(v: Value, e: &PathElement) -> (r: Option<Value>)
    ensures
        r == step(v, *e),
{
    match e {
        PathElement::Key(k) => match v {
            Value::Mapping(m) => m.take(k.as_str()),
            _ => None,
        },
        PathElement::Index(i) => match v {
            Value::Array(a) => {
                let mut a = a;
                let len = a.len();
                let index: i64 = *i;
                if index >= 0 {
                    let ahead: u64 = index as u64;
                    if ahead < len as u64 {
                        Some(a.swap_remove(ahead as usize))
                    } else {
                        None
                    }
                } else {
                    let back: u64 = (-(index + 1)) as u64 + 1;
                    if back <= len as u64 {
                        Some(a.swap_remove(len - back as usize))
                    } else {
                        None
                    }
                }
            },
            _ => None,
        },
    }
}

/// Follows a path into a record as `get_path` does, giving up the record for
/// the value found.
pub fn take_path(v: Value, path: &[PathElement]) -> (r: Option<Value>)
    ensures
        r == path_target(v, path@),
{
    let n = path.len();
    let mut cur: Value = v;
    let mut i: usize = 0;
    assert(path@.skip(0) =~= path@);
    while i < n
        invariant
            n == path@.len(),
            i <= n,
            path_target(v, path@) == path_target(cur, path@.skip(i as int)),
        decreases n - i,
    {
        assert(path@.skip(i as int)[0] == path@[i as int]);
        assert(path@.skip(i as int).drop_first() =~= path@.skip(i + 1));
        match take_step(cur, &path[i]) {
            Some(w) => {
                cur = w;
            },
            None => {
                return None;
            },
        }
        i = i + 1;
    }
    Some(cur)
}

/// Follows a path of keys and indices into a record; `None` when a key is
/// missing, an index is out of range, or a step meets a value of the wrong
/// kind.
pub fn get_path<'a>(v: &'a Value, path: &[PathElement]) -> (r: Option<&'a Value>)
    ensures
        r is Some <==> path_target(*v, path@) is Some,
        r matches Some(w) ==> path_target(*v, path@) == Some(*w),
{
    let n = path.len();
    let mut cur: &Value = v;
    let mut i: usize = 0;
    assert(path@.skip(0) =~= path@);
    while i < n
        invariant
            n == path@.len(),
            i <= n,
            path_target(*v, path@) == path_target(*cur, path@.skip(i as int)),
        decreases n - i,
    {
        assert(path@.skip(i as int)[0] == path@[i as int]);
        assert(path@.skip(i as int).drop_first() =~= path@.skip(i + 1));
        match step_into(cur, &path[i]) {
            Some(w) => {
                cur = w;
            },
            None => {
                return None;
            },
        }
        i = i + 1;
    }
    Some(cur)
}

} // verus!
