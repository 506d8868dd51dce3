//! The dynamically typed values that a player reports, and the rules by which
//! one of them is read as a value of an expected type.
use vstd::prelude::*;
use crate::text::{same_text, copy_text, copy_texts, texts, opt_text, opt_texts};
use crate::properties::{Double, PlaybackStatus, LoopStatus};

verus! {

/// One value as it came over the bus. `Other` stands for every shape that no
/// property of a player uses.
#[derive(Debug, PartialEq, Eq)]
pub enum Value {
    Bool(bool),
    U8(u8),
    I16(i16),
    U16(u16),
    I32(i32),
    U32(u32),
    I64(i64),
    U64(u64),
    Double(Double),
    Text(String),
    Path(String),
    TextList(Vec<String>),
    Dict(Vec<Item>),
    Other,
}

/// One entry of a property bag.
#[derive(Debug, PartialEq, Eq)]
pub struct Item {
    pub key: String,
    pub value: Value,
}

/// The value under `key` in a bag: that of the first entry with this key.
pub open spec fn find(bag: Seq<Item>, key: Seq<char>) -> Option<Value>
    decreases bag.len(),
{
    if bag.len() == 0 {
        None
    } else if bag[0].key@ == key {
        Some(bag[0].value)
    } else {
        find(bag.subrange(1, bag.len() as int), key)
    }
}

/// The number that an integer value stands for, whatever its width and sign.
pub open spec fn as_int(v: Value) -> Option<int> {
    match v {
        Value::U8(n) => Some(n as int),
        Value::I16(n) => Some(n as int),
        Value::U16(n) => Some(n as int),
        Value::I32(n) => Some(n as int),
        Value::U32(n) => Some(n as int),
        Value::I64(n) => Some(n as int),
        Value::U64(n) => Some(n as int),
        _ => None,
    }
}

/// A value read as a signed 64-bit integer: any integer that fits.
pub open spec fn int64_of(v: Option<Value>) -> Option<i64> {
    match v {
        Some(x) => match as_int(x) {
            Some(n) => if i64::MIN <= n <= i64::MAX {
                Some(n as i64)
            } else {
                None
            },
            None => None,
        },
        None => None,
    }
}

/// A value read as a signed 32-bit integer: any integer that fits.
pub open spec fn int32_of(v: Option<Value>) -> Option<i32> {
    match v {
        Some(x) => match as_int(x) {
            Some(n) => if i32::MIN <= n <= i32::MAX {
                Some(n as i32)
            } else {
                None
            },
            None => None,
        },
        None => None,
    }
}

/// A value read as a boolean.
pub open spec fn bool_of(v: Option<Value>) -> Option<bool> {
    match v {
        Some(Value::Bool(b)) => Some(b),
        _ => None,
    }
}

/// A value read as a double.
pub open spec fn double_of(v: Option<Value>) -> Option<Double> {
    match v {
        Some(Value::Double(d)) => Some(d),
        _ => None,
    }
}

/// A value read as text: a string or an object path.
pub open spec fn text_of(v: Option<Value>) -> Option<Seq<char>> {
    match v {
        Some(Value::Text(s)) => Some(s@),
        Some(Value::Path(s)) => Some(s@),
        _ => None,
    }
}

/// A value read as a list of texts.
pub open spec fn texts_of(v: Option<Value>) -> Option<Seq<Seq<char>>> {
    match v {
        Some(Value::TextList(l)) => Some(texts(l)),
        _ => None,
    }
}

/// The playback status that a text names.
pub open spec fn status_named(s: Seq<char>) -> Option<PlaybackStatus> {
    if s == "Playing"@ {
        Some(PlaybackStatus::Playing)
    } else if s == "Paused"@ {
        Some(PlaybackStatus::Paused)
    } else if s == "Stopped"@ {
        Some(PlaybackStatus::Stopped)
    } else {
        None
    }
}

/// The loop status that a text names.
pub open spec fn loop_named(s: Seq<char>) -> Option<LoopStatus> {
    if s == "None"@ {
        Some(LoopStatus::Off)
    } else if s == "Track"@ {
        Some(LoopStatus::Track)
    } else if s == "Playlist"@ {
        Some(LoopStatus::Playlist)
    } else {
        None
    }
}

/// A value read as a playback status.
pub open spec fn status_of(v: Option<Value>) -> Option<PlaybackStatus> {
    match v {
        Some(Value::Text(s)) => status_named(s@),
        _ => None,
    }
}

/// A value read as a loop status.
pub open spec fn loop_of(v: Option<Value>) -> Option<LoopStatus> {
    match v {
        Some(Value::Text(s)) => loop_named(s@),
        _ => None,
    }
}

/// The entries of the dictionary under `key`; none where there is no such
/// value or it is no dictionary.
pub open spec fn dict_of(v: Option<Value>) -> Seq<Item> {
    match v {
        Some(Value::Dict(d)) => d@,
        _ => Seq::empty(),
    }
}

/// The value behind an optional reference.
pub open spec fn held(v: Option<&Value>) -> Option<Value> {
    match v {
        Some(x) => Some(*x),
        None => None,
    }
}

/// Looks `key` up in a bag.
pub fn lookup<'a>(bag: &'a Vec<Item>, key: &str) -> (r: Option<&'a Value>)
    ensures
        held(r) == find(bag@, key@),
{
    let mut i: usize = 0;
    assert(bag@.subrange(0, bag@.len() as int) =~= bag@);
    while i < bag.len()
        invariant
            i <= bag@.len(),
            find(bag@, key@) == find(bag@.subrange(i as int, bag@.len() as int), key@),
        decreases bag@.len() - i,
    {
        let ghost rest = bag@.subrange(i as int, bag@.len() as int);
        assert(rest[0] == bag@[i as int]);
        assert(rest.subrange(1, rest.len() as int) =~= bag@.subrange(i + 1, bag@.len() as int));
        if same_text(bag[i].key.as_str(), key) {
            return Some(&bag[i].value);
        }
        i += 1;
    }
    None
}

/// Reads a looked-up value as a signed 64-bit integer.
fn to_i64(v: Option<&Value>) -> (r: Option<i64>)
    ensures
        r == int64_of(held(v)),
{
    match v {
        Some(Value::U8(n)) => Some(*n as i64),
        Some(Value::I16(n)) => Some(*n as i64),
        Some(Value::U16(n)) => Some(*n as i64),
        Some(Value::I32(n)) => Some(*n as i64),
        Some(Value::U32(n)) => Some(*n as i64),
        Some(Value::I64(n)) => Some(*n),
        Some(Value::U64(n)) => if *n <= 0x7fff_ffff_ffff_ffffu64 {
            Some(*n as i64)
        } else {
            None
        },
        _ => None,
    }
}

/// Reads a looked-up value as a signed 32-bit integer.
fn to_i32(v: Option<&Value>) -> (r: Option<i32>)
    ensures
        r == int32_of(held(v)),
{
    match to_i64(v) {
        Some(n) => if -0x8000_0000i64 <= n && n <= 0x7fff_ffffi64 {
            Some(n as i32)
        } else {
            None
        },
        None => None,
    }
}

/// Reads a looked-up value as a boolean.
fn to_bool(v: Option<&Value>) -> (r: Option<bool>)
    ensures
        r == bool_of(held(v)),
{
    match v {
        Some(Value::Bool(b)) => Some(*b),
        _ => None,
    }
}

/// Reads a looked-up value as a double.
fn to_double(v: Option<&Value>) -> (r: Option<Double>)
    ensures
        r == double_of(held(v)),
{
    match v {
        Some(Value::Double(d)) => Some(*d),
        _ => None,
    }
}

/// Reads a looked-up value as text.
fn to_text(v: Option<&Value>) -> (r: Option<String>)
    ensures
        opt_text(r) == text_of(held(v)),
{
    match v {
        Some(Value::Text(s)) => Some(copy_text(s.as_str())),
        Some(Value::Path(s)) => Some(copy_text(s.as_str())),
        _ => None,
    }
}

/// Reads a looked-up value as a list of texts.
fn to_texts(v: Option<&Value>) -> (r: Option<Vec<String>>)
    ensures
        opt_texts(r) == texts_of(held(v)),
{
    match v {
        Some(Value::TextList(l)) => Some(copy_texts(l)),
        _ => None,
    }
}

/// Reads a looked-up value as a playback status.
fn to_status(v: Option<&Value>) -> (r: Option<PlaybackStatus>)
    ensures
        r == status_of(held(v)),
{
    match v {
        Some(Value::Text(s)) => PlaybackStatus::from_name(s.as_str()),
        _ => None,
    }
}

/// Reads a looked-up value as a loop status.
fn to_loop(v: Option<&Value>) -> (r: Option<LoopStatus>)
    ensures
        r == loop_of(held(v)),
{
    match v {
        Some(Value::Text(s)) => LoopStatus::from_name(s.as_str()),
        _ => None,
    }
}


/// The value under `key` in `bag`, read as a signed 64-bit integer. Absent where the bag has
/// no such key and where the value cannot be read so.
pub fn get_i64(bag: &Vec<Item>, key: &str) -> (r: Option<i64>)
    ensures
        r == int64_of(find(bag@, key@)),
{
    to_i64(lookup(bag, key))
}

/// The value under `key` in `bag`, read as a signed 32-bit integer. Absent where the bag has
/// no such key and where the value cannot be read so.
pub fn get_i32(bag: &Vec<Item>, key: &str) -> (r: Option<i32>)
    ensures
        r == int32_of(find(bag@, key@)),
{
    to_i32(lookup(bag, key))
}

/// The value under `key` in `bag`, read as a boolean. Absent where the bag has
/// no such key and where the value cannot be read so.
pub fn get_bool(bag: &Vec<Item>, key: &str) -> (r: Option<bool>)
    ensures
        r == bool_of(find(bag@, key@)),
{
    to_bool(lookup(bag, key))
}

/// The value under `key` in `bag`, read as a double. Absent where the bag has
/// no such key and where the value cannot be read so.
pub fn get_double(bag: &Vec<Item>, key: &str) -> (r: Option<Double>)
    ensures
        r == double_of(find(bag@, key@)),
{
    to_double(lookup(bag, key))
}

/// The value under `key` in `bag`, read as text. Absent where the bag has
/// no such key and where the value cannot be read so.
pub fn get_text(bag: &Vec<Item>, key: &str) -> (r: Option<String>)
    ensures
        opt_text(r) == text_of(find(bag@, key@)),
{
    to_text(lookup(bag, key))
}

/// The value under `key` in `bag`, read as a list of texts. Absent where the bag has
/// no such key and where the value cannot be read so.
pub fn get_texts(bag: &Vec<Item>, key: &str) -> (r: Option<Vec<String>>)
    ensures
        opt_texts(r) == texts_of(find(bag@, key@)),
{
    to_texts(lookup(bag, key))
}

/// The value under `key` in `bag`, read as a playback status. Absent where the bag has
/// no such key and where the value cannot be read so.
pub fn get_status(bag: &Vec<Item>, key: &str) -> (r: Option<PlaybackStatus>)
    ensures
        r == status_of(find(bag@, key@)),
{
    to_status(lookup(bag, key))
}

/// The value under `key` in `bag`, read as a loop status. Absent where the bag has
/// no such key and where the value cannot be read so.
pub fn get_loop(bag: &Vec<Item>, key: &str) -> (r: Option<LoopStatus>)
    ensures
        r == loop_of(find(bag@, key@)),
{
    to_loop(lookup(bag, key))
}

/// Reads `v` as a signed 64-bit integer: any integer that fits.
pub fn read_i64(v: &Value) -> (r: Option<i64>)
    ensures
        r == int64_of(Some(*v)),
{
    to_i64(Some(v))
}

/// The entries of the dictionary under `key` in `bag`, if there is one.
pub fn get_dict<'a>(bag: &'a Vec<Item>, key: &str) -> (r: Option<&'a Vec<Item>>)
    ensures
        match r {
            Some(d) => find(bag@, key@) == Some(Value::Dict(*d)),
            None => !(find(bag@, key@) matches Some(Value::Dict(_))),
        },
{
    match lookup(bag, key) {
        Some(Value::Dict(d)) => Some(d),
        _ => None,
    }
}

} // verus!
