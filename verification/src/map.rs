//! Property maps: string keys bound to arrays of integers or of data items,
//! with the key rules and the error reporting of VapourSynth maps.
use vstd::prelude::*;
use crate::text::{TextBuf, decimal_text};
use vstd::utf8::{encode_utf8, encode_scalar, valid_utf8, decode_utf8};

verus! {

broadcast use vstd::string::axiom_spec_iter;

/// An error indicating the map key is invalid.
#[derive(Debug, Clone, Copy, PartialEq, Eq, Structural)]
pub enum InvalidKeyError {
    /// The key is empty
    EmptyKey,
    /// The key contains an invalid character at the given index (counted in characters)
    InvalidCharacter(usize),
}

/// The error type for map operations.
#[derive(Debug, Clone, Copy, PartialEq, Eq, Structural)]
pub enum MapError {
    /// The requested key wasn't found in the map
    KeyNotFound,
    /// The requested index was out of bounds
    IndexOutOfBounds,
    /// The given/requested value type doesn't match the type of the property
    WrongValueType,
    /// The key is invalid
    InvalidKey(InvalidKeyError),
    /// A string could not be handed over because it holds a NUL character
    CStringConversion,
    /// Failed to create map
    CreationFailed,
    /// Unknown error (see the map's error message)
    Error,
    /// The data is not valid UTF-8
    Utf8Error,
}

/// A specialized `Result` type for map operations.
pub type MapResult<T> = Result<T, MapError>;

/// A character that may start a key: an ASCII letter or an underscore.
pub open spec fn is_key_start_char(c: char) -> bool {
    ('a' <= c && c <= 'z') || ('A' <= c && c <= 'Z') || c == '_'
}

/// A character that may follow the first one in a key: an ASCII letter, an
/// ASCII digit or an underscore.
pub open spec fn is_key_char(c: char) -> bool {
    is_key_start_char(c) || ('0' <= c && c <= '9')
}

/// Whether the character at position `i` of a key is allowed there.
pub open spec fn key_char_ok_at(key: Seq<char>, i: int) -> bool {
    if i == 0 {
        is_key_start_char(key[0])
    } else {
        is_key_char(key[i])
    }
}

/// The position of the first disallowed character of `key` at or after `i`.
pub open spec fn first_bad_key_char(key: Seq<char>, i: nat) -> Option<nat>
    decreases key.len() - i,
{
    if i >= key.len() {
        None
    } else if !key_char_ok_at(key, i as int) {
        Some(i)
    } else {
        first_bad_key_char(key, i + 1)
    }
}

/// The outcome of checking a key: valid keys start with an ASCII letter or an
/// underscore and contain only ASCII letters, ASCII digits and underscores.
pub open spec fn check_key(key: Seq<char>) -> Result<(), InvalidKeyError> {
    if key.len() == 0 {
        Err(InvalidKeyError::EmptyKey)
    } else {
        match first_bad_key_char(key, 0) {
            None => Ok(()),
            Some(i) => Err(InvalidKeyError::InvalidCharacter(i as usize)),
        }
    }
}

/// A valid key.
pub open spec fn is_valid_key(key: Seq<char>) -> bool {
    check_key(key) is Ok
}

proof fn lemma_first_bad_none(key: Seq<char>, i: nat)
    requires
        forall|j: int| i <= j < key.len() ==> key_char_ok_at(key, j),
    ensures
        first_bad_key_char(key, i) is None,
    decreases key.len() - i,
{
    if i < key.len() {
        lemma_first_bad_none(key, i + 1);
    }
}

proof fn lemma_first_bad_some(key: Seq<char>, i: nat, k: nat)
    requires
        i <= k < key.len(),
        !key_char_ok_at(key, k as int),
        forall|j: int| i <= j < k ==> key_char_ok_at(key, j),
    ensures
        first_bad_key_char(key, i) == Some(k),
    decreases k - i,
{
    if i < k {
        lemma_first_bad_some(key, i + 1, k);
    }
}

/// A valid key has every character allowed at its position.
pub proof fn lemma_valid_key_chars(key: Seq<char>)
    ensures
        is_valid_key(key) <==> (key.len() > 0 && forall|j: int|
            0 <= j < key.len() ==> key_char_ok_at(key, j)),
{
    if key.len() > 0 {
        if forall|j: int| 0 <= j < key.len() ==> key_char_ok_at(key, j) {
            lemma_first_bad_none(key, 0);
        } else {
            let k = choose|j: int| 0 <= j < key.len() && !key_char_ok_at(key, j);
            lemma_first_bad_upto(key, k as nat);
        }
    }
}

proof fn lemma_first_bad_upto(key: Seq<char>, k: nat)
    requires
        k < key.len(),
        !key_char_ok_at(key, k as int),
    ensures
        first_bad_key_char(key, 0) is Some,
    decreases k,
{
    if exists|j: int| 0 <= j < k && !key_char_ok_at(key, j) {
        let j = choose|j: int| 0 <= j < k && !key_char_ok_at(key, j);
        lemma_first_bad_upto(key, j as nat);
    } else {
        lemma_first_bad_some(key, 0, k);
    }
}

/// The UTF-8 encoding of a sequence of characters is at least as long as the sequence.
pub proof fn lemma_encode_utf8_len(s: Seq<char>)
    ensures
        encode_utf8(s).len() >= s.len(),
    decreases s.len(),
{
    if s.len() > 0 {
        lemma_encode_utf8_len(s.drop_first());
        assert(encode_scalar(s[0] as u32).len() >= 1);
    }
}

fn is_key_start(c: char) -> (r: bool)
    ensures
        r == is_key_start_char(c),
{
    ('a' <= c && c <= 'z') || ('A' <= c && c <= 'Z') || c == '_'
}

fn is_key_rest(c: char) -> (r: bool)
    ensures
        r == is_key_char(c),
{
    is_key_start(c) || ('0' <= c && c <= '9')
}

/// Checks if the key is valid. Valid keys start with an alphabetic character or an underscore,
/// and contain only alphanumeric characters and underscores (ASCII only). An
/// invalid character is reported by its position counted in characters.
pub fn is_key_valid(key: &str) -> (r: Result<(), InvalidKeyError>)
    ensures
        r == check_key(key@),
{
    if key.is_empty() {
        return Err(InvalidKeyError::EmptyKey);
    }
    let nbytes = key.as_bytes().len();
    proof {
        lemma_encode_utf8_len(key@);
    }
    let mut i: usize = 0;
    for c in it: key.chars()
        invariant
            it.seq() == key@,
            key@.len() <= nbytes,
            key@.len() > 0,
            i == it.index(),
            forall|j: int| 0 <= j < i ==> key_char_ok_at(key@, j),
    {
        let ok = if i == 0 {
            is_key_start(c)
        } else {
            is_key_rest(c)
        };
        if !ok {
            proof {
                lemma_first_bad_some(key@, 0, i as nat);
            }
            return Err(InvalidKeyError::InvalidCharacter(i));
        }
        i = i + 1;
    }
    proof {
        lemma_first_bad_none(key@, 0);
    }
    Ok(())
}

} // verus!

verus! {

/// The kind of data a data item holds, as hinted by whoever stored it.
#[derive(Debug, Clone, Copy, PartialEq, Eq, Structural)]
pub enum DataType {
    String,
    Binary,
    Unknown,
}

impl DataType {
    /// The number that VapourSynth uses for this hint.
    pub open spec fn spec_code(self) -> int {
        match self {
            DataType::String => 1,
            DataType::Binary => 0,
            DataType::Unknown => -1,
        }
    }

    /// The number that VapourSynth uses for this hint.
    pub fn code(self) -> (r: i32)
        ensures
            r == self.spec_code(),
    {
        match self {
            DataType::String => 1,
            DataType::Binary => 0,
            DataType::Unknown => -1,
        }
    }

    /// The hint that VapourSynth reports by the given number; numbers that
    /// name no hint read as `Unknown`.
    pub fn from_hint(value: i32) -> (r: DataType)
        ensures
            value == 0 ==> r == DataType::Binary,
            value == 1 ==> r == DataType::String,
            value != 0 && value != 1 ==> r == DataType::Unknown,
    {
        if value == 0 {
            DataType::Binary
        } else if value == 1 {
            DataType::String
        } else {
            DataType::Unknown
        }
    }
}

/// An enumeration of all possible value types.
#[derive(Debug, Clone, Copy, PartialEq, Eq, Structural, Hash)]
pub enum ValueType {
    Int,
    Float,
    Data,
    Node,
    Frame,
    Function,
}

/// The numbers that [value_type_from_code] accepts.
pub open spec fn is_value_type_code(code: i32) -> bool {
    code == 0 || code == 1 || code == 2 || code == 3 || code == 4 || code == 7 || code == 15
}

/// Reads the type number that VapourSynth reports for a key: 0 (unset) is a
/// missing key, 1 integers, 2 floats, 3 data, 4 functions. Node types are
/// recognised by the number `5 | 6` and frame types by `7 | 8`, so a video
/// frame (7) reads as a node; the other node and frame numbers are not accepted.
pub fn value_type_from_code(code: i32) -> (r: MapResult<ValueType>)
    requires
        is_value_type_code(code),
    ensures
        code == 0 ==> r == Err::<ValueType, MapError>(MapError::KeyNotFound),
        code == 1 ==> r == Ok::<ValueType, MapError>(ValueType::Int),
        code == 2 ==> r == Ok::<ValueType, MapError>(ValueType::Float),
        code == 3 ==> r == Ok::<ValueType, MapError>(ValueType::Data),
        code == 4 ==> r == Ok::<ValueType, MapError>(ValueType::Function),
        code == 7 ==> r == Ok::<ValueType, MapError>(ValueType::Node),
        code == 15 ==> r == Ok::<ValueType, MapError>(ValueType::Frame),
{
    if code == 0 {
        Err(MapError::KeyNotFound)
    } else if code == 1 {
        Ok(ValueType::Int)
    } else if code == 2 {
        Ok(ValueType::Float)
    } else if code == 3 {
        Ok(ValueType::Data)
    } else if code == 7 {
        Ok(ValueType::Node)
    } else if code == 15 {
        Ok(ValueType::Frame)
    } else {
        Ok(ValueType::Function)
    }
}

/// The error numbers of VapourSynth's map getters: 0 success, 1 unset key,
/// 2 wrong type, 3 other error, 4 index out of bounds.
pub open spec fn is_get_error_code(error: i32) -> bool {
    0 <= error <= 4
}

/// The result that a getter's error number stands for.
pub open spec fn get_error_result(error: i32) -> MapResult<()> {
    if error == 0 {
        Ok(())
    } else if error == 1 {
        Err(MapError::KeyNotFound)
    } else if error == 2 {
        Err(MapError::WrongValueType)
    } else if error == 4 {
        Err(MapError::IndexOutOfBounds)
    } else {
        Err(MapError::Error)
    }
}

/// Turns the error number of a VapourSynth map getter into a `Result`.
pub fn handle_get_prop_error(error: i32) -> (r: MapResult<()>)
    requires
        is_get_error_code(error),
    ensures
        r == get_error_result(error),
{
    if error == 0 {
        Ok(())
    } else if error == 1 {
        Err(MapError::KeyNotFound)
    } else if error == 2 {
        Err(MapError::WrongValueType)
    } else if error == 4 {
        Err(MapError::IndexOutOfBounds)
    } else {
        Err(MapError::Error)
    }
}

/// Turns the status of a VapourSynth append into a `Result`: any non-zero
/// status means the value type did not match.
pub fn handle_append_prop_error(error: i32) -> (r: MapResult<()>)
    ensures
        error == 0 ==> r == Ok::<(), MapError>(()),
        error != 0 ==> r == Err::<(), MapError>(MapError::WrongValueType),
{
    if error != 0 {
        Err(MapError::WrongValueType)
    } else {
        Ok(())
    }
}

/// The error variants of the earlier map interface.
#[derive(Debug, Clone, Copy, PartialEq, Eq, Structural)]
pub enum MapPropError {
    /// There exists no value associated with this key
    Unset,
    /// Incorrect type
    Type,
    /// No value exists at this index
    Index,
}

impl MapPropError {
    /// The error that a non-zero getter error number of 1, 2 or 4 stands for.
    pub fn handle(code: i32) -> (r: MapPropError)
        requires
            code == 1 || code == 2 || code == 4,
        ensures
            code == 1 ==> r == MapPropError::Unset,
            code == 2 ==> r == MapPropError::Type,
            code == 4 ==> r == MapPropError::Index,
    {
        if code == 1 {
            MapPropError::Unset
        } else if code == 4 {
            MapPropError::Index
        } else {
            MapPropError::Type
        }
    }
}

} // verus!

verus! {

/// A data item as the map holds it: its bytes and the kind of data they hold.
pub struct DataItem {
    pub bytes: Seq<u8>,
    pub hint: DataType,
}

/// The values bound to a key: an array of integers or an array of data items.
pub enum Property {
    Ints(Seq<i64>),
    Datas(Seq<DataItem>),
}

/// A data item: bytes with a hint on how to read them.
#[derive(Debug)]
pub struct DataValue {
    pub bytes: Vec<u8>,
    pub hint: DataType,
}

impl View for DataValue {
    type V = DataItem;

    open spec fn view(&self) -> DataItem {
        DataItem { bytes: self.bytes@, hint: self.hint }
    }
}

/// The values bound to a key.
#[derive(Debug)]
pub enum PropertyValue {
    Int(Vec<i64>),
    Data(Vec<DataValue>),
}

impl View for PropertyValue {
    type V = Property;

    open spec fn view(&self) -> Property {
        match self {
            PropertyValue::Int(v) => Property::Ints(v@),
            PropertyValue::Data(v) => Property::Datas(v@.map_values(|d: DataValue| d@)),
        }
    }
}

/// The entries of a map in order: each key with its values.
pub type Entries = Seq<(Seq<char>, Property)>;

/// Whether some entry has the key.
pub open spec fn has_key(m: Entries, k: Seq<char>) -> bool {
    exists|i: int| 0 <= i < m.len() && #[trigger] m[i].0 == k
}

/// The position of the entry with the key.
pub open spec fn key_index(m: Entries, k: Seq<char>) -> int {
    choose|i: int| 0 <= i < m.len() && #[trigger] m[i].0 == k
}

/// The values bound to the key, if any.
pub open spec fn lookup(m: Entries, k: Seq<char>) -> Option<Property> {
    if has_key(m, k) {
        Some(m[key_index(m, k)].1)
    } else {
        None
    }
}

/// No two entries have the same key.
pub open spec fn keys_distinct(m: Entries) -> bool {
    forall|i: int, j: int| 0 <= i < m.len() && 0 <= j < m.len() && i != j ==> #[trigger] m[i].0
        != #[trigger] m[j].0
}

/// The entries after binding `k` to `p`: an existing entry keeps its place,
/// a new key is added at the end.
pub open spec fn with_entry(m: Entries, k: Seq<char>, p: Property) -> Entries {
    if has_key(m, k) {
        m.update(key_index(m, k), (k, p))
    } else {
        m.push((k, p))
    }
}

/// The entries without the one for `k`.
pub open spec fn without_entry(m: Entries, k: Seq<char>) -> Entries {
    if has_key(m, k) {
        m.remove(key_index(m, k))
    } else {
        m
    }
}

/// The keys of the entries, in order.
pub open spec fn entry_keys(m: Entries) -> Seq<Seq<char>> {
    m.map_values(|e: (Seq<char>, Property)| e.0)
}

/// In entries with distinct keys, the entry found for a key is the only one with it.
pub proof fn lemma_key_index_unique(m: Entries, k: Seq<char>, i: int)
    requires
        keys_distinct(m),
        0 <= i < m.len(),
        m[i].0 == k,
    ensures
        has_key(m, k),
        key_index(m, k) == i,
        lookup(m, k) == Some(m[i].1),
{
    assert(has_key(m, k));
    let j = key_index(m, k);
    if j != i {
        assert(m[i].0 != m[j].0);
    }
}

/// Binding a key keeps the keys distinct; afterwards the key reads back the
/// bound values and every other key reads what it read before.
pub proof fn lemma_with_entry(m: Entries, k: Seq<char>, p: Property, k2: Seq<char>)
    requires
        keys_distinct(m),
    ensures
        keys_distinct(with_entry(m, k, p)),
        lookup(with_entry(m, k, p), k2) == if k2 == k {
            Some(p)
        } else {
            lookup(m, k2)
        },
        has_key(m, k) ==> with_entry(m, k, p).len() == m.len(),
        !has_key(m, k) ==> with_entry(m, k, p).len() == m.len() + 1,
{
    let m2 = with_entry(m, k, p);
    if has_key(m, k) {
        let i = key_index(m, k);
        assert forall|a: int, b: int|
            0 <= a < m2.len() && 0 <= b < m2.len() && a != b implies #[trigger] m2[a].0
            != #[trigger] m2[b].0 by {
            if a != i && b != i {
                assert(m[a].0 != m[b].0);
            } else if a == i {
                assert(m[b].0 != m[i].0);
            } else {
                assert(m[a].0 != m[i].0);
            }
        }
        lemma_key_index_unique(m2, k, i);
        if k2 != k && has_key(m, k2) {
            let j = key_index(m, k2);
            assert(j != i);
            lemma_key_index_unique(m2, k2, j);
        }
        if k2 != k && has_key(m2, k2) {
            let j = key_index(m2, k2);
            assert(m[j].0 == k2);
        }
    } else {
        let n = m.len() as int;
        assert forall|a: int, b: int|
            0 <= a < m2.len() && 0 <= b < m2.len() && a != b implies #[trigger] m2[a].0
            != #[trigger] m2[b].0 by {
            if a != n && b != n {
                assert(m[a].0 != m[b].0);
            } else if a == n {
                assert(m[b].0 != k);
            } else {
                assert(m[a].0 != k);
            }
        }
        lemma_key_index_unique(m2, k, n);
        if k2 != k && has_key(m, k2) {
            let j = key_index(m, k2);
            lemma_key_index_unique(m2, k2, j);
        }
        if k2 != k && has_key(m2, k2) {
            let j = key_index(m2, k2);
            assert(j != n);
            assert(m[j].0 == k2);
        }
    }
}

/// Removing a key keeps the keys distinct; afterwards the key is missing and
/// every other key reads what it read before.
pub proof fn lemma_without_entry(m: Entries, k: Seq<char>, k2: Seq<char>)
    requires
        keys_distinct(m),
    ensures
        keys_distinct(without_entry(m, k)),
        lookup(without_entry(m, k), k2) == if k2 == k {
            None
        } else {
            lookup(m, k2)
        },
{
    let m2 = without_entry(m, k);
    if has_key(m, k) {
        let i = key_index(m, k);
        assert forall|a: int, b: int|
            0 <= a < m2.len() && 0 <= b < m2.len() && a != b implies #[trigger] m2[a].0
            != #[trigger] m2[b].0 by {
            let a1 = if a < i {
                a
            } else {
                a + 1
            };
            let b1 = if b < i {
                b
            } else {
                b + 1
            };
            assert(m2[a] == m[a1]);
            assert(m2[b] == m[b1]);
            assert(m[a1].0 != m[b1].0);
        }
        if has_key(m2, k) {
            let j = key_index(m2, k);
            let j1 = if j < i {
                j
            } else {
                j + 1
            };
            assert(m2[j] == m[j1]);
            assert(m[j1].0 != m[i].0);
        }
        if k2 != k && has_key(m, k2) {
            let j = key_index(m, k2);
            assert(j != i);
            let j2 = if j < i {
                j
            } else {
                j - 1
            };
            assert(m2[j2] == m[j]);
            lemma_key_index_unique(m2, k2, j2);
        }
        if k2 != k && has_key(m2, k2) {
            let j = key_index(m2, k2);
            let j1 = if j < i {
                j
            } else {
                j + 1
            };
            assert(m2[j] == m[j1]);
            lemma_key_index_unique(m, k2, j1);
        }
    }
}

} // verus!

verus! {

/// The result of checking a key, as a map operation reports it.
pub open spec fn key_result(k: Seq<char>) -> MapResult<()> {
    match check_key(k) {
        Ok(_) => Ok(()),
        Err(e) => Err(MapError::InvalidKey(e)),
    }
}

/// What reading the integer at `index` under key `k` gives.
pub open spec fn spec_get_int(m: Entries, k: Seq<char>, index: int) -> MapResult<i64> {
    match check_key(k) {
        Err(e) => Err(MapError::InvalidKey(e)),
        Ok(_) => match lookup(m, k) {
            None => Err(MapError::KeyNotFound),
            Some(Property::Ints(s)) => if 0 <= index < s.len() {
                Ok(s[index])
            } else {
                Err(MapError::IndexOutOfBounds)
            },
            Some(Property::Datas(_)) => Err(MapError::WrongValueType),
        },
    }
}

/// What reading all integers under key `k` gives.
pub open spec fn spec_get_int_array(m: Entries, k: Seq<char>) -> MapResult<Seq<i64>> {
    match check_key(k) {
        Err(e) => Err(MapError::InvalidKey(e)),
        Ok(_) => match lookup(m, k) {
            None => Err(MapError::KeyNotFound),
            Some(Property::Ints(s)) => Ok(s),
            Some(Property::Datas(_)) => Err(MapError::WrongValueType),
        },
    }
}

/// What reading the data item at `index` under key `k` gives.
pub open spec fn spec_get_data(m: Entries, k: Seq<char>, index: int) -> MapResult<DataItem> {
    match check_key(k) {
        Err(e) => Err(MapError::InvalidKey(e)),
        Ok(_) => match lookup(m, k) {
            None => Err(MapError::KeyNotFound),
            Some(Property::Datas(s)) => if 0 <= index < s.len() {
                Ok(s[index])
            } else {
                Err(MapError::IndexOutOfBounds)
            },
            Some(Property::Ints(_)) => Err(MapError::WrongValueType),
        },
    }
}

/// The number of values bound to a property.
pub open spec fn property_len(p: Property) -> nat {
    match p {
        Property::Ints(s) => s.len(),
        Property::Datas(s) => s.len(),
    }
}

/// The type of the values bound to a property.
pub open spec fn property_type(p: Property) -> ValueType {
    match p {
        Property::Ints(_) => ValueType::Int,
        Property::Datas(_) => ValueType::Data,
    }
}

/// The entries after appending `p`'s values to those under `k`: a missing key
/// is created; values of another type are not appended.
pub open spec fn spec_append(m: Entries, k: Seq<char>, p: Property) -> MapResult<Entries> {
    match (lookup(m, k), p) {
        (None, _) => Ok(with_entry(m, k, p)),
        (Some(Property::Ints(s)), Property::Ints(t)) => Ok(with_entry(m, k, Property::Ints(s + t))),
        (Some(Property::Datas(s)), Property::Datas(t)) => Ok(
            with_entry(m, k, Property::Datas(s + t)),
        ),
        _ => Err(MapError::WrongValueType),
    }
}

/// A map owned by the caller: keys bound to arrays of values, in the order the
/// keys were first bound, plus an optional error message.
#[derive(Debug)]
pub struct OwnedMap {
    entries: Vec<(String, PropertyValue)>,
    error: Option<String>,
}

/// The borrowed form of a map shares the owned map's interface.
pub type MapRef = OwnedMap;

impl View for OwnedMap {
    type V = Entries;

    closed spec fn view(&self) -> Entries {
        self.entries@.map_values(|e: (String, PropertyValue)| (e.0@, e.1@))
    }
}

impl OwnedMap {
    /// The map's entries have distinct keys.
    pub open spec fn wf(&self) -> bool {
        keys_distinct(self@)
    }

    /// The error message held by the map, if any.
    pub closed spec fn error_message(&self) -> Option<Seq<char>> {
        match self.error {
            Some(s) => Some(s@),
            None => None,
        }
    }

    /// Creates a new, empty map.
    pub fn new() -> (r: OwnedMap)
        ensures
            r.wf(),
            r@ == Seq::<(Seq<char>, Property)>::empty(),
            r.error_message() is None,
    {
        let r = OwnedMap { entries: Vec::new(), error: None };
        assert(r@ =~= Seq::<(Seq<char>, Property)>::empty());
        r
    }

    /// Checks if the key is valid. Valid keys start with an alphabetic character or an underscore,
    /// and contain only alphanumeric characters and underscores.
    pub fn is_key_valid(key: &str) -> (r: Result<(), InvalidKeyError>)
        ensures
            r == check_key(key@),
    {
        is_key_valid(key)
    }

    /// Returns the number of keys contained in a map.
    pub fn key_count(&self) -> (r: usize)
        ensures
            r == self@.len(),
    {
        self.entries.len()
    }

    /// Returns `true` if the map holds no key.
    pub fn is_empty(&self) -> (r: bool)
        ensures
            r == (self@.len() == 0),
    {
        self.entries.len() == 0
    }

    /// Returns a key from a map.
    pub fn key(&self, index: usize) -> (r: &str)
        requires
            index < self@.len(),
        ensures
            r@ == self@[index as int].0,
    {
        self.entries[index].0.as_str()
    }

    /// Returns all keys of the map, in the map's order.
    pub fn keys(&self) -> (r: Vec<&str>)
        ensures
            r@.len() == self@.len(),
            forall|i: int| 0 <= i < r@.len() ==> #[trigger] r@[i]@ == self@[i].0,
    {
        let mut out: Vec<&str> = Vec::new();
        let mut i: usize = 0;
        while i < self.entries.len()
            invariant
                i <= self.entries@.len(),
                out@.len() == i,
                forall|j: int| 0 <= j < i ==> #[trigger] out@[j]@ == self@[j].0,
            decreases self.entries@.len() - i,
        {
            out.push(self.entries[i].0.as_str());
            i = i + 1;
        }
        out
    }

    /// Returns every entry of the map, key and values, in the map's order.
    pub fn iter(&self) -> (r: Vec<(&str, &PropertyValue)>)
        ensures
            r@.len() == self@.len(),
            forall|i: int|
                0 <= i < r@.len() ==> (#[trigger] r@[i]).0@ == self@[i].0 && r@[i].1@ == self@[i].1,
    {
        let mut out: Vec<(&str, &PropertyValue)> = Vec::new();
        let mut i: usize = 0;
        while i < self.entries.len()
            invariant
                i <= self.entries@.len(),
                out@.len() == i,
                forall|j: int|
                    0 <= j < i ==> (#[trigger] out@[j]).0@ == self@[j].0 && out@[j].1@ == self@[j].1,
            decreases self.entries@.len() - i,
        {
            out.push((self.entries[i].0.as_str(), &self.entries[i].1));
            i = i + 1;
        }
        out
    }

    /// Returns the values of every entry, in the map's order.
    pub fn values(&self) -> (r: Vec<&PropertyValue>)
        ensures
            r@.len() == self@.len(),
            forall|i: int| 0 <= i < r@.len() ==> (#[trigger] r@[i])@ == self@[i].1,
    {
        let mut out: Vec<&PropertyValue> = Vec::new();
        let mut i: usize = 0;
        while i < self.entries.len()
            invariant
                i <= self.entries@.len(),
                out@.len() == i,
                forall|j: int| 0 <= j < i ==> (#[trigger] out@[j])@ == self@[j].1,
            decreases self.entries@.len() - i,
        {
            out.push(&self.entries[i].1);
            i = i + 1;
        }
        out
    }

    /// The position of the entry with the key, if there is one.
    fn find(&self, key: &String) -> (r: Option<usize>)
        requires
            self.wf(),
        ensures
            match r {
                Some(i) => i < self@.len() && self@[i as int].0 == key@ && has_key(self@, key@)
                    && key_index(self@, key@) == i && lookup(self@, key@) == Some(
                    self@[i as int].1,
                ),
                None => !has_key(self@, key@) && lookup(self@, key@) is None,
            },
    {
        let mut i: usize = 0;
        while i < self.entries.len()
            invariant
                self.wf(),
                i <= self.entries@.len(),
                forall|j: int| 0 <= j < i ==> self@[j].0 != key@,
            decreases self.entries@.len() - i,
        {
            if self.entries[i].0 == *key {
                proof {
                    lemma_key_index_unique(self@, key@, i as int);
                }
                return Some(i);
            }
            i = i + 1;
        }
        None
    }

    /// Binds `key` to `value`, replacing what it was bound to.
    fn bind(&mut self, key: String, value: PropertyValue)
        requires
            old(self).wf(),
        ensures
            final(self).wf(),
            final(self)@ == with_entry(old(self)@, key@, value@),
            final(self).error_message() == old(self).error_message(),
    {
        let ghost k = key@;
        let ghost p = value@;
        proof {
            lemma_with_entry(self@, k, p, k);
        }
        match self.find(&key) {
            Some(i) => {
                self.entries.set(i, (key, value));
                assert(self@ =~= old(self)@.update(i as int, (k, p)));
            },
            None => {
                self.entries.push((key, value));
                assert(self@ =~= old(self)@.push((k, p)));
            },
        }
    }

    /// Retrieves an integer from a map.
    ///
    /// This function retrieves the first value associated with the key.
    pub fn get_int(&self, key: &str) -> (r: MapResult<i64>)
        requires
            self.wf(),
        ensures
            r == spec_get_int(self@, key@, 0),
    {
        if let Err(e) = is_key_valid(key) {
            return Err(MapError::InvalidKey(e));
        }
        let k = key.to_owned();
        match self.find(&k) {
            None => Err(MapError::KeyNotFound),
            Some(i) => match &self.entries[i].1 {
                PropertyValue::Int(v) => {
                    if v.len() > 0 {
                        Ok(v[0])
                    } else {
                        Err(MapError::IndexOutOfBounds)
                    }
                },
                PropertyValue::Data(_) => Err(MapError::WrongValueType),
            },
        }
    }

    /// Retrieves all integers bound to the key.
    pub fn get_int_array(&self, key: &str) -> (r: MapResult<&[i64]>)
        requires
            self.wf(),
        ensures
            match spec_get_int_array(self@, key@) {
                Ok(s) => r matches Ok(v) && v@ == s,
                Err(e) => r == Err::<&[i64], MapError>(e),
            },
    {
        if let Err(e) = is_key_valid(key) {
            return Err(MapError::InvalidKey(e));
        }
        let k = key.to_owned();
        match self.find(&k) {
            None => Err(MapError::KeyNotFound),
            Some(i) => match &self.entries[i].1 {
                PropertyValue::Int(v) => Ok(v.as_slice()),
                PropertyValue::Data(_) => Err(MapError::WrongValueType),
            },
        }
    }

    /// Sets a property value to an integer, replacing what the key was bound to.
    pub fn set_int(&mut self, key: &str, x: i64) -> (r: MapResult<()>)
        requires
            old(self).wf(),
        ensures
            final(self).wf(),
            r == key_result(key@),
            r is Ok ==> final(self)@ == with_entry(old(self)@, key@, Property::Ints(seq![x])),
            r is Err ==> final(self)@ == old(self)@,
            final(self).error_message() == old(self).error_message(),
    {
        if let Err(e) = is_key_valid(key) {
            return Err(MapError::InvalidKey(e));
        }
        let mut v: Vec<i64> = Vec::new();
        v.push(x);
        proof {
            assert(v@ =~= seq![x]);
        }
        self.bind(key.to_owned(), PropertyValue::Int(v));
        Ok(())
    }

    /// Sets a property value to an array of integers.
    pub fn set_int_array(&mut self, key: &str, x: Vec<i64>) -> (r: MapResult<()>)
        requires
            old(self).wf(),
        ensures
            final(self).wf(),
            r == key_result(key@),
            r is Ok ==> final(self)@ == with_entry(old(self)@, key@, Property::Ints(x@)),
            r is Err ==> final(self)@ == old(self)@,
            final(self).error_message() == old(self).error_message(),
    {
        if let Err(e) = is_key_valid(key) {
            return Err(MapError::InvalidKey(e));
        }
        self.bind(key.to_owned(), PropertyValue::Int(x));
        Ok(())
    }
}

} // verus!

verus! {

/// The text that `String::from_utf8_lossy` makes of the given bytes.
pub uninterp spec fn lossy_utf8(bytes: Seq<u8>) -> Seq<char>;

/// Calls `String::from_utf8_lossy`, which decodes UTF-8 and replaces invalid
/// sequences by U+FFFD. Stated: the result is `lossy_utf8` of the bytes, and
/// for valid UTF-8 it is the decoded text (its documentation: valid input is
/// returned unchanged). What replaces invalid sequences is not stated.
#[verifier::external_body]
fn utf8_lossy(bytes: &[u8]) -> (r: String)
    ensures
        r@ == lossy_utf8(bytes@),
        valid_utf8(bytes@) ==> r@ == decode_utf8(bytes@),
{
    String::from_utf8_lossy(bytes).into_owned()
}

/// Calls `String::from_utf8`, which takes over the bytes when they are valid
/// UTF-8. Stated: the result is `Some` exactly for valid UTF-8, and then the
/// text's UTF-8 encoding is the given bytes.
#[verifier::external_body]
pub(crate) fn string_from_utf8(bytes: Vec<u8>) -> (r: Option<String>)
    ensures
        r is Some <==> valid_utf8(bytes@),
        r matches Some(s) ==> encode_utf8(s@) == bytes@,
{
    String::from_utf8(bytes).ok()
}

/// The bytes before the first zero byte.
pub open spec fn until_nul(bytes: Seq<u8>) -> Seq<u8>
    decreases bytes.len(),
{
    if bytes.len() == 0 {
        bytes
    } else if bytes[0] == 0 {
        Seq::empty()
    } else {
        seq![bytes[0]] + until_nul(bytes.drop_first())
    }
}

proof fn lemma_until_nul_take(bytes: Seq<u8>, n: int)
    requires
        0 <= n <= bytes.len(),
        forall|j: int| 0 <= j < n ==> bytes[j] != 0,
        n < bytes.len() ==> bytes[n] == 0,
    ensures
        until_nul(bytes) == bytes.take(n),
    decreases bytes.len(),
{
    if bytes.len() > 0 && n > 0 {
        lemma_until_nul_take(bytes.drop_first(), n - 1);
        assert(bytes.take(n) =~= seq![bytes[0]] + bytes.drop_first().take(n - 1));
    } else if bytes.len() == 0 {
        assert(bytes.take(n) =~= bytes);
    } else {
        assert(bytes.take(n) =~= Seq::<u8>::empty());
    }
}

/// Whether a string holds a NUL character.
pub open spec fn has_nul(s: Seq<char>) -> bool {
    exists|i: int| 0 <= i < s.len() && s[i] == '\0'
}

/// The text read from a data item the way a C string is read: the bytes
/// before the first zero byte, decoded, with replacement where they are not
/// valid UTF-8.
pub open spec fn c_string_text(bytes: Seq<u8>) -> Seq<char> {
    if valid_utf8(until_nul(bytes)) {
        decode_utf8(until_nul(bytes))
    } else {
        lossy_utf8(until_nul(bytes))
    }
}

/// The UTF-8 encoding of a character other than NUL has no zero byte.
proof fn lemma_encode_scalar_nonzero(c: char)
    requires
        c != '\0',
    ensures
        forall|j: int| 0 <= j < encode_scalar(c as u32).len() ==> #[trigger] encode_scalar(c as u32)[j] != 0,
{
    let v = c as u32;
    assert(v != 0);
    assert(v <= 0x7F ==> (v & 0x7F) as u8 != 0) by (bit_vector)
        requires
            v != 0,
    ;
    assert((0xC0u8 | ((v >> 6) & 0x1F) as u8) != 0) by (bit_vector);
    assert((0xE0u8 | ((v >> 12) & 0x0F) as u8) != 0) by (bit_vector);
    assert((0xF0u8 | ((v >> 18) & 0x7) as u8) != 0) by (bit_vector);
    assert((0x80u8 | (v & 0x3F) as u8) != 0) by (bit_vector);
    assert((0x80u8 | ((v >> 6) & 0x3F) as u8) != 0) by (bit_vector);
    assert((0x80u8 | ((v >> 12) & 0x3F) as u8) != 0) by (bit_vector);
}

/// The UTF-8 encoding of a text without NUL has no zero byte.
proof fn lemma_encode_utf8_nonzero(s: Seq<char>)
    requires
        !has_nul(s),
    ensures
        forall|j: int| 0 <= j < encode_utf8(s).len() ==> #[trigger] encode_utf8(s)[j] != 0,
    decreases s.len(),
{
    if s.len() > 0 {
        assert(s[0] != '\0');
        lemma_encode_scalar_nonzero(s[0]);
        assert(!has_nul(s.drop_first())) by {
            if has_nul(s.drop_first()) {
                let i = choose|i: int| 0 <= i < s.drop_first().len() && s.drop_first()[i] == '\0';
                assert(s[i + 1] == '\0');
            }
        }
        lemma_encode_utf8_nonzero(s.drop_first());
        let a = encode_scalar(s[0] as u32);
        let b = encode_utf8(s.drop_first());
        assert forall|j: int| 0 <= j < encode_utf8(s).len() implies encode_utf8(s)[j] != 0 by {
            if j < a.len() {
                assert(encode_utf8(s)[j] == a[j]);
            } else {
                assert(encode_utf8(s)[j] == b[j - a.len()]);
            }
        }
    }
}

/// Reading a text without NUL stored as UTF-8 the way a C string is read
/// gives the text back.
pub proof fn lemma_c_string_text_encode(s: Seq<char>)
    requires
        !has_nul(s),
    ensures
        c_string_text(encode_utf8(s)) == s,
{
    let b = encode_utf8(s);
    lemma_encode_utf8_nonzero(s);
    lemma_until_nul_take(b, b.len() as int);
    assert(b.take(b.len() as int) =~= b);
    vstd::utf8::encode_utf8_valid_utf8(s);
    vstd::utf8::encode_utf8_decode_utf8(s);
}

/// A wrapper around a data item's bytes.
pub struct Data<'elem> {
    inner: &'elem [u8],
}

impl<'elem> View for Data<'elem> {
    type V = Seq<u8>;

    closed spec fn view(&self) -> Seq<u8> {
        self.inner@
    }
}

impl<'elem> Data<'elem> {
    /// Wraps a byte slice.
    pub fn from_slice(slice: &'elem [u8]) -> (r: Data<'elem>)
        ensures
            r@ == slice@,
    {
        Data { inner: slice }
    }

    /// The wrapped bytes.
    pub fn as_bytes(&self) -> (r: &'elem [u8])
        ensures
            r@ == self@,
    {
        self.inner
    }

    /// The number of wrapped bytes.
    pub fn len(&self) -> (r: usize)
        ensures
            r == self@.len(),
    {
        self.inner.len()
    }
}

impl OwnedMap {
    /// Appends `value`'s values to those under `key`.
    fn append_values(&mut self, key: String, value: PropertyValue) -> (r: MapResult<()>)
        requires
            old(self).wf(),
        ensures
            final(self).wf(),
            match spec_append(old(self)@, key@, value@) {
                Ok(m) => r == Ok::<(), MapError>(()) && final(self)@ == m,
                Err(e) => r == Err::<(), MapError>(e) && final(self)@ == old(self)@,
            },
            final(self).error_message() == old(self).error_message(),
    {
        match self.find(&key) {
            None => {
                self.bind(key, value);
                Ok(())
            },
            Some(i) => {
                let ghost m0 = self@;
                let ghost k = key@;
                let (k0, old_v) = self.entries.remove(i);
                match (old_v, value) {
                    (PropertyValue::Int(mut a), PropertyValue::Int(mut b)) => {
                        let ghost s = a@;
                        let ghost t = b@;
                        a.append(&mut b);
                        self.entries.insert(i, (k0, PropertyValue::Int(a)));
                        proof {
                            assert(self@ =~= m0.update(i as int, (k, Property::Ints(s + t))));
                            lemma_with_entry(m0, k, Property::Ints(s + t), k);
                        }
                        Ok(())
                    },
                    (PropertyValue::Data(mut a), PropertyValue::Data(mut b)) => {
                        let ghost s = a@.map_values(|d: DataValue| d@);
                        let ghost t = b@.map_values(|d: DataValue| d@);
                        let ghost av = a@;
                        let ghost bv = b@;
                        a.append(&mut b);
                        proof {
                            assert(a@ == av + bv);
                            assert(a@.map_values(|d: DataValue| d@) =~= s + t);
                        }
                        self.entries.insert(i, (k0, PropertyValue::Data(a)));
                        proof {
                            assert(self@ =~= m0.update(i as int, (k, Property::Datas(s + t))));
                            lemma_with_entry(m0, k, Property::Datas(s + t), k);
                        }
                        Ok(())
                    },
                    (old_v, _) => {
                        self.entries.insert(i, (k0, old_v));
                        proof {
                            assert(self@ =~= m0);
                        }
                        Err(MapError::WrongValueType)
                    },
                }
            },
        }
    }

    /// Appends an integer to the integers under the key, creating the key if
    /// it is missing; a key bound to data is left as it is.
    pub fn append_int(&mut self, key: &str, x: i64) -> (r: MapResult<()>)
        requires
            old(self).wf(),
        ensures
            final(self).wf(),
            key_result(key@) is Err ==> r == key_result(key@) && final(self)@ == old(self)@,
            key_result(key@) is Ok ==> match spec_append(
                old(self)@,
                key@,
                Property::Ints(seq![x]),
            ) {
                Ok(m) => r == Ok::<(), MapError>(()) && final(self)@ == m,
                Err(e) => r == Err::<(), MapError>(e) && final(self)@ == old(self)@,
            },
            final(self).error_message() == old(self).error_message(),
    {
        if let Err(e) = is_key_valid(key) {
            return Err(MapError::InvalidKey(e));
        }
        let mut v: Vec<i64> = Vec::new();
        v.push(x);
        proof {
            assert(v@ =~= seq![x]);
        }
        self.append_values(key.to_owned(), PropertyValue::Int(v))
    }

    /// Appends a data item with an unknown hint to the data under the key,
    /// creating the key if it is missing; a key bound to integers is left as it is.
    pub fn append_data(&mut self, key: &str, x: &[u8]) -> (r: MapResult<()>)
        requires
            old(self).wf(),
        ensures
            final(self).wf(),
            key_result(key@) is Err ==> r == key_result(key@) && final(self)@ == old(self)@,
            key_result(key@) is Ok ==> match spec_append(
                old(self)@,
                key@,
                Property::Datas(seq![DataItem { bytes: x@, hint: DataType::Unknown }]),
            ) {
                Ok(m) => r == Ok::<(), MapError>(()) && final(self)@ == m,
                Err(e) => r == Err::<(), MapError>(e) && final(self)@ == old(self)@,
            },
            final(self).error_message() == old(self).error_message(),
    {
        if let Err(e) = is_key_valid(key) {
            return Err(MapError::InvalidKey(e));
        }
        let item = DataValue { bytes: vstd::slice::slice_to_vec(x), hint: DataType::Unknown };
        let mut v: Vec<DataValue> = Vec::new();
        v.push(item);
        proof {
            assert(v@.map_values(|d: DataValue| d@) =~= seq![
                DataItem { bytes: x@, hint: DataType::Unknown },
            ]);
        }
        self.append_values(key.to_owned(), PropertyValue::Data(v))
    }

    /// Binds the key to a single data item.
    fn set_data_item(&mut self, key: &str, bytes: Vec<u8>, hint: DataType) -> (r: MapResult<()>)
        requires
            old(self).wf(),
        ensures
            final(self).wf(),
            r == key_result(key@),
            r is Ok ==> final(self)@ == with_entry(
                old(self)@,
                key@,
                Property::Datas(seq![DataItem { bytes: bytes@, hint }]),
            ),
            r is Err ==> final(self)@ == old(self)@,
            final(self).error_message() == old(self).error_message(),
    {
        if let Err(e) = is_key_valid(key) {
            return Err(MapError::InvalidKey(e));
        }
        let ghost b = bytes@;
        let mut v: Vec<DataValue> = Vec::new();
        v.push(DataValue { bytes, hint });
        proof {
            assert(v@.map_values(|d: DataValue| d@) =~= seq![DataItem { bytes: b, hint }]);
        }
        self.bind(key.to_owned(), PropertyValue::Data(v));
        Ok(())
    }

    /// Sets a property value to data, with an unknown hint.
    pub fn set_data(&mut self, key: &str, x: &[u8]) -> (r: MapResult<()>)
        requires
            old(self).wf(),
        ensures
            final(self).wf(),
            r == key_result(key@),
            r is Ok ==> final(self)@ == with_entry(
                old(self)@,
                key@,
                Property::Datas(seq![DataItem { bytes: x@, hint: DataType::Unknown }]),
            ),
            r is Err ==> final(self)@ == old(self)@,
            final(self).error_message() == old(self).error_message(),
    {
        self.set_data_item(key, vstd::slice::slice_to_vec(x), DataType::Unknown)
    }

    /// Sets a property value to a string: its UTF-8 bytes with the string hint.
    pub fn set_string(&mut self, key: &str, x: &str) -> (r: MapResult<()>)
        requires
            old(self).wf(),
        ensures
            final(self).wf(),
            r == key_result(key@),
            r is Ok ==> final(self)@ == with_entry(
                old(self)@,
                key@,
                Property::Datas(seq![DataItem { bytes: encode_utf8(x@), hint: DataType::String }]),
            ),
            r is Err ==> final(self)@ == old(self)@,
            final(self).error_message() == old(self).error_message(),
    {
        let bytes = vstd::slice::slice_to_vec(x.as_bytes());
        self.set_data_item(key, bytes, DataType::String)
    }

    /// The data item at `index` under the key.
    fn data_item(&self, key: &str, index: usize) -> (r: MapResult<&DataValue>)
        requires
            self.wf(),
        ensures
            match spec_get_data(self@, key@, index as int) {
                Ok(d) => r matches Ok(v) && v@ == d,
                Err(e) => r == Err::<&DataValue, MapError>(e),
            },
    {
        if let Err(e) = is_key_valid(key) {
            return Err(MapError::InvalidKey(e));
        }
        let k = key.to_owned();
        match self.find(&k) {
            None => Err(MapError::KeyNotFound),
            Some(i) => match &self.entries[i].1 {
                PropertyValue::Data(v) => {
                    if index < v.len() {
                        Ok(&v[index])
                    } else {
                        Err(MapError::IndexOutOfBounds)
                    }
                },
                PropertyValue::Int(_) => Err(MapError::WrongValueType),
            },
        }
    }

    /// Retrieves data from a map.
    ///
    /// This function retrieves the first value associated with the key.
    pub fn get_data(&self, key: &str) -> (r: MapResult<Data<'_>>)
        requires
            self.wf(),
        ensures
            match spec_get_data(self@, key@, 0) {
                Ok(d) => r matches Ok(v) && v@ == d.bytes,
                Err(e) => r matches Err(e2) && e2 == e,
            },
    {
        self.get_data_at(key, 0)
    }

    /// Retrieves the data item at `index` under the key, the way the values
    /// of a data property are read one after the other.
    pub fn get_data_at(&self, key: &str, index: usize) -> (r: MapResult<Data<'_>>)
        requires
            self.wf(),
        ensures
            match spec_get_data(self@, key@, index as int) {
                Ok(d) => r matches Ok(v) && v@ == d.bytes,
                Err(e) => r matches Err(e2) && e2 == e,
            },
    {
        match self.data_item(key, index) {
            Ok(d) => Ok(Data::from_slice(d.bytes.as_slice())),
            Err(e) => Err(e),
        }
    }

    /// Retrieves the first data item under the key as text, read the way a C
    /// string is read: up to the first zero byte, with invalid UTF-8 replaced.
    pub fn get_string(&self, key: &str) -> (r: MapResult<String>)
        requires
            self.wf(),
        ensures
            match spec_get_data(self@, key@, 0) {
                Ok(d) => r matches Ok(s) && s@ == c_string_text(d.bytes),
                Err(e) => r matches Err(e2) && e2 == e,
            },
    {
        self.get_string_at(key, 0)
    }

    /// Retrieves the data item at `index` under the key as text, read the way
    /// a C string is read: up to the first zero byte, with invalid UTF-8
    /// replaced.
    pub fn get_string_at(&self, key: &str, index: usize) -> (r: MapResult<String>)
        requires
            self.wf(),
        ensures
            match spec_get_data(self@, key@, index as int) {
                Ok(d) => r matches Ok(s) && s@ == c_string_text(d.bytes),
                Err(e) => r matches Err(e2) && e2 == e,
            },
    {
        match self.data_item(key, index) {
            Ok(d) => {
                let bytes = d.bytes.as_slice();
                let mut n: usize = 0;
                while n < bytes.len() && bytes[n] != 0
                    invariant
                        n <= bytes@.len(),
                        forall|j: int| 0 <= j < n ==> bytes@[j] != 0,
                    decreases bytes@.len() - n,
                {
                    n = n + 1;
                }
                proof {
                    lemma_until_nul_take(bytes@, n as int);
                }
                let prefix = vstd::slice::slice_subrange(bytes, 0, n);
                Ok(utf8_lossy(prefix))
            },
            Err(e) => Err(e),
        }
    }

    /// The hint of the data item at `index` under the key; `Unknown` when there
    /// is no such data item.
    pub fn data_type_hint(&self, key: &str, index: usize) -> (r: DataType)
        requires
            self.wf(),
        ensures
            match spec_get_data(self@, key@, index as int) {
                Ok(d) => r == d.hint,
                Err(_) => r == DataType::Unknown,
            },
    {
        match self.data_item(key, index) {
            Ok(d) => d.hint,
            Err(_) => DataType::Unknown,
        }
    }
}

} // verus!

verus! {


impl OwnedMap {
    /// Returns the number of elements associated with a key in a map.
    pub fn value_count(&self, key: &str) -> (r: MapResult<usize>)
        requires
            self.wf(),
        ensures
            key_result(key@) is Err ==> r == Err::<usize, MapError>(key_result(key@)->Err_0),
            key_result(key@) is Ok ==> match lookup(self@, key@) {
                None => r == Err::<usize, MapError>(MapError::KeyNotFound),
                Some(p) => r == Ok::<usize, MapError>(property_len(p) as usize),
            },
    {
        if let Err(e) = is_key_valid(key) {
            return Err(MapError::InvalidKey(e));
        }
        let k = key.to_owned();
        match self.find(&k) {
            None => Err(MapError::KeyNotFound),
            Some(i) => match &self.entries[i].1 {
                PropertyValue::Int(v) => Ok(v.len()),
                PropertyValue::Data(v) => Ok(v.len()),
            },
        }
    }

    /// Retrieves the type of the values bound to a key.
    pub fn value_type(&self, key: &str) -> (r: MapResult<ValueType>)
        requires
            self.wf(),
        ensures
            key_result(key@) is Err ==> r == Err::<ValueType, MapError>(key_result(key@)->Err_0),
            key_result(key@) is Ok ==> match lookup(self@, key@) {
                None => r == Err::<ValueType, MapError>(MapError::KeyNotFound),
                Some(p) => r == Ok::<ValueType, MapError>(property_type(p)),
            },
    {
        if let Err(e) = is_key_valid(key) {
            return Err(MapError::InvalidKey(e));
        }
        let k = key.to_owned();
        match self.find(&k) {
            None => Err(MapError::KeyNotFound),
            Some(i) => match &self.entries[i].1 {
                PropertyValue::Int(_) => Ok(ValueType::Int),
                PropertyValue::Data(_) => Ok(ValueType::Data),
            },
        }
    }

    /// Deletes the given key.
    pub fn delete_key(&mut self, key: &str) -> (r: MapResult<()>)
        requires
            old(self).wf(),
        ensures
            final(self).wf(),
            key_result(key@) is Err ==> r == key_result(key@) && final(self)@ == old(self)@,
            key_result(key@) is Ok && !has_key(old(self)@, key@) ==> r == Err::<(), MapError>(
                MapError::KeyNotFound,
            ) && final(self)@ == old(self)@,
            key_result(key@) is Ok && has_key(old(self)@, key@) ==> r == Ok::<(), MapError>(())
                && final(self)@ == without_entry(old(self)@, key@),
            final(self).error_message() == old(self).error_message(),
    {
        if let Err(e) = is_key_valid(key) {
            return Err(MapError::InvalidKey(e));
        }
        let k = key.to_owned();
        proof {
            lemma_without_entry(self@, k@, k@);
        }
        match self.find(&k) {
            None => Err(MapError::KeyNotFound),
            Some(i) => {
                let ghost m0 = self@;
                let _ = self.entries.remove(i);
                assert(self@ =~= m0.remove(i as int));
                Ok(())
            },
        }
    }

    /// Clears the map: no key and no error message remain.
    pub fn clear(&mut self)
        ensures
            final(self).wf(),
            final(self)@ == Seq::<(Seq<char>, Property)>::empty(),
            final(self).error_message() is None,
    {
        self.entries.clear();
        self.error = None;
        assert(self@ =~= Seq::<(Seq<char>, Property)>::empty());
    }

    /// Adds an error message to a map. The map is cleared first. A message
    /// holding a NUL character cannot be handed over and leaves the map as it is.
    pub fn set_error(&mut self, error_message: &str) -> (r: MapResult<()>)
        ensures
            has_nul(error_message@) ==> r == Err::<(), MapError>(MapError::CStringConversion)
                && final(self)@ == old(self)@ && final(self).error_message()
                == old(self).error_message(),
            !has_nul(error_message@) ==> r == Ok::<(), MapError>(()) && final(self)@ == Seq::<
                (Seq<char>, Property),
            >::empty() && final(self).error_message() == Some(error_message@),
            old(self).wf() ==> final(self).wf(),
    {
        let mut has = false;
        for c in it: error_message.chars()
            invariant
                it.seq() == error_message@,
                has == exists|j: int| 0 <= j < it.index() && error_message@[j] == '\0',
        {
            if c == '\0' {
                has = true;
            }
        }
        if has {
            return Err(MapError::CStringConversion);
        }
        self.entries.clear();
        assert(self@ =~= Seq::<(Seq<char>, Property)>::empty());
        self.error = Some(error_message.to_owned());
        Ok(())
    }

    /// Returns the error message contained in the map, if any.
    pub fn error(&self) -> (r: Option<&str>)
        ensures
            match self.error_message() {
                Some(m) => r matches Some(s) && s@ == m,
                None => r is None,
            },
    {
        match &self.error {
            Some(s) => Some(s.as_str()),
            None => None,
        }
    }
}

} // verus!

verus! {

/// A type of values which can be stored in a map.
pub trait Value: Sized {
    /// What reading may assume of the map: the bound values can be read as this type.
    spec fn get_requires(m: Entries, k: Seq<char>) -> bool;

    /// What reading a value of this type under `k` gives.
    spec fn get_ensures(m: Entries, k: Seq<char>, r: MapResult<Self>) -> bool;

    /// The values that storing `x` binds.
    spec fn stored(x: Self) -> Property;

    /// Retrieves the value from the map.
    fn get_from_map(map: &OwnedMap, key: &str) -> (r: MapResult<Self>)
        requires
            map.wf(),
            Self::get_requires(map@, key@),
        ensures
            Self::get_ensures(map@, key@, r),
    ;

    /// Sets the property value in the map.
    fn store_in_map(map: &mut OwnedMap, key: &str, x: &Self) -> (r: MapResult<()>)
        requires
            old(map).wf(),
        ensures
            final(map).wf(),
            r == key_result(key@),
            r is Ok ==> final(map)@ == with_entry(old(map)@, key@, Self::stored(*x)),
            r is Err ==> final(map)@ == old(map)@,
            final(map).error_message() == old(map).error_message(),
    ;
}

impl Value for i64 {
    open spec fn get_requires(m: Entries, k: Seq<char>) -> bool {
        true
    }

    open spec fn get_ensures(m: Entries, k: Seq<char>, r: MapResult<i64>) -> bool {
        r == spec_get_int(m, k, 0)
    }

    open spec fn stored(x: i64) -> Property {
        Property::Ints(seq![x])
    }

    fn get_from_map(map: &OwnedMap, key: &str) -> (r: MapResult<i64>) {
        map.get_int(key)
    }

    fn store_in_map(map: &mut OwnedMap, key: &str, x: &i64) -> (r: MapResult<()>) {
        map.set_int(key, *x)
    }
}

impl Value for Vec<i64> {
    open spec fn get_requires(m: Entries, k: Seq<char>) -> bool {
        true
    }

    open spec fn get_ensures(m: Entries, k: Seq<char>, r: MapResult<Vec<i64>>) -> bool {
        match spec_get_int_array(m, k) {
            Ok(s) => r matches Ok(v) && v@ == s,
            Err(e) => r matches Err(e2) && e2 == e,
        }
    }

    open spec fn stored(x: Vec<i64>) -> Property {
        Property::Ints(x@)
    }

    fn get_from_map(map: &OwnedMap, key: &str) -> (r: MapResult<Vec<i64>>) {
        match map.get_int_array(key) {
            Ok(s) => Ok(vstd::slice::slice_to_vec(s)),
            Err(e) => Err(e),
        }
    }

    fn store_in_map(map: &mut OwnedMap, key: &str, x: &Vec<i64>) -> (r: MapResult<()>) {
        map.set_int_array(key, vstd::slice::slice_to_vec(x.as_slice()))
    }
}

impl Value for String {
    open spec fn get_requires(m: Entries, k: Seq<char>) -> bool {
        spec_get_data(m, k, 0) matches Ok(d) ==> valid_utf8(d.bytes)
    }

    open spec fn get_ensures(m: Entries, k: Seq<char>, r: MapResult<String>) -> bool {
        match spec_get_data(m, k, 0) {
            Ok(d) => r matches Ok(s) && s@ == decode_utf8(d.bytes),
            Err(e) => r matches Err(e2) && e2 == e,
        }
    }

    open spec fn stored(x: String) -> Property {
        Property::Datas(seq![DataItem { bytes: encode_utf8(x@), hint: DataType::Unknown }])
    }

    fn get_from_map(map: &OwnedMap, key: &str) -> (r: MapResult<String>) {
        match map.data_item(key, 0) {
            Ok(d) => {
                let bytes = vstd::slice::slice_to_vec(d.bytes.as_slice());
                match string_from_utf8(bytes) {
                    Some(s) => {
                        proof {
                            vstd::utf8::encode_utf8_decode_utf8(s@);
                        }
                        Ok(s)
                    },
                    None => Err(MapError::Utf8Error),
                }
            },
            Err(e) => Err(e),
        }
    }

    fn store_in_map(map: &mut OwnedMap, key: &str, x: &String) -> (r: MapResult<()>) {
        map.set_data(key, x.as_str().as_bytes())
    }
}

impl OwnedMap {
    /// Retrieves a property value.
    pub fn get<T: Value>(&self, key: &str) -> (r: MapResult<T>)
        requires
            self.wf(),
            T::get_requires(self@, key@),
        ensures
            T::get_ensures(self@, key@, r),
    {
        T::get_from_map(self, key)
    }

    /// Sets a property value.
    pub fn set<T: Value>(&mut self, key: &str, x: &T) -> (r: MapResult<()>)
        requires
            old(self).wf(),
        ensures
            final(self).wf(),
            r == key_result(key@),
            r is Ok ==> final(self)@ == with_entry(old(self)@, key@, T::stored(*x)),
            r is Err ==> final(self)@ == old(self)@,
            final(self).error_message() == old(self).error_message(),
    {
        T::store_in_map(self, key, x)
    }
}

/// Reading back an integer that was just set under a valid key gives it; every
/// other key reads as it read before.
pub proof fn lemma_get_int_after_set_int(m: Entries, k: Seq<char>, x: i64, k2: Seq<char>, i: int)
    requires
        keys_distinct(m),
        is_valid_key(k),
    ensures
        spec_get_int(with_entry(m, k, Property::Ints(seq![x])), k, 0) == Ok::<i64, MapError>(x),
        k2 != k ==> spec_get_int(with_entry(m, k, Property::Ints(seq![x])), k2, i)
            == spec_get_int(m, k2, i),
{
    lemma_with_entry(m, k, Property::Ints(seq![x]), k);
    lemma_with_entry(m, k, Property::Ints(seq![x]), k2);
}

/// Reading back a string stored through the generic setter gives the same string.
pub proof fn lemma_get_string_after_set(m: Entries, k: Seq<char>, s: String)
    requires
        keys_distinct(m),
        is_valid_key(k),
    ensures
        <String as Value>::get_requires(with_entry(m, k, <String as Value>::stored(s)), k),
        match spec_get_data(with_entry(m, k, <String as Value>::stored(s)), k, 0) {
            Ok(d) => decode_utf8(d.bytes) == s@,
            Err(_) => false,
        },
{
    lemma_with_entry(m, k, <String as Value>::stored(s), k);
    vstd::utf8::encode_utf8_valid_utf8(s@);
    vstd::utf8::encode_utf8_decode_utf8(s@);
}

/// Reading back, as a string, a text without NUL that `set_string` stored under
/// a valid key gives the text; the stored item is hinted as a string.
pub proof fn lemma_get_string_after_set_string(m: Entries, k: Seq<char>, s: Seq<char>)
    requires
        keys_distinct(m),
        is_valid_key(k),
        !has_nul(s),
    ensures
        spec_get_data(
            with_entry(
                m,
                k,
                Property::Datas(seq![DataItem { bytes: encode_utf8(s), hint: DataType::String }]),
            ),
            k,
            0,
        ) matches Ok(d) && c_string_text(d.bytes) == s && d.hint == DataType::String,
{
    lemma_with_entry(
        m,
        k,
        Property::Datas(seq![DataItem { bytes: encode_utf8(s), hint: DataType::String }]),
        k,
    );
    lemma_c_string_text_encode(s);
}

/// After a key is deleted, reading it reports a missing key.
pub proof fn lemma_get_after_delete(m: Entries, k: Seq<char>, k2: Seq<char>, i: int)
    requires
        keys_distinct(m),
        is_valid_key(k),
    ensures
        spec_get_int(without_entry(m, k), k, i) == Err::<i64, MapError>(MapError::KeyNotFound),
        spec_get_data(without_entry(m, k), k, i) == Err::<DataItem, MapError>(
            MapError::KeyNotFound,
        ),
        k2 != k ==> spec_get_int(without_entry(m, k), k2, i) == spec_get_int(m, k2, i),
{
    lemma_without_entry(m, k, k);
    lemma_without_entry(m, k, k2);
}

/// Appending an integer under a key bound to integers adds it at the end of
/// them; under a missing key it makes a one-element array.
pub proof fn lemma_append_int(m: Entries, k: Seq<char>, x: i64)
    requires
        keys_distinct(m),
        is_valid_key(k),
        !(lookup(m, k) matches Some(Property::Datas(_))),
    ensures
        spec_append(m, k, Property::Ints(seq![x])) matches Ok(m2) && spec_get_int_array(m2, k)
            == Ok::<Seq<i64>, MapError>(
            match lookup(m, k) {
                Some(Property::Ints(s)) => s.push(x),
                _ => seq![x],
            },
        ),
{
    match lookup(m, k) {
        Some(Property::Ints(s)) => {
            lemma_with_entry(m, k, Property::Ints(s + seq![x]), k);
            assert(s + seq![x] =~= s.push(x));
        },
        _ => {
            lemma_with_entry(m, k, Property::Ints(seq![x]), k);
        },
    }
}

/// Appending a data item under a key bound to data (or missing) makes it the
/// last item, read at the index equal to the number of items before; every
/// earlier item reads as it read before.
pub proof fn lemma_get_data_at_after_append(m: Entries, k: Seq<char>, x: DataItem, i: int)
    requires
        keys_distinct(m),
        is_valid_key(k),
        !(lookup(m, k) matches Some(Property::Ints(_))),
    ensures
        spec_append(m, k, Property::Datas(seq![x])) matches Ok(m2) && {
            let n: int = match lookup(m, k) {
                Some(Property::Datas(s)) => s.len() as int,
                _ => 0,
            };
            &&& spec_get_data(m2, k, n) == Ok::<DataItem, MapError>(x)
            &&& spec_get_data(m2, k, n + 1) == Err::<DataItem, MapError>(MapError::IndexOutOfBounds)
            &&& 0 <= i < n ==> spec_get_data(m2, k, i) == spec_get_data(m, k, i)
        },
{
    match lookup(m, k) {
        Some(Property::Datas(s)) => {
            lemma_with_entry(m, k, Property::Datas(s + seq![x]), k);
        },
        _ => {
            lemma_with_entry(m, k, Property::Datas(seq![x]), k);
        },
    }
}

} // verus!

verus! {

/// A copy of the values.
fn copy_value(v: &PropertyValue) -> (r: PropertyValue)
    ensures
        r@ == v@,
{
    match v {
        PropertyValue::Int(a) => PropertyValue::Int(vstd::slice::slice_to_vec(a.as_slice())),
        PropertyValue::Data(a) => {
            let mut out: Vec<DataValue> = Vec::new();
            let mut i: usize = 0;
            while i < a.len()
                invariant
                    i <= a@.len(),
                    out@.len() == i,
                    forall|j: int| 0 <= j < i ==> #[trigger] out@[j]@ == a@[j]@,
                decreases a@.len() - i,
            {
                let d = &a[i];
                out.push(DataValue { bytes: vstd::slice::slice_to_vec(d.bytes.as_slice()), hint: d.hint });
                i = i + 1;
            }
            assert(out@.map_values(|d: DataValue| d@) =~= a@.map_values(|d: DataValue| d@));
            PropertyValue::Data(out)
        },
    }
}

impl OwnedMap {
    /// A copy of the map: the same entries in the same order and the same error message.
    pub fn copy_map(&self) -> (r: OwnedMap)
        ensures
            r@ == self@,
            r.error_message() == self.error_message(),
            self.wf() ==> r.wf(),
    {
        let mut entries: Vec<(String, PropertyValue)> = Vec::new();
        let mut i: usize = 0;
        while i < self.entries.len()
            invariant
                i <= self.entries@.len(),
                entries@.len() == i,
                forall|j: int|
                    0 <= j < i ==> (#[trigger] entries@[j]).0@ == self.entries@[j].0@
                        && entries@[j].1@ == self.entries@[j].1@,
            decreases self.entries@.len() - i,
        {
            let k = self.entries[i].0.clone();
            let v = copy_value(&self.entries[i].1);
            entries.push((k, v));
            i = i + 1;
        }
        let error = match &self.error {
            Some(s) => Some(s.clone()),
            None => None,
        };
        let r = OwnedMap { entries, error };
        assert(r@ =~= self@);
        r
    }
}

} // verus!

verus! {

impl OwnedMap {
    /// Whether no two entries share a key (always so for maps built through
    /// this interface).
    pub fn has_distinct_keys(&self) -> (r: bool)
        ensures
            r == self.wf(),
    {
        let mut i: usize = 0;
        while i < self.entries.len()
            invariant
                i <= self.entries@.len(),
                forall|a: int, b: int|
                    0 <= a < i && 0 <= b < self@.len() && a != b ==> #[trigger] self@[a].0
                        != #[trigger] self@[b].0,
            decreases self.entries@.len() - i,
        {
            let mut j: usize = 0;
            while j < self.entries.len()
                invariant
                    i < self.entries@.len(),
                    j <= self.entries@.len(),
                    forall|a: int, b: int|
                        0 <= a < i && 0 <= b < self@.len() && a != b ==> #[trigger] self@[a].0
                            != #[trigger] self@[b].0,
                    forall|b: int| 0 <= b < j && b != i ==> self@[i as int].0 != #[trigger] self@[b].0,
                decreases self.entries@.len() - j,
            {
                if j != i && self.entries[i].0 == self.entries[j].0 {
                    assert(self@[i as int].0 == self@[j as int].0);
                    return false;
                }
                j = j + 1;
            }
            i = i + 1;
        }
        true
    }
}

} // verus!

verus! {

/// A type whose value can be turned into a map, as the derive of the same
/// name does for structs: one key per field.
pub trait IntoOwnedMap {
    /// The map holding the value's fields.
    fn into_owned_map(self) -> OwnedMap;
}

} // verus!

verus! {

impl InvalidKeyError {
    /// The message of the error.
    pub open spec fn spec_message(self) -> Seq<char> {
        match self {
            InvalidKeyError::EmptyKey => "The key is empty"@,
            InvalidKeyError::InvalidCharacter(i) => "The key contains an invalid character at index "@
                + decimal_text(i as int),
        }
    }

    /// The message of the error.
    pub fn message(&self) -> (r: String)
        ensures
            r@ == self.spec_message(),
    {
        match self {
            InvalidKeyError::EmptyKey => "The key is empty".to_owned(),
            InvalidKeyError::InvalidCharacter(i) => {
                let mut t = TextBuf::new();
                t.push_str("The key contains an invalid character at index ");
                t.push_u64(*i as u64);
                t.into_string()
            },
        }
    }
}

impl MapError {
    /// The message of the error.
    pub open spec fn spec_message(self) -> Seq<char> {
        match self {
            MapError::KeyNotFound => "The requested key wasn't found in the map"@,
            MapError::IndexOutOfBounds => "The requested index was out of bounds"@,
            MapError::WrongValueType => "The given/requested value type doesn't match the type of the property"@,
            MapError::InvalidKey(_) => "The key is invalid"@,
            MapError::CStringConversion => "Couldn't convert to a CString"@,
            MapError::CreationFailed => "Failed to create map"@,
            MapError::Error => "Unknown error (see Map::error())"@,
            MapError::Utf8Error => "UTF-8 conversion error"@,
        }
    }

    /// The message of the error.
    pub fn message(&self) -> (r: String)
        ensures
            r@ == self.spec_message(),
    {
        match self {
            MapError::KeyNotFound => "The requested key wasn't found in the map".to_owned(),
            MapError::IndexOutOfBounds => "The requested index was out of bounds".to_owned(),
            MapError::WrongValueType => "The given/requested value type doesn't match the type of the property".to_owned(),
            MapError::InvalidKey(_) => "The key is invalid".to_owned(),
            MapError::CStringConversion => "Couldn't convert to a CString".to_owned(),
            MapError::CreationFailed => "Failed to create map".to_owned(),
            MapError::Error => "Unknown error (see Map::error())".to_owned(),
            MapError::Utf8Error => "UTF-8 conversion error".to_owned(),
        }
    }
}

} // verus!

verus! {

/// The data type hints are VapourSynth's numbers: Unknown -1, Binary 0, String 1.
pub proof fn lemma_data_type_numbers()
    ensures
        DataType::Unknown.spec_code() == -1,
        DataType::Binary.spec_code() == 0,
        DataType::String.spec_code() == 1,
{
}

} // verus!

verus! {

/// Each error's message says what went wrong, in the words VapourSynth's
/// Rust bindings use; an invalid character is reported with its index in
/// decimal.
pub proof fn lemma_error_messages(i: usize)
    ensures
        MapError::KeyNotFound.spec_message() == "The requested key wasn't found in the map"@,
        MapError::IndexOutOfBounds.spec_message() == "The requested index was out of bounds"@,
        MapError::WrongValueType.spec_message()
            == "The given/requested value type doesn't match the type of the property"@,
        MapError::InvalidKey(InvalidKeyError::EmptyKey).spec_message() == "The key is invalid"@,
        MapError::CStringConversion.spec_message() == "Couldn't convert to a CString"@,
        MapError::CreationFailed.spec_message() == "Failed to create map"@,
        MapError::Error.spec_message() == "Unknown error (see Map::error())"@,
        MapError::Utf8Error.spec_message() == "UTF-8 conversion error"@,
        InvalidKeyError::EmptyKey.spec_message() == "The key is empty"@,
        InvalidKeyError::InvalidCharacter(i).spec_message()
            == "The key contains an invalid character at index "@ + decimal_text(i as int),
{
}

} // verus!
