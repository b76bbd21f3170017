use vstd::prelude::*;
use vstd::utf8::{valid_utf8, decode_utf8};
use crate::text::{decimal, signed_decimal, unsigned_decimal};

verus! {

/// What reading a 32-bit number under a key of a dictionary gave: no value,
/// a value that could not be read as a 32-bit integer, or the number.
#[derive(Clone, Copy, Debug, PartialEq, Eq, Structural)]
pub enum NumberRead {
    Absent,
    Unreadable,
    Value(i32),
}

/// A dictionary number as the helper uses it: 0 when it is absent or cannot
/// be read.
pub open spec fn number_value(read: NumberRead) -> i32 {
    match read {
        NumberRead::Value(v) => v,
        _ => 0,
    }
}

/// The number stored under a key, or 0 when there is none.
pub fn get_dict_number(read: NumberRead) -> (n: i32)
    ensures
        n == number_value(read),
{
    match read {
        NumberRead::Value(v) => v,
        _ => 0,
    }
}

/// The `X`, `Y`, `Width` and `Height` numbers of a bounds dictionary.
#[derive(Clone, Copy, Debug, PartialEq, Eq, Structural)]
pub struct BoundsRead {
    pub x: NumberRead,
    pub y: NumberRead,
    pub width: NumberRead,
    pub height: NumberRead,
}

/// Bounds `(x, y, width, height)` read from an optional bounds dictionary:
/// all zero when there is none, each part 0 when it cannot be read.
pub open spec fn bounds_value(read: Option<BoundsRead>) -> (i32, i32, i32, i32) {
    match read {
        Some(b) => (number_value(b.x), number_value(b.y), number_value(b.width), number_value(b.height)),
        None => (0, 0, 0, 0),
    }
}

/// The bounds stored under a key, `(0, 0, 0, 0)` when there are none.
pub fn get_dict_bounds(read: Option<BoundsRead>) -> (bounds: (i32, i32, i32, i32))
    ensures
        bounds == bounds_value(read),
{
    match read {
        Some(b) => (get_dict_number(b.x), get_dict_number(b.y), get_dict_number(b.width), get_dict_number(b.height)),
        None => (0, 0, 0, 0),
    }
}

/// What a dictionary holds under a key, as far as reading it as text goes: no
/// value, a string, a number (with its value when it reads as a 32-bit
/// integer), or a value of another type with its type id.
#[derive(Clone, Debug, PartialEq, Eq)]
pub enum DictValue {
    Absent,
    Text(String),
    Number(Option<i32>),
    Other(u64),
}

/// The text shown for a dictionary value: the string itself, a number in
/// decimal, or a marker that names what could not be shown.
pub open spec fn dict_text(value: DictValue) -> Seq<char> {
    match value {
        DictValue::Absent => Seq::empty(),
        DictValue::Text(s) => s@,
        DictValue::Number(Some(v)) => decimal(v as int),
        DictValue::Number(None) => "<CFNumber conversion failed>"@,
        DictValue::Other(type_id) => "<Unknown type: TypeID "@ + decimal(type_id as int) + ">"@,
    }
}

/// The text stored under a key: empty when there is none.
pub fn get_dict_string(value: &DictValue) -> (s: String)
    ensures
        s@ == dict_text(*value),
{
    match value {
        DictValue::Absent => String::new(),
        DictValue::Text(s) => s.clone(),
        DictValue::Number(Some(v)) => signed_decimal(*v as i64),
        DictValue::Number(None) => {
            String::from_str("<CFNumber conversion failed>")
        },
        DictValue::Other(type_id) => {
            let mut s = String::from_str("<Unknown type: TypeID ");
            let digits = unsigned_decimal(*type_id);
            s.append(digits.as_str());
            s.append(">");
            s
        },
    }
}

/// The kind of a Core Foundation value, as the readers tell values apart: a
/// string, a number, or anything else.
#[derive(Clone, Copy, Debug, PartialEq, Eq)]
pub enum ValueKind {
    Text,
    Number,
    Other,
}

/// The kind of a value with type id `type_id`, given the ids of the string
/// and number types; a type id that is both counts as a string.
pub open spec fn kind_of(type_id: u64, string_type_id: u64, number_type_id: u64) -> ValueKind {
    if type_id == string_type_id {
        ValueKind::Text
    } else if type_id == number_type_id {
        ValueKind::Number
    } else {
        ValueKind::Other
    }
}

/// Tells the kind of a value from its type id and the ids of the string and
/// number types.
pub fn value_kind(type_id: u64, string_type_id: u64, number_type_id: u64) -> (kind: ValueKind)
    ensures
        kind == kind_of(type_id, string_type_id, number_type_id),
{
    if type_id == string_type_id {
        ValueKind::Text
    } else if type_id == number_type_id {
        ValueKind::Number
    } else {
        ValueKind::Other
    }
}

/// The name shown for the type of a dictionary value.
pub open spec fn value_kind_name(type_id: u64, string_type_id: u64, number_type_id: u64) -> Seq<char> {
    match kind_of(type_id, string_type_id, number_type_id) {
        ValueKind::Text => "CFString"@,
        ValueKind::Number => "CFNumber"@,
        ValueKind::Other => "Unknown"@,
    }
}

/// Names the type of a value from its type id and the ids of the string and
/// number types.
pub fn value_type_name(type_id: u64, string_type_id: u64, number_type_id: u64) -> (name: &'static str)
    ensures
        name@ == value_kind_name(type_id, string_type_id, number_type_id),
{
    match value_kind(type_id, string_type_id, number_type_id) {
        ValueKind::Text => "CFString",
        ValueKind::Number => "CFNumber",
        ValueKind::Other => "Unknown",
    }
}

/// The text `String::from_utf8_lossy` makes of some bytes.
pub uninterp spec fn utf8_lossy(bytes: Seq<u8>) -> Seq<char>;

/// Calls `String::from_utf8_lossy`, which decodes UTF-8 and puts U+FFFD in
/// place of each invalid sequence. Claimed: the result is `utf8_lossy` of the
/// bytes, and bytes that are valid UTF-8 come back as the text they encode.
#[verifier::external_body]
fn string_from_utf8_lossy(bytes: &[u8]) -> (s: String)
    ensures
        s@ == utf8_lossy(bytes@),
        valid_utf8(bytes@) ==> s@ == decode_utf8(bytes@),
{
    String::from_utf8_lossy(bytes).into_owned()
}

/// `i` is the position of the first NUL byte.
pub open spec fn first_nul_at(bytes: Seq<u8>, i: int) -> bool {
    &&& 0 <= i < bytes.len()
    &&& bytes[i] == 0
    &&& forall|k: int| 0 <= k < i ==> bytes[k] != 0
}

/// The bytes of a C string buffer before its first NUL (all of them when it
/// has none).
pub open spec fn c_string_bytes(bytes: Seq<u8>) -> Seq<u8> {
    if exists|i: int| 0 <= i < bytes.len() && bytes[i] == 0 {
        bytes.take(choose|i: int| first_nul_at(bytes, i))
    } else {
        bytes
    }
}

/// The text of a C string buffer filled by the system: the bytes before the
/// first NUL, decoded as UTF-8 with invalid sequences replaced.
pub fn c_buffer_to_string(buffer: &[u8]) -> (s: String)
    ensures
        s@ == utf8_lossy(c_string_bytes(buffer@)),
        valid_utf8(c_string_bytes(buffer@)) ==> s@ == decode_utf8(c_string_bytes(buffer@)),
{
    let mut prefix: Vec<u8> = Vec::new();
    let mut i: usize = 0;
    while i < buffer.len() && buffer[i] != 0
        invariant
            i <= buffer@.len(),
            prefix@ == buffer@.take(i as int),
            forall|k: int| 0 <= k < i ==> buffer@[k] != 0,
        decreases buffer@.len() - i,
    {
        prefix.push(buffer[i]);
        proof {
            assert(prefix@ =~= buffer@.take(i as int + 1));
        }
        i = i + 1;
    }
    proof {
        if i < buffer@.len() {
            assert(first_nul_at(buffer@, i as int));
            let c = choose|j: int| first_nul_at(buffer@, j);
            assert(first_nul_at(buffer@, c));
            assert(c == i as int) by {
                if c < i as int {
                    assert(buffer@[c] != 0);
                } else if c > i as int {
                    assert(buffer@[i as int] != 0);
                }
            }
            assert(c_string_bytes(buffer@) == prefix@);
        } else {
            assert(prefix@ =~= buffer@);
            assert(c_string_bytes(buffer@) == prefix@);
        }
    }
    string_from_utf8_lossy(prefix.as_slice())
}

/// The size of the buffer asked for when copying out a string of `length`
/// UTF-16 units: four bytes per unit and one for the NUL; `None` for an empty
/// string, which is not copied.
pub fn cfstring_buffer_size(length: isize) -> (size: Option<usize>)
    requires
        0 <= length,
        length * 4 + 1 <= isize::MAX,
    ensures
        length == 0 ==> size is None,
        length != 0 ==> size == Some((length * 4 + 1) as usize),
{
    if length == 0 {
        None
    } else {
        Some((length * 4 + 1) as usize)
    }
}

/// What reading a Core Foundation string gave: no string at all; the bytes of
/// its UTF-8 text straight from the string; no direct text and a length of
/// zero; the buffer that its text was copied into; or a copy that failed.
#[derive(Clone, Debug, PartialEq, Eq)]
pub enum CfStringRead {
    Null,
    Direct(Vec<u8>),
    Empty,
    Copied(Vec<u8>),
    CopyFailed,
}

/// The text of a string read: the text read directly or copied, up to its
/// first NUL and with invalid UTF-8 replaced; empty otherwise.
pub open spec fn cfstring_text(read: CfStringRead) -> Seq<char> {
    match read {
        CfStringRead::Direct(bytes) => utf8_lossy(c_string_bytes(bytes@)),
        CfStringRead::Copied(buffer) => utf8_lossy(c_string_bytes(buffer@)),
        _ => Seq::empty(),
    }
}

/// The bytes whose text a string read holds: none unless text was read.
pub open spec fn cfstring_bytes(read: CfStringRead) -> Seq<u8> {
    match read {
        CfStringRead::Direct(bytes) => c_string_bytes(bytes@),
        CfStringRead::Copied(buffer) => c_string_bytes(buffer@),
        _ => Seq::empty(),
    }
}

/// Converts a read Core Foundation string to a Rust string: a missing string,
/// an empty one and a failed copy all give the empty string.
pub fn cfstring_to_string(read: &CfStringRead) -> (s: String)
    ensures
        s@ == cfstring_text(*read),
        (read is Direct || read is Copied) && valid_utf8(cfstring_bytes(*read)) ==> s@ == decode_utf8(cfstring_bytes(*read)),
        !(read is Direct || read is Copied) ==> s@ == Seq::<char>::empty(),
{
    match read {
        CfStringRead::Direct(bytes) => c_buffer_to_string(bytes.as_slice()),
        CfStringRead::Copied(buffer) => c_buffer_to_string(buffer.as_slice()),
        _ => String::new(),
    }
}

} // verus!
