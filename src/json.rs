//! A structured value model for parsed JSON documents, field lookup on objects and
//! the structural decode errors shared by every record.

use crate::id::IdentifierError;
use crate::timestamp::TimestampError;
use vstd::prelude::*;
use vstd::string::StringSliceAdditionalSpecFns;
use vstd::utf8::*;

verus! {

broadcast use {encode_utf8_valid_utf8, encode_utf8_decode_utf8};

/// A parsed JSON value. Object entries keep the order of the document.
#[derive(Debug, PartialEq)]
pub enum JsonValue {
    Null,
    Bool(bool),
    /// A non-negative integer.
    UInt(u64),
    /// A negative integer.
    NegInt(i64),
    /// A number with a fraction or an exponent, as written in the document.
    Fractional(String),
    Str(String),
    Array(Vec<JsonValue>),
    Object(Vec<(String, JsonValue)>),
}

/// Why a value does not decode into a record.
#[derive(Debug, PartialEq)]
pub enum DecodeError {
    /// The value has the wrong shape; `expected` names the shape wanted.
    WrongType { expected: &'static str },
    /// A required field is absent.
    MissingField { field: String },
    /// A strict record met a field it does not declare.
    UnknownField { field: String },
    /// A field is present but its value does not decode.
    InvalidField { field: String, cause: Box<DecodeError> },
    /// A list that stands in for an empty map holds elements.
    NonEmptyArray,
    /// Text `value` is longer than `max_len` bytes.
    TextTooLong { max_len: usize, value: String },
    /// Values nest deeper than the decoder follows.
    NestingTooDeep,
    Identifier(IdentifierError),
    Timestamp(TimestampError),
    Tagged(Box<TaggedUnionError>),
}

/// Why a value does not decode into a tagged union.
#[derive(Debug, PartialEq)]
pub enum TaggedUnionError {
    /// The tag field is absent and the union has no default variant.
    MissingTag { enum_name: String },
    /// The tag names none of the union's variants.
    UnknownVariant { tag_value: JsonValue, known_variants: Vec<String> },
    /// The tag chose a variant whose record did not decode.
    VariantDecodeFailed { variant_name: String, inner_error: Box<DecodeError> },
}

/// Whether entry `i` is the first one of `fields` with key `name`.
pub open spec fn is_key_at(fields: Seq<(String, JsonValue)>, name: Seq<char>, i: int) -> bool {
    &&& 0 <= i < fields.len()
    &&& fields[i].0@ == name
    &&& forall|j: int| 0 <= j < i ==> fields[j].0@ != name
}

pub open spec fn has_key(fields: Seq<(String, JsonValue)>, name: Seq<char>) -> bool {
    exists|i: int| is_key_at(fields, name, i)
}

/// The position of the first entry with key `name`.
pub open spec fn key_position(fields: Seq<(String, JsonValue)>, name: Seq<char>) -> int {
    choose|i: int| is_key_at(fields, name, i)
}

/// The value of the first entry with key `name`, if any.
pub open spec fn field_value(fields: Seq<(String, JsonValue)>, name: Seq<char>) -> Option<JsonValue> {
    if has_key(fields, name) {
        Some(fields[key_position(fields, name)].1)
    } else {
        None
    }
}

pub proof fn lemma_key_at_unique(fields: Seq<(String, JsonValue)>, name: Seq<char>, i: int, j: int)
    requires
        is_key_at(fields, name, i),
        is_key_at(fields, name, j),
    ensures
        i == j,
{
    if i < j {
        assert(fields[i].0@ != name);
    } else if j < i {
        assert(fields[j].0@ != name);
    }
}

/// Whether two texts are the same.
pub fn same_text(a: &str, b: &str) -> (r: bool)
    ensures
        r == (a@ == b@),
{
    let x = a.as_bytes();
    let y = b.as_bytes();
    if x.len() != y.len() {
        return false;
    }
    let mut i: usize = 0;
    while i < x.len()
        invariant
            x@ == a.spec_bytes(),
            y@ == b.spec_bytes(),
            x@.len() == y@.len(),
            i <= x@.len(),
            forall|j: int| 0 <= j < i ==> x@[j] == y@[j],
        decreases x@.len() - i,
    {
        if x[i] != y[i] {
            return false;
        }
        i = i + 1;
    }
    proof {
        assert(x@ =~= y@);
        decode_utf8_encode_utf8(x@);
    }
    true
}

/// The position of the first entry with key `name`.
pub fn find_field(fields: &Vec<(String, JsonValue)>, name: &str) -> (r: Option<usize>)
    ensures
        r is Some <==> has_key(fields@, name@),
        r is Some ==> r->Some_0 == key_position(fields@, name@),
{
    let mut i: usize = 0;
    while i < fields.len()
        invariant
            i <= fields@.len(),
            forall|j: int| 0 <= j < i ==> fields@[j].0@ != name@,
        decreases fields@.len() - i,
    {
        if same_text(fields[i].0.as_str(), name) {
            proof {
                assert(is_key_at(fields@, name@, i as int));
                lemma_key_at_unique(fields@, name@, i as int, key_position(fields@, name@));
            }
            return Some(i);
        }
        i = i + 1;
    }
    proof {
        if has_key(fields@, name@) {
            let k = key_position(fields@, name@);
            assert(fields@[k].0@ != name@);
        }
    }
    None
}

/// The value of the first entry with key `name`, if any.
pub fn get_field<'a>(fields: &'a Vec<(String, JsonValue)>, name: &str) -> (r: Option<&'a JsonValue>)
    ensures
        r is Some <==> has_key(fields@, name@),
        r is Some ==> field_value(fields@, name@) == Some(*r->Some_0),
{
    match find_field(fields, name) {
        Some(i) => Some(&fields[i].1),
        None => None,
    }
}

/// Whether `name` is one of `known`.
pub open spec fn is_known(known: Seq<&str>, name: Seq<char>) -> bool {
    exists|k: int| 0 <= k < known.len() && known[k]@ == name
}

/// Whether `name` is one of `known`.
pub fn is_known_name(known: &[&str], name: &str) -> (r: bool)
    ensures
        r == is_known(known@, name@),
{
    let mut k: usize = 0;
    while k < known.len()
        invariant
            k <= known@.len(),
            forall|j: int| 0 <= j < k ==> known@[j]@ != name@,
        decreases known@.len() - k,
    {
        if same_text(known[k], name) {
            return true;
        }
        k = k + 1;
    }
    false
}

pub open spec fn all_known(fields: Seq<(String, JsonValue)>, known: Seq<&str>) -> bool {
    forall|i: int| 0 <= i < fields.len() ==> is_known(known, #[trigger] fields[i].0@)
}

/// Whether entry `i` is the first one of `fields` whose key is not in `known`.
pub open spec fn is_first_unknown(fields: Seq<(String, JsonValue)>, known: Seq<&str>, i: int) -> bool {
    &&& 0 <= i < fields.len()
    &&& !is_known(known, fields[i].0@)
    &&& forall|j: int| 0 <= j < i ==> is_known(known, #[trigger] fields[j].0@)
}

/// The key of the first entry of `fields` that is not in `known`.
pub open spec fn first_unknown_key(fields: Seq<(String, JsonValue)>, known: Seq<&str>) -> String {
    fields[choose|i: int| is_first_unknown(fields, known, i)].0
}

/// Checks a strict record: every key of `fields` must be one of `known`. The first key
/// that is not is reported.
pub fn check_fields(fields: &Vec<(String, JsonValue)>, known: &[&str]) -> (r: Result<(), DecodeError>)
    ensures
        r is Ok <==> all_known(fields@, known@),
        r is Err ==> r->Err_0 == (DecodeError::UnknownField { field: first_unknown_key(fields@, known@) }),
{
    let mut i: usize = 0;
    while i < fields.len()
        invariant
            i <= fields@.len(),
            forall|j: int| 0 <= j < i ==> is_known(known@, #[trigger] fields@[j].0@),
        decreases fields@.len() - i,
    {
        if !is_known_name(known, fields[i].0.as_str()) {
            proof {
                assert(is_first_unknown(fields@, known@, i as int));
                let k = choose|k: int| is_first_unknown(fields@, known@, k);
                if k < i {
                    assert(is_known(known@, fields@[k].0@));
                } else if k > i {
                    assert(is_known(known@, fields@[i as int].0@));
                }
            }
            return Err(DecodeError::UnknownField { field: fields[i].0.clone() });
        }
        i = i + 1;
    }
    Ok(())
}

/// A JSON number kept as plain values: an integer, or the text of a number with a
/// fraction or an exponent.
#[derive(Clone, Debug, PartialEq, Eq)]
pub enum Number {
    UInt(u64),
    NegInt(i64),
    Fractional(String),
}

/// A JSON object read as a map from keys to values of one type, in document order.
#[derive(Clone, Debug, PartialEq)]
pub struct StringMap<T> {
    pub entries: Vec<(String, T)>,
}

impl<T> StringMap<T> {
    /// How many entries the map holds.
    pub fn len(&self) -> (r: usize)
        ensures
            r == self.entries@.len(),
    {
        self.entries.len()
    }
}

/// A type that decodes from a JSON value, taking the value over. The three spec
/// functions say exactly when decoding succeeds, what it gives, and how it fails.
pub trait Decode: Sized {
    /// Whether `v` decodes.
    spec fn accepts(v: JsonValue) -> bool;

    /// Whether `x` is what `v` decodes to.
    spec fn decodes_to(v: JsonValue, x: Self) -> bool;

    /// Whether `e` is the error decoding `v` fails with.
    spec fn rejects_with(v: JsonValue, e: DecodeError) -> bool;

    fn decode(v: JsonValue) -> (r: Result<Self, DecodeError>)
        ensures
            r is Ok <==> Self::accepts(v),
            r is Ok ==> Self::decodes_to(v, r->Ok_0),
            r is Err ==> Self::rejects_with(v, r->Err_0),
    ;
}

/// Reads a string.
pub fn decode_string(v: JsonValue) -> (r: Result<String, DecodeError>)
    ensures
        r is Ok <==> v is Str,
        r is Ok ==> r->Ok_0 == v->Str_0,
        r is Err ==> r->Err_0 == (DecodeError::WrongType { expected: "string" }),
{
    match v {
        JsonValue::Str(s) => Ok(s),
        _ => Err(DecodeError::WrongType { expected: "string" }),
    }
}

/// Reads a boolean.
pub fn decode_bool(v: JsonValue) -> (r: Result<bool, DecodeError>)
    ensures
        r is Ok <==> v is Bool,
        r is Ok ==> r->Ok_0 == v->Bool_0,
        r is Err ==> r->Err_0 == (DecodeError::WrongType { expected: "boolean" }),
{
    match v {
        JsonValue::Bool(b) => Ok(b),
        _ => Err(DecodeError::WrongType { expected: "boolean" }),
    }
}

/// The integer a value holds, if it is an integer.
pub open spec fn integer_of(v: JsonValue) -> Option<int> {
    match v {
        JsonValue::UInt(u) => Some(u as int),
        JsonValue::NegInt(n) => Some(n as int),
        _ => None,
    }
}

pub open spec fn fits_i32(v: JsonValue) -> bool {
    integer_of(v) is Some && i32::MIN <= integer_of(v)->Some_0 <= i32::MAX
}

pub open spec fn fits_u32(v: JsonValue) -> bool {
    integer_of(v) is Some && 0 <= integer_of(v)->Some_0 <= u32::MAX
}

/// Reads a 32-bit signed integer.
pub fn decode_i32(v: JsonValue) -> (r: Result<i32, DecodeError>)
    ensures
        r is Ok <==> fits_i32(v),
        r is Ok ==> r->Ok_0 == integer_of(v)->Some_0,
        r is Err ==> r->Err_0 == (DecodeError::WrongType { expected: "32-bit integer" }),
{
    match v {
        JsonValue::UInt(u) => {
            if u <= i32::MAX as u64 {
                Ok(u as i32)
            } else {
                Err(DecodeError::WrongType { expected: "32-bit integer" })
            }
        },
        JsonValue::NegInt(n) => {
            if n >= i32::MIN as i64 && n <= i32::MAX as i64 {
                Ok(n as i32)
            } else {
                Err(DecodeError::WrongType { expected: "32-bit integer" })
            }
        },
        _ => Err(DecodeError::WrongType { expected: "32-bit integer" }),
    }
}

/// Reads a 32-bit unsigned integer.
pub fn decode_u32(v: JsonValue) -> (r: Result<u32, DecodeError>)
    ensures
        r is Ok <==> fits_u32(v),
        r is Ok ==> r->Ok_0 == integer_of(v)->Some_0,
        r is Err ==> r->Err_0 == (DecodeError::WrongType { expected: "32-bit unsigned integer" }),
{
    match v {
        JsonValue::UInt(u) => {
            if u <= u32::MAX as u64 {
                Ok(u as u32)
            } else {
                Err(DecodeError::WrongType { expected: "32-bit unsigned integer" })
            }
        },
        JsonValue::NegInt(n) => {
            if n >= 0 && n <= u32::MAX as i64 {
                Ok(n as u32)
            } else {
                Err(DecodeError::WrongType { expected: "32-bit unsigned integer" })
            }
        },
        _ => Err(DecodeError::WrongType { expected: "32-bit unsigned integer" }),
    }
}

/// The number a value holds, if it is a number.
pub open spec fn number_of(v: JsonValue) -> Option<Number> {
    match v {
        JsonValue::UInt(u) => Some(Number::UInt(u)),
        JsonValue::NegInt(n) => Some(Number::NegInt(n)),
        JsonValue::Fractional(t) => Some(Number::Fractional(t)),
        _ => None,
    }
}

/// Reads a number of any kind.
pub fn decode_number(v: JsonValue) -> (r: Result<Number, DecodeError>)
    ensures
        r is Ok <==> number_of(v) is Some,
        r is Ok ==> r->Ok_0 == number_of(v)->Some_0,
        r is Err ==> r->Err_0 == (DecodeError::WrongType { expected: "number" }),
{
    match v {
        JsonValue::UInt(u) => Ok(Number::UInt(u)),
        JsonValue::NegInt(n) => Ok(Number::NegInt(n)),
        JsonValue::Fractional(t) => Ok(Number::Fractional(t)),
        _ => Err(DecodeError::WrongType { expected: "number" }),
    }
}

/// The entries of an object.
pub fn into_fields(v: JsonValue) -> (r: Result<Vec<(String, JsonValue)>, DecodeError>)
    ensures
        r is Ok <==> v is Object,
        r is Ok ==> r->Ok_0 == v->Object_0,
        r is Err ==> r->Err_0 == (DecodeError::WrongType { expected: "object" }),
{
    match v {
        JsonValue::Object(fields) => Ok(fields),
        _ => Err(DecodeError::WrongType { expected: "object" }),
    }
}

impl Decode for String {
    open spec fn accepts(v: JsonValue) -> bool {
        v is Str
    }

    open spec fn decodes_to(v: JsonValue, x: String) -> bool {
        x == v->Str_0
    }

    open spec fn rejects_with(v: JsonValue, e: DecodeError) -> bool {
        e == (DecodeError::WrongType { expected: "string" })
    }

    fn decode(v: JsonValue) -> Result<String, DecodeError> {
        decode_string(v)
    }
}

impl Decode for bool {
    open spec fn accepts(v: JsonValue) -> bool {
        v is Bool
    }

    open spec fn decodes_to(v: JsonValue, x: bool) -> bool {
        x == v->Bool_0
    }

    open spec fn rejects_with(v: JsonValue, e: DecodeError) -> bool {
        e == (DecodeError::WrongType { expected: "boolean" })
    }

    fn decode(v: JsonValue) -> Result<bool, DecodeError> {
        decode_bool(v)
    }
}

impl Decode for i32 {
    open spec fn accepts(v: JsonValue) -> bool {
        fits_i32(v)
    }

    open spec fn decodes_to(v: JsonValue, x: i32) -> bool {
        x == integer_of(v)->Some_0
    }

    open spec fn rejects_with(v: JsonValue, e: DecodeError) -> bool {
        e == (DecodeError::WrongType { expected: "32-bit integer" })
    }

    fn decode(v: JsonValue) -> Result<i32, DecodeError> {
        decode_i32(v)
    }
}

impl Decode for u32 {
    open spec fn accepts(v: JsonValue) -> bool {
        fits_u32(v)
    }

    open spec fn decodes_to(v: JsonValue, x: u32) -> bool {
        x == integer_of(v)->Some_0
    }

    open spec fn rejects_with(v: JsonValue, e: DecodeError) -> bool {
        e == (DecodeError::WrongType { expected: "32-bit unsigned integer" })
    }

    fn decode(v: JsonValue) -> Result<u32, DecodeError> {
        decode_u32(v)
    }
}

impl Decode for Number {
    open spec fn accepts(v: JsonValue) -> bool {
        number_of(v) is Some
    }

    open spec fn decodes_to(v: JsonValue, x: Number) -> bool {
        x == number_of(v)->Some_0
    }

    open spec fn rejects_with(v: JsonValue, e: DecodeError) -> bool {
        e == (DecodeError::WrongType { expected: "number" })
    }

    fn decode(v: JsonValue) -> Result<Number, DecodeError> {
        decode_number(v)
    }
}

impl<T: Decode> Decode for Box<T> {
    open spec fn accepts(v: JsonValue) -> bool {
        T::accepts(v)
    }

    open spec fn decodes_to(v: JsonValue, x: Box<T>) -> bool {
        T::decodes_to(v, *x)
    }

    open spec fn rejects_with(v: JsonValue, e: DecodeError) -> bool {
        T::rejects_with(v, e)
    }

    fn decode(v: JsonValue) -> Result<Box<T>, DecodeError> {
        match T::decode(v) {
            Ok(x) => Ok(Box::new(x)),
            Err(e) => Err(e),
        }
    }
}

/// Whether every element of `items` decodes as a `T`.
pub open spec fn all_accepted<T: Decode>(items: Seq<JsonValue>) -> bool {
    forall|i: int| 0 <= i < items.len() ==> T::accepts(#[trigger] items[i])
}

/// Whether element `i` is the first of `items` that does not decode as a `T`.
pub open spec fn first_refused<T: Decode>(items: Seq<JsonValue>, i: int) -> bool {
    &&& 0 <= i < items.len()
    &&& !T::accepts(items[i])
    &&& forall|j: int| 0 <= j < i ==> T::accepts(#[trigger] items[j])
}

/// Reads an array, each element as a `T`; the first element that fails is reported.
pub fn decode_list<T: Decode>(v: JsonValue) -> (r: Result<Vec<T>, DecodeError>)
    ensures
        r is Ok <==> <Vec<T> as Decode>::accepts(v),
        r is Ok ==> <Vec<T> as Decode>::decodes_to(v, r->Ok_0),
        r is Err ==> <Vec<T> as Decode>::rejects_with(v, r->Err_0),
{
    match v {
        JsonValue::Array(items) => {
            let ghost all = items@;
            let mut rest = items;
            let mut out: Vec<T> = Vec::new();
            while rest.len() > 0
                invariant
                    v is Array,
                    all == v->Array_0@,
                    out@.len() + rest@.len() == all.len(),
                    rest@ == all.subrange(out@.len() as int, all.len() as int),
                    forall|j: int| 0 <= j < out@.len() ==> T::accepts(#[trigger] all[j]),
                    forall|j: int| 0 <= j < out@.len() ==> T::decodes_to(#[trigger] all[j], out@[j]),
                decreases rest@.len(),
            {
                let ghost k = out@.len() as int;
                let item = rest.remove(0);
                proof {
                    assert(item == all[k]);
                }
                match T::decode(item) {
                    Ok(x) => out.push(x),
                    Err(e) => {
                        proof {
                            assert(first_refused::<T>(all, k));
                        }
                        return Err(e);
                    },
                }
                proof {
                    assert(rest@ =~= all.subrange(out@.len() as int, all.len() as int));
                }
            }
            Ok(out)
        },
        _ => Err(DecodeError::WrongType { expected: "array" }),
    }
}

impl<T: Decode> Decode for Vec<T> {
    open spec fn accepts(v: JsonValue) -> bool {
        v is Array && all_accepted::<T>(v->Array_0@)
    }

    open spec fn decodes_to(v: JsonValue, x: Vec<T>) -> bool {
        &&& v is Array
        &&& x@.len() == v->Array_0@.len()
        &&& forall|i: int| 0 <= i < x@.len() ==> T::decodes_to(#[trigger] v->Array_0@[i], x@[i])
    }

    open spec fn rejects_with(v: JsonValue, e: DecodeError) -> bool {
        if v is Array {
            exists|i: int| first_refused::<T>(v->Array_0@, i) && T::rejects_with(v->Array_0@[i], e)
        } else {
            e == (DecodeError::WrongType { expected: "array" })
        }
    }

    fn decode(v: JsonValue) -> Result<Vec<T>, DecodeError> {
        decode_list(v)
    }
}

/// The values of an object's entries.
pub open spec fn entry_values(entries: Seq<(String, JsonValue)>) -> Seq<JsonValue> {
    entries.map_values(|e: (String, JsonValue)| e.1)
}

/// Reads an object as a map, each value as a `T`; the first value that fails is
/// reported under its key.
pub fn decode_map<T: Decode>(v: JsonValue) -> (r: Result<StringMap<T>, DecodeError>)
    ensures
        r is Ok <==> <StringMap<T> as Decode>::accepts(v),
        r is Ok ==> <StringMap<T> as Decode>::decodes_to(v, r->Ok_0),
        r is Err ==> <StringMap<T> as Decode>::rejects_with(v, r->Err_0),
{
    match v {
        JsonValue::Object(fields) => {
            let ghost all = fields@;
            let mut rest = fields;
            let mut out: Vec<(String, T)> = Vec::new();
            while rest.len() > 0
                invariant
                    v is Object,
                    all == v->Object_0@,
                    out@.len() + rest@.len() == all.len(),
                    rest@ == all.subrange(out@.len() as int, all.len() as int),
                    forall|j: int| 0 <= j < out@.len() ==> #[trigger] out@[j].0 == all[j].0,
                    forall|j: int| 0 <= j < out@.len() ==> T::accepts(#[trigger] entry_values(all)[j]),
                    forall|j: int| 0 <= j < out@.len() ==> T::decodes_to(#[trigger] all[j].1, out@[j].1),
                decreases rest@.len(),
            {
                let ghost k = out@.len() as int;
                let (key, value) = rest.remove(0);
                proof {
                    assert(key == all[k].0 && value == all[k].1);
                }
                match T::decode(value) {
                    Ok(x) => out.push((key, x)),
                    Err(e) => {
                        proof {
                            assert(first_refused::<T>(entry_values(all), k));
                        }
                        return Err(DecodeError::InvalidField { field: key, cause: Box::new(e) });
                    },
                }
                proof {
                    assert(rest@ =~= all.subrange(out@.len() as int, all.len() as int));
                }
            }
            Ok(StringMap { entries: out })
        },
        _ => Err(DecodeError::WrongType { expected: "object" }),
    }
}

impl<T: Decode> Decode for StringMap<T> {
    open spec fn accepts(v: JsonValue) -> bool {
        v is Object && all_accepted::<T>(entry_values(v->Object_0@))
    }

    open spec fn decodes_to(v: JsonValue, x: StringMap<T>) -> bool {
        &&& v is Object
        &&& x.entries@.len() == v->Object_0@.len()
        &&& forall|i: int| 0 <= i < x.entries@.len() ==> #[trigger] x.entries@[i].0 == v->Object_0@[i].0
            && T::decodes_to(v->Object_0@[i].1, x.entries@[i].1)
    }

    open spec fn rejects_with(v: JsonValue, e: DecodeError) -> bool {
        if v is Object {
            exists|i: int|
                first_refused::<T>(entry_values(v->Object_0@), i) && e is InvalidField
                    && e->InvalidField_field == v->Object_0@[i].0
                    && T::rejects_with(v->Object_0@[i].1, *e->InvalidField_cause)
        } else {
            e == (DecodeError::WrongType { expected: "object" })
        }
    }

    fn decode(v: JsonValue) -> Result<StringMap<T>, DecodeError> {
        decode_map(v)
    }
}

/// Whether a field is absent or null: an optional field then holds nothing.
pub open spec fn is_absent(fields: Seq<(String, JsonValue)>, name: Seq<char>) -> bool {
    field_value(fields, name) is None || field_value(fields, name) == Some(JsonValue::Null)
}

/// The entries left once the first entry with key `name` is taken out.
pub open spec fn taken(fields: Seq<(String, JsonValue)>, name: Seq<char>) -> Seq<(String, JsonValue)> {
    if has_key(fields, name) {
        fields.remove(key_position(fields, name))
    } else {
        fields
    }
}

/// The value of field `name`, which must be present.
pub open spec fn value_of(fields: Seq<(String, JsonValue)>, name: Seq<char>) -> JsonValue {
    field_value(fields, name)->Some_0
}

/// Takes the first entry with key `name` out of `fields` and hands back its value.
pub fn take_field(fields: &mut Vec<(String, JsonValue)>, name: &str) -> (r: Option<JsonValue>)
    ensures
        r == field_value(old(fields)@, name@),
        final(fields)@ == taken(old(fields)@, name@),
{
    match find_field(fields, name) {
        None => None,
        Some(i) => {
            let (_key, value) = fields.remove(i);
            Some(value)
        },
    }
}

/// Whether `e` is the error of a field that did not decode: its name, and the
/// error of its value.
pub open spec fn field_failed<T: Decode>(fields: Seq<(String, JsonValue)>, name: Seq<char>, e: DecodeError) -> bool {
    &&& e is InvalidField
    &&& e->InvalidField_field@ == name
    &&& T::rejects_with(value_of(fields, name), *e->InvalidField_cause)
}

/// Whether required field `name` decodes as a `T`.
pub open spec fn required_ok<T: Decode>(fields: Seq<(String, JsonValue)>, name: Seq<char>) -> bool {
    has_key(fields, name) && T::accepts(value_of(fields, name))
}

/// Whether `e` is the error reading required field `name` gives.
pub open spec fn required_err<T: Decode>(fields: Seq<(String, JsonValue)>, name: Seq<char>, e: DecodeError) -> bool {
    if has_key(fields, name) {
        field_failed::<T>(fields, name, e)
    } else {
        e is MissingField && e->MissingField_field@ == name
    }
}

/// Reads required field `name` as a `T`, taking it out of `fields`.
pub fn required<T: Decode>(fields: &mut Vec<(String, JsonValue)>, name: &str) -> (r: Result<T, DecodeError>)
    ensures
        r is Ok <==> required_ok::<T>(old(fields)@, name@),
        r is Ok ==> T::decodes_to(value_of(old(fields)@, name@), r->Ok_0),
        r is Err ==> required_err::<T>(old(fields)@, name@, r->Err_0),
        final(fields)@ == taken(old(fields)@, name@),
{
    match take_field(fields, name) {
        None => Err(DecodeError::MissingField { field: name.to_owned() }),
        Some(v) => match T::decode(v) {
            Ok(x) => Ok(x),
            Err(e) => Err(DecodeError::InvalidField { field: name.to_owned(), cause: Box::new(e) }),
        },
    }
}

/// Whether optional field `name` is absent, null, or decodes as a `T`.
pub open spec fn optional_ok<T: Decode>(fields: Seq<(String, JsonValue)>, name: Seq<char>) -> bool {
    is_absent(fields, name) || T::accepts(value_of(fields, name))
}

/// Whether `x` is what optional field `name` reads as.
pub open spec fn optional_value<T: Decode>(fields: Seq<(String, JsonValue)>, name: Seq<char>, x: Option<T>) -> bool {
    if is_absent(fields, name) {
        x is None
    } else {
        x is Some && T::decodes_to(value_of(fields, name), x->Some_0)
    }
}

/// Reads optional field `name` as a `T`, taking it out of `fields`: absent or null
/// gives `None`.
pub fn optional<T: Decode>(fields: &mut Vec<(String, JsonValue)>, name: &str) -> (r: Result<Option<T>, DecodeError>)
    ensures
        r is Ok <==> optional_ok::<T>(old(fields)@, name@),
        r is Ok ==> optional_value::<T>(old(fields)@, name@, r->Ok_0),
        r is Err ==> field_failed::<T>(old(fields)@, name@, r->Err_0),
        final(fields)@ == taken(old(fields)@, name@),
{
    match take_field(fields, name) {
        None => Ok(None),
        Some(JsonValue::Null) => Ok(None),
        Some(v) => match T::decode(v) {
            Ok(x) => Ok(Some(x)),
            Err(e) => Err(DecodeError::InvalidField { field: name.to_owned(), cause: Box::new(e) }),
        },
    }
}

/// Whether field `name` is absent or a string.
pub open spec fn text_ok(fields: Seq<(String, JsonValue)>, name: Seq<char>) -> bool {
    !has_key(fields, name) || value_of(fields, name) is Str
}

/// Whether `x` is what field `name` reads as, the empty string where it is absent.
pub open spec fn text_value(fields: Seq<(String, JsonValue)>, name: Seq<char>, x: String) -> bool {
    if has_key(fields, name) {
        x == value_of(fields, name)->Str_0
    } else {
        x@ == Seq::<char>::empty()
    }
}

/// Reads field `name` as a string, the empty one where the field is absent.
pub fn text_or_empty(fields: &mut Vec<(String, JsonValue)>, name: &str) -> (r: Result<String, DecodeError>)
    ensures
        r is Ok <==> text_ok(old(fields)@, name@),
        r is Ok ==> text_value(old(fields)@, name@, r->Ok_0),
        r is Err ==> field_failed::<String>(old(fields)@, name@, r->Err_0),
        final(fields)@ == taken(old(fields)@, name@),
{
    match take_field(fields, name) {
        None => Ok(String::new()),
        Some(v) => match decode_string(v) {
            Ok(s) => Ok(s),
            Err(e) => Err(DecodeError::InvalidField { field: name.to_owned(), cause: Box::new(e) }),
        },
    }
}

/// Whether field `name` is absent or decodes as a list of `T`.
pub open spec fn list_ok<T: Decode>(fields: Seq<(String, JsonValue)>, name: Seq<char>) -> bool {
    !has_key(fields, name) || <Vec<T> as Decode>::accepts(value_of(fields, name))
}

/// Whether `x` is what field `name` reads as, the empty list where it is absent.
pub open spec fn list_value<T: Decode>(fields: Seq<(String, JsonValue)>, name: Seq<char>, x: Vec<T>) -> bool {
    if has_key(fields, name) {
        <Vec<T> as Decode>::decodes_to(value_of(fields, name), x)
    } else {
        x@.len() == 0
    }
}

/// Reads field `name` as a list of `T`, the empty one where the field is absent.
pub fn list_or_empty<T: Decode>(fields: &mut Vec<(String, JsonValue)>, name: &str) -> (r: Result<Vec<T>, DecodeError>)
    ensures
        r is Ok <==> list_ok::<T>(old(fields)@, name@),
        r is Ok ==> list_value::<T>(old(fields)@, name@, r->Ok_0),
        r is Err ==> field_failed::<Vec<T>>(old(fields)@, name@, r->Err_0),
        final(fields)@ == taken(old(fields)@, name@),
{
    match take_field(fields, name) {
        None => Ok(Vec::new()),
        Some(v) => match decode_list(v) {
            Ok(x) => Ok(x),
            Err(e) => Err(DecodeError::InvalidField { field: name.to_owned(), cause: Box::new(e) }),
        },
    }
}

/// Whether field `name` reads as a map that may also come as an empty list.
pub open spec fn map_ok<T: Decode>(fields: Seq<(String, JsonValue)>, name: Seq<char>) -> bool {
    is_absent(fields, name) || match value_of(fields, name) {
        JsonValue::Array(items) => items@.len() == 0,
        other => <StringMap<T> as Decode>::accepts(other),
    }
}

/// Whether `x` is what field `name` reads as: nothing where it is absent or null, the
/// empty map for `[]`, else the map its object decodes to.
pub open spec fn map_value<T: Decode>(fields: Seq<(String, JsonValue)>, name: Seq<char>, x: Option<StringMap<T>>) -> bool {
    if is_absent(fields, name) {
        x is None
    } else {
        x is Some && match value_of(fields, name) {
            JsonValue::Array(_) => x->Some_0.entries@.len() == 0,
            other => <StringMap<T> as Decode>::decodes_to(other, x->Some_0),
        }
    }
}

/// Whether `e` is the error reading field `name` as a map gives.
pub open spec fn map_err<T: Decode>(fields: Seq<(String, JsonValue)>, name: Seq<char>, e: DecodeError) -> bool {
    &&& e is InvalidField
    &&& e->InvalidField_field@ == name
    &&& match value_of(fields, name) {
        JsonValue::Array(_) => *e->InvalidField_cause == DecodeError::NonEmptyArray,
        other => <StringMap<T> as Decode>::rejects_with(other, *e->InvalidField_cause),
    }
}

/// Reads field `name` as a map that the wire may also send as an empty list: absent
/// or null gives `None`, `[]` the empty map, and a list with elements is refused.
pub fn map_or_empty_list<T: Decode>(fields: &mut Vec<(String, JsonValue)>, name: &str) -> (r: Result<
    Option<StringMap<T>>,
    DecodeError,
>)
    ensures
        r is Ok <==> map_ok::<T>(old(fields)@, name@),
        r is Ok ==> map_value::<T>(old(fields)@, name@, r->Ok_0),
        r is Err ==> map_err::<T>(old(fields)@, name@, r->Err_0),
        final(fields)@ == taken(old(fields)@, name@),
{
    match take_field(fields, name) {
        None => Ok(None),
        Some(JsonValue::Null) => Ok(None),
        Some(JsonValue::Array(items)) => {
            if items.len() == 0 {
                Ok(Some(StringMap { entries: Vec::new() }))
            } else {
                Err(
                    DecodeError::InvalidField {
                        field: name.to_owned(),
                        cause: Box::new(DecodeError::NonEmptyArray),
                    },
                )
            }
        },
        Some(v) => match decode_map(v) {
            Ok(m) => Ok(Some(m)),
            Err(e) => Err(DecodeError::InvalidField { field: name.to_owned(), cause: Box::new(e) }),
        },
    }
}

} // verus!
