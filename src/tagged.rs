//! Tagged-union dispatch: a tag field inside an object picks which variant's record
//! the object decodes as. Dispatch happens before the variant's own field checks.

use crate::json::{field_value, find_field, key_position, same_text, DecodeError, JsonValue, TaggedUnionError};
use vstd::prelude::*;

verus! {

/// How a union finds its variant.
#[derive(Clone, Copy, Debug, PartialEq, Eq)]
pub enum TaggedPolicy {
    /// The tag must name a variant; it is taken out of the object before the
    /// variant's record is decoded.
    RequiredTag,
    /// Variant `default` is taken when the tag is absent (or null); the object is
    /// handed on whole, tag included.
    DefaultVariant(usize),
}

/// The variant a value selects and the value its record decodes from.
#[derive(Debug, PartialEq)]
pub struct Dispatch {
    pub variant: usize,
    pub payload: JsonValue,
}

/// What the tag of a value selects.
pub enum Selection {
    Variant(usize),
    MissingTag,
    Unknown,
}

/// The tag's value, where the value is an object that has the tag field.
pub open spec fn tag_value(value: JsonValue, tag: Seq<char>) -> Option<JsonValue> {
    match value {
        JsonValue::Object(fields) => field_value(fields@, tag),
        _ => None,
    }
}

/// Whether `names[i]` is the first name equal to `s`.
pub open spec fn is_name_at(names: Seq<&str>, s: Seq<char>, i: int) -> bool {
    &&& 0 <= i < names.len()
    &&& names[i]@ == s
    &&& forall|j: int| 0 <= j < i ==> names[j]@ != s
}

/// The position of the first name equal to `s`, if any.
pub open spec fn name_position(names: Seq<&str>, s: Seq<char>) -> Option<int> {
    if exists|i: int| is_name_at(names, s, i) {
        Some(choose|i: int| is_name_at(names, s, i))
    } else {
        None
    }
}

/// What a tag value selects: a string naming a variant selects it, anything else
/// is unknown.
pub open spec fn select_by_name(names: Seq<&str>, t: JsonValue) -> Selection {
    match t {
        JsonValue::Str(s) => match name_position(names, s@) {
            Some(i) => Selection::Variant(i as usize),
            None => Selection::Unknown,
        },
        _ => Selection::Unknown,
    }
}

/// What `value` selects among `names` under `policy`, reading tag field `tag`.
pub open spec fn selection(value: JsonValue, tag: Seq<char>, names: Seq<&str>, policy: TaggedPolicy) -> Selection {
    match policy {
        TaggedPolicy::RequiredTag => match tag_value(value, tag) {
            None => Selection::MissingTag,
            Some(t) => select_by_name(names, t),
        },
        TaggedPolicy::DefaultVariant(d) => match tag_value(value, tag) {
            None => Selection::Variant(d),
            Some(JsonValue::Null) => Selection::Variant(d),
            Some(t) => select_by_name(names, t),
        },
    }
}

/// Whether `known` holds exactly the texts of `names`, in order.
pub open spec fn lists_names(known: Seq<String>, names: Seq<&str>) -> bool {
    &&& known.len() == names.len()
    &&& forall|i: int| 0 <= i < names.len() ==> #[trigger] known[i]@ == names[i]@
}

/// Whether `payload` is what the selected variant decodes from: under the required-tag
/// policy the object without its tag entry, else the value itself.
pub open spec fn is_payload(value: JsonValue, tag: Seq<char>, policy: TaggedPolicy, payload: JsonValue) -> bool {
    match policy {
        TaggedPolicy::RequiredTag => {
            &&& value is Object
            &&& payload is Object
            &&& payload->Object_0@ == value->Object_0@.remove(key_position(value->Object_0@, tag))
        },
        TaggedPolicy::DefaultVariant(_) => payload == value,
    }
}

/// Whether a policy fits a list of variant names.
pub open spec fn policy_fits(policy: TaggedPolicy, n: int) -> bool {
    match policy {
        TaggedPolicy::DefaultVariant(d) => d < n,
        TaggedPolicy::RequiredTag => true,
    }
}

/// Whether `r` is the outcome of dispatching `value`: the selected variant with its
/// payload, or the error that tells why none was selected.
pub open spec fn is_dispatch_result(
    value: JsonValue,
    enum_name: Seq<char>,
    tag: Seq<char>,
    names: Seq<&str>,
    policy: TaggedPolicy,
    r: Result<Dispatch, TaggedUnionError>,
) -> bool {
    match selection(value, tag, names, policy) {
        Selection::Variant(i) => r is Ok && r->Ok_0.variant == i && is_payload(value, tag, policy, r->Ok_0.payload),
        Selection::MissingTag => r is Err && r->Err_0 is MissingTag && r->Err_0->enum_name@ == enum_name,
        Selection::Unknown => r is Err && r->Err_0 is UnknownVariant
            && tag_value(value, tag) == Some(r->Err_0->tag_value)
            && lists_names(r->Err_0->known_variants@, names),
    }
}

/// Whether two values are equal, or are objects with the same entries.
pub open spec fn same_value(a: JsonValue, b: JsonValue) -> bool {
    a == b || (a is Object && b is Object && a->Object_0@ == b->Object_0@)
}

/// Dispatching the same value twice gives the same outcome: the same variant with the
/// same payload, or the same error with the same details.
pub proof fn lemma_dispatch_idempotent(
    value: JsonValue,
    enum_name: Seq<char>,
    tag: Seq<char>,
    names: Seq<&str>,
    policy: TaggedPolicy,
    r1: Result<Dispatch, TaggedUnionError>,
    r2: Result<Dispatch, TaggedUnionError>,
)
    requires
        is_dispatch_result(value, enum_name, tag, names, policy, r1),
        is_dispatch_result(value, enum_name, tag, names, policy, r2),
    ensures
        r1 is Ok <==> r2 is Ok,
        r1 is Ok ==> r1->Ok_0.variant == r2->Ok_0.variant
            && same_value(r1->Ok_0.payload, r2->Ok_0.payload),
        r1 is Err ==> {
            let (e1, e2) = (r1->Err_0, r2->Err_0);
            &&& e1 is MissingTag <==> e2 is MissingTag
            &&& e1 is UnknownVariant <==> e2 is UnknownVariant
            &&& e1 is MissingTag ==> e1->enum_name@ == e2->enum_name@
            &&& e1 is UnknownVariant ==> e1->tag_value == e2->tag_value
                && e1->known_variants@.len() == e2->known_variants@.len()
                && forall|i: int| 0 <= i < e1->known_variants@.len()
                    ==> #[trigger] e1->known_variants@[i]@ == e2->known_variants@[i]@
        },
{
    if r1 is Err && r1->Err_0 is UnknownVariant {
        let (k1, k2) = (r1->Err_0->known_variants@, r2->Err_0->known_variants@);
        assert forall|i: int| 0 <= i < k1.len() implies #[trigger] k1[i]@ == k2[i]@ by {
            assert(k1[i]@ == names[i]@);
            assert(k2[i]@ == names[i]@);
        }
    }
}

/// Decoding the same value twice under a default-variant policy gives the same outcome:
/// both succeed or both fail, with the same variant, and each result is what that
/// variant's record makes of the value.
pub proof fn lemma_union_decode_idempotent<T: VariantRecords>(
    value: JsonValue,
    enum_name: Seq<char>,
    tag: Seq<char>,
    names: Seq<&str>,
    d: usize,
    r1: Result<T, TaggedUnionError>,
    r2: Result<T, TaggedUnionError>,
)
    requires
        is_union_result(value, enum_name, tag, names, TaggedPolicy::DefaultVariant(d), r1),
        is_union_result(value, enum_name, tag, names, TaggedPolicy::DefaultVariant(d), r2),
    ensures
        r1 is Ok <==> r2 is Ok,
        r1 is Ok ==> r1->Ok_0.variant_of() == r2->Ok_0.variant_of()
            && T::record_decodes_to(r1->Ok_0.variant_of(), value, r1->Ok_0)
            && T::record_decodes_to(r1->Ok_0.variant_of(), value, r2->Ok_0),
        r1 is Err ==> (r1->Err_0 is VariantDecodeFailed <==> r2->Err_0 is VariantDecodeFailed),
        r1 is Err && r1->Err_0 is VariantDecodeFailed ==> r1->Err_0->variant_name@ == r2->Err_0->variant_name@,
{
    match selection(value, tag, names, TaggedPolicy::DefaultVariant(d)) {
        Selection::Variant(i) => {
            let p1 = choose|p: JsonValue| is_payload(value, tag, TaggedPolicy::DefaultVariant(d), p)
                && is_variant_result(i, p, names, r1);
            let p2 = choose|p: JsonValue| is_payload(value, tag, TaggedPolicy::DefaultVariant(d), p)
                && is_variant_result(i, p, names, r2);
            assert(p1 == value && p2 == value);
        },
        _ => {},
    }
}

/// The position of the first name equal to `s`.
pub fn find_name(names: &[&str], s: &str) -> (r: Option<usize>)
    ensures
        match name_position(names@, s@) {
            Some(i) => r == Some(i as usize),
            None => r is None,
        },
{
    let mut i: usize = 0;
    while i < names.len()
        invariant
            i <= names@.len(),
            forall|j: int| 0 <= j < i ==> names@[j]@ != s@,
        decreases names@.len() - i,
    {
        if same_text(names[i], s) {
            proof {
                assert(is_name_at(names@, s@, i as int));
                let k = choose|k: int| is_name_at(names@, s@, k);
                if k < i {
                    assert(names@[k]@ != s@);
                } else if k > i {
                    assert(names@[i as int]@ != s@);
                }
            }
            return Some(i);
        }
        i = i + 1;
    }
    proof {
        if exists|k: int| is_name_at(names@, s@, k) {
            let k = choose|k: int| is_name_at(names@, s@, k);
            assert(names@[k]@ != s@);
        }
    }
    None
}

/// The texts of `names`, as owned strings.
pub fn name_list(names: &[&str]) -> (r: Vec<String>)
    ensures
        lists_names(r@, names@),
{
    let mut out: Vec<String> = Vec::new();
    let mut i: usize = 0;
    while i < names.len()
        invariant
            i <= names@.len(),
            out@.len() == i,
            forall|j: int| 0 <= j < i ==> #[trigger] out@[j]@ == names@[j]@,
        decreases names@.len() - i,
    {
        out.push(names[i].to_owned());
        i = i + 1;
    }
    out
}

/// Finds the variant that `value` selects among `names`, reading tag field `tag_field`
/// under `policy`, and hands back what that variant's record decodes from.
pub fn dispatch_tagged(
    value: JsonValue,
    enum_name: &str,
    tag_field: &str,
    names: &[&str],
    policy: TaggedPolicy,
) -> (r: Result<Dispatch, TaggedUnionError>)
    requires
        policy_fits(policy, names@.len() as int),
    ensures
        is_dispatch_result(value, enum_name@, tag_field@, names@, policy, r),
{
    match value {
        JsonValue::Object(mut fields) => {
            match find_field(&fields, tag_field) {
                None => match policy {
                    TaggedPolicy::RequiredTag => Err(
                        TaggedUnionError::MissingTag { enum_name: enum_name.to_owned() },
                    ),
                    TaggedPolicy::DefaultVariant(d) => Ok(
                        Dispatch { variant: d, payload: JsonValue::Object(fields) },
                    ),
                },
                Some(p) => {
                    let chosen: Option<usize> = match &fields[p].1 {
                        JsonValue::Str(s) => find_name(names, s.as_str()),
                        JsonValue::Null => match policy {
                            TaggedPolicy::DefaultVariant(d) => Some(d),
                            TaggedPolicy::RequiredTag => None,
                        },
                        _ => None,
                    };
                    match chosen {
                        Some(i) => match policy {
                            TaggedPolicy::RequiredTag => {
                                let _tag = fields.remove(p);
                                Ok(Dispatch { variant: i, payload: JsonValue::Object(fields) })
                            },
                            TaggedPolicy::DefaultVariant(_) => Ok(
                                Dispatch { variant: i, payload: JsonValue::Object(fields) },
                            ),
                        },
                        None => {
                            let (_key, t) = fields.remove(p);
                            Err(
                                TaggedUnionError::UnknownVariant {
                                    tag_value: t,
                                    known_variants: name_list(names),
                                },
                            )
                        },
                    }
                },
            }
        },
        other => match policy {
            TaggedPolicy::RequiredTag => Err(
                TaggedUnionError::MissingTag { enum_name: enum_name.to_owned() },
            ),
            TaggedPolicy::DefaultVariant(d) => Ok(Dispatch { variant: d, payload: other }),
        },
    }
}

/// Whether `r` is what variant `i`'s record gives from `payload`: the variant's value
/// exactly when the record decodes, else the record's own error under the variant's name.
pub open spec fn is_variant_result<T: VariantRecords>(
    i: usize,
    payload: JsonValue,
    names: Seq<&str>,
    r: Result<T, TaggedUnionError>,
) -> bool {
    &&& r is Ok <==> T::record_accepts(i, payload)
    &&& r is Ok ==> r->Ok_0.variant_of() == i && T::record_decodes_to(i, payload, r->Ok_0)
    &&& r is Err ==> r->Err_0 is VariantDecodeFailed && r->Err_0->variant_name@ == names[i as int]@
        && T::record_rejects_with(i, payload, *r->Err_0->inner_error)
}

/// Whether `r` is the outcome of decoding `value` as a union: the selected variant's
/// record decoded from its payload, or the error that tells why no variant was selected.
pub open spec fn is_union_result<T: VariantRecords>(
    value: JsonValue,
    enum_name: Seq<char>,
    tag: Seq<char>,
    names: Seq<&str>,
    policy: TaggedPolicy,
    r: Result<T, TaggedUnionError>,
) -> bool {
    match selection(value, tag, names, policy) {
        Selection::Variant(i) => exists|p: JsonValue|
            #[trigger] is_payload(value, tag, policy, p) && is_variant_result(i, p, names, r),
        Selection::MissingTag => r is Err && r->Err_0 is MissingTag && r->Err_0->enum_name@ == enum_name,
        Selection::Unknown => r is Err && r->Err_0 is UnknownVariant
            && tag_value(value, tag) == Some(r->Err_0->tag_value)
            && lists_names(r->Err_0->known_variants@, names),
    }
}

/// A closed union whose variants each decode from a record. The spec functions say,
/// for each variant position, when its record decodes, to what, and how it fails.
pub trait VariantRecords: Sized {
    spec fn record_accepts(variant: usize, payload: JsonValue) -> bool;

    spec fn record_decodes_to(variant: usize, payload: JsonValue, x: Self) -> bool;

    spec fn record_rejects_with(variant: usize, payload: JsonValue, e: DecodeError) -> bool;

    /// The position of the value's variant in the union's list of variant names.
    spec fn variant_of(&self) -> usize;

    /// Decodes the record of variant `variant` from `payload`.
    fn decode_variant(variant: usize, payload: JsonValue) -> (r: Result<Self, DecodeError>)
        ensures
            r is Ok <==> Self::record_accepts(variant, payload),
            r is Ok ==> r->Ok_0.variant_of() == variant && Self::record_decodes_to(variant, payload, r->Ok_0),
            r is Err ==> Self::record_rejects_with(variant, payload, r->Err_0),
    ;
}

/// Decodes `value` as the union `T`: dispatch on the tag first, then decode the
/// selected variant's record. A record that fails is reported under its variant's
/// name, apart from a tag that names no variant.
pub fn decode_tagged_union<T: VariantRecords>(
    value: JsonValue,
    enum_name: &str,
    tag_field: &str,
    names: &[&str],
    policy: TaggedPolicy,
) -> (r: Result<T, TaggedUnionError>)
    requires
        policy_fits(policy, names@.len() as int),
    ensures
        is_union_result(value, enum_name@, tag_field@, names@, policy, r),
{
    let d = match dispatch_tagged(value, enum_name, tag_field, names, policy) {
        Ok(d) => d,
        Err(e) => return Err(e),
    };
    let i = d.variant;
    let ghost payload = d.payload;
    let r = match T::decode_variant(i, d.payload) {
        Ok(t) => Ok(t),
        Err(e) => Err(
            TaggedUnionError::VariantDecodeFailed {
                variant_name: names[i].to_owned(),
                inner_error: Box::new(e),
            },
        ),
    };
    assert(is_payload(value, tag_field@, policy, payload) && is_variant_result(i, payload, names@, r));
    r
}

} // verus!
