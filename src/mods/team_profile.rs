use crate::json::{all_known, check_fields, field_failed, first_unknown_key, optional_ok, optional_value, required_err, required_ok, taken, value_of, into_fields, optional, required, Decode, DecodeError, JsonValue, StringMap};
use vstd::prelude::*;

verus! {

#[derive(Clone, Debug, PartialEq)]
pub struct GetRequest<'a> {
    /// Filter by visibility.
    pub visibility: Option<&'a str>,
}

#[derive(Clone, Debug, PartialEq)]
pub struct GetResponse {
    ok: bool,
    pub profile: Option<GetResponseProfile>,
}

impl GetResponse {
    /// The fields the record declares; it admits no others.
    pub open spec fn declared_fields() -> Seq<&'static str> {
        seq!["ok", "profile"]
    }
}

impl GetResponse {
    /// Whether `v` decodes as the record: an object whose fields read in order.
    #[verifier::opaque]
    pub open spec fn spec_accepts(v: JsonValue) -> bool {
        match v {
            JsonValue::Object(w) => {
                let left0 = w@;
                let left1 = taken(left0, "ok"@);
                &&& all_known(left0, GetResponse::declared_fields())
                &&& required_ok::<bool>(left0, "ok"@)
                &&& optional_ok::<GetResponseProfile>(left1, "profile"@)
            },
            _ => false,
        }
    }

    /// Whether `x` holds what the fields of `v` read as.
    #[verifier::opaque]
    pub closed spec fn spec_decodes_to(v: JsonValue, x: GetResponse) -> bool {
        match v {
            JsonValue::Object(w) => {
                let left0 = w@;
                let left1 = taken(left0, "ok"@);
                &&& <bool as Decode>::decodes_to(value_of(left0, "ok"@), x.ok)
                &&& optional_value::<GetResponseProfile>(left1, "profile"@, x.profile)
            },
            _ => false,
        }
    }

    /// Whether `e` is the error of the first check or field that fails on `v`.
    #[verifier::opaque]
    pub open spec fn spec_rejects_with(v: JsonValue, e: DecodeError) -> bool {
        match v {
            JsonValue::Object(w) => {
                let left0 = w@;
                let left1 = taken(left0, "ok"@);
                if !all_known(left0, GetResponse::declared_fields()) {
                    e == (DecodeError::UnknownField { field: first_unknown_key(left0, GetResponse::declared_fields()) })
                } else if !required_ok::<bool>(left0, "ok"@) {
                    required_err::<bool>(left0, "ok"@, e)
                } else if !optional_ok::<GetResponseProfile>(left1, "profile"@) {
                    field_failed::<GetResponseProfile>(left1, "profile"@, e)
                } else {
                    false
                }
            },
            _ => e == (DecodeError::WrongType { expected: "object" }),
        }
    }
}

impl Decode for GetResponse {
    open spec fn accepts(v: JsonValue) -> bool {
        GetResponse::spec_accepts(v)
    }

    open spec fn decodes_to(v: JsonValue, x: GetResponse) -> bool {
        GetResponse::spec_decodes_to(v, x)
    }

    open spec fn rejects_with(v: JsonValue, e: DecodeError) -> bool {
        GetResponse::spec_rejects_with(v, e)
    }

    fn decode(v: JsonValue) -> Result<GetResponse, DecodeError> {
        proof {
            reveal(GetResponse::spec_accepts);
            reveal(GetResponse::spec_decodes_to);
            reveal(GetResponse::spec_rejects_with);
        }
        let mut wire = into_fields(v)?;
        let known: &[&str] = &["ok", "profile"];
        assert(known@ =~= GetResponse::declared_fields());
        check_fields(&wire, known)?;
        let ok: bool = required(&mut wire, "ok")?;
        let profile: Option<GetResponseProfile> = optional(&mut wire, "profile")?;
        Ok(GetResponse { ok, profile })
    }
}

#[derive(Clone, Debug, PartialEq)]
pub struct GetResponseProfile {
    pub fields: Option<Vec<GetResponseProfileField>>,
}

impl GetResponseProfile {
    /// The fields the record declares; it admits no others.
    pub open spec fn declared_fields() -> Seq<&'static str> {
        seq!["fields"]
    }
}

impl GetResponseProfile {
    /// Whether `v` decodes as the record: an object whose fields read in order.
    #[verifier::opaque]
    pub open spec fn spec_accepts(v: JsonValue) -> bool {
        match v {
            JsonValue::Object(w) => {
                let left0 = w@;
                &&& all_known(left0, GetResponseProfile::declared_fields())
                &&& optional_ok::<Vec<GetResponseProfileField>>(left0, "fields"@)
            },
            _ => false,
        }
    }

    /// Whether `x` holds what the fields of `v` read as.
    #[verifier::opaque]
    pub open spec fn spec_decodes_to(v: JsonValue, x: GetResponseProfile) -> bool {
        match v {
            JsonValue::Object(w) => {
                let left0 = w@;
                &&& optional_value::<Vec<GetResponseProfileField>>(left0, "fields"@, x.fields)
            },
            _ => false,
        }
    }

    /// Whether `e` is the error of the first check or field that fails on `v`.
    #[verifier::opaque]
    pub open spec fn spec_rejects_with(v: JsonValue, e: DecodeError) -> bool {
        match v {
            JsonValue::Object(w) => {
                let left0 = w@;
                if !all_known(left0, GetResponseProfile::declared_fields()) {
                    e == (DecodeError::UnknownField { field: first_unknown_key(left0, GetResponseProfile::declared_fields()) })
                } else if !optional_ok::<Vec<GetResponseProfileField>>(left0, "fields"@) {
                    field_failed::<Vec<GetResponseProfileField>>(left0, "fields"@, e)
                } else {
                    false
                }
            },
            _ => e == (DecodeError::WrongType { expected: "object" }),
        }
    }
}

impl Decode for GetResponseProfile {
    open spec fn accepts(v: JsonValue) -> bool {
        GetResponseProfile::spec_accepts(v)
    }

    open spec fn decodes_to(v: JsonValue, x: GetResponseProfile) -> bool {
        GetResponseProfile::spec_decodes_to(v, x)
    }

    open spec fn rejects_with(v: JsonValue, e: DecodeError) -> bool {
        GetResponseProfile::spec_rejects_with(v, e)
    }

    fn decode(v: JsonValue) -> Result<GetResponseProfile, DecodeError> {
        proof {
            reveal(GetResponseProfile::spec_accepts);
            reveal(GetResponseProfile::spec_decodes_to);
            reveal(GetResponseProfile::spec_rejects_with);
        }
        let mut wire = into_fields(v)?;
        let known: &[&str] = &["fields"];
        assert(known@ =~= GetResponseProfile::declared_fields());
        check_fields(&wire, known)?;
        let fields: Option<Vec<GetResponseProfileField>> = optional(&mut wire, "fields")?;
        Ok(GetResponseProfile { fields })
    }
}

#[derive(Clone, Debug, PartialEq)]
pub struct GetResponseProfileField {
    pub hint: Option<String>,
    pub id: Option<String>,
    pub is_hidden: Option<bool>,
    pub label: Option<String>,
    pub options: Option<StringMap<String>>,
    pub ordering: Option<i32>,
    pub possible_values: Option<Vec<String>>,
    pub ty: Option<String>,
}

impl GetResponseProfileField {
    /// The fields the record declares; it admits no others.
    pub open spec fn declared_fields() -> Seq<&'static str> {
        seq!["hint", "id", "is_hidden", "label", "options", "ordering", "possible_values", "type"]
    }
}

impl GetResponseProfileField {
    /// Whether `v` decodes as the record: an object whose fields read in order.
    #[verifier::opaque]
    pub open spec fn spec_accepts(v: JsonValue) -> bool {
        match v {
            JsonValue::Object(w) => {
                let left0 = w@;
                let left1 = taken(left0, "hint"@);
                let left2 = taken(left1, "id"@);
                let left3 = taken(left2, "is_hidden"@);
                let left4 = taken(left3, "label"@);
                let left5 = taken(left4, "options"@);
                let left6 = taken(left5, "ordering"@);
                let left7 = taken(left6, "possible_values"@);
                &&& all_known(left0, GetResponseProfileField::declared_fields())
                &&& optional_ok::<String>(left0, "hint"@)
                &&& optional_ok::<String>(left1, "id"@)
                &&& optional_ok::<bool>(left2, "is_hidden"@)
                &&& optional_ok::<String>(left3, "label"@)
                &&& optional_ok::<StringMap<String>>(left4, "options"@)
                &&& optional_ok::<i32>(left5, "ordering"@)
                &&& optional_ok::<Vec<String>>(left6, "possible_values"@)
                &&& optional_ok::<String>(left7, "type"@)
            },
            _ => false,
        }
    }

    /// Whether `x` holds what the fields of `v` read as.
    #[verifier::opaque]
    pub open spec fn spec_decodes_to(v: JsonValue, x: GetResponseProfileField) -> bool {
        match v {
            JsonValue::Object(w) => {
                let left0 = w@;
                let left1 = taken(left0, "hint"@);
                let left2 = taken(left1, "id"@);
                let left3 = taken(left2, "is_hidden"@);
                let left4 = taken(left3, "label"@);
                let left5 = taken(left4, "options"@);
                let left6 = taken(left5, "ordering"@);
                let left7 = taken(left6, "possible_values"@);
                &&& optional_value::<String>(left0, "hint"@, x.hint)
                &&& optional_value::<String>(left1, "id"@, x.id)
                &&& optional_value::<bool>(left2, "is_hidden"@, x.is_hidden)
                &&& optional_value::<String>(left3, "label"@, x.label)
                &&& optional_value::<StringMap<String>>(left4, "options"@, x.options)
                &&& optional_value::<i32>(left5, "ordering"@, x.ordering)
                &&& optional_value::<Vec<String>>(left6, "possible_values"@, x.possible_values)
                &&& optional_value::<String>(left7, "type"@, x.ty)
            },
            _ => false,
        }
    }

    /// Whether `e` is the error of the first check or field that fails on `v`.
    #[verifier::opaque]
    pub open spec fn spec_rejects_with(v: JsonValue, e: DecodeError) -> bool {
        match v {
            JsonValue::Object(w) => {
                let left0 = w@;
                let left1 = taken(left0, "hint"@);
                let left2 = taken(left1, "id"@);
                let left3 = taken(left2, "is_hidden"@);
                let left4 = taken(left3, "label"@);
                let left5 = taken(left4, "options"@);
                let left6 = taken(left5, "ordering"@);
                let left7 = taken(left6, "possible_values"@);
                if !all_known(left0, GetResponseProfileField::declared_fields()) {
                    e == (DecodeError::UnknownField { field: first_unknown_key(left0, GetResponseProfileField::declared_fields()) })
                } else if !optional_ok::<String>(left0, "hint"@) {
                    field_failed::<String>(left0, "hint"@, e)
                } else if !optional_ok::<String>(left1, "id"@) {
                    field_failed::<String>(left1, "id"@, e)
                } else if !optional_ok::<bool>(left2, "is_hidden"@) {
                    field_failed::<bool>(left2, "is_hidden"@, e)
                } else if !optional_ok::<String>(left3, "label"@) {
                    field_failed::<String>(left3, "label"@, e)
                } else if !optional_ok::<StringMap<String>>(left4, "options"@) {
                    field_failed::<StringMap<String>>(left4, "options"@, e)
                } else if !optional_ok::<i32>(left5, "ordering"@) {
                    field_failed::<i32>(left5, "ordering"@, e)
                } else if !optional_ok::<Vec<String>>(left6, "possible_values"@) {
                    field_failed::<Vec<String>>(left6, "possible_values"@, e)
                } else if !optional_ok::<String>(left7, "type"@) {
                    field_failed::<String>(left7, "type"@, e)
                } else {
                    false
                }
            },
            _ => e == (DecodeError::WrongType { expected: "object" }),
        }
    }
}

impl Decode for GetResponseProfileField {
    open spec fn accepts(v: JsonValue) -> bool {
        GetResponseProfileField::spec_accepts(v)
    }

    open spec fn decodes_to(v: JsonValue, x: GetResponseProfileField) -> bool {
        GetResponseProfileField::spec_decodes_to(v, x)
    }

    open spec fn rejects_with(v: JsonValue, e: DecodeError) -> bool {
        GetResponseProfileField::spec_rejects_with(v, e)
    }

    fn decode(v: JsonValue) -> Result<GetResponseProfileField, DecodeError> {
        proof {
            reveal(GetResponseProfileField::spec_accepts);
            reveal(GetResponseProfileField::spec_decodes_to);
            reveal(GetResponseProfileField::spec_rejects_with);
        }
        let mut wire = into_fields(v)?;
        let known: &[&str] = &["hint", "id", "is_hidden", "label", "options", "ordering", "possible_values", "type"];
        assert(known@ =~= GetResponseProfileField::declared_fields());
        check_fields(&wire, known)?;
        let hint: Option<String> = optional(&mut wire, "hint")?;
        let id: Option<String> = optional(&mut wire, "id")?;
        let is_hidden: Option<bool> = optional(&mut wire, "is_hidden")?;
        let label: Option<String> = optional(&mut wire, "label")?;
        let options: Option<StringMap<String>> = optional(&mut wire, "options")?;
        let ordering: Option<i32> = optional(&mut wire, "ordering")?;
        let possible_values: Option<Vec<String>> = optional(&mut wire, "possible_values")?;
        let ty: Option<String> = optional(&mut wire, "type")?;
        Ok(GetResponseProfileField { hint, id, is_hidden, label, options, ordering, possible_values, ty })
    }
}

} // verus!
