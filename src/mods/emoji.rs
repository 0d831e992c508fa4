use crate::json::{field_failed, optional_ok, optional_value, required_err, required_ok, taken, value_of, into_fields, optional, required, Decode, DecodeError, JsonValue, StringMap};
use vstd::prelude::*;

verus! {

#[derive(Clone, Debug, PartialEq)]
pub struct ListResponse {
    ok: bool,
    pub emoji: Option<StringMap<String>>,
}

impl ListResponse {
    /// Whether `v` decodes as the record: an object whose fields read in order.
    #[verifier::opaque]
    pub open spec fn spec_accepts(v: JsonValue) -> bool {
        match v {
            JsonValue::Object(w) => {
                let left0 = w@;
                let left1 = taken(left0, "ok"@);
                &&& required_ok::<bool>(left0, "ok"@)
                &&& optional_ok::<StringMap<String>>(left1, "emoji"@)
            },
            _ => false,
        }
    }

    /// Whether `x` holds what the fields of `v` read as.
    #[verifier::opaque]
    pub closed spec fn spec_decodes_to(v: JsonValue, x: ListResponse) -> bool {
        match v {
            JsonValue::Object(w) => {
                let left0 = w@;
                let left1 = taken(left0, "ok"@);
                &&& <bool as Decode>::decodes_to(value_of(left0, "ok"@), x.ok)
                &&& optional_value::<StringMap<String>>(left1, "emoji"@, x.emoji)
            },
            _ => false,
        }
    }

    /// Whether `e` is the error of the first check or field that fails on `v`.
    #[verifier::opaque]
    pub open spec fn spec_rejects_with(v: JsonValue, e: DecodeError) -> bool {
        match v {
            JsonValue::Object(w) => {
                let left0 = w@;
                let left1 = taken(left0, "ok"@);
                if !required_ok::<bool>(left0, "ok"@) {
                    required_err::<bool>(left0, "ok"@, e)
                } else if !optional_ok::<StringMap<String>>(left1, "emoji"@) {
                    field_failed::<StringMap<String>>(left1, "emoji"@, e)
                } else {
                    false
                }
            },
            _ => e == (DecodeError::WrongType { expected: "object" }),
        }
    }
}

impl Decode for ListResponse {
    open spec fn accepts(v: JsonValue) -> bool {
        ListResponse::spec_accepts(v)
    }

    open spec fn decodes_to(v: JsonValue, x: ListResponse) -> bool {
        ListResponse::spec_decodes_to(v, x)
    }

    open spec fn rejects_with(v: JsonValue, e: DecodeError) -> bool {
        ListResponse::spec_rejects_with(v, e)
    }

    fn decode(v: JsonValue) -> Result<ListResponse, DecodeError> {
        proof {
            reveal(ListResponse::spec_accepts);
            reveal(ListResponse::spec_decodes_to);
            reveal(ListResponse::spec_rejects_with);
        }
        let mut wire = into_fields(v)?;
        let ok: bool = required(&mut wire, "ok")?;
        let emoji: Option<StringMap<String>> = optional(&mut wire, "emoji")?;
        Ok(ListResponse { ok, emoji })
    }
}

} // verus!
