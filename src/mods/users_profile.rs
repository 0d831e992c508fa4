use crate::id::{UserId};
use crate::json::{all_known, check_fields, field_failed, first_unknown_key, optional_ok, optional_value, required_err, required_ok, taken, value_of, into_fields, optional, required, Decode, DecodeError, JsonValue};
use crate::types::{UserProfile};
use vstd::prelude::*;

verus! {

#[derive(Clone, Debug, PartialEq)]
pub struct GetRequest {
    /// User to retrieve profile info for
    pub user: Option<UserId>,
    /// Include labels for each ID in custom profile fields
    pub include_labels: Option<bool>,
}

#[derive(Clone, Debug, PartialEq)]
pub struct GetResponse {
    ok: bool,
    pub profile: Option<UserProfile>,
}

impl GetResponse {
    /// The fields the record declares; it admits no others.
    pub open spec fn declared_fields() -> Seq<&'static str> {
        seq!["ok", "profile"]
    }
}

impl GetResponse {
    /// Whether `v` decodes as the record: an object whose fields read in order.
    #[verifier::opaque]
    pub open spec fn spec_accepts(v: JsonValue) -> bool {
        match v {
            JsonValue::Object(w) => {
                let left0 = w@;
                let left1 = taken(left0, "ok"@);
                &&& all_known(left0, GetResponse::declared_fields())
                &&& required_ok::<bool>(left0, "ok"@)
                &&& optional_ok::<UserProfile>(left1, "profile"@)
            },
            _ => false,
        }
    }

    /// Whether `x` holds what the fields of `v` read as.
    #[verifier::opaque]
    pub closed spec fn spec_decodes_to(v: JsonValue, x: GetResponse) -> bool {
        match v {
            JsonValue::Object(w) => {
                let left0 = w@;
                let left1 = taken(left0, "ok"@);
                &&& <bool as Decode>::decodes_to(value_of(left0, "ok"@), x.ok)
                &&& optional_value::<UserProfile>(left1, "profile"@, x.profile)
            },
            _ => false,
        }
    }

    /// Whether `e` is the error of the first check or field that fails on `v`.
    #[verifier::opaque]
    pub open spec fn spec_rejects_with(v: JsonValue, e: DecodeError) -> bool {
        match v {
            JsonValue::Object(w) => {
                let left0 = w@;
                let left1 = taken(left0, "ok"@);
                if !all_known(left0, GetResponse::declared_fields()) {
                    e == (DecodeError::UnknownField { field: first_unknown_key(left0, GetResponse::declared_fields()) })
                } else if !required_ok::<bool>(left0, "ok"@) {
                    required_err::<bool>(left0, "ok"@, e)
                } else if !optional_ok::<UserProfile>(left1, "profile"@) {
                    field_failed::<UserProfile>(left1, "profile"@, e)
                } else {
                    false
                }
            },
            _ => e == (DecodeError::WrongType { expected: "object" }),
        }
    }
}

impl Decode for GetResponse {
    open spec fn accepts(v: JsonValue) -> bool {
        GetResponse::spec_accepts(v)
    }

    open spec fn decodes_to(v: JsonValue, x: GetResponse) -> bool {
        GetResponse::spec_decodes_to(v, x)
    }

    open spec fn rejects_with(v: JsonValue, e: DecodeError) -> bool {
        GetResponse::spec_rejects_with(v, e)
    }

    fn decode(v: JsonValue) -> Result<GetResponse, DecodeError> {
        proof {
            reveal(GetResponse::spec_accepts);
            reveal(GetResponse::spec_decodes_to);
            reveal(GetResponse::spec_rejects_with);
        }
        let mut wire = into_fields(v)?;
        let known: &[&str] = &["ok", "profile"];
        assert(known@ =~= GetResponse::declared_fields());
        check_fields(&wire, known)?;
        let ok: bool = required(&mut wire, "ok")?;
        let profile: Option<UserProfile> = optional(&mut wire, "profile")?;
        Ok(GetResponse { ok, profile })
    }
}

#[derive(Clone, Debug, PartialEq)]
pub struct SetRequest<'a> {
    /// ID of user to change. This argument may only be specified by team admins on paid teams.
    pub user: Option<UserId>,
    /// Collection of key:value pairs presented as a URL-encoded JSON hash.
    pub profile: Option<&'a str>,
    /// Name of a single key to set. Usable only if profile is not passed.
    pub name: Option<&'a str>,
    /// Value to set a single key to. Usable only if profile is not passed.
    pub value: Option<&'a str>,
}

#[derive(Clone, Debug, PartialEq)]
pub struct SetResponse {
    ok: bool,
    pub profile: Option<UserProfile>,
}

impl SetResponse {
    /// The fields the record declares; it admits no others.
    pub open spec fn declared_fields() -> Seq<&'static str> {
        seq!["ok", "profile"]
    }
}

impl SetResponse {
    /// Whether `v` decodes as the record: an object whose fields read in order.
    #[verifier::opaque]
    pub open spec fn spec_accepts(v: JsonValue) -> bool {
        match v {
            JsonValue::Object(w) => {
                let left0 = w@;
                let left1 = taken(left0, "ok"@);
                &&& all_known(left0, SetResponse::declared_fields())
                &&& required_ok::<bool>(left0, "ok"@)
                &&& optional_ok::<UserProfile>(left1, "profile"@)
            },
            _ => false,
        }
    }

    /// Whether `x` holds what the fields of `v` read as.
    #[verifier::opaque]
    pub closed spec fn spec_decodes_to(v: JsonValue, x: SetResponse) -> bool {
        match v {
            JsonValue::Object(w) => {
                let left0 = w@;
                let left1 = taken(left0, "ok"@);
                &&& <bool as Decode>::decodes_to(value_of(left0, "ok"@), x.ok)
                &&& optional_value::<UserProfile>(left1, "profile"@, x.profile)
            },
            _ => false,
        }
    }

    /// Whether `e` is the error of the first check or field that fails on `v`.
    #[verifier::opaque]
    pub open spec fn spec_rejects_with(v: JsonValue, e: DecodeError) -> bool {
        match v {
            JsonValue::Object(w) => {
                let left0 = w@;
                let left1 = taken(left0, "ok"@);
                if !all_known(left0, SetResponse::declared_fields()) {
                    e == (DecodeError::UnknownField { field: first_unknown_key(left0, SetResponse::declared_fields()) })
                } else if !required_ok::<bool>(left0, "ok"@) {
                    required_err::<bool>(left0, "ok"@, e)
                } else if !optional_ok::<UserProfile>(left1, "profile"@) {
                    field_failed::<UserProfile>(left1, "profile"@, e)
                } else {
                    false
                }
            },
            _ => e == (DecodeError::WrongType { expected: "object" }),
        }
    }
}

impl Decode for SetResponse {
    open spec fn accepts(v: JsonValue) -> bool {
        SetResponse::spec_accepts(v)
    }

    open spec fn decodes_to(v: JsonValue, x: SetResponse) -> bool {
        SetResponse::spec_decodes_to(v, x)
    }

    open spec fn rejects_with(v: JsonValue, e: DecodeError) -> bool {
        SetResponse::spec_rejects_with(v, e)
    }

    fn decode(v: JsonValue) -> Result<SetResponse, DecodeError> {
        proof {
            reveal(SetResponse::spec_accepts);
            reveal(SetResponse::spec_decodes_to);
            reveal(SetResponse::spec_rejects_with);
        }
        let mut wire = into_fields(v)?;
        let known: &[&str] = &["ok", "profile"];
        assert(known@ =~= SetResponse::declared_fields());
        check_fields(&wire, known)?;
        let ok: bool = required(&mut wire, "ok")?;
        let profile: Option<UserProfile> = optional(&mut wire, "profile")?;
        Ok(SetResponse { ok, profile })
    }
}

} // verus!
