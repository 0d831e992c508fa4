//! Get info on your team's User Groups.

use crate::id::{UsergroupId};
use crate::json::{all_known, check_fields, field_failed, first_unknown_key, optional_ok, optional_value, required_err, required_ok, taken, value_of, into_fields, optional, required, Decode, DecodeError, JsonValue};
use crate::types::{Usergroup};
use vstd::prelude::*;

verus! {

#[derive(Clone, Debug, PartialEq)]
pub struct CreateRequest<'a> {
    /// A name for the User Group. Must be unique among User Groups.
    pub name: &'a str,
    /// A mention handle. Must be unique among channels, users and User Groups.
    pub handle: Option<&'a str>,
    /// A short description of the User Group.
    pub description: Option<&'a str>,
    /// A comma separated string of encoded channel IDs for which the User Group uses as a default.
    pub channels: Option<&'a str>,
    /// Include the number of users in each User Group.
    pub include_count: Option<bool>,
}

#[derive(Clone, Debug, PartialEq)]
pub struct CreateResponse {
    ok: bool,
    pub usergroup: Option<Usergroup>,
}

impl CreateResponse {
    /// The fields the record declares; it admits no others.
    pub open spec fn declared_fields() -> Seq<&'static str> {
        seq!["ok", "usergroup"]
    }
}

impl CreateResponse {
    /// Whether `v` decodes as the record: an object whose fields read in order.
    #[verifier::opaque]
    pub open spec fn spec_accepts(v: JsonValue) -> bool {
        match v {
            JsonValue::Object(w) => {
                let left0 = w@;
                let left1 = taken(left0, "ok"@);
                &&& all_known(left0, CreateResponse::declared_fields())
                &&& required_ok::<bool>(left0, "ok"@)
                &&& optional_ok::<Usergroup>(left1, "usergroup"@)
            },
            _ => false,
        }
    }

    /// Whether `x` holds what the fields of `v` read as.
    #[verifier::opaque]
    pub closed spec fn spec_decodes_to(v: JsonValue, x: CreateResponse) -> bool {
        match v {
            JsonValue::Object(w) => {
                let left0 = w@;
                let left1 = taken(left0, "ok"@);
                &&& <bool as Decode>::decodes_to(value_of(left0, "ok"@), x.ok)
                &&& optional_value::<Usergroup>(left1, "usergroup"@, x.usergroup)
            },
            _ => false,
        }
    }

    /// Whether `e` is the error of the first check or field that fails on `v`.
    #[verifier::opaque]
    pub open spec fn spec_rejects_with(v: JsonValue, e: DecodeError) -> bool {
        match v {
            JsonValue::Object(w) => {
                let left0 = w@;
                let left1 = taken(left0, "ok"@);
                if !all_known(left0, CreateResponse::declared_fields()) {
                    e == (DecodeError::UnknownField { field: first_unknown_key(left0, CreateResponse::declared_fields()) })
                } else if !required_ok::<bool>(left0, "ok"@) {
                    required_err::<bool>(left0, "ok"@, e)
                } else if !optional_ok::<Usergroup>(left1, "usergroup"@) {
                    field_failed::<Usergroup>(left1, "usergroup"@, e)
                } else {
                    false
                }
            },
            _ => e == (DecodeError::WrongType { expected: "object" }),
        }
    }
}

impl Decode for CreateResponse {
    open spec fn accepts(v: JsonValue) -> bool {
        CreateResponse::spec_accepts(v)
    }

    open spec fn decodes_to(v: JsonValue, x: CreateResponse) -> bool {
        CreateResponse::spec_decodes_to(v, x)
    }

    open spec fn rejects_with(v: JsonValue, e: DecodeError) -> bool {
        CreateResponse::spec_rejects_with(v, e)
    }

    fn decode(v: JsonValue) -> Result<CreateResponse, DecodeError> {
        proof {
            reveal(CreateResponse::spec_accepts);
            reveal(CreateResponse::spec_decodes_to);
            reveal(CreateResponse::spec_rejects_with);
        }
        let mut wire = into_fields(v)?;
        let known: &[&str] = &["ok", "usergroup"];
        assert(known@ =~= CreateResponse::declared_fields());
        check_fields(&wire, known)?;
        let ok: bool = required(&mut wire, "ok")?;
        let usergroup: Option<Usergroup> = optional(&mut wire, "usergroup")?;
        Ok(CreateResponse { ok, usergroup })
    }
}

#[derive(Clone, Debug, PartialEq)]
pub struct DisableRequest {
    /// The encoded ID of the User Group to disable.
    pub usergroup: UsergroupId,
    /// Include the number of users in the User Group.
    pub include_count: Option<bool>,
}

#[derive(Clone, Debug, PartialEq)]
pub struct DisableResponse {
    ok: bool,
    pub usergroup: Option<Usergroup>,
}

impl DisableResponse {
    /// The fields the record declares; it admits no others.
    pub open spec fn declared_fields() -> Seq<&'static str> {
        seq!["ok", "usergroup"]
    }
}

impl DisableResponse {
    /// Whether `v` decodes as the record: an object whose fields read in order.
    #[verifier::opaque]
    pub open spec fn spec_accepts(v: JsonValue) -> bool {
        match v {
            JsonValue::Object(w) => {
                let left0 = w@;
                let left1 = taken(left0, "ok"@);
                &&& all_known(left0, DisableResponse::declared_fields())
                &&& required_ok::<bool>(left0, "ok"@)
                &&& optional_ok::<Usergroup>(left1, "usergroup"@)
            },
            _ => false,
        }
    }

    /// Whether `x` holds what the fields of `v` read as.
    #[verifier::opaque]
    pub closed spec fn spec_decodes_to(v: JsonValue, x: DisableResponse) -> bool {
        match v {
            JsonValue::Object(w) => {
                let left0 = w@;
                let left1 = taken(left0, "ok"@);
                &&& <bool as Decode>::decodes_to(value_of(left0, "ok"@), x.ok)
                &&& optional_value::<Usergroup>(left1, "usergroup"@, x.usergroup)
            },
            _ => false,
        }
    }

    /// Whether `e` is the error of the first check or field that fails on `v`.
    #[verifier::opaque]
    pub open spec fn spec_rejects_with(v: JsonValue, e: DecodeError) -> bool {
        match v {
            JsonValue::Object(w) => {
                let left0 = w@;
                let left1 = taken(left0, "ok"@);
                if !all_known(left0, DisableResponse::declared_fields()) {
                    e == (DecodeError::UnknownField { field: first_unknown_key(left0, DisableResponse::declared_fields()) })
                } else if !required_ok::<bool>(left0, "ok"@) {
                    required_err::<bool>(left0, "ok"@, e)
                } else if !optional_ok::<Usergroup>(left1, "usergroup"@) {
                    field_failed::<Usergroup>(left1, "usergroup"@, e)
                } else {
                    false
                }
            },
            _ => e == (DecodeError::WrongType { expected: "object" }),
        }
    }
}

impl Decode for DisableResponse {
    open spec fn accepts(v: JsonValue) -> bool {
        DisableResponse::spec_accepts(v)
    }

    open spec fn decodes_to(v: JsonValue, x: DisableResponse) -> bool {
        DisableResponse::spec_decodes_to(v, x)
    }

    open spec fn rejects_with(v: JsonValue, e: DecodeError) -> bool {
        DisableResponse::spec_rejects_with(v, e)
    }

    fn decode(v: JsonValue) -> Result<DisableResponse, DecodeError> {
        proof {
            reveal(DisableResponse::spec_accepts);
            reveal(DisableResponse::spec_decodes_to);
            reveal(DisableResponse::spec_rejects_with);
        }
        let mut wire = into_fields(v)?;
        let known: &[&str] = &["ok", "usergroup"];
        assert(known@ =~= DisableResponse::declared_fields());
        check_fields(&wire, known)?;
        let ok: bool = required(&mut wire, "ok")?;
        let usergroup: Option<Usergroup> = optional(&mut wire, "usergroup")?;
        Ok(DisableResponse { ok, usergroup })
    }
}

#[derive(Clone, Debug, PartialEq)]
pub struct EnableRequest {
    /// The encoded ID of the User Group to enable.
    pub usergroup: UsergroupId,
    /// Include the number of users in the User Group.
    pub include_count: Option<bool>,
}

#[derive(Clone, Debug, PartialEq)]
pub struct EnableResponse {
    ok: bool,
    pub usergroup: Option<Usergroup>,
}

impl EnableResponse {
    /// The fields the record declares; it admits no others.
    pub open spec fn declared_fields() -> Seq<&'static str> {
        seq!["ok", "usergroup"]
    }
}

impl EnableResponse {
    /// Whether `v` decodes as the record: an object whose fields read in order.
    #[verifier::opaque]
    pub open spec fn spec_accepts(v: JsonValue) -> bool {
        match v {
            JsonValue::Object(w) => {
                let left0 = w@;
                let left1 = taken(left0, "ok"@);
                &&& all_known(left0, EnableResponse::declared_fields())
                &&& required_ok::<bool>(left0, "ok"@)
                &&& optional_ok::<Usergroup>(left1, "usergroup"@)
            },
            _ => false,
        }
    }

    /// Whether `x` holds what the fields of `v` read as.
    #[verifier::opaque]
    pub closed spec fn spec_decodes_to(v: JsonValue, x: EnableResponse) -> bool {
        match v {
            JsonValue::Object(w) => {
                let left0 = w@;
                let left1 = taken(left0, "ok"@);
                &&& <bool as Decode>::decodes_to(value_of(left0, "ok"@), x.ok)
                &&& optional_value::<Usergroup>(left1, "usergroup"@, x.usergroup)
            },
            _ => false,
        }
    }

    /// Whether `e` is the error of the first check or field that fails on `v`.
    #[verifier::opaque]
    pub open spec fn spec_rejects_with(v: JsonValue, e: DecodeError) -> bool {
        match v {
            JsonValue::Object(w) => {
                let left0 = w@;
                let left1 = taken(left0, "ok"@);
                if !all_known(left0, EnableResponse::declared_fields()) {
                    e == (DecodeError::UnknownField { field: first_unknown_key(left0, EnableResponse::declared_fields()) })
                } else if !required_ok::<bool>(left0, "ok"@) {
                    required_err::<bool>(left0, "ok"@, e)
                } else if !optional_ok::<Usergroup>(left1, "usergroup"@) {
                    field_failed::<Usergroup>(left1, "usergroup"@, e)
                } else {
                    false
                }
            },
            _ => e == (DecodeError::WrongType { expected: "object" }),
        }
    }
}

impl Decode for EnableResponse {
    open spec fn accepts(v: JsonValue) -> bool {
        EnableResponse::spec_accepts(v)
    }

    open spec fn decodes_to(v: JsonValue, x: EnableResponse) -> bool {
        EnableResponse::spec_decodes_to(v, x)
    }

    open spec fn rejects_with(v: JsonValue, e: DecodeError) -> bool {
        EnableResponse::spec_rejects_with(v, e)
    }

    fn decode(v: JsonValue) -> Result<EnableResponse, DecodeError> {
        proof {
            reveal(EnableResponse::spec_accepts);
            reveal(EnableResponse::spec_decodes_to);
            reveal(EnableResponse::spec_rejects_with);
        }
        let mut wire = into_fields(v)?;
        let known: &[&str] = &["ok", "usergroup"];
        assert(known@ =~= EnableResponse::declared_fields());
        check_fields(&wire, known)?;
        let ok: bool = required(&mut wire, "ok")?;
        let usergroup: Option<Usergroup> = optional(&mut wire, "usergroup")?;
        Ok(EnableResponse { ok, usergroup })
    }
}

#[derive(Clone, Debug, PartialEq)]
pub struct ListRequest {
    /// Include disabled User Groups.
    pub include_disabled: Option<bool>,
    /// Include the number of users in each User Group.
    pub include_count: Option<bool>,
    /// Include the list of users for each User Group.
    pub include_users: Option<bool>,
}

#[derive(Clone, Debug, PartialEq)]
pub struct ListResponse {
    ok: bool,
    pub usergroups: Option<Vec<Usergroup>>,
}

impl ListResponse {
    /// The fields the record declares; it admits no others.
    pub open spec fn declared_fields() -> Seq<&'static str> {
        seq!["ok", "usergroups"]
    }
}

impl ListResponse {
    /// Whether `v` decodes as the record: an object whose fields read in order.
    #[verifier::opaque]
    pub open spec fn spec_accepts(v: JsonValue) -> bool {
        match v {
            JsonValue::Object(w) => {
                let left0 = w@;
                let left1 = taken(left0, "ok"@);
                &&& all_known(left0, ListResponse::declared_fields())
                &&& required_ok::<bool>(left0, "ok"@)
                &&& optional_ok::<Vec<Usergroup>>(left1, "usergroups"@)
            },
            _ => false,
        }
    }

    /// Whether `x` holds what the fields of `v` read as.
    #[verifier::opaque]
    pub closed spec fn spec_decodes_to(v: JsonValue, x: ListResponse) -> bool {
        match v {
            JsonValue::Object(w) => {
                let left0 = w@;
                let left1 = taken(left0, "ok"@);
                &&& <bool as Decode>::decodes_to(value_of(left0, "ok"@), x.ok)
                &&& optional_value::<Vec<Usergroup>>(left1, "usergroups"@, x.usergroups)
            },
            _ => false,
        }
    }

    /// Whether `e` is the error of the first check or field that fails on `v`.
    #[verifier::opaque]
    pub open spec fn spec_rejects_with(v: JsonValue, e: DecodeError) -> bool {
        match v {
            JsonValue::Object(w) => {
                let left0 = w@;
                let left1 = taken(left0, "ok"@);
                if !all_known(left0, ListResponse::declared_fields()) {
                    e == (DecodeError::UnknownField { field: first_unknown_key(left0, ListResponse::declared_fields()) })
                } else if !required_ok::<bool>(left0, "ok"@) {
                    required_err::<bool>(left0, "ok"@, e)
                } else if !optional_ok::<Vec<Usergroup>>(left1, "usergroups"@) {
                    field_failed::<Vec<Usergroup>>(left1, "usergroups"@, e)
                } else {
                    false
                }
            },
            _ => e == (DecodeError::WrongType { expected: "object" }),
        }
    }
}

impl Decode for ListResponse {
    open spec fn accepts(v: JsonValue) -> bool {
        ListResponse::spec_accepts(v)
    }

    open spec fn decodes_to(v: JsonValue, x: ListResponse) -> bool {
        ListResponse::spec_decodes_to(v, x)
    }

    open spec fn rejects_with(v: JsonValue, e: DecodeError) -> bool {
        ListResponse::spec_rejects_with(v, e)
    }

    fn decode(v: JsonValue) -> Result<ListResponse, DecodeError> {
        proof {
            reveal(ListResponse::spec_accepts);
            reveal(ListResponse::spec_decodes_to);
            reveal(ListResponse::spec_rejects_with);
        }
        let mut wire = into_fields(v)?;
        let known: &[&str] = &["ok", "usergroups"];
        assert(known@ =~= ListResponse::declared_fields());
        check_fields(&wire, known)?;
        let ok: bool = required(&mut wire, "ok")?;
        let usergroups: Option<Vec<Usergroup>> = optional(&mut wire, "usergroups")?;
        Ok(ListResponse { ok, usergroups })
    }
}

#[derive(Clone, Debug, PartialEq)]
pub struct UpdateRequest<'a> {
    /// The encoded ID of the User Group to update.
    pub usergroup: UsergroupId,
    /// A name for the User Group. Must be unique among User Groups.
    pub name: Option<&'a str>,
    /// A mention handle. Must be unique among channels, users and User Groups.
    pub handle: Option<&'a str>,
    /// A short description of the User Group.
    pub description: Option<&'a str>,
    /// A comma separated string of encoded channel IDs for which the User Group uses as a default.
    pub channels: Option<&'a str>,
    /// Include the number of users in the User Group.
    pub include_count: Option<bool>,
}

#[derive(Clone, Debug, PartialEq)]
pub struct UpdateResponse {
    ok: bool,
    pub usergroup: Option<Usergroup>,
}

impl UpdateResponse {
    /// The fields the record declares; it admits no others.
    pub open spec fn declared_fields() -> Seq<&'static str> {
        seq!["ok", "usergroup"]
    }
}

impl UpdateResponse {
    /// Whether `v` decodes as the record: an object whose fields read in order.
    #[verifier::opaque]
    pub open spec fn spec_accepts(v: JsonValue) -> bool {
        match v {
            JsonValue::Object(w) => {
                let left0 = w@;
                let left1 = taken(left0, "ok"@);
                &&& all_known(left0, UpdateResponse::declared_fields())
                &&& required_ok::<bool>(left0, "ok"@)
                &&& optional_ok::<Usergroup>(left1, "usergroup"@)
            },
            _ => false,
        }
    }

    /// Whether `x` holds what the fields of `v` read as.
    #[verifier::opaque]
    pub closed spec fn spec_decodes_to(v: JsonValue, x: UpdateResponse) -> bool {
        match v {
            JsonValue::Object(w) => {
                let left0 = w@;
                let left1 = taken(left0, "ok"@);
                &&& <bool as Decode>::decodes_to(value_of(left0, "ok"@), x.ok)
                &&& optional_value::<Usergroup>(left1, "usergroup"@, x.usergroup)
            },
            _ => false,
        }
    }

    /// Whether `e` is the error of the first check or field that fails on `v`.
    #[verifier::opaque]
    pub open spec fn spec_rejects_with(v: JsonValue, e: DecodeError) -> bool {
        match v {
            JsonValue::Object(w) => {
                let left0 = w@;
                let left1 = taken(left0, "ok"@);
                if !all_known(left0, UpdateResponse::declared_fields()) {
                    e == (DecodeError::UnknownField { field: first_unknown_key(left0, UpdateResponse::declared_fields()) })
                } else if !required_ok::<bool>(left0, "ok"@) {
                    required_err::<bool>(left0, "ok"@, e)
                } else if !optional_ok::<Usergroup>(left1, "usergroup"@) {
                    field_failed::<Usergroup>(left1, "usergroup"@, e)
                } else {
                    false
                }
            },
            _ => e == (DecodeError::WrongType { expected: "object" }),
        }
    }
}

impl Decode for UpdateResponse {
    open spec fn accepts(v: JsonValue) -> bool {
        UpdateResponse::spec_accepts(v)
    }

    open spec fn decodes_to(v: JsonValue, x: UpdateResponse) -> bool {
        UpdateResponse::spec_decodes_to(v, x)
    }

    open spec fn rejects_with(v: JsonValue, e: DecodeError) -> bool {
        UpdateResponse::spec_rejects_with(v, e)
    }

    fn decode(v: JsonValue) -> Result<UpdateResponse, DecodeError> {
        proof {
            reveal(UpdateResponse::spec_accepts);
            reveal(UpdateResponse::spec_decodes_to);
            reveal(UpdateResponse::spec_rejects_with);
        }
        let mut wire = into_fields(v)?;
        let known: &[&str] = &["ok", "usergroup"];
        assert(known@ =~= UpdateResponse::declared_fields());
        check_fields(&wire, known)?;
        let ok: bool = required(&mut wire, "ok")?;
        let usergroup: Option<Usergroup> = optional(&mut wire, "usergroup")?;
        Ok(UpdateResponse { ok, usergroup })
    }
}

} // verus!
