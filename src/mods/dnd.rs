//! Adjust and view Do Not Disturb settings for team members.

use crate::id::{UserId};
use crate::json::{all_known, check_fields, field_failed, first_unknown_key, optional_ok, optional_value, required_err, required_ok, taken, value_of, into_fields, optional, required, Decode, DecodeError, JsonValue, Number, StringMap};
use vstd::prelude::*;

verus! {

#[derive(Clone, Debug, PartialEq)]
pub struct EndSnoozeResponse {
    ok: bool,
    pub dnd_enabled: Option<bool>,
    pub next_dnd_end_ts: Option<Number>,
    pub next_dnd_start_ts: Option<Number>,
    pub snooze_enabled: Option<bool>,
}

impl EndSnoozeResponse {
    /// The fields the record declares; it admits no others.
    pub open spec fn declared_fields() -> Seq<&'static str> {
        seq!["ok", "dnd_enabled", "next_dnd_end_ts", "next_dnd_start_ts", "snooze_enabled"]
    }
}

impl EndSnoozeResponse {
    /// Whether `v` decodes as the record: an object whose fields read in order.
    #[verifier::opaque]
    pub open spec fn spec_accepts(v: JsonValue) -> bool {
        match v {
            JsonValue::Object(w) => {
                let left0 = w@;
                let left1 = taken(left0, "ok"@);
                let left2 = taken(left1, "dnd_enabled"@);
                let left3 = taken(left2, "next_dnd_end_ts"@);
                let left4 = taken(left3, "next_dnd_start_ts"@);
                &&& all_known(left0, EndSnoozeResponse::declared_fields())
                &&& required_ok::<bool>(left0, "ok"@)
                &&& optional_ok::<bool>(left1, "dnd_enabled"@)
                &&& optional_ok::<Number>(left2, "next_dnd_end_ts"@)
                &&& optional_ok::<Number>(left3, "next_dnd_start_ts"@)
                &&& optional_ok::<bool>(left4, "snooze_enabled"@)
            },
            _ => false,
        }
    }

    /// Whether `x` holds what the fields of `v` read as.
    #[verifier::opaque]
    pub closed spec fn spec_decodes_to(v: JsonValue, x: EndSnoozeResponse) -> bool {
        match v {
            JsonValue::Object(w) => {
                let left0 = w@;
                let left1 = taken(left0, "ok"@);
                let left2 = taken(left1, "dnd_enabled"@);
                let left3 = taken(left2, "next_dnd_end_ts"@);
                let left4 = taken(left3, "next_dnd_start_ts"@);
                &&& <bool as Decode>::decodes_to(value_of(left0, "ok"@), x.ok)
                &&& optional_value::<bool>(left1, "dnd_enabled"@, x.dnd_enabled)
                &&& optional_value::<Number>(left2, "next_dnd_end_ts"@, x.next_dnd_end_ts)
                &&& optional_value::<Number>(left3, "next_dnd_start_ts"@, x.next_dnd_start_ts)
                &&& optional_value::<bool>(left4, "snooze_enabled"@, x.snooze_enabled)
            },
            _ => false,
        }
    }

    /// Whether `e` is the error of the first check or field that fails on `v`.
    #[verifier::opaque]
    pub open spec fn spec_rejects_with(v: JsonValue, e: DecodeError) -> bool {
        match v {
            JsonValue::Object(w) => {
                let left0 = w@;
                let left1 = taken(left0, "ok"@);
                let left2 = taken(left1, "dnd_enabled"@);
                let left3 = taken(left2, "next_dnd_end_ts"@);
                let left4 = taken(left3, "next_dnd_start_ts"@);
                if !all_known(left0, EndSnoozeResponse::declared_fields()) {
                    e == (DecodeError::UnknownField { field: first_unknown_key(left0, EndSnoozeResponse::declared_fields()) })
                } else if !required_ok::<bool>(left0, "ok"@) {
                    required_err::<bool>(left0, "ok"@, e)
                } else if !optional_ok::<bool>(left1, "dnd_enabled"@) {
                    field_failed::<bool>(left1, "dnd_enabled"@, e)
                } else if !optional_ok::<Number>(left2, "next_dnd_end_ts"@) {
                    field_failed::<Number>(left2, "next_dnd_end_ts"@, e)
                } else if !optional_ok::<Number>(left3, "next_dnd_start_ts"@) {
                    field_failed::<Number>(left3, "next_dnd_start_ts"@, e)
                } else if !optional_ok::<bool>(left4, "snooze_enabled"@) {
                    field_failed::<bool>(left4, "snooze_enabled"@, e)
                } else {
                    false
                }
            },
            _ => e == (DecodeError::WrongType { expected: "object" }),
        }
    }
}

impl Decode for EndSnoozeResponse {
    open spec fn accepts(v: JsonValue) -> bool {
        EndSnoozeResponse::spec_accepts(v)
    }

    open spec fn decodes_to(v: JsonValue, x: EndSnoozeResponse) -> bool {
        EndSnoozeResponse::spec_decodes_to(v, x)
    }

    open spec fn rejects_with(v: JsonValue, e: DecodeError) -> bool {
        EndSnoozeResponse::spec_rejects_with(v, e)
    }

    fn decode(v: JsonValue) -> Result<EndSnoozeResponse, DecodeError> {
        proof {
            reveal(EndSnoozeResponse::spec_accepts);
            reveal(EndSnoozeResponse::spec_decodes_to);
            reveal(EndSnoozeResponse::spec_rejects_with);
        }
        let mut wire = into_fields(v)?;
        let known: &[&str] = &["ok", "dnd_enabled", "next_dnd_end_ts", "next_dnd_start_ts", "snooze_enabled"];
        assert(known@ =~= EndSnoozeResponse::declared_fields());
        check_fields(&wire, known)?;
        let ok: bool = required(&mut wire, "ok")?;
        let dnd_enabled: Option<bool> = optional(&mut wire, "dnd_enabled")?;
        let next_dnd_end_ts: Option<Number> = optional(&mut wire, "next_dnd_end_ts")?;
        let next_dnd_start_ts: Option<Number> = optional(&mut wire, "next_dnd_start_ts")?;
        let snooze_enabled: Option<bool> = optional(&mut wire, "snooze_enabled")?;
        Ok(EndSnoozeResponse { ok, dnd_enabled, next_dnd_end_ts, next_dnd_start_ts, snooze_enabled })
    }
}

#[derive(Clone, Debug, PartialEq)]
pub struct InfoRequest {
    /// User to fetch status for (defaults to current user)
    pub user: Option<UserId>,
}

#[derive(Clone, Debug, PartialEq)]
pub struct InfoResponse {
    ok: bool,
    pub dnd_enabled: Option<bool>,
    pub next_dnd_end_ts: Option<Number>,
    pub next_dnd_start_ts: Option<Number>,
    pub snooze_enabled: Option<bool>,
    pub snooze_endtime: Option<Number>,
    pub snooze_remaining: Option<Number>,
}

impl InfoResponse {
    /// The fields the record declares; it admits no others.
    pub open spec fn declared_fields() -> Seq<&'static str> {
        seq!["ok", "dnd_enabled", "next_dnd_end_ts", "next_dnd_start_ts", "snooze_enabled", "snooze_endtime", "snooze_remaining"]
    }
}

impl InfoResponse {
    /// Whether `v` decodes as the record: an object whose fields read in order.
    #[verifier::opaque]
    pub open spec fn spec_accepts(v: JsonValue) -> bool {
        match v {
            JsonValue::Object(w) => {
                let left0 = w@;
                let left1 = taken(left0, "ok"@);
                let left2 = taken(left1, "dnd_enabled"@);
                let left3 = taken(left2, "next_dnd_end_ts"@);
                let left4 = taken(left3, "next_dnd_start_ts"@);
                let left5 = taken(left4, "snooze_enabled"@);
                let left6 = taken(left5, "snooze_endtime"@);
                &&& all_known(left0, InfoResponse::declared_fields())
                &&& required_ok::<bool>(left0, "ok"@)
                &&& optional_ok::<bool>(left1, "dnd_enabled"@)
                &&& optional_ok::<Number>(left2, "next_dnd_end_ts"@)
                &&& optional_ok::<Number>(left3, "next_dnd_start_ts"@)
                &&& optional_ok::<bool>(left4, "snooze_enabled"@)
                &&& optional_ok::<Number>(left5, "snooze_endtime"@)
                &&& optional_ok::<Number>(left6, "snooze_remaining"@)
            },
            _ => false,
        }
    }

    /// Whether `x` holds what the fields of `v` read as.
    #[verifier::opaque]
    pub closed spec fn spec_decodes_to(v: JsonValue, x: InfoResponse) -> bool {
        match v {
            JsonValue::Object(w) => {
                let left0 = w@;
                let left1 = taken(left0, "ok"@);
                let left2 = taken(left1, "dnd_enabled"@);
                let left3 = taken(left2, "next_dnd_end_ts"@);
                let left4 = taken(left3, "next_dnd_start_ts"@);
                let left5 = taken(left4, "snooze_enabled"@);
                let left6 = taken(left5, "snooze_endtime"@);
                &&& <bool as Decode>::decodes_to(value_of(left0, "ok"@), x.ok)
                &&& optional_value::<bool>(left1, "dnd_enabled"@, x.dnd_enabled)
                &&& optional_value::<Number>(left2, "next_dnd_end_ts"@, x.next_dnd_end_ts)
                &&& optional_value::<Number>(left3, "next_dnd_start_ts"@, x.next_dnd_start_ts)
                &&& optional_value::<bool>(left4, "snooze_enabled"@, x.snooze_enabled)
                &&& optional_value::<Number>(left5, "snooze_endtime"@, x.snooze_endtime)
                &&& optional_value::<Number>(left6, "snooze_remaining"@, x.snooze_remaining)
            },
            _ => false,
        }
    }

    /// Whether `e` is the error of the first check or field that fails on `v`.
    #[verifier::opaque]
    pub open spec fn spec_rejects_with(v: JsonValue, e: DecodeError) -> bool {
        match v {
            JsonValue::Object(w) => {
                let left0 = w@;
                let left1 = taken(left0, "ok"@);
                let left2 = taken(left1, "dnd_enabled"@);
                let left3 = taken(left2, "next_dnd_end_ts"@);
                let left4 = taken(left3, "next_dnd_start_ts"@);
                let left5 = taken(left4, "snooze_enabled"@);
                let left6 = taken(left5, "snooze_endtime"@);
                if !all_known(left0, InfoResponse::declared_fields()) {
                    e == (DecodeError::UnknownField { field: first_unknown_key(left0, InfoResponse::declared_fields()) })
                } else if !required_ok::<bool>(left0, "ok"@) {
                    required_err::<bool>(left0, "ok"@, e)
                } else if !optional_ok::<bool>(left1, "dnd_enabled"@) {
                    field_failed::<bool>(left1, "dnd_enabled"@, e)
                } else if !optional_ok::<Number>(left2, "next_dnd_end_ts"@) {
                    field_failed::<Number>(left2, "next_dnd_end_ts"@, e)
                } else if !optional_ok::<Number>(left3, "next_dnd_start_ts"@) {
                    field_failed::<Number>(left3, "next_dnd_start_ts"@, e)
                } else if !optional_ok::<bool>(left4, "snooze_enabled"@) {
                    field_failed::<bool>(left4, "snooze_enabled"@, e)
                } else if !optional_ok::<Number>(left5, "snooze_endtime"@) {
                    field_failed::<Number>(left5, "snooze_endtime"@, e)
                } else if !optional_ok::<Number>(left6, "snooze_remaining"@) {
                    field_failed::<Number>(left6, "snooze_remaining"@, e)
                } else {
                    false
                }
            },
            _ => e == (DecodeError::WrongType { expected: "object" }),
        }
    }
}

impl Decode for InfoResponse {
    open spec fn accepts(v: JsonValue) -> bool {
        InfoResponse::spec_accepts(v)
    }

    open spec fn decodes_to(v: JsonValue, x: InfoResponse) -> bool {
        InfoResponse::spec_decodes_to(v, x)
    }

    open spec fn rejects_with(v: JsonValue, e: DecodeError) -> bool {
        InfoResponse::spec_rejects_with(v, e)
    }

    fn decode(v: JsonValue) -> Result<InfoResponse, DecodeError> {
        proof {
            reveal(InfoResponse::spec_accepts);
            reveal(InfoResponse::spec_decodes_to);
            reveal(InfoResponse::spec_rejects_with);
        }
        let mut wire = into_fields(v)?;
        let known: &[&str] = &["ok", "dnd_enabled", "next_dnd_end_ts", "next_dnd_start_ts", "snooze_enabled", "snooze_endtime", "snooze_remaining"];
        assert(known@ =~= InfoResponse::declared_fields());
        check_fields(&wire, known)?;
        let ok: bool = required(&mut wire, "ok")?;
        let dnd_enabled: Option<bool> = optional(&mut wire, "dnd_enabled")?;
        let next_dnd_end_ts: Option<Number> = optional(&mut wire, "next_dnd_end_ts")?;
        let next_dnd_start_ts: Option<Number> = optional(&mut wire, "next_dnd_start_ts")?;
        let snooze_enabled: Option<bool> = optional(&mut wire, "snooze_enabled")?;
        let snooze_endtime: Option<Number> = optional(&mut wire, "snooze_endtime")?;
        let snooze_remaining: Option<Number> = optional(&mut wire, "snooze_remaining")?;
        Ok(InfoResponse { ok, dnd_enabled, next_dnd_end_ts, next_dnd_start_ts, snooze_enabled, snooze_endtime, snooze_remaining })
    }
}

#[derive(Clone, Debug, PartialEq)]
pub struct SetSnoozeRequest {
    /// Number of minutes, from now, to snooze until.
    pub num_minutes: u32,
}

#[derive(Clone, Debug, PartialEq)]
pub struct SetSnoozeResponse {
    ok: bool,
    pub snooze_enabled: Option<bool>,
    pub snooze_endtime: Option<Number>,
    pub snooze_remaining: Option<Number>,
}

impl SetSnoozeResponse {
    /// The fields the record declares; it admits no others.
    pub open spec fn declared_fields() -> Seq<&'static str> {
        seq!["ok", "snooze_enabled", "snooze_endtime", "snooze_remaining"]
    }
}

impl SetSnoozeResponse {
    /// Whether `v` decodes as the record: an object whose fields read in order.
    #[verifier::opaque]
    pub open spec fn spec_accepts(v: JsonValue) -> bool {
        match v {
            JsonValue::Object(w) => {
                let left0 = w@;
                let left1 = taken(left0, "ok"@);
                let left2 = taken(left1, "snooze_enabled"@);
                let left3 = taken(left2, "snooze_endtime"@);
                &&& all_known(left0, SetSnoozeResponse::declared_fields())
                &&& required_ok::<bool>(left0, "ok"@)
                &&& optional_ok::<bool>(left1, "snooze_enabled"@)
                &&& optional_ok::<Number>(left2, "snooze_endtime"@)
                &&& optional_ok::<Number>(left3, "snooze_remaining"@)
            },
            _ => false,
        }
    }

    /// Whether `x` holds what the fields of `v` read as.
    #[verifier::opaque]
    pub closed spec fn spec_decodes_to(v: JsonValue, x: SetSnoozeResponse) -> bool {
        match v {
            JsonValue::Object(w) => {
                let left0 = w@;
                let left1 = taken(left0, "ok"@);
                let left2 = taken(left1, "snooze_enabled"@);
                let left3 = taken(left2, "snooze_endtime"@);
                &&& <bool as Decode>::decodes_to(value_of(left0, "ok"@), x.ok)
                &&& optional_value::<bool>(left1, "snooze_enabled"@, x.snooze_enabled)
                &&& optional_value::<Number>(left2, "snooze_endtime"@, x.snooze_endtime)
                &&& optional_value::<Number>(left3, "snooze_remaining"@, x.snooze_remaining)
            },
            _ => false,
        }
    }

    /// Whether `e` is the error of the first check or field that fails on `v`.
    #[verifier::opaque]
    pub open spec fn spec_rejects_with(v: JsonValue, e: DecodeError) -> bool {
        match v {
            JsonValue::Object(w) => {
                let left0 = w@;
                let left1 = taken(left0, "ok"@);
                let left2 = taken(left1, "snooze_enabled"@);
                let left3 = taken(left2, "snooze_endtime"@);
                if !all_known(left0, SetSnoozeResponse::declared_fields()) {
                    e == (DecodeError::UnknownField { field: first_unknown_key(left0, SetSnoozeResponse::declared_fields()) })
                } else if !required_ok::<bool>(left0, "ok"@) {
                    required_err::<bool>(left0, "ok"@, e)
                } else if !optional_ok::<bool>(left1, "snooze_enabled"@) {
                    field_failed::<bool>(left1, "snooze_enabled"@, e)
                } else if !optional_ok::<Number>(left2, "snooze_endtime"@) {
                    field_failed::<Number>(left2, "snooze_endtime"@, e)
                } else if !optional_ok::<Number>(left3, "snooze_remaining"@) {
                    field_failed::<Number>(left3, "snooze_remaining"@, e)
                } else {
                    false
                }
            },
            _ => e == (DecodeError::WrongType { expected: "object" }),
        }
    }
}

impl Decode for SetSnoozeResponse {
    open spec fn accepts(v: JsonValue) -> bool {
        SetSnoozeResponse::spec_accepts(v)
    }

    open spec fn decodes_to(v: JsonValue, x: SetSnoozeResponse) -> bool {
        SetSnoozeResponse::spec_decodes_to(v, x)
    }

    open spec fn rejects_with(v: JsonValue, e: DecodeError) -> bool {
        SetSnoozeResponse::spec_rejects_with(v, e)
    }

    fn decode(v: JsonValue) -> Result<SetSnoozeResponse, DecodeError> {
        proof {
            reveal(SetSnoozeResponse::spec_accepts);
            reveal(SetSnoozeResponse::spec_decodes_to);
            reveal(SetSnoozeResponse::spec_rejects_with);
        }
        let mut wire = into_fields(v)?;
        let known: &[&str] = &["ok", "snooze_enabled", "snooze_endtime", "snooze_remaining"];
        assert(known@ =~= SetSnoozeResponse::declared_fields());
        check_fields(&wire, known)?;
        let ok: bool = required(&mut wire, "ok")?;
        let snooze_enabled: Option<bool> = optional(&mut wire, "snooze_enabled")?;
        let snooze_endtime: Option<Number> = optional(&mut wire, "snooze_endtime")?;
        let snooze_remaining: Option<Number> = optional(&mut wire, "snooze_remaining")?;
        Ok(SetSnoozeResponse { ok, snooze_enabled, snooze_endtime, snooze_remaining })
    }
}

#[derive(Clone, Debug, PartialEq)]
pub struct TeamInfoRequest<'a> {
    /// Comma-separated list of users to fetch Do Not Disturb status for
    pub users: Option<&'a str>,
}

#[derive(Clone, Debug, PartialEq)]
pub struct TeamInfoResponse {
    ok: bool,
    pub users: Option<StringMap<bool>>,
}

impl TeamInfoResponse {
    /// The fields the record declares; it admits no others.
    pub open spec fn declared_fields() -> Seq<&'static str> {
        seq!["ok", "users"]
    }
}

impl TeamInfoResponse {
    /// Whether `v` decodes as the record: an object whose fields read in order.
    #[verifier::opaque]
    pub open spec fn spec_accepts(v: JsonValue) -> bool {
        match v {
            JsonValue::Object(w) => {
                let left0 = w@;
                let left1 = taken(left0, "ok"@);
                &&& all_known(left0, TeamInfoResponse::declared_fields())
                &&& required_ok::<bool>(left0, "ok"@)
                &&& optional_ok::<StringMap<bool>>(left1, "users"@)
            },
            _ => false,
        }
    }

    /// Whether `x` holds what the fields of `v` read as.
    #[verifier::opaque]
    pub closed spec fn spec_decodes_to(v: JsonValue, x: TeamInfoResponse) -> bool {
        match v {
            JsonValue::Object(w) => {
                let left0 = w@;
                let left1 = taken(left0, "ok"@);
                &&& <bool as Decode>::decodes_to(value_of(left0, "ok"@), x.ok)
                &&& optional_value::<StringMap<bool>>(left1, "users"@, x.users)
            },
            _ => false,
        }
    }

    /// Whether `e` is the error of the first check or field that fails on `v`.
    #[verifier::opaque]
    pub open spec fn spec_rejects_with(v: JsonValue, e: DecodeError) -> bool {
        match v {
            JsonValue::Object(w) => {
                let left0 = w@;
                let left1 = taken(left0, "ok"@);
                if !all_known(left0, TeamInfoResponse::declared_fields()) {
                    e == (DecodeError::UnknownField { field: first_unknown_key(left0, TeamInfoResponse::declared_fields()) })
                } else if !required_ok::<bool>(left0, "ok"@) {
                    required_err::<bool>(left0, "ok"@, e)
                } else if !optional_ok::<StringMap<bool>>(left1, "users"@) {
                    field_failed::<StringMap<bool>>(left1, "users"@, e)
                } else {
                    false
                }
            },
            _ => e == (DecodeError::WrongType { expected: "object" }),
        }
    }
}

impl Decode for TeamInfoResponse {
    open spec fn accepts(v: JsonValue) -> bool {
        TeamInfoResponse::spec_accepts(v)
    }

    open spec fn decodes_to(v: JsonValue, x: TeamInfoResponse) -> bool {
        TeamInfoResponse::spec_decodes_to(v, x)
    }

    open spec fn rejects_with(v: JsonValue, e: DecodeError) -> bool {
        TeamInfoResponse::spec_rejects_with(v, e)
    }

    fn decode(v: JsonValue) -> Result<TeamInfoResponse, DecodeError> {
        proof {
            reveal(TeamInfoResponse::spec_accepts);
            reveal(TeamInfoResponse::spec_decodes_to);
            reveal(TeamInfoResponse::spec_rejects_with);
        }
        let mut wire = into_fields(v)?;
        let known: &[&str] = &["ok", "users"];
        assert(known@ =~= TeamInfoResponse::declared_fields());
        check_fields(&wire, known)?;
        let ok: bool = required(&mut wire, "ok")?;
        let users: Option<StringMap<bool>> = optional(&mut wire, "users")?;
        Ok(TeamInfoResponse { ok, users })
    }
}

} // verus!
