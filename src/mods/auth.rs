use crate::json::{all_known, check_fields, first_unknown_key, required_err, required_ok, taken, value_of, into_fields, required, Decode, DecodeError, JsonValue};
use vstd::prelude::*;

verus! {

#[derive(Clone, Debug, PartialEq)]
pub struct RevokeRequest {
    /// Setting this parameter to 1 triggers a testing mode where the specified token will not actually be revoked.
    pub test: Option<bool>,
}

#[derive(Clone, Debug, PartialEq)]
pub struct RevokeResponse {
    ok: bool,
    pub revoked: bool,
}

impl RevokeResponse {
    /// The fields the record declares; it admits no others.
    pub open spec fn declared_fields() -> Seq<&'static str> {
        seq!["ok", "revoked"]
    }
}

impl RevokeResponse {
    /// Whether `v` decodes as the record: an object whose fields read in order.
    #[verifier::opaque]
    pub open spec fn spec_accepts(v: JsonValue) -> bool {
        match v {
            JsonValue::Object(w) => {
                let left0 = w@;
                let left1 = taken(left0, "ok"@);
                &&& all_known(left0, RevokeResponse::declared_fields())
                &&& required_ok::<bool>(left0, "ok"@)
                &&& required_ok::<bool>(left1, "revoked"@)
            },
            _ => false,
        }
    }

    /// Whether `x` holds what the fields of `v` read as.
    #[verifier::opaque]
    pub closed spec fn spec_decodes_to(v: JsonValue, x: RevokeResponse) -> bool {
        match v {
            JsonValue::Object(w) => {
                let left0 = w@;
                let left1 = taken(left0, "ok"@);
                &&& <bool as Decode>::decodes_to(value_of(left0, "ok"@), x.ok)
                &&& <bool as Decode>::decodes_to(value_of(left1, "revoked"@), x.revoked)
            },
            _ => false,
        }
    }

    /// Whether `e` is the error of the first check or field that fails on `v`.
    #[verifier::opaque]
    pub open spec fn spec_rejects_with(v: JsonValue, e: DecodeError) -> bool {
        match v {
            JsonValue::Object(w) => {
                let left0 = w@;
                let left1 = taken(left0, "ok"@);
                if !all_known(left0, RevokeResponse::declared_fields()) {
                    e == (DecodeError::UnknownField { field: first_unknown_key(left0, RevokeResponse::declared_fields()) })
                } else if !required_ok::<bool>(left0, "ok"@) {
                    required_err::<bool>(left0, "ok"@, e)
                } else if !required_ok::<bool>(left1, "revoked"@) {
                    required_err::<bool>(left1, "revoked"@, e)
                } else {
                    false
                }
            },
            _ => e == (DecodeError::WrongType { expected: "object" }),
        }
    }
}

impl Decode for RevokeResponse {
    open spec fn accepts(v: JsonValue) -> bool {
        RevokeResponse::spec_accepts(v)
    }

    open spec fn decodes_to(v: JsonValue, x: RevokeResponse) -> bool {
        RevokeResponse::spec_decodes_to(v, x)
    }

    open spec fn rejects_with(v: JsonValue, e: DecodeError) -> bool {
        RevokeResponse::spec_rejects_with(v, e)
    }

    fn decode(v: JsonValue) -> Result<RevokeResponse, DecodeError> {
        proof {
            reveal(RevokeResponse::spec_accepts);
            reveal(RevokeResponse::spec_decodes_to);
            reveal(RevokeResponse::spec_rejects_with);
        }
        let mut wire = into_fields(v)?;
        let known: &[&str] = &["ok", "revoked"];
        assert(known@ =~= RevokeResponse::declared_fields());
        check_fields(&wire, known)?;
        let ok: bool = required(&mut wire, "ok")?;
        let revoked: bool = required(&mut wire, "revoked")?;
        Ok(RevokeResponse { ok, revoked })
    }
}

#[derive(Clone, Debug, PartialEq)]
pub struct TestResponse {
    ok: bool,
    pub team: String,
    pub team_id: String,
    pub url: String,
    pub user: String,
    pub user_id: String,
}

impl TestResponse {
    /// The fields the record declares; it admits no others.
    pub open spec fn declared_fields() -> Seq<&'static str> {
        seq!["ok", "team", "team_id", "url", "user", "user_id"]
    }
}

impl TestResponse {
    /// Whether `v` decodes as the record: an object whose fields read in order.
    #[verifier::opaque]
    pub open spec fn spec_accepts(v: JsonValue) -> bool {
        match v {
            JsonValue::Object(w) => {
                let left0 = w@;
                let left1 = taken(left0, "ok"@);
                let left2 = taken(left1, "team"@);
                let left3 = taken(left2, "team_id"@);
                let left4 = taken(left3, "url"@);
                let left5 = taken(left4, "user"@);
                &&& all_known(left0, TestResponse::declared_fields())
                &&& required_ok::<bool>(left0, "ok"@)
                &&& required_ok::<String>(left1, "team"@)
                &&& required_ok::<String>(left2, "team_id"@)
                &&& required_ok::<String>(left3, "url"@)
                &&& required_ok::<String>(left4, "user"@)
                &&& required_ok::<String>(left5, "user_id"@)
            },
            _ => false,
        }
    }

    /// Whether `x` holds what the fields of `v` read as.
    #[verifier::opaque]
    pub closed spec fn spec_decodes_to(v: JsonValue, x: TestResponse) -> bool {
        match v {
            JsonValue::Object(w) => {
                let left0 = w@;
                let left1 = taken(left0, "ok"@);
                let left2 = taken(left1, "team"@);
                let left3 = taken(left2, "team_id"@);
                let left4 = taken(left3, "url"@);
                let left5 = taken(left4, "user"@);
                &&& <bool as Decode>::decodes_to(value_of(left0, "ok"@), x.ok)
                &&& <String as Decode>::decodes_to(value_of(left1, "team"@), x.team)
                &&& <String as Decode>::decodes_to(value_of(left2, "team_id"@), x.team_id)
                &&& <String as Decode>::decodes_to(value_of(left3, "url"@), x.url)
                &&& <String as Decode>::decodes_to(value_of(left4, "user"@), x.user)
                &&& <String as Decode>::decodes_to(value_of(left5, "user_id"@), x.user_id)
            },
            _ => false,
        }
    }

    /// Whether `e` is the error of the first check or field that fails on `v`.
    #[verifier::opaque]
    pub open spec fn spec_rejects_with(v: JsonValue, e: DecodeError) -> bool {
        match v {
            JsonValue::Object(w) => {
                let left0 = w@;
                let left1 = taken(left0, "ok"@);
                let left2 = taken(left1, "team"@);
                let left3 = taken(left2, "team_id"@);
                let left4 = taken(left3, "url"@);
                let left5 = taken(left4, "user"@);
                if !all_known(left0, TestResponse::declared_fields()) {
                    e == (DecodeError::UnknownField { field: first_unknown_key(left0, TestResponse::declared_fields()) })
                } else if !required_ok::<bool>(left0, "ok"@) {
                    required_err::<bool>(left0, "ok"@, e)
                } else if !required_ok::<String>(left1, "team"@) {
                    required_err::<String>(left1, "team"@, e)
                } else if !required_ok::<String>(left2, "team_id"@) {
                    required_err::<String>(left2, "team_id"@, e)
                } else if !required_ok::<String>(left3, "url"@) {
                    required_err::<String>(left3, "url"@, e)
                } else if !required_ok::<String>(left4, "user"@) {
                    required_err::<String>(left4, "user"@, e)
                } else if !required_ok::<String>(left5, "user_id"@) {
                    required_err::<String>(left5, "user_id"@, e)
                } else {
                    false
                }
            },
            _ => e == (DecodeError::WrongType { expected: "object" }),
        }
    }
}

impl Decode for TestResponse {
    open spec fn accepts(v: JsonValue) -> bool {
        TestResponse::spec_accepts(v)
    }

    open spec fn decodes_to(v: JsonValue, x: TestResponse) -> bool {
        TestResponse::spec_decodes_to(v, x)
    }

    open spec fn rejects_with(v: JsonValue, e: DecodeError) -> bool {
        TestResponse::spec_rejects_with(v, e)
    }

    fn decode(v: JsonValue) -> Result<TestResponse, DecodeError> {
        proof {
            reveal(TestResponse::spec_accepts);
            reveal(TestResponse::spec_decodes_to);
            reveal(TestResponse::spec_rejects_with);
        }
        let mut wire = into_fields(v)?;
        let known: &[&str] = &["ok", "team", "team_id", "url", "user", "user_id"];
        assert(known@ =~= TestResponse::declared_fields());
        check_fields(&wire, known)?;
        let ok: bool = required(&mut wire, "ok")?;
        let team: String = required(&mut wire, "team")?;
        let team_id: String = required(&mut wire, "team_id")?;
        let url: String = required(&mut wire, "url")?;
        let user: String = required(&mut wire, "user")?;
        let user_id: String = required(&mut wire, "user_id")?;
        Ok(TestResponse { ok, team, team_id, url, user, user_id })
    }
}

} // verus!
