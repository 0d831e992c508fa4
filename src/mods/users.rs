//! Get info on members of your Slack team.

use crate::id::{ChannelId};
use crate::json::{all_known, check_fields, field_failed, first_unknown_key, optional_ok, optional_value, required_err, required_ok, taken, value_of, into_fields, optional, required, Decode, DecodeError, JsonValue};
use crate::timestamp::Timestamp;
use crate::types::{Team, User};
use vstd::prelude::*;

verus! {

#[derive(Clone, Debug, PartialEq)]
pub struct GetPresenceRequest<'a> {
    /// User to get presence info on. Defaults to the authed user.
    pub user: &'a str,
}

#[derive(Clone, Debug, PartialEq)]
pub struct GetPresenceResponse {
    ok: bool,
    pub presence: Option<String>,
}

impl GetPresenceResponse {
    /// The fields the record declares; it admits no others.
    pub open spec fn declared_fields() -> Seq<&'static str> {
        seq!["ok", "presence"]
    }
}

impl GetPresenceResponse {
    /// Whether `v` decodes as the record: an object whose fields read in order.
    #[verifier::opaque]
    pub open spec fn spec_accepts(v: JsonValue) -> bool {
        match v {
            JsonValue::Object(w) => {
                let left0 = w@;
                let left1 = taken(left0, "ok"@);
                &&& all_known(left0, GetPresenceResponse::declared_fields())
                &&& required_ok::<bool>(left0, "ok"@)
                &&& optional_ok::<String>(left1, "presence"@)
            },
            _ => false,
        }
    }

    /// Whether `x` holds what the fields of `v` read as.
    #[verifier::opaque]
    pub closed spec fn spec_decodes_to(v: JsonValue, x: GetPresenceResponse) -> bool {
        match v {
            JsonValue::Object(w) => {
                let left0 = w@;
                let left1 = taken(left0, "ok"@);
                &&& <bool as Decode>::decodes_to(value_of(left0, "ok"@), x.ok)
                &&& optional_value::<String>(left1, "presence"@, x.presence)
            },
            _ => false,
        }
    }

    /// Whether `e` is the error of the first check or field that fails on `v`.
    #[verifier::opaque]
    pub open spec fn spec_rejects_with(v: JsonValue, e: DecodeError) -> bool {
        match v {
            JsonValue::Object(w) => {
                let left0 = w@;
                let left1 = taken(left0, "ok"@);
                if !all_known(left0, GetPresenceResponse::declared_fields()) {
                    e == (DecodeError::UnknownField { field: first_unknown_key(left0, GetPresenceResponse::declared_fields()) })
                } else if !required_ok::<bool>(left0, "ok"@) {
                    required_err::<bool>(left0, "ok"@, e)
                } else if !optional_ok::<String>(left1, "presence"@) {
                    field_failed::<String>(left1, "presence"@, e)
                } else {
                    false
                }
            },
            _ => e == (DecodeError::WrongType { expected: "object" }),
        }
    }
}

impl Decode for GetPresenceResponse {
    open spec fn accepts(v: JsonValue) -> bool {
        GetPresenceResponse::spec_accepts(v)
    }

    open spec fn decodes_to(v: JsonValue, x: GetPresenceResponse) -> bool {
        GetPresenceResponse::spec_decodes_to(v, x)
    }

    open spec fn rejects_with(v: JsonValue, e: DecodeError) -> bool {
        GetPresenceResponse::spec_rejects_with(v, e)
    }

    fn decode(v: JsonValue) -> Result<GetPresenceResponse, DecodeError> {
        proof {
            reveal(GetPresenceResponse::spec_accepts);
            reveal(GetPresenceResponse::spec_decodes_to);
            reveal(GetPresenceResponse::spec_rejects_with);
        }
        let mut wire = into_fields(v)?;
        let known: &[&str] = &["ok", "presence"];
        assert(known@ =~= GetPresenceResponse::declared_fields());
        check_fields(&wire, known)?;
        let ok: bool = required(&mut wire, "ok")?;
        let presence: Option<String> = optional(&mut wire, "presence")?;
        Ok(GetPresenceResponse { ok, presence })
    }
}

#[derive(Clone, Debug, PartialEq)]
pub struct IdentityResponse {
    ok: bool,
    pub team: Option<Team>,
    pub user: Option<User>,
}

impl IdentityResponse {
    /// The fields the record declares; it admits no others.
    pub open spec fn declared_fields() -> Seq<&'static str> {
        seq!["ok", "team", "user"]
    }
}

impl IdentityResponse {
    /// Whether `v` decodes as the record: an object whose fields read in order.
    #[verifier::opaque]
    pub open spec fn spec_accepts(v: JsonValue) -> bool {
        match v {
            JsonValue::Object(w) => {
                let left0 = w@;
                let left1 = taken(left0, "ok"@);
                let left2 = taken(left1, "team"@);
                &&& all_known(left0, IdentityResponse::declared_fields())
                &&& required_ok::<bool>(left0, "ok"@)
                &&& optional_ok::<Team>(left1, "team"@)
                &&& optional_ok::<User>(left2, "user"@)
            },
            _ => false,
        }
    }

    /// Whether `x` holds what the fields of `v` read as.
    #[verifier::opaque]
    pub closed spec fn spec_decodes_to(v: JsonValue, x: IdentityResponse) -> bool {
        match v {
            JsonValue::Object(w) => {
                let left0 = w@;
                let left1 = taken(left0, "ok"@);
                let left2 = taken(left1, "team"@);
                &&& <bool as Decode>::decodes_to(value_of(left0, "ok"@), x.ok)
                &&& optional_value::<Team>(left1, "team"@, x.team)
                &&& optional_value::<User>(left2, "user"@, x.user)
            },
            _ => false,
        }
    }

    /// Whether `e` is the error of the first check or field that fails on `v`.
    #[verifier::opaque]
    pub open spec fn spec_rejects_with(v: JsonValue, e: DecodeError) -> bool {
        match v {
            JsonValue::Object(w) => {
                let left0 = w@;
                let left1 = taken(left0, "ok"@);
                let left2 = taken(left1, "team"@);
                if !all_known(left0, IdentityResponse::declared_fields()) {
                    e == (DecodeError::UnknownField { field: first_unknown_key(left0, IdentityResponse::declared_fields()) })
                } else if !required_ok::<bool>(left0, "ok"@) {
                    required_err::<bool>(left0, "ok"@, e)
                } else if !optional_ok::<Team>(left1, "team"@) {
                    field_failed::<Team>(left1, "team"@, e)
                } else if !optional_ok::<User>(left2, "user"@) {
                    field_failed::<User>(left2, "user"@, e)
                } else {
                    false
                }
            },
            _ => e == (DecodeError::WrongType { expected: "object" }),
        }
    }
}

impl Decode for IdentityResponse {
    open spec fn accepts(v: JsonValue) -> bool {
        IdentityResponse::spec_accepts(v)
    }

    open spec fn decodes_to(v: JsonValue, x: IdentityResponse) -> bool {
        IdentityResponse::spec_decodes_to(v, x)
    }

    open spec fn rejects_with(v: JsonValue, e: DecodeError) -> bool {
        IdentityResponse::spec_rejects_with(v, e)
    }

    fn decode(v: JsonValue) -> Result<IdentityResponse, DecodeError> {
        proof {
            reveal(IdentityResponse::spec_accepts);
            reveal(IdentityResponse::spec_decodes_to);
            reveal(IdentityResponse::spec_rejects_with);
        }
        let mut wire = into_fields(v)?;
        let known: &[&str] = &["ok", "team", "user"];
        assert(known@ =~= IdentityResponse::declared_fields());
        check_fields(&wire, known)?;
        let ok: bool = required(&mut wire, "ok")?;
        let team: Option<Team> = optional(&mut wire, "team")?;
        let user: Option<User> = optional(&mut wire, "user")?;
        Ok(IdentityResponse { ok, team, user })
    }
}

#[derive(Clone, Debug, PartialEq)]
pub struct InfoRequest<'a> {
    /// User to get info on
    pub user: &'a str,
}

#[derive(Clone, Debug, PartialEq)]
pub struct InfoResponse {
    ok: bool,
    pub user: Option<User>,
}

impl InfoResponse {
    /// The fields the record declares; it admits no others.
    pub open spec fn declared_fields() -> Seq<&'static str> {
        seq!["ok", "user"]
    }
}

impl InfoResponse {
    /// Whether `v` decodes as the record: an object whose fields read in order.
    #[verifier::opaque]
    pub open spec fn spec_accepts(v: JsonValue) -> bool {
        match v {
            JsonValue::Object(w) => {
                let left0 = w@;
                let left1 = taken(left0, "ok"@);
                &&& all_known(left0, InfoResponse::declared_fields())
                &&& required_ok::<bool>(left0, "ok"@)
                &&& optional_ok::<User>(left1, "user"@)
            },
            _ => false,
        }
    }

    /// Whether `x` holds what the fields of `v` read as.
    #[verifier::opaque]
    pub closed spec fn spec_decodes_to(v: JsonValue, x: InfoResponse) -> bool {
        match v {
            JsonValue::Object(w) => {
                let left0 = w@;
                let left1 = taken(left0, "ok"@);
                &&& <bool as Decode>::decodes_to(value_of(left0, "ok"@), x.ok)
                &&& optional_value::<User>(left1, "user"@, x.user)
            },
            _ => false,
        }
    }

    /// Whether `e` is the error of the first check or field that fails on `v`.
    #[verifier::opaque]
    pub open spec fn spec_rejects_with(v: JsonValue, e: DecodeError) -> bool {
        match v {
            JsonValue::Object(w) => {
                let left0 = w@;
                let left1 = taken(left0, "ok"@);
                if !all_known(left0, InfoResponse::declared_fields()) {
                    e == (DecodeError::UnknownField { field: first_unknown_key(left0, InfoResponse::declared_fields()) })
                } else if !required_ok::<bool>(left0, "ok"@) {
                    required_err::<bool>(left0, "ok"@, e)
                } else if !optional_ok::<User>(left1, "user"@) {
                    field_failed::<User>(left1, "user"@, e)
                } else {
                    false
                }
            },
            _ => e == (DecodeError::WrongType { expected: "object" }),
        }
    }
}

impl Decode for InfoResponse {
    open spec fn accepts(v: JsonValue) -> bool {
        InfoResponse::spec_accepts(v)
    }

    open spec fn decodes_to(v: JsonValue, x: InfoResponse) -> bool {
        InfoResponse::spec_decodes_to(v, x)
    }

    open spec fn rejects_with(v: JsonValue, e: DecodeError) -> bool {
        InfoResponse::spec_rejects_with(v, e)
    }

    fn decode(v: JsonValue) -> Result<InfoResponse, DecodeError> {
        proof {
            reveal(InfoResponse::spec_accepts);
            reveal(InfoResponse::spec_decodes_to);
            reveal(InfoResponse::spec_rejects_with);
        }
        let mut wire = into_fields(v)?;
        let known: &[&str] = &["ok", "user"];
        assert(known@ =~= InfoResponse::declared_fields());
        check_fields(&wire, known)?;
        let ok: bool = required(&mut wire, "ok")?;
        let user: Option<User> = optional(&mut wire, "user")?;
        Ok(InfoResponse { ok, user })
    }
}

/// At this time, providing no limit value will result in Slack
/// attempting to deliver you the entire result set.
/// If the collection is too large you may experience HTTP 500 errors.
/// Resolve this scenario by using pagination.
///
/// One day pagination will become required to use this method.
#[derive(Clone, Debug, PartialEq)]
pub struct ListRequest {
    /// Whether to include presence data in the output
    pub presence: Option<bool>,
    pub cursor: Option<String>,
    pub limit: Option<usize>,
    pub include_locale: Option<bool>,
}

#[derive(Clone, Debug, PartialEq)]
pub struct ListResponse {
    ok: bool,
    pub members: Vec<User>,
    pub cache_ts: Option<Timestamp>,
    pub response_metadata: Option<ResponseMetadata>,
    pub is_limited: Option<bool>,
}

impl ListResponse {
    /// The fields the record declares; it admits no others.
    pub open spec fn declared_fields() -> Seq<&'static str> {
        seq!["ok", "members", "cache_ts", "response_metadata", "is_limited"]
    }
}

impl ListResponse {
    /// Whether `v` decodes as the record: an object whose fields read in order.
    #[verifier::opaque]
    pub open spec fn spec_accepts(v: JsonValue) -> bool {
        match v {
            JsonValue::Object(w) => {
                let left0 = w@;
                let left1 = taken(left0, "ok"@);
                let left2 = taken(left1, "members"@);
                let left3 = taken(left2, "cache_ts"@);
                let left4 = taken(left3, "response_metadata"@);
                &&& all_known(left0, ListResponse::declared_fields())
                &&& required_ok::<bool>(left0, "ok"@)
                &&& required_ok::<Vec<User>>(left1, "members"@)
                &&& optional_ok::<Timestamp>(left2, "cache_ts"@)
                &&& optional_ok::<ResponseMetadata>(left3, "response_metadata"@)
                &&& optional_ok::<bool>(left4, "is_limited"@)
            },
            _ => false,
        }
    }

    /// Whether `x` holds what the fields of `v` read as.
    #[verifier::opaque]
    pub closed spec fn spec_decodes_to(v: JsonValue, x: ListResponse) -> bool {
        match v {
            JsonValue::Object(w) => {
                let left0 = w@;
                let left1 = taken(left0, "ok"@);
                let left2 = taken(left1, "members"@);
                let left3 = taken(left2, "cache_ts"@);
                let left4 = taken(left3, "response_metadata"@);
                &&& <bool as Decode>::decodes_to(value_of(left0, "ok"@), x.ok)
                &&& <Vec<User> as Decode>::decodes_to(value_of(left1, "members"@), x.members)
                &&& optional_value::<Timestamp>(left2, "cache_ts"@, x.cache_ts)
                &&& optional_value::<ResponseMetadata>(left3, "response_metadata"@, x.response_metadata)
                &&& optional_value::<bool>(left4, "is_limited"@, x.is_limited)
            },
            _ => false,
        }
    }

    /// Whether `e` is the error of the first check or field that fails on `v`.
    #[verifier::opaque]
    pub open spec fn spec_rejects_with(v: JsonValue, e: DecodeError) -> bool {
        match v {
            JsonValue::Object(w) => {
                let left0 = w@;
                let left1 = taken(left0, "ok"@);
                let left2 = taken(left1, "members"@);
                let left3 = taken(left2, "cache_ts"@);
                let left4 = taken(left3, "response_metadata"@);
                if !all_known(left0, ListResponse::declared_fields()) {
                    e == (DecodeError::UnknownField { field: first_unknown_key(left0, ListResponse::declared_fields()) })
                } else if !required_ok::<bool>(left0, "ok"@) {
                    required_err::<bool>(left0, "ok"@, e)
                } else if !required_ok::<Vec<User>>(left1, "members"@) {
                    required_err::<Vec<User>>(left1, "members"@, e)
                } else if !optional_ok::<Timestamp>(left2, "cache_ts"@) {
                    field_failed::<Timestamp>(left2, "cache_ts"@, e)
                } else if !optional_ok::<ResponseMetadata>(left3, "response_metadata"@) {
                    field_failed::<ResponseMetadata>(left3, "response_metadata"@, e)
                } else if !optional_ok::<bool>(left4, "is_limited"@) {
                    field_failed::<bool>(left4, "is_limited"@, e)
                } else {
                    false
                }
            },
            _ => e == (DecodeError::WrongType { expected: "object" }),
        }
    }
}

impl Decode for ListResponse {
    open spec fn accepts(v: JsonValue) -> bool {
        ListResponse::spec_accepts(v)
    }

    open spec fn decodes_to(v: JsonValue, x: ListResponse) -> bool {
        ListResponse::spec_decodes_to(v, x)
    }

    open spec fn rejects_with(v: JsonValue, e: DecodeError) -> bool {
        ListResponse::spec_rejects_with(v, e)
    }

    fn decode(v: JsonValue) -> Result<ListResponse, DecodeError> {
        proof {
            reveal(ListResponse::spec_accepts);
            reveal(ListResponse::spec_decodes_to);
            reveal(ListResponse::spec_rejects_with);
        }
        let mut wire = into_fields(v)?;
        let known: &[&str] = &["ok", "members", "cache_ts", "response_metadata", "is_limited"];
        assert(known@ =~= ListResponse::declared_fields());
        check_fields(&wire, known)?;
        let ok: bool = required(&mut wire, "ok")?;
        let members: Vec<User> = required(&mut wire, "members")?;
        let cache_ts: Option<Timestamp> = optional(&mut wire, "cache_ts")?;
        let response_metadata: Option<ResponseMetadata> = optional(&mut wire, "response_metadata")?;
        let is_limited: Option<bool> = optional(&mut wire, "is_limited")?;
        Ok(ListResponse { ok, members, cache_ts, response_metadata, is_limited })
    }
}

#[derive(Clone, Debug, PartialEq)]
pub struct ResponseMetadata {
    next_cursor: Option<String>,
}

impl ResponseMetadata {
    /// The fields the record declares; it admits no others.
    pub open spec fn declared_fields() -> Seq<&'static str> {
        seq!["next_cursor"]
    }
}

impl ResponseMetadata {
    /// Whether `v` decodes as the record: an object whose fields read in order.
    #[verifier::opaque]
    pub open spec fn spec_accepts(v: JsonValue) -> bool {
        match v {
            JsonValue::Object(w) => {
                let left0 = w@;
                &&& all_known(left0, ResponseMetadata::declared_fields())
                &&& optional_ok::<String>(left0, "next_cursor"@)
            },
            _ => false,
        }
    }

    /// Whether `x` holds what the fields of `v` read as.
    #[verifier::opaque]
    pub closed spec fn spec_decodes_to(v: JsonValue, x: ResponseMetadata) -> bool {
        match v {
            JsonValue::Object(w) => {
                let left0 = w@;
                &&& optional_value::<String>(left0, "next_cursor"@, x.next_cursor)
            },
            _ => false,
        }
    }

    /// Whether `e` is the error of the first check or field that fails on `v`.
    #[verifier::opaque]
    pub open spec fn spec_rejects_with(v: JsonValue, e: DecodeError) -> bool {
        match v {
            JsonValue::Object(w) => {
                let left0 = w@;
                if !all_known(left0, ResponseMetadata::declared_fields()) {
                    e == (DecodeError::UnknownField { field: first_unknown_key(left0, ResponseMetadata::declared_fields()) })
                } else if !optional_ok::<String>(left0, "next_cursor"@) {
                    field_failed::<String>(left0, "next_cursor"@, e)
                } else {
                    false
                }
            },
            _ => e == (DecodeError::WrongType { expected: "object" }),
        }
    }
}

impl Decode for ResponseMetadata {
    open spec fn accepts(v: JsonValue) -> bool {
        ResponseMetadata::spec_accepts(v)
    }

    open spec fn decodes_to(v: JsonValue, x: ResponseMetadata) -> bool {
        ResponseMetadata::spec_decodes_to(v, x)
    }

    open spec fn rejects_with(v: JsonValue, e: DecodeError) -> bool {
        ResponseMetadata::spec_rejects_with(v, e)
    }

    fn decode(v: JsonValue) -> Result<ResponseMetadata, DecodeError> {
        proof {
            reveal(ResponseMetadata::spec_accepts);
            reveal(ResponseMetadata::spec_decodes_to);
            reveal(ResponseMetadata::spec_rejects_with);
        }
        let mut wire = into_fields(v)?;
        let known: &[&str] = &["next_cursor"];
        assert(known@ =~= ResponseMetadata::declared_fields());
        check_fields(&wire, known)?;
        let next_cursor: Option<String> = optional(&mut wire, "next_cursor")?;
        Ok(ResponseMetadata { next_cursor })
    }
}

#[derive(Clone, Debug, PartialEq)]
pub struct PrefsResponse {
    ok: bool,
    pub prefs: UserPrefs,
}

impl PrefsResponse {
    /// The fields the record declares; it admits no others.
    pub open spec fn declared_fields() -> Seq<&'static str> {
        seq!["ok", "prefs"]
    }
}

impl PrefsResponse {
    /// Whether `v` decodes as the record: an object whose fields read in order.
    #[verifier::opaque]
    pub open spec fn spec_accepts(v: JsonValue) -> bool {
        match v {
            JsonValue::Object(w) => {
                let left0 = w@;
                let left1 = taken(left0, "ok"@);
                &&& all_known(left0, PrefsResponse::declared_fields())
                &&& required_ok::<bool>(left0, "ok"@)
                &&& required_ok::<UserPrefs>(left1, "prefs"@)
            },
            _ => false,
        }
    }

    /// Whether `x` holds what the fields of `v` read as.
    #[verifier::opaque]
    pub closed spec fn spec_decodes_to(v: JsonValue, x: PrefsResponse) -> bool {
        match v {
            JsonValue::Object(w) => {
                let left0 = w@;
                let left1 = taken(left0, "ok"@);
                &&& <bool as Decode>::decodes_to(value_of(left0, "ok"@), x.ok)
                &&& <UserPrefs as Decode>::decodes_to(value_of(left1, "prefs"@), x.prefs)
            },
            _ => false,
        }
    }

    /// Whether `e` is the error of the first check or field that fails on `v`.
    #[verifier::opaque]
    pub open spec fn spec_rejects_with(v: JsonValue, e: DecodeError) -> bool {
        match v {
            JsonValue::Object(w) => {
                let left0 = w@;
                let left1 = taken(left0, "ok"@);
                if !all_known(left0, PrefsResponse::declared_fields()) {
                    e == (DecodeError::UnknownField { field: first_unknown_key(left0, PrefsResponse::declared_fields()) })
                } else if !required_ok::<bool>(left0, "ok"@) {
                    required_err::<bool>(left0, "ok"@, e)
                } else if !required_ok::<UserPrefs>(left1, "prefs"@) {
                    required_err::<UserPrefs>(left1, "prefs"@, e)
                } else {
                    false
                }
            },
            _ => e == (DecodeError::WrongType { expected: "object" }),
        }
    }
}

impl Decode for PrefsResponse {
    open spec fn accepts(v: JsonValue) -> bool {
        PrefsResponse::spec_accepts(v)
    }

    open spec fn decodes_to(v: JsonValue, x: PrefsResponse) -> bool {
        PrefsResponse::spec_decodes_to(v, x)
    }

    open spec fn rejects_with(v: JsonValue, e: DecodeError) -> bool {
        PrefsResponse::spec_rejects_with(v, e)
    }

    fn decode(v: JsonValue) -> Result<PrefsResponse, DecodeError> {
        proof {
            reveal(PrefsResponse::spec_accepts);
            reveal(PrefsResponse::spec_decodes_to);
            reveal(PrefsResponse::spec_rejects_with);
        }
        let mut wire = into_fields(v)?;
        let known: &[&str] = &["ok", "prefs"];
        assert(known@ =~= PrefsResponse::declared_fields());
        check_fields(&wire, known)?;
        let ok: bool = required(&mut wire, "ok")?;
        let prefs: UserPrefs = required(&mut wire, "prefs")?;
        Ok(PrefsResponse { ok, prefs })
    }
}

#[derive(Clone, Debug, PartialEq)]
pub struct UserPrefs {
    muted_channels: Vec<ChannelId>,
}

impl UserPrefs {
    /// The fields the record declares; it admits no others.
    pub open spec fn declared_fields() -> Seq<&'static str> {
        seq!["muted_channels"]
    }
}

impl UserPrefs {
    /// Whether `v` decodes as the record: an object whose fields read in order.
    #[verifier::opaque]
    pub open spec fn spec_accepts(v: JsonValue) -> bool {
        match v {
            JsonValue::Object(w) => {
                let left0 = w@;
                &&& all_known(left0, UserPrefs::declared_fields())
                &&& required_ok::<Vec<ChannelId>>(left0, "muted_channels"@)
            },
            _ => false,
        }
    }

    /// Whether `x` holds what the fields of `v` read as.
    #[verifier::opaque]
    pub closed spec fn spec_decodes_to(v: JsonValue, x: UserPrefs) -> bool {
        match v {
            JsonValue::Object(w) => {
                let left0 = w@;
                &&& <Vec<ChannelId> as Decode>::decodes_to(value_of(left0, "muted_channels"@), x.muted_channels)
            },
            _ => false,
        }
    }

    /// Whether `e` is the error of the first check or field that fails on `v`.
    #[verifier::opaque]
    pub open spec fn spec_rejects_with(v: JsonValue, e: DecodeError) -> bool {
        match v {
            JsonValue::Object(w) => {
                let left0 = w@;
                if !all_known(left0, UserPrefs::declared_fields()) {
                    e == (DecodeError::UnknownField { field: first_unknown_key(left0, UserPrefs::declared_fields()) })
                } else if !required_ok::<Vec<ChannelId>>(left0, "muted_channels"@) {
                    required_err::<Vec<ChannelId>>(left0, "muted_channels"@, e)
                } else {
                    false
                }
            },
            _ => e == (DecodeError::WrongType { expected: "object" }),
        }
    }
}

impl Decode for UserPrefs {
    open spec fn accepts(v: JsonValue) -> bool {
        UserPrefs::spec_accepts(v)
    }

    open spec fn decodes_to(v: JsonValue, x: UserPrefs) -> bool {
        UserPrefs::spec_decodes_to(v, x)
    }

    open spec fn rejects_with(v: JsonValue, e: DecodeError) -> bool {
        UserPrefs::spec_rejects_with(v, e)
    }

    fn decode(v: JsonValue) -> Result<UserPrefs, DecodeError> {
        proof {
            reveal(UserPrefs::spec_accepts);
            reveal(UserPrefs::spec_decodes_to);
            reveal(UserPrefs::spec_rejects_with);
        }
        let mut wire = into_fields(v)?;
        let known: &[&str] = &["muted_channels"];
        assert(known@ =~= UserPrefs::declared_fields());
        check_fields(&wire, known)?;
        let muted_channels: Vec<ChannelId> = required(&mut wire, "muted_channels")?;
        Ok(UserPrefs { muted_channels })
    }
}

#[derive(Clone, Debug, PartialEq)]
pub struct SetPresenceRequest<'a> {
    /// Either auto or away
    pub presence: &'a str,
}

} // verus!
