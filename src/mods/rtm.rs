use crate::json::{all_known, check_fields, field_failed, first_unknown_key, optional_ok, optional_value, required_err, required_ok, taken, value_of, into_fields, optional, required, Decode, DecodeError, JsonValue};
use crate::types::{Bot, Channel, Group, Im, Mpim, Team, User};
use vstd::prelude::*;

verus! {

#[derive(Clone, Debug, PartialEq)]
pub struct ConnectRequest {
    batch_presence_aware: Option<bool>,
    presence_sub: Option<bool>,
}

#[derive(Clone, Debug, PartialEq)]
pub struct ConnectResponse {
    ok: bool,
    pub slf: ConnectResponseSelf,
    pub team: ConnectResponseTeam,
    pub url: String,
}

impl ConnectResponse {
    /// The fields the record declares; it admits no others.
    pub open spec fn declared_fields() -> Seq<&'static str> {
        seq!["ok", "self", "team", "url"]
    }
}

impl ConnectResponse {
    /// Whether `v` decodes as the record: an object whose fields read in order.
    #[verifier::opaque]
    pub open spec fn spec_accepts(v: JsonValue) -> bool {
        match v {
            JsonValue::Object(w) => {
                let left0 = w@;
                let left1 = taken(left0, "ok"@);
                let left2 = taken(left1, "self"@);
                let left3 = taken(left2, "team"@);
                &&& all_known(left0, ConnectResponse::declared_fields())
                &&& required_ok::<bool>(left0, "ok"@)
                &&& required_ok::<ConnectResponseSelf>(left1, "self"@)
                &&& required_ok::<ConnectResponseTeam>(left2, "team"@)
                &&& required_ok::<String>(left3, "url"@)
            },
            _ => false,
        }
    }

    /// Whether `x` holds what the fields of `v` read as.
    #[verifier::opaque]
    pub closed spec fn spec_decodes_to(v: JsonValue, x: ConnectResponse) -> bool {
        match v {
            JsonValue::Object(w) => {
                let left0 = w@;
                let left1 = taken(left0, "ok"@);
                let left2 = taken(left1, "self"@);
                let left3 = taken(left2, "team"@);
                &&& <bool as Decode>::decodes_to(value_of(left0, "ok"@), x.ok)
                &&& <ConnectResponseSelf as Decode>::decodes_to(value_of(left1, "self"@), x.slf)
                &&& <ConnectResponseTeam as Decode>::decodes_to(value_of(left2, "team"@), x.team)
                &&& <String as Decode>::decodes_to(value_of(left3, "url"@), x.url)
            },
            _ => false,
        }
    }

    /// Whether `e` is the error of the first check or field that fails on `v`.
    #[verifier::opaque]
    pub open spec fn spec_rejects_with(v: JsonValue, e: DecodeError) -> bool {
        match v {
            JsonValue::Object(w) => {
                let left0 = w@;
                let left1 = taken(left0, "ok"@);
                let left2 = taken(left1, "self"@);
                let left3 = taken(left2, "team"@);
                if !all_known(left0, ConnectResponse::declared_fields()) {
                    e == (DecodeError::UnknownField { field: first_unknown_key(left0, ConnectResponse::declared_fields()) })
                } else if !required_ok::<bool>(left0, "ok"@) {
                    required_err::<bool>(left0, "ok"@, e)
                } else if !required_ok::<ConnectResponseSelf>(left1, "self"@) {
                    required_err::<ConnectResponseSelf>(left1, "self"@, e)
                } else if !required_ok::<ConnectResponseTeam>(left2, "team"@) {
                    required_err::<ConnectResponseTeam>(left2, "team"@, e)
                } else if !required_ok::<String>(left3, "url"@) {
                    required_err::<String>(left3, "url"@, e)
                } else {
                    false
                }
            },
            _ => e == (DecodeError::WrongType { expected: "object" }),
        }
    }
}

impl Decode for ConnectResponse {
    open spec fn accepts(v: JsonValue) -> bool {
        ConnectResponse::spec_accepts(v)
    }

    open spec fn decodes_to(v: JsonValue, x: ConnectResponse) -> bool {
        ConnectResponse::spec_decodes_to(v, x)
    }

    open spec fn rejects_with(v: JsonValue, e: DecodeError) -> bool {
        ConnectResponse::spec_rejects_with(v, e)
    }

    fn decode(v: JsonValue) -> Result<ConnectResponse, DecodeError> {
        proof {
            reveal(ConnectResponse::spec_accepts);
            reveal(ConnectResponse::spec_decodes_to);
            reveal(ConnectResponse::spec_rejects_with);
        }
        let mut wire = into_fields(v)?;
        let known: &[&str] = &["ok", "self", "team", "url"];
        assert(known@ =~= ConnectResponse::declared_fields());
        check_fields(&wire, known)?;
        let ok: bool = required(&mut wire, "ok")?;
        let slf: ConnectResponseSelf = required(&mut wire, "self")?;
        let team: ConnectResponseTeam = required(&mut wire, "team")?;
        let url: String = required(&mut wire, "url")?;
        Ok(ConnectResponse { ok, slf, team, url })
    }
}

#[derive(Clone, Debug, PartialEq)]
pub struct ConnectResponseSelf {
    pub id: String,
    pub name: String,
}

impl ConnectResponseSelf {
    /// The fields the record declares; it admits no others.
    pub open spec fn declared_fields() -> Seq<&'static str> {
        seq!["id", "name"]
    }
}

impl ConnectResponseSelf {
    /// Whether `v` decodes as the record: an object whose fields read in order.
    #[verifier::opaque]
    pub open spec fn spec_accepts(v: JsonValue) -> bool {
        match v {
            JsonValue::Object(w) => {
                let left0 = w@;
                let left1 = taken(left0, "id"@);
                &&& all_known(left0, ConnectResponseSelf::declared_fields())
                &&& required_ok::<String>(left0, "id"@)
                &&& required_ok::<String>(left1, "name"@)
            },
            _ => false,
        }
    }

    /// Whether `x` holds what the fields of `v` read as.
    #[verifier::opaque]
    pub open spec fn spec_decodes_to(v: JsonValue, x: ConnectResponseSelf) -> bool {
        match v {
            JsonValue::Object(w) => {
                let left0 = w@;
                let left1 = taken(left0, "id"@);
                &&& <String as Decode>::decodes_to(value_of(left0, "id"@), x.id)
                &&& <String as Decode>::decodes_to(value_of(left1, "name"@), x.name)
            },
            _ => false,
        }
    }

    /// Whether `e` is the error of the first check or field that fails on `v`.
    #[verifier::opaque]
    pub open spec fn spec_rejects_with(v: JsonValue, e: DecodeError) -> bool {
        match v {
            JsonValue::Object(w) => {
                let left0 = w@;
                let left1 = taken(left0, "id"@);
                if !all_known(left0, ConnectResponseSelf::declared_fields()) {
                    e == (DecodeError::UnknownField { field: first_unknown_key(left0, ConnectResponseSelf::declared_fields()) })
                } else if !required_ok::<String>(left0, "id"@) {
                    required_err::<String>(left0, "id"@, e)
                } else if !required_ok::<String>(left1, "name"@) {
                    required_err::<String>(left1, "name"@, e)
                } else {
                    false
                }
            },
            _ => e == (DecodeError::WrongType { expected: "object" }),
        }
    }
}

impl Decode for ConnectResponseSelf {
    open spec fn accepts(v: JsonValue) -> bool {
        ConnectResponseSelf::spec_accepts(v)
    }

    open spec fn decodes_to(v: JsonValue, x: ConnectResponseSelf) -> bool {
        ConnectResponseSelf::spec_decodes_to(v, x)
    }

    open spec fn rejects_with(v: JsonValue, e: DecodeError) -> bool {
        ConnectResponseSelf::spec_rejects_with(v, e)
    }

    fn decode(v: JsonValue) -> Result<ConnectResponseSelf, DecodeError> {
        proof {
            reveal(ConnectResponseSelf::spec_accepts);
            reveal(ConnectResponseSelf::spec_decodes_to);
            reveal(ConnectResponseSelf::spec_rejects_with);
        }
        let mut wire = into_fields(v)?;
        let known: &[&str] = &["id", "name"];
        assert(known@ =~= ConnectResponseSelf::declared_fields());
        check_fields(&wire, known)?;
        let id: String = required(&mut wire, "id")?;
        let name: String = required(&mut wire, "name")?;
        Ok(ConnectResponseSelf { id, name })
    }
}

#[derive(Clone, Debug, PartialEq)]
pub struct ConnectResponseTeam {
    pub domain: Option<String>,
    pub enterprise_id: Option<String>,
    pub enterprise_name: Option<String>,
    pub id: Option<String>,
    pub name: String,
}

impl ConnectResponseTeam {
    /// The fields the record declares; it admits no others.
    pub open spec fn declared_fields() -> Seq<&'static str> {
        seq!["domain", "enterprise_id", "enterprise_name", "id", "name"]
    }
}

impl ConnectResponseTeam {
    /// Whether `v` decodes as the record: an object whose fields read in order.
    #[verifier::opaque]
    pub open spec fn spec_accepts(v: JsonValue) -> bool {
        match v {
            JsonValue::Object(w) => {
                let left0 = w@;
                let left1 = taken(left0, "domain"@);
                let left2 = taken(left1, "enterprise_id"@);
                let left3 = taken(left2, "enterprise_name"@);
                let left4 = taken(left3, "id"@);
                &&& all_known(left0, ConnectResponseTeam::declared_fields())
                &&& optional_ok::<String>(left0, "domain"@)
                &&& optional_ok::<String>(left1, "enterprise_id"@)
                &&& optional_ok::<String>(left2, "enterprise_name"@)
                &&& optional_ok::<String>(left3, "id"@)
                &&& required_ok::<String>(left4, "name"@)
            },
            _ => false,
        }
    }

    /// Whether `x` holds what the fields of `v` read as.
    #[verifier::opaque]
    pub open spec fn spec_decodes_to(v: JsonValue, x: ConnectResponseTeam) -> bool {
        match v {
            JsonValue::Object(w) => {
                let left0 = w@;
                let left1 = taken(left0, "domain"@);
                let left2 = taken(left1, "enterprise_id"@);
                let left3 = taken(left2, "enterprise_name"@);
                let left4 = taken(left3, "id"@);
                &&& optional_value::<String>(left0, "domain"@, x.domain)
                &&& optional_value::<String>(left1, "enterprise_id"@, x.enterprise_id)
                &&& optional_value::<String>(left2, "enterprise_name"@, x.enterprise_name)
                &&& optional_value::<String>(left3, "id"@, x.id)
                &&& <String as Decode>::decodes_to(value_of(left4, "name"@), x.name)
            },
            _ => false,
        }
    }

    /// Whether `e` is the error of the first check or field that fails on `v`.
    #[verifier::opaque]
    pub open spec fn spec_rejects_with(v: JsonValue, e: DecodeError) -> bool {
        match v {
            JsonValue::Object(w) => {
                let left0 = w@;
                let left1 = taken(left0, "domain"@);
                let left2 = taken(left1, "enterprise_id"@);
                let left3 = taken(left2, "enterprise_name"@);
                let left4 = taken(left3, "id"@);
                if !all_known(left0, ConnectResponseTeam::declared_fields()) {
                    e == (DecodeError::UnknownField { field: first_unknown_key(left0, ConnectResponseTeam::declared_fields()) })
                } else if !optional_ok::<String>(left0, "domain"@) {
                    field_failed::<String>(left0, "domain"@, e)
                } else if !optional_ok::<String>(left1, "enterprise_id"@) {
                    field_failed::<String>(left1, "enterprise_id"@, e)
                } else if !optional_ok::<String>(left2, "enterprise_name"@) {
                    field_failed::<String>(left2, "enterprise_name"@, e)
                } else if !optional_ok::<String>(left3, "id"@) {
                    field_failed::<String>(left3, "id"@, e)
                } else if !required_ok::<String>(left4, "name"@) {
                    required_err::<String>(left4, "name"@, e)
                } else {
                    false
                }
            },
            _ => e == (DecodeError::WrongType { expected: "object" }),
        }
    }
}

impl Decode for ConnectResponseTeam {
    open spec fn accepts(v: JsonValue) -> bool {
        ConnectResponseTeam::spec_accepts(v)
    }

    open spec fn decodes_to(v: JsonValue, x: ConnectResponseTeam) -> bool {
        ConnectResponseTeam::spec_decodes_to(v, x)
    }

    open spec fn rejects_with(v: JsonValue, e: DecodeError) -> bool {
        ConnectResponseTeam::spec_rejects_with(v, e)
    }

    fn decode(v: JsonValue) -> Result<ConnectResponseTeam, DecodeError> {
        proof {
            reveal(ConnectResponseTeam::spec_accepts);
            reveal(ConnectResponseTeam::spec_decodes_to);
            reveal(ConnectResponseTeam::spec_rejects_with);
        }
        let mut wire = into_fields(v)?;
        let known: &[&str] = &["domain", "enterprise_id", "enterprise_name", "id", "name"];
        assert(known@ =~= ConnectResponseTeam::declared_fields());
        check_fields(&wire, known)?;
        let domain: Option<String> = optional(&mut wire, "domain")?;
        let enterprise_id: Option<String> = optional(&mut wire, "enterprise_id")?;
        let enterprise_name: Option<String> = optional(&mut wire, "enterprise_name")?;
        let id: Option<String> = optional(&mut wire, "id")?;
        let name: String = required(&mut wire, "name")?;
        Ok(ConnectResponseTeam { domain, enterprise_id, enterprise_name, id, name })
    }
}

#[derive(Clone, Debug, PartialEq)]
pub struct StartRequest {
    /// Skip unread counts for each channel (improves performance).
    pub no_unreads: Option<bool>,
    /// Returns MPIMs to the client in the API response.
    pub mpim_aware: Option<bool>,
    /// Exclude latest timestamps for channels, groups, mpims, and ims. Automatically sets no_unreads to 1
    pub no_latest: Option<bool>,
    /// Only deliver presence events when requested by subscription. See [presence subscriptions](/docs/presence-and-status#subscriptions).
    pub batch_presence_aware: Option<bool>,
    /// Set this to `true` to receive the locale for users and channels. Defaults to `false`
    pub include_locale: Option<bool>,
}

#[derive(Clone, Debug, PartialEq)]
pub struct StartResponse {
    ok: bool,
    pub bots: Option<Vec<Bot>>,
    pub channels: Option<Vec<Channel>>,
    pub groups: Option<Vec<Group>>,
    pub ims: Option<Vec<Im>>,
    pub mpims: Option<Vec<Mpim>>,
    pub slf: Option<User>,
    pub team: Option<Team>,
    pub url: Option<String>,
    pub users: Option<Vec<User>>,
}

impl StartResponse {
    /// The fields the record declares; it admits no others.
    pub open spec fn declared_fields() -> Seq<&'static str> {
        seq!["ok", "bots", "channels", "groups", "ims", "mpims", "self", "team", "url", "users"]
    }
}

impl StartResponse {
    /// Whether `v` decodes as the record: an object whose fields read in order.
    #[verifier::opaque]
    pub open spec fn spec_accepts(v: JsonValue) -> bool {
        match v {
            JsonValue::Object(w) => {
                let left0 = w@;
                let left1 = taken(left0, "ok"@);
                let left2 = taken(left1, "bots"@);
                let left3 = taken(left2, "channels"@);
                let left4 = taken(left3, "groups"@);
                let left5 = taken(left4, "ims"@);
                let left6 = taken(left5, "mpims"@);
                let left7 = taken(left6, "self"@);
                let left8 = taken(left7, "team"@);
                let left9 = taken(left8, "url"@);
                &&& all_known(left0, StartResponse::declared_fields())
                &&& required_ok::<bool>(left0, "ok"@)
                &&& optional_ok::<Vec<Bot>>(left1, "bots"@)
                &&& optional_ok::<Vec<Channel>>(left2, "channels"@)
                &&& optional_ok::<Vec<Group>>(left3, "groups"@)
                &&& optional_ok::<Vec<Im>>(left4, "ims"@)
                &&& optional_ok::<Vec<Mpim>>(left5, "mpims"@)
                &&& optional_ok::<User>(left6, "self"@)
                &&& optional_ok::<Team>(left7, "team"@)
                &&& optional_ok::<String>(left8, "url"@)
                &&& optional_ok::<Vec<User>>(left9, "users"@)
            },
            _ => false,
        }
    }

    /// Whether `x` holds what the fields of `v` read as.
    #[verifier::opaque]
    pub closed spec fn spec_decodes_to(v: JsonValue, x: StartResponse) -> bool {
        match v {
            JsonValue::Object(w) => {
                let left0 = w@;
                let left1 = taken(left0, "ok"@);
                let left2 = taken(left1, "bots"@);
                let left3 = taken(left2, "channels"@);
                let left4 = taken(left3, "groups"@);
                let left5 = taken(left4, "ims"@);
                let left6 = taken(left5, "mpims"@);
                let left7 = taken(left6, "self"@);
                let left8 = taken(left7, "team"@);
                let left9 = taken(left8, "url"@);
                &&& <bool as Decode>::decodes_to(value_of(left0, "ok"@), x.ok)
                &&& optional_value::<Vec<Bot>>(left1, "bots"@, x.bots)
                &&& optional_value::<Vec<Channel>>(left2, "channels"@, x.channels)
                &&& optional_value::<Vec<Group>>(left3, "groups"@, x.groups)
                &&& optional_value::<Vec<Im>>(left4, "ims"@, x.ims)
                &&& optional_value::<Vec<Mpim>>(left5, "mpims"@, x.mpims)
                &&& optional_value::<User>(left6, "self"@, x.slf)
                &&& optional_value::<Team>(left7, "team"@, x.team)
                &&& optional_value::<String>(left8, "url"@, x.url)
                &&& optional_value::<Vec<User>>(left9, "users"@, x.users)
            },
            _ => false,
        }
    }

    /// Whether `e` is the error of the first check or field that fails on `v`.
    #[verifier::opaque]
    pub open spec fn spec_rejects_with(v: JsonValue, e: DecodeError) -> bool {
        match v {
            JsonValue::Object(w) => {
                let left0 = w@;
                let left1 = taken(left0, "ok"@);
                let left2 = taken(left1, "bots"@);
                let left3 = taken(left2, "channels"@);
                let left4 = taken(left3, "groups"@);
                let left5 = taken(left4, "ims"@);
                let left6 = taken(left5, "mpims"@);
                let left7 = taken(left6, "self"@);
                let left8 = taken(left7, "team"@);
                let left9 = taken(left8, "url"@);
                if !all_known(left0, StartResponse::declared_fields()) {
                    e == (DecodeError::UnknownField { field: first_unknown_key(left0, StartResponse::declared_fields()) })
                } else if !required_ok::<bool>(left0, "ok"@) {
                    required_err::<bool>(left0, "ok"@, e)
                } else if !optional_ok::<Vec<Bot>>(left1, "bots"@) {
                    field_failed::<Vec<Bot>>(left1, "bots"@, e)
                } else if !optional_ok::<Vec<Channel>>(left2, "channels"@) {
                    field_failed::<Vec<Channel>>(left2, "channels"@, e)
                } else if !optional_ok::<Vec<Group>>(left3, "groups"@) {
                    field_failed::<Vec<Group>>(left3, "groups"@, e)
                } else if !optional_ok::<Vec<Im>>(left4, "ims"@) {
                    field_failed::<Vec<Im>>(left4, "ims"@, e)
                } else if !optional_ok::<Vec<Mpim>>(left5, "mpims"@) {
                    field_failed::<Vec<Mpim>>(left5, "mpims"@, e)
                } else if !optional_ok::<User>(left6, "self"@) {
                    field_failed::<User>(left6, "self"@, e)
                } else if !optional_ok::<Team>(left7, "team"@) {
                    field_failed::<Team>(left7, "team"@, e)
                } else if !optional_ok::<String>(left8, "url"@) {
                    field_failed::<String>(left8, "url"@, e)
                } else if !optional_ok::<Vec<User>>(left9, "users"@) {
                    field_failed::<Vec<User>>(left9, "users"@, e)
                } else {
                    false
                }
            },
            _ => e == (DecodeError::WrongType { expected: "object" }),
        }
    }
}

impl Decode for StartResponse {
    open spec fn accepts(v: JsonValue) -> bool {
        StartResponse::spec_accepts(v)
    }

    open spec fn decodes_to(v: JsonValue, x: StartResponse) -> bool {
        StartResponse::spec_decodes_to(v, x)
    }

    open spec fn rejects_with(v: JsonValue, e: DecodeError) -> bool {
        StartResponse::spec_rejects_with(v, e)
    }

    fn decode(v: JsonValue) -> Result<StartResponse, DecodeError> {
        proof {
            reveal(StartResponse::spec_accepts);
            reveal(StartResponse::spec_decodes_to);
            reveal(StartResponse::spec_rejects_with);
        }
        let mut wire = into_fields(v)?;
        let known: &[&str] = &["ok", "bots", "channels", "groups", "ims", "mpims", "self", "team", "url", "users"];
        assert(known@ =~= StartResponse::declared_fields());
        check_fields(&wire, known)?;
        let ok: bool = required(&mut wire, "ok")?;
        let bots: Option<Vec<Bot>> = optional(&mut wire, "bots")?;
        let channels: Option<Vec<Channel>> = optional(&mut wire, "channels")?;
        let groups: Option<Vec<Group>> = optional(&mut wire, "groups")?;
        let ims: Option<Vec<Im>> = optional(&mut wire, "ims")?;
        let mpims: Option<Vec<Mpim>> = optional(&mut wire, "mpims")?;
        let slf: Option<User> = optional(&mut wire, "self")?;
        let team: Option<Team> = optional(&mut wire, "team")?;
        let url: Option<String> = optional(&mut wire, "url")?;
        let users: Option<Vec<User>> = optional(&mut wire, "users")?;
        Ok(StartResponse { ok, bots, channels, groups, ims, mpims, slf, team, url, users })
    }
}

} // verus!
