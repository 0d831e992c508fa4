//! Get info on your team's private channels.

use crate::json::{all_known, check_fields, field_failed, first_unknown_key, optional_ok, optional_value, required_err, required_ok, taken, value_of, into_fields, optional, required, Decode, DecodeError, JsonValue, Number};
use crate::timestamp::Timestamp;
use crate::types::{Group, Message, ThreadInfo};
use vstd::prelude::*;

verus! {

#[derive(Clone, Debug, PartialEq)]
pub struct ArchiveRequest<'a> {
    /// Private channel to archive
    pub channel: &'a str,
}

#[derive(Clone, Debug, PartialEq)]
pub struct CloseRequest<'a> {
    /// Private channel to close.
    pub channel: &'a str,
}

#[derive(Clone, Debug, PartialEq)]
pub struct CreateRequest<'a> {
    /// Name of private channel to create
    pub name: &'a str,
    /// Whether to return errors on invalid channel name instead of modifying it to meet the specified criteria.
    pub validate: Option<bool>,
}

#[derive(Clone, Debug, PartialEq)]
pub struct CreateResponse {
    ok: bool,
    pub group: Option<Group>,
}

impl CreateResponse {
    /// The fields the record declares; it admits no others.
    pub open spec fn declared_fields() -> Seq<&'static str> {
        seq!["ok", "group"]
    }
}

impl CreateResponse {
    /// Whether `v` decodes as the record: an object whose fields read in order.
    #[verifier::opaque]
    pub open spec fn spec_accepts(v: JsonValue) -> bool {
        match v {
            JsonValue::Object(w) => {
                let left0 = w@;
                let left1 = taken(left0, "ok"@);
                &&& all_known(left0, CreateResponse::declared_fields())
                &&& required_ok::<bool>(left0, "ok"@)
                &&& optional_ok::<Group>(left1, "group"@)
            },
            _ => false,
        }
    }

    /// Whether `x` holds what the fields of `v` read as.
    #[verifier::opaque]
    pub closed spec fn spec_decodes_to(v: JsonValue, x: CreateResponse) -> bool {
        match v {
            JsonValue::Object(w) => {
                let left0 = w@;
                let left1 = taken(left0, "ok"@);
                &&& <bool as Decode>::decodes_to(value_of(left0, "ok"@), x.ok)
                &&& optional_value::<Group>(left1, "group"@, x.group)
            },
            _ => false,
        }
    }

    /// Whether `e` is the error of the first check or field that fails on `v`.
    #[verifier::opaque]
    pub open spec fn spec_rejects_with(v: JsonValue, e: DecodeError) -> bool {
        match v {
            JsonValue::Object(w) => {
                let left0 = w@;
                let left1 = taken(left0, "ok"@);
                if !all_known(left0, CreateResponse::declared_fields()) {
                    e == (DecodeError::UnknownField { field: first_unknown_key(left0, CreateResponse::declared_fields()) })
                } else if !required_ok::<bool>(left0, "ok"@) {
                    required_err::<bool>(left0, "ok"@, e)
                } else if !optional_ok::<Group>(left1, "group"@) {
                    field_failed::<Group>(left1, "group"@, e)
                } else {
                    false
                }
            },
            _ => e == (DecodeError::WrongType { expected: "object" }),
        }
    }
}

impl Decode for CreateResponse {
    open spec fn accepts(v: JsonValue) -> bool {
        CreateResponse::spec_accepts(v)
    }

    open spec fn decodes_to(v: JsonValue, x: CreateResponse) -> bool {
        CreateResponse::spec_decodes_to(v, x)
    }

    open spec fn rejects_with(v: JsonValue, e: DecodeError) -> bool {
        CreateResponse::spec_rejects_with(v, e)
    }

    fn decode(v: JsonValue) -> Result<CreateResponse, DecodeError> {
        proof {
            reveal(CreateResponse::spec_accepts);
            reveal(CreateResponse::spec_decodes_to);
            reveal(CreateResponse::spec_rejects_with);
        }
        let mut wire = into_fields(v)?;
        let known: &[&str] = &["ok", "group"];
        assert(known@ =~= CreateResponse::declared_fields());
        check_fields(&wire, known)?;
        let ok: bool = required(&mut wire, "ok")?;
        let group: Option<Group> = optional(&mut wire, "group")?;
        Ok(CreateResponse { ok, group })
    }
}

#[derive(Clone, Debug, PartialEq)]
pub struct CreateChildRequest<'a> {
    /// Private channel to clone and archive.
    pub channel: &'a str,
}

#[derive(Clone, Debug, PartialEq)]
pub struct CreateChildResponse {
    ok: bool,
    pub group: Option<Group>,
}

impl CreateChildResponse {
    /// The fields the record declares; it admits no others.
    pub open spec fn declared_fields() -> Seq<&'static str> {
        seq!["ok", "group"]
    }
}

impl CreateChildResponse {
    /// Whether `v` decodes as the record: an object whose fields read in order.
    #[verifier::opaque]
    pub open spec fn spec_accepts(v: JsonValue) -> bool {
        match v {
            JsonValue::Object(w) => {
                let left0 = w@;
                let left1 = taken(left0, "ok"@);
                &&& all_known(left0, CreateChildResponse::declared_fields())
                &&& required_ok::<bool>(left0, "ok"@)
                &&& optional_ok::<Group>(left1, "group"@)
            },
            _ => false,
        }
    }

    /// Whether `x` holds what the fields of `v` read as.
    #[verifier::opaque]
    pub closed spec fn spec_decodes_to(v: JsonValue, x: CreateChildResponse) -> bool {
        match v {
            JsonValue::Object(w) => {
                let left0 = w@;
                let left1 = taken(left0, "ok"@);
                &&& <bool as Decode>::decodes_to(value_of(left0, "ok"@), x.ok)
                &&& optional_value::<Group>(left1, "group"@, x.group)
            },
            _ => false,
        }
    }

    /// Whether `e` is the error of the first check or field that fails on `v`.
    #[verifier::opaque]
    pub open spec fn spec_rejects_with(v: JsonValue, e: DecodeError) -> bool {
        match v {
            JsonValue::Object(w) => {
                let left0 = w@;
                let left1 = taken(left0, "ok"@);
                if !all_known(left0, CreateChildResponse::declared_fields()) {
                    e == (DecodeError::UnknownField { field: first_unknown_key(left0, CreateChildResponse::declared_fields()) })
                } else if !required_ok::<bool>(left0, "ok"@) {
                    required_err::<bool>(left0, "ok"@, e)
                } else if !optional_ok::<Group>(left1, "group"@) {
                    field_failed::<Group>(left1, "group"@, e)
                } else {
                    false
                }
            },
            _ => e == (DecodeError::WrongType { expected: "object" }),
        }
    }
}

impl Decode for CreateChildResponse {
    open spec fn accepts(v: JsonValue) -> bool {
        CreateChildResponse::spec_accepts(v)
    }

    open spec fn decodes_to(v: JsonValue, x: CreateChildResponse) -> bool {
        CreateChildResponse::spec_decodes_to(v, x)
    }

    open spec fn rejects_with(v: JsonValue, e: DecodeError) -> bool {
        CreateChildResponse::spec_rejects_with(v, e)
    }

    fn decode(v: JsonValue) -> Result<CreateChildResponse, DecodeError> {
        proof {
            reveal(CreateChildResponse::spec_accepts);
            reveal(CreateChildResponse::spec_decodes_to);
            reveal(CreateChildResponse::spec_rejects_with);
        }
        let mut wire = into_fields(v)?;
        let known: &[&str] = &["ok", "group"];
        assert(known@ =~= CreateChildResponse::declared_fields());
        check_fields(&wire, known)?;
        let ok: bool = required(&mut wire, "ok")?;
        let group: Option<Group> = optional(&mut wire, "group")?;
        Ok(CreateChildResponse { ok, group })
    }
}

#[derive(Clone, Debug, PartialEq)]
pub struct HistoryRequest<'a> {
    /// Private channel to fetch history for.
    pub channel: &'a str,
    /// End of time range of messages to include in results.
    pub latest: Option<&'a str>,
    /// Start of time range of messages to include in results.
    pub oldest: Option<&'a str>,
    /// Include messages with latest or oldest timestamp in results.
    pub inclusive: Option<bool>,
    /// Number of messages to return, between 1 and 1000.
    pub count: Option<u32>,
    /// Include unread_count_display in the output?
    pub unreads: Option<bool>,
}

#[derive(Clone, Debug, PartialEq)]
pub struct HistoryResponse {
    ok: bool,
    pub has_more: bool,
    pub latest: Option<Timestamp>,
    pub messages: Vec<Message>,
}

impl HistoryResponse {
    /// The fields the record declares; it admits no others.
    pub open spec fn declared_fields() -> Seq<&'static str> {
        seq!["ok", "has_more", "latest", "messages"]
    }
}

impl HistoryResponse {
    /// Whether `v` decodes as the record: an object whose fields read in order.
    #[verifier::opaque]
    pub open spec fn spec_accepts(v: JsonValue) -> bool {
        match v {
            JsonValue::Object(w) => {
                let left0 = w@;
                let left1 = taken(left0, "ok"@);
                let left2 = taken(left1, "has_more"@);
                let left3 = taken(left2, "latest"@);
                &&& all_known(left0, HistoryResponse::declared_fields())
                &&& required_ok::<bool>(left0, "ok"@)
                &&& required_ok::<bool>(left1, "has_more"@)
                &&& optional_ok::<Timestamp>(left2, "latest"@)
                &&& required_ok::<Vec<Message>>(left3, "messages"@)
            },
            _ => false,
        }
    }

    /// Whether `x` holds what the fields of `v` read as.
    #[verifier::opaque]
    pub closed spec fn spec_decodes_to(v: JsonValue, x: HistoryResponse) -> bool {
        match v {
            JsonValue::Object(w) => {
                let left0 = w@;
                let left1 = taken(left0, "ok"@);
                let left2 = taken(left1, "has_more"@);
                let left3 = taken(left2, "latest"@);
                &&& <bool as Decode>::decodes_to(value_of(left0, "ok"@), x.ok)
                &&& <bool as Decode>::decodes_to(value_of(left1, "has_more"@), x.has_more)
                &&& optional_value::<Timestamp>(left2, "latest"@, x.latest)
                &&& <Vec<Message> as Decode>::decodes_to(value_of(left3, "messages"@), x.messages)
            },
            _ => false,
        }
    }

    /// Whether `e` is the error of the first check or field that fails on `v`.
    #[verifier::opaque]
    pub open spec fn spec_rejects_with(v: JsonValue, e: DecodeError) -> bool {
        match v {
            JsonValue::Object(w) => {
                let left0 = w@;
                let left1 = taken(left0, "ok"@);
                let left2 = taken(left1, "has_more"@);
                let left3 = taken(left2, "latest"@);
                if !all_known(left0, HistoryResponse::declared_fields()) {
                    e == (DecodeError::UnknownField { field: first_unknown_key(left0, HistoryResponse::declared_fields()) })
                } else if !required_ok::<bool>(left0, "ok"@) {
                    required_err::<bool>(left0, "ok"@, e)
                } else if !required_ok::<bool>(left1, "has_more"@) {
                    required_err::<bool>(left1, "has_more"@, e)
                } else if !optional_ok::<Timestamp>(left2, "latest"@) {
                    field_failed::<Timestamp>(left2, "latest"@, e)
                } else if !required_ok::<Vec<Message>>(left3, "messages"@) {
                    required_err::<Vec<Message>>(left3, "messages"@, e)
                } else {
                    false
                }
            },
            _ => e == (DecodeError::WrongType { expected: "object" }),
        }
    }
}

impl Decode for HistoryResponse {
    open spec fn accepts(v: JsonValue) -> bool {
        HistoryResponse::spec_accepts(v)
    }

    open spec fn decodes_to(v: JsonValue, x: HistoryResponse) -> bool {
        HistoryResponse::spec_decodes_to(v, x)
    }

    open spec fn rejects_with(v: JsonValue, e: DecodeError) -> bool {
        HistoryResponse::spec_rejects_with(v, e)
    }

    fn decode(v: JsonValue) -> Result<HistoryResponse, DecodeError> {
        proof {
            reveal(HistoryResponse::spec_accepts);
            reveal(HistoryResponse::spec_decodes_to);
            reveal(HistoryResponse::spec_rejects_with);
        }
        let mut wire = into_fields(v)?;
        let known: &[&str] = &["ok", "has_more", "latest", "messages"];
        assert(known@ =~= HistoryResponse::declared_fields());
        check_fields(&wire, known)?;
        let ok: bool = required(&mut wire, "ok")?;
        let has_more: bool = required(&mut wire, "has_more")?;
        let latest: Option<Timestamp> = optional(&mut wire, "latest")?;
        let messages: Vec<Message> = required(&mut wire, "messages")?;
        Ok(HistoryResponse { ok, has_more, latest, messages })
    }
}

#[derive(Clone, Debug, PartialEq)]
pub struct InfoRequest<'a> {
    /// Private channel to get info on
    pub channel: &'a str,
}

#[derive(Clone, Debug, PartialEq)]
pub struct InfoResponse {
    ok: bool,
    pub group: Group,
}

impl InfoResponse {
    /// The fields the record declares; it admits no others.
    pub open spec fn declared_fields() -> Seq<&'static str> {
        seq!["ok", "group"]
    }
}

impl InfoResponse {
    /// Whether `v` decodes as the record: an object whose fields read in order.
    #[verifier::opaque]
    pub open spec fn spec_accepts(v: JsonValue) -> bool {
        match v {
            JsonValue::Object(w) => {
                let left0 = w@;
                let left1 = taken(left0, "ok"@);
                &&& all_known(left0, InfoResponse::declared_fields())
                &&& required_ok::<bool>(left0, "ok"@)
                &&& required_ok::<Group>(left1, "group"@)
            },
            _ => false,
        }
    }

    /// Whether `x` holds what the fields of `v` read as.
    #[verifier::opaque]
    pub closed spec fn spec_decodes_to(v: JsonValue, x: InfoResponse) -> bool {
        match v {
            JsonValue::Object(w) => {
                let left0 = w@;
                let left1 = taken(left0, "ok"@);
                &&& <bool as Decode>::decodes_to(value_of(left0, "ok"@), x.ok)
                &&& <Group as Decode>::decodes_to(value_of(left1, "group"@), x.group)
            },
            _ => false,
        }
    }

    /// Whether `e` is the error of the first check or field that fails on `v`.
    #[verifier::opaque]
    pub open spec fn spec_rejects_with(v: JsonValue, e: DecodeError) -> bool {
        match v {
            JsonValue::Object(w) => {
                let left0 = w@;
                let left1 = taken(left0, "ok"@);
                if !all_known(left0, InfoResponse::declared_fields()) {
                    e == (DecodeError::UnknownField { field: first_unknown_key(left0, InfoResponse::declared_fields()) })
                } else if !required_ok::<bool>(left0, "ok"@) {
                    required_err::<bool>(left0, "ok"@, e)
                } else if !required_ok::<Group>(left1, "group"@) {
                    required_err::<Group>(left1, "group"@, e)
                } else {
                    false
                }
            },
            _ => e == (DecodeError::WrongType { expected: "object" }),
        }
    }
}

impl Decode for InfoResponse {
    open spec fn accepts(v: JsonValue) -> bool {
        InfoResponse::spec_accepts(v)
    }

    open spec fn decodes_to(v: JsonValue, x: InfoResponse) -> bool {
        InfoResponse::spec_decodes_to(v, x)
    }

    open spec fn rejects_with(v: JsonValue, e: DecodeError) -> bool {
        InfoResponse::spec_rejects_with(v, e)
    }

    fn decode(v: JsonValue) -> Result<InfoResponse, DecodeError> {
        proof {
            reveal(InfoResponse::spec_accepts);
            reveal(InfoResponse::spec_decodes_to);
            reveal(InfoResponse::spec_rejects_with);
        }
        let mut wire = into_fields(v)?;
        let known: &[&str] = &["ok", "group"];
        assert(known@ =~= InfoResponse::declared_fields());
        check_fields(&wire, known)?;
        let ok: bool = required(&mut wire, "ok")?;
        let group: Group = required(&mut wire, "group")?;
        Ok(InfoResponse { ok, group })
    }
}

#[derive(Clone, Debug, PartialEq)]
pub struct InviteRequest<'a> {
    /// Private channel to invite user to.
    pub channel: &'a str,
    /// User to invite.
    pub user: &'a str,
}

#[derive(Clone, Debug, PartialEq)]
pub struct InviteResponse {
    ok: bool,
    pub group: Option<Group>,
}

impl InviteResponse {
    /// The fields the record declares; it admits no others.
    pub open spec fn declared_fields() -> Seq<&'static str> {
        seq!["ok", "group"]
    }
}

impl InviteResponse {
    /// Whether `v` decodes as the record: an object whose fields read in order.
    #[verifier::opaque]
    pub open spec fn spec_accepts(v: JsonValue) -> bool {
        match v {
            JsonValue::Object(w) => {
                let left0 = w@;
                let left1 = taken(left0, "ok"@);
                &&& all_known(left0, InviteResponse::declared_fields())
                &&& required_ok::<bool>(left0, "ok"@)
                &&& optional_ok::<Group>(left1, "group"@)
            },
            _ => false,
        }
    }

    /// Whether `x` holds what the fields of `v` read as.
    #[verifier::opaque]
    pub closed spec fn spec_decodes_to(v: JsonValue, x: InviteResponse) -> bool {
        match v {
            JsonValue::Object(w) => {
                let left0 = w@;
                let left1 = taken(left0, "ok"@);
                &&& <bool as Decode>::decodes_to(value_of(left0, "ok"@), x.ok)
                &&& optional_value::<Group>(left1, "group"@, x.group)
            },
            _ => false,
        }
    }

    /// Whether `e` is the error of the first check or field that fails on `v`.
    #[verifier::opaque]
    pub open spec fn spec_rejects_with(v: JsonValue, e: DecodeError) -> bool {
        match v {
            JsonValue::Object(w) => {
                let left0 = w@;
                let left1 = taken(left0, "ok"@);
                if !all_known(left0, InviteResponse::declared_fields()) {
                    e == (DecodeError::UnknownField { field: first_unknown_key(left0, InviteResponse::declared_fields()) })
                } else if !required_ok::<bool>(left0, "ok"@) {
                    required_err::<bool>(left0, "ok"@, e)
                } else if !optional_ok::<Group>(left1, "group"@) {
                    field_failed::<Group>(left1, "group"@, e)
                } else {
                    false
                }
            },
            _ => e == (DecodeError::WrongType { expected: "object" }),
        }
    }
}

impl Decode for InviteResponse {
    open spec fn accepts(v: JsonValue) -> bool {
        InviteResponse::spec_accepts(v)
    }

    open spec fn decodes_to(v: JsonValue, x: InviteResponse) -> bool {
        InviteResponse::spec_decodes_to(v, x)
    }

    open spec fn rejects_with(v: JsonValue, e: DecodeError) -> bool {
        InviteResponse::spec_rejects_with(v, e)
    }

    fn decode(v: JsonValue) -> Result<InviteResponse, DecodeError> {
        proof {
            reveal(InviteResponse::spec_accepts);
            reveal(InviteResponse::spec_decodes_to);
            reveal(InviteResponse::spec_rejects_with);
        }
        let mut wire = into_fields(v)?;
        let known: &[&str] = &["ok", "group"];
        assert(known@ =~= InviteResponse::declared_fields());
        check_fields(&wire, known)?;
        let ok: bool = required(&mut wire, "ok")?;
        let group: Option<Group> = optional(&mut wire, "group")?;
        Ok(InviteResponse { ok, group })
    }
}

#[derive(Clone, Debug, PartialEq)]
pub struct KickRequest<'a> {
    /// Private channel to remove user from.
    pub channel: &'a str,
    /// User to remove from private channel.
    pub user: &'a str,
}

#[derive(Clone, Debug, PartialEq)]
pub struct LeaveRequest<'a> {
    /// Private channel to leave
    pub channel: &'a str,
}

#[derive(Clone, Debug, PartialEq)]
pub struct ListRequest {
    /// Don't return archived private channels.
    pub exclude_archived: Option<bool>,
}

#[derive(Clone, Debug, PartialEq)]
pub struct ListResponse {
    ok: bool,
    pub groups: Vec<Group>,
}

impl ListResponse {
    /// The fields the record declares; it admits no others.
    pub open spec fn declared_fields() -> Seq<&'static str> {
        seq!["ok", "groups"]
    }
}

impl ListResponse {
    /// Whether `v` decodes as the record: an object whose fields read in order.
    #[verifier::opaque]
    pub open spec fn spec_accepts(v: JsonValue) -> bool {
        match v {
            JsonValue::Object(w) => {
                let left0 = w@;
                let left1 = taken(left0, "ok"@);
                &&& all_known(left0, ListResponse::declared_fields())
                &&& required_ok::<bool>(left0, "ok"@)
                &&& required_ok::<Vec<Group>>(left1, "groups"@)
            },
            _ => false,
        }
    }

    /// Whether `x` holds what the fields of `v` read as.
    #[verifier::opaque]
    pub closed spec fn spec_decodes_to(v: JsonValue, x: ListResponse) -> bool {
        match v {
            JsonValue::Object(w) => {
                let left0 = w@;
                let left1 = taken(left0, "ok"@);
                &&& <bool as Decode>::decodes_to(value_of(left0, "ok"@), x.ok)
                &&& <Vec<Group> as Decode>::decodes_to(value_of(left1, "groups"@), x.groups)
            },
            _ => false,
        }
    }

    /// Whether `e` is the error of the first check or field that fails on `v`.
    #[verifier::opaque]
    pub open spec fn spec_rejects_with(v: JsonValue, e: DecodeError) -> bool {
        match v {
            JsonValue::Object(w) => {
                let left0 = w@;
                let left1 = taken(left0, "ok"@);
                if !all_known(left0, ListResponse::declared_fields()) {
                    e == (DecodeError::UnknownField { field: first_unknown_key(left0, ListResponse::declared_fields()) })
                } else if !required_ok::<bool>(left0, "ok"@) {
                    required_err::<bool>(left0, "ok"@, e)
                } else if !required_ok::<Vec<Group>>(left1, "groups"@) {
                    required_err::<Vec<Group>>(left1, "groups"@, e)
                } else {
                    false
                }
            },
            _ => e == (DecodeError::WrongType { expected: "object" }),
        }
    }
}

impl Decode for ListResponse {
    open spec fn accepts(v: JsonValue) -> bool {
        ListResponse::spec_accepts(v)
    }

    open spec fn decodes_to(v: JsonValue, x: ListResponse) -> bool {
        ListResponse::spec_decodes_to(v, x)
    }

    open spec fn rejects_with(v: JsonValue, e: DecodeError) -> bool {
        ListResponse::spec_rejects_with(v, e)
    }

    fn decode(v: JsonValue) -> Result<ListResponse, DecodeError> {
        proof {
            reveal(ListResponse::spec_accepts);
            reveal(ListResponse::spec_decodes_to);
            reveal(ListResponse::spec_rejects_with);
        }
        let mut wire = into_fields(v)?;
        let known: &[&str] = &["ok", "groups"];
        assert(known@ =~= ListResponse::declared_fields());
        check_fields(&wire, known)?;
        let ok: bool = required(&mut wire, "ok")?;
        let groups: Vec<Group> = required(&mut wire, "groups")?;
        Ok(ListResponse { ok, groups })
    }
}

#[derive(Clone, Debug, PartialEq)]
pub struct MarkRequest<'a> {
    /// Private channel to set reading cursor in.
    pub channel: &'a str,
    /// Timestamp of the most recently seen message.
    pub ts: &'a str,
}

#[derive(Clone, Debug, PartialEq)]
pub struct OpenRequest<'a> {
    /// Private channel to open.
    pub channel: &'a str,
}

#[derive(Clone, Debug, PartialEq)]
pub struct RenameRequest<'a> {
    /// Private channel to rename
    pub channel: &'a str,
    /// New name for private channel.
    pub name: &'a str,
    /// Whether to return errors on invalid channel name instead of modifying it to meet the specified criteria.
    pub validate: Option<bool>,
}

#[derive(Clone, Debug, PartialEq)]
pub struct RenameResponse {
    ok: bool,
    pub channel: Option<RenameResponseChannel>,
}

impl RenameResponse {
    /// The fields the record declares; it admits no others.
    pub open spec fn declared_fields() -> Seq<&'static str> {
        seq!["ok", "channel"]
    }
}

impl RenameResponse {
    /// Whether `v` decodes as the record: an object whose fields read in order.
    #[verifier::opaque]
    pub open spec fn spec_accepts(v: JsonValue) -> bool {
        match v {
            JsonValue::Object(w) => {
                let left0 = w@;
                let left1 = taken(left0, "ok"@);
                &&& all_known(left0, RenameResponse::declared_fields())
                &&& required_ok::<bool>(left0, "ok"@)
                &&& optional_ok::<RenameResponseChannel>(left1, "channel"@)
            },
            _ => false,
        }
    }

    /// Whether `x` holds what the fields of `v` read as.
    #[verifier::opaque]
    pub closed spec fn spec_decodes_to(v: JsonValue, x: RenameResponse) -> bool {
        match v {
            JsonValue::Object(w) => {
                let left0 = w@;
                let left1 = taken(left0, "ok"@);
                &&& <bool as Decode>::decodes_to(value_of(left0, "ok"@), x.ok)
                &&& optional_value::<RenameResponseChannel>(left1, "channel"@, x.channel)
            },
            _ => false,
        }
    }

    /// Whether `e` is the error of the first check or field that fails on `v`.
    #[verifier::opaque]
    pub open spec fn spec_rejects_with(v: JsonValue, e: DecodeError) -> bool {
        match v {
            JsonValue::Object(w) => {
                let left0 = w@;
                let left1 = taken(left0, "ok"@);
                if !all_known(left0, RenameResponse::declared_fields()) {
                    e == (DecodeError::UnknownField { field: first_unknown_key(left0, RenameResponse::declared_fields()) })
                } else if !required_ok::<bool>(left0, "ok"@) {
                    required_err::<bool>(left0, "ok"@, e)
                } else if !optional_ok::<RenameResponseChannel>(left1, "channel"@) {
                    field_failed::<RenameResponseChannel>(left1, "channel"@, e)
                } else {
                    false
                }
            },
            _ => e == (DecodeError::WrongType { expected: "object" }),
        }
    }
}

impl Decode for RenameResponse {
    open spec fn accepts(v: JsonValue) -> bool {
        RenameResponse::spec_accepts(v)
    }

    open spec fn decodes_to(v: JsonValue, x: RenameResponse) -> bool {
        RenameResponse::spec_decodes_to(v, x)
    }

    open spec fn rejects_with(v: JsonValue, e: DecodeError) -> bool {
        RenameResponse::spec_rejects_with(v, e)
    }

    fn decode(v: JsonValue) -> Result<RenameResponse, DecodeError> {
        proof {
            reveal(RenameResponse::spec_accepts);
            reveal(RenameResponse::spec_decodes_to);
            reveal(RenameResponse::spec_rejects_with);
        }
        let mut wire = into_fields(v)?;
        let known: &[&str] = &["ok", "channel"];
        assert(known@ =~= RenameResponse::declared_fields());
        check_fields(&wire, known)?;
        let ok: bool = required(&mut wire, "ok")?;
        let channel: Option<RenameResponseChannel> = optional(&mut wire, "channel")?;
        Ok(RenameResponse { ok, channel })
    }
}

#[derive(Clone, Debug, PartialEq)]
pub struct RenameResponseChannel {
    pub created: Option<Number>,
    pub id: Option<String>,
    pub is_group: Option<bool>,
    pub name: Option<String>,
}

impl RenameResponseChannel {
    /// The fields the record declares; it admits no others.
    pub open spec fn declared_fields() -> Seq<&'static str> {
        seq!["created", "id", "is_group", "name"]
    }
}

impl RenameResponseChannel {
    /// Whether `v` decodes as the record: an object whose fields read in order.
    #[verifier::opaque]
    pub open spec fn spec_accepts(v: JsonValue) -> bool {
        match v {
            JsonValue::Object(w) => {
                let left0 = w@;
                let left1 = taken(left0, "created"@);
                let left2 = taken(left1, "id"@);
                let left3 = taken(left2, "is_group"@);
                &&& all_known(left0, RenameResponseChannel::declared_fields())
                &&& optional_ok::<Number>(left0, "created"@)
                &&& optional_ok::<String>(left1, "id"@)
                &&& optional_ok::<bool>(left2, "is_group"@)
                &&& optional_ok::<String>(left3, "name"@)
            },
            _ => false,
        }
    }

    /// Whether `x` holds what the fields of `v` read as.
    #[verifier::opaque]
    pub open spec fn spec_decodes_to(v: JsonValue, x: RenameResponseChannel) -> bool {
        match v {
            JsonValue::Object(w) => {
                let left0 = w@;
                let left1 = taken(left0, "created"@);
                let left2 = taken(left1, "id"@);
                let left3 = taken(left2, "is_group"@);
                &&& optional_value::<Number>(left0, "created"@, x.created)
                &&& optional_value::<String>(left1, "id"@, x.id)
                &&& optional_value::<bool>(left2, "is_group"@, x.is_group)
                &&& optional_value::<String>(left3, "name"@, x.name)
            },
            _ => false,
        }
    }

    /// Whether `e` is the error of the first check or field that fails on `v`.
    #[verifier::opaque]
    pub open spec fn spec_rejects_with(v: JsonValue, e: DecodeError) -> bool {
        match v {
            JsonValue::Object(w) => {
                let left0 = w@;
                let left1 = taken(left0, "created"@);
                let left2 = taken(left1, "id"@);
                let left3 = taken(left2, "is_group"@);
                if !all_known(left0, RenameResponseChannel::declared_fields()) {
                    e == (DecodeError::UnknownField { field: first_unknown_key(left0, RenameResponseChannel::declared_fields()) })
                } else if !optional_ok::<Number>(left0, "created"@) {
                    field_failed::<Number>(left0, "created"@, e)
                } else if !optional_ok::<String>(left1, "id"@) {
                    field_failed::<String>(left1, "id"@, e)
                } else if !optional_ok::<bool>(left2, "is_group"@) {
                    field_failed::<bool>(left2, "is_group"@, e)
                } else if !optional_ok::<String>(left3, "name"@) {
                    field_failed::<String>(left3, "name"@, e)
                } else {
                    false
                }
            },
            _ => e == (DecodeError::WrongType { expected: "object" }),
        }
    }
}

impl Decode for RenameResponseChannel {
    open spec fn accepts(v: JsonValue) -> bool {
        RenameResponseChannel::spec_accepts(v)
    }

    open spec fn decodes_to(v: JsonValue, x: RenameResponseChannel) -> bool {
        RenameResponseChannel::spec_decodes_to(v, x)
    }

    open spec fn rejects_with(v: JsonValue, e: DecodeError) -> bool {
        RenameResponseChannel::spec_rejects_with(v, e)
    }

    fn decode(v: JsonValue) -> Result<RenameResponseChannel, DecodeError> {
        proof {
            reveal(RenameResponseChannel::spec_accepts);
            reveal(RenameResponseChannel::spec_decodes_to);
            reveal(RenameResponseChannel::spec_rejects_with);
        }
        let mut wire = into_fields(v)?;
        let known: &[&str] = &["created", "id", "is_group", "name"];
        assert(known@ =~= RenameResponseChannel::declared_fields());
        check_fields(&wire, known)?;
        let created: Option<Number> = optional(&mut wire, "created")?;
        let id: Option<String> = optional(&mut wire, "id")?;
        let is_group: Option<bool> = optional(&mut wire, "is_group")?;
        let name: Option<String> = optional(&mut wire, "name")?;
        Ok(RenameResponseChannel { created, id, is_group, name })
    }
}

#[derive(Clone, Debug, PartialEq)]
pub struct RepliesRequest<'a> {
    /// Private channel to fetch thread from
    pub channel: &'a str,
    /// Unique identifier of a thread's parent message
    pub thread_ts: &'a str,
}

#[derive(Clone, Debug, PartialEq)]
pub struct RepliesResponse {
    ok: bool,
    pub messages: Option<Vec<Message>>,
    pub thread_info: Option<ThreadInfo>,
}

impl RepliesResponse {
    /// The fields the record declares; it admits no others.
    pub open spec fn declared_fields() -> Seq<&'static str> {
        seq!["ok", "messages", "thread_info"]
    }
}

impl RepliesResponse {
    /// Whether `v` decodes as the record: an object whose fields read in order.
    #[verifier::opaque]
    pub open spec fn spec_accepts(v: JsonValue) -> bool {
        match v {
            JsonValue::Object(w) => {
                let left0 = w@;
                let left1 = taken(left0, "ok"@);
                let left2 = taken(left1, "messages"@);
                &&& all_known(left0, RepliesResponse::declared_fields())
                &&& required_ok::<bool>(left0, "ok"@)
                &&& optional_ok::<Vec<Message>>(left1, "messages"@)
                &&& optional_ok::<ThreadInfo>(left2, "thread_info"@)
            },
            _ => false,
        }
    }

    /// Whether `x` holds what the fields of `v` read as.
    #[verifier::opaque]
    pub closed spec fn spec_decodes_to(v: JsonValue, x: RepliesResponse) -> bool {
        match v {
            JsonValue::Object(w) => {
                let left0 = w@;
                let left1 = taken(left0, "ok"@);
                let left2 = taken(left1, "messages"@);
                &&& <bool as Decode>::decodes_to(value_of(left0, "ok"@), x.ok)
                &&& optional_value::<Vec<Message>>(left1, "messages"@, x.messages)
                &&& optional_value::<ThreadInfo>(left2, "thread_info"@, x.thread_info)
            },
            _ => false,
        }
    }

    /// Whether `e` is the error of the first check or field that fails on `v`.
    #[verifier::opaque]
    pub open spec fn spec_rejects_with(v: JsonValue, e: DecodeError) -> bool {
        match v {
            JsonValue::Object(w) => {
                let left0 = w@;
                let left1 = taken(left0, "ok"@);
                let left2 = taken(left1, "messages"@);
                if !all_known(left0, RepliesResponse::declared_fields()) {
                    e == (DecodeError::UnknownField { field: first_unknown_key(left0, RepliesResponse::declared_fields()) })
                } else if !required_ok::<bool>(left0, "ok"@) {
                    required_err::<bool>(left0, "ok"@, e)
                } else if !optional_ok::<Vec<Message>>(left1, "messages"@) {
                    field_failed::<Vec<Message>>(left1, "messages"@, e)
                } else if !optional_ok::<ThreadInfo>(left2, "thread_info"@) {
                    field_failed::<ThreadInfo>(left2, "thread_info"@, e)
                } else {
                    false
                }
            },
            _ => e == (DecodeError::WrongType { expected: "object" }),
        }
    }
}

impl Decode for RepliesResponse {
    open spec fn accepts(v: JsonValue) -> bool {
        RepliesResponse::spec_accepts(v)
    }

    open spec fn decodes_to(v: JsonValue, x: RepliesResponse) -> bool {
        RepliesResponse::spec_decodes_to(v, x)
    }

    open spec fn rejects_with(v: JsonValue, e: DecodeError) -> bool {
        RepliesResponse::spec_rejects_with(v, e)
    }

    fn decode(v: JsonValue) -> Result<RepliesResponse, DecodeError> {
        proof {
            reveal(RepliesResponse::spec_accepts);
            reveal(RepliesResponse::spec_decodes_to);
            reveal(RepliesResponse::spec_rejects_with);
        }
        let mut wire = into_fields(v)?;
        let known: &[&str] = &["ok", "messages", "thread_info"];
        assert(known@ =~= RepliesResponse::declared_fields());
        check_fields(&wire, known)?;
        let ok: bool = required(&mut wire, "ok")?;
        let messages: Option<Vec<Message>> = optional(&mut wire, "messages")?;
        let thread_info: Option<ThreadInfo> = optional(&mut wire, "thread_info")?;
        Ok(RepliesResponse { ok, messages, thread_info })
    }
}

#[derive(Clone, Debug, PartialEq)]
pub struct SetPurposeRequest<'a> {
    /// Private channel to set the purpose of
    pub channel: &'a str,
    /// The new purpose
    pub purpose: &'a str,
}

#[derive(Clone, Debug, PartialEq)]
pub struct SetPurposeResponse {
    ok: bool,
    pub purpose: Option<String>,
}

impl SetPurposeResponse {
    /// The fields the record declares; it admits no others.
    pub open spec fn declared_fields() -> Seq<&'static str> {
        seq!["ok", "purpose"]
    }
}

impl SetPurposeResponse {
    /// Whether `v` decodes as the record: an object whose fields read in order.
    #[verifier::opaque]
    pub open spec fn spec_accepts(v: JsonValue) -> bool {
        match v {
            JsonValue::Object(w) => {
                let left0 = w@;
                let left1 = taken(left0, "ok"@);
                &&& all_known(left0, SetPurposeResponse::declared_fields())
                &&& required_ok::<bool>(left0, "ok"@)
                &&& optional_ok::<String>(left1, "purpose"@)
            },
            _ => false,
        }
    }

    /// Whether `x` holds what the fields of `v` read as.
    #[verifier::opaque]
    pub closed spec fn spec_decodes_to(v: JsonValue, x: SetPurposeResponse) -> bool {
        match v {
            JsonValue::Object(w) => {
                let left0 = w@;
                let left1 = taken(left0, "ok"@);
                &&& <bool as Decode>::decodes_to(value_of(left0, "ok"@), x.ok)
                &&& optional_value::<String>(left1, "purpose"@, x.purpose)
            },
            _ => false,
        }
    }

    /// Whether `e` is the error of the first check or field that fails on `v`.
    #[verifier::opaque]
    pub open spec fn spec_rejects_with(v: JsonValue, e: DecodeError) -> bool {
        match v {
            JsonValue::Object(w) => {
                let left0 = w@;
                let left1 = taken(left0, "ok"@);
                if !all_known(left0, SetPurposeResponse::declared_fields()) {
                    e == (DecodeError::UnknownField { field: first_unknown_key(left0, SetPurposeResponse::declared_fields()) })
                } else if !required_ok::<bool>(left0, "ok"@) {
                    required_err::<bool>(left0, "ok"@, e)
                } else if !optional_ok::<String>(left1, "purpose"@) {
                    field_failed::<String>(left1, "purpose"@, e)
                } else {
                    false
                }
            },
            _ => e == (DecodeError::WrongType { expected: "object" }),
        }
    }
}

impl Decode for SetPurposeResponse {
    open spec fn accepts(v: JsonValue) -> bool {
        SetPurposeResponse::spec_accepts(v)
    }

    open spec fn decodes_to(v: JsonValue, x: SetPurposeResponse) -> bool {
        SetPurposeResponse::spec_decodes_to(v, x)
    }

    open spec fn rejects_with(v: JsonValue, e: DecodeError) -> bool {
        SetPurposeResponse::spec_rejects_with(v, e)
    }

    fn decode(v: JsonValue) -> Result<SetPurposeResponse, DecodeError> {
        proof {
            reveal(SetPurposeResponse::spec_accepts);
            reveal(SetPurposeResponse::spec_decodes_to);
            reveal(SetPurposeResponse::spec_rejects_with);
        }
        let mut wire = into_fields(v)?;
        let known: &[&str] = &["ok", "purpose"];
        assert(known@ =~= SetPurposeResponse::declared_fields());
        check_fields(&wire, known)?;
        let ok: bool = required(&mut wire, "ok")?;
        let purpose: Option<String> = optional(&mut wire, "purpose")?;
        Ok(SetPurposeResponse { ok, purpose })
    }
}

#[derive(Clone, Debug, PartialEq)]
pub struct SetTopicRequest<'a> {
    /// Private channel to set the topic of
    pub channel: &'a str,
    /// The new topic
    pub topic: &'a str,
}

#[derive(Clone, Debug, PartialEq)]
pub struct SetTopicResponse {
    ok: bool,
    pub topic: Option<String>,
}

impl SetTopicResponse {
    /// The fields the record declares; it admits no others.
    pub open spec fn declared_fields() -> Seq<&'static str> {
        seq!["ok", "topic"]
    }
}

impl SetTopicResponse {
    /// Whether `v` decodes as the record: an object whose fields read in order.
    #[verifier::opaque]
    pub open spec fn spec_accepts(v: JsonValue) -> bool {
        match v {
            JsonValue::Object(w) => {
                let left0 = w@;
                let left1 = taken(left0, "ok"@);
                &&& all_known(left0, SetTopicResponse::declared_fields())
                &&& required_ok::<bool>(left0, "ok"@)
                &&& optional_ok::<String>(left1, "topic"@)
            },
            _ => false,
        }
    }

    /// Whether `x` holds what the fields of `v` read as.
    #[verifier::opaque]
    pub closed spec fn spec_decodes_to(v: JsonValue, x: SetTopicResponse) -> bool {
        match v {
            JsonValue::Object(w) => {
                let left0 = w@;
                let left1 = taken(left0, "ok"@);
                &&& <bool as Decode>::decodes_to(value_of(left0, "ok"@), x.ok)
                &&& optional_value::<String>(left1, "topic"@, x.topic)
            },
            _ => false,
        }
    }

    /// Whether `e` is the error of the first check or field that fails on `v`.
    #[verifier::opaque]
    pub open spec fn spec_rejects_with(v: JsonValue, e: DecodeError) -> bool {
        match v {
            JsonValue::Object(w) => {
                let left0 = w@;
                let left1 = taken(left0, "ok"@);
                if !all_known(left0, SetTopicResponse::declared_fields()) {
                    e == (DecodeError::UnknownField { field: first_unknown_key(left0, SetTopicResponse::declared_fields()) })
                } else if !required_ok::<bool>(left0, "ok"@) {
                    required_err::<bool>(left0, "ok"@, e)
                } else if !optional_ok::<String>(left1, "topic"@) {
                    field_failed::<String>(left1, "topic"@, e)
                } else {
                    false
                }
            },
            _ => e == (DecodeError::WrongType { expected: "object" }),
        }
    }
}

impl Decode for SetTopicResponse {
    open spec fn accepts(v: JsonValue) -> bool {
        SetTopicResponse::spec_accepts(v)
    }

    open spec fn decodes_to(v: JsonValue, x: SetTopicResponse) -> bool {
        SetTopicResponse::spec_decodes_to(v, x)
    }

    open spec fn rejects_with(v: JsonValue, e: DecodeError) -> bool {
        SetTopicResponse::spec_rejects_with(v, e)
    }

    fn decode(v: JsonValue) -> Result<SetTopicResponse, DecodeError> {
        proof {
            reveal(SetTopicResponse::spec_accepts);
            reveal(SetTopicResponse::spec_decodes_to);
            reveal(SetTopicResponse::spec_rejects_with);
        }
        let mut wire = into_fields(v)?;
        let known: &[&str] = &["ok", "topic"];
        assert(known@ =~= SetTopicResponse::declared_fields());
        check_fields(&wire, known)?;
        let ok: bool = required(&mut wire, "ok")?;
        let topic: Option<String> = optional(&mut wire, "topic")?;
        Ok(SetTopicResponse { ok, topic })
    }
}

#[derive(Clone, Debug, PartialEq)]
pub struct UnarchiveRequest<'a> {
    /// Private channel to unarchive
    pub channel: &'a str,
}

} // verus!
