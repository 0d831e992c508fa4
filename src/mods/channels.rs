//! Get info on your team's Slack channels, create or archive channels, invite users, set the topic and purpose, and mark a channel as read.

use crate::id::{ChannelId, UserId};
use crate::json::{all_known, check_fields, field_failed, first_unknown_key, optional_ok, optional_value, required_err, required_ok, taken, value_of, into_fields, optional, required, Decode, DecodeError, JsonValue};
use crate::timestamp::Timestamp;
use crate::types::{Channel, Message};
use vstd::prelude::*;

verus! {

#[derive(Clone, Debug, PartialEq)]
pub struct ArchiveRequest {
    /// Channel to archive
    pub channel: ChannelId,
}

#[derive(Clone, Debug, PartialEq)]
pub struct CreateRequest<'a> {
    /// Name of channel to create
    pub name: &'a str,
    /// Whether to return errors on invalid channel name instead of modifying it to meet the specified criteria.
    pub validate: Option<bool>,
}

#[derive(Clone, Debug, PartialEq)]
pub struct CreateResponse {
    ok: bool,
    pub channel: Channel,
}

impl CreateResponse {
    /// The fields the record declares; it admits no others.
    pub open spec fn declared_fields() -> Seq<&'static str> {
        seq!["ok", "channel"]
    }
}

impl CreateResponse {
    /// Whether `v` decodes as the record: an object whose fields read in order.
    #[verifier::opaque]
    pub open spec fn spec_accepts(v: JsonValue) -> bool {
        match v {
            JsonValue::Object(w) => {
                let left0 = w@;
                let left1 = taken(left0, "ok"@);
                &&& all_known(left0, CreateResponse::declared_fields())
                &&& required_ok::<bool>(left0, "ok"@)
                &&& required_ok::<Channel>(left1, "channel"@)
            },
            _ => false,
        }
    }

    /// Whether `x` holds what the fields of `v` read as.
    #[verifier::opaque]
    pub closed spec fn spec_decodes_to(v: JsonValue, x: CreateResponse) -> bool {
        match v {
            JsonValue::Object(w) => {
                let left0 = w@;
                let left1 = taken(left0, "ok"@);
                &&& <bool as Decode>::decodes_to(value_of(left0, "ok"@), x.ok)
                &&& <Channel as Decode>::decodes_to(value_of(left1, "channel"@), x.channel)
            },
            _ => false,
        }
    }

    /// Whether `e` is the error of the first check or field that fails on `v`.
    #[verifier::opaque]
    pub open spec fn spec_rejects_with(v: JsonValue, e: DecodeError) -> bool {
        match v {
            JsonValue::Object(w) => {
                let left0 = w@;
                let left1 = taken(left0, "ok"@);
                if !all_known(left0, CreateResponse::declared_fields()) {
                    e == (DecodeError::UnknownField { field: first_unknown_key(left0, CreateResponse::declared_fields()) })
                } else if !required_ok::<bool>(left0, "ok"@) {
                    required_err::<bool>(left0, "ok"@, e)
                } else if !required_ok::<Channel>(left1, "channel"@) {
                    required_err::<Channel>(left1, "channel"@, e)
                } else {
                    false
                }
            },
            _ => e == (DecodeError::WrongType { expected: "object" }),
        }
    }
}

impl Decode for CreateResponse {
    open spec fn accepts(v: JsonValue) -> bool {
        CreateResponse::spec_accepts(v)
    }

    open spec fn decodes_to(v: JsonValue, x: CreateResponse) -> bool {
        CreateResponse::spec_decodes_to(v, x)
    }

    open spec fn rejects_with(v: JsonValue, e: DecodeError) -> bool {
        CreateResponse::spec_rejects_with(v, e)
    }

    fn decode(v: JsonValue) -> Result<CreateResponse, DecodeError> {
        proof {
            reveal(CreateResponse::spec_accepts);
            reveal(CreateResponse::spec_decodes_to);
            reveal(CreateResponse::spec_rejects_with);
        }
        let mut wire = into_fields(v)?;
        let known: &[&str] = &["ok", "channel"];
        assert(known@ =~= CreateResponse::declared_fields());
        check_fields(&wire, known)?;
        let ok: bool = required(&mut wire, "ok")?;
        let channel: Channel = required(&mut wire, "channel")?;
        Ok(CreateResponse { ok, channel })
    }
}

#[derive(Clone, Debug, PartialEq)]
pub struct HistoryRequest<'a> {
    /// Channel to fetch history for.
    pub channel: ChannelId,
    /// End of time range of messages to include in results.
    pub latest: Option<&'a str>,
    /// Start of time range of messages to include in results.
    pub oldest: Option<&'a str>,
    /// Include messages with latest or oldest timestamp in results.
    pub inclusive: Option<bool>,
    /// Number of messages to return, between 1 and 1000.
    pub count: Option<u32>,
    /// Include unread_count_display in the output?
    pub unreads: Option<bool>,
}

#[derive(Clone, Debug, PartialEq)]
pub struct HistoryResponse {
    ok: bool,
    pub has_more: Option<bool>,
    pub latest: Option<Timestamp>,
    pub messages: Vec<Message>,
    pub is_limited: Option<bool>,
}

impl HistoryResponse {
    /// The fields the record declares; it admits no others.
    pub open spec fn declared_fields() -> Seq<&'static str> {
        seq!["ok", "has_more", "latest", "messages", "is_limited"]
    }
}

impl HistoryResponse {
    /// Whether `v` decodes as the record: an object whose fields read in order.
    #[verifier::opaque]
    pub open spec fn spec_accepts(v: JsonValue) -> bool {
        match v {
            JsonValue::Object(w) => {
                let left0 = w@;
                let left1 = taken(left0, "ok"@);
                let left2 = taken(left1, "has_more"@);
                let left3 = taken(left2, "latest"@);
                let left4 = taken(left3, "messages"@);
                &&& all_known(left0, HistoryResponse::declared_fields())
                &&& required_ok::<bool>(left0, "ok"@)
                &&& optional_ok::<bool>(left1, "has_more"@)
                &&& optional_ok::<Timestamp>(left2, "latest"@)
                &&& required_ok::<Vec<Message>>(left3, "messages"@)
                &&& optional_ok::<bool>(left4, "is_limited"@)
            },
            _ => false,
        }
    }

    /// Whether `x` holds what the fields of `v` read as.
    #[verifier::opaque]
    pub closed spec fn spec_decodes_to(v: JsonValue, x: HistoryResponse) -> bool {
        match v {
            JsonValue::Object(w) => {
                let left0 = w@;
                let left1 = taken(left0, "ok"@);
                let left2 = taken(left1, "has_more"@);
                let left3 = taken(left2, "latest"@);
                let left4 = taken(left3, "messages"@);
                &&& <bool as Decode>::decodes_to(value_of(left0, "ok"@), x.ok)
                &&& optional_value::<bool>(left1, "has_more"@, x.has_more)
                &&& optional_value::<Timestamp>(left2, "latest"@, x.latest)
                &&& <Vec<Message> as Decode>::decodes_to(value_of(left3, "messages"@), x.messages)
                &&& optional_value::<bool>(left4, "is_limited"@, x.is_limited)
            },
            _ => false,
        }
    }

    /// Whether `e` is the error of the first check or field that fails on `v`.
    #[verifier::opaque]
    pub open spec fn spec_rejects_with(v: JsonValue, e: DecodeError) -> bool {
        match v {
            JsonValue::Object(w) => {
                let left0 = w@;
                let left1 = taken(left0, "ok"@);
                let left2 = taken(left1, "has_more"@);
                let left3 = taken(left2, "latest"@);
                let left4 = taken(left3, "messages"@);
                if !all_known(left0, HistoryResponse::declared_fields()) {
                    e == (DecodeError::UnknownField { field: first_unknown_key(left0, HistoryResponse::declared_fields()) })
                } else if !required_ok::<bool>(left0, "ok"@) {
                    required_err::<bool>(left0, "ok"@, e)
                } else if !optional_ok::<bool>(left1, "has_more"@) {
                    field_failed::<bool>(left1, "has_more"@, e)
                } else if !optional_ok::<Timestamp>(left2, "latest"@) {
                    field_failed::<Timestamp>(left2, "latest"@, e)
                } else if !required_ok::<Vec<Message>>(left3, "messages"@) {
                    required_err::<Vec<Message>>(left3, "messages"@, e)
                } else if !optional_ok::<bool>(left4, "is_limited"@) {
                    field_failed::<bool>(left4, "is_limited"@, e)
                } else {
                    false
                }
            },
            _ => e == (DecodeError::WrongType { expected: "object" }),
        }
    }
}

impl Decode for HistoryResponse {
    open spec fn accepts(v: JsonValue) -> bool {
        HistoryResponse::spec_accepts(v)
    }

    open spec fn decodes_to(v: JsonValue, x: HistoryResponse) -> bool {
        HistoryResponse::spec_decodes_to(v, x)
    }

    open spec fn rejects_with(v: JsonValue, e: DecodeError) -> bool {
        HistoryResponse::spec_rejects_with(v, e)
    }

    fn decode(v: JsonValue) -> Result<HistoryResponse, DecodeError> {
        proof {
            reveal(HistoryResponse::spec_accepts);
            reveal(HistoryResponse::spec_decodes_to);
            reveal(HistoryResponse::spec_rejects_with);
        }
        let mut wire = into_fields(v)?;
        let known: &[&str] = &["ok", "has_more", "latest", "messages", "is_limited"];
        assert(known@ =~= HistoryResponse::declared_fields());
        check_fields(&wire, known)?;
        let ok: bool = required(&mut wire, "ok")?;
        let has_more: Option<bool> = optional(&mut wire, "has_more")?;
        let latest: Option<Timestamp> = optional(&mut wire, "latest")?;
        let messages: Vec<Message> = required(&mut wire, "messages")?;
        let is_limited: Option<bool> = optional(&mut wire, "is_limited")?;
        Ok(HistoryResponse { ok, has_more, latest, messages, is_limited })
    }
}

#[derive(Clone, Debug, PartialEq)]
pub struct InfoRequest {
    /// Channel to get info on
    pub channel: ChannelId,
    pub include_locale: Option<bool>,
}

#[derive(Clone, Debug, PartialEq)]
pub struct InfoResponse {
    ok: bool,
    pub channel: Channel,
}

impl InfoResponse {
    /// The fields the record declares; it admits no others.
    pub open spec fn declared_fields() -> Seq<&'static str> {
        seq!["ok", "channel"]
    }
}

impl InfoResponse {
    /// Whether `v` decodes as the record: an object whose fields read in order.
    #[verifier::opaque]
    pub open spec fn spec_accepts(v: JsonValue) -> bool {
        match v {
            JsonValue::Object(w) => {
                let left0 = w@;
                let left1 = taken(left0, "ok"@);
                &&& all_known(left0, InfoResponse::declared_fields())
                &&& required_ok::<bool>(left0, "ok"@)
                &&& required_ok::<Channel>(left1, "channel"@)
            },
            _ => false,
        }
    }

    /// Whether `x` holds what the fields of `v` read as.
    #[verifier::opaque]
    pub closed spec fn spec_decodes_to(v: JsonValue, x: InfoResponse) -> bool {
        match v {
            JsonValue::Object(w) => {
                let left0 = w@;
                let left1 = taken(left0, "ok"@);
                &&& <bool as Decode>::decodes_to(value_of(left0, "ok"@), x.ok)
                &&& <Channel as Decode>::decodes_to(value_of(left1, "channel"@), x.channel)
            },
            _ => false,
        }
    }

    /// Whether `e` is the error of the first check or field that fails on `v`.
    #[verifier::opaque]
    pub open spec fn spec_rejects_with(v: JsonValue, e: DecodeError) -> bool {
        match v {
            JsonValue::Object(w) => {
                let left0 = w@;
                let left1 = taken(left0, "ok"@);
                if !all_known(left0, InfoResponse::declared_fields()) {
                    e == (DecodeError::UnknownField { field: first_unknown_key(left0, InfoResponse::declared_fields()) })
                } else if !required_ok::<bool>(left0, "ok"@) {
                    required_err::<bool>(left0, "ok"@, e)
                } else if !required_ok::<Channel>(left1, "channel"@) {
                    required_err::<Channel>(left1, "channel"@, e)
                } else {
                    false
                }
            },
            _ => e == (DecodeError::WrongType { expected: "object" }),
        }
    }
}

impl Decode for InfoResponse {
    open spec fn accepts(v: JsonValue) -> bool {
        InfoResponse::spec_accepts(v)
    }

    open spec fn decodes_to(v: JsonValue, x: InfoResponse) -> bool {
        InfoResponse::spec_decodes_to(v, x)
    }

    open spec fn rejects_with(v: JsonValue, e: DecodeError) -> bool {
        InfoResponse::spec_rejects_with(v, e)
    }

    fn decode(v: JsonValue) -> Result<InfoResponse, DecodeError> {
        proof {
            reveal(InfoResponse::spec_accepts);
            reveal(InfoResponse::spec_decodes_to);
            reveal(InfoResponse::spec_rejects_with);
        }
        let mut wire = into_fields(v)?;
        let known: &[&str] = &["ok", "channel"];
        assert(known@ =~= InfoResponse::declared_fields());
        check_fields(&wire, known)?;
        let ok: bool = required(&mut wire, "ok")?;
        let channel: Channel = required(&mut wire, "channel")?;
        Ok(InfoResponse { ok, channel })
    }
}

#[derive(Clone, Debug, PartialEq)]
pub struct InviteRequest {
    /// Channel to invite user to.
    pub channel: ChannelId,
    /// User to invite to channel.
    pub user: UserId,
}

#[derive(Clone, Debug, PartialEq)]
pub struct InviteResponse {
    ok: bool,
    pub channel: Channel,
}

impl InviteResponse {
    /// The fields the record declares; it admits no others.
    pub open spec fn declared_fields() -> Seq<&'static str> {
        seq!["ok", "channel"]
    }
}

impl InviteResponse {
    /// Whether `v` decodes as the record: an object whose fields read in order.
    #[verifier::opaque]
    pub open spec fn spec_accepts(v: JsonValue) -> bool {
        match v {
            JsonValue::Object(w) => {
                let left0 = w@;
                let left1 = taken(left0, "ok"@);
                &&& all_known(left0, InviteResponse::declared_fields())
                &&& required_ok::<bool>(left0, "ok"@)
                &&& required_ok::<Channel>(left1, "channel"@)
            },
            _ => false,
        }
    }

    /// Whether `x` holds what the fields of `v` read as.
    #[verifier::opaque]
    pub closed spec fn spec_decodes_to(v: JsonValue, x: InviteResponse) -> bool {
        match v {
            JsonValue::Object(w) => {
                let left0 = w@;
                let left1 = taken(left0, "ok"@);
                &&& <bool as Decode>::decodes_to(value_of(left0, "ok"@), x.ok)
                &&& <Channel as Decode>::decodes_to(value_of(left1, "channel"@), x.channel)
            },
            _ => false,
        }
    }

    /// Whether `e` is the error of the first check or field that fails on `v`.
    #[verifier::opaque]
    pub open spec fn spec_rejects_with(v: JsonValue, e: DecodeError) -> bool {
        match v {
            JsonValue::Object(w) => {
                let left0 = w@;
                let left1 = taken(left0, "ok"@);
                if !all_known(left0, InviteResponse::declared_fields()) {
                    e == (DecodeError::UnknownField { field: first_unknown_key(left0, InviteResponse::declared_fields()) })
                } else if !required_ok::<bool>(left0, "ok"@) {
                    required_err::<bool>(left0, "ok"@, e)
                } else if !required_ok::<Channel>(left1, "channel"@) {
                    required_err::<Channel>(left1, "channel"@, e)
                } else {
                    false
                }
            },
            _ => e == (DecodeError::WrongType { expected: "object" }),
        }
    }
}

impl Decode for InviteResponse {
    open spec fn accepts(v: JsonValue) -> bool {
        InviteResponse::spec_accepts(v)
    }

    open spec fn decodes_to(v: JsonValue, x: InviteResponse) -> bool {
        InviteResponse::spec_decodes_to(v, x)
    }

    open spec fn rejects_with(v: JsonValue, e: DecodeError) -> bool {
        InviteResponse::spec_rejects_with(v, e)
    }

    fn decode(v: JsonValue) -> Result<InviteResponse, DecodeError> {
        proof {
            reveal(InviteResponse::spec_accepts);
            reveal(InviteResponse::spec_decodes_to);
            reveal(InviteResponse::spec_rejects_with);
        }
        let mut wire = into_fields(v)?;
        let known: &[&str] = &["ok", "channel"];
        assert(known@ =~= InviteResponse::declared_fields());
        check_fields(&wire, known)?;
        let ok: bool = required(&mut wire, "ok")?;
        let channel: Channel = required(&mut wire, "channel")?;
        Ok(InviteResponse { ok, channel })
    }
}

#[derive(Clone, Debug, PartialEq)]
pub struct JoinRequest<'a> {
    /// Name of channel to join
    pub name: &'a str,
    /// Whether to return errors on invalid channel name instead of modifying it to meet the specified criteria.
    pub validate: Option<bool>,
}

#[derive(Clone, Debug, PartialEq)]
pub struct JoinResponse {
    ok: bool,
    pub channel: Channel,
    pub already_in_channel: Option<bool>,
}

impl JoinResponse {
    /// The fields the record declares; it admits no others.
    pub open spec fn declared_fields() -> Seq<&'static str> {
        seq!["ok", "channel", "already_in_channel"]
    }
}

impl JoinResponse {
    /// Whether `v` decodes as the record: an object whose fields read in order.
    #[verifier::opaque]
    pub open spec fn spec_accepts(v: JsonValue) -> bool {
        match v {
            JsonValue::Object(w) => {
                let left0 = w@;
                let left1 = taken(left0, "ok"@);
                let left2 = taken(left1, "channel"@);
                &&& all_known(left0, JoinResponse::declared_fields())
                &&& required_ok::<bool>(left0, "ok"@)
                &&& required_ok::<Channel>(left1, "channel"@)
                &&& optional_ok::<bool>(left2, "already_in_channel"@)
            },
            _ => false,
        }
    }

    /// Whether `x` holds what the fields of `v` read as.
    #[verifier::opaque]
    pub closed spec fn spec_decodes_to(v: JsonValue, x: JoinResponse) -> bool {
        match v {
            JsonValue::Object(w) => {
                let left0 = w@;
                let left1 = taken(left0, "ok"@);
                let left2 = taken(left1, "channel"@);
                &&& <bool as Decode>::decodes_to(value_of(left0, "ok"@), x.ok)
                &&& <Channel as Decode>::decodes_to(value_of(left1, "channel"@), x.channel)
                &&& optional_value::<bool>(left2, "already_in_channel"@, x.already_in_channel)
            },
            _ => false,
        }
    }

    /// Whether `e` is the error of the first check or field that fails on `v`.
    #[verifier::opaque]
    pub open spec fn spec_rejects_with(v: JsonValue, e: DecodeError) -> bool {
        match v {
            JsonValue::Object(w) => {
                let left0 = w@;
                let left1 = taken(left0, "ok"@);
                let left2 = taken(left1, "channel"@);
                if !all_known(left0, JoinResponse::declared_fields()) {
                    e == (DecodeError::UnknownField { field: first_unknown_key(left0, JoinResponse::declared_fields()) })
                } else if !required_ok::<bool>(left0, "ok"@) {
                    required_err::<bool>(left0, "ok"@, e)
                } else if !required_ok::<Channel>(left1, "channel"@) {
                    required_err::<Channel>(left1, "channel"@, e)
                } else if !optional_ok::<bool>(left2, "already_in_channel"@) {
                    field_failed::<bool>(left2, "already_in_channel"@, e)
                } else {
                    false
                }
            },
            _ => e == (DecodeError::WrongType { expected: "object" }),
        }
    }
}

impl Decode for JoinResponse {
    open spec fn accepts(v: JsonValue) -> bool {
        JoinResponse::spec_accepts(v)
    }

    open spec fn decodes_to(v: JsonValue, x: JoinResponse) -> bool {
        JoinResponse::spec_decodes_to(v, x)
    }

    open spec fn rejects_with(v: JsonValue, e: DecodeError) -> bool {
        JoinResponse::spec_rejects_with(v, e)
    }

    fn decode(v: JsonValue) -> Result<JoinResponse, DecodeError> {
        proof {
            reveal(JoinResponse::spec_accepts);
            reveal(JoinResponse::spec_decodes_to);
            reveal(JoinResponse::spec_rejects_with);
        }
        let mut wire = into_fields(v)?;
        let known: &[&str] = &["ok", "channel", "already_in_channel"];
        assert(known@ =~= JoinResponse::declared_fields());
        check_fields(&wire, known)?;
        let ok: bool = required(&mut wire, "ok")?;
        let channel: Channel = required(&mut wire, "channel")?;
        let already_in_channel: Option<bool> = optional(&mut wire, "already_in_channel")?;
        Ok(JoinResponse { ok, channel, already_in_channel })
    }
}

#[derive(Clone, Debug, PartialEq)]
pub struct KickRequest {
    /// Channel to remove user from.
    pub channel: ChannelId,
    /// User to remove from channel.
    pub user: UserId,
}

#[derive(Clone, Debug, PartialEq)]
pub struct LeaveRequest {
    /// Channel to leave
    pub channel: ChannelId,
}

#[derive(Clone, Debug, PartialEq)]
pub struct LeaveResponse {
    ok: bool,
    not_in_channel: Option<bool>,
}

impl LeaveResponse {
    /// The fields the record declares; it admits no others.
    pub open spec fn declared_fields() -> Seq<&'static str> {
        seq!["ok", "not_in_channel"]
    }
}

impl LeaveResponse {
    /// Whether `v` decodes as the record: an object whose fields read in order.
    #[verifier::opaque]
    pub open spec fn spec_accepts(v: JsonValue) -> bool {
        match v {
            JsonValue::Object(w) => {
                let left0 = w@;
                let left1 = taken(left0, "ok"@);
                &&& all_known(left0, LeaveResponse::declared_fields())
                &&& required_ok::<bool>(left0, "ok"@)
                &&& optional_ok::<bool>(left1, "not_in_channel"@)
            },
            _ => false,
        }
    }

    /// Whether `x` holds what the fields of `v` read as.
    #[verifier::opaque]
    pub closed spec fn spec_decodes_to(v: JsonValue, x: LeaveResponse) -> bool {
        match v {
            JsonValue::Object(w) => {
                let left0 = w@;
                let left1 = taken(left0, "ok"@);
                &&& <bool as Decode>::decodes_to(value_of(left0, "ok"@), x.ok)
                &&& optional_value::<bool>(left1, "not_in_channel"@, x.not_in_channel)
            },
            _ => false,
        }
    }

    /// Whether `e` is the error of the first check or field that fails on `v`.
    #[verifier::opaque]
    pub open spec fn spec_rejects_with(v: JsonValue, e: DecodeError) -> bool {
        match v {
            JsonValue::Object(w) => {
                let left0 = w@;
                let left1 = taken(left0, "ok"@);
                if !all_known(left0, LeaveResponse::declared_fields()) {
                    e == (DecodeError::UnknownField { field: first_unknown_key(left0, LeaveResponse::declared_fields()) })
                } else if !required_ok::<bool>(left0, "ok"@) {
                    required_err::<bool>(left0, "ok"@, e)
                } else if !optional_ok::<bool>(left1, "not_in_channel"@) {
                    field_failed::<bool>(left1, "not_in_channel"@, e)
                } else {
                    false
                }
            },
            _ => e == (DecodeError::WrongType { expected: "object" }),
        }
    }
}

impl Decode for LeaveResponse {
    open spec fn accepts(v: JsonValue) -> bool {
        LeaveResponse::spec_accepts(v)
    }

    open spec fn decodes_to(v: JsonValue, x: LeaveResponse) -> bool {
        LeaveResponse::spec_decodes_to(v, x)
    }

    open spec fn rejects_with(v: JsonValue, e: DecodeError) -> bool {
        LeaveResponse::spec_rejects_with(v, e)
    }

    fn decode(v: JsonValue) -> Result<LeaveResponse, DecodeError> {
        proof {
            reveal(LeaveResponse::spec_accepts);
            reveal(LeaveResponse::spec_decodes_to);
            reveal(LeaveResponse::spec_rejects_with);
        }
        let mut wire = into_fields(v)?;
        let known: &[&str] = &["ok", "not_in_channel"];
        assert(known@ =~= LeaveResponse::declared_fields());
        check_fields(&wire, known)?;
        let ok: bool = required(&mut wire, "ok")?;
        let not_in_channel: Option<bool> = optional(&mut wire, "not_in_channel")?;
        Ok(LeaveResponse { ok, not_in_channel })
    }
}

#[derive(Clone, Debug, PartialEq)]
pub struct ListRequest {
    /// Exclude archived channels from the list
    pub exclude_archived: Option<bool>,
    /// Exclude the members collection from each channel
    pub exclude_members: Option<bool>,
    pub cursor: Option<String>,
    pub limit: Option<usize>,
}

#[derive(Clone, Debug, PartialEq)]
pub struct ListResponse {
    ok: bool,
    pub channels: Vec<Channel>,
    pub response_metadata: Option<ResponseMetadata>,
}

impl ListResponse {
    /// The fields the record declares; it admits no others.
    pub open spec fn declared_fields() -> Seq<&'static str> {
        seq!["ok", "channels", "response_metadata"]
    }
}

impl ListResponse {
    /// Whether `v` decodes as the record: an object whose fields read in order.
    #[verifier::opaque]
    pub open spec fn spec_accepts(v: JsonValue) -> bool {
        match v {
            JsonValue::Object(w) => {
                let left0 = w@;
                let left1 = taken(left0, "ok"@);
                let left2 = taken(left1, "channels"@);
                &&& all_known(left0, ListResponse::declared_fields())
                &&& required_ok::<bool>(left0, "ok"@)
                &&& required_ok::<Vec<Channel>>(left1, "channels"@)
                &&& optional_ok::<ResponseMetadata>(left2, "response_metadata"@)
            },
            _ => false,
        }
    }

    /// Whether `x` holds what the fields of `v` read as.
    #[verifier::opaque]
    pub closed spec fn spec_decodes_to(v: JsonValue, x: ListResponse) -> bool {
        match v {
            JsonValue::Object(w) => {
                let left0 = w@;
                let left1 = taken(left0, "ok"@);
                let left2 = taken(left1, "channels"@);
                &&& <bool as Decode>::decodes_to(value_of(left0, "ok"@), x.ok)
                &&& <Vec<Channel> as Decode>::decodes_to(value_of(left1, "channels"@), x.channels)
                &&& optional_value::<ResponseMetadata>(left2, "response_metadata"@, x.response_metadata)
            },
            _ => false,
        }
    }

    /// Whether `e` is the error of the first check or field that fails on `v`.
    #[verifier::opaque]
    pub open spec fn spec_rejects_with(v: JsonValue, e: DecodeError) -> bool {
        match v {
            JsonValue::Object(w) => {
                let left0 = w@;
                let left1 = taken(left0, "ok"@);
                let left2 = taken(left1, "channels"@);
                if !all_known(left0, ListResponse::declared_fields()) {
                    e == (DecodeError::UnknownField { field: first_unknown_key(left0, ListResponse::declared_fields()) })
                } else if !required_ok::<bool>(left0, "ok"@) {
                    required_err::<bool>(left0, "ok"@, e)
                } else if !required_ok::<Vec<Channel>>(left1, "channels"@) {
                    required_err::<Vec<Channel>>(left1, "channels"@, e)
                } else if !optional_ok::<ResponseMetadata>(left2, "response_metadata"@) {
                    field_failed::<ResponseMetadata>(left2, "response_metadata"@, e)
                } else {
                    false
                }
            },
            _ => e == (DecodeError::WrongType { expected: "object" }),
        }
    }
}

impl Decode for ListResponse {
    open spec fn accepts(v: JsonValue) -> bool {
        ListResponse::spec_accepts(v)
    }

    open spec fn decodes_to(v: JsonValue, x: ListResponse) -> bool {
        ListResponse::spec_decodes_to(v, x)
    }

    open spec fn rejects_with(v: JsonValue, e: DecodeError) -> bool {
        ListResponse::spec_rejects_with(v, e)
    }

    fn decode(v: JsonValue) -> Result<ListResponse, DecodeError> {
        proof {
            reveal(ListResponse::spec_accepts);
            reveal(ListResponse::spec_decodes_to);
            reveal(ListResponse::spec_rejects_with);
        }
        let mut wire = into_fields(v)?;
        let known: &[&str] = &["ok", "channels", "response_metadata"];
        assert(known@ =~= ListResponse::declared_fields());
        check_fields(&wire, known)?;
        let ok: bool = required(&mut wire, "ok")?;
        let channels: Vec<Channel> = required(&mut wire, "channels")?;
        let response_metadata: Option<ResponseMetadata> = optional(&mut wire, "response_metadata")?;
        Ok(ListResponse { ok, channels, response_metadata })
    }
}

#[derive(Clone, Debug, PartialEq)]
pub struct ResponseMetadata {
    next_cursor: Option<String>,
}

impl ResponseMetadata {
    /// Whether `v` decodes as the record: an object whose fields read in order.
    #[verifier::opaque]
    pub open spec fn spec_accepts(v: JsonValue) -> bool {
        match v {
            JsonValue::Object(w) => {
                let left0 = w@;
                &&& optional_ok::<String>(left0, "next_cursor"@)
            },
            _ => false,
        }
    }

    /// Whether `x` holds what the fields of `v` read as.
    #[verifier::opaque]
    pub closed spec fn spec_decodes_to(v: JsonValue, x: ResponseMetadata) -> bool {
        match v {
            JsonValue::Object(w) => {
                let left0 = w@;
                &&& optional_value::<String>(left0, "next_cursor"@, x.next_cursor)
            },
            _ => false,
        }
    }

    /// Whether `e` is the error of the first check or field that fails on `v`.
    #[verifier::opaque]
    pub open spec fn spec_rejects_with(v: JsonValue, e: DecodeError) -> bool {
        match v {
            JsonValue::Object(w) => {
                let left0 = w@;
                if !optional_ok::<String>(left0, "next_cursor"@) {
                    field_failed::<String>(left0, "next_cursor"@, e)
                } else {
                    false
                }
            },
            _ => e == (DecodeError::WrongType { expected: "object" }),
        }
    }
}

impl Decode for ResponseMetadata {
    open spec fn accepts(v: JsonValue) -> bool {
        ResponseMetadata::spec_accepts(v)
    }

    open spec fn decodes_to(v: JsonValue, x: ResponseMetadata) -> bool {
        ResponseMetadata::spec_decodes_to(v, x)
    }

    open spec fn rejects_with(v: JsonValue, e: DecodeError) -> bool {
        ResponseMetadata::spec_rejects_with(v, e)
    }

    fn decode(v: JsonValue) -> Result<ResponseMetadata, DecodeError> {
        proof {
            reveal(ResponseMetadata::spec_accepts);
            reveal(ResponseMetadata::spec_decodes_to);
            reveal(ResponseMetadata::spec_rejects_with);
        }
        let mut wire = into_fields(v)?;
        let next_cursor: Option<String> = optional(&mut wire, "next_cursor")?;
        Ok(ResponseMetadata { next_cursor })
    }
}

#[derive(Clone, Debug, PartialEq)]
pub struct MarkRequest<'a> {
    /// Channel to set reading cursor in.
    pub channel: ChannelId,
    /// Timestamp of the most recently seen message.
    pub ts: &'a str,
}

#[derive(Clone, Debug, PartialEq)]
pub struct RenameRequest<'a> {
    /// Channel to rename
    pub channel: ChannelId,
    /// New name for channel.
    pub name: &'a str,
    /// Whether to return errors on invalid channel name instead of modifying it to meet the specified criteria.
    pub validate: Option<bool>,
}

#[derive(Clone, Debug, PartialEq)]
pub struct RenameResponse {
    ok: bool,
    pub channel: Channel,
}

impl RenameResponse {
    /// The fields the record declares; it admits no others.
    pub open spec fn declared_fields() -> Seq<&'static str> {
        seq!["ok", "channel"]
    }
}

impl RenameResponse {
    /// Whether `v` decodes as the record: an object whose fields read in order.
    #[verifier::opaque]
    pub open spec fn spec_accepts(v: JsonValue) -> bool {
        match v {
            JsonValue::Object(w) => {
                let left0 = w@;
                let left1 = taken(left0, "ok"@);
                &&& all_known(left0, RenameResponse::declared_fields())
                &&& required_ok::<bool>(left0, "ok"@)
                &&& required_ok::<Channel>(left1, "channel"@)
            },
            _ => false,
        }
    }

    /// Whether `x` holds what the fields of `v` read as.
    #[verifier::opaque]
    pub closed spec fn spec_decodes_to(v: JsonValue, x: RenameResponse) -> bool {
        match v {
            JsonValue::Object(w) => {
                let left0 = w@;
                let left1 = taken(left0, "ok"@);
                &&& <bool as Decode>::decodes_to(value_of(left0, "ok"@), x.ok)
                &&& <Channel as Decode>::decodes_to(value_of(left1, "channel"@), x.channel)
            },
            _ => false,
        }
    }

    /// Whether `e` is the error of the first check or field that fails on `v`.
    #[verifier::opaque]
    pub open spec fn spec_rejects_with(v: JsonValue, e: DecodeError) -> bool {
        match v {
            JsonValue::Object(w) => {
                let left0 = w@;
                let left1 = taken(left0, "ok"@);
                if !all_known(left0, RenameResponse::declared_fields()) {
                    e == (DecodeError::UnknownField { field: first_unknown_key(left0, RenameResponse::declared_fields()) })
                } else if !required_ok::<bool>(left0, "ok"@) {
                    required_err::<bool>(left0, "ok"@, e)
                } else if !required_ok::<Channel>(left1, "channel"@) {
                    required_err::<Channel>(left1, "channel"@, e)
                } else {
                    false
                }
            },
            _ => e == (DecodeError::WrongType { expected: "object" }),
        }
    }
}

impl Decode for RenameResponse {
    open spec fn accepts(v: JsonValue) -> bool {
        RenameResponse::spec_accepts(v)
    }

    open spec fn decodes_to(v: JsonValue, x: RenameResponse) -> bool {
        RenameResponse::spec_decodes_to(v, x)
    }

    open spec fn rejects_with(v: JsonValue, e: DecodeError) -> bool {
        RenameResponse::spec_rejects_with(v, e)
    }

    fn decode(v: JsonValue) -> Result<RenameResponse, DecodeError> {
        proof {
            reveal(RenameResponse::spec_accepts);
            reveal(RenameResponse::spec_decodes_to);
            reveal(RenameResponse::spec_rejects_with);
        }
        let mut wire = into_fields(v)?;
        let known: &[&str] = &["ok", "channel"];
        assert(known@ =~= RenameResponse::declared_fields());
        check_fields(&wire, known)?;
        let ok: bool = required(&mut wire, "ok")?;
        let channel: Channel = required(&mut wire, "channel")?;
        Ok(RenameResponse { ok, channel })
    }
}

#[derive(Clone, Debug, PartialEq)]
pub struct RepliesRequest<'a> {
    /// Channel to fetch thread from
    pub channel: ChannelId,
    /// Unique identifier of a thread's parent message
    pub thread_ts: &'a str,
}

#[derive(Clone, Debug, PartialEq)]
pub struct RepliesResponse {
    ok: bool,
    pub has_more: bool,
    pub messages: Vec<Message>,
}

impl RepliesResponse {
    /// The fields the record declares; it admits no others.
    pub open spec fn declared_fields() -> Seq<&'static str> {
        seq!["ok", "has_more", "messages"]
    }
}

impl RepliesResponse {
    /// Whether `v` decodes as the record: an object whose fields read in order.
    #[verifier::opaque]
    pub open spec fn spec_accepts(v: JsonValue) -> bool {
        match v {
            JsonValue::Object(w) => {
                let left0 = w@;
                let left1 = taken(left0, "ok"@);
                let left2 = taken(left1, "has_more"@);
                &&& all_known(left0, RepliesResponse::declared_fields())
                &&& required_ok::<bool>(left0, "ok"@)
                &&& required_ok::<bool>(left1, "has_more"@)
                &&& required_ok::<Vec<Message>>(left2, "messages"@)
            },
            _ => false,
        }
    }

    /// Whether `x` holds what the fields of `v` read as.
    #[verifier::opaque]
    pub closed spec fn spec_decodes_to(v: JsonValue, x: RepliesResponse) -> bool {
        match v {
            JsonValue::Object(w) => {
                let left0 = w@;
                let left1 = taken(left0, "ok"@);
                let left2 = taken(left1, "has_more"@);
                &&& <bool as Decode>::decodes_to(value_of(left0, "ok"@), x.ok)
                &&& <bool as Decode>::decodes_to(value_of(left1, "has_more"@), x.has_more)
                &&& <Vec<Message> as Decode>::decodes_to(value_of(left2, "messages"@), x.messages)
            },
            _ => false,
        }
    }

    /// Whether `e` is the error of the first check or field that fails on `v`.
    #[verifier::opaque]
    pub open spec fn spec_rejects_with(v: JsonValue, e: DecodeError) -> bool {
        match v {
            JsonValue::Object(w) => {
                let left0 = w@;
                let left1 = taken(left0, "ok"@);
                let left2 = taken(left1, "has_more"@);
                if !all_known(left0, RepliesResponse::declared_fields()) {
                    e == (DecodeError::UnknownField { field: first_unknown_key(left0, RepliesResponse::declared_fields()) })
                } else if !required_ok::<bool>(left0, "ok"@) {
                    required_err::<bool>(left0, "ok"@, e)
                } else if !required_ok::<bool>(left1, "has_more"@) {
                    required_err::<bool>(left1, "has_more"@, e)
                } else if !required_ok::<Vec<Message>>(left2, "messages"@) {
                    required_err::<Vec<Message>>(left2, "messages"@, e)
                } else {
                    false
                }
            },
            _ => e == (DecodeError::WrongType { expected: "object" }),
        }
    }
}

impl Decode for RepliesResponse {
    open spec fn accepts(v: JsonValue) -> bool {
        RepliesResponse::spec_accepts(v)
    }

    open spec fn decodes_to(v: JsonValue, x: RepliesResponse) -> bool {
        RepliesResponse::spec_decodes_to(v, x)
    }

    open spec fn rejects_with(v: JsonValue, e: DecodeError) -> bool {
        RepliesResponse::spec_rejects_with(v, e)
    }

    fn decode(v: JsonValue) -> Result<RepliesResponse, DecodeError> {
        proof {
            reveal(RepliesResponse::spec_accepts);
            reveal(RepliesResponse::spec_decodes_to);
            reveal(RepliesResponse::spec_rejects_with);
        }
        let mut wire = into_fields(v)?;
        let known: &[&str] = &["ok", "has_more", "messages"];
        assert(known@ =~= RepliesResponse::declared_fields());
        check_fields(&wire, known)?;
        let ok: bool = required(&mut wire, "ok")?;
        let has_more: bool = required(&mut wire, "has_more")?;
        let messages: Vec<Message> = required(&mut wire, "messages")?;
        Ok(RepliesResponse { ok, has_more, messages })
    }
}

#[derive(Clone, Debug, PartialEq)]
pub struct SetPurposeRequest<'a> {
    /// Channel to set the purpose of
    pub channel: ChannelId,
    /// The new purpose
    pub purpose: &'a str,
}

#[derive(Clone, Debug, PartialEq)]
pub struct SetPurposeResponse {
    ok: bool,
    pub purpose: String,
}

impl SetPurposeResponse {
    /// The fields the record declares; it admits no others.
    pub open spec fn declared_fields() -> Seq<&'static str> {
        seq!["ok", "purpose"]
    }
}

impl SetPurposeResponse {
    /// Whether `v` decodes as the record: an object whose fields read in order.
    #[verifier::opaque]
    pub open spec fn spec_accepts(v: JsonValue) -> bool {
        match v {
            JsonValue::Object(w) => {
                let left0 = w@;
                let left1 = taken(left0, "ok"@);
                &&& all_known(left0, SetPurposeResponse::declared_fields())
                &&& required_ok::<bool>(left0, "ok"@)
                &&& required_ok::<String>(left1, "purpose"@)
            },
            _ => false,
        }
    }

    /// Whether `x` holds what the fields of `v` read as.
    #[verifier::opaque]
    pub closed spec fn spec_decodes_to(v: JsonValue, x: SetPurposeResponse) -> bool {
        match v {
            JsonValue::Object(w) => {
                let left0 = w@;
                let left1 = taken(left0, "ok"@);
                &&& <bool as Decode>::decodes_to(value_of(left0, "ok"@), x.ok)
                &&& <String as Decode>::decodes_to(value_of(left1, "purpose"@), x.purpose)
            },
            _ => false,
        }
    }

    /// Whether `e` is the error of the first check or field that fails on `v`.
    #[verifier::opaque]
    pub open spec fn spec_rejects_with(v: JsonValue, e: DecodeError) -> bool {
        match v {
            JsonValue::Object(w) => {
                let left0 = w@;
                let left1 = taken(left0, "ok"@);
                if !all_known(left0, SetPurposeResponse::declared_fields()) {
                    e == (DecodeError::UnknownField { field: first_unknown_key(left0, SetPurposeResponse::declared_fields()) })
                } else if !required_ok::<bool>(left0, "ok"@) {
                    required_err::<bool>(left0, "ok"@, e)
                } else if !required_ok::<String>(left1, "purpose"@) {
                    required_err::<String>(left1, "purpose"@, e)
                } else {
                    false
                }
            },
            _ => e == (DecodeError::WrongType { expected: "object" }),
        }
    }
}

impl Decode for SetPurposeResponse {
    open spec fn accepts(v: JsonValue) -> bool {
        SetPurposeResponse::spec_accepts(v)
    }

    open spec fn decodes_to(v: JsonValue, x: SetPurposeResponse) -> bool {
        SetPurposeResponse::spec_decodes_to(v, x)
    }

    open spec fn rejects_with(v: JsonValue, e: DecodeError) -> bool {
        SetPurposeResponse::spec_rejects_with(v, e)
    }

    fn decode(v: JsonValue) -> Result<SetPurposeResponse, DecodeError> {
        proof {
            reveal(SetPurposeResponse::spec_accepts);
            reveal(SetPurposeResponse::spec_decodes_to);
            reveal(SetPurposeResponse::spec_rejects_with);
        }
        let mut wire = into_fields(v)?;
        let known: &[&str] = &["ok", "purpose"];
        assert(known@ =~= SetPurposeResponse::declared_fields());
        check_fields(&wire, known)?;
        let ok: bool = required(&mut wire, "ok")?;
        let purpose: String = required(&mut wire, "purpose")?;
        Ok(SetPurposeResponse { ok, purpose })
    }
}

#[derive(Clone, Debug, PartialEq)]
pub struct SetTopicRequest<'a> {
    /// Channel to set the topic of
    pub channel: ChannelId,
    /// The new topic
    pub topic: &'a str,
}

#[derive(Clone, Debug, PartialEq)]
pub struct SetTopicResponse {
    ok: bool,
    pub topic: String,
}

impl SetTopicResponse {
    /// The fields the record declares; it admits no others.
    pub open spec fn declared_fields() -> Seq<&'static str> {
        seq!["ok", "topic"]
    }
}

impl SetTopicResponse {
    /// Whether `v` decodes as the record: an object whose fields read in order.
    #[verifier::opaque]
    pub open spec fn spec_accepts(v: JsonValue) -> bool {
        match v {
            JsonValue::Object(w) => {
                let left0 = w@;
                let left1 = taken(left0, "ok"@);
                &&& all_known(left0, SetTopicResponse::declared_fields())
                &&& required_ok::<bool>(left0, "ok"@)
                &&& required_ok::<String>(left1, "topic"@)
            },
            _ => false,
        }
    }

    /// Whether `x` holds what the fields of `v` read as.
    #[verifier::opaque]
    pub closed spec fn spec_decodes_to(v: JsonValue, x: SetTopicResponse) -> bool {
        match v {
            JsonValue::Object(w) => {
                let left0 = w@;
                let left1 = taken(left0, "ok"@);
                &&& <bool as Decode>::decodes_to(value_of(left0, "ok"@), x.ok)
                &&& <String as Decode>::decodes_to(value_of(left1, "topic"@), x.topic)
            },
            _ => false,
        }
    }

    /// Whether `e` is the error of the first check or field that fails on `v`.
    #[verifier::opaque]
    pub open spec fn spec_rejects_with(v: JsonValue, e: DecodeError) -> bool {
        match v {
            JsonValue::Object(w) => {
                let left0 = w@;
                let left1 = taken(left0, "ok"@);
                if !all_known(left0, SetTopicResponse::declared_fields()) {
                    e == (DecodeError::UnknownField { field: first_unknown_key(left0, SetTopicResponse::declared_fields()) })
                } else if !required_ok::<bool>(left0, "ok"@) {
                    required_err::<bool>(left0, "ok"@, e)
                } else if !required_ok::<String>(left1, "topic"@) {
                    required_err::<String>(left1, "topic"@, e)
                } else {
                    false
                }
            },
            _ => e == (DecodeError::WrongType { expected: "object" }),
        }
    }
}

impl Decode for SetTopicResponse {
    open spec fn accepts(v: JsonValue) -> bool {
        SetTopicResponse::spec_accepts(v)
    }

    open spec fn decodes_to(v: JsonValue, x: SetTopicResponse) -> bool {
        SetTopicResponse::spec_decodes_to(v, x)
    }

    open spec fn rejects_with(v: JsonValue, e: DecodeError) -> bool {
        SetTopicResponse::spec_rejects_with(v, e)
    }

    fn decode(v: JsonValue) -> Result<SetTopicResponse, DecodeError> {
        proof {
            reveal(SetTopicResponse::spec_accepts);
            reveal(SetTopicResponse::spec_decodes_to);
            reveal(SetTopicResponse::spec_rejects_with);
        }
        let mut wire = into_fields(v)?;
        let known: &[&str] = &["ok", "topic"];
        assert(known@ =~= SetTopicResponse::declared_fields());
        check_fields(&wire, known)?;
        let ok: bool = required(&mut wire, "ok")?;
        let topic: String = required(&mut wire, "topic")?;
        Ok(SetTopicResponse { ok, topic })
    }
}

#[derive(Clone, Debug, PartialEq)]
pub struct UnarchiveRequest {
    /// Channel to unarchive
    pub channel: ChannelId,
}

#[derive(Clone, Debug, PartialEq)]
pub struct ArchiveResponse {
    ok: bool,
}

impl ArchiveResponse {
    /// The fields the record declares; it admits no others.
    pub open spec fn declared_fields() -> Seq<&'static str> {
        seq!["ok"]
    }
}

impl ArchiveResponse {
    /// Whether `v` decodes as the record: an object whose fields read in order.
    #[verifier::opaque]
    pub open spec fn spec_accepts(v: JsonValue) -> bool {
        match v {
            JsonValue::Object(w) => {
                let left0 = w@;
                &&& all_known(left0, ArchiveResponse::declared_fields())
                &&& required_ok::<bool>(left0, "ok"@)
            },
            _ => false,
        }
    }

    /// Whether `x` holds what the fields of `v` read as.
    #[verifier::opaque]
    pub closed spec fn spec_decodes_to(v: JsonValue, x: ArchiveResponse) -> bool {
        match v {
            JsonValue::Object(w) => {
                let left0 = w@;
                &&& <bool as Decode>::decodes_to(value_of(left0, "ok"@), x.ok)
            },
            _ => false,
        }
    }

    /// Whether `e` is the error of the first check or field that fails on `v`.
    #[verifier::opaque]
    pub open spec fn spec_rejects_with(v: JsonValue, e: DecodeError) -> bool {
        match v {
            JsonValue::Object(w) => {
                let left0 = w@;
                if !all_known(left0, ArchiveResponse::declared_fields()) {
                    e == (DecodeError::UnknownField { field: first_unknown_key(left0, ArchiveResponse::declared_fields()) })
                } else if !required_ok::<bool>(left0, "ok"@) {
                    required_err::<bool>(left0, "ok"@, e)
                } else {
                    false
                }
            },
            _ => e == (DecodeError::WrongType { expected: "object" }),
        }
    }
}

impl Decode for ArchiveResponse {
    open spec fn accepts(v: JsonValue) -> bool {
        ArchiveResponse::spec_accepts(v)
    }

    open spec fn decodes_to(v: JsonValue, x: ArchiveResponse) -> bool {
        ArchiveResponse::spec_decodes_to(v, x)
    }

    open spec fn rejects_with(v: JsonValue, e: DecodeError) -> bool {
        ArchiveResponse::spec_rejects_with(v, e)
    }

    fn decode(v: JsonValue) -> Result<ArchiveResponse, DecodeError> {
        proof {
            reveal(ArchiveResponse::spec_accepts);
            reveal(ArchiveResponse::spec_decodes_to);
            reveal(ArchiveResponse::spec_rejects_with);
        }
        let mut wire = into_fields(v)?;
        let known: &[&str] = &["ok"];
        assert(known@ =~= ArchiveResponse::declared_fields());
        check_fields(&wire, known)?;
        let ok: bool = required(&mut wire, "ok")?;
        Ok(ArchiveResponse { ok })
    }
}

#[derive(Clone, Debug, PartialEq)]
pub struct KickResponse {
    ok: bool,
}

impl KickResponse {
    /// The fields the record declares; it admits no others.
    pub open spec fn declared_fields() -> Seq<&'static str> {
        seq!["ok"]
    }
}

impl KickResponse {
    /// Whether `v` decodes as the record: an object whose fields read in order.
    #[verifier::opaque]
    pub open spec fn spec_accepts(v: JsonValue) -> bool {
        match v {
            JsonValue::Object(w) => {
                let left0 = w@;
                &&& all_known(left0, KickResponse::declared_fields())
                &&& required_ok::<bool>(left0, "ok"@)
            },
            _ => false,
        }
    }

    /// Whether `x` holds what the fields of `v` read as.
    #[verifier::opaque]
    pub closed spec fn spec_decodes_to(v: JsonValue, x: KickResponse) -> bool {
        match v {
            JsonValue::Object(w) => {
                let left0 = w@;
                &&& <bool as Decode>::decodes_to(value_of(left0, "ok"@), x.ok)
            },
            _ => false,
        }
    }

    /// Whether `e` is the error of the first check or field that fails on `v`.
    #[verifier::opaque]
    pub open spec fn spec_rejects_with(v: JsonValue, e: DecodeError) -> bool {
        match v {
            JsonValue::Object(w) => {
                let left0 = w@;
                if !all_known(left0, KickResponse::declared_fields()) {
                    e == (DecodeError::UnknownField { field: first_unknown_key(left0, KickResponse::declared_fields()) })
                } else if !required_ok::<bool>(left0, "ok"@) {
                    required_err::<bool>(left0, "ok"@, e)
                } else {
                    false
                }
            },
            _ => e == (DecodeError::WrongType { expected: "object" }),
        }
    }
}

impl Decode for KickResponse {
    open spec fn accepts(v: JsonValue) -> bool {
        KickResponse::spec_accepts(v)
    }

    open spec fn decodes_to(v: JsonValue, x: KickResponse) -> bool {
        KickResponse::spec_decodes_to(v, x)
    }

    open spec fn rejects_with(v: JsonValue, e: DecodeError) -> bool {
        KickResponse::spec_rejects_with(v, e)
    }

    fn decode(v: JsonValue) -> Result<KickResponse, DecodeError> {
        proof {
            reveal(KickResponse::spec_accepts);
            reveal(KickResponse::spec_decodes_to);
            reveal(KickResponse::spec_rejects_with);
        }
        let mut wire = into_fields(v)?;
        let known: &[&str] = &["ok"];
        assert(known@ =~= KickResponse::declared_fields());
        check_fields(&wire, known)?;
        let ok: bool = required(&mut wire, "ok")?;
        Ok(KickResponse { ok })
    }
}

#[derive(Clone, Debug, PartialEq)]
pub struct UnarchiveResponse {
    ok: bool,
}

impl UnarchiveResponse {
    /// The fields the record declares; it admits no others.
    pub open spec fn declared_fields() -> Seq<&'static str> {
        seq!["ok"]
    }
}

impl UnarchiveResponse {
    /// Whether `v` decodes as the record: an object whose fields read in order.
    #[verifier::opaque]
    pub open spec fn spec_accepts(v: JsonValue) -> bool {
        match v {
            JsonValue::Object(w) => {
                let left0 = w@;
                &&& all_known(left0, UnarchiveResponse::declared_fields())
                &&& required_ok::<bool>(left0, "ok"@)
            },
            _ => false,
        }
    }

    /// Whether `x` holds what the fields of `v` read as.
    #[verifier::opaque]
    pub closed spec fn spec_decodes_to(v: JsonValue, x: UnarchiveResponse) -> bool {
        match v {
            JsonValue::Object(w) => {
                let left0 = w@;
                &&& <bool as Decode>::decodes_to(value_of(left0, "ok"@), x.ok)
            },
            _ => false,
        }
    }

    /// Whether `e` is the error of the first check or field that fails on `v`.
    #[verifier::opaque]
    pub open spec fn spec_rejects_with(v: JsonValue, e: DecodeError) -> bool {
        match v {
            JsonValue::Object(w) => {
                let left0 = w@;
                if !all_known(left0, UnarchiveResponse::declared_fields()) {
                    e == (DecodeError::UnknownField { field: first_unknown_key(left0, UnarchiveResponse::declared_fields()) })
                } else if !required_ok::<bool>(left0, "ok"@) {
                    required_err::<bool>(left0, "ok"@, e)
                } else {
                    false
                }
            },
            _ => e == (DecodeError::WrongType { expected: "object" }),
        }
    }
}

impl Decode for UnarchiveResponse {
    open spec fn accepts(v: JsonValue) -> bool {
        UnarchiveResponse::spec_accepts(v)
    }

    open spec fn decodes_to(v: JsonValue, x: UnarchiveResponse) -> bool {
        UnarchiveResponse::spec_decodes_to(v, x)
    }

    open spec fn rejects_with(v: JsonValue, e: DecodeError) -> bool {
        UnarchiveResponse::spec_rejects_with(v, e)
    }

    fn decode(v: JsonValue) -> Result<UnarchiveResponse, DecodeError> {
        proof {
            reveal(UnarchiveResponse::spec_accepts);
            reveal(UnarchiveResponse::spec_decodes_to);
            reveal(UnarchiveResponse::spec_rejects_with);
        }
        let mut wire = into_fields(v)?;
        let known: &[&str] = &["ok"];
        assert(known@ =~= UnarchiveResponse::declared_fields());
        check_fields(&wire, known)?;
        let ok: bool = required(&mut wire, "ok")?;
        Ok(UnarchiveResponse { ok })
    }
}

} // verus!
