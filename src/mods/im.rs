//! Get info on your direct messages.

use crate::json::{all_known, check_fields, field_failed, first_unknown_key, optional_ok, optional_value, required_err, required_ok, taken, value_of, into_fields, optional, required, Decode, DecodeError, JsonValue};
use crate::types::{Im, Message, ThreadInfo};
use vstd::prelude::*;

verus! {

#[derive(Clone, Debug, PartialEq)]
pub struct CloseRequest<'a> {
    /// Direct message channel to close.
    pub channel: &'a str,
}

#[derive(Clone, Debug, PartialEq)]
pub struct HistoryRequest<'a> {
    /// Direct message channel to fetch history for.
    pub channel: &'a str,
    /// End of time range of messages to include in results.
    pub latest: Option<&'a str>,
    /// Start of time range of messages to include in results.
    pub oldest: Option<&'a str>,
    /// Include messages with latest or oldest timestamp in results.
    pub inclusive: Option<bool>,
    /// Number of messages to return, between 1 and 1000.
    pub count: Option<u32>,
    /// Include unread_count_display in the output?
    pub unreads: Option<bool>,
}

#[derive(Clone, Debug, PartialEq)]
pub struct HistoryResponse {
    ok: bool,
    pub has_more: Option<bool>,
    pub latest: Option<String>,
    pub messages: Option<Vec<Message>>,
}

impl HistoryResponse {
    /// The fields the record declares; it admits no others.
    pub open spec fn declared_fields() -> Seq<&'static str> {
        seq!["ok", "has_more", "latest", "messages"]
    }
}

impl HistoryResponse {
    /// Whether `v` decodes as the record: an object whose fields read in order.
    #[verifier::opaque]
    pub open spec fn spec_accepts(v: JsonValue) -> bool {
        match v {
            JsonValue::Object(w) => {
                let left0 = w@;
                let left1 = taken(left0, "ok"@);
                let left2 = taken(left1, "has_more"@);
                let left3 = taken(left2, "latest"@);
                &&& all_known(left0, HistoryResponse::declared_fields())
                &&& required_ok::<bool>(left0, "ok"@)
                &&& optional_ok::<bool>(left1, "has_more"@)
                &&& optional_ok::<String>(left2, "latest"@)
                &&& optional_ok::<Vec<Message>>(left3, "messages"@)
            },
            _ => false,
        }
    }

    /// Whether `x` holds what the fields of `v` read as.
    #[verifier::opaque]
    pub closed spec fn spec_decodes_to(v: JsonValue, x: HistoryResponse) -> bool {
        match v {
            JsonValue::Object(w) => {
                let left0 = w@;
                let left1 = taken(left0, "ok"@);
                let left2 = taken(left1, "has_more"@);
                let left3 = taken(left2, "latest"@);
                &&& <bool as Decode>::decodes_to(value_of(left0, "ok"@), x.ok)
                &&& optional_value::<bool>(left1, "has_more"@, x.has_more)
                &&& optional_value::<String>(left2, "latest"@, x.latest)
                &&& optional_value::<Vec<Message>>(left3, "messages"@, x.messages)
            },
            _ => false,
        }
    }

    /// Whether `e` is the error of the first check or field that fails on `v`.
    #[verifier::opaque]
    pub open spec fn spec_rejects_with(v: JsonValue, e: DecodeError) -> bool {
        match v {
            JsonValue::Object(w) => {
                let left0 = w@;
                let left1 = taken(left0, "ok"@);
                let left2 = taken(left1, "has_more"@);
                let left3 = taken(left2, "latest"@);
                if !all_known(left0, HistoryResponse::declared_fields()) {
                    e == (DecodeError::UnknownField { field: first_unknown_key(left0, HistoryResponse::declared_fields()) })
                } else if !required_ok::<bool>(left0, "ok"@) {
                    required_err::<bool>(left0, "ok"@, e)
                } else if !optional_ok::<bool>(left1, "has_more"@) {
                    field_failed::<bool>(left1, "has_more"@, e)
                } else if !optional_ok::<String>(left2, "latest"@) {
                    field_failed::<String>(left2, "latest"@, e)
                } else if !optional_ok::<Vec<Message>>(left3, "messages"@) {
                    field_failed::<Vec<Message>>(left3, "messages"@, e)
                } else {
                    false
                }
            },
            _ => e == (DecodeError::WrongType { expected: "object" }),
        }
    }
}

impl Decode for HistoryResponse {
    open spec fn accepts(v: JsonValue) -> bool {
        HistoryResponse::spec_accepts(v)
    }

    open spec fn decodes_to(v: JsonValue, x: HistoryResponse) -> bool {
        HistoryResponse::spec_decodes_to(v, x)
    }

    open spec fn rejects_with(v: JsonValue, e: DecodeError) -> bool {
        HistoryResponse::spec_rejects_with(v, e)
    }

    fn decode(v: JsonValue) -> Result<HistoryResponse, DecodeError> {
        proof {
            reveal(HistoryResponse::spec_accepts);
            reveal(HistoryResponse::spec_decodes_to);
            reveal(HistoryResponse::spec_rejects_with);
        }
        let mut wire = into_fields(v)?;
        let known: &[&str] = &["ok", "has_more", "latest", "messages"];
        assert(known@ =~= HistoryResponse::declared_fields());
        check_fields(&wire, known)?;
        let ok: bool = required(&mut wire, "ok")?;
        let has_more: Option<bool> = optional(&mut wire, "has_more")?;
        let latest: Option<String> = optional(&mut wire, "latest")?;
        let messages: Option<Vec<Message>> = optional(&mut wire, "messages")?;
        Ok(HistoryResponse { ok, has_more, latest, messages })
    }
}

#[derive(Clone, Debug, PartialEq)]
pub struct ListRequest<'a> {
    /// Paginate through collections of data by setting the `cursor` parameter to a `next_cursor` attribute returned by a previous request's `response_metadata`. Default value fetches the first "page" of the collection. See pagination for more detail.
    pub cursor: Option<&'a str>,
    /// The maximum number of items to return. Fewer than the requested number of items may be returned, even if the end of the users list hasn't been reached.
    pub limit: Option<u32>,
}

#[derive(Clone, Debug, PartialEq)]
pub struct ListResponse {
    ok: bool,
    pub ims: Option<Vec<Im>>,
}

impl ListResponse {
    /// The fields the record declares; it admits no others.
    pub open spec fn declared_fields() -> Seq<&'static str> {
        seq!["ok", "ims"]
    }
}

impl ListResponse {
    /// Whether `v` decodes as the record: an object whose fields read in order.
    #[verifier::opaque]
    pub open spec fn spec_accepts(v: JsonValue) -> bool {
        match v {
            JsonValue::Object(w) => {
                let left0 = w@;
                let left1 = taken(left0, "ok"@);
                &&& all_known(left0, ListResponse::declared_fields())
                &&& required_ok::<bool>(left0, "ok"@)
                &&& optional_ok::<Vec<Im>>(left1, "ims"@)
            },
            _ => false,
        }
    }

    /// Whether `x` holds what the fields of `v` read as.
    #[verifier::opaque]
    pub closed spec fn spec_decodes_to(v: JsonValue, x: ListResponse) -> bool {
        match v {
            JsonValue::Object(w) => {
                let left0 = w@;
                let left1 = taken(left0, "ok"@);
                &&& <bool as Decode>::decodes_to(value_of(left0, "ok"@), x.ok)
                &&& optional_value::<Vec<Im>>(left1, "ims"@, x.ims)
            },
            _ => false,
        }
    }

    /// Whether `e` is the error of the first check or field that fails on `v`.
    #[verifier::opaque]
    pub open spec fn spec_rejects_with(v: JsonValue, e: DecodeError) -> bool {
        match v {
            JsonValue::Object(w) => {
                let left0 = w@;
                let left1 = taken(left0, "ok"@);
                if !all_known(left0, ListResponse::declared_fields()) {
                    e == (DecodeError::UnknownField { field: first_unknown_key(left0, ListResponse::declared_fields()) })
                } else if !required_ok::<bool>(left0, "ok"@) {
                    required_err::<bool>(left0, "ok"@, e)
                } else if !optional_ok::<Vec<Im>>(left1, "ims"@) {
                    field_failed::<Vec<Im>>(left1, "ims"@, e)
                } else {
                    false
                }
            },
            _ => e == (DecodeError::WrongType { expected: "object" }),
        }
    }
}

impl Decode for ListResponse {
    open spec fn accepts(v: JsonValue) -> bool {
        ListResponse::spec_accepts(v)
    }

    open spec fn decodes_to(v: JsonValue, x: ListResponse) -> bool {
        ListResponse::spec_decodes_to(v, x)
    }

    open spec fn rejects_with(v: JsonValue, e: DecodeError) -> bool {
        ListResponse::spec_rejects_with(v, e)
    }

    fn decode(v: JsonValue) -> Result<ListResponse, DecodeError> {
        proof {
            reveal(ListResponse::spec_accepts);
            reveal(ListResponse::spec_decodes_to);
            reveal(ListResponse::spec_rejects_with);
        }
        let mut wire = into_fields(v)?;
        let known: &[&str] = &["ok", "ims"];
        assert(known@ =~= ListResponse::declared_fields());
        check_fields(&wire, known)?;
        let ok: bool = required(&mut wire, "ok")?;
        let ims: Option<Vec<Im>> = optional(&mut wire, "ims")?;
        Ok(ListResponse { ok, ims })
    }
}

#[derive(Clone, Debug, PartialEq)]
pub struct MarkRequest<'a> {
    /// Direct message channel to set reading cursor in.
    pub channel: &'a str,
    /// Timestamp of the most recently seen message.
    pub ts: &'a str,
}

#[derive(Clone, Debug, PartialEq)]
pub struct OpenRequest<'a> {
    /// User to open a direct message channel with.
    pub user: &'a str,
    /// Boolean, indicates you want the full IM channel definition in the response.
    pub return_im: Option<bool>,
}

#[derive(Clone, Debug, PartialEq)]
pub struct OpenResponse {
    ok: bool,
    pub channel: Option<Im>,
}

impl OpenResponse {
    /// Whether `v` decodes as the record: an object whose fields read in order.
    #[verifier::opaque]
    pub open spec fn spec_accepts(v: JsonValue) -> bool {
        match v {
            JsonValue::Object(w) => {
                let left0 = w@;
                let left1 = taken(left0, "ok"@);
                &&& required_ok::<bool>(left0, "ok"@)
                &&& optional_ok::<Im>(left1, "channel"@)
            },
            _ => false,
        }
    }

    /// Whether `x` holds what the fields of `v` read as.
    #[verifier::opaque]
    pub closed spec fn spec_decodes_to(v: JsonValue, x: OpenResponse) -> bool {
        match v {
            JsonValue::Object(w) => {
                let left0 = w@;
                let left1 = taken(left0, "ok"@);
                &&& <bool as Decode>::decodes_to(value_of(left0, "ok"@), x.ok)
                &&& optional_value::<Im>(left1, "channel"@, x.channel)
            },
            _ => false,
        }
    }

    /// Whether `e` is the error of the first check or field that fails on `v`.
    #[verifier::opaque]
    pub open spec fn spec_rejects_with(v: JsonValue, e: DecodeError) -> bool {
        match v {
            JsonValue::Object(w) => {
                let left0 = w@;
                let left1 = taken(left0, "ok"@);
                if !required_ok::<bool>(left0, "ok"@) {
                    required_err::<bool>(left0, "ok"@, e)
                } else if !optional_ok::<Im>(left1, "channel"@) {
                    field_failed::<Im>(left1, "channel"@, e)
                } else {
                    false
                }
            },
            _ => e == (DecodeError::WrongType { expected: "object" }),
        }
    }
}

impl Decode for OpenResponse {
    open spec fn accepts(v: JsonValue) -> bool {
        OpenResponse::spec_accepts(v)
    }

    open spec fn decodes_to(v: JsonValue, x: OpenResponse) -> bool {
        OpenResponse::spec_decodes_to(v, x)
    }

    open spec fn rejects_with(v: JsonValue, e: DecodeError) -> bool {
        OpenResponse::spec_rejects_with(v, e)
    }

    fn decode(v: JsonValue) -> Result<OpenResponse, DecodeError> {
        proof {
            reveal(OpenResponse::spec_accepts);
            reveal(OpenResponse::spec_decodes_to);
            reveal(OpenResponse::spec_rejects_with);
        }
        let mut wire = into_fields(v)?;
        let ok: bool = required(&mut wire, "ok")?;
        let channel: Option<Im> = optional(&mut wire, "channel")?;
        Ok(OpenResponse { ok, channel })
    }
}

#[derive(Clone, Debug, PartialEq)]
pub struct RepliesRequest<'a> {
    /// Direct message channel to fetch thread from
    pub channel: &'a str,
    /// Unique identifier of a thread's parent message
    pub thread_ts: &'a str,
}

#[derive(Clone, Debug, PartialEq)]
pub struct RepliesResponse {
    ok: bool,
    pub messages: Option<Vec<Message>>,
    pub thread_info: Option<ThreadInfo>,
}

impl RepliesResponse {
    /// The fields the record declares; it admits no others.
    pub open spec fn declared_fields() -> Seq<&'static str> {
        seq!["ok", "messages", "thread_info"]
    }
}

impl RepliesResponse {
    /// Whether `v` decodes as the record: an object whose fields read in order.
    #[verifier::opaque]
    pub open spec fn spec_accepts(v: JsonValue) -> bool {
        match v {
            JsonValue::Object(w) => {
                let left0 = w@;
                let left1 = taken(left0, "ok"@);
                let left2 = taken(left1, "messages"@);
                &&& all_known(left0, RepliesResponse::declared_fields())
                &&& required_ok::<bool>(left0, "ok"@)
                &&& optional_ok::<Vec<Message>>(left1, "messages"@)
                &&& optional_ok::<ThreadInfo>(left2, "thread_info"@)
            },
            _ => false,
        }
    }

    /// Whether `x` holds what the fields of `v` read as.
    #[verifier::opaque]
    pub closed spec fn spec_decodes_to(v: JsonValue, x: RepliesResponse) -> bool {
        match v {
            JsonValue::Object(w) => {
                let left0 = w@;
                let left1 = taken(left0, "ok"@);
                let left2 = taken(left1, "messages"@);
                &&& <bool as Decode>::decodes_to(value_of(left0, "ok"@), x.ok)
                &&& optional_value::<Vec<Message>>(left1, "messages"@, x.messages)
                &&& optional_value::<ThreadInfo>(left2, "thread_info"@, x.thread_info)
            },
            _ => false,
        }
    }

    /// Whether `e` is the error of the first check or field that fails on `v`.
    #[verifier::opaque]
    pub open spec fn spec_rejects_with(v: JsonValue, e: DecodeError) -> bool {
        match v {
            JsonValue::Object(w) => {
                let left0 = w@;
                let left1 = taken(left0, "ok"@);
                let left2 = taken(left1, "messages"@);
                if !all_known(left0, RepliesResponse::declared_fields()) {
                    e == (DecodeError::UnknownField { field: first_unknown_key(left0, RepliesResponse::declared_fields()) })
                } else if !required_ok::<bool>(left0, "ok"@) {
                    required_err::<bool>(left0, "ok"@, e)
                } else if !optional_ok::<Vec<Message>>(left1, "messages"@) {
                    field_failed::<Vec<Message>>(left1, "messages"@, e)
                } else if !optional_ok::<ThreadInfo>(left2, "thread_info"@) {
                    field_failed::<ThreadInfo>(left2, "thread_info"@, e)
                } else {
                    false
                }
            },
            _ => e == (DecodeError::WrongType { expected: "object" }),
        }
    }
}

impl Decode for RepliesResponse {
    open spec fn accepts(v: JsonValue) -> bool {
        RepliesResponse::spec_accepts(v)
    }

    open spec fn decodes_to(v: JsonValue, x: RepliesResponse) -> bool {
        RepliesResponse::spec_decodes_to(v, x)
    }

    open spec fn rejects_with(v: JsonValue, e: DecodeError) -> bool {
        RepliesResponse::spec_rejects_with(v, e)
    }

    fn decode(v: JsonValue) -> Result<RepliesResponse, DecodeError> {
        proof {
            reveal(RepliesResponse::spec_accepts);
            reveal(RepliesResponse::spec_decodes_to);
            reveal(RepliesResponse::spec_rejects_with);
        }
        let mut wire = into_fields(v)?;
        let known: &[&str] = &["ok", "messages", "thread_info"];
        assert(known@ =~= RepliesResponse::declared_fields());
        check_fields(&wire, known)?;
        let ok: bool = required(&mut wire, "ok")?;
        let messages: Option<Vec<Message>> = optional(&mut wire, "messages")?;
        let thread_info: Option<ThreadInfo> = optional(&mut wire, "thread_info")?;
        Ok(RepliesResponse { ok, messages, thread_info })
    }
}

} // verus!
