//! Post chat messages to Slack.

use crate::json::{all_known, check_fields, field_failed, first_unknown_key, optional_ok, optional_value, required_err, required_ok, taken, value_of, into_fields, optional, required, Decode, DecodeError, JsonValue};
use crate::types::{Message};
use vstd::prelude::*;

verus! {

#[derive(Clone, Debug, PartialEq)]
pub struct DeleteRequest<'a> {
    /// Timestamp of the message to be deleted.
    pub ts: &'a str,
    /// Channel containing the message to be deleted.
    pub channel: &'a str,
    /// Pass true to delete the message as the authed user. Bot users in this context are considered authed users.
    pub as_user: Option<bool>,
}

#[derive(Clone, Debug, PartialEq)]
pub struct DeleteResponse {
    ok: bool,
    pub channel: String,
    pub ts: String,
}

impl DeleteResponse {
    /// The fields the record declares; it admits no others.
    pub open spec fn declared_fields() -> Seq<&'static str> {
        seq!["ok", "channel", "ts"]
    }
}

impl DeleteResponse {
    /// Whether `v` decodes as the record: an object whose fields read in order.
    #[verifier::opaque]
    pub open spec fn spec_accepts(v: JsonValue) -> bool {
        match v {
            JsonValue::Object(w) => {
                let left0 = w@;
                let left1 = taken(left0, "ok"@);
                let left2 = taken(left1, "channel"@);
                &&& all_known(left0, DeleteResponse::declared_fields())
                &&& required_ok::<bool>(left0, "ok"@)
                &&& required_ok::<String>(left1, "channel"@)
                &&& required_ok::<String>(left2, "ts"@)
            },
            _ => false,
        }
    }

    /// Whether `x` holds what the fields of `v` read as.
    #[verifier::opaque]
    pub closed spec fn spec_decodes_to(v: JsonValue, x: DeleteResponse) -> bool {
        match v {
            JsonValue::Object(w) => {
                let left0 = w@;
                let left1 = taken(left0, "ok"@);
                let left2 = taken(left1, "channel"@);
                &&& <bool as Decode>::decodes_to(value_of(left0, "ok"@), x.ok)
                &&& <String as Decode>::decodes_to(value_of(left1, "channel"@), x.channel)
                &&& <String as Decode>::decodes_to(value_of(left2, "ts"@), x.ts)
            },
            _ => false,
        }
    }

    /// Whether `e` is the error of the first check or field that fails on `v`.
    #[verifier::opaque]
    pub open spec fn spec_rejects_with(v: JsonValue, e: DecodeError) -> bool {
        match v {
            JsonValue::Object(w) => {
                let left0 = w@;
                let left1 = taken(left0, "ok"@);
                let left2 = taken(left1, "channel"@);
                if !all_known(left0, DeleteResponse::declared_fields()) {
                    e == (DecodeError::UnknownField { field: first_unknown_key(left0, DeleteResponse::declared_fields()) })
                } else if !required_ok::<bool>(left0, "ok"@) {
                    required_err::<bool>(left0, "ok"@, e)
                } else if !required_ok::<String>(left1, "channel"@) {
                    required_err::<String>(left1, "channel"@, e)
                } else if !required_ok::<String>(left2, "ts"@) {
                    required_err::<String>(left2, "ts"@, e)
                } else {
                    false
                }
            },
            _ => e == (DecodeError::WrongType { expected: "object" }),
        }
    }
}

impl Decode for DeleteResponse {
    open spec fn accepts(v: JsonValue) -> bool {
        DeleteResponse::spec_accepts(v)
    }

    open spec fn decodes_to(v: JsonValue, x: DeleteResponse) -> bool {
        DeleteResponse::spec_decodes_to(v, x)
    }

    open spec fn rejects_with(v: JsonValue, e: DecodeError) -> bool {
        DeleteResponse::spec_rejects_with(v, e)
    }

    fn decode(v: JsonValue) -> Result<DeleteResponse, DecodeError> {
        proof {
            reveal(DeleteResponse::spec_accepts);
            reveal(DeleteResponse::spec_decodes_to);
            reveal(DeleteResponse::spec_rejects_with);
        }
        let mut wire = into_fields(v)?;
        let known: &[&str] = &["ok", "channel", "ts"];
        assert(known@ =~= DeleteResponse::declared_fields());
        check_fields(&wire, known)?;
        let ok: bool = required(&mut wire, "ok")?;
        let channel: String = required(&mut wire, "channel")?;
        let ts: String = required(&mut wire, "ts")?;
        Ok(DeleteResponse { ok, channel, ts })
    }
}

#[derive(Clone, Debug, PartialEq)]
pub struct MeMessageRequest<'a> {
    /// Channel to send message to. Can be a public channel, private group or IM channel. Can be an encoded ID, or a name.
    pub channel: &'a str,
    /// Text of the message to send.
    pub text: &'a str,
}

#[derive(Clone, Debug, PartialEq)]
pub struct MeMessageResponse {
    ok: bool,
    pub channel: Option<String>,
    pub ts: Option<String>,
}

impl MeMessageResponse {
    /// The fields the record declares; it admits no others.
    pub open spec fn declared_fields() -> Seq<&'static str> {
        seq!["ok", "channel", "ts"]
    }
}

impl MeMessageResponse {
    /// Whether `v` decodes as the record: an object whose fields read in order.
    #[verifier::opaque]
    pub open spec fn spec_accepts(v: JsonValue) -> bool {
        match v {
            JsonValue::Object(w) => {
                let left0 = w@;
                let left1 = taken(left0, "ok"@);
                let left2 = taken(left1, "channel"@);
                &&& all_known(left0, MeMessageResponse::declared_fields())
                &&& required_ok::<bool>(left0, "ok"@)
                &&& optional_ok::<String>(left1, "channel"@)
                &&& optional_ok::<String>(left2, "ts"@)
            },
            _ => false,
        }
    }

    /// Whether `x` holds what the fields of `v` read as.
    #[verifier::opaque]
    pub closed spec fn spec_decodes_to(v: JsonValue, x: MeMessageResponse) -> bool {
        match v {
            JsonValue::Object(w) => {
                let left0 = w@;
                let left1 = taken(left0, "ok"@);
                let left2 = taken(left1, "channel"@);
                &&& <bool as Decode>::decodes_to(value_of(left0, "ok"@), x.ok)
                &&& optional_value::<String>(left1, "channel"@, x.channel)
                &&& optional_value::<String>(left2, "ts"@, x.ts)
            },
            _ => false,
        }
    }

    /// Whether `e` is the error of the first check or field that fails on `v`.
    #[verifier::opaque]
    pub open spec fn spec_rejects_with(v: JsonValue, e: DecodeError) -> bool {
        match v {
            JsonValue::Object(w) => {
                let left0 = w@;
                let left1 = taken(left0, "ok"@);
                let left2 = taken(left1, "channel"@);
                if !all_known(left0, MeMessageResponse::declared_fields()) {
                    e == (DecodeError::UnknownField { field: first_unknown_key(left0, MeMessageResponse::declared_fields()) })
                } else if !required_ok::<bool>(left0, "ok"@) {
                    required_err::<bool>(left0, "ok"@, e)
                } else if !optional_ok::<String>(left1, "channel"@) {
                    field_failed::<String>(left1, "channel"@, e)
                } else if !optional_ok::<String>(left2, "ts"@) {
                    field_failed::<String>(left2, "ts"@, e)
                } else {
                    false
                }
            },
            _ => e == (DecodeError::WrongType { expected: "object" }),
        }
    }
}

impl Decode for MeMessageResponse {
    open spec fn accepts(v: JsonValue) -> bool {
        MeMessageResponse::spec_accepts(v)
    }

    open spec fn decodes_to(v: JsonValue, x: MeMessageResponse) -> bool {
        MeMessageResponse::spec_decodes_to(v, x)
    }

    open spec fn rejects_with(v: JsonValue, e: DecodeError) -> bool {
        MeMessageResponse::spec_rejects_with(v, e)
    }

    fn decode(v: JsonValue) -> Result<MeMessageResponse, DecodeError> {
        proof {
            reveal(MeMessageResponse::spec_accepts);
            reveal(MeMessageResponse::spec_decodes_to);
            reveal(MeMessageResponse::spec_rejects_with);
        }
        let mut wire = into_fields(v)?;
        let known: &[&str] = &["ok", "channel", "ts"];
        assert(known@ =~= MeMessageResponse::declared_fields());
        check_fields(&wire, known)?;
        let ok: bool = required(&mut wire, "ok")?;
        let channel: Option<String> = optional(&mut wire, "channel")?;
        let ts: Option<String> = optional(&mut wire, "ts")?;
        Ok(MeMessageResponse { ok, channel, ts })
    }
}

#[derive(Clone, Debug, PartialEq)]
pub struct PostMessageRequest<'a> {
    /// Channel, private group, or IM channel to send message to. Can be an encoded ID, or a name. See below for more details.
    pub channel: &'a str,
    /// Text of the message to send. See below for an explanation of formatting. This field is usually required, unless you're providing only attachments instead.
    pub text: &'a str,
    /// Change how messages are treated. Defaults to none. See below.
    pub parse: Option<&'a str>,
    /// Find and link channel names and usernames.
    pub link_names: Option<bool>,
    /// Structured message attachments.
    pub attachments: Option<&'a str>,
    /// Pass true to enable unfurling of primarily text-based content.
    pub unfurl_links: Option<bool>,
    /// Pass false to disable unfurling of media content.
    pub unfurl_media: Option<bool>,
    /// Set your bot's user name. Must be used in conjunction with as_user set to false, otherwise ignored. See authorship below.
    pub username: Option<&'a str>,
    /// Pass true to post the message as the authed user, instead of as a bot. Defaults to false. See authorship below.
    pub as_user: Option<bool>,
    /// URL to an image to use as the icon for this message. Must be used in conjunction with as_user set to false, otherwise ignored. See authorship below.
    pub icon_url: Option<&'a str>,
    /// Emoji to use as the icon for this message. Overrides icon_url. Must be used in conjunction with as_user set to false, otherwise ignored. See authorship below.
    pub icon_emoji: Option<&'a str>,
    /// Provide another message's ts value to make this message a reply. Avoid using a reply's ts value; use its parent instead.
    pub thread_ts: Option<&'a str>,
    /// Used in conjunction with thread_ts and indicates whether reply should be made visible to everyone in the channel or conversation. Defaults to false.
    pub reply_broadcast: Option<bool>,
    /// Disable Slack markup parsing by setting to false. Enabled by default.
    pub mrkdwn: Option<bool>,
}

#[derive(Clone, Debug, PartialEq)]
pub struct PostMessageResponse {
    ok: bool,
    pub channel: String,
    pub message: Message,
    pub ts: String,
}

impl PostMessageResponse {
    /// The fields the record declares; it admits no others.
    pub open spec fn declared_fields() -> Seq<&'static str> {
        seq!["ok", "channel", "message", "ts"]
    }
}

impl PostMessageResponse {
    /// Whether `v` decodes as the record: an object whose fields read in order.
    #[verifier::opaque]
    pub open spec fn spec_accepts(v: JsonValue) -> bool {
        match v {
            JsonValue::Object(w) => {
                let left0 = w@;
                let left1 = taken(left0, "ok"@);
                let left2 = taken(left1, "channel"@);
                let left3 = taken(left2, "message"@);
                &&& all_known(left0, PostMessageResponse::declared_fields())
                &&& required_ok::<bool>(left0, "ok"@)
                &&& required_ok::<String>(left1, "channel"@)
                &&& required_ok::<Message>(left2, "message"@)
                &&& required_ok::<String>(left3, "ts"@)
            },
            _ => false,
        }
    }

    /// Whether `x` holds what the fields of `v` read as.
    #[verifier::opaque]
    pub closed spec fn spec_decodes_to(v: JsonValue, x: PostMessageResponse) -> bool {
        match v {
            JsonValue::Object(w) => {
                let left0 = w@;
                let left1 = taken(left0, "ok"@);
                let left2 = taken(left1, "channel"@);
                let left3 = taken(left2, "message"@);
                &&& <bool as Decode>::decodes_to(value_of(left0, "ok"@), x.ok)
                &&& <String as Decode>::decodes_to(value_of(left1, "channel"@), x.channel)
                &&& <Message as Decode>::decodes_to(value_of(left2, "message"@), x.message)
                &&& <String as Decode>::decodes_to(value_of(left3, "ts"@), x.ts)
            },
            _ => false,
        }
    }

    /// Whether `e` is the error of the first check or field that fails on `v`.
    #[verifier::opaque]
    pub open spec fn spec_rejects_with(v: JsonValue, e: DecodeError) -> bool {
        match v {
            JsonValue::Object(w) => {
                let left0 = w@;
                let left1 = taken(left0, "ok"@);
                let left2 = taken(left1, "channel"@);
                let left3 = taken(left2, "message"@);
                if !all_known(left0, PostMessageResponse::declared_fields()) {
                    e == (DecodeError::UnknownField { field: first_unknown_key(left0, PostMessageResponse::declared_fields()) })
                } else if !required_ok::<bool>(left0, "ok"@) {
                    required_err::<bool>(left0, "ok"@, e)
                } else if !required_ok::<String>(left1, "channel"@) {
                    required_err::<String>(left1, "channel"@, e)
                } else if !required_ok::<Message>(left2, "message"@) {
                    required_err::<Message>(left2, "message"@, e)
                } else if !required_ok::<String>(left3, "ts"@) {
                    required_err::<String>(left3, "ts"@, e)
                } else {
                    false
                }
            },
            _ => e == (DecodeError::WrongType { expected: "object" }),
        }
    }
}

impl Decode for PostMessageResponse {
    open spec fn accepts(v: JsonValue) -> bool {
        PostMessageResponse::spec_accepts(v)
    }

    open spec fn decodes_to(v: JsonValue, x: PostMessageResponse) -> bool {
        PostMessageResponse::spec_decodes_to(v, x)
    }

    open spec fn rejects_with(v: JsonValue, e: DecodeError) -> bool {
        PostMessageResponse::spec_rejects_with(v, e)
    }

    fn decode(v: JsonValue) -> Result<PostMessageResponse, DecodeError> {
        proof {
            reveal(PostMessageResponse::spec_accepts);
            reveal(PostMessageResponse::spec_decodes_to);
            reveal(PostMessageResponse::spec_rejects_with);
        }
        let mut wire = into_fields(v)?;
        let known: &[&str] = &["ok", "channel", "message", "ts"];
        assert(known@ =~= PostMessageResponse::declared_fields());
        check_fields(&wire, known)?;
        let ok: bool = required(&mut wire, "ok")?;
        let channel: String = required(&mut wire, "channel")?;
        let message: Message = required(&mut wire, "message")?;
        let ts: String = required(&mut wire, "ts")?;
        Ok(PostMessageResponse { ok, channel, message, ts })
    }
}

#[derive(Clone, Debug, PartialEq)]
pub struct UnfurlRequest<'a> {
    /// Channel ID of the message
    pub channel: &'a str,
    /// Timestamp of the message to add unfurl behavior to
    pub ts: &'a str,
    /// JSON mapping a set of URLs from the message to their unfurl attachments
    pub unfurls: &'a str,
    /// Set to true or 1 to indicate the user must install your Slack app to trigger unfurls for this domain
    pub user_auth_required: Option<bool>,
    /// Provide a simply-formatted string to send as an ephemeral message to the user as invitation to authenticate further and enable full unfurling behavior
    pub user_auth_message: Option<&'a str>,
    /// Send users to this custom URL where they will complete authentication in your app to fully trigger unfurling. Value should be properly URL-encoded.
    pub user_auth_url: Option<&'a str>,
}

#[derive(Clone, Debug, PartialEq)]
pub struct UpdateRequest<'a> {
    /// Timestamp of the message to be updated.
    pub ts: &'a str,
    /// Channel containing the message to be updated.
    pub channel: &'a str,
    /// New text for the message, using the default formatting rules.
    pub text: &'a str,
    /// Structured message attachments.
    pub attachments: Option<&'a str>,
    /// Change how messages are treated. Defaults to client, unlike chat.postMessage. See below.
    pub parse: Option<&'a str>,
    /// Find and link channel names and usernames. Defaults to none. This parameter should be used in conjunction with parse. To set link_names to 1, specify a parse mode of full.
    pub link_names: Option<bool>,
    /// Pass true to update the message as the authed user. Bot users in this context are considered authed users.
    pub as_user: Option<bool>,
}

#[derive(Clone, Debug, PartialEq)]
pub struct UpdateResponse {
    ok: bool,
    pub channel: String,
    pub text: String,
    pub ts: String,
}

impl UpdateResponse {
    /// The fields the record declares; it admits no others.
    pub open spec fn declared_fields() -> Seq<&'static str> {
        seq!["ok", "channel", "text", "ts"]
    }
}

impl UpdateResponse {
    /// Whether `v` decodes as the record: an object whose fields read in order.
    #[verifier::opaque]
    pub open spec fn spec_accepts(v: JsonValue) -> bool {
        match v {
            JsonValue::Object(w) => {
                let left0 = w@;
                let left1 = taken(left0, "ok"@);
                let left2 = taken(left1, "channel"@);
                let left3 = taken(left2, "text"@);
                &&& all_known(left0, UpdateResponse::declared_fields())
                &&& required_ok::<bool>(left0, "ok"@)
                &&& required_ok::<String>(left1, "channel"@)
                &&& required_ok::<String>(left2, "text"@)
                &&& required_ok::<String>(left3, "ts"@)
            },
            _ => false,
        }
    }

    /// Whether `x` holds what the fields of `v` read as.
    #[verifier::opaque]
    pub closed spec fn spec_decodes_to(v: JsonValue, x: UpdateResponse) -> bool {
        match v {
            JsonValue::Object(w) => {
                let left0 = w@;
                let left1 = taken(left0, "ok"@);
                let left2 = taken(left1, "channel"@);
                let left3 = taken(left2, "text"@);
                &&& <bool as Decode>::decodes_to(value_of(left0, "ok"@), x.ok)
                &&& <String as Decode>::decodes_to(value_of(left1, "channel"@), x.channel)
                &&& <String as Decode>::decodes_to(value_of(left2, "text"@), x.text)
                &&& <String as Decode>::decodes_to(value_of(left3, "ts"@), x.ts)
            },
            _ => false,
        }
    }

    /// Whether `e` is the error of the first check or field that fails on `v`.
    #[verifier::opaque]
    pub open spec fn spec_rejects_with(v: JsonValue, e: DecodeError) -> bool {
        match v {
            JsonValue::Object(w) => {
                let left0 = w@;
                let left1 = taken(left0, "ok"@);
                let left2 = taken(left1, "channel"@);
                let left3 = taken(left2, "text"@);
                if !all_known(left0, UpdateResponse::declared_fields()) {
                    e == (DecodeError::UnknownField { field: first_unknown_key(left0, UpdateResponse::declared_fields()) })
                } else if !required_ok::<bool>(left0, "ok"@) {
                    required_err::<bool>(left0, "ok"@, e)
                } else if !required_ok::<String>(left1, "channel"@) {
                    required_err::<String>(left1, "channel"@, e)
                } else if !required_ok::<String>(left2, "text"@) {
                    required_err::<String>(left2, "text"@, e)
                } else if !required_ok::<String>(left3, "ts"@) {
                    required_err::<String>(left3, "ts"@, e)
                } else {
                    false
                }
            },
            _ => e == (DecodeError::WrongType { expected: "object" }),
        }
    }
}

impl Decode for UpdateResponse {
    open spec fn accepts(v: JsonValue) -> bool {
        UpdateResponse::spec_accepts(v)
    }

    open spec fn decodes_to(v: JsonValue, x: UpdateResponse) -> bool {
        UpdateResponse::spec_decodes_to(v, x)
    }

    open spec fn rejects_with(v: JsonValue, e: DecodeError) -> bool {
        UpdateResponse::spec_rejects_with(v, e)
    }

    fn decode(v: JsonValue) -> Result<UpdateResponse, DecodeError> {
        proof {
            reveal(UpdateResponse::spec_accepts);
            reveal(UpdateResponse::spec_decodes_to);
            reveal(UpdateResponse::spec_rejects_with);
        }
        let mut wire = into_fields(v)?;
        let known: &[&str] = &["ok", "channel", "text", "ts"];
        assert(known@ =~= UpdateResponse::declared_fields());
        check_fields(&wire, known)?;
        let ok: bool = required(&mut wire, "ok")?;
        let channel: String = required(&mut wire, "channel")?;
        let text: String = required(&mut wire, "text")?;
        let ts: String = required(&mut wire, "ts")?;
        Ok(UpdateResponse { ok, channel, text, ts })
    }
}

} // verus!
