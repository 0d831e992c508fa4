//! The records that API responses and real-time events are made of, and the two
//! tagged unions over them: messages (by `subtype`) and events (by `type`).

use crate::id::{
    text_of_utf8, AppId, BotId, ChannelId, ConversationId, FileId, GroupId, TeamId, UserId,
};
use crate::json::{
    all_known, check_fields, field_failed, first_unknown_key, has_key, into_fields, list_ok,
    list_or_empty, list_value, map_err, map_ok, map_or_empty_list, map_value, optional,
    optional_ok, optional_value, required, required_err, required_ok, take_field, taken, text_ok,
    text_or_empty, text_value, value_of, Decode, DecodeError, JsonValue, Number, StringMap,
    TaggedUnionError,
};
use crate::tagged::{
    decode_tagged_union, dispatch_tagged, is_payload, is_union_result, lists_names, selection,
    tag_value, Selection, TaggedPolicy, VariantRecords,
};
use crate::timestamp::Timestamp;
use vstd::prelude::*;
use vstd::string::StringSliceAdditionalSpecFns;
use vstd::utf8::*;

verus! {

broadcast use {encode_utf8_valid_utf8, encode_utf8_decode_utf8};

/// How many levels events may nest inside one another.
pub const EVENT_NESTING_LIMIT: usize = 8;

/// The most bytes a channel name may hold, plus one.
pub const CHANNEL_NAME_CAPACITY: usize = 22;

/// A channel name of at most 21 bytes, stored inline.
#[derive(Copy, Debug, PartialEq, Eq, Hash)]
pub struct ChannelName {
    len: u8,
    buf: [u8; 22],
}

impl Clone for ChannelName {
    fn clone(&self) -> (r: Self)
        ensures
            r == *self,
    {
        *self
    }
}

impl View for ChannelName {
    type V = Seq<u8>;

    /// The name, as bytes.
    closed spec fn view(&self) -> Seq<u8> {
        self.buf@.subrange(0, self.len as int)
    }
}

impl ChannelName {
    #[verifier::type_invariant]
    closed spec fn well_formed(&self) -> bool {
        &&& self.len < CHANNEL_NAME_CAPACITY
        &&& valid_utf8(self.buf@.subrange(0, self.len as int))
        &&& forall|i: int| self.len <= i < CHANNEL_NAME_CAPACITY ==> self.buf@[i] == 0u8
    }

    /// Reads a channel name: it must be shorter than 22 bytes.
    pub fn decode(text: &str) -> (r: Result<ChannelName, DecodeError>)
        ensures
            r is Ok <==> text.spec_bytes().len() < CHANNEL_NAME_CAPACITY,
            r is Ok ==> r->Ok_0@ == text.spec_bytes(),
            r is Err ==> r->Err_0 is TextTooLong && r->Err_0->TextTooLong_max_len == 21
                && r->Err_0->TextTooLong_value@ == text@,
    {
        let bytes = text.as_bytes();
        let n = bytes.len();
        if n >= CHANNEL_NAME_CAPACITY {
            return Err(DecodeError::TextTooLong { max_len: 21, value: text.to_owned() });
        }
        let mut buf: [u8; 22] = [0u8; 22];
        let mut i: usize = 0;
        while i < n
            invariant
                n == bytes@.len(),
                n < CHANNEL_NAME_CAPACITY,
                i <= n,
                bytes@ == text.spec_bytes(),
                forall|j: int| 0 <= j < i ==> buf@[j] == bytes@[j],
                forall|j: int| i <= j < CHANNEL_NAME_CAPACITY ==> buf@[j] == 0u8,
            decreases n - i,
        {
            buf[i] = bytes[i];
            i = i + 1;
        }
        assert(buf@.subrange(0, n as int) =~= bytes@);
        proof {
            encode_utf8_valid_utf8(text@);
        }
        Ok(ChannelName { len: n as u8, buf })
    }

    /// The name's text.
    pub fn as_str(&self) -> (r: &str)
        ensures
            r.spec_bytes() == self@,
            r@ == decode_utf8(self@),
    {
        proof {
            use_type_invariant(self);
        }
        let bytes = vstd::slice::slice_subrange(self.buf.as_slice(), 0, self.len as usize);
        let text = text_of_utf8(bytes);
        proof {
            decode_utf8_encode_utf8(self@);
        }
        text.unwrap()
    }

    /// The name's text, as an owned string.
    pub fn to_string(&self) -> (r: String)
        ensures
            r@ == decode_utf8(self@),
    {
        self.as_str().to_owned()
    }
}

impl Decode for ChannelName {
    open spec fn accepts(v: JsonValue) -> bool {
        v is Str && encode_utf8(v->Str_0@).len() < CHANNEL_NAME_CAPACITY
    }

    open spec fn decodes_to(v: JsonValue, x: ChannelName) -> bool {
        x@ == encode_utf8(v->Str_0@)
    }

    open spec fn rejects_with(v: JsonValue, e: DecodeError) -> bool {
        if v is Str {
            e is TextTooLong && e->TextTooLong_max_len == 21 && e->TextTooLong_value@ == v->Str_0@
        } else {
            e == (DecodeError::WrongType { expected: "string" })
        }
    }

    fn decode(v: JsonValue) -> Result<ChannelName, DecodeError> {
        match v {
            JsonValue::Str(s) => ChannelName::decode(s.as_str()),
            _ => Err(DecodeError::WrongType { expected: "string" }),
        }
    }
}

/// The 128-bit value of a UUID written as text, or `None` where the text is not one.
pub uninterp spec fn uuid_value(s: Seq<char>) -> Option<u128>;

/// Relies on uuid's Uuid::parse_str (read back with Uuid::as_u128): whether a text is
/// a UUID, and which, depends on the text alone.
#[verifier::external_body]
fn parse_uuid(s: &str) -> (r: Option<u128>)
    ensures
        r == uuid_value(s@),
{
    uuid::Uuid::parse_str(s).ok().map(|u| u.as_u128())
}

/// Reads a UUID from its text.
pub fn decode_uuid(v: JsonValue) -> (r: Result<u128, DecodeError>)
    ensures
        match v {
            JsonValue::Str(s) => match uuid_value(s@) {
                Some(u) => r == Ok::<u128, DecodeError>(u),
                None => r == Err::<u128, DecodeError>(DecodeError::WrongType { expected: "UUID" }),
            },
            _ => r == Err::<u128, DecodeError>(DecodeError::WrongType { expected: "UUID string" }),
        },
{
    match v {
        JsonValue::Str(s) => match parse_uuid(s.as_str()) {
            Some(u) => Ok(u),
            None => Err(DecodeError::WrongType { expected: "UUID" }),
        },
        _ => Err(DecodeError::WrongType { expected: "UUID string" }),
    }
}

impl Decode for u128 {
    open spec fn accepts(v: JsonValue) -> bool {
        v is Str && uuid_value(v->Str_0@) is Some
    }

    open spec fn decodes_to(v: JsonValue, x: u128) -> bool {
        x == uuid_value(v->Str_0@)->Some_0
    }

    open spec fn rejects_with(v: JsonValue, e: DecodeError) -> bool {
        if v is Str {
            e == (DecodeError::WrongType { expected: "UUID" })
        } else {
            e == (DecodeError::WrongType { expected: "UUID string" })
        }
    }

    fn decode(v: JsonValue) -> Result<u128, DecodeError> {
        decode_uuid(v)
    }
}

#[derive(Clone, Debug, PartialEq)]
pub struct Bot {
    pub app_id: Option<AppId>,
    pub deleted: Option<bool>,
    pub icons: Option<BotIcons>,
    pub id: BotId,
    pub name: String,
    pub updated: Option<Timestamp>,
}

impl Bot {
    /// Whether `v` decodes as the record: an object whose fields read in order.
    #[verifier::opaque]
    pub open spec fn spec_accepts(v: JsonValue) -> bool {
        match v {
            JsonValue::Object(w) => {
                let left0 = w@;
                let left1 = taken(left0, "app_id"@);
                let left2 = taken(left1, "deleted"@);
                let left3 = taken(left2, "icons"@);
                let left4 = taken(left3, "id"@);
                let left5 = taken(left4, "name"@);
                &&& optional_ok::<AppId>(left0, "app_id"@)
                &&& optional_ok::<bool>(left1, "deleted"@)
                &&& optional_ok::<BotIcons>(left2, "icons"@)
                &&& required_ok::<BotId>(left3, "id"@)
                &&& required_ok::<String>(left4, "name"@)
                &&& optional_ok::<Timestamp>(left5, "updated"@)
            },
            _ => false,
        }
    }

    /// Whether `x` holds what the fields of `v` read as.
    #[verifier::opaque]
    pub open spec fn spec_decodes_to(v: JsonValue, x: Bot) -> bool {
        match v {
            JsonValue::Object(w) => {
                let left0 = w@;
                let left1 = taken(left0, "app_id"@);
                let left2 = taken(left1, "deleted"@);
                let left3 = taken(left2, "icons"@);
                let left4 = taken(left3, "id"@);
                let left5 = taken(left4, "name"@);
                &&& optional_value::<AppId>(left0, "app_id"@, x.app_id)
                &&& optional_value::<bool>(left1, "deleted"@, x.deleted)
                &&& optional_value::<BotIcons>(left2, "icons"@, x.icons)
                &&& <BotId as Decode>::decodes_to(value_of(left3, "id"@), x.id)
                &&& <String as Decode>::decodes_to(value_of(left4, "name"@), x.name)
                &&& optional_value::<Timestamp>(left5, "updated"@, x.updated)
            },
            _ => false,
        }
    }

    /// Whether `e` is the error of the first check or field that fails on `v`.
    #[verifier::opaque]
    pub open spec fn spec_rejects_with(v: JsonValue, e: DecodeError) -> bool {
        match v {
            JsonValue::Object(w) => {
                let left0 = w@;
                let left1 = taken(left0, "app_id"@);
                let left2 = taken(left1, "deleted"@);
                let left3 = taken(left2, "icons"@);
                let left4 = taken(left3, "id"@);
                let left5 = taken(left4, "name"@);
                if !optional_ok::<AppId>(left0, "app_id"@) {
                    field_failed::<AppId>(left0, "app_id"@, e)
                } else if !optional_ok::<bool>(left1, "deleted"@) {
                    field_failed::<bool>(left1, "deleted"@, e)
                } else if !optional_ok::<BotIcons>(left2, "icons"@) {
                    field_failed::<BotIcons>(left2, "icons"@, e)
                } else if !required_ok::<BotId>(left3, "id"@) {
                    required_err::<BotId>(left3, "id"@, e)
                } else if !required_ok::<String>(left4, "name"@) {
                    required_err::<String>(left4, "name"@, e)
                } else if !optional_ok::<Timestamp>(left5, "updated"@) {
                    field_failed::<Timestamp>(left5, "updated"@, e)
                } else {
                    false
                }
            },
            _ => e == (DecodeError::WrongType { expected: "object" }),
        }
    }
}

impl Decode for Bot {
    open spec fn accepts(v: JsonValue) -> bool {
        Bot::spec_accepts(v)
    }

    open spec fn decodes_to(v: JsonValue, x: Bot) -> bool {
        Bot::spec_decodes_to(v, x)
    }

    open spec fn rejects_with(v: JsonValue, e: DecodeError) -> bool {
        Bot::spec_rejects_with(v, e)
    }

    fn decode(v: JsonValue) -> Result<Bot, DecodeError> {
        proof {
            reveal(Bot::spec_accepts);
            reveal(Bot::spec_decodes_to);
            reveal(Bot::spec_rejects_with);
        }
        let mut wire = into_fields(v)?;
        let app_id: Option<AppId> = optional(&mut wire, "app_id")?;
        let deleted: Option<bool> = optional(&mut wire, "deleted")?;
        let icons: Option<BotIcons> = optional(&mut wire, "icons")?;
        let id: BotId = required(&mut wire, "id")?;
        let name: String = required(&mut wire, "name")?;
        let updated: Option<Timestamp> = optional(&mut wire, "updated")?;
        Ok(Bot { app_id, deleted, icons, id, name, updated })
    }
}

#[derive(Clone, Debug, PartialEq)]
pub struct BotIcons {
    pub image_36: Option<String>,
    pub image_48: Option<String>,
    pub image_72: Option<String>,
}

impl BotIcons {
    /// Whether `v` decodes as the record: an object whose fields read in order.
    #[verifier::opaque]
    pub open spec fn spec_accepts(v: JsonValue) -> bool {
        match v {
            JsonValue::Object(w) => {
                let left0 = w@;
                let left1 = taken(left0, "image_36"@);
                let left2 = taken(left1, "image_48"@);
                &&& optional_ok::<String>(left0, "image_36"@)
                &&& optional_ok::<String>(left1, "image_48"@)
                &&& optional_ok::<String>(left2, "image_72"@)
            },
            _ => false,
        }
    }

    /// Whether `x` holds what the fields of `v` read as.
    #[verifier::opaque]
    pub open spec fn spec_decodes_to(v: JsonValue, x: BotIcons) -> bool {
        match v {
            JsonValue::Object(w) => {
                let left0 = w@;
                let left1 = taken(left0, "image_36"@);
                let left2 = taken(left1, "image_48"@);
                &&& optional_value::<String>(left0, "image_36"@, x.image_36)
                &&& optional_value::<String>(left1, "image_48"@, x.image_48)
                &&& optional_value::<String>(left2, "image_72"@, x.image_72)
            },
            _ => false,
        }
    }

    /// Whether `e` is the error of the first check or field that fails on `v`.
    #[verifier::opaque]
    pub open spec fn spec_rejects_with(v: JsonValue, e: DecodeError) -> bool {
        match v {
            JsonValue::Object(w) => {
                let left0 = w@;
                let left1 = taken(left0, "image_36"@);
                let left2 = taken(left1, "image_48"@);
                if !optional_ok::<String>(left0, "image_36"@) {
                    field_failed::<String>(left0, "image_36"@, e)
                } else if !optional_ok::<String>(left1, "image_48"@) {
                    field_failed::<String>(left1, "image_48"@, e)
                } else if !optional_ok::<String>(left2, "image_72"@) {
                    field_failed::<String>(left2, "image_72"@, e)
                } else {
                    false
                }
            },
            _ => e == (DecodeError::WrongType { expected: "object" }),
        }
    }
}

impl Decode for BotIcons {
    open spec fn accepts(v: JsonValue) -> bool {
        BotIcons::spec_accepts(v)
    }

    open spec fn decodes_to(v: JsonValue, x: BotIcons) -> bool {
        BotIcons::spec_decodes_to(v, x)
    }

    open spec fn rejects_with(v: JsonValue, e: DecodeError) -> bool {
        BotIcons::spec_rejects_with(v, e)
    }

    fn decode(v: JsonValue) -> Result<BotIcons, DecodeError> {
        proof {
            reveal(BotIcons::spec_accepts);
            reveal(BotIcons::spec_decodes_to);
            reveal(BotIcons::spec_rejects_with);
        }
        let mut wire = into_fields(v)?;
        let image_36: Option<String> = optional(&mut wire, "image_36")?;
        let image_48: Option<String> = optional(&mut wire, "image_48")?;
        let image_72: Option<String> = optional(&mut wire, "image_72")?;
        Ok(BotIcons { image_36, image_48, image_72 })
    }
}

#[derive(Clone, Debug, PartialEq)]
pub struct Channel {
    pub accepted_user: Option<UserId>,
    pub created: Option<Timestamp>,
    pub creator: Option<String>,
    pub id: ChannelId,
    pub is_archived: Option<bool>,
    pub is_channel: Option<bool>,
    pub is_general: Option<bool>,
    pub is_member: Option<bool>,
    pub is_moved: Option<i32>,
    pub is_mpim: Option<bool>,
    pub is_org_shared: Option<bool>,
    pub is_pending_ext_shared: Option<bool>,
    pub is_private: Option<bool>,
    pub is_read_only: Option<bool>,
    pub is_shared: Option<bool>,
    pub last_read: Option<Timestamp>,
    pub latest: Option<Message>,
    pub members: Option<Vec<UserId>>,
    pub name: String,
    pub name_normalized: Option<String>,
    pub num_members: Option<i32>,
    pub previous_names: Option<Vec<String>>,
    pub priority: Option<i32>,
    pub purpose: Option<ChannelPurpose>,
    pub topic: Option<ChannelTopic>,
    pub unlinked: Option<i32>,
    pub unread_count: Option<i32>,
    pub unread_count_display: Option<i32>,
}

impl Channel {
    /// The fields the record declares; it admits no others.
    pub open spec fn declared_fields() -> Seq<&'static str> {
        seq!["accepted_user", "created", "creator", "id", "is_archived", "is_channel", "is_general", "is_member", "is_moved", "is_mpim", "is_org_shared", "is_pending_ext_shared", "is_private", "is_read_only", "is_shared", "last_read", "latest", "members", "name", "name_normalized", "num_members", "previous_names", "priority", "purpose", "topic", "unlinked", "unread_count", "unread_count_display"]
    }
}

impl Channel {
    /// Whether `v` decodes as the record: an object whose fields read in order.
    #[verifier::opaque]
    pub open spec fn spec_accepts(v: JsonValue) -> bool {
        match v {
            JsonValue::Object(w) => {
                let left0 = w@;
                let left1 = taken(left0, "accepted_user"@);
                let left2 = taken(left1, "created"@);
                let left3 = taken(left2, "creator"@);
                let left4 = taken(left3, "id"@);
                let left5 = taken(left4, "is_archived"@);
                let left6 = taken(left5, "is_channel"@);
                let left7 = taken(left6, "is_general"@);
                let left8 = taken(left7, "is_member"@);
                let left9 = taken(left8, "is_moved"@);
                let left10 = taken(left9, "is_mpim"@);
                let left11 = taken(left10, "is_org_shared"@);
                let left12 = taken(left11, "is_pending_ext_shared"@);
                let left13 = taken(left12, "is_private"@);
                let left14 = taken(left13, "is_read_only"@);
                let left15 = taken(left14, "is_shared"@);
                let left16 = taken(left15, "last_read"@);
                let left17 = taken(left16, "latest"@);
                let left18 = taken(left17, "members"@);
                let left19 = taken(left18, "name"@);
                let left20 = taken(left19, "name_normalized"@);
                let left21 = taken(left20, "num_members"@);
                let left22 = taken(left21, "previous_names"@);
                let left23 = taken(left22, "priority"@);
                let left24 = taken(left23, "purpose"@);
                let left25 = taken(left24, "topic"@);
                let left26 = taken(left25, "unlinked"@);
                let left27 = taken(left26, "unread_count"@);
                &&& all_known(left0, Channel::declared_fields())
                &&& optional_ok::<UserId>(left0, "accepted_user"@)
                &&& optional_ok::<Timestamp>(left1, "created"@)
                &&& optional_ok::<String>(left2, "creator"@)
                &&& required_ok::<ChannelId>(left3, "id"@)
                &&& optional_ok::<bool>(left4, "is_archived"@)
                &&& optional_ok::<bool>(left5, "is_channel"@)
                &&& optional_ok::<bool>(left6, "is_general"@)
                &&& optional_ok::<bool>(left7, "is_member"@)
                &&& optional_ok::<i32>(left8, "is_moved"@)
                &&& optional_ok::<bool>(left9, "is_mpim"@)
                &&& optional_ok::<bool>(left10, "is_org_shared"@)
                &&& optional_ok::<bool>(left11, "is_pending_ext_shared"@)
                &&& optional_ok::<bool>(left12, "is_private"@)
                &&& optional_ok::<bool>(left13, "is_read_only"@)
                &&& optional_ok::<bool>(left14, "is_shared"@)
                &&& optional_ok::<Timestamp>(left15, "last_read"@)
                &&& optional_ok::<Message>(left16, "latest"@)
                &&& optional_ok::<Vec<UserId>>(left17, "members"@)
                &&& required_ok::<String>(left18, "name"@)
                &&& optional_ok::<String>(left19, "name_normalized"@)
                &&& optional_ok::<i32>(left20, "num_members"@)
                &&& optional_ok::<Vec<String>>(left21, "previous_names"@)
                &&& optional_ok::<i32>(left22, "priority"@)
                &&& optional_ok::<ChannelPurpose>(left23, "purpose"@)
                &&& optional_ok::<ChannelTopic>(left24, "topic"@)
                &&& optional_ok::<i32>(left25, "unlinked"@)
                &&& optional_ok::<i32>(left26, "unread_count"@)
                &&& optional_ok::<i32>(left27, "unread_count_display"@)
            },
            _ => false,
        }
    }

    /// Whether `x` holds what the fields of `v` read as.
    #[verifier::opaque]
    pub open spec fn spec_decodes_to(v: JsonValue, x: Channel) -> bool {
        match v {
            JsonValue::Object(w) => {
                let left0 = w@;
                let left1 = taken(left0, "accepted_user"@);
                let left2 = taken(left1, "created"@);
                let left3 = taken(left2, "creator"@);
                let left4 = taken(left3, "id"@);
                let left5 = taken(left4, "is_archived"@);
                let left6 = taken(left5, "is_channel"@);
                let left7 = taken(left6, "is_general"@);
                let left8 = taken(left7, "is_member"@);
                let left9 = taken(left8, "is_moved"@);
                let left10 = taken(left9, "is_mpim"@);
                let left11 = taken(left10, "is_org_shared"@);
                let left12 = taken(left11, "is_pending_ext_shared"@);
                let left13 = taken(left12, "is_private"@);
                let left14 = taken(left13, "is_read_only"@);
                let left15 = taken(left14, "is_shared"@);
                let left16 = taken(left15, "last_read"@);
                let left17 = taken(left16, "latest"@);
                let left18 = taken(left17, "members"@);
                let left19 = taken(left18, "name"@);
                let left20 = taken(left19, "name_normalized"@);
                let left21 = taken(left20, "num_members"@);
                let left22 = taken(left21, "previous_names"@);
                let left23 = taken(left22, "priority"@);
                let left24 = taken(left23, "purpose"@);
                let left25 = taken(left24, "topic"@);
                let left26 = taken(left25, "unlinked"@);
                let left27 = taken(left26, "unread_count"@);
                &&& optional_value::<UserId>(left0, "accepted_user"@, x.accepted_user)
                &&& optional_value::<Timestamp>(left1, "created"@, x.created)
                &&& optional_value::<String>(left2, "creator"@, x.creator)
                &&& <ChannelId as Decode>::decodes_to(value_of(left3, "id"@), x.id)
                &&& optional_value::<bool>(left4, "is_archived"@, x.is_archived)
                &&& optional_value::<bool>(left5, "is_channel"@, x.is_channel)
                &&& optional_value::<bool>(left6, "is_general"@, x.is_general)
                &&& optional_value::<bool>(left7, "is_member"@, x.is_member)
                &&& optional_value::<i32>(left8, "is_moved"@, x.is_moved)
                &&& optional_value::<bool>(left9, "is_mpim"@, x.is_mpim)
                &&& optional_value::<bool>(left10, "is_org_shared"@, x.is_org_shared)
                &&& optional_value::<bool>(left11, "is_pending_ext_shared"@, x.is_pending_ext_shared)
                &&& optional_value::<bool>(left12, "is_private"@, x.is_private)
                &&& optional_value::<bool>(left13, "is_read_only"@, x.is_read_only)
                &&& optional_value::<bool>(left14, "is_shared"@, x.is_shared)
                &&& optional_value::<Timestamp>(left15, "last_read"@, x.last_read)
                &&& optional_value::<Message>(left16, "latest"@, x.latest)
                &&& optional_value::<Vec<UserId>>(left17, "members"@, x.members)
                &&& <String as Decode>::decodes_to(value_of(left18, "name"@), x.name)
                &&& optional_value::<String>(left19, "name_normalized"@, x.name_normalized)
                &&& optional_value::<i32>(left20, "num_members"@, x.num_members)
                &&& optional_value::<Vec<String>>(left21, "previous_names"@, x.previous_names)
                &&& optional_value::<i32>(left22, "priority"@, x.priority)
                &&& optional_value::<ChannelPurpose>(left23, "purpose"@, x.purpose)
                &&& optional_value::<ChannelTopic>(left24, "topic"@, x.topic)
                &&& optional_value::<i32>(left25, "unlinked"@, x.unlinked)
                &&& optional_value::<i32>(left26, "unread_count"@, x.unread_count)
                &&& optional_value::<i32>(left27, "unread_count_display"@, x.unread_count_display)
            },
            _ => false,
        }
    }

    /// Whether `e` is the error of the first check or field that fails on `v`.
    #[verifier::opaque]
    pub open spec fn spec_rejects_with(v: JsonValue, e: DecodeError) -> bool {
        match v {
            JsonValue::Object(w) => {
                let left0 = w@;
                let left1 = taken(left0, "accepted_user"@);
                let left2 = taken(left1, "created"@);
                let left3 = taken(left2, "creator"@);
                let left4 = taken(left3, "id"@);
                let left5 = taken(left4, "is_archived"@);
                let left6 = taken(left5, "is_channel"@);
                let left7 = taken(left6, "is_general"@);
                let left8 = taken(left7, "is_member"@);
                let left9 = taken(left8, "is_moved"@);
                let left10 = taken(left9, "is_mpim"@);
                let left11 = taken(left10, "is_org_shared"@);
                let left12 = taken(left11, "is_pending_ext_shared"@);
                let left13 = taken(left12, "is_private"@);
                let left14 = taken(left13, "is_read_only"@);
                let left15 = taken(left14, "is_shared"@);
                let left16 = taken(left15, "last_read"@);
                let left17 = taken(left16, "latest"@);
                let left18 = taken(left17, "members"@);
                let left19 = taken(left18, "name"@);
                let left20 = taken(left19, "name_normalized"@);
                let left21 = taken(left20, "num_members"@);
                let left22 = taken(left21, "previous_names"@);
                let left23 = taken(left22, "priority"@);
                let left24 = taken(left23, "purpose"@);
                let left25 = taken(left24, "topic"@);
                let left26 = taken(left25, "unlinked"@);
                let left27 = taken(left26, "unread_count"@);
                if !all_known(left0, Channel::declared_fields()) {
                    e == (DecodeError::UnknownField { field: first_unknown_key(left0, Channel::declared_fields()) })
                } else if !optional_ok::<UserId>(left0, "accepted_user"@) {
                    field_failed::<UserId>(left0, "accepted_user"@, e)
                } else if !optional_ok::<Timestamp>(left1, "created"@) {
                    field_failed::<Timestamp>(left1, "created"@, e)
                } else if !optional_ok::<String>(left2, "creator"@) {
                    field_failed::<String>(left2, "creator"@, e)
                } else if !required_ok::<ChannelId>(left3, "id"@) {
                    required_err::<ChannelId>(left3, "id"@, e)
                } else if !optional_ok::<bool>(left4, "is_archived"@) {
                    field_failed::<bool>(left4, "is_archived"@, e)
                } else if !optional_ok::<bool>(left5, "is_channel"@) {
                    field_failed::<bool>(left5, "is_channel"@, e)
                } else if !optional_ok::<bool>(left6, "is_general"@) {
                    field_failed::<bool>(left6, "is_general"@, e)
                } else if !optional_ok::<bool>(left7, "is_member"@) {
                    field_failed::<bool>(left7, "is_member"@, e)
                } else if !optional_ok::<i32>(left8, "is_moved"@) {
                    field_failed::<i32>(left8, "is_moved"@, e)
                } else if !optional_ok::<bool>(left9, "is_mpim"@) {
                    field_failed::<bool>(left9, "is_mpim"@, e)
                } else if !optional_ok::<bool>(left10, "is_org_shared"@) {
                    field_failed::<bool>(left10, "is_org_shared"@, e)
                } else if !optional_ok::<bool>(left11, "is_pending_ext_shared"@) {
                    field_failed::<bool>(left11, "is_pending_ext_shared"@, e)
                } else if !optional_ok::<bool>(left12, "is_private"@) {
                    field_failed::<bool>(left12, "is_private"@, e)
                } else if !optional_ok::<bool>(left13, "is_read_only"@) {
                    field_failed::<bool>(left13, "is_read_only"@, e)
                } else if !optional_ok::<bool>(left14, "is_shared"@) {
                    field_failed::<bool>(left14, "is_shared"@, e)
                } else if !optional_ok::<Timestamp>(left15, "last_read"@) {
                    field_failed::<Timestamp>(left15, "last_read"@, e)
                } else if !optional_ok::<Message>(left16, "latest"@) {
                    field_failed::<Message>(left16, "latest"@, e)
                } else if !optional_ok::<Vec<UserId>>(left17, "members"@) {
                    field_failed::<Vec<UserId>>(left17, "members"@, e)
                } else if !required_ok::<String>(left18, "name"@) {
                    required_err::<String>(left18, "name"@, e)
                } else if !optional_ok::<String>(left19, "name_normalized"@) {
                    field_failed::<String>(left19, "name_normalized"@, e)
                } else if !optional_ok::<i32>(left20, "num_members"@) {
                    field_failed::<i32>(left20, "num_members"@, e)
                } else if !optional_ok::<Vec<String>>(left21, "previous_names"@) {
                    field_failed::<Vec<String>>(left21, "previous_names"@, e)
                } else if !optional_ok::<i32>(left22, "priority"@) {
                    field_failed::<i32>(left22, "priority"@, e)
                } else if !optional_ok::<ChannelPurpose>(left23, "purpose"@) {
                    field_failed::<ChannelPurpose>(left23, "purpose"@, e)
                } else if !optional_ok::<ChannelTopic>(left24, "topic"@) {
                    field_failed::<ChannelTopic>(left24, "topic"@, e)
                } else if !optional_ok::<i32>(left25, "unlinked"@) {
                    field_failed::<i32>(left25, "unlinked"@, e)
                } else if !optional_ok::<i32>(left26, "unread_count"@) {
                    field_failed::<i32>(left26, "unread_count"@, e)
                } else if !optional_ok::<i32>(left27, "unread_count_display"@) {
                    field_failed::<i32>(left27, "unread_count_display"@, e)
                } else {
                    false
                }
            },
            _ => e == (DecodeError::WrongType { expected: "object" }),
        }
    }
}

impl Decode for Channel {
    open spec fn accepts(v: JsonValue) -> bool {
        Channel::spec_accepts(v)
    }

    open spec fn decodes_to(v: JsonValue, x: Channel) -> bool {
        Channel::spec_decodes_to(v, x)
    }

    open spec fn rejects_with(v: JsonValue, e: DecodeError) -> bool {
        Channel::spec_rejects_with(v, e)
    }

    fn decode(v: JsonValue) -> Result<Channel, DecodeError> {
        proof {
            reveal(Channel::spec_accepts);
            reveal(Channel::spec_decodes_to);
            reveal(Channel::spec_rejects_with);
        }
        let mut wire = into_fields(v)?;
        let known: &[&str] = &["accepted_user", "created", "creator", "id", "is_archived", "is_channel", "is_general", "is_member", "is_moved", "is_mpim", "is_org_shared", "is_pending_ext_shared", "is_private", "is_read_only", "is_shared", "last_read", "latest", "members", "name", "name_normalized", "num_members", "previous_names", "priority", "purpose", "topic", "unlinked", "unread_count", "unread_count_display"];
        assert(known@ =~= Channel::declared_fields());
        check_fields(&wire, known)?;
        let accepted_user: Option<UserId> = optional(&mut wire, "accepted_user")?;
        let created: Option<Timestamp> = optional(&mut wire, "created")?;
        let creator: Option<String> = optional(&mut wire, "creator")?;
        let id: ChannelId = required(&mut wire, "id")?;
        let is_archived: Option<bool> = optional(&mut wire, "is_archived")?;
        let is_channel: Option<bool> = optional(&mut wire, "is_channel")?;
        let is_general: Option<bool> = optional(&mut wire, "is_general")?;
        let is_member: Option<bool> = optional(&mut wire, "is_member")?;
        let is_moved: Option<i32> = optional(&mut wire, "is_moved")?;
        let is_mpim: Option<bool> = optional(&mut wire, "is_mpim")?;
        let is_org_shared: Option<bool> = optional(&mut wire, "is_org_shared")?;
        let is_pending_ext_shared: Option<bool> = optional(&mut wire, "is_pending_ext_shared")?;
        let is_private: Option<bool> = optional(&mut wire, "is_private")?;
        let is_read_only: Option<bool> = optional(&mut wire, "is_read_only")?;
        let is_shared: Option<bool> = optional(&mut wire, "is_shared")?;
        let last_read: Option<Timestamp> = optional(&mut wire, "last_read")?;
        let latest: Option<Message> = optional(&mut wire, "latest")?;
        let members: Option<Vec<UserId>> = optional(&mut wire, "members")?;
        let name: String = required(&mut wire, "name")?;
        let name_normalized: Option<String> = optional(&mut wire, "name_normalized")?;
        let num_members: Option<i32> = optional(&mut wire, "num_members")?;
        let previous_names: Option<Vec<String>> = optional(&mut wire, "previous_names")?;
        let priority: Option<i32> = optional(&mut wire, "priority")?;
        let purpose: Option<ChannelPurpose> = optional(&mut wire, "purpose")?;
        let topic: Option<ChannelTopic> = optional(&mut wire, "topic")?;
        let unlinked: Option<i32> = optional(&mut wire, "unlinked")?;
        let unread_count: Option<i32> = optional(&mut wire, "unread_count")?;
        let unread_count_display: Option<i32> = optional(&mut wire, "unread_count_display")?;
        Ok(Channel { accepted_user, created, creator, id, is_archived, is_channel, is_general, is_member, is_moved, is_mpim, is_org_shared, is_pending_ext_shared, is_private, is_read_only, is_shared, last_read, latest, members, name, name_normalized, num_members, previous_names, priority, purpose, topic, unlinked, unread_count, unread_count_display })
    }
}

#[derive(Clone, Debug, PartialEq)]
pub struct ChannelPurpose {
    pub creator: Option<String>,
    pub last_set: Option<Timestamp>,
    pub value: Option<String>,
}

impl ChannelPurpose {
    /// Whether `v` decodes as the record: an object whose fields read in order.
    #[verifier::opaque]
    pub open spec fn spec_accepts(v: JsonValue) -> bool {
        match v {
            JsonValue::Object(w) => {
                let left0 = w@;
                let left1 = taken(left0, "creator"@);
                let left2 = taken(left1, "last_set"@);
                &&& optional_ok::<String>(left0, "creator"@)
                &&& optional_ok::<Timestamp>(left1, "last_set"@)
                &&& optional_ok::<String>(left2, "value"@)
            },
            _ => false,
        }
    }

    /// Whether `x` holds what the fields of `v` read as.
    #[verifier::opaque]
    pub open spec fn spec_decodes_to(v: JsonValue, x: ChannelPurpose) -> bool {
        match v {
            JsonValue::Object(w) => {
                let left0 = w@;
                let left1 = taken(left0, "creator"@);
                let left2 = taken(left1, "last_set"@);
                &&& optional_value::<String>(left0, "creator"@, x.creator)
                &&& optional_value::<Timestamp>(left1, "last_set"@, x.last_set)
                &&& optional_value::<String>(left2, "value"@, x.value)
            },
            _ => false,
        }
    }

    /// Whether `e` is the error of the first check or field that fails on `v`.
    #[verifier::opaque]
    pub open spec fn spec_rejects_with(v: JsonValue, e: DecodeError) -> bool {
        match v {
            JsonValue::Object(w) => {
                let left0 = w@;
                let left1 = taken(left0, "creator"@);
                let left2 = taken(left1, "last_set"@);
                if !optional_ok::<String>(left0, "creator"@) {
                    field_failed::<String>(left0, "creator"@, e)
                } else if !optional_ok::<Timestamp>(left1, "last_set"@) {
                    field_failed::<Timestamp>(left1, "last_set"@, e)
                } else if !optional_ok::<String>(left2, "value"@) {
                    field_failed::<String>(left2, "value"@, e)
                } else {
                    false
                }
            },
            _ => e == (DecodeError::WrongType { expected: "object" }),
        }
    }
}

impl Decode for ChannelPurpose {
    open spec fn accepts(v: JsonValue) -> bool {
        ChannelPurpose::spec_accepts(v)
    }

    open spec fn decodes_to(v: JsonValue, x: ChannelPurpose) -> bool {
        ChannelPurpose::spec_decodes_to(v, x)
    }

    open spec fn rejects_with(v: JsonValue, e: DecodeError) -> bool {
        ChannelPurpose::spec_rejects_with(v, e)
    }

    fn decode(v: JsonValue) -> Result<ChannelPurpose, DecodeError> {
        proof {
            reveal(ChannelPurpose::spec_accepts);
            reveal(ChannelPurpose::spec_decodes_to);
            reveal(ChannelPurpose::spec_rejects_with);
        }
        let mut wire = into_fields(v)?;
        let creator: Option<String> = optional(&mut wire, "creator")?;
        let last_set: Option<Timestamp> = optional(&mut wire, "last_set")?;
        let value: Option<String> = optional(&mut wire, "value")?;
        Ok(ChannelPurpose { creator, last_set, value })
    }
}

#[derive(Clone, Debug, PartialEq)]
pub struct ChannelTopic {
    pub creator: Option<String>,
    pub last_set: Option<Timestamp>,
    pub value: Option<String>,
}

impl ChannelTopic {
    /// Whether `v` decodes as the record: an object whose fields read in order.
    #[verifier::opaque]
    pub open spec fn spec_accepts(v: JsonValue) -> bool {
        match v {
            JsonValue::Object(w) => {
                let left0 = w@;
                let left1 = taken(left0, "creator"@);
                let left2 = taken(left1, "last_set"@);
                &&& optional_ok::<String>(left0, "creator"@)
                &&& optional_ok::<Timestamp>(left1, "last_set"@)
                &&& optional_ok::<String>(left2, "value"@)
            },
            _ => false,
        }
    }

    /// Whether `x` holds what the fields of `v` read as.
    #[verifier::opaque]
    pub open spec fn spec_decodes_to(v: JsonValue, x: ChannelTopic) -> bool {
        match v {
            JsonValue::Object(w) => {
                let left0 = w@;
                let left1 = taken(left0, "creator"@);
                let left2 = taken(left1, "last_set"@);
                &&& optional_value::<String>(left0, "creator"@, x.creator)
                &&& optional_value::<Timestamp>(left1, "last_set"@, x.last_set)
                &&& optional_value::<String>(left2, "value"@, x.value)
            },
            _ => false,
        }
    }

    /// Whether `e` is the error of the first check or field that fails on `v`.
    #[verifier::opaque]
    pub open spec fn spec_rejects_with(v: JsonValue, e: DecodeError) -> bool {
        match v {
            JsonValue::Object(w) => {
                let left0 = w@;
                let left1 = taken(left0, "creator"@);
                let left2 = taken(left1, "last_set"@);
                if !optional_ok::<String>(left0, "creator"@) {
                    field_failed::<String>(left0, "creator"@, e)
                } else if !optional_ok::<Timestamp>(left1, "last_set"@) {
                    field_failed::<Timestamp>(left1, "last_set"@, e)
                } else if !optional_ok::<String>(left2, "value"@) {
                    field_failed::<String>(left2, "value"@, e)
                } else {
                    false
                }
            },
            _ => e == (DecodeError::WrongType { expected: "object" }),
        }
    }
}

impl Decode for ChannelTopic {
    open spec fn accepts(v: JsonValue) -> bool {
        ChannelTopic::spec_accepts(v)
    }

    open spec fn decodes_to(v: JsonValue, x: ChannelTopic) -> bool {
        ChannelTopic::spec_decodes_to(v, x)
    }

    open spec fn rejects_with(v: JsonValue, e: DecodeError) -> bool {
        ChannelTopic::spec_rejects_with(v, e)
    }

    fn decode(v: JsonValue) -> Result<ChannelTopic, DecodeError> {
        proof {
            reveal(ChannelTopic::spec_accepts);
            reveal(ChannelTopic::spec_decodes_to);
            reveal(ChannelTopic::spec_rejects_with);
        }
        let mut wire = into_fields(v)?;
        let creator: Option<String> = optional(&mut wire, "creator")?;
        let last_set: Option<Timestamp> = optional(&mut wire, "last_set")?;
        let value: Option<String> = optional(&mut wire, "value")?;
        Ok(ChannelTopic { creator, last_set, value })
    }
}

#[derive(Clone, Debug, PartialEq)]
pub struct File {
    pub channels: Option<Vec<String>>,
    pub comments_count: Option<i32>,
    pub created: Option<i32>,
    pub display_as_bot: Option<bool>,
    pub edit_link: Option<String>,
    pub editable: Option<bool>,
    pub external_type: Option<String>,
    pub filetype: Option<String>,
    pub groups: Option<Vec<String>>,
    pub id: Option<String>,
    pub ims: Option<Vec<String>>,
    pub initial_comment: Option<FileComment>,
    pub is_external: Option<bool>,
    pub is_public: Option<bool>,
    pub is_starred: Option<bool>,
    pub lines: Option<i32>,
    pub lines_more: Option<i32>,
    pub mimetype: Option<String>,
    pub mode: Option<String>,
    pub name: Option<String>,
    pub num_stars: Option<i32>,
    pub permalink: Option<String>,
    pub permalink_public: Option<String>,
    pub pinned_to: Option<Vec<String>>,
    pub pretty_type: Option<String>,
    pub preview: Option<String>,
    pub preview_highlight: Option<String>,
    pub public_url_shared: Option<bool>,
    pub reactions: Vec<Reaction>,
    pub size: Option<i32>,
    pub thumb_160: Option<String>,
    pub thumb_360: Option<String>,
    pub thumb_360_gif: Option<String>,
    pub thumb_360_h: Option<i32>,
    pub thumb_360_w: Option<i32>,
    pub thumb_480: Option<String>,
    pub thumb_480_h: Option<i32>,
    pub thumb_480_w: Option<i32>,
    pub thumb_64: Option<String>,
    pub thumb_80: Option<String>,
    pub timestamp: Option<i32>,
    pub title: Option<String>,
    pub url_private: Option<String>,
    pub url_private_download: Option<String>,
    pub user: Option<UserId>,
    pub username: Option<String>,
}

impl File {
    /// Whether `v` decodes as the record: an object whose fields read in order.
    #[verifier::opaque]
    pub open spec fn spec_accepts(v: JsonValue) -> bool {
        match v {
            JsonValue::Object(w) => {
                let left0 = w@;
                let left1 = taken(left0, "channels"@);
                let left2 = taken(left1, "comments_count"@);
                let left3 = taken(left2, "created"@);
                let left4 = taken(left3, "display_as_bot"@);
                let left5 = taken(left4, "edit_link"@);
                let left6 = taken(left5, "editable"@);
                let left7 = taken(left6, "external_type"@);
                let left8 = taken(left7, "filetype"@);
                let left9 = taken(left8, "groups"@);
                let left10 = taken(left9, "id"@);
                let left11 = taken(left10, "ims"@);
                let left12 = taken(left11, "initial_comment"@);
                let left13 = taken(left12, "is_external"@);
                let left14 = taken(left13, "is_public"@);
                let left15 = taken(left14, "is_starred"@);
                let left16 = taken(left15, "lines"@);
                let left17 = taken(left16, "lines_more"@);
                let left18 = taken(left17, "mimetype"@);
                let left19 = taken(left18, "mode"@);
                let left20 = taken(left19, "name"@);
                let left21 = taken(left20, "num_stars"@);
                let left22 = taken(left21, "permalink"@);
                let left23 = taken(left22, "permalink_public"@);
                let left24 = taken(left23, "pinned_to"@);
                let left25 = taken(left24, "pretty_type"@);
                let left26 = taken(left25, "preview"@);
                let left27 = taken(left26, "preview_highlight"@);
                let left28 = taken(left27, "public_url_shared"@);
                let left29 = taken(left28, "reactions"@);
                let left30 = taken(left29, "size"@);
                let left31 = taken(left30, "thumb_160"@);
                let left32 = taken(left31, "thumb_360"@);
                let left33 = taken(left32, "thumb_360_gif"@);
                let left34 = taken(left33, "thumb_360_h"@);
                let left35 = taken(left34, "thumb_360_w"@);
                let left36 = taken(left35, "thumb_480"@);
                let left37 = taken(left36, "thumb_480_h"@);
                let left38 = taken(left37, "thumb_480_w"@);
                let left39 = taken(left38, "thumb_64"@);
                let left40 = taken(left39, "thumb_80"@);
                let left41 = taken(left40, "timestamp"@);
                let left42 = taken(left41, "title"@);
                let left43 = taken(left42, "url_private"@);
                let left44 = taken(left43, "url_private_download"@);
                let left45 = taken(left44, "user"@);
                &&& optional_ok::<Vec<String>>(left0, "channels"@)
                &&& optional_ok::<i32>(left1, "comments_count"@)
                &&& optional_ok::<i32>(left2, "created"@)
                &&& optional_ok::<bool>(left3, "display_as_bot"@)
                &&& optional_ok::<String>(left4, "edit_link"@)
                &&& optional_ok::<bool>(left5, "editable"@)
                &&& optional_ok::<String>(left6, "external_type"@)
                &&& optional_ok::<String>(left7, "filetype"@)
                &&& optional_ok::<Vec<String>>(left8, "groups"@)
                &&& optional_ok::<String>(left9, "id"@)
                &&& optional_ok::<Vec<String>>(left10, "ims"@)
                &&& optional_ok::<FileComment>(left11, "initial_comment"@)
                &&& optional_ok::<bool>(left12, "is_external"@)
                &&& optional_ok::<bool>(left13, "is_public"@)
                &&& optional_ok::<bool>(left14, "is_starred"@)
                &&& optional_ok::<i32>(left15, "lines"@)
                &&& optional_ok::<i32>(left16, "lines_more"@)
                &&& optional_ok::<String>(left17, "mimetype"@)
                &&& optional_ok::<String>(left18, "mode"@)
                &&& optional_ok::<String>(left19, "name"@)
                &&& optional_ok::<i32>(left20, "num_stars"@)
                &&& optional_ok::<String>(left21, "permalink"@)
                &&& optional_ok::<String>(left22, "permalink_public"@)
                &&& optional_ok::<Vec<String>>(left23, "pinned_to"@)
                &&& optional_ok::<String>(left24, "pretty_type"@)
                &&& optional_ok::<String>(left25, "preview"@)
                &&& optional_ok::<String>(left26, "preview_highlight"@)
                &&& optional_ok::<bool>(left27, "public_url_shared"@)
                &&& list_ok::<Reaction>(left28, "reactions"@)
                &&& optional_ok::<i32>(left29, "size"@)
                &&& optional_ok::<String>(left30, "thumb_160"@)
                &&& optional_ok::<String>(left31, "thumb_360"@)
                &&& optional_ok::<String>(left32, "thumb_360_gif"@)
                &&& optional_ok::<i32>(left33, "thumb_360_h"@)
                &&& optional_ok::<i32>(left34, "thumb_360_w"@)
                &&& optional_ok::<String>(left35, "thumb_480"@)
                &&& optional_ok::<i32>(left36, "thumb_480_h"@)
                &&& optional_ok::<i32>(left37, "thumb_480_w"@)
                &&& optional_ok::<String>(left38, "thumb_64"@)
                &&& optional_ok::<String>(left39, "thumb_80"@)
                &&& optional_ok::<i32>(left40, "timestamp"@)
                &&& optional_ok::<String>(left41, "title"@)
                &&& optional_ok::<String>(left42, "url_private"@)
                &&& optional_ok::<String>(left43, "url_private_download"@)
                &&& optional_ok::<UserId>(left44, "user"@)
                &&& optional_ok::<String>(left45, "username"@)
            },
            _ => false,
        }
    }

    /// Whether `x` holds what the fields of `v` read as.
    #[verifier::opaque]
    pub open spec fn spec_decodes_to(v: JsonValue, x: File) -> bool {
        match v {
            JsonValue::Object(w) => {
                let left0 = w@;
                let left1 = taken(left0, "channels"@);
                let left2 = taken(left1, "comments_count"@);
                let left3 = taken(left2, "created"@);
                let left4 = taken(left3, "display_as_bot"@);
                let left5 = taken(left4, "edit_link"@);
                let left6 = taken(left5, "editable"@);
                let left7 = taken(left6, "external_type"@);
                let left8 = taken(left7, "filetype"@);
                let left9 = taken(left8, "groups"@);
                let left10 = taken(left9, "id"@);
                let left11 = taken(left10, "ims"@);
                let left12 = taken(left11, "initial_comment"@);
                let left13 = taken(left12, "is_external"@);
                let left14 = taken(left13, "is_public"@);
                let left15 = taken(left14, "is_starred"@);
                let left16 = taken(left15, "lines"@);
                let left17 = taken(left16, "lines_more"@);
                let left18 = taken(left17, "mimetype"@);
                let left19 = taken(left18, "mode"@);
                let left20 = taken(left19, "name"@);
                let left21 = taken(left20, "num_stars"@);
                let left22 = taken(left21, "permalink"@);
                let left23 = taken(left22, "permalink_public"@);
                let left24 = taken(left23, "pinned_to"@);
                let left25 = taken(left24, "pretty_type"@);
                let left26 = taken(left25, "preview"@);
                let left27 = taken(left26, "preview_highlight"@);
                let left28 = taken(left27, "public_url_shared"@);
                let left29 = taken(left28, "reactions"@);
                let left30 = taken(left29, "size"@);
                let left31 = taken(left30, "thumb_160"@);
                let left32 = taken(left31, "thumb_360"@);
                let left33 = taken(left32, "thumb_360_gif"@);
                let left34 = taken(left33, "thumb_360_h"@);
                let left35 = taken(left34, "thumb_360_w"@);
                let left36 = taken(left35, "thumb_480"@);
                let left37 = taken(left36, "thumb_480_h"@);
                let left38 = taken(left37, "thumb_480_w"@);
                let left39 = taken(left38, "thumb_64"@);
                let left40 = taken(left39, "thumb_80"@);
                let left41 = taken(left40, "timestamp"@);
                let left42 = taken(left41, "title"@);
                let left43 = taken(left42, "url_private"@);
                let left44 = taken(left43, "url_private_download"@);
                let left45 = taken(left44, "user"@);
                &&& optional_value::<Vec<String>>(left0, "channels"@, x.channels)
                &&& optional_value::<i32>(left1, "comments_count"@, x.comments_count)
                &&& optional_value::<i32>(left2, "created"@, x.created)
                &&& optional_value::<bool>(left3, "display_as_bot"@, x.display_as_bot)
                &&& optional_value::<String>(left4, "edit_link"@, x.edit_link)
                &&& optional_value::<bool>(left5, "editable"@, x.editable)
                &&& optional_value::<String>(left6, "external_type"@, x.external_type)
                &&& optional_value::<String>(left7, "filetype"@, x.filetype)
                &&& optional_value::<Vec<String>>(left8, "groups"@, x.groups)
                &&& optional_value::<String>(left9, "id"@, x.id)
                &&& optional_value::<Vec<String>>(left10, "ims"@, x.ims)
                &&& optional_value::<FileComment>(left11, "initial_comment"@, x.initial_comment)
                &&& optional_value::<bool>(left12, "is_external"@, x.is_external)
                &&& optional_value::<bool>(left13, "is_public"@, x.is_public)
                &&& optional_value::<bool>(left14, "is_starred"@, x.is_starred)
                &&& optional_value::<i32>(left15, "lines"@, x.lines)
                &&& optional_value::<i32>(left16, "lines_more"@, x.lines_more)
                &&& optional_value::<String>(left17, "mimetype"@, x.mimetype)
                &&& optional_value::<String>(left18, "mode"@, x.mode)
                &&& optional_value::<String>(left19, "name"@, x.name)
                &&& optional_value::<i32>(left20, "num_stars"@, x.num_stars)
                &&& optional_value::<String>(left21, "permalink"@, x.permalink)
                &&& optional_value::<String>(left22, "permalink_public"@, x.permalink_public)
                &&& optional_value::<Vec<String>>(left23, "pinned_to"@, x.pinned_to)
                &&& optional_value::<String>(left24, "pretty_type"@, x.pretty_type)
                &&& optional_value::<String>(left25, "preview"@, x.preview)
                &&& optional_value::<String>(left26, "preview_highlight"@, x.preview_highlight)
                &&& optional_value::<bool>(left27, "public_url_shared"@, x.public_url_shared)
                &&& list_value::<Reaction>(left28, "reactions"@, x.reactions)
                &&& optional_value::<i32>(left29, "size"@, x.size)
                &&& optional_value::<String>(left30, "thumb_160"@, x.thumb_160)
                &&& optional_value::<String>(left31, "thumb_360"@, x.thumb_360)
                &&& optional_value::<String>(left32, "thumb_360_gif"@, x.thumb_360_gif)
                &&& optional_value::<i32>(left33, "thumb_360_h"@, x.thumb_360_h)
                &&& optional_value::<i32>(left34, "thumb_360_w"@, x.thumb_360_w)
                &&& optional_value::<String>(left35, "thumb_480"@, x.thumb_480)
                &&& optional_value::<i32>(left36, "thumb_480_h"@, x.thumb_480_h)
                &&& optional_value::<i32>(left37, "thumb_480_w"@, x.thumb_480_w)
                &&& optional_value::<String>(left38, "thumb_64"@, x.thumb_64)
                &&& optional_value::<String>(left39, "thumb_80"@, x.thumb_80)
                &&& optional_value::<i32>(left40, "timestamp"@, x.timestamp)
                &&& optional_value::<String>(left41, "title"@, x.title)
                &&& optional_value::<String>(left42, "url_private"@, x.url_private)
                &&& optional_value::<String>(left43, "url_private_download"@, x.url_private_download)
                &&& optional_value::<UserId>(left44, "user"@, x.user)
                &&& optional_value::<String>(left45, "username"@, x.username)
            },
            _ => false,
        }
    }

    /// Whether `e` is the error of the first check or field that fails on `v`.
    #[verifier::opaque]
    pub open spec fn spec_rejects_with(v: JsonValue, e: DecodeError) -> bool {
        match v {
            JsonValue::Object(w) => {
                let left0 = w@;
                let left1 = taken(left0, "channels"@);
                let left2 = taken(left1, "comments_count"@);
                let left3 = taken(left2, "created"@);
                let left4 = taken(left3, "display_as_bot"@);
                let left5 = taken(left4, "edit_link"@);
                let left6 = taken(left5, "editable"@);
                let left7 = taken(left6, "external_type"@);
                let left8 = taken(left7, "filetype"@);
                let left9 = taken(left8, "groups"@);
                let left10 = taken(left9, "id"@);
                let left11 = taken(left10, "ims"@);
                let left12 = taken(left11, "initial_comment"@);
                let left13 = taken(left12, "is_external"@);
                let left14 = taken(left13, "is_public"@);
                let left15 = taken(left14, "is_starred"@);
                let left16 = taken(left15, "lines"@);
                let left17 = taken(left16, "lines_more"@);
                let left18 = taken(left17, "mimetype"@);
                let left19 = taken(left18, "mode"@);
                let left20 = taken(left19, "name"@);
                let left21 = taken(left20, "num_stars"@);
                let left22 = taken(left21, "permalink"@);
                let left23 = taken(left22, "permalink_public"@);
                let left24 = taken(left23, "pinned_to"@);
                let left25 = taken(left24, "pretty_type"@);
                let left26 = taken(left25, "preview"@);
                let left27 = taken(left26, "preview_highlight"@);
                let left28 = taken(left27, "public_url_shared"@);
                let left29 = taken(left28, "reactions"@);
                let left30 = taken(left29, "size"@);
                let left31 = taken(left30, "thumb_160"@);
                let left32 = taken(left31, "thumb_360"@);
                let left33 = taken(left32, "thumb_360_gif"@);
                let left34 = taken(left33, "thumb_360_h"@);
                let left35 = taken(left34, "thumb_360_w"@);
                let left36 = taken(left35, "thumb_480"@);
                let left37 = taken(left36, "thumb_480_h"@);
                let left38 = taken(left37, "thumb_480_w"@);
                let left39 = taken(left38, "thumb_64"@);
                let left40 = taken(left39, "thumb_80"@);
                let left41 = taken(left40, "timestamp"@);
                let left42 = taken(left41, "title"@);
                let left43 = taken(left42, "url_private"@);
                let left44 = taken(left43, "url_private_download"@);
                let left45 = taken(left44, "user"@);
                if !optional_ok::<Vec<String>>(left0, "channels"@) {
                    field_failed::<Vec<String>>(left0, "channels"@, e)
                } else if !optional_ok::<i32>(left1, "comments_count"@) {
                    field_failed::<i32>(left1, "comments_count"@, e)
                } else if !optional_ok::<i32>(left2, "created"@) {
                    field_failed::<i32>(left2, "created"@, e)
                } else if !optional_ok::<bool>(left3, "display_as_bot"@) {
                    field_failed::<bool>(left3, "display_as_bot"@, e)
                } else if !optional_ok::<String>(left4, "edit_link"@) {
                    field_failed::<String>(left4, "edit_link"@, e)
                } else if !optional_ok::<bool>(left5, "editable"@) {
                    field_failed::<bool>(left5, "editable"@, e)
                } else if !optional_ok::<String>(left6, "external_type"@) {
                    field_failed::<String>(left6, "external_type"@, e)
                } else if !optional_ok::<String>(left7, "filetype"@) {
                    field_failed::<String>(left7, "filetype"@, e)
                } else if !optional_ok::<Vec<String>>(left8, "groups"@) {
                    field_failed::<Vec<String>>(left8, "groups"@, e)
                } else if !optional_ok::<String>(left9, "id"@) {
                    field_failed::<String>(left9, "id"@, e)
                } else if !optional_ok::<Vec<String>>(left10, "ims"@) {
                    field_failed::<Vec<String>>(left10, "ims"@, e)
                } else if !optional_ok::<FileComment>(left11, "initial_comment"@) {
                    field_failed::<FileComment>(left11, "initial_comment"@, e)
                } else if !optional_ok::<bool>(left12, "is_external"@) {
                    field_failed::<bool>(left12, "is_external"@, e)
                } else if !optional_ok::<bool>(left13, "is_public"@) {
                    field_failed::<bool>(left13, "is_public"@, e)
                } else if !optional_ok::<bool>(left14, "is_starred"@) {
                    field_failed::<bool>(left14, "is_starred"@, e)
                } else if !optional_ok::<i32>(left15, "lines"@) {
                    field_failed::<i32>(left15, "lines"@, e)
                } else if !optional_ok::<i32>(left16, "lines_more"@) {
                    field_failed::<i32>(left16, "lines_more"@, e)
                } else if !optional_ok::<String>(left17, "mimetype"@) {
                    field_failed::<String>(left17, "mimetype"@, e)
                } else if !optional_ok::<String>(left18, "mode"@) {
                    field_failed::<String>(left18, "mode"@, e)
                } else if !optional_ok::<String>(left19, "name"@) {
                    field_failed::<String>(left19, "name"@, e)
                } else if !optional_ok::<i32>(left20, "num_stars"@) {
                    field_failed::<i32>(left20, "num_stars"@, e)
                } else if !optional_ok::<String>(left21, "permalink"@) {
                    field_failed::<String>(left21, "permalink"@, e)
                } else if !optional_ok::<String>(left22, "permalink_public"@) {
                    field_failed::<String>(left22, "permalink_public"@, e)
                } else if !optional_ok::<Vec<String>>(left23, "pinned_to"@) {
                    field_failed::<Vec<String>>(left23, "pinned_to"@, e)
                } else if !optional_ok::<String>(left24, "pretty_type"@) {
                    field_failed::<String>(left24, "pretty_type"@, e)
                } else if !optional_ok::<String>(left25, "preview"@) {
                    field_failed::<String>(left25, "preview"@, e)
                } else if !optional_ok::<String>(left26, "preview_highlight"@) {
                    field_failed::<String>(left26, "preview_highlight"@, e)
                } else if !optional_ok::<bool>(left27, "public_url_shared"@) {
                    field_failed::<bool>(left27, "public_url_shared"@, e)
                } else if !list_ok::<Reaction>(left28, "reactions"@) {
                    field_failed::<Vec<Reaction>>(left28, "reactions"@, e)
                } else if !optional_ok::<i32>(left29, "size"@) {
                    field_failed::<i32>(left29, "size"@, e)
                } else if !optional_ok::<String>(left30, "thumb_160"@) {
                    field_failed::<String>(left30, "thumb_160"@, e)
                } else if !optional_ok::<String>(left31, "thumb_360"@) {
                    field_failed::<String>(left31, "thumb_360"@, e)
                } else if !optional_ok::<String>(left32, "thumb_360_gif"@) {
                    field_failed::<String>(left32, "thumb_360_gif"@, e)
                } else if !optional_ok::<i32>(left33, "thumb_360_h"@) {
                    field_failed::<i32>(left33, "thumb_360_h"@, e)
                } else if !optional_ok::<i32>(left34, "thumb_360_w"@) {
                    field_failed::<i32>(left34, "thumb_360_w"@, e)
                } else if !optional_ok::<String>(left35, "thumb_480"@) {
                    field_failed::<String>(left35, "thumb_480"@, e)
                } else if !optional_ok::<i32>(left36, "thumb_480_h"@) {
                    field_failed::<i32>(left36, "thumb_480_h"@, e)
                } else if !optional_ok::<i32>(left37, "thumb_480_w"@) {
                    field_failed::<i32>(left37, "thumb_480_w"@, e)
                } else if !optional_ok::<String>(left38, "thumb_64"@) {
                    field_failed::<String>(left38, "thumb_64"@, e)
                } else if !optional_ok::<String>(left39, "thumb_80"@) {
                    field_failed::<String>(left39, "thumb_80"@, e)
                } else if !optional_ok::<i32>(left40, "timestamp"@) {
                    field_failed::<i32>(left40, "timestamp"@, e)
                } else if !optional_ok::<String>(left41, "title"@) {
                    field_failed::<String>(left41, "title"@, e)
                } else if !optional_ok::<String>(left42, "url_private"@) {
                    field_failed::<String>(left42, "url_private"@, e)
                } else if !optional_ok::<String>(left43, "url_private_download"@) {
                    field_failed::<String>(left43, "url_private_download"@, e)
                } else if !optional_ok::<UserId>(left44, "user"@) {
                    field_failed::<UserId>(left44, "user"@, e)
                } else if !optional_ok::<String>(left45, "username"@) {
                    field_failed::<String>(left45, "username"@, e)
                } else {
                    false
                }
            },
            _ => e == (DecodeError::WrongType { expected: "object" }),
        }
    }
}

impl Decode for File {
    open spec fn accepts(v: JsonValue) -> bool {
        File::spec_accepts(v)
    }

    open spec fn decodes_to(v: JsonValue, x: File) -> bool {
        File::spec_decodes_to(v, x)
    }

    open spec fn rejects_with(v: JsonValue, e: DecodeError) -> bool {
        File::spec_rejects_with(v, e)
    }

    fn decode(v: JsonValue) -> Result<File, DecodeError> {
        proof {
            reveal(File::spec_accepts);
            reveal(File::spec_decodes_to);
            reveal(File::spec_rejects_with);
        }
        let mut wire = into_fields(v)?;
        let channels: Option<Vec<String>> = optional(&mut wire, "channels")?;
        let comments_count: Option<i32> = optional(&mut wire, "comments_count")?;
        let created: Option<i32> = optional(&mut wire, "created")?;
        let display_as_bot: Option<bool> = optional(&mut wire, "display_as_bot")?;
        let edit_link: Option<String> = optional(&mut wire, "edit_link")?;
        let editable: Option<bool> = optional(&mut wire, "editable")?;
        let external_type: Option<String> = optional(&mut wire, "external_type")?;
        let filetype: Option<String> = optional(&mut wire, "filetype")?;
        let groups: Option<Vec<String>> = optional(&mut wire, "groups")?;
        let id: Option<String> = optional(&mut wire, "id")?;
        let ims: Option<Vec<String>> = optional(&mut wire, "ims")?;
        let initial_comment: Option<FileComment> = optional(&mut wire, "initial_comment")?;
        let is_external: Option<bool> = optional(&mut wire, "is_external")?;
        let is_public: Option<bool> = optional(&mut wire, "is_public")?;
        let is_starred: Option<bool> = optional(&mut wire, "is_starred")?;
        let lines: Option<i32> = optional(&mut wire, "lines")?;
        let lines_more: Option<i32> = optional(&mut wire, "lines_more")?;
        let mimetype: Option<String> = optional(&mut wire, "mimetype")?;
        let mode: Option<String> = optional(&mut wire, "mode")?;
        let name: Option<String> = optional(&mut wire, "name")?;
        let num_stars: Option<i32> = optional(&mut wire, "num_stars")?;
        let permalink: Option<String> = optional(&mut wire, "permalink")?;
        let permalink_public: Option<String> = optional(&mut wire, "permalink_public")?;
        let pinned_to: Option<Vec<String>> = optional(&mut wire, "pinned_to")?;
        let pretty_type: Option<String> = optional(&mut wire, "pretty_type")?;
        let preview: Option<String> = optional(&mut wire, "preview")?;
        let preview_highlight: Option<String> = optional(&mut wire, "preview_highlight")?;
        let public_url_shared: Option<bool> = optional(&mut wire, "public_url_shared")?;
        let reactions: Vec<Reaction> = list_or_empty(&mut wire, "reactions")?;
        let size: Option<i32> = optional(&mut wire, "size")?;
        let thumb_160: Option<String> = optional(&mut wire, "thumb_160")?;
        let thumb_360: Option<String> = optional(&mut wire, "thumb_360")?;
        let thumb_360_gif: Option<String> = optional(&mut wire, "thumb_360_gif")?;
        let thumb_360_h: Option<i32> = optional(&mut wire, "thumb_360_h")?;
        let thumb_360_w: Option<i32> = optional(&mut wire, "thumb_360_w")?;
        let thumb_480: Option<String> = optional(&mut wire, "thumb_480")?;
        let thumb_480_h: Option<i32> = optional(&mut wire, "thumb_480_h")?;
        let thumb_480_w: Option<i32> = optional(&mut wire, "thumb_480_w")?;
        let thumb_64: Option<String> = optional(&mut wire, "thumb_64")?;
        let thumb_80: Option<String> = optional(&mut wire, "thumb_80")?;
        let timestamp: Option<i32> = optional(&mut wire, "timestamp")?;
        let title: Option<String> = optional(&mut wire, "title")?;
        let url_private: Option<String> = optional(&mut wire, "url_private")?;
        let url_private_download: Option<String> = optional(&mut wire, "url_private_download")?;
        let user: Option<UserId> = optional(&mut wire, "user")?;
        let username: Option<String> = optional(&mut wire, "username")?;
        Ok(File { channels, comments_count, created, display_as_bot, edit_link, editable, external_type, filetype, groups, id, ims, initial_comment, is_external, is_public, is_starred, lines, lines_more, mimetype, mode, name, num_stars, permalink, permalink_public, pinned_to, pretty_type, preview, preview_highlight, public_url_shared, reactions, size, thumb_160, thumb_360, thumb_360_gif, thumb_360_h, thumb_360_w, thumb_480, thumb_480_h, thumb_480_w, thumb_64, thumb_80, timestamp, title, url_private, url_private_download, user, username })
    }
}

#[derive(Clone, Debug, PartialEq)]
pub struct FileComment {
    pub comment: Option<String>,
    pub id: Option<String>,
    pub reactions: Vec<Reaction>,
    pub timestamp: Option<i32>,
    pub user: Option<UserId>,
}

impl FileComment {
    /// Whether `v` decodes as the record: an object whose fields read in order.
    #[verifier::opaque]
    pub open spec fn spec_accepts(v: JsonValue) -> bool {
        match v {
            JsonValue::Object(w) => {
                let left0 = w@;
                let left1 = taken(left0, "comment"@);
                let left2 = taken(left1, "id"@);
                let left3 = taken(left2, "reactions"@);
                let left4 = taken(left3, "timestamp"@);
                &&& optional_ok::<String>(left0, "comment"@)
                &&& optional_ok::<String>(left1, "id"@)
                &&& list_ok::<Reaction>(left2, "reactions"@)
                &&& optional_ok::<i32>(left3, "timestamp"@)
                &&& optional_ok::<UserId>(left4, "user"@)
            },
            _ => false,
        }
    }

    /// Whether `x` holds what the fields of `v` read as.
    #[verifier::opaque]
    pub open spec fn spec_decodes_to(v: JsonValue, x: FileComment) -> bool {
        match v {
            JsonValue::Object(w) => {
                let left0 = w@;
                let left1 = taken(left0, "comment"@);
                let left2 = taken(left1, "id"@);
                let left3 = taken(left2, "reactions"@);
                let left4 = taken(left3, "timestamp"@);
                &&& optional_value::<String>(left0, "comment"@, x.comment)
                &&& optional_value::<String>(left1, "id"@, x.id)
                &&& list_value::<Reaction>(left2, "reactions"@, x.reactions)
                &&& optional_value::<i32>(left3, "timestamp"@, x.timestamp)
                &&& optional_value::<UserId>(left4, "user"@, x.user)
            },
            _ => false,
        }
    }

    /// Whether `e` is the error of the first check or field that fails on `v`.
    #[verifier::opaque]
    pub open spec fn spec_rejects_with(v: JsonValue, e: DecodeError) -> bool {
        match v {
            JsonValue::Object(w) => {
                let left0 = w@;
                let left1 = taken(left0, "comment"@);
                let left2 = taken(left1, "id"@);
                let left3 = taken(left2, "reactions"@);
                let left4 = taken(left3, "timestamp"@);
                if !optional_ok::<String>(left0, "comment"@) {
                    field_failed::<String>(left0, "comment"@, e)
                } else if !optional_ok::<String>(left1, "id"@) {
                    field_failed::<String>(left1, "id"@, e)
                } else if !list_ok::<Reaction>(left2, "reactions"@) {
                    field_failed::<Vec<Reaction>>(left2, "reactions"@, e)
                } else if !optional_ok::<i32>(left3, "timestamp"@) {
                    field_failed::<i32>(left3, "timestamp"@, e)
                } else if !optional_ok::<UserId>(left4, "user"@) {
                    field_failed::<UserId>(left4, "user"@, e)
                } else {
                    false
                }
            },
            _ => e == (DecodeError::WrongType { expected: "object" }),
        }
    }
}

impl Decode for FileComment {
    open spec fn accepts(v: JsonValue) -> bool {
        FileComment::spec_accepts(v)
    }

    open spec fn decodes_to(v: JsonValue, x: FileComment) -> bool {
        FileComment::spec_decodes_to(v, x)
    }

    open spec fn rejects_with(v: JsonValue, e: DecodeError) -> bool {
        FileComment::spec_rejects_with(v, e)
    }

    fn decode(v: JsonValue) -> Result<FileComment, DecodeError> {
        proof {
            reveal(FileComment::spec_accepts);
            reveal(FileComment::spec_decodes_to);
            reveal(FileComment::spec_rejects_with);
        }
        let mut wire = into_fields(v)?;
        let comment: Option<String> = optional(&mut wire, "comment")?;
        let id: Option<String> = optional(&mut wire, "id")?;
        let reactions: Vec<Reaction> = list_or_empty(&mut wire, "reactions")?;
        let timestamp: Option<i32> = optional(&mut wire, "timestamp")?;
        let user: Option<UserId> = optional(&mut wire, "user")?;
        Ok(FileComment { comment, id, reactions, timestamp, user })
    }
}

#[derive(Clone, Debug, PartialEq)]
pub struct Group {
    pub created: Option<i32>,
    pub creator: Option<String>,
    pub id: GroupId,
    pub is_archived: Option<bool>,
    pub is_group: Option<bool>,
    pub is_mpim: Option<bool>,
    pub last_read: Option<Timestamp>,
    pub latest: Option<Message>,
    pub members: Option<Vec<String>>,
    pub name: String,
    pub purpose: Option<GroupPurpose>,
    pub topic: Option<GroupTopic>,
    pub unread_count: Option<i32>,
    pub unread_count_display: Option<i32>,
}

impl Group {
    /// Whether `v` decodes as the record: an object whose fields read in order.
    #[verifier::opaque]
    pub open spec fn spec_accepts(v: JsonValue) -> bool {
        match v {
            JsonValue::Object(w) => {
                let left0 = w@;
                let left1 = taken(left0, "created"@);
                let left2 = taken(left1, "creator"@);
                let left3 = taken(left2, "id"@);
                let left4 = taken(left3, "is_archived"@);
                let left5 = taken(left4, "is_group"@);
                let left6 = taken(left5, "is_mpim"@);
                let left7 = taken(left6, "last_read"@);
                let left8 = taken(left7, "latest"@);
                let left9 = taken(left8, "members"@);
                let left10 = taken(left9, "name"@);
                let left11 = taken(left10, "purpose"@);
                let left12 = taken(left11, "topic"@);
                let left13 = taken(left12, "unread_count"@);
                &&& optional_ok::<i32>(left0, "created"@)
                &&& optional_ok::<String>(left1, "creator"@)
                &&& required_ok::<GroupId>(left2, "id"@)
                &&& optional_ok::<bool>(left3, "is_archived"@)
                &&& optional_ok::<bool>(left4, "is_group"@)
                &&& optional_ok::<bool>(left5, "is_mpim"@)
                &&& optional_ok::<Timestamp>(left6, "last_read"@)
                &&& optional_ok::<Message>(left7, "latest"@)
                &&& optional_ok::<Vec<String>>(left8, "members"@)
                &&& required_ok::<String>(left9, "name"@)
                &&& optional_ok::<GroupPurpose>(left10, "purpose"@)
                &&& optional_ok::<GroupTopic>(left11, "topic"@)
                &&& optional_ok::<i32>(left12, "unread_count"@)
                &&& optional_ok::<i32>(left13, "unread_count_display"@)
            },
            _ => false,
        }
    }

    /// Whether `x` holds what the fields of `v` read as.
    #[verifier::opaque]
    pub open spec fn spec_decodes_to(v: JsonValue, x: Group) -> bool {
        match v {
            JsonValue::Object(w) => {
                let left0 = w@;
                let left1 = taken(left0, "created"@);
                let left2 = taken(left1, "creator"@);
                let left3 = taken(left2, "id"@);
                let left4 = taken(left3, "is_archived"@);
                let left5 = taken(left4, "is_group"@);
                let left6 = taken(left5, "is_mpim"@);
                let left7 = taken(left6, "last_read"@);
                let left8 = taken(left7, "latest"@);
                let left9 = taken(left8, "members"@);
                let left10 = taken(left9, "name"@);
                let left11 = taken(left10, "purpose"@);
                let left12 = taken(left11, "topic"@);
                let left13 = taken(left12, "unread_count"@);
                &&& optional_value::<i32>(left0, "created"@, x.created)
                &&& optional_value::<String>(left1, "creator"@, x.creator)
                &&& <GroupId as Decode>::decodes_to(value_of(left2, "id"@), x.id)
                &&& optional_value::<bool>(left3, "is_archived"@, x.is_archived)
                &&& optional_value::<bool>(left4, "is_group"@, x.is_group)
                &&& optional_value::<bool>(left5, "is_mpim"@, x.is_mpim)
                &&& optional_value::<Timestamp>(left6, "last_read"@, x.last_read)
                &&& optional_value::<Message>(left7, "latest"@, x.latest)
                &&& optional_value::<Vec<String>>(left8, "members"@, x.members)
                &&& <String as Decode>::decodes_to(value_of(left9, "name"@), x.name)
                &&& optional_value::<GroupPurpose>(left10, "purpose"@, x.purpose)
                &&& optional_value::<GroupTopic>(left11, "topic"@, x.topic)
                &&& optional_value::<i32>(left12, "unread_count"@, x.unread_count)
                &&& optional_value::<i32>(left13, "unread_count_display"@, x.unread_count_display)
            },
            _ => false,
        }
    }

    /// Whether `e` is the error of the first check or field that fails on `v`.
    #[verifier::opaque]
    pub open spec fn spec_rejects_with(v: JsonValue, e: DecodeError) -> bool {
        match v {
            JsonValue::Object(w) => {
                let left0 = w@;
                let left1 = taken(left0, "created"@);
                let left2 = taken(left1, "creator"@);
                let left3 = taken(left2, "id"@);
                let left4 = taken(left3, "is_archived"@);
                let left5 = taken(left4, "is_group"@);
                let left6 = taken(left5, "is_mpim"@);
                let left7 = taken(left6, "last_read"@);
                let left8 = taken(left7, "latest"@);
                let left9 = taken(left8, "members"@);
                let left10 = taken(left9, "name"@);
                let left11 = taken(left10, "purpose"@);
                let left12 = taken(left11, "topic"@);
                let left13 = taken(left12, "unread_count"@);
                if !optional_ok::<i32>(left0, "created"@) {
                    field_failed::<i32>(left0, "created"@, e)
                } else if !optional_ok::<String>(left1, "creator"@) {
                    field_failed::<String>(left1, "creator"@, e)
                } else if !required_ok::<GroupId>(left2, "id"@) {
                    required_err::<GroupId>(left2, "id"@, e)
                } else if !optional_ok::<bool>(left3, "is_archived"@) {
                    field_failed::<bool>(left3, "is_archived"@, e)
                } else if !optional_ok::<bool>(left4, "is_group"@) {
                    field_failed::<bool>(left4, "is_group"@, e)
                } else if !optional_ok::<bool>(left5, "is_mpim"@) {
                    field_failed::<bool>(left5, "is_mpim"@, e)
                } else if !optional_ok::<Timestamp>(left6, "last_read"@) {
                    field_failed::<Timestamp>(left6, "last_read"@, e)
                } else if !optional_ok::<Message>(left7, "latest"@) {
                    field_failed::<Message>(left7, "latest"@, e)
                } else if !optional_ok::<Vec<String>>(left8, "members"@) {
                    field_failed::<Vec<String>>(left8, "members"@, e)
                } else if !required_ok::<String>(left9, "name"@) {
                    required_err::<String>(left9, "name"@, e)
                } else if !optional_ok::<GroupPurpose>(left10, "purpose"@) {
                    field_failed::<GroupPurpose>(left10, "purpose"@, e)
                } else if !optional_ok::<GroupTopic>(left11, "topic"@) {
                    field_failed::<GroupTopic>(left11, "topic"@, e)
                } else if !optional_ok::<i32>(left12, "unread_count"@) {
                    field_failed::<i32>(left12, "unread_count"@, e)
                } else if !optional_ok::<i32>(left13, "unread_count_display"@) {
                    field_failed::<i32>(left13, "unread_count_display"@, e)
                } else {
                    false
                }
            },
            _ => e == (DecodeError::WrongType { expected: "object" }),
        }
    }
}

impl Decode for Group {
    open spec fn accepts(v: JsonValue) -> bool {
        Group::spec_accepts(v)
    }

    open spec fn decodes_to(v: JsonValue, x: Group) -> bool {
        Group::spec_decodes_to(v, x)
    }

    open spec fn rejects_with(v: JsonValue, e: DecodeError) -> bool {
        Group::spec_rejects_with(v, e)
    }

    fn decode(v: JsonValue) -> Result<Group, DecodeError> {
        proof {
            reveal(Group::spec_accepts);
            reveal(Group::spec_decodes_to);
            reveal(Group::spec_rejects_with);
        }
        let mut wire = into_fields(v)?;
        let created: Option<i32> = optional(&mut wire, "created")?;
        let creator: Option<String> = optional(&mut wire, "creator")?;
        let id: GroupId = required(&mut wire, "id")?;
        let is_archived: Option<bool> = optional(&mut wire, "is_archived")?;
        let is_group: Option<bool> = optional(&mut wire, "is_group")?;
        let is_mpim: Option<bool> = optional(&mut wire, "is_mpim")?;
        let last_read: Option<Timestamp> = optional(&mut wire, "last_read")?;
        let latest: Option<Message> = optional(&mut wire, "latest")?;
        let members: Option<Vec<String>> = optional(&mut wire, "members")?;
        let name: String = required(&mut wire, "name")?;
        let purpose: Option<GroupPurpose> = optional(&mut wire, "purpose")?;
        let topic: Option<GroupTopic> = optional(&mut wire, "topic")?;
        let unread_count: Option<i32> = optional(&mut wire, "unread_count")?;
        let unread_count_display: Option<i32> = optional(&mut wire, "unread_count_display")?;
        Ok(Group { created, creator, id, is_archived, is_group, is_mpim, last_read, latest, members, name, purpose, topic, unread_count, unread_count_display })
    }
}

#[derive(Clone, Debug, PartialEq)]
pub struct GroupPurpose {
    pub creator: Option<String>,
    pub last_set: Option<i32>,
    pub value: Option<String>,
}

impl GroupPurpose {
    /// Whether `v` decodes as the record: an object whose fields read in order.
    #[verifier::opaque]
    pub open spec fn spec_accepts(v: JsonValue) -> bool {
        match v {
            JsonValue::Object(w) => {
                let left0 = w@;
                let left1 = taken(left0, "creator"@);
                let left2 = taken(left1, "last_set"@);
                &&& optional_ok::<String>(left0, "creator"@)
                &&& optional_ok::<i32>(left1, "last_set"@)
                &&& optional_ok::<String>(left2, "value"@)
            },
            _ => false,
        }
    }

    /// Whether `x` holds what the fields of `v` read as.
    #[verifier::opaque]
    pub open spec fn spec_decodes_to(v: JsonValue, x: GroupPurpose) -> bool {
        match v {
            JsonValue::Object(w) => {
                let left0 = w@;
                let left1 = taken(left0, "creator"@);
                let left2 = taken(left1, "last_set"@);
                &&& optional_value::<String>(left0, "creator"@, x.creator)
                &&& optional_value::<i32>(left1, "last_set"@, x.last_set)
                &&& optional_value::<String>(left2, "value"@, x.value)
            },
            _ => false,
        }
    }

    /// Whether `e` is the error of the first check or field that fails on `v`.
    #[verifier::opaque]
    pub open spec fn spec_rejects_with(v: JsonValue, e: DecodeError) -> bool {
        match v {
            JsonValue::Object(w) => {
                let left0 = w@;
                let left1 = taken(left0, "creator"@);
                let left2 = taken(left1, "last_set"@);
                if !optional_ok::<String>(left0, "creator"@) {
                    field_failed::<String>(left0, "creator"@, e)
                } else if !optional_ok::<i32>(left1, "last_set"@) {
                    field_failed::<i32>(left1, "last_set"@, e)
                } else if !optional_ok::<String>(left2, "value"@) {
                    field_failed::<String>(left2, "value"@, e)
                } else {
                    false
                }
            },
            _ => e == (DecodeError::WrongType { expected: "object" }),
        }
    }
}

impl Decode for GroupPurpose {
    open spec fn accepts(v: JsonValue) -> bool {
        GroupPurpose::spec_accepts(v)
    }

    open spec fn decodes_to(v: JsonValue, x: GroupPurpose) -> bool {
        GroupPurpose::spec_decodes_to(v, x)
    }

    open spec fn rejects_with(v: JsonValue, e: DecodeError) -> bool {
        GroupPurpose::spec_rejects_with(v, e)
    }

    fn decode(v: JsonValue) -> Result<GroupPurpose, DecodeError> {
        proof {
            reveal(GroupPurpose::spec_accepts);
            reveal(GroupPurpose::spec_decodes_to);
            reveal(GroupPurpose::spec_rejects_with);
        }
        let mut wire = into_fields(v)?;
        let creator: Option<String> = optional(&mut wire, "creator")?;
        let last_set: Option<i32> = optional(&mut wire, "last_set")?;
        let value: Option<String> = optional(&mut wire, "value")?;
        Ok(GroupPurpose { creator, last_set, value })
    }
}

#[derive(Clone, Debug, PartialEq)]
pub struct GroupTopic {
    pub creator: Option<String>,
    pub last_set: Option<i32>,
    pub value: Option<String>,
}

impl GroupTopic {
    /// Whether `v` decodes as the record: an object whose fields read in order.
    #[verifier::opaque]
    pub open spec fn spec_accepts(v: JsonValue) -> bool {
        match v {
            JsonValue::Object(w) => {
                let left0 = w@;
                let left1 = taken(left0, "creator"@);
                let left2 = taken(left1, "last_set"@);
                &&& optional_ok::<String>(left0, "creator"@)
                &&& optional_ok::<i32>(left1, "last_set"@)
                &&& optional_ok::<String>(left2, "value"@)
            },
            _ => false,
        }
    }

    /// Whether `x` holds what the fields of `v` read as.
    #[verifier::opaque]
    pub open spec fn spec_decodes_to(v: JsonValue, x: GroupTopic) -> bool {
        match v {
            JsonValue::Object(w) => {
                let left0 = w@;
                let left1 = taken(left0, "creator"@);
                let left2 = taken(left1, "last_set"@);
                &&& optional_value::<String>(left0, "creator"@, x.creator)
                &&& optional_value::<i32>(left1, "last_set"@, x.last_set)
                &&& optional_value::<String>(left2, "value"@, x.value)
            },
            _ => false,
        }
    }

    /// Whether `e` is the error of the first check or field that fails on `v`.
    #[verifier::opaque]
    pub open spec fn spec_rejects_with(v: JsonValue, e: DecodeError) -> bool {
        match v {
            JsonValue::Object(w) => {
                let left0 = w@;
                let left1 = taken(left0, "creator"@);
                let left2 = taken(left1, "last_set"@);
                if !optional_ok::<String>(left0, "creator"@) {
                    field_failed::<String>(left0, "creator"@, e)
                } else if !optional_ok::<i32>(left1, "last_set"@) {
                    field_failed::<i32>(left1, "last_set"@, e)
                } else if !optional_ok::<String>(left2, "value"@) {
                    field_failed::<String>(left2, "value"@, e)
                } else {
                    false
                }
            },
            _ => e == (DecodeError::WrongType { expected: "object" }),
        }
    }
}

impl Decode for GroupTopic {
    open spec fn accepts(v: JsonValue) -> bool {
        GroupTopic::spec_accepts(v)
    }

    open spec fn decodes_to(v: JsonValue, x: GroupTopic) -> bool {
        GroupTopic::spec_decodes_to(v, x)
    }

    open spec fn rejects_with(v: JsonValue, e: DecodeError) -> bool {
        GroupTopic::spec_rejects_with(v, e)
    }

    fn decode(v: JsonValue) -> Result<GroupTopic, DecodeError> {
        proof {
            reveal(GroupTopic::spec_accepts);
            reveal(GroupTopic::spec_decodes_to);
            reveal(GroupTopic::spec_rejects_with);
        }
        let mut wire = into_fields(v)?;
        let creator: Option<String> = optional(&mut wire, "creator")?;
        let last_set: Option<i32> = optional(&mut wire, "last_set")?;
        let value: Option<String> = optional(&mut wire, "value")?;
        Ok(GroupTopic { creator, last_set, value })
    }
}

#[derive(Clone, Debug, PartialEq)]
pub struct Im {
    pub created: Option<i32>,
    pub id: Option<String>,
    pub is_im: Option<bool>,
    pub is_user_deleted: Option<bool>,
    pub user: Option<UserId>,
}

impl Im {
    /// Whether `v` decodes as the record: an object whose fields read in order.
    #[verifier::opaque]
    pub open spec fn spec_accepts(v: JsonValue) -> bool {
        match v {
            JsonValue::Object(w) => {
                let left0 = w@;
                let left1 = taken(left0, "created"@);
                let left2 = taken(left1, "id"@);
                let left3 = taken(left2, "is_im"@);
                let left4 = taken(left3, "is_user_deleted"@);
                &&& optional_ok::<i32>(left0, "created"@)
                &&& optional_ok::<String>(left1, "id"@)
                &&& optional_ok::<bool>(left2, "is_im"@)
                &&& optional_ok::<bool>(left3, "is_user_deleted"@)
                &&& optional_ok::<UserId>(left4, "user"@)
            },
            _ => false,
        }
    }

    /// Whether `x` holds what the fields of `v` read as.
    #[verifier::opaque]
    pub open spec fn spec_decodes_to(v: JsonValue, x: Im) -> bool {
        match v {
            JsonValue::Object(w) => {
                let left0 = w@;
                let left1 = taken(left0, "created"@);
                let left2 = taken(left1, "id"@);
                let left3 = taken(left2, "is_im"@);
                let left4 = taken(left3, "is_user_deleted"@);
                &&& optional_value::<i32>(left0, "created"@, x.created)
                &&& optional_value::<String>(left1, "id"@, x.id)
                &&& optional_value::<bool>(left2, "is_im"@, x.is_im)
                &&& optional_value::<bool>(left3, "is_user_deleted"@, x.is_user_deleted)
                &&& optional_value::<UserId>(left4, "user"@, x.user)
            },
            _ => false,
        }
    }

    /// Whether `e` is the error of the first check or field that fails on `v`.
    #[verifier::opaque]
    pub open spec fn spec_rejects_with(v: JsonValue, e: DecodeError) -> bool {
        match v {
            JsonValue::Object(w) => {
                let left0 = w@;
                let left1 = taken(left0, "created"@);
                let left2 = taken(left1, "id"@);
                let left3 = taken(left2, "is_im"@);
                let left4 = taken(left3, "is_user_deleted"@);
                if !optional_ok::<i32>(left0, "created"@) {
                    field_failed::<i32>(left0, "created"@, e)
                } else if !optional_ok::<String>(left1, "id"@) {
                    field_failed::<String>(left1, "id"@, e)
                } else if !optional_ok::<bool>(left2, "is_im"@) {
                    field_failed::<bool>(left2, "is_im"@, e)
                } else if !optional_ok::<bool>(left3, "is_user_deleted"@) {
                    field_failed::<bool>(left3, "is_user_deleted"@, e)
                } else if !optional_ok::<UserId>(left4, "user"@) {
                    field_failed::<UserId>(left4, "user"@, e)
                } else {
                    false
                }
            },
            _ => e == (DecodeError::WrongType { expected: "object" }),
        }
    }
}

impl Decode for Im {
    open spec fn accepts(v: JsonValue) -> bool {
        Im::spec_accepts(v)
    }

    open spec fn decodes_to(v: JsonValue, x: Im) -> bool {
        Im::spec_decodes_to(v, x)
    }

    open spec fn rejects_with(v: JsonValue, e: DecodeError) -> bool {
        Im::spec_rejects_with(v, e)
    }

    fn decode(v: JsonValue) -> Result<Im, DecodeError> {
        proof {
            reveal(Im::spec_accepts);
            reveal(Im::spec_decodes_to);
            reveal(Im::spec_rejects_with);
        }
        let mut wire = into_fields(v)?;
        let created: Option<i32> = optional(&mut wire, "created")?;
        let id: Option<String> = optional(&mut wire, "id")?;
        let is_im: Option<bool> = optional(&mut wire, "is_im")?;
        let is_user_deleted: Option<bool> = optional(&mut wire, "is_user_deleted")?;
        let user: Option<UserId> = optional(&mut wire, "user")?;
        Ok(Im { created, id, is_im, is_user_deleted, user })
    }
}

#[derive(Clone, Debug, PartialEq)]
pub struct EventFileChange {
    pub file_id: FileId,
    pub user_id: UserId,
    pub file: JustAFileId,
    pub event_ts: Timestamp,
}

impl EventFileChange {
    /// The fields the record declares; it admits no others.
    pub open spec fn declared_fields() -> Seq<&'static str> {
        seq!["file_id", "user_id", "file", "event_ts"]
    }
}

impl EventFileChange {
    /// Whether `v` decodes as the record: an object whose fields read in order.
    #[verifier::opaque]
    pub open spec fn spec_accepts(v: JsonValue) -> bool {
        match v {
            JsonValue::Object(w) => {
                let left0 = w@;
                let left1 = taken(left0, "file_id"@);
                let left2 = taken(left1, "user_id"@);
                let left3 = taken(left2, "file"@);
                &&& all_known(left0, EventFileChange::declared_fields())
                &&& required_ok::<FileId>(left0, "file_id"@)
                &&& required_ok::<UserId>(left1, "user_id"@)
                &&& required_ok::<JustAFileId>(left2, "file"@)
                &&& required_ok::<Timestamp>(left3, "event_ts"@)
            },
            _ => false,
        }
    }

    /// Whether `x` holds what the fields of `v` read as.
    #[verifier::opaque]
    pub open spec fn spec_decodes_to(v: JsonValue, x: EventFileChange) -> bool {
        match v {
            JsonValue::Object(w) => {
                let left0 = w@;
                let left1 = taken(left0, "file_id"@);
                let left2 = taken(left1, "user_id"@);
                let left3 = taken(left2, "file"@);
                &&& <FileId as Decode>::decodes_to(value_of(left0, "file_id"@), x.file_id)
                &&& <UserId as Decode>::decodes_to(value_of(left1, "user_id"@), x.user_id)
                &&& <JustAFileId as Decode>::decodes_to(value_of(left2, "file"@), x.file)
                &&& <Timestamp as Decode>::decodes_to(value_of(left3, "event_ts"@), x.event_ts)
            },
            _ => false,
        }
    }

    /// Whether `e` is the error of the first check or field that fails on `v`.
    #[verifier::opaque]
    pub open spec fn spec_rejects_with(v: JsonValue, e: DecodeError) -> bool {
        match v {
            JsonValue::Object(w) => {
                let left0 = w@;
                let left1 = taken(left0, "file_id"@);
                let left2 = taken(left1, "user_id"@);
                let left3 = taken(left2, "file"@);
                if !all_known(left0, EventFileChange::declared_fields()) {
                    e == (DecodeError::UnknownField { field: first_unknown_key(left0, EventFileChange::declared_fields()) })
                } else if !required_ok::<FileId>(left0, "file_id"@) {
                    required_err::<FileId>(left0, "file_id"@, e)
                } else if !required_ok::<UserId>(left1, "user_id"@) {
                    required_err::<UserId>(left1, "user_id"@, e)
                } else if !required_ok::<JustAFileId>(left2, "file"@) {
                    required_err::<JustAFileId>(left2, "file"@, e)
                } else if !required_ok::<Timestamp>(left3, "event_ts"@) {
                    required_err::<Timestamp>(left3, "event_ts"@, e)
                } else {
                    false
                }
            },
            _ => e == (DecodeError::WrongType { expected: "object" }),
        }
    }
}

impl Decode for EventFileChange {
    open spec fn accepts(v: JsonValue) -> bool {
        EventFileChange::spec_accepts(v)
    }

    open spec fn decodes_to(v: JsonValue, x: EventFileChange) -> bool {
        EventFileChange::spec_decodes_to(v, x)
    }

    open spec fn rejects_with(v: JsonValue, e: DecodeError) -> bool {
        EventFileChange::spec_rejects_with(v, e)
    }

    fn decode(v: JsonValue) -> Result<EventFileChange, DecodeError> {
        proof {
            reveal(EventFileChange::spec_accepts);
            reveal(EventFileChange::spec_decodes_to);
            reveal(EventFileChange::spec_rejects_with);
        }
        let mut wire = into_fields(v)?;
        let known: &[&str] = &["file_id", "user_id", "file", "event_ts"];
        assert(known@ =~= EventFileChange::declared_fields());
        check_fields(&wire, known)?;
        let file_id: FileId = required(&mut wire, "file_id")?;
        let user_id: UserId = required(&mut wire, "user_id")?;
        let file: JustAFileId = required(&mut wire, "file")?;
        let event_ts: Timestamp = required(&mut wire, "event_ts")?;
        Ok(EventFileChange { file_id, user_id, file, event_ts })
    }
}

#[derive(Clone, Debug, PartialEq)]
pub struct EventPinAdded {
    user: UserId,
    channel_id: ConversationId,
    item: Message,
    item_user: UserId,
    pin_count: i32,
    pinned_info: PinnedInfo,
    event_ts: Timestamp,
    ts: Option<Timestamp>,
}

impl EventPinAdded {
    /// The fields the record declares; it admits no others.
    pub open spec fn declared_fields() -> Seq<&'static str> {
        seq!["user", "channel_id", "item", "item_user", "pin_count", "pinned_info", "event_ts", "ts"]
    }
}

impl EventPinAdded {
    /// Whether `v` decodes as the record: an object whose fields read in order.
    #[verifier::opaque]
    pub open spec fn spec_accepts(v: JsonValue) -> bool {
        match v {
            JsonValue::Object(w) => {
                let left0 = w@;
                let left1 = taken(left0, "user"@);
                let left2 = taken(left1, "channel_id"@);
                let left3 = taken(left2, "item"@);
                let left4 = taken(left3, "item_user"@);
                let left5 = taken(left4, "pin_count"@);
                let left6 = taken(left5, "pinned_info"@);
                let left7 = taken(left6, "event_ts"@);
                &&& all_known(left0, EventPinAdded::declared_fields())
                &&& required_ok::<UserId>(left0, "user"@)
                &&& required_ok::<ConversationId>(left1, "channel_id"@)
                &&& required_ok::<Message>(left2, "item"@)
                &&& required_ok::<UserId>(left3, "item_user"@)
                &&& required_ok::<i32>(left4, "pin_count"@)
                &&& required_ok::<PinnedInfo>(left5, "pinned_info"@)
                &&& required_ok::<Timestamp>(left6, "event_ts"@)
                &&& optional_ok::<Timestamp>(left7, "ts"@)
            },
            _ => false,
        }
    }

    /// Whether `x` holds what the fields of `v` read as.
    #[verifier::opaque]
    pub closed spec fn spec_decodes_to(v: JsonValue, x: EventPinAdded) -> bool {
        match v {
            JsonValue::Object(w) => {
                let left0 = w@;
                let left1 = taken(left0, "user"@);
                let left2 = taken(left1, "channel_id"@);
                let left3 = taken(left2, "item"@);
                let left4 = taken(left3, "item_user"@);
                let left5 = taken(left4, "pin_count"@);
                let left6 = taken(left5, "pinned_info"@);
                let left7 = taken(left6, "event_ts"@);
                &&& <UserId as Decode>::decodes_to(value_of(left0, "user"@), x.user)
                &&& <ConversationId as Decode>::decodes_to(value_of(left1, "channel_id"@), x.channel_id)
                &&& <Message as Decode>::decodes_to(value_of(left2, "item"@), x.item)
                &&& <UserId as Decode>::decodes_to(value_of(left3, "item_user"@), x.item_user)
                &&& <i32 as Decode>::decodes_to(value_of(left4, "pin_count"@), x.pin_count)
                &&& <PinnedInfo as Decode>::decodes_to(value_of(left5, "pinned_info"@), x.pinned_info)
                &&& <Timestamp as Decode>::decodes_to(value_of(left6, "event_ts"@), x.event_ts)
                &&& optional_value::<Timestamp>(left7, "ts"@, x.ts)
            },
            _ => false,
        }
    }

    /// Whether `e` is the error of the first check or field that fails on `v`.
    #[verifier::opaque]
    pub open spec fn spec_rejects_with(v: JsonValue, e: DecodeError) -> bool {
        match v {
            JsonValue::Object(w) => {
                let left0 = w@;
                let left1 = taken(left0, "user"@);
                let left2 = taken(left1, "channel_id"@);
                let left3 = taken(left2, "item"@);
                let left4 = taken(left3, "item_user"@);
                let left5 = taken(left4, "pin_count"@);
                let left6 = taken(left5, "pinned_info"@);
                let left7 = taken(left6, "event_ts"@);
                if !all_known(left0, EventPinAdded::declared_fields()) {
                    e == (DecodeError::UnknownField { field: first_unknown_key(left0, EventPinAdded::declared_fields()) })
                } else if !required_ok::<UserId>(left0, "user"@) {
                    required_err::<UserId>(left0, "user"@, e)
                } else if !required_ok::<ConversationId>(left1, "channel_id"@) {
                    required_err::<ConversationId>(left1, "channel_id"@, e)
                } else if !required_ok::<Message>(left2, "item"@) {
                    required_err::<Message>(left2, "item"@, e)
                } else if !required_ok::<UserId>(left3, "item_user"@) {
                    required_err::<UserId>(left3, "item_user"@, e)
                } else if !required_ok::<i32>(left4, "pin_count"@) {
                    required_err::<i32>(left4, "pin_count"@, e)
                } else if !required_ok::<PinnedInfo>(left5, "pinned_info"@) {
                    required_err::<PinnedInfo>(left5, "pinned_info"@, e)
                } else if !required_ok::<Timestamp>(left6, "event_ts"@) {
                    required_err::<Timestamp>(left6, "event_ts"@, e)
                } else if !optional_ok::<Timestamp>(left7, "ts"@) {
                    field_failed::<Timestamp>(left7, "ts"@, e)
                } else {
                    false
                }
            },
            _ => e == (DecodeError::WrongType { expected: "object" }),
        }
    }
}

impl Decode for EventPinAdded {
    open spec fn accepts(v: JsonValue) -> bool {
        EventPinAdded::spec_accepts(v)
    }

    open spec fn decodes_to(v: JsonValue, x: EventPinAdded) -> bool {
        EventPinAdded::spec_decodes_to(v, x)
    }

    open spec fn rejects_with(v: JsonValue, e: DecodeError) -> bool {
        EventPinAdded::spec_rejects_with(v, e)
    }

    fn decode(v: JsonValue) -> Result<EventPinAdded, DecodeError> {
        proof {
            reveal(EventPinAdded::spec_accepts);
            reveal(EventPinAdded::spec_decodes_to);
            reveal(EventPinAdded::spec_rejects_with);
        }
        let mut wire = into_fields(v)?;
        let known: &[&str] = &["user", "channel_id", "item", "item_user", "pin_count", "pinned_info", "event_ts", "ts"];
        assert(known@ =~= EventPinAdded::declared_fields());
        check_fields(&wire, known)?;
        let user: UserId = required(&mut wire, "user")?;
        let channel_id: ConversationId = required(&mut wire, "channel_id")?;
        let item: Message = required(&mut wire, "item")?;
        let item_user: UserId = required(&mut wire, "item_user")?;
        let pin_count: i32 = required(&mut wire, "pin_count")?;
        let pinned_info: PinnedInfo = required(&mut wire, "pinned_info")?;
        let event_ts: Timestamp = required(&mut wire, "event_ts")?;
        let ts: Option<Timestamp> = optional(&mut wire, "ts")?;
        Ok(EventPinAdded { user, channel_id, item, item_user, pin_count, pinned_info, event_ts, ts })
    }
}

#[derive(Clone, Debug, PartialEq)]
pub struct PinnedInfo {
    channel: ConversationId,
    pinned_by: UserId,
    pinned_ts: Timestamp,
    event_ts: Timestamp,
    ts: Option<Timestamp>,
}

impl PinnedInfo {
    /// The fields the record declares; it admits no others.
    pub open spec fn declared_fields() -> Seq<&'static str> {
        seq!["channel", "pinned_by", "pinned_ts", "event_ts", "ts"]
    }
}

impl PinnedInfo {
    /// Whether `v` decodes as the record: an object whose fields read in order.
    #[verifier::opaque]
    pub open spec fn spec_accepts(v: JsonValue) -> bool {
        match v {
            JsonValue::Object(w) => {
                let left0 = w@;
                let left1 = taken(left0, "channel"@);
                let left2 = taken(left1, "pinned_by"@);
                let left3 = taken(left2, "pinned_ts"@);
                let left4 = taken(left3, "event_ts"@);
                &&& all_known(left0, PinnedInfo::declared_fields())
                &&& required_ok::<ConversationId>(left0, "channel"@)
                &&& required_ok::<UserId>(left1, "pinned_by"@)
                &&& required_ok::<Timestamp>(left2, "pinned_ts"@)
                &&& required_ok::<Timestamp>(left3, "event_ts"@)
                &&& optional_ok::<Timestamp>(left4, "ts"@)
            },
            _ => false,
        }
    }

    /// Whether `x` holds what the fields of `v` read as.
    #[verifier::opaque]
    pub closed spec fn spec_decodes_to(v: JsonValue, x: PinnedInfo) -> bool {
        match v {
            JsonValue::Object(w) => {
                let left0 = w@;
                let left1 = taken(left0, "channel"@);
                let left2 = taken(left1, "pinned_by"@);
                let left3 = taken(left2, "pinned_ts"@);
                let left4 = taken(left3, "event_ts"@);
                &&& <ConversationId as Decode>::decodes_to(value_of(left0, "channel"@), x.channel)
                &&& <UserId as Decode>::decodes_to(value_of(left1, "pinned_by"@), x.pinned_by)
                &&& <Timestamp as Decode>::decodes_to(value_of(left2, "pinned_ts"@), x.pinned_ts)
                &&& <Timestamp as Decode>::decodes_to(value_of(left3, "event_ts"@), x.event_ts)
                &&& optional_value::<Timestamp>(left4, "ts"@, x.ts)
            },
            _ => false,
        }
    }

    /// Whether `e` is the error of the first check or field that fails on `v`.
    #[verifier::opaque]
    pub open spec fn spec_rejects_with(v: JsonValue, e: DecodeError) -> bool {
        match v {
            JsonValue::Object(w) => {
                let left0 = w@;
                let left1 = taken(left0, "channel"@);
                let left2 = taken(left1, "pinned_by"@);
                let left3 = taken(left2, "pinned_ts"@);
                let left4 = taken(left3, "event_ts"@);
                if !all_known(left0, PinnedInfo::declared_fields()) {
                    e == (DecodeError::UnknownField { field: first_unknown_key(left0, PinnedInfo::declared_fields()) })
                } else if !required_ok::<ConversationId>(left0, "channel"@) {
                    required_err::<ConversationId>(left0, "channel"@, e)
                } else if !required_ok::<UserId>(left1, "pinned_by"@) {
                    required_err::<UserId>(left1, "pinned_by"@, e)
                } else if !required_ok::<Timestamp>(left2, "pinned_ts"@) {
                    required_err::<Timestamp>(left2, "pinned_ts"@, e)
                } else if !required_ok::<Timestamp>(left3, "event_ts"@) {
                    required_err::<Timestamp>(left3, "event_ts"@, e)
                } else if !optional_ok::<Timestamp>(left4, "ts"@) {
                    field_failed::<Timestamp>(left4, "ts"@, e)
                } else {
                    false
                }
            },
            _ => e == (DecodeError::WrongType { expected: "object" }),
        }
    }
}

impl Decode for PinnedInfo {
    open spec fn accepts(v: JsonValue) -> bool {
        PinnedInfo::spec_accepts(v)
    }

    open spec fn decodes_to(v: JsonValue, x: PinnedInfo) -> bool {
        PinnedInfo::spec_decodes_to(v, x)
    }

    open spec fn rejects_with(v: JsonValue, e: DecodeError) -> bool {
        PinnedInfo::spec_rejects_with(v, e)
    }

    fn decode(v: JsonValue) -> Result<PinnedInfo, DecodeError> {
        proof {
            reveal(PinnedInfo::spec_accepts);
            reveal(PinnedInfo::spec_decodes_to);
            reveal(PinnedInfo::spec_rejects_with);
        }
        let mut wire = into_fields(v)?;
        let known: &[&str] = &["channel", "pinned_by", "pinned_ts", "event_ts", "ts"];
        assert(known@ =~= PinnedInfo::declared_fields());
        check_fields(&wire, known)?;
        let channel: ConversationId = required(&mut wire, "channel")?;
        let pinned_by: UserId = required(&mut wire, "pinned_by")?;
        let pinned_ts: Timestamp = required(&mut wire, "pinned_ts")?;
        let event_ts: Timestamp = required(&mut wire, "event_ts")?;
        let ts: Option<Timestamp> = optional(&mut wire, "ts")?;
        Ok(PinnedInfo { channel, pinned_by, pinned_ts, event_ts, ts })
    }
}

#[derive(Clone, Debug, PartialEq)]
pub struct EventHello {}

impl EventHello {
    /// The fields the record declares; it admits no others.
    pub open spec fn declared_fields() -> Seq<&'static str> {
        seq![]
    }
}

impl EventHello {
    /// Whether `v` decodes as the record: an object whose fields read in order.
    #[verifier::opaque]
    pub open spec fn spec_accepts(v: JsonValue) -> bool {
        match v {
            JsonValue::Object(w) => {
                let left0 = w@;
                &&& all_known(left0, EventHello::declared_fields())
            },
            _ => false,
        }
    }

    /// Whether `x` holds what the fields of `v` read as.
    #[verifier::opaque]
    pub open spec fn spec_decodes_to(v: JsonValue, x: EventHello) -> bool {
        match v {
            JsonValue::Object(w) => {
                let left0 = w@;
                &&& true
            },
            _ => false,
        }
    }

    /// Whether `e` is the error of the first check or field that fails on `v`.
    #[verifier::opaque]
    pub open spec fn spec_rejects_with(v: JsonValue, e: DecodeError) -> bool {
        match v {
            JsonValue::Object(w) => {
                let left0 = w@;
                if !all_known(left0, EventHello::declared_fields()) {
                    e == (DecodeError::UnknownField { field: first_unknown_key(left0, EventHello::declared_fields()) })
                } else {
                    false
                }
            },
            _ => e == (DecodeError::WrongType { expected: "object" }),
        }
    }
}

impl Decode for EventHello {
    open spec fn accepts(v: JsonValue) -> bool {
        EventHello::spec_accepts(v)
    }

    open spec fn decodes_to(v: JsonValue, x: EventHello) -> bool {
        EventHello::spec_decodes_to(v, x)
    }

    open spec fn rejects_with(v: JsonValue, e: DecodeError) -> bool {
        EventHello::spec_rejects_with(v, e)
    }

    fn decode(v: JsonValue) -> Result<EventHello, DecodeError> {
        proof {
            reveal(EventHello::spec_accepts);
            reveal(EventHello::spec_decodes_to);
            reveal(EventHello::spec_rejects_with);
        }
        let wire = into_fields(v)?;
        let known: &[&str] = &[];
        assert(known@ =~= EventHello::declared_fields());
        check_fields(&wire, known)?;
        Ok(EventHello {})
    }
}

#[derive(Clone, Debug, PartialEq)]
pub struct EventAppsChanged {
    pub app: App,
    pub event_ts: Timestamp,
}

impl EventAppsChanged {
    /// The fields the record declares; it admits no others.
    pub open spec fn declared_fields() -> Seq<&'static str> {
        seq!["app", "event_ts"]
    }
}

impl EventAppsChanged {
    /// Whether `v` decodes as the record: an object whose fields read in order.
    #[verifier::opaque]
    pub open spec fn spec_accepts(v: JsonValue) -> bool {
        match v {
            JsonValue::Object(w) => {
                let left0 = w@;
                let left1 = taken(left0, "app"@);
                &&& all_known(left0, EventAppsChanged::declared_fields())
                &&& required_ok::<App>(left0, "app"@)
                &&& required_ok::<Timestamp>(left1, "event_ts"@)
            },
            _ => false,
        }
    }

    /// Whether `x` holds what the fields of `v` read as.
    #[verifier::opaque]
    pub open spec fn spec_decodes_to(v: JsonValue, x: EventAppsChanged) -> bool {
        match v {
            JsonValue::Object(w) => {
                let left0 = w@;
                let left1 = taken(left0, "app"@);
                &&& <App as Decode>::decodes_to(value_of(left0, "app"@), x.app)
                &&& <Timestamp as Decode>::decodes_to(value_of(left1, "event_ts"@), x.event_ts)
            },
            _ => false,
        }
    }

    /// Whether `e` is the error of the first check or field that fails on `v`.
    #[verifier::opaque]
    pub open spec fn spec_rejects_with(v: JsonValue, e: DecodeError) -> bool {
        match v {
            JsonValue::Object(w) => {
                let left0 = w@;
                let left1 = taken(left0, "app"@);
                if !all_known(left0, EventAppsChanged::declared_fields()) {
                    e == (DecodeError::UnknownField { field: first_unknown_key(left0, EventAppsChanged::declared_fields()) })
                } else if !required_ok::<App>(left0, "app"@) {
                    required_err::<App>(left0, "app"@, e)
                } else if !required_ok::<Timestamp>(left1, "event_ts"@) {
                    required_err::<Timestamp>(left1, "event_ts"@, e)
                } else {
                    false
                }
            },
            _ => e == (DecodeError::WrongType { expected: "object" }),
        }
    }
}

impl Decode for EventAppsChanged {
    open spec fn accepts(v: JsonValue) -> bool {
        EventAppsChanged::spec_accepts(v)
    }

    open spec fn decodes_to(v: JsonValue, x: EventAppsChanged) -> bool {
        EventAppsChanged::spec_decodes_to(v, x)
    }

    open spec fn rejects_with(v: JsonValue, e: DecodeError) -> bool {
        EventAppsChanged::spec_rejects_with(v, e)
    }

    fn decode(v: JsonValue) -> Result<EventAppsChanged, DecodeError> {
        proof {
            reveal(EventAppsChanged::spec_accepts);
            reveal(EventAppsChanged::spec_decodes_to);
            reveal(EventAppsChanged::spec_rejects_with);
        }
        let mut wire = into_fields(v)?;
        let known: &[&str] = &["app", "event_ts"];
        assert(known@ =~= EventAppsChanged::declared_fields());
        check_fields(&wire, known)?;
        let app: App = required(&mut wire, "app")?;
        let event_ts: Timestamp = required(&mut wire, "event_ts")?;
        Ok(EventAppsChanged { app, event_ts })
    }
}

#[derive(Clone, Debug, PartialEq)]
pub struct App {
    pub id: AppId,
    pub name: String,
    pub icons: Option<AppIcons>,
    pub deleted: Option<bool>,
}

impl App {
    /// The fields the record declares; it admits no others.
    pub open spec fn declared_fields() -> Seq<&'static str> {
        seq!["id", "name", "icons", "deleted"]
    }
}

impl App {
    /// Whether `v` decodes as the record: an object whose fields read in order.
    #[verifier::opaque]
    pub open spec fn spec_accepts(v: JsonValue) -> bool {
        match v {
            JsonValue::Object(w) => {
                let left0 = w@;
                let left1 = taken(left0, "id"@);
                let left2 = taken(left1, "name"@);
                let left3 = taken(left2, "icons"@);
                &&& all_known(left0, App::declared_fields())
                &&& required_ok::<AppId>(left0, "id"@)
                &&& required_ok::<String>(left1, "name"@)
                &&& optional_ok::<AppIcons>(left2, "icons"@)
                &&& optional_ok::<bool>(left3, "deleted"@)
            },
            _ => false,
        }
    }

    /// Whether `x` holds what the fields of `v` read as.
    #[verifier::opaque]
    pub open spec fn spec_decodes_to(v: JsonValue, x: App) -> bool {
        match v {
            JsonValue::Object(w) => {
                let left0 = w@;
                let left1 = taken(left0, "id"@);
                let left2 = taken(left1, "name"@);
                let left3 = taken(left2, "icons"@);
                &&& <AppId as Decode>::decodes_to(value_of(left0, "id"@), x.id)
                &&& <String as Decode>::decodes_to(value_of(left1, "name"@), x.name)
                &&& optional_value::<AppIcons>(left2, "icons"@, x.icons)
                &&& optional_value::<bool>(left3, "deleted"@, x.deleted)
            },
            _ => false,
        }
    }

    /// Whether `e` is the error of the first check or field that fails on `v`.
    #[verifier::opaque]
    pub open spec fn spec_rejects_with(v: JsonValue, e: DecodeError) -> bool {
        match v {
            JsonValue::Object(w) => {
                let left0 = w@;
                let left1 = taken(left0, "id"@);
                let left2 = taken(left1, "name"@);
                let left3 = taken(left2, "icons"@);
                if !all_known(left0, App::declared_fields()) {
                    e == (DecodeError::UnknownField { field: first_unknown_key(left0, App::declared_fields()) })
                } else if !required_ok::<AppId>(left0, "id"@) {
                    required_err::<AppId>(left0, "id"@, e)
                } else if !required_ok::<String>(left1, "name"@) {
                    required_err::<String>(left1, "name"@, e)
                } else if !optional_ok::<AppIcons>(left2, "icons"@) {
                    field_failed::<AppIcons>(left2, "icons"@, e)
                } else if !optional_ok::<bool>(left3, "deleted"@) {
                    field_failed::<bool>(left3, "deleted"@, e)
                } else {
                    false
                }
            },
            _ => e == (DecodeError::WrongType { expected: "object" }),
        }
    }
}

impl Decode for App {
    open spec fn accepts(v: JsonValue) -> bool {
        App::spec_accepts(v)
    }

    open spec fn decodes_to(v: JsonValue, x: App) -> bool {
        App::spec_decodes_to(v, x)
    }

    open spec fn rejects_with(v: JsonValue, e: DecodeError) -> bool {
        App::spec_rejects_with(v, e)
    }

    fn decode(v: JsonValue) -> Result<App, DecodeError> {
        proof {
            reveal(App::spec_accepts);
            reveal(App::spec_decodes_to);
            reveal(App::spec_rejects_with);
        }
        let mut wire = into_fields(v)?;
        let known: &[&str] = &["id", "name", "icons", "deleted"];
        assert(known@ =~= App::declared_fields());
        check_fields(&wire, known)?;
        let id: AppId = required(&mut wire, "id")?;
        let name: String = required(&mut wire, "name")?;
        let icons: Option<AppIcons> = optional(&mut wire, "icons")?;
        let deleted: Option<bool> = optional(&mut wire, "deleted")?;
        Ok(App { id, name, icons, deleted })
    }
}

#[derive(Clone, Debug, PartialEq)]
pub struct AppIcons {
    pub image_32: Option<String>,
    pub image_36: Option<String>,
    pub image_48: Option<String>,
    pub image_64: Option<String>,
    pub image_72: Option<String>,
    pub image_96: Option<String>,
    pub image_128: Option<String>,
    pub image_192: Option<String>,
    pub image_512: Option<String>,
    pub image_1024: Option<String>,
}

impl AppIcons {
    /// The fields the record declares; it admits no others.
    pub open spec fn declared_fields() -> Seq<&'static str> {
        seq!["image_32", "image_36", "image_48", "image_64", "image_72", "image_96", "image_128", "image_192", "image_512", "image_1024"]
    }
}

impl AppIcons {
    /// Whether `v` decodes as the record: an object whose fields read in order.
    #[verifier::opaque]
    pub open spec fn spec_accepts(v: JsonValue) -> bool {
        match v {
            JsonValue::Object(w) => {
                let left0 = w@;
                let left1 = taken(left0, "image_32"@);
                let left2 = taken(left1, "image_36"@);
                let left3 = taken(left2, "image_48"@);
                let left4 = taken(left3, "image_64"@);
                let left5 = taken(left4, "image_72"@);
                let left6 = taken(left5, "image_96"@);
                let left7 = taken(left6, "image_128"@);
                let left8 = taken(left7, "image_192"@);
                let left9 = taken(left8, "image_512"@);
                &&& all_known(left0, AppIcons::declared_fields())
                &&& optional_ok::<String>(left0, "image_32"@)
                &&& optional_ok::<String>(left1, "image_36"@)
                &&& optional_ok::<String>(left2, "image_48"@)
                &&& optional_ok::<String>(left3, "image_64"@)
                &&& optional_ok::<String>(left4, "image_72"@)
                &&& optional_ok::<String>(left5, "image_96"@)
                &&& optional_ok::<String>(left6, "image_128"@)
                &&& optional_ok::<String>(left7, "image_192"@)
                &&& optional_ok::<String>(left8, "image_512"@)
                &&& optional_ok::<String>(left9, "image_1024"@)
            },
            _ => false,
        }
    }

    /// Whether `x` holds what the fields of `v` read as.
    #[verifier::opaque]
    pub open spec fn spec_decodes_to(v: JsonValue, x: AppIcons) -> bool {
        match v {
            JsonValue::Object(w) => {
                let left0 = w@;
                let left1 = taken(left0, "image_32"@);
                let left2 = taken(left1, "image_36"@);
                let left3 = taken(left2, "image_48"@);
                let left4 = taken(left3, "image_64"@);
                let left5 = taken(left4, "image_72"@);
                let left6 = taken(left5, "image_96"@);
                let left7 = taken(left6, "image_128"@);
                let left8 = taken(left7, "image_192"@);
                let left9 = taken(left8, "image_512"@);
                &&& optional_value::<String>(left0, "image_32"@, x.image_32)
                &&& optional_value::<String>(left1, "image_36"@, x.image_36)
                &&& optional_value::<String>(left2, "image_48"@, x.image_48)
                &&& optional_value::<String>(left3, "image_64"@, x.image_64)
                &&& optional_value::<String>(left4, "image_72"@, x.image_72)
                &&& optional_value::<String>(left5, "image_96"@, x.image_96)
                &&& optional_value::<String>(left6, "image_128"@, x.image_128)
                &&& optional_value::<String>(left7, "image_192"@, x.image_192)
                &&& optional_value::<String>(left8, "image_512"@, x.image_512)
                &&& optional_value::<String>(left9, "image_1024"@, x.image_1024)
            },
            _ => false,
        }
    }

    /// Whether `e` is the error of the first check or field that fails on `v`.
    #[verifier::opaque]
    pub open spec fn spec_rejects_with(v: JsonValue, e: DecodeError) -> bool {
        match v {
            JsonValue::Object(w) => {
                let left0 = w@;
                let left1 = taken(left0, "image_32"@);
                let left2 = taken(left1, "image_36"@);
                let left3 = taken(left2, "image_48"@);
                let left4 = taken(left3, "image_64"@);
                let left5 = taken(left4, "image_72"@);
                let left6 = taken(left5, "image_96"@);
                let left7 = taken(left6, "image_128"@);
                let left8 = taken(left7, "image_192"@);
                let left9 = taken(left8, "image_512"@);
                if !all_known(left0, AppIcons::declared_fields()) {
                    e == (DecodeError::UnknownField { field: first_unknown_key(left0, AppIcons::declared_fields()) })
                } else if !optional_ok::<String>(left0, "image_32"@) {
                    field_failed::<String>(left0, "image_32"@, e)
                } else if !optional_ok::<String>(left1, "image_36"@) {
                    field_failed::<String>(left1, "image_36"@, e)
                } else if !optional_ok::<String>(left2, "image_48"@) {
                    field_failed::<String>(left2, "image_48"@, e)
                } else if !optional_ok::<String>(left3, "image_64"@) {
                    field_failed::<String>(left3, "image_64"@, e)
                } else if !optional_ok::<String>(left4, "image_72"@) {
                    field_failed::<String>(left4, "image_72"@, e)
                } else if !optional_ok::<String>(left5, "image_96"@) {
                    field_failed::<String>(left5, "image_96"@, e)
                } else if !optional_ok::<String>(left6, "image_128"@) {
                    field_failed::<String>(left6, "image_128"@, e)
                } else if !optional_ok::<String>(left7, "image_192"@) {
                    field_failed::<String>(left7, "image_192"@, e)
                } else if !optional_ok::<String>(left8, "image_512"@) {
                    field_failed::<String>(left8, "image_512"@, e)
                } else if !optional_ok::<String>(left9, "image_1024"@) {
                    field_failed::<String>(left9, "image_1024"@, e)
                } else {
                    false
                }
            },
            _ => e == (DecodeError::WrongType { expected: "object" }),
        }
    }
}

impl Decode for AppIcons {
    open spec fn accepts(v: JsonValue) -> bool {
        AppIcons::spec_accepts(v)
    }

    open spec fn decodes_to(v: JsonValue, x: AppIcons) -> bool {
        AppIcons::spec_decodes_to(v, x)
    }

    open spec fn rejects_with(v: JsonValue, e: DecodeError) -> bool {
        AppIcons::spec_rejects_with(v, e)
    }

    fn decode(v: JsonValue) -> Result<AppIcons, DecodeError> {
        proof {
            reveal(AppIcons::spec_accepts);
            reveal(AppIcons::spec_decodes_to);
            reveal(AppIcons::spec_rejects_with);
        }
        let mut wire = into_fields(v)?;
        let known: &[&str] = &["image_32", "image_36", "image_48", "image_64", "image_72", "image_96", "image_128", "image_192", "image_512", "image_1024"];
        assert(known@ =~= AppIcons::declared_fields());
        check_fields(&wire, known)?;
        let image_32: Option<String> = optional(&mut wire, "image_32")?;
        let image_36: Option<String> = optional(&mut wire, "image_36")?;
        let image_48: Option<String> = optional(&mut wire, "image_48")?;
        let image_64: Option<String> = optional(&mut wire, "image_64")?;
        let image_72: Option<String> = optional(&mut wire, "image_72")?;
        let image_96: Option<String> = optional(&mut wire, "image_96")?;
        let image_128: Option<String> = optional(&mut wire, "image_128")?;
        let image_192: Option<String> = optional(&mut wire, "image_192")?;
        let image_512: Option<String> = optional(&mut wire, "image_512")?;
        let image_1024: Option<String> = optional(&mut wire, "image_1024")?;
        Ok(AppIcons { image_32, image_36, image_48, image_64, image_72, image_96, image_128, image_192, image_512, image_1024 })
    }
}

#[derive(Clone, Debug, PartialEq)]
pub struct EventBotChanged {
    bot: Bot,
    cache_ts: Option<Timestamp>,
    event_ts: Timestamp,
}

impl EventBotChanged {
    /// The fields the record declares; it admits no others.
    pub open spec fn declared_fields() -> Seq<&'static str> {
        seq!["bot", "cache_ts", "event_ts"]
    }
}

impl EventBotChanged {
    /// Whether `v` decodes as the record: an object whose fields read in order.
    #[verifier::opaque]
    pub open spec fn spec_accepts(v: JsonValue) -> bool {
        match v {
            JsonValue::Object(w) => {
                let left0 = w@;
                let left1 = taken(left0, "bot"@);
                let left2 = taken(left1, "cache_ts"@);
                &&& all_known(left0, EventBotChanged::declared_fields())
                &&& required_ok::<Bot>(left0, "bot"@)
                &&& optional_ok::<Timestamp>(left1, "cache_ts"@)
                &&& required_ok::<Timestamp>(left2, "event_ts"@)
            },
            _ => false,
        }
    }

    /// Whether `x` holds what the fields of `v` read as.
    #[verifier::opaque]
    pub closed spec fn spec_decodes_to(v: JsonValue, x: EventBotChanged) -> bool {
        match v {
            JsonValue::Object(w) => {
                let left0 = w@;
                let left1 = taken(left0, "bot"@);
                let left2 = taken(left1, "cache_ts"@);
                &&& <Bot as Decode>::decodes_to(value_of(left0, "bot"@), x.bot)
                &&& optional_value::<Timestamp>(left1, "cache_ts"@, x.cache_ts)
                &&& <Timestamp as Decode>::decodes_to(value_of(left2, "event_ts"@), x.event_ts)
            },
            _ => false,
        }
    }

    /// Whether `e` is the error of the first check or field that fails on `v`.
    #[verifier::opaque]
    pub open spec fn spec_rejects_with(v: JsonValue, e: DecodeError) -> bool {
        match v {
            JsonValue::Object(w) => {
                let left0 = w@;
                let left1 = taken(left0, "bot"@);
                let left2 = taken(left1, "cache_ts"@);
                if !all_known(left0, EventBotChanged::declared_fields()) {
                    e == (DecodeError::UnknownField { field: first_unknown_key(left0, EventBotChanged::declared_fields()) })
                } else if !required_ok::<Bot>(left0, "bot"@) {
                    required_err::<Bot>(left0, "bot"@, e)
                } else if !optional_ok::<Timestamp>(left1, "cache_ts"@) {
                    field_failed::<Timestamp>(left1, "cache_ts"@, e)
                } else if !required_ok::<Timestamp>(left2, "event_ts"@) {
                    required_err::<Timestamp>(left2, "event_ts"@, e)
                } else {
                    false
                }
            },
            _ => e == (DecodeError::WrongType { expected: "object" }),
        }
    }
}

impl Decode for EventBotChanged {
    open spec fn accepts(v: JsonValue) -> bool {
        EventBotChanged::spec_accepts(v)
    }

    open spec fn decodes_to(v: JsonValue, x: EventBotChanged) -> bool {
        EventBotChanged::spec_decodes_to(v, x)
    }

    open spec fn rejects_with(v: JsonValue, e: DecodeError) -> bool {
        EventBotChanged::spec_rejects_with(v, e)
    }

    fn decode(v: JsonValue) -> Result<EventBotChanged, DecodeError> {
        proof {
            reveal(EventBotChanged::spec_accepts);
            reveal(EventBotChanged::spec_decodes_to);
            reveal(EventBotChanged::spec_rejects_with);
        }
        let mut wire = into_fields(v)?;
        let known: &[&str] = &["bot", "cache_ts", "event_ts"];
        assert(known@ =~= EventBotChanged::declared_fields());
        check_fields(&wire, known)?;
        let bot: Bot = required(&mut wire, "bot")?;
        let cache_ts: Option<Timestamp> = optional(&mut wire, "cache_ts")?;
        let event_ts: Timestamp = required(&mut wire, "event_ts")?;
        Ok(EventBotChanged { bot, cache_ts, event_ts })
    }
}

#[derive(Clone, Debug, PartialEq)]
pub struct EventUserTyping {
    pub channel: ConversationId,
    pub user: UserId,
}

impl EventUserTyping {
    /// The fields the record declares; it admits no others.
    pub open spec fn declared_fields() -> Seq<&'static str> {
        seq!["channel", "user"]
    }
}

impl EventUserTyping {
    /// Whether `v` decodes as the record: an object whose fields read in order.
    #[verifier::opaque]
    pub open spec fn spec_accepts(v: JsonValue) -> bool {
        match v {
            JsonValue::Object(w) => {
                let left0 = w@;
                let left1 = taken(left0, "channel"@);
                &&& all_known(left0, EventUserTyping::declared_fields())
                &&& required_ok::<ConversationId>(left0, "channel"@)
                &&& required_ok::<UserId>(left1, "user"@)
            },
            _ => false,
        }
    }

    /// Whether `x` holds what the fields of `v` read as.
    #[verifier::opaque]
    pub open spec fn spec_decodes_to(v: JsonValue, x: EventUserTyping) -> bool {
        match v {
            JsonValue::Object(w) => {
                let left0 = w@;
                let left1 = taken(left0, "channel"@);
                &&& <ConversationId as Decode>::decodes_to(value_of(left0, "channel"@), x.channel)
                &&& <UserId as Decode>::decodes_to(value_of(left1, "user"@), x.user)
            },
            _ => false,
        }
    }

    /// Whether `e` is the error of the first check or field that fails on `v`.
    #[verifier::opaque]
    pub open spec fn spec_rejects_with(v: JsonValue, e: DecodeError) -> bool {
        match v {
            JsonValue::Object(w) => {
                let left0 = w@;
                let left1 = taken(left0, "channel"@);
                if !all_known(left0, EventUserTyping::declared_fields()) {
                    e == (DecodeError::UnknownField { field: first_unknown_key(left0, EventUserTyping::declared_fields()) })
                } else if !required_ok::<ConversationId>(left0, "channel"@) {
                    required_err::<ConversationId>(left0, "channel"@, e)
                } else if !required_ok::<UserId>(left1, "user"@) {
                    required_err::<UserId>(left1, "user"@, e)
                } else {
                    false
                }
            },
            _ => e == (DecodeError::WrongType { expected: "object" }),
        }
    }
}

impl Decode for EventUserTyping {
    open spec fn accepts(v: JsonValue) -> bool {
        EventUserTyping::spec_accepts(v)
    }

    open spec fn decodes_to(v: JsonValue, x: EventUserTyping) -> bool {
        EventUserTyping::spec_decodes_to(v, x)
    }

    open spec fn rejects_with(v: JsonValue, e: DecodeError) -> bool {
        EventUserTyping::spec_rejects_with(v, e)
    }

    fn decode(v: JsonValue) -> Result<EventUserTyping, DecodeError> {
        proof {
            reveal(EventUserTyping::spec_accepts);
            reveal(EventUserTyping::spec_decodes_to);
            reveal(EventUserTyping::spec_rejects_with);
        }
        let mut wire = into_fields(v)?;
        let known: &[&str] = &["channel", "user"];
        assert(known@ =~= EventUserTyping::declared_fields());
        check_fields(&wire, known)?;
        let channel: ConversationId = required(&mut wire, "channel")?;
        let user: UserId = required(&mut wire, "user")?;
        Ok(EventUserTyping { channel, user })
    }
}

#[derive(Clone, Debug, PartialEq)]
pub struct EventDndUpdatedUser {
    pub user: UserId,
    pub dnd_status: DndStatus,
    pub event_ts: Timestamp,
}

impl EventDndUpdatedUser {
    /// The fields the record declares; it admits no others.
    pub open spec fn declared_fields() -> Seq<&'static str> {
        seq!["user", "dnd_status", "event_ts"]
    }
}

impl EventDndUpdatedUser {
    /// Whether `v` decodes as the record: an object whose fields read in order.
    #[verifier::opaque]
    pub open spec fn spec_accepts(v: JsonValue) -> bool {
        match v {
            JsonValue::Object(w) => {
                let left0 = w@;
                let left1 = taken(left0, "user"@);
                let left2 = taken(left1, "dnd_status"@);
                &&& all_known(left0, EventDndUpdatedUser::declared_fields())
                &&& required_ok::<UserId>(left0, "user"@)
                &&& required_ok::<DndStatus>(left1, "dnd_status"@)
                &&& required_ok::<Timestamp>(left2, "event_ts"@)
            },
            _ => false,
        }
    }

    /// Whether `x` holds what the fields of `v` read as.
    #[verifier::opaque]
    pub open spec fn spec_decodes_to(v: JsonValue, x: EventDndUpdatedUser) -> bool {
        match v {
            JsonValue::Object(w) => {
                let left0 = w@;
                let left1 = taken(left0, "user"@);
                let left2 = taken(left1, "dnd_status"@);
                &&& <UserId as Decode>::decodes_to(value_of(left0, "user"@), x.user)
                &&& <DndStatus as Decode>::decodes_to(value_of(left1, "dnd_status"@), x.dnd_status)
                &&& <Timestamp as Decode>::decodes_to(value_of(left2, "event_ts"@), x.event_ts)
            },
            _ => false,
        }
    }

    /// Whether `e` is the error of the first check or field that fails on `v`.
    #[verifier::opaque]
    pub open spec fn spec_rejects_with(v: JsonValue, e: DecodeError) -> bool {
        match v {
            JsonValue::Object(w) => {
                let left0 = w@;
                let left1 = taken(left0, "user"@);
                let left2 = taken(left1, "dnd_status"@);
                if !all_known(left0, EventDndUpdatedUser::declared_fields()) {
                    e == (DecodeError::UnknownField { field: first_unknown_key(left0, EventDndUpdatedUser::declared_fields()) })
                } else if !required_ok::<UserId>(left0, "user"@) {
                    required_err::<UserId>(left0, "user"@, e)
                } else if !required_ok::<DndStatus>(left1, "dnd_status"@) {
                    required_err::<DndStatus>(left1, "dnd_status"@, e)
                } else if !required_ok::<Timestamp>(left2, "event_ts"@) {
                    required_err::<Timestamp>(left2, "event_ts"@, e)
                } else {
                    false
                }
            },
            _ => e == (DecodeError::WrongType { expected: "object" }),
        }
    }
}

impl Decode for EventDndUpdatedUser {
    open spec fn accepts(v: JsonValue) -> bool {
        EventDndUpdatedUser::spec_accepts(v)
    }

    open spec fn decodes_to(v: JsonValue, x: EventDndUpdatedUser) -> bool {
        EventDndUpdatedUser::spec_decodes_to(v, x)
    }

    open spec fn rejects_with(v: JsonValue, e: DecodeError) -> bool {
        EventDndUpdatedUser::spec_rejects_with(v, e)
    }

    fn decode(v: JsonValue) -> Result<EventDndUpdatedUser, DecodeError> {
        proof {
            reveal(EventDndUpdatedUser::spec_accepts);
            reveal(EventDndUpdatedUser::spec_decodes_to);
            reveal(EventDndUpdatedUser::spec_rejects_with);
        }
        let mut wire = into_fields(v)?;
        let known: &[&str] = &["user", "dnd_status", "event_ts"];
        assert(known@ =~= EventDndUpdatedUser::declared_fields());
        check_fields(&wire, known)?;
        let user: UserId = required(&mut wire, "user")?;
        let dnd_status: DndStatus = required(&mut wire, "dnd_status")?;
        let event_ts: Timestamp = required(&mut wire, "event_ts")?;
        Ok(EventDndUpdatedUser { user, dnd_status, event_ts })
    }
}

#[derive(Clone, Debug, PartialEq)]
pub struct DndStatus {
    pub dnd_enabled: bool,
    pub next_dnd_start_ts: Timestamp,
    pub next_dnd_end_ts: Timestamp,
}

impl DndStatus {
    /// The fields the record declares; it admits no others.
    pub open spec fn declared_fields() -> Seq<&'static str> {
        seq!["dnd_enabled", "next_dnd_start_ts", "next_dnd_end_ts"]
    }
}

impl DndStatus {
    /// Whether `v` decodes as the record: an object whose fields read in order.
    #[verifier::opaque]
    pub open spec fn spec_accepts(v: JsonValue) -> bool {
        match v {
            JsonValue::Object(w) => {
                let left0 = w@;
                let left1 = taken(left0, "dnd_enabled"@);
                let left2 = taken(left1, "next_dnd_start_ts"@);
                &&& all_known(left0, DndStatus::declared_fields())
                &&& required_ok::<bool>(left0, "dnd_enabled"@)
                &&& required_ok::<Timestamp>(left1, "next_dnd_start_ts"@)
                &&& required_ok::<Timestamp>(left2, "next_dnd_end_ts"@)
            },
            _ => false,
        }
    }

    /// Whether `x` holds what the fields of `v` read as.
    #[verifier::opaque]
    pub open spec fn spec_decodes_to(v: JsonValue, x: DndStatus) -> bool {
        match v {
            JsonValue::Object(w) => {
                let left0 = w@;
                let left1 = taken(left0, "dnd_enabled"@);
                let left2 = taken(left1, "next_dnd_start_ts"@);
                &&& <bool as Decode>::decodes_to(value_of(left0, "dnd_enabled"@), x.dnd_enabled)
                &&& <Timestamp as Decode>::decodes_to(value_of(left1, "next_dnd_start_ts"@), x.next_dnd_start_ts)
                &&& <Timestamp as Decode>::decodes_to(value_of(left2, "next_dnd_end_ts"@), x.next_dnd_end_ts)
            },
            _ => false,
        }
    }

    /// Whether `e` is the error of the first check or field that fails on `v`.
    #[verifier::opaque]
    pub open spec fn spec_rejects_with(v: JsonValue, e: DecodeError) -> bool {
        match v {
            JsonValue::Object(w) => {
                let left0 = w@;
                let left1 = taken(left0, "dnd_enabled"@);
                let left2 = taken(left1, "next_dnd_start_ts"@);
                if !all_known(left0, DndStatus::declared_fields()) {
                    e == (DecodeError::UnknownField { field: first_unknown_key(left0, DndStatus::declared_fields()) })
                } else if !required_ok::<bool>(left0, "dnd_enabled"@) {
                    required_err::<bool>(left0, "dnd_enabled"@, e)
                } else if !required_ok::<Timestamp>(left1, "next_dnd_start_ts"@) {
                    required_err::<Timestamp>(left1, "next_dnd_start_ts"@, e)
                } else if !required_ok::<Timestamp>(left2, "next_dnd_end_ts"@) {
                    required_err::<Timestamp>(left2, "next_dnd_end_ts"@, e)
                } else {
                    false
                }
            },
            _ => e == (DecodeError::WrongType { expected: "object" }),
        }
    }
}

impl Decode for DndStatus {
    open spec fn accepts(v: JsonValue) -> bool {
        DndStatus::spec_accepts(v)
    }

    open spec fn decodes_to(v: JsonValue, x: DndStatus) -> bool {
        DndStatus::spec_decodes_to(v, x)
    }

    open spec fn rejects_with(v: JsonValue, e: DecodeError) -> bool {
        DndStatus::spec_rejects_with(v, e)
    }

    fn decode(v: JsonValue) -> Result<DndStatus, DecodeError> {
        proof {
            reveal(DndStatus::spec_accepts);
            reveal(DndStatus::spec_decodes_to);
            reveal(DndStatus::spec_rejects_with);
        }
        let mut wire = into_fields(v)?;
        let known: &[&str] = &["dnd_enabled", "next_dnd_start_ts", "next_dnd_end_ts"];
        assert(known@ =~= DndStatus::declared_fields());
        check_fields(&wire, known)?;
        let dnd_enabled: bool = required(&mut wire, "dnd_enabled")?;
        let next_dnd_start_ts: Timestamp = required(&mut wire, "next_dnd_start_ts")?;
        let next_dnd_end_ts: Timestamp = required(&mut wire, "next_dnd_end_ts")?;
        Ok(DndStatus { dnd_enabled, next_dnd_start_ts, next_dnd_end_ts })
    }
}

#[derive(Clone, Debug, PartialEq)]
pub struct EventFileShared {
    pub file_id: FileId,
    pub user_id: UserId,
    pub file: JustAFileId,
    pub event_ts: Timestamp,
    pub ts: Option<Timestamp>,
}

impl EventFileShared {
    /// The fields the record declares; it admits no others.
    pub open spec fn declared_fields() -> Seq<&'static str> {
        seq!["file_id", "user_id", "file", "event_ts", "ts"]
    }
}

impl EventFileShared {
    /// Whether `v` decodes as the record: an object whose fields read in order.
    #[verifier::opaque]
    pub open spec fn spec_accepts(v: JsonValue) -> bool {
        match v {
            JsonValue::Object(w) => {
                let left0 = w@;
                let left1 = taken(left0, "file_id"@);
                let left2 = taken(left1, "user_id"@);
                let left3 = taken(left2, "file"@);
                let left4 = taken(left3, "event_ts"@);
                &&& all_known(left0, EventFileShared::declared_fields())
                &&& required_ok::<FileId>(left0, "file_id"@)
                &&& required_ok::<UserId>(left1, "user_id"@)
                &&& required_ok::<JustAFileId>(left2, "file"@)
                &&& required_ok::<Timestamp>(left3, "event_ts"@)
                &&& optional_ok::<Timestamp>(left4, "ts"@)
            },
            _ => false,
        }
    }

    /// Whether `x` holds what the fields of `v` read as.
    #[verifier::opaque]
    pub open spec fn spec_decodes_to(v: JsonValue, x: EventFileShared) -> bool {
        match v {
            JsonValue::Object(w) => {
                let left0 = w@;
                let left1 = taken(left0, "file_id"@);
                let left2 = taken(left1, "user_id"@);
                let left3 = taken(left2, "file"@);
                let left4 = taken(left3, "event_ts"@);
                &&& <FileId as Decode>::decodes_to(value_of(left0, "file_id"@), x.file_id)
                &&& <UserId as Decode>::decodes_to(value_of(left1, "user_id"@), x.user_id)
                &&& <JustAFileId as Decode>::decodes_to(value_of(left2, "file"@), x.file)
                &&& <Timestamp as Decode>::decodes_to(value_of(left3, "event_ts"@), x.event_ts)
                &&& optional_value::<Timestamp>(left4, "ts"@, x.ts)
            },
            _ => false,
        }
    }

    /// Whether `e` is the error of the first check or field that fails on `v`.
    #[verifier::opaque]
    pub open spec fn spec_rejects_with(v: JsonValue, e: DecodeError) -> bool {
        match v {
            JsonValue::Object(w) => {
                let left0 = w@;
                let left1 = taken(left0, "file_id"@);
                let left2 = taken(left1, "user_id"@);
                let left3 = taken(left2, "file"@);
                let left4 = taken(left3, "event_ts"@);
                if !all_known(left0, EventFileShared::declared_fields()) {
                    e == (DecodeError::UnknownField { field: first_unknown_key(left0, EventFileShared::declared_fields()) })
                } else if !required_ok::<FileId>(left0, "file_id"@) {
                    required_err::<FileId>(left0, "file_id"@, e)
                } else if !required_ok::<UserId>(left1, "user_id"@) {
                    required_err::<UserId>(left1, "user_id"@, e)
                } else if !required_ok::<JustAFileId>(left2, "file"@) {
                    required_err::<JustAFileId>(left2, "file"@, e)
                } else if !required_ok::<Timestamp>(left3, "event_ts"@) {
                    required_err::<Timestamp>(left3, "event_ts"@, e)
                } else if !optional_ok::<Timestamp>(left4, "ts"@) {
                    field_failed::<Timestamp>(left4, "ts"@, e)
                } else {
                    false
                }
            },
            _ => e == (DecodeError::WrongType { expected: "object" }),
        }
    }
}

impl Decode for EventFileShared {
    open spec fn accepts(v: JsonValue) -> bool {
        EventFileShared::spec_accepts(v)
    }

    open spec fn decodes_to(v: JsonValue, x: EventFileShared) -> bool {
        EventFileShared::spec_decodes_to(v, x)
    }

    open spec fn rejects_with(v: JsonValue, e: DecodeError) -> bool {
        EventFileShared::spec_rejects_with(v, e)
    }

    fn decode(v: JsonValue) -> Result<EventFileShared, DecodeError> {
        proof {
            reveal(EventFileShared::spec_accepts);
            reveal(EventFileShared::spec_decodes_to);
            reveal(EventFileShared::spec_rejects_with);
        }
        let mut wire = into_fields(v)?;
        let known: &[&str] = &["file_id", "user_id", "file", "event_ts", "ts"];
        assert(known@ =~= EventFileShared::declared_fields());
        check_fields(&wire, known)?;
        let file_id: FileId = required(&mut wire, "file_id")?;
        let user_id: UserId = required(&mut wire, "user_id")?;
        let file: JustAFileId = required(&mut wire, "file")?;
        let event_ts: Timestamp = required(&mut wire, "event_ts")?;
        let ts: Option<Timestamp> = optional(&mut wire, "ts")?;
        Ok(EventFileShared { file_id, user_id, file, event_ts, ts })
    }
}

#[derive(Clone, Debug, PartialEq)]
pub struct JustAFileId {
    pub id: FileId,
}

impl JustAFileId {
    /// The fields the record declares; it admits no others.
    pub open spec fn declared_fields() -> Seq<&'static str> {
        seq!["id"]
    }
}

impl JustAFileId {
    /// Whether `v` decodes as the record: an object whose fields read in order.
    #[verifier::opaque]
    pub open spec fn spec_accepts(v: JsonValue) -> bool {
        match v {
            JsonValue::Object(w) => {
                let left0 = w@;
                &&& all_known(left0, JustAFileId::declared_fields())
                &&& required_ok::<FileId>(left0, "id"@)
            },
            _ => false,
        }
    }

    /// Whether `x` holds what the fields of `v` read as.
    #[verifier::opaque]
    pub open spec fn spec_decodes_to(v: JsonValue, x: JustAFileId) -> bool {
        match v {
            JsonValue::Object(w) => {
                let left0 = w@;
                &&& <FileId as Decode>::decodes_to(value_of(left0, "id"@), x.id)
            },
            _ => false,
        }
    }

    /// Whether `e` is the error of the first check or field that fails on `v`.
    #[verifier::opaque]
    pub open spec fn spec_rejects_with(v: JsonValue, e: DecodeError) -> bool {
        match v {
            JsonValue::Object(w) => {
                let left0 = w@;
                if !all_known(left0, JustAFileId::declared_fields()) {
                    e == (DecodeError::UnknownField { field: first_unknown_key(left0, JustAFileId::declared_fields()) })
                } else if !required_ok::<FileId>(left0, "id"@) {
                    required_err::<FileId>(left0, "id"@, e)
                } else {
                    false
                }
            },
            _ => e == (DecodeError::WrongType { expected: "object" }),
        }
    }
}

impl Decode for JustAFileId {
    open spec fn accepts(v: JsonValue) -> bool {
        JustAFileId::spec_accepts(v)
    }

    open spec fn decodes_to(v: JsonValue, x: JustAFileId) -> bool {
        JustAFileId::spec_decodes_to(v, x)
    }

    open spec fn rejects_with(v: JsonValue, e: DecodeError) -> bool {
        JustAFileId::spec_rejects_with(v, e)
    }

    fn decode(v: JsonValue) -> Result<JustAFileId, DecodeError> {
        proof {
            reveal(JustAFileId::spec_accepts);
            reveal(JustAFileId::spec_decodes_to);
            reveal(JustAFileId::spec_rejects_with);
        }
        let mut wire = into_fields(v)?;
        let known: &[&str] = &["id"];
        assert(known@ =~= JustAFileId::declared_fields());
        check_fields(&wire, known)?;
        let id: FileId = required(&mut wire, "id")?;
        Ok(JustAFileId { id })
    }
}

#[derive(Clone, Debug, PartialEq)]
pub struct EventFilePublic {
    pub file_id: FileId,
    pub user_id: UserId,
    pub file: JustAFileId,
    pub event_ts: Timestamp,
    pub ts: Option<Timestamp>,
}

impl EventFilePublic {
    /// The fields the record declares; it admits no others.
    pub open spec fn declared_fields() -> Seq<&'static str> {
        seq!["file_id", "user_id", "file", "event_ts", "ts"]
    }
}

impl EventFilePublic {
    /// Whether `v` decodes as the record: an object whose fields read in order.
    #[verifier::opaque]
    pub open spec fn spec_accepts(v: JsonValue) -> bool {
        match v {
            JsonValue::Object(w) => {
                let left0 = w@;
                let left1 = taken(left0, "file_id"@);
                let left2 = taken(left1, "user_id"@);
                let left3 = taken(left2, "file"@);
                let left4 = taken(left3, "event_ts"@);
                &&& all_known(left0, EventFilePublic::declared_fields())
                &&& required_ok::<FileId>(left0, "file_id"@)
                &&& required_ok::<UserId>(left1, "user_id"@)
                &&& required_ok::<JustAFileId>(left2, "file"@)
                &&& required_ok::<Timestamp>(left3, "event_ts"@)
                &&& optional_ok::<Timestamp>(left4, "ts"@)
            },
            _ => false,
        }
    }

    /// Whether `x` holds what the fields of `v` read as.
    #[verifier::opaque]
    pub open spec fn spec_decodes_to(v: JsonValue, x: EventFilePublic) -> bool {
        match v {
            JsonValue::Object(w) => {
                let left0 = w@;
                let left1 = taken(left0, "file_id"@);
                let left2 = taken(left1, "user_id"@);
                let left3 = taken(left2, "file"@);
                let left4 = taken(left3, "event_ts"@);
                &&& <FileId as Decode>::decodes_to(value_of(left0, "file_id"@), x.file_id)
                &&& <UserId as Decode>::decodes_to(value_of(left1, "user_id"@), x.user_id)
                &&& <JustAFileId as Decode>::decodes_to(value_of(left2, "file"@), x.file)
                &&& <Timestamp as Decode>::decodes_to(value_of(left3, "event_ts"@), x.event_ts)
                &&& optional_value::<Timestamp>(left4, "ts"@, x.ts)
            },
            _ => false,
        }
    }

    /// Whether `e` is the error of the first check or field that fails on `v`.
    #[verifier::opaque]
    pub open spec fn spec_rejects_with(v: JsonValue, e: DecodeError) -> bool {
        match v {
            JsonValue::Object(w) => {
                let left0 = w@;
                let left1 = taken(left0, "file_id"@);
                let left2 = taken(left1, "user_id"@);
                let left3 = taken(left2, "file"@);
                let left4 = taken(left3, "event_ts"@);
                if !all_known(left0, EventFilePublic::declared_fields()) {
                    e == (DecodeError::UnknownField { field: first_unknown_key(left0, EventFilePublic::declared_fields()) })
                } else if !required_ok::<FileId>(left0, "file_id"@) {
                    required_err::<FileId>(left0, "file_id"@, e)
                } else if !required_ok::<UserId>(left1, "user_id"@) {
                    required_err::<UserId>(left1, "user_id"@, e)
                } else if !required_ok::<JustAFileId>(left2, "file"@) {
                    required_err::<JustAFileId>(left2, "file"@, e)
                } else if !required_ok::<Timestamp>(left3, "event_ts"@) {
                    required_err::<Timestamp>(left3, "event_ts"@, e)
                } else if !optional_ok::<Timestamp>(left4, "ts"@) {
                    field_failed::<Timestamp>(left4, "ts"@, e)
                } else {
                    false
                }
            },
            _ => e == (DecodeError::WrongType { expected: "object" }),
        }
    }
}

impl Decode for EventFilePublic {
    open spec fn accepts(v: JsonValue) -> bool {
        EventFilePublic::spec_accepts(v)
    }

    open spec fn decodes_to(v: JsonValue, x: EventFilePublic) -> bool {
        EventFilePublic::spec_decodes_to(v, x)
    }

    open spec fn rejects_with(v: JsonValue, e: DecodeError) -> bool {
        EventFilePublic::spec_rejects_with(v, e)
    }

    fn decode(v: JsonValue) -> Result<EventFilePublic, DecodeError> {
        proof {
            reveal(EventFilePublic::spec_accepts);
            reveal(EventFilePublic::spec_decodes_to);
            reveal(EventFilePublic::spec_rejects_with);
        }
        let mut wire = into_fields(v)?;
        let known: &[&str] = &["file_id", "user_id", "file", "event_ts", "ts"];
        assert(known@ =~= EventFilePublic::declared_fields());
        check_fields(&wire, known)?;
        let file_id: FileId = required(&mut wire, "file_id")?;
        let user_id: UserId = required(&mut wire, "user_id")?;
        let file: JustAFileId = required(&mut wire, "file")?;
        let event_ts: Timestamp = required(&mut wire, "event_ts")?;
        let ts: Option<Timestamp> = optional(&mut wire, "ts")?;
        Ok(EventFilePublic { file_id, user_id, file, event_ts, ts })
    }
}

#[derive(Clone, Debug, PartialEq)]
pub struct EventFileCreated {
    pub file: JustAFileId,
    pub file_id: FileId,
    pub user_id: UserId,
    pub event_ts: Timestamp,
    pub ts: Option<Timestamp>,
}

impl EventFileCreated {
    /// The fields the record declares; it admits no others.
    pub open spec fn declared_fields() -> Seq<&'static str> {
        seq!["file", "file_id", "user_id", "event_ts", "ts"]
    }
}

impl EventFileCreated {
    /// Whether `v` decodes as the record: an object whose fields read in order.
    #[verifier::opaque]
    pub open spec fn spec_accepts(v: JsonValue) -> bool {
        match v {
            JsonValue::Object(w) => {
                let left0 = w@;
                let left1 = taken(left0, "file"@);
                let left2 = taken(left1, "file_id"@);
                let left3 = taken(left2, "user_id"@);
                let left4 = taken(left3, "event_ts"@);
                &&& all_known(left0, EventFileCreated::declared_fields())
                &&& required_ok::<JustAFileId>(left0, "file"@)
                &&& required_ok::<FileId>(left1, "file_id"@)
                &&& required_ok::<UserId>(left2, "user_id"@)
                &&& required_ok::<Timestamp>(left3, "event_ts"@)
                &&& optional_ok::<Timestamp>(left4, "ts"@)
            },
            _ => false,
        }
    }

    /// Whether `x` holds what the fields of `v` read as.
    #[verifier::opaque]
    pub open spec fn spec_decodes_to(v: JsonValue, x: EventFileCreated) -> bool {
        match v {
            JsonValue::Object(w) => {
                let left0 = w@;
                let left1 = taken(left0, "file"@);
                let left2 = taken(left1, "file_id"@);
                let left3 = taken(left2, "user_id"@);
                let left4 = taken(left3, "event_ts"@);
                &&& <JustAFileId as Decode>::decodes_to(value_of(left0, "file"@), x.file)
                &&& <FileId as Decode>::decodes_to(value_of(left1, "file_id"@), x.file_id)
                &&& <UserId as Decode>::decodes_to(value_of(left2, "user_id"@), x.user_id)
                &&& <Timestamp as Decode>::decodes_to(value_of(left3, "event_ts"@), x.event_ts)
                &&& optional_value::<Timestamp>(left4, "ts"@, x.ts)
            },
            _ => false,
        }
    }

    /// Whether `e` is the error of the first check or field that fails on `v`.
    #[verifier::opaque]
    pub open spec fn spec_rejects_with(v: JsonValue, e: DecodeError) -> bool {
        match v {
            JsonValue::Object(w) => {
                let left0 = w@;
                let left1 = taken(left0, "file"@);
                let left2 = taken(left1, "file_id"@);
                let left3 = taken(left2, "user_id"@);
                let left4 = taken(left3, "event_ts"@);
                if !all_known(left0, EventFileCreated::declared_fields()) {
                    e == (DecodeError::UnknownField { field: first_unknown_key(left0, EventFileCreated::declared_fields()) })
                } else if !required_ok::<JustAFileId>(left0, "file"@) {
                    required_err::<JustAFileId>(left0, "file"@, e)
                } else if !required_ok::<FileId>(left1, "file_id"@) {
                    required_err::<FileId>(left1, "file_id"@, e)
                } else if !required_ok::<UserId>(left2, "user_id"@) {
                    required_err::<UserId>(left2, "user_id"@, e)
                } else if !required_ok::<Timestamp>(left3, "event_ts"@) {
                    required_err::<Timestamp>(left3, "event_ts"@, e)
                } else if !optional_ok::<Timestamp>(left4, "ts"@) {
                    field_failed::<Timestamp>(left4, "ts"@, e)
                } else {
                    false
                }
            },
            _ => e == (DecodeError::WrongType { expected: "object" }),
        }
    }
}

impl Decode for EventFileCreated {
    open spec fn accepts(v: JsonValue) -> bool {
        EventFileCreated::spec_accepts(v)
    }

    open spec fn decodes_to(v: JsonValue, x: EventFileCreated) -> bool {
        EventFileCreated::spec_decodes_to(v, x)
    }

    open spec fn rejects_with(v: JsonValue, e: DecodeError) -> bool {
        EventFileCreated::spec_rejects_with(v, e)
    }

    fn decode(v: JsonValue) -> Result<EventFileCreated, DecodeError> {
        proof {
            reveal(EventFileCreated::spec_accepts);
            reveal(EventFileCreated::spec_decodes_to);
            reveal(EventFileCreated::spec_rejects_with);
        }
        let mut wire = into_fields(v)?;
        let known: &[&str] = &["file", "file_id", "user_id", "event_ts", "ts"];
        assert(known@ =~= EventFileCreated::declared_fields());
        check_fields(&wire, known)?;
        let file: JustAFileId = required(&mut wire, "file")?;
        let file_id: FileId = required(&mut wire, "file_id")?;
        let user_id: UserId = required(&mut wire, "user_id")?;
        let event_ts: Timestamp = required(&mut wire, "event_ts")?;
        let ts: Option<Timestamp> = optional(&mut wire, "ts")?;
        Ok(EventFileCreated { file, file_id, user_id, event_ts, ts })
    }
}

#[derive(Clone, Debug, PartialEq)]
pub struct EventChannelMarked {
    pub channel: ChannelId,
    pub ts: Timestamp,
    pub unread_count: u32,
    pub unread_count_display: u32,
    pub num_mentions: u32,
    pub num_mentions_display: u32,
    pub mention_count: u32,
    pub mention_count_display: u32,
    pub event_ts: Timestamp,
}

impl EventChannelMarked {
    /// The fields the record declares; it admits no others.
    pub open spec fn declared_fields() -> Seq<&'static str> {
        seq!["channel", "ts", "unread_count", "unread_count_display", "num_mentions", "num_mentions_display", "mention_count", "mention_count_display", "event_ts"]
    }
}

impl EventChannelMarked {
    /// Whether `v` decodes as the record: an object whose fields read in order.
    #[verifier::opaque]
    pub open spec fn spec_accepts(v: JsonValue) -> bool {
        match v {
            JsonValue::Object(w) => {
                let left0 = w@;
                let left1 = taken(left0, "channel"@);
                let left2 = taken(left1, "ts"@);
                let left3 = taken(left2, "unread_count"@);
                let left4 = taken(left3, "unread_count_display"@);
                let left5 = taken(left4, "num_mentions"@);
                let left6 = taken(left5, "num_mentions_display"@);
                let left7 = taken(left6, "mention_count"@);
                let left8 = taken(left7, "mention_count_display"@);
                &&& all_known(left0, EventChannelMarked::declared_fields())
                &&& required_ok::<ChannelId>(left0, "channel"@)
                &&& required_ok::<Timestamp>(left1, "ts"@)
                &&& required_ok::<u32>(left2, "unread_count"@)
                &&& required_ok::<u32>(left3, "unread_count_display"@)
                &&& required_ok::<u32>(left4, "num_mentions"@)
                &&& required_ok::<u32>(left5, "num_mentions_display"@)
                &&& required_ok::<u32>(left6, "mention_count"@)
                &&& required_ok::<u32>(left7, "mention_count_display"@)
                &&& required_ok::<Timestamp>(left8, "event_ts"@)
            },
            _ => false,
        }
    }

    /// Whether `x` holds what the fields of `v` read as.
    #[verifier::opaque]
    pub open spec fn spec_decodes_to(v: JsonValue, x: EventChannelMarked) -> bool {
        match v {
            JsonValue::Object(w) => {
                let left0 = w@;
                let left1 = taken(left0, "channel"@);
                let left2 = taken(left1, "ts"@);
                let left3 = taken(left2, "unread_count"@);
                let left4 = taken(left3, "unread_count_display"@);
                let left5 = taken(left4, "num_mentions"@);
                let left6 = taken(left5, "num_mentions_display"@);
                let left7 = taken(left6, "mention_count"@);
                let left8 = taken(left7, "mention_count_display"@);
                &&& <ChannelId as Decode>::decodes_to(value_of(left0, "channel"@), x.channel)
                &&& <Timestamp as Decode>::decodes_to(value_of(left1, "ts"@), x.ts)
                &&& <u32 as Decode>::decodes_to(value_of(left2, "unread_count"@), x.unread_count)
                &&& <u32 as Decode>::decodes_to(value_of(left3, "unread_count_display"@), x.unread_count_display)
                &&& <u32 as Decode>::decodes_to(value_of(left4, "num_mentions"@), x.num_mentions)
                &&& <u32 as Decode>::decodes_to(value_of(left5, "num_mentions_display"@), x.num_mentions_display)
                &&& <u32 as Decode>::decodes_to(value_of(left6, "mention_count"@), x.mention_count)
                &&& <u32 as Decode>::decodes_to(value_of(left7, "mention_count_display"@), x.mention_count_display)
                &&& <Timestamp as Decode>::decodes_to(value_of(left8, "event_ts"@), x.event_ts)
            },
            _ => false,
        }
    }

    /// Whether `e` is the error of the first check or field that fails on `v`.
    #[verifier::opaque]
    pub open spec fn spec_rejects_with(v: JsonValue, e: DecodeError) -> bool {
        match v {
            JsonValue::Object(w) => {
                let left0 = w@;
                let left1 = taken(left0, "channel"@);
                let left2 = taken(left1, "ts"@);
                let left3 = taken(left2, "unread_count"@);
                let left4 = taken(left3, "unread_count_display"@);
                let left5 = taken(left4, "num_mentions"@);
                let left6 = taken(left5, "num_mentions_display"@);
                let left7 = taken(left6, "mention_count"@);
                let left8 = taken(left7, "mention_count_display"@);
                if !all_known(left0, EventChannelMarked::declared_fields()) {
                    e == (DecodeError::UnknownField { field: first_unknown_key(left0, EventChannelMarked::declared_fields()) })
                } else if !required_ok::<ChannelId>(left0, "channel"@) {
                    required_err::<ChannelId>(left0, "channel"@, e)
                } else if !required_ok::<Timestamp>(left1, "ts"@) {
                    required_err::<Timestamp>(left1, "ts"@, e)
                } else if !required_ok::<u32>(left2, "unread_count"@) {
                    required_err::<u32>(left2, "unread_count"@, e)
                } else if !required_ok::<u32>(left3, "unread_count_display"@) {
                    required_err::<u32>(left3, "unread_count_display"@, e)
                } else if !required_ok::<u32>(left4, "num_mentions"@) {
                    required_err::<u32>(left4, "num_mentions"@, e)
                } else if !required_ok::<u32>(left5, "num_mentions_display"@) {
                    required_err::<u32>(left5, "num_mentions_display"@, e)
                } else if !required_ok::<u32>(left6, "mention_count"@) {
                    required_err::<u32>(left6, "mention_count"@, e)
                } else if !required_ok::<u32>(left7, "mention_count_display"@) {
                    required_err::<u32>(left7, "mention_count_display"@, e)
                } else if !required_ok::<Timestamp>(left8, "event_ts"@) {
                    required_err::<Timestamp>(left8, "event_ts"@, e)
                } else {
                    false
                }
            },
            _ => e == (DecodeError::WrongType { expected: "object" }),
        }
    }
}

impl Decode for EventChannelMarked {
    open spec fn accepts(v: JsonValue) -> bool {
        EventChannelMarked::spec_accepts(v)
    }

    open spec fn decodes_to(v: JsonValue, x: EventChannelMarked) -> bool {
        EventChannelMarked::spec_decodes_to(v, x)
    }

    open spec fn rejects_with(v: JsonValue, e: DecodeError) -> bool {
        EventChannelMarked::spec_rejects_with(v, e)
    }

    fn decode(v: JsonValue) -> Result<EventChannelMarked, DecodeError> {
        proof {
            reveal(EventChannelMarked::spec_accepts);
            reveal(EventChannelMarked::spec_decodes_to);
            reveal(EventChannelMarked::spec_rejects_with);
        }
        let mut wire = into_fields(v)?;
        let known: &[&str] = &["channel", "ts", "unread_count", "unread_count_display", "num_mentions", "num_mentions_display", "mention_count", "mention_count_display", "event_ts"];
        assert(known@ =~= EventChannelMarked::declared_fields());
        check_fields(&wire, known)?;
        let channel: ChannelId = required(&mut wire, "channel")?;
        let ts: Timestamp = required(&mut wire, "ts")?;
        let unread_count: u32 = required(&mut wire, "unread_count")?;
        let unread_count_display: u32 = required(&mut wire, "unread_count_display")?;
        let num_mentions: u32 = required(&mut wire, "num_mentions")?;
        let num_mentions_display: u32 = required(&mut wire, "num_mentions_display")?;
        let mention_count: u32 = required(&mut wire, "mention_count")?;
        let mention_count_display: u32 = required(&mut wire, "mention_count_display")?;
        let event_ts: Timestamp = required(&mut wire, "event_ts")?;
        Ok(EventChannelMarked { channel, ts, unread_count, unread_count_display, num_mentions, num_mentions_display, mention_count, mention_count_display, event_ts })
    }
}

#[derive(Clone, Debug, PartialEq)]
pub struct EventGroupMarked {
    pub channel: GroupId,
    pub ts: Timestamp,
    pub unread_count: u32,
    pub unread_count_display: u32,
    pub num_mentions: u32,
    pub num_mentions_display: u32,
    pub mention_count: u32,
    pub mention_count_display: u32,
    pub event_ts: Timestamp,
    pub is_mpim: Option<bool>,
}

impl EventGroupMarked {
    /// The fields the record declares; it admits no others.
    pub open spec fn declared_fields() -> Seq<&'static str> {
        seq!["channel", "ts", "unread_count", "unread_count_display", "num_mentions", "num_mentions_display", "mention_count", "mention_count_display", "event_ts", "is_mpim"]
    }
}

impl EventGroupMarked {
    /// Whether `v` decodes as the record: an object whose fields read in order.
    #[verifier::opaque]
    pub open spec fn spec_accepts(v: JsonValue) -> bool {
        match v {
            JsonValue::Object(w) => {
                let left0 = w@;
                let left1 = taken(left0, "channel"@);
                let left2 = taken(left1, "ts"@);
                let left3 = taken(left2, "unread_count"@);
                let left4 = taken(left3, "unread_count_display"@);
                let left5 = taken(left4, "num_mentions"@);
                let left6 = taken(left5, "num_mentions_display"@);
                let left7 = taken(left6, "mention_count"@);
                let left8 = taken(left7, "mention_count_display"@);
                let left9 = taken(left8, "event_ts"@);
                &&& all_known(left0, EventGroupMarked::declared_fields())
                &&& required_ok::<GroupId>(left0, "channel"@)
                &&& required_ok::<Timestamp>(left1, "ts"@)
                &&& required_ok::<u32>(left2, "unread_count"@)
                &&& required_ok::<u32>(left3, "unread_count_display"@)
                &&& required_ok::<u32>(left4, "num_mentions"@)
                &&& required_ok::<u32>(left5, "num_mentions_display"@)
                &&& required_ok::<u32>(left6, "mention_count"@)
                &&& required_ok::<u32>(left7, "mention_count_display"@)
                &&& required_ok::<Timestamp>(left8, "event_ts"@)
                &&& optional_ok::<bool>(left9, "is_mpim"@)
            },
            _ => false,
        }
    }

    /// Whether `x` holds what the fields of `v` read as.
    #[verifier::opaque]
    pub open spec fn spec_decodes_to(v: JsonValue, x: EventGroupMarked) -> bool {
        match v {
            JsonValue::Object(w) => {
                let left0 = w@;
                let left1 = taken(left0, "channel"@);
                let left2 = taken(left1, "ts"@);
                let left3 = taken(left2, "unread_count"@);
                let left4 = taken(left3, "unread_count_display"@);
                let left5 = taken(left4, "num_mentions"@);
                let left6 = taken(left5, "num_mentions_display"@);
                let left7 = taken(left6, "mention_count"@);
                let left8 = taken(left7, "mention_count_display"@);
                let left9 = taken(left8, "event_ts"@);
                &&& <GroupId as Decode>::decodes_to(value_of(left0, "channel"@), x.channel)
                &&& <Timestamp as Decode>::decodes_to(value_of(left1, "ts"@), x.ts)
                &&& <u32 as Decode>::decodes_to(value_of(left2, "unread_count"@), x.unread_count)
                &&& <u32 as Decode>::decodes_to(value_of(left3, "unread_count_display"@), x.unread_count_display)
                &&& <u32 as Decode>::decodes_to(value_of(left4, "num_mentions"@), x.num_mentions)
                &&& <u32 as Decode>::decodes_to(value_of(left5, "num_mentions_display"@), x.num_mentions_display)
                &&& <u32 as Decode>::decodes_to(value_of(left6, "mention_count"@), x.mention_count)
                &&& <u32 as Decode>::decodes_to(value_of(left7, "mention_count_display"@), x.mention_count_display)
                &&& <Timestamp as Decode>::decodes_to(value_of(left8, "event_ts"@), x.event_ts)
                &&& optional_value::<bool>(left9, "is_mpim"@, x.is_mpim)
            },
            _ => false,
        }
    }

    /// Whether `e` is the error of the first check or field that fails on `v`.
    #[verifier::opaque]
    pub open spec fn spec_rejects_with(v: JsonValue, e: DecodeError) -> bool {
        match v {
            JsonValue::Object(w) => {
                let left0 = w@;
                let left1 = taken(left0, "channel"@);
                let left2 = taken(left1, "ts"@);
                let left3 = taken(left2, "unread_count"@);
                let left4 = taken(left3, "unread_count_display"@);
                let left5 = taken(left4, "num_mentions"@);
                let left6 = taken(left5, "num_mentions_display"@);
                let left7 = taken(left6, "mention_count"@);
                let left8 = taken(left7, "mention_count_display"@);
                let left9 = taken(left8, "event_ts"@);
                if !all_known(left0, EventGroupMarked::declared_fields()) {
                    e == (DecodeError::UnknownField { field: first_unknown_key(left0, EventGroupMarked::declared_fields()) })
                } else if !required_ok::<GroupId>(left0, "channel"@) {
                    required_err::<GroupId>(left0, "channel"@, e)
                } else if !required_ok::<Timestamp>(left1, "ts"@) {
                    required_err::<Timestamp>(left1, "ts"@, e)
                } else if !required_ok::<u32>(left2, "unread_count"@) {
                    required_err::<u32>(left2, "unread_count"@, e)
                } else if !required_ok::<u32>(left3, "unread_count_display"@) {
                    required_err::<u32>(left3, "unread_count_display"@, e)
                } else if !required_ok::<u32>(left4, "num_mentions"@) {
                    required_err::<u32>(left4, "num_mentions"@, e)
                } else if !required_ok::<u32>(left5, "num_mentions_display"@) {
                    required_err::<u32>(left5, "num_mentions_display"@, e)
                } else if !required_ok::<u32>(left6, "mention_count"@) {
                    required_err::<u32>(left6, "mention_count"@, e)
                } else if !required_ok::<u32>(left7, "mention_count_display"@) {
                    required_err::<u32>(left7, "mention_count_display"@, e)
                } else if !required_ok::<Timestamp>(left8, "event_ts"@) {
                    required_err::<Timestamp>(left8, "event_ts"@, e)
                } else if !optional_ok::<bool>(left9, "is_mpim"@) {
                    field_failed::<bool>(left9, "is_mpim"@, e)
                } else {
                    false
                }
            },
            _ => e == (DecodeError::WrongType { expected: "object" }),
        }
    }
}

impl Decode for EventGroupMarked {
    open spec fn accepts(v: JsonValue) -> bool {
        EventGroupMarked::spec_accepts(v)
    }

    open spec fn decodes_to(v: JsonValue, x: EventGroupMarked) -> bool {
        EventGroupMarked::spec_decodes_to(v, x)
    }

    open spec fn rejects_with(v: JsonValue, e: DecodeError) -> bool {
        EventGroupMarked::spec_rejects_with(v, e)
    }

    fn decode(v: JsonValue) -> Result<EventGroupMarked, DecodeError> {
        proof {
            reveal(EventGroupMarked::spec_accepts);
            reveal(EventGroupMarked::spec_decodes_to);
            reveal(EventGroupMarked::spec_rejects_with);
        }
        let mut wire = into_fields(v)?;
        let known: &[&str] = &["channel", "ts", "unread_count", "unread_count_display", "num_mentions", "num_mentions_display", "mention_count", "mention_count_display", "event_ts", "is_mpim"];
        assert(known@ =~= EventGroupMarked::declared_fields());
        check_fields(&wire, known)?;
        let channel: GroupId = required(&mut wire, "channel")?;
        let ts: Timestamp = required(&mut wire, "ts")?;
        let unread_count: u32 = required(&mut wire, "unread_count")?;
        let unread_count_display: u32 = required(&mut wire, "unread_count_display")?;
        let num_mentions: u32 = required(&mut wire, "num_mentions")?;
        let num_mentions_display: u32 = required(&mut wire, "num_mentions_display")?;
        let mention_count: u32 = required(&mut wire, "mention_count")?;
        let mention_count_display: u32 = required(&mut wire, "mention_count_display")?;
        let event_ts: Timestamp = required(&mut wire, "event_ts")?;
        let is_mpim: Option<bool> = optional(&mut wire, "is_mpim")?;
        Ok(EventGroupMarked { channel, ts, unread_count, unread_count_display, num_mentions, num_mentions_display, mention_count, mention_count_display, event_ts, is_mpim })
    }
}

#[derive(Clone, Debug, PartialEq)]
pub struct EventUserChange {
    pub user: User,
    pub cache_ts: Timestamp,
    pub event_ts: Timestamp,
}

impl EventUserChange {
    /// The fields the record declares; it admits no others.
    pub open spec fn declared_fields() -> Seq<&'static str> {
        seq!["user", "cache_ts", "event_ts"]
    }
}

impl EventUserChange {
    /// Whether `v` decodes as the record: an object whose fields read in order.
    #[verifier::opaque]
    pub open spec fn spec_accepts(v: JsonValue) -> bool {
        match v {
            JsonValue::Object(w) => {
                let left0 = w@;
                let left1 = taken(left0, "user"@);
                let left2 = taken(left1, "cache_ts"@);
                &&& all_known(left0, EventUserChange::declared_fields())
                &&& required_ok::<User>(left0, "user"@)
                &&& required_ok::<Timestamp>(left1, "cache_ts"@)
                &&& required_ok::<Timestamp>(left2, "event_ts"@)
            },
            _ => false,
        }
    }

    /// Whether `x` holds what the fields of `v` read as.
    #[verifier::opaque]
    pub open spec fn spec_decodes_to(v: JsonValue, x: EventUserChange) -> bool {
        match v {
            JsonValue::Object(w) => {
                let left0 = w@;
                let left1 = taken(left0, "user"@);
                let left2 = taken(left1, "cache_ts"@);
                &&& <User as Decode>::decodes_to(value_of(left0, "user"@), x.user)
                &&& <Timestamp as Decode>::decodes_to(value_of(left1, "cache_ts"@), x.cache_ts)
                &&& <Timestamp as Decode>::decodes_to(value_of(left2, "event_ts"@), x.event_ts)
            },
            _ => false,
        }
    }

    /// Whether `e` is the error of the first check or field that fails on `v`.
    #[verifier::opaque]
    pub open spec fn spec_rejects_with(v: JsonValue, e: DecodeError) -> bool {
        match v {
            JsonValue::Object(w) => {
                let left0 = w@;
                let left1 = taken(left0, "user"@);
                let left2 = taken(left1, "cache_ts"@);
                if !all_known(left0, EventUserChange::declared_fields()) {
                    e == (DecodeError::UnknownField { field: first_unknown_key(left0, EventUserChange::declared_fields()) })
                } else if !required_ok::<User>(left0, "user"@) {
                    required_err::<User>(left0, "user"@, e)
                } else if !required_ok::<Timestamp>(left1, "cache_ts"@) {
                    required_err::<Timestamp>(left1, "cache_ts"@, e)
                } else if !required_ok::<Timestamp>(left2, "event_ts"@) {
                    required_err::<Timestamp>(left2, "event_ts"@, e)
                } else {
                    false
                }
            },
            _ => e == (DecodeError::WrongType { expected: "object" }),
        }
    }
}

impl Decode for EventUserChange {
    open spec fn accepts(v: JsonValue) -> bool {
        EventUserChange::spec_accepts(v)
    }

    open spec fn decodes_to(v: JsonValue, x: EventUserChange) -> bool {
        EventUserChange::spec_decodes_to(v, x)
    }

    open spec fn rejects_with(v: JsonValue, e: DecodeError) -> bool {
        EventUserChange::spec_rejects_with(v, e)
    }

    fn decode(v: JsonValue) -> Result<EventUserChange, DecodeError> {
        proof {
            reveal(EventUserChange::spec_accepts);
            reveal(EventUserChange::spec_decodes_to);
            reveal(EventUserChange::spec_rejects_with);
        }
        let mut wire = into_fields(v)?;
        let known: &[&str] = &["user", "cache_ts", "event_ts"];
        assert(known@ =~= EventUserChange::declared_fields());
        check_fields(&wire, known)?;
        let user: User = required(&mut wire, "user")?;
        let cache_ts: Timestamp = required(&mut wire, "cache_ts")?;
        let event_ts: Timestamp = required(&mut wire, "event_ts")?;
        Ok(EventUserChange { user, cache_ts, event_ts })
    }
}

#[derive(Clone, Debug, PartialEq)]
pub struct MessageChannelMarked {
    pub channel: Option<ChannelId>,
    pub ts: Option<Timestamp>,
    pub unread_count: Option<i32>,
    pub unread_count_display: Option<i32>,
    pub num_mentions: Option<i32>,
    pub num_mentions_display: Option<i32>,
    pub mention_count: Option<i32>,
    pub event_ts: Option<Timestamp>,
}

impl MessageChannelMarked {
    /// Whether `v` decodes as the record: an object whose fields read in order.
    #[verifier::opaque]
    pub open spec fn spec_accepts(v: JsonValue) -> bool {
        match v {
            JsonValue::Object(w) => {
                let left0 = w@;
                let left1 = taken(left0, "channel"@);
                let left2 = taken(left1, "ts"@);
                let left3 = taken(left2, "unread_count"@);
                let left4 = taken(left3, "unread_count_display"@);
                let left5 = taken(left4, "num_mentions"@);
                let left6 = taken(left5, "num_mentions_display"@);
                let left7 = taken(left6, "mention_count"@);
                &&& optional_ok::<ChannelId>(left0, "channel"@)
                &&& optional_ok::<Timestamp>(left1, "ts"@)
                &&& optional_ok::<i32>(left2, "unread_count"@)
                &&& optional_ok::<i32>(left3, "unread_count_display"@)
                &&& optional_ok::<i32>(left4, "num_mentions"@)
                &&& optional_ok::<i32>(left5, "num_mentions_display"@)
                &&& optional_ok::<i32>(left6, "mention_count"@)
                &&& optional_ok::<Timestamp>(left7, "event_ts"@)
            },
            _ => false,
        }
    }

    /// Whether `x` holds what the fields of `v` read as.
    #[verifier::opaque]
    pub open spec fn spec_decodes_to(v: JsonValue, x: MessageChannelMarked) -> bool {
        match v {
            JsonValue::Object(w) => {
                let left0 = w@;
                let left1 = taken(left0, "channel"@);
                let left2 = taken(left1, "ts"@);
                let left3 = taken(left2, "unread_count"@);
                let left4 = taken(left3, "unread_count_display"@);
                let left5 = taken(left4, "num_mentions"@);
                let left6 = taken(left5, "num_mentions_display"@);
                let left7 = taken(left6, "mention_count"@);
                &&& optional_value::<ChannelId>(left0, "channel"@, x.channel)
                &&& optional_value::<Timestamp>(left1, "ts"@, x.ts)
                &&& optional_value::<i32>(left2, "unread_count"@, x.unread_count)
                &&& optional_value::<i32>(left3, "unread_count_display"@, x.unread_count_display)
                &&& optional_value::<i32>(left4, "num_mentions"@, x.num_mentions)
                &&& optional_value::<i32>(left5, "num_mentions_display"@, x.num_mentions_display)
                &&& optional_value::<i32>(left6, "mention_count"@, x.mention_count)
                &&& optional_value::<Timestamp>(left7, "event_ts"@, x.event_ts)
            },
            _ => false,
        }
    }

    /// Whether `e` is the error of the first check or field that fails on `v`.
    #[verifier::opaque]
    pub open spec fn spec_rejects_with(v: JsonValue, e: DecodeError) -> bool {
        match v {
            JsonValue::Object(w) => {
                let left0 = w@;
                let left1 = taken(left0, "channel"@);
                let left2 = taken(left1, "ts"@);
                let left3 = taken(left2, "unread_count"@);
                let left4 = taken(left3, "unread_count_display"@);
                let left5 = taken(left4, "num_mentions"@);
                let left6 = taken(left5, "num_mentions_display"@);
                let left7 = taken(left6, "mention_count"@);
                if !optional_ok::<ChannelId>(left0, "channel"@) {
                    field_failed::<ChannelId>(left0, "channel"@, e)
                } else if !optional_ok::<Timestamp>(left1, "ts"@) {
                    field_failed::<Timestamp>(left1, "ts"@, e)
                } else if !optional_ok::<i32>(left2, "unread_count"@) {
                    field_failed::<i32>(left2, "unread_count"@, e)
                } else if !optional_ok::<i32>(left3, "unread_count_display"@) {
                    field_failed::<i32>(left3, "unread_count_display"@, e)
                } else if !optional_ok::<i32>(left4, "num_mentions"@) {
                    field_failed::<i32>(left4, "num_mentions"@, e)
                } else if !optional_ok::<i32>(left5, "num_mentions_display"@) {
                    field_failed::<i32>(left5, "num_mentions_display"@, e)
                } else if !optional_ok::<i32>(left6, "mention_count"@) {
                    field_failed::<i32>(left6, "mention_count"@, e)
                } else if !optional_ok::<Timestamp>(left7, "event_ts"@) {
                    field_failed::<Timestamp>(left7, "event_ts"@, e)
                } else {
                    false
                }
            },
            _ => e == (DecodeError::WrongType { expected: "object" }),
        }
    }
}

impl Decode for MessageChannelMarked {
    open spec fn accepts(v: JsonValue) -> bool {
        MessageChannelMarked::spec_accepts(v)
    }

    open spec fn decodes_to(v: JsonValue, x: MessageChannelMarked) -> bool {
        MessageChannelMarked::spec_decodes_to(v, x)
    }

    open spec fn rejects_with(v: JsonValue, e: DecodeError) -> bool {
        MessageChannelMarked::spec_rejects_with(v, e)
    }

    fn decode(v: JsonValue) -> Result<MessageChannelMarked, DecodeError> {
        proof {
            reveal(MessageChannelMarked::spec_accepts);
            reveal(MessageChannelMarked::spec_decodes_to);
            reveal(MessageChannelMarked::spec_rejects_with);
        }
        let mut wire = into_fields(v)?;
        let channel: Option<ChannelId> = optional(&mut wire, "channel")?;
        let ts: Option<Timestamp> = optional(&mut wire, "ts")?;
        let unread_count: Option<i32> = optional(&mut wire, "unread_count")?;
        let unread_count_display: Option<i32> = optional(&mut wire, "unread_count_display")?;
        let num_mentions: Option<i32> = optional(&mut wire, "num_mentions")?;
        let num_mentions_display: Option<i32> = optional(&mut wire, "num_mentions_display")?;
        let mention_count: Option<i32> = optional(&mut wire, "mention_count")?;
        let event_ts: Option<Timestamp> = optional(&mut wire, "event_ts")?;
        Ok(MessageChannelMarked { channel, ts, unread_count, unread_count_display, num_mentions, num_mentions_display, mention_count, event_ts })
    }
}

#[derive(Clone, Debug, PartialEq)]
pub struct MessageBotAdd {
    pub bot_id: Option<BotId>,
    pub bot_link: Option<String>,
    pub text: String,
    pub ts: Option<Timestamp>,
    pub user: Option<UserId>,
}

impl MessageBotAdd {
    /// Whether `v` decodes as the record: an object whose fields read in order.
    #[verifier::opaque]
    pub open spec fn spec_accepts(v: JsonValue) -> bool {
        match v {
            JsonValue::Object(w) => {
                let left0 = w@;
                let left1 = taken(left0, "bot_id"@);
                let left2 = taken(left1, "bot_link"@);
                let left3 = taken(left2, "text"@);
                let left4 = taken(left3, "ts"@);
                &&& optional_ok::<BotId>(left0, "bot_id"@)
                &&& optional_ok::<String>(left1, "bot_link"@)
                &&& text_ok(left2, "text"@)
                &&& optional_ok::<Timestamp>(left3, "ts"@)
                &&& optional_ok::<UserId>(left4, "user"@)
            },
            _ => false,
        }
    }

    /// Whether `x` holds what the fields of `v` read as.
    #[verifier::opaque]
    pub open spec fn spec_decodes_to(v: JsonValue, x: MessageBotAdd) -> bool {
        match v {
            JsonValue::Object(w) => {
                let left0 = w@;
                let left1 = taken(left0, "bot_id"@);
                let left2 = taken(left1, "bot_link"@);
                let left3 = taken(left2, "text"@);
                let left4 = taken(left3, "ts"@);
                &&& optional_value::<BotId>(left0, "bot_id"@, x.bot_id)
                &&& optional_value::<String>(left1, "bot_link"@, x.bot_link)
                &&& text_value(left2, "text"@, x.text)
                &&& optional_value::<Timestamp>(left3, "ts"@, x.ts)
                &&& optional_value::<UserId>(left4, "user"@, x.user)
            },
            _ => false,
        }
    }

    /// Whether `e` is the error of the first check or field that fails on `v`.
    #[verifier::opaque]
    pub open spec fn spec_rejects_with(v: JsonValue, e: DecodeError) -> bool {
        match v {
            JsonValue::Object(w) => {
                let left0 = w@;
                let left1 = taken(left0, "bot_id"@);
                let left2 = taken(left1, "bot_link"@);
                let left3 = taken(left2, "text"@);
                let left4 = taken(left3, "ts"@);
                if !optional_ok::<BotId>(left0, "bot_id"@) {
                    field_failed::<BotId>(left0, "bot_id"@, e)
                } else if !optional_ok::<String>(left1, "bot_link"@) {
                    field_failed::<String>(left1, "bot_link"@, e)
                } else if !text_ok(left2, "text"@) {
                    field_failed::<String>(left2, "text"@, e)
                } else if !optional_ok::<Timestamp>(left3, "ts"@) {
                    field_failed::<Timestamp>(left3, "ts"@, e)
                } else if !optional_ok::<UserId>(left4, "user"@) {
                    field_failed::<UserId>(left4, "user"@, e)
                } else {
                    false
                }
            },
            _ => e == (DecodeError::WrongType { expected: "object" }),
        }
    }
}

impl Decode for MessageBotAdd {
    open spec fn accepts(v: JsonValue) -> bool {
        MessageBotAdd::spec_accepts(v)
    }

    open spec fn decodes_to(v: JsonValue, x: MessageBotAdd) -> bool {
        MessageBotAdd::spec_decodes_to(v, x)
    }

    open spec fn rejects_with(v: JsonValue, e: DecodeError) -> bool {
        MessageBotAdd::spec_rejects_with(v, e)
    }

    fn decode(v: JsonValue) -> Result<MessageBotAdd, DecodeError> {
        proof {
            reveal(MessageBotAdd::spec_accepts);
            reveal(MessageBotAdd::spec_decodes_to);
            reveal(MessageBotAdd::spec_rejects_with);
        }
        let mut wire = into_fields(v)?;
        let bot_id: Option<BotId> = optional(&mut wire, "bot_id")?;
        let bot_link: Option<String> = optional(&mut wire, "bot_link")?;
        let text: String = text_or_empty(&mut wire, "text")?;
        let ts: Option<Timestamp> = optional(&mut wire, "ts")?;
        let user: Option<UserId> = optional(&mut wire, "user")?;
        Ok(MessageBotAdd { bot_id, bot_link, text, ts, user })
    }
}

#[derive(Clone, Debug, PartialEq)]
pub struct MessageBotRemove {
    pub bot_id: Option<BotId>,
    pub bot_link: Option<String>,
    pub text: String,
    pub ts: Option<Timestamp>,
    pub user: Option<UserId>,
}

impl MessageBotRemove {
    /// Whether `v` decodes as the record: an object whose fields read in order.
    #[verifier::opaque]
    pub open spec fn spec_accepts(v: JsonValue) -> bool {
        match v {
            JsonValue::Object(w) => {
                let left0 = w@;
                let left1 = taken(left0, "bot_id"@);
                let left2 = taken(left1, "bot_link"@);
                let left3 = taken(left2, "text"@);
                let left4 = taken(left3, "ts"@);
                &&& optional_ok::<BotId>(left0, "bot_id"@)
                &&& optional_ok::<String>(left1, "bot_link"@)
                &&& text_ok(left2, "text"@)
                &&& optional_ok::<Timestamp>(left3, "ts"@)
                &&& optional_ok::<UserId>(left4, "user"@)
            },
            _ => false,
        }
    }

    /// Whether `x` holds what the fields of `v` read as.
    #[verifier::opaque]
    pub open spec fn spec_decodes_to(v: JsonValue, x: MessageBotRemove) -> bool {
        match v {
            JsonValue::Object(w) => {
                let left0 = w@;
                let left1 = taken(left0, "bot_id"@);
                let left2 = taken(left1, "bot_link"@);
                let left3 = taken(left2, "text"@);
                let left4 = taken(left3, "ts"@);
                &&& optional_value::<BotId>(left0, "bot_id"@, x.bot_id)
                &&& optional_value::<String>(left1, "bot_link"@, x.bot_link)
                &&& text_value(left2, "text"@, x.text)
                &&& optional_value::<Timestamp>(left3, "ts"@, x.ts)
                &&& optional_value::<UserId>(left4, "user"@, x.user)
            },
            _ => false,
        }
    }

    /// Whether `e` is the error of the first check or field that fails on `v`.
    #[verifier::opaque]
    pub open spec fn spec_rejects_with(v: JsonValue, e: DecodeError) -> bool {
        match v {
            JsonValue::Object(w) => {
                let left0 = w@;
                let left1 = taken(left0, "bot_id"@);
                let left2 = taken(left1, "bot_link"@);
                let left3 = taken(left2, "text"@);
                let left4 = taken(left3, "ts"@);
                if !optional_ok::<BotId>(left0, "bot_id"@) {
                    field_failed::<BotId>(left0, "bot_id"@, e)
                } else if !optional_ok::<String>(left1, "bot_link"@) {
                    field_failed::<String>(left1, "bot_link"@, e)
                } else if !text_ok(left2, "text"@) {
                    field_failed::<String>(left2, "text"@, e)
                } else if !optional_ok::<Timestamp>(left3, "ts"@) {
                    field_failed::<Timestamp>(left3, "ts"@, e)
                } else if !optional_ok::<UserId>(left4, "user"@) {
                    field_failed::<UserId>(left4, "user"@, e)
                } else {
                    false
                }
            },
            _ => e == (DecodeError::WrongType { expected: "object" }),
        }
    }
}

impl Decode for MessageBotRemove {
    open spec fn accepts(v: JsonValue) -> bool {
        MessageBotRemove::spec_accepts(v)
    }

    open spec fn decodes_to(v: JsonValue, x: MessageBotRemove) -> bool {
        MessageBotRemove::spec_decodes_to(v, x)
    }

    open spec fn rejects_with(v: JsonValue, e: DecodeError) -> bool {
        MessageBotRemove::spec_rejects_with(v, e)
    }

    fn decode(v: JsonValue) -> Result<MessageBotRemove, DecodeError> {
        proof {
            reveal(MessageBotRemove::spec_accepts);
            reveal(MessageBotRemove::spec_decodes_to);
            reveal(MessageBotRemove::spec_rejects_with);
        }
        let mut wire = into_fields(v)?;
        let bot_id: Option<BotId> = optional(&mut wire, "bot_id")?;
        let bot_link: Option<String> = optional(&mut wire, "bot_link")?;
        let text: String = text_or_empty(&mut wire, "text")?;
        let ts: Option<Timestamp> = optional(&mut wire, "ts")?;
        let user: Option<UserId> = optional(&mut wire, "user")?;
        Ok(MessageBotRemove { bot_id, bot_link, text, ts, user })
    }
}

#[derive(Clone, Debug, PartialEq)]
pub struct MessageBotMessage {
    pub bot_id: Option<BotId>,
    pub icons: Option<MessageBotMessageIcons>,
    pub text: String,
    pub ts: Option<Timestamp>,
    pub username: Option<String>,
    pub channel: Option<ConversationId>,
    pub team: Option<TeamId>,
    pub reactions: Vec<Reaction>,
    pub attachments: Option<Vec<MessageStandardAttachment>>,
}

impl MessageBotMessage {
    /// Whether `v` decodes as the record: an object whose fields read in order.
    #[verifier::opaque]
    pub open spec fn spec_accepts(v: JsonValue) -> bool {
        match v {
            JsonValue::Object(w) => {
                let left0 = w@;
                let left1 = taken(left0, "bot_id"@);
                let left2 = taken(left1, "icons"@);
                let left3 = taken(left2, "text"@);
                let left4 = taken(left3, "ts"@);
                let left5 = taken(left4, "username"@);
                let left6 = taken(left5, "channel"@);
                let left7 = taken(left6, "team"@);
                let left8 = taken(left7, "reactions"@);
                &&& optional_ok::<BotId>(left0, "bot_id"@)
                &&& optional_ok::<MessageBotMessageIcons>(left1, "icons"@)
                &&& text_ok(left2, "text"@)
                &&& optional_ok::<Timestamp>(left3, "ts"@)
                &&& optional_ok::<String>(left4, "username"@)
                &&& optional_ok::<ConversationId>(left5, "channel"@)
                &&& optional_ok::<TeamId>(left6, "team"@)
                &&& list_ok::<Reaction>(left7, "reactions"@)
                &&& optional_ok::<Vec<MessageStandardAttachment>>(left8, "attachments"@)
            },
            _ => false,
        }
    }

    /// Whether `x` holds what the fields of `v` read as.
    #[verifier::opaque]
    pub open spec fn spec_decodes_to(v: JsonValue, x: MessageBotMessage) -> bool {
        match v {
            JsonValue::Object(w) => {
                let left0 = w@;
                let left1 = taken(left0, "bot_id"@);
                let left2 = taken(left1, "icons"@);
                let left3 = taken(left2, "text"@);
                let left4 = taken(left3, "ts"@);
                let left5 = taken(left4, "username"@);
                let left6 = taken(left5, "channel"@);
                let left7 = taken(left6, "team"@);
                let left8 = taken(left7, "reactions"@);
                &&& optional_value::<BotId>(left0, "bot_id"@, x.bot_id)
                &&& optional_value::<MessageBotMessageIcons>(left1, "icons"@, x.icons)
                &&& text_value(left2, "text"@, x.text)
                &&& optional_value::<Timestamp>(left3, "ts"@, x.ts)
                &&& optional_value::<String>(left4, "username"@, x.username)
                &&& optional_value::<ConversationId>(left5, "channel"@, x.channel)
                &&& optional_value::<TeamId>(left6, "team"@, x.team)
                &&& list_value::<Reaction>(left7, "reactions"@, x.reactions)
                &&& optional_value::<Vec<MessageStandardAttachment>>(left8, "attachments"@, x.attachments)
            },
            _ => false,
        }
    }

    /// Whether `e` is the error of the first check or field that fails on `v`.
    #[verifier::opaque]
    pub open spec fn spec_rejects_with(v: JsonValue, e: DecodeError) -> bool {
        match v {
            JsonValue::Object(w) => {
                let left0 = w@;
                let left1 = taken(left0, "bot_id"@);
                let left2 = taken(left1, "icons"@);
                let left3 = taken(left2, "text"@);
                let left4 = taken(left3, "ts"@);
                let left5 = taken(left4, "username"@);
                let left6 = taken(left5, "channel"@);
                let left7 = taken(left6, "team"@);
                let left8 = taken(left7, "reactions"@);
                if !optional_ok::<BotId>(left0, "bot_id"@) {
                    field_failed::<BotId>(left0, "bot_id"@, e)
                } else if !optional_ok::<MessageBotMessageIcons>(left1, "icons"@) {
                    field_failed::<MessageBotMessageIcons>(left1, "icons"@, e)
                } else if !text_ok(left2, "text"@) {
                    field_failed::<String>(left2, "text"@, e)
                } else if !optional_ok::<Timestamp>(left3, "ts"@) {
                    field_failed::<Timestamp>(left3, "ts"@, e)
                } else if !optional_ok::<String>(left4, "username"@) {
                    field_failed::<String>(left4, "username"@, e)
                } else if !optional_ok::<ConversationId>(left5, "channel"@) {
                    field_failed::<ConversationId>(left5, "channel"@, e)
                } else if !optional_ok::<TeamId>(left6, "team"@) {
                    field_failed::<TeamId>(left6, "team"@, e)
                } else if !list_ok::<Reaction>(left7, "reactions"@) {
                    field_failed::<Vec<Reaction>>(left7, "reactions"@, e)
                } else if !optional_ok::<Vec<MessageStandardAttachment>>(left8, "attachments"@) {
                    field_failed::<Vec<MessageStandardAttachment>>(left8, "attachments"@, e)
                } else {
                    false
                }
            },
            _ => e == (DecodeError::WrongType { expected: "object" }),
        }
    }
}

impl Decode for MessageBotMessage {
    open spec fn accepts(v: JsonValue) -> bool {
        MessageBotMessage::spec_accepts(v)
    }

    open spec fn decodes_to(v: JsonValue, x: MessageBotMessage) -> bool {
        MessageBotMessage::spec_decodes_to(v, x)
    }

    open spec fn rejects_with(v: JsonValue, e: DecodeError) -> bool {
        MessageBotMessage::spec_rejects_with(v, e)
    }

    fn decode(v: JsonValue) -> Result<MessageBotMessage, DecodeError> {
        proof {
            reveal(MessageBotMessage::spec_accepts);
            reveal(MessageBotMessage::spec_decodes_to);
            reveal(MessageBotMessage::spec_rejects_with);
        }
        let mut wire = into_fields(v)?;
        let bot_id: Option<BotId> = optional(&mut wire, "bot_id")?;
        let icons: Option<MessageBotMessageIcons> = optional(&mut wire, "icons")?;
        let text: String = text_or_empty(&mut wire, "text")?;
        let ts: Option<Timestamp> = optional(&mut wire, "ts")?;
        let username: Option<String> = optional(&mut wire, "username")?;
        let channel: Option<ConversationId> = optional(&mut wire, "channel")?;
        let team: Option<TeamId> = optional(&mut wire, "team")?;
        let reactions: Vec<Reaction> = list_or_empty(&mut wire, "reactions")?;
        let attachments: Option<Vec<MessageStandardAttachment>> = optional(&mut wire, "attachments")?;
        Ok(MessageBotMessage { bot_id, icons, text, ts, username, channel, team, reactions, attachments })
    }
}

#[derive(Clone, Debug, PartialEq)]
pub struct MessageBotMessageIcons {
    pub image_36: Option<String>,
    pub image_48: Option<String>,
    pub image_72: Option<String>,
}

impl MessageBotMessageIcons {
    /// Whether `v` decodes as the record: an object whose fields read in order.
    #[verifier::opaque]
    pub open spec fn spec_accepts(v: JsonValue) -> bool {
        match v {
            JsonValue::Object(w) => {
                let left0 = w@;
                let left1 = taken(left0, "image_36"@);
                let left2 = taken(left1, "image_48"@);
                &&& optional_ok::<String>(left0, "image_36"@)
                &&& optional_ok::<String>(left1, "image_48"@)
                &&& optional_ok::<String>(left2, "image_72"@)
            },
            _ => false,
        }
    }

    /// Whether `x` holds what the fields of `v` read as.
    #[verifier::opaque]
    pub open spec fn spec_decodes_to(v: JsonValue, x: MessageBotMessageIcons) -> bool {
        match v {
            JsonValue::Object(w) => {
                let left0 = w@;
                let left1 = taken(left0, "image_36"@);
                let left2 = taken(left1, "image_48"@);
                &&& optional_value::<String>(left0, "image_36"@, x.image_36)
                &&& optional_value::<String>(left1, "image_48"@, x.image_48)
                &&& optional_value::<String>(left2, "image_72"@, x.image_72)
            },
            _ => false,
        }
    }

    /// Whether `e` is the error of the first check or field that fails on `v`.
    #[verifier::opaque]
    pub open spec fn spec_rejects_with(v: JsonValue, e: DecodeError) -> bool {
        match v {
            JsonValue::Object(w) => {
                let left0 = w@;
                let left1 = taken(left0, "image_36"@);
                let left2 = taken(left1, "image_48"@);
                if !optional_ok::<String>(left0, "image_36"@) {
                    field_failed::<String>(left0, "image_36"@, e)
                } else if !optional_ok::<String>(left1, "image_48"@) {
                    field_failed::<String>(left1, "image_48"@, e)
                } else if !optional_ok::<String>(left2, "image_72"@) {
                    field_failed::<String>(left2, "image_72"@, e)
                } else {
                    false
                }
            },
            _ => e == (DecodeError::WrongType { expected: "object" }),
        }
    }
}

impl Decode for MessageBotMessageIcons {
    open spec fn accepts(v: JsonValue) -> bool {
        MessageBotMessageIcons::spec_accepts(v)
    }

    open spec fn decodes_to(v: JsonValue, x: MessageBotMessageIcons) -> bool {
        MessageBotMessageIcons::spec_decodes_to(v, x)
    }

    open spec fn rejects_with(v: JsonValue, e: DecodeError) -> bool {
        MessageBotMessageIcons::spec_rejects_with(v, e)
    }

    fn decode(v: JsonValue) -> Result<MessageBotMessageIcons, DecodeError> {
        proof {
            reveal(MessageBotMessageIcons::spec_accepts);
            reveal(MessageBotMessageIcons::spec_decodes_to);
            reveal(MessageBotMessageIcons::spec_rejects_with);
        }
        let mut wire = into_fields(v)?;
        let image_36: Option<String> = optional(&mut wire, "image_36")?;
        let image_48: Option<String> = optional(&mut wire, "image_48")?;
        let image_72: Option<String> = optional(&mut wire, "image_72")?;
        Ok(MessageBotMessageIcons { image_36, image_48, image_72 })
    }
}

#[derive(Clone, Debug, PartialEq)]
pub struct MessageChannelArchive {
    pub members: Option<Vec<String>>,
    pub text: String,
    pub ts: Option<Timestamp>,
    pub user: Option<UserId>,
}

impl MessageChannelArchive {
    /// Whether `v` decodes as the record: an object whose fields read in order.
    #[verifier::opaque]
    pub open spec fn spec_accepts(v: JsonValue) -> bool {
        match v {
            JsonValue::Object(w) => {
                let left0 = w@;
                let left1 = taken(left0, "members"@);
                let left2 = taken(left1, "text"@);
                let left3 = taken(left2, "ts"@);
                &&& optional_ok::<Vec<String>>(left0, "members"@)
                &&& text_ok(left1, "text"@)
                &&& optional_ok::<Timestamp>(left2, "ts"@)
                &&& optional_ok::<UserId>(left3, "user"@)
            },
            _ => false,
        }
    }

    /// Whether `x` holds what the fields of `v` read as.
    #[verifier::opaque]
    pub open spec fn spec_decodes_to(v: JsonValue, x: MessageChannelArchive) -> bool {
        match v {
            JsonValue::Object(w) => {
                let left0 = w@;
                let left1 = taken(left0, "members"@);
                let left2 = taken(left1, "text"@);
                let left3 = taken(left2, "ts"@);
                &&& optional_value::<Vec<String>>(left0, "members"@, x.members)
                &&& text_value(left1, "text"@, x.text)
                &&& optional_value::<Timestamp>(left2, "ts"@, x.ts)
                &&& optional_value::<UserId>(left3, "user"@, x.user)
            },
            _ => false,
        }
    }

    /// Whether `e` is the error of the first check or field that fails on `v`.
    #[verifier::opaque]
    pub open spec fn spec_rejects_with(v: JsonValue, e: DecodeError) -> bool {
        match v {
            JsonValue::Object(w) => {
                let left0 = w@;
                let left1 = taken(left0, "members"@);
                let left2 = taken(left1, "text"@);
                let left3 = taken(left2, "ts"@);
                if !optional_ok::<Vec<String>>(left0, "members"@) {
                    field_failed::<Vec<String>>(left0, "members"@, e)
                } else if !text_ok(left1, "text"@) {
                    field_failed::<String>(left1, "text"@, e)
                } else if !optional_ok::<Timestamp>(left2, "ts"@) {
                    field_failed::<Timestamp>(left2, "ts"@, e)
                } else if !optional_ok::<UserId>(left3, "user"@) {
                    field_failed::<UserId>(left3, "user"@, e)
                } else {
                    false
                }
            },
            _ => e == (DecodeError::WrongType { expected: "object" }),
        }
    }
}

impl Decode for MessageChannelArchive {
    open spec fn accepts(v: JsonValue) -> bool {
        MessageChannelArchive::spec_accepts(v)
    }

    open spec fn decodes_to(v: JsonValue, x: MessageChannelArchive) -> bool {
        MessageChannelArchive::spec_decodes_to(v, x)
    }

    open spec fn rejects_with(v: JsonValue, e: DecodeError) -> bool {
        MessageChannelArchive::spec_rejects_with(v, e)
    }

    fn decode(v: JsonValue) -> Result<MessageChannelArchive, DecodeError> {
        proof {
            reveal(MessageChannelArchive::spec_accepts);
            reveal(MessageChannelArchive::spec_decodes_to);
            reveal(MessageChannelArchive::spec_rejects_with);
        }
        let mut wire = into_fields(v)?;
        let members: Option<Vec<String>> = optional(&mut wire, "members")?;
        let text: String = text_or_empty(&mut wire, "text")?;
        let ts: Option<Timestamp> = optional(&mut wire, "ts")?;
        let user: Option<UserId> = optional(&mut wire, "user")?;
        Ok(MessageChannelArchive { members, text, ts, user })
    }
}

/// A user joined a channel. The record is strict: besides its own fields it admits
/// only the `type` and `subtype` discriminators that the message union leaves in place.
#[derive(Clone, Debug, PartialEq)]
pub struct MessageChannelJoin {
    pub text: String,
    pub ts: Option<Timestamp>,
    pub user: Option<UserId>,
}

impl MessageChannelJoin {
    /// The fields the record declares; it admits no others.
    pub open spec fn declared_fields() -> Seq<&'static str> {
        seq!["type", "subtype", "text", "ts", "user"]
    }
}

impl MessageChannelJoin {
    /// Whether `v` decodes as the record: an object whose fields read in order.
    #[verifier::opaque]
    pub open spec fn spec_accepts(v: JsonValue) -> bool {
        match v {
            JsonValue::Object(w) => {
                let left0 = w@;
                let left1 = taken(left0, "text"@);
                let left2 = taken(left1, "ts"@);
                &&& all_known(left0, MessageChannelJoin::declared_fields())
                &&& text_ok(left0, "text"@)
                &&& optional_ok::<Timestamp>(left1, "ts"@)
                &&& optional_ok::<UserId>(left2, "user"@)
            },
            _ => false,
        }
    }

    /// Whether `x` holds what the fields of `v` read as.
    #[verifier::opaque]
    pub open spec fn spec_decodes_to(v: JsonValue, x: MessageChannelJoin) -> bool {
        match v {
            JsonValue::Object(w) => {
                let left0 = w@;
                let left1 = taken(left0, "text"@);
                let left2 = taken(left1, "ts"@);
                &&& text_value(left0, "text"@, x.text)
                &&& optional_value::<Timestamp>(left1, "ts"@, x.ts)
                &&& optional_value::<UserId>(left2, "user"@, x.user)
            },
            _ => false,
        }
    }

    /// Whether `e` is the error of the first check or field that fails on `v`.
    #[verifier::opaque]
    pub open spec fn spec_rejects_with(v: JsonValue, e: DecodeError) -> bool {
        match v {
            JsonValue::Object(w) => {
                let left0 = w@;
                let left1 = taken(left0, "text"@);
                let left2 = taken(left1, "ts"@);
                if !all_known(left0, MessageChannelJoin::declared_fields()) {
                    e == (DecodeError::UnknownField { field: first_unknown_key(left0, MessageChannelJoin::declared_fields()) })
                } else if !text_ok(left0, "text"@) {
                    field_failed::<String>(left0, "text"@, e)
                } else if !optional_ok::<Timestamp>(left1, "ts"@) {
                    field_failed::<Timestamp>(left1, "ts"@, e)
                } else if !optional_ok::<UserId>(left2, "user"@) {
                    field_failed::<UserId>(left2, "user"@, e)
                } else {
                    false
                }
            },
            _ => e == (DecodeError::WrongType { expected: "object" }),
        }
    }
}

impl Decode for MessageChannelJoin {
    open spec fn accepts(v: JsonValue) -> bool {
        MessageChannelJoin::spec_accepts(v)
    }

    open spec fn decodes_to(v: JsonValue, x: MessageChannelJoin) -> bool {
        MessageChannelJoin::spec_decodes_to(v, x)
    }

    open spec fn rejects_with(v: JsonValue, e: DecodeError) -> bool {
        MessageChannelJoin::spec_rejects_with(v, e)
    }

    fn decode(v: JsonValue) -> Result<MessageChannelJoin, DecodeError> {
        proof {
            reveal(MessageChannelJoin::spec_accepts);
            reveal(MessageChannelJoin::spec_decodes_to);
            reveal(MessageChannelJoin::spec_rejects_with);
        }
        let mut wire = into_fields(v)?;
        let known: &[&str] = &["type", "subtype", "text", "ts", "user"];
        assert(known@ =~= MessageChannelJoin::declared_fields());
        check_fields(&wire, known)?;
        let text: String = text_or_empty(&mut wire, "text")?;
        let ts: Option<Timestamp> = optional(&mut wire, "ts")?;
        let user: Option<UserId> = optional(&mut wire, "user")?;
        Ok(MessageChannelJoin { text, ts, user })
    }
}

#[derive(Clone, Debug, PartialEq)]
pub struct MessageChannelLeave {
    pub text: String,
    pub ts: Option<Timestamp>,
    pub user: Option<UserId>,
}

impl MessageChannelLeave {
    /// Whether `v` decodes as the record: an object whose fields read in order.
    #[verifier::opaque]
    pub open spec fn spec_accepts(v: JsonValue) -> bool {
        match v {
            JsonValue::Object(w) => {
                let left0 = w@;
                let left1 = taken(left0, "text"@);
                let left2 = taken(left1, "ts"@);
                &&& text_ok(left0, "text"@)
                &&& optional_ok::<Timestamp>(left1, "ts"@)
                &&& optional_ok::<UserId>(left2, "user"@)
            },
            _ => false,
        }
    }

    /// Whether `x` holds what the fields of `v` read as.
    #[verifier::opaque]
    pub open spec fn spec_decodes_to(v: JsonValue, x: MessageChannelLeave) -> bool {
        match v {
            JsonValue::Object(w) => {
                let left0 = w@;
                let left1 = taken(left0, "text"@);
                let left2 = taken(left1, "ts"@);
                &&& text_value(left0, "text"@, x.text)
                &&& optional_value::<Timestamp>(left1, "ts"@, x.ts)
                &&& optional_value::<UserId>(left2, "user"@, x.user)
            },
            _ => false,
        }
    }

    /// Whether `e` is the error of the first check or field that fails on `v`.
    #[verifier::opaque]
    pub open spec fn spec_rejects_with(v: JsonValue, e: DecodeError) -> bool {
        match v {
            JsonValue::Object(w) => {
                let left0 = w@;
                let left1 = taken(left0, "text"@);
                let left2 = taken(left1, "ts"@);
                if !text_ok(left0, "text"@) {
                    field_failed::<String>(left0, "text"@, e)
                } else if !optional_ok::<Timestamp>(left1, "ts"@) {
                    field_failed::<Timestamp>(left1, "ts"@, e)
                } else if !optional_ok::<UserId>(left2, "user"@) {
                    field_failed::<UserId>(left2, "user"@, e)
                } else {
                    false
                }
            },
            _ => e == (DecodeError::WrongType { expected: "object" }),
        }
    }
}

impl Decode for MessageChannelLeave {
    open spec fn accepts(v: JsonValue) -> bool {
        MessageChannelLeave::spec_accepts(v)
    }

    open spec fn decodes_to(v: JsonValue, x: MessageChannelLeave) -> bool {
        MessageChannelLeave::spec_decodes_to(v, x)
    }

    open spec fn rejects_with(v: JsonValue, e: DecodeError) -> bool {
        MessageChannelLeave::spec_rejects_with(v, e)
    }

    fn decode(v: JsonValue) -> Result<MessageChannelLeave, DecodeError> {
        proof {
            reveal(MessageChannelLeave::spec_accepts);
            reveal(MessageChannelLeave::spec_decodes_to);
            reveal(MessageChannelLeave::spec_rejects_with);
        }
        let mut wire = into_fields(v)?;
        let text: String = text_or_empty(&mut wire, "text")?;
        let ts: Option<Timestamp> = optional(&mut wire, "ts")?;
        let user: Option<UserId> = optional(&mut wire, "user")?;
        Ok(MessageChannelLeave { text, ts, user })
    }
}

#[derive(Clone, Debug, PartialEq)]
pub struct MessageChannelName {
    pub name: Option<String>,
    pub old_name: Option<String>,
    pub text: String,
    pub ts: Option<Timestamp>,
    pub user: Option<UserId>,
}

impl MessageChannelName {
    /// Whether `v` decodes as the record: an object whose fields read in order.
    #[verifier::opaque]
    pub open spec fn spec_accepts(v: JsonValue) -> bool {
        match v {
            JsonValue::Object(w) => {
                let left0 = w@;
                let left1 = taken(left0, "name"@);
                let left2 = taken(left1, "old_name"@);
                let left3 = taken(left2, "text"@);
                let left4 = taken(left3, "ts"@);
                &&& optional_ok::<String>(left0, "name"@)
                &&& optional_ok::<String>(left1, "old_name"@)
                &&& text_ok(left2, "text"@)
                &&& optional_ok::<Timestamp>(left3, "ts"@)
                &&& optional_ok::<UserId>(left4, "user"@)
            },
            _ => false,
        }
    }

    /// Whether `x` holds what the fields of `v` read as.
    #[verifier::opaque]
    pub open spec fn spec_decodes_to(v: JsonValue, x: MessageChannelName) -> bool {
        match v {
            JsonValue::Object(w) => {
                let left0 = w@;
                let left1 = taken(left0, "name"@);
                let left2 = taken(left1, "old_name"@);
                let left3 = taken(left2, "text"@);
                let left4 = taken(left3, "ts"@);
                &&& optional_value::<String>(left0, "name"@, x.name)
                &&& optional_value::<String>(left1, "old_name"@, x.old_name)
                &&& text_value(left2, "text"@, x.text)
                &&& optional_value::<Timestamp>(left3, "ts"@, x.ts)
                &&& optional_value::<UserId>(left4, "user"@, x.user)
            },
            _ => false,
        }
    }

    /// Whether `e` is the error of the first check or field that fails on `v`.
    #[verifier::opaque]
    pub open spec fn spec_rejects_with(v: JsonValue, e: DecodeError) -> bool {
        match v {
            JsonValue::Object(w) => {
                let left0 = w@;
                let left1 = taken(left0, "name"@);
                let left2 = taken(left1, "old_name"@);
                let left3 = taken(left2, "text"@);
                let left4 = taken(left3, "ts"@);
                if !optional_ok::<String>(left0, "name"@) {
                    field_failed::<String>(left0, "name"@, e)
                } else if !optional_ok::<String>(left1, "old_name"@) {
                    field_failed::<String>(left1, "old_name"@, e)
                } else if !text_ok(left2, "text"@) {
                    field_failed::<String>(left2, "text"@, e)
                } else if !optional_ok::<Timestamp>(left3, "ts"@) {
                    field_failed::<Timestamp>(left3, "ts"@, e)
                } else if !optional_ok::<UserId>(left4, "user"@) {
                    field_failed::<UserId>(left4, "user"@, e)
                } else {
                    false
                }
            },
            _ => e == (DecodeError::WrongType { expected: "object" }),
        }
    }
}

impl Decode for MessageChannelName {
    open spec fn accepts(v: JsonValue) -> bool {
        MessageChannelName::spec_accepts(v)
    }

    open spec fn decodes_to(v: JsonValue, x: MessageChannelName) -> bool {
        MessageChannelName::spec_decodes_to(v, x)
    }

    open spec fn rejects_with(v: JsonValue, e: DecodeError) -> bool {
        MessageChannelName::spec_rejects_with(v, e)
    }

    fn decode(v: JsonValue) -> Result<MessageChannelName, DecodeError> {
        proof {
            reveal(MessageChannelName::spec_accepts);
            reveal(MessageChannelName::spec_decodes_to);
            reveal(MessageChannelName::spec_rejects_with);
        }
        let mut wire = into_fields(v)?;
        let name: Option<String> = optional(&mut wire, "name")?;
        let old_name: Option<String> = optional(&mut wire, "old_name")?;
        let text: String = text_or_empty(&mut wire, "text")?;
        let ts: Option<Timestamp> = optional(&mut wire, "ts")?;
        let user: Option<UserId> = optional(&mut wire, "user")?;
        Ok(MessageChannelName { name, old_name, text, ts, user })
    }
}

#[derive(Clone, Debug, PartialEq)]
pub struct MessageChannelPurpose {
    pub purpose: Option<String>,
    pub text: String,
    pub ts: Option<Timestamp>,
    pub user: Option<UserId>,
}

impl MessageChannelPurpose {
    /// Whether `v` decodes as the record: an object whose fields read in order.
    #[verifier::opaque]
    pub open spec fn spec_accepts(v: JsonValue) -> bool {
        match v {
            JsonValue::Object(w) => {
                let left0 = w@;
                let left1 = taken(left0, "purpose"@);
                let left2 = taken(left1, "text"@);
                let left3 = taken(left2, "ts"@);
                &&& optional_ok::<String>(left0, "purpose"@)
                &&& text_ok(left1, "text"@)
                &&& optional_ok::<Timestamp>(left2, "ts"@)
                &&& optional_ok::<UserId>(left3, "user"@)
            },
            _ => false,
        }
    }

    /// Whether `x` holds what the fields of `v` read as.
    #[verifier::opaque]
    pub open spec fn spec_decodes_to(v: JsonValue, x: MessageChannelPurpose) -> bool {
        match v {
            JsonValue::Object(w) => {
                let left0 = w@;
                let left1 = taken(left0, "purpose"@);
                let left2 = taken(left1, "text"@);
                let left3 = taken(left2, "ts"@);
                &&& optional_value::<String>(left0, "purpose"@, x.purpose)
                &&& text_value(left1, "text"@, x.text)
                &&& optional_value::<Timestamp>(left2, "ts"@, x.ts)
                &&& optional_value::<UserId>(left3, "user"@, x.user)
            },
            _ => false,
        }
    }

    /// Whether `e` is the error of the first check or field that fails on `v`.
    #[verifier::opaque]
    pub open spec fn spec_rejects_with(v: JsonValue, e: DecodeError) -> bool {
        match v {
            JsonValue::Object(w) => {
                let left0 = w@;
                let left1 = taken(left0, "purpose"@);
                let left2 = taken(left1, "text"@);
                let left3 = taken(left2, "ts"@);
                if !optional_ok::<String>(left0, "purpose"@) {
                    field_failed::<String>(left0, "purpose"@, e)
                } else if !text_ok(left1, "text"@) {
                    field_failed::<String>(left1, "text"@, e)
                } else if !optional_ok::<Timestamp>(left2, "ts"@) {
                    field_failed::<Timestamp>(left2, "ts"@, e)
                } else if !optional_ok::<UserId>(left3, "user"@) {
                    field_failed::<UserId>(left3, "user"@, e)
                } else {
                    false
                }
            },
            _ => e == (DecodeError::WrongType { expected: "object" }),
        }
    }
}

impl Decode for MessageChannelPurpose {
    open spec fn accepts(v: JsonValue) -> bool {
        MessageChannelPurpose::spec_accepts(v)
    }

    open spec fn decodes_to(v: JsonValue, x: MessageChannelPurpose) -> bool {
        MessageChannelPurpose::spec_decodes_to(v, x)
    }

    open spec fn rejects_with(v: JsonValue, e: DecodeError) -> bool {
        MessageChannelPurpose::spec_rejects_with(v, e)
    }

    fn decode(v: JsonValue) -> Result<MessageChannelPurpose, DecodeError> {
        proof {
            reveal(MessageChannelPurpose::spec_accepts);
            reveal(MessageChannelPurpose::spec_decodes_to);
            reveal(MessageChannelPurpose::spec_rejects_with);
        }
        let mut wire = into_fields(v)?;
        let purpose: Option<String> = optional(&mut wire, "purpose")?;
        let text: String = text_or_empty(&mut wire, "text")?;
        let ts: Option<Timestamp> = optional(&mut wire, "ts")?;
        let user: Option<UserId> = optional(&mut wire, "user")?;
        Ok(MessageChannelPurpose { purpose, text, ts, user })
    }
}

#[derive(Clone, Debug, PartialEq)]
pub struct MessageChannelTopic {
    pub text: String,
    pub topic: Option<String>,
    pub ts: Option<Timestamp>,
    pub user: Option<UserId>,
}

impl MessageChannelTopic {
    /// Whether `v` decodes as the record: an object whose fields read in order.
    #[verifier::opaque]
    pub open spec fn spec_accepts(v: JsonValue) -> bool {
        match v {
            JsonValue::Object(w) => {
                let left0 = w@;
                let left1 = taken(left0, "text"@);
                let left2 = taken(left1, "topic"@);
                let left3 = taken(left2, "ts"@);
                &&& text_ok(left0, "text"@)
                &&& optional_ok::<String>(left1, "topic"@)
                &&& optional_ok::<Timestamp>(left2, "ts"@)
                &&& optional_ok::<UserId>(left3, "user"@)
            },
            _ => false,
        }
    }

    /// Whether `x` holds what the fields of `v` read as.
    #[verifier::opaque]
    pub open spec fn spec_decodes_to(v: JsonValue, x: MessageChannelTopic) -> bool {
        match v {
            JsonValue::Object(w) => {
                let left0 = w@;
                let left1 = taken(left0, "text"@);
                let left2 = taken(left1, "topic"@);
                let left3 = taken(left2, "ts"@);
                &&& text_value(left0, "text"@, x.text)
                &&& optional_value::<String>(left1, "topic"@, x.topic)
                &&& optional_value::<Timestamp>(left2, "ts"@, x.ts)
                &&& optional_value::<UserId>(left3, "user"@, x.user)
            },
            _ => false,
        }
    }

    /// Whether `e` is the error of the first check or field that fails on `v`.
    #[verifier::opaque]
    pub open spec fn spec_rejects_with(v: JsonValue, e: DecodeError) -> bool {
        match v {
            JsonValue::Object(w) => {
                let left0 = w@;
                let left1 = taken(left0, "text"@);
                let left2 = taken(left1, "topic"@);
                let left3 = taken(left2, "ts"@);
                if !text_ok(left0, "text"@) {
                    field_failed::<String>(left0, "text"@, e)
                } else if !optional_ok::<String>(left1, "topic"@) {
                    field_failed::<String>(left1, "topic"@, e)
                } else if !optional_ok::<Timestamp>(left2, "ts"@) {
                    field_failed::<Timestamp>(left2, "ts"@, e)
                } else if !optional_ok::<UserId>(left3, "user"@) {
                    field_failed::<UserId>(left3, "user"@, e)
                } else {
                    false
                }
            },
            _ => e == (DecodeError::WrongType { expected: "object" }),
        }
    }
}

impl Decode for MessageChannelTopic {
    open spec fn accepts(v: JsonValue) -> bool {
        MessageChannelTopic::spec_accepts(v)
    }

    open spec fn decodes_to(v: JsonValue, x: MessageChannelTopic) -> bool {
        MessageChannelTopic::spec_decodes_to(v, x)
    }

    open spec fn rejects_with(v: JsonValue, e: DecodeError) -> bool {
        MessageChannelTopic::spec_rejects_with(v, e)
    }

    fn decode(v: JsonValue) -> Result<MessageChannelTopic, DecodeError> {
        proof {
            reveal(MessageChannelTopic::spec_accepts);
            reveal(MessageChannelTopic::spec_decodes_to);
            reveal(MessageChannelTopic::spec_rejects_with);
        }
        let mut wire = into_fields(v)?;
        let text: String = text_or_empty(&mut wire, "text")?;
        let topic: Option<String> = optional(&mut wire, "topic")?;
        let ts: Option<Timestamp> = optional(&mut wire, "ts")?;
        let user: Option<UserId> = optional(&mut wire, "user")?;
        Ok(MessageChannelTopic { text, topic, ts, user })
    }
}

#[derive(Clone, Debug, PartialEq)]
pub struct MessageChannelUnarchive {
    pub text: String,
    pub ts: Option<Timestamp>,
    pub user: Option<UserId>,
}

impl MessageChannelUnarchive {
    /// Whether `v` decodes as the record: an object whose fields read in order.
    #[verifier::opaque]
    pub open spec fn spec_accepts(v: JsonValue) -> bool {
        match v {
            JsonValue::Object(w) => {
                let left0 = w@;
                let left1 = taken(left0, "text"@);
                let left2 = taken(left1, "ts"@);
                &&& text_ok(left0, "text"@)
                &&& optional_ok::<Timestamp>(left1, "ts"@)
                &&& optional_ok::<UserId>(left2, "user"@)
            },
            _ => false,
        }
    }

    /// Whether `x` holds what the fields of `v` read as.
    #[verifier::opaque]
    pub open spec fn spec_decodes_to(v: JsonValue, x: MessageChannelUnarchive) -> bool {
        match v {
            JsonValue::Object(w) => {
                let left0 = w@;
                let left1 = taken(left0, "text"@);
                let left2 = taken(left1, "ts"@);
                &&& text_value(left0, "text"@, x.text)
                &&& optional_value::<Timestamp>(left1, "ts"@, x.ts)
                &&& optional_value::<UserId>(left2, "user"@, x.user)
            },
            _ => false,
        }
    }

    /// Whether `e` is the error of the first check or field that fails on `v`.
    #[verifier::opaque]
    pub open spec fn spec_rejects_with(v: JsonValue, e: DecodeError) -> bool {
        match v {
            JsonValue::Object(w) => {
                let left0 = w@;
                let left1 = taken(left0, "text"@);
                let left2 = taken(left1, "ts"@);
                if !text_ok(left0, "text"@) {
                    field_failed::<String>(left0, "text"@, e)
                } else if !optional_ok::<Timestamp>(left1, "ts"@) {
                    field_failed::<Timestamp>(left1, "ts"@, e)
                } else if !optional_ok::<UserId>(left2, "user"@) {
                    field_failed::<UserId>(left2, "user"@, e)
                } else {
                    false
                }
            },
            _ => e == (DecodeError::WrongType { expected: "object" }),
        }
    }
}

impl Decode for MessageChannelUnarchive {
    open spec fn accepts(v: JsonValue) -> bool {
        MessageChannelUnarchive::spec_accepts(v)
    }

    open spec fn decodes_to(v: JsonValue, x: MessageChannelUnarchive) -> bool {
        MessageChannelUnarchive::spec_decodes_to(v, x)
    }

    open spec fn rejects_with(v: JsonValue, e: DecodeError) -> bool {
        MessageChannelUnarchive::spec_rejects_with(v, e)
    }

    fn decode(v: JsonValue) -> Result<MessageChannelUnarchive, DecodeError> {
        proof {
            reveal(MessageChannelUnarchive::spec_accepts);
            reveal(MessageChannelUnarchive::spec_decodes_to);
            reveal(MessageChannelUnarchive::spec_rejects_with);
        }
        let mut wire = into_fields(v)?;
        let text: String = text_or_empty(&mut wire, "text")?;
        let ts: Option<Timestamp> = optional(&mut wire, "ts")?;
        let user: Option<UserId> = optional(&mut wire, "user")?;
        Ok(MessageChannelUnarchive { text, ts, user })
    }
}

#[derive(Clone, Debug, PartialEq)]
pub struct MessageFileComment {
    pub comment: Option<FileComment>,
    pub file: Option<File>,
    pub text: String,
    pub ts: Option<Timestamp>,
}

impl MessageFileComment {
    /// Whether `v` decodes as the record: an object whose fields read in order.
    #[verifier::opaque]
    pub open spec fn spec_accepts(v: JsonValue) -> bool {
        match v {
            JsonValue::Object(w) => {
                let left0 = w@;
                let left1 = taken(left0, "comment"@);
                let left2 = taken(left1, "file"@);
                let left3 = taken(left2, "text"@);
                &&& optional_ok::<FileComment>(left0, "comment"@)
                &&& optional_ok::<File>(left1, "file"@)
                &&& text_ok(left2, "text"@)
                &&& optional_ok::<Timestamp>(left3, "ts"@)
            },
            _ => false,
        }
    }

    /// Whether `x` holds what the fields of `v` read as.
    #[verifier::opaque]
    pub open spec fn spec_decodes_to(v: JsonValue, x: MessageFileComment) -> bool {
        match v {
            JsonValue::Object(w) => {
                let left0 = w@;
                let left1 = taken(left0, "comment"@);
                let left2 = taken(left1, "file"@);
                let left3 = taken(left2, "text"@);
                &&& optional_value::<FileComment>(left0, "comment"@, x.comment)
                &&& optional_value::<File>(left1, "file"@, x.file)
                &&& text_value(left2, "text"@, x.text)
                &&& optional_value::<Timestamp>(left3, "ts"@, x.ts)
            },
            _ => false,
        }
    }

    /// Whether `e` is the error of the first check or field that fails on `v`.
    #[verifier::opaque]
    pub open spec fn spec_rejects_with(v: JsonValue, e: DecodeError) -> bool {
        match v {
            JsonValue::Object(w) => {
                let left0 = w@;
                let left1 = taken(left0, "comment"@);
                let left2 = taken(left1, "file"@);
                let left3 = taken(left2, "text"@);
                if !optional_ok::<FileComment>(left0, "comment"@) {
                    field_failed::<FileComment>(left0, "comment"@, e)
                } else if !optional_ok::<File>(left1, "file"@) {
                    field_failed::<File>(left1, "file"@, e)
                } else if !text_ok(left2, "text"@) {
                    field_failed::<String>(left2, "text"@, e)
                } else if !optional_ok::<Timestamp>(left3, "ts"@) {
                    field_failed::<Timestamp>(left3, "ts"@, e)
                } else {
                    false
                }
            },
            _ => e == (DecodeError::WrongType { expected: "object" }),
        }
    }
}

impl Decode for MessageFileComment {
    open spec fn accepts(v: JsonValue) -> bool {
        MessageFileComment::spec_accepts(v)
    }

    open spec fn decodes_to(v: JsonValue, x: MessageFileComment) -> bool {
        MessageFileComment::spec_decodes_to(v, x)
    }

    open spec fn rejects_with(v: JsonValue, e: DecodeError) -> bool {
        MessageFileComment::spec_rejects_with(v, e)
    }

    fn decode(v: JsonValue) -> Result<MessageFileComment, DecodeError> {
        proof {
            reveal(MessageFileComment::spec_accepts);
            reveal(MessageFileComment::spec_decodes_to);
            reveal(MessageFileComment::spec_rejects_with);
        }
        let mut wire = into_fields(v)?;
        let comment: Option<FileComment> = optional(&mut wire, "comment")?;
        let file: Option<File> = optional(&mut wire, "file")?;
        let text: String = text_or_empty(&mut wire, "text")?;
        let ts: Option<Timestamp> = optional(&mut wire, "ts")?;
        Ok(MessageFileComment { comment, file, text, ts })
    }
}

#[derive(Clone, Debug, PartialEq)]
pub struct MessageFileMention {
    pub file: Option<File>,
    pub text: String,
    pub ts: Option<Timestamp>,
    pub user: Option<UserId>,
}

impl MessageFileMention {
    /// Whether `v` decodes as the record: an object whose fields read in order.
    #[verifier::opaque]
    pub open spec fn spec_accepts(v: JsonValue) -> bool {
        match v {
            JsonValue::Object(w) => {
                let left0 = w@;
                let left1 = taken(left0, "file"@);
                let left2 = taken(left1, "text"@);
                let left3 = taken(left2, "ts"@);
                &&& optional_ok::<File>(left0, "file"@)
                &&& text_ok(left1, "text"@)
                &&& optional_ok::<Timestamp>(left2, "ts"@)
                &&& optional_ok::<UserId>(left3, "user"@)
            },
            _ => false,
        }
    }

    /// Whether `x` holds what the fields of `v` read as.
    #[verifier::opaque]
    pub open spec fn spec_decodes_to(v: JsonValue, x: MessageFileMention) -> bool {
        match v {
            JsonValue::Object(w) => {
                let left0 = w@;
                let left1 = taken(left0, "file"@);
                let left2 = taken(left1, "text"@);
                let left3 = taken(left2, "ts"@);
                &&& optional_value::<File>(left0, "file"@, x.file)
                &&& text_value(left1, "text"@, x.text)
                &&& optional_value::<Timestamp>(left2, "ts"@, x.ts)
                &&& optional_value::<UserId>(left3, "user"@, x.user)
            },
            _ => false,
        }
    }

    /// Whether `e` is the error of the first check or field that fails on `v`.
    #[verifier::opaque]
    pub open spec fn spec_rejects_with(v: JsonValue, e: DecodeError) -> bool {
        match v {
            JsonValue::Object(w) => {
                let left0 = w@;
                let left1 = taken(left0, "file"@);
                let left2 = taken(left1, "text"@);
                let left3 = taken(left2, "ts"@);
                if !optional_ok::<File>(left0, "file"@) {
                    field_failed::<File>(left0, "file"@, e)
                } else if !text_ok(left1, "text"@) {
                    field_failed::<String>(left1, "text"@, e)
                } else if !optional_ok::<Timestamp>(left2, "ts"@) {
                    field_failed::<Timestamp>(left2, "ts"@, e)
                } else if !optional_ok::<UserId>(left3, "user"@) {
                    field_failed::<UserId>(left3, "user"@, e)
                } else {
                    false
                }
            },
            _ => e == (DecodeError::WrongType { expected: "object" }),
        }
    }
}

impl Decode for MessageFileMention {
    open spec fn accepts(v: JsonValue) -> bool {
        MessageFileMention::spec_accepts(v)
    }

    open spec fn decodes_to(v: JsonValue, x: MessageFileMention) -> bool {
        MessageFileMention::spec_decodes_to(v, x)
    }

    open spec fn rejects_with(v: JsonValue, e: DecodeError) -> bool {
        MessageFileMention::spec_rejects_with(v, e)
    }

    fn decode(v: JsonValue) -> Result<MessageFileMention, DecodeError> {
        proof {
            reveal(MessageFileMention::spec_accepts);
            reveal(MessageFileMention::spec_decodes_to);
            reveal(MessageFileMention::spec_rejects_with);
        }
        let mut wire = into_fields(v)?;
        let file: Option<File> = optional(&mut wire, "file")?;
        let text: String = text_or_empty(&mut wire, "text")?;
        let ts: Option<Timestamp> = optional(&mut wire, "ts")?;
        let user: Option<UserId> = optional(&mut wire, "user")?;
        Ok(MessageFileMention { file, text, ts, user })
    }
}

#[derive(Clone, Debug, PartialEq)]
pub struct MessageFileShare {
    pub channel: Option<ConversationId>,
    pub file: Option<File>,
    pub text: String,
    pub ts: Option<Timestamp>,
    pub upload: Option<bool>,
    pub user: Option<UserId>,
    pub reactions: Vec<Reaction>,
}

impl MessageFileShare {
    /// Whether `v` decodes as the record: an object whose fields read in order.
    #[verifier::opaque]
    pub open spec fn spec_accepts(v: JsonValue) -> bool {
        match v {
            JsonValue::Object(w) => {
                let left0 = w@;
                let left1 = taken(left0, "channel"@);
                let left2 = taken(left1, "file"@);
                let left3 = taken(left2, "text"@);
                let left4 = taken(left3, "ts"@);
                let left5 = taken(left4, "upload"@);
                let left6 = taken(left5, "user"@);
                &&& optional_ok::<ConversationId>(left0, "channel"@)
                &&& optional_ok::<File>(left1, "file"@)
                &&& text_ok(left2, "text"@)
                &&& optional_ok::<Timestamp>(left3, "ts"@)
                &&& optional_ok::<bool>(left4, "upload"@)
                &&& optional_ok::<UserId>(left5, "user"@)
                &&& list_ok::<Reaction>(left6, "reactions"@)
            },
            _ => false,
        }
    }

    /// Whether `x` holds what the fields of `v` read as.
    #[verifier::opaque]
    pub open spec fn spec_decodes_to(v: JsonValue, x: MessageFileShare) -> bool {
        match v {
            JsonValue::Object(w) => {
                let left0 = w@;
                let left1 = taken(left0, "channel"@);
                let left2 = taken(left1, "file"@);
                let left3 = taken(left2, "text"@);
                let left4 = taken(left3, "ts"@);
                let left5 = taken(left4, "upload"@);
                let left6 = taken(left5, "user"@);
                &&& optional_value::<ConversationId>(left0, "channel"@, x.channel)
                &&& optional_value::<File>(left1, "file"@, x.file)
                &&& text_value(left2, "text"@, x.text)
                &&& optional_value::<Timestamp>(left3, "ts"@, x.ts)
                &&& optional_value::<bool>(left4, "upload"@, x.upload)
                &&& optional_value::<UserId>(left5, "user"@, x.user)
                &&& list_value::<Reaction>(left6, "reactions"@, x.reactions)
            },
            _ => false,
        }
    }

    /// Whether `e` is the error of the first check or field that fails on `v`.
    #[verifier::opaque]
    pub open spec fn spec_rejects_with(v: JsonValue, e: DecodeError) -> bool {
        match v {
            JsonValue::Object(w) => {
                let left0 = w@;
                let left1 = taken(left0, "channel"@);
                let left2 = taken(left1, "file"@);
                let left3 = taken(left2, "text"@);
                let left4 = taken(left3, "ts"@);
                let left5 = taken(left4, "upload"@);
                let left6 = taken(left5, "user"@);
                if !optional_ok::<ConversationId>(left0, "channel"@) {
                    field_failed::<ConversationId>(left0, "channel"@, e)
                } else if !optional_ok::<File>(left1, "file"@) {
                    field_failed::<File>(left1, "file"@, e)
                } else if !text_ok(left2, "text"@) {
                    field_failed::<String>(left2, "text"@, e)
                } else if !optional_ok::<Timestamp>(left3, "ts"@) {
                    field_failed::<Timestamp>(left3, "ts"@, e)
                } else if !optional_ok::<bool>(left4, "upload"@) {
                    field_failed::<bool>(left4, "upload"@, e)
                } else if !optional_ok::<UserId>(left5, "user"@) {
                    field_failed::<UserId>(left5, "user"@, e)
                } else if !list_ok::<Reaction>(left6, "reactions"@) {
                    field_failed::<Vec<Reaction>>(left6, "reactions"@, e)
                } else {
                    false
                }
            },
            _ => e == (DecodeError::WrongType { expected: "object" }),
        }
    }
}

impl Decode for MessageFileShare {
    open spec fn accepts(v: JsonValue) -> bool {
        MessageFileShare::spec_accepts(v)
    }

    open spec fn decodes_to(v: JsonValue, x: MessageFileShare) -> bool {
        MessageFileShare::spec_decodes_to(v, x)
    }

    open spec fn rejects_with(v: JsonValue, e: DecodeError) -> bool {
        MessageFileShare::spec_rejects_with(v, e)
    }

    fn decode(v: JsonValue) -> Result<MessageFileShare, DecodeError> {
        proof {
            reveal(MessageFileShare::spec_accepts);
            reveal(MessageFileShare::spec_decodes_to);
            reveal(MessageFileShare::spec_rejects_with);
        }
        let mut wire = into_fields(v)?;
        let channel: Option<ConversationId> = optional(&mut wire, "channel")?;
        let file: Option<File> = optional(&mut wire, "file")?;
        let text: String = text_or_empty(&mut wire, "text")?;
        let ts: Option<Timestamp> = optional(&mut wire, "ts")?;
        let upload: Option<bool> = optional(&mut wire, "upload")?;
        let user: Option<UserId> = optional(&mut wire, "user")?;
        let reactions: Vec<Reaction> = list_or_empty(&mut wire, "reactions")?;
        Ok(MessageFileShare { channel, file, text, ts, upload, user, reactions })
    }
}

#[derive(Clone, Debug, PartialEq)]
pub struct MessageGroupArchive {
    pub members: Option<Vec<String>>,
    pub text: String,
    pub ts: Option<Timestamp>,
    pub user: Option<UserId>,
}

impl MessageGroupArchive {
    /// Whether `v` decodes as the record: an object whose fields read in order.
    #[verifier::opaque]
    pub open spec fn spec_accepts(v: JsonValue) -> bool {
        match v {
            JsonValue::Object(w) => {
                let left0 = w@;
                let left1 = taken(left0, "members"@);
                let left2 = taken(left1, "text"@);
                let left3 = taken(left2, "ts"@);
                &&& optional_ok::<Vec<String>>(left0, "members"@)
                &&& text_ok(left1, "text"@)
                &&& optional_ok::<Timestamp>(left2, "ts"@)
                &&& optional_ok::<UserId>(left3, "user"@)
            },
            _ => false,
        }
    }

    /// Whether `x` holds what the fields of `v` read as.
    #[verifier::opaque]
    pub open spec fn spec_decodes_to(v: JsonValue, x: MessageGroupArchive) -> bool {
        match v {
            JsonValue::Object(w) => {
                let left0 = w@;
                let left1 = taken(left0, "members"@);
                let left2 = taken(left1, "text"@);
                let left3 = taken(left2, "ts"@);
                &&& optional_value::<Vec<String>>(left0, "members"@, x.members)
                &&& text_value(left1, "text"@, x.text)
                &&& optional_value::<Timestamp>(left2, "ts"@, x.ts)
                &&& optional_value::<UserId>(left3, "user"@, x.user)
            },
            _ => false,
        }
    }

    /// Whether `e` is the error of the first check or field that fails on `v`.
    #[verifier::opaque]
    pub open spec fn spec_rejects_with(v: JsonValue, e: DecodeError) -> bool {
        match v {
            JsonValue::Object(w) => {
                let left0 = w@;
                let left1 = taken(left0, "members"@);
                let left2 = taken(left1, "text"@);
                let left3 = taken(left2, "ts"@);
                if !optional_ok::<Vec<String>>(left0, "members"@) {
                    field_failed::<Vec<String>>(left0, "members"@, e)
                } else if !text_ok(left1, "text"@) {
                    field_failed::<String>(left1, "text"@, e)
                } else if !optional_ok::<Timestamp>(left2, "ts"@) {
                    field_failed::<Timestamp>(left2, "ts"@, e)
                } else if !optional_ok::<UserId>(left3, "user"@) {
                    field_failed::<UserId>(left3, "user"@, e)
                } else {
                    false
                }
            },
            _ => e == (DecodeError::WrongType { expected: "object" }),
        }
    }
}

impl Decode for MessageGroupArchive {
    open spec fn accepts(v: JsonValue) -> bool {
        MessageGroupArchive::spec_accepts(v)
    }

    open spec fn decodes_to(v: JsonValue, x: MessageGroupArchive) -> bool {
        MessageGroupArchive::spec_decodes_to(v, x)
    }

    open spec fn rejects_with(v: JsonValue, e: DecodeError) -> bool {
        MessageGroupArchive::spec_rejects_with(v, e)
    }

    fn decode(v: JsonValue) -> Result<MessageGroupArchive, DecodeError> {
        proof {
            reveal(MessageGroupArchive::spec_accepts);
            reveal(MessageGroupArchive::spec_decodes_to);
            reveal(MessageGroupArchive::spec_rejects_with);
        }
        let mut wire = into_fields(v)?;
        let members: Option<Vec<String>> = optional(&mut wire, "members")?;
        let text: String = text_or_empty(&mut wire, "text")?;
        let ts: Option<Timestamp> = optional(&mut wire, "ts")?;
        let user: Option<UserId> = optional(&mut wire, "user")?;
        Ok(MessageGroupArchive { members, text, ts, user })
    }
}

#[derive(Clone, Debug, PartialEq)]
pub struct MessageGroupJoin {
    pub text: String,
    pub ts: Option<Timestamp>,
    pub user: Option<UserId>,
}

impl MessageGroupJoin {
    /// Whether `v` decodes as the record: an object whose fields read in order.
    #[verifier::opaque]
    pub open spec fn spec_accepts(v: JsonValue) -> bool {
        match v {
            JsonValue::Object(w) => {
                let left0 = w@;
                let left1 = taken(left0, "text"@);
                let left2 = taken(left1, "ts"@);
                &&& text_ok(left0, "text"@)
                &&& optional_ok::<Timestamp>(left1, "ts"@)
                &&& optional_ok::<UserId>(left2, "user"@)
            },
            _ => false,
        }
    }

    /// Whether `x` holds what the fields of `v` read as.
    #[verifier::opaque]
    pub open spec fn spec_decodes_to(v: JsonValue, x: MessageGroupJoin) -> bool {
        match v {
            JsonValue::Object(w) => {
                let left0 = w@;
                let left1 = taken(left0, "text"@);
                let left2 = taken(left1, "ts"@);
                &&& text_value(left0, "text"@, x.text)
                &&& optional_value::<Timestamp>(left1, "ts"@, x.ts)
                &&& optional_value::<UserId>(left2, "user"@, x.user)
            },
            _ => false,
        }
    }

    /// Whether `e` is the error of the first check or field that fails on `v`.
    #[verifier::opaque]
    pub open spec fn spec_rejects_with(v: JsonValue, e: DecodeError) -> bool {
        match v {
            JsonValue::Object(w) => {
                let left0 = w@;
                let left1 = taken(left0, "text"@);
                let left2 = taken(left1, "ts"@);
                if !text_ok(left0, "text"@) {
                    field_failed::<String>(left0, "text"@, e)
                } else if !optional_ok::<Timestamp>(left1, "ts"@) {
                    field_failed::<Timestamp>(left1, "ts"@, e)
                } else if !optional_ok::<UserId>(left2, "user"@) {
                    field_failed::<UserId>(left2, "user"@, e)
                } else {
                    false
                }
            },
            _ => e == (DecodeError::WrongType { expected: "object" }),
        }
    }
}

impl Decode for MessageGroupJoin {
    open spec fn accepts(v: JsonValue) -> bool {
        MessageGroupJoin::spec_accepts(v)
    }

    open spec fn decodes_to(v: JsonValue, x: MessageGroupJoin) -> bool {
        MessageGroupJoin::spec_decodes_to(v, x)
    }

    open spec fn rejects_with(v: JsonValue, e: DecodeError) -> bool {
        MessageGroupJoin::spec_rejects_with(v, e)
    }

    fn decode(v: JsonValue) -> Result<MessageGroupJoin, DecodeError> {
        proof {
            reveal(MessageGroupJoin::spec_accepts);
            reveal(MessageGroupJoin::spec_decodes_to);
            reveal(MessageGroupJoin::spec_rejects_with);
        }
        let mut wire = into_fields(v)?;
        let text: String = text_or_empty(&mut wire, "text")?;
        let ts: Option<Timestamp> = optional(&mut wire, "ts")?;
        let user: Option<UserId> = optional(&mut wire, "user")?;
        Ok(MessageGroupJoin { text, ts, user })
    }
}

#[derive(Clone, Debug, PartialEq)]
pub struct MessageGroupLeave {
    pub text: String,
    pub ts: Option<Timestamp>,
    pub user: Option<UserId>,
}

impl MessageGroupLeave {
    /// Whether `v` decodes as the record: an object whose fields read in order.
    #[verifier::opaque]
    pub open spec fn spec_accepts(v: JsonValue) -> bool {
        match v {
            JsonValue::Object(w) => {
                let left0 = w@;
                let left1 = taken(left0, "text"@);
                let left2 = taken(left1, "ts"@);
                &&& text_ok(left0, "text"@)
                &&& optional_ok::<Timestamp>(left1, "ts"@)
                &&& optional_ok::<UserId>(left2, "user"@)
            },
            _ => false,
        }
    }

    /// Whether `x` holds what the fields of `v` read as.
    #[verifier::opaque]
    pub open spec fn spec_decodes_to(v: JsonValue, x: MessageGroupLeave) -> bool {
        match v {
            JsonValue::Object(w) => {
                let left0 = w@;
                let left1 = taken(left0, "text"@);
                let left2 = taken(left1, "ts"@);
                &&& text_value(left0, "text"@, x.text)
                &&& optional_value::<Timestamp>(left1, "ts"@, x.ts)
                &&& optional_value::<UserId>(left2, "user"@, x.user)
            },
            _ => false,
        }
    }

    /// Whether `e` is the error of the first check or field that fails on `v`.
    #[verifier::opaque]
    pub open spec fn spec_rejects_with(v: JsonValue, e: DecodeError) -> bool {
        match v {
            JsonValue::Object(w) => {
                let left0 = w@;
                let left1 = taken(left0, "text"@);
                let left2 = taken(left1, "ts"@);
                if !text_ok(left0, "text"@) {
                    field_failed::<String>(left0, "text"@, e)
                } else if !optional_ok::<Timestamp>(left1, "ts"@) {
                    field_failed::<Timestamp>(left1, "ts"@, e)
                } else if !optional_ok::<UserId>(left2, "user"@) {
                    field_failed::<UserId>(left2, "user"@, e)
                } else {
                    false
                }
            },
            _ => e == (DecodeError::WrongType { expected: "object" }),
        }
    }
}

impl Decode for MessageGroupLeave {
    open spec fn accepts(v: JsonValue) -> bool {
        MessageGroupLeave::spec_accepts(v)
    }

    open spec fn decodes_to(v: JsonValue, x: MessageGroupLeave) -> bool {
        MessageGroupLeave::spec_decodes_to(v, x)
    }

    open spec fn rejects_with(v: JsonValue, e: DecodeError) -> bool {
        MessageGroupLeave::spec_rejects_with(v, e)
    }

    fn decode(v: JsonValue) -> Result<MessageGroupLeave, DecodeError> {
        proof {
            reveal(MessageGroupLeave::spec_accepts);
            reveal(MessageGroupLeave::spec_decodes_to);
            reveal(MessageGroupLeave::spec_rejects_with);
        }
        let mut wire = into_fields(v)?;
        let text: String = text_or_empty(&mut wire, "text")?;
        let ts: Option<Timestamp> = optional(&mut wire, "ts")?;
        let user: Option<UserId> = optional(&mut wire, "user")?;
        Ok(MessageGroupLeave { text, ts, user })
    }
}

#[derive(Clone, Debug, PartialEq)]
pub struct MessageGroupName {
    pub name: Option<String>,
    pub old_name: Option<String>,
    pub text: String,
    pub ts: Option<Timestamp>,
    pub user: Option<UserId>,
}

impl MessageGroupName {
    /// Whether `v` decodes as the record: an object whose fields read in order.
    #[verifier::opaque]
    pub open spec fn spec_accepts(v: JsonValue) -> bool {
        match v {
            JsonValue::Object(w) => {
                let left0 = w@;
                let left1 = taken(left0, "name"@);
                let left2 = taken(left1, "old_name"@);
                let left3 = taken(left2, "text"@);
                let left4 = taken(left3, "ts"@);
                &&& optional_ok::<String>(left0, "name"@)
                &&& optional_ok::<String>(left1, "old_name"@)
                &&& text_ok(left2, "text"@)
                &&& optional_ok::<Timestamp>(left3, "ts"@)
                &&& optional_ok::<UserId>(left4, "user"@)
            },
            _ => false,
        }
    }

    /// Whether `x` holds what the fields of `v` read as.
    #[verifier::opaque]
    pub open spec fn spec_decodes_to(v: JsonValue, x: MessageGroupName) -> bool {
        match v {
            JsonValue::Object(w) => {
                let left0 = w@;
                let left1 = taken(left0, "name"@);
                let left2 = taken(left1, "old_name"@);
                let left3 = taken(left2, "text"@);
                let left4 = taken(left3, "ts"@);
                &&& optional_value::<String>(left0, "name"@, x.name)
                &&& optional_value::<String>(left1, "old_name"@, x.old_name)
                &&& text_value(left2, "text"@, x.text)
                &&& optional_value::<Timestamp>(left3, "ts"@, x.ts)
                &&& optional_value::<UserId>(left4, "user"@, x.user)
            },
            _ => false,
        }
    }

    /// Whether `e` is the error of the first check or field that fails on `v`.
    #[verifier::opaque]
    pub open spec fn spec_rejects_with(v: JsonValue, e: DecodeError) -> bool {
        match v {
            JsonValue::Object(w) => {
                let left0 = w@;
                let left1 = taken(left0, "name"@);
                let left2 = taken(left1, "old_name"@);
                let left3 = taken(left2, "text"@);
                let left4 = taken(left3, "ts"@);
                if !optional_ok::<String>(left0, "name"@) {
                    field_failed::<String>(left0, "name"@, e)
                } else if !optional_ok::<String>(left1, "old_name"@) {
                    field_failed::<String>(left1, "old_name"@, e)
                } else if !text_ok(left2, "text"@) {
                    field_failed::<String>(left2, "text"@, e)
                } else if !optional_ok::<Timestamp>(left3, "ts"@) {
                    field_failed::<Timestamp>(left3, "ts"@, e)
                } else if !optional_ok::<UserId>(left4, "user"@) {
                    field_failed::<UserId>(left4, "user"@, e)
                } else {
                    false
                }
            },
            _ => e == (DecodeError::WrongType { expected: "object" }),
        }
    }
}

impl Decode for MessageGroupName {
    open spec fn accepts(v: JsonValue) -> bool {
        MessageGroupName::spec_accepts(v)
    }

    open spec fn decodes_to(v: JsonValue, x: MessageGroupName) -> bool {
        MessageGroupName::spec_decodes_to(v, x)
    }

    open spec fn rejects_with(v: JsonValue, e: DecodeError) -> bool {
        MessageGroupName::spec_rejects_with(v, e)
    }

    fn decode(v: JsonValue) -> Result<MessageGroupName, DecodeError> {
        proof {
            reveal(MessageGroupName::spec_accepts);
            reveal(MessageGroupName::spec_decodes_to);
            reveal(MessageGroupName::spec_rejects_with);
        }
        let mut wire = into_fields(v)?;
        let name: Option<String> = optional(&mut wire, "name")?;
        let old_name: Option<String> = optional(&mut wire, "old_name")?;
        let text: String = text_or_empty(&mut wire, "text")?;
        let ts: Option<Timestamp> = optional(&mut wire, "ts")?;
        let user: Option<UserId> = optional(&mut wire, "user")?;
        Ok(MessageGroupName { name, old_name, text, ts, user })
    }
}

#[derive(Clone, Debug, PartialEq)]
pub struct MessageGroupPurpose {
    pub purpose: Option<String>,
    pub text: String,
    pub ts: Option<Timestamp>,
    pub user: Option<UserId>,
}

impl MessageGroupPurpose {
    /// Whether `v` decodes as the record: an object whose fields read in order.
    #[verifier::opaque]
    pub open spec fn spec_accepts(v: JsonValue) -> bool {
        match v {
            JsonValue::Object(w) => {
                let left0 = w@;
                let left1 = taken(left0, "purpose"@);
                let left2 = taken(left1, "text"@);
                let left3 = taken(left2, "ts"@);
                &&& optional_ok::<String>(left0, "purpose"@)
                &&& text_ok(left1, "text"@)
                &&& optional_ok::<Timestamp>(left2, "ts"@)
                &&& optional_ok::<UserId>(left3, "user"@)
            },
            _ => false,
        }
    }

    /// Whether `x` holds what the fields of `v` read as.
    #[verifier::opaque]
    pub open spec fn spec_decodes_to(v: JsonValue, x: MessageGroupPurpose) -> bool {
        match v {
            JsonValue::Object(w) => {
                let left0 = w@;
                let left1 = taken(left0, "purpose"@);
                let left2 = taken(left1, "text"@);
                let left3 = taken(left2, "ts"@);
                &&& optional_value::<String>(left0, "purpose"@, x.purpose)
                &&& text_value(left1, "text"@, x.text)
                &&& optional_value::<Timestamp>(left2, "ts"@, x.ts)
                &&& optional_value::<UserId>(left3, "user"@, x.user)
            },
            _ => false,
        }
    }

    /// Whether `e` is the error of the first check or field that fails on `v`.
    #[verifier::opaque]
    pub open spec fn spec_rejects_with(v: JsonValue, e: DecodeError) -> bool {
        match v {
            JsonValue::Object(w) => {
                let left0 = w@;
                let left1 = taken(left0, "purpose"@);
                let left2 = taken(left1, "text"@);
                let left3 = taken(left2, "ts"@);
                if !optional_ok::<String>(left0, "purpose"@) {
                    field_failed::<String>(left0, "purpose"@, e)
                } else if !text_ok(left1, "text"@) {
                    field_failed::<String>(left1, "text"@, e)
                } else if !optional_ok::<Timestamp>(left2, "ts"@) {
                    field_failed::<Timestamp>(left2, "ts"@, e)
                } else if !optional_ok::<UserId>(left3, "user"@) {
                    field_failed::<UserId>(left3, "user"@, e)
                } else {
                    false
                }
            },
            _ => e == (DecodeError::WrongType { expected: "object" }),
        }
    }
}

impl Decode for MessageGroupPurpose {
    open spec fn accepts(v: JsonValue) -> bool {
        MessageGroupPurpose::spec_accepts(v)
    }

    open spec fn decodes_to(v: JsonValue, x: MessageGroupPurpose) -> bool {
        MessageGroupPurpose::spec_decodes_to(v, x)
    }

    open spec fn rejects_with(v: JsonValue, e: DecodeError) -> bool {
        MessageGroupPurpose::spec_rejects_with(v, e)
    }

    fn decode(v: JsonValue) -> Result<MessageGroupPurpose, DecodeError> {
        proof {
            reveal(MessageGroupPurpose::spec_accepts);
            reveal(MessageGroupPurpose::spec_decodes_to);
            reveal(MessageGroupPurpose::spec_rejects_with);
        }
        let mut wire = into_fields(v)?;
        let purpose: Option<String> = optional(&mut wire, "purpose")?;
        let text: String = text_or_empty(&mut wire, "text")?;
        let ts: Option<Timestamp> = optional(&mut wire, "ts")?;
        let user: Option<UserId> = optional(&mut wire, "user")?;
        Ok(MessageGroupPurpose { purpose, text, ts, user })
    }
}

#[derive(Clone, Debug, PartialEq)]
pub struct MessageGroupTopic {
    pub text: String,
    pub topic: Option<String>,
    pub ts: Option<Timestamp>,
    pub user: Option<UserId>,
}

impl MessageGroupTopic {
    /// Whether `v` decodes as the record: an object whose fields read in order.
    #[verifier::opaque]
    pub open spec fn spec_accepts(v: JsonValue) -> bool {
        match v {
            JsonValue::Object(w) => {
                let left0 = w@;
                let left1 = taken(left0, "text"@);
                let left2 = taken(left1, "topic"@);
                let left3 = taken(left2, "ts"@);
                &&& text_ok(left0, "text"@)
                &&& optional_ok::<String>(left1, "topic"@)
                &&& optional_ok::<Timestamp>(left2, "ts"@)
                &&& optional_ok::<UserId>(left3, "user"@)
            },
            _ => false,
        }
    }

    /// Whether `x` holds what the fields of `v` read as.
    #[verifier::opaque]
    pub open spec fn spec_decodes_to(v: JsonValue, x: MessageGroupTopic) -> bool {
        match v {
            JsonValue::Object(w) => {
                let left0 = w@;
                let left1 = taken(left0, "text"@);
                let left2 = taken(left1, "topic"@);
                let left3 = taken(left2, "ts"@);
                &&& text_value(left0, "text"@, x.text)
                &&& optional_value::<String>(left1, "topic"@, x.topic)
                &&& optional_value::<Timestamp>(left2, "ts"@, x.ts)
                &&& optional_value::<UserId>(left3, "user"@, x.user)
            },
            _ => false,
        }
    }

    /// Whether `e` is the error of the first check or field that fails on `v`.
    #[verifier::opaque]
    pub open spec fn spec_rejects_with(v: JsonValue, e: DecodeError) -> bool {
        match v {
            JsonValue::Object(w) => {
                let left0 = w@;
                let left1 = taken(left0, "text"@);
                let left2 = taken(left1, "topic"@);
                let left3 = taken(left2, "ts"@);
                if !text_ok(left0, "text"@) {
                    field_failed::<String>(left0, "text"@, e)
                } else if !optional_ok::<String>(left1, "topic"@) {
                    field_failed::<String>(left1, "topic"@, e)
                } else if !optional_ok::<Timestamp>(left2, "ts"@) {
                    field_failed::<Timestamp>(left2, "ts"@, e)
                } else if !optional_ok::<UserId>(left3, "user"@) {
                    field_failed::<UserId>(left3, "user"@, e)
                } else {
                    false
                }
            },
            _ => e == (DecodeError::WrongType { expected: "object" }),
        }
    }
}

impl Decode for MessageGroupTopic {
    open spec fn accepts(v: JsonValue) -> bool {
        MessageGroupTopic::spec_accepts(v)
    }

    open spec fn decodes_to(v: JsonValue, x: MessageGroupTopic) -> bool {
        MessageGroupTopic::spec_decodes_to(v, x)
    }

    open spec fn rejects_with(v: JsonValue, e: DecodeError) -> bool {
        MessageGroupTopic::spec_rejects_with(v, e)
    }

    fn decode(v: JsonValue) -> Result<MessageGroupTopic, DecodeError> {
        proof {
            reveal(MessageGroupTopic::spec_accepts);
            reveal(MessageGroupTopic::spec_decodes_to);
            reveal(MessageGroupTopic::spec_rejects_with);
        }
        let mut wire = into_fields(v)?;
        let text: String = text_or_empty(&mut wire, "text")?;
        let topic: Option<String> = optional(&mut wire, "topic")?;
        let ts: Option<Timestamp> = optional(&mut wire, "ts")?;
        let user: Option<UserId> = optional(&mut wire, "user")?;
        Ok(MessageGroupTopic { text, topic, ts, user })
    }
}

#[derive(Clone, Debug, PartialEq)]
pub struct MessageGroupUnarchive {
    pub text: String,
    pub ts: Option<Timestamp>,
    pub user: Option<UserId>,
}

impl MessageGroupUnarchive {
    /// Whether `v` decodes as the record: an object whose fields read in order.
    #[verifier::opaque]
    pub open spec fn spec_accepts(v: JsonValue) -> bool {
        match v {
            JsonValue::Object(w) => {
                let left0 = w@;
                let left1 = taken(left0, "text"@);
                let left2 = taken(left1, "ts"@);
                &&& text_ok(left0, "text"@)
                &&& optional_ok::<Timestamp>(left1, "ts"@)
                &&& optional_ok::<UserId>(left2, "user"@)
            },
            _ => false,
        }
    }

    /// Whether `x` holds what the fields of `v` read as.
    #[verifier::opaque]
    pub open spec fn spec_decodes_to(v: JsonValue, x: MessageGroupUnarchive) -> bool {
        match v {
            JsonValue::Object(w) => {
                let left0 = w@;
                let left1 = taken(left0, "text"@);
                let left2 = taken(left1, "ts"@);
                &&& text_value(left0, "text"@, x.text)
                &&& optional_value::<Timestamp>(left1, "ts"@, x.ts)
                &&& optional_value::<UserId>(left2, "user"@, x.user)
            },
            _ => false,
        }
    }

    /// Whether `e` is the error of the first check or field that fails on `v`.
    #[verifier::opaque]
    pub open spec fn spec_rejects_with(v: JsonValue, e: DecodeError) -> bool {
        match v {
            JsonValue::Object(w) => {
                let left0 = w@;
                let left1 = taken(left0, "text"@);
                let left2 = taken(left1, "ts"@);
                if !text_ok(left0, "text"@) {
                    field_failed::<String>(left0, "text"@, e)
                } else if !optional_ok::<Timestamp>(left1, "ts"@) {
                    field_failed::<Timestamp>(left1, "ts"@, e)
                } else if !optional_ok::<UserId>(left2, "user"@) {
                    field_failed::<UserId>(left2, "user"@, e)
                } else {
                    false
                }
            },
            _ => e == (DecodeError::WrongType { expected: "object" }),
        }
    }
}

impl Decode for MessageGroupUnarchive {
    open spec fn accepts(v: JsonValue) -> bool {
        MessageGroupUnarchive::spec_accepts(v)
    }

    open spec fn decodes_to(v: JsonValue, x: MessageGroupUnarchive) -> bool {
        MessageGroupUnarchive::spec_decodes_to(v, x)
    }

    open spec fn rejects_with(v: JsonValue, e: DecodeError) -> bool {
        MessageGroupUnarchive::spec_rejects_with(v, e)
    }

    fn decode(v: JsonValue) -> Result<MessageGroupUnarchive, DecodeError> {
        proof {
            reveal(MessageGroupUnarchive::spec_accepts);
            reveal(MessageGroupUnarchive::spec_decodes_to);
            reveal(MessageGroupUnarchive::spec_rejects_with);
        }
        let mut wire = into_fields(v)?;
        let text: String = text_or_empty(&mut wire, "text")?;
        let ts: Option<Timestamp> = optional(&mut wire, "ts")?;
        let user: Option<UserId> = optional(&mut wire, "user")?;
        Ok(MessageGroupUnarchive { text, ts, user })
    }
}

#[derive(Clone, Debug, PartialEq)]
pub struct MessageMeMessage {
    pub channel: Option<ConversationId>,
    pub text: String,
    pub ts: Option<Timestamp>,
    pub user: Option<UserId>,
}

impl MessageMeMessage {
    /// Whether `v` decodes as the record: an object whose fields read in order.
    #[verifier::opaque]
    pub open spec fn spec_accepts(v: JsonValue) -> bool {
        match v {
            JsonValue::Object(w) => {
                let left0 = w@;
                let left1 = taken(left0, "channel"@);
                let left2 = taken(left1, "text"@);
                let left3 = taken(left2, "ts"@);
                &&& optional_ok::<ConversationId>(left0, "channel"@)
                &&& text_ok(left1, "text"@)
                &&& optional_ok::<Timestamp>(left2, "ts"@)
                &&& optional_ok::<UserId>(left3, "user"@)
            },
            _ => false,
        }
    }

    /// Whether `x` holds what the fields of `v` read as.
    #[verifier::opaque]
    pub open spec fn spec_decodes_to(v: JsonValue, x: MessageMeMessage) -> bool {
        match v {
            JsonValue::Object(w) => {
                let left0 = w@;
                let left1 = taken(left0, "channel"@);
                let left2 = taken(left1, "text"@);
                let left3 = taken(left2, "ts"@);
                &&& optional_value::<ConversationId>(left0, "channel"@, x.channel)
                &&& text_value(left1, "text"@, x.text)
                &&& optional_value::<Timestamp>(left2, "ts"@, x.ts)
                &&& optional_value::<UserId>(left3, "user"@, x.user)
            },
            _ => false,
        }
    }

    /// Whether `e` is the error of the first check or field that fails on `v`.
    #[verifier::opaque]
    pub open spec fn spec_rejects_with(v: JsonValue, e: DecodeError) -> bool {
        match v {
            JsonValue::Object(w) => {
                let left0 = w@;
                let left1 = taken(left0, "channel"@);
                let left2 = taken(left1, "text"@);
                let left3 = taken(left2, "ts"@);
                if !optional_ok::<ConversationId>(left0, "channel"@) {
                    field_failed::<ConversationId>(left0, "channel"@, e)
                } else if !text_ok(left1, "text"@) {
                    field_failed::<String>(left1, "text"@, e)
                } else if !optional_ok::<Timestamp>(left2, "ts"@) {
                    field_failed::<Timestamp>(left2, "ts"@, e)
                } else if !optional_ok::<UserId>(left3, "user"@) {
                    field_failed::<UserId>(left3, "user"@, e)
                } else {
                    false
                }
            },
            _ => e == (DecodeError::WrongType { expected: "object" }),
        }
    }
}

impl Decode for MessageMeMessage {
    open spec fn accepts(v: JsonValue) -> bool {
        MessageMeMessage::spec_accepts(v)
    }

    open spec fn decodes_to(v: JsonValue, x: MessageMeMessage) -> bool {
        MessageMeMessage::spec_decodes_to(v, x)
    }

    open spec fn rejects_with(v: JsonValue, e: DecodeError) -> bool {
        MessageMeMessage::spec_rejects_with(v, e)
    }

    fn decode(v: JsonValue) -> Result<MessageMeMessage, DecodeError> {
        proof {
            reveal(MessageMeMessage::spec_accepts);
            reveal(MessageMeMessage::spec_decodes_to);
            reveal(MessageMeMessage::spec_rejects_with);
        }
        let mut wire = into_fields(v)?;
        let channel: Option<ConversationId> = optional(&mut wire, "channel")?;
        let text: String = text_or_empty(&mut wire, "text")?;
        let ts: Option<Timestamp> = optional(&mut wire, "ts")?;
        let user: Option<UserId> = optional(&mut wire, "user")?;
        Ok(MessageMeMessage { channel, text, ts, user })
    }
}

#[derive(Clone, Debug, PartialEq)]
pub struct MessageMessageChanged {
    pub channel: ConversationId,
    pub event_ts: Timestamp,
    pub hidden: Option<bool>,
    pub message: Option<MessageMessageChangedMessage>,
    pub previous_message: Option<MessageMessageChangedPreviousMessage>,
    pub ts: Timestamp,
}

impl MessageMessageChanged {
    /// Whether `v` decodes as the record: an object whose fields read in order.
    #[verifier::opaque]
    pub open spec fn spec_accepts(v: JsonValue) -> bool {
        match v {
            JsonValue::Object(w) => {
                let left0 = w@;
                let left1 = taken(left0, "channel"@);
                let left2 = taken(left1, "event_ts"@);
                let left3 = taken(left2, "hidden"@);
                let left4 = taken(left3, "message"@);
                let left5 = taken(left4, "previous_message"@);
                &&& required_ok::<ConversationId>(left0, "channel"@)
                &&& required_ok::<Timestamp>(left1, "event_ts"@)
                &&& optional_ok::<bool>(left2, "hidden"@)
                &&& optional_ok::<MessageMessageChangedMessage>(left3, "message"@)
                &&& optional_ok::<MessageMessageChangedPreviousMessage>(left4, "previous_message"@)
                &&& required_ok::<Timestamp>(left5, "ts"@)
            },
            _ => false,
        }
    }

    /// Whether `x` holds what the fields of `v` read as.
    #[verifier::opaque]
    pub open spec fn spec_decodes_to(v: JsonValue, x: MessageMessageChanged) -> bool {
        match v {
            JsonValue::Object(w) => {
                let left0 = w@;
                let left1 = taken(left0, "channel"@);
                let left2 = taken(left1, "event_ts"@);
                let left3 = taken(left2, "hidden"@);
                let left4 = taken(left3, "message"@);
                let left5 = taken(left4, "previous_message"@);
                &&& <ConversationId as Decode>::decodes_to(value_of(left0, "channel"@), x.channel)
                &&& <Timestamp as Decode>::decodes_to(value_of(left1, "event_ts"@), x.event_ts)
                &&& optional_value::<bool>(left2, "hidden"@, x.hidden)
                &&& optional_value::<MessageMessageChangedMessage>(left3, "message"@, x.message)
                &&& optional_value::<MessageMessageChangedPreviousMessage>(left4, "previous_message"@, x.previous_message)
                &&& <Timestamp as Decode>::decodes_to(value_of(left5, "ts"@), x.ts)
            },
            _ => false,
        }
    }

    /// Whether `e` is the error of the first check or field that fails on `v`.
    #[verifier::opaque]
    pub open spec fn spec_rejects_with(v: JsonValue, e: DecodeError) -> bool {
        match v {
            JsonValue::Object(w) => {
                let left0 = w@;
                let left1 = taken(left0, "channel"@);
                let left2 = taken(left1, "event_ts"@);
                let left3 = taken(left2, "hidden"@);
                let left4 = taken(left3, "message"@);
                let left5 = taken(left4, "previous_message"@);
                if !required_ok::<ConversationId>(left0, "channel"@) {
                    required_err::<ConversationId>(left0, "channel"@, e)
                } else if !required_ok::<Timestamp>(left1, "event_ts"@) {
                    required_err::<Timestamp>(left1, "event_ts"@, e)
                } else if !optional_ok::<bool>(left2, "hidden"@) {
                    field_failed::<bool>(left2, "hidden"@, e)
                } else if !optional_ok::<MessageMessageChangedMessage>(left3, "message"@) {
                    field_failed::<MessageMessageChangedMessage>(left3, "message"@, e)
                } else if !optional_ok::<MessageMessageChangedPreviousMessage>(left4, "previous_message"@) {
                    field_failed::<MessageMessageChangedPreviousMessage>(left4, "previous_message"@, e)
                } else if !required_ok::<Timestamp>(left5, "ts"@) {
                    required_err::<Timestamp>(left5, "ts"@, e)
                } else {
                    false
                }
            },
            _ => e == (DecodeError::WrongType { expected: "object" }),
        }
    }
}

impl Decode for MessageMessageChanged {
    open spec fn accepts(v: JsonValue) -> bool {
        MessageMessageChanged::spec_accepts(v)
    }

    open spec fn decodes_to(v: JsonValue, x: MessageMessageChanged) -> bool {
        MessageMessageChanged::spec_decodes_to(v, x)
    }

    open spec fn rejects_with(v: JsonValue, e: DecodeError) -> bool {
        MessageMessageChanged::spec_rejects_with(v, e)
    }

    fn decode(v: JsonValue) -> Result<MessageMessageChanged, DecodeError> {
        proof {
            reveal(MessageMessageChanged::spec_accepts);
            reveal(MessageMessageChanged::spec_decodes_to);
            reveal(MessageMessageChanged::spec_rejects_with);
        }
        let mut wire = into_fields(v)?;
        let channel: ConversationId = required(&mut wire, "channel")?;
        let event_ts: Timestamp = required(&mut wire, "event_ts")?;
        let hidden: Option<bool> = optional(&mut wire, "hidden")?;
        let message: Option<MessageMessageChangedMessage> = optional(&mut wire, "message")?;
        let previous_message: Option<MessageMessageChangedPreviousMessage> = optional(&mut wire, "previous_message")?;
        let ts: Timestamp = required(&mut wire, "ts")?;
        Ok(MessageMessageChanged { channel, event_ts, hidden, message, previous_message, ts })
    }
}

#[derive(Clone, Debug, PartialEq)]
pub struct MessageMessageChangedMessage {
    pub bot_id: Option<BotId>,
    pub edited: Option<MessageMessageChangedMessageEdited>,
    pub last_read: Option<String>,
    pub parent_user_id: Option<UserId>,
    pub replies: Option<Vec<MessageMessageChangedMessageReply>>,
    pub reply_count: Option<i32>,
    pub subscribed: Option<bool>,
    pub text: String,
    pub thread_ts: Option<Timestamp>,
    pub ts: Timestamp,
    pub unread_count: Option<i32>,
    pub user: Option<UserId>,
}

impl MessageMessageChangedMessage {
    /// Whether `v` decodes as the record: an object whose fields read in order.
    #[verifier::opaque]
    pub open spec fn spec_accepts(v: JsonValue) -> bool {
        match v {
            JsonValue::Object(w) => {
                let left0 = w@;
                let left1 = taken(left0, "bot_id"@);
                let left2 = taken(left1, "edited"@);
                let left3 = taken(left2, "last_read"@);
                let left4 = taken(left3, "parent_user_id"@);
                let left5 = taken(left4, "replies"@);
                let left6 = taken(left5, "reply_count"@);
                let left7 = taken(left6, "subscribed"@);
                let left8 = taken(left7, "text"@);
                let left9 = taken(left8, "thread_ts"@);
                let left10 = taken(left9, "ts"@);
                let left11 = taken(left10, "unread_count"@);
                &&& optional_ok::<BotId>(left0, "bot_id"@)
                &&& optional_ok::<MessageMessageChangedMessageEdited>(left1, "edited"@)
                &&& optional_ok::<String>(left2, "last_read"@)
                &&& optional_ok::<UserId>(left3, "parent_user_id"@)
                &&& optional_ok::<Vec<MessageMessageChangedMessageReply>>(left4, "replies"@)
                &&& optional_ok::<i32>(left5, "reply_count"@)
                &&& optional_ok::<bool>(left6, "subscribed"@)
                &&& text_ok(left7, "text"@)
                &&& optional_ok::<Timestamp>(left8, "thread_ts"@)
                &&& required_ok::<Timestamp>(left9, "ts"@)
                &&& optional_ok::<i32>(left10, "unread_count"@)
                &&& optional_ok::<UserId>(left11, "user"@)
            },
            _ => false,
        }
    }

    /// Whether `x` holds what the fields of `v` read as.
    #[verifier::opaque]
    pub open spec fn spec_decodes_to(v: JsonValue, x: MessageMessageChangedMessage) -> bool {
        match v {
            JsonValue::Object(w) => {
                let left0 = w@;
                let left1 = taken(left0, "bot_id"@);
                let left2 = taken(left1, "edited"@);
                let left3 = taken(left2, "last_read"@);
                let left4 = taken(left3, "parent_user_id"@);
                let left5 = taken(left4, "replies"@);
                let left6 = taken(left5, "reply_count"@);
                let left7 = taken(left6, "subscribed"@);
                let left8 = taken(left7, "text"@);
                let left9 = taken(left8, "thread_ts"@);
                let left10 = taken(left9, "ts"@);
                let left11 = taken(left10, "unread_count"@);
                &&& optional_value::<BotId>(left0, "bot_id"@, x.bot_id)
                &&& optional_value::<MessageMessageChangedMessageEdited>(left1, "edited"@, x.edited)
                &&& optional_value::<String>(left2, "last_read"@, x.last_read)
                &&& optional_value::<UserId>(left3, "parent_user_id"@, x.parent_user_id)
                &&& optional_value::<Vec<MessageMessageChangedMessageReply>>(left4, "replies"@, x.replies)
                &&& optional_value::<i32>(left5, "reply_count"@, x.reply_count)
                &&& optional_value::<bool>(left6, "subscribed"@, x.subscribed)
                &&& text_value(left7, "text"@, x.text)
                &&& optional_value::<Timestamp>(left8, "thread_ts"@, x.thread_ts)
                &&& <Timestamp as Decode>::decodes_to(value_of(left9, "ts"@), x.ts)
                &&& optional_value::<i32>(left10, "unread_count"@, x.unread_count)
                &&& optional_value::<UserId>(left11, "user"@, x.user)
            },
            _ => false,
        }
    }

    /// Whether `e` is the error of the first check or field that fails on `v`.
    #[verifier::opaque]
    pub open spec fn spec_rejects_with(v: JsonValue, e: DecodeError) -> bool {
        match v {
            JsonValue::Object(w) => {
                let left0 = w@;
                let left1 = taken(left0, "bot_id"@);
                let left2 = taken(left1, "edited"@);
                let left3 = taken(left2, "last_read"@);
                let left4 = taken(left3, "parent_user_id"@);
                let left5 = taken(left4, "replies"@);
                let left6 = taken(left5, "reply_count"@);
                let left7 = taken(left6, "subscribed"@);
                let left8 = taken(left7, "text"@);
                let left9 = taken(left8, "thread_ts"@);
                let left10 = taken(left9, "ts"@);
                let left11 = taken(left10, "unread_count"@);
                if !optional_ok::<BotId>(left0, "bot_id"@) {
                    field_failed::<BotId>(left0, "bot_id"@, e)
                } else if !optional_ok::<MessageMessageChangedMessageEdited>(left1, "edited"@) {
                    field_failed::<MessageMessageChangedMessageEdited>(left1, "edited"@, e)
                } else if !optional_ok::<String>(left2, "last_read"@) {
                    field_failed::<String>(left2, "last_read"@, e)
                } else if !optional_ok::<UserId>(left3, "parent_user_id"@) {
                    field_failed::<UserId>(left3, "parent_user_id"@, e)
                } else if !optional_ok::<Vec<MessageMessageChangedMessageReply>>(left4, "replies"@) {
                    field_failed::<Vec<MessageMessageChangedMessageReply>>(left4, "replies"@, e)
                } else if !optional_ok::<i32>(left5, "reply_count"@) {
                    field_failed::<i32>(left5, "reply_count"@, e)
                } else if !optional_ok::<bool>(left6, "subscribed"@) {
                    field_failed::<bool>(left6, "subscribed"@, e)
                } else if !text_ok(left7, "text"@) {
                    field_failed::<String>(left7, "text"@, e)
                } else if !optional_ok::<Timestamp>(left8, "thread_ts"@) {
                    field_failed::<Timestamp>(left8, "thread_ts"@, e)
                } else if !required_ok::<Timestamp>(left9, "ts"@) {
                    required_err::<Timestamp>(left9, "ts"@, e)
                } else if !optional_ok::<i32>(left10, "unread_count"@) {
                    field_failed::<i32>(left10, "unread_count"@, e)
                } else if !optional_ok::<UserId>(left11, "user"@) {
                    field_failed::<UserId>(left11, "user"@, e)
                } else {
                    false
                }
            },
            _ => e == (DecodeError::WrongType { expected: "object" }),
        }
    }
}

impl Decode for MessageMessageChangedMessage {
    open spec fn accepts(v: JsonValue) -> bool {
        MessageMessageChangedMessage::spec_accepts(v)
    }

    open spec fn decodes_to(v: JsonValue, x: MessageMessageChangedMessage) -> bool {
        MessageMessageChangedMessage::spec_decodes_to(v, x)
    }

    open spec fn rejects_with(v: JsonValue, e: DecodeError) -> bool {
        MessageMessageChangedMessage::spec_rejects_with(v, e)
    }

    fn decode(v: JsonValue) -> Result<MessageMessageChangedMessage, DecodeError> {
        proof {
            reveal(MessageMessageChangedMessage::spec_accepts);
            reveal(MessageMessageChangedMessage::spec_decodes_to);
            reveal(MessageMessageChangedMessage::spec_rejects_with);
        }
        let mut wire = into_fields(v)?;
        let bot_id: Option<BotId> = optional(&mut wire, "bot_id")?;
        let edited: Option<MessageMessageChangedMessageEdited> = optional(&mut wire, "edited")?;
        let last_read: Option<String> = optional(&mut wire, "last_read")?;
        let parent_user_id: Option<UserId> = optional(&mut wire, "parent_user_id")?;
        let replies: Option<Vec<MessageMessageChangedMessageReply>> = optional(&mut wire, "replies")?;
        let reply_count: Option<i32> = optional(&mut wire, "reply_count")?;
        let subscribed: Option<bool> = optional(&mut wire, "subscribed")?;
        let text: String = text_or_empty(&mut wire, "text")?;
        let thread_ts: Option<Timestamp> = optional(&mut wire, "thread_ts")?;
        let ts: Timestamp = required(&mut wire, "ts")?;
        let unread_count: Option<i32> = optional(&mut wire, "unread_count")?;
        let user: Option<UserId> = optional(&mut wire, "user")?;
        Ok(MessageMessageChangedMessage { bot_id, edited, last_read, parent_user_id, replies, reply_count, subscribed, text, thread_ts, ts, unread_count, user })
    }
}

#[derive(Clone, Debug, PartialEq)]
pub struct MessageMessageChangedMessageEdited {
    pub ts: Timestamp,
    pub user: UserId,
}

impl MessageMessageChangedMessageEdited {
    /// Whether `v` decodes as the record: an object whose fields read in order.
    #[verifier::opaque]
    pub open spec fn spec_accepts(v: JsonValue) -> bool {
        match v {
            JsonValue::Object(w) => {
                let left0 = w@;
                let left1 = taken(left0, "ts"@);
                &&& required_ok::<Timestamp>(left0, "ts"@)
                &&& required_ok::<UserId>(left1, "user"@)
            },
            _ => false,
        }
    }

    /// Whether `x` holds what the fields of `v` read as.
    #[verifier::opaque]
    pub open spec fn spec_decodes_to(v: JsonValue, x: MessageMessageChangedMessageEdited) -> bool {
        match v {
            JsonValue::Object(w) => {
                let left0 = w@;
                let left1 = taken(left0, "ts"@);
                &&& <Timestamp as Decode>::decodes_to(value_of(left0, "ts"@), x.ts)
                &&& <UserId as Decode>::decodes_to(value_of(left1, "user"@), x.user)
            },
            _ => false,
        }
    }

    /// Whether `e` is the error of the first check or field that fails on `v`.
    #[verifier::opaque]
    pub open spec fn spec_rejects_with(v: JsonValue, e: DecodeError) -> bool {
        match v {
            JsonValue::Object(w) => {
                let left0 = w@;
                let left1 = taken(left0, "ts"@);
                if !required_ok::<Timestamp>(left0, "ts"@) {
                    required_err::<Timestamp>(left0, "ts"@, e)
                } else if !required_ok::<UserId>(left1, "user"@) {
                    required_err::<UserId>(left1, "user"@, e)
                } else {
                    false
                }
            },
            _ => e == (DecodeError::WrongType { expected: "object" }),
        }
    }
}

impl Decode for MessageMessageChangedMessageEdited {
    open spec fn accepts(v: JsonValue) -> bool {
        MessageMessageChangedMessageEdited::spec_accepts(v)
    }

    open spec fn decodes_to(v: JsonValue, x: MessageMessageChangedMessageEdited) -> bool {
        MessageMessageChangedMessageEdited::spec_decodes_to(v, x)
    }

    open spec fn rejects_with(v: JsonValue, e: DecodeError) -> bool {
        MessageMessageChangedMessageEdited::spec_rejects_with(v, e)
    }

    fn decode(v: JsonValue) -> Result<MessageMessageChangedMessageEdited, DecodeError> {
        proof {
            reveal(MessageMessageChangedMessageEdited::spec_accepts);
            reveal(MessageMessageChangedMessageEdited::spec_decodes_to);
            reveal(MessageMessageChangedMessageEdited::spec_rejects_with);
        }
        let mut wire = into_fields(v)?;
        let ts: Timestamp = required(&mut wire, "ts")?;
        let user: UserId = required(&mut wire, "user")?;
        Ok(MessageMessageChangedMessageEdited { ts, user })
    }
}

#[derive(Clone, Debug, PartialEq)]
pub struct MessageMessageChangedMessageReply {
    pub ts: Timestamp,
    pub user: UserId,
}

impl MessageMessageChangedMessageReply {
    /// Whether `v` decodes as the record: an object whose fields read in order.
    #[verifier::opaque]
    pub open spec fn spec_accepts(v: JsonValue) -> bool {
        match v {
            JsonValue::Object(w) => {
                let left0 = w@;
                let left1 = taken(left0, "ts"@);
                &&& required_ok::<Timestamp>(left0, "ts"@)
                &&& required_ok::<UserId>(left1, "user"@)
            },
            _ => false,
        }
    }

    /// Whether `x` holds what the fields of `v` read as.
    #[verifier::opaque]
    pub open spec fn spec_decodes_to(v: JsonValue, x: MessageMessageChangedMessageReply) -> bool {
        match v {
            JsonValue::Object(w) => {
                let left0 = w@;
                let left1 = taken(left0, "ts"@);
                &&& <Timestamp as Decode>::decodes_to(value_of(left0, "ts"@), x.ts)
                &&& <UserId as Decode>::decodes_to(value_of(left1, "user"@), x.user)
            },
            _ => false,
        }
    }

    /// Whether `e` is the error of the first check or field that fails on `v`.
    #[verifier::opaque]
    pub open spec fn spec_rejects_with(v: JsonValue, e: DecodeError) -> bool {
        match v {
            JsonValue::Object(w) => {
                let left0 = w@;
                let left1 = taken(left0, "ts"@);
                if !required_ok::<Timestamp>(left0, "ts"@) {
                    required_err::<Timestamp>(left0, "ts"@, e)
                } else if !required_ok::<UserId>(left1, "user"@) {
                    required_err::<UserId>(left1, "user"@, e)
                } else {
                    false
                }
            },
            _ => e == (DecodeError::WrongType { expected: "object" }),
        }
    }
}

impl Decode for MessageMessageChangedMessageReply {
    open spec fn accepts(v: JsonValue) -> bool {
        MessageMessageChangedMessageReply::spec_accepts(v)
    }

    open spec fn decodes_to(v: JsonValue, x: MessageMessageChangedMessageReply) -> bool {
        MessageMessageChangedMessageReply::spec_decodes_to(v, x)
    }

    open spec fn rejects_with(v: JsonValue, e: DecodeError) -> bool {
        MessageMessageChangedMessageReply::spec_rejects_with(v, e)
    }

    fn decode(v: JsonValue) -> Result<MessageMessageChangedMessageReply, DecodeError> {
        proof {
            reveal(MessageMessageChangedMessageReply::spec_accepts);
            reveal(MessageMessageChangedMessageReply::spec_decodes_to);
            reveal(MessageMessageChangedMessageReply::spec_rejects_with);
        }
        let mut wire = into_fields(v)?;
        let ts: Timestamp = required(&mut wire, "ts")?;
        let user: UserId = required(&mut wire, "user")?;
        Ok(MessageMessageChangedMessageReply { ts, user })
    }
}

#[derive(Clone, Debug, PartialEq)]
pub struct MessageMessageChangedPreviousMessage {
    pub bot_id: Option<BotId>,
    pub edited: Option<MessageMessageChangedPreviousMessageEdited>,
    pub last_read: Option<Timestamp>,
    pub parent_user_id: Option<UserId>,
    pub replies: Option<Vec<MessageMessageChangedPreviousMessageReply>>,
    pub reply_count: Option<i32>,
    pub subscribed: Option<bool>,
    pub text: String,
    pub thread_ts: Option<Timestamp>,
    pub ts: Timestamp,
    pub unread_count: Option<i32>,
    pub user: Option<UserId>,
}

impl MessageMessageChangedPreviousMessage {
    /// Whether `v` decodes as the record: an object whose fields read in order.
    #[verifier::opaque]
    pub open spec fn spec_accepts(v: JsonValue) -> bool {
        match v {
            JsonValue::Object(w) => {
                let left0 = w@;
                let left1 = taken(left0, "bot_id"@);
                let left2 = taken(left1, "edited"@);
                let left3 = taken(left2, "last_read"@);
                let left4 = taken(left3, "parent_user_id"@);
                let left5 = taken(left4, "replies"@);
                let left6 = taken(left5, "reply_count"@);
                let left7 = taken(left6, "subscribed"@);
                let left8 = taken(left7, "text"@);
                let left9 = taken(left8, "thread_ts"@);
                let left10 = taken(left9, "ts"@);
                let left11 = taken(left10, "unread_count"@);
                &&& optional_ok::<BotId>(left0, "bot_id"@)
                &&& optional_ok::<MessageMessageChangedPreviousMessageEdited>(left1, "edited"@)
                &&& optional_ok::<Timestamp>(left2, "last_read"@)
                &&& optional_ok::<UserId>(left3, "parent_user_id"@)
                &&& optional_ok::<Vec<MessageMessageChangedPreviousMessageReply>>(left4, "replies"@)
                &&& optional_ok::<i32>(left5, "reply_count"@)
                &&& optional_ok::<bool>(left6, "subscribed"@)
                &&& text_ok(left7, "text"@)
                &&& optional_ok::<Timestamp>(left8, "thread_ts"@)
                &&& required_ok::<Timestamp>(left9, "ts"@)
                &&& optional_ok::<i32>(left10, "unread_count"@)
                &&& optional_ok::<UserId>(left11, "user"@)
            },
            _ => false,
        }
    }

    /// Whether `x` holds what the fields of `v` read as.
    #[verifier::opaque]
    pub open spec fn spec_decodes_to(v: JsonValue, x: MessageMessageChangedPreviousMessage) -> bool {
        match v {
            JsonValue::Object(w) => {
                let left0 = w@;
                let left1 = taken(left0, "bot_id"@);
                let left2 = taken(left1, "edited"@);
                let left3 = taken(left2, "last_read"@);
                let left4 = taken(left3, "parent_user_id"@);
                let left5 = taken(left4, "replies"@);
                let left6 = taken(left5, "reply_count"@);
                let left7 = taken(left6, "subscribed"@);
                let left8 = taken(left7, "text"@);
                let left9 = taken(left8, "thread_ts"@);
                let left10 = taken(left9, "ts"@);
                let left11 = taken(left10, "unread_count"@);
                &&& optional_value::<BotId>(left0, "bot_id"@, x.bot_id)
                &&& optional_value::<MessageMessageChangedPreviousMessageEdited>(left1, "edited"@, x.edited)
                &&& optional_value::<Timestamp>(left2, "last_read"@, x.last_read)
                &&& optional_value::<UserId>(left3, "parent_user_id"@, x.parent_user_id)
                &&& optional_value::<Vec<MessageMessageChangedPreviousMessageReply>>(left4, "replies"@, x.replies)
                &&& optional_value::<i32>(left5, "reply_count"@, x.reply_count)
                &&& optional_value::<bool>(left6, "subscribed"@, x.subscribed)
                &&& text_value(left7, "text"@, x.text)
                &&& optional_value::<Timestamp>(left8, "thread_ts"@, x.thread_ts)
                &&& <Timestamp as Decode>::decodes_to(value_of(left9, "ts"@), x.ts)
                &&& optional_value::<i32>(left10, "unread_count"@, x.unread_count)
                &&& optional_value::<UserId>(left11, "user"@, x.user)
            },
            _ => false,
        }
    }

    /// Whether `e` is the error of the first check or field that fails on `v`.
    #[verifier::opaque]
    pub open spec fn spec_rejects_with(v: JsonValue, e: DecodeError) -> bool {
        match v {
            JsonValue::Object(w) => {
                let left0 = w@;
                let left1 = taken(left0, "bot_id"@);
                let left2 = taken(left1, "edited"@);
                let left3 = taken(left2, "last_read"@);
                let left4 = taken(left3, "parent_user_id"@);
                let left5 = taken(left4, "replies"@);
                let left6 = taken(left5, "reply_count"@);
                let left7 = taken(left6, "subscribed"@);
                let left8 = taken(left7, "text"@);
                let left9 = taken(left8, "thread_ts"@);
                let left10 = taken(left9, "ts"@);
                let left11 = taken(left10, "unread_count"@);
                if !optional_ok::<BotId>(left0, "bot_id"@) {
                    field_failed::<BotId>(left0, "bot_id"@, e)
                } else if !optional_ok::<MessageMessageChangedPreviousMessageEdited>(left1, "edited"@) {
                    field_failed::<MessageMessageChangedPreviousMessageEdited>(left1, "edited"@, e)
                } else if !optional_ok::<Timestamp>(left2, "last_read"@) {
                    field_failed::<Timestamp>(left2, "last_read"@, e)
                } else if !optional_ok::<UserId>(left3, "parent_user_id"@) {
                    field_failed::<UserId>(left3, "parent_user_id"@, e)
                } else if !optional_ok::<Vec<MessageMessageChangedPreviousMessageReply>>(left4, "replies"@) {
                    field_failed::<Vec<MessageMessageChangedPreviousMessageReply>>(left4, "replies"@, e)
                } else if !optional_ok::<i32>(left5, "reply_count"@) {
                    field_failed::<i32>(left5, "reply_count"@, e)
                } else if !optional_ok::<bool>(left6, "subscribed"@) {
                    field_failed::<bool>(left6, "subscribed"@, e)
                } else if !text_ok(left7, "text"@) {
                    field_failed::<String>(left7, "text"@, e)
                } else if !optional_ok::<Timestamp>(left8, "thread_ts"@) {
                    field_failed::<Timestamp>(left8, "thread_ts"@, e)
                } else if !required_ok::<Timestamp>(left9, "ts"@) {
                    required_err::<Timestamp>(left9, "ts"@, e)
                } else if !optional_ok::<i32>(left10, "unread_count"@) {
                    field_failed::<i32>(left10, "unread_count"@, e)
                } else if !optional_ok::<UserId>(left11, "user"@) {
                    field_failed::<UserId>(left11, "user"@, e)
                } else {
                    false
                }
            },
            _ => e == (DecodeError::WrongType { expected: "object" }),
        }
    }
}

impl Decode for MessageMessageChangedPreviousMessage {
    open spec fn accepts(v: JsonValue) -> bool {
        MessageMessageChangedPreviousMessage::spec_accepts(v)
    }

    open spec fn decodes_to(v: JsonValue, x: MessageMessageChangedPreviousMessage) -> bool {
        MessageMessageChangedPreviousMessage::spec_decodes_to(v, x)
    }

    open spec fn rejects_with(v: JsonValue, e: DecodeError) -> bool {
        MessageMessageChangedPreviousMessage::spec_rejects_with(v, e)
    }

    fn decode(v: JsonValue) -> Result<MessageMessageChangedPreviousMessage, DecodeError> {
        proof {
            reveal(MessageMessageChangedPreviousMessage::spec_accepts);
            reveal(MessageMessageChangedPreviousMessage::spec_decodes_to);
            reveal(MessageMessageChangedPreviousMessage::spec_rejects_with);
        }
        let mut wire = into_fields(v)?;
        let bot_id: Option<BotId> = optional(&mut wire, "bot_id")?;
        let edited: Option<MessageMessageChangedPreviousMessageEdited> = optional(&mut wire, "edited")?;
        let last_read: Option<Timestamp> = optional(&mut wire, "last_read")?;
        let parent_user_id: Option<UserId> = optional(&mut wire, "parent_user_id")?;
        let replies: Option<Vec<MessageMessageChangedPreviousMessageReply>> = optional(&mut wire, "replies")?;
        let reply_count: Option<i32> = optional(&mut wire, "reply_count")?;
        let subscribed: Option<bool> = optional(&mut wire, "subscribed")?;
        let text: String = text_or_empty(&mut wire, "text")?;
        let thread_ts: Option<Timestamp> = optional(&mut wire, "thread_ts")?;
        let ts: Timestamp = required(&mut wire, "ts")?;
        let unread_count: Option<i32> = optional(&mut wire, "unread_count")?;
        let user: Option<UserId> = optional(&mut wire, "user")?;
        Ok(MessageMessageChangedPreviousMessage { bot_id, edited, last_read, parent_user_id, replies, reply_count, subscribed, text, thread_ts, ts, unread_count, user })
    }
}

#[derive(Clone, Debug, PartialEq)]
pub struct MessageMessageChangedPreviousMessageEdited {
    pub ts: Timestamp,
    pub user: UserId,
}

impl MessageMessageChangedPreviousMessageEdited {
    /// Whether `v` decodes as the record: an object whose fields read in order.
    #[verifier::opaque]
    pub open spec fn spec_accepts(v: JsonValue) -> bool {
        match v {
            JsonValue::Object(w) => {
                let left0 = w@;
                let left1 = taken(left0, "ts"@);
                &&& required_ok::<Timestamp>(left0, "ts"@)
                &&& required_ok::<UserId>(left1, "user"@)
            },
            _ => false,
        }
    }

    /// Whether `x` holds what the fields of `v` read as.
    #[verifier::opaque]
    pub open spec fn spec_decodes_to(v: JsonValue, x: MessageMessageChangedPreviousMessageEdited) -> bool {
        match v {
            JsonValue::Object(w) => {
                let left0 = w@;
                let left1 = taken(left0, "ts"@);
                &&& <Timestamp as Decode>::decodes_to(value_of(left0, "ts"@), x.ts)
                &&& <UserId as Decode>::decodes_to(value_of(left1, "user"@), x.user)
            },
            _ => false,
        }
    }

    /// Whether `e` is the error of the first check or field that fails on `v`.
    #[verifier::opaque]
    pub open spec fn spec_rejects_with(v: JsonValue, e: DecodeError) -> bool {
        match v {
            JsonValue::Object(w) => {
                let left0 = w@;
                let left1 = taken(left0, "ts"@);
                if !required_ok::<Timestamp>(left0, "ts"@) {
                    required_err::<Timestamp>(left0, "ts"@, e)
                } else if !required_ok::<UserId>(left1, "user"@) {
                    required_err::<UserId>(left1, "user"@, e)
                } else {
                    false
                }
            },
            _ => e == (DecodeError::WrongType { expected: "object" }),
        }
    }
}

impl Decode for MessageMessageChangedPreviousMessageEdited {
    open spec fn accepts(v: JsonValue) -> bool {
        MessageMessageChangedPreviousMessageEdited::spec_accepts(v)
    }

    open spec fn decodes_to(v: JsonValue, x: MessageMessageChangedPreviousMessageEdited) -> bool {
        MessageMessageChangedPreviousMessageEdited::spec_decodes_to(v, x)
    }

    open spec fn rejects_with(v: JsonValue, e: DecodeError) -> bool {
        MessageMessageChangedPreviousMessageEdited::spec_rejects_with(v, e)
    }

    fn decode(v: JsonValue) -> Result<MessageMessageChangedPreviousMessageEdited, DecodeError> {
        proof {
            reveal(MessageMessageChangedPreviousMessageEdited::spec_accepts);
            reveal(MessageMessageChangedPreviousMessageEdited::spec_decodes_to);
            reveal(MessageMessageChangedPreviousMessageEdited::spec_rejects_with);
        }
        let mut wire = into_fields(v)?;
        let ts: Timestamp = required(&mut wire, "ts")?;
        let user: UserId = required(&mut wire, "user")?;
        Ok(MessageMessageChangedPreviousMessageEdited { ts, user })
    }
}

#[derive(Clone, Debug, PartialEq)]
pub struct MessageMessageChangedPreviousMessageReply {
    pub ts: Timestamp,
    pub user: UserId,
}

impl MessageMessageChangedPreviousMessageReply {
    /// Whether `v` decodes as the record: an object whose fields read in order.
    #[verifier::opaque]
    pub open spec fn spec_accepts(v: JsonValue) -> bool {
        match v {
            JsonValue::Object(w) => {
                let left0 = w@;
                let left1 = taken(left0, "ts"@);
                &&& required_ok::<Timestamp>(left0, "ts"@)
                &&& required_ok::<UserId>(left1, "user"@)
            },
            _ => false,
        }
    }

    /// Whether `x` holds what the fields of `v` read as.
    #[verifier::opaque]
    pub open spec fn spec_decodes_to(v: JsonValue, x: MessageMessageChangedPreviousMessageReply) -> bool {
        match v {
            JsonValue::Object(w) => {
                let left0 = w@;
                let left1 = taken(left0, "ts"@);
                &&& <Timestamp as Decode>::decodes_to(value_of(left0, "ts"@), x.ts)
                &&& <UserId as Decode>::decodes_to(value_of(left1, "user"@), x.user)
            },
            _ => false,
        }
    }

    /// Whether `e` is the error of the first check or field that fails on `v`.
    #[verifier::opaque]
    pub open spec fn spec_rejects_with(v: JsonValue, e: DecodeError) -> bool {
        match v {
            JsonValue::Object(w) => {
                let left0 = w@;
                let left1 = taken(left0, "ts"@);
                if !required_ok::<Timestamp>(left0, "ts"@) {
                    required_err::<Timestamp>(left0, "ts"@, e)
                } else if !required_ok::<UserId>(left1, "user"@) {
                    required_err::<UserId>(left1, "user"@, e)
                } else {
                    false
                }
            },
            _ => e == (DecodeError::WrongType { expected: "object" }),
        }
    }
}

impl Decode for MessageMessageChangedPreviousMessageReply {
    open spec fn accepts(v: JsonValue) -> bool {
        MessageMessageChangedPreviousMessageReply::spec_accepts(v)
    }

    open spec fn decodes_to(v: JsonValue, x: MessageMessageChangedPreviousMessageReply) -> bool {
        MessageMessageChangedPreviousMessageReply::spec_decodes_to(v, x)
    }

    open spec fn rejects_with(v: JsonValue, e: DecodeError) -> bool {
        MessageMessageChangedPreviousMessageReply::spec_rejects_with(v, e)
    }

    fn decode(v: JsonValue) -> Result<MessageMessageChangedPreviousMessageReply, DecodeError> {
        proof {
            reveal(MessageMessageChangedPreviousMessageReply::spec_accepts);
            reveal(MessageMessageChangedPreviousMessageReply::spec_decodes_to);
            reveal(MessageMessageChangedPreviousMessageReply::spec_rejects_with);
        }
        let mut wire = into_fields(v)?;
        let ts: Timestamp = required(&mut wire, "ts")?;
        let user: UserId = required(&mut wire, "user")?;
        Ok(MessageMessageChangedPreviousMessageReply { ts, user })
    }
}

#[derive(Clone, Debug, PartialEq)]
pub struct MessageMessageDeleted {
    pub channel: Option<String>,
    pub deleted_ts: Option<String>,
    pub event_ts: Option<String>,
    pub hidden: Option<bool>,
    pub previous_message: Option<MessageMessageDeletedPreviousMessage>,
    pub ts: Option<Timestamp>,
}

impl MessageMessageDeleted {
    /// Whether `v` decodes as the record: an object whose fields read in order.
    #[verifier::opaque]
    pub open spec fn spec_accepts(v: JsonValue) -> bool {
        match v {
            JsonValue::Object(w) => {
                let left0 = w@;
                let left1 = taken(left0, "channel"@);
                let left2 = taken(left1, "deleted_ts"@);
                let left3 = taken(left2, "event_ts"@);
                let left4 = taken(left3, "hidden"@);
                let left5 = taken(left4, "previous_message"@);
                &&& optional_ok::<String>(left0, "channel"@)
                &&& optional_ok::<String>(left1, "deleted_ts"@)
                &&& optional_ok::<String>(left2, "event_ts"@)
                &&& optional_ok::<bool>(left3, "hidden"@)
                &&& optional_ok::<MessageMessageDeletedPreviousMessage>(left4, "previous_message"@)
                &&& optional_ok::<Timestamp>(left5, "ts"@)
            },
            _ => false,
        }
    }

    /// Whether `x` holds what the fields of `v` read as.
    #[verifier::opaque]
    pub open spec fn spec_decodes_to(v: JsonValue, x: MessageMessageDeleted) -> bool {
        match v {
            JsonValue::Object(w) => {
                let left0 = w@;
                let left1 = taken(left0, "channel"@);
                let left2 = taken(left1, "deleted_ts"@);
                let left3 = taken(left2, "event_ts"@);
                let left4 = taken(left3, "hidden"@);
                let left5 = taken(left4, "previous_message"@);
                &&& optional_value::<String>(left0, "channel"@, x.channel)
                &&& optional_value::<String>(left1, "deleted_ts"@, x.deleted_ts)
                &&& optional_value::<String>(left2, "event_ts"@, x.event_ts)
                &&& optional_value::<bool>(left3, "hidden"@, x.hidden)
                &&& optional_value::<MessageMessageDeletedPreviousMessage>(left4, "previous_message"@, x.previous_message)
                &&& optional_value::<Timestamp>(left5, "ts"@, x.ts)
            },
            _ => false,
        }
    }

    /// Whether `e` is the error of the first check or field that fails on `v`.
    #[verifier::opaque]
    pub open spec fn spec_rejects_with(v: JsonValue, e: DecodeError) -> bool {
        match v {
            JsonValue::Object(w) => {
                let left0 = w@;
                let left1 = taken(left0, "channel"@);
                let left2 = taken(left1, "deleted_ts"@);
                let left3 = taken(left2, "event_ts"@);
                let left4 = taken(left3, "hidden"@);
                let left5 = taken(left4, "previous_message"@);
                if !optional_ok::<String>(left0, "channel"@) {
                    field_failed::<String>(left0, "channel"@, e)
                } else if !optional_ok::<String>(left1, "deleted_ts"@) {
                    field_failed::<String>(left1, "deleted_ts"@, e)
                } else if !optional_ok::<String>(left2, "event_ts"@) {
                    field_failed::<String>(left2, "event_ts"@, e)
                } else if !optional_ok::<bool>(left3, "hidden"@) {
                    field_failed::<bool>(left3, "hidden"@, e)
                } else if !optional_ok::<MessageMessageDeletedPreviousMessage>(left4, "previous_message"@) {
                    field_failed::<MessageMessageDeletedPreviousMessage>(left4, "previous_message"@, e)
                } else if !optional_ok::<Timestamp>(left5, "ts"@) {
                    field_failed::<Timestamp>(left5, "ts"@, e)
                } else {
                    false
                }
            },
            _ => e == (DecodeError::WrongType { expected: "object" }),
        }
    }
}

impl Decode for MessageMessageDeleted {
    open spec fn accepts(v: JsonValue) -> bool {
        MessageMessageDeleted::spec_accepts(v)
    }

    open spec fn decodes_to(v: JsonValue, x: MessageMessageDeleted) -> bool {
        MessageMessageDeleted::spec_decodes_to(v, x)
    }

    open spec fn rejects_with(v: JsonValue, e: DecodeError) -> bool {
        MessageMessageDeleted::spec_rejects_with(v, e)
    }

    fn decode(v: JsonValue) -> Result<MessageMessageDeleted, DecodeError> {
        proof {
            reveal(MessageMessageDeleted::spec_accepts);
            reveal(MessageMessageDeleted::spec_decodes_to);
            reveal(MessageMessageDeleted::spec_rejects_with);
        }
        let mut wire = into_fields(v)?;
        let channel: Option<String> = optional(&mut wire, "channel")?;
        let deleted_ts: Option<String> = optional(&mut wire, "deleted_ts")?;
        let event_ts: Option<String> = optional(&mut wire, "event_ts")?;
        let hidden: Option<bool> = optional(&mut wire, "hidden")?;
        let previous_message: Option<MessageMessageDeletedPreviousMessage> = optional(&mut wire, "previous_message")?;
        let ts: Option<Timestamp> = optional(&mut wire, "ts")?;
        Ok(MessageMessageDeleted { channel, deleted_ts, event_ts, hidden, previous_message, ts })
    }
}

#[derive(Clone, Debug, PartialEq)]
pub struct MessageMessageDeletedPreviousMessage {
    pub bot_id: Option<BotId>,
    pub edited: Option<MessageMessageDeletedPreviousMessageEdited>,
    pub last_read: Option<Timestamp>,
    pub parent_user_id: Option<String>,
    pub replies: Option<Vec<MessageMessageDeletedPreviousMessageReply>>,
    pub reply_count: Option<i32>,
    pub subscribed: Option<bool>,
    pub text: String,
    pub thread_ts: Option<Timestamp>,
    pub ts: Timestamp,
    pub unread_count: Option<i32>,
    pub user: Option<UserId>,
}

impl MessageMessageDeletedPreviousMessage {
    /// Whether `v` decodes as the record: an object whose fields read in order.
    #[verifier::opaque]
    pub open spec fn spec_accepts(v: JsonValue) -> bool {
        match v {
            JsonValue::Object(w) => {
                let left0 = w@;
                let left1 = taken(left0, "bot_id"@);
                let left2 = taken(left1, "edited"@);
                let left3 = taken(left2, "last_read"@);
                let left4 = taken(left3, "parent_user_id"@);
                let left5 = taken(left4, "replies"@);
                let left6 = taken(left5, "reply_count"@);
                let left7 = taken(left6, "subscribed"@);
                let left8 = taken(left7, "text"@);
                let left9 = taken(left8, "thread_ts"@);
                let left10 = taken(left9, "ts"@);
                let left11 = taken(left10, "unread_count"@);
                &&& optional_ok::<BotId>(left0, "bot_id"@)
                &&& optional_ok::<MessageMessageDeletedPreviousMessageEdited>(left1, "edited"@)
                &&& optional_ok::<Timestamp>(left2, "last_read"@)
                &&& optional_ok::<String>(left3, "parent_user_id"@)
                &&& optional_ok::<Vec<MessageMessageDeletedPreviousMessageReply>>(left4, "replies"@)
                &&& optional_ok::<i32>(left5, "reply_count"@)
                &&& optional_ok::<bool>(left6, "subscribed"@)
                &&& text_ok(left7, "text"@)
                &&& optional_ok::<Timestamp>(left8, "thread_ts"@)
                &&& required_ok::<Timestamp>(left9, "ts"@)
                &&& optional_ok::<i32>(left10, "unread_count"@)
                &&& optional_ok::<UserId>(left11, "user"@)
            },
            _ => false,
        }
    }

    /// Whether `x` holds what the fields of `v` read as.
    #[verifier::opaque]
    pub open spec fn spec_decodes_to(v: JsonValue, x: MessageMessageDeletedPreviousMessage) -> bool {
        match v {
            JsonValue::Object(w) => {
                let left0 = w@;
                let left1 = taken(left0, "bot_id"@);
                let left2 = taken(left1, "edited"@);
                let left3 = taken(left2, "last_read"@);
                let left4 = taken(left3, "parent_user_id"@);
                let left5 = taken(left4, "replies"@);
                let left6 = taken(left5, "reply_count"@);
                let left7 = taken(left6, "subscribed"@);
                let left8 = taken(left7, "text"@);
                let left9 = taken(left8, "thread_ts"@);
                let left10 = taken(left9, "ts"@);
                let left11 = taken(left10, "unread_count"@);
                &&& optional_value::<BotId>(left0, "bot_id"@, x.bot_id)
                &&& optional_value::<MessageMessageDeletedPreviousMessageEdited>(left1, "edited"@, x.edited)
                &&& optional_value::<Timestamp>(left2, "last_read"@, x.last_read)
                &&& optional_value::<String>(left3, "parent_user_id"@, x.parent_user_id)
                &&& optional_value::<Vec<MessageMessageDeletedPreviousMessageReply>>(left4, "replies"@, x.replies)
                &&& optional_value::<i32>(left5, "reply_count"@, x.reply_count)
                &&& optional_value::<bool>(left6, "subscribed"@, x.subscribed)
                &&& text_value(left7, "text"@, x.text)
                &&& optional_value::<Timestamp>(left8, "thread_ts"@, x.thread_ts)
                &&& <Timestamp as Decode>::decodes_to(value_of(left9, "ts"@), x.ts)
                &&& optional_value::<i32>(left10, "unread_count"@, x.unread_count)
                &&& optional_value::<UserId>(left11, "user"@, x.user)
            },
            _ => false,
        }
    }

    /// Whether `e` is the error of the first check or field that fails on `v`.
    #[verifier::opaque]
    pub open spec fn spec_rejects_with(v: JsonValue, e: DecodeError) -> bool {
        match v {
            JsonValue::Object(w) => {
                let left0 = w@;
                let left1 = taken(left0, "bot_id"@);
                let left2 = taken(left1, "edited"@);
                let left3 = taken(left2, "last_read"@);
                let left4 = taken(left3, "parent_user_id"@);
                let left5 = taken(left4, "replies"@);
                let left6 = taken(left5, "reply_count"@);
                let left7 = taken(left6, "subscribed"@);
                let left8 = taken(left7, "text"@);
                let left9 = taken(left8, "thread_ts"@);
                let left10 = taken(left9, "ts"@);
                let left11 = taken(left10, "unread_count"@);
                if !optional_ok::<BotId>(left0, "bot_id"@) {
                    field_failed::<BotId>(left0, "bot_id"@, e)
                } else if !optional_ok::<MessageMessageDeletedPreviousMessageEdited>(left1, "edited"@) {
                    field_failed::<MessageMessageDeletedPreviousMessageEdited>(left1, "edited"@, e)
                } else if !optional_ok::<Timestamp>(left2, "last_read"@) {
                    field_failed::<Timestamp>(left2, "last_read"@, e)
                } else if !optional_ok::<String>(left3, "parent_user_id"@) {
                    field_failed::<String>(left3, "parent_user_id"@, e)
                } else if !optional_ok::<Vec<MessageMessageDeletedPreviousMessageReply>>(left4, "replies"@) {
                    field_failed::<Vec<MessageMessageDeletedPreviousMessageReply>>(left4, "replies"@, e)
                } else if !optional_ok::<i32>(left5, "reply_count"@) {
                    field_failed::<i32>(left5, "reply_count"@, e)
                } else if !optional_ok::<bool>(left6, "subscribed"@) {
                    field_failed::<bool>(left6, "subscribed"@, e)
                } else if !text_ok(left7, "text"@) {
                    field_failed::<String>(left7, "text"@, e)
                } else if !optional_ok::<Timestamp>(left8, "thread_ts"@) {
                    field_failed::<Timestamp>(left8, "thread_ts"@, e)
                } else if !required_ok::<Timestamp>(left9, "ts"@) {
                    required_err::<Timestamp>(left9, "ts"@, e)
                } else if !optional_ok::<i32>(left10, "unread_count"@) {
                    field_failed::<i32>(left10, "unread_count"@, e)
                } else if !optional_ok::<UserId>(left11, "user"@) {
                    field_failed::<UserId>(left11, "user"@, e)
                } else {
                    false
                }
            },
            _ => e == (DecodeError::WrongType { expected: "object" }),
        }
    }
}

impl Decode for MessageMessageDeletedPreviousMessage {
    open spec fn accepts(v: JsonValue) -> bool {
        MessageMessageDeletedPreviousMessage::spec_accepts(v)
    }

    open spec fn decodes_to(v: JsonValue, x: MessageMessageDeletedPreviousMessage) -> bool {
        MessageMessageDeletedPreviousMessage::spec_decodes_to(v, x)
    }

    open spec fn rejects_with(v: JsonValue, e: DecodeError) -> bool {
        MessageMessageDeletedPreviousMessage::spec_rejects_with(v, e)
    }

    fn decode(v: JsonValue) -> Result<MessageMessageDeletedPreviousMessage, DecodeError> {
        proof {
            reveal(MessageMessageDeletedPreviousMessage::spec_accepts);
            reveal(MessageMessageDeletedPreviousMessage::spec_decodes_to);
            reveal(MessageMessageDeletedPreviousMessage::spec_rejects_with);
        }
        let mut wire = into_fields(v)?;
        let bot_id: Option<BotId> = optional(&mut wire, "bot_id")?;
        let edited: Option<MessageMessageDeletedPreviousMessageEdited> = optional(&mut wire, "edited")?;
        let last_read: Option<Timestamp> = optional(&mut wire, "last_read")?;
        let parent_user_id: Option<String> = optional(&mut wire, "parent_user_id")?;
        let replies: Option<Vec<MessageMessageDeletedPreviousMessageReply>> = optional(&mut wire, "replies")?;
        let reply_count: Option<i32> = optional(&mut wire, "reply_count")?;
        let subscribed: Option<bool> = optional(&mut wire, "subscribed")?;
        let text: String = text_or_empty(&mut wire, "text")?;
        let thread_ts: Option<Timestamp> = optional(&mut wire, "thread_ts")?;
        let ts: Timestamp = required(&mut wire, "ts")?;
        let unread_count: Option<i32> = optional(&mut wire, "unread_count")?;
        let user: Option<UserId> = optional(&mut wire, "user")?;
        Ok(MessageMessageDeletedPreviousMessage { bot_id, edited, last_read, parent_user_id, replies, reply_count, subscribed, text, thread_ts, ts, unread_count, user })
    }
}

#[derive(Clone, Debug, PartialEq)]
pub struct MessageMessageDeletedPreviousMessageEdited {
    pub ts: Timestamp,
    pub user: UserId,
}

impl MessageMessageDeletedPreviousMessageEdited {
    /// Whether `v` decodes as the record: an object whose fields read in order.
    #[verifier::opaque]
    pub open spec fn spec_accepts(v: JsonValue) -> bool {
        match v {
            JsonValue::Object(w) => {
                let left0 = w@;
                let left1 = taken(left0, "ts"@);
                &&& required_ok::<Timestamp>(left0, "ts"@)
                &&& required_ok::<UserId>(left1, "user"@)
            },
            _ => false,
        }
    }

    /// Whether `x` holds what the fields of `v` read as.
    #[verifier::opaque]
    pub open spec fn spec_decodes_to(v: JsonValue, x: MessageMessageDeletedPreviousMessageEdited) -> bool {
        match v {
            JsonValue::Object(w) => {
                let left0 = w@;
                let left1 = taken(left0, "ts"@);
                &&& <Timestamp as Decode>::decodes_to(value_of(left0, "ts"@), x.ts)
                &&& <UserId as Decode>::decodes_to(value_of(left1, "user"@), x.user)
            },
            _ => false,
        }
    }

    /// Whether `e` is the error of the first check or field that fails on `v`.
    #[verifier::opaque]
    pub open spec fn spec_rejects_with(v: JsonValue, e: DecodeError) -> bool {
        match v {
            JsonValue::Object(w) => {
                let left0 = w@;
                let left1 = taken(left0, "ts"@);
                if !required_ok::<Timestamp>(left0, "ts"@) {
                    required_err::<Timestamp>(left0, "ts"@, e)
                } else if !required_ok::<UserId>(left1, "user"@) {
                    required_err::<UserId>(left1, "user"@, e)
                } else {
                    false
                }
            },
            _ => e == (DecodeError::WrongType { expected: "object" }),
        }
    }
}

impl Decode for MessageMessageDeletedPreviousMessageEdited {
    open spec fn accepts(v: JsonValue) -> bool {
        MessageMessageDeletedPreviousMessageEdited::spec_accepts(v)
    }

    open spec fn decodes_to(v: JsonValue, x: MessageMessageDeletedPreviousMessageEdited) -> bool {
        MessageMessageDeletedPreviousMessageEdited::spec_decodes_to(v, x)
    }

    open spec fn rejects_with(v: JsonValue, e: DecodeError) -> bool {
        MessageMessageDeletedPreviousMessageEdited::spec_rejects_with(v, e)
    }

    fn decode(v: JsonValue) -> Result<MessageMessageDeletedPreviousMessageEdited, DecodeError> {
        proof {
            reveal(MessageMessageDeletedPreviousMessageEdited::spec_accepts);
            reveal(MessageMessageDeletedPreviousMessageEdited::spec_decodes_to);
            reveal(MessageMessageDeletedPreviousMessageEdited::spec_rejects_with);
        }
        let mut wire = into_fields(v)?;
        let ts: Timestamp = required(&mut wire, "ts")?;
        let user: UserId = required(&mut wire, "user")?;
        Ok(MessageMessageDeletedPreviousMessageEdited { ts, user })
    }
}

#[derive(Clone, Debug, PartialEq)]
pub struct MessageMessageDeletedPreviousMessageReply {
    pub ts: Timestamp,
    pub user: UserId,
}

impl MessageMessageDeletedPreviousMessageReply {
    /// Whether `v` decodes as the record: an object whose fields read in order.
    #[verifier::opaque]
    pub open spec fn spec_accepts(v: JsonValue) -> bool {
        match v {
            JsonValue::Object(w) => {
                let left0 = w@;
                let left1 = taken(left0, "ts"@);
                &&& required_ok::<Timestamp>(left0, "ts"@)
                &&& required_ok::<UserId>(left1, "user"@)
            },
            _ => false,
        }
    }

    /// Whether `x` holds what the fields of `v` read as.
    #[verifier::opaque]
    pub open spec fn spec_decodes_to(v: JsonValue, x: MessageMessageDeletedPreviousMessageReply) -> bool {
        match v {
            JsonValue::Object(w) => {
                let left0 = w@;
                let left1 = taken(left0, "ts"@);
                &&& <Timestamp as Decode>::decodes_to(value_of(left0, "ts"@), x.ts)
                &&& <UserId as Decode>::decodes_to(value_of(left1, "user"@), x.user)
            },
            _ => false,
        }
    }

    /// Whether `e` is the error of the first check or field that fails on `v`.
    #[verifier::opaque]
    pub open spec fn spec_rejects_with(v: JsonValue, e: DecodeError) -> bool {
        match v {
            JsonValue::Object(w) => {
                let left0 = w@;
                let left1 = taken(left0, "ts"@);
                if !required_ok::<Timestamp>(left0, "ts"@) {
                    required_err::<Timestamp>(left0, "ts"@, e)
                } else if !required_ok::<UserId>(left1, "user"@) {
                    required_err::<UserId>(left1, "user"@, e)
                } else {
                    false
                }
            },
            _ => e == (DecodeError::WrongType { expected: "object" }),
        }
    }
}

impl Decode for MessageMessageDeletedPreviousMessageReply {
    open spec fn accepts(v: JsonValue) -> bool {
        MessageMessageDeletedPreviousMessageReply::spec_accepts(v)
    }

    open spec fn decodes_to(v: JsonValue, x: MessageMessageDeletedPreviousMessageReply) -> bool {
        MessageMessageDeletedPreviousMessageReply::spec_decodes_to(v, x)
    }

    open spec fn rejects_with(v: JsonValue, e: DecodeError) -> bool {
        MessageMessageDeletedPreviousMessageReply::spec_rejects_with(v, e)
    }

    fn decode(v: JsonValue) -> Result<MessageMessageDeletedPreviousMessageReply, DecodeError> {
        proof {
            reveal(MessageMessageDeletedPreviousMessageReply::spec_accepts);
            reveal(MessageMessageDeletedPreviousMessageReply::spec_decodes_to);
            reveal(MessageMessageDeletedPreviousMessageReply::spec_rejects_with);
        }
        let mut wire = into_fields(v)?;
        let ts: Timestamp = required(&mut wire, "ts")?;
        let user: UserId = required(&mut wire, "user")?;
        Ok(MessageMessageDeletedPreviousMessageReply { ts, user })
    }
}

#[derive(Clone, Debug, PartialEq)]
pub struct MessageMessageReplied {
    pub channel: Option<ConversationId>,
    pub event_ts: Timestamp,
    pub hidden: Option<bool>,
    pub message: Option<MessageMessageRepliedMessage>,
    pub thread_ts: Option<Timestamp>,
    pub ts: Timestamp,
}

impl MessageMessageReplied {
    /// Whether `v` decodes as the record: an object whose fields read in order.
    #[verifier::opaque]
    pub open spec fn spec_accepts(v: JsonValue) -> bool {
        match v {
            JsonValue::Object(w) => {
                let left0 = w@;
                let left1 = taken(left0, "channel"@);
                let left2 = taken(left1, "event_ts"@);
                let left3 = taken(left2, "hidden"@);
                let left4 = taken(left3, "message"@);
                let left5 = taken(left4, "thread_ts"@);
                &&& optional_ok::<ConversationId>(left0, "channel"@)
                &&& required_ok::<Timestamp>(left1, "event_ts"@)
                &&& optional_ok::<bool>(left2, "hidden"@)
                &&& optional_ok::<MessageMessageRepliedMessage>(left3, "message"@)
                &&& optional_ok::<Timestamp>(left4, "thread_ts"@)
                &&& required_ok::<Timestamp>(left5, "ts"@)
            },
            _ => false,
        }
    }

    /// Whether `x` holds what the fields of `v` read as.
    #[verifier::opaque]
    pub open spec fn spec_decodes_to(v: JsonValue, x: MessageMessageReplied) -> bool {
        match v {
            JsonValue::Object(w) => {
                let left0 = w@;
                let left1 = taken(left0, "channel"@);
                let left2 = taken(left1, "event_ts"@);
                let left3 = taken(left2, "hidden"@);
                let left4 = taken(left3, "message"@);
                let left5 = taken(left4, "thread_ts"@);
                &&& optional_value::<ConversationId>(left0, "channel"@, x.channel)
                &&& <Timestamp as Decode>::decodes_to(value_of(left1, "event_ts"@), x.event_ts)
                &&& optional_value::<bool>(left2, "hidden"@, x.hidden)
                &&& optional_value::<MessageMessageRepliedMessage>(left3, "message"@, x.message)
                &&& optional_value::<Timestamp>(left4, "thread_ts"@, x.thread_ts)
                &&& <Timestamp as Decode>::decodes_to(value_of(left5, "ts"@), x.ts)
            },
            _ => false,
        }
    }

    /// Whether `e` is the error of the first check or field that fails on `v`.
    #[verifier::opaque]
    pub open spec fn spec_rejects_with(v: JsonValue, e: DecodeError) -> bool {
        match v {
            JsonValue::Object(w) => {
                let left0 = w@;
                let left1 = taken(left0, "channel"@);
                let left2 = taken(left1, "event_ts"@);
                let left3 = taken(left2, "hidden"@);
                let left4 = taken(left3, "message"@);
                let left5 = taken(left4, "thread_ts"@);
                if !optional_ok::<ConversationId>(left0, "channel"@) {
                    field_failed::<ConversationId>(left0, "channel"@, e)
                } else if !required_ok::<Timestamp>(left1, "event_ts"@) {
                    required_err::<Timestamp>(left1, "event_ts"@, e)
                } else if !optional_ok::<bool>(left2, "hidden"@) {
                    field_failed::<bool>(left2, "hidden"@, e)
                } else if !optional_ok::<MessageMessageRepliedMessage>(left3, "message"@) {
                    field_failed::<MessageMessageRepliedMessage>(left3, "message"@, e)
                } else if !optional_ok::<Timestamp>(left4, "thread_ts"@) {
                    field_failed::<Timestamp>(left4, "thread_ts"@, e)
                } else if !required_ok::<Timestamp>(left5, "ts"@) {
                    required_err::<Timestamp>(left5, "ts"@, e)
                } else {
                    false
                }
            },
            _ => e == (DecodeError::WrongType { expected: "object" }),
        }
    }
}

impl Decode for MessageMessageReplied {
    open spec fn accepts(v: JsonValue) -> bool {
        MessageMessageReplied::spec_accepts(v)
    }

    open spec fn decodes_to(v: JsonValue, x: MessageMessageReplied) -> bool {
        MessageMessageReplied::spec_decodes_to(v, x)
    }

    open spec fn rejects_with(v: JsonValue, e: DecodeError) -> bool {
        MessageMessageReplied::spec_rejects_with(v, e)
    }

    fn decode(v: JsonValue) -> Result<MessageMessageReplied, DecodeError> {
        proof {
            reveal(MessageMessageReplied::spec_accepts);
            reveal(MessageMessageReplied::spec_decodes_to);
            reveal(MessageMessageReplied::spec_rejects_with);
        }
        let mut wire = into_fields(v)?;
        let channel: Option<ConversationId> = optional(&mut wire, "channel")?;
        let event_ts: Timestamp = required(&mut wire, "event_ts")?;
        let hidden: Option<bool> = optional(&mut wire, "hidden")?;
        let message: Option<MessageMessageRepliedMessage> = optional(&mut wire, "message")?;
        let thread_ts: Option<Timestamp> = optional(&mut wire, "thread_ts")?;
        let ts: Timestamp = required(&mut wire, "ts")?;
        Ok(MessageMessageReplied { channel, event_ts, hidden, message, thread_ts, ts })
    }
}

#[derive(Clone, Debug, PartialEq)]
pub struct MessageMessageRepliedMessage {
    pub bot_id: Option<BotId>,
    pub edited: Option<MessageMessageRepliedMessageEdited>,
    pub last_read: Option<Timestamp>,
    pub parent_user_id: Option<UserId>,
    pub replies: Option<Vec<MessageMessageRepliedMessageReply>>,
    pub reply_count: Option<i32>,
    pub subscribed: Option<bool>,
    pub text: String,
    pub thread_ts: Option<Timestamp>,
    pub ts: Timestamp,
    pub unread_count: Option<i32>,
    pub user: Option<UserId>,
}

impl MessageMessageRepliedMessage {
    /// Whether `v` decodes as the record: an object whose fields read in order.
    #[verifier::opaque]
    pub open spec fn spec_accepts(v: JsonValue) -> bool {
        match v {
            JsonValue::Object(w) => {
                let left0 = w@;
                let left1 = taken(left0, "bot_id"@);
                let left2 = taken(left1, "edited"@);
                let left3 = taken(left2, "last_read"@);
                let left4 = taken(left3, "parent_user_id"@);
                let left5 = taken(left4, "replies"@);
                let left6 = taken(left5, "reply_count"@);
                let left7 = taken(left6, "subscribed"@);
                let left8 = taken(left7, "text"@);
                let left9 = taken(left8, "thread_ts"@);
                let left10 = taken(left9, "ts"@);
                let left11 = taken(left10, "unread_count"@);
                &&& optional_ok::<BotId>(left0, "bot_id"@)
                &&& optional_ok::<MessageMessageRepliedMessageEdited>(left1, "edited"@)
                &&& optional_ok::<Timestamp>(left2, "last_read"@)
                &&& optional_ok::<UserId>(left3, "parent_user_id"@)
                &&& optional_ok::<Vec<MessageMessageRepliedMessageReply>>(left4, "replies"@)
                &&& optional_ok::<i32>(left5, "reply_count"@)
                &&& optional_ok::<bool>(left6, "subscribed"@)
                &&& text_ok(left7, "text"@)
                &&& optional_ok::<Timestamp>(left8, "thread_ts"@)
                &&& required_ok::<Timestamp>(left9, "ts"@)
                &&& optional_ok::<i32>(left10, "unread_count"@)
                &&& optional_ok::<UserId>(left11, "user"@)
            },
            _ => false,
        }
    }

    /// Whether `x` holds what the fields of `v` read as.
    #[verifier::opaque]
    pub open spec fn spec_decodes_to(v: JsonValue, x: MessageMessageRepliedMessage) -> bool {
        match v {
            JsonValue::Object(w) => {
                let left0 = w@;
                let left1 = taken(left0, "bot_id"@);
                let left2 = taken(left1, "edited"@);
                let left3 = taken(left2, "last_read"@);
                let left4 = taken(left3, "parent_user_id"@);
                let left5 = taken(left4, "replies"@);
                let left6 = taken(left5, "reply_count"@);
                let left7 = taken(left6, "subscribed"@);
                let left8 = taken(left7, "text"@);
                let left9 = taken(left8, "thread_ts"@);
                let left10 = taken(left9, "ts"@);
                let left11 = taken(left10, "unread_count"@);
                &&& optional_value::<BotId>(left0, "bot_id"@, x.bot_id)
                &&& optional_value::<MessageMessageRepliedMessageEdited>(left1, "edited"@, x.edited)
                &&& optional_value::<Timestamp>(left2, "last_read"@, x.last_read)
                &&& optional_value::<UserId>(left3, "parent_user_id"@, x.parent_user_id)
                &&& optional_value::<Vec<MessageMessageRepliedMessageReply>>(left4, "replies"@, x.replies)
                &&& optional_value::<i32>(left5, "reply_count"@, x.reply_count)
                &&& optional_value::<bool>(left6, "subscribed"@, x.subscribed)
                &&& text_value(left7, "text"@, x.text)
                &&& optional_value::<Timestamp>(left8, "thread_ts"@, x.thread_ts)
                &&& <Timestamp as Decode>::decodes_to(value_of(left9, "ts"@), x.ts)
                &&& optional_value::<i32>(left10, "unread_count"@, x.unread_count)
                &&& optional_value::<UserId>(left11, "user"@, x.user)
            },
            _ => false,
        }
    }

    /// Whether `e` is the error of the first check or field that fails on `v`.
    #[verifier::opaque]
    pub open spec fn spec_rejects_with(v: JsonValue, e: DecodeError) -> bool {
        match v {
            JsonValue::Object(w) => {
                let left0 = w@;
                let left1 = taken(left0, "bot_id"@);
                let left2 = taken(left1, "edited"@);
                let left3 = taken(left2, "last_read"@);
                let left4 = taken(left3, "parent_user_id"@);
                let left5 = taken(left4, "replies"@);
                let left6 = taken(left5, "reply_count"@);
                let left7 = taken(left6, "subscribed"@);
                let left8 = taken(left7, "text"@);
                let left9 = taken(left8, "thread_ts"@);
                let left10 = taken(left9, "ts"@);
                let left11 = taken(left10, "unread_count"@);
                if !optional_ok::<BotId>(left0, "bot_id"@) {
                    field_failed::<BotId>(left0, "bot_id"@, e)
                } else if !optional_ok::<MessageMessageRepliedMessageEdited>(left1, "edited"@) {
                    field_failed::<MessageMessageRepliedMessageEdited>(left1, "edited"@, e)
                } else if !optional_ok::<Timestamp>(left2, "last_read"@) {
                    field_failed::<Timestamp>(left2, "last_read"@, e)
                } else if !optional_ok::<UserId>(left3, "parent_user_id"@) {
                    field_failed::<UserId>(left3, "parent_user_id"@, e)
                } else if !optional_ok::<Vec<MessageMessageRepliedMessageReply>>(left4, "replies"@) {
                    field_failed::<Vec<MessageMessageRepliedMessageReply>>(left4, "replies"@, e)
                } else if !optional_ok::<i32>(left5, "reply_count"@) {
                    field_failed::<i32>(left5, "reply_count"@, e)
                } else if !optional_ok::<bool>(left6, "subscribed"@) {
                    field_failed::<bool>(left6, "subscribed"@, e)
                } else if !text_ok(left7, "text"@) {
                    field_failed::<String>(left7, "text"@, e)
                } else if !optional_ok::<Timestamp>(left8, "thread_ts"@) {
                    field_failed::<Timestamp>(left8, "thread_ts"@, e)
                } else if !required_ok::<Timestamp>(left9, "ts"@) {
                    required_err::<Timestamp>(left9, "ts"@, e)
                } else if !optional_ok::<i32>(left10, "unread_count"@) {
                    field_failed::<i32>(left10, "unread_count"@, e)
                } else if !optional_ok::<UserId>(left11, "user"@) {
                    field_failed::<UserId>(left11, "user"@, e)
                } else {
                    false
                }
            },
            _ => e == (DecodeError::WrongType { expected: "object" }),
        }
    }
}

impl Decode for MessageMessageRepliedMessage {
    open spec fn accepts(v: JsonValue) -> bool {
        MessageMessageRepliedMessage::spec_accepts(v)
    }

    open spec fn decodes_to(v: JsonValue, x: MessageMessageRepliedMessage) -> bool {
        MessageMessageRepliedMessage::spec_decodes_to(v, x)
    }

    open spec fn rejects_with(v: JsonValue, e: DecodeError) -> bool {
        MessageMessageRepliedMessage::spec_rejects_with(v, e)
    }

    fn decode(v: JsonValue) -> Result<MessageMessageRepliedMessage, DecodeError> {
        proof {
            reveal(MessageMessageRepliedMessage::spec_accepts);
            reveal(MessageMessageRepliedMessage::spec_decodes_to);
            reveal(MessageMessageRepliedMessage::spec_rejects_with);
        }
        let mut wire = into_fields(v)?;
        let bot_id: Option<BotId> = optional(&mut wire, "bot_id")?;
        let edited: Option<MessageMessageRepliedMessageEdited> = optional(&mut wire, "edited")?;
        let last_read: Option<Timestamp> = optional(&mut wire, "last_read")?;
        let parent_user_id: Option<UserId> = optional(&mut wire, "parent_user_id")?;
        let replies: Option<Vec<MessageMessageRepliedMessageReply>> = optional(&mut wire, "replies")?;
        let reply_count: Option<i32> = optional(&mut wire, "reply_count")?;
        let subscribed: Option<bool> = optional(&mut wire, "subscribed")?;
        let text: String = text_or_empty(&mut wire, "text")?;
        let thread_ts: Option<Timestamp> = optional(&mut wire, "thread_ts")?;
        let ts: Timestamp = required(&mut wire, "ts")?;
        let unread_count: Option<i32> = optional(&mut wire, "unread_count")?;
        let user: Option<UserId> = optional(&mut wire, "user")?;
        Ok(MessageMessageRepliedMessage { bot_id, edited, last_read, parent_user_id, replies, reply_count, subscribed, text, thread_ts, ts, unread_count, user })
    }
}

#[derive(Clone, Debug, PartialEq)]
pub struct MessageMessageRepliedMessageEdited {
    pub ts: Timestamp,
    pub user: UserId,
}

impl MessageMessageRepliedMessageEdited {
    /// Whether `v` decodes as the record: an object whose fields read in order.
    #[verifier::opaque]
    pub open spec fn spec_accepts(v: JsonValue) -> bool {
        match v {
            JsonValue::Object(w) => {
                let left0 = w@;
                let left1 = taken(left0, "ts"@);
                &&& required_ok::<Timestamp>(left0, "ts"@)
                &&& required_ok::<UserId>(left1, "user"@)
            },
            _ => false,
        }
    }

    /// Whether `x` holds what the fields of `v` read as.
    #[verifier::opaque]
    pub open spec fn spec_decodes_to(v: JsonValue, x: MessageMessageRepliedMessageEdited) -> bool {
        match v {
            JsonValue::Object(w) => {
                let left0 = w@;
                let left1 = taken(left0, "ts"@);
                &&& <Timestamp as Decode>::decodes_to(value_of(left0, "ts"@), x.ts)
                &&& <UserId as Decode>::decodes_to(value_of(left1, "user"@), x.user)
            },
            _ => false,
        }
    }

    /// Whether `e` is the error of the first check or field that fails on `v`.
    #[verifier::opaque]
    pub open spec fn spec_rejects_with(v: JsonValue, e: DecodeError) -> bool {
        match v {
            JsonValue::Object(w) => {
                let left0 = w@;
                let left1 = taken(left0, "ts"@);
                if !required_ok::<Timestamp>(left0, "ts"@) {
                    required_err::<Timestamp>(left0, "ts"@, e)
                } else if !required_ok::<UserId>(left1, "user"@) {
                    required_err::<UserId>(left1, "user"@, e)
                } else {
                    false
                }
            },
            _ => e == (DecodeError::WrongType { expected: "object" }),
        }
    }
}

impl Decode for MessageMessageRepliedMessageEdited {
    open spec fn accepts(v: JsonValue) -> bool {
        MessageMessageRepliedMessageEdited::spec_accepts(v)
    }

    open spec fn decodes_to(v: JsonValue, x: MessageMessageRepliedMessageEdited) -> bool {
        MessageMessageRepliedMessageEdited::spec_decodes_to(v, x)
    }

    open spec fn rejects_with(v: JsonValue, e: DecodeError) -> bool {
        MessageMessageRepliedMessageEdited::spec_rejects_with(v, e)
    }

    fn decode(v: JsonValue) -> Result<MessageMessageRepliedMessageEdited, DecodeError> {
        proof {
            reveal(MessageMessageRepliedMessageEdited::spec_accepts);
            reveal(MessageMessageRepliedMessageEdited::spec_decodes_to);
            reveal(MessageMessageRepliedMessageEdited::spec_rejects_with);
        }
        let mut wire = into_fields(v)?;
        let ts: Timestamp = required(&mut wire, "ts")?;
        let user: UserId = required(&mut wire, "user")?;
        Ok(MessageMessageRepliedMessageEdited { ts, user })
    }
}

#[derive(Clone, Debug, PartialEq)]
pub struct MessageMessageRepliedMessageReply {
    pub ts: Timestamp,
    pub user: UserId,
}

impl MessageMessageRepliedMessageReply {
    /// Whether `v` decodes as the record: an object whose fields read in order.
    #[verifier::opaque]
    pub open spec fn spec_accepts(v: JsonValue) -> bool {
        match v {
            JsonValue::Object(w) => {
                let left0 = w@;
                let left1 = taken(left0, "ts"@);
                &&& required_ok::<Timestamp>(left0, "ts"@)
                &&& required_ok::<UserId>(left1, "user"@)
            },
            _ => false,
        }
    }

    /// Whether `x` holds what the fields of `v` read as.
    #[verifier::opaque]
    pub open spec fn spec_decodes_to(v: JsonValue, x: MessageMessageRepliedMessageReply) -> bool {
        match v {
            JsonValue::Object(w) => {
                let left0 = w@;
                let left1 = taken(left0, "ts"@);
                &&& <Timestamp as Decode>::decodes_to(value_of(left0, "ts"@), x.ts)
                &&& <UserId as Decode>::decodes_to(value_of(left1, "user"@), x.user)
            },
            _ => false,
        }
    }

    /// Whether `e` is the error of the first check or field that fails on `v`.
    #[verifier::opaque]
    pub open spec fn spec_rejects_with(v: JsonValue, e: DecodeError) -> bool {
        match v {
            JsonValue::Object(w) => {
                let left0 = w@;
                let left1 = taken(left0, "ts"@);
                if !required_ok::<Timestamp>(left0, "ts"@) {
                    required_err::<Timestamp>(left0, "ts"@, e)
                } else if !required_ok::<UserId>(left1, "user"@) {
                    required_err::<UserId>(left1, "user"@, e)
                } else {
                    false
                }
            },
            _ => e == (DecodeError::WrongType { expected: "object" }),
        }
    }
}

impl Decode for MessageMessageRepliedMessageReply {
    open spec fn accepts(v: JsonValue) -> bool {
        MessageMessageRepliedMessageReply::spec_accepts(v)
    }

    open spec fn decodes_to(v: JsonValue, x: MessageMessageRepliedMessageReply) -> bool {
        MessageMessageRepliedMessageReply::spec_decodes_to(v, x)
    }

    open spec fn rejects_with(v: JsonValue, e: DecodeError) -> bool {
        MessageMessageRepliedMessageReply::spec_rejects_with(v, e)
    }

    fn decode(v: JsonValue) -> Result<MessageMessageRepliedMessageReply, DecodeError> {
        proof {
            reveal(MessageMessageRepliedMessageReply::spec_accepts);
            reveal(MessageMessageRepliedMessageReply::spec_decodes_to);
            reveal(MessageMessageRepliedMessageReply::spec_rejects_with);
        }
        let mut wire = into_fields(v)?;
        let ts: Timestamp = required(&mut wire, "ts")?;
        let user: UserId = required(&mut wire, "user")?;
        Ok(MessageMessageRepliedMessageReply { ts, user })
    }
}

#[derive(Clone, Debug, PartialEq)]
pub struct MessagePinnedItem {
    pub channel: Option<ConversationId>,
    pub item: Option<MessagePinnedItemItem>,
    pub item_type: Option<String>,
    pub text: String,
    pub ts: Option<Timestamp>,
    pub user: Option<UserId>,
}

impl MessagePinnedItem {
    /// Whether `v` decodes as the record: an object whose fields read in order.
    #[verifier::opaque]
    pub open spec fn spec_accepts(v: JsonValue) -> bool {
        match v {
            JsonValue::Object(w) => {
                let left0 = w@;
                let left1 = taken(left0, "channel"@);
                let left2 = taken(left1, "item"@);
                let left3 = taken(left2, "item_type"@);
                let left4 = taken(left3, "text"@);
                let left5 = taken(left4, "ts"@);
                &&& optional_ok::<ConversationId>(left0, "channel"@)
                &&& optional_ok::<MessagePinnedItemItem>(left1, "item"@)
                &&& optional_ok::<String>(left2, "item_type"@)
                &&& text_ok(left3, "text"@)
                &&& optional_ok::<Timestamp>(left4, "ts"@)
                &&& optional_ok::<UserId>(left5, "user"@)
            },
            _ => false,
        }
    }

    /// Whether `x` holds what the fields of `v` read as.
    #[verifier::opaque]
    pub open spec fn spec_decodes_to(v: JsonValue, x: MessagePinnedItem) -> bool {
        match v {
            JsonValue::Object(w) => {
                let left0 = w@;
                let left1 = taken(left0, "channel"@);
                let left2 = taken(left1, "item"@);
                let left3 = taken(left2, "item_type"@);
                let left4 = taken(left3, "text"@);
                let left5 = taken(left4, "ts"@);
                &&& optional_value::<ConversationId>(left0, "channel"@, x.channel)
                &&& optional_value::<MessagePinnedItemItem>(left1, "item"@, x.item)
                &&& optional_value::<String>(left2, "item_type"@, x.item_type)
                &&& text_value(left3, "text"@, x.text)
                &&& optional_value::<Timestamp>(left4, "ts"@, x.ts)
                &&& optional_value::<UserId>(left5, "user"@, x.user)
            },
            _ => false,
        }
    }

    /// Whether `e` is the error of the first check or field that fails on `v`.
    #[verifier::opaque]
    pub open spec fn spec_rejects_with(v: JsonValue, e: DecodeError) -> bool {
        match v {
            JsonValue::Object(w) => {
                let left0 = w@;
                let left1 = taken(left0, "channel"@);
                let left2 = taken(left1, "item"@);
                let left3 = taken(left2, "item_type"@);
                let left4 = taken(left3, "text"@);
                let left5 = taken(left4, "ts"@);
                if !optional_ok::<ConversationId>(left0, "channel"@) {
                    field_failed::<ConversationId>(left0, "channel"@, e)
                } else if !optional_ok::<MessagePinnedItemItem>(left1, "item"@) {
                    field_failed::<MessagePinnedItemItem>(left1, "item"@, e)
                } else if !optional_ok::<String>(left2, "item_type"@) {
                    field_failed::<String>(left2, "item_type"@, e)
                } else if !text_ok(left3, "text"@) {
                    field_failed::<String>(left3, "text"@, e)
                } else if !optional_ok::<Timestamp>(left4, "ts"@) {
                    field_failed::<Timestamp>(left4, "ts"@, e)
                } else if !optional_ok::<UserId>(left5, "user"@) {
                    field_failed::<UserId>(left5, "user"@, e)
                } else {
                    false
                }
            },
            _ => e == (DecodeError::WrongType { expected: "object" }),
        }
    }
}

impl Decode for MessagePinnedItem {
    open spec fn accepts(v: JsonValue) -> bool {
        MessagePinnedItem::spec_accepts(v)
    }

    open spec fn decodes_to(v: JsonValue, x: MessagePinnedItem) -> bool {
        MessagePinnedItem::spec_decodes_to(v, x)
    }

    open spec fn rejects_with(v: JsonValue, e: DecodeError) -> bool {
        MessagePinnedItem::spec_rejects_with(v, e)
    }

    fn decode(v: JsonValue) -> Result<MessagePinnedItem, DecodeError> {
        proof {
            reveal(MessagePinnedItem::spec_accepts);
            reveal(MessagePinnedItem::spec_decodes_to);
            reveal(MessagePinnedItem::spec_rejects_with);
        }
        let mut wire = into_fields(v)?;
        let channel: Option<ConversationId> = optional(&mut wire, "channel")?;
        let item: Option<MessagePinnedItemItem> = optional(&mut wire, "item")?;
        let item_type: Option<String> = optional(&mut wire, "item_type")?;
        let text: String = text_or_empty(&mut wire, "text")?;
        let ts: Option<Timestamp> = optional(&mut wire, "ts")?;
        let user: Option<UserId> = optional(&mut wire, "user")?;
        Ok(MessagePinnedItem { channel, item, item_type, text, ts, user })
    }
}

#[derive(Clone, Debug, PartialEq)]
pub struct MessagePinnedItemItem {}

impl MessagePinnedItemItem {
    /// Whether `v` decodes as the record: an object whose fields read in order.
    #[verifier::opaque]
    pub open spec fn spec_accepts(v: JsonValue) -> bool {
        match v {
            JsonValue::Object(w) => {
                let left0 = w@;
                &&& true
            },
            _ => false,
        }
    }

    /// Whether `x` holds what the fields of `v` read as.
    #[verifier::opaque]
    pub open spec fn spec_decodes_to(v: JsonValue, x: MessagePinnedItemItem) -> bool {
        match v {
            JsonValue::Object(w) => {
                let left0 = w@;
                &&& true
            },
            _ => false,
        }
    }

    /// Whether `e` is the error of the first check or field that fails on `v`.
    #[verifier::opaque]
    pub open spec fn spec_rejects_with(v: JsonValue, e: DecodeError) -> bool {
        match v {
            JsonValue::Object(w) => {
                let left0 = w@;
                false
            },
            _ => e == (DecodeError::WrongType { expected: "object" }),
        }
    }
}

impl Decode for MessagePinnedItemItem {
    open spec fn accepts(v: JsonValue) -> bool {
        MessagePinnedItemItem::spec_accepts(v)
    }

    open spec fn decodes_to(v: JsonValue, x: MessagePinnedItemItem) -> bool {
        MessagePinnedItemItem::spec_decodes_to(v, x)
    }

    open spec fn rejects_with(v: JsonValue, e: DecodeError) -> bool {
        MessagePinnedItemItem::spec_rejects_with(v, e)
    }

    fn decode(v: JsonValue) -> Result<MessagePinnedItemItem, DecodeError> {
        proof {
            reveal(MessagePinnedItemItem::spec_accepts);
            reveal(MessagePinnedItemItem::spec_decodes_to);
            reveal(MessagePinnedItemItem::spec_rejects_with);
        }
        let _fields = into_fields(v)?;
        Ok(MessagePinnedItemItem {})
    }
}

#[derive(Clone, Debug, PartialEq)]
pub struct MessageReminderAdd {
    pub message: Option<String>,
    pub ts: Option<Timestamp>,
    pub user: Option<UserId>,
    pub channel: Option<String>,
}

impl MessageReminderAdd {
    /// Whether `v` decodes as the record: an object whose fields read in order.
    #[verifier::opaque]
    pub open spec fn spec_accepts(v: JsonValue) -> bool {
        match v {
            JsonValue::Object(w) => {
                let left0 = w@;
                let left1 = taken(left0, "message"@);
                let left2 = taken(left1, "ts"@);
                let left3 = taken(left2, "user"@);
                &&& optional_ok::<String>(left0, "message"@)
                &&& optional_ok::<Timestamp>(left1, "ts"@)
                &&& optional_ok::<UserId>(left2, "user"@)
                &&& optional_ok::<String>(left3, "channel"@)
            },
            _ => false,
        }
    }

    /// Whether `x` holds what the fields of `v` read as.
    #[verifier::opaque]
    pub open spec fn spec_decodes_to(v: JsonValue, x: MessageReminderAdd) -> bool {
        match v {
            JsonValue::Object(w) => {
                let left0 = w@;
                let left1 = taken(left0, "message"@);
                let left2 = taken(left1, "ts"@);
                let left3 = taken(left2, "user"@);
                &&& optional_value::<String>(left0, "message"@, x.message)
                &&& optional_value::<Timestamp>(left1, "ts"@, x.ts)
                &&& optional_value::<UserId>(left2, "user"@, x.user)
                &&& optional_value::<String>(left3, "channel"@, x.channel)
            },
            _ => false,
        }
    }

    /// Whether `e` is the error of the first check or field that fails on `v`.
    #[verifier::opaque]
    pub open spec fn spec_rejects_with(v: JsonValue, e: DecodeError) -> bool {
        match v {
            JsonValue::Object(w) => {
                let left0 = w@;
                let left1 = taken(left0, "message"@);
                let left2 = taken(left1, "ts"@);
                let left3 = taken(left2, "user"@);
                if !optional_ok::<String>(left0, "message"@) {
                    field_failed::<String>(left0, "message"@, e)
                } else if !optional_ok::<Timestamp>(left1, "ts"@) {
                    field_failed::<Timestamp>(left1, "ts"@, e)
                } else if !optional_ok::<UserId>(left2, "user"@) {
                    field_failed::<UserId>(left2, "user"@, e)
                } else if !optional_ok::<String>(left3, "channel"@) {
                    field_failed::<String>(left3, "channel"@, e)
                } else {
                    false
                }
            },
            _ => e == (DecodeError::WrongType { expected: "object" }),
        }
    }
}

impl Decode for MessageReminderAdd {
    open spec fn accepts(v: JsonValue) -> bool {
        MessageReminderAdd::spec_accepts(v)
    }

    open spec fn decodes_to(v: JsonValue, x: MessageReminderAdd) -> bool {
        MessageReminderAdd::spec_decodes_to(v, x)
    }

    open spec fn rejects_with(v: JsonValue, e: DecodeError) -> bool {
        MessageReminderAdd::spec_rejects_with(v, e)
    }

    fn decode(v: JsonValue) -> Result<MessageReminderAdd, DecodeError> {
        proof {
            reveal(MessageReminderAdd::spec_accepts);
            reveal(MessageReminderAdd::spec_decodes_to);
            reveal(MessageReminderAdd::spec_rejects_with);
        }
        let mut wire = into_fields(v)?;
        let message: Option<String> = optional(&mut wire, "message")?;
        let ts: Option<Timestamp> = optional(&mut wire, "ts")?;
        let user: Option<UserId> = optional(&mut wire, "user")?;
        let channel: Option<String> = optional(&mut wire, "channel")?;
        Ok(MessageReminderAdd { message, ts, user, channel })
    }
}

#[derive(Clone, Debug, PartialEq)]
pub struct MessageReplyBroadcast {
    pub attachments: Option<Vec<MessageReplyBroadcastAttachment>>,
    pub channel: Option<String>,
    pub event_ts: Option<String>,
    pub ts: Option<Timestamp>,
    pub user: Option<UserId>,
}

impl MessageReplyBroadcast {
    /// Whether `v` decodes as the record: an object whose fields read in order.
    #[verifier::opaque]
    pub open spec fn spec_accepts(v: JsonValue) -> bool {
        match v {
            JsonValue::Object(w) => {
                let left0 = w@;
                let left1 = taken(left0, "attachments"@);
                let left2 = taken(left1, "channel"@);
                let left3 = taken(left2, "event_ts"@);
                let left4 = taken(left3, "ts"@);
                &&& optional_ok::<Vec<MessageReplyBroadcastAttachment>>(left0, "attachments"@)
                &&& optional_ok::<String>(left1, "channel"@)
                &&& optional_ok::<String>(left2, "event_ts"@)
                &&& optional_ok::<Timestamp>(left3, "ts"@)
                &&& optional_ok::<UserId>(left4, "user"@)
            },
            _ => false,
        }
    }

    /// Whether `x` holds what the fields of `v` read as.
    #[verifier::opaque]
    pub open spec fn spec_decodes_to(v: JsonValue, x: MessageReplyBroadcast) -> bool {
        match v {
            JsonValue::Object(w) => {
                let left0 = w@;
                let left1 = taken(left0, "attachments"@);
                let left2 = taken(left1, "channel"@);
                let left3 = taken(left2, "event_ts"@);
                let left4 = taken(left3, "ts"@);
                &&& optional_value::<Vec<MessageReplyBroadcastAttachment>>(left0, "attachments"@, x.attachments)
                &&& optional_value::<String>(left1, "channel"@, x.channel)
                &&& optional_value::<String>(left2, "event_ts"@, x.event_ts)
                &&& optional_value::<Timestamp>(left3, "ts"@, x.ts)
                &&& optional_value::<UserId>(left4, "user"@, x.user)
            },
            _ => false,
        }
    }

    /// Whether `e` is the error of the first check or field that fails on `v`.
    #[verifier::opaque]
    pub open spec fn spec_rejects_with(v: JsonValue, e: DecodeError) -> bool {
        match v {
            JsonValue::Object(w) => {
                let left0 = w@;
                let left1 = taken(left0, "attachments"@);
                let left2 = taken(left1, "channel"@);
                let left3 = taken(left2, "event_ts"@);
                let left4 = taken(left3, "ts"@);
                if !optional_ok::<Vec<MessageReplyBroadcastAttachment>>(left0, "attachments"@) {
                    field_failed::<Vec<MessageReplyBroadcastAttachment>>(left0, "attachments"@, e)
                } else if !optional_ok::<String>(left1, "channel"@) {
                    field_failed::<String>(left1, "channel"@, e)
                } else if !optional_ok::<String>(left2, "event_ts"@) {
                    field_failed::<String>(left2, "event_ts"@, e)
                } else if !optional_ok::<Timestamp>(left3, "ts"@) {
                    field_failed::<Timestamp>(left3, "ts"@, e)
                } else if !optional_ok::<UserId>(left4, "user"@) {
                    field_failed::<UserId>(left4, "user"@, e)
                } else {
                    false
                }
            },
            _ => e == (DecodeError::WrongType { expected: "object" }),
        }
    }
}

impl Decode for MessageReplyBroadcast {
    open spec fn accepts(v: JsonValue) -> bool {
        MessageReplyBroadcast::spec_accepts(v)
    }

    open spec fn decodes_to(v: JsonValue, x: MessageReplyBroadcast) -> bool {
        MessageReplyBroadcast::spec_decodes_to(v, x)
    }

    open spec fn rejects_with(v: JsonValue, e: DecodeError) -> bool {
        MessageReplyBroadcast::spec_rejects_with(v, e)
    }

    fn decode(v: JsonValue) -> Result<MessageReplyBroadcast, DecodeError> {
        proof {
            reveal(MessageReplyBroadcast::spec_accepts);
            reveal(MessageReplyBroadcast::spec_decodes_to);
            reveal(MessageReplyBroadcast::spec_rejects_with);
        }
        let mut wire = into_fields(v)?;
        let attachments: Option<Vec<MessageReplyBroadcastAttachment>> = optional(&mut wire, "attachments")?;
        let channel: Option<String> = optional(&mut wire, "channel")?;
        let event_ts: Option<String> = optional(&mut wire, "event_ts")?;
        let ts: Option<Timestamp> = optional(&mut wire, "ts")?;
        let user: Option<UserId> = optional(&mut wire, "user")?;
        Ok(MessageReplyBroadcast { attachments, channel, event_ts, ts, user })
    }
}

#[derive(Clone, Debug, PartialEq)]
pub struct MessageReplyBroadcastAttachment {
    pub author_icon: Option<String>,
    pub author_link: Option<String>,
    pub author_subname: Option<String>,
    pub channel_id: Option<String>,
    pub channel_name: Option<String>,
    pub fallback: Option<String>,
    pub footer: Option<String>,
    pub from_url: Option<String>,
    pub id: Option<i32>,
    pub mrkdwn_in: Option<Vec<String>>,
    pub text: String,
    pub ts: Option<Timestamp>,
}

impl MessageReplyBroadcastAttachment {
    /// Whether `v` decodes as the record: an object whose fields read in order.
    #[verifier::opaque]
    pub open spec fn spec_accepts(v: JsonValue) -> bool {
        match v {
            JsonValue::Object(w) => {
                let left0 = w@;
                let left1 = taken(left0, "author_icon"@);
                let left2 = taken(left1, "author_link"@);
                let left3 = taken(left2, "author_subname"@);
                let left4 = taken(left3, "channel_id"@);
                let left5 = taken(left4, "channel_name"@);
                let left6 = taken(left5, "fallback"@);
                let left7 = taken(left6, "footer"@);
                let left8 = taken(left7, "from_url"@);
                let left9 = taken(left8, "id"@);
                let left10 = taken(left9, "mrkdwn_in"@);
                let left11 = taken(left10, "text"@);
                &&& optional_ok::<String>(left0, "author_icon"@)
                &&& optional_ok::<String>(left1, "author_link"@)
                &&& optional_ok::<String>(left2, "author_subname"@)
                &&& optional_ok::<String>(left3, "channel_id"@)
                &&& optional_ok::<String>(left4, "channel_name"@)
                &&& optional_ok::<String>(left5, "fallback"@)
                &&& optional_ok::<String>(left6, "footer"@)
                &&& optional_ok::<String>(left7, "from_url"@)
                &&& optional_ok::<i32>(left8, "id"@)
                &&& optional_ok::<Vec<String>>(left9, "mrkdwn_in"@)
                &&& text_ok(left10, "text"@)
                &&& optional_ok::<Timestamp>(left11, "ts"@)
            },
            _ => false,
        }
    }

    /// Whether `x` holds what the fields of `v` read as.
    #[verifier::opaque]
    pub open spec fn spec_decodes_to(v: JsonValue, x: MessageReplyBroadcastAttachment) -> bool {
        match v {
            JsonValue::Object(w) => {
                let left0 = w@;
                let left1 = taken(left0, "author_icon"@);
                let left2 = taken(left1, "author_link"@);
                let left3 = taken(left2, "author_subname"@);
                let left4 = taken(left3, "channel_id"@);
                let left5 = taken(left4, "channel_name"@);
                let left6 = taken(left5, "fallback"@);
                let left7 = taken(left6, "footer"@);
                let left8 = taken(left7, "from_url"@);
                let left9 = taken(left8, "id"@);
                let left10 = taken(left9, "mrkdwn_in"@);
                let left11 = taken(left10, "text"@);
                &&& optional_value::<String>(left0, "author_icon"@, x.author_icon)
                &&& optional_value::<String>(left1, "author_link"@, x.author_link)
                &&& optional_value::<String>(left2, "author_subname"@, x.author_subname)
                &&& optional_value::<String>(left3, "channel_id"@, x.channel_id)
                &&& optional_value::<String>(left4, "channel_name"@, x.channel_name)
                &&& optional_value::<String>(left5, "fallback"@, x.fallback)
                &&& optional_value::<String>(left6, "footer"@, x.footer)
                &&& optional_value::<String>(left7, "from_url"@, x.from_url)
                &&& optional_value::<i32>(left8, "id"@, x.id)
                &&& optional_value::<Vec<String>>(left9, "mrkdwn_in"@, x.mrkdwn_in)
                &&& text_value(left10, "text"@, x.text)
                &&& optional_value::<Timestamp>(left11, "ts"@, x.ts)
            },
            _ => false,
        }
    }

    /// Whether `e` is the error of the first check or field that fails on `v`.
    #[verifier::opaque]
    pub open spec fn spec_rejects_with(v: JsonValue, e: DecodeError) -> bool {
        match v {
            JsonValue::Object(w) => {
                let left0 = w@;
                let left1 = taken(left0, "author_icon"@);
                let left2 = taken(left1, "author_link"@);
                let left3 = taken(left2, "author_subname"@);
                let left4 = taken(left3, "channel_id"@);
                let left5 = taken(left4, "channel_name"@);
                let left6 = taken(left5, "fallback"@);
                let left7 = taken(left6, "footer"@);
                let left8 = taken(left7, "from_url"@);
                let left9 = taken(left8, "id"@);
                let left10 = taken(left9, "mrkdwn_in"@);
                let left11 = taken(left10, "text"@);
                if !optional_ok::<String>(left0, "author_icon"@) {
                    field_failed::<String>(left0, "author_icon"@, e)
                } else if !optional_ok::<String>(left1, "author_link"@) {
                    field_failed::<String>(left1, "author_link"@, e)
                } else if !optional_ok::<String>(left2, "author_subname"@) {
                    field_failed::<String>(left2, "author_subname"@, e)
                } else if !optional_ok::<String>(left3, "channel_id"@) {
                    field_failed::<String>(left3, "channel_id"@, e)
                } else if !optional_ok::<String>(left4, "channel_name"@) {
                    field_failed::<String>(left4, "channel_name"@, e)
                } else if !optional_ok::<String>(left5, "fallback"@) {
                    field_failed::<String>(left5, "fallback"@, e)
                } else if !optional_ok::<String>(left6, "footer"@) {
                    field_failed::<String>(left6, "footer"@, e)
                } else if !optional_ok::<String>(left7, "from_url"@) {
                    field_failed::<String>(left7, "from_url"@, e)
                } else if !optional_ok::<i32>(left8, "id"@) {
                    field_failed::<i32>(left8, "id"@, e)
                } else if !optional_ok::<Vec<String>>(left9, "mrkdwn_in"@) {
                    field_failed::<Vec<String>>(left9, "mrkdwn_in"@, e)
                } else if !text_ok(left10, "text"@) {
                    field_failed::<String>(left10, "text"@, e)
                } else if !optional_ok::<Timestamp>(left11, "ts"@) {
                    field_failed::<Timestamp>(left11, "ts"@, e)
                } else {
                    false
                }
            },
            _ => e == (DecodeError::WrongType { expected: "object" }),
        }
    }
}

impl Decode for MessageReplyBroadcastAttachment {
    open spec fn accepts(v: JsonValue) -> bool {
        MessageReplyBroadcastAttachment::spec_accepts(v)
    }

    open spec fn decodes_to(v: JsonValue, x: MessageReplyBroadcastAttachment) -> bool {
        MessageReplyBroadcastAttachment::spec_decodes_to(v, x)
    }

    open spec fn rejects_with(v: JsonValue, e: DecodeError) -> bool {
        MessageReplyBroadcastAttachment::spec_rejects_with(v, e)
    }

    fn decode(v: JsonValue) -> Result<MessageReplyBroadcastAttachment, DecodeError> {
        proof {
            reveal(MessageReplyBroadcastAttachment::spec_accepts);
            reveal(MessageReplyBroadcastAttachment::spec_decodes_to);
            reveal(MessageReplyBroadcastAttachment::spec_rejects_with);
        }
        let mut wire = into_fields(v)?;
        let author_icon: Option<String> = optional(&mut wire, "author_icon")?;
        let author_link: Option<String> = optional(&mut wire, "author_link")?;
        let author_subname: Option<String> = optional(&mut wire, "author_subname")?;
        let channel_id: Option<String> = optional(&mut wire, "channel_id")?;
        let channel_name: Option<String> = optional(&mut wire, "channel_name")?;
        let fallback: Option<String> = optional(&mut wire, "fallback")?;
        let footer: Option<String> = optional(&mut wire, "footer")?;
        let from_url: Option<String> = optional(&mut wire, "from_url")?;
        let id: Option<i32> = optional(&mut wire, "id")?;
        let mrkdwn_in: Option<Vec<String>> = optional(&mut wire, "mrkdwn_in")?;
        let text: String = text_or_empty(&mut wire, "text")?;
        let ts: Option<Timestamp> = optional(&mut wire, "ts")?;
        Ok(MessageReplyBroadcastAttachment { author_icon, author_link, author_subname, channel_id, channel_name, fallback, footer, from_url, id, mrkdwn_in, text, ts })
    }
}

#[derive(Clone, Debug, PartialEq)]
pub struct MessageStandard {
    pub attachments: Option<Vec<MessageStandardAttachment>>,
    pub bot_id: Option<BotId>,
    pub channel: Option<ConversationId>,
    pub edited: Option<MessageStandardEdited>,
    pub event_ts: Option<Timestamp>,
    pub reply_broadcast: Option<bool>,
    pub source_team: Option<TeamId>,
    pub team: Option<TeamId>,
    pub text: String,
    pub thread_ts: Option<Timestamp>,
    pub ts: Option<Timestamp>,
    pub user: Option<UserId>,
    pub client_msg_id: Option<u128>,
    pub reactions: Vec<Reaction>,
    pub parent_user_id: Option<UserId>,
    pub replies: Option<Vec<MessageStandardReply>>,
    pub reply_count: Option<i32>,
    pub last_read: Option<Timestamp>,
    pub subscribed: Option<bool>,
    pub pinned_info: Option<MessagePinnedItem>,
    pub unread_count: Option<i32>,
    pub pinned_to: Option<Vec<String>>,
    pub is_starred: Option<bool>,
    pub display_as_bot: Option<bool>,
    pub files: Option<Vec<File>>,
    pub upload: Option<bool>,
    pub upload_reply_to: Option<u128>,
    pub x_files: Option<Vec<FileId>>,
    pub user_profile: Option<UserProfile>,
    pub user_team: Option<TeamId>,
    ty: Option<String>,
}

impl MessageStandard {
    /// The fields the record declares; it admits no others.
    pub open spec fn declared_fields() -> Seq<&'static str> {
        seq!["attachments", "bot_id", "channel", "edited", "event_ts", "reply_broadcast", "source_team", "team", "text", "thread_ts", "ts", "user", "client_msg_id", "reactions", "parent_user_id", "replies", "reply_count", "last_read", "subscribed", "pinned_info", "unread_count", "pinned_to", "is_starred", "display_as_bot", "files", "upload", "upload_reply_to", "x_files", "user_profile", "user_team", "type"]
    }
}

impl MessageStandard {
    /// Whether `v` decodes as the record: an object whose fields read in order.
    #[verifier::opaque]
    pub open spec fn spec_accepts(v: JsonValue) -> bool {
        match v {
            JsonValue::Object(w) => {
                let left0 = w@;
                let left1 = taken(left0, "attachments"@);
                let left2 = taken(left1, "bot_id"@);
                let left3 = taken(left2, "channel"@);
                let left4 = taken(left3, "edited"@);
                let left5 = taken(left4, "event_ts"@);
                let left6 = taken(left5, "reply_broadcast"@);
                let left7 = taken(left6, "source_team"@);
                let left8 = taken(left7, "team"@);
                let left9 = taken(left8, "text"@);
                let left10 = taken(left9, "thread_ts"@);
                let left11 = taken(left10, "ts"@);
                let left12 = taken(left11, "user"@);
                let left13 = taken(left12, "client_msg_id"@);
                let left14 = taken(left13, "reactions"@);
                let left15 = taken(left14, "parent_user_id"@);
                let left16 = taken(left15, "replies"@);
                let left17 = taken(left16, "reply_count"@);
                let left18 = taken(left17, "last_read"@);
                let left19 = taken(left18, "subscribed"@);
                let left20 = taken(left19, "pinned_info"@);
                let left21 = taken(left20, "unread_count"@);
                let left22 = taken(left21, "pinned_to"@);
                let left23 = taken(left22, "is_starred"@);
                let left24 = taken(left23, "display_as_bot"@);
                let left25 = taken(left24, "files"@);
                let left26 = taken(left25, "upload"@);
                let left27 = taken(left26, "upload_reply_to"@);
                let left28 = taken(left27, "x_files"@);
                let left29 = taken(left28, "user_profile"@);
                let left30 = taken(left29, "user_team"@);
                &&& all_known(left0, MessageStandard::declared_fields())
                &&& optional_ok::<Vec<MessageStandardAttachment>>(left0, "attachments"@)
                &&& optional_ok::<BotId>(left1, "bot_id"@)
                &&& optional_ok::<ConversationId>(left2, "channel"@)
                &&& optional_ok::<MessageStandardEdited>(left3, "edited"@)
                &&& optional_ok::<Timestamp>(left4, "event_ts"@)
                &&& optional_ok::<bool>(left5, "reply_broadcast"@)
                &&& optional_ok::<TeamId>(left6, "source_team"@)
                &&& optional_ok::<TeamId>(left7, "team"@)
                &&& text_ok(left8, "text"@)
                &&& optional_ok::<Timestamp>(left9, "thread_ts"@)
                &&& optional_ok::<Timestamp>(left10, "ts"@)
                &&& optional_ok::<UserId>(left11, "user"@)
                &&& optional_ok::<u128>(left12, "client_msg_id"@)
                &&& list_ok::<Reaction>(left13, "reactions"@)
                &&& optional_ok::<UserId>(left14, "parent_user_id"@)
                &&& optional_ok::<Vec<MessageStandardReply>>(left15, "replies"@)
                &&& optional_ok::<i32>(left16, "reply_count"@)
                &&& optional_ok::<Timestamp>(left17, "last_read"@)
                &&& optional_ok::<bool>(left18, "subscribed"@)
                &&& optional_ok::<MessagePinnedItem>(left19, "pinned_info"@)
                &&& optional_ok::<i32>(left20, "unread_count"@)
                &&& optional_ok::<Vec<String>>(left21, "pinned_to"@)
                &&& optional_ok::<bool>(left22, "is_starred"@)
                &&& optional_ok::<bool>(left23, "display_as_bot"@)
                &&& optional_ok::<Vec<File>>(left24, "files"@)
                &&& optional_ok::<bool>(left25, "upload"@)
                &&& optional_ok::<u128>(left26, "upload_reply_to"@)
                &&& optional_ok::<Vec<FileId>>(left27, "x_files"@)
                &&& optional_ok::<UserProfile>(left28, "user_profile"@)
                &&& optional_ok::<TeamId>(left29, "user_team"@)
                &&& optional_ok::<String>(left30, "type"@)
            },
            _ => false,
        }
    }

    /// Whether `x` holds what the fields of `v` read as.
    #[verifier::opaque]
    pub closed spec fn spec_decodes_to(v: JsonValue, x: MessageStandard) -> bool {
        match v {
            JsonValue::Object(w) => {
                let left0 = w@;
                let left1 = taken(left0, "attachments"@);
                let left2 = taken(left1, "bot_id"@);
                let left3 = taken(left2, "channel"@);
                let left4 = taken(left3, "edited"@);
                let left5 = taken(left4, "event_ts"@);
                let left6 = taken(left5, "reply_broadcast"@);
                let left7 = taken(left6, "source_team"@);
                let left8 = taken(left7, "team"@);
                let left9 = taken(left8, "text"@);
                let left10 = taken(left9, "thread_ts"@);
                let left11 = taken(left10, "ts"@);
                let left12 = taken(left11, "user"@);
                let left13 = taken(left12, "client_msg_id"@);
                let left14 = taken(left13, "reactions"@);
                let left15 = taken(left14, "parent_user_id"@);
                let left16 = taken(left15, "replies"@);
                let left17 = taken(left16, "reply_count"@);
                let left18 = taken(left17, "last_read"@);
                let left19 = taken(left18, "subscribed"@);
                let left20 = taken(left19, "pinned_info"@);
                let left21 = taken(left20, "unread_count"@);
                let left22 = taken(left21, "pinned_to"@);
                let left23 = taken(left22, "is_starred"@);
                let left24 = taken(left23, "display_as_bot"@);
                let left25 = taken(left24, "files"@);
                let left26 = taken(left25, "upload"@);
                let left27 = taken(left26, "upload_reply_to"@);
                let left28 = taken(left27, "x_files"@);
                let left29 = taken(left28, "user_profile"@);
                let left30 = taken(left29, "user_team"@);
                &&& optional_value::<Vec<MessageStandardAttachment>>(left0, "attachments"@, x.attachments)
                &&& optional_value::<BotId>(left1, "bot_id"@, x.bot_id)
                &&& optional_value::<ConversationId>(left2, "channel"@, x.channel)
                &&& optional_value::<MessageStandardEdited>(left3, "edited"@, x.edited)
                &&& optional_value::<Timestamp>(left4, "event_ts"@, x.event_ts)
                &&& optional_value::<bool>(left5, "reply_broadcast"@, x.reply_broadcast)
                &&& optional_value::<TeamId>(left6, "source_team"@, x.source_team)
                &&& optional_value::<TeamId>(left7, "team"@, x.team)
                &&& text_value(left8, "text"@, x.text)
                &&& optional_value::<Timestamp>(left9, "thread_ts"@, x.thread_ts)
                &&& optional_value::<Timestamp>(left10, "ts"@, x.ts)
                &&& optional_value::<UserId>(left11, "user"@, x.user)
                &&& optional_value::<u128>(left12, "client_msg_id"@, x.client_msg_id)
                &&& list_value::<Reaction>(left13, "reactions"@, x.reactions)
                &&& optional_value::<UserId>(left14, "parent_user_id"@, x.parent_user_id)
                &&& optional_value::<Vec<MessageStandardReply>>(left15, "replies"@, x.replies)
                &&& optional_value::<i32>(left16, "reply_count"@, x.reply_count)
                &&& optional_value::<Timestamp>(left17, "last_read"@, x.last_read)
                &&& optional_value::<bool>(left18, "subscribed"@, x.subscribed)
                &&& optional_value::<MessagePinnedItem>(left19, "pinned_info"@, x.pinned_info)
                &&& optional_value::<i32>(left20, "unread_count"@, x.unread_count)
                &&& optional_value::<Vec<String>>(left21, "pinned_to"@, x.pinned_to)
                &&& optional_value::<bool>(left22, "is_starred"@, x.is_starred)
                &&& optional_value::<bool>(left23, "display_as_bot"@, x.display_as_bot)
                &&& optional_value::<Vec<File>>(left24, "files"@, x.files)
                &&& optional_value::<bool>(left25, "upload"@, x.upload)
                &&& optional_value::<u128>(left26, "upload_reply_to"@, x.upload_reply_to)
                &&& optional_value::<Vec<FileId>>(left27, "x_files"@, x.x_files)
                &&& optional_value::<UserProfile>(left28, "user_profile"@, x.user_profile)
                &&& optional_value::<TeamId>(left29, "user_team"@, x.user_team)
                &&& optional_value::<String>(left30, "type"@, x.ty)
            },
            _ => false,
        }
    }

    /// Whether `e` is the error of the first check or field that fails on `v`.
    #[verifier::opaque]
    pub open spec fn spec_rejects_with(v: JsonValue, e: DecodeError) -> bool {
        match v {
            JsonValue::Object(w) => {
                let left0 = w@;
                let left1 = taken(left0, "attachments"@);
                let left2 = taken(left1, "bot_id"@);
                let left3 = taken(left2, "channel"@);
                let left4 = taken(left3, "edited"@);
                let left5 = taken(left4, "event_ts"@);
                let left6 = taken(left5, "reply_broadcast"@);
                let left7 = taken(left6, "source_team"@);
                let left8 = taken(left7, "team"@);
                let left9 = taken(left8, "text"@);
                let left10 = taken(left9, "thread_ts"@);
                let left11 = taken(left10, "ts"@);
                let left12 = taken(left11, "user"@);
                let left13 = taken(left12, "client_msg_id"@);
                let left14 = taken(left13, "reactions"@);
                let left15 = taken(left14, "parent_user_id"@);
                let left16 = taken(left15, "replies"@);
                let left17 = taken(left16, "reply_count"@);
                let left18 = taken(left17, "last_read"@);
                let left19 = taken(left18, "subscribed"@);
                let left20 = taken(left19, "pinned_info"@);
                let left21 = taken(left20, "unread_count"@);
                let left22 = taken(left21, "pinned_to"@);
                let left23 = taken(left22, "is_starred"@);
                let left24 = taken(left23, "display_as_bot"@);
                let left25 = taken(left24, "files"@);
                let left26 = taken(left25, "upload"@);
                let left27 = taken(left26, "upload_reply_to"@);
                let left28 = taken(left27, "x_files"@);
                let left29 = taken(left28, "user_profile"@);
                let left30 = taken(left29, "user_team"@);
                if !all_known(left0, MessageStandard::declared_fields()) {
                    e == (DecodeError::UnknownField { field: first_unknown_key(left0, MessageStandard::declared_fields()) })
                } else if !optional_ok::<Vec<MessageStandardAttachment>>(left0, "attachments"@) {
                    field_failed::<Vec<MessageStandardAttachment>>(left0, "attachments"@, e)
                } else if !optional_ok::<BotId>(left1, "bot_id"@) {
                    field_failed::<BotId>(left1, "bot_id"@, e)
                } else if !optional_ok::<ConversationId>(left2, "channel"@) {
                    field_failed::<ConversationId>(left2, "channel"@, e)
                } else if !optional_ok::<MessageStandardEdited>(left3, "edited"@) {
                    field_failed::<MessageStandardEdited>(left3, "edited"@, e)
                } else if !optional_ok::<Timestamp>(left4, "event_ts"@) {
                    field_failed::<Timestamp>(left4, "event_ts"@, e)
                } else if !optional_ok::<bool>(left5, "reply_broadcast"@) {
                    field_failed::<bool>(left5, "reply_broadcast"@, e)
                } else if !optional_ok::<TeamId>(left6, "source_team"@) {
                    field_failed::<TeamId>(left6, "source_team"@, e)
                } else if !optional_ok::<TeamId>(left7, "team"@) {
                    field_failed::<TeamId>(left7, "team"@, e)
                } else if !text_ok(left8, "text"@) {
                    field_failed::<String>(left8, "text"@, e)
                } else if !optional_ok::<Timestamp>(left9, "thread_ts"@) {
                    field_failed::<Timestamp>(left9, "thread_ts"@, e)
                } else if !optional_ok::<Timestamp>(left10, "ts"@) {
                    field_failed::<Timestamp>(left10, "ts"@, e)
                } else if !optional_ok::<UserId>(left11, "user"@) {
                    field_failed::<UserId>(left11, "user"@, e)
                } else if !optional_ok::<u128>(left12, "client_msg_id"@) {
                    field_failed::<u128>(left12, "client_msg_id"@, e)
                } else if !list_ok::<Reaction>(left13, "reactions"@) {
                    field_failed::<Vec<Reaction>>(left13, "reactions"@, e)
                } else if !optional_ok::<UserId>(left14, "parent_user_id"@) {
                    field_failed::<UserId>(left14, "parent_user_id"@, e)
                } else if !optional_ok::<Vec<MessageStandardReply>>(left15, "replies"@) {
                    field_failed::<Vec<MessageStandardReply>>(left15, "replies"@, e)
                } else if !optional_ok::<i32>(left16, "reply_count"@) {
                    field_failed::<i32>(left16, "reply_count"@, e)
                } else if !optional_ok::<Timestamp>(left17, "last_read"@) {
                    field_failed::<Timestamp>(left17, "last_read"@, e)
                } else if !optional_ok::<bool>(left18, "subscribed"@) {
                    field_failed::<bool>(left18, "subscribed"@, e)
                } else if !optional_ok::<MessagePinnedItem>(left19, "pinned_info"@) {
                    field_failed::<MessagePinnedItem>(left19, "pinned_info"@, e)
                } else if !optional_ok::<i32>(left20, "unread_count"@) {
                    field_failed::<i32>(left20, "unread_count"@, e)
                } else if !optional_ok::<Vec<String>>(left21, "pinned_to"@) {
                    field_failed::<Vec<String>>(left21, "pinned_to"@, e)
                } else if !optional_ok::<bool>(left22, "is_starred"@) {
                    field_failed::<bool>(left22, "is_starred"@, e)
                } else if !optional_ok::<bool>(left23, "display_as_bot"@) {
                    field_failed::<bool>(left23, "display_as_bot"@, e)
                } else if !optional_ok::<Vec<File>>(left24, "files"@) {
                    field_failed::<Vec<File>>(left24, "files"@, e)
                } else if !optional_ok::<bool>(left25, "upload"@) {
                    field_failed::<bool>(left25, "upload"@, e)
                } else if !optional_ok::<u128>(left26, "upload_reply_to"@) {
                    field_failed::<u128>(left26, "upload_reply_to"@, e)
                } else if !optional_ok::<Vec<FileId>>(left27, "x_files"@) {
                    field_failed::<Vec<FileId>>(left27, "x_files"@, e)
                } else if !optional_ok::<UserProfile>(left28, "user_profile"@) {
                    field_failed::<UserProfile>(left28, "user_profile"@, e)
                } else if !optional_ok::<TeamId>(left29, "user_team"@) {
                    field_failed::<TeamId>(left29, "user_team"@, e)
                } else if !optional_ok::<String>(left30, "type"@) {
                    field_failed::<String>(left30, "type"@, e)
                } else {
                    false
                }
            },
            _ => e == (DecodeError::WrongType { expected: "object" }),
        }
    }
}

impl Decode for MessageStandard {
    open spec fn accepts(v: JsonValue) -> bool {
        MessageStandard::spec_accepts(v)
    }

    open spec fn decodes_to(v: JsonValue, x: MessageStandard) -> bool {
        MessageStandard::spec_decodes_to(v, x)
    }

    open spec fn rejects_with(v: JsonValue, e: DecodeError) -> bool {
        MessageStandard::spec_rejects_with(v, e)
    }

    fn decode(v: JsonValue) -> Result<MessageStandard, DecodeError> {
        proof {
            reveal(MessageStandard::spec_accepts);
            reveal(MessageStandard::spec_decodes_to);
            reveal(MessageStandard::spec_rejects_with);
        }
        let mut wire = into_fields(v)?;
        let known: &[&str] = &["attachments", "bot_id", "channel", "edited", "event_ts", "reply_broadcast", "source_team", "team", "text", "thread_ts", "ts", "user", "client_msg_id", "reactions", "parent_user_id", "replies", "reply_count", "last_read", "subscribed", "pinned_info", "unread_count", "pinned_to", "is_starred", "display_as_bot", "files", "upload", "upload_reply_to", "x_files", "user_profile", "user_team", "type"];
        assert(known@ =~= MessageStandard::declared_fields());
        check_fields(&wire, known)?;
        let attachments: Option<Vec<MessageStandardAttachment>> = optional(&mut wire, "attachments")?;
        let bot_id: Option<BotId> = optional(&mut wire, "bot_id")?;
        let channel: Option<ConversationId> = optional(&mut wire, "channel")?;
        let edited: Option<MessageStandardEdited> = optional(&mut wire, "edited")?;
        let event_ts: Option<Timestamp> = optional(&mut wire, "event_ts")?;
        let reply_broadcast: Option<bool> = optional(&mut wire, "reply_broadcast")?;
        let source_team: Option<TeamId> = optional(&mut wire, "source_team")?;
        let team: Option<TeamId> = optional(&mut wire, "team")?;
        let text: String = text_or_empty(&mut wire, "text")?;
        let thread_ts: Option<Timestamp> = optional(&mut wire, "thread_ts")?;
        let ts: Option<Timestamp> = optional(&mut wire, "ts")?;
        let user: Option<UserId> = optional(&mut wire, "user")?;
        let client_msg_id: Option<u128> = optional(&mut wire, "client_msg_id")?;
        let reactions: Vec<Reaction> = list_or_empty(&mut wire, "reactions")?;
        let parent_user_id: Option<UserId> = optional(&mut wire, "parent_user_id")?;
        let replies: Option<Vec<MessageStandardReply>> = optional(&mut wire, "replies")?;
        let reply_count: Option<i32> = optional(&mut wire, "reply_count")?;
        let last_read: Option<Timestamp> = optional(&mut wire, "last_read")?;
        let subscribed: Option<bool> = optional(&mut wire, "subscribed")?;
        let pinned_info: Option<MessagePinnedItem> = optional(&mut wire, "pinned_info")?;
        let unread_count: Option<i32> = optional(&mut wire, "unread_count")?;
        let pinned_to: Option<Vec<String>> = optional(&mut wire, "pinned_to")?;
        let is_starred: Option<bool> = optional(&mut wire, "is_starred")?;
        let display_as_bot: Option<bool> = optional(&mut wire, "display_as_bot")?;
        let files: Option<Vec<File>> = optional(&mut wire, "files")?;
        let upload: Option<bool> = optional(&mut wire, "upload")?;
        let upload_reply_to: Option<u128> = optional(&mut wire, "upload_reply_to")?;
        let x_files: Option<Vec<FileId>> = optional(&mut wire, "x_files")?;
        let user_profile: Option<UserProfile> = optional(&mut wire, "user_profile")?;
        let user_team: Option<TeamId> = optional(&mut wire, "user_team")?;
        let ty: Option<String> = optional(&mut wire, "type")?;
        Ok(MessageStandard { attachments, bot_id, channel, edited, event_ts, reply_broadcast, source_team, team, text, thread_ts, ts, user, client_msg_id, reactions, parent_user_id, replies, reply_count, last_read, subscribed, pinned_info, unread_count, pinned_to, is_starred, display_as_bot, files, upload, upload_reply_to, x_files, user_profile, user_team, ty })
    }
}

#[derive(Clone, Debug, PartialEq)]
pub struct MessageStandardReply {
    pub ts: Timestamp,
    pub user: UserId,
}

impl MessageStandardReply {
    /// The fields the record declares; it admits no others.
    pub open spec fn declared_fields() -> Seq<&'static str> {
        seq!["ts", "user"]
    }
}

impl MessageStandardReply {
    /// Whether `v` decodes as the record: an object whose fields read in order.
    #[verifier::opaque]
    pub open spec fn spec_accepts(v: JsonValue) -> bool {
        match v {
            JsonValue::Object(w) => {
                let left0 = w@;
                let left1 = taken(left0, "ts"@);
                &&& all_known(left0, MessageStandardReply::declared_fields())
                &&& required_ok::<Timestamp>(left0, "ts"@)
                &&& required_ok::<UserId>(left1, "user"@)
            },
            _ => false,
        }
    }

    /// Whether `x` holds what the fields of `v` read as.
    #[verifier::opaque]
    pub open spec fn spec_decodes_to(v: JsonValue, x: MessageStandardReply) -> bool {
        match v {
            JsonValue::Object(w) => {
                let left0 = w@;
                let left1 = taken(left0, "ts"@);
                &&& <Timestamp as Decode>::decodes_to(value_of(left0, "ts"@), x.ts)
                &&& <UserId as Decode>::decodes_to(value_of(left1, "user"@), x.user)
            },
            _ => false,
        }
    }

    /// Whether `e` is the error of the first check or field that fails on `v`.
    #[verifier::opaque]
    pub open spec fn spec_rejects_with(v: JsonValue, e: DecodeError) -> bool {
        match v {
            JsonValue::Object(w) => {
                let left0 = w@;
                let left1 = taken(left0, "ts"@);
                if !all_known(left0, MessageStandardReply::declared_fields()) {
                    e == (DecodeError::UnknownField { field: first_unknown_key(left0, MessageStandardReply::declared_fields()) })
                } else if !required_ok::<Timestamp>(left0, "ts"@) {
                    required_err::<Timestamp>(left0, "ts"@, e)
                } else if !required_ok::<UserId>(left1, "user"@) {
                    required_err::<UserId>(left1, "user"@, e)
                } else {
                    false
                }
            },
            _ => e == (DecodeError::WrongType { expected: "object" }),
        }
    }
}

impl Decode for MessageStandardReply {
    open spec fn accepts(v: JsonValue) -> bool {
        MessageStandardReply::spec_accepts(v)
    }

    open spec fn decodes_to(v: JsonValue, x: MessageStandardReply) -> bool {
        MessageStandardReply::spec_decodes_to(v, x)
    }

    open spec fn rejects_with(v: JsonValue, e: DecodeError) -> bool {
        MessageStandardReply::spec_rejects_with(v, e)
    }

    fn decode(v: JsonValue) -> Result<MessageStandardReply, DecodeError> {
        proof {
            reveal(MessageStandardReply::spec_accepts);
            reveal(MessageStandardReply::spec_decodes_to);
            reveal(MessageStandardReply::spec_rejects_with);
        }
        let mut wire = into_fields(v)?;
        let known: &[&str] = &["ts", "user"];
        assert(known@ =~= MessageStandardReply::declared_fields());
        check_fields(&wire, known)?;
        let ts: Timestamp = required(&mut wire, "ts")?;
        let user: UserId = required(&mut wire, "user")?;
        Ok(MessageStandardReply { ts, user })
    }
}

#[derive(Clone, Debug, PartialEq)]
pub struct MessageStandardAttachment {
    pub author_icon: Option<String>,
    pub author_link: Option<String>,
    pub author_name: Option<String>,
    pub color: Option<String>,
    pub fallback: Option<String>,
    pub fields: Option<Vec<MessageStandardAttachmentField>>,
    pub footer: Option<String>,
    pub footer_icon: Option<String>,
    pub image_url: Option<String>,
    pub pretext: Option<String>,
    pub text: String,
    pub thumb_url: Option<String>,
    pub title: Option<String>,
    pub title_link: Option<String>,
    pub ts: Option<Timestamp>,
}

impl MessageStandardAttachment {
    /// Whether `v` decodes as the record: an object whose fields read in order.
    #[verifier::opaque]
    pub open spec fn spec_accepts(v: JsonValue) -> bool {
        match v {
            JsonValue::Object(w) => {
                let left0 = w@;
                let left1 = taken(left0, "author_icon"@);
                let left2 = taken(left1, "author_link"@);
                let left3 = taken(left2, "author_name"@);
                let left4 = taken(left3, "color"@);
                let left5 = taken(left4, "fallback"@);
                let left6 = taken(left5, "fields"@);
                let left7 = taken(left6, "footer"@);
                let left8 = taken(left7, "footer_icon"@);
                let left9 = taken(left8, "image_url"@);
                let left10 = taken(left9, "pretext"@);
                let left11 = taken(left10, "text"@);
                let left12 = taken(left11, "thumb_url"@);
                let left13 = taken(left12, "title"@);
                let left14 = taken(left13, "title_link"@);
                &&& optional_ok::<String>(left0, "author_icon"@)
                &&& optional_ok::<String>(left1, "author_link"@)
                &&& optional_ok::<String>(left2, "author_name"@)
                &&& optional_ok::<String>(left3, "color"@)
                &&& optional_ok::<String>(left4, "fallback"@)
                &&& optional_ok::<Vec<MessageStandardAttachmentField>>(left5, "fields"@)
                &&& optional_ok::<String>(left6, "footer"@)
                &&& optional_ok::<String>(left7, "footer_icon"@)
                &&& optional_ok::<String>(left8, "image_url"@)
                &&& optional_ok::<String>(left9, "pretext"@)
                &&& text_ok(left10, "text"@)
                &&& optional_ok::<String>(left11, "thumb_url"@)
                &&& optional_ok::<String>(left12, "title"@)
                &&& optional_ok::<String>(left13, "title_link"@)
                &&& optional_ok::<Timestamp>(left14, "ts"@)
            },
            _ => false,
        }
    }

    /// Whether `x` holds what the fields of `v` read as.
    #[verifier::opaque]
    pub open spec fn spec_decodes_to(v: JsonValue, x: MessageStandardAttachment) -> bool {
        match v {
            JsonValue::Object(w) => {
                let left0 = w@;
                let left1 = taken(left0, "author_icon"@);
                let left2 = taken(left1, "author_link"@);
                let left3 = taken(left2, "author_name"@);
                let left4 = taken(left3, "color"@);
                let left5 = taken(left4, "fallback"@);
                let left6 = taken(left5, "fields"@);
                let left7 = taken(left6, "footer"@);
                let left8 = taken(left7, "footer_icon"@);
                let left9 = taken(left8, "image_url"@);
                let left10 = taken(left9, "pretext"@);
                let left11 = taken(left10, "text"@);
                let left12 = taken(left11, "thumb_url"@);
                let left13 = taken(left12, "title"@);
                let left14 = taken(left13, "title_link"@);
                &&& optional_value::<String>(left0, "author_icon"@, x.author_icon)
                &&& optional_value::<String>(left1, "author_link"@, x.author_link)
                &&& optional_value::<String>(left2, "author_name"@, x.author_name)
                &&& optional_value::<String>(left3, "color"@, x.color)
                &&& optional_value::<String>(left4, "fallback"@, x.fallback)
                &&& optional_value::<Vec<MessageStandardAttachmentField>>(left5, "fields"@, x.fields)
                &&& optional_value::<String>(left6, "footer"@, x.footer)
                &&& optional_value::<String>(left7, "footer_icon"@, x.footer_icon)
                &&& optional_value::<String>(left8, "image_url"@, x.image_url)
                &&& optional_value::<String>(left9, "pretext"@, x.pretext)
                &&& text_value(left10, "text"@, x.text)
                &&& optional_value::<String>(left11, "thumb_url"@, x.thumb_url)
                &&& optional_value::<String>(left12, "title"@, x.title)
                &&& optional_value::<String>(left13, "title_link"@, x.title_link)
                &&& optional_value::<Timestamp>(left14, "ts"@, x.ts)
            },
            _ => false,
        }
    }

    /// Whether `e` is the error of the first check or field that fails on `v`.
    #[verifier::opaque]
    pub open spec fn spec_rejects_with(v: JsonValue, e: DecodeError) -> bool {
        match v {
            JsonValue::Object(w) => {
                let left0 = w@;
                let left1 = taken(left0, "author_icon"@);
                let left2 = taken(left1, "author_link"@);
                let left3 = taken(left2, "author_name"@);
                let left4 = taken(left3, "color"@);
                let left5 = taken(left4, "fallback"@);
                let left6 = taken(left5, "fields"@);
                let left7 = taken(left6, "footer"@);
                let left8 = taken(left7, "footer_icon"@);
                let left9 = taken(left8, "image_url"@);
                let left10 = taken(left9, "pretext"@);
                let left11 = taken(left10, "text"@);
                let left12 = taken(left11, "thumb_url"@);
                let left13 = taken(left12, "title"@);
                let left14 = taken(left13, "title_link"@);
                if !optional_ok::<String>(left0, "author_icon"@) {
                    field_failed::<String>(left0, "author_icon"@, e)
                } else if !optional_ok::<String>(left1, "author_link"@) {
                    field_failed::<String>(left1, "author_link"@, e)
                } else if !optional_ok::<String>(left2, "author_name"@) {
                    field_failed::<String>(left2, "author_name"@, e)
                } else if !optional_ok::<String>(left3, "color"@) {
                    field_failed::<String>(left3, "color"@, e)
                } else if !optional_ok::<String>(left4, "fallback"@) {
                    field_failed::<String>(left4, "fallback"@, e)
                } else if !optional_ok::<Vec<MessageStandardAttachmentField>>(left5, "fields"@) {
                    field_failed::<Vec<MessageStandardAttachmentField>>(left5, "fields"@, e)
                } else if !optional_ok::<String>(left6, "footer"@) {
                    field_failed::<String>(left6, "footer"@, e)
                } else if !optional_ok::<String>(left7, "footer_icon"@) {
                    field_failed::<String>(left7, "footer_icon"@, e)
                } else if !optional_ok::<String>(left8, "image_url"@) {
                    field_failed::<String>(left8, "image_url"@, e)
                } else if !optional_ok::<String>(left9, "pretext"@) {
                    field_failed::<String>(left9, "pretext"@, e)
                } else if !text_ok(left10, "text"@) {
                    field_failed::<String>(left10, "text"@, e)
                } else if !optional_ok::<String>(left11, "thumb_url"@) {
                    field_failed::<String>(left11, "thumb_url"@, e)
                } else if !optional_ok::<String>(left12, "title"@) {
                    field_failed::<String>(left12, "title"@, e)
                } else if !optional_ok::<String>(left13, "title_link"@) {
                    field_failed::<String>(left13, "title_link"@, e)
                } else if !optional_ok::<Timestamp>(left14, "ts"@) {
                    field_failed::<Timestamp>(left14, "ts"@, e)
                } else {
                    false
                }
            },
            _ => e == (DecodeError::WrongType { expected: "object" }),
        }
    }
}

impl Decode for MessageStandardAttachment {
    open spec fn accepts(v: JsonValue) -> bool {
        MessageStandardAttachment::spec_accepts(v)
    }

    open spec fn decodes_to(v: JsonValue, x: MessageStandardAttachment) -> bool {
        MessageStandardAttachment::spec_decodes_to(v, x)
    }

    open spec fn rejects_with(v: JsonValue, e: DecodeError) -> bool {
        MessageStandardAttachment::spec_rejects_with(v, e)
    }

    fn decode(v: JsonValue) -> Result<MessageStandardAttachment, DecodeError> {
        proof {
            reveal(MessageStandardAttachment::spec_accepts);
            reveal(MessageStandardAttachment::spec_decodes_to);
            reveal(MessageStandardAttachment::spec_rejects_with);
        }
        let mut wire = into_fields(v)?;
        let author_icon: Option<String> = optional(&mut wire, "author_icon")?;
        let author_link: Option<String> = optional(&mut wire, "author_link")?;
        let author_name: Option<String> = optional(&mut wire, "author_name")?;
        let color: Option<String> = optional(&mut wire, "color")?;
        let fallback: Option<String> = optional(&mut wire, "fallback")?;
        let fields: Option<Vec<MessageStandardAttachmentField>> = optional(&mut wire, "fields")?;
        let footer: Option<String> = optional(&mut wire, "footer")?;
        let footer_icon: Option<String> = optional(&mut wire, "footer_icon")?;
        let image_url: Option<String> = optional(&mut wire, "image_url")?;
        let pretext: Option<String> = optional(&mut wire, "pretext")?;
        let text: String = text_or_empty(&mut wire, "text")?;
        let thumb_url: Option<String> = optional(&mut wire, "thumb_url")?;
        let title: Option<String> = optional(&mut wire, "title")?;
        let title_link: Option<String> = optional(&mut wire, "title_link")?;
        let ts: Option<Timestamp> = optional(&mut wire, "ts")?;
        Ok(MessageStandardAttachment { author_icon, author_link, author_name, color, fallback, fields, footer, footer_icon, image_url, pretext, text, thumb_url, title, title_link, ts })
    }
}

#[derive(Clone, Debug, PartialEq)]
pub struct MessageStandardAttachmentField {
    pub short: Option<bool>,
    pub title: Option<String>,
    pub value: Option<String>,
}

impl MessageStandardAttachmentField {
    /// Whether `v` decodes as the record: an object whose fields read in order.
    #[verifier::opaque]
    pub open spec fn spec_accepts(v: JsonValue) -> bool {
        match v {
            JsonValue::Object(w) => {
                let left0 = w@;
                let left1 = taken(left0, "short"@);
                let left2 = taken(left1, "title"@);
                &&& optional_ok::<bool>(left0, "short"@)
                &&& optional_ok::<String>(left1, "title"@)
                &&& optional_ok::<String>(left2, "value"@)
            },
            _ => false,
        }
    }

    /// Whether `x` holds what the fields of `v` read as.
    #[verifier::opaque]
    pub open spec fn spec_decodes_to(v: JsonValue, x: MessageStandardAttachmentField) -> bool {
        match v {
            JsonValue::Object(w) => {
                let left0 = w@;
                let left1 = taken(left0, "short"@);
                let left2 = taken(left1, "title"@);
                &&& optional_value::<bool>(left0, "short"@, x.short)
                &&& optional_value::<String>(left1, "title"@, x.title)
                &&& optional_value::<String>(left2, "value"@, x.value)
            },
            _ => false,
        }
    }

    /// Whether `e` is the error of the first check or field that fails on `v`.
    #[verifier::opaque]
    pub open spec fn spec_rejects_with(v: JsonValue, e: DecodeError) -> bool {
        match v {
            JsonValue::Object(w) => {
                let left0 = w@;
                let left1 = taken(left0, "short"@);
                let left2 = taken(left1, "title"@);
                if !optional_ok::<bool>(left0, "short"@) {
                    field_failed::<bool>(left0, "short"@, e)
                } else if !optional_ok::<String>(left1, "title"@) {
                    field_failed::<String>(left1, "title"@, e)
                } else if !optional_ok::<String>(left2, "value"@) {
                    field_failed::<String>(left2, "value"@, e)
                } else {
                    false
                }
            },
            _ => e == (DecodeError::WrongType { expected: "object" }),
        }
    }
}

impl Decode for MessageStandardAttachmentField {
    open spec fn accepts(v: JsonValue) -> bool {
        MessageStandardAttachmentField::spec_accepts(v)
    }

    open spec fn decodes_to(v: JsonValue, x: MessageStandardAttachmentField) -> bool {
        MessageStandardAttachmentField::spec_decodes_to(v, x)
    }

    open spec fn rejects_with(v: JsonValue, e: DecodeError) -> bool {
        MessageStandardAttachmentField::spec_rejects_with(v, e)
    }

    fn decode(v: JsonValue) -> Result<MessageStandardAttachmentField, DecodeError> {
        proof {
            reveal(MessageStandardAttachmentField::spec_accepts);
            reveal(MessageStandardAttachmentField::spec_decodes_to);
            reveal(MessageStandardAttachmentField::spec_rejects_with);
        }
        let mut wire = into_fields(v)?;
        let short: Option<bool> = optional(&mut wire, "short")?;
        let title: Option<String> = optional(&mut wire, "title")?;
        let value: Option<String> = optional(&mut wire, "value")?;
        Ok(MessageStandardAttachmentField { short, title, value })
    }
}

#[derive(Clone, Debug, PartialEq)]
pub struct MessageStandardEdited {
    pub ts: Option<Timestamp>,
    pub user: Option<UserId>,
}

impl MessageStandardEdited {
    /// Whether `v` decodes as the record: an object whose fields read in order.
    #[verifier::opaque]
    pub open spec fn spec_accepts(v: JsonValue) -> bool {
        match v {
            JsonValue::Object(w) => {
                let left0 = w@;
                let left1 = taken(left0, "ts"@);
                &&& optional_ok::<Timestamp>(left0, "ts"@)
                &&& optional_ok::<UserId>(left1, "user"@)
            },
            _ => false,
        }
    }

    /// Whether `x` holds what the fields of `v` read as.
    #[verifier::opaque]
    pub open spec fn spec_decodes_to(v: JsonValue, x: MessageStandardEdited) -> bool {
        match v {
            JsonValue::Object(w) => {
                let left0 = w@;
                let left1 = taken(left0, "ts"@);
                &&& optional_value::<Timestamp>(left0, "ts"@, x.ts)
                &&& optional_value::<UserId>(left1, "user"@, x.user)
            },
            _ => false,
        }
    }

    /// Whether `e` is the error of the first check or field that fails on `v`.
    #[verifier::opaque]
    pub open spec fn spec_rejects_with(v: JsonValue, e: DecodeError) -> bool {
        match v {
            JsonValue::Object(w) => {
                let left0 = w@;
                let left1 = taken(left0, "ts"@);
                if !optional_ok::<Timestamp>(left0, "ts"@) {
                    field_failed::<Timestamp>(left0, "ts"@, e)
                } else if !optional_ok::<UserId>(left1, "user"@) {
                    field_failed::<UserId>(left1, "user"@, e)
                } else {
                    false
                }
            },
            _ => e == (DecodeError::WrongType { expected: "object" }),
        }
    }
}

impl Decode for MessageStandardEdited {
    open spec fn accepts(v: JsonValue) -> bool {
        MessageStandardEdited::spec_accepts(v)
    }

    open spec fn decodes_to(v: JsonValue, x: MessageStandardEdited) -> bool {
        MessageStandardEdited::spec_decodes_to(v, x)
    }

    open spec fn rejects_with(v: JsonValue, e: DecodeError) -> bool {
        MessageStandardEdited::spec_rejects_with(v, e)
    }

    fn decode(v: JsonValue) -> Result<MessageStandardEdited, DecodeError> {
        proof {
            reveal(MessageStandardEdited::spec_accepts);
            reveal(MessageStandardEdited::spec_decodes_to);
            reveal(MessageStandardEdited::spec_rejects_with);
        }
        let mut wire = into_fields(v)?;
        let ts: Option<Timestamp> = optional(&mut wire, "ts")?;
        let user: Option<UserId> = optional(&mut wire, "user")?;
        Ok(MessageStandardEdited { ts, user })
    }
}

#[derive(Clone, Debug, PartialEq)]
pub struct MessageUnpinnedItem {
    pub channel: Option<ConversationId>,
    pub item: Option<MessageUnpinnedItemItem>,
    pub text: String,
    pub ts: Option<Timestamp>,
    pub user: Option<UserId>,
}

impl MessageUnpinnedItem {
    /// Whether `v` decodes as the record: an object whose fields read in order.
    #[verifier::opaque]
    pub open spec fn spec_accepts(v: JsonValue) -> bool {
        match v {
            JsonValue::Object(w) => {
                let left0 = w@;
                let left1 = taken(left0, "channel"@);
                let left2 = taken(left1, "item"@);
                let left3 = taken(left2, "text"@);
                let left4 = taken(left3, "ts"@);
                &&& optional_ok::<ConversationId>(left0, "channel"@)
                &&& optional_ok::<MessageUnpinnedItemItem>(left1, "item"@)
                &&& text_ok(left2, "text"@)
                &&& optional_ok::<Timestamp>(left3, "ts"@)
                &&& optional_ok::<UserId>(left4, "user"@)
            },
            _ => false,
        }
    }

    /// Whether `x` holds what the fields of `v` read as.
    #[verifier::opaque]
    pub open spec fn spec_decodes_to(v: JsonValue, x: MessageUnpinnedItem) -> bool {
        match v {
            JsonValue::Object(w) => {
                let left0 = w@;
                let left1 = taken(left0, "channel"@);
                let left2 = taken(left1, "item"@);
                let left3 = taken(left2, "text"@);
                let left4 = taken(left3, "ts"@);
                &&& optional_value::<ConversationId>(left0, "channel"@, x.channel)
                &&& optional_value::<MessageUnpinnedItemItem>(left1, "item"@, x.item)
                &&& text_value(left2, "text"@, x.text)
                &&& optional_value::<Timestamp>(left3, "ts"@, x.ts)
                &&& optional_value::<UserId>(left4, "user"@, x.user)
            },
            _ => false,
        }
    }

    /// Whether `e` is the error of the first check or field that fails on `v`.
    #[verifier::opaque]
    pub open spec fn spec_rejects_with(v: JsonValue, e: DecodeError) -> bool {
        match v {
            JsonValue::Object(w) => {
                let left0 = w@;
                let left1 = taken(left0, "channel"@);
                let left2 = taken(left1, "item"@);
                let left3 = taken(left2, "text"@);
                let left4 = taken(left3, "ts"@);
                if !optional_ok::<ConversationId>(left0, "channel"@) {
                    field_failed::<ConversationId>(left0, "channel"@, e)
                } else if !optional_ok::<MessageUnpinnedItemItem>(left1, "item"@) {
                    field_failed::<MessageUnpinnedItemItem>(left1, "item"@, e)
                } else if !text_ok(left2, "text"@) {
                    field_failed::<String>(left2, "text"@, e)
                } else if !optional_ok::<Timestamp>(left3, "ts"@) {
                    field_failed::<Timestamp>(left3, "ts"@, e)
                } else if !optional_ok::<UserId>(left4, "user"@) {
                    field_failed::<UserId>(left4, "user"@, e)
                } else {
                    false
                }
            },
            _ => e == (DecodeError::WrongType { expected: "object" }),
        }
    }
}

impl Decode for MessageUnpinnedItem {
    open spec fn accepts(v: JsonValue) -> bool {
        MessageUnpinnedItem::spec_accepts(v)
    }

    open spec fn decodes_to(v: JsonValue, x: MessageUnpinnedItem) -> bool {
        MessageUnpinnedItem::spec_decodes_to(v, x)
    }

    open spec fn rejects_with(v: JsonValue, e: DecodeError) -> bool {
        MessageUnpinnedItem::spec_rejects_with(v, e)
    }

    fn decode(v: JsonValue) -> Result<MessageUnpinnedItem, DecodeError> {
        proof {
            reveal(MessageUnpinnedItem::spec_accepts);
            reveal(MessageUnpinnedItem::spec_decodes_to);
            reveal(MessageUnpinnedItem::spec_rejects_with);
        }
        let mut wire = into_fields(v)?;
        let channel: Option<ConversationId> = optional(&mut wire, "channel")?;
        let item: Option<MessageUnpinnedItemItem> = optional(&mut wire, "item")?;
        let text: String = text_or_empty(&mut wire, "text")?;
        let ts: Option<Timestamp> = optional(&mut wire, "ts")?;
        let user: Option<UserId> = optional(&mut wire, "user")?;
        Ok(MessageUnpinnedItem { channel, item, text, ts, user })
    }
}

#[derive(Clone, Debug, PartialEq)]
pub struct MessageUnpinnedItemItem {}

impl MessageUnpinnedItemItem {
    /// Whether `v` decodes as the record: an object whose fields read in order.
    #[verifier::opaque]
    pub open spec fn spec_accepts(v: JsonValue) -> bool {
        match v {
            JsonValue::Object(w) => {
                let left0 = w@;
                &&& true
            },
            _ => false,
        }
    }

    /// Whether `x` holds what the fields of `v` read as.
    #[verifier::opaque]
    pub open spec fn spec_decodes_to(v: JsonValue, x: MessageUnpinnedItemItem) -> bool {
        match v {
            JsonValue::Object(w) => {
                let left0 = w@;
                &&& true
            },
            _ => false,
        }
    }

    /// Whether `e` is the error of the first check or field that fails on `v`.
    #[verifier::opaque]
    pub open spec fn spec_rejects_with(v: JsonValue, e: DecodeError) -> bool {
        match v {
            JsonValue::Object(w) => {
                let left0 = w@;
                false
            },
            _ => e == (DecodeError::WrongType { expected: "object" }),
        }
    }
}

impl Decode for MessageUnpinnedItemItem {
    open spec fn accepts(v: JsonValue) -> bool {
        MessageUnpinnedItemItem::spec_accepts(v)
    }

    open spec fn decodes_to(v: JsonValue, x: MessageUnpinnedItemItem) -> bool {
        MessageUnpinnedItemItem::spec_decodes_to(v, x)
    }

    open spec fn rejects_with(v: JsonValue, e: DecodeError) -> bool {
        MessageUnpinnedItemItem::spec_rejects_with(v, e)
    }

    fn decode(v: JsonValue) -> Result<MessageUnpinnedItemItem, DecodeError> {
        proof {
            reveal(MessageUnpinnedItemItem::spec_accepts);
            reveal(MessageUnpinnedItemItem::spec_decodes_to);
            reveal(MessageUnpinnedItemItem::spec_rejects_with);
        }
        let _fields = into_fields(v)?;
        Ok(MessageUnpinnedItemItem {})
    }
}

#[derive(Clone, Debug, PartialEq)]
pub struct MessageSlackbotResponse {
    pub text: String,
    pub ts: Option<Timestamp>,
    pub user: Option<UserId>,
    pub channel: Option<ConversationId>,
    pub reactions: Vec<Reaction>,
}

impl MessageSlackbotResponse {
    /// Whether `v` decodes as the record: an object whose fields read in order.
    #[verifier::opaque]
    pub open spec fn spec_accepts(v: JsonValue) -> bool {
        match v {
            JsonValue::Object(w) => {
                let left0 = w@;
                let left1 = taken(left0, "text"@);
                let left2 = taken(left1, "ts"@);
                let left3 = taken(left2, "user"@);
                let left4 = taken(left3, "channel"@);
                &&& text_ok(left0, "text"@)
                &&& optional_ok::<Timestamp>(left1, "ts"@)
                &&& optional_ok::<UserId>(left2, "user"@)
                &&& optional_ok::<ConversationId>(left3, "channel"@)
                &&& list_ok::<Reaction>(left4, "reactions"@)
            },
            _ => false,
        }
    }

    /// Whether `x` holds what the fields of `v` read as.
    #[verifier::opaque]
    pub open spec fn spec_decodes_to(v: JsonValue, x: MessageSlackbotResponse) -> bool {
        match v {
            JsonValue::Object(w) => {
                let left0 = w@;
                let left1 = taken(left0, "text"@);
                let left2 = taken(left1, "ts"@);
                let left3 = taken(left2, "user"@);
                let left4 = taken(left3, "channel"@);
                &&& text_value(left0, "text"@, x.text)
                &&& optional_value::<Timestamp>(left1, "ts"@, x.ts)
                &&& optional_value::<UserId>(left2, "user"@, x.user)
                &&& optional_value::<ConversationId>(left3, "channel"@, x.channel)
                &&& list_value::<Reaction>(left4, "reactions"@, x.reactions)
            },
            _ => false,
        }
    }

    /// Whether `e` is the error of the first check or field that fails on `v`.
    #[verifier::opaque]
    pub open spec fn spec_rejects_with(v: JsonValue, e: DecodeError) -> bool {
        match v {
            JsonValue::Object(w) => {
                let left0 = w@;
                let left1 = taken(left0, "text"@);
                let left2 = taken(left1, "ts"@);
                let left3 = taken(left2, "user"@);
                let left4 = taken(left3, "channel"@);
                if !text_ok(left0, "text"@) {
                    field_failed::<String>(left0, "text"@, e)
                } else if !optional_ok::<Timestamp>(left1, "ts"@) {
                    field_failed::<Timestamp>(left1, "ts"@, e)
                } else if !optional_ok::<UserId>(left2, "user"@) {
                    field_failed::<UserId>(left2, "user"@, e)
                } else if !optional_ok::<ConversationId>(left3, "channel"@) {
                    field_failed::<ConversationId>(left3, "channel"@, e)
                } else if !list_ok::<Reaction>(left4, "reactions"@) {
                    field_failed::<Vec<Reaction>>(left4, "reactions"@, e)
                } else {
                    false
                }
            },
            _ => e == (DecodeError::WrongType { expected: "object" }),
        }
    }
}

impl Decode for MessageSlackbotResponse {
    open spec fn accepts(v: JsonValue) -> bool {
        MessageSlackbotResponse::spec_accepts(v)
    }

    open spec fn decodes_to(v: JsonValue, x: MessageSlackbotResponse) -> bool {
        MessageSlackbotResponse::spec_decodes_to(v, x)
    }

    open spec fn rejects_with(v: JsonValue, e: DecodeError) -> bool {
        MessageSlackbotResponse::spec_rejects_with(v, e)
    }

    fn decode(v: JsonValue) -> Result<MessageSlackbotResponse, DecodeError> {
        proof {
            reveal(MessageSlackbotResponse::spec_accepts);
            reveal(MessageSlackbotResponse::spec_decodes_to);
            reveal(MessageSlackbotResponse::spec_rejects_with);
        }
        let mut wire = into_fields(v)?;
        let text: String = text_or_empty(&mut wire, "text")?;
        let ts: Option<Timestamp> = optional(&mut wire, "ts")?;
        let user: Option<UserId> = optional(&mut wire, "user")?;
        let channel: Option<ConversationId> = optional(&mut wire, "channel")?;
        let reactions: Vec<Reaction> = list_or_empty(&mut wire, "reactions")?;
        Ok(MessageSlackbotResponse { text, ts, user, channel, reactions })
    }
}

#[derive(Clone, Debug, PartialEq)]
pub struct MessageThreadBroadcast {
    pub attachments: Option<Vec<MessageThreadBroadcastAttachment>>,
    pub root: Option<MessageStandard>,
    pub text: String,
    pub thread_ts: Option<String>,
    pub user: Option<UserId>,
    pub ts: Option<Timestamp>,
}

impl MessageThreadBroadcast {
    /// Whether `v` decodes as the record: an object whose fields read in order.
    #[verifier::opaque]
    pub open spec fn spec_accepts(v: JsonValue) -> bool {
        match v {
            JsonValue::Object(w) => {
                let left0 = w@;
                let left1 = taken(left0, "attachments"@);
                let left2 = taken(left1, "root"@);
                let left3 = taken(left2, "text"@);
                let left4 = taken(left3, "thread_ts"@);
                let left5 = taken(left4, "user"@);
                &&& optional_ok::<Vec<MessageThreadBroadcastAttachment>>(left0, "attachments"@)
                &&& optional_ok::<MessageStandard>(left1, "root"@)
                &&& text_ok(left2, "text"@)
                &&& optional_ok::<String>(left3, "thread_ts"@)
                &&& optional_ok::<UserId>(left4, "user"@)
                &&& optional_ok::<Timestamp>(left5, "ts"@)
            },
            _ => false,
        }
    }

    /// Whether `x` holds what the fields of `v` read as.
    #[verifier::opaque]
    pub open spec fn spec_decodes_to(v: JsonValue, x: MessageThreadBroadcast) -> bool {
        match v {
            JsonValue::Object(w) => {
                let left0 = w@;
                let left1 = taken(left0, "attachments"@);
                let left2 = taken(left1, "root"@);
                let left3 = taken(left2, "text"@);
                let left4 = taken(left3, "thread_ts"@);
                let left5 = taken(left4, "user"@);
                &&& optional_value::<Vec<MessageThreadBroadcastAttachment>>(left0, "attachments"@, x.attachments)
                &&& optional_value::<MessageStandard>(left1, "root"@, x.root)
                &&& text_value(left2, "text"@, x.text)
                &&& optional_value::<String>(left3, "thread_ts"@, x.thread_ts)
                &&& optional_value::<UserId>(left4, "user"@, x.user)
                &&& optional_value::<Timestamp>(left5, "ts"@, x.ts)
            },
            _ => false,
        }
    }

    /// Whether `e` is the error of the first check or field that fails on `v`.
    #[verifier::opaque]
    pub open spec fn spec_rejects_with(v: JsonValue, e: DecodeError) -> bool {
        match v {
            JsonValue::Object(w) => {
                let left0 = w@;
                let left1 = taken(left0, "attachments"@);
                let left2 = taken(left1, "root"@);
                let left3 = taken(left2, "text"@);
                let left4 = taken(left3, "thread_ts"@);
                let left5 = taken(left4, "user"@);
                if !optional_ok::<Vec<MessageThreadBroadcastAttachment>>(left0, "attachments"@) {
                    field_failed::<Vec<MessageThreadBroadcastAttachment>>(left0, "attachments"@, e)
                } else if !optional_ok::<MessageStandard>(left1, "root"@) {
                    field_failed::<MessageStandard>(left1, "root"@, e)
                } else if !text_ok(left2, "text"@) {
                    field_failed::<String>(left2, "text"@, e)
                } else if !optional_ok::<String>(left3, "thread_ts"@) {
                    field_failed::<String>(left3, "thread_ts"@, e)
                } else if !optional_ok::<UserId>(left4, "user"@) {
                    field_failed::<UserId>(left4, "user"@, e)
                } else if !optional_ok::<Timestamp>(left5, "ts"@) {
                    field_failed::<Timestamp>(left5, "ts"@, e)
                } else {
                    false
                }
            },
            _ => e == (DecodeError::WrongType { expected: "object" }),
        }
    }
}

impl Decode for MessageThreadBroadcast {
    open spec fn accepts(v: JsonValue) -> bool {
        MessageThreadBroadcast::spec_accepts(v)
    }

    open spec fn decodes_to(v: JsonValue, x: MessageThreadBroadcast) -> bool {
        MessageThreadBroadcast::spec_decodes_to(v, x)
    }

    open spec fn rejects_with(v: JsonValue, e: DecodeError) -> bool {
        MessageThreadBroadcast::spec_rejects_with(v, e)
    }

    fn decode(v: JsonValue) -> Result<MessageThreadBroadcast, DecodeError> {
        proof {
            reveal(MessageThreadBroadcast::spec_accepts);
            reveal(MessageThreadBroadcast::spec_decodes_to);
            reveal(MessageThreadBroadcast::spec_rejects_with);
        }
        let mut wire = into_fields(v)?;
        let attachments: Option<Vec<MessageThreadBroadcastAttachment>> = optional(&mut wire, "attachments")?;
        let root: Option<MessageStandard> = optional(&mut wire, "root")?;
        let text: String = text_or_empty(&mut wire, "text")?;
        let thread_ts: Option<String> = optional(&mut wire, "thread_ts")?;
        let user: Option<UserId> = optional(&mut wire, "user")?;
        let ts: Option<Timestamp> = optional(&mut wire, "ts")?;
        Ok(MessageThreadBroadcast { attachments, root, text, thread_ts, user, ts })
    }
}

#[derive(Clone, Debug, PartialEq)]
pub struct MessageThreadBroadcastAttachment {
    pub fallback: Option<String>,
    pub from_url: Option<String>,
    pub id: Option<i32>,
    pub service_icon: Option<String>,
    pub service_name: Option<String>,
    pub text: String,
    pub title: Option<String>,
    pub title_link: Option<String>,
}

impl MessageThreadBroadcastAttachment {
    /// Whether `v` decodes as the record: an object whose fields read in order.
    #[verifier::opaque]
    pub open spec fn spec_accepts(v: JsonValue) -> bool {
        match v {
            JsonValue::Object(w) => {
                let left0 = w@;
                let left1 = taken(left0, "fallback"@);
                let left2 = taken(left1, "from_url"@);
                let left3 = taken(left2, "id"@);
                let left4 = taken(left3, "service_icon"@);
                let left5 = taken(left4, "service_name"@);
                let left6 = taken(left5, "text"@);
                let left7 = taken(left6, "title"@);
                &&& optional_ok::<String>(left0, "fallback"@)
                &&& optional_ok::<String>(left1, "from_url"@)
                &&& optional_ok::<i32>(left2, "id"@)
                &&& optional_ok::<String>(left3, "service_icon"@)
                &&& optional_ok::<String>(left4, "service_name"@)
                &&& text_ok(left5, "text"@)
                &&& optional_ok::<String>(left6, "title"@)
                &&& optional_ok::<String>(left7, "title_link"@)
            },
            _ => false,
        }
    }

    /// Whether `x` holds what the fields of `v` read as.
    #[verifier::opaque]
    pub open spec fn spec_decodes_to(v: JsonValue, x: MessageThreadBroadcastAttachment) -> bool {
        match v {
            JsonValue::Object(w) => {
                let left0 = w@;
                let left1 = taken(left0, "fallback"@);
                let left2 = taken(left1, "from_url"@);
                let left3 = taken(left2, "id"@);
                let left4 = taken(left3, "service_icon"@);
                let left5 = taken(left4, "service_name"@);
                let left6 = taken(left5, "text"@);
                let left7 = taken(left6, "title"@);
                &&& optional_value::<String>(left0, "fallback"@, x.fallback)
                &&& optional_value::<String>(left1, "from_url"@, x.from_url)
                &&& optional_value::<i32>(left2, "id"@, x.id)
                &&& optional_value::<String>(left3, "service_icon"@, x.service_icon)
                &&& optional_value::<String>(left4, "service_name"@, x.service_name)
                &&& text_value(left5, "text"@, x.text)
                &&& optional_value::<String>(left6, "title"@, x.title)
                &&& optional_value::<String>(left7, "title_link"@, x.title_link)
            },
            _ => false,
        }
    }

    /// Whether `e` is the error of the first check or field that fails on `v`.
    #[verifier::opaque]
    pub open spec fn spec_rejects_with(v: JsonValue, e: DecodeError) -> bool {
        match v {
            JsonValue::Object(w) => {
                let left0 = w@;
                let left1 = taken(left0, "fallback"@);
                let left2 = taken(left1, "from_url"@);
                let left3 = taken(left2, "id"@);
                let left4 = taken(left3, "service_icon"@);
                let left5 = taken(left4, "service_name"@);
                let left6 = taken(left5, "text"@);
                let left7 = taken(left6, "title"@);
                if !optional_ok::<String>(left0, "fallback"@) {
                    field_failed::<String>(left0, "fallback"@, e)
                } else if !optional_ok::<String>(left1, "from_url"@) {
                    field_failed::<String>(left1, "from_url"@, e)
                } else if !optional_ok::<i32>(left2, "id"@) {
                    field_failed::<i32>(left2, "id"@, e)
                } else if !optional_ok::<String>(left3, "service_icon"@) {
                    field_failed::<String>(left3, "service_icon"@, e)
                } else if !optional_ok::<String>(left4, "service_name"@) {
                    field_failed::<String>(left4, "service_name"@, e)
                } else if !text_ok(left5, "text"@) {
                    field_failed::<String>(left5, "text"@, e)
                } else if !optional_ok::<String>(left6, "title"@) {
                    field_failed::<String>(left6, "title"@, e)
                } else if !optional_ok::<String>(left7, "title_link"@) {
                    field_failed::<String>(left7, "title_link"@, e)
                } else {
                    false
                }
            },
            _ => e == (DecodeError::WrongType { expected: "object" }),
        }
    }
}

impl Decode for MessageThreadBroadcastAttachment {
    open spec fn accepts(v: JsonValue) -> bool {
        MessageThreadBroadcastAttachment::spec_accepts(v)
    }

    open spec fn decodes_to(v: JsonValue, x: MessageThreadBroadcastAttachment) -> bool {
        MessageThreadBroadcastAttachment::spec_decodes_to(v, x)
    }

    open spec fn rejects_with(v: JsonValue, e: DecodeError) -> bool {
        MessageThreadBroadcastAttachment::spec_rejects_with(v, e)
    }

    fn decode(v: JsonValue) -> Result<MessageThreadBroadcastAttachment, DecodeError> {
        proof {
            reveal(MessageThreadBroadcastAttachment::spec_accepts);
            reveal(MessageThreadBroadcastAttachment::spec_decodes_to);
            reveal(MessageThreadBroadcastAttachment::spec_rejects_with);
        }
        let mut wire = into_fields(v)?;
        let fallback: Option<String> = optional(&mut wire, "fallback")?;
        let from_url: Option<String> = optional(&mut wire, "from_url")?;
        let id: Option<i32> = optional(&mut wire, "id")?;
        let service_icon: Option<String> = optional(&mut wire, "service_icon")?;
        let service_name: Option<String> = optional(&mut wire, "service_name")?;
        let text: String = text_or_empty(&mut wire, "text")?;
        let title: Option<String> = optional(&mut wire, "title")?;
        let title_link: Option<String> = optional(&mut wire, "title_link")?;
        Ok(MessageThreadBroadcastAttachment { fallback, from_url, id, service_icon, service_name, text, title, title_link })
    }
}

#[derive(Clone, Debug, PartialEq)]
pub struct Mpim {
    pub created: Option<i32>,
    pub creator: Option<String>,
    pub id: Option<String>,
    pub is_group: Option<bool>,
    pub is_mpim: Option<bool>,
    pub last_read: Option<Timestamp>,
    pub latest: Option<Message>,
    pub members: Option<Vec<UserId>>,
    pub name: Option<String>,
    pub unread_count: Option<i32>,
    pub unread_count_display: Option<i32>,
}

impl Mpim {
    /// Whether `v` decodes as the record: an object whose fields read in order.
    #[verifier::opaque]
    pub open spec fn spec_accepts(v: JsonValue) -> bool {
        match v {
            JsonValue::Object(w) => {
                let left0 = w@;
                let left1 = taken(left0, "created"@);
                let left2 = taken(left1, "creator"@);
                let left3 = taken(left2, "id"@);
                let left4 = taken(left3, "is_group"@);
                let left5 = taken(left4, "is_mpim"@);
                let left6 = taken(left5, "last_read"@);
                let left7 = taken(left6, "latest"@);
                let left8 = taken(left7, "members"@);
                let left9 = taken(left8, "name"@);
                let left10 = taken(left9, "unread_count"@);
                &&& optional_ok::<i32>(left0, "created"@)
                &&& optional_ok::<String>(left1, "creator"@)
                &&& optional_ok::<String>(left2, "id"@)
                &&& optional_ok::<bool>(left3, "is_group"@)
                &&& optional_ok::<bool>(left4, "is_mpim"@)
                &&& optional_ok::<Timestamp>(left5, "last_read"@)
                &&& optional_ok::<Message>(left6, "latest"@)
                &&& optional_ok::<Vec<UserId>>(left7, "members"@)
                &&& optional_ok::<String>(left8, "name"@)
                &&& optional_ok::<i32>(left9, "unread_count"@)
                &&& optional_ok::<i32>(left10, "unread_count_display"@)
            },
            _ => false,
        }
    }

    /// Whether `x` holds what the fields of `v` read as.
    #[verifier::opaque]
    pub open spec fn spec_decodes_to(v: JsonValue, x: Mpim) -> bool {
        match v {
            JsonValue::Object(w) => {
                let left0 = w@;
                let left1 = taken(left0, "created"@);
                let left2 = taken(left1, "creator"@);
                let left3 = taken(left2, "id"@);
                let left4 = taken(left3, "is_group"@);
                let left5 = taken(left4, "is_mpim"@);
                let left6 = taken(left5, "last_read"@);
                let left7 = taken(left6, "latest"@);
                let left8 = taken(left7, "members"@);
                let left9 = taken(left8, "name"@);
                let left10 = taken(left9, "unread_count"@);
                &&& optional_value::<i32>(left0, "created"@, x.created)
                &&& optional_value::<String>(left1, "creator"@, x.creator)
                &&& optional_value::<String>(left2, "id"@, x.id)
                &&& optional_value::<bool>(left3, "is_group"@, x.is_group)
                &&& optional_value::<bool>(left4, "is_mpim"@, x.is_mpim)
                &&& optional_value::<Timestamp>(left5, "last_read"@, x.last_read)
                &&& optional_value::<Message>(left6, "latest"@, x.latest)
                &&& optional_value::<Vec<UserId>>(left7, "members"@, x.members)
                &&& optional_value::<String>(left8, "name"@, x.name)
                &&& optional_value::<i32>(left9, "unread_count"@, x.unread_count)
                &&& optional_value::<i32>(left10, "unread_count_display"@, x.unread_count_display)
            },
            _ => false,
        }
    }

    /// Whether `e` is the error of the first check or field that fails on `v`.
    #[verifier::opaque]
    pub open spec fn spec_rejects_with(v: JsonValue, e: DecodeError) -> bool {
        match v {
            JsonValue::Object(w) => {
                let left0 = w@;
                let left1 = taken(left0, "created"@);
                let left2 = taken(left1, "creator"@);
                let left3 = taken(left2, "id"@);
                let left4 = taken(left3, "is_group"@);
                let left5 = taken(left4, "is_mpim"@);
                let left6 = taken(left5, "last_read"@);
                let left7 = taken(left6, "latest"@);
                let left8 = taken(left7, "members"@);
                let left9 = taken(left8, "name"@);
                let left10 = taken(left9, "unread_count"@);
                if !optional_ok::<i32>(left0, "created"@) {
                    field_failed::<i32>(left0, "created"@, e)
                } else if !optional_ok::<String>(left1, "creator"@) {
                    field_failed::<String>(left1, "creator"@, e)
                } else if !optional_ok::<String>(left2, "id"@) {
                    field_failed::<String>(left2, "id"@, e)
                } else if !optional_ok::<bool>(left3, "is_group"@) {
                    field_failed::<bool>(left3, "is_group"@, e)
                } else if !optional_ok::<bool>(left4, "is_mpim"@) {
                    field_failed::<bool>(left4, "is_mpim"@, e)
                } else if !optional_ok::<Timestamp>(left5, "last_read"@) {
                    field_failed::<Timestamp>(left5, "last_read"@, e)
                } else if !optional_ok::<Message>(left6, "latest"@) {
                    field_failed::<Message>(left6, "latest"@, e)
                } else if !optional_ok::<Vec<UserId>>(left7, "members"@) {
                    field_failed::<Vec<UserId>>(left7, "members"@, e)
                } else if !optional_ok::<String>(left8, "name"@) {
                    field_failed::<String>(left8, "name"@, e)
                } else if !optional_ok::<i32>(left9, "unread_count"@) {
                    field_failed::<i32>(left9, "unread_count"@, e)
                } else if !optional_ok::<i32>(left10, "unread_count_display"@) {
                    field_failed::<i32>(left10, "unread_count_display"@, e)
                } else {
                    false
                }
            },
            _ => e == (DecodeError::WrongType { expected: "object" }),
        }
    }
}

impl Decode for Mpim {
    open spec fn accepts(v: JsonValue) -> bool {
        Mpim::spec_accepts(v)
    }

    open spec fn decodes_to(v: JsonValue, x: Mpim) -> bool {
        Mpim::spec_decodes_to(v, x)
    }

    open spec fn rejects_with(v: JsonValue, e: DecodeError) -> bool {
        Mpim::spec_rejects_with(v, e)
    }

    fn decode(v: JsonValue) -> Result<Mpim, DecodeError> {
        proof {
            reveal(Mpim::spec_accepts);
            reveal(Mpim::spec_decodes_to);
            reveal(Mpim::spec_rejects_with);
        }
        let mut wire = into_fields(v)?;
        let created: Option<i32> = optional(&mut wire, "created")?;
        let creator: Option<String> = optional(&mut wire, "creator")?;
        let id: Option<String> = optional(&mut wire, "id")?;
        let is_group: Option<bool> = optional(&mut wire, "is_group")?;
        let is_mpim: Option<bool> = optional(&mut wire, "is_mpim")?;
        let last_read: Option<Timestamp> = optional(&mut wire, "last_read")?;
        let latest: Option<Message> = optional(&mut wire, "latest")?;
        let members: Option<Vec<UserId>> = optional(&mut wire, "members")?;
        let name: Option<String> = optional(&mut wire, "name")?;
        let unread_count: Option<i32> = optional(&mut wire, "unread_count")?;
        let unread_count_display: Option<i32> = optional(&mut wire, "unread_count_display")?;
        Ok(Mpim { created, creator, id, is_group, is_mpim, last_read, latest, members, name, unread_count, unread_count_display })
    }
}

#[derive(Clone, Debug, PartialEq)]
pub struct Paging {
    pub count: Option<i32>,
    pub page: Option<i32>,
    pub pages: Option<i32>,
    pub total: Option<i32>,
}

impl Paging {
    /// Whether `v` decodes as the record: an object whose fields read in order.
    #[verifier::opaque]
    pub open spec fn spec_accepts(v: JsonValue) -> bool {
        match v {
            JsonValue::Object(w) => {
                let left0 = w@;
                let left1 = taken(left0, "count"@);
                let left2 = taken(left1, "page"@);
                let left3 = taken(left2, "pages"@);
                &&& optional_ok::<i32>(left0, "count"@)
                &&& optional_ok::<i32>(left1, "page"@)
                &&& optional_ok::<i32>(left2, "pages"@)
                &&& optional_ok::<i32>(left3, "total"@)
            },
            _ => false,
        }
    }

    /// Whether `x` holds what the fields of `v` read as.
    #[verifier::opaque]
    pub open spec fn spec_decodes_to(v: JsonValue, x: Paging) -> bool {
        match v {
            JsonValue::Object(w) => {
                let left0 = w@;
                let left1 = taken(left0, "count"@);
                let left2 = taken(left1, "page"@);
                let left3 = taken(left2, "pages"@);
                &&& optional_value::<i32>(left0, "count"@, x.count)
                &&& optional_value::<i32>(left1, "page"@, x.page)
                &&& optional_value::<i32>(left2, "pages"@, x.pages)
                &&& optional_value::<i32>(left3, "total"@, x.total)
            },
            _ => false,
        }
    }

    /// Whether `e` is the error of the first check or field that fails on `v`.
    #[verifier::opaque]
    pub open spec fn spec_rejects_with(v: JsonValue, e: DecodeError) -> bool {
        match v {
            JsonValue::Object(w) => {
                let left0 = w@;
                let left1 = taken(left0, "count"@);
                let left2 = taken(left1, "page"@);
                let left3 = taken(left2, "pages"@);
                if !optional_ok::<i32>(left0, "count"@) {
                    field_failed::<i32>(left0, "count"@, e)
                } else if !optional_ok::<i32>(left1, "page"@) {
                    field_failed::<i32>(left1, "page"@, e)
                } else if !optional_ok::<i32>(left2, "pages"@) {
                    field_failed::<i32>(left2, "pages"@, e)
                } else if !optional_ok::<i32>(left3, "total"@) {
                    field_failed::<i32>(left3, "total"@, e)
                } else {
                    false
                }
            },
            _ => e == (DecodeError::WrongType { expected: "object" }),
        }
    }
}

impl Decode for Paging {
    open spec fn accepts(v: JsonValue) -> bool {
        Paging::spec_accepts(v)
    }

    open spec fn decodes_to(v: JsonValue, x: Paging) -> bool {
        Paging::spec_decodes_to(v, x)
    }

    open spec fn rejects_with(v: JsonValue, e: DecodeError) -> bool {
        Paging::spec_rejects_with(v, e)
    }

    fn decode(v: JsonValue) -> Result<Paging, DecodeError> {
        proof {
            reveal(Paging::spec_accepts);
            reveal(Paging::spec_decodes_to);
            reveal(Paging::spec_rejects_with);
        }
        let mut wire = into_fields(v)?;
        let count: Option<i32> = optional(&mut wire, "count")?;
        let page: Option<i32> = optional(&mut wire, "page")?;
        let pages: Option<i32> = optional(&mut wire, "pages")?;
        let total: Option<i32> = optional(&mut wire, "total")?;
        Ok(Paging { count, page, pages, total })
    }
}

#[derive(Clone, Debug, PartialEq)]
pub struct Reaction {
    pub count: Option<i32>,
    pub name: String,
    pub users: Option<Vec<UserId>>,
}

impl Reaction {
    /// Whether `v` decodes as the record: an object whose fields read in order.
    #[verifier::opaque]
    pub open spec fn spec_accepts(v: JsonValue) -> bool {
        match v {
            JsonValue::Object(w) => {
                let left0 = w@;
                let left1 = taken(left0, "count"@);
                let left2 = taken(left1, "name"@);
                &&& optional_ok::<i32>(left0, "count"@)
                &&& required_ok::<String>(left1, "name"@)
                &&& optional_ok::<Vec<UserId>>(left2, "users"@)
            },
            _ => false,
        }
    }

    /// Whether `x` holds what the fields of `v` read as.
    #[verifier::opaque]
    pub open spec fn spec_decodes_to(v: JsonValue, x: Reaction) -> bool {
        match v {
            JsonValue::Object(w) => {
                let left0 = w@;
                let left1 = taken(left0, "count"@);
                let left2 = taken(left1, "name"@);
                &&& optional_value::<i32>(left0, "count"@, x.count)
                &&& <String as Decode>::decodes_to(value_of(left1, "name"@), x.name)
                &&& optional_value::<Vec<UserId>>(left2, "users"@, x.users)
            },
            _ => false,
        }
    }

    /// Whether `e` is the error of the first check or field that fails on `v`.
    #[verifier::opaque]
    pub open spec fn spec_rejects_with(v: JsonValue, e: DecodeError) -> bool {
        match v {
            JsonValue::Object(w) => {
                let left0 = w@;
                let left1 = taken(left0, "count"@);
                let left2 = taken(left1, "name"@);
                if !optional_ok::<i32>(left0, "count"@) {
                    field_failed::<i32>(left0, "count"@, e)
                } else if !required_ok::<String>(left1, "name"@) {
                    required_err::<String>(left1, "name"@, e)
                } else if !optional_ok::<Vec<UserId>>(left2, "users"@) {
                    field_failed::<Vec<UserId>>(left2, "users"@, e)
                } else {
                    false
                }
            },
            _ => e == (DecodeError::WrongType { expected: "object" }),
        }
    }
}

impl Decode for Reaction {
    open spec fn accepts(v: JsonValue) -> bool {
        Reaction::spec_accepts(v)
    }

    open spec fn decodes_to(v: JsonValue, x: Reaction) -> bool {
        Reaction::spec_decodes_to(v, x)
    }

    open spec fn rejects_with(v: JsonValue, e: DecodeError) -> bool {
        Reaction::spec_rejects_with(v, e)
    }

    fn decode(v: JsonValue) -> Result<Reaction, DecodeError> {
        proof {
            reveal(Reaction::spec_accepts);
            reveal(Reaction::spec_decodes_to);
            reveal(Reaction::spec_rejects_with);
        }
        let mut wire = into_fields(v)?;
        let count: Option<i32> = optional(&mut wire, "count")?;
        let name: String = required(&mut wire, "name")?;
        let users: Option<Vec<UserId>> = optional(&mut wire, "users")?;
        Ok(Reaction { count, name, users })
    }
}

#[derive(Clone, Debug, PartialEq)]
pub struct Reminder {
    pub complete_ts: Option<Number>,
    pub creator: Option<String>,
    pub id: Option<String>,
    pub recurring: Option<bool>,
    pub text: String,
    pub time: Option<Number>,
    pub user: Option<UserId>,
}

impl Reminder {
    /// Whether `v` decodes as the record: an object whose fields read in order.
    #[verifier::opaque]
    pub open spec fn spec_accepts(v: JsonValue) -> bool {
        match v {
            JsonValue::Object(w) => {
                let left0 = w@;
                let left1 = taken(left0, "complete_ts"@);
                let left2 = taken(left1, "creator"@);
                let left3 = taken(left2, "id"@);
                let left4 = taken(left3, "recurring"@);
                let left5 = taken(left4, "text"@);
                let left6 = taken(left5, "time"@);
                &&& optional_ok::<Number>(left0, "complete_ts"@)
                &&& optional_ok::<String>(left1, "creator"@)
                &&& optional_ok::<String>(left2, "id"@)
                &&& optional_ok::<bool>(left3, "recurring"@)
                &&& text_ok(left4, "text"@)
                &&& optional_ok::<Number>(left5, "time"@)
                &&& optional_ok::<UserId>(left6, "user"@)
            },
            _ => false,
        }
    }

    /// Whether `x` holds what the fields of `v` read as.
    #[verifier::opaque]
    pub open spec fn spec_decodes_to(v: JsonValue, x: Reminder) -> bool {
        match v {
            JsonValue::Object(w) => {
                let left0 = w@;
                let left1 = taken(left0, "complete_ts"@);
                let left2 = taken(left1, "creator"@);
                let left3 = taken(left2, "id"@);
                let left4 = taken(left3, "recurring"@);
                let left5 = taken(left4, "text"@);
                let left6 = taken(left5, "time"@);
                &&& optional_value::<Number>(left0, "complete_ts"@, x.complete_ts)
                &&& optional_value::<String>(left1, "creator"@, x.creator)
                &&& optional_value::<String>(left2, "id"@, x.id)
                &&& optional_value::<bool>(left3, "recurring"@, x.recurring)
                &&& text_value(left4, "text"@, x.text)
                &&& optional_value::<Number>(left5, "time"@, x.time)
                &&& optional_value::<UserId>(left6, "user"@, x.user)
            },
            _ => false,
        }
    }

    /// Whether `e` is the error of the first check or field that fails on `v`.
    #[verifier::opaque]
    pub open spec fn spec_rejects_with(v: JsonValue, e: DecodeError) -> bool {
        match v {
            JsonValue::Object(w) => {
                let left0 = w@;
                let left1 = taken(left0, "complete_ts"@);
                let left2 = taken(left1, "creator"@);
                let left3 = taken(left2, "id"@);
                let left4 = taken(left3, "recurring"@);
                let left5 = taken(left4, "text"@);
                let left6 = taken(left5, "time"@);
                if !optional_ok::<Number>(left0, "complete_ts"@) {
                    field_failed::<Number>(left0, "complete_ts"@, e)
                } else if !optional_ok::<String>(left1, "creator"@) {
                    field_failed::<String>(left1, "creator"@, e)
                } else if !optional_ok::<String>(left2, "id"@) {
                    field_failed::<String>(left2, "id"@, e)
                } else if !optional_ok::<bool>(left3, "recurring"@) {
                    field_failed::<bool>(left3, "recurring"@, e)
                } else if !text_ok(left4, "text"@) {
                    field_failed::<String>(left4, "text"@, e)
                } else if !optional_ok::<Number>(left5, "time"@) {
                    field_failed::<Number>(left5, "time"@, e)
                } else if !optional_ok::<UserId>(left6, "user"@) {
                    field_failed::<UserId>(left6, "user"@, e)
                } else {
                    false
                }
            },
            _ => e == (DecodeError::WrongType { expected: "object" }),
        }
    }
}

impl Decode for Reminder {
    open spec fn accepts(v: JsonValue) -> bool {
        Reminder::spec_accepts(v)
    }

    open spec fn decodes_to(v: JsonValue, x: Reminder) -> bool {
        Reminder::spec_decodes_to(v, x)
    }

    open spec fn rejects_with(v: JsonValue, e: DecodeError) -> bool {
        Reminder::spec_rejects_with(v, e)
    }

    fn decode(v: JsonValue) -> Result<Reminder, DecodeError> {
        proof {
            reveal(Reminder::spec_accepts);
            reveal(Reminder::spec_decodes_to);
            reveal(Reminder::spec_rejects_with);
        }
        let mut wire = into_fields(v)?;
        let complete_ts: Option<Number> = optional(&mut wire, "complete_ts")?;
        let creator: Option<String> = optional(&mut wire, "creator")?;
        let id: Option<String> = optional(&mut wire, "id")?;
        let recurring: Option<bool> = optional(&mut wire, "recurring")?;
        let text: String = text_or_empty(&mut wire, "text")?;
        let time: Option<Number> = optional(&mut wire, "time")?;
        let user: Option<UserId> = optional(&mut wire, "user")?;
        Ok(Reminder { complete_ts, creator, id, recurring, text, time, user })
    }
}

#[derive(Clone, Debug, PartialEq)]
pub struct Team {
    pub domain: Option<String>,
    pub email_domain: Option<String>,
    pub icon: Option<TeamIcon>,
    pub id: Option<String>,
    pub name: Option<String>,
}

impl Team {
    /// Whether `v` decodes as the record: an object whose fields read in order.
    #[verifier::opaque]
    pub open spec fn spec_accepts(v: JsonValue) -> bool {
        match v {
            JsonValue::Object(w) => {
                let left0 = w@;
                let left1 = taken(left0, "domain"@);
                let left2 = taken(left1, "email_domain"@);
                let left3 = taken(left2, "icon"@);
                let left4 = taken(left3, "id"@);
                &&& optional_ok::<String>(left0, "domain"@)
                &&& optional_ok::<String>(left1, "email_domain"@)
                &&& optional_ok::<TeamIcon>(left2, "icon"@)
                &&& optional_ok::<String>(left3, "id"@)
                &&& optional_ok::<String>(left4, "name"@)
            },
            _ => false,
        }
    }

    /// Whether `x` holds what the fields of `v` read as.
    #[verifier::opaque]
    pub open spec fn spec_decodes_to(v: JsonValue, x: Team) -> bool {
        match v {
            JsonValue::Object(w) => {
                let left0 = w@;
                let left1 = taken(left0, "domain"@);
                let left2 = taken(left1, "email_domain"@);
                let left3 = taken(left2, "icon"@);
                let left4 = taken(left3, "id"@);
                &&& optional_value::<String>(left0, "domain"@, x.domain)
                &&& optional_value::<String>(left1, "email_domain"@, x.email_domain)
                &&& optional_value::<TeamIcon>(left2, "icon"@, x.icon)
                &&& optional_value::<String>(left3, "id"@, x.id)
                &&& optional_value::<String>(left4, "name"@, x.name)
            },
            _ => false,
        }
    }

    /// Whether `e` is the error of the first check or field that fails on `v`.
    #[verifier::opaque]
    pub open spec fn spec_rejects_with(v: JsonValue, e: DecodeError) -> bool {
        match v {
            JsonValue::Object(w) => {
                let left0 = w@;
                let left1 = taken(left0, "domain"@);
                let left2 = taken(left1, "email_domain"@);
                let left3 = taken(left2, "icon"@);
                let left4 = taken(left3, "id"@);
                if !optional_ok::<String>(left0, "domain"@) {
                    field_failed::<String>(left0, "domain"@, e)
                } else if !optional_ok::<String>(left1, "email_domain"@) {
                    field_failed::<String>(left1, "email_domain"@, e)
                } else if !optional_ok::<TeamIcon>(left2, "icon"@) {
                    field_failed::<TeamIcon>(left2, "icon"@, e)
                } else if !optional_ok::<String>(left3, "id"@) {
                    field_failed::<String>(left3, "id"@, e)
                } else if !optional_ok::<String>(left4, "name"@) {
                    field_failed::<String>(left4, "name"@, e)
                } else {
                    false
                }
            },
            _ => e == (DecodeError::WrongType { expected: "object" }),
        }
    }
}

impl Decode for Team {
    open spec fn accepts(v: JsonValue) -> bool {
        Team::spec_accepts(v)
    }

    open spec fn decodes_to(v: JsonValue, x: Team) -> bool {
        Team::spec_decodes_to(v, x)
    }

    open spec fn rejects_with(v: JsonValue, e: DecodeError) -> bool {
        Team::spec_rejects_with(v, e)
    }

    fn decode(v: JsonValue) -> Result<Team, DecodeError> {
        proof {
            reveal(Team::spec_accepts);
            reveal(Team::spec_decodes_to);
            reveal(Team::spec_rejects_with);
        }
        let mut wire = into_fields(v)?;
        let domain: Option<String> = optional(&mut wire, "domain")?;
        let email_domain: Option<String> = optional(&mut wire, "email_domain")?;
        let icon: Option<TeamIcon> = optional(&mut wire, "icon")?;
        let id: Option<String> = optional(&mut wire, "id")?;
        let name: Option<String> = optional(&mut wire, "name")?;
        Ok(Team { domain, email_domain, icon, id, name })
    }
}

#[derive(Clone, Debug, PartialEq)]
pub struct TeamIcon {
    pub image_102: Option<String>,
    pub image_132: Option<String>,
    pub image_34: Option<String>,
    pub image_44: Option<String>,
    pub image_68: Option<String>,
    pub image_88: Option<String>,
    pub image_default: Option<bool>,
}

impl TeamIcon {
    /// Whether `v` decodes as the record: an object whose fields read in order.
    #[verifier::opaque]
    pub open spec fn spec_accepts(v: JsonValue) -> bool {
        match v {
            JsonValue::Object(w) => {
                let left0 = w@;
                let left1 = taken(left0, "image_102"@);
                let left2 = taken(left1, "image_132"@);
                let left3 = taken(left2, "image_34"@);
                let left4 = taken(left3, "image_44"@);
                let left5 = taken(left4, "image_68"@);
                let left6 = taken(left5, "image_88"@);
                &&& optional_ok::<String>(left0, "image_102"@)
                &&& optional_ok::<String>(left1, "image_132"@)
                &&& optional_ok::<String>(left2, "image_34"@)
                &&& optional_ok::<String>(left3, "image_44"@)
                &&& optional_ok::<String>(left4, "image_68"@)
                &&& optional_ok::<String>(left5, "image_88"@)
                &&& optional_ok::<bool>(left6, "image_default"@)
            },
            _ => false,
        }
    }

    /// Whether `x` holds what the fields of `v` read as.
    #[verifier::opaque]
    pub open spec fn spec_decodes_to(v: JsonValue, x: TeamIcon) -> bool {
        match v {
            JsonValue::Object(w) => {
                let left0 = w@;
                let left1 = taken(left0, "image_102"@);
                let left2 = taken(left1, "image_132"@);
                let left3 = taken(left2, "image_34"@);
                let left4 = taken(left3, "image_44"@);
                let left5 = taken(left4, "image_68"@);
                let left6 = taken(left5, "image_88"@);
                &&& optional_value::<String>(left0, "image_102"@, x.image_102)
                &&& optional_value::<String>(left1, "image_132"@, x.image_132)
                &&& optional_value::<String>(left2, "image_34"@, x.image_34)
                &&& optional_value::<String>(left3, "image_44"@, x.image_44)
                &&& optional_value::<String>(left4, "image_68"@, x.image_68)
                &&& optional_value::<String>(left5, "image_88"@, x.image_88)
                &&& optional_value::<bool>(left6, "image_default"@, x.image_default)
            },
            _ => false,
        }
    }

    /// Whether `e` is the error of the first check or field that fails on `v`.
    #[verifier::opaque]
    pub open spec fn spec_rejects_with(v: JsonValue, e: DecodeError) -> bool {
        match v {
            JsonValue::Object(w) => {
                let left0 = w@;
                let left1 = taken(left0, "image_102"@);
                let left2 = taken(left1, "image_132"@);
                let left3 = taken(left2, "image_34"@);
                let left4 = taken(left3, "image_44"@);
                let left5 = taken(left4, "image_68"@);
                let left6 = taken(left5, "image_88"@);
                if !optional_ok::<String>(left0, "image_102"@) {
                    field_failed::<String>(left0, "image_102"@, e)
                } else if !optional_ok::<String>(left1, "image_132"@) {
                    field_failed::<String>(left1, "image_132"@, e)
                } else if !optional_ok::<String>(left2, "image_34"@) {
                    field_failed::<String>(left2, "image_34"@, e)
                } else if !optional_ok::<String>(left3, "image_44"@) {
                    field_failed::<String>(left3, "image_44"@, e)
                } else if !optional_ok::<String>(left4, "image_68"@) {
                    field_failed::<String>(left4, "image_68"@, e)
                } else if !optional_ok::<String>(left5, "image_88"@) {
                    field_failed::<String>(left5, "image_88"@, e)
                } else if !optional_ok::<bool>(left6, "image_default"@) {
                    field_failed::<bool>(left6, "image_default"@, e)
                } else {
                    false
                }
            },
            _ => e == (DecodeError::WrongType { expected: "object" }),
        }
    }
}

impl Decode for TeamIcon {
    open spec fn accepts(v: JsonValue) -> bool {
        TeamIcon::spec_accepts(v)
    }

    open spec fn decodes_to(v: JsonValue, x: TeamIcon) -> bool {
        TeamIcon::spec_decodes_to(v, x)
    }

    open spec fn rejects_with(v: JsonValue, e: DecodeError) -> bool {
        TeamIcon::spec_rejects_with(v, e)
    }

    fn decode(v: JsonValue) -> Result<TeamIcon, DecodeError> {
        proof {
            reveal(TeamIcon::spec_accepts);
            reveal(TeamIcon::spec_decodes_to);
            reveal(TeamIcon::spec_rejects_with);
        }
        let mut wire = into_fields(v)?;
        let image_102: Option<String> = optional(&mut wire, "image_102")?;
        let image_132: Option<String> = optional(&mut wire, "image_132")?;
        let image_34: Option<String> = optional(&mut wire, "image_34")?;
        let image_44: Option<String> = optional(&mut wire, "image_44")?;
        let image_68: Option<String> = optional(&mut wire, "image_68")?;
        let image_88: Option<String> = optional(&mut wire, "image_88")?;
        let image_default: Option<bool> = optional(&mut wire, "image_default")?;
        Ok(TeamIcon { image_102, image_132, image_34, image_44, image_68, image_88, image_default })
    }
}

#[derive(Clone, Debug, PartialEq)]
pub struct ThreadInfo {
    pub complete: Option<bool>,
    pub count: Option<i32>,
}

impl ThreadInfo {
    /// Whether `v` decodes as the record: an object whose fields read in order.
    #[verifier::opaque]
    pub open spec fn spec_accepts(v: JsonValue) -> bool {
        match v {
            JsonValue::Object(w) => {
                let left0 = w@;
                let left1 = taken(left0, "complete"@);
                &&& optional_ok::<bool>(left0, "complete"@)
                &&& optional_ok::<i32>(left1, "count"@)
            },
            _ => false,
        }
    }

    /// Whether `x` holds what the fields of `v` read as.
    #[verifier::opaque]
    pub open spec fn spec_decodes_to(v: JsonValue, x: ThreadInfo) -> bool {
        match v {
            JsonValue::Object(w) => {
                let left0 = w@;
                let left1 = taken(left0, "complete"@);
                &&& optional_value::<bool>(left0, "complete"@, x.complete)
                &&& optional_value::<i32>(left1, "count"@, x.count)
            },
            _ => false,
        }
    }

    /// Whether `e` is the error of the first check or field that fails on `v`.
    #[verifier::opaque]
    pub open spec fn spec_rejects_with(v: JsonValue, e: DecodeError) -> bool {
        match v {
            JsonValue::Object(w) => {
                let left0 = w@;
                let left1 = taken(left0, "complete"@);
                if !optional_ok::<bool>(left0, "complete"@) {
                    field_failed::<bool>(left0, "complete"@, e)
                } else if !optional_ok::<i32>(left1, "count"@) {
                    field_failed::<i32>(left1, "count"@, e)
                } else {
                    false
                }
            },
            _ => e == (DecodeError::WrongType { expected: "object" }),
        }
    }
}

impl Decode for ThreadInfo {
    open spec fn accepts(v: JsonValue) -> bool {
        ThreadInfo::spec_accepts(v)
    }

    open spec fn decodes_to(v: JsonValue, x: ThreadInfo) -> bool {
        ThreadInfo::spec_decodes_to(v, x)
    }

    open spec fn rejects_with(v: JsonValue, e: DecodeError) -> bool {
        ThreadInfo::spec_rejects_with(v, e)
    }

    fn decode(v: JsonValue) -> Result<ThreadInfo, DecodeError> {
        proof {
            reveal(ThreadInfo::spec_accepts);
            reveal(ThreadInfo::spec_decodes_to);
            reveal(ThreadInfo::spec_rejects_with);
        }
        let mut wire = into_fields(v)?;
        let complete: Option<bool> = optional(&mut wire, "complete")?;
        let count: Option<i32> = optional(&mut wire, "count")?;
        Ok(ThreadInfo { complete, count })
    }
}

#[derive(Clone, Debug, PartialEq)]
pub struct User {
    pub color: Option<String>,
    pub deleted: Option<bool>,
    pub has_2fa: Option<bool>,
    pub id: UserId,
    pub is_admin: Option<bool>,
    pub is_app_user: Option<bool>,
    pub is_bot: Option<bool>,
    pub is_owner: Option<bool>,
    pub is_primary_owner: Option<bool>,
    pub is_restricted: Option<bool>,
    pub is_ultra_restricted: Option<bool>,
    pub locale: Option<String>,
    pub name: String,
    pub profile: Option<UserProfile>,
    pub real_name: Option<String>,
    pub team_id: Option<String>,
    pub two_factor_type: Option<String>,
    pub tz: Option<String>,
    pub tz_label: Option<String>,
    pub tz_offset: Option<Number>,
    pub updated: Option<Number>,
}

impl User {
    /// The fields the record declares; it admits no others.
    pub open spec fn declared_fields() -> Seq<&'static str> {
        seq!["color", "deleted", "has_2fa", "id", "is_admin", "is_app_user", "is_bot", "is_owner", "is_primary_owner", "is_restricted", "is_ultra_restricted", "locale", "name", "profile", "real_name", "team_id", "two_factor_type", "tz", "tz_label", "tz_offset", "updated"]
    }
}

impl User {
    /// Whether `v` decodes as the record: an object whose fields read in order.
    #[verifier::opaque]
    pub open spec fn spec_accepts(v: JsonValue) -> bool {
        match v {
            JsonValue::Object(w) => {
                let left0 = w@;
                let left1 = taken(left0, "color"@);
                let left2 = taken(left1, "deleted"@);
                let left3 = taken(left2, "has_2fa"@);
                let left4 = taken(left3, "id"@);
                let left5 = taken(left4, "is_admin"@);
                let left6 = taken(left5, "is_app_user"@);
                let left7 = taken(left6, "is_bot"@);
                let left8 = taken(left7, "is_owner"@);
                let left9 = taken(left8, "is_primary_owner"@);
                let left10 = taken(left9, "is_restricted"@);
                let left11 = taken(left10, "is_ultra_restricted"@);
                let left12 = taken(left11, "locale"@);
                let left13 = taken(left12, "name"@);
                let left14 = taken(left13, "profile"@);
                let left15 = taken(left14, "real_name"@);
                let left16 = taken(left15, "team_id"@);
                let left17 = taken(left16, "two_factor_type"@);
                let left18 = taken(left17, "tz"@);
                let left19 = taken(left18, "tz_label"@);
                let left20 = taken(left19, "tz_offset"@);
                &&& all_known(left0, User::declared_fields())
                &&& optional_ok::<String>(left0, "color"@)
                &&& optional_ok::<bool>(left1, "deleted"@)
                &&& optional_ok::<bool>(left2, "has_2fa"@)
                &&& required_ok::<UserId>(left3, "id"@)
                &&& optional_ok::<bool>(left4, "is_admin"@)
                &&& optional_ok::<bool>(left5, "is_app_user"@)
                &&& optional_ok::<bool>(left6, "is_bot"@)
                &&& optional_ok::<bool>(left7, "is_owner"@)
                &&& optional_ok::<bool>(left8, "is_primary_owner"@)
                &&& optional_ok::<bool>(left9, "is_restricted"@)
                &&& optional_ok::<bool>(left10, "is_ultra_restricted"@)
                &&& optional_ok::<String>(left11, "locale"@)
                &&& required_ok::<String>(left12, "name"@)
                &&& optional_ok::<UserProfile>(left13, "profile"@)
                &&& optional_ok::<String>(left14, "real_name"@)
                &&& optional_ok::<String>(left15, "team_id"@)
                &&& optional_ok::<String>(left16, "two_factor_type"@)
                &&& optional_ok::<String>(left17, "tz"@)
                &&& optional_ok::<String>(left18, "tz_label"@)
                &&& optional_ok::<Number>(left19, "tz_offset"@)
                &&& optional_ok::<Number>(left20, "updated"@)
            },
            _ => false,
        }
    }

    /// Whether `x` holds what the fields of `v` read as.
    #[verifier::opaque]
    pub open spec fn spec_decodes_to(v: JsonValue, x: User) -> bool {
        match v {
            JsonValue::Object(w) => {
                let left0 = w@;
                let left1 = taken(left0, "color"@);
                let left2 = taken(left1, "deleted"@);
                let left3 = taken(left2, "has_2fa"@);
                let left4 = taken(left3, "id"@);
                let left5 = taken(left4, "is_admin"@);
                let left6 = taken(left5, "is_app_user"@);
                let left7 = taken(left6, "is_bot"@);
                let left8 = taken(left7, "is_owner"@);
                let left9 = taken(left8, "is_primary_owner"@);
                let left10 = taken(left9, "is_restricted"@);
                let left11 = taken(left10, "is_ultra_restricted"@);
                let left12 = taken(left11, "locale"@);
                let left13 = taken(left12, "name"@);
                let left14 = taken(left13, "profile"@);
                let left15 = taken(left14, "real_name"@);
                let left16 = taken(left15, "team_id"@);
                let left17 = taken(left16, "two_factor_type"@);
                let left18 = taken(left17, "tz"@);
                let left19 = taken(left18, "tz_label"@);
                let left20 = taken(left19, "tz_offset"@);
                &&& optional_value::<String>(left0, "color"@, x.color)
                &&& optional_value::<bool>(left1, "deleted"@, x.deleted)
                &&& optional_value::<bool>(left2, "has_2fa"@, x.has_2fa)
                &&& <UserId as Decode>::decodes_to(value_of(left3, "id"@), x.id)
                &&& optional_value::<bool>(left4, "is_admin"@, x.is_admin)
                &&& optional_value::<bool>(left5, "is_app_user"@, x.is_app_user)
                &&& optional_value::<bool>(left6, "is_bot"@, x.is_bot)
                &&& optional_value::<bool>(left7, "is_owner"@, x.is_owner)
                &&& optional_value::<bool>(left8, "is_primary_owner"@, x.is_primary_owner)
                &&& optional_value::<bool>(left9, "is_restricted"@, x.is_restricted)
                &&& optional_value::<bool>(left10, "is_ultra_restricted"@, x.is_ultra_restricted)
                &&& optional_value::<String>(left11, "locale"@, x.locale)
                &&& <String as Decode>::decodes_to(value_of(left12, "name"@), x.name)
                &&& optional_value::<UserProfile>(left13, "profile"@, x.profile)
                &&& optional_value::<String>(left14, "real_name"@, x.real_name)
                &&& optional_value::<String>(left15, "team_id"@, x.team_id)
                &&& optional_value::<String>(left16, "two_factor_type"@, x.two_factor_type)
                &&& optional_value::<String>(left17, "tz"@, x.tz)
                &&& optional_value::<String>(left18, "tz_label"@, x.tz_label)
                &&& optional_value::<Number>(left19, "tz_offset"@, x.tz_offset)
                &&& optional_value::<Number>(left20, "updated"@, x.updated)
            },
            _ => false,
        }
    }

    /// Whether `e` is the error of the first check or field that fails on `v`.
    #[verifier::opaque]
    pub open spec fn spec_rejects_with(v: JsonValue, e: DecodeError) -> bool {
        match v {
            JsonValue::Object(w) => {
                let left0 = w@;
                let left1 = taken(left0, "color"@);
                let left2 = taken(left1, "deleted"@);
                let left3 = taken(left2, "has_2fa"@);
                let left4 = taken(left3, "id"@);
                let left5 = taken(left4, "is_admin"@);
                let left6 = taken(left5, "is_app_user"@);
                let left7 = taken(left6, "is_bot"@);
                let left8 = taken(left7, "is_owner"@);
                let left9 = taken(left8, "is_primary_owner"@);
                let left10 = taken(left9, "is_restricted"@);
                let left11 = taken(left10, "is_ultra_restricted"@);
                let left12 = taken(left11, "locale"@);
                let left13 = taken(left12, "name"@);
                let left14 = taken(left13, "profile"@);
                let left15 = taken(left14, "real_name"@);
                let left16 = taken(left15, "team_id"@);
                let left17 = taken(left16, "two_factor_type"@);
                let left18 = taken(left17, "tz"@);
                let left19 = taken(left18, "tz_label"@);
                let left20 = taken(left19, "tz_offset"@);
                if !all_known(left0, User::declared_fields()) {
                    e == (DecodeError::UnknownField { field: first_unknown_key(left0, User::declared_fields()) })
                } else if !optional_ok::<String>(left0, "color"@) {
                    field_failed::<String>(left0, "color"@, e)
                } else if !optional_ok::<bool>(left1, "deleted"@) {
                    field_failed::<bool>(left1, "deleted"@, e)
                } else if !optional_ok::<bool>(left2, "has_2fa"@) {
                    field_failed::<bool>(left2, "has_2fa"@, e)
                } else if !required_ok::<UserId>(left3, "id"@) {
                    required_err::<UserId>(left3, "id"@, e)
                } else if !optional_ok::<bool>(left4, "is_admin"@) {
                    field_failed::<bool>(left4, "is_admin"@, e)
                } else if !optional_ok::<bool>(left5, "is_app_user"@) {
                    field_failed::<bool>(left5, "is_app_user"@, e)
                } else if !optional_ok::<bool>(left6, "is_bot"@) {
                    field_failed::<bool>(left6, "is_bot"@, e)
                } else if !optional_ok::<bool>(left7, "is_owner"@) {
                    field_failed::<bool>(left7, "is_owner"@, e)
                } else if !optional_ok::<bool>(left8, "is_primary_owner"@) {
                    field_failed::<bool>(left8, "is_primary_owner"@, e)
                } else if !optional_ok::<bool>(left9, "is_restricted"@) {
                    field_failed::<bool>(left9, "is_restricted"@, e)
                } else if !optional_ok::<bool>(left10, "is_ultra_restricted"@) {
                    field_failed::<bool>(left10, "is_ultra_restricted"@, e)
                } else if !optional_ok::<String>(left11, "locale"@) {
                    field_failed::<String>(left11, "locale"@, e)
                } else if !required_ok::<String>(left12, "name"@) {
                    required_err::<String>(left12, "name"@, e)
                } else if !optional_ok::<UserProfile>(left13, "profile"@) {
                    field_failed::<UserProfile>(left13, "profile"@, e)
                } else if !optional_ok::<String>(left14, "real_name"@) {
                    field_failed::<String>(left14, "real_name"@, e)
                } else if !optional_ok::<String>(left15, "team_id"@) {
                    field_failed::<String>(left15, "team_id"@, e)
                } else if !optional_ok::<String>(left16, "two_factor_type"@) {
                    field_failed::<String>(left16, "two_factor_type"@, e)
                } else if !optional_ok::<String>(left17, "tz"@) {
                    field_failed::<String>(left17, "tz"@, e)
                } else if !optional_ok::<String>(left18, "tz_label"@) {
                    field_failed::<String>(left18, "tz_label"@, e)
                } else if !optional_ok::<Number>(left19, "tz_offset"@) {
                    field_failed::<Number>(left19, "tz_offset"@, e)
                } else if !optional_ok::<Number>(left20, "updated"@) {
                    field_failed::<Number>(left20, "updated"@, e)
                } else {
                    false
                }
            },
            _ => e == (DecodeError::WrongType { expected: "object" }),
        }
    }
}

impl Decode for User {
    open spec fn accepts(v: JsonValue) -> bool {
        User::spec_accepts(v)
    }

    open spec fn decodes_to(v: JsonValue, x: User) -> bool {
        User::spec_decodes_to(v, x)
    }

    open spec fn rejects_with(v: JsonValue, e: DecodeError) -> bool {
        User::spec_rejects_with(v, e)
    }

    fn decode(v: JsonValue) -> Result<User, DecodeError> {
        proof {
            reveal(User::spec_accepts);
            reveal(User::spec_decodes_to);
            reveal(User::spec_rejects_with);
        }
        let mut wire = into_fields(v)?;
        let known: &[&str] = &["color", "deleted", "has_2fa", "id", "is_admin", "is_app_user", "is_bot", "is_owner", "is_primary_owner", "is_restricted", "is_ultra_restricted", "locale", "name", "profile", "real_name", "team_id", "two_factor_type", "tz", "tz_label", "tz_offset", "updated"];
        assert(known@ =~= User::declared_fields());
        check_fields(&wire, known)?;
        let color: Option<String> = optional(&mut wire, "color")?;
        let deleted: Option<bool> = optional(&mut wire, "deleted")?;
        let has_2fa: Option<bool> = optional(&mut wire, "has_2fa")?;
        let id: UserId = required(&mut wire, "id")?;
        let is_admin: Option<bool> = optional(&mut wire, "is_admin")?;
        let is_app_user: Option<bool> = optional(&mut wire, "is_app_user")?;
        let is_bot: Option<bool> = optional(&mut wire, "is_bot")?;
        let is_owner: Option<bool> = optional(&mut wire, "is_owner")?;
        let is_primary_owner: Option<bool> = optional(&mut wire, "is_primary_owner")?;
        let is_restricted: Option<bool> = optional(&mut wire, "is_restricted")?;
        let is_ultra_restricted: Option<bool> = optional(&mut wire, "is_ultra_restricted")?;
        let locale: Option<String> = optional(&mut wire, "locale")?;
        let name: String = required(&mut wire, "name")?;
        let profile: Option<UserProfile> = optional(&mut wire, "profile")?;
        let real_name: Option<String> = optional(&mut wire, "real_name")?;
        let team_id: Option<String> = optional(&mut wire, "team_id")?;
        let two_factor_type: Option<String> = optional(&mut wire, "two_factor_type")?;
        let tz: Option<String> = optional(&mut wire, "tz")?;
        let tz_label: Option<String> = optional(&mut wire, "tz_label")?;
        let tz_offset: Option<Number> = optional(&mut wire, "tz_offset")?;
        let updated: Option<Number> = optional(&mut wire, "updated")?;
        Ok(User { color, deleted, has_2fa, id, is_admin, is_app_user, is_bot, is_owner, is_primary_owner, is_restricted, is_ultra_restricted, locale, name, profile, real_name, team_id, two_factor_type, tz, tz_label, tz_offset, updated })
    }
}

#[derive(Clone, Debug, PartialEq)]
pub struct Usergroup {
    pub auto_type: Option<String>,
    pub created_by: Option<String>,
    pub date_create: Option<i32>,
    pub date_delete: Option<i32>,
    pub date_update: Option<i32>,
    pub deleted_by: Option<String>,
    pub description: Option<String>,
    pub handle: Option<String>,
    pub id: Option<String>,
    pub is_external: Option<bool>,
    pub is_usergroup: Option<bool>,
    pub name: Option<String>,
    pub prefs: Option<UsergroupPrefs>,
    pub team_id: Option<String>,
    pub updated_by: Option<String>,
    pub user_count: Option<String>,
}

impl Usergroup {
    /// Whether `v` decodes as the record: an object whose fields read in order.
    #[verifier::opaque]
    pub open spec fn spec_accepts(v: JsonValue) -> bool {
        match v {
            JsonValue::Object(w) => {
                let left0 = w@;
                let left1 = taken(left0, "auto_type"@);
                let left2 = taken(left1, "created_by"@);
                let left3 = taken(left2, "date_create"@);
                let left4 = taken(left3, "date_delete"@);
                let left5 = taken(left4, "date_update"@);
                let left6 = taken(left5, "deleted_by"@);
                let left7 = taken(left6, "description"@);
                let left8 = taken(left7, "handle"@);
                let left9 = taken(left8, "id"@);
                let left10 = taken(left9, "is_external"@);
                let left11 = taken(left10, "is_usergroup"@);
                let left12 = taken(left11, "name"@);
                let left13 = taken(left12, "prefs"@);
                let left14 = taken(left13, "team_id"@);
                let left15 = taken(left14, "updated_by"@);
                &&& optional_ok::<String>(left0, "auto_type"@)
                &&& optional_ok::<String>(left1, "created_by"@)
                &&& optional_ok::<i32>(left2, "date_create"@)
                &&& optional_ok::<i32>(left3, "date_delete"@)
                &&& optional_ok::<i32>(left4, "date_update"@)
                &&& optional_ok::<String>(left5, "deleted_by"@)
                &&& optional_ok::<String>(left6, "description"@)
                &&& optional_ok::<String>(left7, "handle"@)
                &&& optional_ok::<String>(left8, "id"@)
                &&& optional_ok::<bool>(left9, "is_external"@)
                &&& optional_ok::<bool>(left10, "is_usergroup"@)
                &&& optional_ok::<String>(left11, "name"@)
                &&& optional_ok::<UsergroupPrefs>(left12, "prefs"@)
                &&& optional_ok::<String>(left13, "team_id"@)
                &&& optional_ok::<String>(left14, "updated_by"@)
                &&& optional_ok::<String>(left15, "user_count"@)
            },
            _ => false,
        }
    }

    /// Whether `x` holds what the fields of `v` read as.
    #[verifier::opaque]
    pub open spec fn spec_decodes_to(v: JsonValue, x: Usergroup) -> bool {
        match v {
            JsonValue::Object(w) => {
                let left0 = w@;
                let left1 = taken(left0, "auto_type"@);
                let left2 = taken(left1, "created_by"@);
                let left3 = taken(left2, "date_create"@);
                let left4 = taken(left3, "date_delete"@);
                let left5 = taken(left4, "date_update"@);
                let left6 = taken(left5, "deleted_by"@);
                let left7 = taken(left6, "description"@);
                let left8 = taken(left7, "handle"@);
                let left9 = taken(left8, "id"@);
                let left10 = taken(left9, "is_external"@);
                let left11 = taken(left10, "is_usergroup"@);
                let left12 = taken(left11, "name"@);
                let left13 = taken(left12, "prefs"@);
                let left14 = taken(left13, "team_id"@);
                let left15 = taken(left14, "updated_by"@);
                &&& optional_value::<String>(left0, "auto_type"@, x.auto_type)
                &&& optional_value::<String>(left1, "created_by"@, x.created_by)
                &&& optional_value::<i32>(left2, "date_create"@, x.date_create)
                &&& optional_value::<i32>(left3, "date_delete"@, x.date_delete)
                &&& optional_value::<i32>(left4, "date_update"@, x.date_update)
                &&& optional_value::<String>(left5, "deleted_by"@, x.deleted_by)
                &&& optional_value::<String>(left6, "description"@, x.description)
                &&& optional_value::<String>(left7, "handle"@, x.handle)
                &&& optional_value::<String>(left8, "id"@, x.id)
                &&& optional_value::<bool>(left9, "is_external"@, x.is_external)
                &&& optional_value::<bool>(left10, "is_usergroup"@, x.is_usergroup)
                &&& optional_value::<String>(left11, "name"@, x.name)
                &&& optional_value::<UsergroupPrefs>(left12, "prefs"@, x.prefs)
                &&& optional_value::<String>(left13, "team_id"@, x.team_id)
                &&& optional_value::<String>(left14, "updated_by"@, x.updated_by)
                &&& optional_value::<String>(left15, "user_count"@, x.user_count)
            },
            _ => false,
        }
    }

    /// Whether `e` is the error of the first check or field that fails on `v`.
    #[verifier::opaque]
    pub open spec fn spec_rejects_with(v: JsonValue, e: DecodeError) -> bool {
        match v {
            JsonValue::Object(w) => {
                let left0 = w@;
                let left1 = taken(left0, "auto_type"@);
                let left2 = taken(left1, "created_by"@);
                let left3 = taken(left2, "date_create"@);
                let left4 = taken(left3, "date_delete"@);
                let left5 = taken(left4, "date_update"@);
                let left6 = taken(left5, "deleted_by"@);
                let left7 = taken(left6, "description"@);
                let left8 = taken(left7, "handle"@);
                let left9 = taken(left8, "id"@);
                let left10 = taken(left9, "is_external"@);
                let left11 = taken(left10, "is_usergroup"@);
                let left12 = taken(left11, "name"@);
                let left13 = taken(left12, "prefs"@);
                let left14 = taken(left13, "team_id"@);
                let left15 = taken(left14, "updated_by"@);
                if !optional_ok::<String>(left0, "auto_type"@) {
                    field_failed::<String>(left0, "auto_type"@, e)
                } else if !optional_ok::<String>(left1, "created_by"@) {
                    field_failed::<String>(left1, "created_by"@, e)
                } else if !optional_ok::<i32>(left2, "date_create"@) {
                    field_failed::<i32>(left2, "date_create"@, e)
                } else if !optional_ok::<i32>(left3, "date_delete"@) {
                    field_failed::<i32>(left3, "date_delete"@, e)
                } else if !optional_ok::<i32>(left4, "date_update"@) {
                    field_failed::<i32>(left4, "date_update"@, e)
                } else if !optional_ok::<String>(left5, "deleted_by"@) {
                    field_failed::<String>(left5, "deleted_by"@, e)
                } else if !optional_ok::<String>(left6, "description"@) {
                    field_failed::<String>(left6, "description"@, e)
                } else if !optional_ok::<String>(left7, "handle"@) {
                    field_failed::<String>(left7, "handle"@, e)
                } else if !optional_ok::<String>(left8, "id"@) {
                    field_failed::<String>(left8, "id"@, e)
                } else if !optional_ok::<bool>(left9, "is_external"@) {
                    field_failed::<bool>(left9, "is_external"@, e)
                } else if !optional_ok::<bool>(left10, "is_usergroup"@) {
                    field_failed::<bool>(left10, "is_usergroup"@, e)
                } else if !optional_ok::<String>(left11, "name"@) {
                    field_failed::<String>(left11, "name"@, e)
                } else if !optional_ok::<UsergroupPrefs>(left12, "prefs"@) {
                    field_failed::<UsergroupPrefs>(left12, "prefs"@, e)
                } else if !optional_ok::<String>(left13, "team_id"@) {
                    field_failed::<String>(left13, "team_id"@, e)
                } else if !optional_ok::<String>(left14, "updated_by"@) {
                    field_failed::<String>(left14, "updated_by"@, e)
                } else if !optional_ok::<String>(left15, "user_count"@) {
                    field_failed::<String>(left15, "user_count"@, e)
                } else {
                    false
                }
            },
            _ => e == (DecodeError::WrongType { expected: "object" }),
        }
    }
}

impl Decode for Usergroup {
    open spec fn accepts(v: JsonValue) -> bool {
        Usergroup::spec_accepts(v)
    }

    open spec fn decodes_to(v: JsonValue, x: Usergroup) -> bool {
        Usergroup::spec_decodes_to(v, x)
    }

    open spec fn rejects_with(v: JsonValue, e: DecodeError) -> bool {
        Usergroup::spec_rejects_with(v, e)
    }

    fn decode(v: JsonValue) -> Result<Usergroup, DecodeError> {
        proof {
            reveal(Usergroup::spec_accepts);
            reveal(Usergroup::spec_decodes_to);
            reveal(Usergroup::spec_rejects_with);
        }
        let mut wire = into_fields(v)?;
        let auto_type: Option<String> = optional(&mut wire, "auto_type")?;
        let created_by: Option<String> = optional(&mut wire, "created_by")?;
        let date_create: Option<i32> = optional(&mut wire, "date_create")?;
        let date_delete: Option<i32> = optional(&mut wire, "date_delete")?;
        let date_update: Option<i32> = optional(&mut wire, "date_update")?;
        let deleted_by: Option<String> = optional(&mut wire, "deleted_by")?;
        let description: Option<String> = optional(&mut wire, "description")?;
        let handle: Option<String> = optional(&mut wire, "handle")?;
        let id: Option<String> = optional(&mut wire, "id")?;
        let is_external: Option<bool> = optional(&mut wire, "is_external")?;
        let is_usergroup: Option<bool> = optional(&mut wire, "is_usergroup")?;
        let name: Option<String> = optional(&mut wire, "name")?;
        let prefs: Option<UsergroupPrefs> = optional(&mut wire, "prefs")?;
        let team_id: Option<String> = optional(&mut wire, "team_id")?;
        let updated_by: Option<String> = optional(&mut wire, "updated_by")?;
        let user_count: Option<String> = optional(&mut wire, "user_count")?;
        Ok(Usergroup { auto_type, created_by, date_create, date_delete, date_update, deleted_by, description, handle, id, is_external, is_usergroup, name, prefs, team_id, updated_by, user_count })
    }
}

#[derive(Clone, Debug, PartialEq)]
pub struct UsergroupPrefs {
    pub channels: Option<Vec<String>>,
    pub groups: Option<Vec<String>>,
}

impl UsergroupPrefs {
    /// Whether `v` decodes as the record: an object whose fields read in order.
    #[verifier::opaque]
    pub open spec fn spec_accepts(v: JsonValue) -> bool {
        match v {
            JsonValue::Object(w) => {
                let left0 = w@;
                let left1 = taken(left0, "channels"@);
                &&& optional_ok::<Vec<String>>(left0, "channels"@)
                &&& optional_ok::<Vec<String>>(left1, "groups"@)
            },
            _ => false,
        }
    }

    /// Whether `x` holds what the fields of `v` read as.
    #[verifier::opaque]
    pub open spec fn spec_decodes_to(v: JsonValue, x: UsergroupPrefs) -> bool {
        match v {
            JsonValue::Object(w) => {
                let left0 = w@;
                let left1 = taken(left0, "channels"@);
                &&& optional_value::<Vec<String>>(left0, "channels"@, x.channels)
                &&& optional_value::<Vec<String>>(left1, "groups"@, x.groups)
            },
            _ => false,
        }
    }

    /// Whether `e` is the error of the first check or field that fails on `v`.
    #[verifier::opaque]
    pub open spec fn spec_rejects_with(v: JsonValue, e: DecodeError) -> bool {
        match v {
            JsonValue::Object(w) => {
                let left0 = w@;
                let left1 = taken(left0, "channels"@);
                if !optional_ok::<Vec<String>>(left0, "channels"@) {
                    field_failed::<Vec<String>>(left0, "channels"@, e)
                } else if !optional_ok::<Vec<String>>(left1, "groups"@) {
                    field_failed::<Vec<String>>(left1, "groups"@, e)
                } else {
                    false
                }
            },
            _ => e == (DecodeError::WrongType { expected: "object" }),
        }
    }
}

impl Decode for UsergroupPrefs {
    open spec fn accepts(v: JsonValue) -> bool {
        UsergroupPrefs::spec_accepts(v)
    }

    open spec fn decodes_to(v: JsonValue, x: UsergroupPrefs) -> bool {
        UsergroupPrefs::spec_decodes_to(v, x)
    }

    open spec fn rejects_with(v: JsonValue, e: DecodeError) -> bool {
        UsergroupPrefs::spec_rejects_with(v, e)
    }

    fn decode(v: JsonValue) -> Result<UsergroupPrefs, DecodeError> {
        proof {
            reveal(UsergroupPrefs::spec_accepts);
            reveal(UsergroupPrefs::spec_decodes_to);
            reveal(UsergroupPrefs::spec_rejects_with);
        }
        let mut wire = into_fields(v)?;
        let channels: Option<Vec<String>> = optional(&mut wire, "channels")?;
        let groups: Option<Vec<String>> = optional(&mut wire, "groups")?;
        Ok(UsergroupPrefs { channels, groups })
    }
}

#[derive(Clone, Debug, PartialEq)]
pub struct UserProfile {
    pub avatar_hash: Option<String>,
    pub display_name: Option<String>,
    pub display_name_normalized: Option<String>,
    pub email: Option<String>,
    pub fields: Option<StringMap<UserProfileFields>>,
    pub first_name: Option<String>,
    pub guest_channels: Option<String>,
    pub image_192: Option<String>,
    pub image_24: Option<String>,
    pub image_32: Option<String>,
    pub image_48: Option<String>,
    pub image_512: Option<String>,
    pub image_72: Option<String>,
    pub image_original: Option<String>,
    pub last_name: Option<String>,
    pub phone: Option<String>,
    pub real_name: Option<String>,
    pub real_name_normalized: Option<String>,
    pub skype: Option<String>,
    pub status_emoji: Option<String>,
    pub status_text: Option<String>,
    pub team: Option<String>,
    pub title: Option<String>,
}

impl UserProfile {
    /// Whether `v` decodes as the record: an object whose fields read in order.
    #[verifier::opaque]
    pub open spec fn spec_accepts(v: JsonValue) -> bool {
        match v {
            JsonValue::Object(w) => {
                let left0 = w@;
                let left1 = taken(left0, "avatar_hash"@);
                let left2 = taken(left1, "display_name"@);
                let left3 = taken(left2, "display_name_normalized"@);
                let left4 = taken(left3, "email"@);
                let left5 = taken(left4, "fields"@);
                let left6 = taken(left5, "first_name"@);
                let left7 = taken(left6, "guest_channels"@);
                let left8 = taken(left7, "image_192"@);
                let left9 = taken(left8, "image_24"@);
                let left10 = taken(left9, "image_32"@);
                let left11 = taken(left10, "image_48"@);
                let left12 = taken(left11, "image_512"@);
                let left13 = taken(left12, "image_72"@);
                let left14 = taken(left13, "image_original"@);
                let left15 = taken(left14, "last_name"@);
                let left16 = taken(left15, "phone"@);
                let left17 = taken(left16, "real_name"@);
                let left18 = taken(left17, "real_name_normalized"@);
                let left19 = taken(left18, "skype"@);
                let left20 = taken(left19, "status_emoji"@);
                let left21 = taken(left20, "status_text"@);
                let left22 = taken(left21, "team"@);
                &&& optional_ok::<String>(left0, "avatar_hash"@)
                &&& optional_ok::<String>(left1, "display_name"@)
                &&& optional_ok::<String>(left2, "display_name_normalized"@)
                &&& optional_ok::<String>(left3, "email"@)
                &&& map_ok::<UserProfileFields>(left4, "fields"@)
                &&& optional_ok::<String>(left5, "first_name"@)
                &&& optional_ok::<String>(left6, "guest_channels"@)
                &&& optional_ok::<String>(left7, "image_192"@)
                &&& optional_ok::<String>(left8, "image_24"@)
                &&& optional_ok::<String>(left9, "image_32"@)
                &&& optional_ok::<String>(left10, "image_48"@)
                &&& optional_ok::<String>(left11, "image_512"@)
                &&& optional_ok::<String>(left12, "image_72"@)
                &&& optional_ok::<String>(left13, "image_original"@)
                &&& optional_ok::<String>(left14, "last_name"@)
                &&& optional_ok::<String>(left15, "phone"@)
                &&& optional_ok::<String>(left16, "real_name"@)
                &&& optional_ok::<String>(left17, "real_name_normalized"@)
                &&& optional_ok::<String>(left18, "skype"@)
                &&& optional_ok::<String>(left19, "status_emoji"@)
                &&& optional_ok::<String>(left20, "status_text"@)
                &&& optional_ok::<String>(left21, "team"@)
                &&& optional_ok::<String>(left22, "title"@)
            },
            _ => false,
        }
    }

    /// Whether `x` holds what the fields of `v` read as.
    #[verifier::opaque]
    pub open spec fn spec_decodes_to(v: JsonValue, x: UserProfile) -> bool {
        match v {
            JsonValue::Object(w) => {
                let left0 = w@;
                let left1 = taken(left0, "avatar_hash"@);
                let left2 = taken(left1, "display_name"@);
                let left3 = taken(left2, "display_name_normalized"@);
                let left4 = taken(left3, "email"@);
                let left5 = taken(left4, "fields"@);
                let left6 = taken(left5, "first_name"@);
                let left7 = taken(left6, "guest_channels"@);
                let left8 = taken(left7, "image_192"@);
                let left9 = taken(left8, "image_24"@);
                let left10 = taken(left9, "image_32"@);
                let left11 = taken(left10, "image_48"@);
                let left12 = taken(left11, "image_512"@);
                let left13 = taken(left12, "image_72"@);
                let left14 = taken(left13, "image_original"@);
                let left15 = taken(left14, "last_name"@);
                let left16 = taken(left15, "phone"@);
                let left17 = taken(left16, "real_name"@);
                let left18 = taken(left17, "real_name_normalized"@);
                let left19 = taken(left18, "skype"@);
                let left20 = taken(left19, "status_emoji"@);
                let left21 = taken(left20, "status_text"@);
                let left22 = taken(left21, "team"@);
                &&& optional_value::<String>(left0, "avatar_hash"@, x.avatar_hash)
                &&& optional_value::<String>(left1, "display_name"@, x.display_name)
                &&& optional_value::<String>(left2, "display_name_normalized"@, x.display_name_normalized)
                &&& optional_value::<String>(left3, "email"@, x.email)
                &&& map_value::<UserProfileFields>(left4, "fields"@, x.fields)
                &&& optional_value::<String>(left5, "first_name"@, x.first_name)
                &&& optional_value::<String>(left6, "guest_channels"@, x.guest_channels)
                &&& optional_value::<String>(left7, "image_192"@, x.image_192)
                &&& optional_value::<String>(left8, "image_24"@, x.image_24)
                &&& optional_value::<String>(left9, "image_32"@, x.image_32)
                &&& optional_value::<String>(left10, "image_48"@, x.image_48)
                &&& optional_value::<String>(left11, "image_512"@, x.image_512)
                &&& optional_value::<String>(left12, "image_72"@, x.image_72)
                &&& optional_value::<String>(left13, "image_original"@, x.image_original)
                &&& optional_value::<String>(left14, "last_name"@, x.last_name)
                &&& optional_value::<String>(left15, "phone"@, x.phone)
                &&& optional_value::<String>(left16, "real_name"@, x.real_name)
                &&& optional_value::<String>(left17, "real_name_normalized"@, x.real_name_normalized)
                &&& optional_value::<String>(left18, "skype"@, x.skype)
                &&& optional_value::<String>(left19, "status_emoji"@, x.status_emoji)
                &&& optional_value::<String>(left20, "status_text"@, x.status_text)
                &&& optional_value::<String>(left21, "team"@, x.team)
                &&& optional_value::<String>(left22, "title"@, x.title)
            },
            _ => false,
        }
    }

    /// Whether `e` is the error of the first check or field that fails on `v`.
    #[verifier::opaque]
    pub open spec fn spec_rejects_with(v: JsonValue, e: DecodeError) -> bool {
        match v {
            JsonValue::Object(w) => {
                let left0 = w@;
                let left1 = taken(left0, "avatar_hash"@);
                let left2 = taken(left1, "display_name"@);
                let left3 = taken(left2, "display_name_normalized"@);
                let left4 = taken(left3, "email"@);
                let left5 = taken(left4, "fields"@);
                let left6 = taken(left5, "first_name"@);
                let left7 = taken(left6, "guest_channels"@);
                let left8 = taken(left7, "image_192"@);
                let left9 = taken(left8, "image_24"@);
                let left10 = taken(left9, "image_32"@);
                let left11 = taken(left10, "image_48"@);
                let left12 = taken(left11, "image_512"@);
                let left13 = taken(left12, "image_72"@);
                let left14 = taken(left13, "image_original"@);
                let left15 = taken(left14, "last_name"@);
                let left16 = taken(left15, "phone"@);
                let left17 = taken(left16, "real_name"@);
                let left18 = taken(left17, "real_name_normalized"@);
                let left19 = taken(left18, "skype"@);
                let left20 = taken(left19, "status_emoji"@);
                let left21 = taken(left20, "status_text"@);
                let left22 = taken(left21, "team"@);
                if !optional_ok::<String>(left0, "avatar_hash"@) {
                    field_failed::<String>(left0, "avatar_hash"@, e)
                } else if !optional_ok::<String>(left1, "display_name"@) {
                    field_failed::<String>(left1, "display_name"@, e)
                } else if !optional_ok::<String>(left2, "display_name_normalized"@) {
                    field_failed::<String>(left2, "display_name_normalized"@, e)
                } else if !optional_ok::<String>(left3, "email"@) {
                    field_failed::<String>(left3, "email"@, e)
                } else if !map_ok::<UserProfileFields>(left4, "fields"@) {
                    map_err::<UserProfileFields>(left4, "fields"@, e)
                } else if !optional_ok::<String>(left5, "first_name"@) {
                    field_failed::<String>(left5, "first_name"@, e)
                } else if !optional_ok::<String>(left6, "guest_channels"@) {
                    field_failed::<String>(left6, "guest_channels"@, e)
                } else if !optional_ok::<String>(left7, "image_192"@) {
                    field_failed::<String>(left7, "image_192"@, e)
                } else if !optional_ok::<String>(left8, "image_24"@) {
                    field_failed::<String>(left8, "image_24"@, e)
                } else if !optional_ok::<String>(left9, "image_32"@) {
                    field_failed::<String>(left9, "image_32"@, e)
                } else if !optional_ok::<String>(left10, "image_48"@) {
                    field_failed::<String>(left10, "image_48"@, e)
                } else if !optional_ok::<String>(left11, "image_512"@) {
                    field_failed::<String>(left11, "image_512"@, e)
                } else if !optional_ok::<String>(left12, "image_72"@) {
                    field_failed::<String>(left12, "image_72"@, e)
                } else if !optional_ok::<String>(left13, "image_original"@) {
                    field_failed::<String>(left13, "image_original"@, e)
                } else if !optional_ok::<String>(left14, "last_name"@) {
                    field_failed::<String>(left14, "last_name"@, e)
                } else if !optional_ok::<String>(left15, "phone"@) {
                    field_failed::<String>(left15, "phone"@, e)
                } else if !optional_ok::<String>(left16, "real_name"@) {
                    field_failed::<String>(left16, "real_name"@, e)
                } else if !optional_ok::<String>(left17, "real_name_normalized"@) {
                    field_failed::<String>(left17, "real_name_normalized"@, e)
                } else if !optional_ok::<String>(left18, "skype"@) {
                    field_failed::<String>(left18, "skype"@, e)
                } else if !optional_ok::<String>(left19, "status_emoji"@) {
                    field_failed::<String>(left19, "status_emoji"@, e)
                } else if !optional_ok::<String>(left20, "status_text"@) {
                    field_failed::<String>(left20, "status_text"@, e)
                } else if !optional_ok::<String>(left21, "team"@) {
                    field_failed::<String>(left21, "team"@, e)
                } else if !optional_ok::<String>(left22, "title"@) {
                    field_failed::<String>(left22, "title"@, e)
                } else {
                    false
                }
            },
            _ => e == (DecodeError::WrongType { expected: "object" }),
        }
    }
}

impl Decode for UserProfile {
    open spec fn accepts(v: JsonValue) -> bool {
        UserProfile::spec_accepts(v)
    }

    open spec fn decodes_to(v: JsonValue, x: UserProfile) -> bool {
        UserProfile::spec_decodes_to(v, x)
    }

    open spec fn rejects_with(v: JsonValue, e: DecodeError) -> bool {
        UserProfile::spec_rejects_with(v, e)
    }

    fn decode(v: JsonValue) -> Result<UserProfile, DecodeError> {
        proof {
            reveal(UserProfile::spec_accepts);
            reveal(UserProfile::spec_decodes_to);
            reveal(UserProfile::spec_rejects_with);
        }
        let mut wire = into_fields(v)?;
        let avatar_hash: Option<String> = optional(&mut wire, "avatar_hash")?;
        let display_name: Option<String> = optional(&mut wire, "display_name")?;
        let display_name_normalized: Option<String> = optional(&mut wire, "display_name_normalized")?;
        let email: Option<String> = optional(&mut wire, "email")?;
        let fields: Option<StringMap<UserProfileFields>> = map_or_empty_list(&mut wire, "fields")?;
        let first_name: Option<String> = optional(&mut wire, "first_name")?;
        let guest_channels: Option<String> = optional(&mut wire, "guest_channels")?;
        let image_192: Option<String> = optional(&mut wire, "image_192")?;
        let image_24: Option<String> = optional(&mut wire, "image_24")?;
        let image_32: Option<String> = optional(&mut wire, "image_32")?;
        let image_48: Option<String> = optional(&mut wire, "image_48")?;
        let image_512: Option<String> = optional(&mut wire, "image_512")?;
        let image_72: Option<String> = optional(&mut wire, "image_72")?;
        let image_original: Option<String> = optional(&mut wire, "image_original")?;
        let last_name: Option<String> = optional(&mut wire, "last_name")?;
        let phone: Option<String> = optional(&mut wire, "phone")?;
        let real_name: Option<String> = optional(&mut wire, "real_name")?;
        let real_name_normalized: Option<String> = optional(&mut wire, "real_name_normalized")?;
        let skype: Option<String> = optional(&mut wire, "skype")?;
        let status_emoji: Option<String> = optional(&mut wire, "status_emoji")?;
        let status_text: Option<String> = optional(&mut wire, "status_text")?;
        let team: Option<String> = optional(&mut wire, "team")?;
        let title: Option<String> = optional(&mut wire, "title")?;
        Ok(UserProfile { avatar_hash, display_name, display_name_normalized, email, fields, first_name, guest_channels, image_192, image_24, image_32, image_48, image_512, image_72, image_original, last_name, phone, real_name, real_name_normalized, skype, status_emoji, status_text, team, title })
    }
}

#[derive(Clone, Debug, PartialEq)]
pub struct UserProfileFields {
    pub alt: Option<String>,
    pub label: Option<String>,
    pub value: Option<String>,
}

impl UserProfileFields {
    /// Whether `v` decodes as the record: an object whose fields read in order.
    #[verifier::opaque]
    pub open spec fn spec_accepts(v: JsonValue) -> bool {
        match v {
            JsonValue::Object(w) => {
                let left0 = w@;
                let left1 = taken(left0, "alt"@);
                let left2 = taken(left1, "label"@);
                &&& optional_ok::<String>(left0, "alt"@)
                &&& optional_ok::<String>(left1, "label"@)
                &&& optional_ok::<String>(left2, "value"@)
            },
            _ => false,
        }
    }

    /// Whether `x` holds what the fields of `v` read as.
    #[verifier::opaque]
    pub open spec fn spec_decodes_to(v: JsonValue, x: UserProfileFields) -> bool {
        match v {
            JsonValue::Object(w) => {
                let left0 = w@;
                let left1 = taken(left0, "alt"@);
                let left2 = taken(left1, "label"@);
                &&& optional_value::<String>(left0, "alt"@, x.alt)
                &&& optional_value::<String>(left1, "label"@, x.label)
                &&& optional_value::<String>(left2, "value"@, x.value)
            },
            _ => false,
        }
    }

    /// Whether `e` is the error of the first check or field that fails on `v`.
    #[verifier::opaque]
    pub open spec fn spec_rejects_with(v: JsonValue, e: DecodeError) -> bool {
        match v {
            JsonValue::Object(w) => {
                let left0 = w@;
                let left1 = taken(left0, "alt"@);
                let left2 = taken(left1, "label"@);
                if !optional_ok::<String>(left0, "alt"@) {
                    field_failed::<String>(left0, "alt"@, e)
                } else if !optional_ok::<String>(left1, "label"@) {
                    field_failed::<String>(left1, "label"@, e)
                } else if !optional_ok::<String>(left2, "value"@) {
                    field_failed::<String>(left2, "value"@, e)
                } else {
                    false
                }
            },
            _ => e == (DecodeError::WrongType { expected: "object" }),
        }
    }
}

impl Decode for UserProfileFields {
    open spec fn accepts(v: JsonValue) -> bool {
        UserProfileFields::spec_accepts(v)
    }

    open spec fn decodes_to(v: JsonValue, x: UserProfileFields) -> bool {
        UserProfileFields::spec_decodes_to(v, x)
    }

    open spec fn rejects_with(v: JsonValue, e: DecodeError) -> bool {
        UserProfileFields::spec_rejects_with(v, e)
    }

    fn decode(v: JsonValue) -> Result<UserProfileFields, DecodeError> {
        proof {
            reveal(UserProfileFields::spec_accepts);
            reveal(UserProfileFields::spec_decodes_to);
            reveal(UserProfileFields::spec_rejects_with);
        }
        let mut wire = into_fields(v)?;
        let alt: Option<String> = optional(&mut wire, "alt")?;
        let label: Option<String> = optional(&mut wire, "label")?;
        let value: Option<String> = optional(&mut wire, "value")?;
        Ok(UserProfileFields { alt, label, value })
    }
}

#[derive(Debug, PartialEq)]
pub struct EventReactionAdded {
    pub user: UserId,
    pub item: Box<Event>,
    pub reaction: String,
    pub item_user: UserId,
    pub event_ts: Timestamp,
    pub ts: Timestamp,
}

impl EventReactionAdded {
    /// The fields the record declares; it admits no others.
    pub open spec fn declared_fields() -> Seq<&'static str> {
        seq!["user", "item", "reaction", "item_user", "event_ts", "ts"]
    }

    /// Whether `v` decodes as the record, the event inside nesting at most `depth` levels.
    pub open spec fn accepts_at(v: JsonValue, depth: nat) -> bool
        decreases depth, 1nat,
    {
        match v {
            JsonValue::Object(w) => {
                let left0 = w@;
                let left1 = taken(left0, "user"@);
                let left2 = taken(left1, "item"@);
                let left3 = taken(left2, "reaction"@);
                let left4 = taken(left3, "item_user"@);
                let left5 = taken(left4, "event_ts"@);
                &&& all_known(left0, EventReactionAdded::declared_fields())
                &&& required_ok::<UserId>(left0, "user"@)
                &&& nested_event_ok(left1, "item"@, depth)
                &&& required_ok::<String>(left2, "reaction"@)
                &&& required_ok::<UserId>(left3, "item_user"@)
                &&& required_ok::<Timestamp>(left4, "event_ts"@)
                &&& required_ok::<Timestamp>(left5, "ts"@)
            },
            _ => false,
        }
    }

    /// Whether `x` is what `v` decodes to.
    pub open spec fn decodes_to_at(v: JsonValue, depth: nat, x: EventReactionAdded) -> bool
        decreases depth, 1nat,
    {
        match v {
            JsonValue::Object(w) => {
                let left0 = w@;
                let left1 = taken(left0, "user"@);
                let left2 = taken(left1, "item"@);
                let left3 = taken(left2, "reaction"@);
                let left4 = taken(left3, "item_user"@);
                let left5 = taken(left4, "event_ts"@);
                &&& <UserId as Decode>::decodes_to(value_of(left0, "user"@), x.user)
                &&& (depth > 0 && Event::decodes_to_at(value_of(left1, "item"@), (depth - 1) as nat, *x.item))
                &&& <String as Decode>::decodes_to(value_of(left2, "reaction"@), x.reaction)
                &&& <UserId as Decode>::decodes_to(value_of(left3, "item_user"@), x.item_user)
                &&& <Timestamp as Decode>::decodes_to(value_of(left4, "event_ts"@), x.event_ts)
                &&& <Timestamp as Decode>::decodes_to(value_of(left5, "ts"@), x.ts)
            },
            _ => false,
        }
    }

    /// Whether `e` is the error decoding `v` fails with.
    pub open spec fn rejects_with_at(v: JsonValue, depth: nat, e: DecodeError) -> bool
        decreases depth, 1nat,
    {
        match v {
            JsonValue::Object(w) => {
                let left0 = w@;
                let left1 = taken(left0, "user"@);
                let left2 = taken(left1, "item"@);
                let left3 = taken(left2, "reaction"@);
                let left4 = taken(left3, "item_user"@);
                let left5 = taken(left4, "event_ts"@);
                if !all_known(left0, EventReactionAdded::declared_fields()) {
                    e == (DecodeError::UnknownField { field: first_unknown_key(left0, EventReactionAdded::declared_fields()) })
                } else if !required_ok::<UserId>(left0, "user"@) {
                    required_err::<UserId>(left0, "user"@, e)
                } else if !nested_event_ok(left1, "item"@, depth) {
                    nested_event_err(left1, "item"@, depth, e)
                } else if !required_ok::<String>(left2, "reaction"@) {
                    required_err::<String>(left2, "reaction"@, e)
                } else if !required_ok::<UserId>(left3, "item_user"@) {
                    required_err::<UserId>(left3, "item_user"@, e)
                } else if !required_ok::<Timestamp>(left4, "event_ts"@) {
                    required_err::<Timestamp>(left4, "event_ts"@, e)
                } else if !required_ok::<Timestamp>(left5, "ts"@) {
                    required_err::<Timestamp>(left5, "ts"@, e)
                } else {
                    false
                }
            },
            _ => e == (DecodeError::WrongType { expected: "object" }),
        }
    }

    /// Decodes the record; the event it embeds may nest `depth` more levels.
    fn decode_nested(v: JsonValue, depth: usize) -> (r: Result<EventReactionAdded, DecodeError>)
        ensures
            r is Ok <==> EventReactionAdded::accepts_at(v, depth as nat),
            r is Ok ==> EventReactionAdded::decodes_to_at(v, depth as nat, r->Ok_0),
            r is Err ==> EventReactionAdded::rejects_with_at(v, depth as nat, r->Err_0),
        decreases depth, 1usize,
    {
        let mut wire = into_fields(v)?;
        let known: &[&str] = &["user", "item", "reaction", "item_user", "event_ts", "ts"];
        assert(known@ =~= EventReactionAdded::declared_fields());
        check_fields(&wire, known)?;
        let user: UserId = required(&mut wire, "user")?;
        let item: Box<Event> = Box::new(take_nested_event(&mut wire, "item", depth)?);
        let reaction: String = required(&mut wire, "reaction")?;
        let item_user: UserId = required(&mut wire, "item_user")?;
        let event_ts: Timestamp = required(&mut wire, "event_ts")?;
        let ts: Timestamp = required(&mut wire, "ts")?;
        Ok(EventReactionAdded { user, item, reaction, item_user, event_ts, ts })
    }
}

/// A chat message, one variant per message subtype.
#[derive(Clone, Debug, PartialEq)]
pub enum Message {
    Standard(MessageStandard),
    BotAdd(MessageBotAdd),
    BotRemove(MessageBotRemove),
    BotMessage(MessageBotMessage),
    ChannelArchive(MessageChannelArchive),
    ChannelJoin(MessageChannelJoin),
    ChannelLeave(MessageChannelLeave),
    ChannelName(MessageChannelName),
    ChannelPurpose(MessageChannelPurpose),
    ChannelTopic(MessageChannelTopic),
    ChannelUnarchive(MessageChannelUnarchive),
    FileComment(Box<MessageFileComment>),
    FileMention(Box<MessageFileMention>),
    FileShare(Box<MessageFileShare>),
    GroupArchive(MessageGroupArchive),
    GroupJoin(MessageGroupJoin),
    GroupLeave(MessageGroupLeave),
    GroupName(MessageGroupName),
    GroupPurpose(MessageGroupPurpose),
    GroupTopic(MessageGroupTopic),
    GroupUnarchive(MessageGroupUnarchive),
    MeMessage(MessageMeMessage),
    MessageChanged(MessageMessageChanged),
    MessageDeleted(MessageMessageDeleted),
    MessageReplied(MessageMessageReplied),
    PinnedItem(MessagePinnedItem),
    ReplyBroadcast(MessageReplyBroadcast),
    ReminderAdd(MessageReminderAdd),
    SlackbotResponse(MessageSlackbotResponse),
    ThreadBroadcast(Box<MessageThreadBroadcast>),
    UnpinnedItem(MessageUnpinnedItem),
}

impl Message {
    /// The tag value of each variant, in declaration order.
    pub open spec fn spec_variant_names() -> Seq<&'static str> {
        seq!["standard", "bot_add", "bot_remove", "bot_message", "channel_archive", "channel_join", "channel_leave", "channel_name", "channel_purpose", "channel_topic", "channel_unarchive", "file_comment", "file_mention", "file_share", "group_archive", "group_join", "group_leave", "group_name", "group_purpose", "group_topic", "group_unarchive", "me_message", "message_changed", "message_deleted", "message_replied", "pinned_item", "reply_broadcast", "reminder_add", "slackbot_response", "thread_broadcast", "unpinned_item"]
    }

    /// The tag value of each variant, in declaration order.
    pub fn variant_names() -> (r: Vec<&'static str>)
        ensures
            r@ == Self::spec_variant_names(),
    {
        vec!["standard", "bot_add", "bot_remove", "bot_message", "channel_archive", "channel_join", "channel_leave", "channel_name", "channel_purpose", "channel_topic", "channel_unarchive", "file_comment", "file_mention", "file_share", "group_archive", "group_join", "group_leave", "group_name", "group_purpose", "group_topic", "group_unarchive", "me_message", "message_changed", "message_deleted", "message_replied", "pinned_item", "reply_broadcast", "reminder_add", "slackbot_response", "thread_broadcast", "unpinned_item"]
    }
}

impl VariantRecords for Message {
    open spec fn record_accepts(variant: usize, v: JsonValue) -> bool {
        if variant == 0 {
            <MessageStandard as Decode>::accepts(v)
        } else if variant == 1 {
            <MessageBotAdd as Decode>::accepts(v)
        } else if variant == 2 {
            <MessageBotRemove as Decode>::accepts(v)
        } else if variant == 3 {
            <MessageBotMessage as Decode>::accepts(v)
        } else if variant == 4 {
            <MessageChannelArchive as Decode>::accepts(v)
        } else if variant == 5 {
            <MessageChannelJoin as Decode>::accepts(v)
        } else if variant == 6 {
            <MessageChannelLeave as Decode>::accepts(v)
        } else if variant == 7 {
            <MessageChannelName as Decode>::accepts(v)
        } else if variant == 8 {
            <MessageChannelPurpose as Decode>::accepts(v)
        } else if variant == 9 {
            <MessageChannelTopic as Decode>::accepts(v)
        } else if variant == 10 {
            <MessageChannelUnarchive as Decode>::accepts(v)
        } else if variant == 11 {
            <Box<MessageFileComment> as Decode>::accepts(v)
        } else if variant == 12 {
            <Box<MessageFileMention> as Decode>::accepts(v)
        } else if variant == 13 {
            <Box<MessageFileShare> as Decode>::accepts(v)
        } else if variant == 14 {
            <MessageGroupArchive as Decode>::accepts(v)
        } else if variant == 15 {
            <MessageGroupJoin as Decode>::accepts(v)
        } else if variant == 16 {
            <MessageGroupLeave as Decode>::accepts(v)
        } else if variant == 17 {
            <MessageGroupName as Decode>::accepts(v)
        } else if variant == 18 {
            <MessageGroupPurpose as Decode>::accepts(v)
        } else if variant == 19 {
            <MessageGroupTopic as Decode>::accepts(v)
        } else if variant == 20 {
            <MessageGroupUnarchive as Decode>::accepts(v)
        } else if variant == 21 {
            <MessageMeMessage as Decode>::accepts(v)
        } else if variant == 22 {
            <MessageMessageChanged as Decode>::accepts(v)
        } else if variant == 23 {
            <MessageMessageDeleted as Decode>::accepts(v)
        } else if variant == 24 {
            <MessageMessageReplied as Decode>::accepts(v)
        } else if variant == 25 {
            <MessagePinnedItem as Decode>::accepts(v)
        } else if variant == 26 {
            <MessageReplyBroadcast as Decode>::accepts(v)
        } else if variant == 27 {
            <MessageReminderAdd as Decode>::accepts(v)
        } else if variant == 28 {
            <MessageSlackbotResponse as Decode>::accepts(v)
        } else if variant == 29 {
            <Box<MessageThreadBroadcast> as Decode>::accepts(v)
        } else if variant == 30 {
            <MessageUnpinnedItem as Decode>::accepts(v)
        } else {
            false
        }
    }

    open spec fn record_decodes_to(variant: usize, v: JsonValue, x: Message) -> bool {
        if variant == 0 {
            x is Standard && <MessageStandard as Decode>::decodes_to(v, x->Standard_0)
        } else if variant == 1 {
            x is BotAdd && <MessageBotAdd as Decode>::decodes_to(v, x->BotAdd_0)
        } else if variant == 2 {
            x is BotRemove && <MessageBotRemove as Decode>::decodes_to(v, x->BotRemove_0)
        } else if variant == 3 {
            x is BotMessage && <MessageBotMessage as Decode>::decodes_to(v, x->BotMessage_0)
        } else if variant == 4 {
            x is ChannelArchive && <MessageChannelArchive as Decode>::decodes_to(v, x->ChannelArchive_0)
        } else if variant == 5 {
            x is ChannelJoin && <MessageChannelJoin as Decode>::decodes_to(v, x->ChannelJoin_0)
        } else if variant == 6 {
            x is ChannelLeave && <MessageChannelLeave as Decode>::decodes_to(v, x->ChannelLeave_0)
        } else if variant == 7 {
            x is ChannelName && <MessageChannelName as Decode>::decodes_to(v, x->ChannelName_0)
        } else if variant == 8 {
            x is ChannelPurpose && <MessageChannelPurpose as Decode>::decodes_to(v, x->ChannelPurpose_0)
        } else if variant == 9 {
            x is ChannelTopic && <MessageChannelTopic as Decode>::decodes_to(v, x->ChannelTopic_0)
        } else if variant == 10 {
            x is ChannelUnarchive && <MessageChannelUnarchive as Decode>::decodes_to(v, x->ChannelUnarchive_0)
        } else if variant == 11 {
            x is FileComment && <Box<MessageFileComment> as Decode>::decodes_to(v, x->FileComment_0)
        } else if variant == 12 {
            x is FileMention && <Box<MessageFileMention> as Decode>::decodes_to(v, x->FileMention_0)
        } else if variant == 13 {
            x is FileShare && <Box<MessageFileShare> as Decode>::decodes_to(v, x->FileShare_0)
        } else if variant == 14 {
            x is GroupArchive && <MessageGroupArchive as Decode>::decodes_to(v, x->GroupArchive_0)
        } else if variant == 15 {
            x is GroupJoin && <MessageGroupJoin as Decode>::decodes_to(v, x->GroupJoin_0)
        } else if variant == 16 {
            x is GroupLeave && <MessageGroupLeave as Decode>::decodes_to(v, x->GroupLeave_0)
        } else if variant == 17 {
            x is GroupName && <MessageGroupName as Decode>::decodes_to(v, x->GroupName_0)
        } else if variant == 18 {
            x is GroupPurpose && <MessageGroupPurpose as Decode>::decodes_to(v, x->GroupPurpose_0)
        } else if variant == 19 {
            x is GroupTopic && <MessageGroupTopic as Decode>::decodes_to(v, x->GroupTopic_0)
        } else if variant == 20 {
            x is GroupUnarchive && <MessageGroupUnarchive as Decode>::decodes_to(v, x->GroupUnarchive_0)
        } else if variant == 21 {
            x is MeMessage && <MessageMeMessage as Decode>::decodes_to(v, x->MeMessage_0)
        } else if variant == 22 {
            x is MessageChanged && <MessageMessageChanged as Decode>::decodes_to(v, x->MessageChanged_0)
        } else if variant == 23 {
            x is MessageDeleted && <MessageMessageDeleted as Decode>::decodes_to(v, x->MessageDeleted_0)
        } else if variant == 24 {
            x is MessageReplied && <MessageMessageReplied as Decode>::decodes_to(v, x->MessageReplied_0)
        } else if variant == 25 {
            x is PinnedItem && <MessagePinnedItem as Decode>::decodes_to(v, x->PinnedItem_0)
        } else if variant == 26 {
            x is ReplyBroadcast && <MessageReplyBroadcast as Decode>::decodes_to(v, x->ReplyBroadcast_0)
        } else if variant == 27 {
            x is ReminderAdd && <MessageReminderAdd as Decode>::decodes_to(v, x->ReminderAdd_0)
        } else if variant == 28 {
            x is SlackbotResponse && <MessageSlackbotResponse as Decode>::decodes_to(v, x->SlackbotResponse_0)
        } else if variant == 29 {
            x is ThreadBroadcast && <Box<MessageThreadBroadcast> as Decode>::decodes_to(v, x->ThreadBroadcast_0)
        } else if variant == 30 {
            x is UnpinnedItem && <MessageUnpinnedItem as Decode>::decodes_to(v, x->UnpinnedItem_0)
        } else {
            false
        }
    }

    open spec fn record_rejects_with(variant: usize, v: JsonValue, e: DecodeError) -> bool {
        if variant == 0 {
            <MessageStandard as Decode>::rejects_with(v, e)
        } else if variant == 1 {
            <MessageBotAdd as Decode>::rejects_with(v, e)
        } else if variant == 2 {
            <MessageBotRemove as Decode>::rejects_with(v, e)
        } else if variant == 3 {
            <MessageBotMessage as Decode>::rejects_with(v, e)
        } else if variant == 4 {
            <MessageChannelArchive as Decode>::rejects_with(v, e)
        } else if variant == 5 {
            <MessageChannelJoin as Decode>::rejects_with(v, e)
        } else if variant == 6 {
            <MessageChannelLeave as Decode>::rejects_with(v, e)
        } else if variant == 7 {
            <MessageChannelName as Decode>::rejects_with(v, e)
        } else if variant == 8 {
            <MessageChannelPurpose as Decode>::rejects_with(v, e)
        } else if variant == 9 {
            <MessageChannelTopic as Decode>::rejects_with(v, e)
        } else if variant == 10 {
            <MessageChannelUnarchive as Decode>::rejects_with(v, e)
        } else if variant == 11 {
            <Box<MessageFileComment> as Decode>::rejects_with(v, e)
        } else if variant == 12 {
            <Box<MessageFileMention> as Decode>::rejects_with(v, e)
        } else if variant == 13 {
            <Box<MessageFileShare> as Decode>::rejects_with(v, e)
        } else if variant == 14 {
            <MessageGroupArchive as Decode>::rejects_with(v, e)
        } else if variant == 15 {
            <MessageGroupJoin as Decode>::rejects_with(v, e)
        } else if variant == 16 {
            <MessageGroupLeave as Decode>::rejects_with(v, e)
        } else if variant == 17 {
            <MessageGroupName as Decode>::rejects_with(v, e)
        } else if variant == 18 {
            <MessageGroupPurpose as Decode>::rejects_with(v, e)
        } else if variant == 19 {
            <MessageGroupTopic as Decode>::rejects_with(v, e)
        } else if variant == 20 {
            <MessageGroupUnarchive as Decode>::rejects_with(v, e)
        } else if variant == 21 {
            <MessageMeMessage as Decode>::rejects_with(v, e)
        } else if variant == 22 {
            <MessageMessageChanged as Decode>::rejects_with(v, e)
        } else if variant == 23 {
            <MessageMessageDeleted as Decode>::rejects_with(v, e)
        } else if variant == 24 {
            <MessageMessageReplied as Decode>::rejects_with(v, e)
        } else if variant == 25 {
            <MessagePinnedItem as Decode>::rejects_with(v, e)
        } else if variant == 26 {
            <MessageReplyBroadcast as Decode>::rejects_with(v, e)
        } else if variant == 27 {
            <MessageReminderAdd as Decode>::rejects_with(v, e)
        } else if variant == 28 {
            <MessageSlackbotResponse as Decode>::rejects_with(v, e)
        } else if variant == 29 {
            <Box<MessageThreadBroadcast> as Decode>::rejects_with(v, e)
        } else if variant == 30 {
            <MessageUnpinnedItem as Decode>::rejects_with(v, e)
        } else {
            e == (DecodeError::WrongType { expected: "a variant of Message" })
        }
    }

    open spec fn variant_of(&self) -> usize {
        match self {
            Message::Standard(_) => 0,
            Message::BotAdd(_) => 1,
            Message::BotRemove(_) => 2,
            Message::BotMessage(_) => 3,
            Message::ChannelArchive(_) => 4,
            Message::ChannelJoin(_) => 5,
            Message::ChannelLeave(_) => 6,
            Message::ChannelName(_) => 7,
            Message::ChannelPurpose(_) => 8,
            Message::ChannelTopic(_) => 9,
            Message::ChannelUnarchive(_) => 10,
            Message::FileComment(_) => 11,
            Message::FileMention(_) => 12,
            Message::FileShare(_) => 13,
            Message::GroupArchive(_) => 14,
            Message::GroupJoin(_) => 15,
            Message::GroupLeave(_) => 16,
            Message::GroupName(_) => 17,
            Message::GroupPurpose(_) => 18,
            Message::GroupTopic(_) => 19,
            Message::GroupUnarchive(_) => 20,
            Message::MeMessage(_) => 21,
            Message::MessageChanged(_) => 22,
            Message::MessageDeleted(_) => 23,
            Message::MessageReplied(_) => 24,
            Message::PinnedItem(_) => 25,
            Message::ReplyBroadcast(_) => 26,
            Message::ReminderAdd(_) => 27,
            Message::SlackbotResponse(_) => 28,
            Message::ThreadBroadcast(_) => 29,
            Message::UnpinnedItem(_) => 30,
        }
    }

    fn decode_variant(variant: usize, payload: JsonValue) -> Result<Message, DecodeError> {
        if variant == 0 {
            let record: MessageStandard = Decode::decode(payload)?;
            Ok(Message::Standard(record))
        } else if variant == 1 {
            let record: MessageBotAdd = Decode::decode(payload)?;
            Ok(Message::BotAdd(record))
        } else if variant == 2 {
            let record: MessageBotRemove = Decode::decode(payload)?;
            Ok(Message::BotRemove(record))
        } else if variant == 3 {
            let record: MessageBotMessage = Decode::decode(payload)?;
            Ok(Message::BotMessage(record))
        } else if variant == 4 {
            let record: MessageChannelArchive = Decode::decode(payload)?;
            Ok(Message::ChannelArchive(record))
        } else if variant == 5 {
            let record: MessageChannelJoin = Decode::decode(payload)?;
            Ok(Message::ChannelJoin(record))
        } else if variant == 6 {
            let record: MessageChannelLeave = Decode::decode(payload)?;
            Ok(Message::ChannelLeave(record))
        } else if variant == 7 {
            let record: MessageChannelName = Decode::decode(payload)?;
            Ok(Message::ChannelName(record))
        } else if variant == 8 {
            let record: MessageChannelPurpose = Decode::decode(payload)?;
            Ok(Message::ChannelPurpose(record))
        } else if variant == 9 {
            let record: MessageChannelTopic = Decode::decode(payload)?;
            Ok(Message::ChannelTopic(record))
        } else if variant == 10 {
            let record: MessageChannelUnarchive = Decode::decode(payload)?;
            Ok(Message::ChannelUnarchive(record))
        } else if variant == 11 {
            let record: Box<MessageFileComment> = Decode::decode(payload)?;
            Ok(Message::FileComment(record))
        } else if variant == 12 {
            let record: Box<MessageFileMention> = Decode::decode(payload)?;
            Ok(Message::FileMention(record))
        } else if variant == 13 {
            let record: Box<MessageFileShare> = Decode::decode(payload)?;
            Ok(Message::FileShare(record))
        } else if variant == 14 {
            let record: MessageGroupArchive = Decode::decode(payload)?;
            Ok(Message::GroupArchive(record))
        } else if variant == 15 {
            let record: MessageGroupJoin = Decode::decode(payload)?;
            Ok(Message::GroupJoin(record))
        } else if variant == 16 {
            let record: MessageGroupLeave = Decode::decode(payload)?;
            Ok(Message::GroupLeave(record))
        } else if variant == 17 {
            let record: MessageGroupName = Decode::decode(payload)?;
            Ok(Message::GroupName(record))
        } else if variant == 18 {
            let record: MessageGroupPurpose = Decode::decode(payload)?;
            Ok(Message::GroupPurpose(record))
        } else if variant == 19 {
            let record: MessageGroupTopic = Decode::decode(payload)?;
            Ok(Message::GroupTopic(record))
        } else if variant == 20 {
            let record: MessageGroupUnarchive = Decode::decode(payload)?;
            Ok(Message::GroupUnarchive(record))
        } else if variant == 21 {
            let record: MessageMeMessage = Decode::decode(payload)?;
            Ok(Message::MeMessage(record))
        } else if variant == 22 {
            let record: MessageMessageChanged = Decode::decode(payload)?;
            Ok(Message::MessageChanged(record))
        } else if variant == 23 {
            let record: MessageMessageDeleted = Decode::decode(payload)?;
            Ok(Message::MessageDeleted(record))
        } else if variant == 24 {
            let record: MessageMessageReplied = Decode::decode(payload)?;
            Ok(Message::MessageReplied(record))
        } else if variant == 25 {
            let record: MessagePinnedItem = Decode::decode(payload)?;
            Ok(Message::PinnedItem(record))
        } else if variant == 26 {
            let record: MessageReplyBroadcast = Decode::decode(payload)?;
            Ok(Message::ReplyBroadcast(record))
        } else if variant == 27 {
            let record: MessageReminderAdd = Decode::decode(payload)?;
            Ok(Message::ReminderAdd(record))
        } else if variant == 28 {
            let record: MessageSlackbotResponse = Decode::decode(payload)?;
            Ok(Message::SlackbotResponse(record))
        } else if variant == 29 {
            let record: Box<MessageThreadBroadcast> = Decode::decode(payload)?;
            Ok(Message::ThreadBroadcast(record))
        } else if variant == 30 {
            let record: MessageUnpinnedItem = Decode::decode(payload)?;
            Ok(Message::UnpinnedItem(record))
        } else {
            Err(DecodeError::WrongType { expected: "a variant of Message" })
        }
    }
}

impl Message {
    /// Decodes a message: its `subtype` field names the variant, and a message without
    /// one is a standard message, decoded from the whole object.
    pub fn decode_value(value: JsonValue) -> (r: Result<Message, TaggedUnionError>)
        ensures
            is_union_result(
                value,
                "Message"@,
                "subtype"@,
                Message::spec_variant_names(),
                TaggedPolicy::DefaultVariant(0),
                r,
            ),
    {
        let names = Message::variant_names();
        decode_tagged_union(value, "Message", "subtype", names.as_slice(), TaggedPolicy::DefaultVariant(0))
    }
}

impl Decode for Message {
    open spec fn accepts(v: JsonValue) -> bool {
        match selection(v, "subtype"@, Message::spec_variant_names(), TaggedPolicy::DefaultVariant(0)) {
            Selection::Variant(i) => Message::record_accepts(i, v),
            _ => false,
        }
    }

    open spec fn decodes_to(v: JsonValue, x: Message) -> bool {
        match selection(v, "subtype"@, Message::spec_variant_names(), TaggedPolicy::DefaultVariant(0)) {
            Selection::Variant(i) => x.variant_of() == i && Message::record_decodes_to(i, v, x),
            _ => false,
        }
    }

    open spec fn rejects_with(v: JsonValue, e: DecodeError) -> bool {
        e is Tagged && is_union_result(
            v,
            "Message"@,
            "subtype"@,
            Message::spec_variant_names(),
            TaggedPolicy::DefaultVariant(0),
            Err::<Message, TaggedUnionError>(*e->Tagged_0),
        )
    }

    fn decode(v: JsonValue) -> Result<Message, DecodeError> {
        let names = Message::variant_names();
        let r = decode_tagged_union(v, "Message", "subtype", names.as_slice(), TaggedPolicy::DefaultVariant(0));
        match r {
            Ok(x) => Ok(x),
            Err(e) => Err(DecodeError::Tagged(Box::new(e))),
        }
    }
}

/// A real-time event, one variant per event type.
#[derive(Debug, PartialEq)]
pub enum Event {
    AppsChanged(EventAppsChanged),
    BotChanged(EventBotChanged),
    ChannelMarked(EventChannelMarked),
    DndUpdatedUser(EventDndUpdatedUser),
    FileChange(EventFileChange),
    FileCreated(EventFileCreated),
    FilePublic(EventFilePublic),
    FileShared(EventFileShared),
    GroupMarked(EventGroupMarked),
    Hello(EventHello),
    Message(Message),
    PinAdded(EventPinAdded),
    ReactionAdded(EventReactionAdded),
    UserChange(EventUserChange),
    UserTyping(EventUserTyping),
}

impl Event {
    /// The tag value of each variant, in declaration order.
    pub open spec fn spec_variant_names() -> Seq<&'static str> {
        seq!["apps_changed", "bot_changed", "channel_marked", "dnd_updated_user", "file_change", "file_created", "file_public", "file_shared", "group_marked", "hello", "message", "pin_added", "reaction_added", "user_change", "user_typing"]
    }

    /// The tag value of each variant, in declaration order.
    pub fn variant_names() -> (r: Vec<&'static str>)
        ensures
            r@ == Self::spec_variant_names(),
    {
        vec!["apps_changed", "bot_changed", "channel_marked", "dnd_updated_user", "file_change", "file_created", "file_public", "file_shared", "group_marked", "hello", "message", "pin_added", "reaction_added", "user_change", "user_typing"]
    }
}

impl Event {
    /// Whether variant `variant`'s record decodes from `v`, events inside it nesting at
    /// most `depth` levels.
    pub open spec fn record_accepts_at(variant: usize, v: JsonValue, depth: nat) -> bool
        decreases depth, 2nat,
    {
        if variant == 0 {
            <EventAppsChanged as Decode>::accepts(v)
        } else if variant == 1 {
            <EventBotChanged as Decode>::accepts(v)
        } else if variant == 2 {
            <EventChannelMarked as Decode>::accepts(v)
        } else if variant == 3 {
            <EventDndUpdatedUser as Decode>::accepts(v)
        } else if variant == 4 {
            <EventFileChange as Decode>::accepts(v)
        } else if variant == 5 {
            <EventFileCreated as Decode>::accepts(v)
        } else if variant == 6 {
            <EventFilePublic as Decode>::accepts(v)
        } else if variant == 7 {
            <EventFileShared as Decode>::accepts(v)
        } else if variant == 8 {
            <EventGroupMarked as Decode>::accepts(v)
        } else if variant == 9 {
            <EventHello as Decode>::accepts(v)
        } else if variant == 10 {
            <Message as Decode>::accepts(v)
        } else if variant == 11 {
            <EventPinAdded as Decode>::accepts(v)
        } else if variant == 12 {
            EventReactionAdded::accepts_at(v, depth)
        } else if variant == 13 {
            <EventUserChange as Decode>::accepts(v)
        } else if variant == 14 {
            <EventUserTyping as Decode>::accepts(v)
        } else {
            false
        }
    }

    /// Whether `x` is what variant `variant`'s record decodes `v` to.
    pub open spec fn record_decodes_to_at(variant: usize, v: JsonValue, depth: nat, x: Event) -> bool
        decreases depth, 2nat,
    {
        if variant == 0 {
            x is AppsChanged && <EventAppsChanged as Decode>::decodes_to(v, x->AppsChanged_0)
        } else if variant == 1 {
            x is BotChanged && <EventBotChanged as Decode>::decodes_to(v, x->BotChanged_0)
        } else if variant == 2 {
            x is ChannelMarked && <EventChannelMarked as Decode>::decodes_to(v, x->ChannelMarked_0)
        } else if variant == 3 {
            x is DndUpdatedUser && <EventDndUpdatedUser as Decode>::decodes_to(v, x->DndUpdatedUser_0)
        } else if variant == 4 {
            x is FileChange && <EventFileChange as Decode>::decodes_to(v, x->FileChange_0)
        } else if variant == 5 {
            x is FileCreated && <EventFileCreated as Decode>::decodes_to(v, x->FileCreated_0)
        } else if variant == 6 {
            x is FilePublic && <EventFilePublic as Decode>::decodes_to(v, x->FilePublic_0)
        } else if variant == 7 {
            x is FileShared && <EventFileShared as Decode>::decodes_to(v, x->FileShared_0)
        } else if variant == 8 {
            x is GroupMarked && <EventGroupMarked as Decode>::decodes_to(v, x->GroupMarked_0)
        } else if variant == 9 {
            x is Hello && <EventHello as Decode>::decodes_to(v, x->Hello_0)
        } else if variant == 10 {
            x is Message && <Message as Decode>::decodes_to(v, x->Message_0)
        } else if variant == 11 {
            x is PinAdded && <EventPinAdded as Decode>::decodes_to(v, x->PinAdded_0)
        } else if variant == 12 {
            x is ReactionAdded && EventReactionAdded::decodes_to_at(v, depth, x->ReactionAdded_0)
        } else if variant == 13 {
            x is UserChange && <EventUserChange as Decode>::decodes_to(v, x->UserChange_0)
        } else if variant == 14 {
            x is UserTyping && <EventUserTyping as Decode>::decodes_to(v, x->UserTyping_0)
        } else {
            false
        }
    }

    /// Whether `e` is the error variant `variant`'s record fails with on `v`.
    pub open spec fn record_rejects_with_at(variant: usize, v: JsonValue, depth: nat, e: DecodeError) -> bool
        decreases depth, 2nat,
    {
        if variant == 0 {
            <EventAppsChanged as Decode>::rejects_with(v, e)
        } else if variant == 1 {
            <EventBotChanged as Decode>::rejects_with(v, e)
        } else if variant == 2 {
            <EventChannelMarked as Decode>::rejects_with(v, e)
        } else if variant == 3 {
            <EventDndUpdatedUser as Decode>::rejects_with(v, e)
        } else if variant == 4 {
            <EventFileChange as Decode>::rejects_with(v, e)
        } else if variant == 5 {
            <EventFileCreated as Decode>::rejects_with(v, e)
        } else if variant == 6 {
            <EventFilePublic as Decode>::rejects_with(v, e)
        } else if variant == 7 {
            <EventFileShared as Decode>::rejects_with(v, e)
        } else if variant == 8 {
            <EventGroupMarked as Decode>::rejects_with(v, e)
        } else if variant == 9 {
            <EventHello as Decode>::rejects_with(v, e)
        } else if variant == 10 {
            <Message as Decode>::rejects_with(v, e)
        } else if variant == 11 {
            <EventPinAdded as Decode>::rejects_with(v, e)
        } else if variant == 12 {
            EventReactionAdded::rejects_with_at(v, depth, e)
        } else if variant == 13 {
            <EventUserChange as Decode>::rejects_with(v, e)
        } else if variant == 14 {
            <EventUserTyping as Decode>::rejects_with(v, e)
        } else {
            e == (DecodeError::WrongType { expected: "a variant of Event" })
        }
    }

    /// The position of the value's variant in the list of event types.
    pub open spec fn variant_of(&self) -> usize {
        match self {
            Event::AppsChanged(_) => 0,
            Event::BotChanged(_) => 1,
            Event::ChannelMarked(_) => 2,
            Event::DndUpdatedUser(_) => 3,
            Event::FileChange(_) => 4,
            Event::FileCreated(_) => 5,
            Event::FilePublic(_) => 6,
            Event::FileShared(_) => 7,
            Event::GroupMarked(_) => 8,
            Event::Hello(_) => 9,
            Event::Message(_) => 10,
            Event::PinAdded(_) => 11,
            Event::ReactionAdded(_) => 12,
            Event::UserChange(_) => 13,
            Event::UserTyping(_) => 14,
        }
    }

    /// Whether `v` decodes as an event nesting at most `depth` levels.
    pub open spec fn accepts_at(v: JsonValue, depth: nat) -> bool
        decreases depth, 3nat,
    {
        match selection(v, "type"@, Event::spec_variant_names(), TaggedPolicy::RequiredTag) {
            Selection::Variant(i) => exists|p: JsonValue|
                #[trigger] is_payload(v, "type"@, TaggedPolicy::RequiredTag, p) && Event::record_accepts_at(i, p, depth),
            _ => false,
        }
    }

    /// Whether `x` is the event `v` decodes to.
    pub open spec fn decodes_to_at(v: JsonValue, depth: nat, x: Event) -> bool
        decreases depth, 3nat,
    {
        match selection(v, "type"@, Event::spec_variant_names(), TaggedPolicy::RequiredTag) {
            Selection::Variant(i) => x.variant_of() == i && exists|p: JsonValue|
                #[trigger] is_payload(v, "type"@, TaggedPolicy::RequiredTag, p) && Event::record_decodes_to_at(i, p, depth, x),
            _ => false,
        }
    }

    /// Whether `r` is the outcome of decoding `v` as an event: the selected variant's
    /// record decoded from the object without its tag, or why no variant was selected.
    pub open spec fn result_at(v: JsonValue, depth: nat, r: Result<Event, TaggedUnionError>) -> bool
        decreases depth, 3nat,
    {
        match selection(v, "type"@, Event::spec_variant_names(), TaggedPolicy::RequiredTag) {
            Selection::Variant(i) => exists|p: JsonValue|
                #[trigger] is_payload(v, "type"@, TaggedPolicy::RequiredTag, p) && (r is Ok <==> Event::record_accepts_at(i, p, depth))
                && (r is Ok ==> r->Ok_0.variant_of() == i && Event::record_decodes_to_at(i, p, depth, r->Ok_0))
                && (r is Err ==> r->Err_0 is VariantDecodeFailed
                && r->Err_0->variant_name@ == Event::spec_variant_names()[i as int]@
                && Event::record_rejects_with_at(i, p, depth, *r->Err_0->inner_error)),
            Selection::MissingTag => r is Err && r->Err_0 is MissingTag && r->Err_0->enum_name@ == "Event"@,
            Selection::Unknown => r is Err && r->Err_0 is UnknownVariant
                && tag_value(v, "type"@) == Some(r->Err_0->tag_value)
                && lists_names(r->Err_0->known_variants@, Event::spec_variant_names()),
        }
    }

    /// The records' outcomes depend on a payload's entries alone.
    #[verifier::rlimit(100)]
    proof fn lemma_records_follow_entries(variant: usize, p1: JsonValue, p2: JsonValue, depth: nat)
        requires
            p1 is Object,
            p2 is Object,
            p1->Object_0@ == p2->Object_0@,
        ensures
            Event::record_accepts_at(variant, p1, depth) == Event::record_accepts_at(variant, p2, depth),
            forall|x: Event| Event::record_decodes_to_at(variant, p1, depth, x) == Event::record_decodes_to_at(variant, p2, depth, x),
    {
        reveal(EventAppsChanged::spec_accepts);
        reveal(EventAppsChanged::spec_decodes_to);
        reveal(EventBotChanged::spec_accepts);
        reveal(EventBotChanged::spec_decodes_to);
        reveal(EventChannelMarked::spec_accepts);
        reveal(EventChannelMarked::spec_decodes_to);
        reveal(EventDndUpdatedUser::spec_accepts);
        reveal(EventDndUpdatedUser::spec_decodes_to);
        reveal(EventFileChange::spec_accepts);
        reveal(EventFileChange::spec_decodes_to);
        reveal(EventFileCreated::spec_accepts);
        reveal(EventFileCreated::spec_decodes_to);
        reveal(EventFilePublic::spec_accepts);
        reveal(EventFilePublic::spec_decodes_to);
        reveal(EventFileShared::spec_accepts);
        reveal(EventFileShared::spec_decodes_to);
        reveal(EventGroupMarked::spec_accepts);
        reveal(EventGroupMarked::spec_decodes_to);
        reveal(EventHello::spec_accepts);
        reveal(EventHello::spec_decodes_to);
        reveal(EventPinAdded::spec_accepts);
        reveal(EventPinAdded::spec_decodes_to);
        reveal(EventUserChange::spec_accepts);
        reveal(EventUserChange::spec_decodes_to);
        reveal(EventUserTyping::spec_accepts);
        reveal(EventUserTyping::spec_decodes_to);
        reveal(MessageStandard::spec_accepts);
        reveal(MessageStandard::spec_decodes_to);
        reveal(MessageBotAdd::spec_accepts);
        reveal(MessageBotAdd::spec_decodes_to);
        reveal(MessageBotRemove::spec_accepts);
        reveal(MessageBotRemove::spec_decodes_to);
        reveal(MessageBotMessage::spec_accepts);
        reveal(MessageBotMessage::spec_decodes_to);
        reveal(MessageChannelArchive::spec_accepts);
        reveal(MessageChannelArchive::spec_decodes_to);
        reveal(MessageChannelJoin::spec_accepts);
        reveal(MessageChannelJoin::spec_decodes_to);
        reveal(MessageChannelLeave::spec_accepts);
        reveal(MessageChannelLeave::spec_decodes_to);
        reveal(MessageChannelName::spec_accepts);
        reveal(MessageChannelName::spec_decodes_to);
        reveal(MessageChannelPurpose::spec_accepts);
        reveal(MessageChannelPurpose::spec_decodes_to);
        reveal(MessageChannelTopic::spec_accepts);
        reveal(MessageChannelTopic::spec_decodes_to);
        reveal(MessageChannelUnarchive::spec_accepts);
        reveal(MessageChannelUnarchive::spec_decodes_to);
        reveal(MessageFileComment::spec_accepts);
        reveal(MessageFileComment::spec_decodes_to);
        reveal(MessageFileMention::spec_accepts);
        reveal(MessageFileMention::spec_decodes_to);
        reveal(MessageFileShare::spec_accepts);
        reveal(MessageFileShare::spec_decodes_to);
        reveal(MessageGroupArchive::spec_accepts);
        reveal(MessageGroupArchive::spec_decodes_to);
        reveal(MessageGroupJoin::spec_accepts);
        reveal(MessageGroupJoin::spec_decodes_to);
        reveal(MessageGroupLeave::spec_accepts);
        reveal(MessageGroupLeave::spec_decodes_to);
        reveal(MessageGroupName::spec_accepts);
        reveal(MessageGroupName::spec_decodes_to);
        reveal(MessageGroupPurpose::spec_accepts);
        reveal(MessageGroupPurpose::spec_decodes_to);
        reveal(MessageGroupTopic::spec_accepts);
        reveal(MessageGroupTopic::spec_decodes_to);
        reveal(MessageGroupUnarchive::spec_accepts);
        reveal(MessageGroupUnarchive::spec_decodes_to);
        reveal(MessageMeMessage::spec_accepts);
        reveal(MessageMeMessage::spec_decodes_to);
        reveal(MessageMessageChanged::spec_accepts);
        reveal(MessageMessageChanged::spec_decodes_to);
        reveal(MessageMessageDeleted::spec_accepts);
        reveal(MessageMessageDeleted::spec_decodes_to);
        reveal(MessageMessageReplied::spec_accepts);
        reveal(MessageMessageReplied::spec_decodes_to);
        reveal(MessagePinnedItem::spec_accepts);
        reveal(MessagePinnedItem::spec_decodes_to);
        reveal(MessageReplyBroadcast::spec_accepts);
        reveal(MessageReplyBroadcast::spec_decodes_to);
        reveal(MessageReminderAdd::spec_accepts);
        reveal(MessageReminderAdd::spec_decodes_to);
        reveal(MessageSlackbotResponse::spec_accepts);
        reveal(MessageSlackbotResponse::spec_decodes_to);
        reveal(MessageThreadBroadcast::spec_accepts);
        reveal(MessageThreadBroadcast::spec_decodes_to);
        reveal(MessageUnpinnedItem::spec_accepts);
        reveal(MessageUnpinnedItem::spec_decodes_to);
    }

    /// Decodes an event: its `type` field names the variant and is taken out of the
    /// object before the variant's record is decoded. Events nest at most
    /// `EVENT_NESTING_LIMIT` levels inside one another.
    pub fn decode_value(value: JsonValue) -> (r: Result<Event, TaggedUnionError>)
        ensures
            Event::result_at(value, EVENT_NESTING_LIMIT as nat, r),
    {
        Event::decode_nested(value, EVENT_NESTING_LIMIT)
    }

    fn decode_nested(value: JsonValue, depth: usize) -> (r: Result<Event, TaggedUnionError>)
        ensures
            Event::result_at(value, depth as nat, r),
            r is Ok <==> Event::accepts_at(value, depth as nat),
            r is Ok ==> Event::decodes_to_at(value, depth as nat, r->Ok_0),
        decreases depth, 3usize,
    {
        let names = Event::variant_names();
        let d = match dispatch_tagged(value, "Event", "type", names.as_slice(), TaggedPolicy::RequiredTag) {
            Ok(d) => d,
            Err(e) => return Err(e),
        };
        let variant = d.variant;
        let ghost payload = d.payload;
        let r = match Event::decode_record(variant, d.payload, depth) {
            Ok(e) => Ok(e),
            Err(e) => Err(
                TaggedUnionError::VariantDecodeFailed {
                    variant_name: names[variant].to_owned(),
                    inner_error: Box::new(e),
                },
            ),
        };
        proof {
            assert(is_payload(value, "type"@, TaggedPolicy::RequiredTag, payload));
            assert forall|p: JsonValue| #[trigger] is_payload(value, "type"@, TaggedPolicy::RequiredTag, p) implies
                Event::record_accepts_at(variant, p, depth as nat) == Event::record_accepts_at(variant, payload, depth as nat)
                && (forall|x: Event| Event::record_decodes_to_at(variant, p, depth as nat, x)
                    == Event::record_decodes_to_at(variant, payload, depth as nat, x)) by {
                Event::lemma_records_follow_entries(variant, p, payload, depth as nat);
            }
        }
        r
    }

    #[verifier::rlimit(100)]
    fn decode_record(variant: usize, payload: JsonValue, depth: usize) -> (r: Result<Event, DecodeError>)
        ensures
            r is Ok <==> Event::record_accepts_at(variant, payload, depth as nat),
            r is Ok ==> r->Ok_0.variant_of() == variant && Event::record_decodes_to_at(variant, payload, depth as nat, r->Ok_0),
            r is Err ==> Event::record_rejects_with_at(variant, payload, depth as nat, r->Err_0),
        decreases depth, 2usize,
    {

        proof {
            reveal_with_fuel(Event::record_accepts_at, 2);
            reveal_with_fuel(Event::record_decodes_to_at, 2);
            reveal_with_fuel(Event::record_rejects_with_at, 2);
        }
        if variant == 0 {
            let record: EventAppsChanged = Decode::decode(payload)?;
            Ok(Event::AppsChanged(record))
        } else if variant == 1 {
            let record: EventBotChanged = Decode::decode(payload)?;
            Ok(Event::BotChanged(record))
        } else if variant == 2 {
            let record: EventChannelMarked = Decode::decode(payload)?;
            Ok(Event::ChannelMarked(record))
        } else if variant == 3 {
            let record: EventDndUpdatedUser = Decode::decode(payload)?;
            Ok(Event::DndUpdatedUser(record))
        } else if variant == 4 {
            let record: EventFileChange = Decode::decode(payload)?;
            Ok(Event::FileChange(record))
        } else if variant == 5 {
            let record: EventFileCreated = Decode::decode(payload)?;
            Ok(Event::FileCreated(record))
        } else if variant == 6 {
            let record: EventFilePublic = Decode::decode(payload)?;
            Ok(Event::FilePublic(record))
        } else if variant == 7 {
            let record: EventFileShared = Decode::decode(payload)?;
            Ok(Event::FileShared(record))
        } else if variant == 8 {
            let record: EventGroupMarked = Decode::decode(payload)?;
            Ok(Event::GroupMarked(record))
        } else if variant == 9 {
            let record: EventHello = Decode::decode(payload)?;
            Ok(Event::Hello(record))
        } else if variant == 10 {
            let record: Message = Decode::decode(payload)?;
            Ok(Event::Message(record))
        } else if variant == 11 {
            let record: EventPinAdded = Decode::decode(payload)?;
            Ok(Event::PinAdded(record))
        } else if variant == 12 {
            let record: EventReactionAdded = EventReactionAdded::decode_nested(payload, depth)?;
            Ok(Event::ReactionAdded(record))
        } else if variant == 13 {
            let record: EventUserChange = Decode::decode(payload)?;
            Ok(Event::UserChange(record))
        } else if variant == 14 {
            let record: EventUserTyping = Decode::decode(payload)?;
            Ok(Event::UserTyping(record))
        } else {
            Err(DecodeError::WrongType { expected: "a variant of Event" })
        }
    }
}

/// Takes field `name` out of `fields` and decodes it as an event nested one level
/// below `depth`.
fn take_nested_event(fields: &mut Vec<(String, JsonValue)>, name: &str, depth: usize) -> (r: Result<
    Event,
    DecodeError,
>)
    ensures
        r is Ok <==> nested_event_ok(old(fields)@, name@, depth as nat),
        r is Ok ==> Event::decodes_to_at(value_of(old(fields)@, name@), (depth - 1) as nat, r->Ok_0),
        r is Err ==> nested_event_err(old(fields)@, name@, depth as nat, r->Err_0),
        final(fields)@ == taken(old(fields)@, name@),
    decreases depth, 0usize,
{
    let taken_value = take_field(fields, name);
    if depth == 0 {
        return Err(DecodeError::NestingTooDeep);
    }
    match taken_value {
        None => Err(DecodeError::MissingField { field: name.to_owned() }),
        Some(v) => match Event::decode_nested(v, depth - 1) {
            Ok(e) => Ok(e),
            Err(e) => Err(
                DecodeError::InvalidField { field: name.to_owned(), cause: Box::new(DecodeError::Tagged(Box::new(e))) },
            ),
        },
    }
}

/// Whether field `name` holds an event that decodes, nested one level below `depth`.
pub open spec fn nested_event_ok(fields: Seq<(String, JsonValue)>, name: Seq<char>, depth: nat) -> bool
    decreases depth, 0nat,
{
    depth > 0 && has_key(fields, name) && Event::accepts_at(value_of(fields, name), (depth - 1) as nat)
}

/// Whether `e` is the error reading field `name` as a nested event gives.
pub open spec fn nested_event_err(fields: Seq<(String, JsonValue)>, name: Seq<char>, depth: nat, e: DecodeError) -> bool
    decreases depth, 0nat,
{
    if depth == 0 {
        e == DecodeError::NestingTooDeep
    } else if !has_key(fields, name) {
        e is MissingField && e->MissingField_field@ == name
    } else {
        &&& e is InvalidField
        &&& e->InvalidField_field@ == name
        &&& *e->InvalidField_cause is Tagged
        &&& Event::result_at(value_of(fields, name), (depth - 1) as nat, Err(*(*e->InvalidField_cause)->Tagged_0))
    }
}

} // verus!
