use crate::id::{ConversationId, FileId, UserId};
use crate::json::{all_known, check_fields, field_failed, first_unknown_key, optional_ok, optional_value, required_err, required_ok, taken, value_of, into_fields, optional, required, Decode, DecodeError, JsonValue, TaggedUnionError};
use crate::tagged::{decode_tagged_union, is_payload, is_union_result, is_variant_result, selection, Selection, TaggedPolicy, VariantRecords};
use crate::timestamp::Timestamp;
use crate::types::{File, FileComment, Message, Paging};
use vstd::prelude::*;

verus! {

#[derive(Clone, Debug, PartialEq)]
pub struct AddRequest<'a> {
    /// Reaction (emoji) name.
    pub name: &'a str,
    /// File to add reaction to.
    pub file: Option<FileId>,
    /// Channel where the message to add reaction to was posted.
    pub channel: Option<ConversationId>,
    /// Timestamp of the message to add reaction to.
    pub timestamp: Option<Timestamp>,
}

#[derive(Clone, Debug, PartialEq)]
pub struct GetRequest {
    /// File to get reactions for.
    pub file: Option<FileId>,
    /// Channel where the message to get reactions for was posted.
    pub channel: Option<ConversationId>,
    /// Timestamp of the message to get reactions for.
    pub timestamp: Option<Timestamp>,
    /// If true always return the complete reaction list.
    pub full: Option<bool>,
}

#[derive(Clone, Debug, PartialEq)]
pub enum GetResponse {
    Message(GetResponseMessage),
    File(GetResponseFile),
    FileComment(GetResponseFileComment),
}

impl GetResponse {
    /// The tag value of each variant, in declaration order.
    pub open spec fn spec_variant_names() -> Seq<&'static str> {
        seq!["Message", "File", "FileComment"]
    }

    /// The tag value of each variant, in declaration order.
    pub fn variant_names() -> (r: Vec<&'static str>)
        ensures
            r@ == Self::spec_variant_names(),
    {
        vec!["Message", "File", "FileComment"]
    }
}

impl VariantRecords for GetResponse {
    open spec fn record_accepts(variant: usize, v: JsonValue) -> bool {
        if variant == 0 {
            <GetResponseMessage as Decode>::accepts(v)
        } else if variant == 1 {
            <GetResponseFile as Decode>::accepts(v)
        } else if variant == 2 {
            <GetResponseFileComment as Decode>::accepts(v)
        } else {
            false
        }
    }

    open spec fn record_decodes_to(variant: usize, v: JsonValue, x: GetResponse) -> bool {
        if variant == 0 {
            x is Message && <GetResponseMessage as Decode>::decodes_to(v, x->Message_0)
        } else if variant == 1 {
            x is File && <GetResponseFile as Decode>::decodes_to(v, x->File_0)
        } else if variant == 2 {
            x is FileComment && <GetResponseFileComment as Decode>::decodes_to(v, x->FileComment_0)
        } else {
            false
        }
    }

    open spec fn record_rejects_with(variant: usize, v: JsonValue, e: DecodeError) -> bool {
        if variant == 0 {
            <GetResponseMessage as Decode>::rejects_with(v, e)
        } else if variant == 1 {
            <GetResponseFile as Decode>::rejects_with(v, e)
        } else if variant == 2 {
            <GetResponseFileComment as Decode>::rejects_with(v, e)
        } else {
            e == (DecodeError::WrongType { expected: "a variant of GetResponse" })
        }
    }

    open spec fn variant_of(&self) -> usize {
        match self {
            GetResponse::Message(_) => 0,
            GetResponse::File(_) => 1,
            GetResponse::FileComment(_) => 2,
        }
    }

    fn decode_variant(variant: usize, payload: JsonValue) -> Result<GetResponse, DecodeError> {
        if variant == 0 {
            let record: GetResponseMessage = Decode::decode(payload)?;
            Ok(GetResponse::Message(record))
        } else if variant == 1 {
            let record: GetResponseFile = Decode::decode(payload)?;
            Ok(GetResponse::File(record))
        } else if variant == 2 {
            let record: GetResponseFileComment = Decode::decode(payload)?;
            Ok(GetResponse::FileComment(record))
        } else {
            Err(DecodeError::WrongType { expected: "a variant of GetResponse" })
        }
    }
}

impl GetResponse {
    /// The records' outcomes depend on a payload's entries alone.
    proof fn lemma_records_follow_entries(variant: usize, p1: JsonValue, p2: JsonValue)
        requires
            p1 is Object,
            p2 is Object,
            p1->Object_0@ == p2->Object_0@,
        ensures
            GetResponse::record_accepts(variant, p1) == GetResponse::record_accepts(variant, p2),
            forall|x: GetResponse| GetResponse::record_decodes_to(variant, p1, x) == GetResponse::record_decodes_to(variant, p2, x),
    {
        reveal(GetResponseMessage::spec_accepts);
        reveal(GetResponseMessage::spec_decodes_to);
        reveal(GetResponseFile::spec_accepts);
        reveal(GetResponseFile::spec_decodes_to);
        reveal(GetResponseFileComment::spec_accepts);
        reveal(GetResponseFileComment::spec_decodes_to);
    }
}

impl Decode for GetResponse {
    open spec fn accepts(v: JsonValue) -> bool {
        match selection(v, "type"@, GetResponse::spec_variant_names(), TaggedPolicy::RequiredTag) {
            Selection::Variant(i) => exists|p: JsonValue|
                #[trigger] is_payload(v, "type"@, TaggedPolicy::RequiredTag, p) && GetResponse::record_accepts(i, p),
            _ => false,
        }
    }

    open spec fn decodes_to(v: JsonValue, x: GetResponse) -> bool {
        match selection(v, "type"@, GetResponse::spec_variant_names(), TaggedPolicy::RequiredTag) {
            Selection::Variant(i) => x.variant_of() == i && exists|p: JsonValue|
                #[trigger] is_payload(v, "type"@, TaggedPolicy::RequiredTag, p) && GetResponse::record_decodes_to(i, p, x),
            _ => false,
        }
    }

    open spec fn rejects_with(v: JsonValue, e: DecodeError) -> bool {
        e is Tagged && is_union_result(
            v,
            "GetResponse"@,
            "type"@,
            GetResponse::spec_variant_names(),
            TaggedPolicy::RequiredTag,
            Err::<GetResponse, TaggedUnionError>(*e->Tagged_0),
        )
    }

    fn decode(v: JsonValue) -> Result<GetResponse, DecodeError> {
        let names = GetResponse::variant_names();
        let r = decode_tagged_union(v, "GetResponse", "type", names.as_slice(), TaggedPolicy::RequiredTag);
        proof {
            if let Selection::Variant(i) = selection(v, "type"@, GetResponse::spec_variant_names(), TaggedPolicy::RequiredTag) {
                let p0 = choose|p: JsonValue| is_payload(v, "type"@, TaggedPolicy::RequiredTag, p) && is_variant_result(i, p, names@, r);
                assert forall|p: JsonValue| #[trigger] is_payload(v, "type"@, TaggedPolicy::RequiredTag, p) implies
                    GetResponse::record_accepts(i, p) == GetResponse::record_accepts(i, p0)
                    && (forall|x: GetResponse| GetResponse::record_decodes_to(i, p, x) == GetResponse::record_decodes_to(i, p0, x)) by {
                    GetResponse::lemma_records_follow_entries(i, p, p0);
                }
            }
        }
        match r {
            Ok(x) => Ok(x),
            Err(e) => Err(DecodeError::Tagged(Box::new(e))),
        }
    }
}

#[derive(Clone, Debug, PartialEq)]
pub struct GetResponseFile {
    ok: bool,
    pub file: File,
}

impl GetResponseFile {
    /// The fields the record declares; it admits no others.
    pub open spec fn declared_fields() -> Seq<&'static str> {
        seq!["ok", "file"]
    }
}

impl GetResponseFile {
    /// Whether `v` decodes as the record: an object whose fields read in order.
    #[verifier::opaque]
    pub open spec fn spec_accepts(v: JsonValue) -> bool {
        match v {
            JsonValue::Object(w) => {
                let left0 = w@;
                let left1 = taken(left0, "ok"@);
                &&& all_known(left0, GetResponseFile::declared_fields())
                &&& required_ok::<bool>(left0, "ok"@)
                &&& required_ok::<File>(left1, "file"@)
            },
            _ => false,
        }
    }

    /// Whether `x` holds what the fields of `v` read as.
    #[verifier::opaque]
    pub closed spec fn spec_decodes_to(v: JsonValue, x: GetResponseFile) -> bool {
        match v {
            JsonValue::Object(w) => {
                let left0 = w@;
                let left1 = taken(left0, "ok"@);
                &&& <bool as Decode>::decodes_to(value_of(left0, "ok"@), x.ok)
                &&& <File as Decode>::decodes_to(value_of(left1, "file"@), x.file)
            },
            _ => false,
        }
    }

    /// Whether `e` is the error of the first check or field that fails on `v`.
    #[verifier::opaque]
    pub open spec fn spec_rejects_with(v: JsonValue, e: DecodeError) -> bool {
        match v {
            JsonValue::Object(w) => {
                let left0 = w@;
                let left1 = taken(left0, "ok"@);
                if !all_known(left0, GetResponseFile::declared_fields()) {
                    e == (DecodeError::UnknownField { field: first_unknown_key(left0, GetResponseFile::declared_fields()) })
                } else if !required_ok::<bool>(left0, "ok"@) {
                    required_err::<bool>(left0, "ok"@, e)
                } else if !required_ok::<File>(left1, "file"@) {
                    required_err::<File>(left1, "file"@, e)
                } else {
                    false
                }
            },
            _ => e == (DecodeError::WrongType { expected: "object" }),
        }
    }
}

impl Decode for GetResponseFile {
    open spec fn accepts(v: JsonValue) -> bool {
        GetResponseFile::spec_accepts(v)
    }

    open spec fn decodes_to(v: JsonValue, x: GetResponseFile) -> bool {
        GetResponseFile::spec_decodes_to(v, x)
    }

    open spec fn rejects_with(v: JsonValue, e: DecodeError) -> bool {
        GetResponseFile::spec_rejects_with(v, e)
    }

    fn decode(v: JsonValue) -> Result<GetResponseFile, DecodeError> {
        proof {
            reveal(GetResponseFile::spec_accepts);
            reveal(GetResponseFile::spec_decodes_to);
            reveal(GetResponseFile::spec_rejects_with);
        }
        let mut wire = into_fields(v)?;
        let known: &[&str] = &["ok", "file"];
        assert(known@ =~= GetResponseFile::declared_fields());
        check_fields(&wire, known)?;
        let ok: bool = required(&mut wire, "ok")?;
        let file: File = required(&mut wire, "file")?;
        Ok(GetResponseFile { ok, file })
    }
}

#[derive(Clone, Debug, PartialEq)]
pub struct GetResponseFileComment {
    ok: bool,
    pub comment: FileComment,
    pub file: File,
}

impl GetResponseFileComment {
    /// Whether `v` decodes as the record: an object whose fields read in order.
    #[verifier::opaque]
    pub open spec fn spec_accepts(v: JsonValue) -> bool {
        match v {
            JsonValue::Object(w) => {
                let left0 = w@;
                let left1 = taken(left0, "ok"@);
                let left2 = taken(left1, "comment"@);
                &&& required_ok::<bool>(left0, "ok"@)
                &&& required_ok::<FileComment>(left1, "comment"@)
                &&& required_ok::<File>(left2, "file"@)
            },
            _ => false,
        }
    }

    /// Whether `x` holds what the fields of `v` read as.
    #[verifier::opaque]
    pub closed spec fn spec_decodes_to(v: JsonValue, x: GetResponseFileComment) -> bool {
        match v {
            JsonValue::Object(w) => {
                let left0 = w@;
                let left1 = taken(left0, "ok"@);
                let left2 = taken(left1, "comment"@);
                &&& <bool as Decode>::decodes_to(value_of(left0, "ok"@), x.ok)
                &&& <FileComment as Decode>::decodes_to(value_of(left1, "comment"@), x.comment)
                &&& <File as Decode>::decodes_to(value_of(left2, "file"@), x.file)
            },
            _ => false,
        }
    }

    /// Whether `e` is the error of the first check or field that fails on `v`.
    #[verifier::opaque]
    pub open spec fn spec_rejects_with(v: JsonValue, e: DecodeError) -> bool {
        match v {
            JsonValue::Object(w) => {
                let left0 = w@;
                let left1 = taken(left0, "ok"@);
                let left2 = taken(left1, "comment"@);
                if !required_ok::<bool>(left0, "ok"@) {
                    required_err::<bool>(left0, "ok"@, e)
                } else if !required_ok::<FileComment>(left1, "comment"@) {
                    required_err::<FileComment>(left1, "comment"@, e)
                } else if !required_ok::<File>(left2, "file"@) {
                    required_err::<File>(left2, "file"@, e)
                } else {
                    false
                }
            },
            _ => e == (DecodeError::WrongType { expected: "object" }),
        }
    }
}

impl Decode for GetResponseFileComment {
    open spec fn accepts(v: JsonValue) -> bool {
        GetResponseFileComment::spec_accepts(v)
    }

    open spec fn decodes_to(v: JsonValue, x: GetResponseFileComment) -> bool {
        GetResponseFileComment::spec_decodes_to(v, x)
    }

    open spec fn rejects_with(v: JsonValue, e: DecodeError) -> bool {
        GetResponseFileComment::spec_rejects_with(v, e)
    }

    fn decode(v: JsonValue) -> Result<GetResponseFileComment, DecodeError> {
        proof {
            reveal(GetResponseFileComment::spec_accepts);
            reveal(GetResponseFileComment::spec_decodes_to);
            reveal(GetResponseFileComment::spec_rejects_with);
        }
        let mut wire = into_fields(v)?;
        let ok: bool = required(&mut wire, "ok")?;
        let comment: FileComment = required(&mut wire, "comment")?;
        let file: File = required(&mut wire, "file")?;
        Ok(GetResponseFileComment { ok, comment, file })
    }
}

#[derive(Clone, Debug, PartialEq)]
pub struct GetResponseMessage {
    ok: bool,
    pub channel: String,
    pub message: Message,
}

impl GetResponseMessage {
    /// Whether `v` decodes as the record: an object whose fields read in order.
    #[verifier::opaque]
    pub open spec fn spec_accepts(v: JsonValue) -> bool {
        match v {
            JsonValue::Object(w) => {
                let left0 = w@;
                let left1 = taken(left0, "ok"@);
                let left2 = taken(left1, "channel"@);
                &&& required_ok::<bool>(left0, "ok"@)
                &&& required_ok::<String>(left1, "channel"@)
                &&& required_ok::<Message>(left2, "message"@)
            },
            _ => false,
        }
    }

    /// Whether `x` holds what the fields of `v` read as.
    #[verifier::opaque]
    pub closed spec fn spec_decodes_to(v: JsonValue, x: GetResponseMessage) -> bool {
        match v {
            JsonValue::Object(w) => {
                let left0 = w@;
                let left1 = taken(left0, "ok"@);
                let left2 = taken(left1, "channel"@);
                &&& <bool as Decode>::decodes_to(value_of(left0, "ok"@), x.ok)
                &&& <String as Decode>::decodes_to(value_of(left1, "channel"@), x.channel)
                &&& <Message as Decode>::decodes_to(value_of(left2, "message"@), x.message)
            },
            _ => false,
        }
    }

    /// Whether `e` is the error of the first check or field that fails on `v`.
    #[verifier::opaque]
    pub open spec fn spec_rejects_with(v: JsonValue, e: DecodeError) -> bool {
        match v {
            JsonValue::Object(w) => {
                let left0 = w@;
                let left1 = taken(left0, "ok"@);
                let left2 = taken(left1, "channel"@);
                if !required_ok::<bool>(left0, "ok"@) {
                    required_err::<bool>(left0, "ok"@, e)
                } else if !required_ok::<String>(left1, "channel"@) {
                    required_err::<String>(left1, "channel"@, e)
                } else if !required_ok::<Message>(left2, "message"@) {
                    required_err::<Message>(left2, "message"@, e)
                } else {
                    false
                }
            },
            _ => e == (DecodeError::WrongType { expected: "object" }),
        }
    }
}

impl Decode for GetResponseMessage {
    open spec fn accepts(v: JsonValue) -> bool {
        GetResponseMessage::spec_accepts(v)
    }

    open spec fn decodes_to(v: JsonValue, x: GetResponseMessage) -> bool {
        GetResponseMessage::spec_decodes_to(v, x)
    }

    open spec fn rejects_with(v: JsonValue, e: DecodeError) -> bool {
        GetResponseMessage::spec_rejects_with(v, e)
    }

    fn decode(v: JsonValue) -> Result<GetResponseMessage, DecodeError> {
        proof {
            reveal(GetResponseMessage::spec_accepts);
            reveal(GetResponseMessage::spec_decodes_to);
            reveal(GetResponseMessage::spec_rejects_with);
        }
        let mut wire = into_fields(v)?;
        let ok: bool = required(&mut wire, "ok")?;
        let channel: String = required(&mut wire, "channel")?;
        let message: Message = required(&mut wire, "message")?;
        Ok(GetResponseMessage { ok, channel, message })
    }
}

#[derive(Clone, Debug, PartialEq)]
pub struct ListRequest {
    /// Show reactions made by this user. Defaults to the authed user.
    pub user: Option<UserId>,
    /// If true always return the complete reaction list.
    pub full: Option<bool>,
    /// Number of items to return per page.
    pub count: Option<u32>,
    /// Page number of results to return.
    pub page: Option<u32>,
}

#[derive(Clone, Debug, PartialEq)]
pub struct ListResponse {
    ok: bool,
    pub items: Option<Vec<ListResponseItem>>,
    pub paging: Option<Paging>,
}

impl ListResponse {
    /// The fields the record declares; it admits no others.
    pub open spec fn declared_fields() -> Seq<&'static str> {
        seq!["ok", "items", "paging"]
    }
}

impl ListResponse {
    /// Whether `v` decodes as the record: an object whose fields read in order.
    #[verifier::opaque]
    pub open spec fn spec_accepts(v: JsonValue) -> bool {
        match v {
            JsonValue::Object(w) => {
                let left0 = w@;
                let left1 = taken(left0, "ok"@);
                let left2 = taken(left1, "items"@);
                &&& all_known(left0, ListResponse::declared_fields())
                &&& required_ok::<bool>(left0, "ok"@)
                &&& optional_ok::<Vec<ListResponseItem>>(left1, "items"@)
                &&& optional_ok::<Paging>(left2, "paging"@)
            },
            _ => false,
        }
    }

    /// Whether `x` holds what the fields of `v` read as.
    #[verifier::opaque]
    pub closed spec fn spec_decodes_to(v: JsonValue, x: ListResponse) -> bool {
        match v {
            JsonValue::Object(w) => {
                let left0 = w@;
                let left1 = taken(left0, "ok"@);
                let left2 = taken(left1, "items"@);
                &&& <bool as Decode>::decodes_to(value_of(left0, "ok"@), x.ok)
                &&& optional_value::<Vec<ListResponseItem>>(left1, "items"@, x.items)
                &&& optional_value::<Paging>(left2, "paging"@, x.paging)
            },
            _ => false,
        }
    }

    /// Whether `e` is the error of the first check or field that fails on `v`.
    #[verifier::opaque]
    pub open spec fn spec_rejects_with(v: JsonValue, e: DecodeError) -> bool {
        match v {
            JsonValue::Object(w) => {
                let left0 = w@;
                let left1 = taken(left0, "ok"@);
                let left2 = taken(left1, "items"@);
                if !all_known(left0, ListResponse::declared_fields()) {
                    e == (DecodeError::UnknownField { field: first_unknown_key(left0, ListResponse::declared_fields()) })
                } else if !required_ok::<bool>(left0, "ok"@) {
                    required_err::<bool>(left0, "ok"@, e)
                } else if !optional_ok::<Vec<ListResponseItem>>(left1, "items"@) {
                    field_failed::<Vec<ListResponseItem>>(left1, "items"@, e)
                } else if !optional_ok::<Paging>(left2, "paging"@) {
                    field_failed::<Paging>(left2, "paging"@, e)
                } else {
                    false
                }
            },
            _ => e == (DecodeError::WrongType { expected: "object" }),
        }
    }
}

impl Decode for ListResponse {
    open spec fn accepts(v: JsonValue) -> bool {
        ListResponse::spec_accepts(v)
    }

    open spec fn decodes_to(v: JsonValue, x: ListResponse) -> bool {
        ListResponse::spec_decodes_to(v, x)
    }

    open spec fn rejects_with(v: JsonValue, e: DecodeError) -> bool {
        ListResponse::spec_rejects_with(v, e)
    }

    fn decode(v: JsonValue) -> Result<ListResponse, DecodeError> {
        proof {
            reveal(ListResponse::spec_accepts);
            reveal(ListResponse::spec_decodes_to);
            reveal(ListResponse::spec_rejects_with);
        }
        let mut wire = into_fields(v)?;
        let known: &[&str] = &["ok", "items", "paging"];
        assert(known@ =~= ListResponse::declared_fields());
        check_fields(&wire, known)?;
        let ok: bool = required(&mut wire, "ok")?;
        let items: Option<Vec<ListResponseItem>> = optional(&mut wire, "items")?;
        let paging: Option<Paging> = optional(&mut wire, "paging")?;
        Ok(ListResponse { ok, items, paging })
    }
}

#[derive(Clone, Debug, PartialEq)]
pub enum ListResponseItem {
    Message(ListResponseItemMessage),
    File(ListResponseItemFile),
    FileComment(ListResponseItemFileComment),
}

impl ListResponseItem {
    /// The tag value of each variant, in declaration order.
    pub open spec fn spec_variant_names() -> Seq<&'static str> {
        seq!["Message", "File", "FileComment"]
    }

    /// The tag value of each variant, in declaration order.
    pub fn variant_names() -> (r: Vec<&'static str>)
        ensures
            r@ == Self::spec_variant_names(),
    {
        vec!["Message", "File", "FileComment"]
    }
}

impl VariantRecords for ListResponseItem {
    open spec fn record_accepts(variant: usize, v: JsonValue) -> bool {
        if variant == 0 {
            <ListResponseItemMessage as Decode>::accepts(v)
        } else if variant == 1 {
            <ListResponseItemFile as Decode>::accepts(v)
        } else if variant == 2 {
            <ListResponseItemFileComment as Decode>::accepts(v)
        } else {
            false
        }
    }

    open spec fn record_decodes_to(variant: usize, v: JsonValue, x: ListResponseItem) -> bool {
        if variant == 0 {
            x is Message && <ListResponseItemMessage as Decode>::decodes_to(v, x->Message_0)
        } else if variant == 1 {
            x is File && <ListResponseItemFile as Decode>::decodes_to(v, x->File_0)
        } else if variant == 2 {
            x is FileComment && <ListResponseItemFileComment as Decode>::decodes_to(v, x->FileComment_0)
        } else {
            false
        }
    }

    open spec fn record_rejects_with(variant: usize, v: JsonValue, e: DecodeError) -> bool {
        if variant == 0 {
            <ListResponseItemMessage as Decode>::rejects_with(v, e)
        } else if variant == 1 {
            <ListResponseItemFile as Decode>::rejects_with(v, e)
        } else if variant == 2 {
            <ListResponseItemFileComment as Decode>::rejects_with(v, e)
        } else {
            e == (DecodeError::WrongType { expected: "a variant of ListResponseItem" })
        }
    }

    open spec fn variant_of(&self) -> usize {
        match self {
            ListResponseItem::Message(_) => 0,
            ListResponseItem::File(_) => 1,
            ListResponseItem::FileComment(_) => 2,
        }
    }

    fn decode_variant(variant: usize, payload: JsonValue) -> Result<ListResponseItem, DecodeError> {
        if variant == 0 {
            let record: ListResponseItemMessage = Decode::decode(payload)?;
            Ok(ListResponseItem::Message(record))
        } else if variant == 1 {
            let record: ListResponseItemFile = Decode::decode(payload)?;
            Ok(ListResponseItem::File(record))
        } else if variant == 2 {
            let record: ListResponseItemFileComment = Decode::decode(payload)?;
            Ok(ListResponseItem::FileComment(record))
        } else {
            Err(DecodeError::WrongType { expected: "a variant of ListResponseItem" })
        }
    }
}

impl ListResponseItem {
    /// The records' outcomes depend on a payload's entries alone.
    proof fn lemma_records_follow_entries(variant: usize, p1: JsonValue, p2: JsonValue)
        requires
            p1 is Object,
            p2 is Object,
            p1->Object_0@ == p2->Object_0@,
        ensures
            ListResponseItem::record_accepts(variant, p1) == ListResponseItem::record_accepts(variant, p2),
            forall|x: ListResponseItem| ListResponseItem::record_decodes_to(variant, p1, x) == ListResponseItem::record_decodes_to(variant, p2, x),
    {
        reveal(ListResponseItemMessage::spec_accepts);
        reveal(ListResponseItemMessage::spec_decodes_to);
        reveal(ListResponseItemFile::spec_accepts);
        reveal(ListResponseItemFile::spec_decodes_to);
        reveal(ListResponseItemFileComment::spec_accepts);
        reveal(ListResponseItemFileComment::spec_decodes_to);
    }
}

impl Decode for ListResponseItem {
    open spec fn accepts(v: JsonValue) -> bool {
        match selection(v, "type"@, ListResponseItem::spec_variant_names(), TaggedPolicy::RequiredTag) {
            Selection::Variant(i) => exists|p: JsonValue|
                #[trigger] is_payload(v, "type"@, TaggedPolicy::RequiredTag, p) && ListResponseItem::record_accepts(i, p),
            _ => false,
        }
    }

    open spec fn decodes_to(v: JsonValue, x: ListResponseItem) -> bool {
        match selection(v, "type"@, ListResponseItem::spec_variant_names(), TaggedPolicy::RequiredTag) {
            Selection::Variant(i) => x.variant_of() == i && exists|p: JsonValue|
                #[trigger] is_payload(v, "type"@, TaggedPolicy::RequiredTag, p) && ListResponseItem::record_decodes_to(i, p, x),
            _ => false,
        }
    }

    open spec fn rejects_with(v: JsonValue, e: DecodeError) -> bool {
        e is Tagged && is_union_result(
            v,
            "ListResponseItem"@,
            "type"@,
            ListResponseItem::spec_variant_names(),
            TaggedPolicy::RequiredTag,
            Err::<ListResponseItem, TaggedUnionError>(*e->Tagged_0),
        )
    }

    fn decode(v: JsonValue) -> Result<ListResponseItem, DecodeError> {
        let names = ListResponseItem::variant_names();
        let r = decode_tagged_union(v, "ListResponseItem", "type", names.as_slice(), TaggedPolicy::RequiredTag);
        proof {
            if let Selection::Variant(i) = selection(v, "type"@, ListResponseItem::spec_variant_names(), TaggedPolicy::RequiredTag) {
                let p0 = choose|p: JsonValue| is_payload(v, "type"@, TaggedPolicy::RequiredTag, p) && is_variant_result(i, p, names@, r);
                assert forall|p: JsonValue| #[trigger] is_payload(v, "type"@, TaggedPolicy::RequiredTag, p) implies
                    ListResponseItem::record_accepts(i, p) == ListResponseItem::record_accepts(i, p0)
                    && (forall|x: ListResponseItem| ListResponseItem::record_decodes_to(i, p, x) == ListResponseItem::record_decodes_to(i, p0, x)) by {
                    ListResponseItem::lemma_records_follow_entries(i, p, p0);
                }
            }
        }
        match r {
            Ok(x) => Ok(x),
            Err(e) => Err(DecodeError::Tagged(Box::new(e))),
        }
    }
}

#[derive(Clone, Debug, PartialEq)]
pub struct ListResponseItemFile {
    pub file: File,
}

impl ListResponseItemFile {
    /// The fields the record declares; it admits no others.
    pub open spec fn declared_fields() -> Seq<&'static str> {
        seq!["file"]
    }
}

impl ListResponseItemFile {
    /// Whether `v` decodes as the record: an object whose fields read in order.
    #[verifier::opaque]
    pub open spec fn spec_accepts(v: JsonValue) -> bool {
        match v {
            JsonValue::Object(w) => {
                let left0 = w@;
                &&& all_known(left0, ListResponseItemFile::declared_fields())
                &&& required_ok::<File>(left0, "file"@)
            },
            _ => false,
        }
    }

    /// Whether `x` holds what the fields of `v` read as.
    #[verifier::opaque]
    pub open spec fn spec_decodes_to(v: JsonValue, x: ListResponseItemFile) -> bool {
        match v {
            JsonValue::Object(w) => {
                let left0 = w@;
                &&& <File as Decode>::decodes_to(value_of(left0, "file"@), x.file)
            },
            _ => false,
        }
    }

    /// Whether `e` is the error of the first check or field that fails on `v`.
    #[verifier::opaque]
    pub open spec fn spec_rejects_with(v: JsonValue, e: DecodeError) -> bool {
        match v {
            JsonValue::Object(w) => {
                let left0 = w@;
                if !all_known(left0, ListResponseItemFile::declared_fields()) {
                    e == (DecodeError::UnknownField { field: first_unknown_key(left0, ListResponseItemFile::declared_fields()) })
                } else if !required_ok::<File>(left0, "file"@) {
                    required_err::<File>(left0, "file"@, e)
                } else {
                    false
                }
            },
            _ => e == (DecodeError::WrongType { expected: "object" }),
        }
    }
}

impl Decode for ListResponseItemFile {
    open spec fn accepts(v: JsonValue) -> bool {
        ListResponseItemFile::spec_accepts(v)
    }

    open spec fn decodes_to(v: JsonValue, x: ListResponseItemFile) -> bool {
        ListResponseItemFile::spec_decodes_to(v, x)
    }

    open spec fn rejects_with(v: JsonValue, e: DecodeError) -> bool {
        ListResponseItemFile::spec_rejects_with(v, e)
    }

    fn decode(v: JsonValue) -> Result<ListResponseItemFile, DecodeError> {
        proof {
            reveal(ListResponseItemFile::spec_accepts);
            reveal(ListResponseItemFile::spec_decodes_to);
            reveal(ListResponseItemFile::spec_rejects_with);
        }
        let mut wire = into_fields(v)?;
        let known: &[&str] = &["file"];
        assert(known@ =~= ListResponseItemFile::declared_fields());
        check_fields(&wire, known)?;
        let file: File = required(&mut wire, "file")?;
        Ok(ListResponseItemFile { file })
    }
}

#[derive(Clone, Debug, PartialEq)]
pub struct ListResponseItemFileComment {
    pub comment: FileComment,
    pub file: File,
}

impl ListResponseItemFileComment {
    /// The fields the record declares; it admits no others.
    pub open spec fn declared_fields() -> Seq<&'static str> {
        seq!["comment", "file"]
    }
}

impl ListResponseItemFileComment {
    /// Whether `v` decodes as the record: an object whose fields read in order.
    #[verifier::opaque]
    pub open spec fn spec_accepts(v: JsonValue) -> bool {
        match v {
            JsonValue::Object(w) => {
                let left0 = w@;
                let left1 = taken(left0, "comment"@);
                &&& all_known(left0, ListResponseItemFileComment::declared_fields())
                &&& required_ok::<FileComment>(left0, "comment"@)
                &&& required_ok::<File>(left1, "file"@)
            },
            _ => false,
        }
    }

    /// Whether `x` holds what the fields of `v` read as.
    #[verifier::opaque]
    pub open spec fn spec_decodes_to(v: JsonValue, x: ListResponseItemFileComment) -> bool {
        match v {
            JsonValue::Object(w) => {
                let left0 = w@;
                let left1 = taken(left0, "comment"@);
                &&& <FileComment as Decode>::decodes_to(value_of(left0, "comment"@), x.comment)
                &&& <File as Decode>::decodes_to(value_of(left1, "file"@), x.file)
            },
            _ => false,
        }
    }

    /// Whether `e` is the error of the first check or field that fails on `v`.
    #[verifier::opaque]
    pub open spec fn spec_rejects_with(v: JsonValue, e: DecodeError) -> bool {
        match v {
            JsonValue::Object(w) => {
                let left0 = w@;
                let left1 = taken(left0, "comment"@);
                if !all_known(left0, ListResponseItemFileComment::declared_fields()) {
                    e == (DecodeError::UnknownField { field: first_unknown_key(left0, ListResponseItemFileComment::declared_fields()) })
                } else if !required_ok::<FileComment>(left0, "comment"@) {
                    required_err::<FileComment>(left0, "comment"@, e)
                } else if !required_ok::<File>(left1, "file"@) {
                    required_err::<File>(left1, "file"@, e)
                } else {
                    false
                }
            },
            _ => e == (DecodeError::WrongType { expected: "object" }),
        }
    }
}

impl Decode for ListResponseItemFileComment {
    open spec fn accepts(v: JsonValue) -> bool {
        ListResponseItemFileComment::spec_accepts(v)
    }

    open spec fn decodes_to(v: JsonValue, x: ListResponseItemFileComment) -> bool {
        ListResponseItemFileComment::spec_decodes_to(v, x)
    }

    open spec fn rejects_with(v: JsonValue, e: DecodeError) -> bool {
        ListResponseItemFileComment::spec_rejects_with(v, e)
    }

    fn decode(v: JsonValue) -> Result<ListResponseItemFileComment, DecodeError> {
        proof {
            reveal(ListResponseItemFileComment::spec_accepts);
            reveal(ListResponseItemFileComment::spec_decodes_to);
            reveal(ListResponseItemFileComment::spec_rejects_with);
        }
        let mut wire = into_fields(v)?;
        let known: &[&str] = &["comment", "file"];
        assert(known@ =~= ListResponseItemFileComment::declared_fields());
        check_fields(&wire, known)?;
        let comment: FileComment = required(&mut wire, "comment")?;
        let file: File = required(&mut wire, "file")?;
        Ok(ListResponseItemFileComment { comment, file })
    }
}

#[derive(Clone, Debug, PartialEq)]
pub struct ListResponseItemMessage {
    pub channel: String,
    pub message: Message,
}

impl ListResponseItemMessage {
    /// The fields the record declares; it admits no others.
    pub open spec fn declared_fields() -> Seq<&'static str> {
        seq!["channel", "message"]
    }
}

impl ListResponseItemMessage {
    /// Whether `v` decodes as the record: an object whose fields read in order.
    #[verifier::opaque]
    pub open spec fn spec_accepts(v: JsonValue) -> bool {
        match v {
            JsonValue::Object(w) => {
                let left0 = w@;
                let left1 = taken(left0, "channel"@);
                &&& all_known(left0, ListResponseItemMessage::declared_fields())
                &&& required_ok::<String>(left0, "channel"@)
                &&& required_ok::<Message>(left1, "message"@)
            },
            _ => false,
        }
    }

    /// Whether `x` holds what the fields of `v` read as.
    #[verifier::opaque]
    pub open spec fn spec_decodes_to(v: JsonValue, x: ListResponseItemMessage) -> bool {
        match v {
            JsonValue::Object(w) => {
                let left0 = w@;
                let left1 = taken(left0, "channel"@);
                &&& <String as Decode>::decodes_to(value_of(left0, "channel"@), x.channel)
                &&& <Message as Decode>::decodes_to(value_of(left1, "message"@), x.message)
            },
            _ => false,
        }
    }

    /// Whether `e` is the error of the first check or field that fails on `v`.
    #[verifier::opaque]
    pub open spec fn spec_rejects_with(v: JsonValue, e: DecodeError) -> bool {
        match v {
            JsonValue::Object(w) => {
                let left0 = w@;
                let left1 = taken(left0, "channel"@);
                if !all_known(left0, ListResponseItemMessage::declared_fields()) {
                    e == (DecodeError::UnknownField { field: first_unknown_key(left0, ListResponseItemMessage::declared_fields()) })
                } else if !required_ok::<String>(left0, "channel"@) {
                    required_err::<String>(left0, "channel"@, e)
                } else if !required_ok::<Message>(left1, "message"@) {
                    required_err::<Message>(left1, "message"@, e)
                } else {
                    false
                }
            },
            _ => e == (DecodeError::WrongType { expected: "object" }),
        }
    }
}

impl Decode for ListResponseItemMessage {
    open spec fn accepts(v: JsonValue) -> bool {
        ListResponseItemMessage::spec_accepts(v)
    }

    open spec fn decodes_to(v: JsonValue, x: ListResponseItemMessage) -> bool {
        ListResponseItemMessage::spec_decodes_to(v, x)
    }

    open spec fn rejects_with(v: JsonValue, e: DecodeError) -> bool {
        ListResponseItemMessage::spec_rejects_with(v, e)
    }

    fn decode(v: JsonValue) -> Result<ListResponseItemMessage, DecodeError> {
        proof {
            reveal(ListResponseItemMessage::spec_accepts);
            reveal(ListResponseItemMessage::spec_decodes_to);
            reveal(ListResponseItemMessage::spec_rejects_with);
        }
        let mut wire = into_fields(v)?;
        let known: &[&str] = &["channel", "message"];
        assert(known@ =~= ListResponseItemMessage::declared_fields());
        check_fields(&wire, known)?;
        let channel: String = required(&mut wire, "channel")?;
        let message: Message = required(&mut wire, "message")?;
        Ok(ListResponseItemMessage { channel, message })
    }
}

#[derive(Clone, Debug, PartialEq)]
pub struct RemoveRequest<'a> {
    /// Reaction (emoji) name.
    pub name: &'a str,
    /// File to remove reaction from.
    pub file: Option<FileId>,
    /// Channel where the message to remove reaction from was posted.
    pub channel: Option<ConversationId>,
    /// Timestamp of the message to remove reaction from.
    pub timestamp: Option<Timestamp>,
}

} // verus!
