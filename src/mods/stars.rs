use crate::id::{ChannelId, FileId};
use crate::json::{all_known, check_fields, field_failed, first_unknown_key, optional_ok, optional_value, required_err, required_ok, taken, value_of, into_fields, optional, required, Decode, DecodeError, JsonValue, TaggedUnionError};
use crate::tagged::{decode_tagged_union, is_payload, is_union_result, is_variant_result, selection, Selection, TaggedPolicy, VariantRecords};
use crate::timestamp::Timestamp;
use crate::types::{Channel, File, FileComment, Group, Im, Message, Paging};
use vstd::prelude::*;

verus! {

#[derive(Clone, Debug, PartialEq)]
pub struct AddRequest {
    /// File to add star to.
    pub file: Option<FileId>,
    /// Channel to add star to, or channel where the message to add star to was posted (used with timestamp).
    pub channel: Option<ChannelId>,
    /// Timestamp of the message to add star to.
    pub timestamp: Option<Timestamp>,
}

#[derive(Clone, Debug, PartialEq)]
pub struct ListRequest {
    /// Number of items to return per page.
    pub count: Option<u32>,
    /// Page number of results to return.
    pub page: Option<u32>,
}

#[derive(Clone, Debug, PartialEq)]
pub struct ListResponse {
    ok: bool,
    pub items: Option<Vec<ListResponseItem>>,
    pub paging: Option<Paging>,
}

impl ListResponse {
    /// The fields the record declares; it admits no others.
    pub open spec fn declared_fields() -> Seq<&'static str> {
        seq!["ok", "items", "paging"]
    }
}

impl ListResponse {
    /// Whether `v` decodes as the record: an object whose fields read in order.
    #[verifier::opaque]
    pub open spec fn spec_accepts(v: JsonValue) -> bool {
        match v {
            JsonValue::Object(w) => {
                let left0 = w@;
                let left1 = taken(left0, "ok"@);
                let left2 = taken(left1, "items"@);
                &&& all_known(left0, ListResponse::declared_fields())
                &&& required_ok::<bool>(left0, "ok"@)
                &&& optional_ok::<Vec<ListResponseItem>>(left1, "items"@)
                &&& optional_ok::<Paging>(left2, "paging"@)
            },
            _ => false,
        }
    }

    /// Whether `x` holds what the fields of `v` read as.
    #[verifier::opaque]
    pub closed spec fn spec_decodes_to(v: JsonValue, x: ListResponse) -> bool {
        match v {
            JsonValue::Object(w) => {
                let left0 = w@;
                let left1 = taken(left0, "ok"@);
                let left2 = taken(left1, "items"@);
                &&& <bool as Decode>::decodes_to(value_of(left0, "ok"@), x.ok)
                &&& optional_value::<Vec<ListResponseItem>>(left1, "items"@, x.items)
                &&& optional_value::<Paging>(left2, "paging"@, x.paging)
            },
            _ => false,
        }
    }

    /// Whether `e` is the error of the first check or field that fails on `v`.
    #[verifier::opaque]
    pub open spec fn spec_rejects_with(v: JsonValue, e: DecodeError) -> bool {
        match v {
            JsonValue::Object(w) => {
                let left0 = w@;
                let left1 = taken(left0, "ok"@);
                let left2 = taken(left1, "items"@);
                if !all_known(left0, ListResponse::declared_fields()) {
                    e == (DecodeError::UnknownField { field: first_unknown_key(left0, ListResponse::declared_fields()) })
                } else if !required_ok::<bool>(left0, "ok"@) {
                    required_err::<bool>(left0, "ok"@, e)
                } else if !optional_ok::<Vec<ListResponseItem>>(left1, "items"@) {
                    field_failed::<Vec<ListResponseItem>>(left1, "items"@, e)
                } else if !optional_ok::<Paging>(left2, "paging"@) {
                    field_failed::<Paging>(left2, "paging"@, e)
                } else {
                    false
                }
            },
            _ => e == (DecodeError::WrongType { expected: "object" }),
        }
    }
}

impl Decode for ListResponse {
    open spec fn accepts(v: JsonValue) -> bool {
        ListResponse::spec_accepts(v)
    }

    open spec fn decodes_to(v: JsonValue, x: ListResponse) -> bool {
        ListResponse::spec_decodes_to(v, x)
    }

    open spec fn rejects_with(v: JsonValue, e: DecodeError) -> bool {
        ListResponse::spec_rejects_with(v, e)
    }

    fn decode(v: JsonValue) -> Result<ListResponse, DecodeError> {
        proof {
            reveal(ListResponse::spec_accepts);
            reveal(ListResponse::spec_decodes_to);
            reveal(ListResponse::spec_rejects_with);
        }
        let mut wire = into_fields(v)?;
        let known: &[&str] = &["ok", "items", "paging"];
        assert(known@ =~= ListResponse::declared_fields());
        check_fields(&wire, known)?;
        let ok: bool = required(&mut wire, "ok")?;
        let items: Option<Vec<ListResponseItem>> = optional(&mut wire, "items")?;
        let paging: Option<Paging> = optional(&mut wire, "paging")?;
        Ok(ListResponse { ok, items, paging })
    }
}

#[derive(Clone, Debug, PartialEq)]
pub enum ListResponseItem {
    Message { channel: String, message: Message },
    File { file: File },
    FileComment { comment: FileComment, file: File },
    Channel { channel: String },
    Im { channel: String },
    Group { group: String },
}

impl ListResponseItem {
    /// The tag value of each variant, in declaration order.
    pub open spec fn spec_variant_names() -> Seq<&'static str> {
        seq!["Message", "File", "FileComment", "Channel", "Im", "Group"]
    }

    /// The tag value of each variant, in declaration order.
    pub fn variant_names() -> (r: Vec<&'static str>)
        ensures
            r@ == Self::spec_variant_names(),
    {
        vec!["Message", "File", "FileComment", "Channel", "Im", "Group"]
    }
}

impl VariantRecords for ListResponseItem {
    open spec fn record_accepts(variant: usize, v: JsonValue) -> bool {
        if variant == 0 {
            match v {
                JsonValue::Object(w) => {
                    let left0 = w@;
                    let left1 = taken(left0, "channel"@);
                    &&& required_ok::<String>(left0, "channel"@)
                    &&& required_ok::<Message>(left1, "message"@)
                },
                _ => false,
            }
        } else if variant == 1 {
            match v {
                JsonValue::Object(w) => {
                    let left0 = w@;
                    &&& required_ok::<File>(left0, "file"@)
                },
                _ => false,
            }
        } else if variant == 2 {
            match v {
                JsonValue::Object(w) => {
                    let left0 = w@;
                    let left1 = taken(left0, "comment"@);
                    &&& required_ok::<FileComment>(left0, "comment"@)
                    &&& required_ok::<File>(left1, "file"@)
                },
                _ => false,
            }
        } else if variant == 3 {
            match v {
                JsonValue::Object(w) => {
                    let left0 = w@;
                    &&& required_ok::<String>(left0, "channel"@)
                },
                _ => false,
            }
        } else if variant == 4 {
            match v {
                JsonValue::Object(w) => {
                    let left0 = w@;
                    &&& required_ok::<String>(left0, "channel"@)
                },
                _ => false,
            }
        } else if variant == 5 {
            match v {
                JsonValue::Object(w) => {
                    let left0 = w@;
                    &&& required_ok::<String>(left0, "group"@)
                },
                _ => false,
            }
        } else {
            false
        }
    }

    open spec fn record_decodes_to(variant: usize, v: JsonValue, x: ListResponseItem) -> bool {
        if variant == 0 {
            match v {
                JsonValue::Object(w) => {
                    let left0 = w@;
                    let left1 = taken(left0, "channel"@);
                    &&& x is Message
                    &&& <String as Decode>::decodes_to(value_of(left0, "channel"@), x->Message_channel)
                    &&& <Message as Decode>::decodes_to(value_of(left1, "message"@), x->Message_message)
                },
                _ => false,
            }
        } else if variant == 1 {
            match v {
                JsonValue::Object(w) => {
                    let left0 = w@;
                    &&& x is File
                    &&& <File as Decode>::decodes_to(value_of(left0, "file"@), x->File_file)
                },
                _ => false,
            }
        } else if variant == 2 {
            match v {
                JsonValue::Object(w) => {
                    let left0 = w@;
                    let left1 = taken(left0, "comment"@);
                    &&& x is FileComment
                    &&& <FileComment as Decode>::decodes_to(value_of(left0, "comment"@), x->FileComment_comment)
                    &&& <File as Decode>::decodes_to(value_of(left1, "file"@), x->FileComment_file)
                },
                _ => false,
            }
        } else if variant == 3 {
            match v {
                JsonValue::Object(w) => {
                    let left0 = w@;
                    &&& x is Channel
                    &&& <String as Decode>::decodes_to(value_of(left0, "channel"@), x->Channel_channel)
                },
                _ => false,
            }
        } else if variant == 4 {
            match v {
                JsonValue::Object(w) => {
                    let left0 = w@;
                    &&& x is Im
                    &&& <String as Decode>::decodes_to(value_of(left0, "channel"@), x->Im_channel)
                },
                _ => false,
            }
        } else if variant == 5 {
            match v {
                JsonValue::Object(w) => {
                    let left0 = w@;
                    &&& x is Group
                    &&& <String as Decode>::decodes_to(value_of(left0, "group"@), x->Group_group)
                },
                _ => false,
            }
        } else {
            false
        }
    }

    open spec fn record_rejects_with(variant: usize, v: JsonValue, e: DecodeError) -> bool {
        if variant == 0 {
            match v {
                JsonValue::Object(w) => {
                    let left0 = w@;
                    let left1 = taken(left0, "channel"@);
                    if !required_ok::<String>(left0, "channel"@) {
                        required_err::<String>(left0, "channel"@, e)
                    } else if !required_ok::<Message>(left1, "message"@) {
                        required_err::<Message>(left1, "message"@, e)
                    } else {
                        false
                    }
                },
                _ => e == (DecodeError::WrongType { expected: "object" }),
            }
        } else if variant == 1 {
            match v {
                JsonValue::Object(w) => {
                    let left0 = w@;
                    if !required_ok::<File>(left0, "file"@) {
                        required_err::<File>(left0, "file"@, e)
                    } else {
                        false
                    }
                },
                _ => e == (DecodeError::WrongType { expected: "object" }),
            }
        } else if variant == 2 {
            match v {
                JsonValue::Object(w) => {
                    let left0 = w@;
                    let left1 = taken(left0, "comment"@);
                    if !required_ok::<FileComment>(left0, "comment"@) {
                        required_err::<FileComment>(left0, "comment"@, e)
                    } else if !required_ok::<File>(left1, "file"@) {
                        required_err::<File>(left1, "file"@, e)
                    } else {
                        false
                    }
                },
                _ => e == (DecodeError::WrongType { expected: "object" }),
            }
        } else if variant == 3 {
            match v {
                JsonValue::Object(w) => {
                    let left0 = w@;
                    if !required_ok::<String>(left0, "channel"@) {
                        required_err::<String>(left0, "channel"@, e)
                    } else {
                        false
                    }
                },
                _ => e == (DecodeError::WrongType { expected: "object" }),
            }
        } else if variant == 4 {
            match v {
                JsonValue::Object(w) => {
                    let left0 = w@;
                    if !required_ok::<String>(left0, "channel"@) {
                        required_err::<String>(left0, "channel"@, e)
                    } else {
                        false
                    }
                },
                _ => e == (DecodeError::WrongType { expected: "object" }),
            }
        } else if variant == 5 {
            match v {
                JsonValue::Object(w) => {
                    let left0 = w@;
                    if !required_ok::<String>(left0, "group"@) {
                        required_err::<String>(left0, "group"@, e)
                    } else {
                        false
                    }
                },
                _ => e == (DecodeError::WrongType { expected: "object" }),
            }
        } else {
            e == (DecodeError::WrongType { expected: "a variant of ListResponseItem" })
        }
    }

    open spec fn variant_of(&self) -> usize {
        match self {
            ListResponseItem::Message { .. } => 0,
            ListResponseItem::File { .. } => 1,
            ListResponseItem::FileComment { .. } => 2,
            ListResponseItem::Channel { .. } => 3,
            ListResponseItem::Im { .. } => 4,
            ListResponseItem::Group { .. } => 5,
        }
    }

    fn decode_variant(variant: usize, payload: JsonValue) -> Result<ListResponseItem, DecodeError> {
        if variant == 0 {
            let mut wire = into_fields(payload)?;
            let channel: String = required(&mut wire, "channel")?;
            let message: Message = required(&mut wire, "message")?;
            Ok(ListResponseItem::Message { channel, message })
        } else if variant == 1 {
            let mut wire = into_fields(payload)?;
            let file: File = required(&mut wire, "file")?;
            Ok(ListResponseItem::File { file })
        } else if variant == 2 {
            let mut wire = into_fields(payload)?;
            let comment: FileComment = required(&mut wire, "comment")?;
            let file: File = required(&mut wire, "file")?;
            Ok(ListResponseItem::FileComment { comment, file })
        } else if variant == 3 {
            let mut wire = into_fields(payload)?;
            let channel: String = required(&mut wire, "channel")?;
            Ok(ListResponseItem::Channel { channel })
        } else if variant == 4 {
            let mut wire = into_fields(payload)?;
            let channel: String = required(&mut wire, "channel")?;
            Ok(ListResponseItem::Im { channel })
        } else if variant == 5 {
            let mut wire = into_fields(payload)?;
            let group: String = required(&mut wire, "group")?;
            Ok(ListResponseItem::Group { group })
        } else {
            Err(DecodeError::WrongType { expected: "a variant of ListResponseItem" })
        }
    }
}

impl ListResponseItem {
    /// The records' outcomes depend on a payload's entries alone.
    proof fn lemma_records_follow_entries(variant: usize, p1: JsonValue, p2: JsonValue)
        requires
            p1 is Object,
            p2 is Object,
            p1->Object_0@ == p2->Object_0@,
        ensures
            ListResponseItem::record_accepts(variant, p1) == ListResponseItem::record_accepts(variant, p2),
            forall|x: ListResponseItem| ListResponseItem::record_decodes_to(variant, p1, x) == ListResponseItem::record_decodes_to(variant, p2, x),
    {
    }
}

impl Decode for ListResponseItem {
    open spec fn accepts(v: JsonValue) -> bool {
        match selection(v, "type"@, ListResponseItem::spec_variant_names(), TaggedPolicy::RequiredTag) {
            Selection::Variant(i) => exists|p: JsonValue|
                #[trigger] is_payload(v, "type"@, TaggedPolicy::RequiredTag, p) && ListResponseItem::record_accepts(i, p),
            _ => false,
        }
    }

    open spec fn decodes_to(v: JsonValue, x: ListResponseItem) -> bool {
        match selection(v, "type"@, ListResponseItem::spec_variant_names(), TaggedPolicy::RequiredTag) {
            Selection::Variant(i) => x.variant_of() == i && exists|p: JsonValue|
                #[trigger] is_payload(v, "type"@, TaggedPolicy::RequiredTag, p) && ListResponseItem::record_decodes_to(i, p, x),
            _ => false,
        }
    }

    open spec fn rejects_with(v: JsonValue, e: DecodeError) -> bool {
        e is Tagged && is_union_result(
            v,
            "ListResponseItem"@,
            "type"@,
            ListResponseItem::spec_variant_names(),
            TaggedPolicy::RequiredTag,
            Err::<ListResponseItem, TaggedUnionError>(*e->Tagged_0),
        )
    }

    fn decode(v: JsonValue) -> Result<ListResponseItem, DecodeError> {
        let names = ListResponseItem::variant_names();
        let r = decode_tagged_union(v, "ListResponseItem", "type", names.as_slice(), TaggedPolicy::RequiredTag);
        proof {
            if let Selection::Variant(i) = selection(v, "type"@, ListResponseItem::spec_variant_names(), TaggedPolicy::RequiredTag) {
                let p0 = choose|p: JsonValue| is_payload(v, "type"@, TaggedPolicy::RequiredTag, p) && is_variant_result(i, p, names@, r);
                assert forall|p: JsonValue| #[trigger] is_payload(v, "type"@, TaggedPolicy::RequiredTag, p) implies
                    ListResponseItem::record_accepts(i, p) == ListResponseItem::record_accepts(i, p0)
                    && (forall|x: ListResponseItem| ListResponseItem::record_decodes_to(i, p, x) == ListResponseItem::record_decodes_to(i, p0, x)) by {
                    ListResponseItem::lemma_records_follow_entries(i, p, p0);
                }
            }
        }
        match r {
            Ok(x) => Ok(x),
            Err(e) => Err(DecodeError::Tagged(Box::new(e))),
        }
    }
}

#[derive(Clone, Debug, PartialEq)]
pub struct RemoveRequest {
    /// File to remove star from.
    pub file: Option<FileId>,
    /// Channel to remove star from, or channel where the message to remove star from was posted (used with timestamp).
    pub channel: Option<ChannelId>,
    /// Timestamp of the message to remove star from.
    pub timestamp: Option<Timestamp>,
}

} // verus!
