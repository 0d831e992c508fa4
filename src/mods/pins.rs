use crate::json::{all_known, check_fields, field_failed, first_unknown_key, optional_ok, optional_value, required_err, required_ok, taken, value_of, into_fields, optional, required, Decode, DecodeError, JsonValue, Number, TaggedUnionError};
use crate::tagged::{decode_tagged_union, is_payload, is_union_result, is_variant_result, selection, Selection, TaggedPolicy, VariantRecords};
use crate::types::{File, FileComment, Message};
use vstd::prelude::*;

verus! {

#[derive(Clone, Debug, PartialEq)]
pub struct AddRequest<'a> {
    /// Channel to pin the item in.
    pub channel: &'a str,
    /// File to pin.
    pub file: Option<&'a str>,
    /// File comment to pin.
    pub file_comment: Option<&'a str>,
    /// Timestamp of the message to pin.
    pub timestamp: Option<&'a str>,
}

#[derive(Clone, Debug, PartialEq)]
pub struct ListRequest<'a> {
    /// Channel to get pinned items for.
    pub channel: &'a str,
}

#[derive(Clone, Debug, PartialEq)]
pub struct ListResponse {
    pub items: Option<Vec<ListResponseItem>>,
}

impl ListResponse {
    /// The fields the record declares; it admits no others.
    pub open spec fn declared_fields() -> Seq<&'static str> {
        seq!["items"]
    }
}

impl ListResponse {
    /// Whether `v` decodes as the record: an object whose fields read in order.
    #[verifier::opaque]
    pub open spec fn spec_accepts(v: JsonValue) -> bool {
        match v {
            JsonValue::Object(w) => {
                let left0 = w@;
                &&& all_known(left0, ListResponse::declared_fields())
                &&& optional_ok::<Vec<ListResponseItem>>(left0, "items"@)
            },
            _ => false,
        }
    }

    /// Whether `x` holds what the fields of `v` read as.
    #[verifier::opaque]
    pub open spec fn spec_decodes_to(v: JsonValue, x: ListResponse) -> bool {
        match v {
            JsonValue::Object(w) => {
                let left0 = w@;
                &&& optional_value::<Vec<ListResponseItem>>(left0, "items"@, x.items)
            },
            _ => false,
        }
    }

    /// Whether `e` is the error of the first check or field that fails on `v`.
    #[verifier::opaque]
    pub open spec fn spec_rejects_with(v: JsonValue, e: DecodeError) -> bool {
        match v {
            JsonValue::Object(w) => {
                let left0 = w@;
                if !all_known(left0, ListResponse::declared_fields()) {
                    e == (DecodeError::UnknownField { field: first_unknown_key(left0, ListResponse::declared_fields()) })
                } else if !optional_ok::<Vec<ListResponseItem>>(left0, "items"@) {
                    field_failed::<Vec<ListResponseItem>>(left0, "items"@, e)
                } else {
                    false
                }
            },
            _ => e == (DecodeError::WrongType { expected: "object" }),
        }
    }
}

impl Decode for ListResponse {
    open spec fn accepts(v: JsonValue) -> bool {
        ListResponse::spec_accepts(v)
    }

    open spec fn decodes_to(v: JsonValue, x: ListResponse) -> bool {
        ListResponse::spec_decodes_to(v, x)
    }

    open spec fn rejects_with(v: JsonValue, e: DecodeError) -> bool {
        ListResponse::spec_rejects_with(v, e)
    }

    fn decode(v: JsonValue) -> Result<ListResponse, DecodeError> {
        proof {
            reveal(ListResponse::spec_accepts);
            reveal(ListResponse::spec_decodes_to);
            reveal(ListResponse::spec_rejects_with);
        }
        let mut wire = into_fields(v)?;
        let known: &[&str] = &["items"];
        assert(known@ =~= ListResponse::declared_fields());
        check_fields(&wire, known)?;
        let items: Option<Vec<ListResponseItem>> = optional(&mut wire, "items")?;
        Ok(ListResponse { items })
    }
}

#[derive(Clone, Debug, PartialEq)]
pub enum ListResponseItem {
    Message(ListResponseItemMessage),
    File(ListResponseItemFile),
    FileComment(ListResponseItemFileComment),
}

impl ListResponseItem {
    /// The tag value of each variant, in declaration order.
    pub open spec fn spec_variant_names() -> Seq<&'static str> {
        seq!["Message", "File", "FileComment"]
    }

    /// The tag value of each variant, in declaration order.
    pub fn variant_names() -> (r: Vec<&'static str>)
        ensures
            r@ == Self::spec_variant_names(),
    {
        vec!["Message", "File", "FileComment"]
    }
}

impl VariantRecords for ListResponseItem {
    open spec fn record_accepts(variant: usize, v: JsonValue) -> bool {
        if variant == 0 {
            <ListResponseItemMessage as Decode>::accepts(v)
        } else if variant == 1 {
            <ListResponseItemFile as Decode>::accepts(v)
        } else if variant == 2 {
            <ListResponseItemFileComment as Decode>::accepts(v)
        } else {
            false
        }
    }

    open spec fn record_decodes_to(variant: usize, v: JsonValue, x: ListResponseItem) -> bool {
        if variant == 0 {
            x is Message && <ListResponseItemMessage as Decode>::decodes_to(v, x->Message_0)
        } else if variant == 1 {
            x is File && <ListResponseItemFile as Decode>::decodes_to(v, x->File_0)
        } else if variant == 2 {
            x is FileComment && <ListResponseItemFileComment as Decode>::decodes_to(v, x->FileComment_0)
        } else {
            false
        }
    }

    open spec fn record_rejects_with(variant: usize, v: JsonValue, e: DecodeError) -> bool {
        if variant == 0 {
            <ListResponseItemMessage as Decode>::rejects_with(v, e)
        } else if variant == 1 {
            <ListResponseItemFile as Decode>::rejects_with(v, e)
        } else if variant == 2 {
            <ListResponseItemFileComment as Decode>::rejects_with(v, e)
        } else {
            e == (DecodeError::WrongType { expected: "a variant of ListResponseItem" })
        }
    }

    open spec fn variant_of(&self) -> usize {
        match self {
            ListResponseItem::Message(_) => 0,
            ListResponseItem::File(_) => 1,
            ListResponseItem::FileComment(_) => 2,
        }
    }

    fn decode_variant(variant: usize, payload: JsonValue) -> Result<ListResponseItem, DecodeError> {
        if variant == 0 {
            let record: ListResponseItemMessage = Decode::decode(payload)?;
            Ok(ListResponseItem::Message(record))
        } else if variant == 1 {
            let record: ListResponseItemFile = Decode::decode(payload)?;
            Ok(ListResponseItem::File(record))
        } else if variant == 2 {
            let record: ListResponseItemFileComment = Decode::decode(payload)?;
            Ok(ListResponseItem::FileComment(record))
        } else {
            Err(DecodeError::WrongType { expected: "a variant of ListResponseItem" })
        }
    }
}

impl ListResponseItem {
    /// The records' outcomes depend on a payload's entries alone.
    proof fn lemma_records_follow_entries(variant: usize, p1: JsonValue, p2: JsonValue)
        requires
            p1 is Object,
            p2 is Object,
            p1->Object_0@ == p2->Object_0@,
        ensures
            ListResponseItem::record_accepts(variant, p1) == ListResponseItem::record_accepts(variant, p2),
            forall|x: ListResponseItem| ListResponseItem::record_decodes_to(variant, p1, x) == ListResponseItem::record_decodes_to(variant, p2, x),
    {
        reveal(ListResponseItemMessage::spec_accepts);
        reveal(ListResponseItemMessage::spec_decodes_to);
        reveal(ListResponseItemFile::spec_accepts);
        reveal(ListResponseItemFile::spec_decodes_to);
        reveal(ListResponseItemFileComment::spec_accepts);
        reveal(ListResponseItemFileComment::spec_decodes_to);
    }
}

impl Decode for ListResponseItem {
    open spec fn accepts(v: JsonValue) -> bool {
        match selection(v, "type"@, ListResponseItem::spec_variant_names(), TaggedPolicy::RequiredTag) {
            Selection::Variant(i) => exists|p: JsonValue|
                #[trigger] is_payload(v, "type"@, TaggedPolicy::RequiredTag, p) && ListResponseItem::record_accepts(i, p),
            _ => false,
        }
    }

    open spec fn decodes_to(v: JsonValue, x: ListResponseItem) -> bool {
        match selection(v, "type"@, ListResponseItem::spec_variant_names(), TaggedPolicy::RequiredTag) {
            Selection::Variant(i) => x.variant_of() == i && exists|p: JsonValue|
                #[trigger] is_payload(v, "type"@, TaggedPolicy::RequiredTag, p) && ListResponseItem::record_decodes_to(i, p, x),
            _ => false,
        }
    }

    open spec fn rejects_with(v: JsonValue, e: DecodeError) -> bool {
        e is Tagged && is_union_result(
            v,
            "ListResponseItem"@,
            "type"@,
            ListResponseItem::spec_variant_names(),
            TaggedPolicy::RequiredTag,
            Err::<ListResponseItem, TaggedUnionError>(*e->Tagged_0),
        )
    }

    fn decode(v: JsonValue) -> Result<ListResponseItem, DecodeError> {
        let names = ListResponseItem::variant_names();
        let r = decode_tagged_union(v, "ListResponseItem", "type", names.as_slice(), TaggedPolicy::RequiredTag);
        proof {
            if let Selection::Variant(i) = selection(v, "type"@, ListResponseItem::spec_variant_names(), TaggedPolicy::RequiredTag) {
                let p0 = choose|p: JsonValue| is_payload(v, "type"@, TaggedPolicy::RequiredTag, p) && is_variant_result(i, p, names@, r);
                assert forall|p: JsonValue| #[trigger] is_payload(v, "type"@, TaggedPolicy::RequiredTag, p) implies
                    ListResponseItem::record_accepts(i, p) == ListResponseItem::record_accepts(i, p0)
                    && (forall|x: ListResponseItem| ListResponseItem::record_decodes_to(i, p, x) == ListResponseItem::record_decodes_to(i, p0, x)) by {
                    ListResponseItem::lemma_records_follow_entries(i, p, p0);
                }
            }
        }
        match r {
            Ok(x) => Ok(x),
            Err(e) => Err(DecodeError::Tagged(Box::new(e))),
        }
    }
}

#[derive(Clone, Debug, PartialEq)]
pub struct ListResponseItemFile {
    pub created: Option<Number>,
    pub created_by: Option<String>,
    pub file: File,
}

impl ListResponseItemFile {
    /// The fields the record declares; it admits no others.
    pub open spec fn declared_fields() -> Seq<&'static str> {
        seq!["created", "created_by", "file"]
    }
}

impl ListResponseItemFile {
    /// Whether `v` decodes as the record: an object whose fields read in order.
    #[verifier::opaque]
    pub open spec fn spec_accepts(v: JsonValue) -> bool {
        match v {
            JsonValue::Object(w) => {
                let left0 = w@;
                let left1 = taken(left0, "created"@);
                let left2 = taken(left1, "created_by"@);
                &&& all_known(left0, ListResponseItemFile::declared_fields())
                &&& optional_ok::<Number>(left0, "created"@)
                &&& optional_ok::<String>(left1, "created_by"@)
                &&& required_ok::<File>(left2, "file"@)
            },
            _ => false,
        }
    }

    /// Whether `x` holds what the fields of `v` read as.
    #[verifier::opaque]
    pub open spec fn spec_decodes_to(v: JsonValue, x: ListResponseItemFile) -> bool {
        match v {
            JsonValue::Object(w) => {
                let left0 = w@;
                let left1 = taken(left0, "created"@);
                let left2 = taken(left1, "created_by"@);
                &&& optional_value::<Number>(left0, "created"@, x.created)
                &&& optional_value::<String>(left1, "created_by"@, x.created_by)
                &&& <File as Decode>::decodes_to(value_of(left2, "file"@), x.file)
            },
            _ => false,
        }
    }

    /// Whether `e` is the error of the first check or field that fails on `v`.
    #[verifier::opaque]
    pub open spec fn spec_rejects_with(v: JsonValue, e: DecodeError) -> bool {
        match v {
            JsonValue::Object(w) => {
                let left0 = w@;
                let left1 = taken(left0, "created"@);
                let left2 = taken(left1, "created_by"@);
                if !all_known(left0, ListResponseItemFile::declared_fields()) {
                    e == (DecodeError::UnknownField { field: first_unknown_key(left0, ListResponseItemFile::declared_fields()) })
                } else if !optional_ok::<Number>(left0, "created"@) {
                    field_failed::<Number>(left0, "created"@, e)
                } else if !optional_ok::<String>(left1, "created_by"@) {
                    field_failed::<String>(left1, "created_by"@, e)
                } else if !required_ok::<File>(left2, "file"@) {
                    required_err::<File>(left2, "file"@, e)
                } else {
                    false
                }
            },
            _ => e == (DecodeError::WrongType { expected: "object" }),
        }
    }
}

impl Decode for ListResponseItemFile {
    open spec fn accepts(v: JsonValue) -> bool {
        ListResponseItemFile::spec_accepts(v)
    }

    open spec fn decodes_to(v: JsonValue, x: ListResponseItemFile) -> bool {
        ListResponseItemFile::spec_decodes_to(v, x)
    }

    open spec fn rejects_with(v: JsonValue, e: DecodeError) -> bool {
        ListResponseItemFile::spec_rejects_with(v, e)
    }

    fn decode(v: JsonValue) -> Result<ListResponseItemFile, DecodeError> {
        proof {
            reveal(ListResponseItemFile::spec_accepts);
            reveal(ListResponseItemFile::spec_decodes_to);
            reveal(ListResponseItemFile::spec_rejects_with);
        }
        let mut wire = into_fields(v)?;
        let known: &[&str] = &["created", "created_by", "file"];
        assert(known@ =~= ListResponseItemFile::declared_fields());
        check_fields(&wire, known)?;
        let created: Option<Number> = optional(&mut wire, "created")?;
        let created_by: Option<String> = optional(&mut wire, "created_by")?;
        let file: File = required(&mut wire, "file")?;
        Ok(ListResponseItemFile { created, created_by, file })
    }
}

#[derive(Clone, Debug, PartialEq)]
pub struct ListResponseItemFileComment {
    pub comment: FileComment,
    pub created: Option<Number>,
    pub created_by: Option<String>,
    pub file: File,
}

impl ListResponseItemFileComment {
    /// The fields the record declares; it admits no others.
    pub open spec fn declared_fields() -> Seq<&'static str> {
        seq!["comment", "created", "created_by", "file"]
    }
}

impl ListResponseItemFileComment {
    /// Whether `v` decodes as the record: an object whose fields read in order.
    #[verifier::opaque]
    pub open spec fn spec_accepts(v: JsonValue) -> bool {
        match v {
            JsonValue::Object(w) => {
                let left0 = w@;
                let left1 = taken(left0, "comment"@);
                let left2 = taken(left1, "created"@);
                let left3 = taken(left2, "created_by"@);
                &&& all_known(left0, ListResponseItemFileComment::declared_fields())
                &&& required_ok::<FileComment>(left0, "comment"@)
                &&& optional_ok::<Number>(left1, "created"@)
                &&& optional_ok::<String>(left2, "created_by"@)
                &&& required_ok::<File>(left3, "file"@)
            },
            _ => false,
        }
    }

    /// Whether `x` holds what the fields of `v` read as.
    #[verifier::opaque]
    pub open spec fn spec_decodes_to(v: JsonValue, x: ListResponseItemFileComment) -> bool {
        match v {
            JsonValue::Object(w) => {
                let left0 = w@;
                let left1 = taken(left0, "comment"@);
                let left2 = taken(left1, "created"@);
                let left3 = taken(left2, "created_by"@);
                &&& <FileComment as Decode>::decodes_to(value_of(left0, "comment"@), x.comment)
                &&& optional_value::<Number>(left1, "created"@, x.created)
                &&& optional_value::<String>(left2, "created_by"@, x.created_by)
                &&& <File as Decode>::decodes_to(value_of(left3, "file"@), x.file)
            },
            _ => false,
        }
    }

    /// Whether `e` is the error of the first check or field that fails on `v`.
    #[verifier::opaque]
    pub open spec fn spec_rejects_with(v: JsonValue, e: DecodeError) -> bool {
        match v {
            JsonValue::Object(w) => {
                let left0 = w@;
                let left1 = taken(left0, "comment"@);
                let left2 = taken(left1, "created"@);
                let left3 = taken(left2, "created_by"@);
                if !all_known(left0, ListResponseItemFileComment::declared_fields()) {
                    e == (DecodeError::UnknownField { field: first_unknown_key(left0, ListResponseItemFileComment::declared_fields()) })
                } else if !required_ok::<FileComment>(left0, "comment"@) {
                    required_err::<FileComment>(left0, "comment"@, e)
                } else if !optional_ok::<Number>(left1, "created"@) {
                    field_failed::<Number>(left1, "created"@, e)
                } else if !optional_ok::<String>(left2, "created_by"@) {
                    field_failed::<String>(left2, "created_by"@, e)
                } else if !required_ok::<File>(left3, "file"@) {
                    required_err::<File>(left3, "file"@, e)
                } else {
                    false
                }
            },
            _ => e == (DecodeError::WrongType { expected: "object" }),
        }
    }
}

impl Decode for ListResponseItemFileComment {
    open spec fn accepts(v: JsonValue) -> bool {
        ListResponseItemFileComment::spec_accepts(v)
    }

    open spec fn decodes_to(v: JsonValue, x: ListResponseItemFileComment) -> bool {
        ListResponseItemFileComment::spec_decodes_to(v, x)
    }

    open spec fn rejects_with(v: JsonValue, e: DecodeError) -> bool {
        ListResponseItemFileComment::spec_rejects_with(v, e)
    }

    fn decode(v: JsonValue) -> Result<ListResponseItemFileComment, DecodeError> {
        proof {
            reveal(ListResponseItemFileComment::spec_accepts);
            reveal(ListResponseItemFileComment::spec_decodes_to);
            reveal(ListResponseItemFileComment::spec_rejects_with);
        }
        let mut wire = into_fields(v)?;
        let known: &[&str] = &["comment", "created", "created_by", "file"];
        assert(known@ =~= ListResponseItemFileComment::declared_fields());
        check_fields(&wire, known)?;
        let comment: FileComment = required(&mut wire, "comment")?;
        let created: Option<Number> = optional(&mut wire, "created")?;
        let created_by: Option<String> = optional(&mut wire, "created_by")?;
        let file: File = required(&mut wire, "file")?;
        Ok(ListResponseItemFileComment { comment, created, created_by, file })
    }
}

#[derive(Clone, Debug, PartialEq)]
pub struct ListResponseItemMessage {
    pub channel: String,
    pub created: Option<Number>,
    pub created_by: Option<String>,
    pub message: Message,
}

impl ListResponseItemMessage {
    /// The fields the record declares; it admits no others.
    pub open spec fn declared_fields() -> Seq<&'static str> {
        seq!["channel", "created", "created_by", "message"]
    }
}

impl ListResponseItemMessage {
    /// Whether `v` decodes as the record: an object whose fields read in order.
    #[verifier::opaque]
    pub open spec fn spec_accepts(v: JsonValue) -> bool {
        match v {
            JsonValue::Object(w) => {
                let left0 = w@;
                let left1 = taken(left0, "channel"@);
                let left2 = taken(left1, "created"@);
                let left3 = taken(left2, "created_by"@);
                &&& all_known(left0, ListResponseItemMessage::declared_fields())
                &&& required_ok::<String>(left0, "channel"@)
                &&& optional_ok::<Number>(left1, "created"@)
                &&& optional_ok::<String>(left2, "created_by"@)
                &&& required_ok::<Message>(left3, "message"@)
            },
            _ => false,
        }
    }

    /// Whether `x` holds what the fields of `v` read as.
    #[verifier::opaque]
    pub open spec fn spec_decodes_to(v: JsonValue, x: ListResponseItemMessage) -> bool {
        match v {
            JsonValue::Object(w) => {
                let left0 = w@;
                let left1 = taken(left0, "channel"@);
                let left2 = taken(left1, "created"@);
                let left3 = taken(left2, "created_by"@);
                &&& <String as Decode>::decodes_to(value_of(left0, "channel"@), x.channel)
                &&& optional_value::<Number>(left1, "created"@, x.created)
                &&& optional_value::<String>(left2, "created_by"@, x.created_by)
                &&& <Message as Decode>::decodes_to(value_of(left3, "message"@), x.message)
            },
            _ => false,
        }
    }

    /// Whether `e` is the error of the first check or field that fails on `v`.
    #[verifier::opaque]
    pub open spec fn spec_rejects_with(v: JsonValue, e: DecodeError) -> bool {
        match v {
            JsonValue::Object(w) => {
                let left0 = w@;
                let left1 = taken(left0, "channel"@);
                let left2 = taken(left1, "created"@);
                let left3 = taken(left2, "created_by"@);
                if !all_known(left0, ListResponseItemMessage::declared_fields()) {
                    e == (DecodeError::UnknownField { field: first_unknown_key(left0, ListResponseItemMessage::declared_fields()) })
                } else if !required_ok::<String>(left0, "channel"@) {
                    required_err::<String>(left0, "channel"@, e)
                } else if !optional_ok::<Number>(left1, "created"@) {
                    field_failed::<Number>(left1, "created"@, e)
                } else if !optional_ok::<String>(left2, "created_by"@) {
                    field_failed::<String>(left2, "created_by"@, e)
                } else if !required_ok::<Message>(left3, "message"@) {
                    required_err::<Message>(left3, "message"@, e)
                } else {
                    false
                }
            },
            _ => e == (DecodeError::WrongType { expected: "object" }),
        }
    }
}

impl Decode for ListResponseItemMessage {
    open spec fn accepts(v: JsonValue) -> bool {
        ListResponseItemMessage::spec_accepts(v)
    }

    open spec fn decodes_to(v: JsonValue, x: ListResponseItemMessage) -> bool {
        ListResponseItemMessage::spec_decodes_to(v, x)
    }

    open spec fn rejects_with(v: JsonValue, e: DecodeError) -> bool {
        ListResponseItemMessage::spec_rejects_with(v, e)
    }

    fn decode(v: JsonValue) -> Result<ListResponseItemMessage, DecodeError> {
        proof {
            reveal(ListResponseItemMessage::spec_accepts);
            reveal(ListResponseItemMessage::spec_decodes_to);
            reveal(ListResponseItemMessage::spec_rejects_with);
        }
        let mut wire = into_fields(v)?;
        let known: &[&str] = &["channel", "created", "created_by", "message"];
        assert(known@ =~= ListResponseItemMessage::declared_fields());
        check_fields(&wire, known)?;
        let channel: String = required(&mut wire, "channel")?;
        let created: Option<Number> = optional(&mut wire, "created")?;
        let created_by: Option<String> = optional(&mut wire, "created_by")?;
        let message: Message = required(&mut wire, "message")?;
        Ok(ListResponseItemMessage { channel, created, created_by, message })
    }
}

#[derive(Clone, Debug, PartialEq)]
pub struct RemoveRequest<'a> {
    /// Channel where the item is pinned to.
    pub channel: &'a str,
    /// File to un-pin.
    pub file: Option<&'a str>,
    /// File comment to un-pin.
    pub file_comment: Option<&'a str>,
    /// Timestamp of the message to un-pin.
    pub timestamp: Option<&'a str>,
}

} // verus!
