//! Search your team's files and messages.

use crate::json::{all_known, check_fields, field_failed, first_unknown_key, optional_ok, optional_value, required_err, required_ok, taken, value_of, into_fields, optional, required, Decode, DecodeError, JsonValue};
use crate::types::{File, Message, Paging};
use vstd::prelude::*;

verus! {

#[derive(Clone, Debug, PartialEq)]
pub struct AllRequest<'a> {
    /// Search query. May contains booleans, etc.
    pub query: &'a str,
    /// Return matches sorted by either score or timestamp.
    pub sort: Option<&'a str>,
    /// Change sort direction to ascending (asc) or descending (desc).
    pub sort_dir: Option<&'a str>,
    /// Pass a value of true to enable query highlight markers (see below).
    pub highlight: Option<bool>,
    /// Number of items to return per page.
    pub count: Option<u32>,
    /// Page number of results to return.
    pub page: Option<u32>,
}

#[derive(Clone, Debug, PartialEq)]
pub struct AllResponse {
    ok: bool,
    pub files: Option<AllResponseFiles>,
    pub messages: Option<AllResponseMessages>,
    pub query: Option<String>,
}

impl AllResponse {
    /// The fields the record declares; it admits no others.
    pub open spec fn declared_fields() -> Seq<&'static str> {
        seq!["ok", "files", "messages", "query"]
    }
}

impl AllResponse {
    /// Whether `v` decodes as the record: an object whose fields read in order.
    #[verifier::opaque]
    pub open spec fn spec_accepts(v: JsonValue) -> bool {
        match v {
            JsonValue::Object(w) => {
                let left0 = w@;
                let left1 = taken(left0, "ok"@);
                let left2 = taken(left1, "files"@);
                let left3 = taken(left2, "messages"@);
                &&& all_known(left0, AllResponse::declared_fields())
                &&& required_ok::<bool>(left0, "ok"@)
                &&& optional_ok::<AllResponseFiles>(left1, "files"@)
                &&& optional_ok::<AllResponseMessages>(left2, "messages"@)
                &&& optional_ok::<String>(left3, "query"@)
            },
            _ => false,
        }
    }

    /// Whether `x` holds what the fields of `v` read as.
    #[verifier::opaque]
    pub closed spec fn spec_decodes_to(v: JsonValue, x: AllResponse) -> bool {
        match v {
            JsonValue::Object(w) => {
                let left0 = w@;
                let left1 = taken(left0, "ok"@);
                let left2 = taken(left1, "files"@);
                let left3 = taken(left2, "messages"@);
                &&& <bool as Decode>::decodes_to(value_of(left0, "ok"@), x.ok)
                &&& optional_value::<AllResponseFiles>(left1, "files"@, x.files)
                &&& optional_value::<AllResponseMessages>(left2, "messages"@, x.messages)
                &&& optional_value::<String>(left3, "query"@, x.query)
            },
            _ => false,
        }
    }

    /// Whether `e` is the error of the first check or field that fails on `v`.
    #[verifier::opaque]
    pub open spec fn spec_rejects_with(v: JsonValue, e: DecodeError) -> bool {
        match v {
            JsonValue::Object(w) => {
                let left0 = w@;
                let left1 = taken(left0, "ok"@);
                let left2 = taken(left1, "files"@);
                let left3 = taken(left2, "messages"@);
                if !all_known(left0, AllResponse::declared_fields()) {
                    e == (DecodeError::UnknownField { field: first_unknown_key(left0, AllResponse::declared_fields()) })
                } else if !required_ok::<bool>(left0, "ok"@) {
                    required_err::<bool>(left0, "ok"@, e)
                } else if !optional_ok::<AllResponseFiles>(left1, "files"@) {
                    field_failed::<AllResponseFiles>(left1, "files"@, e)
                } else if !optional_ok::<AllResponseMessages>(left2, "messages"@) {
                    field_failed::<AllResponseMessages>(left2, "messages"@, e)
                } else if !optional_ok::<String>(left3, "query"@) {
                    field_failed::<String>(left3, "query"@, e)
                } else {
                    false
                }
            },
            _ => e == (DecodeError::WrongType { expected: "object" }),
        }
    }
}

impl Decode for AllResponse {
    open spec fn accepts(v: JsonValue) -> bool {
        AllResponse::spec_accepts(v)
    }

    open spec fn decodes_to(v: JsonValue, x: AllResponse) -> bool {
        AllResponse::spec_decodes_to(v, x)
    }

    open spec fn rejects_with(v: JsonValue, e: DecodeError) -> bool {
        AllResponse::spec_rejects_with(v, e)
    }

    fn decode(v: JsonValue) -> Result<AllResponse, DecodeError> {
        proof {
            reveal(AllResponse::spec_accepts);
            reveal(AllResponse::spec_decodes_to);
            reveal(AllResponse::spec_rejects_with);
        }
        let mut wire = into_fields(v)?;
        let known: &[&str] = &["ok", "files", "messages", "query"];
        assert(known@ =~= AllResponse::declared_fields());
        check_fields(&wire, known)?;
        let ok: bool = required(&mut wire, "ok")?;
        let files: Option<AllResponseFiles> = optional(&mut wire, "files")?;
        let messages: Option<AllResponseMessages> = optional(&mut wire, "messages")?;
        let query: Option<String> = optional(&mut wire, "query")?;
        Ok(AllResponse { ok, files, messages, query })
    }
}

#[derive(Clone, Debug, PartialEq)]
pub struct AllResponseFiles {
    pub matches: Vec<File>,
    pub paging: Paging,
}

impl AllResponseFiles {
    /// The fields the record declares; it admits no others.
    pub open spec fn declared_fields() -> Seq<&'static str> {
        seq!["matches", "paging"]
    }
}

impl AllResponseFiles {
    /// Whether `v` decodes as the record: an object whose fields read in order.
    #[verifier::opaque]
    pub open spec fn spec_accepts(v: JsonValue) -> bool {
        match v {
            JsonValue::Object(w) => {
                let left0 = w@;
                let left1 = taken(left0, "matches"@);
                &&& all_known(left0, AllResponseFiles::declared_fields())
                &&& required_ok::<Vec<File>>(left0, "matches"@)
                &&& required_ok::<Paging>(left1, "paging"@)
            },
            _ => false,
        }
    }

    /// Whether `x` holds what the fields of `v` read as.
    #[verifier::opaque]
    pub open spec fn spec_decodes_to(v: JsonValue, x: AllResponseFiles) -> bool {
        match v {
            JsonValue::Object(w) => {
                let left0 = w@;
                let left1 = taken(left0, "matches"@);
                &&& <Vec<File> as Decode>::decodes_to(value_of(left0, "matches"@), x.matches)
                &&& <Paging as Decode>::decodes_to(value_of(left1, "paging"@), x.paging)
            },
            _ => false,
        }
    }

    /// Whether `e` is the error of the first check or field that fails on `v`.
    #[verifier::opaque]
    pub open spec fn spec_rejects_with(v: JsonValue, e: DecodeError) -> bool {
        match v {
            JsonValue::Object(w) => {
                let left0 = w@;
                let left1 = taken(left0, "matches"@);
                if !all_known(left0, AllResponseFiles::declared_fields()) {
                    e == (DecodeError::UnknownField { field: first_unknown_key(left0, AllResponseFiles::declared_fields()) })
                } else if !required_ok::<Vec<File>>(left0, "matches"@) {
                    required_err::<Vec<File>>(left0, "matches"@, e)
                } else if !required_ok::<Paging>(left1, "paging"@) {
                    required_err::<Paging>(left1, "paging"@, e)
                } else {
                    false
                }
            },
            _ => e == (DecodeError::WrongType { expected: "object" }),
        }
    }
}

impl Decode for AllResponseFiles {
    open spec fn accepts(v: JsonValue) -> bool {
        AllResponseFiles::spec_accepts(v)
    }

    open spec fn decodes_to(v: JsonValue, x: AllResponseFiles) -> bool {
        AllResponseFiles::spec_decodes_to(v, x)
    }

    open spec fn rejects_with(v: JsonValue, e: DecodeError) -> bool {
        AllResponseFiles::spec_rejects_with(v, e)
    }

    fn decode(v: JsonValue) -> Result<AllResponseFiles, DecodeError> {
        proof {
            reveal(AllResponseFiles::spec_accepts);
            reveal(AllResponseFiles::spec_decodes_to);
            reveal(AllResponseFiles::spec_rejects_with);
        }
        let mut wire = into_fields(v)?;
        let known: &[&str] = &["matches", "paging"];
        assert(known@ =~= AllResponseFiles::declared_fields());
        check_fields(&wire, known)?;
        let matches: Vec<File> = required(&mut wire, "matches")?;
        let paging: Paging = required(&mut wire, "paging")?;
        Ok(AllResponseFiles { matches, paging })
    }
}

#[derive(Clone, Debug, PartialEq)]
pub struct AllResponseMessages {
    pub matches: Vec<Message>,
    pub paging: Paging,
}

impl AllResponseMessages {
    /// The fields the record declares; it admits no others.
    pub open spec fn declared_fields() -> Seq<&'static str> {
        seq!["matches", "paging"]
    }
}

impl AllResponseMessages {
    /// Whether `v` decodes as the record: an object whose fields read in order.
    #[verifier::opaque]
    pub open spec fn spec_accepts(v: JsonValue) -> bool {
        match v {
            JsonValue::Object(w) => {
                let left0 = w@;
                let left1 = taken(left0, "matches"@);
                &&& all_known(left0, AllResponseMessages::declared_fields())
                &&& required_ok::<Vec<Message>>(left0, "matches"@)
                &&& required_ok::<Paging>(left1, "paging"@)
            },
            _ => false,
        }
    }

    /// Whether `x` holds what the fields of `v` read as.
    #[verifier::opaque]
    pub open spec fn spec_decodes_to(v: JsonValue, x: AllResponseMessages) -> bool {
        match v {
            JsonValue::Object(w) => {
                let left0 = w@;
                let left1 = taken(left0, "matches"@);
                &&& <Vec<Message> as Decode>::decodes_to(value_of(left0, "matches"@), x.matches)
                &&& <Paging as Decode>::decodes_to(value_of(left1, "paging"@), x.paging)
            },
            _ => false,
        }
    }

    /// Whether `e` is the error of the first check or field that fails on `v`.
    #[verifier::opaque]
    pub open spec fn spec_rejects_with(v: JsonValue, e: DecodeError) -> bool {
        match v {
            JsonValue::Object(w) => {
                let left0 = w@;
                let left1 = taken(left0, "matches"@);
                if !all_known(left0, AllResponseMessages::declared_fields()) {
                    e == (DecodeError::UnknownField { field: first_unknown_key(left0, AllResponseMessages::declared_fields()) })
                } else if !required_ok::<Vec<Message>>(left0, "matches"@) {
                    required_err::<Vec<Message>>(left0, "matches"@, e)
                } else if !required_ok::<Paging>(left1, "paging"@) {
                    required_err::<Paging>(left1, "paging"@, e)
                } else {
                    false
                }
            },
            _ => e == (DecodeError::WrongType { expected: "object" }),
        }
    }
}

impl Decode for AllResponseMessages {
    open spec fn accepts(v: JsonValue) -> bool {
        AllResponseMessages::spec_accepts(v)
    }

    open spec fn decodes_to(v: JsonValue, x: AllResponseMessages) -> bool {
        AllResponseMessages::spec_decodes_to(v, x)
    }

    open spec fn rejects_with(v: JsonValue, e: DecodeError) -> bool {
        AllResponseMessages::spec_rejects_with(v, e)
    }

    fn decode(v: JsonValue) -> Result<AllResponseMessages, DecodeError> {
        proof {
            reveal(AllResponseMessages::spec_accepts);
            reveal(AllResponseMessages::spec_decodes_to);
            reveal(AllResponseMessages::spec_rejects_with);
        }
        let mut wire = into_fields(v)?;
        let known: &[&str] = &["matches", "paging"];
        assert(known@ =~= AllResponseMessages::declared_fields());
        check_fields(&wire, known)?;
        let matches: Vec<Message> = required(&mut wire, "matches")?;
        let paging: Paging = required(&mut wire, "paging")?;
        Ok(AllResponseMessages { matches, paging })
    }
}

#[derive(Clone, Debug, PartialEq)]
pub struct FilesRequest<'a> {
    /// Search query. May contain booleans, etc.
    pub query: &'a str,
    /// Return matches sorted by either score or timestamp.
    pub sort: Option<&'a str>,
    /// Change sort direction to ascending (asc) or descending (desc).
    pub sort_dir: Option<&'a str>,
    /// Pass a value of true to enable query highlight markers (see below).
    pub highlight: Option<bool>,
    /// Number of items to return per page.
    pub count: Option<u32>,
    /// Page number of results to return.
    pub page: Option<u32>,
}

#[derive(Clone, Debug, PartialEq)]
pub struct FilesResponse {
    ok: bool,
    pub files: Option<FilesResponseFiles>,
    pub query: Option<String>,
}

impl FilesResponse {
    /// The fields the record declares; it admits no others.
    pub open spec fn declared_fields() -> Seq<&'static str> {
        seq!["ok", "files", "query"]
    }
}

impl FilesResponse {
    /// Whether `v` decodes as the record: an object whose fields read in order.
    #[verifier::opaque]
    pub open spec fn spec_accepts(v: JsonValue) -> bool {
        match v {
            JsonValue::Object(w) => {
                let left0 = w@;
                let left1 = taken(left0, "ok"@);
                let left2 = taken(left1, "files"@);
                &&& all_known(left0, FilesResponse::declared_fields())
                &&& required_ok::<bool>(left0, "ok"@)
                &&& optional_ok::<FilesResponseFiles>(left1, "files"@)
                &&& optional_ok::<String>(left2, "query"@)
            },
            _ => false,
        }
    }

    /// Whether `x` holds what the fields of `v` read as.
    #[verifier::opaque]
    pub closed spec fn spec_decodes_to(v: JsonValue, x: FilesResponse) -> bool {
        match v {
            JsonValue::Object(w) => {
                let left0 = w@;
                let left1 = taken(left0, "ok"@);
                let left2 = taken(left1, "files"@);
                &&& <bool as Decode>::decodes_to(value_of(left0, "ok"@), x.ok)
                &&& optional_value::<FilesResponseFiles>(left1, "files"@, x.files)
                &&& optional_value::<String>(left2, "query"@, x.query)
            },
            _ => false,
        }
    }

    /// Whether `e` is the error of the first check or field that fails on `v`.
    #[verifier::opaque]
    pub open spec fn spec_rejects_with(v: JsonValue, e: DecodeError) -> bool {
        match v {
            JsonValue::Object(w) => {
                let left0 = w@;
                let left1 = taken(left0, "ok"@);
                let left2 = taken(left1, "files"@);
                if !all_known(left0, FilesResponse::declared_fields()) {
                    e == (DecodeError::UnknownField { field: first_unknown_key(left0, FilesResponse::declared_fields()) })
                } else if !required_ok::<bool>(left0, "ok"@) {
                    required_err::<bool>(left0, "ok"@, e)
                } else if !optional_ok::<FilesResponseFiles>(left1, "files"@) {
                    field_failed::<FilesResponseFiles>(left1, "files"@, e)
                } else if !optional_ok::<String>(left2, "query"@) {
                    field_failed::<String>(left2, "query"@, e)
                } else {
                    false
                }
            },
            _ => e == (DecodeError::WrongType { expected: "object" }),
        }
    }
}

impl Decode for FilesResponse {
    open spec fn accepts(v: JsonValue) -> bool {
        FilesResponse::spec_accepts(v)
    }

    open spec fn decodes_to(v: JsonValue, x: FilesResponse) -> bool {
        FilesResponse::spec_decodes_to(v, x)
    }

    open spec fn rejects_with(v: JsonValue, e: DecodeError) -> bool {
        FilesResponse::spec_rejects_with(v, e)
    }

    fn decode(v: JsonValue) -> Result<FilesResponse, DecodeError> {
        proof {
            reveal(FilesResponse::spec_accepts);
            reveal(FilesResponse::spec_decodes_to);
            reveal(FilesResponse::spec_rejects_with);
        }
        let mut wire = into_fields(v)?;
        let known: &[&str] = &["ok", "files", "query"];
        assert(known@ =~= FilesResponse::declared_fields());
        check_fields(&wire, known)?;
        let ok: bool = required(&mut wire, "ok")?;
        let files: Option<FilesResponseFiles> = optional(&mut wire, "files")?;
        let query: Option<String> = optional(&mut wire, "query")?;
        Ok(FilesResponse { ok, files, query })
    }
}

#[derive(Clone, Debug, PartialEq)]
pub struct FilesResponseFiles {
    pub matches: Option<Vec<File>>,
    pub paging: Option<Paging>,
    pub total: Option<i32>,
}

impl FilesResponseFiles {
    /// The fields the record declares; it admits no others.
    pub open spec fn declared_fields() -> Seq<&'static str> {
        seq!["matches", "paging", "total"]
    }
}

impl FilesResponseFiles {
    /// Whether `v` decodes as the record: an object whose fields read in order.
    #[verifier::opaque]
    pub open spec fn spec_accepts(v: JsonValue) -> bool {
        match v {
            JsonValue::Object(w) => {
                let left0 = w@;
                let left1 = taken(left0, "matches"@);
                let left2 = taken(left1, "paging"@);
                &&& all_known(left0, FilesResponseFiles::declared_fields())
                &&& optional_ok::<Vec<File>>(left0, "matches"@)
                &&& optional_ok::<Paging>(left1, "paging"@)
                &&& optional_ok::<i32>(left2, "total"@)
            },
            _ => false,
        }
    }

    /// Whether `x` holds what the fields of `v` read as.
    #[verifier::opaque]
    pub open spec fn spec_decodes_to(v: JsonValue, x: FilesResponseFiles) -> bool {
        match v {
            JsonValue::Object(w) => {
                let left0 = w@;
                let left1 = taken(left0, "matches"@);
                let left2 = taken(left1, "paging"@);
                &&& optional_value::<Vec<File>>(left0, "matches"@, x.matches)
                &&& optional_value::<Paging>(left1, "paging"@, x.paging)
                &&& optional_value::<i32>(left2, "total"@, x.total)
            },
            _ => false,
        }
    }

    /// Whether `e` is the error of the first check or field that fails on `v`.
    #[verifier::opaque]
    pub open spec fn spec_rejects_with(v: JsonValue, e: DecodeError) -> bool {
        match v {
            JsonValue::Object(w) => {
                let left0 = w@;
                let left1 = taken(left0, "matches"@);
                let left2 = taken(left1, "paging"@);
                if !all_known(left0, FilesResponseFiles::declared_fields()) {
                    e == (DecodeError::UnknownField { field: first_unknown_key(left0, FilesResponseFiles::declared_fields()) })
                } else if !optional_ok::<Vec<File>>(left0, "matches"@) {
                    field_failed::<Vec<File>>(left0, "matches"@, e)
                } else if !optional_ok::<Paging>(left1, "paging"@) {
                    field_failed::<Paging>(left1, "paging"@, e)
                } else if !optional_ok::<i32>(left2, "total"@) {
                    field_failed::<i32>(left2, "total"@, e)
                } else {
                    false
                }
            },
            _ => e == (DecodeError::WrongType { expected: "object" }),
        }
    }
}

impl Decode for FilesResponseFiles {
    open spec fn accepts(v: JsonValue) -> bool {
        FilesResponseFiles::spec_accepts(v)
    }

    open spec fn decodes_to(v: JsonValue, x: FilesResponseFiles) -> bool {
        FilesResponseFiles::spec_decodes_to(v, x)
    }

    open spec fn rejects_with(v: JsonValue, e: DecodeError) -> bool {
        FilesResponseFiles::spec_rejects_with(v, e)
    }

    fn decode(v: JsonValue) -> Result<FilesResponseFiles, DecodeError> {
        proof {
            reveal(FilesResponseFiles::spec_accepts);
            reveal(FilesResponseFiles::spec_decodes_to);
            reveal(FilesResponseFiles::spec_rejects_with);
        }
        let mut wire = into_fields(v)?;
        let known: &[&str] = &["matches", "paging", "total"];
        assert(known@ =~= FilesResponseFiles::declared_fields());
        check_fields(&wire, known)?;
        let matches: Option<Vec<File>> = optional(&mut wire, "matches")?;
        let paging: Option<Paging> = optional(&mut wire, "paging")?;
        let total: Option<i32> = optional(&mut wire, "total")?;
        Ok(FilesResponseFiles { matches, paging, total })
    }
}

#[derive(Clone, Debug, PartialEq)]
pub struct MessagesRequest<'a> {
    /// Search query. May contains booleans, etc.
    pub query: &'a str,
    /// Return matches sorted by either score or timestamp.
    pub sort: Option<&'a str>,
    /// Change sort direction to ascending (asc) or descending (desc).
    pub sort_dir: Option<&'a str>,
    /// Pass a value of true to enable query highlight markers (see below).
    pub highlight: Option<bool>,
    /// Number of items to return per page.
    pub count: Option<u32>,
    /// Page number of results to return.
    pub page: Option<u32>,
}

#[derive(Clone, Debug, PartialEq)]
pub struct MessagesResponse {
    ok: bool,
    pub messages: Option<MessagesResponseMessages>,
    pub query: Option<String>,
}

impl MessagesResponse {
    /// The fields the record declares; it admits no others.
    pub open spec fn declared_fields() -> Seq<&'static str> {
        seq!["ok", "messages", "query"]
    }
}

impl MessagesResponse {
    /// Whether `v` decodes as the record: an object whose fields read in order.
    #[verifier::opaque]
    pub open spec fn spec_accepts(v: JsonValue) -> bool {
        match v {
            JsonValue::Object(w) => {
                let left0 = w@;
                let left1 = taken(left0, "ok"@);
                let left2 = taken(left1, "messages"@);
                &&& all_known(left0, MessagesResponse::declared_fields())
                &&& required_ok::<bool>(left0, "ok"@)
                &&& optional_ok::<MessagesResponseMessages>(left1, "messages"@)
                &&& optional_ok::<String>(left2, "query"@)
            },
            _ => false,
        }
    }

    /// Whether `x` holds what the fields of `v` read as.
    #[verifier::opaque]
    pub closed spec fn spec_decodes_to(v: JsonValue, x: MessagesResponse) -> bool {
        match v {
            JsonValue::Object(w) => {
                let left0 = w@;
                let left1 = taken(left0, "ok"@);
                let left2 = taken(left1, "messages"@);
                &&& <bool as Decode>::decodes_to(value_of(left0, "ok"@), x.ok)
                &&& optional_value::<MessagesResponseMessages>(left1, "messages"@, x.messages)
                &&& optional_value::<String>(left2, "query"@, x.query)
            },
            _ => false,
        }
    }

    /// Whether `e` is the error of the first check or field that fails on `v`.
    #[verifier::opaque]
    pub open spec fn spec_rejects_with(v: JsonValue, e: DecodeError) -> bool {
        match v {
            JsonValue::Object(w) => {
                let left0 = w@;
                let left1 = taken(left0, "ok"@);
                let left2 = taken(left1, "messages"@);
                if !all_known(left0, MessagesResponse::declared_fields()) {
                    e == (DecodeError::UnknownField { field: first_unknown_key(left0, MessagesResponse::declared_fields()) })
                } else if !required_ok::<bool>(left0, "ok"@) {
                    required_err::<bool>(left0, "ok"@, e)
                } else if !optional_ok::<MessagesResponseMessages>(left1, "messages"@) {
                    field_failed::<MessagesResponseMessages>(left1, "messages"@, e)
                } else if !optional_ok::<String>(left2, "query"@) {
                    field_failed::<String>(left2, "query"@, e)
                } else {
                    false
                }
            },
            _ => e == (DecodeError::WrongType { expected: "object" }),
        }
    }
}

impl Decode for MessagesResponse {
    open spec fn accepts(v: JsonValue) -> bool {
        MessagesResponse::spec_accepts(v)
    }

    open spec fn decodes_to(v: JsonValue, x: MessagesResponse) -> bool {
        MessagesResponse::spec_decodes_to(v, x)
    }

    open spec fn rejects_with(v: JsonValue, e: DecodeError) -> bool {
        MessagesResponse::spec_rejects_with(v, e)
    }

    fn decode(v: JsonValue) -> Result<MessagesResponse, DecodeError> {
        proof {
            reveal(MessagesResponse::spec_accepts);
            reveal(MessagesResponse::spec_decodes_to);
            reveal(MessagesResponse::spec_rejects_with);
        }
        let mut wire = into_fields(v)?;
        let known: &[&str] = &["ok", "messages", "query"];
        assert(known@ =~= MessagesResponse::declared_fields());
        check_fields(&wire, known)?;
        let ok: bool = required(&mut wire, "ok")?;
        let messages: Option<MessagesResponseMessages> = optional(&mut wire, "messages")?;
        let query: Option<String> = optional(&mut wire, "query")?;
        Ok(MessagesResponse { ok, messages, query })
    }
}

#[derive(Clone, Debug, PartialEq)]
pub struct MessagesResponseMessages {
    pub matches: Option<Vec<Message>>,
    pub paging: Option<Paging>,
    pub total: Option<i32>,
}

impl MessagesResponseMessages {
    /// The fields the record declares; it admits no others.
    pub open spec fn declared_fields() -> Seq<&'static str> {
        seq!["matches", "paging", "total"]
    }
}

impl MessagesResponseMessages {
    /// Whether `v` decodes as the record: an object whose fields read in order.
    #[verifier::opaque]
    pub open spec fn spec_accepts(v: JsonValue) -> bool {
        match v {
            JsonValue::Object(w) => {
                let left0 = w@;
                let left1 = taken(left0, "matches"@);
                let left2 = taken(left1, "paging"@);
                &&& all_known(left0, MessagesResponseMessages::declared_fields())
                &&& optional_ok::<Vec<Message>>(left0, "matches"@)
                &&& optional_ok::<Paging>(left1, "paging"@)
                &&& optional_ok::<i32>(left2, "total"@)
            },
            _ => false,
        }
    }

    /// Whether `x` holds what the fields of `v` read as.
    #[verifier::opaque]
    pub open spec fn spec_decodes_to(v: JsonValue, x: MessagesResponseMessages) -> bool {
        match v {
            JsonValue::Object(w) => {
                let left0 = w@;
                let left1 = taken(left0, "matches"@);
                let left2 = taken(left1, "paging"@);
                &&& optional_value::<Vec<Message>>(left0, "matches"@, x.matches)
                &&& optional_value::<Paging>(left1, "paging"@, x.paging)
                &&& optional_value::<i32>(left2, "total"@, x.total)
            },
            _ => false,
        }
    }

    /// Whether `e` is the error of the first check or field that fails on `v`.
    #[verifier::opaque]
    pub open spec fn spec_rejects_with(v: JsonValue, e: DecodeError) -> bool {
        match v {
            JsonValue::Object(w) => {
                let left0 = w@;
                let left1 = taken(left0, "matches"@);
                let left2 = taken(left1, "paging"@);
                if !all_known(left0, MessagesResponseMessages::declared_fields()) {
                    e == (DecodeError::UnknownField { field: first_unknown_key(left0, MessagesResponseMessages::declared_fields()) })
                } else if !optional_ok::<Vec<Message>>(left0, "matches"@) {
                    field_failed::<Vec<Message>>(left0, "matches"@, e)
                } else if !optional_ok::<Paging>(left1, "paging"@) {
                    field_failed::<Paging>(left1, "paging"@, e)
                } else if !optional_ok::<i32>(left2, "total"@) {
                    field_failed::<i32>(left2, "total"@, e)
                } else {
                    false
                }
            },
            _ => e == (DecodeError::WrongType { expected: "object" }),
        }
    }
}

impl Decode for MessagesResponseMessages {
    open spec fn accepts(v: JsonValue) -> bool {
        MessagesResponseMessages::spec_accepts(v)
    }

    open spec fn decodes_to(v: JsonValue, x: MessagesResponseMessages) -> bool {
        MessagesResponseMessages::spec_decodes_to(v, x)
    }

    open spec fn rejects_with(v: JsonValue, e: DecodeError) -> bool {
        MessagesResponseMessages::spec_rejects_with(v, e)
    }

    fn decode(v: JsonValue) -> Result<MessagesResponseMessages, DecodeError> {
        proof {
            reveal(MessagesResponseMessages::spec_accepts);
            reveal(MessagesResponseMessages::spec_decodes_to);
            reveal(MessagesResponseMessages::spec_rejects_with);
        }
        let mut wire = into_fields(v)?;
        let known: &[&str] = &["matches", "paging", "total"];
        assert(known@ =~= MessagesResponseMessages::declared_fields());
        check_fields(&wire, known)?;
        let matches: Option<Vec<Message>> = optional(&mut wire, "matches")?;
        let paging: Option<Paging> = optional(&mut wire, "paging")?;
        let total: Option<i32> = optional(&mut wire, "total")?;
        Ok(MessagesResponseMessages { matches, paging, total })
    }
}

} // verus!
