//! Get info on files uploaded to Slack, upload new files to Slack.

use crate::json::{all_known, check_fields, field_failed, first_unknown_key, optional_ok, optional_value, required_err, required_ok, taken, value_of, into_fields, optional, required, Decode, DecodeError, JsonValue};
use crate::types::{File, FileComment, Paging};
use vstd::prelude::*;

verus! {

#[derive(Clone, Debug, PartialEq)]
pub struct DeleteRequest<'a> {
    /// ID of file to delete.
    pub file: &'a str,
}

#[derive(Clone, Debug, PartialEq)]
pub struct InfoRequest<'a> {
    /// Specify a file by providing its ID.
    pub file: &'a str,
    /// Number of items to return per page.
    pub count: Option<u32>,
    /// Page number of results to return.
    pub page: Option<u32>,
}

#[derive(Clone, Debug, PartialEq)]
pub struct InfoResponse {
    ok: bool,
    pub comments: Vec<FileComment>,
    pub file: File,
    pub paging: Paging,
}

impl InfoResponse {
    /// The fields the record declares; it admits no others.
    pub open spec fn declared_fields() -> Seq<&'static str> {
        seq!["ok", "comments", "file", "paging"]
    }
}

impl InfoResponse {
    /// Whether `v` decodes as the record: an object whose fields read in order.
    #[verifier::opaque]
    pub open spec fn spec_accepts(v: JsonValue) -> bool {
        match v {
            JsonValue::Object(w) => {
                let left0 = w@;
                let left1 = taken(left0, "ok"@);
                let left2 = taken(left1, "comments"@);
                let left3 = taken(left2, "file"@);
                &&& all_known(left0, InfoResponse::declared_fields())
                &&& required_ok::<bool>(left0, "ok"@)
                &&& required_ok::<Vec<FileComment>>(left1, "comments"@)
                &&& required_ok::<File>(left2, "file"@)
                &&& required_ok::<Paging>(left3, "paging"@)
            },
            _ => false,
        }
    }

    /// Whether `x` holds what the fields of `v` read as.
    #[verifier::opaque]
    pub closed spec fn spec_decodes_to(v: JsonValue, x: InfoResponse) -> bool {
        match v {
            JsonValue::Object(w) => {
                let left0 = w@;
                let left1 = taken(left0, "ok"@);
                let left2 = taken(left1, "comments"@);
                let left3 = taken(left2, "file"@);
                &&& <bool as Decode>::decodes_to(value_of(left0, "ok"@), x.ok)
                &&& <Vec<FileComment> as Decode>::decodes_to(value_of(left1, "comments"@), x.comments)
                &&& <File as Decode>::decodes_to(value_of(left2, "file"@), x.file)
                &&& <Paging as Decode>::decodes_to(value_of(left3, "paging"@), x.paging)
            },
            _ => false,
        }
    }

    /// Whether `e` is the error of the first check or field that fails on `v`.
    #[verifier::opaque]
    pub open spec fn spec_rejects_with(v: JsonValue, e: DecodeError) -> bool {
        match v {
            JsonValue::Object(w) => {
                let left0 = w@;
                let left1 = taken(left0, "ok"@);
                let left2 = taken(left1, "comments"@);
                let left3 = taken(left2, "file"@);
                if !all_known(left0, InfoResponse::declared_fields()) {
                    e == (DecodeError::UnknownField { field: first_unknown_key(left0, InfoResponse::declared_fields()) })
                } else if !required_ok::<bool>(left0, "ok"@) {
                    required_err::<bool>(left0, "ok"@, e)
                } else if !required_ok::<Vec<FileComment>>(left1, "comments"@) {
                    required_err::<Vec<FileComment>>(left1, "comments"@, e)
                } else if !required_ok::<File>(left2, "file"@) {
                    required_err::<File>(left2, "file"@, e)
                } else if !required_ok::<Paging>(left3, "paging"@) {
                    required_err::<Paging>(left3, "paging"@, e)
                } else {
                    false
                }
            },
            _ => e == (DecodeError::WrongType { expected: "object" }),
        }
    }
}

impl Decode for InfoResponse {
    open spec fn accepts(v: JsonValue) -> bool {
        InfoResponse::spec_accepts(v)
    }

    open spec fn decodes_to(v: JsonValue, x: InfoResponse) -> bool {
        InfoResponse::spec_decodes_to(v, x)
    }

    open spec fn rejects_with(v: JsonValue, e: DecodeError) -> bool {
        InfoResponse::spec_rejects_with(v, e)
    }

    fn decode(v: JsonValue) -> Result<InfoResponse, DecodeError> {
        proof {
            reveal(InfoResponse::spec_accepts);
            reveal(InfoResponse::spec_decodes_to);
            reveal(InfoResponse::spec_rejects_with);
        }
        let mut wire = into_fields(v)?;
        let known: &[&str] = &["ok", "comments", "file", "paging"];
        assert(known@ =~= InfoResponse::declared_fields());
        check_fields(&wire, known)?;
        let ok: bool = required(&mut wire, "ok")?;
        let comments: Vec<FileComment> = required(&mut wire, "comments")?;
        let file: File = required(&mut wire, "file")?;
        let paging: Paging = required(&mut wire, "paging")?;
        Ok(InfoResponse { ok, comments, file, paging })
    }
}

#[derive(Clone, Debug, PartialEq)]
pub struct ListRequest<'a> {
    /// Filter files created by a single user.
    pub user: Option<&'a str>,
    /// Filter files appearing in a specific channel, indicated by its ID.
    pub channel: Option<&'a str>,
    /// Filter files created after this timestamp (inclusive).
    pub ts_from: Option<u32>,
    /// Filter files created before this timestamp (inclusive).
    pub ts_to: Option<u32>,
    /// Filter files by type:
    ///
    ///
    /// all - All files
    /// spaces - Posts
    /// snippets - Snippets
    /// images - Image files
    /// gdocs - Google docs
    /// zips - Zip files
    /// pdfs - PDF files
    ///
    ///
    /// You can pass multiple values in the types argument, like types=spaces,snippets.The default value is all, which does not filter the list.
    pub types: Option<&'a str>,
    /// Number of items to return per page.
    pub count: Option<u32>,
    /// Page number of results to return.
    pub page: Option<u32>,
}

#[derive(Clone, Debug, PartialEq)]
pub struct ListResponse {
    ok: bool,
    pub files: Option<Vec<File>>,
    pub paging: Option<Paging>,
}

impl ListResponse {
    /// The fields the record declares; it admits no others.
    pub open spec fn declared_fields() -> Seq<&'static str> {
        seq!["ok", "files", "paging"]
    }
}

impl ListResponse {
    /// Whether `v` decodes as the record: an object whose fields read in order.
    #[verifier::opaque]
    pub open spec fn spec_accepts(v: JsonValue) -> bool {
        match v {
            JsonValue::Object(w) => {
                let left0 = w@;
                let left1 = taken(left0, "ok"@);
                let left2 = taken(left1, "files"@);
                &&& all_known(left0, ListResponse::declared_fields())
                &&& required_ok::<bool>(left0, "ok"@)
                &&& optional_ok::<Vec<File>>(left1, "files"@)
                &&& optional_ok::<Paging>(left2, "paging"@)
            },
            _ => false,
        }
    }

    /// Whether `x` holds what the fields of `v` read as.
    #[verifier::opaque]
    pub closed spec fn spec_decodes_to(v: JsonValue, x: ListResponse) -> bool {
        match v {
            JsonValue::Object(w) => {
                let left0 = w@;
                let left1 = taken(left0, "ok"@);
                let left2 = taken(left1, "files"@);
                &&& <bool as Decode>::decodes_to(value_of(left0, "ok"@), x.ok)
                &&& optional_value::<Vec<File>>(left1, "files"@, x.files)
                &&& optional_value::<Paging>(left2, "paging"@, x.paging)
            },
            _ => false,
        }
    }

    /// Whether `e` is the error of the first check or field that fails on `v`.
    #[verifier::opaque]
    pub open spec fn spec_rejects_with(v: JsonValue, e: DecodeError) -> bool {
        match v {
            JsonValue::Object(w) => {
                let left0 = w@;
                let left1 = taken(left0, "ok"@);
                let left2 = taken(left1, "files"@);
                if !all_known(left0, ListResponse::declared_fields()) {
                    e == (DecodeError::UnknownField { field: first_unknown_key(left0, ListResponse::declared_fields()) })
                } else if !required_ok::<bool>(left0, "ok"@) {
                    required_err::<bool>(left0, "ok"@, e)
                } else if !optional_ok::<Vec<File>>(left1, "files"@) {
                    field_failed::<Vec<File>>(left1, "files"@, e)
                } else if !optional_ok::<Paging>(left2, "paging"@) {
                    field_failed::<Paging>(left2, "paging"@, e)
                } else {
                    false
                }
            },
            _ => e == (DecodeError::WrongType { expected: "object" }),
        }
    }
}

impl Decode for ListResponse {
    open spec fn accepts(v: JsonValue) -> bool {
        ListResponse::spec_accepts(v)
    }

    open spec fn decodes_to(v: JsonValue, x: ListResponse) -> bool {
        ListResponse::spec_decodes_to(v, x)
    }

    open spec fn rejects_with(v: JsonValue, e: DecodeError) -> bool {
        ListResponse::spec_rejects_with(v, e)
    }

    fn decode(v: JsonValue) -> Result<ListResponse, DecodeError> {
        proof {
            reveal(ListResponse::spec_accepts);
            reveal(ListResponse::spec_decodes_to);
            reveal(ListResponse::spec_rejects_with);
        }
        let mut wire = into_fields(v)?;
        let known: &[&str] = &["ok", "files", "paging"];
        assert(known@ =~= ListResponse::declared_fields());
        check_fields(&wire, known)?;
        let ok: bool = required(&mut wire, "ok")?;
        let files: Option<Vec<File>> = optional(&mut wire, "files")?;
        let paging: Option<Paging> = optional(&mut wire, "paging")?;
        Ok(ListResponse { ok, files, paging })
    }
}

#[derive(Clone, Debug, PartialEq)]
pub struct RevokePublicURLRequest<'a> {
    /// File to revoke
    pub file: &'a str,
}

#[derive(Clone, Debug, PartialEq)]
pub struct RevokePublicURLResponse {
    ok: bool,
    pub file: File,
}

impl RevokePublicURLResponse {
    /// The fields the record declares; it admits no others.
    pub open spec fn declared_fields() -> Seq<&'static str> {
        seq!["ok", "file"]
    }
}

impl RevokePublicURLResponse {
    /// Whether `v` decodes as the record: an object whose fields read in order.
    #[verifier::opaque]
    pub open spec fn spec_accepts(v: JsonValue) -> bool {
        match v {
            JsonValue::Object(w) => {
                let left0 = w@;
                let left1 = taken(left0, "ok"@);
                &&& all_known(left0, RevokePublicURLResponse::declared_fields())
                &&& required_ok::<bool>(left0, "ok"@)
                &&& required_ok::<File>(left1, "file"@)
            },
            _ => false,
        }
    }

    /// Whether `x` holds what the fields of `v` read as.
    #[verifier::opaque]
    pub closed spec fn spec_decodes_to(v: JsonValue, x: RevokePublicURLResponse) -> bool {
        match v {
            JsonValue::Object(w) => {
                let left0 = w@;
                let left1 = taken(left0, "ok"@);
                &&& <bool as Decode>::decodes_to(value_of(left0, "ok"@), x.ok)
                &&& <File as Decode>::decodes_to(value_of(left1, "file"@), x.file)
            },
            _ => false,
        }
    }

    /// Whether `e` is the error of the first check or field that fails on `v`.
    #[verifier::opaque]
    pub open spec fn spec_rejects_with(v: JsonValue, e: DecodeError) -> bool {
        match v {
            JsonValue::Object(w) => {
                let left0 = w@;
                let left1 = taken(left0, "ok"@);
                if !all_known(left0, RevokePublicURLResponse::declared_fields()) {
                    e == (DecodeError::UnknownField { field: first_unknown_key(left0, RevokePublicURLResponse::declared_fields()) })
                } else if !required_ok::<bool>(left0, "ok"@) {
                    required_err::<bool>(left0, "ok"@, e)
                } else if !required_ok::<File>(left1, "file"@) {
                    required_err::<File>(left1, "file"@, e)
                } else {
                    false
                }
            },
            _ => e == (DecodeError::WrongType { expected: "object" }),
        }
    }
}

impl Decode for RevokePublicURLResponse {
    open spec fn accepts(v: JsonValue) -> bool {
        RevokePublicURLResponse::spec_accepts(v)
    }

    open spec fn decodes_to(v: JsonValue, x: RevokePublicURLResponse) -> bool {
        RevokePublicURLResponse::spec_decodes_to(v, x)
    }

    open spec fn rejects_with(v: JsonValue, e: DecodeError) -> bool {
        RevokePublicURLResponse::spec_rejects_with(v, e)
    }

    fn decode(v: JsonValue) -> Result<RevokePublicURLResponse, DecodeError> {
        proof {
            reveal(RevokePublicURLResponse::spec_accepts);
            reveal(RevokePublicURLResponse::spec_decodes_to);
            reveal(RevokePublicURLResponse::spec_rejects_with);
        }
        let mut wire = into_fields(v)?;
        let known: &[&str] = &["ok", "file"];
        assert(known@ =~= RevokePublicURLResponse::declared_fields());
        check_fields(&wire, known)?;
        let ok: bool = required(&mut wire, "ok")?;
        let file: File = required(&mut wire, "file")?;
        Ok(RevokePublicURLResponse { ok, file })
    }
}

#[derive(Clone, Debug, PartialEq)]
pub struct SharedPublicURLRequest<'a> {
    /// File to share
    pub file: &'a str,
}

#[derive(Clone, Debug, PartialEq)]
pub struct SharedPublicURLResponse {
    ok: bool,
    pub file: File,
}

impl SharedPublicURLResponse {
    /// The fields the record declares; it admits no others.
    pub open spec fn declared_fields() -> Seq<&'static str> {
        seq!["ok", "file"]
    }
}

impl SharedPublicURLResponse {
    /// Whether `v` decodes as the record: an object whose fields read in order.
    #[verifier::opaque]
    pub open spec fn spec_accepts(v: JsonValue) -> bool {
        match v {
            JsonValue::Object(w) => {
                let left0 = w@;
                let left1 = taken(left0, "ok"@);
                &&& all_known(left0, SharedPublicURLResponse::declared_fields())
                &&& required_ok::<bool>(left0, "ok"@)
                &&& required_ok::<File>(left1, "file"@)
            },
            _ => false,
        }
    }

    /// Whether `x` holds what the fields of `v` read as.
    #[verifier::opaque]
    pub closed spec fn spec_decodes_to(v: JsonValue, x: SharedPublicURLResponse) -> bool {
        match v {
            JsonValue::Object(w) => {
                let left0 = w@;
                let left1 = taken(left0, "ok"@);
                &&& <bool as Decode>::decodes_to(value_of(left0, "ok"@), x.ok)
                &&& <File as Decode>::decodes_to(value_of(left1, "file"@), x.file)
            },
            _ => false,
        }
    }

    /// Whether `e` is the error of the first check or field that fails on `v`.
    #[verifier::opaque]
    pub open spec fn spec_rejects_with(v: JsonValue, e: DecodeError) -> bool {
        match v {
            JsonValue::Object(w) => {
                let left0 = w@;
                let left1 = taken(left0, "ok"@);
                if !all_known(left0, SharedPublicURLResponse::declared_fields()) {
                    e == (DecodeError::UnknownField { field: first_unknown_key(left0, SharedPublicURLResponse::declared_fields()) })
                } else if !required_ok::<bool>(left0, "ok"@) {
                    required_err::<bool>(left0, "ok"@, e)
                } else if !required_ok::<File>(left1, "file"@) {
                    required_err::<File>(left1, "file"@, e)
                } else {
                    false
                }
            },
            _ => e == (DecodeError::WrongType { expected: "object" }),
        }
    }
}

impl Decode for SharedPublicURLResponse {
    open spec fn accepts(v: JsonValue) -> bool {
        SharedPublicURLResponse::spec_accepts(v)
    }

    open spec fn decodes_to(v: JsonValue, x: SharedPublicURLResponse) -> bool {
        SharedPublicURLResponse::spec_decodes_to(v, x)
    }

    open spec fn rejects_with(v: JsonValue, e: DecodeError) -> bool {
        SharedPublicURLResponse::spec_rejects_with(v, e)
    }

    fn decode(v: JsonValue) -> Result<SharedPublicURLResponse, DecodeError> {
        proof {
            reveal(SharedPublicURLResponse::spec_accepts);
            reveal(SharedPublicURLResponse::spec_decodes_to);
            reveal(SharedPublicURLResponse::spec_rejects_with);
        }
        let mut wire = into_fields(v)?;
        let known: &[&str] = &["ok", "file"];
        assert(known@ =~= SharedPublicURLResponse::declared_fields());
        check_fields(&wire, known)?;
        let ok: bool = required(&mut wire, "ok")?;
        let file: File = required(&mut wire, "file")?;
        Ok(SharedPublicURLResponse { ok, file })
    }
}

} // verus!
