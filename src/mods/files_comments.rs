use crate::json::{all_known, check_fields, first_unknown_key, required_err, required_ok, taken, value_of, into_fields, required, Decode, DecodeError, JsonValue};
use crate::types::{FileComment};
use vstd::prelude::*;

verus! {

#[derive(Clone, Debug, PartialEq)]
pub struct AddRequest<'a> {
    /// File to add a comment to.
    pub file: &'a str,
    /// Text of the comment to add.
    pub comment: &'a str,
}

#[derive(Clone, Debug, PartialEq)]
pub struct AddResponse {
    ok: bool,
    pub comment: FileComment,
}

impl AddResponse {
    /// The fields the record declares; it admits no others.
    pub open spec fn declared_fields() -> Seq<&'static str> {
        seq!["ok", "comment"]
    }
}

impl AddResponse {
    /// Whether `v` decodes as the record: an object whose fields read in order.
    #[verifier::opaque]
    pub open spec fn spec_accepts(v: JsonValue) -> bool {
        match v {
            JsonValue::Object(w) => {
                let left0 = w@;
                let left1 = taken(left0, "ok"@);
                &&& all_known(left0, AddResponse::declared_fields())
                &&& required_ok::<bool>(left0, "ok"@)
                &&& required_ok::<FileComment>(left1, "comment"@)
            },
            _ => false,
        }
    }

    /// Whether `x` holds what the fields of `v` read as.
    #[verifier::opaque]
    pub closed spec fn spec_decodes_to(v: JsonValue, x: AddResponse) -> bool {
        match v {
            JsonValue::Object(w) => {
                let left0 = w@;
                let left1 = taken(left0, "ok"@);
                &&& <bool as Decode>::decodes_to(value_of(left0, "ok"@), x.ok)
                &&& <FileComment as Decode>::decodes_to(value_of(left1, "comment"@), x.comment)
            },
            _ => false,
        }
    }

    /// Whether `e` is the error of the first check or field that fails on `v`.
    #[verifier::opaque]
    pub open spec fn spec_rejects_with(v: JsonValue, e: DecodeError) -> bool {
        match v {
            JsonValue::Object(w) => {
                let left0 = w@;
                let left1 = taken(left0, "ok"@);
                if !all_known(left0, AddResponse::declared_fields()) {
                    e == (DecodeError::UnknownField { field: first_unknown_key(left0, AddResponse::declared_fields()) })
                } else if !required_ok::<bool>(left0, "ok"@) {
                    required_err::<bool>(left0, "ok"@, e)
                } else if !required_ok::<FileComment>(left1, "comment"@) {
                    required_err::<FileComment>(left1, "comment"@, e)
                } else {
                    false
                }
            },
            _ => e == (DecodeError::WrongType { expected: "object" }),
        }
    }
}

impl Decode for AddResponse {
    open spec fn accepts(v: JsonValue) -> bool {
        AddResponse::spec_accepts(v)
    }

    open spec fn decodes_to(v: JsonValue, x: AddResponse) -> bool {
        AddResponse::spec_decodes_to(v, x)
    }

    open spec fn rejects_with(v: JsonValue, e: DecodeError) -> bool {
        AddResponse::spec_rejects_with(v, e)
    }

    fn decode(v: JsonValue) -> Result<AddResponse, DecodeError> {
        proof {
            reveal(AddResponse::spec_accepts);
            reveal(AddResponse::spec_decodes_to);
            reveal(AddResponse::spec_rejects_with);
        }
        let mut wire = into_fields(v)?;
        let known: &[&str] = &["ok", "comment"];
        assert(known@ =~= AddResponse::declared_fields());
        check_fields(&wire, known)?;
        let ok: bool = required(&mut wire, "ok")?;
        let comment: FileComment = required(&mut wire, "comment")?;
        Ok(AddResponse { ok, comment })
    }
}

#[derive(Clone, Debug, PartialEq)]
pub struct DeleteRequest<'a> {
    /// File to delete a comment from.
    pub file: &'a str,
    /// The comment to delete.
    pub id: &'a str,
}

#[derive(Clone, Debug, PartialEq)]
pub struct DeleteResponse {
    ok: bool,
}

impl DeleteResponse {
    /// The fields the record declares; it admits no others.
    pub open spec fn declared_fields() -> Seq<&'static str> {
        seq!["ok"]
    }
}

impl DeleteResponse {
    /// Whether `v` decodes as the record: an object whose fields read in order.
    #[verifier::opaque]
    pub open spec fn spec_accepts(v: JsonValue) -> bool {
        match v {
            JsonValue::Object(w) => {
                let left0 = w@;
                &&& all_known(left0, DeleteResponse::declared_fields())
                &&& required_ok::<bool>(left0, "ok"@)
            },
            _ => false,
        }
    }

    /// Whether `x` holds what the fields of `v` read as.
    #[verifier::opaque]
    pub closed spec fn spec_decodes_to(v: JsonValue, x: DeleteResponse) -> bool {
        match v {
            JsonValue::Object(w) => {
                let left0 = w@;
                &&& <bool as Decode>::decodes_to(value_of(left0, "ok"@), x.ok)
            },
            _ => false,
        }
    }

    /// Whether `e` is the error of the first check or field that fails on `v`.
    #[verifier::opaque]
    pub open spec fn spec_rejects_with(v: JsonValue, e: DecodeError) -> bool {
        match v {
            JsonValue::Object(w) => {
                let left0 = w@;
                if !all_known(left0, DeleteResponse::declared_fields()) {
                    e == (DecodeError::UnknownField { field: first_unknown_key(left0, DeleteResponse::declared_fields()) })
                } else if !required_ok::<bool>(left0, "ok"@) {
                    required_err::<bool>(left0, "ok"@, e)
                } else {
                    false
                }
            },
            _ => e == (DecodeError::WrongType { expected: "object" }),
        }
    }
}

impl Decode for DeleteResponse {
    open spec fn accepts(v: JsonValue) -> bool {
        DeleteResponse::spec_accepts(v)
    }

    open spec fn decodes_to(v: JsonValue, x: DeleteResponse) -> bool {
        DeleteResponse::spec_decodes_to(v, x)
    }

    open spec fn rejects_with(v: JsonValue, e: DecodeError) -> bool {
        DeleteResponse::spec_rejects_with(v, e)
    }

    fn decode(v: JsonValue) -> Result<DeleteResponse, DecodeError> {
        proof {
            reveal(DeleteResponse::spec_accepts);
            reveal(DeleteResponse::spec_decodes_to);
            reveal(DeleteResponse::spec_rejects_with);
        }
        let mut wire = into_fields(v)?;
        let known: &[&str] = &["ok"];
        assert(known@ =~= DeleteResponse::declared_fields());
        check_fields(&wire, known)?;
        let ok: bool = required(&mut wire, "ok")?;
        Ok(DeleteResponse { ok })
    }
}

#[derive(Clone, Debug, PartialEq)]
pub struct EditRequest<'a> {
    /// File containing the comment to edit.
    pub file: &'a str,
    /// The comment to edit.
    pub id: &'a str,
    /// Text of the comment to edit.
    pub comment: &'a str,
}

#[derive(Clone, Debug, PartialEq)]
pub struct EditResponse {
    ok: bool,
    pub comment: FileComment,
}

impl EditResponse {
    /// The fields the record declares; it admits no others.
    pub open spec fn declared_fields() -> Seq<&'static str> {
        seq!["ok", "comment"]
    }
}

impl EditResponse {
    /// Whether `v` decodes as the record: an object whose fields read in order.
    #[verifier::opaque]
    pub open spec fn spec_accepts(v: JsonValue) -> bool {
        match v {
            JsonValue::Object(w) => {
                let left0 = w@;
                let left1 = taken(left0, "ok"@);
                &&& all_known(left0, EditResponse::declared_fields())
                &&& required_ok::<bool>(left0, "ok"@)
                &&& required_ok::<FileComment>(left1, "comment"@)
            },
            _ => false,
        }
    }

    /// Whether `x` holds what the fields of `v` read as.
    #[verifier::opaque]
    pub closed spec fn spec_decodes_to(v: JsonValue, x: EditResponse) -> bool {
        match v {
            JsonValue::Object(w) => {
                let left0 = w@;
                let left1 = taken(left0, "ok"@);
                &&& <bool as Decode>::decodes_to(value_of(left0, "ok"@), x.ok)
                &&& <FileComment as Decode>::decodes_to(value_of(left1, "comment"@), x.comment)
            },
            _ => false,
        }
    }

    /// Whether `e` is the error of the first check or field that fails on `v`.
    #[verifier::opaque]
    pub open spec fn spec_rejects_with(v: JsonValue, e: DecodeError) -> bool {
        match v {
            JsonValue::Object(w) => {
                let left0 = w@;
                let left1 = taken(left0, "ok"@);
                if !all_known(left0, EditResponse::declared_fields()) {
                    e == (DecodeError::UnknownField { field: first_unknown_key(left0, EditResponse::declared_fields()) })
                } else if !required_ok::<bool>(left0, "ok"@) {
                    required_err::<bool>(left0, "ok"@, e)
                } else if !required_ok::<FileComment>(left1, "comment"@) {
                    required_err::<FileComment>(left1, "comment"@, e)
                } else {
                    false
                }
            },
            _ => e == (DecodeError::WrongType { expected: "object" }),
        }
    }
}

impl Decode for EditResponse {
    open spec fn accepts(v: JsonValue) -> bool {
        EditResponse::spec_accepts(v)
    }

    open spec fn decodes_to(v: JsonValue, x: EditResponse) -> bool {
        EditResponse::spec_decodes_to(v, x)
    }

    open spec fn rejects_with(v: JsonValue, e: DecodeError) -> bool {
        EditResponse::spec_rejects_with(v, e)
    }

    fn decode(v: JsonValue) -> Result<EditResponse, DecodeError> {
        proof {
            reveal(EditResponse::spec_accepts);
            reveal(EditResponse::spec_decodes_to);
            reveal(EditResponse::spec_rejects_with);
        }
        let mut wire = into_fields(v)?;
        let known: &[&str] = &["ok", "comment"];
        assert(known@ =~= EditResponse::declared_fields());
        check_fields(&wire, known)?;
        let ok: bool = required(&mut wire, "ok")?;
        let comment: FileComment = required(&mut wire, "comment")?;
        Ok(EditResponse { ok, comment })
    }
}

} // verus!
