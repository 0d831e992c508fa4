use crate::json::{all_known, check_fields, field_failed, first_unknown_key, optional_ok, optional_value, required_err, required_ok, taken, value_of, into_fields, optional, required, Decode, DecodeError, JsonValue};
use vstd::prelude::*;

verus! {

#[derive(Clone, Debug, PartialEq)]
pub struct InfoRequest<'a> {
    /// Bot user to get info on
    pub bot: Option<&'a str>,
}

#[derive(Clone, Debug, PartialEq)]
pub struct InfoResponse {
    ok: bool,
    pub bot: InfoResponseBot,
}

impl InfoResponse {
    /// The fields the record declares; it admits no others.
    pub open spec fn declared_fields() -> Seq<&'static str> {
        seq!["ok", "bot"]
    }
}

impl InfoResponse {
    /// Whether `v` decodes as the record: an object whose fields read in order.
    #[verifier::opaque]
    pub open spec fn spec_accepts(v: JsonValue) -> bool {
        match v {
            JsonValue::Object(w) => {
                let left0 = w@;
                let left1 = taken(left0, "ok"@);
                &&& all_known(left0, InfoResponse::declared_fields())
                &&& required_ok::<bool>(left0, "ok"@)
                &&& required_ok::<InfoResponseBot>(left1, "bot"@)
            },
            _ => false,
        }
    }

    /// Whether `x` holds what the fields of `v` read as.
    #[verifier::opaque]
    pub closed spec fn spec_decodes_to(v: JsonValue, x: InfoResponse) -> bool {
        match v {
            JsonValue::Object(w) => {
                let left0 = w@;
                let left1 = taken(left0, "ok"@);
                &&& <bool as Decode>::decodes_to(value_of(left0, "ok"@), x.ok)
                &&& <InfoResponseBot as Decode>::decodes_to(value_of(left1, "bot"@), x.bot)
            },
            _ => false,
        }
    }

    /// Whether `e` is the error of the first check or field that fails on `v`.
    #[verifier::opaque]
    pub open spec fn spec_rejects_with(v: JsonValue, e: DecodeError) -> bool {
        match v {
            JsonValue::Object(w) => {
                let left0 = w@;
                let left1 = taken(left0, "ok"@);
                if !all_known(left0, InfoResponse::declared_fields()) {
                    e == (DecodeError::UnknownField { field: first_unknown_key(left0, InfoResponse::declared_fields()) })
                } else if !required_ok::<bool>(left0, "ok"@) {
                    required_err::<bool>(left0, "ok"@, e)
                } else if !required_ok::<InfoResponseBot>(left1, "bot"@) {
                    required_err::<InfoResponseBot>(left1, "bot"@, e)
                } else {
                    false
                }
            },
            _ => e == (DecodeError::WrongType { expected: "object" }),
        }
    }
}

impl Decode for InfoResponse {
    open spec fn accepts(v: JsonValue) -> bool {
        InfoResponse::spec_accepts(v)
    }

    open spec fn decodes_to(v: JsonValue, x: InfoResponse) -> bool {
        InfoResponse::spec_decodes_to(v, x)
    }

    open spec fn rejects_with(v: JsonValue, e: DecodeError) -> bool {
        InfoResponse::spec_rejects_with(v, e)
    }

    fn decode(v: JsonValue) -> Result<InfoResponse, DecodeError> {
        proof {
            reveal(InfoResponse::spec_accepts);
            reveal(InfoResponse::spec_decodes_to);
            reveal(InfoResponse::spec_rejects_with);
        }
        let mut wire = into_fields(v)?;
        let known: &[&str] = &["ok", "bot"];
        assert(known@ =~= InfoResponse::declared_fields());
        check_fields(&wire, known)?;
        let ok: bool = required(&mut wire, "ok")?;
        let bot: InfoResponseBot = required(&mut wire, "bot")?;
        Ok(InfoResponse { ok, bot })
    }
}

#[derive(Clone, Debug, PartialEq)]
pub struct InfoResponseBot {
    pub app_id: String,
    pub deleted: bool,
    pub icons: InfoResponseBotIcons,
    pub id: String,
    pub name: String,
}

impl InfoResponseBot {
    /// The fields the record declares; it admits no others.
    pub open spec fn declared_fields() -> Seq<&'static str> {
        seq!["app_id", "deleted", "icons", "id", "name"]
    }
}

impl InfoResponseBot {
    /// Whether `v` decodes as the record: an object whose fields read in order.
    #[verifier::opaque]
    pub open spec fn spec_accepts(v: JsonValue) -> bool {
        match v {
            JsonValue::Object(w) => {
                let left0 = w@;
                let left1 = taken(left0, "app_id"@);
                let left2 = taken(left1, "deleted"@);
                let left3 = taken(left2, "icons"@);
                let left4 = taken(left3, "id"@);
                &&& all_known(left0, InfoResponseBot::declared_fields())
                &&& required_ok::<String>(left0, "app_id"@)
                &&& required_ok::<bool>(left1, "deleted"@)
                &&& required_ok::<InfoResponseBotIcons>(left2, "icons"@)
                &&& required_ok::<String>(left3, "id"@)
                &&& required_ok::<String>(left4, "name"@)
            },
            _ => false,
        }
    }

    /// Whether `x` holds what the fields of `v` read as.
    #[verifier::opaque]
    pub open spec fn spec_decodes_to(v: JsonValue, x: InfoResponseBot) -> bool {
        match v {
            JsonValue::Object(w) => {
                let left0 = w@;
                let left1 = taken(left0, "app_id"@);
                let left2 = taken(left1, "deleted"@);
                let left3 = taken(left2, "icons"@);
                let left4 = taken(left3, "id"@);
                &&& <String as Decode>::decodes_to(value_of(left0, "app_id"@), x.app_id)
                &&& <bool as Decode>::decodes_to(value_of(left1, "deleted"@), x.deleted)
                &&& <InfoResponseBotIcons as Decode>::decodes_to(value_of(left2, "icons"@), x.icons)
                &&& <String as Decode>::decodes_to(value_of(left3, "id"@), x.id)
                &&& <String as Decode>::decodes_to(value_of(left4, "name"@), x.name)
            },
            _ => false,
        }
    }

    /// Whether `e` is the error of the first check or field that fails on `v`.
    #[verifier::opaque]
    pub open spec fn spec_rejects_with(v: JsonValue, e: DecodeError) -> bool {
        match v {
            JsonValue::Object(w) => {
                let left0 = w@;
                let left1 = taken(left0, "app_id"@);
                let left2 = taken(left1, "deleted"@);
                let left3 = taken(left2, "icons"@);
                let left4 = taken(left3, "id"@);
                if !all_known(left0, InfoResponseBot::declared_fields()) {
                    e == (DecodeError::UnknownField { field: first_unknown_key(left0, InfoResponseBot::declared_fields()) })
                } else if !required_ok::<String>(left0, "app_id"@) {
                    required_err::<String>(left0, "app_id"@, e)
                } else if !required_ok::<bool>(left1, "deleted"@) {
                    required_err::<bool>(left1, "deleted"@, e)
                } else if !required_ok::<InfoResponseBotIcons>(left2, "icons"@) {
                    required_err::<InfoResponseBotIcons>(left2, "icons"@, e)
                } else if !required_ok::<String>(left3, "id"@) {
                    required_err::<String>(left3, "id"@, e)
                } else if !required_ok::<String>(left4, "name"@) {
                    required_err::<String>(left4, "name"@, e)
                } else {
                    false
                }
            },
            _ => e == (DecodeError::WrongType { expected: "object" }),
        }
    }
}

impl Decode for InfoResponseBot {
    open spec fn accepts(v: JsonValue) -> bool {
        InfoResponseBot::spec_accepts(v)
    }

    open spec fn decodes_to(v: JsonValue, x: InfoResponseBot) -> bool {
        InfoResponseBot::spec_decodes_to(v, x)
    }

    open spec fn rejects_with(v: JsonValue, e: DecodeError) -> bool {
        InfoResponseBot::spec_rejects_with(v, e)
    }

    fn decode(v: JsonValue) -> Result<InfoResponseBot, DecodeError> {
        proof {
            reveal(InfoResponseBot::spec_accepts);
            reveal(InfoResponseBot::spec_decodes_to);
            reveal(InfoResponseBot::spec_rejects_with);
        }
        let mut wire = into_fields(v)?;
        let known: &[&str] = &["app_id", "deleted", "icons", "id", "name"];
        assert(known@ =~= InfoResponseBot::declared_fields());
        check_fields(&wire, known)?;
        let app_id: String = required(&mut wire, "app_id")?;
        let deleted: bool = required(&mut wire, "deleted")?;
        let icons: InfoResponseBotIcons = required(&mut wire, "icons")?;
        let id: String = required(&mut wire, "id")?;
        let name: String = required(&mut wire, "name")?;
        Ok(InfoResponseBot { app_id, deleted, icons, id, name })
    }
}

#[derive(Clone, Debug, PartialEq)]
pub struct InfoResponseBotIcons {
    pub image_36: Option<String>,
    pub image_48: Option<String>,
    pub image_72: Option<String>,
}

impl InfoResponseBotIcons {
    /// The fields the record declares; it admits no others.
    pub open spec fn declared_fields() -> Seq<&'static str> {
        seq!["image_36", "image_48", "image_72"]
    }
}

impl InfoResponseBotIcons {
    /// Whether `v` decodes as the record: an object whose fields read in order.
    #[verifier::opaque]
    pub open spec fn spec_accepts(v: JsonValue) -> bool {
        match v {
            JsonValue::Object(w) => {
                let left0 = w@;
                let left1 = taken(left0, "image_36"@);
                let left2 = taken(left1, "image_48"@);
                &&& all_known(left0, InfoResponseBotIcons::declared_fields())
                &&& optional_ok::<String>(left0, "image_36"@)
                &&& optional_ok::<String>(left1, "image_48"@)
                &&& optional_ok::<String>(left2, "image_72"@)
            },
            _ => false,
        }
    }

    /// Whether `x` holds what the fields of `v` read as.
    #[verifier::opaque]
    pub open spec fn spec_decodes_to(v: JsonValue, x: InfoResponseBotIcons) -> bool {
        match v {
            JsonValue::Object(w) => {
                let left0 = w@;
                let left1 = taken(left0, "image_36"@);
                let left2 = taken(left1, "image_48"@);
                &&& optional_value::<String>(left0, "image_36"@, x.image_36)
                &&& optional_value::<String>(left1, "image_48"@, x.image_48)
                &&& optional_value::<String>(left2, "image_72"@, x.image_72)
            },
            _ => false,
        }
    }

    /// Whether `e` is the error of the first check or field that fails on `v`.
    #[verifier::opaque]
    pub open spec fn spec_rejects_with(v: JsonValue, e: DecodeError) -> bool {
        match v {
            JsonValue::Object(w) => {
                let left0 = w@;
                let left1 = taken(left0, "image_36"@);
                let left2 = taken(left1, "image_48"@);
                if !all_known(left0, InfoResponseBotIcons::declared_fields()) {
                    e == (DecodeError::UnknownField { field: first_unknown_key(left0, InfoResponseBotIcons::declared_fields()) })
                } else if !optional_ok::<String>(left0, "image_36"@) {
                    field_failed::<String>(left0, "image_36"@, e)
                } else if !optional_ok::<String>(left1, "image_48"@) {
                    field_failed::<String>(left1, "image_48"@, e)
                } else if !optional_ok::<String>(left2, "image_72"@) {
                    field_failed::<String>(left2, "image_72"@, e)
                } else {
                    false
                }
            },
            _ => e == (DecodeError::WrongType { expected: "object" }),
        }
    }
}

impl Decode for InfoResponseBotIcons {
    open spec fn accepts(v: JsonValue) -> bool {
        InfoResponseBotIcons::spec_accepts(v)
    }

    open spec fn decodes_to(v: JsonValue, x: InfoResponseBotIcons) -> bool {
        InfoResponseBotIcons::spec_decodes_to(v, x)
    }

    open spec fn rejects_with(v: JsonValue, e: DecodeError) -> bool {
        InfoResponseBotIcons::spec_rejects_with(v, e)
    }

    fn decode(v: JsonValue) -> Result<InfoResponseBotIcons, DecodeError> {
        proof {
            reveal(InfoResponseBotIcons::spec_accepts);
            reveal(InfoResponseBotIcons::spec_decodes_to);
            reveal(InfoResponseBotIcons::spec_rejects_with);
        }
        let mut wire = into_fields(v)?;
        let known: &[&str] = &["image_36", "image_48", "image_72"];
        assert(known@ =~= InfoResponseBotIcons::declared_fields());
        check_fields(&wire, known)?;
        let image_36: Option<String> = optional(&mut wire, "image_36")?;
        let image_48: Option<String> = optional(&mut wire, "image_48")?;
        let image_72: Option<String> = optional(&mut wire, "image_72")?;
        Ok(InfoResponseBotIcons { image_36, image_48, image_72 })
    }
}

} // verus!
