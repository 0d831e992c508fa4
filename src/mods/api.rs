use crate::json::{required_err, required_ok, value_of, into_fields, required, Decode, DecodeError, JsonValue, StringMap};
use vstd::prelude::*;

verus! {

/// Checks API calling code.
///
/// Wraps https://api.slack.com/methods/api.test
#[derive(Clone, Debug, PartialEq)]
pub struct TestRequest<'a> {
    /// Error response to return
    error: Option<&'a str>,
    /// example property to return
    foo: Option<&'a str>,
}

#[derive(Clone, Debug, PartialEq)]
pub struct TestResponse {
    args: StringMap<String>,
}

impl TestResponse {
    /// Whether `v` decodes as the record: an object whose fields read in order.
    #[verifier::opaque]
    pub open spec fn spec_accepts(v: JsonValue) -> bool {
        match v {
            JsonValue::Object(w) => {
                let left0 = w@;
                &&& required_ok::<StringMap<String>>(left0, "args"@)
            },
            _ => false,
        }
    }

    /// Whether `x` holds what the fields of `v` read as.
    #[verifier::opaque]
    pub closed spec fn spec_decodes_to(v: JsonValue, x: TestResponse) -> bool {
        match v {
            JsonValue::Object(w) => {
                let left0 = w@;
                &&& <StringMap<String> as Decode>::decodes_to(value_of(left0, "args"@), x.args)
            },
            _ => false,
        }
    }

    /// Whether `e` is the error of the first check or field that fails on `v`.
    #[verifier::opaque]
    pub open spec fn spec_rejects_with(v: JsonValue, e: DecodeError) -> bool {
        match v {
            JsonValue::Object(w) => {
                let left0 = w@;
                if !required_ok::<StringMap<String>>(left0, "args"@) {
                    required_err::<StringMap<String>>(left0, "args"@, e)
                } else {
                    false
                }
            },
            _ => e == (DecodeError::WrongType { expected: "object" }),
        }
    }
}

impl Decode for TestResponse {
    open spec fn accepts(v: JsonValue) -> bool {
        TestResponse::spec_accepts(v)
    }

    open spec fn decodes_to(v: JsonValue, x: TestResponse) -> bool {
        TestResponse::spec_decodes_to(v, x)
    }

    open spec fn rejects_with(v: JsonValue, e: DecodeError) -> bool {
        TestResponse::spec_rejects_with(v, e)
    }

    fn decode(v: JsonValue) -> Result<TestResponse, DecodeError> {
        proof {
            reveal(TestResponse::spec_accepts);
            reveal(TestResponse::spec_decodes_to);
            reveal(TestResponse::spec_rejects_with);
        }
        let mut wire = into_fields(v)?;
        let args: StringMap<String> = required(&mut wire, "args")?;
        Ok(TestResponse { args })
    }
}

} // verus!
