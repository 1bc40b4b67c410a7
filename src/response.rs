//! How the body of an answer to a query is read.

use vstd::prelude::*;
use vstd::string::StringExecFns;
use vstd::utf8::{decode_utf8, valid_utf8};
use crate::error::InfluxDbError;
use crate::text::{contains_str, has_infix};

verus! {

broadcast use vstd::string::group_string_axioms;

/// Relies on `std::str::from_utf8`: it accepts exactly the byte sequences that
/// are valid UTF-8, and reads them as the characters they encode.
#[verifier::external_body]
fn utf8_str(b: &[u8]) -> (r: Option<&str>)
    ensures
        r is Some <==> valid_utf8(b@),
        r matches Some(s) ==> s@ == decode_utf8(b@),
{
    std::str::from_utf8(b).ok()
}

/// The server reports a failure by a JSON member named `error` in the body.
pub open spec fn reports_error(text: Seq<char>) -> bool {
    has_infix(text, "\"error\""@)
}

/// The message of the error for a body that reports one.
pub open spec fn database_error_message(text: Seq<char>) -> Seq<char> {
    "influxdb error: \""@ + text + "\""@
}

/// Reads the body of an answer: text that is not valid UTF-8 cannot be
/// deserialized, text that reports an error is a database error, and any other
/// text is the result.
pub fn parse_response(body: &[u8]) -> (r: Result<String, InfluxDbError>)
    ensures
        if !valid_utf8(body@) {
            r matches Err(InfluxDbError::DeserializationError { error }) && error@
                == "response could not be converted to UTF-8"@
        } else if reports_error(decode_utf8(body@)) {
            r matches Err(InfluxDbError::DatabaseError { error }) && error@
                == database_error_message(decode_utf8(body@))
        } else {
            r matches Ok(s) && s@ == decode_utf8(body@)
        },
{
    match utf8_str(body) {
        Some(text) => {
            if contains_str(text, "\"error\"") {
                let mut message = "influxdb error: \"".to_owned();
                message.append(text);
                message.append("\"");
                Err(InfluxDbError::DatabaseError { error: message })
            } else {
                Ok(text.to_owned())
            }
        },
        None => Err(
            InfluxDbError::DeserializationError {
                error: "response could not be converted to UTF-8".to_owned(),
            },
        ),
    }
}

} // verus!
