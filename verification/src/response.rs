//! Framing of the service's response bodies.
//!
//! A successful conversion answers with a small JSON object naming the
//! task and the download reference; failures answer with the error's
//! reason, prefixed for engine failures as the conversion report.

use vstd::prelude::*;
use crate::errors::ServiceError;
use crate::text::spec_decimal;
use crate::text::u64_to_decimal;

verus! {

/// The body of a 200 response:
/// `{"task_id":<id>,"converted_file":"/download/<name>"}`.
pub open spec fn spec_success_body(id: nat, artifact: Seq<char>) -> Seq<char> {
    "{\"task_id\":"@ + spec_decimal(id) + ",\"converted_file\":\"/download/"@ + artifact + "\"}"@
}

/// Builds the success response body for one finished task.
pub fn success_response_body(task_id: i32, artifact: &str) -> (r: String)
    requires
        1 <= task_id,
    ensures
        r@ == spec_success_body(task_id as nat, artifact@),
{
    let digits = u64_to_decimal(task_id as u64);
    let s = String::from_str("{\"task_id\":").concat(digits.as_str()).concat(
        ",\"converted_file\":\"/download/",
    ).concat(artifact).concat("\"}");
    proof {
        assert(s@ =~= spec_success_body(task_id as nat, artifact@));
    }
    s
}

/// The body of an error response: engine failures are reported as a
/// failed conversion with their cause; client mistakes and a missing
/// artifact answer with the plain reason.
pub open spec fn spec_error_body(e: ServiceError) -> Seq<char> {
    if e is Decode || e is Encode || e is Validation || e is InvalidName {
        "Conversion failed: "@ + e.spec_message()
    } else {
        e.spec_message()
    }
}

/// Builds the plain-text body for a failed request.
pub fn error_response_body(e: &ServiceError) -> (r: String)
    ensures
        r@ == spec_error_body(*e),
{
    let msg = e.message();
    match e {
        ServiceError::Decode(_) => String::from_str("Conversion failed: ").concat(msg.as_str()),
        ServiceError::Encode(_) => String::from_str("Conversion failed: ").concat(msg.as_str()),
        ServiceError::Validation(_) => String::from_str("Conversion failed: ").concat(
            msg.as_str(),
        ),
        ServiceError::InvalidName => String::from_str("Conversion failed: ").concat(msg.as_str()),
        _ => msg,
    }
}

} // verus!
