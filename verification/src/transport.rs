//! Deciding what to report once the webhook has answered. The HTTP
//! call itself happens outside the library; this module only maps the
//! response to the diagnostic the caller must print.

use crate::text::{append_decimal, dec_of};
use vstd::prelude::*;
use vstd::string::*;

verus! {

/// Whether an HTTP status code reports success.
pub open spec fn is_success_status(status: nat) -> bool {
    200 <= status < 300
}

/// The diagnostic line for a rejected delivery: it names the status
/// code and carries the response body.
pub open spec fn diagnostic_text(status: nat, body: Seq<char>) -> Seq<char> {
    "Error posting to slack: HTTP "@ + dec_of(status) + ": "@ + body
}

/// Decides what to report after the webhook answered: nothing on a
/// success status, otherwise a diagnostic line carrying the response
/// body.
pub fn delivery_diagnostic(status: u16, body: &str) -> (r: Option<String>)
    ensures
        r is None <==> is_success_status(status as nat),
        r matches Some(d) ==> d@ == diagnostic_text(status as nat, body@),
{
    if 200 <= status && status < 300 {
        Option::None
    } else {
        let mut d = String::from_str("Error posting to slack: HTTP ");
        append_decimal(&mut d, status as usize);
        d.append(": ");
        d.append(body);
        Option::Some(d)
    }
}

/// Law: the diagnostic for a rejected delivery always carries the
/// response body, as the suffix of the diagnostic text.
pub proof fn lemma_diagnostic_contains_body(status: nat, body: Seq<char>)
    ensures
        diagnostic_text(status, body).len() >= body.len(),
        diagnostic_text(status, body).subrange(
            diagnostic_text(status, body).len() - body.len(),
            diagnostic_text(status, body).len() as int,
        ) == body,
{
    assert(diagnostic_text(status, body).subrange(
        diagnostic_text(status, body).len() - body.len(),
        diagnostic_text(status, body).len() as int,
    ) =~= body);
}

} // verus!
