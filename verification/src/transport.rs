//! What becomes of one exchange with the endpoint: the document that came
//! back, or the failure with the message that the caller is shown.

use vstd::prelude::*;
use crate::json::{json_error_text, json_error_to_string, json_from_str, parsed_json};

verus! {

/// What the network made of one request.
#[derive(Debug)]
pub enum HttpReply {
    /// The request could not be sent.
    SendFailed { detail: String },
    /// A response came, but its body could not be read.
    ReadFailed { detail: String },
    /// A response came with this status code, the status as it is shown,
    /// and this body.
    Received { code: u16, status: String, body: String },
}

pub enum HttpReplyView {
    SendFailed { detail: Seq<char> },
    ReadFailed { detail: Seq<char> },
    Received { code: u16, status: Seq<char>, body: Seq<char> },
}

impl View for HttpReply {
    type V = HttpReplyView;

    open spec fn view(&self) -> HttpReplyView {
        match *self {
            HttpReply::SendFailed { detail } => HttpReplyView::SendFailed { detail: detail@ },
            HttpReply::ReadFailed { detail } => HttpReplyView::ReadFailed { detail: detail@ },
            HttpReply::Received { code, status, body } => HttpReplyView::Received {
                code,
                status: status@,
                body: body@,
            },
        }
    }
}

/// Why an exchange gave no document.
#[derive(Debug)]
pub enum TransportFailure {
    /// The endpoint could not be reached.
    Network { detail: String },
    /// The endpoint answered, but the body could not be read.
    Unreadable { detail: String },
    /// The endpoint answered with a status outside the 2xx.
    Status { status: String, body: String },
    /// The body is not JSON.
    InvalidJson { detail: String, body: String },
}

pub enum TransportFailureView {
    Network { detail: Seq<char> },
    Unreadable { detail: Seq<char> },
    Status { status: Seq<char>, body: Seq<char> },
    InvalidJson { detail: Seq<char>, body: Seq<char> },
}

impl View for TransportFailure {
    type V = TransportFailureView;

    open spec fn view(&self) -> TransportFailureView {
        match *self {
            TransportFailure::Network { detail } => TransportFailureView::Network {
                detail: detail@,
            },
            TransportFailure::Unreadable { detail } => TransportFailureView::Unreadable {
                detail: detail@,
            },
            TransportFailure::Status { status, body } => TransportFailureView::Status {
                status: status@,
                body: body@,
            },
            TransportFailure::InvalidJson { detail, body } => TransportFailureView::InvalidJson {
                detail: detail@,
                body: body@,
            },
        }
    }
}

/// The message for a failure at an endpoint. Each names the endpoint and
/// what went wrong, and carries the raw body where there is one.
pub open spec fn failure_message(endpoint: Seq<char>, f: TransportFailureView) -> Seq<char> {
    match f {
        TransportFailureView::Network { detail } => "Could not contact GraphQL endpoint at '"@
            + endpoint + "'.\nNetwork error: "@ + detail,
        TransportFailureView::Unreadable { detail } => "GraphQL endpoint '"@ + endpoint
            + "' responded, but reading the response failed: "@ + detail,
        TransportFailureView::Status { status, body } => "GraphQL endpoint '"@ + endpoint
            + "' returned HTTP "@ + status + ": "@ + body,
        TransportFailureView::InvalidJson { detail, body } =>
            "Invalid JSON received from endpoint '"@ + endpoint + "': "@ + detail
                + "\nRaw response:\n"@ + body,
    }
}

impl TransportFailure {
    /// The message that the caller is shown for this failure.
    pub fn message(&self, endpoint: &str) -> (r: String)
        ensures
            r@ == failure_message(endpoint@, self@),
    {
        match self {
            TransportFailure::Network { detail } => {
                let mut s = String::from_str("Could not contact GraphQL endpoint at '");
                s.append(endpoint);
                s.append("'.\nNetwork error: ");
                s.append(detail.as_str());
                s
            },
            TransportFailure::Unreadable { detail } => {
                let mut s = String::from_str("GraphQL endpoint '");
                s.append(endpoint);
                s.append("' responded, but reading the response failed: ");
                s.append(detail.as_str());
                s
            },
            TransportFailure::Status { status, body } => {
                let mut s = String::from_str("GraphQL endpoint '");
                s.append(endpoint);
                s.append("' returned HTTP ");
                s.append(status.as_str());
                s.append(": ");
                s.append(body.as_str());
                s
            },
            TransportFailure::InvalidJson { detail, body } => {
                let mut s = String::from_str("Invalid JSON received from endpoint '");
                s.append(endpoint);
                s.append("': ");
                s.append(detail.as_str());
                s.append("\nRaw response:\n");
                s.append(body.as_str());
                s
            },
        }
    }
}

/// Whether a status code is one of the 2xx, which mean success.
pub open spec fn is_success_code(code: u16) -> bool {
    200 <= code < 300
}

/// Tells whether a status code means success.
pub fn is_success(code: u16) -> (r: bool)
    ensures
        r == is_success_code(code),
{
    200 <= code && code < 300
}

/// The view of what an exchange gave.
pub open spec fn exchange_view(r: Result<serde_json::Value, TransportFailure>) -> Result<
    serde_json::Value,
    TransportFailureView,
> {
    match r {
        Ok(v) => Ok(v),
        Err(f) => Err(f@),
    }
}

/// What a reply is worth, given what the parser makes of its body: the
/// document of a successful response whose body is JSON, and otherwise the
/// failure of the first step that went wrong.
pub open spec fn reply_outcome(
    reply: HttpReplyView,
    parsed: Result<serde_json::Value, serde_json::Error>,
) -> Result<serde_json::Value, TransportFailureView> {
    match reply {
        HttpReplyView::SendFailed { detail } => Err(TransportFailureView::Network { detail }),
        HttpReplyView::ReadFailed { detail } => Err(TransportFailureView::Unreadable { detail }),
        HttpReplyView::Received { code, status, body } => if !is_success_code(code) {
            Err(TransportFailureView::Status { status, body })
        } else {
            match parsed {
                Ok(v) => Ok(v),
                Err(e) => Err(TransportFailureView::InvalidJson { detail: json_error_text(e), body }),
            }
        },
    }
}

/// The body of a reply, where it has one.
pub open spec fn reply_body(reply: HttpReplyView) -> Seq<char> {
    match reply {
        HttpReplyView::Received { body, .. } => body,
        _ => Seq::empty(),
    }
}

/// What a successful response is worth once its body has been through the
/// parser: the document, or the failure that carries the parser's message
/// and the raw body.
pub fn decode_body(body: String, parsed: Result<serde_json::Value, String>) -> (r: Result<
    serde_json::Value,
    TransportFailure,
>)
    ensures
        exchange_view(r) == match parsed {
            Ok(v) => Ok::<serde_json::Value, TransportFailureView>(v),
            Err(detail) => Err::<serde_json::Value, TransportFailureView>(
                TransportFailureView::InvalidJson { detail: detail@, body: body@ },
            ),
        },
{
    match parsed {
        Ok(v) => Ok(v),
        Err(detail) => Err(TransportFailure::InvalidJson { detail, body }),
    }
}

/// Turns the reply to one request into the document it carries, or into
/// the failure that the caller is told of. Nothing is retried.
pub fn fetch_query(reply: HttpReply) -> (r: Result<serde_json::Value, TransportFailure>)
    ensures
        exchange_view(r) == reply_outcome(reply@, parsed_json(reply_body(reply@))),
{
    match reply {
        HttpReply::SendFailed { detail } => Err(TransportFailure::Network { detail }),
        HttpReply::ReadFailed { detail } => Err(TransportFailure::Unreadable { detail }),
        HttpReply::Received { code, status, body } => {
            if !is_success(code) {
                Err(TransportFailure::Status { status, body })
            } else {
                let parsed = match json_from_str(body.as_str()) {
                    Ok(v) => Ok(v),
                    Err(e) => Err(json_error_to_string(&e)),
                };
                decode_body(body, parsed)
            }
        },
    }
}

/// Whether `part` stands somewhere in `whole`.
pub open spec fn contains_text(whole: Seq<char>, part: Seq<char>) -> bool {
    exists|at: int|
        0 <= at && at + part.len() <= whole.len() && #[trigger] whole.subrange(
            at,
            at + part.len(),
        ) == part
}

/// Whether `whole` ends with `part`.
pub open spec fn ends_with_text(whole: Seq<char>, part: Seq<char>) -> bool {
    part.len() <= whole.len() && whole.subrange(whole.len() - part.len(), whole.len() as int)
        == part
}

/// Every message names the endpoint, and the message for a response that
/// did arrive ends with its body as it was received.
pub proof fn lemma_message_names_endpoint(endpoint: Seq<char>, f: TransportFailureView)
    ensures
        contains_text(failure_message(endpoint, f), endpoint),
        f matches TransportFailureView::Status { body, .. } ==> ends_with_text(
            failure_message(endpoint, f),
            body,
        ),
        f matches TransportFailureView::InvalidJson { body, .. } ==> ends_with_text(
            failure_message(endpoint, f),
            body,
        ),
{
    let whole = failure_message(endpoint, f);
    let lead = match f {
        TransportFailureView::Network { .. } => "Could not contact GraphQL endpoint at '"@,
        TransportFailureView::Unreadable { .. } => "GraphQL endpoint '"@,
        TransportFailureView::Status { .. } => "GraphQL endpoint '"@,
        TransportFailureView::InvalidJson { .. } => "Invalid JSON received from endpoint '"@,
    };
    assert(whole.subrange(lead.len() as int, (lead.len() + endpoint.len()) as int) =~= endpoint);
    match f {
        TransportFailureView::Status { body, .. } => {
            assert(whole.subrange(whole.len() - body.len(), whole.len() as int) =~= body);
        },
        TransportFailureView::InvalidJson { body, .. } => {
            assert(whole.subrange(whole.len() - body.len(), whole.len() as int) =~= body);
        },
        _ => {},
    }
}

} // verus!
