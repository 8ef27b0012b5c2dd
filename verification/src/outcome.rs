//! What a tool call answers: a text, marked as a result or as an error; and
//! the answer to a query that was passed through to the endpoint.

use vstd::prelude::*;
use crate::json::{
    debug_json, json_debug, json_get, json_member, json_to_string_pretty, pretty_json,
};
use crate::text::opt_text;

verus! {

/// The answer of a tool call.
#[derive(Debug)]
pub struct ToolOutcome {
    /// Whether the text reports an error.
    pub is_error: bool,
    pub text: String,
}

pub struct ToolOutcomeView {
    pub is_error: bool,
    pub text: Seq<char>,
}

impl View for ToolOutcome {
    type V = ToolOutcomeView;

    open spec fn view(&self) -> ToolOutcomeView {
        ToolOutcomeView { is_error: self.is_error, text: self.text@ }
    }
}

impl ToolOutcome {
    /// A result.
    pub fn success(text: String) -> (r: Self)
        ensures
            r@ == (ToolOutcomeView { is_error: false, text: text@ }),
    {
        ToolOutcome { is_error: false, text }
    }

    /// An error.
    pub fn error(text: String) -> (r: Self)
        ensures
            r@ == (ToolOutcomeView { is_error: true, text: text@ }),
    {
        ToolOutcome { is_error: true, text }
    }
}

/// The answer for a response of the endpoint. A response with a member
/// `errors` at the top is an error of the query, not of the transport, and
/// is shown in full; any other response is the result. Where the response
/// cannot be printed, the error has a fixed text, and the result shows the
/// response as `debug` has it.
pub open spec fn response_outcome(
    has_errors: bool,
    pretty: Option<Seq<char>>,
    debug: Seq<char>,
) -> ToolOutcomeView {
    if has_errors {
        ToolOutcomeView {
            is_error: true,
            text: match pretty {
                Some(text) => text,
                None => "<unserializable error>"@,
            },
        }
    } else {
        ToolOutcomeView {
            is_error: false,
            text: match pretty {
                Some(text) => text,
                None => "Could not pretty-print response: "@ + debug,
            },
        }
    }
}

/// Makes the answer for a response, given whether it has a member `errors`
/// at the top, its printed form where it could be printed, and its debug
/// form.
pub fn present_response(has_errors: bool, pretty: Option<String>, debug: &str) -> (r: ToolOutcome)
    ensures
        r@ == response_outcome(has_errors, opt_text(pretty), debug@),
{
    match pretty {
        Some(text) => ToolOutcome { is_error: has_errors, text },
        None => {
            if has_errors {
                ToolOutcome::error(String::from_str("<unserializable error>"))
            } else {
                let mut text = String::from_str("Could not pretty-print response: ");
                text.append(debug);
                ToolOutcome::success(text)
            }
        },
    }
}

/// The printed form of a document, where printing succeeds.
pub open spec fn printed(v: serde_json::Value) -> Option<Seq<char>> {
    match pretty_json(v) {
        Ok(text) => Some(text),
        Err(_) => None,
    }
}

/// Makes the answer for the response to a query that was passed through.
pub fn answer_query(response: &serde_json::Value) -> (r: ToolOutcome)
    ensures
        r@ == response_outcome(
            json_member(*response, "errors"@) is Some,
            printed(*response),
            debug_json(*response),
        ),
{
    let has_errors = json_get(response, "errors").is_some();
    match json_to_string_pretty(response) {
        Ok(text) => present_response(has_errors, Some(text), ""),
        Err(_) => {
            if has_errors {
                present_response(true, None, "")
            } else {
                let debug = json_debug(response);
                present_response(false, None, debug.as_str())
            }
        },
    }
}

} // verus!
