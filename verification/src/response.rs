//! Interpreting the server's responses.
//!
//! Every operation ends the same way: a successful (2xx) response is parsed
//! and rendered as console text, and any other response is turned into one
//! descriptive error line built from the HTTP status and the body's
//! `error_message` field when that field can be read.

use vstd::prelude::*;
use crate::json::get_json_string_field;
use crate::json::get_json_string_list_field;
use crate::json::json_string_field;
use crate::json::json_string_list_field;

verus! {

/// The view of an operation outcome: rendered text on success, one error
/// line otherwise.
pub open spec fn outcome_view(r: Result<String, String>) -> Result<Seq<char>, Seq<char>> {
    match r {
        Ok(s) => Ok(s@),
        Err(e) => Err(e@),
    }
}

/// The error line for a response body that could not be parsed.
pub open spec fn parse_failure_msg(detail: Seq<char>) -> Seq<char> {
    "Failed to parse response: "@ + detail
}

/// The detail used when a body is valid JSON but lacks the expected field.
pub open spec fn missing_field_msg(key: Seq<char>) -> Seq<char> {
    "missing or malformed field `"@ + key + "`"@
}

/// The two lines that report one switch's state.
pub open spec fn state_lines(state: Seq<char>, transitioning: Seq<char>) -> Seq<char> {
    "state         : "@ + state + "\n"@ + "transitioning : "@ + transitioning + "\n"@
}

/// The indented lines that list switch names, one per line, in order.
pub open spec fn list_lines(names: Seq<Seq<char>>) -> Seq<char>
    decreases names.len(),
{
    if names.len() == 0 {
        Seq::<char>::empty()
    } else {
        "    "@ + names[0] + "\n"@ + list_lines(names.skip(1))
    }
}

/// Listing one more name appends one more indented line.
pub proof fn lemma_list_lines_push(names: Seq<Seq<char>>, name: Seq<char>)
    ensures
        list_lines(names.push(name)) == list_lines(names) + ("    "@ + name + "\n"@),
    decreases names.len(),
{
    assert(list_lines(names.push(name)) == "    "@ + names.push(name)[0] + "\n"@ + list_lines(
        names.push(name).skip(1),
    ));
    if names.len() == 0 {
        assert(names.push(name).skip(1) =~= Seq::<Seq<char>>::empty());
        assert(names.push(name)[0] == name);
        assert(list_lines(Seq::<Seq<char>>::empty()) == Seq::<char>::empty());
        assert(("    "@ + name + "\n"@) + Seq::<char>::empty() =~= "    "@ + name + "\n"@);
        assert(list_lines(names) + ("    "@ + name + "\n"@) =~= "    "@ + name + "\n"@);
    } else {
        assert(names.push(name).skip(1) =~= names.skip(1).push(name));
        assert(names.push(name)[0] == names[0]);
        lemma_list_lines_push(names.skip(1), name);
        assert(list_lines(names) == "    "@ + names[0] + "\n"@ + list_lines(names.skip(1)));
        assert(("    "@ + names[0] + "\n"@) + (list_lines(names.skip(1)) + ("    "@ + name + "\n"@))
            =~= (("    "@ + names[0] + "\n"@) + list_lines(names.skip(1))) + ("    "@ + name
            + "\n"@));
    }
}

/// What a successful get/set response renders to, or the error line when its
/// body does not hold the two expected string fields.
pub open spec fn switch_state_render(text: Seq<char>) -> Result<Seq<char>, Seq<char>> {
    match json_string_field(text, "state"@) {
        Err(detail) => Err(parse_failure_msg(detail)),
        Ok(None) => Err(parse_failure_msg(missing_field_msg("state"@))),
        Ok(Some(state)) => match json_string_field(text, "transitioning"@) {
            Err(detail) => Err(parse_failure_msg(detail)),
            Ok(None) => Err(parse_failure_msg(missing_field_msg("transitioning"@))),
            Ok(Some(transitioning)) => Ok(state_lines(state, transitioning)),
        },
    }
}

/// What a successful list response renders to, or the error line when its
/// body does not hold a `switches` array of strings.
pub open spec fn switches_render(text: Seq<char>) -> Result<Seq<char>, Seq<char>> {
    match json_string_list_field(text, "switches"@) {
        Err(detail) => Err(parse_failure_msg(detail)),
        Ok(None) => Err(parse_failure_msg(missing_field_msg("switches"@))),
        Ok(Some(names)) => Ok("Switch list:\n"@ + list_lines(names)),
    }
}

/// The error message extracted from an error body, or why it could not be.
pub open spec fn error_message_outcome(text: Seq<char>) -> Result<Seq<char>, Seq<char>> {
    match json_string_field(text, "error_message"@) {
        Err(detail) => Err(detail),
        Ok(None) => Err(missing_field_msg("error_message"@)),
        Ok(Some(msg)) => Ok(msg),
    }
}

/// The single error line reported for a non-2xx response: the status and the
/// server's message when the body yields one, a note that the message could
/// not be extracted when it does not, and a fixed line when the body itself
/// could not be read.
pub open spec fn bad_status_message(status: Seq<char>, body: Result<Seq<char>, Seq<char>>) -> Seq<
    char,
> {
    match body {
        Err(_) => "Failed to get text body from response"@,
        Ok(text) => match error_message_outcome(text) {
            Ok(msg) => status + " response: "@ + msg,
            Err(detail) => "Could not retrieve error message for "@ + status + " response: "@
                + detail,
        },
    }
}

/// The outcome of a get or set operation, given whether the status was 2xx,
/// the status line, and the result of reading the body.
pub open spec fn switch_op_outcome(
    success: bool,
    status: Seq<char>,
    body: Result<Seq<char>, Seq<char>>,
) -> Result<Seq<char>, Seq<char>> {
    if success {
        match body {
            Ok(text) => switch_state_render(text),
            Err(read_err) => Err(read_err),
        }
    } else {
        Err(bad_status_message(status, body))
    }
}

/// The outcome of a list operation, given the same inputs.
pub open spec fn list_op_outcome(
    success: bool,
    status: Seq<char>,
    body: Result<Seq<char>, Seq<char>>,
) -> Result<Seq<char>, Seq<char>> {
    if success {
        match body {
            Ok(text) => switches_render(text),
            Err(read_err) => Err(read_err),
        }
    } else {
        Err(bad_status_message(status, body))
    }
}

/// Builds the detail used when an expected field is absent or malformed.
pub fn missing_field_text(key: &str) -> (r: String)
    ensures
        r@ == missing_field_msg(key@),
{
    let mut out: String = String::from_str("missing or malformed field `");
    out.append(key);
    out.append("`");
    out
}

/// Builds the error line for an unparseable response body.
pub fn parse_failure_text(detail: &str) -> (r: String)
    ensures
        r@ == parse_failure_msg(detail@),
{
    let mut out: String = String::from_str("Failed to parse response: ");
    out.append(detail);
    out
}

/// Renders one switch's state as the two reported lines.
pub fn render_switch_state(state: &str, transitioning: &str) -> (r: String)
    ensures
        r@ == state_lines(state@, transitioning@),
{
    let mut out: String = String::from_str("state         : ");
    out.append(state);
    out.append("\n");
    out.append("transitioning : ");
    out.append(transitioning);
    out.append("\n");
    out
}

/// Parses a get/set response body and renders the two state lines.
pub fn render_switch_state_response(text: &str) -> (r: Result<String, String>)
    ensures
        outcome_view(r) == switch_state_render(text@),
{
    match get_json_string_field(text, "state") {
        Err(detail) => Err(parse_failure_text(detail.as_str())),
        Ok(None) => {
            let m: String = missing_field_text("state");
            Err(parse_failure_text(m.as_str()))
        },
        Ok(Some(state)) => match get_json_string_field(text, "transitioning") {
            Err(detail) => Err(parse_failure_text(detail.as_str())),
            Ok(None) => {
                let m: String = missing_field_text("transitioning");
                Err(parse_failure_text(m.as_str()))
            },
            Ok(Some(transitioning)) => Ok(
                render_switch_state(state.as_str(), transitioning.as_str()),
            ),
        },
    }
}

/// Renders the switch list: a header line, then one indented line per name,
/// in the order given.
pub fn render_switch_list(switches: &Vec<String>) -> (r: String)
    ensures
        r@ == "Switch list:\n"@ + list_lines(switches.deep_view()),
{
    let mut out: String = String::from_str("Switch list:\n");
    let n: usize = switches.len();
    let mut i: usize = 0;
    while i < n
        invariant
            n == switches@.len(),
            i <= n,
            out@ == "Switch list:\n"@ + list_lines(switches.deep_view().take(i as int)),
        decreases n - i,
    {
        out.append("    ");
        out.append(switches[i].as_str());
        out.append("\n");
        proof {
            assert(switches.deep_view()[i as int] == switches@[i as int]@);
            lemma_list_lines_push(
                switches.deep_view().take(i as int),
                switches.deep_view()[i as int],
            );
            assert(switches.deep_view().take(i + 1) =~= switches.deep_view().take(
                i as int,
            ).push(switches.deep_view()[i as int]));
            assert(out@ =~= "Switch list:\n"@ + list_lines(switches.deep_view().take(i + 1)));
        }
        i += 1;
    }
    proof {
        assert(switches.deep_view().take(n as int) =~= switches.deep_view());
    }
    out
}

/// Parses a list response body and renders the switch list.
pub fn render_switches_response(text: &str) -> (r: Result<String, String>)
    ensures
        outcome_view(r) == switches_render(text@),
{
    match get_json_string_list_field(text, "switches") {
        Err(detail) => Err(parse_failure_text(detail.as_str())),
        Ok(None) => {
            let m: String = missing_field_text("switches");
            Err(parse_failure_text(m.as_str()))
        },
        Ok(Some(names)) => Ok(render_switch_list(&names)),
    }
}

/// Extracts the server's `error_message` from an error body.
pub fn get_error_message(resp_text: &str) -> (r: Result<String, String>)
    ensures
        outcome_view(r) == error_message_outcome(resp_text@),
{
    match get_json_string_field(resp_text, "error_message") {
        Err(detail) => Err(detail),
        Ok(None) => Err(missing_field_text("error_message")),
        Ok(Some(msg)) => Ok(msg),
    }
}

/// Builds the single error line for a non-2xx response.
pub fn handle_bad_status(status: &str, body: Result<String, String>) -> (r: String)
    ensures
        r@ == bad_status_message(status@, outcome_view(body)),
{
    match body {
        Err(_) => String::from_str("Failed to get text body from response"),
        Ok(text) => match get_error_message(text.as_str()) {
            Ok(msg) => {
                let mut out: String = String::from_str(status);
                out.append(" response: ");
                out.append(msg.as_str());
                out
            },
            Err(detail) => {
                let mut out: String = String::from_str("Could not retrieve error message for ");
                out.append(status);
                out.append(" response: ");
                out.append(detail.as_str());
                out
            },
        },
    }
}

/// The outcome of a get or set operation: the rendered state lines on a 2xx
/// response with a well-formed body, and one error line in every other case.
pub fn switch_state_outcome(success: bool, status: &str, body: Result<String, String>) -> (r:
    Result<String, String>)
    ensures
        outcome_view(r) == switch_op_outcome(success, status@, outcome_view(body)),
{
    if success {
        match body {
            Ok(text) => render_switch_state_response(text.as_str()),
            Err(read_err) => Err(read_err),
        }
    } else {
        Err(handle_bad_status(status, body))
    }
}

/// The outcome of a list operation: the rendered switch list on a 2xx
/// response with a well-formed body, and one error line in every other case.
pub fn switch_list_outcome(success: bool, status: &str, body: Result<String, String>) -> (r: Result<
    String,
    String,
>)
    ensures
        outcome_view(r) == list_op_outcome(success, status@, outcome_view(body)),
{
    if success {
        match body {
            Ok(text) => render_switches_response(text.as_str()),
            Err(read_err) => Err(read_err),
        }
    } else {
        Err(handle_bad_status(status, body))
    }
}

} // verus!
