//! Planning the one HTTP request an invocation makes.
//!
//! A plan names the method, the full URL, and the query parameter to send,
//! so that the contracts pin down exactly what goes on the wire. The set
//! command's `delay` option is accepted but deliberately not transmitted.

use vstd::prelude::*;
use crate::url::switch_url;
use crate::url::switches_url;
use crate::url::to_switch_url;
use crate::url::to_switches_url;

verus! {

/// The HTTP method of a planned request.
#[derive(Clone, Copy, Debug, PartialEq, Eq, Structural)]
pub enum HttpMethod {
    Get,
    Post,
}

/// One planned request: method, full URL, and at most one query parameter.
pub struct RequestPlan {
    pub method: HttpMethod,
    pub url: String,
    pub query: Option<(String, String)>,
}

/// Plans a get operation: a GET of the switch's URL, with no query.
pub fn plan_get_switch(server_addr: String, switch_name: String) -> (p: RequestPlan)
    ensures
        p.method == HttpMethod::Get,
        p.url@ == switch_url(server_addr@, switch_name@),
        p.query is None,
{
    RequestPlan {
        method: HttpMethod::Get,
        url: to_switch_url(server_addr, switch_name),
        query: None,
    }
}

/// Plans a set operation: a POST of the switch's URL whose only query
/// parameter is `state`; the `delay` option is accepted but not sent.
pub fn plan_set_switch(
    server_addr: String,
    switch_name: String,
    state: String,
    delay: Option<String>,
) -> (p: RequestPlan)
    ensures
        p.method == HttpMethod::Post,
        p.url@ == switch_url(server_addr@, switch_name@),
        p.query matches Some(q) && q.0@ == "state"@ && q.1@ == state@,
{
    let _ = delay;
    RequestPlan {
        method: HttpMethod::Post,
        url: to_switch_url(server_addr, switch_name),
        query: Some((String::from_str("state"), state)),
    }
}

/// Plans a list operation: a GET of the switch-list URL, with no query.
pub fn plan_list_switches(server_addr: String) -> (p: RequestPlan)
    ensures
        p.method == HttpMethod::Get,
        p.url@ == switches_url(server_addr@),
        p.query is None,
{
    RequestPlan { method: HttpMethod::Get, url: to_switches_url(server_addr), query: None }
}

} // verus!
