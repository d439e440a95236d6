use vstd::prelude::*;

verus! {

/// The HTTP methods the LED server answers to.
#[derive(Clone, Copy, Debug, PartialEq, Eq, Structural)]
pub enum Method {
    Get,
    Post,
}

/// The handlers of the LED server.
#[derive(Clone, Copy, Debug, PartialEq, Eq, Structural)]
pub enum Endpoint {
    /// The control page.
    Index,
    /// Whether the LED is on, as JSON.
    LedStatus,
    /// Switch the LED on.
    LedOn,
    /// Switch the LED off.
    LedOff,
}

/// One entry of the server's handler table: requests with this `method` on
/// this `path` are served by `endpoint`.
#[derive(Clone, Copy, Debug)]
pub struct Route {
    pub path: &'static str,
    pub method: Method,
    pub endpoint: Endpoint,
}

/// What a handler does to the LED pin before it answers.
#[derive(Clone, Copy, Debug, PartialEq, Eq, Structural)]
pub enum PinAction {
    /// Leave the pin as it is.
    Keep,
    /// Drive the pin high (LED on).
    SetHigh,
    /// Drive the pin low (LED off).
    SetLow,
}

/// The body of a `200 OK` answer.
#[derive(Clone, Copy, Debug)]
pub enum Body {
    /// The firmware's HTML control page.
    IndexPage,
    /// A JSON document.
    Json(&'static str),
}

/// A handler's decision: what to do to the pin, then what to answer.
#[derive(Clone, Copy, Debug)]
pub struct Reply {
    pub pin: PinAction,
    pub body: Body,
}

/// The handler table as `(path, method, endpoint)` triples, paths as text.
pub open spec fn route_table() -> Seq<(Seq<char>, Method, Endpoint)> {
    seq![
        ("/"@, Method::Get, Endpoint::Index),
        ("/led/status"@, Method::Get, Endpoint::LedStatus),
        ("/led/on"@, Method::Post, Endpoint::LedOn),
        ("/led/off"@, Method::Post, Endpoint::LedOff),
    ]
}

/// The status document: `{"state":true}` or `{"state":false}`.
pub open spec fn state_json(high: bool) -> Seq<char> {
    "{\"state\":"@ + (if high { "true"@ } else { "false"@ }) + "}"@
}

/// The answer to a switch request: `{"success":true}`.
pub open spec fn success_json() -> Seq<char> {
    "{\"success\":true}"@
}

/// The level the pin reads back after `action`, starting from `high`.
pub open spec fn level_after(action: PinAction, high: bool) -> bool {
    match action {
        PinAction::Keep => high,
        PinAction::SetHigh => true,
        PinAction::SetLow => false,
    }
}

/// What the pin action of `endpoint` is.
pub open spec fn pin_action_for(endpoint: Endpoint) -> PinAction {
    match endpoint {
        Endpoint::LedOn => PinAction::SetHigh,
        Endpoint::LedOff => PinAction::SetLow,
        _ => PinAction::Keep,
    }
}

/// The text of the body that `endpoint` answers with when the pin reads
/// `high` at the time the request is handled; `None` for the control page.
pub open spec fn json_body_for(endpoint: Endpoint, high: bool) -> Option<Seq<char>> {
    match endpoint {
        Endpoint::Index => None,
        Endpoint::LedStatus => Some(state_json(high)),
        _ => Some(success_json()),
    }
}

/// The text of a body, `None` for the control page.
pub open spec fn body_text(body: Body) -> Option<Seq<char>> {
    match body {
        Body::IndexPage => None,
        Body::Json(s) => Some(s@),
    }
}

/// The handler table of the LED server.
pub fn routes() -> (table: Vec<Route>)
    ensures
        table@.len() == route_table().len(),
        forall|i: int|
            0 <= i < table@.len() ==> (#[trigger] table@[i].path@, table@[i].method,
            table@[i].endpoint) == route_table()[i],
{
    proof {
        reveal_strlit("/");
        reveal_strlit("/led/status");
        reveal_strlit("/led/on");
        reveal_strlit("/led/off");
    }
    let table = vec![
        Route { path: "/", method: Method::Get, endpoint: Endpoint::Index },
        Route { path: "/led/status", method: Method::Get, endpoint: Endpoint::LedStatus },
        Route { path: "/led/on", method: Method::Post, endpoint: Endpoint::LedOn },
        Route { path: "/led/off", method: Method::Post, endpoint: Endpoint::LedOff },
    ];
    assert(table@[0].path@ == "/"@);
    assert(table@[1].path@ == "/led/status"@);
    assert(table@[2].path@ == "/led/on"@);
    assert(table@[3].path@ == "/led/off"@);
    table
}

/// The handler of `endpoint`, given that the LED pin reads `led_is_high`
/// when the request comes in: what to do to the pin and what to answer.
pub fn respond(endpoint: Endpoint, led_is_high: bool) -> (reply: Reply)
    ensures
        reply.pin == pin_action_for(endpoint),
        body_text(reply.body) == json_body_for(endpoint, led_is_high),
        endpoint == Endpoint::Index ==> reply.body is IndexPage,
        endpoint != Endpoint::Index ==> reply.body is Json,
{
    proof {
        reveal_strlit("{\"state\":");
        reveal_strlit("true");
        reveal_strlit("false");
        reveal_strlit("}");
        reveal_strlit("{\"state\":true}");
        reveal_strlit("{\"state\":false}");
    }
    match endpoint {
        Endpoint::Index => Reply { pin: PinAction::Keep, body: Body::IndexPage },
        Endpoint::LedStatus => {
            if led_is_high {
                assert(state_json(true) =~= "{\"state\":true}"@);
                Reply { pin: PinAction::Keep, body: Body::Json("{\"state\":true}") }
            } else {
                assert(state_json(false) =~= "{\"state\":false}"@);
                Reply { pin: PinAction::Keep, body: Body::Json("{\"state\":false}") }
            }
        },
        Endpoint::LedOn => Reply { pin: PinAction::SetHigh, body: Body::Json("{\"success\":true}") },
        Endpoint::LedOff => Reply { pin: PinAction::SetLow, body: Body::Json("{\"success\":true}") },
    }
}

/// No two entries of the handler table share a path and a method, so the
/// server accepts every registration and each request has one handler.
pub proof fn routes_are_distinct(i: int, j: int)
    requires
        0 <= i < route_table().len(),
        0 <= j < route_table().len(),
        i != j,
    ensures
        (route_table()[i].0, route_table()[i].1) != (route_table()[j].0, route_table()[j].1),
{
    reveal_strlit("/");
    reveal_strlit("/led/status");
    reveal_strlit("/led/on");
    reveal_strlit("/led/off");
    assert("/"@.len() == 1);
    assert("/led/status"@.len() == 11);
    assert("/led/on"@.len() == 7);
    assert("/led/off"@.len() == 8);
}

/// A status request reports the last switch: after an on (off) request, from
/// whatever level, the status document says the LED is on (off).
pub proof fn status_reports_last_switch(switch: Endpoint, high: bool)
    requires
        switch == Endpoint::LedOn || switch == Endpoint::LedOff,
    ensures
        json_body_for(Endpoint::LedStatus, level_after(pin_action_for(switch), high))
            == Some(state_json(switch == Endpoint::LedOn)),
{
}

/// Reading the status or the page never changes the LED, and switching it the
/// same way twice is the same as switching it once.
pub proof fn reads_keep_and_switches_are_idempotent(endpoint: Endpoint, high: bool)
    ensures
        endpoint == Endpoint::LedStatus || endpoint == Endpoint::Index ==> level_after(
            pin_action_for(endpoint),
            high,
        ) == high,
        level_after(pin_action_for(endpoint), level_after(pin_action_for(endpoint), high))
            == level_after(pin_action_for(endpoint), high),
{
}

/// The two status documents differ, so the answer tells the LED's state.
pub proof fn status_documents_differ()
    ensures
        state_json(true) != state_json(false),
{
    reveal_strlit("{\"state\":");
    reveal_strlit("true");
    reveal_strlit("false");
    reveal_strlit("}");
    assert(state_json(true).len() != state_json(false).len());
}


/// The control page is served as the page whatever the LED level, and only the
/// status answer depends on the level: every other endpoint answers the same
/// for a lit and a dark LED, and the two status answers differ.
pub proof fn only_status_depends_on_level(endpoint: Endpoint, high: bool)
    ensures
        json_body_for(Endpoint::Index, high) is None,
        endpoint != Endpoint::Index ==> json_body_for(endpoint, high) is Some,
        endpoint != Endpoint::LedStatus ==> json_body_for(endpoint, true) == json_body_for(
            endpoint,
            false,
        ),
        endpoint == Endpoint::LedStatus ==> json_body_for(endpoint, true) != json_body_for(
            endpoint,
            false,
        ),
{
    status_documents_differ();
}

} // verus!
