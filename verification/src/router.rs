use vstd::prelude::*;

use crate::state::AppState;

verus! {

/// An HTTP request method. The router answers only `Get`; the other
/// variants exist so that a request with any method can be dispatched to
/// it and receive the not-found answer.
#[derive(Clone, Copy)]
pub enum Method {
    Get,
    Head,
    Post,
    Put,
    Delete,
    Connect,
    Options,
    Trace,
    Patch,
    Other,
}

/// One request, as the router sees it: a method and an exact path.
pub struct Request {
    pub method: Method,
    pub path: String,
}

/// One response: a status code and a plain-text body.
pub struct Response {
    pub status: u16,
    pub body: String,
}

/// The fixed greeting returned by the root route.
pub open spec fn hello_body() -> Seq<char> {
    "Hello world!"@
}

/// The status a request is answered with: 200 on a GET of one of the two
/// fixed paths, 404 on everything else. It does not depend on the
/// configuration.
pub open spec fn spec_status(method: Method, path: Seq<char>) -> u16 {
    if method is Get && (path == "/"@ || path == "/app"@) {
        200u16
    } else {
        404u16
    }
}

/// The body a request is answered with: the fixed greeting on the root
/// path, the configured application name on the app path, and empty on
/// every request that is not matched.
pub open spec fn spec_body(app_name: Seq<char>, method: Method, path: Seq<char>) -> Seq<char> {
    if method is Get && path == "/"@ {
        hello_body()
    } else if method is Get && path == "/app"@ {
        app_name
    } else {
        Seq::<char>::empty()
    }
}

/// Status and body of the answer to one request, together.
pub open spec fn spec_handle(app_name: Seq<char>, method: Method, path: Seq<char>) -> (u16, Seq<char>) {
    (spec_status(method, path), spec_body(app_name, method, path))
}

/// Answer one request against the given configuration, by exact path
/// match. The configuration is only read.
pub fn handle(state: &AppState, method: Method, path: &str) -> (r: Response)
    ensures
        r.status == spec_status(method, path@),
        r.body@ == spec_body(state.app_name_spec(), method, path@),
{
    let is_get = match method {
        Method::Get => true,
        _ => false,
    };
    if is_get {
        let p: String = path.to_owned();
        let root: String = "/".to_owned();
        if p == root {
            return Response { status: 200, body: "Hello world!".to_owned() };
        }
        let app: String = "/app".to_owned();
        if p == app {
            return Response { status: 200, body: state.app_name().clone() };
        }
    }
    Response { status: 404, body: String::new() }
}

/// Answer a sequence of requests, each independently, against one shared
/// configuration: the answer at each position is a function of the
/// configuration and the request at that position alone, so the order in
/// which the requests arrive cannot matter.
pub fn handle_all(state: &AppState, requests: &Vec<Request>) -> (responses: Vec<Response>)
    ensures
        responses@.len() == requests@.len(),
        forall|i: int| #![trigger responses@[i]] 0 <= i < requests@.len() ==> {
            &&& responses@[i].status == spec_status(requests@[i].method, requests@[i].path@)
            &&& responses@[i].body@ == spec_body(state.app_name_spec(), requests@[i].method, requests@[i].path@)
        },
{
    let mut responses: Vec<Response> = Vec::new();
    let mut idx: usize = 0;
    while idx < requests.len()
        invariant
            idx <= requests@.len(),
            responses@.len() == idx,
            forall|i: int| #![trigger responses@[i]] 0 <= i < idx ==> {
                &&& responses@[i].status == spec_status(requests@[i].method, requests@[i].path@)
                &&& responses@[i].body@ == spec_body(state.app_name_spec(), requests@[i].method, requests@[i].path@)
            },
        decreases requests@.len() - idx,
    {
        let req = &requests[idx];
        let r = handle(state, req.method, req.path.as_str());
        responses.push(r);
        idx += 1;
    }
    responses
}

/// Routing is exact and total: a request is answered 200 exactly when it
/// is a GET of one of the two fixed paths, and 404 in every other case,
/// whatever the configuration holds.
pub proof fn lemma_routing_exact(method: Method, path: Seq<char>)
    ensures
        spec_status(method, path) == 200 <==> (method is Get && (path == "/"@ || path == "/app"@)),
        spec_status(method, path) == 200 || spec_status(method, path) == 404,
{
}

/// The root route returns the fixed greeting and the app route returns
/// exactly the configured application name, whatever that name is.
pub proof fn lemma_app_route_reads_config(app_name: Seq<char>)
    ensures
        spec_handle(app_name, Method::Get, "/"@) == (200u16, hello_body()),
        spec_handle(app_name, Method::Get, "/app"@) == (200u16, app_name),
{
    reveal_strlit("/");
    reveal_strlit("/app");
    assert("/"@.len() == 1);
    assert("/app"@.len() == 4);
}

/// No request can observe a change of the configuration: any two requests
/// to the app route, whenever and in whatever order they are made, are
/// answered with the same body, because handling only reads the
/// configuration and nothing in the library writes it.
pub proof fn lemma_config_never_changes(
    app_name: Seq<char>,
    m1: Method,
    p1: Seq<char>,
    m2: Method,
    p2: Seq<char>,
)
    requires
        m1 is Get,
        p1 == "/app"@,
        m2 is Get,
        p2 == "/app"@,
    ensures
        spec_body(app_name, m1, p1) == spec_body(app_name, m2, p2),
        spec_body(app_name, m1, p1) == app_name,
{
    reveal_strlit("/");
    reveal_strlit("/app");
    assert("/"@.len() == 1);
    assert("/app"@.len() == 4);
}

} // verus!
