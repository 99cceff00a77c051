use vstd::prelude::*;

use crate::greeting::{greeting_text, hello};

verus! {

/// The path on which the greeting is served.
pub const HELLO_PATH: &'static str = "/api/hello";

/// The address that the service listens on.
pub const LISTEN_ADDR: &'static str = "127.0.0.1:8080";

#[verifier::external_type_specification]
#[verifier::external_body]
#[verifier::reject_recursive_types(S)]
pub struct ExRouter<S>(axum::Router<S>);

/// A path that axum registers as one literal route: it starts with `/` and
/// holds none of the characters that open a path parameter or a wildcard.
pub open spec fn is_literal_path(p: Seq<char>) -> bool {
    &&& p.len() > 0
    &&& p[0] == '/'
    &&& forall|i: int| 0 <= i < p.len() ==> p[i] != ':' && p[i] != '*'
}

/// The route table that a router was built with: for each registered
/// (method, path) pair, the text that its handler answers with.
pub uninterp spec fn routes_of(r: axum::Router) -> Map<(Seq<char>, Seq<char>), Seq<char>>;

/// A table of one route: `GET` on `path`, answered by the greeting.
pub open spec fn greeting_table(path: Seq<char>) -> Map<(Seq<char>, Seq<char>), Seq<char>> {
    Map::empty().insert(("GET"@, path), greeting_text())
}

/// Relies on axum's `Router::new`, `Router::route` and `routing::get`: a
/// fresh router with one `GET` route at `path`, answered by `hello`.
/// `Router::route` panics on a path that is empty or does not start with `/`,
/// and on one that its path matcher refuses; in a fresh router, a path with
/// no `:` or `*` is never refused. `Router::new` starts with no routes,
/// `route` adds the one at `path`, and `get` registers only its `GET`
/// endpoint; the handler answers with `hello()`.
#[verifier::external_body]
fn router_with_hello(path: &str) -> (r: axum::Router)
    requires
        is_literal_path(path@),
    ensures
        routes_of(r) == greeting_table(path@),
{
    axum::Router::new().route(path, axum::routing::get(|| std::future::ready(hello())))
}

/// The service's route table: `GET` on `HELLO_PATH`, answered by `hello`.
/// Every other request gets axum's own answer: `404 Not Found` for another
/// path, `405 Method Not Allowed` for another method on this one.
pub fn router() -> (r: axum::Router)
    ensures
        routes_of(r) == greeting_table(HELLO_PATH@),
{
    proof {
        reveal_strlit("/api/hello");
    }
    router_with_hello(HELLO_PATH)
}

/// The service's table serves the greeting on one pair only: a request to
/// another path, or with another method than `GET`, finds no route in it and
/// so never gets the greeting from it.
pub proof fn lemma_only_get_hello_is_routed(method: Seq<char>, path: Seq<char>)
    ensures
        greeting_table(HELLO_PATH@).contains_key((method, path)) <==> (method == "GET"@ && path
            == HELLO_PATH@),
        greeting_table(HELLO_PATH@).contains_key((method, path)) ==> greeting_table(
            HELLO_PATH@)[(method, path)] == greeting_text(),
{
}

} // verus!
