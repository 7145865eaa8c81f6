//! The HTTP routes of the project service.

use vstd::prelude::*;

verus! {

/// The HTTP methods the service answers.
#[derive(Clone, Copy, Debug, PartialEq, Eq, Structural)]
pub enum Verb {
    Get,
    Post,
}

/// The handlers behind the routes.
#[derive(Clone, Copy, Debug, PartialEq, Eq, Structural)]
pub enum Endpoint {
    Root,
    CreateProject,
    GetProjects,
}

/// One route: a method and a path, and the handler that answers them.
#[derive(Clone, Debug)]
pub struct Route {
    pub verb: Verb,
    pub path: String,
    pub endpoint: Endpoint,
}

/// Path of the OpenAPI description.
pub const OPENAPI_PATH: &'static str = "/docs/openapi.json";

/// The characters of a route table.
pub open spec fn routes_view(routes: Seq<Route>) -> Seq<(Verb, Seq<char>, Endpoint)> {
    routes.map_values(|r: Route| (r.verb, r.path@, r.endpoint))
}

/// The route table: the greeting at `/`, and creating and listing
/// projects at `/projects`.
pub open spec fn spec_api_routes() -> Seq<(Verb, Seq<char>, Endpoint)> {
    seq![
        (Verb::Get, "/"@, Endpoint::Root),
        (Verb::Post, "/projects"@, Endpoint::CreateProject),
        (Verb::Get, "/projects"@, Endpoint::GetProjects),
    ]
}

fn route(verb: Verb, path: &str, endpoint: Endpoint) -> (r: Route)
    ensures
        r.verb == verb,
        r.path@ == path@,
        r.endpoint == endpoint,
{
    Route { verb, path: String::from_str(path), endpoint }
}

/// Builds the route table.
pub fn api_routes() -> (routes: Vec<Route>)
    ensures
        routes_view(routes@) == spec_api_routes(),
{
    let mut routes = Vec::new();
    routes.push(route(Verb::Get, "/", Endpoint::Root));
    routes.push(route(Verb::Post, "/projects", Endpoint::CreateProject));
    routes.push(route(Verb::Get, "/projects", Endpoint::GetProjects));
    assert(routes_view(routes@) =~= spec_api_routes());
    routes
}

/// No method and path lead to two handlers.
pub proof fn lemma_routes_are_unambiguous()
    ensures
        forall|a: int, b: int|
            0 <= a < b < spec_api_routes().len() ==> #[trigger] spec_api_routes()[a].0
                != #[trigger] spec_api_routes()[b].0 || spec_api_routes()[a].1
                != spec_api_routes()[b].1,
{
    reveal_strlit("/");
    reveal_strlit("/projects");
    assert("/"@.len() != "/projects"@.len());
}

} // verus!
