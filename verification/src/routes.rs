//! The HTTP routes under which a gRPC service's methods are offered as JSON:
//! `/<service in snake case>/<method in snake case>`.
use vstd::prelude::*;
use convert_case::Casing;

verus! {

/// A text converted to snake case by `convert_case`.
pub uninterp spec fn snake_case(s: Seq<char>) -> Seq<char>;

/// `s.to_case(convert_case::Case::Snake)`: splits the text into words and joins
/// them lowercased with `_`. The word-splitting rules are the crate's and are
/// only named here.
#[verifier::external_body]
fn to_snake_case(s: &str) -> (res: String)
    ensures
        res@ == snake_case(s@),
{
    s.to_case(convert_case::Case::Snake)
}

/// One JSON route for one method of a service.
#[derive(Debug, Clone, PartialEq, Eq)]
pub struct RouteSpec {
    pub path: String,
    pub handler_name: String,
    pub method_name: String,
    pub request_type: String,
    pub response_type: String,
}

/// `r` is the route of `method` of a service, with the given snake-case names
/// and message types.
pub open spec fn is_route(
    r: RouteSpec,
    service_snake: Seq<char>,
    method: Seq<char>,
    method_snake: Seq<char>,
    request_type: Seq<char>,
    response_type: Seq<char>,
) -> bool {
    &&& r.path@ == "/"@ + service_snake + "/"@ + method_snake
    &&& r.handler_name@ == method + "_handler"@
    &&& r.method_name@ == method
    &&& r.request_type@ == request_type
    &&& r.response_type@ == response_type
}

/// A route's path is `/`, the whole service name, `/` and the whole method name,
/// and its handler is named by the whole method name followed by a suffix.
pub proof fn lemma_route_keeps_names(
    r: RouteSpec,
    service_snake: Seq<char>,
    method: Seq<char>,
    method_snake: Seq<char>,
    request_type: Seq<char>,
    response_type: Seq<char>,
)
    requires
        is_route(r, service_snake, method, method_snake, request_type, response_type),
    ensures
        r.path@.len() == service_snake.len() + method_snake.len() + 2,
        r.path@[0] == '/',
        r.path@.subrange(1, service_snake.len() as int + 1) == service_snake,
        r.path@[service_snake.len() as int + 1] == '/',
        r.path@.skip(service_snake.len() as int + 2) == method_snake,
        r.handler_name@.take(method.len() as int) == method,
        r.handler_name@.len() == method.len() + 8,
{
    reveal_strlit("/");
    reveal_strlit("_handler");
    let p = r.path@;
    assert(p.subrange(1, service_snake.len() as int + 1) =~= service_snake);
    assert(p.skip(service_snake.len() as int + 2) =~= method_snake);
    assert(r.handler_name@.take(method.len() as int) =~= method);
}

/// The route of `method`, given the snake-case names of the service and method.
pub fn route_for(
    service_snake: &str,
    method: &str,
    method_snake: &str,
    request_type: &str,
    response_type: &str,
) -> (res: RouteSpec)
    ensures
        is_route(res, service_snake@, method@, method_snake@, request_type@, response_type@),
{
    let mut path = String::new();
    path.append("/");
    path.append(service_snake);
    path.append("/");
    path.append(method_snake);
    let mut handler_name = String::new();
    handler_name.append(method);
    handler_name.append("_handler");
    RouteSpec {
        path,
        handler_name,
        method_name: method.to_owned(),
        request_type: request_type.to_owned(),
        response_type: response_type.to_owned(),
    }
}

/// The routes of the restaurant service named `trait_name`: `get_menu`
/// (`MenuRequest` to `MenuResponse`) and `place_order` (`OrderRequest` to
/// `OrderResponse`), in that order.
pub fn axum_routes(trait_name: &str) -> (res: Vec<RouteSpec>)
    ensures
        res@.len() == 2,
        is_route(
            res@[0],
            snake_case(trait_name@),
            "get_menu"@,
            snake_case("get_menu"@),
            "MenuRequest"@,
            "MenuResponse"@,
        ),
        is_route(
            res@[1],
            snake_case(trait_name@),
            "place_order"@,
            snake_case("place_order"@),
            "OrderRequest"@,
            "OrderResponse"@,
        ),
{
    let service_snake = to_snake_case(trait_name);
    let get_menu_snake = to_snake_case("get_menu");
    let place_order_snake = to_snake_case("place_order");
    let get_menu = route_for(
        service_snake.as_str(),
        "get_menu",
        get_menu_snake.as_str(),
        "MenuRequest",
        "MenuResponse",
    );
    let place_order = route_for(
        service_snake.as_str(),
        "place_order",
        place_order_snake.as_str(),
        "OrderRequest",
        "OrderResponse",
    );
    vec![get_menu, place_order]
}

} // verus!
