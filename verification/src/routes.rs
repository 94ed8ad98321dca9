//! The HTTP surface of the service: which requests it answers, and which
//! of its two handlers answers each.

use vstd::prelude::*;
use vstd::string::*;

verus! {

/// The request methods that the service tells apart.
#[derive(Clone, Copy, Debug, PartialEq, Eq, Structural)]
pub enum Method {
    Get,
    Post,
    Put,
    Delete,
    Other,
}

/// The media types of a request body that the service tells apart.
#[derive(Clone, Copy, Debug, PartialEq, Eq, Structural)]
pub enum MediaType {
    /// `application/x-www-form-urlencoded`
    Form,
    /// `multipart/form-data`
    FormData,
    /// Any other type, or none.
    Other,
}

/// The two request handlers.
#[derive(Clone, Copy, Debug, PartialEq, Eq, Structural)]
pub enum Handler {
    /// Takes the image as base64 text and answers with base64 text.
    EncodedBody,
    /// Takes the image as an uploaded file and answers with raw bytes.
    Multipart,
}

/// One entry of the routing table.
#[derive(Clone, Debug, PartialEq, Eq)]
pub struct Route {
    pub method: Method,
    pub path: String,
    pub format: MediaType,
    pub handler: Handler,
}

/// Mathematical value of a [`Route`].
pub struct RouteView {
    pub method: Method,
    pub path: Seq<char>,
    pub format: MediaType,
    pub handler: Handler,
}

impl View for Route {
    type V = RouteView;

    open spec fn view(&self) -> RouteView {
        RouteView {
            method: self.method,
            path: self.path@,
            format: self.format,
            handler: self.handler,
        }
    }
}

impl RouteView {
    /// A route answers the requests of its method and path whose body is of
    /// its media type.
    pub open spec fn answers(self, method: Method, path: Seq<char>, media: MediaType) -> bool {
        self.method == method && self.path == path && self.format == media
    }
}

/// The path under which both handlers are mounted.
pub open spec fn blur_path() -> Seq<char> {
    "/blur"@
}

/// The routing table of the service: both handlers take `POST /blur`, and
/// the media type of the body chooses between them.
pub open spec fn service_routes() -> Seq<RouteView> {
    seq![
        RouteView {
            method: Method::Post,
            path: blur_path(),
            format: MediaType::Form,
            handler: Handler::EncodedBody,
        },
        RouteView {
            method: Method::Post,
            path: blur_path(),
            format: MediaType::FormData,
            handler: Handler::Multipart,
        },
    ]
}

/// The values of a table's routes.
pub open spec fn table(routes: Seq<Route>) -> Seq<RouteView> {
    routes.map_values(|route: Route| route@)
}

/// The handler of the first route of a table that answers a request.
pub open spec fn select(
    routes: Seq<RouteView>,
    method: Method,
    path: Seq<char>,
    media: MediaType,
) -> Option<Handler>
    decreases routes.len(),
{
    if routes.len() == 0 {
        None
    } else if routes[0].answers(method, path, media) {
        Some(routes[0].handler)
    } else {
        select(routes.skip(1), method, path, media)
    }
}

/// The service as it is launched: its routes, mounted at the root.
pub fn rocket() -> (routes: Vec<Route>)
    ensures
        table(routes@) == service_routes(),
{
    let mut routes: Vec<Route> = Vec::new();
    routes.push(
        Route {
            method: Method::Post,
            path: String::from_str("/blur"),
            format: MediaType::Form,
            handler: Handler::EncodedBody,
        },
    );
    routes.push(
        Route {
            method: Method::Post,
            path: String::from_str("/blur"),
            format: MediaType::FormData,
            handler: Handler::Multipart,
        },
    );
    assert(table(routes@) =~= service_routes());
    routes
}

/// Finds the handler of a request in a routing table.
pub fn handler_for(routes: &Vec<Route>, method: Method, path: &str, media: MediaType) -> (found:
    Option<Handler>)
    ensures
        found == select(table(routes@), method, path@, media),
{
    let wanted = String::from_str(path);
    let mut i: usize = 0;
    assert(table(routes@).skip(0) =~= table(routes@));
    while i < routes.len()
        invariant
            i <= routes.len(),
            wanted@ == path@,
            select(table(routes@), method, path@, media) == select(
                table(routes@).skip(i as int),
                method,
                path@,
                media,
            ),
        decreases routes.len() - i,
    {
        let route = &routes[i];
        let ghost rest = table(routes@).skip(i as int);
        assert(rest[0] == route@);
        assert(rest.skip(1) =~= table(routes@).skip(i + 1));
        if route.method == method && route.path == wanted && route.format == media {
            return Some(route.handler);
        }
        i = i + 1;
    }
    None
}

/// The service answers `POST /blur` alone, with the handler that goes with
/// the body's media type, so that no request has two handlers.
pub proof fn lemma_service_dispatch(method: Method, path: Seq<char>, media: MediaType)
    ensures
        select(service_routes(), method, path, media) == (if method == Method::Post && path
            == blur_path() {
            match media {
                MediaType::Form => Some(Handler::EncodedBody),
                MediaType::FormData => Some(Handler::Multipart),
                MediaType::Other => None,
            }
        } else {
            None
        }),
{
    reveal_with_fuel(select, 3);
    let routes = service_routes();
    assert(routes.skip(1)[0] == routes[1]);
    assert(routes.skip(1).skip(1).len() == 0);
}

} // verus!
