use crate::auth::{authorize_at, guard_spec, header_view, AuthenticatedIdentity, GuardDecision};
use crate::util::jwt::SessionConfig;
use vstd::prelude::*;

pub mod places;
pub mod users;

verus! {

/// The HTTP methods that the service answers.
#[derive(Clone, Copy, Debug, PartialEq, Eq, Structural)]
pub enum Method {
    Get,
    Post,
    Put,
}

/// What a route leads to.
#[derive(Clone, Copy, Debug, PartialEq, Eq, Structural)]
pub enum Handler {
    /// The description of the API.
    Api,
    Register,
    Login,
    GetCurrent,
    Update,
    CreatePlace,
    ListPlaces,
}

/// One line of the routing table.
#[derive(Clone, Copy, Debug)]
pub struct Route {
    pub method: Method,
    pub path: &'static str,
    pub handler: Handler,
}

/// What reaches a handler, or keeps a request from it.
#[derive(Clone, Copy, Debug, PartialEq, Eq, Structural)]
pub enum Access {
    /// The route is open to everyone; no token is looked at.
    Open,
    /// The route is protected and the caller is this identity.
    Bound(AuthenticatedIdentity),
    /// The route is protected and the caller has no token in order.
    Unauthorized,
}

impl Handler {
    /// The handlers that act for an account: its own record, changes to it,
    /// and places created in its name. Registration, login, the listing and
    /// the description are open.
    pub open spec fn protected_spec(self) -> bool {
        self is GetCurrent || self is Update || self is CreatePlace
    }

    pub fn is_protected(self) -> (r: bool)
        ensures
            r == self.protected_spec(),
    {
        match self {
            Handler::GetCurrent | Handler::Update | Handler::CreatePlace => true,
            _ => false,
        }
    }
}

/// The access that a request has to a handler at the second `now`.
pub open spec fn access_spec(handler: Handler, header: Option<Seq<char>>, secret: Seq<u8>, now: i64)
    -> Access {
    if handler.protected_spec() {
        match guard_spec(header, secret, now) {
            GuardDecision::Proceed(identity) => Access::Bound(identity),
            GuardDecision::Reject => Access::Unauthorized,
        }
    } else {
        Access::Open
    }
}

/// Decides, before the handler runs, what access a request has to it.
pub fn access(handler: Handler, header: Option<&str>, config: &SessionConfig, now: i64) -> (a:
    Access)
    ensures
        a == access_spec(handler, header_view(header), config.secret(), now),
{
    if handler.is_protected() {
        match authorize_at(header, config, now) {
            GuardDecision::Proceed(identity) => Access::Bound(identity),
            GuardDecision::Reject => Access::Unauthorized,
        }
    } else {
        Access::Open
    }
}

/// The routing table as pairs of method and handler, in the order of
/// `routes`.
pub open spec fn table_spec() -> Seq<(Method, Handler)> {
    seq![
        (Method::Get, Handler::Api),
        (Method::Post, Handler::Register),
        (Method::Post, Handler::Login),
        (Method::Get, Handler::GetCurrent),
        (Method::Put, Handler::Update),
        (Method::Post, Handler::CreatePlace),
        (Method::Get, Handler::ListPlaces),
    ]
}

/// The path of a handler.
pub open spec fn path_spec(handler: Handler) -> Seq<char> {
    match handler {
        Handler::Api => "/"@,
        Handler::Register => "/api/v1/users"@,
        Handler::Login => "/api/v1/users/login"@,
        Handler::GetCurrent => "/api/v1/user"@,
        Handler::Update => "/api/v1/user"@,
        Handler::CreatePlace => "/api/v1/place"@,
        Handler::ListPlaces => "/api/v1/places"@,
    }
}

/// The routing table of the service.
pub fn routes() -> (r: Vec<Route>)
    ensures
        r@.len() == table_spec().len(),
        forall|i: int|
            0 <= i < r@.len() ==> (#[trigger] r@[i]).method == table_spec()[i].0 && r@[i].handler
                == table_spec()[i].1 && r@[i].path@ == path_spec(r@[i].handler),
{
    let mut table: Vec<Route> = Vec::new();
    table.push(Route { method: Method::Get, path: "/", handler: Handler::Api });
    table.push(Route { method: Method::Post, path: "/api/v1/users", handler: Handler::Register });
    table.push(Route { method: Method::Post, path: "/api/v1/users/login", handler: Handler::Login });
    table.push(Route { method: Method::Get, path: "/api/v1/user", handler: Handler::GetCurrent });
    table.push(Route { method: Method::Put, path: "/api/v1/user", handler: Handler::Update });
    table.push(Route { method: Method::Post, path: "/api/v1/place", handler: Handler::CreatePlace });
    table.push(Route { method: Method::Get, path: "/api/v1/places", handler: Handler::ListPlaces });
    table
}

/// A handler that is not protected is reached without a look at the header;
/// one that is protected is reached only by a caller whose token is accepted.
pub proof fn law_access(handler: Handler, header: Option<Seq<char>>, secret: Seq<u8>, now: i64)
    ensures
        !handler.protected_spec() ==> access_spec(handler, header, secret, now) == Access::Open,
        handler.protected_spec() ==> (access_spec(handler, header, secret, now) is Bound
            <==> guard_spec(header, secret, now) is Proceed),
        handler.protected_spec() && header is None ==> access_spec(handler, header, secret, now)
            == Access::Unauthorized,
{
}

} // verus!
