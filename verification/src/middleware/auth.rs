use crate::auth::{authorize_at, guard_spec, header_view, GuardDecision};
use crate::util::jwt::SessionConfig;
use vstd::prelude::*;

verus! {

/// Puts the token check in front of a service.
pub struct Auth {
    pub config: SessionConfig,
}

/// A service behind the token check. The service sees a request only after
/// `screen` has let it proceed.
pub struct AuthMiddleware<S> {
    pub service: S,
    pub config: SessionConfig,
}

impl Auth {
    /// Wraps `service`.
    pub fn new_transform<S>(&self, service: S) -> (m: AuthMiddleware<S>)
        ensures
            m.service == service,
            m.config.secret() == self.config.secret(),
            m.config.lifetime() == self.config.lifetime(),
    {
        AuthMiddleware { service, config: self.config.duplicate() }
    }
}

impl<S> AuthMiddleware<S> {
    /// Decides, as of the second `now`, whether the request with this
    /// authorization header reaches the service: it does with a token that is
    /// valid and not expired, and with nothing else.
    pub fn screen(&self, header: Option<&str>, now: i64) -> (d: GuardDecision)
        ensures
            d == guard_spec(header_view(header), self.config.secret(), now),
    {
        authorize_at(header, &self.config, now)
    }
}

} // verus!
