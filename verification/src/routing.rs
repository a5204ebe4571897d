//! Routes by which requests reach the endpoints of a service.

use vstd::prelude::*;

verus! {

/// Request method of a route.
#[derive(Clone, Copy, Debug, PartialEq, Eq, Structural)]
pub enum Method {
    Get,
    Post,
}

/// Route: which requests lead where.
#[derive(Debug)]
pub struct Route<E> {
    /// Method of the requests.
    pub method: Method,
    /// Pattern that the path of a request matches.
    pub pattern: &'static str,
    /// What the requests lead to.
    pub endpoint: E,
    /// Name of the route.
    pub name: &'static str,
}

/// What a [`Route`] stands for.
#[verifier::ext_equal]
pub struct RouteView<E> {
    pub method: Method,
    pub pattern: Seq<char>,
    pub endpoint: E,
    pub name: Seq<char>,
}

impl<E> View for Route<E> {
    type V = RouteView<E>;

    open spec fn view(&self) -> RouteView<E> {
        RouteView {
            method: self.method,
            pattern: self.pattern@,
            endpoint: self.endpoint,
            name: self.name@,
        }
    }
}

} // verus!
