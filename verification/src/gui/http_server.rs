//! The routes of the embedded HTTP server that serves the HTML interface.

use vstd::prelude::*;
use crate::bytes_util::str_eq;

verus! {

/// What a request asks for.
#[derive(Debug, Clone, Copy, PartialEq, Eq, Structural)]
pub enum HttpRoute {
    /// The HTML interface (`/` or `/index.html`).
    Index,
    /// The server's status (`/api/status`).
    Status,
    /// The device list (`/api/devices`).
    Devices,
    NotFound,
}

/// The route of a request's URL.
pub open spec fn route_named(url: Seq<char>) -> HttpRoute {
    if url == "/"@ || url == "/index.html"@ {
        HttpRoute::Index
    } else if url == "/api/status"@ {
        HttpRoute::Status
    } else if url == "/api/devices"@ {
        HttpRoute::Devices
    } else {
        HttpRoute::NotFound
    }
}

/// The route of a request's URL.
pub fn route_of(url: &str) -> (r: HttpRoute)
    ensures
        r == route_named(url@),
{
    if str_eq(url, "/") || str_eq(url, "/index.html") {
        HttpRoute::Index
    } else if str_eq(url, "/api/status") {
        HttpRoute::Status
    } else if str_eq(url, "/api/devices") {
        HttpRoute::Devices
    } else {
        HttpRoute::NotFound
    }
}

impl HttpRoute {
    /// The response's status code: 404 for an unknown URL, 200 otherwise.
    pub fn status_code(&self) -> (r: u16)
        ensures
            r == if *self == HttpRoute::NotFound {
                404u16
            } else {
                200u16
            },
    {
        match self {
            HttpRoute::NotFound => 404,
            _ => 200,
        }
    }

    /// The response's content type: HTML for the interface, JSON for the
    /// API, none for an unknown URL.
    pub fn content_type(&self) -> (r: Option<&'static str>)
        ensures
            match *self {
                HttpRoute::Index => r matches Some(t) && t@ == "text/html; charset=utf-8"@,
                HttpRoute::Status | HttpRoute::Devices => r matches Some(t) && t@ == "application/json"@,
                HttpRoute::NotFound => r is None,
            },
    {
        match self {
            HttpRoute::Index => Some("text/html; charset=utf-8"),
            HttpRoute::Status | HttpRoute::Devices => Some("application/json"),
            HttpRoute::NotFound => None,
        }
    }
}

} // verus!
