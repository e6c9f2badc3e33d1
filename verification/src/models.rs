//! Data models shared by the services: gateway routes and message bus events.
use vstd::prelude::*;

pub use crate::response::ApiResponse;

verus! {

/// A JSON document, carried through the library as it came.
#[verifier::external_type_specification]
#[verifier::external_body]
pub struct ExJsonValue(serde_json::Value);

/// `Clone` of a JSON document (used by `Event`'s derived `Clone`): returns a
/// copy; nothing is claimed of it here.
pub assume_specification[ <serde_json::Value as Clone>::clone ](v: &serde_json::Value) -> serde_json::Value;

/// A route mapping from a path prefix to a target service URL.
#[derive(Debug, Clone)]
pub struct Route {
    /// The path prefix to match (e.g., `/api/v1`).
    pub path: String,
    /// The target service URL to forward requests to.
    pub target: String,
}

impl Route {
    /// A copy of the route with equal path and target.
    pub fn duplicate(&self) -> (r: Route)
        ensures
            r.path@ == self.path@,
            r.target@ == self.target@,
    {
        Route { path: self.path.clone(), target: self.target.clone() }
    }
}

/// Request body for changing a service's listening port.
#[derive(Debug, Clone, Copy)]
pub struct ChangePortRequest {
    /// The new port number to listen on.
    pub port: u16,
}

/// A property that events of a registered type carry.
#[derive(Debug, Clone)]
pub struct PropertyType {
    pub name: String,
    pub description: Option<String>,
}

/// An event type that a service registers with the message bus.
#[derive(Debug, Clone)]
pub struct EventType {
    pub name: String,
    pub source_id: String,
    pub properties: Vec<PropertyType>,
}

/// An event published on the message bus.
#[derive(Debug, Clone)]
pub struct Event {
    pub source_id: String,
    pub name: String,
    pub properties: serde_json::Value,
    pub timestamp: String,
}

} // verus!
