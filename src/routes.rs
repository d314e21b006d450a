//! The route table builder: the five routes of a resource. Matching a
//! request against them is the HTTP runtime's work.

use vstd::prelude::*;
use crate::text::concat;

verus! {

#[derive(Debug, Clone, Copy, PartialEq, Eq, Structural)]
pub enum Method {
    Get,
    Post,
    Put,
    Delete,
}

/// The five operations of a resource, one handler each.
#[derive(Debug, Clone, Copy, PartialEq, Eq, Structural)]
pub enum Operation {
    Find,
    List,
    Create,
    Update,
    Delete,
}

/// A route: a method and a path template, bound to an operation. An item
/// route's template ends in `/{id}`, where the identifier segment goes.
pub struct Route {
    pub method: Method,
    pub path: String,
    pub operation: Operation,
}

impl View for Route {
    type V = (Method, Seq<char>, Operation);

    open spec fn view(&self) -> (Method, Seq<char>, Operation) {
        (self.method, self.path@, self.operation)
    }
}

/// The collection route's path: scope and path joined by one `/`.
pub open spec fn collection_path(scope: Seq<char>, path: Seq<char>) -> Seq<char> {
    scope + "/"@ + path
}

/// The item route's path: the collection path, then `/{id}`.
pub open spec fn item_path(scope: Seq<char>, path: Seq<char>) -> Seq<char> {
    collection_path(scope, path) + "/{id}"@
}

/// The table of a resource's routes, in order: find, list, create, update,
/// delete.
pub open spec fn route_table(scope: Seq<char>, path: Seq<char>) -> Seq<
    (Method, Seq<char>, Operation),
> {
    seq![
        (Method::Get, item_path(scope, path), Operation::Find),
        (Method::Get, collection_path(scope, path), Operation::List),
        (Method::Post, collection_path(scope, path), Operation::Create),
        (Method::Put, item_path(scope, path), Operation::Update),
        (Method::Delete, item_path(scope, path), Operation::Delete),
    ]
}

pub open spec fn route_views(routes: Seq<Route>) -> Seq<(Method, Seq<char>, Operation)> {
    routes.map_values(|r: Route| r@)
}

/// The five routes of the resource at `scope` and `path`. No slash is added
/// or removed beyond the one that joins them.
pub fn build_routes(scope: &str, path: &str) -> (r: Vec<Route>)
    ensures
        r@.len() == 5,
        route_views(r@) == route_table(scope@, path@),
{
    let with_slash = concat(scope, "/");
    let collection = concat(with_slash.as_str(), path);
    let item = concat(collection.as_str(), "/{id}");
    let mut r: Vec<Route> = Vec::new();
    r.push(Route { method: Method::Get, path: item.clone(), operation: Operation::Find });
    r.push(Route { method: Method::Get, path: collection.clone(), operation: Operation::List });
    r.push(Route { method: Method::Post, path: collection.clone(), operation: Operation::Create });
    r.push(Route { method: Method::Put, path: item.clone(), operation: Operation::Update });
    r.push(Route { method: Method::Delete, path: item, operation: Operation::Delete });
    assert(route_views(r@) =~= route_table(scope@, path@));
    r
}

} // verus!
