//! Scaffolding for RESTful resources: a resource is described once (identifier
//! type, query types, scope and path), and from that description come the five
//! request handlers (find, list, create, update, delete) and their route table.

pub mod text;
pub mod grammar;
pub mod attributes;
pub mod descriptor;
pub mod binding;
pub mod reply;
pub mod model;
pub mod handlers;
pub mod routes;
pub mod scaffold;
