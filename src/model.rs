//! The domain operations that a resource's author supplies, and the route
//! information of a resource.
//!
//! The handlers call these and nothing else; what the operations do with
//! storage is theirs alone, so nothing is promised of their results. The
//! operations are plain calls: a host that must wait on its storage drives
//! the steps of `handlers` itself and awaits between them.

use vstd::prelude::*;

verus! {

/// The main entity of a resource: it is found by identifier, listed, and
/// deleted once found.
///
/// `ID` is the identifier type, `FQ`, `LQ` and `DQ` the query types of find,
/// list and delete, `LR` and `DR` the results of list and delete, and
/// `AppState` the shared state handed to every operation.
pub trait Model<ID, FQ, LQ, LR, DQ, DR, AppState>: Sized {
    fn find(id: ID, query: &FQ, state: &AppState) -> Result<Box<Self>, anyhow::Error>;

    fn list(query: &LQ, state: &AppState) -> Result<LR, anyhow::Error>;

    fn delete(self, query: &DQ, state: &AppState) -> Result<DR, anyhow::Error>;
}

/// The creation payload of a resource: saving it yields the entity `T`.
pub trait NewModel<T, Q, AppState>: Sized {
    fn save(self, query: &Q, state: &AppState) -> Result<T, anyhow::Error>;
}

/// The update payload of a resource: it carries the identifier and the new
/// fields, and updating yields `T`.
pub trait UpdatableModel<T, Q, AppState>: Sized {
    fn update(self, query: &Q, state: &AppState) -> Result<T, anyhow::Error>;
}

/// Where a resource's routes live: its scope (such as `/v1`) and its path
/// (such as `item`).
pub trait RestfulPathInfo {
    fn path() -> String;

    fn scope() -> &'static str;
}

} // verus!
