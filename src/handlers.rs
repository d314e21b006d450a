//! The five request handlers.
//!
//! Each handler is a short protocol: bind the request, call the domain
//! operations, map the outcome to a reply. The steps are pure functions that
//! take the previous step's result and say what comes next (`Next`), so that
//! any host can drive them; the `http_*` functions drive them against the
//! traits of `model`.

use vstd::prelude::*;
use crate::binding::{spec_bind_body, BindingError};
use crate::model::{Model, NewModel, UpdatableModel};
use crate::reply::{lookup_reply, map_lookup, map_outcome, outcome_reply, Reply};

verus! {

/// What a handler asks for next: one call into the domain operations, or
/// the final reply.
pub enum Next<C, T> {
    Call(C),
    Reply(Reply<T>),
}

/// A call of `find`.
pub struct FindCall<I, F> {
    pub id: I,
    pub query: F,
}

/// A call of `delete` on a resource that was found.
pub struct DeleteCall<R, D> {
    pub resource: R,
    pub query: D,
}

/// A call of `save` on a creation payload.
pub struct SaveCall<N, S> {
    pub payload: Box<N>,
    pub query: S,
}

/// A call of `update` on an update payload.
pub struct UpdateCall<P, U> {
    pub payload: Box<P>,
    pub query: U,
}

pub open spec fn spec_find_begin<I, F, T>(
    id: Result<I, BindingError>,
    query: Result<F, BindingError>,
) -> Next<FindCall<I, F>, T> {
    match id {
        Err(e) => Next::Reply(Reply::Rejected(e)),
        Ok(i) => match query {
            Err(e) => Next::Reply(Reply::Rejected(e)),
            Ok(q) => Next::Call(FindCall { id: i, query: q }),
        },
    }
}

pub open spec fn spec_list_begin<L, T>(query: Result<L, BindingError>) -> Next<L, T> {
    match query {
        Err(e) => Next::Reply(Reply::Rejected(e)),
        Ok(q) => Next::Call(q),
    }
}

pub open spec fn spec_create_begin<N, S, T>(
    payload: Result<Box<N>, BindingError>,
    query: Result<S, BindingError>,
) -> Next<SaveCall<N, S>, T> {
    match payload {
        Err(e) => Next::Reply(Reply::Rejected(e)),
        Ok(p) => match query {
            Err(e) => Next::Reply(Reply::Rejected(e)),
            Ok(q) => Next::Call(SaveCall { payload: p, query: q }),
        },
    }
}

pub open spec fn spec_delete_begin<I, F, D, T>(
    id: Result<I, BindingError>,
    query: Result<D, BindingError>,
    lookup_query: F,
) -> Next<(FindCall<I, F>, D), T> {
    match id {
        Err(e) => Next::Reply(Reply::Rejected(e)),
        Ok(i) => match query {
            Err(e) => Next::Reply(Reply::Rejected(e)),
            Ok(d) => Next::Call((FindCall { id: i, query: lookup_query }, d)),
        },
    }
}

pub open spec fn spec_delete_resume<R, D, T>(
    query: D,
    found: Result<Box<R>, anyhow::Error>,
) -> Next<DeleteCall<R, D>, T> {
    match found {
        Err(_) => Next::Reply(Reply::NotFound),
        Ok(r) => Next::Call(DeleteCall { resource: *r, query }),
    }
}

pub open spec fn spec_update_begin<I, F, P, U, T>(
    id: Result<I, BindingError>,
    payload: Result<Box<P>, BindingError>,
    query: Result<U, BindingError>,
    lookup_query: F,
) -> Next<(FindCall<I, F>, UpdateCall<P, U>), T> {
    match id {
        Err(e) => Next::Reply(Reply::Rejected(e)),
        Ok(i) => match payload {
            Err(e) => Next::Reply(Reply::Rejected(e)),
            Ok(p) => match query {
                Err(e) => Next::Reply(Reply::Rejected(e)),
                Ok(u) => Next::Call(
                    (FindCall { id: i, query: lookup_query }, UpdateCall { payload: p, query: u }),
                ),
            },
        },
    }
}

pub open spec fn spec_update_resume<P, U, R, T>(
    prepared: UpdateCall<P, U>,
    found: Result<Box<R>, anyhow::Error>,
) -> Next<UpdateCall<P, U>, T> {
    match found {
        Err(_) => Next::Reply(Reply::NotFound),
        Ok(_) => Next::Call(prepared),
    }
}

/// Find, first step: a binding failure is the reply (the identifier is bound
/// before the query); else `find` is called with the identifier and query.
pub fn find_begin<I, F, T>(id: Result<I, BindingError>, query: Result<F, BindingError>) -> (r: Next<
    FindCall<I, F>,
    T,
>)
    ensures
        r == spec_find_begin::<I, F, T>(id, query),
{
    match id {
        Err(e) => Next::Reply(Reply::Rejected(e)),
        Ok(i) => match query {
            Err(e) => Next::Reply(Reply::Rejected(e)),
            Ok(q) => Next::Call(FindCall { id: i, query: q }),
        },
    }
}

/// List, first step: a binding failure is the reply; else `list` is called
/// with the query.
pub fn list_begin<L, T>(query: Result<L, BindingError>) -> (r: Next<L, T>)
    ensures
        r == spec_list_begin::<L, T>(query),
{
    match query {
        Err(e) => Next::Reply(Reply::Rejected(e)),
        Ok(q) => Next::Call(q),
    }
}

/// Create, first step: a binding failure is the reply (the body is bound
/// before the query); else `save` is called with the payload and query.
pub fn create_begin<N, S, T>(
    payload: Result<Box<N>, BindingError>,
    query: Result<S, BindingError>,
) -> (r: Next<SaveCall<N, S>, T>)
    ensures
        r == spec_create_begin::<N, S, T>(payload, query),
{
    match payload {
        Err(e) => Next::Reply(Reply::Rejected(e)),
        Ok(p) => match query {
            Err(e) => Next::Reply(Reply::Rejected(e)),
            Ok(q) => Next::Call(SaveCall { payload: p, query: q }),
        },
    }
}

/// Delete, first step: a binding failure is the reply; else `find` is
/// called with the identifier and `lookup_query` (a default find query, not
/// the delete query), and the delete query is kept for the next step.
pub fn delete_begin<I, F, D, T>(
    id: Result<I, BindingError>,
    query: Result<D, BindingError>,
    lookup_query: F,
) -> (r: Next<(FindCall<I, F>, D), T>)
    ensures
        r == spec_delete_begin::<I, F, D, T>(id, query, lookup_query),
{
    match id {
        Err(e) => Next::Reply(Reply::Rejected(e)),
        Ok(i) => match query {
            Err(e) => Next::Reply(Reply::Rejected(e)),
            Ok(d) => Next::Call((FindCall { id: i, query: lookup_query }, d)),
        },
    }
}

/// Delete, second step: a failed lookup is a 404; else `delete` is called on
/// the resource found, with the kept delete query.
pub fn delete_resume<R, D, T>(query: D, found: Result<Box<R>, anyhow::Error>) -> (r: Next<
    DeleteCall<R, D>,
    T,
>)
    ensures
        r == spec_delete_resume::<R, D, T>(query, found),
{
    match found {
        Err(_) => Next::Reply(Reply::NotFound),
        Ok(r) => Next::Call(DeleteCall { resource: *r, query }),
    }
}

/// Update, first step: a binding failure is the reply (identifier, then
/// body, then query); else `find` is called with the identifier and
/// `lookup_query`, and the call of `update` on the body's payload is made
/// ready.
pub fn update_begin<I, F, P, U, T>(
    id: Result<I, BindingError>,
    payload: Result<Box<P>, BindingError>,
    query: Result<U, BindingError>,
    lookup_query: F,
) -> (r: Next<(FindCall<I, F>, UpdateCall<P, U>), T>)
    ensures
        r == spec_update_begin::<I, F, P, U, T>(id, payload, query, lookup_query),
{
    match id {
        Err(e) => Next::Reply(Reply::Rejected(e)),
        Ok(i) => match payload {
            Err(e) => Next::Reply(Reply::Rejected(e)),
            Ok(p) => match query {
                Err(e) => Next::Reply(Reply::Rejected(e)),
                Ok(u) => Next::Call(
                    (FindCall { id: i, query: lookup_query }, UpdateCall { payload: p, query: u }),
                ),
            },
        },
    }
}

/// Update, second step: a failed lookup is a 404; else the prepared call
/// goes ahead as it is. What was found only tells that the resource exists.
pub fn update_resume<P, U, R, T>(
    prepared: UpdateCall<P, U>,
    found: Result<Box<R>, anyhow::Error>,
) -> (r: Next<UpdateCall<P, U>, T>)
    ensures
        r == spec_update_resume::<P, U, R, T>(prepared, found),
{
    match found {
        Err(_) => Next::Reply(Reply::NotFound),
        Ok(_) => Next::Call(prepared),
    }
}

/// The find handler (`GET {scope}/{path}/{id}`): the resource with the
/// identifier, or 404 whatever the reason `find` failed.
pub fn http_find<M, ID, FQ, LQ, LR, DQ, DR, S>(
    id: Result<ID, BindingError>,
    query: Result<FQ, BindingError>,
    state: &S,
) -> (r: Reply<Box<M>>) where M: Model<ID, FQ, LQ, LR, DQ, DR, S>
    ensures
        spec_find_begin::<ID, FQ, Box<M>>(id, query) matches Next::Reply(b) ==> r == b,
        spec_find_begin::<ID, FQ, Box<M>>(id, query) is Call ==> r is Success || r is NotFound,
{
    match find_begin(id, query) {
        Next::Reply(b) => b,
        Next::Call(call) => {
            let found = M::find(call.id, &call.query, state);
            map_lookup(found)
        },
    }
}

/// The list handler (`GET {scope}/{path}`).
pub fn http_list<M, ID, FQ, LQ, LR, DQ, DR, S>(query: Result<LQ, BindingError>, state: &S) -> (r:
    Reply<LR>) where M: Model<ID, FQ, LQ, LR, DQ, DR, S>
    ensures
        spec_list_begin::<LQ, LR>(query) matches Next::Reply(b) ==> r == b,
        spec_list_begin::<LQ, LR>(query) is Call ==> r is Success || r is Failure,
{
    match list_begin(query) {
        Next::Reply(b) => b,
        Next::Call(q) => {
            let listed = M::list(&q, state);
            map_outcome(listed)
        },
    }
}

/// The delete handler (`DELETE {scope}/{path}/{id}`): looks the resource up
/// with a default find query, then deletes what was found.
pub fn http_delete<M, ID, FQ, LQ, LR, DQ, DR, S>(
    id: Result<ID, BindingError>,
    query: Result<DQ, BindingError>,
    state: &S,
) -> (r: Reply<DR>) where M: Model<ID, FQ, LQ, LR, DQ, DR, S>, FQ: Default
    ensures
        id matches Err(e) ==> r == Reply::<DR>::Rejected(e),
        id is Ok && query is Err ==> r == Reply::<DR>::Rejected(query->Err_0),
        id is Ok && query is Ok ==> r is Success || r is NotFound || r is Failure,
{
    match delete_begin(id, query, FQ::default()) {
        Next::Reply(b) => b,
        Next::Call((lookup, delete_query)) => {
            let found = M::find(lookup.id, &lookup.query, state);
            match delete_resume::<M, DQ, DR>(delete_query, found) {
                Next::Reply(b) => b,
                Next::Call(call) => {
                    let deleted = call.resource.delete(&call.query, state);
                    map_outcome(deleted)
                },
            }
        },
    }
}

/// The create handler (`POST {scope}/{path}`).
pub fn http_create<N, T, Q, S>(
    payload: Result<Box<N>, BindingError>,
    query: Result<Q, BindingError>,
    state: &S,
) -> (r: Reply<T>) where N: NewModel<T, Q, S>
    ensures
        spec_create_begin::<N, Q, T>(payload, query) matches Next::Reply(b) ==> r == b,
        spec_create_begin::<N, Q, T>(payload, query) is Call ==> r is Success || r is Failure,
{
    match create_begin(payload, query) {
        Next::Reply(b) => b,
        Next::Call(call) => {
            let saved = (*call.payload).save(&call.query, state);
            map_outcome(saved)
        },
    }
}

/// The update handler (`PUT {scope}/{path}/{id}`): checks with a default
/// find query that the resource exists, then updates with the body's payload.
pub fn http_update<P, T, UQ, M, ID, FQ, LQ, LR, DQ, DR, S>(
    id: Result<ID, BindingError>,
    payload: Result<Box<P>, BindingError>,
    query: Result<UQ, BindingError>,
    state: &S,
) -> (r: Reply<T>) where P: UpdatableModel<T, UQ, S>, M: Model<ID, FQ, LQ, LR, DQ, DR, S>, FQ: Default
    ensures
        id matches Err(e) ==> r == Reply::<T>::Rejected(e),
        id is Ok && payload is Err ==> r == Reply::<T>::Rejected(payload->Err_0),
        id is Ok && payload is Ok && query is Err ==> r == Reply::<T>::Rejected(query->Err_0),
        id is Ok && payload is Ok && query is Ok ==> r is Success || r is NotFound || r is Failure,
{
    match update_begin(id, payload, query, FQ::default()) {
        Next::Reply(b) => b,
        Next::Call((lookup, prepared)) => {
            let found = M::find(lookup.id, &lookup.query, state);
            match update_resume::<P, UQ, M, T>(prepared, found) {
                Next::Reply(b) => b,
                Next::Call(call) => {
                    let updated = (*call.payload).update(&call.query, state);
                    map_outcome(updated)
                },
            }
        },
    }
}

/// Whatever identifier a request binds, find, delete and update each look
/// it up with `find`; where that fails, whatever the error, the reply is a
/// 404 with body `ENTITY_NOT_FOUND`, and delete and update call nothing more.
pub proof fn lemma_failed_lookup_is_not_found<I, F, D, P, U, R, T>(
    id: I,
    find_query: F,
    lookup_query: F,
    delete_query: D,
    payload: Box<P>,
    update_query: U,
    error: anyhow::Error,
)
    ensures
        spec_find_begin::<I, F, Box<R>>(Ok(id), Ok(find_query)) == Next::<FindCall<I, F>, Box<R>>::Call(
            FindCall { id, query: find_query },
        ),
        lookup_reply::<Box<R>>(Err(error)) == Reply::<Box<R>>::NotFound,
        spec_delete_begin::<I, F, D, T>(Ok(id), Ok(delete_query), lookup_query) == Next::<
            (FindCall<I, F>, D),
            T,
        >::Call((FindCall { id, query: lookup_query }, delete_query)),
        spec_delete_resume::<R, D, T>(delete_query, Err(error)) == Next::<DeleteCall<R, D>, T>::Reply(
            Reply::NotFound,
        ),
        spec_update_begin::<I, F, P, U, T>(Ok(id), Ok(payload), Ok(update_query), lookup_query)
            == Next::<(FindCall<I, F>, UpdateCall<P, U>), T>::Call(
            (FindCall { id, query: lookup_query }, UpdateCall { payload, query: update_query }),
        ),
        spec_update_resume::<P, U, R, T>(UpdateCall { payload, query: update_query }, Err(error))
            == Next::<UpdateCall<P, U>, T>::Reply(Reply::NotFound),
        Reply::<T>::NotFound.spec_status() == 404,
        Reply::<T>::NotFound.spec_fixed_body() == Some("ENTITY_NOT_FOUND"@),
{
}

/// Delete looks the resource up with the default find query, never with the
/// delete query; once found, the one call that follows is `delete` on that
/// very resource with the delete query, and its outcome is the reply (200
/// with the value, or 500 with the error).
pub proof fn lemma_delete_acts_on_found<I, F, D, R, T>(
    id: I,
    delete_query: D,
    lookup_query: F,
    found: Box<R>,
    outcome: Result<T, anyhow::Error>,
)
    ensures
        spec_delete_begin::<I, F, D, T>(Ok(id), Ok(delete_query), lookup_query) == Next::<
            (FindCall<I, F>, D),
            T,
        >::Call((FindCall { id, query: lookup_query }, delete_query)),
        spec_delete_resume::<R, D, T>(delete_query, Ok(found)) == Next::<DeleteCall<R, D>, T>::Call(
            DeleteCall { resource: *found, query: delete_query },
        ),
        outcome_reply(outcome).spec_status() == (if outcome is Ok {
            200u16
        } else {
            500u16
        }),
        outcome matches Ok(v) ==> outcome_reply(outcome) == Reply::Success(v),
        outcome matches Err(e) ==> outcome_reply(outcome) == Reply::<T>::Failure(e),
{
}

/// Update calls `update` with the payload decoded from the body, whatever
/// the lookup found: the found resource is never forwarded.
pub proof fn lemma_update_ignores_found<I, F, P, U, R, T>(
    id: I,
    payload: Box<P>,
    update_query: U,
    lookup_query: F,
    found: Box<R>,
)
    ensures
        spec_update_begin::<I, F, P, U, T>(Ok(id), Ok(payload), Ok(update_query), lookup_query)
            == Next::<(FindCall<I, F>, UpdateCall<P, U>), T>::Call(
            (FindCall { id, query: lookup_query }, UpdateCall { payload, query: update_query }),
        ),
        spec_update_resume::<P, U, R, T>(UpdateCall { payload, query: update_query }, Ok(found))
            == Next::<UpdateCall<P, U>, T>::Call(UpdateCall { payload, query: update_query }),
{
}

/// Create hands the decoded payload to `save` as it is, and a saved value is
/// a 200 reply carrying that value.
pub proof fn lemma_create_round_trip<N, S, T>(payload: Box<N>, query: S, saved: T)
    ensures
        spec_create_begin::<N, S, T>(Ok(payload), Ok(query)) == Next::<SaveCall<N, S>, T>::Call(
            SaveCall { payload, query },
        ),
        outcome_reply::<T>(Ok(saved)) == Reply::Success(saved),
        outcome_reply::<T>(Ok(saved)).spec_status() == 200,
{
}

/// A body that fails to bind stops create and update before any domain
/// operation: the step's result is a reply, not a call, and it reports the
/// body once the identifier (for update) has bound.
pub proof fn lemma_bad_body_calls_nothing<I, F, N, S, P, U, E, T>(
    body: Seq<u8>,
    error: E,
    id: Result<I, BindingError>,
    save_query: Result<S, BindingError>,
    update_query: Result<U, BindingError>,
    lookup_query: F,
)
    ensures
        spec_create_begin::<N, S, T>(
            spec_bind_body::<N, E>(body, Err(error)),
            save_query,
        ) == Next::<SaveCall<N, S>, T>::Reply(Reply::Rejected(BindingError::BodyInvalid)),
        spec_update_begin::<I, F, P, U, T>(
            id,
            spec_bind_body::<P, E>(body, Err(error)),
            update_query,
            lookup_query,
        ) is Reply,
        id is Ok ==> spec_update_begin::<I, F, P, U, T>(
            id,
            spec_bind_body::<P, E>(body, Err(error)),
            update_query,
            lookup_query,
        ) == Next::<(FindCall<I, F>, UpdateCall<P, U>), T>::Reply(
            Reply::Rejected(BindingError::BodyInvalid),
        ),
{
}

} // verus!
