use std::cell::{Cell, RefCell};

use actix_restful::binding::{bind_body, bind_path, BindingError};
use actix_restful::handlers::{
    create_begin, delete_begin, delete_resume, find_begin, http_create, http_delete, http_find,
    http_list, http_update, list_begin, update_begin, update_resume, FindCall, Next, UpdateCall,
};
use actix_restful::model::{Model, NewModel, UpdatableModel};
use actix_restful::reply::{map_lookup, map_outcome, Reply};
use actix_restful::routes::{build_routes, Method, Operation};

#[derive(Default)]
struct State {
    finds: Cell<u32>,
    find_tags: RefCell<Vec<u8>>,
    lists: Cell<u32>,
    deletes: Cell<u32>,
    deleted: RefCell<Vec<(i64, String)>>,
    saves: Cell<u32>,
    updates: Cell<u32>,
    updated: RefCell<Vec<String>>,
}

#[derive(Default)]
struct FindQuery {
    tag: u8,
}
struct ListQuery {
    fail: bool,
}
struct DeleteQuery {
    fail: bool,
}
struct SaveQuery {}
struct UpdateQuery {}

#[derive(Debug, PartialEq)]
struct Item {
    id: i64,
    content: String,
}

const MISSING: i64 = 42;

impl Model<i64, FindQuery, ListQuery, Vec<i64>, DeleteQuery, Item, State> for Item {
    fn find(id: i64, query: &FindQuery, state: &State) -> anyhow::Result<Box<Item>> {
        state.finds.set(state.finds.get() + 1);
        state.find_tags.borrow_mut().push(query.tag);
        if id == MISSING {
            Err(anyhow::Error::msg("connection lost"))
        } else {
            Ok(Box::new(Item { id, content: "stored".to_string() }))
        }
    }

    fn list(query: &ListQuery, state: &State) -> anyhow::Result<Vec<i64>> {
        state.lists.set(state.lists.get() + 1);
        if query.fail {
            Err(anyhow::Error::msg("list failed"))
        } else {
            Ok(vec![1, 2])
        }
    }

    fn delete(self, query: &DeleteQuery, state: &State) -> anyhow::Result<Item> {
        state.deletes.set(state.deletes.get() + 1);
        state.deleted.borrow_mut().push((self.id, self.content.clone()));
        if query.fail {
            Err(anyhow::Error::msg("delete failed"))
        } else {
            Ok(self)
        }
    }
}

struct NewItem {
    content: String,
}

impl NewModel<Item, SaveQuery, State> for NewItem {
    fn save(self, _query: &SaveQuery, state: &State) -> anyhow::Result<Item> {
        state.saves.set(state.saves.get() + 1);
        Ok(Item { id: 1, content: self.content })
    }
}

#[derive(Debug, PartialEq)]
struct UpdatableItem {
    id: i64,
    content: String,
}

impl UpdatableModel<UpdatableItem, UpdateQuery, State> for UpdatableItem {
    fn update(self, _query: &UpdateQuery, state: &State) -> anyhow::Result<UpdatableItem> {
        state.updates.set(state.updates.get() + 1);
        state.updated.borrow_mut().push(self.content.clone());
        Ok(self)
    }
}

fn find(id: Result<i64, BindingError>, state: &State) -> Reply<Box<Item>> {
    http_find::<Item, i64, FindQuery, ListQuery, Vec<i64>, DeleteQuery, Item, State>(
        id,
        Ok(FindQuery { tag: 9 }),
        state,
    )
}

fn delete(id: Result<i64, BindingError>, query: DeleteQuery, state: &State) -> Reply<Item> {
    http_delete::<Item, i64, FindQuery, ListQuery, Vec<i64>, DeleteQuery, Item, State>(
        id,
        Ok(query),
        state,
    )
}

fn update(
    id: Result<i64, BindingError>,
    payload: Result<Box<UpdatableItem>, BindingError>,
    state: &State,
) -> Reply<UpdatableItem> {
    http_update::<
        UpdatableItem,
        UpdatableItem,
        UpdateQuery,
        Item,
        i64,
        FindQuery,
        ListQuery,
        Vec<i64>,
        DeleteQuery,
        Item,
        State,
    >(id, payload, Ok(UpdateQuery {}), state)
}

fn decode_new_item(body: &[u8]) -> Result<NewItem, String> {
    let v: serde_json::Value = serde_json::from_slice(body).map_err(|e| e.to_string())?;
    match v.get("content").and_then(|c| c.as_str()) {
        Some(c) => Ok(NewItem { content: c.to_string() }),
        None => Err("no content".to_string()),
    }
}

fn decode_updatable_item(body: &[u8]) -> Result<UpdatableItem, String> {
    let v: serde_json::Value = serde_json::from_slice(body).map_err(|e| e.to_string())?;
    let id = v.get("id").and_then(|i| i.as_i64()).ok_or("no id")?;
    let content = v.get("content").and_then(|c| c.as_str()).ok_or("no content")?;
    Ok(UpdatableItem { id, content: content.to_string() })
}

#[test]
fn failed_find_is_not_found_in_every_handler() {
    let state = State::default();
    let r = find(Ok(MISSING), &state);
    assert!(matches!(r, Reply::NotFound));
    assert_eq!(r.status(), 404);
    assert_eq!(r.error_body(), Some("ENTITY_NOT_FOUND".to_string()));

    let r = delete(Ok(MISSING), DeleteQuery { fail: false }, &state);
    assert!(matches!(r, Reply::NotFound));
    assert_eq!(r.status(), 404);
    assert_eq!(r.error_body(), Some("ENTITY_NOT_FOUND".to_string()));
    assert_eq!(state.deletes.get(), 0);

    let body = Box::new(UpdatableItem { id: MISSING, content: "new".to_string() });
    let r = update(Ok(MISSING), Ok(body), &state);
    assert!(matches!(r, Reply::NotFound));
    assert_eq!(r.status(), 404);
    assert_eq!(r.error_body(), Some("ENTITY_NOT_FOUND".to_string()));
    assert_eq!(state.updates.get(), 0);
}

#[test]
fn found_resource_is_returned_by_find() {
    let state = State::default();
    match find(Ok(5), &state) {
        Reply::Success(item) => assert_eq!(*item, Item { id: 5, content: "stored".to_string() }),
        _ => panic!("expected a success"),
    }
    assert_eq!(*state.find_tags.borrow(), vec![9]);
}

#[test]
fn delete_calls_delete_once_on_the_found_resource() {
    let state = State::default();
    let r = delete(Ok(5), DeleteQuery { fail: false }, &state);
    assert_eq!(r.status(), 200);
    match r {
        Reply::Success(item) => assert_eq!(item, Item { id: 5, content: "stored".to_string() }),
        _ => panic!("expected a success"),
    }
    assert_eq!(state.finds.get(), 1);
    assert_eq!(state.deletes.get(), 1);
    assert_eq!(*state.deleted.borrow(), vec![(5, "stored".to_string())]);
    assert_eq!(*state.find_tags.borrow(), vec![0]);
}

#[test]
fn failed_delete_is_an_internal_error() {
    let state = State::default();
    let r = delete(Ok(5), DeleteQuery { fail: true }, &state);
    assert!(matches!(r, Reply::Failure(_)));
    assert_eq!(r.status(), 500);
    assert_eq!(r.error_body(), Some("delete failed".to_string()));
    assert_eq!(state.deletes.get(), 1);
}

#[test]
fn update_forwards_the_body_not_the_found_resource() {
    let state = State::default();
    let body = br#"{"id": 5, "content": "from body"}"#;
    let payload = bind_body(body, decode_updatable_item(body));
    let r = update(Ok(5), payload, &state);
    assert_eq!(r.status(), 200);
    match r {
        Reply::Success(u) => {
            assert_eq!(u, UpdatableItem { id: 5, content: "from body".to_string() })
        },
        _ => panic!("expected a success"),
    }
    assert_eq!(*state.updated.borrow(), vec!["from body".to_string()]);
    assert_eq!(state.finds.get(), 1);
    assert_eq!(*state.find_tags.borrow(), vec![0]);
}

#[test]
fn create_echoes_the_saved_fields() {
    let state = State::default();
    let body = br#"{"content": "hello"}"#;
    let payload = bind_body(body, decode_new_item(body));
    let r = http_create::<NewItem, Item, SaveQuery, State>(payload, Ok(SaveQuery {}), &state);
    assert_eq!(r.status(), 200);
    assert_eq!(r.error_body(), None);
    match r {
        Reply::Success(item) => {
            assert_eq!(item.content, "hello");
            let mut map = serde_json::Map::new();
            map.insert("id".to_string(), serde_json::Value::from(item.id));
            map.insert("content".to_string(), serde_json::Value::from(item.content));
            let text = serde_json::Value::Object(map).to_string();
            assert!(text.contains("\"content\":\"hello\""));
        },
        _ => panic!("expected a success"),
    }
    assert_eq!(state.saves.get(), 1);
}

#[test]
fn malformed_body_calls_no_domain_operation() {
    let state = State::default();
    let body = br#"{"content": "#;
    let payload = bind_body(body, decode_new_item(body));
    let r = http_create::<NewItem, Item, SaveQuery, State>(payload, Ok(SaveQuery {}), &state);
    assert!(matches!(r, Reply::Rejected(BindingError::BodyInvalid)));
    assert_eq!(r.status(), 400);
    assert_eq!(state.saves.get(), 0);

    let payload = bind_body(body, decode_updatable_item(body));
    let r = update(Ok(5), payload, &state);
    assert!(matches!(r, Reply::Rejected(BindingError::BodyInvalid)));
    assert_eq!(state.updates.get(), 0);
    assert_eq!(state.finds.get(), 0);

    let empty: &[u8] = b"";
    let payload = bind_body(empty, decode_new_item(empty));
    let r = http_create::<NewItem, Item, SaveQuery, State>(payload, Ok(SaveQuery {}), &state);
    assert!(matches!(r, Reply::Rejected(BindingError::BodyInvalid)));
    assert_eq!(state.saves.get(), 0);
}

#[test]
fn missing_item_scenario_end_to_end() {
    let state = State::default();
    let routes = build_routes("/v1", "item");
    assert_eq!(routes[0].method, Method::Get);
    assert_eq!(routes[0].path, "/v1/item/{id}");
    assert_eq!(routes[0].operation, Operation::Find);
    // `GET /v1/item/42` takes that route, with `42` in place of `{id}`.
    let id = bind_path::<i64>(Some("42"));
    assert_eq!(id, Ok(42));
    let r = find(id, &state);
    assert_eq!(r.status(), 404);
    assert_eq!(r.error_body(), Some("ENTITY_NOT_FOUND".to_string()));
}

#[test]
fn unreadable_identifier_is_rejected_before_find() {
    let state = State::default();
    let r = find(bind_path::<i64>(Some("abc")), &state);
    assert!(matches!(r, Reply::Rejected(BindingError::PathInvalid)));
    assert_eq!(r.status(), 404);
    assert_eq!(state.finds.get(), 0);
}

#[test]
fn list_maps_success_and_failure() {
    let state = State::default();
    let r = http_list::<Item, i64, FindQuery, ListQuery, Vec<i64>, DeleteQuery, Item, State>(
        Ok(ListQuery { fail: false }),
        &state,
    );
    assert!(matches!(r, Reply::Success(ref v) if *v == vec![1, 2]));
    let r = http_list::<Item, i64, FindQuery, ListQuery, Vec<i64>, DeleteQuery, Item, State>(
        Ok(ListQuery { fail: true }),
        &state,
    );
    assert_eq!(r.status(), 500);
    assert_eq!(r.error_body(), Some("list failed".to_string()));
    let r = http_list::<Item, i64, FindQuery, ListQuery, Vec<i64>, DeleteQuery, Item, State>(
        Err(BindingError::QueryInvalid),
        &state,
    );
    assert!(matches!(r, Reply::Rejected(BindingError::QueryInvalid)));
    assert_eq!(r.error_body(), Some("QUERY_INVALID".to_string()));
    assert_eq!(state.lists.get(), 2);
}

#[test]
fn steps_bind_in_argument_order() {
    let r: Next<FindCall<i64, u8>, ()> = find_begin(Err(BindingError::PathInvalid), Err(BindingError::QueryInvalid));
    assert!(matches!(r, Next::Reply(Reply::Rejected(BindingError::PathInvalid))));
    let r: Next<FindCall<i64, u8>, ()> = find_begin(Ok(1), Err(BindingError::QueryInvalid));
    assert!(matches!(r, Next::Reply(Reply::Rejected(BindingError::QueryInvalid))));
    let r: Next<FindCall<i64, u8>, ()> = find_begin(Ok(1), Ok(3));
    assert!(matches!(r, Next::Call(FindCall { id: 1, query: 3 })));
    let r: Next<u8, ()> = list_begin(Ok(4));
    assert!(matches!(r, Next::Call(4)));
    let r = create_begin::<u8, u8, ()>(Err(BindingError::BodyInvalid), Err(BindingError::QueryInvalid));
    assert!(matches!(r, Next::Reply(Reply::Rejected(BindingError::BodyInvalid))));
    let r = update_begin::<i64, u8, u8, u8, ()>(
        Ok(1),
        Ok(Box::new(2)),
        Err(BindingError::QueryInvalid),
        0,
    );
    assert!(matches!(r, Next::Reply(Reply::Rejected(BindingError::QueryInvalid))));
}

#[test]
fn delete_steps_look_up_with_the_default_query() {
    let r = delete_begin::<i64, u8, u8, ()>(Ok(7), Ok(5), 0);
    match r {
        Next::Call((lookup, kept)) => {
            assert_eq!(lookup.id, 7);
            assert_eq!(lookup.query, 0);
            assert_eq!(kept, 5);
        },
        _ => panic!("expected a call"),
    }
    let r = delete_resume::<String, u8, ()>(5, Ok(Box::new("found".to_string())));
    match r {
        Next::Call(call) => {
            assert_eq!(call.resource, "found");
            assert_eq!(call.query, 5);
        },
        _ => panic!("expected a call"),
    }
    let r = delete_resume::<String, u8, ()>(5, Err(anyhow::Error::msg("gone")));
    assert!(matches!(r, Next::Reply(Reply::NotFound)));
}

#[test]
fn update_resume_keeps_the_prepared_call() {
    let prepared = UpdateCall { payload: Box::new("body".to_string()), query: 1u8 };
    let r = update_resume::<String, u8, String, ()>(prepared, Ok(Box::new("found".to_string())));
    match r {
        Next::Call(call) => {
            assert_eq!(*call.payload, "body");
            assert_eq!(call.query, 1);
        },
        _ => panic!("expected a call"),
    }
}

#[test]
fn mappers_follow_the_status_rule() {
    let ok: anyhow::Result<u8> = Ok(1);
    assert_eq!(map_outcome(ok).status(), 200);
    let err: anyhow::Result<u8> = Err(anyhow::Error::msg("boom"));
    let r = map_outcome(err);
    assert_eq!(r.status(), 500);
    assert_eq!(r.error_body(), Some("boom".to_string()));
    let err: anyhow::Result<u8> = Err(anyhow::Error::msg("boom"));
    let r = map_lookup(err);
    assert_eq!(r.status(), 404);
    assert_eq!(r.error_body(), Some("ENTITY_NOT_FOUND".to_string()));
}
