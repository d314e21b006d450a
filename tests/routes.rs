use actix_restful::routes::{build_routes, Method, Operation, Route};

fn table(routes: &[Route]) -> Vec<(Method, String, Operation)> {
    routes.iter().map(|r| (r.method, r.path.clone(), r.operation)).collect()
}

#[test]
fn builds_exactly_five_routes() {
    let routes = build_routes("/v1", "item");
    assert_eq!(
        table(&routes),
        vec![
            (Method::Get, "/v1/item/{id}".to_string(), Operation::Find),
            (Method::Get, "/v1/item".to_string(), Operation::List),
            (Method::Post, "/v1/item".to_string(), Operation::Create),
            (Method::Put, "/v1/item/{id}".to_string(), Operation::Update),
            (Method::Delete, "/v1/item/{id}".to_string(), Operation::Delete),
        ]
    );
}

#[test]
fn joins_with_one_slash_and_keeps_duplicates() {
    let routes = build_routes("/api/", "things");
    assert_eq!(routes.len(), 5);
    assert_eq!(routes[1].path, "/api//things");
    assert_eq!(routes[0].path, "/api//things/{id}");
}
