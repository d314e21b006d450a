use actix_restful::attributes::{
    actix_restful_info, http_create, http_find_list_delete, http_update, parse_type_list,
};
use actix_restful::descriptor::{Attribute, DescriptorError, ResourceDescriptor};
use actix_restful::routes::{Method, Operation};

#[test]
fn parses_type_lists() {
    assert_eq!(
        parse_type_list("(Id, FindQuery,ListQuery )"),
        Some(vec!["Id".to_string(), "FindQuery".to_string(), "ListQuery".to_string()])
    );
    assert_eq!(parse_type_list("  (\n  i64 ,\tT_2\n)  "), Some(vec!["i64".to_string(), "T_2".to_string()]));
}

#[test]
fn refuses_bad_type_lists() {
    assert_eq!(parse_type_list("Id, FindQuery"), None);
    assert_eq!(parse_type_list("()"), None);
    assert_eq!(parse_type_list("(A,)"), None);
    assert_eq!(parse_type_list("(A,,B)"), None);
    assert_eq!(parse_type_list("(A B)"), None);
    assert_eq!(parse_type_list("(1A)"), None);
    assert_eq!(parse_type_list("(_)"), None);
    assert_eq!(parse_type_list("(a::B)"), None);
    assert_eq!(parse_type_list("(A"), None);
}

#[test]
fn parses_find_list_delete_attribute() {
    let a = http_find_list_delete("(Id, FindQuery, ListQuery, DeleteQuery, AppState)").unwrap();
    assert_eq!(a.id, "Id");
    assert_eq!(a.find_query, "FindQuery");
    assert_eq!(a.list_query, "ListQuery");
    assert_eq!(a.delete_query, "DeleteQuery");
    assert_eq!(a.app_state, "AppState");
    assert_eq!(
        http_find_list_delete("(Id, FindQuery, ListQuery, DeleteQuery)").err(),
        Some(DescriptorError::Malformed(Attribute::FindListDelete))
    );
}

#[test]
fn parses_create_attribute() {
    let a = http_create("(SaveQuery, AppState)").unwrap();
    assert_eq!(a.query, "SaveQuery");
    assert_eq!(a.app_state, "AppState");
    assert_eq!(http_create("(SaveQuery)").err(), Some(DescriptorError::Malformed(Attribute::Create)));
}

#[test]
fn parses_update_attribute() {
    let a = http_update("(Id, UpdateQuery, Item, FindQuery, AppState)").unwrap();
    assert_eq!(a.id, "Id");
    assert_eq!(a.query, "UpdateQuery");
    assert_eq!(a.output, "Item");
    assert_eq!(a.find_query, "FindQuery");
    assert_eq!(a.app_state, "AppState");
    assert_eq!(
        http_update("(Id, UpdateQuery, Item, FindQuery, AppState, More)").err(),
        Some(DescriptorError::Malformed(Attribute::Update))
    );
}

#[test]
fn parses_route_information() {
    let info = actix_restful_info("scope = \"/v1\", path = \"item\"").unwrap();
    assert_eq!(info.scope, "/v1");
    assert_eq!(info.path, "item");
    let info = actix_restful_info(" path=\"a,b\" ,scope = \"/x\", ").unwrap();
    assert_eq!(info.scope, "/x");
    assert_eq!(info.path, "a,b");
}

#[test]
fn refuses_bad_route_information() {
    let malformed = Some(DescriptorError::Malformed(Attribute::RestfulInfo));
    assert_eq!(actix_restful_info("scope = \"/v1\" path = \"item\"").err(), malformed);
    assert_eq!(actix_restful_info("scope = /v1").err(), malformed);
    assert_eq!(actix_restful_info("scope = \"/v1").err(), malformed);
    assert_eq!(actix_restful_info(", scope = \"/v1\"").err(), malformed);
    assert_eq!(actix_restful_info(",").err(), malformed);
    assert_eq!(actix_restful_info("scope = \"a\\\"b\", path = \"x\"").err(), malformed);
    assert_eq!(
        actix_restful_info("scope = \"/v1\", name = \"item\"").err(),
        Some(DescriptorError::UnknownField)
    );
    assert_eq!(
        actix_restful_info("scope = \"/v1\", scope = \"/v2\", path = \"item\"").err(),
        Some(DescriptorError::DuplicateField)
    );
    assert_eq!(actix_restful_info("scope = \"/v1\"").err(), Some(DescriptorError::MissingField));
    assert_eq!(actix_restful_info("").err(), Some(DescriptorError::MissingField));
    assert_eq!(
        actix_restful_info("scope = \"/v1\", path = \"\"").err(),
        Some(DescriptorError::EmptyField)
    );
}

fn item_descriptor(update: &str, info: &str) -> Result<ResourceDescriptor, DescriptorError> {
    ResourceDescriptor::parse(
        "Item",
        "(Id, FindQuery, ListQuery, DeleteQuery, AppState)",
        "(SaveQuery, AppState)",
        update,
        info,
    )
}

#[test]
fn builds_a_descriptor() {
    let d = item_descriptor(
        "(Id, UpdateQuery, Item, FindQuery, AppState)",
        "scope = \"/v1\", path = \"item\"",
    )
    .unwrap();
    assert_eq!(d.resource, "Item");
    assert_eq!(d.identifier_type, "Id");
    assert_eq!(d.find_query_type, "FindQuery");
    assert_eq!(d.list_query_type, "ListQuery");
    assert_eq!(d.delete_query_type, "DeleteQuery");
    assert_eq!(d.create_query_type, "SaveQuery");
    assert_eq!(d.update_query_type, "UpdateQuery");
    assert_eq!(d.app_state, "AppState");
    assert_eq!(d.collection_path(), "/v1/item");
    let routes = d.routes();
    assert_eq!(routes.len(), 5);
    assert_eq!(routes[0].method, Method::Get);
    assert_eq!(routes[0].path, "/v1/item/{id}");
    assert_eq!(routes[0].operation, Operation::Find);
    assert_eq!(routes[4].method, Method::Delete);
}

#[test]
fn refuses_inconsistent_descriptors() {
    let info = "scope = \"/v1\", path = \"item\"";
    assert_eq!(
        item_descriptor("(Id, UpdateQuery, Other, FindQuery, AppState)", info).err(),
        Some(DescriptorError::Inconsistent)
    );
    assert_eq!(
        item_descriptor("(u64, UpdateQuery, Item, FindQuery, AppState)", info).err(),
        Some(DescriptorError::Inconsistent)
    );
    assert_eq!(
        item_descriptor("(Id, UpdateQuery, Item, OtherQuery, AppState)", info).err(),
        Some(DescriptorError::Inconsistent)
    );
    assert_eq!(
        item_descriptor("(Id, UpdateQuery, Item, FindQuery, OtherState)", info).err(),
        Some(DescriptorError::Inconsistent)
    );
}

#[test]
fn reports_the_first_fault() {
    assert_eq!(
        ResourceDescriptor::parse("1tem", "()", "()", "()", "").err(),
        Some(DescriptorError::Malformed(Attribute::Resource))
    );
    assert_eq!(
        item_descriptor("(Id, UpdateQuery, Item)", "scope = \"/v1\", path = \"item\"").err(),
        Some(DescriptorError::Malformed(Attribute::Update))
    );
    assert_eq!(
        item_descriptor("(Id, UpdateQuery, Item, FindQuery, AppState)", "scope = \"/v1\"").err(),
        Some(DescriptorError::MissingField)
    );
}

#[test]
fn refuses_keywords_as_type_names() {
    assert_eq!(
        http_find_list_delete("(fn, A, B, C, D)").err(),
        Some(DescriptorError::Malformed(Attribute::FindListDelete))
    );
    assert_eq!(parse_type_list("(struct)"), None);
    assert_eq!(parse_type_list("(Self)"), None);
    assert_eq!(parse_type_list("(self)"), None);
    assert_eq!(parse_type_list("(type)"), None);
    assert_eq!(parse_type_list("(where)"), None);
    assert_eq!(parse_type_list("(extern)"), None);
    assert_eq!(parse_type_list("(yield)"), None);
    assert_eq!(
        http_create("(SaveQuery, impl)").err(),
        Some(DescriptorError::Malformed(Attribute::Create))
    );
    assert_eq!(
        ResourceDescriptor::parse("enum", "()", "()", "()", "").err(),
        Some(DescriptorError::Malformed(Attribute::Resource))
    );
}

#[test]
fn accepts_words_near_keywords() {
    assert_eq!(
        parse_type_list("(Fn, types, self_, externs, _x)"),
        Some(vec![
            "Fn".to_string(),
            "types".to_string(),
            "self_".to_string(),
            "externs".to_string(),
            "_x".to_string()
        ])
    );
}

#[test]
fn accepts_raw_identifiers() {
    assert_eq!(
        parse_type_list("(r#type, r#Foo)"),
        Some(vec!["r#type".to_string(), "r#Foo".to_string()])
    );
    assert_eq!(parse_type_list("(r#self)"), None);
    assert_eq!(parse_type_list("(r#crate)"), None);
    assert_eq!(parse_type_list("(r#_)"), None);
    assert_eq!(parse_type_list("(r#)"), None);
    assert_eq!(parse_type_list("(r#1a)"), None);
}
