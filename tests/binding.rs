use actix_restful::binding::{bind_body, bind_path, bind_query, BindingError, PathId};

#[test]
fn reads_signed_identifiers() {
    assert_eq!(i64::from_segment("42"), Some(42));
    assert_eq!(i64::from_segment("-42"), Some(-42));
    assert_eq!(i64::from_segment("+7"), Some(7));
    assert_eq!(i64::from_segment("007"), Some(7));
    assert_eq!(i64::from_segment("9223372036854775807"), Some(i64::MAX));
    assert_eq!(i64::from_segment("-9223372036854775808"), Some(i64::MIN));
}

#[test]
fn refuses_bad_signed_identifiers() {
    assert_eq!(i64::from_segment(""), None);
    assert_eq!(i64::from_segment("-"), None);
    assert_eq!(i64::from_segment("+"), None);
    assert_eq!(i64::from_segment("4x"), None);
    assert_eq!(i64::from_segment(" 4"), None);
    assert_eq!(i64::from_segment("9223372036854775808"), None);
    assert_eq!(i64::from_segment("-9223372036854775809"), None);
}

#[test]
fn reads_unsigned_identifiers() {
    assert_eq!(u64::from_segment("18446744073709551615"), Some(u64::MAX));
    assert_eq!(u64::from_segment("+3"), Some(3));
    assert_eq!(u64::from_segment("18446744073709551616"), None);
    assert_eq!(u64::from_segment("-1"), None);
    assert_eq!(u64::from_segment("-0"), None);
}

#[test]
fn reads_text_identifiers() {
    assert_eq!(String::from_segment("abc"), Some("abc".to_string()));
    assert_eq!(String::from_segment(""), None);
}

#[test]
fn path_binder_reports_path_invalid() {
    assert_eq!(bind_path::<i64>(Some("12")), Ok(12));
    assert_eq!(bind_path::<i64>(Some("twelve")), Err(BindingError::PathInvalid));
    assert_eq!(bind_path::<i64>(None), Err(BindingError::PathInvalid));
}

#[test]
fn query_binder_reports_query_invalid() {
    assert_eq!(bind_query::<u8, ()>(Ok(3)), Ok(3));
    assert_eq!(bind_query::<u8, ()>(Err(())), Err(BindingError::QueryInvalid));
}

#[test]
fn body_binder_reports_body_invalid() {
    assert_eq!(bind_body::<u8, ()>(b"3", Ok(3)), Ok(Box::new(3)));
    assert_eq!(bind_body::<u8, ()>(b"", Ok(3)), Err(BindingError::BodyInvalid));
    assert_eq!(bind_body::<u8, ()>(b"{", Err(())), Err(BindingError::BodyInvalid));
}

#[test]
fn binding_errors_have_fixed_replies() {
    assert_eq!(BindingError::PathInvalid.status(), 404);
    assert_eq!(BindingError::PathInvalid.message(), "ENTITY_NOT_FOUND");
    assert_eq!(BindingError::QueryInvalid.status(), 400);
    assert_eq!(BindingError::QueryInvalid.message(), "QUERY_INVALID");
    assert_eq!(BindingError::BodyInvalid.status(), 400);
    assert_eq!(BindingError::BodyInvalid.message(), "BODY_INVALID");
}
