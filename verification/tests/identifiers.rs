use smart_erp::auth::{bearer_token, check_access, decide_access, AccessDenied};
use smart_erp::error::Error;
use smart_erp::ident::{format_id, parse_id, tenant_from_parsed, tenant_id_from_header};

const ID: u128 = 0x550e8400_e29b_41d4_a716_446655440000;

#[test]
fn identifiers_are_read_from_text() {
    assert_eq!(parse_id("550e8400-e29b-41d4-a716-446655440000"), Some(ID));
    assert_eq!(parse_id("550e8400e29b41d4a716446655440000"), Some(ID));
    assert_eq!(parse_id("550E8400-E29B-41D4-A716-446655440000"), Some(ID));
    assert_eq!(parse_id(""), None);
    assert_eq!(parse_id("not an identifier"), None);
    assert_eq!(parse_id("550e8400-e29b-41d4-a716-44665544000"), None);
}

#[test]
fn identifiers_are_written_as_text() {
    assert_eq!(format_id(ID), "550e8400-e29b-41d4-a716-446655440000");
    assert_eq!(format_id(0), "00000000-0000-0000-0000-000000000000");
    assert_eq!(parse_id(&format_id(u128::MAX)), Some(u128::MAX));
}

#[test]
fn the_tenant_comes_from_the_header() {
    assert_eq!(tenant_id_from_header(Some("550e8400-e29b-41d4-a716-446655440000")), Ok(ID));
    let missing = tenant_id_from_header(None).unwrap_err();
    assert_eq!(missing, Error::Validation("Missing or invalid x-tenant-id header".to_string()));
    let unreadable = tenant_id_from_header(Some("tenant-1")).unwrap_err();
    assert_eq!(unreadable, Error::Validation("Missing or invalid x-tenant-id header".to_string()));
    assert_eq!(tenant_from_parsed(Some(Some(5))), Ok(5));
    assert!(tenant_from_parsed(Some(None)).is_err());
    assert!(tenant_from_parsed(None).is_err());
}

#[test]
fn the_token_follows_the_word_bearer() {
    assert_eq!(bearer_token("Bearer abc.def.ghi"), Some("abc.def.ghi".to_string()));
    assert_eq!(bearer_token("Bearer "), Some(String::new()));
    assert_eq!(bearer_token("Bearer"), None);
    assert_eq!(bearer_token("bearer abc"), None);
    assert_eq!(bearer_token("Basic abc"), None);
    assert_eq!(bearer_token(""), None);
    assert_eq!(bearer_token("Bearer übergröße"), Some("übergröße".to_string()));
}

#[test]
fn token_and_tenant_must_belong_together() {
    let header = "550e8400-e29b-41d4-a716-446655440000";
    assert_eq!(check_access(Some(ID), Some(header)), Ok(ID));
    assert_eq!(check_access(None, Some(header)), Err(AccessDenied::Unauthorized));
    assert_eq!(check_access(None, None), Err(AccessDenied::Unauthorized));
    assert_eq!(check_access(Some(ID), None), Err(AccessDenied::BadRequest));
    assert_eq!(check_access(Some(ID), Some("nonsense")), Err(AccessDenied::BadRequest));
    assert_eq!(check_access(Some(ID + 1), Some(header)), Err(AccessDenied::Forbidden));
    assert_eq!(decide_access(Some(1), Some(2)), Err(AccessDenied::Forbidden));
    assert_eq!(AccessDenied::Unauthorized.status(), 401);
    assert_eq!(AccessDenied::BadRequest.status(), 400);
    assert_eq!(AccessDenied::Forbidden.status(), 403);
}
