use device_gateway::auth::{get_jwt_header, JWTAuth, Pagination};
use jwt::AlgorithmType;

#[test]
fn jwt_header_names_hs256_and_nothing_else() {
    let header = get_jwt_header();
    assert_eq!(header.algorithm, AlgorithmType::Hs256);
    assert!(header.key_id.is_none());
    assert!(header.type_.is_none());
    assert!(header.content_type.is_none());
    assert_eq!(header, jwt::Header::default());
}

#[test]
fn claims_and_pagination_are_plain_values() {
    let claims = JWTAuth {
        email: "a@b.c".to_string(),
        firstname: "Ada".to_string(),
        lastname: "Byron".to_string(),
        id: 3,
    };
    let copy = claims.clone();
    assert_eq!(copy.email, "a@b.c");
    assert_eq!(copy.firstname, "Ada");
    assert_eq!(copy.lastname, "Byron");
    assert_eq!(copy.id, 3);
    let page = Pagination { skip: Some(10), take: None };
    assert_eq!(page, Pagination { skip: Some(10), take: None });
    assert_ne!(page, Pagination { skip: None, take: None });
}
