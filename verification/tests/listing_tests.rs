use actix_jwt_api::listing::{
    pagination, product_index_query, product_index_reply, unknown_category_reply,
    user_index_query, user_index_reply, Paging, ProductFilterRequest, UserFilterRequest,
};
use actix_jwt_api::model::UserDTOMin;
use actix_jwt_api::responses::Body;

fn window(p: Option<Paging>) -> Option<(i64, i64)> {
    match p {
        Some(Paging::Window { limit, offset }) => Some((limit, offset)),
        _ => None,
    }
}

#[test]
fn without_a_page_every_row_is_listed() {
    assert!(matches!(pagination(None, None), Some(Paging::All)));
    assert!(matches!(pagination(None, Some(10)), Some(Paging::All)));
}

#[test]
fn pages_default_to_five_rows() {
    assert_eq!(window(pagination(Some(1), None)), Some((5, 0)));
    assert_eq!(window(pagination(Some(3), None)), Some((5, 10)));
    assert_eq!(window(pagination(Some(3), Some(10))), Some((10, 20)));
}

#[test]
fn consecutive_pages_are_adjacent() {
    for p in 1..20u32 {
        let (l1, o1) = window(pagination(Some(p), Some(7))).unwrap();
        let (l2, o2) = window(pagination(Some(p + 1), Some(7))).unwrap();
        assert_eq!(l1, l2);
        assert_eq!(o2, o1 + l1);
    }
}

#[test]
fn page_zero_and_huge_offsets_cannot_be_listed() {
    assert!(pagination(Some(0), None).is_none());
    assert!(pagination(Some(u32::MAX), Some(2)).is_none());
    assert_eq!(window(pagination(Some(2), Some(u32::MAX))), Some((u32::MAX as i64, u32::MAX as i64)));
}

#[test]
fn user_filters_become_patterns() {
    let r = UserFilterRequest {
        page: None,
        per_page: None,
        id: Some(4),
        name: Some("ful".to_string()),
        email: None,
        created_at: Some(1),
        updated_at: None,
        deleted_at: None,
    };
    let q = user_index_query(&r);
    assert_eq!(q.id, Some(4));
    assert_eq!(q.name_like.as_deref(), Some("%ful%"));
    assert!(q.email_like.is_none());
}

#[test]
fn product_filters_keep_code_and_width() {
    let r = ProductFilterRequest {
        id: None,
        sku: Some("CHR-1".to_string()),
        name: None,
        description: Some("oak".to_string()),
        price: Some(1.0f32.to_bits()),
        weight: None,
        dimension_height: None,
        dimension_width: Some(0.5f32.to_bits()),
        dimension_depth: None,
        product_category: Some("Furniture".to_string()),
        per_page: None,
        page: None,
    };
    let q = product_index_query(&r);
    assert_eq!(q.sku.as_deref(), Some("CHR-1"));
    assert_eq!(q.description_like.as_deref(), Some("%oak%"));
    assert!(q.name_like.is_none());
    assert_eq!(q.min_dimension_width.map(f32::from_bits), Some(0.5));
    assert_eq!(q.category_name.as_deref(), Some("Furniture"));
}

#[test]
fn listing_replies() {
    let users = vec![UserDTOMin { name: "a".to_string(), email: "a@b.c".to_string(), created_at: None, updated_at: None, deleted_at: None }];
    let r = user_index_reply(Some(users), Some(1), None);
    assert_eq!(r.status, 200);
    assert!(matches!(r.body, Body::UserPage(ref b) if b.users.len() == 1 && b.current_page == Some(1) && b.per_page.is_none()));
    let r = user_index_reply(None, None, None);
    assert_eq!(r.status, 500);
    assert!(matches!(r.body, Body::Error(ref e) if e.message == "Error querying users on DB!"));
    let r = product_index_reply(Some(Vec::new()), None, Some(3));
    assert!(matches!(r.body, Body::ProductPage(ref b) if b.products.is_empty() && b.per_page == Some(3)));
    let r = product_index_reply(None, None, None);
    assert!(matches!(r.body, Body::Error(ref e) if e.error == "Internal Server error while querying products."));
    let r = unknown_category_reply();
    assert_eq!(r.status, 400);
    assert!(matches!(r.body, Body::Error(ref e) if e.error == "Product Category do not exists."));
}
