use actix_jwt_api::model::Product;
use actix_jwt_api::products::{
    product_delete_plan, product_missing_reply, product_restore_plan, product_store_plan,
    product_store_reply, product_update_plan, product_write_reply, store_category_missing_reply,
    ProductAction,
};
use actix_jwt_api::responses::{Body, Reply};
use actix_jwt_api::validation::{ProductStoreRequest, ProductUpdateRequest};

fn product(deleted_at: Option<i64>) -> Product {
    Product {
        id: 3,
        sku: "CHR-1".to_string(),
        name: "Chair".to_string(),
        description: "A chair".to_string(),
        price: 10.5f32.to_bits(),
        weight: 3.0f32.to_bits(),
        dimension_height: 1.0f32.to_bits(),
        dimension_width: 0.5f32.to_bits(),
        dimension_depth: 0.25f32.to_bits(),
        product_category_id: 4,
        created_at: Some(1),
        updated_at: Some(2),
        deleted_at,
    }
}

fn empty_update() -> ProductUpdateRequest {
    ProductUpdateRequest {
        sku: None,
        name: None,
        description: None,
        price: None,
        weight: None,
        dimension_height: None,
        dimension_width: None,
        dimension_depth: None,
        product_category_id: None,
    }
}

fn generic_error(r: &Reply) -> (String, String) {
    match &r.body {
        Body::Error(b) => (b.message.clone(), b.error.clone()),
        _ => panic!("expected a generic error body"),
    }
}

#[test]
fn registration_uses_the_category_found() {
    let r = ProductStoreRequest {
        sku: "TBL-9".to_string(),
        name: "Table".to_string(),
        description: "Oak".to_string(),
        price: 99.0f32.to_bits(),
        weight: 20.0f32.to_bits(),
        dimension_height: 0.8f32.to_bits(),
        dimension_width: 1.6f32.to_bits(),
        dimension_depth: 0.9f32.to_bits(),
        product_category_id: 12,
    };
    let dto = product_store_plan(&r, 4, 50);
    assert_eq!(dto.sku, "TBL-9");
    assert_eq!(dto.product_category_id, 4);
    assert_eq!(f32::from_bits(dto.price), 99.0);
    assert_eq!(dto.created_at, Some(50));
    assert_eq!(dto.updated_at, Some(50));
    assert!(dto.deleted_at.is_none());
}

#[test]
fn product_registration_replies() {
    let r = product_store_reply(Some(product(None)));
    assert_eq!(r.status, 200);
    assert!(matches!(r.body, Body::ProductStored(ref b) if b.product.id == 3 && b.message == "Product stored successfully!"));
    let r = product_store_reply(None);
    assert_eq!(r.status, 409);
    assert!(matches!(r.body, Body::ProductStoreFailed(ref b) if b.error == "Product with same SKU already exists!"));
    let r = store_category_missing_reply();
    assert_eq!(r.status, 404);
    assert_eq!(generic_error(&r), ("Error creating new product!".to_string(), "Product category was not found.".to_string()));
}

#[test]
fn change_replaces_given_fields_but_never_the_price() {
    let req = ProductUpdateRequest {
        name: Some("Armchair".to_string()),
        price: Some(1.0f32.to_bits()),
        weight: Some(4.5f32.to_bits()),
        ..empty_update()
    };
    let dto = product_update_plan(&req, &product(None), None, 9).ok().unwrap();
    assert_eq!(dto.name, "Armchair");
    assert_eq!(dto.sku, "CHR-1");
    assert_eq!(f32::from_bits(dto.weight), 4.5);
    assert_eq!(f32::from_bits(dto.price), 10.5);
    assert_eq!(dto.product_category_id, 4);
    assert_eq!(dto.updated_at, Some(9));
}

#[test]
fn change_of_category_needs_an_existing_one() {
    let req = ProductUpdateRequest { product_category_id: Some(8), ..empty_update() };
    let dto = product_update_plan(&req, &product(None), Some(8), 9).ok().unwrap();
    assert_eq!(dto.product_category_id, 8);
    let r = product_update_plan(&req, &product(None), None, 9).err().unwrap();
    assert_eq!(r.status, 404);
    assert_eq!(generic_error(&r), ("Error updating Category of product!".to_string(), "Product category was not found.".to_string()));
}

#[test]
fn empty_change_only_touches_the_instant() {
    let dto = product_update_plan(&empty_update(), &product(None), None, 9).ok().unwrap();
    let p = product(None);
    assert_eq!((dto.sku, dto.name, dto.description), (p.sku, p.name, p.description));
    assert_eq!(dto.updated_at, Some(9));
    assert_eq!(dto.created_at, p.created_at);
}

#[test]
fn deletion_marks_and_refuses_twice() {
    let dto = product_delete_plan(&product(None), 30).ok().unwrap();
    assert_eq!(dto.deleted_at, Some(30));
    let r = product_delete_plan(&product(Some(30)), 31).err().unwrap();
    assert_eq!(r.status, 409);
    assert_eq!(generic_error(&r), ("Error deleting product!".to_string(), "Product was already deleted.".to_string()));
}

#[test]
fn restoring_undoes_deleting() {
    let p = product(None);
    let deleted = product_delete_plan(&p, 30).ok().unwrap();
    let stored = Product { deleted_at: deleted.deleted_at, ..product(None) };
    let restored = product_restore_plan(&stored);
    assert_eq!(restored.deleted_at, None);
    assert_eq!(restored.updated_at, p.updated_at);
    assert_eq!(restored.sku, p.sku);
}

#[test]
fn operation_replies() {
    let r = product_missing_reply(ProductAction::Restore);
    assert_eq!(r.status, 404);
    assert_eq!(generic_error(&r), ("Error restoring product!".to_string(), "Product was not found.".to_string()));
    let r = product_write_reply(ProductAction::Delete, Some(product(Some(1))));
    assert_eq!(r.status, 200);
    assert!(matches!(r.body, Body::ProductChanged(ref b) if b.message == "Product deleted successfully!"));
    let r = product_write_reply(ProductAction::Update, Some(product(None)));
    assert!(matches!(r.body, Body::ProductChanged(ref b) if b.message == "Product stored successfully!"));
    let r = product_write_reply(ProductAction::Update, None);
    assert_eq!(r.status, 500);
    assert_eq!(generic_error(&r), ("Error updating product!".to_string(), "Internal server error while updating product!".to_string()));
}
