//! The product endpoints: registering, changing, deleting (by marking the
//! deletion instant) and restoring products, once the database has been
//! read.

use vstd::prelude::*;
use vstd::string::*;
use crate::http::{STATUS_CONFLICT, STATUS_INTERNAL_SERVER_ERROR, STATUS_NOT_FOUND, STATUS_OK};
use crate::model::{Product, ProductDTO, ProductView, opt_view};
use crate::responses::{
    Body, Guard, ProductStoreError, ProductStoreResponse, ProductUpdateResponse, Reply,
    generic_error_reply, is_generic_error,
};
use crate::validation::{ProductStoreRequest, ProductUpdateRequest};

verus! {

/// The product that a registration inserts, in the category found, at `now`.
pub fn product_store_plan(request: &ProductStoreRequest, category_id: i32, now: i64) -> (res: ProductDTO)
    ensures
        res@ == (ProductView {
            sku: request.sku@,
            name: request.name@,
            description: request.description@,
            price: request.price,
            weight: request.weight,
            dimension_height: request.dimension_height,
            dimension_width: request.dimension_width,
            dimension_depth: request.dimension_depth,
            product_category_id: category_id,
            created_at: Some(now),
            updated_at: Some(now),
            deleted_at: None,
        }),
{
    ProductDTO {
        sku: request.sku.clone(),
        name: request.name.clone(),
        description: request.description.clone(),
        price: request.price,
        weight: request.weight,
        dimension_height: request.dimension_height,
        dimension_width: request.dimension_width,
        dimension_depth: request.dimension_depth,
        product_category_id: category_id,
        created_at: Some(now),
        updated_at: Some(now),
        deleted_at: None,
    }
}

/// The `404` reply when the category of a new product does not exist.
pub fn store_category_missing_reply() -> (res: Reply)
    ensures
        is_generic_error(
            res,
            STATUS_NOT_FOUND,
            "Error creating new product!"@,
            "Product category was not found."@,
        ),
{
    generic_error_reply(STATUS_NOT_FOUND, "Error creating new product!", "Product category was not found.")
}

/// The reply to a registration: the stored product, or `409` when the
/// insert failed (`None`), which the handler reads as a repeated code.
pub fn product_store_reply(result: Option<Product>) -> (res: Reply)
    ensures
        res.guard == Guard::Untouched,
        match result {
            Some(p) => res.status == STATUS_OK && (match res.body {
                Body::ProductStored(b) => b.message@ == "Product stored successfully!"@ && b.product == p,
                _ => false,
            }),
            None => res.status == STATUS_CONFLICT && (match res.body {
                Body::ProductStoreFailed(b) => b.message@ == "Error storing product!"@ && b.error@
                    == "Product with same SKU already exists!"@,
                _ => false,
            }),
        },
{
    match result {
        Some(product) => Reply {
            status: STATUS_OK,
            body: Body::ProductStored(
                ProductStoreResponse { message: String::from_str("Product stored successfully!"), product },
            ),
            guard: Guard::Untouched,
        },
        None => Reply {
            status: STATUS_CONFLICT,
            body: Body::ProductStoreFailed(
                ProductStoreError {
                    message: String::from_str("Error storing product!"),
                    error: String::from_str("Product with same SKU already exists!"),
                },
            ),
            guard: Guard::Untouched,
        },
    }
}

/// The operations on one stored product.
pub enum ProductAction {
    Update,
    Delete,
    Restore,
}

/// The message of the replies to an operation that failed.
pub open spec fn failure_message(action: ProductAction) -> Seq<char> {
    match action {
        ProductAction::Update => "Error updating product!"@,
        ProductAction::Delete => "Error deleting product!"@,
        ProductAction::Restore => "Error restoring product!"@,
    }
}

/// The error text of an operation whose write failed.
pub open spec fn write_failure_error(action: ProductAction) -> Seq<char> {
    match action {
        ProductAction::Update => "Internal server error while updating product!"@,
        ProductAction::Delete => "Internal server error while deleting product!"@,
        ProductAction::Restore => "Internal server error while restoring product!"@,
    }
}

/// The message of a successful operation.
pub open spec fn success_message(action: ProductAction) -> Seq<char> {
    match action {
        ProductAction::Update => "Product stored successfully!"@,
        ProductAction::Delete => "Product deleted successfully!"@,
        ProductAction::Restore => "Product restored successfully!"@,
    }
}

/// The `404` reply when the product to operate on is not found.
pub fn product_missing_reply(action: ProductAction) -> (res: Reply)
    ensures
        is_generic_error(res, STATUS_NOT_FOUND, failure_message(action), "Product was not found."@),
{
    match action {
        ProductAction::Update => generic_error_reply(STATUS_NOT_FOUND, "Error updating product!", "Product was not found."),
        ProductAction::Delete => generic_error_reply(STATUS_NOT_FOUND, "Error deleting product!", "Product was not found."),
        ProductAction::Restore => generic_error_reply(STATUS_NOT_FOUND, "Error restoring product!", "Product was not found."),
    }
}

/// The reply once the operation was written: the product as stored, or
/// `500` when the write failed (`None`).
pub fn product_write_reply(action: ProductAction, result: Option<Product>) -> (res: Reply)
    ensures
        match result {
            Some(p) => res.status == STATUS_OK && res.guard == Guard::Untouched && (match res.body {
                Body::ProductChanged(b) => b.message@ == success_message(action) && b.product == p,
                _ => false,
            }),
            None => is_generic_error(
                res,
                STATUS_INTERNAL_SERVER_ERROR,
                failure_message(action),
                write_failure_error(action),
            ),
        },
{
    match result {
        Some(product) => {
            let message = match action {
                ProductAction::Update => "Product stored successfully!",
                ProductAction::Delete => "Product deleted successfully!",
                ProductAction::Restore => "Product restored successfully!",
            };
            Reply {
                status: STATUS_OK,
                body: Body::ProductChanged(
                    ProductUpdateResponse { message: String::from_str(message), product },
                ),
                guard: Guard::Untouched,
            }
        },
        None => match action {
            ProductAction::Update => generic_error_reply(
                STATUS_INTERNAL_SERVER_ERROR,
                "Error updating product!",
                "Internal server error while updating product!",
            ),
            ProductAction::Delete => generic_error_reply(
                STATUS_INTERNAL_SERVER_ERROR,
                "Error deleting product!",
                "Internal server error while deleting product!",
            ),
            ProductAction::Restore => generic_error_reply(
                STATUS_INTERNAL_SERVER_ERROR,
                "Error restoring product!",
                "Internal server error while restoring product!",
            ),
        },
    }
}

/// The product after a change: the fields of the body replace the stored
/// ones where given (the price is never changed), the category is the one
/// found, and the change instant is `now`.
pub open spec fn changed_product(p: ProductView, r: ProductUpdateRequest, category_id: i32, now: i64) -> ProductView {
    ProductView {
        sku: match opt_view(r.sku) {
            Some(s) => s,
            None => p.sku,
        },
        name: match opt_view(r.name) {
            Some(n) => n,
            None => p.name,
        },
        description: match opt_view(r.description) {
            Some(d) => d,
            None => p.description,
        },
        weight: match r.weight {
            Some(w) => w,
            None => p.weight,
        },
        dimension_height: match r.dimension_height {
            Some(h) => h,
            None => p.dimension_height,
        },
        dimension_width: match r.dimension_width {
            Some(w) => w,
            None => p.dimension_width,
        },
        dimension_depth: match r.dimension_depth {
            Some(d) => d,
            None => p.dimension_depth,
        },
        product_category_id: category_id,
        updated_at: Some(now),
        ..p
    }
}

/// The product `q` holds each field that the change `r` gives and the
/// stored one where it gives none (the price is never changed), and keeps
/// its creation and deletion instants.
pub open spec fn takes_given_fields(q: ProductView, p: ProductView, r: ProductUpdateRequest) -> bool {
    &&& q.sku == (match r.sku {
        Some(s) => s@,
        None => p.sku,
    })
    &&& q.name == (match r.name {
        Some(n) => n@,
        None => p.name,
    })
    &&& q.description == (match r.description {
        Some(d) => d@,
        None => p.description,
    })
    &&& q.weight == (match r.weight {
        Some(w) => w,
        None => p.weight,
    })
    &&& q.dimension_height == (match r.dimension_height {
        Some(h) => h,
        None => p.dimension_height,
    })
    &&& q.dimension_width == (match r.dimension_width {
        Some(w) => w,
        None => p.dimension_width,
    })
    &&& q.dimension_depth == (match r.dimension_depth {
        Some(d) => d,
        None => p.dimension_depth,
    })
    &&& q.price == p.price
    &&& q.created_at == p.created_at
    &&& q.deleted_at == p.deleted_at
}

fn replace_text(target: &mut String, value: &Option<String>)
    ensures
        final(target)@ == match opt_view(*value) {
            Some(v) => v,
            None => old(target)@,
        },
{
    match value {
        Some(v) => {
            *target = v.clone();
        },
        None => {},
    }
}

fn replace_bits(target: &mut u32, value: Option<u32>)
    ensures
        *final(target) == match value {
            Some(v) => v,
            None => *old(target),
        },
{
    match value {
        Some(v) => {
            *target = v;
        },
        None => {},
    }
}

/// Works out the change of `product` that an update body asks for, at
/// `now`. When the body names a category, `category_found` is what looking
/// it up found; a category that does not exist is `404`.
pub fn product_update_plan(request: &ProductUpdateRequest, product: &Product, category_found: Option<i32>, now: i64) -> (res: Result<ProductDTO, Reply>)
    ensures
        res matches Ok(dto) ==> takes_given_fields(dto@, product@, *request) && dto@.updated_at == Some(now),
        match request.product_category_id {
            Some(_) => match category_found {
                None => res matches Err(r) && is_generic_error(
                    r,
                    STATUS_NOT_FOUND,
                    "Error updating Category of product!"@,
                    "Product category was not found."@,
                ),
                Some(id) => res matches Ok(dto) && dto@ == changed_product(product@, *request, id, now),
            },
            None => res matches Ok(dto) && dto@ == changed_product(
                product@,
                *request,
                product.product_category_id,
                now,
            ),
        },
{
    let mut dto = ProductDTO::from_product(product);
    replace_text(&mut dto.name, &request.name);
    replace_text(&mut dto.sku, &request.sku);
    replace_bits(&mut dto.weight, request.weight);
    replace_text(&mut dto.description, &request.description);
    replace_bits(&mut dto.dimension_width, request.dimension_width);
    replace_bits(&mut dto.dimension_height, request.dimension_height);
    replace_bits(&mut dto.dimension_depth, request.dimension_depth);
    match request.product_category_id {
        Some(_) => match category_found {
            Some(id) => {
                dto.product_category_id = id;
            },
            None => {
                return Err(
                    generic_error_reply(
                        STATUS_NOT_FOUND,
                        "Error updating Category of product!",
                        "Product category was not found.",
                    ),
                );
            },
        },
        None => {},
    }
    dto.updated_at = Some(now);
    Ok(dto)
}

/// The product marked deleted at `now`.
pub open spec fn deleted_product(p: ProductView, now: i64) -> ProductView {
    ProductView { deleted_at: Some(now), ..p }
}

/// The product with its deletion mark removed.
pub open spec fn restored_product(p: ProductView) -> ProductView {
    ProductView { deleted_at: None, ..p }
}

/// Works out the deletion of `product` at `now`: a product already deleted
/// is `409`; otherwise its deletion instant is set.
pub fn product_delete_plan(product: &Product, now: i64) -> (res: Result<ProductDTO, Reply>)
    ensures
        match product.deleted_at {
            Some(_) => res matches Err(r) && is_generic_error(
                r,
                STATUS_CONFLICT,
                "Error deleting product!"@,
                "Product was already deleted."@,
            ),
            None => res matches Ok(dto) && dto@ == deleted_product(product@, now),
        },
{
    match product.deleted_at {
        Some(_) => Err(
            generic_error_reply(STATUS_CONFLICT, "Error deleting product!", "Product was already deleted."),
        ),
        None => {
            let mut dto = ProductDTO::from_product(product);
            dto.deleted_at = Some(now);
            Ok(dto)
        },
    }
}

/// Works out the restoration of `product`: its deletion mark is removed
/// (whether or not it was deleted).
pub fn product_restore_plan(product: &Product) -> (res: ProductDTO)
    ensures
        res@ == restored_product(product@),
{
    let mut dto = ProductDTO::from_product(product);
    dto.deleted_at = None;
    dto
}

/// Restoring undoes deleting: a product that was not deleted, once deleted
/// and then restored, is back as it was.
pub proof fn restore_undoes_delete(p: ProductView, now: i64)
    requires
        p.deleted_at is None,
    ensures
        restored_product(deleted_product(p, now)) == p,
{
}

/// A change that gives no field only records the change instant.
pub proof fn empty_change_keeps_product(p: ProductView, r: ProductUpdateRequest, now: i64)
    requires
        r.sku is None,
        r.name is None,
        r.description is None,
        r.weight is None,
        r.dimension_height is None,
        r.dimension_width is None,
        r.dimension_depth is None,
    ensures
        changed_product(p, r, p.product_category_id, now) == (ProductView { updated_at: Some(now), ..p }),
{
}

/// A change stores every field that its body gives, in particular a new
/// description and new measures, keeps the others, puts the product in the
/// category given and stamps the change instant.
pub proof fn product_change_stores_given_fields(p: ProductView, r: ProductUpdateRequest, category_id: i32, now: i64)
    ensures
        takes_given_fields(changed_product(p, r, category_id, now), p, r),
        changed_product(p, r, category_id, now).product_category_id == category_id,
        changed_product(p, r, category_id, now).updated_at == Some(now),
        r.description matches Some(d) ==> changed_product(p, r, category_id, now).description == d@,
        r.dimension_depth matches Some(d) ==> changed_product(p, r, category_id, now).dimension_depth == d,
{
}

} // verus!
