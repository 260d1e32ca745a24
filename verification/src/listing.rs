//! Listings: the filters and the page that a listing query asks for, and
//! the replies to it.

use vstd::prelude::*;
use vstd::string::*;
use crate::http::{STATUS_BAD_REQUEST, STATUS_INTERNAL_SERVER_ERROR, STATUS_OK};
use crate::model::{Product, UserDTOMin, clone_opt_string, opt_view};
use crate::responses::{
    Body, Guard, ProductIndexResponse, Reply, UserIndexResponse, generic_error_reply,
    is_generic_error,
};

verus! {

/// Rows per page when the query gives a page but no size.
pub const DEFAULT_PER_PAGE: u32 = 5;

/// Which rows a listing returns.
pub enum Paging {
    /// Every row.
    All,
    /// At most `limit` rows, after skipping `offset` rows.
    Window { limit: i64, offset: i64 },
}

/// The page that `page` and `per_page` ask for: every row without a page;
/// otherwise `per_page` rows (five by default) after the rows of the
/// earlier pages. `None` where the handler cannot compute it: page zero, or
/// an offset beyond `u32`.
pub open spec fn paging_spec(page: Option<u32>, per_page: Option<u32>) -> Option<Paging> {
    match page {
        None => Some(Paging::All),
        Some(p) => {
            let size: u32 = match per_page {
                Some(n) => n,
                None => DEFAULT_PER_PAGE,
            };
            if p == 0 || (p - 1) * size > u32::MAX {
                None
            } else {
                Some(Paging::Window { limit: size as i64, offset: ((p - 1) * size) as i64 })
            }
        },
    }
}

/// Computes the page that a listing asks for.
pub fn pagination(page: Option<u32>, per_page: Option<u32>) -> (res: Option<Paging>)
    ensures
        res == paging_spec(page, per_page),
{
    match page {
        None => Some(Paging::All),
        Some(p) => {
            let size: u32 = match per_page {
                Some(n) => n,
                None => DEFAULT_PER_PAGE,
            };
            if p == 0 {
                return None;
            }
            let before: u64 = (p - 1) as u64;
            assert(before * size <= u32::MAX * u32::MAX) by (nonlinear_arith)
                requires
                    before <= u32::MAX,
                    size <= u32::MAX,
            ;
            let offset: u64 = before * (size as u64);
            if offset > u32::MAX as u64 {
                return None;
            }
            Some(Paging::Window { limit: size as i64, offset: offset as i64 })
        },
    }
}

/// Pages follow each other without gap or overlap: page `p + 1` starts
/// where page `p` ends.
pub proof fn pages_are_adjacent(p: u32, per_page: Option<u32>)
    requires
        p >= 1,
        p < u32::MAX,
        paging_spec(Some((p + 1) as u32), per_page) is Some,
    ensures
        paging_spec(Some(p), per_page) is Some,
        paging_spec(Some(p), per_page) matches Some(Paging::Window { limit: l1, offset: o1 })
            && paging_spec(Some((p + 1) as u32), per_page) matches Some(
            Paging::Window { limit: l2, offset: o2 },
        ) && l1 == l2 && o2 == o1 + l1,
{
    let size: u32 = match per_page {
        Some(n) => n,
        None => DEFAULT_PER_PAGE,
    };
    assert((p - 1) * size <= p * size) by (nonlinear_arith)
        requires
            p >= 1,
    ;
    assert(p * size == (p - 1) * size + size) by (nonlinear_arith);
}

/// `%text%`, the pattern that matches any value containing `text`.
pub open spec fn like_pattern(text: Seq<char>) -> Seq<char> {
    "%"@ + text + "%"@
}

fn contains_pattern(text: &str) -> (res: String)
    ensures
        res@ == like_pattern(text@),
{
    let mut p = String::from_str("%");
    p.append(text);
    p.append("%");
    p
}

fn opt_contains_pattern(text: &Option<String>) -> (res: Option<String>)
    ensures
        opt_view(res) == match text {
            Some(t) => Some(like_pattern(t@)),
            None => None,
        },
{
    match text {
        Some(t) => Some(contains_pattern(t.as_str())),
        None => None,
    }
}

/// The query string of the user listing. The instants are accepted but do
/// not filter.
pub struct UserFilterRequest {
    pub page: Option<u32>,
    pub per_page: Option<u32>,
    pub id: Option<i32>,
    pub name: Option<String>,
    pub email: Option<String>,
    pub created_at: Option<i64>,
    pub updated_at: Option<i64>,
    pub deleted_at: Option<i64>,
}

/// The filters of the user listing; it only ever lists users that are not
/// deleted.
pub struct UserIndexQuery {
    /// The id must equal this.
    pub id: Option<i32>,
    /// The name must match this pattern.
    pub name_like: Option<String>,
    /// The e-mail must match this pattern.
    pub email_like: Option<String>,
}

/// Builds the filters of the user listing: the id as given, the name and
/// the e-mail as contain-patterns.
pub fn user_index_query(request: &UserFilterRequest) -> (res: UserIndexQuery)
    ensures
        res.id == request.id,
        opt_view(res.name_like) == match request.name {
            Some(t) => Some(like_pattern(t@)),
            None => None,
        },
        opt_view(res.email_like) == match request.email {
            Some(t) => Some(like_pattern(t@)),
            None => None,
        },
{
    UserIndexQuery {
        id: request.id,
        name_like: opt_contains_pattern(&request.name),
        email_like: opt_contains_pattern(&request.email),
    }
}

/// The reply to a user listing: the page of users, or `500` when the query
/// failed (`None`).
pub fn user_index_reply(users: Option<Vec<UserDTOMin>>, page: Option<u32>, per_page: Option<u32>) -> (res: Reply)
    ensures
        match users {
            Some(found) => res.status == STATUS_OK && res.guard == Guard::Untouched && (match res.body {
                Body::UserPage(b) => b.message@ == "Query users gone successfully!"@ && b.users == found
                    && b.current_page == page && b.per_page == per_page,
                _ => false,
            }),
            None => is_generic_error(
                res,
                STATUS_INTERNAL_SERVER_ERROR,
                "Error querying users on DB!"@,
                "Internal Server error while "@,
            ),
        },
{
    match users {
        Some(found) => Reply {
            status: STATUS_OK,
            body: Body::UserPage(
                UserIndexResponse {
                    message: String::from_str("Query users gone successfully!"),
                    users: found,
                    current_page: page,
                    per_page,
                },
            ),
            guard: Guard::Untouched,
        },
        None => generic_error_reply(
            STATUS_INTERNAL_SERVER_ERROR,
            "Error querying users on DB!",
            "Internal Server error while ",
        ),
    }
}

/// The query string of the product listing; the measures are `f32` bit
/// patterns.
pub struct ProductFilterRequest {
    pub id: Option<i32>,
    pub sku: Option<String>,
    pub name: Option<String>,
    pub description: Option<String>,
    pub price: Option<u32>,
    pub weight: Option<u32>,
    pub dimension_height: Option<u32>,
    pub dimension_width: Option<u32>,
    pub dimension_depth: Option<u32>,
    pub product_category: Option<String>,
    pub per_page: Option<u32>,
    pub page: Option<u32>,
}

/// The filters of the product listing; it only ever lists products that are
/// not deleted.
pub struct ProductIndexQuery {
    /// The id must equal this.
    pub id: Option<i32>,
    /// The name must match this pattern.
    pub name_like: Option<String>,
    /// The product code must equal this.
    pub sku: Option<String>,
    /// The description must match this pattern.
    pub description_like: Option<String>,
    /// The width must be at least the `f32` with these bits.
    pub min_dimension_width: Option<u32>,
    /// The category must be the one with this name (to be looked up).
    pub category_name: Option<String>,
}

/// Builds the filters of the product listing: the id, the product code and
/// the least width as given, the name and the description as
/// contain-patterns, and the category's name to look up. Price, weight,
/// height and depth do not filter.
pub fn product_index_query(request: &ProductFilterRequest) -> (res: ProductIndexQuery)
    ensures
        res.id == request.id,
        opt_view(res.name_like) == match request.name {
            Some(t) => Some(like_pattern(t@)),
            None => None,
        },
        opt_view(res.sku) == opt_view(request.sku),
        opt_view(res.description_like) == match request.description {
            Some(t) => Some(like_pattern(t@)),
            None => None,
        },
        res.min_dimension_width == request.dimension_width,
        opt_view(res.category_name) == opt_view(request.product_category),
{
    ProductIndexQuery {
        id: request.id,
        name_like: opt_contains_pattern(&request.name),
        sku: clone_opt_string(&request.sku),
        description_like: opt_contains_pattern(&request.description),
        min_dimension_width: request.dimension_width,
        category_name: clone_opt_string(&request.product_category),
    }
}

/// The `400` reply when the category asked for does not exist.
pub fn unknown_category_reply() -> (res: Reply)
    ensures
        is_generic_error(
            res,
            STATUS_BAD_REQUEST,
            "Bad Request querying Products!"@,
            "Product Category do not exists."@,
        ),
{
    generic_error_reply(STATUS_BAD_REQUEST, "Bad Request querying Products!", "Product Category do not exists.")
}

/// The reply to a product listing: the page of products, or `500` when the
/// query failed (`None`).
pub fn product_index_reply(products: Option<Vec<Product>>, page: Option<u32>, per_page: Option<u32>) -> (res: Reply)
    ensures
        match products {
            Some(found) => res.status == STATUS_OK && res.guard == Guard::Untouched && (match res.body {
                Body::ProductPage(b) => b.message@ == "Query products gone successfully!"@ && b.products
                    == found && b.current_page == page && b.per_page == per_page,
                _ => false,
            }),
            None => is_generic_error(
                res,
                STATUS_INTERNAL_SERVER_ERROR,
                "Error querying products on DB!"@,
                "Internal Server error while querying products."@,
            ),
        },
{
    match products {
        Some(found) => Reply {
            status: STATUS_OK,
            body: Body::ProductPage(
                ProductIndexResponse {
                    message: String::from_str("Query products gone successfully!"),
                    products: found,
                    current_page: page,
                    per_page,
                },
            ),
            guard: Guard::Untouched,
        },
        None => generic_error_reply(
            STATUS_INTERNAL_SERVER_ERROR,
            "Error querying products on DB!",
            "Internal Server error while querying products.",
        ),
    }
}

} // verus!
