//! The records that the handlers read from and write to the database.
//!
//! Instants are held as microseconds since the Unix epoch (the precision of
//! the database), and the floating-point measures of a product as the bit
//! patterns of their `f32` values: the handlers copy them and never compute
//! with them.

use vstd::prelude::*;

verus! {

/// The characters of an optional string.
pub open spec fn opt_view(o: Option<String>) -> Option<Seq<char>> {
    match o {
        Some(s) => Some(s@),
        None => None,
    }
}

/// A copy of an optional string.
pub fn clone_opt_string(o: &Option<String>) -> (res: Option<String>)
    ensures
        opt_view(res) == opt_view(*o),
{
    match o {
        Some(s) => Some(s.clone()),
        None => None,
    }
}

/// A stored user.
pub struct User {
    pub id: i32,
    pub name: String,
    pub email: String,
    pub password: Option<String>,
    pub user_type_id: i32,
    pub two_factor_secret: Option<String>,
    pub two_factor_recovery_code: Option<String>,
    pub two_factor_confirmed_at: Option<i64>,
    pub created_at: Option<i64>,
    pub updated_at: Option<i64>,
    pub deleted_at: Option<i64>,
}

/// The fields of a user that an insert or an update writes.
pub struct UserDTO {
    pub name: String,
    pub email: String,
    pub password: Option<String>,
    pub user_type_id: i32,
    pub two_factor_secret: Option<String>,
    pub two_factor_recovery_code: Option<String>,
    pub two_factor_confirmed_at: Option<i64>,
    pub created_at: Option<i64>,
    pub updated_at: Option<i64>,
    pub deleted_at: Option<i64>,
}

/// The fields of a user that a listing shows.
pub struct UserDTOMin {
    pub name: String,
    pub email: String,
    pub created_at: Option<i64>,
    pub updated_at: Option<i64>,
    pub deleted_at: Option<i64>,
}

/// The kind of a user (the kind with id 1 administers the API).
pub struct UserType {
    pub id: i32,
    pub kind_name: String,
    pub created_at: Option<i64>,
    pub updated_at: Option<i64>,
    pub deleted_at: Option<i64>,
}

/// A user written with mathematical values.
pub struct UserView {
    pub name: Seq<char>,
    pub email: Seq<char>,
    pub password: Option<Seq<char>>,
    pub user_type_id: i32,
    pub two_factor_secret: Option<Seq<char>>,
    pub two_factor_recovery_code: Option<Seq<char>>,
    pub two_factor_confirmed_at: Option<i64>,
    pub created_at: Option<i64>,
    pub updated_at: Option<i64>,
    pub deleted_at: Option<i64>,
}

impl View for User {
    type V = UserView;

    /// Every field but the id.
    open spec fn view(&self) -> UserView {
        UserView {
            name: self.name@,
            email: self.email@,
            password: opt_view(self.password),
            user_type_id: self.user_type_id,
            two_factor_secret: opt_view(self.two_factor_secret),
            two_factor_recovery_code: opt_view(self.two_factor_recovery_code),
            two_factor_confirmed_at: self.two_factor_confirmed_at,
            created_at: self.created_at,
            updated_at: self.updated_at,
            deleted_at: self.deleted_at,
        }
    }
}

impl View for UserDTO {
    type V = UserView;

    open spec fn view(&self) -> UserView {
        UserView {
            name: self.name@,
            email: self.email@,
            password: opt_view(self.password),
            user_type_id: self.user_type_id,
            two_factor_secret: opt_view(self.two_factor_secret),
            two_factor_recovery_code: opt_view(self.two_factor_recovery_code),
            two_factor_confirmed_at: self.two_factor_confirmed_at,
            created_at: self.created_at,
            updated_at: self.updated_at,
            deleted_at: self.deleted_at,
        }
    }
}

impl UserDTO {
    /// The writable fields of a stored user, unchanged.
    pub fn from_user(user: &User) -> (res: UserDTO)
        ensures
            res@ == user@,
    {
        UserDTO {
            name: user.name.clone(),
            email: user.email.clone(),
            password: clone_opt_string(&user.password),
            user_type_id: user.user_type_id,
            two_factor_secret: clone_opt_string(&user.two_factor_secret),
            two_factor_recovery_code: clone_opt_string(&user.two_factor_recovery_code),
            two_factor_confirmed_at: user.two_factor_confirmed_at,
            created_at: user.created_at,
            updated_at: user.updated_at,
            deleted_at: user.deleted_at,
        }
    }
}

/// A stored product; the measures are `f32` bit patterns.
pub struct Product {
    pub id: i32,
    pub sku: String,
    pub name: String,
    pub description: String,
    pub price: u32,
    pub weight: u32,
    pub dimension_height: u32,
    pub dimension_width: u32,
    pub dimension_depth: u32,
    pub product_category_id: i32,
    pub created_at: Option<i64>,
    pub updated_at: Option<i64>,
    pub deleted_at: Option<i64>,
}

/// The fields of a product that an insert or an update writes.
pub struct ProductDTO {
    pub sku: String,
    pub name: String,
    pub description: String,
    pub price: u32,
    pub weight: u32,
    pub dimension_height: u32,
    pub dimension_width: u32,
    pub dimension_depth: u32,
    pub product_category_id: i32,
    pub created_at: Option<i64>,
    pub updated_at: Option<i64>,
    pub deleted_at: Option<i64>,
}

/// A product written with mathematical values.
pub struct ProductView {
    pub sku: Seq<char>,
    pub name: Seq<char>,
    pub description: Seq<char>,
    pub price: u32,
    pub weight: u32,
    pub dimension_height: u32,
    pub dimension_width: u32,
    pub dimension_depth: u32,
    pub product_category_id: i32,
    pub created_at: Option<i64>,
    pub updated_at: Option<i64>,
    pub deleted_at: Option<i64>,
}

impl View for Product {
    type V = ProductView;

    /// Every field but the id.
    open spec fn view(&self) -> ProductView {
        ProductView {
            sku: self.sku@,
            name: self.name@,
            description: self.description@,
            price: self.price,
            weight: self.weight,
            dimension_height: self.dimension_height,
            dimension_width: self.dimension_width,
            dimension_depth: self.dimension_depth,
            product_category_id: self.product_category_id,
            created_at: self.created_at,
            updated_at: self.updated_at,
            deleted_at: self.deleted_at,
        }
    }
}

impl View for ProductDTO {
    type V = ProductView;

    open spec fn view(&self) -> ProductView {
        ProductView {
            sku: self.sku@,
            name: self.name@,
            description: self.description@,
            price: self.price,
            weight: self.weight,
            dimension_height: self.dimension_height,
            dimension_width: self.dimension_width,
            dimension_depth: self.dimension_depth,
            product_category_id: self.product_category_id,
            created_at: self.created_at,
            updated_at: self.updated_at,
            deleted_at: self.deleted_at,
        }
    }
}

impl ProductDTO {
    /// The writable fields of a stored product, unchanged.
    pub fn from_product(product: &Product) -> (res: ProductDTO)
        ensures
            res@ == product@,
    {
        ProductDTO {
            sku: product.sku.clone(),
            name: product.name.clone(),
            description: product.description.clone(),
            price: product.price,
            weight: product.weight,
            dimension_height: product.dimension_height,
            dimension_width: product.dimension_width,
            dimension_depth: product.dimension_depth,
            product_category_id: product.product_category_id,
            created_at: product.created_at,
            updated_at: product.updated_at,
            deleted_at: product.deleted_at,
        }
    }
}

/// A category of products.
pub struct ProductCategory {
    pub id: i32,
    pub name: String,
    pub created_at: Option<i64>,
    pub updated_at: Option<i64>,
    pub deleted_at: Option<i64>,
}

/// The fields of a category that an insert or an update writes.
pub struct ProductCategoryDTO {
    pub name: String,
    pub created_at: Option<i64>,
    pub updated_at: Option<i64>,
    pub deleted_at: Option<i64>,
}

/// A product model.
pub struct Model {
    pub id: i32,
    pub name: String,
    pub created_at: Option<i64>,
    pub updated_at: Option<i64>,
    pub deleted_at: Option<i64>,
}

/// The fields of a product model that an insert or an update writes.
pub struct ModelDTO {
    pub name: String,
    pub created_at: Option<i64>,
    pub updated_at: Option<i64>,
    pub deleted_at: Option<i64>,
}

} // verus!
