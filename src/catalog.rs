//! Catalogue records that checkout reads and whose stock it reserves.

use vstd::prelude::*;

verus! {

/// A product as the catalogue holds it. Prices are in cents.
pub struct Product {
    pub id: i32,
    pub name: String,
    pub price: u64,
    pub discount_price: Option<u64>,
    pub stock: u32,
    pub is_active: bool,
    pub vendor_id: i32,
}

/// A size of a product, with a stock pool of its own, independent of the
/// product-level pool.
pub struct ProductSize {
    pub product_id: i32,
    pub size: String,
    pub stock: u32,
}

/// One line of a cart: a product, a quantity and an optional size.
pub struct CartItem {
    pub product_id: i32,
    pub quantity: i32,
    pub size: Option<String>,
}

/// The same product with another stock figure.
pub fn product_with_stock(p: &Product, stock: u32) -> (r: Product)
    ensures
        r == (Product { stock, ..*p }),
{
    Product {
        id: p.id,
        name: p.name.clone(),
        price: p.price,
        discount_price: p.discount_price,
        stock,
        is_active: p.is_active,
        vendor_id: p.vendor_id,
    }
}

/// The same size with another stock figure.
pub fn size_with_stock(z: &ProductSize, stock: u32) -> (r: ProductSize)
    ensures
        r == (ProductSize { stock, ..*z }),
{
    ProductSize { product_id: z.product_id, size: z.size.clone(), stock }
}

/// A copy of an optional string.
pub fn copy_text(s: &Option<String>) -> (r: Option<String>)
    ensures
        r == *s,
{
    match s {
        Some(t) => Some(t.clone()),
        None => None,
    }
}

} // verus!
