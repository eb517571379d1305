//! Response shapes of the catalogue endpoints.

use vstd::prelude::*;

verus! {

pub struct ProductSizeResponse {
    pub id: i32,
    pub size: String,
    pub stock: i32,
    pub price_adjustment: String,
}

pub struct CategoryBreadcrumb {
    pub super_category: CategoryInfo,
    pub main_category: CategoryInfo,
    pub sub_category: CategoryInfo,
    pub mini_category: CategoryInfo,
}

pub struct CategoryInfo {
    pub id: i32,
    pub name: String,
    pub slug: String,
}

pub struct VendorInfo {
    pub id: i32,
    pub name: String,
}

pub struct RatingDistribution {
    pub five_star: i32,
    pub four_star: i32,
    pub three_star: i32,
    pub two_star: i32,
    pub one_star: i32,
}

pub struct CreateRatingRequest {
    pub rating: i32,
    pub comment: Option<String>,
}

} // verus!
