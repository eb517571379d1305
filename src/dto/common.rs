//! Shapes shared by many endpoints: envelopes, pagination, blog, contact and home page.

use vstd::prelude::*;
use vstd::arithmetic::div_mod::{lemma_fundamental_div_mod, lemma_mod_pos_bound};

verus! {

pub struct ApiResponse<T> {
    pub success: bool,
    pub data: Option<T>,
    pub message: Option<String>,
}

pub struct MessageResponse {
    pub success: bool,
    pub message: String,
}

pub struct PaginatedResponse<T> {
    pub data: Vec<T>,
    pub pagination: PaginationInfo,
}

pub struct PaginationInfo {
    pub page: i64,
    pub per_page: i64,
    pub total: i64,
    pub total_pages: i64,
}

pub struct PaginationParams {
    pub page: Option<i64>,
    pub per_page: Option<i64>,
}

pub struct PostResponse {
    pub id: i32,
    pub title: String,
    pub slug: String,
    pub content: String,
    pub excerpt: Option<String>,
    pub featured_image: Option<String>,
    pub author: AuthorInfo,
    pub views_count: i32,
    pub comments_count: i32,
    pub created_at: String,
}

pub struct PostListResponse {
    pub id: i32,
    pub title: String,
    pub slug: String,
    pub excerpt: Option<String>,
    pub featured_image: Option<String>,
    pub author: String,
    pub views_count: i32,
    pub created_at: String,
}

pub struct AuthorInfo {
    pub id: i32,
    pub name: String,
}

pub struct CommentResponse {
    pub id: i32,
    pub user: String,
    pub content: String,
    pub created_at: String,
}

pub struct CreateCommentRequest {
    pub content: String,
}

pub struct ContactRequest {
    pub name: String,
    pub email: String,
    pub subject: String,
    pub message: String,
}

pub struct NewsletterRequest {
    pub email: String,
}

pub struct CarouselResponse {
    pub id: i32,
    pub title: String,
    pub subtitle: Option<String>,
    pub image: String,
    pub link: Option<String>,
}

pub struct HomeAdsResponse {
    pub sidebar: Vec<AdResponse>,
    pub middle: Vec<AdResponse>,
    pub daily_deals: Vec<AdResponse>,
}

pub struct AdResponse {
    pub id: i32,
    pub title: Option<String>,
    pub image: String,
    pub link: Option<String>,
}

pub struct SiteSettingsResponse {
    pub site_name: String,
    pub site_logo: Option<String>,
    pub favicon: Option<String>,
    pub meta_description: Option<String>,
    pub footer_text: Option<String>,
}

impl<T> ApiResponse<T> {
    /// A successful response carrying data.
    pub fn success(data: T) -> (r: Self)
        ensures
            r.success,
            r.data == Some(data),
            r.message is None,
    {
        ApiResponse { success: true, data: Some(data), message: None }
    }

    /// A successful response carrying data and a message.
    pub fn success_message(data: T, message: &str) -> (r: Self)
        ensures
            r.success,
            r.data == Some(data),
            r.message matches Some(m) && m@ == message@,
    {
        ApiResponse { success: true, data: Some(data), message: Some(message.to_owned()) }
    }
}

impl MessageResponse {
    /// A successful response with a message only.
    pub fn new(message: &str) -> (r: Self)
        ensures
            r.success,
            r.message@ == message@,
    {
        MessageResponse { success: true, message: message.to_owned() }
    }
}

/// The number of pages of `per_page` entries that `total` entries fill:
/// `total / per_page` rounded up.
pub open spec fn pages_for(total: int, per_page: int) -> int {
    if total >= 0 { (total + per_page - 1) / per_page } else { -((-total) / per_page) }
}

proof fn lemma_quotient_bounds(x: int, d: int)
    requires
        x >= 0,
        d >= 1,
    ensures
        0 <= x / d <= x,
        (x + d - 1) / d <= if x == 0 { 0 } else { x },
        (x + d - 1) / d >= 0,
{
    lemma_fundamental_div_mod(x, d);
    lemma_mod_pos_bound(x, d);
    lemma_fundamental_div_mod(x + d - 1, d);
    lemma_mod_pos_bound(x + d - 1, d);
    let q = x / d;
    let r = x % d;
    let q2 = (x + d - 1) / d;
    let r2 = (x + d - 1) % d;
    assert(0 <= q <= x) by (nonlinear_arith)
        requires x == d * q + r, 0 <= r < d, d >= 1, x >= 0;
    assert(0 <= q2 && (x == 0 ==> q2 == 0) && (x > 0 ==> q2 <= x)) by (nonlinear_arith)
        requires x + d - 1 == d * q2 + r2, 0 <= r2 < d, d >= 1, x >= 0;
}

impl PaginationInfo {
    pub fn new(page: i64, per_page: i64, total: i64) -> (r: Self)
        requires
            per_page >= 1,
        ensures
            r.page == page,
            r.per_page == per_page,
            r.total == total,
            r.total_pages == pages_for(total as int, per_page as int),
    {
        let t = total as i128;
        let p = per_page as i128;
        proof {
            if t >= 0 {
                lemma_quotient_bounds(t as int, p as int);
            } else {
                lemma_quotient_bounds(-t, p as int);
            }
        }
        let pages: i128 = if t >= 0 { (t + p - 1) / p } else { -((-t) / p) };
        PaginationInfo { page, per_page, total, total_pages: pages as i64 }
    }
}

impl PaginationParams {
    /// The requested page, one if none or below one.
    pub open spec fn page_spec(&self) -> int {
        match self.page {
            Some(p) => if p >= 1 { p as int } else { 1 },
            None => 1,
        }
    }

    /// The requested page size, twenty if none, kept between one and a hundred.
    pub open spec fn per_page_spec(&self) -> int {
        let n = match self.per_page {
            Some(n) => n as int,
            None => 20,
        };
        if n > 100 { 100 } else if n < 1 { 1 } else { n }
    }

    pub fn page(&self) -> (r: i64)
        ensures
            r == self.page_spec(),
    {
        match self.page {
            Some(p) => if p >= 1 { p } else { 1 },
            None => 1,
        }
    }

    pub fn per_page(&self) -> (r: i64)
        ensures
            r == self.per_page_spec(),
    {
        let n = match self.per_page {
            Some(n) => n,
            None => 20,
        };
        if n > 100 { 100 } else if n < 1 { 1 } else { n }
    }

    /// The number of entries before the requested page.
    pub fn offset(&self) -> (r: i64)
        requires
            (self.page_spec() - 1) * self.per_page_spec() <= i64::MAX,
        ensures
            r == (self.page_spec() - 1) * self.per_page_spec(),
    {
        let p = self.page();
        let n = self.per_page();
        proof {
            assert(0 <= (p - 1) * n) by (nonlinear_arith)
                requires p >= 1, n >= 1;
        }
        (p - 1) * n
    }
}

} // verus!
