//! Request and response shapes of the account endpoints.

use vstd::prelude::*;

verus! {

pub struct RegisterRequest {
    pub username: String,
    pub email: String,
    pub password: String,
    pub first_name: String,
    pub last_name: String,
    pub phone: Option<String>,
    pub referral_code: Option<String>,
}

pub struct LoginRequest {
    pub username: String,
    pub password: String,
}

pub struct AuthResponse {
    pub success: bool,
    pub token: String,
    pub user: UserResponse,
}

pub struct UserResponse {
    pub id: i32,
    pub username: String,
    pub email: String,
    pub first_name: String,
    pub last_name: String,
    pub is_vendor: bool,
    pub vendor_admission: bool,
}

pub struct UpdateProfileRequest {
    pub first_name: Option<String>,
    pub last_name: Option<String>,
    pub email: Option<String>,
    pub phone: Option<String>,
    pub address: Option<String>,
    pub city: Option<String>,
    pub country_id: Option<i32>,
    pub postal_code: Option<String>,
}

pub struct ChangePasswordRequest {
    pub current_password: String,
    pub new_password: String,
}

pub struct ResetPasswordRequest {
    pub email: String,
}

pub struct ConfirmResetPasswordRequest {
    pub token: String,
    pub new_password: String,
}

pub struct ProfileResponse {
    pub id: i32,
    pub user: UserResponse,
    pub phone: Option<String>,
    pub address: Option<String>,
    pub city: Option<String>,
    pub country: Option<String>,
    pub postal_code: Option<String>,
    pub avatar: Option<String>,
    pub is_vendor: bool,
    pub vendor_admission: bool,
    pub wallet_balance: String,
    pub referral_code: Option<String>,
}

pub struct VendorApplicationRequest {
    pub business_name: Option<String>,
    pub business_description: Option<String>,
}

} // verus!
