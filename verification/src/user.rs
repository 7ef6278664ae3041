//! User profile and dashboard shapes.

use vstd::prelude::*;

verus! {

#[derive(Clone, Debug)]
pub struct UserCountResponse {
    pub count: u64,
}

#[derive(Clone, Debug)]
pub struct UserProfileResponse {
    pub id: String,
    pub discord_id: Option<String>,
    pub email: String,
    pub username: String,
    pub global_name: Option<String>,
    pub avatar: Option<String>,
}

#[derive(Clone, Debug)]
pub struct DashboardOverviewResponse {
    pub user: UserProfile,
    pub stats: DashboardStats,
}

#[derive(Clone, Debug)]
pub struct UserProfile {
    pub id: String,
    pub email: String,
    pub discord_id: Option<String>,
    pub created_at: String,
}

#[derive(Clone, Debug)]
pub struct DashboardStats {
    pub total_api_calls: u64,
    pub api_calls_this_month: u64,
    pub active_api_keys: u32,
    /// Share of the subscription allocation used, in basis points.
    pub subscription_usage_basis_points: u32,
}

#[derive(Clone, Debug)]
pub struct ApplyReferralCodeRequest {
    pub code: String,
}

} // verus!
