//! User notification shapes.

use vstd::prelude::*;

verus! {

#[derive(Clone, Debug)]
pub struct NotificationResponse {
    pub id: String,
    pub title: String,
    pub message: String,
    pub notification_type: String,
    pub created_at: String,
    pub is_read: bool,
}

/// A broadcast request; an unset notification type defaults to
/// "announcement" at the service boundary.
#[derive(Clone, Debug)]
pub struct BroadcastNotificationRequest {
    pub title: String,
    pub message: String,
    pub notification_type: String,
}

} // verus!
