//! The vocabulary of the notification system: channels, delivery states,
//! user preferences, A/B test and campaign figures.
use vstd::prelude::*;

verus! {

/// Where a notification is delivered.
#[derive(Copy, Clone, Debug, PartialEq, Eq, Structural)]
pub enum NotificationChannel {
    Email,
    SMS,
    Push,
    InApp,
}

/// Where the delivery of a notification stands.
#[derive(Copy, Clone, Debug, PartialEq, Eq, Structural)]
pub enum NotificationDeliveryStatus {
    Pending,
    Scheduled,
    Processing,
    Delivered,
    Failed,
    Retrying,
}

/// A user's wishes for one channel; `frequency_hours` is the least number
/// of hours between two notifications.
#[derive(Copy, Clone, Debug, PartialEq, Eq, Structural)]
pub struct NotificationPreference {
    pub channel: NotificationChannel,
    pub enabled: bool,
    pub frequency_hours: u32,
    pub quiet_hours_only: bool,
    pub urgent_only: bool,
}

/// What one arm of an A/B test achieved.
#[derive(Copy, Clone, Debug, PartialEq, Eq, Structural)]
pub struct ABTestMetrics {
    pub sent_count: u64,
    pub delivered_count: u64,
    pub open_count: u64,
    pub click_count: u64,
    pub conversion_count: u64,
}

/// Delivery counts of one channel.
#[derive(Copy, Clone, Debug, PartialEq, Eq, Structural)]
pub struct ChannelStats {
    pub sent: u64,
    pub delivered: u64,
    pub failed: u64,
}

/// Where a campaign stands.
#[derive(Copy, Clone, Debug, PartialEq, Eq, Structural)]
pub enum CampaignStatus {
    Draft,
    Scheduled,
    Running,
    Paused,
    Completed,
    Cancelled,
}

/// What a campaign achieved and cost.
#[derive(Copy, Clone, Debug, PartialEq, Eq, Structural)]
pub struct CampaignMetrics {
    pub total_sent: u64,
    pub total_delivered: u64,
    pub total_opened: u64,
    pub total_clicked: u64,
    pub total_converted: u64,
    pub total_spent: i128,
    pub cost_per_conversion: i128,
}

/// A batch of notifications was processed.
#[derive(Copy, Clone, Debug, PartialEq, Eq, Structural)]
pub struct NotificationBatchProcessedEvent {
    pub batch_id: u64,
    pub notification_count: u32,
    pub success_count: u32,
    pub failure_count: u32,
    pub processed_at: u64,
}

/// An A/B test ended; `winner` is 0 for A, 1 for B and 2 for a tie,
/// `confidence` is in basis points.
#[derive(Copy, Clone, Debug, PartialEq, Eq, Structural)]
pub struct NotificationABTestCompletedEvent {
    pub test_id: u64,
    pub winner: u32,
    pub confidence: u32,
    pub completed_at: u64,
}

/// A content filter ran on a notification.
#[derive(Copy, Clone, Debug, PartialEq, Eq, Structural)]
pub struct NotificationContentFilteredEvent {
    pub notification_id: u64,
    pub filter_id: u64,
    pub content_modified: bool,
    pub filtered_at: u64,
}

/// A campaign ended; `roi` is in basis points.
#[derive(Copy, Clone, Debug, PartialEq, Eq, Structural)]
pub struct NotificationCampaignCompletedEvent {
    pub campaign_id: u64,
    pub total_sent: u64,
    pub total_delivered: u64,
    pub total_converted: u64,
    pub roi: i128,
    pub completed_at: u64,
}

/// A user segment was recomputed.
#[derive(Copy, Clone, Debug, PartialEq, Eq, Structural)]
pub struct NotificationUserSegmentUpdatedEvent {
    pub segment_id: u64,
    pub user_count: u32,
    pub updated_at: u64,
}

/// A channel started to be throttled.
#[derive(Copy, Clone, Debug, PartialEq, Eq, Structural)]
pub struct NotificationThrottlingActivatedEvent {
    pub channel: NotificationChannel,
    pub current_rate: u32,
    pub max_rate: u32,
    pub activated_at: u64,
}

} // verus!
