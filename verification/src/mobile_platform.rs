//! Mobile-first learning platform: device profiles with sensible defaults,
//! offline downloads within a storage budget, push notifications, mobile
//! payments with a simple fraud score, and security events.
use vstd::prelude::*;
use crate::id_map::IdMap;
use crate::types::AccountId;

verus! {

/// Kind of device.
#[derive(Copy, Clone, Debug, PartialEq, Eq, Structural)]
pub enum DeviceType {
    Smartphone,
    Tablet,
    FeaturePhone,
    SmartTV,
    Wearable,
}

/// Kind of network connection.
#[derive(Copy, Clone, Debug, PartialEq, Eq, Structural)]
pub enum NetworkType {
    WiFi,
    Cellular4G,
    Cellular5G,
    Ethernet,
    Offline,
}

/// Hardware capability of a device.
#[derive(Copy, Clone, Debug, PartialEq, Eq, Structural)]
pub enum DeviceCapability {
    Camera,
    GPS,
    Biometric,
    NFC,
    Bluetooth,
    Accelerometer,
    Gyroscope,
    Microphone,
}

/// Preferred video quality.
#[derive(Copy, Clone, Debug, PartialEq, Eq, Structural)]
pub enum VideoQuality {
    Auto,
    Low,
    Medium,
    High,
    HD,
    UltraHD,
}

/// Preferred font size.
#[derive(Copy, Clone, Debug, PartialEq, Eq, Structural)]
pub enum FontSize {
    Small,
    Medium,
    Large,
    ExtraLarge,
}

/// Preferred colour theme.
#[derive(Copy, Clone, Debug, PartialEq, Eq, Structural)]
pub enum ThemePreference {
    Light,
    Dark,
    Auto,
    HighContrast,
}

/// Quality of content downloaded for offline use.
#[derive(Copy, Clone, Debug, PartialEq, Eq, Structural)]
pub enum OfflineQuality {
    TextOnly,
    LowQuality,
    StandardQuality,
    HighQuality,
}

/// When offline content is synchronised.
#[derive(Copy, Clone, Debug, PartialEq, Eq, Structural)]
pub enum SyncStrategy {
    WiFiOnly,
    WiFiAndCellular,
    Manual,
    SmartAdaptive,
}

/// Kind of offline content.
#[derive(Copy, Clone, Debug, PartialEq, Eq, Structural)]
pub enum OfflineContentType {
    VideoLesson,
    AudioLesson,
    TextDocument,
    Quiz,
    InteractiveExercise,
    EBook,
    CourseMaterial,
}

/// Kind of item waiting to be synchronised.
#[derive(Copy, Clone, Debug, PartialEq, Eq, Structural)]
pub enum SyncItemType {
    ProgressData,
    QuizResults,
    Notes,
    Bookmarks,
    Certificates,
    UserPreferences,
}

/// Priority of a synchronisation item.
#[derive(Copy, Clone, Debug, PartialEq, Eq, Structural)]
pub enum SyncPriority {
    Low,
    Normal,
    High,
    Critical,
}

/// How a synchronisation conflict is resolved.
#[derive(Copy, Clone, Debug, PartialEq, Eq, Structural)]
pub enum ConflictResolution {
    LocalWins,
    RemoteWins,
    Merge,
    ManualReview,
}

/// State of synchronisation.
#[derive(Copy, Clone, Debug, PartialEq, Eq, Structural)]
pub enum SyncStatus {
    Idle,
    InProgress,
    Completed,
    Failed,
    Paused,
}

/// Kind of push notification.
#[derive(Copy, Clone, Debug, PartialEq, Eq, Structural)]
pub enum NotificationType {
    LearningReminder,
    DeadlineAlert,
    AchievementUnlocked,
    SocialUpdate,
    ContentUpdate,
    SystemMessage,
    PaymentRequired,
    CourseUpdate,
}

/// Priority of a push notification.
#[derive(Copy, Clone, Debug, PartialEq, Eq, Structural)]
pub enum NotificationPriority {
    Low,
    Normal,
    High,
    Critical,
}

/// Kind of payment method.
#[derive(Copy, Clone, Debug, PartialEq, Eq, Structural)]
pub enum PaymentType {
    CreditCard,
    DebitCard,
    MobileWallet,
    BankTransfer,
    Cryptocurrency,
    CarrierBilling,
}

/// State of a mobile payment.
#[derive(Copy, Clone, Debug, PartialEq, Eq, Structural)]
pub enum TransactionStatus {
    Pending,
    Completed,
    Failed,
    Cancelled,
    Refunded,
    Disputed,
}

/// Kind of biometric check.
#[derive(Copy, Clone, Debug, PartialEq, Eq, Structural)]
pub enum BiometricType {
    Fingerprint,
    FaceID,
    Voice,
    Iris,
    Pattern,
}

/// Kind of security event.
#[derive(Copy, Clone, Debug, PartialEq, Eq, Structural)]
pub enum SecurityEventType {
    LoginAttempt,
    LoginSuccess,
    LoginFailure,
    BiometricUsed,
    DeviceAdded,
    DeviceRemoved,
    SuspiciousActivity,
    RemoteWipe,
    PasswordChange,
}

/// Severity of a security event.
#[derive(Copy, Clone, Debug, PartialEq, Eq, Structural)]
pub enum SecuritySeverity {
    Low,
    Medium,
    High,
    Critical,
}

/// Thermal state of a device.
#[derive(Copy, Clone, Debug, PartialEq, Eq, Structural)]
pub enum ThermalState {
    Normal,
    Warm,
    Hot,
    Critical,
}

/// Kind of network error.
#[derive(Copy, Clone, Debug, PartialEq, Eq, Structural)]
pub enum NetworkErrorType {
    Timeout,
    ConnectionRefused,
    DNSFailure,
    SSLHandshakeFailed,
    ServerError,
    ClientError,
}

/// Mobile-specific group feature.
#[derive(Copy, Clone, Debug, PartialEq, Eq, Structural)]
pub enum MobileFeature {
    LocationCheckIn,
    VoiceNotes,
    PhotoSharing,
    QuickPolls,
    EmergencyAlerts,
}

/// Precision of shared locations.
#[derive(Copy, Clone, Debug, PartialEq, Eq, Structural)]
pub enum LocationAccuracy {
    Exact,
    Approximate,
    CityLevel,
    Disabled,
}

/// Kind of quick action.
#[derive(Copy, Clone, Debug, PartialEq, Eq, Structural)]
pub enum QuickActionType {
    StartLesson,
    JoinStudyGroup,
    TakeQuiz,
    ViewProgress,
    ContactMentor,
    ScheduleReminder,
}

/// Kind of mobile challenge.
#[derive(Copy, Clone, Debug, PartialEq, Eq, Structural)]
pub enum ChallengeType {
    DailyStreak,
    WeeklyGoal,
    SocialLearning,
    LocationBased,
    SkillMastery,
}

/// Kind of challenge reward.
#[derive(Copy, Clone, Debug, PartialEq, Eq, Structural)]
pub enum RewardType {
    Points,
    Badge,
    Certificate,
    Discount,
    PremiumAccess,
}

/// Colour-blindness adaptation.
#[derive(Copy, Clone, Debug, PartialEq, Eq, Structural)]
pub enum ColorBlindMode {
    Off,
    Protanopia,
    Deuteranopia,
    Tritanopia,
    Grayscale,
}

/// Errors of the mobile platform.
#[derive(Copy, Clone, Debug, PartialEq, Eq, Structural)]
pub enum MobilePlatformError {
    DeviceNotSupported,
    InsufficientStorage,
    NetworkUnavailable,
    AuthenticationFailed,
    SyncFailed,
    PaymentFailed,
    SecurityViolation,
    FeatureNotAvailable,
}

/// A user's mobile profile.
#[derive(Clone, Debug)]
pub struct MobileProfile {
    pub user: AccountId,
    pub device_info: DeviceInfo,
    pub preferences: MobilePreferences,
    pub offline_settings: OfflineSettings,
    pub notification_preferences: NotificationPreferences,
    pub security_settings: MobileSecuritySettings,
    pub payment_methods: Vec<MobilePaymentMethod>,
    pub accessibility_settings: MobileAccessibilitySettings,
    pub last_sync: u64,
    pub data_usage: DataUsageTracking,
}

/// A device.
#[derive(Clone, Debug)]
pub struct DeviceInfo {
    pub device_id: Vec<u8>,
    pub device_type: DeviceType,
    pub os_version: Vec<u8>,
    pub app_version: Vec<u8>,
    pub screen_size: ScreenSize,
    pub storage_capacity: u64,
    pub network_type: NetworkType,
    pub capabilities: Vec<DeviceCapability>,
    pub last_seen: u64,
}

/// A screen (density in DPI).
#[derive(Clone, Debug)]
pub struct ScreenSize {
    pub width: u32,
    pub height: u32,
    pub density: u32,
    pub is_tablet: bool,
}

/// A user's app preferences.
#[derive(Clone, Debug)]
pub struct MobilePreferences {
    pub data_saver_mode: bool,
    pub auto_download_wifi: bool,
    pub video_quality: VideoQuality,
    pub font_size: FontSize,
    pub theme: ThemePreference,
    pub language: Vec<u8>,
    pub vibration_enabled: bool,
    pub sound_enabled: bool,
    pub gesture_navigation: bool,
}

/// Offline behaviour (offline_duration in hours).
#[derive(Clone, Debug)]
pub struct OfflineSettings {
    pub auto_download_enabled: bool,
    pub download_quality: OfflineQuality,
    pub storage_limit: u64,
    pub sync_strategy: SyncStrategy,
    pub offline_duration: u64,
    pub priority_content: Vec<Vec<u8>>,
    pub compression_enabled: bool,
}

/// Content downloaded for offline use.
#[derive(Clone, Debug)]
pub struct OfflineContent {
    pub content_id: u64,
    pub content_type: OfflineContentType,
    pub local_path: Vec<u8>,
    pub file_size: u64,
    pub compressed_size: u64,
    pub download_date: u64,
    pub expiry_date: u64,
    pub is_available: bool,
    pub version: u32,
    pub dependencies: Vec<u64>,
}

/// Items waiting to be synchronised.
#[derive(Clone, Debug)]
pub struct SyncQueue {
    pub pending_uploads: Vec<SyncItem>,
    pub pending_downloads: Vec<SyncItem>,
    pub conflict_resolution: Vec<SyncConflict>,
    pub last_sync_attempt: u64,
    pub sync_status: SyncStatus,
}

/// One item waiting to be synchronised.
#[derive(Clone, Debug)]
pub struct SyncItem {
    pub id: u64,
    pub item_type: SyncItemType,
    pub local_path: Vec<u8>,
    pub remote_path: Vec<u8>,
    pub priority: SyncPriority,
    pub retry_count: u32,
    pub max_retries: u32,
}

/// A synchronisation conflict.
#[derive(Clone, Debug)]
pub struct SyncConflict {
    pub conflict_id: u64,
    pub item_type: SyncItemType,
    pub local_version: Vec<u8>,
    pub remote_version: Vec<u8>,
    pub conflict_reason: Vec<u8>,
    pub resolution_strategy: ConflictResolution,
}

/// Push-notification preferences (frequency_limit per hour).
#[derive(Clone, Debug)]
pub struct NotificationPreferences {
    pub learning_reminders: bool,
    pub deadline_alerts: bool,
    pub achievement_notifications: bool,
    pub social_updates: bool,
    pub content_updates: bool,
    pub quiet_hours: TimeRange,
    pub frequency_limit: u32,
    pub sound_enabled: bool,
    pub vibration_enabled: bool,
    pub led_enabled: bool,
}

/// A daily range of hours.
#[derive(Clone, Debug)]
pub struct TimeRange {
    pub start_hour: u32,
    pub end_hour: u32,
    pub timezone: Vec<u8>,
}

/// A push notification.
#[derive(Clone, Debug)]
pub struct PushNotification {
    pub id: u64,
    pub user: AccountId,
    pub notification_type: NotificationType,
    pub title: Vec<u8>,
    pub message: Vec<u8>,
    pub data: Vec<(Vec<u8>, Vec<u8>)>,
    pub priority: NotificationPriority,
    pub scheduled_time: u64,
    pub expiry_time: u64,
    pub is_read: bool,
    pub action_buttons: Vec<NotificationAction>,
}

/// A button on a notification.
#[derive(Clone, Debug)]
pub struct NotificationAction {
    pub action_id: Vec<u8>,
    pub label: Vec<u8>,
    pub url: Option<Vec<u8>>,
    pub auto_dismiss: bool,
}

/// A stored payment method.
#[derive(Clone, Debug)]
pub struct MobilePaymentMethod {
    pub id: u64,
    pub payment_type: PaymentType,
    pub provider: Vec<u8>,
    pub account_identifier: Vec<u8>,
    pub is_default: bool,
    pub is_verified: bool,
    pub daily_limit: u64,
    pub monthly_limit: u64,
    pub created_at: u64,
    pub last_used: u64,
}

/// A mobile payment.
#[derive(Clone, Debug)]
pub struct MobileTransaction {
    pub id: u64,
    pub user: AccountId,
    pub payment_method_id: u64,
    pub amount: u64,
    pub currency: Vec<u8>,
    pub description: Vec<u8>,
    pub merchant: Vec<u8>,
    pub status: TransactionStatus,
    pub timestamp: u64,
    pub confirmation_code: Vec<u8>,
    pub fraud_score: u32,
}

/// Security settings (session_timeout in minutes).
#[derive(Clone, Debug)]
pub struct MobileSecuritySettings {
    pub biometric_enabled: bool,
    pub biometric_type: BiometricType,
    pub pin_required: bool,
    pub two_factor_enabled: bool,
    pub session_timeout: u32,
    pub encryption_enabled: bool,
    pub remote_wipe_enabled: bool,
    pub trusted_devices: Vec<Vec<u8>>,
    pub login_attempts: u32,
    pub max_login_attempts: u32,
}

/// A recorded security event.
#[derive(Clone, Debug)]
pub struct SecurityEvent {
    pub id: u64,
    pub user: AccountId,
    pub event_type: SecurityEventType,
    pub device_id: Vec<u8>,
    pub location: Option<LocationData>,
    pub timestamp: u64,
    pub severity: SecuritySeverity,
    pub resolved: bool,
}

/// A location (coordinates scaled by 1e6, accuracy in basis points).
#[derive(Clone, Debug)]
pub struct LocationData {
    pub latitude: i64,
    pub longitude: i64,
    pub accuracy: u64,
    pub timestamp: u64,
}

/// Analytics of one user's mobile use.
#[derive(Clone, Debug)]
pub struct MobileAnalytics {
    pub user: AccountId,
    pub device_analytics: DeviceAnalytics,
    pub usage_analytics: UsageAnalytics,
    pub performance_analytics: PerformanceAnalytics,
    pub engagement_analytics: EngagementAnalytics,
    pub network_analytics: NetworkAnalytics,
    pub error_tracking: ErrorTracking,
    pub last_updated: u64,
}

/// Device analytics.
#[derive(Clone, Debug)]
pub struct DeviceAnalytics {
    pub app_version: Vec<u8>,
    pub os_version: Vec<u8>,
    pub device_model: Vec<u8>,
    pub screen_resolution: Vec<u8>,
    pub memory_usage: u64,
    pub storage_usage: u64,
    pub battery_level: u32,
    pub thermal_state: ThermalState,
}

/// Usage analytics (durations in minutes, data in bytes).
#[derive(Clone, Debug)]
pub struct UsageAnalytics {
    pub session_duration: u32,
    pub sessions_per_day: u32,
    pub active_days_per_week: u32,
    pub peak_usage_hours: Vec<u32>,
    pub feature_usage: Vec<(Vec<u8>, u32)>,
    pub screen_time: u64,
    pub data_consumption: u64,
}

/// Performance analytics (times in milliseconds).
#[derive(Clone, Debug)]
pub struct PerformanceAnalytics {
    pub app_load_time: u32,
    pub screen_render_time: u32,
    pub network_latency: u32,
    pub crash_count: u32,
    pub anr_count: u32,
    pub memory_leaks: u32,
    pub battery_drain_rate: u64,
}

/// Engagement analytics (rates in basis points).
#[derive(Clone, Debug)]
pub struct EngagementAnalytics {
    pub lesson_completion_rate: u64,
    pub quiz_attempt_rate: u64,
    pub social_interaction_count: u32,
    pub feedback_submission_rate: u64,
    pub push_notification_response_rate: u64,
    pub feature_adoption_rate: Vec<(Vec<u8>, u64)>,
}

/// Network analytics.
#[derive(Clone, Debug)]
pub struct NetworkAnalytics {
    pub connection_type_distribution: Vec<(NetworkType, u32)>,
    pub average_download_speed: u64,
    pub average_upload_speed: u64,
    pub connection_stability: u64,
    pub offline_duration: u64,
    pub roaming_usage: u64,
}

/// Collected error reports (error_rate in basis points).
#[derive(Clone, Debug)]
pub struct ErrorTracking {
    pub crash_reports: Vec<CrashReport>,
    pub anr_reports: Vec<ANRReport>,
    pub network_errors: Vec<NetworkError>,
    pub user_reported_issues: Vec<UserIssue>,
    pub error_rate: u64,
}

/// A crash report.
#[derive(Clone, Debug)]
pub struct CrashReport {
    pub id: u64,
    pub timestamp: u64,
    pub app_version: Vec<u8>,
    pub device_info: Vec<u8>,
    pub stack_trace: Vec<u8>,
    pub user_action: Vec<u8>,
    pub reproducible: bool,
}

/// An application-not-responding report (duration in seconds).
#[derive(Clone, Debug)]
pub struct ANRReport {
    pub id: u64,
    pub timestamp: u64,
    pub duration: u32,
    pub app_state: Vec<u8>,
    pub device_load: u64,
    pub user_action: Vec<u8>,
}

/// A network error.
#[derive(Clone, Debug)]
pub struct NetworkError {
    pub id: u64,
    pub timestamp: u64,
    pub error_type: NetworkErrorType,
    pub url: Vec<u8>,
    pub response_code: u32,
    pub retry_count: u32,
    pub resolved: bool,
}

/// An issue reported by a user.
#[derive(Clone, Debug)]
pub struct UserIssue {
    pub id: u64,
    pub timestamp: u64,
    pub issue_type: Vec<u8>,
    pub description: Vec<u8>,
    pub severity: u32,
    pub user_email: Option<Vec<u8>>,
    pub resolved: bool,
    pub resolution: Option<Vec<u8>>,
}

/// A user's mobile community features.
#[derive(Clone, Debug)]
pub struct MobileCommunity {
    pub user: AccountId,
    pub mobile_groups: Vec<MobileGroup>,
    pub location_sharing: LocationSharingSettings,
    pub quick_actions: Vec<QuickAction>,
    pub mobile_challenges: Vec<MobileChallenge>,
    pub social_features: MobileSocialFeatures,
}

/// A mobile study group.
#[derive(Clone, Debug)]
pub struct MobileGroup {
    pub id: u64,
    pub name: Vec<u8>,
    pub description: Vec<u8>,
    pub members: Vec<AccountId>,
    pub is_location_based: bool,
    pub meeting_locations: Vec<LocationData>,
    pub mobile_specific_features: Vec<MobileFeature>,
}

/// Location sharing (duration in hours).
#[derive(Clone, Debug)]
pub struct LocationSharingSettings {
    pub enabled: bool,
    pub sharing_duration: u64,
    pub trusted_contacts: Vec<AccountId>,
    pub accuracy_level: LocationAccuracy,
    pub auto_check_in: bool,
}

/// A quick action.
#[derive(Clone, Debug)]
pub struct QuickAction {
    pub id: u64,
    pub name: Vec<u8>,
    pub icon: Vec<u8>,
    pub action_type: QuickActionType,
    pub target_screen: Vec<u8>,
    pub parameters: Vec<(Vec<u8>, Vec<u8>)>,
}

/// A mobile challenge.
#[derive(Clone, Debug)]
pub struct MobileChallenge {
    pub id: u64,
    pub title: Vec<u8>,
    pub description: Vec<u8>,
    pub challenge_type: ChallengeType,
    pub requirements: Vec<Vec<u8>>,
    pub rewards: ChallengeReward,
    pub participants: Vec<AccountId>,
    pub start_date: u64,
    pub end_date: u64,
    pub is_mobile_specific: bool,
}

/// The reward of a challenge.
#[derive(Clone, Debug)]
pub struct ChallengeReward {
    pub reward_type: RewardType,
    pub amount: u64,
    pub badge: Option<Vec<u8>>,
    pub certificate: Option<Vec<u8>>,
}

/// Social features switched on for a user.
#[derive(Clone, Debug)]
pub struct MobileSocialFeatures {
    pub voice_notes_enabled: bool,
    pub photo_sharing_enabled: bool,
    pub location_checkins_enabled: bool,
    pub quick_polls_enabled: bool,
    pub emergency_contacts: Vec<AccountId>,
    pub study_buddies: Vec<AccountId>,
    pub mentor_quick_connect: bool,
}

/// Data usage (bytes; warning_threshold in basis points).
#[derive(Clone, Debug)]
pub struct DataUsageTracking {
    pub total_downloaded: u64,
    pub total_uploaded: u64,
    pub cached_data: u64,
    pub streaming_data: u64,
    pub last_reset: u64,
    pub daily_limit: u64,
    pub warning_threshold: u64,
}

/// Accessibility settings.
#[derive(Clone, Debug)]
pub struct MobileAccessibilitySettings {
    pub screen_reader_enabled: bool,
    pub high_contrast_enabled: bool,
    pub large_text_enabled: bool,
    pub voice_control_enabled: bool,
    pub gesture_navigation_enabled: bool,
    pub haptic_feedback_enabled: bool,
    pub color_blind_mode: ColorBlindMode,
}
/// Default storage limit for offline content: 1 GiB.
pub const DEFAULT_OFFLINE_STORAGE_LIMIT: u64 = 1024 * 1024 * 1024;

/// Default time offline content stays available: one week, in hours.
pub const DEFAULT_OFFLINE_DURATION_HOURS: u64 = 24 * 7;

/// Default daily data limit: 100 MiB.
pub const DEFAULT_DAILY_DATA_LIMIT: u64 = 100 * 1024 * 1024;

/// Default data-usage warning threshold: 80 % in basis points.
pub const DEFAULT_WARNING_THRESHOLD_BPS: u64 = 8_000;

/// Lifetime of a push notification: 24 hours.
pub const NOTIFICATION_LIFETIME_SECONDS: u64 = 24 * 3600;

/// Estimated size of content at a given quality.
pub open spec fn content_size(quality: OfflineQuality) -> u64 {
    match quality {
        OfflineQuality::TextOnly => 102_400u64,
        OfflineQuality::LowQuality => 52_428_800u64,
        OfflineQuality::StandardQuality => 209_715_200u64,
        OfflineQuality::HighQuality => 524_288_000u64,
    }
}

/// The fraud score of a payment of `amount`.
pub open spec fn fraud_score(amount: u64) -> u32 {
    if amount <= 100 { 5 } else if amount <= 1000 { 15 } else if amount <= 5000 { 25 } else { 40 }
}

/// The confirmation code of a payment at ledger `sequence`: the last six
/// decimal digits of the sequence as four big-endian bytes.
pub open spec fn confirmation_code(sequence: u32) -> Seq<u8> {
    let c = sequence % 1_000_000;
    seq![(c / 16_777_216) as u8, ((c / 65_536) % 256) as u8, ((c / 256) % 256) as u8, (c % 256) as u8]
}

/// The bytes of "UTC".
pub open spec fn utc_bytes() -> Seq<u8> {
    seq![85u8, 84u8, 67u8]
}

/// The defaults a new profile starts with, besides the caller's device and
/// preferences.
pub open spec fn has_default_settings(p: MobileProfile, now: u64) -> bool {
    &&& p.offline_settings.auto_download_enabled
    &&& p.offline_settings.download_quality == OfflineQuality::StandardQuality
    &&& p.offline_settings.storage_limit == DEFAULT_OFFLINE_STORAGE_LIMIT
    &&& p.offline_settings.sync_strategy == SyncStrategy::WiFiOnly
    &&& p.offline_settings.offline_duration == DEFAULT_OFFLINE_DURATION_HOURS
    &&& p.offline_settings.priority_content@.len() == 0
    &&& p.offline_settings.compression_enabled
    &&& p.notification_preferences.learning_reminders
    &&& p.notification_preferences.deadline_alerts
    &&& p.notification_preferences.achievement_notifications
    &&& !p.notification_preferences.social_updates
    &&& p.notification_preferences.content_updates
    &&& p.notification_preferences.quiet_hours.start_hour == 22
    &&& p.notification_preferences.quiet_hours.end_hour == 8
    &&& p.notification_preferences.quiet_hours.timezone@ == utc_bytes()
    &&& p.notification_preferences.frequency_limit == 10
    &&& p.notification_preferences.sound_enabled
    &&& p.notification_preferences.vibration_enabled
    &&& p.notification_preferences.led_enabled
    &&& !p.security_settings.biometric_enabled
    &&& p.security_settings.biometric_type == BiometricType::Fingerprint
    &&& p.security_settings.pin_required
    &&& !p.security_settings.two_factor_enabled
    &&& p.security_settings.session_timeout == 30
    &&& p.security_settings.encryption_enabled
    &&& !p.security_settings.remote_wipe_enabled
    &&& p.security_settings.trusted_devices@.len() == 0
    &&& p.security_settings.login_attempts == 0
    &&& p.security_settings.max_login_attempts == 5
    &&& p.payment_methods@.len() == 0
    &&& !p.accessibility_settings.screen_reader_enabled
    &&& !p.accessibility_settings.high_contrast_enabled
    &&& !p.accessibility_settings.large_text_enabled
    &&& !p.accessibility_settings.voice_control_enabled
    &&& !p.accessibility_settings.gesture_navigation_enabled
    &&& p.accessibility_settings.haptic_feedback_enabled
    &&& p.accessibility_settings.color_blind_mode == ColorBlindMode::Off
    &&& p.last_sync == now
    &&& p.data_usage.total_downloaded == 0
    &&& p.data_usage.total_uploaded == 0
    &&& p.data_usage.cached_data == 0
    &&& p.data_usage.streaming_data == 0
    &&& p.data_usage.last_reset == now
    &&& p.data_usage.daily_limit == DEFAULT_DAILY_DATA_LIMIT
    &&& p.data_usage.warning_threshold == DEFAULT_WARNING_THRESHOLD_BPS
}

/// The bytes of a short ASCII text.
fn bytes_of(text: &[u8]) -> (r: Vec<u8>)
    ensures
        r@ == text@,
{
    let mut r: Vec<u8> = Vec::new();
    let mut i: usize = 0;
    while i < text.len()
        invariant
            i <= text@.len(),
            r@ == text@.subrange(0, i as int),
        decreases text@.len() - i,
    {
        r.push(text[i]);
        i = i + 1;
        assert(r@ =~= text@.subrange(0, i as int));
    }
    assert(r@ =~= text@);
    r
}

/// The mobile platform's rules.  Profiles, downloads, notifications,
/// payments and security events are kept per user by the caller.
#[derive(Clone)]
pub struct MobilePlatformManager;

impl MobilePlatformManager {
    /// A new profile for `user` with the caller's device and preferences and
    /// the default offline, notification, security, accessibility and
    /// data-usage settings, last synchronised at `now`.
    pub fn initialize_mobile_profile(user: AccountId, device_info: DeviceInfo, preferences: MobilePreferences, now: u64)
        -> (r: Result<MobileProfile, MobilePlatformError>)
        ensures
            r matches Ok(p) && p.user == user && p.device_info == device_info && p.preferences == preferences
                && has_default_settings(p, now),
    {
        let mobile_profile = MobileProfile {
            user,
            device_info,
            preferences,
            offline_settings: OfflineSettings {
                auto_download_enabled: true,
                download_quality: OfflineQuality::StandardQuality,
                storage_limit: DEFAULT_OFFLINE_STORAGE_LIMIT,
                sync_strategy: SyncStrategy::WiFiOnly,
                offline_duration: DEFAULT_OFFLINE_DURATION_HOURS,
                priority_content: Vec::new(),
                compression_enabled: true,
            },
            notification_preferences: NotificationPreferences {
                learning_reminders: true,
                deadline_alerts: true,
                achievement_notifications: true,
                social_updates: false,
                content_updates: true,
                quiet_hours: TimeRange {
                    start_hour: 22,
                    end_hour: 8,
                    timezone: bytes_of(&[85u8, 84u8, 67u8]),
                },
                frequency_limit: 10,
                sound_enabled: true,
                vibration_enabled: true,
                led_enabled: true,
            },
            security_settings: MobileSecuritySettings {
                biometric_enabled: false,
                biometric_type: BiometricType::Fingerprint,
                pin_required: true,
                two_factor_enabled: false,
                session_timeout: 30,
                encryption_enabled: true,
                remote_wipe_enabled: false,
                trusted_devices: Vec::new(),
                login_attempts: 0,
                max_login_attempts: 5,
            },
            payment_methods: Vec::new(),
            accessibility_settings: MobileAccessibilitySettings {
                screen_reader_enabled: false,
                high_contrast_enabled: false,
                large_text_enabled: false,
                voice_control_enabled: false,
                gesture_navigation_enabled: false,
                haptic_feedback_enabled: true,
                color_blind_mode: ColorBlindMode::Off,
            },
            last_sync: now,
            data_usage: DataUsageTracking {
                total_downloaded: 0,
                total_uploaded: 0,
                cached_data: 0,
                streaming_data: 0,
                last_reset: now,
                daily_limit: DEFAULT_DAILY_DATA_LIMIT,
                warning_threshold: DEFAULT_WARNING_THRESHOLD_BPS,
            },
        };
        Ok(mobile_profile)
    }

    /// Download `content_id` at `quality` for offline use.  Refused once the
    /// profile has already downloaded more than its storage limit.  The
    /// content stays available for the profile's offline duration (hours);
    /// its size counts towards the downloaded total, and the profile is
    /// synchronised at `now`.
    pub fn download_offline_content(profile: &mut MobileProfile, content_id: u64, quality: OfflineQuality, now: u64)
        -> (r: Result<OfflineContent, MobilePlatformError>)
        requires
            old(profile).data_usage.total_downloaded + content_size(quality) <= u64::MAX,
            now + old(profile).offline_settings.offline_duration * 3600 <= u64::MAX,
        ensures
            old(profile).data_usage.total_downloaded > old(profile).offline_settings.storage_limit ==>
                (r matches Err(e) && e == MobilePlatformError::InsufficientStorage && *final(profile) == *old(profile)),
            old(profile).data_usage.total_downloaded <= old(profile).offline_settings.storage_limit ==> {
                &&& r matches Ok(c) && c.content_id == content_id && c.content_type == OfflineContentType::VideoLesson
                    && c.file_size == content_size(quality) && c.compressed_size == content_size(quality) * 70 / 100
                    && c.download_date == now && c.expiry_date == now + old(profile).offline_settings.offline_duration * 3600
                    && c.is_available && c.version == 1 && c.dependencies@.len() == 0
                &&& *final(profile) == (MobileProfile {
                    last_sync: now,
                    data_usage: DataUsageTracking {
                        total_downloaded: (old(profile).data_usage.total_downloaded + content_size(quality)) as u64,
                        ..old(profile).data_usage
                    },
                    ..*old(profile)
                })
            },
    {
        if profile.data_usage.total_downloaded > profile.offline_settings.storage_limit {
            return Err(MobilePlatformError::InsufficientStorage);
        }
        let file_size = Self::estimate_content_size(content_id, quality);
        let offline_content = OfflineContent {
            content_id,
            content_type: OfflineContentType::VideoLesson,
            local_path: bytes_of(&[47u8, 111u8, 102u8, 102u8, 108u8, 105u8, 110u8, 101u8, 47u8, 99u8, 111u8, 110u8, 116u8, 101u8, 110u8, 116u8, 47u8]),
            file_size,
            compressed_size: Self::estimate_compressed_size(content_id, quality),
            download_date: now,
            expiry_date: now + profile.offline_settings.offline_duration * 3600,
            is_available: true,
            version: 1,
            dependencies: Vec::new(),
        };
        profile.data_usage.total_downloaded = profile.data_usage.total_downloaded + file_size;
        profile.last_sync = now;
        Ok(offline_content)
    }

    /// A push notification to `user`, identified by the ledger `sequence`,
    /// scheduled at `now` and expiring 24 hours later.
    pub fn send_push_notification(
        user: AccountId,
        notification_type: NotificationType,
        title: Vec<u8>,
        message: Vec<u8>,
        priority: NotificationPriority,
        now: u64,
        sequence: u32,
    ) -> (r: Result<PushNotification, MobilePlatformError>)
        requires
            now + NOTIFICATION_LIFETIME_SECONDS <= u64::MAX,
        ensures
            r matches Ok(n) && n.id == sequence as u64 && n.user == user && n.notification_type == notification_type
                && n.title == title && n.message == message && n.data@.len() == 0 && n.priority == priority
                && n.scheduled_time == now && n.expiry_time == now + NOTIFICATION_LIFETIME_SECONDS
                && !n.is_read && n.action_buttons@.len() == 0,
    {
        Ok(PushNotification {
            id: sequence as u64,
            user,
            notification_type,
            title,
            message,
            data: Vec::new(),
            priority,
            scheduled_time: now,
            expiry_time: now + NOTIFICATION_LIFETIME_SECONDS,
            is_read: false,
            action_buttons: Vec::new(),
        })
    }

    /// A pending payment of `amount` by `user` with one of the profile's
    /// payment methods, identified by the ledger `sequence`, in USD to
    /// TeachLink, with its confirmation code and fraud score.  Refused when
    /// the profile has no method with id `payment_method_id`.
    pub fn process_mobile_payment(
        profile: &MobileProfile,
        user: AccountId,
        payment_method_id: u64,
        amount: u64,
        description: Vec<u8>,
        now: u64,
        sequence: u32,
    ) -> (r: Result<MobileTransaction, MobilePlatformError>)
        ensures
            !(exists|i: int| 0 <= i < profile.payment_methods@.len() && #[trigger] profile.payment_methods@[i].id == payment_method_id) ==>
                (r matches Err(e) && e == MobilePlatformError::PaymentFailed),
            (exists|i: int| 0 <= i < profile.payment_methods@.len() && #[trigger] profile.payment_methods@[i].id == payment_method_id) ==>
                (r matches Ok(t) && t.id == sequence as u64 && t.user == user && t.payment_method_id == payment_method_id
                    && t.amount == amount && t.currency@ == seq![85u8, 83u8, 68u8] && t.description == description
                    && t.merchant@ == seq![84u8, 101u8, 97u8, 99u8, 104u8, 76u8, 105u8, 110u8, 107u8]
                    && t.status == TransactionStatus::Pending && t.timestamp == now
                    && t.confirmation_code@ == confirmation_code(sequence) && t.fraud_score == fraud_score(amount)),
    {
        let payment_method = Self::get_payment_method(profile, payment_method_id);
        if payment_method.is_none() {
            return Err(MobilePlatformError::PaymentFailed);
        }
        Ok(MobileTransaction {
            id: sequence as u64,
            user,
            payment_method_id,
            amount,
            currency: bytes_of(&[85u8, 83u8, 68u8]),
            description,
            merchant: bytes_of(&[84u8, 101u8, 97u8, 99u8, 104u8, 76u8, 105u8, 110u8, 107u8]),
            status: TransactionStatus::Pending,
            timestamp: now,
            confirmation_code: Self::generate_confirmation_code(sequence),
            fraud_score: Self::calculate_fraud_score(user, amount),
        })
    }

    /// A security event for `user`, identified by the ledger `sequence` and
    /// recorded at `now`, not yet resolved.
    pub fn record_security_event(
        user: AccountId,
        event_type: SecurityEventType,
        device_id: Vec<u8>,
        location: Option<LocationData>,
        severity: SecuritySeverity,
        now: u64,
        sequence: u32,
    ) -> (r: Result<SecurityEvent, MobilePlatformError>)
        ensures
            r matches Ok(e) && e.id == sequence as u64 && e.user == user && e.event_type == event_type
                && e.device_id == device_id && e.location == location && e.timestamp == now
                && e.severity == severity && !e.resolved,
    {
        Ok(SecurityEvent {
            id: sequence as u64,
            user,
            event_type,
            device_id,
            location,
            timestamp: now,
            severity,
            resolved: false,
        })
    }

    /// Estimated size of content at `quality`.
    pub fn estimate_content_size(content_id: u64, quality: OfflineQuality) -> (s: u64)
        ensures
            s == content_size(quality),
    {
        match quality {
            OfflineQuality::TextOnly => 1024 * 100,
            OfflineQuality::LowQuality => 1024 * 1024 * 50,
            OfflineQuality::StandardQuality => 1024 * 1024 * 200,
            OfflineQuality::HighQuality => 1024 * 1024 * 500,
        }
    }

    /// Estimated size after compression: 70 % of the original.
    pub fn estimate_compressed_size(content_id: u64, quality: OfflineQuality) -> (s: u64)
        ensures
            s == content_size(quality) * 70 / 100,
    {
        let original_size = Self::estimate_content_size(content_id, quality);
        (original_size * 70) / 100
    }

    /// The first of the profile's payment methods with id `payment_method_id`.
    pub fn get_payment_method(profile: &MobileProfile, payment_method_id: u64) -> (r: Option<&MobilePaymentMethod>)
        ensures
            match r {
                Some(m) => exists|i: int| 0 <= i < profile.payment_methods@.len()
                    && *m == profile.payment_methods@[i] && m.id == payment_method_id
                    && forall|j: int| 0 <= j < i ==> #[trigger] profile.payment_methods@[j].id != payment_method_id,
                None => forall|i: int| 0 <= i < profile.payment_methods@.len() ==> #[trigger] profile.payment_methods@[i].id != payment_method_id,
            },
    {
        let mut i: usize = 0;
        while i < profile.payment_methods.len()
            invariant
                i <= profile.payment_methods@.len(),
                forall|j: int| 0 <= j < i ==> #[trigger] profile.payment_methods@[j].id != payment_method_id,
            decreases profile.payment_methods@.len() - i,
        {
            if profile.payment_methods[i].id == payment_method_id {
                return Some(&profile.payment_methods[i]);
            }
            i = i + 1;
        }
        None
    }

    /// The confirmation code for a payment at ledger `sequence`.
    pub fn generate_confirmation_code(sequence: u32) -> (code: Vec<u8>)
        ensures
            code@ == confirmation_code(sequence),
    {
        let c = sequence % 1_000_000;
        let mut code: Vec<u8> = Vec::new();
        code.push((c / 16_777_216) as u8);
        code.push(((c / 65_536) % 256) as u8);
        code.push(((c / 256) % 256) as u8);
        code.push((c % 256) as u8);
        code
    }

    /// The fraud score of a payment: 5 up to 100, 15 up to 1 000, 25 up to
    /// 5 000, 40 above.
    pub fn calculate_fraud_score(user: AccountId, amount: u64) -> (s: u32)
        ensures
            s == fraud_score(amount),
    {
        if amount <= 100 {
            5
        } else if amount <= 1000 {
            15
        } else if amount <= 5000 {
            25
        } else {
            40
        }
    }
}

/// The records a user's list under `user` holds, oldest first.
pub open spec fn list_of<T>(m: Map<u64, Vec<T>>, user: AccountId) -> Seq<T> {
    if m.contains_key(user) { m[user]@ } else { Seq::empty() }
}

/// Append `item` to the list of `user`.
pub fn push_for<T>(lists: &mut IdMap<Vec<T>>, user: AccountId, item: T)
    requires
        old(lists).wf(),
    ensures
        final(lists).wf(),
        list_of(final(lists)@, user) == list_of(old(lists)@, user).push(item),
        final(lists)@ == old(lists)@.insert(user, final(lists)@[user]),
{
    let mut list = match lists.remove(user) {
        Some(l) => l,
        None => Vec::new(),
    };
    list.push(item);
    lists.insert(user, list);
}

/// Stored mobile profiles and the per-user records.
#[derive(Clone)]
pub struct MobileStore {
    pub profiles: IdMap<MobileProfile>,
    pub offline_content: IdMap<Vec<OfflineContent>>,
    pub push_notifications: IdMap<Vec<PushNotification>>,
    pub payments: IdMap<Vec<MobileTransaction>>,
    pub security_events: IdMap<Vec<SecurityEvent>>,
}

impl MobileStore {
    /// Tables are well formed.
    pub open spec fn wf(&self) -> bool {
        &&& self.profiles.wf()
        &&& self.offline_content.wf()
        &&& self.push_notifications.wf()
        &&& self.payments.wf()
        &&& self.security_events.wf()
    }

    /// Nothing stored.
    pub fn new() -> (m: Self)
        ensures
            m.wf(),
            m.profiles@ == Map::<u64, MobileProfile>::empty(),
            m.offline_content@ == Map::<u64, Vec<OfflineContent>>::empty(),
            m.push_notifications@ == Map::<u64, Vec<PushNotification>>::empty(),
            m.payments@ == Map::<u64, Vec<MobileTransaction>>::empty(),
            m.security_events@ == Map::<u64, Vec<SecurityEvent>>::empty(),
    {
        MobileStore {
            profiles: IdMap::new(),
            offline_content: IdMap::new(),
            push_notifications: IdMap::new(),
            payments: IdMap::new(),
            security_events: IdMap::new(),
        }
    }

    /// The profile of `user`; a user without one is refused as an
    /// unsupported device.
    pub fn get_mobile_profile(&self, user: AccountId) -> (r: Result<&MobileProfile, MobilePlatformError>)
        requires
            self.wf(),
        ensures
            match r {
                Ok(p) => self.profiles@.contains_key(user) && *p == self.profiles@[user],
                Err(e) => !self.profiles@.contains_key(user) && e == MobilePlatformError::DeviceNotSupported,
            },
    {
        match self.profiles.get(user) {
            Some(p) => Ok(p),
            None => Err(MobilePlatformError::DeviceNotSupported),
        }
    }

    /// Store `profile` for `user`.
    pub fn set_mobile_profile(&mut self, user: AccountId, profile: MobileProfile)
        requires
            old(self).wf(),
        ensures
            final(self).wf(),
            final(self).profiles@ == old(self).profiles@.insert(user, profile),
            final(self).offline_content == old(self).offline_content,
            final(self).push_notifications == old(self).push_notifications,
            final(self).payments == old(self).payments,
            final(self).security_events == old(self).security_events,
    {
        self.profiles.insert(user, profile);
    }

    /// Keep `content` among the offline content of `user`.
    pub fn add_offline_content(&mut self, user: AccountId, content: OfflineContent)
        requires
            old(self).wf(),
        ensures
            final(self).wf(),
            list_of(final(self).offline_content@, user) == list_of(old(self).offline_content@, user).push(content),
            forall|u: AccountId| u != user ==> #[trigger] list_of(final(self).offline_content@, u) == list_of(old(self).offline_content@, u),
            final(self).profiles == old(self).profiles,
            final(self).push_notifications == old(self).push_notifications,
            final(self).payments == old(self).payments,
            final(self).security_events == old(self).security_events,
    {
        push_for(&mut self.offline_content, user, content);
    }

    /// Keep `notification` among the push notifications of `user`.
    pub fn add_push_notification(&mut self, user: AccountId, notification: PushNotification)
        requires
            old(self).wf(),
        ensures
            final(self).wf(),
            list_of(final(self).push_notifications@, user) == list_of(old(self).push_notifications@, user).push(notification),
            forall|u: AccountId| u != user ==> #[trigger] list_of(final(self).push_notifications@, u) == list_of(old(self).push_notifications@, u),
            final(self).profiles == old(self).profiles,
            final(self).offline_content == old(self).offline_content,
            final(self).payments == old(self).payments,
            final(self).security_events == old(self).security_events,
    {
        push_for(&mut self.push_notifications, user, notification);
    }

    /// Keep `transaction` among the payments of its user.
    pub fn add_mobile_transaction(&mut self, transaction: MobileTransaction)
        requires
            old(self).wf(),
        ensures
            final(self).wf(),
            list_of(final(self).payments@, transaction.user) == list_of(old(self).payments@, transaction.user).push(transaction),
            forall|u: AccountId| u != transaction.user ==> #[trigger] list_of(final(self).payments@, u) == list_of(old(self).payments@, u),
            final(self).profiles == old(self).profiles,
            final(self).offline_content == old(self).offline_content,
            final(self).push_notifications == old(self).push_notifications,
            final(self).security_events == old(self).security_events,
    {
        let user = transaction.user;
        push_for(&mut self.payments, user, transaction);
    }

    /// Keep `event` among the security events of `user`.
    pub fn add_security_event(&mut self, user: AccountId, event: SecurityEvent)
        requires
            old(self).wf(),
        ensures
            final(self).wf(),
            list_of(final(self).security_events@, user) == list_of(old(self).security_events@, user).push(event),
            forall|u: AccountId| u != user ==> #[trigger] list_of(final(self).security_events@, u) == list_of(old(self).security_events@, u),
            final(self).profiles == old(self).profiles,
            final(self).offline_content == old(self).offline_content,
            final(self).push_notifications == old(self).push_notifications,
            final(self).payments == old(self).payments,
    {
        push_for(&mut self.security_events, user, event);
    }
}

} // verus!
