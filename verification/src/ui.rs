//! Data types consumed by a user-interface layer on top of the node. They
//! carry plain values only; rendering and transport live outside the
//! library.

use vstd::prelude::*;

verus! {

/// Connection quality levels.
#[derive(Debug, Clone, Copy, PartialEq, Eq, Structural)]
pub enum ConnectionQuality {
    Excellent,
    Good,
    Fair,
    Poor,
    Disconnected,
}

/// AIbox mood states.
#[derive(Debug, Clone, Copy, PartialEq, Eq, Structural)]
pub enum AiboxMood {
    Happy,
    Content,
    Neutral,
    Concerned,
    Stressed,
}

/// Activity types.
#[derive(Debug, Clone, Copy, PartialEq, Eq, Structural)]
pub enum ActivityType {
    TaskStarted,
    TaskCompleted,
    TaskFailed,
    MessageReceived,
    MessageSent,
    PermissionChanged,
    ResourceAllocated,
    StorageFragmentStored,
}

/// Activity status.
#[derive(Debug, Clone, Copy, PartialEq, Eq, Structural)]
pub enum ActivityStatus {
    InProgress,
    Completed,
    Failed,
    Pending,
}

/// Task priority levels.
#[derive(Debug, Clone, Copy, PartialEq, Eq, Structural)]
pub enum TaskPriority {
    Low,
    Normal,
    High,
    Critical,
}

/// Task status.
#[derive(Debug, Clone, Copy, PartialEq, Eq, Structural)]
pub enum TaskStatus {
    Pending,
    Running,
    Paused,
    Completed,
    Failed,
    Cancelled,
}

/// Task types.
#[derive(Debug, Clone, Copy, PartialEq, Eq, Structural)]
pub enum TaskType {
    MachineLearning,
    DataProcessing,
    ImageRecognition,
    TextAnalysis,
    ModelTraining,
    Inference,
}

/// Task complexity levels.
#[derive(Debug, Clone, Copy, PartialEq, Eq, Structural)]
pub enum TaskComplexity {
    Low,
    Medium,
    High,
    Extreme,
}

/// Verification methods.
#[derive(Debug, Clone, Copy, PartialEq, Eq, Structural)]
pub enum VerificationMethod {
    CryptographicSignature,
    ProofOfWork,
    Consensus,
    Manual,
}

/// Security levels.
#[derive(Debug, Clone, Copy, PartialEq, Eq, Structural)]
pub enum SecurityLevel {
    Standard,
    Isolated,
    Sandboxed,
    Encrypted,
}

/// Fragment status.
#[derive(Debug, Clone, Copy, PartialEq, Eq, Structural)]
pub enum FragmentStatus {
    Active,
    Recovering,
    Corrupted,
    Missing,
}

/// Message types.
#[derive(Debug, Clone, Copy, PartialEq, Eq, Structural)]
pub enum MessageType {
    ResourceRequest,
    PhilosophicalQuestion,
    SystemNotification,
    FeedbackRequest,
    EmergencyAlert,
    Greeting,
    TaskUpdate,
}

/// Message priority levels.
#[derive(Debug, Clone, Copy, PartialEq, Eq, Structural)]
pub enum MessagePriority {
    Low,
    Normal,
    High,
    Critical,
}

/// Storage types.
#[derive(Debug, Clone, Copy, PartialEq, Eq, Structural)]
pub enum StorageType {
    LocalDisk,
    NetworkStorage,
    CloudStorage,
    MemoryStorage,
}

/// Trend direction.
#[derive(Debug, Clone, Copy, PartialEq, Eq, Structural)]
pub enum TrendDirection {
    Increasing,
    Stable,
    Decreasing,
}

/// Region information: share and count of fragments in one region.
#[derive(Debug, Clone, Copy, PartialEq, Eq, Structural)]
pub struct RegionInfo {
    /// Percentage of fragments in this region.
    pub percentage: u8,
    /// Number of fragments in this region.
    pub fragment_count: u32,
}

/// Geographic distribution of data fragments.
#[derive(Debug, Clone, Copy, PartialEq, Eq, Structural)]
pub struct GeographicDistribution {
    pub europe: RegionInfo,
    pub asia: RegionInfo,
    pub america: RegionInfo,
}

/// Storage security information.
#[derive(Debug, Clone)]
pub struct StorageSecurity {
    /// Encryption algorithm name.
    pub encryption_algorithm: String,
    /// Redundancy factor.
    pub redundancy_factor: u8,
}

/// How many fragments one node stores.
#[derive(Debug, Clone)]
pub struct NodeFragmentInfo {
    /// Node ID.
    pub node_id: String,
    /// Whether this is the user's own node.
    pub is_your_node: bool,
    /// Number of fragments stored on this node.
    pub fragment_count: u32,
}

/// Communication permissions summary.
#[derive(Debug, Clone, Copy, PartialEq, Eq, Structural)]
pub struct CommunicationSummary {
    pub direct_communication_allowed: bool,
    pub max_messages_per_hour: u32,
    pub emergency_contact_allowed: bool,
}

/// Token permissions summary.
#[derive(Debug, Clone, Copy, PartialEq, Eq, Structural)]
pub struct TokenSummary {
    pub max_monthly_earnings: u64,
    pub min_task_reward: u64,
    pub max_single_task_reward: u64,
}

/// Communication settings.
#[derive(Debug, Clone, Copy, PartialEq, Eq, Structural)]
pub struct CommunicationSettings {
    pub direct_communication_allowed: bool,
    pub max_messages_per_hour: u32,
    pub emergency_contact_allowed: bool,
}

/// Token settings.
#[derive(Debug, Clone, Copy, PartialEq, Eq, Structural)]
pub struct TokenSettings {
    pub max_monthly_earnings: u64,
    pub min_task_reward: u64,
    pub max_single_task_reward: u64,
}

/// Time restrictions on when tasks may run.
#[derive(Debug, Clone)]
pub struct TimeRestrictions {
    /// Start hour (0-23).
    pub start_hour: u8,
    /// End hour (0-23).
    pub end_hour: u8,
    /// Allowed days of week (0=Monday, 6=Sunday).
    pub allowed_days: Vec<u8>,
    pub allow_weekends: bool,
    pub allow_holidays: bool,
}

/// Trend analysis across the network.
#[derive(Debug, Clone, Copy, PartialEq, Eq, Structural)]
pub struct TrendAnalysis {
    pub network_growth_trend: TrendDirection,
    pub performance_trend: TrendDirection,
    pub token_earning_trend: TrendDirection,
}

/// Errors a user-interface layer can receive.
#[derive(Debug, Clone)]
pub enum UiApiError {
    NetworkError(String),
    PermissionDenied(String),
    ResourceAllocationFailed(String),
    TaskExecutionFailed(String),
    StorageOperationFailed(String),
    CommunicationFailed(String),
    InvalidData(String),
    SystemError(String),
}

/// Result type for UI API operations.
pub type UiApiResult<T> = Result<T, UiApiError>;

impl UiApiError {
    /// The human-readable text of the error: a fixed phrase naming the
    /// kind, then the carried detail.
    pub fn message(&self) -> (r: String)
        ensures
            self matches UiApiError::NetworkError(s) ==> r@ == "Network connection failed: "@
                + s@,
            self matches UiApiError::PermissionDenied(s) ==> r@ == "Permission denied: "@ + s@,
            self matches UiApiError::ResourceAllocationFailed(s) ==> r@
                == "Resource allocation failed: "@ + s@,
            self matches UiApiError::TaskExecutionFailed(s) ==> r@ == "Task execution failed: "@
                + s@,
            self matches UiApiError::StorageOperationFailed(s) ==> r@
                == "Storage operation failed: "@ + s@,
            self matches UiApiError::CommunicationFailed(s) ==> r@ == "Communication failed: "@
                + s@,
            self matches UiApiError::InvalidData(s) ==> r@ == "Invalid data: "@ + s@,
            self matches UiApiError::SystemError(s) ==> r@ == "System error: "@ + s@,
    {
        match self {
            UiApiError::NetworkError(s) => {
                let mut r = String::from_str("Network connection failed: ");
                r.append(s.as_str());
                r
            },
            UiApiError::PermissionDenied(s) => {
                let mut r = String::from_str("Permission denied: ");
                r.append(s.as_str());
                r
            },
            UiApiError::ResourceAllocationFailed(s) => {
                let mut r = String::from_str("Resource allocation failed: ");
                r.append(s.as_str());
                r
            },
            UiApiError::TaskExecutionFailed(s) => {
                let mut r = String::from_str("Task execution failed: ");
                r.append(s.as_str());
                r
            },
            UiApiError::StorageOperationFailed(s) => {
                let mut r = String::from_str("Storage operation failed: ");
                r.append(s.as_str());
                r
            },
            UiApiError::CommunicationFailed(s) => {
                let mut r = String::from_str("Communication failed: ");
                r.append(s.as_str());
                r
            },
            UiApiError::InvalidData(s) => {
                let mut r = String::from_str("Invalid data: ");
                r.append(s.as_str());
                r
            },
            UiApiError::SystemError(s) => {
                let mut r = String::from_str("System error: ");
                r.append(s.as_str());
                r
            },
        }
    }
}

} // verus!
