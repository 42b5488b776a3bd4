use mycelium_node::ui::CommunicationSummary;
use mycelium_node::ui::GeographicDistribution;
use mycelium_node::ui::RegionInfo;
use mycelium_node::ui::TimeRestrictions;
use mycelium_node::ui::TokenSummary;
use mycelium_node::ui::TrendAnalysis;
use mycelium_node::ui::TrendDirection;
use mycelium_node::ui::UiApiError;

#[test]
fn error_messages_carry_kind_and_detail() {
    assert_eq!(
        UiApiError::NetworkError(String::from("timeout")).message(),
        "Network connection failed: timeout"
    );
    assert_eq!(
        UiApiError::PermissionDenied(String::from("cpu")).message(),
        "Permission denied: cpu"
    );
    assert_eq!(
        UiApiError::ResourceAllocationFailed(String::from("ram")).message(),
        "Resource allocation failed: ram"
    );
    assert_eq!(
        UiApiError::TaskExecutionFailed(String::from("t1")).message(),
        "Task execution failed: t1"
    );
    assert_eq!(
        UiApiError::StorageOperationFailed(String::from("disk full")).message(),
        "Storage operation failed: disk full"
    );
    assert_eq!(
        UiApiError::CommunicationFailed(String::from("offline")).message(),
        "Communication failed: offline"
    );
    assert_eq!(UiApiError::InvalidData(String::from("nan")).message(), "Invalid data: nan");
    assert_eq!(UiApiError::SystemError(String::from("io")).message(), "System error: io");
}

#[test]
fn ui_value_types_hold_plain_values() {
    let distribution = GeographicDistribution {
        europe: RegionInfo { percentage: 45, fragment_count: 562 },
        asia: RegionInfo { percentage: 32, fragment_count: 399 },
        america: RegionInfo { percentage: 23, fragment_count: 286 },
    };
    assert_eq!(
        distribution.europe.percentage + distribution.asia.percentage
            + distribution.america.percentage,
        100
    );

    let communication = CommunicationSummary {
        direct_communication_allowed: true,
        max_messages_per_hour: 10,
        emergency_contact_allowed: true,
    };
    assert!(communication.direct_communication_allowed);

    let token = TokenSummary {
        max_monthly_earnings: 1000,
        min_task_reward: 5,
        max_single_task_reward: 100,
    };
    assert!(token.min_task_reward <= token.max_single_task_reward);

    let restrictions = TimeRestrictions {
        start_hour: 8,
        end_hour: 20,
        allowed_days: vec![0, 1, 2, 3, 4],
        allow_weekends: false,
        allow_holidays: false,
    };
    assert_eq!(restrictions.allowed_days.len(), 5);

    let trends = TrendAnalysis {
        network_growth_trend: TrendDirection::Increasing,
        performance_trend: TrendDirection::Stable,
        token_earning_trend: TrendDirection::Increasing,
    };
    assert_eq!(trends.performance_trend, TrendDirection::Stable);
}
