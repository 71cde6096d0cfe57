use glm_usage_tray::api::{
    format_timestamp, render_timestamp, LimitItem, LimitType, UsageData, UsageDetail, UsageLimits,
};

fn item(limit_type: &str, unit: u32, next_reset_time: Option<u64>) -> LimitItem {
    LimitItem {
        limit_type: limit_type.to_string(),
        unit,
        number: 1,
        usage: 100,
        current_value: 40,
        remaining: 60,
        percentage_bits: 40.0f64.to_bits(),
        usage_details: Some(vec![UsageDetail { model_code: "glm-4".to_string(), usage: 40 }]),
        next_reset_time,
    }
}

#[test]
fn limit_type_from_known_names() {
    assert_eq!(LimitType::from_str("TIME_LIMIT"), LimitType::TimeLimit);
    assert_eq!(LimitType::from_str("TOKENS_LIMIT"), LimitType::TokensLimit);
}

#[test]
fn limit_type_from_other_names_is_unknown() {
    assert_eq!(LimitType::from_str(""), LimitType::Unknown);
    assert_eq!(LimitType::from_str("time_limit"), LimitType::Unknown);
    assert_eq!(LimitType::from_str("TOKENS_LIMIT "), LimitType::Unknown);
    assert_eq!(LimitType::from_str("TIME_LIMITS"), LimitType::Unknown);
}

#[test]
fn limit_type_display_names() {
    assert_eq!(LimitType::TimeLimit.display_name(), "时间限额");
    assert_eq!(LimitType::TokensLimit.display_name(), "Token 限额");
    assert_eq!(LimitType::Unknown.display_name(), "未知限额");
}

#[test]
fn limit_item_kind_follows_its_name() {
    assert_eq!(item("TIME_LIMIT", 1, None).get_limit_type(), LimitType::TimeLimit);
    assert_eq!(item("TOKENS_LIMIT", 1, None).get_limit_type(), LimitType::TokensLimit);
    assert_eq!(item("OTHER", 1, None).get_limit_type(), LimitType::Unknown);
}

#[test]
fn render_timestamp_at_epoch() {
    assert_eq!(render_timestamp(0, true), "1970-01-01 08:00");
}

#[test]
fn render_timestamp_in_seconds() {
    assert_eq!(render_timestamp(1_700_000_000, true), "2023-12-02 06:13");
}

#[test]
fn render_timestamp_in_milliseconds() {
    assert_eq!(render_timestamp(1_700_000_000_000, true), "2023-12-02 06:13");
    assert_eq!(render_timestamp(1_700_000_000_999, true), "2023-12-02 06:13");
}

#[test]
fn render_timestamp_at_the_millisecond_threshold() {
    assert_eq!(render_timestamp(1_000_000_000_000, true), "33679-10-20 09:46");
    assert_eq!(render_timestamp(1_000_000_000_001, true), "2001-09-20 09:46");
}

#[test]
fn render_timestamp_of_largest_value() {
    assert_eq!(render_timestamp(u64::MAX, true), "584944387-05-10 22:25");
}

#[test]
fn render_timestamp_not_representable_shows_raw_number() {
    assert_eq!(render_timestamp(1_700_000_000_000, false), "1700000000000");
    assert_eq!(render_timestamp(0, false), "0");
}

#[test]
fn format_timestamp_is_one_of_the_two_renderings() {
    for t in [0u64, 59, 1_700_000_000, 1_700_000_000_000, u64::MAX] {
        let text = format_timestamp(t);
        assert!(text == render_timestamp(t, true) || text == render_timestamp(t, false));
    }
}

#[test]
fn reset_text_with_reset_time() {
    let text = item("TIME_LIMIT", 5, Some(1_700_000_000)).get_reset_time_text();
    assert!(
        text == "重置时间: 2023-12-02 06:13" || text == "重置时间: 1700000000",
        "{}",
        text
    );
    let text = item("TOKENS_LIMIT", 5, Some(0)).get_reset_time_text();
    assert!(text == "重置时间: 1970-01-01 08:00" || text == "重置时间: 0", "{}", text);
}

#[test]
fn reset_text_by_schedule_of_time_limit() {
    assert_eq!(item("TIME_LIMIT", 1, None).get_reset_time_text(), "每小时重置");
    assert_eq!(item("TIME_LIMIT", 5, None).get_reset_time_text(), "每5小时重置");
    assert_eq!(item("TIME_LIMIT", 24, None).get_reset_time_text(), "每天重置");
    assert_eq!(item("TIME_LIMIT", 12, None).get_reset_time_text(), "每12小时重置");
    assert_eq!(item("TIME_LIMIT", 0, None).get_reset_time_text(), "每0小时重置");
    assert_eq!(
        item("TIME_LIMIT", u32::MAX, None).get_reset_time_text(),
        "每4294967295小时重置"
    );
}

#[test]
fn reset_text_unknown_for_other_kinds() {
    assert_eq!(item("TOKENS_LIMIT", 5, None).get_reset_time_text(), "重置时间: 未知");
    assert_eq!(item("", 1, None).get_reset_time_text(), "重置时间: 未知");
}

#[test]
fn cloned_reading_equals_its_source() {
    let usage = UsageData {
        code: 7,
        msg: "m".to_string(),
        data: UsageLimits {
            limits: vec![item("TIME_LIMIT", 1, Some(5)), item("TOKENS_LIMIT", 2, None)],
        },
        success: false,
    };
    let copy = usage.clone();
    assert_eq!(copy, usage);
    assert_eq!(copy.data.limits.len(), 2);
    assert_eq!(copy.data.limits[0].usage_details, usage.data.limits[0].usage_details);
    assert_eq!(f64::from_bits(copy.data.limits[1].percentage_bits), 40.0);
}
