use slack_coder::slack::metrics::{ResultMessage, UsageData};
use slack_coder::slack::UsageMetrics;

#[test]
fn test_usage_metrics_from_result_message() {
    let result = ResultMessage {
        subtype: "query_complete".to_string(),
        duration_ms: 1500,
        duration_api_ms: 1200,
        is_error: false,
        num_turns: 3,
        session_id: "test-session-123".to_string(),
        total_cost_usd: Some(4_200),
        usage: Some(UsageData {
            input_tokens: 2095,
            output_tokens: 503,
            cache_creation_input_tokens: 100,
            cache_read_input_tokens: 50,
        }),
        result: None,
    };

    let metrics = UsageMetrics::from_result_message(&result);

    assert_eq!(metrics.input_tokens, 2095);
    assert_eq!(metrics.output_tokens, 503);
    assert_eq!(metrics.total_tokens, 2598);
    assert_eq!(metrics.cache_creation_input_tokens, 100);
    assert_eq!(metrics.cache_read_input_tokens, 50);
    assert_eq!(metrics.cost_usd, Some(4_200));
    assert_eq!(metrics.duration_ms, 1500);
    assert_eq!(metrics.num_turns, 3);
    assert_eq!(metrics.session_id, "test-session-123");
}

#[test]
fn test_usage_metrics_missing_usage() {
    let result = ResultMessage {
        subtype: "query_complete".to_string(),
        duration_ms: 1500,
        duration_api_ms: 1200,
        is_error: false,
        num_turns: 3,
        session_id: "test-session-123".to_string(),
        total_cost_usd: None,
        usage: None,
        result: None,
    };

    let metrics = UsageMetrics::from_result_message(&result);

    assert_eq!(metrics.input_tokens, 0);
    assert_eq!(metrics.output_tokens, 0);
    assert_eq!(metrics.total_tokens, 0);
    assert_eq!(metrics.cost_usd, None);
}

#[test]
fn test_format_slack_message() {
    let metrics = UsageMetrics {
        input_tokens: 2095,
        output_tokens: 503,
        total_tokens: 2598,
        cache_creation_input_tokens: 100,
        cache_read_input_tokens: 50,
        cost_usd: Some(4_200),
        duration_ms: 1500,
        duration_api_ms: 1200,
        num_turns: 3,
        session_id: "test-session-123".to_string(),
    };

    let message = metrics.format_slack_message();

    assert!(message.contains("2095 input"));
    assert!(message.contains("503 output"));
    assert!(message.contains("2598 total"));
    assert!(message.contains("$0.0042 USD"));
    assert!(message.contains("1.50s"));
    assert!(message.contains("1.20s"));
    assert!(message.contains("Turns: 3"));
    assert!(message.contains("test-session-123"));
    assert!(message.contains("100 created"));
    assert!(message.contains("50 read"));
}

#[test]
fn test_format_slack_message_no_cost() {
    let metrics = UsageMetrics {
        input_tokens: 100,
        output_tokens: 50,
        total_tokens: 150,
        cache_creation_input_tokens: 0,
        cache_read_input_tokens: 0,
        cost_usd: None,
        duration_ms: 500,
        duration_api_ms: 400,
        num_turns: 1,
        session_id: "test-session".to_string(),
    };

    let message = metrics.format_slack_message();

    assert!(message.contains("N/A"));
    assert!(!message.contains("Cache:"));
}

#[test]
fn metrics_are_written_exactly() {
    let metrics = UsageMetrics {
        input_tokens: 1,
        output_tokens: 2,
        total_tokens: 3,
        cache_creation_input_tokens: 0,
        cache_read_input_tokens: 7,
        cost_usd: Some(12_345_678),
        duration_ms: 61_005,
        duration_api_ms: 4,
        num_turns: 0,
        session_id: "s".to_string(),
    };
    assert_eq!(
        metrics.format_slack_message(),
        "📊 *Query Metrics*\n• Tokens: 1 input + 2 output = *3 total*\n• Cost: $12.3457 USD\n• Duration: 61.01s (API: 0.00s)\n• Turns: 0\n• Session: `s`\n• Cache: 0 created, 7 read"
    );
}

#[test]
fn totals_saturate() {
    let result = ResultMessage {
        subtype: String::new(),
        duration_ms: u64::MAX,
        duration_api_ms: 0,
        is_error: true,
        num_turns: u32::MAX,
        session_id: String::new(),
        total_cost_usd: Some(u64::MAX),
        usage: Some(UsageData {
            input_tokens: u64::MAX,
            output_tokens: 1,
            cache_creation_input_tokens: 0,
            cache_read_input_tokens: 0,
        }),
        result: None,
    };
    let metrics = UsageMetrics::from_result_message(&result);
    assert_eq!(metrics.total_tokens, u64::MAX);
    let text = metrics.format_slack_message();
    assert!(text.contains("$18446744073709.5516 USD"));
    assert!(text.contains("Duration: 18446744073709551.62s"));
    assert_eq!(result.clone().duration_ms, u64::MAX);
}
