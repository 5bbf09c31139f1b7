use slack_coder::clock::unix_millis;
use slack_coder::metadata::{ChannelInfo, ChannelType, LogContext, UserInfo};

#[test]
fn test_channel_info_display_name() {
    let channel = ChannelInfo {
        id: "C123".to_string(),
        name: "engineering".to_string(),
        channel_type: ChannelType::PublicChannel,
        is_private: false,
        member_count: Some(42),
        fetched_at: unix_millis(),
        topic: None,
    };

    assert_eq!(channel.display_name(), "#engineering");
}

#[test]
fn test_channel_info_dm_display_name() {
    let channel = ChannelInfo {
        id: "D123".to_string(),
        name: "john.doe".to_string(),
        channel_type: ChannelType::DirectMessage,
        is_private: true,
        member_count: Some(2),
        fetched_at: unix_millis(),
        topic: None,
    };

    assert_eq!(channel.display_name(), "john.doe");
}

#[test]
fn test_user_info_best_name() {
    let user = UserInfo {
        id: "U123".to_string(),
        name: "john.doe".to_string(),
        real_name: Some("John Doe".to_string()),
        display_name: Some("Johnny".to_string()),
        email: None,
        is_bot: false,
        fetched_at: unix_millis(),
    };

    assert_eq!(user.best_name(), "Johnny");
    assert_eq!(user.display_name_with_at(), "@Johnny");
}

#[test]
fn test_user_info_fallback_name() {
    let user = UserInfo {
        id: "U123".to_string(),
        name: "john.doe".to_string(),
        real_name: None,
        display_name: None,
        email: None,
        is_bot: false,
        fetched_at: unix_millis(),
    };

    assert_eq!(user.best_name(), "john.doe");
    assert_eq!(user.display_name_with_at(), "@john.doe");
}

#[test]
fn test_log_context_from_ids() {
    let ctx = LogContext::from_ids("C123".to_string(), "U456".to_string());

    assert_eq!(ctx.channel_id, "C123");
    assert_eq!(ctx.channel_name, "C123");
    assert_eq!(ctx.user_id, "U456");
    assert_eq!(ctx.user_name, "U456");
}

#[test]
fn test_log_context_from_metadata() {
    let channel = ChannelInfo {
        id: "C123".to_string(),
        name: "engineering".to_string(),
        channel_type: ChannelType::PublicChannel,
        is_private: false,
        member_count: None,
        fetched_at: unix_millis(),
        topic: None,
    };

    let user = UserInfo {
        id: "U456".to_string(),
        name: "john.doe".to_string(),
        real_name: Some("John Doe".to_string()),
        display_name: None,
        email: None,
        is_bot: false,
        fetched_at: unix_millis(),
    };

    let ctx = LogContext::from_metadata(
        "C123".to_string(),
        Some(&channel),
        "U456".to_string(),
        Some(&user),
    );

    assert_eq!(ctx.channel_id, "C123");
    assert_eq!(ctx.channel_name, "engineering");
    assert_eq!(ctx.channel_display, "#engineering");
    assert_eq!(ctx.user_id, "U456");
    assert_eq!(ctx.user_name, "john.doe");
    assert_eq!(ctx.user_display, "@John Doe");
}

#[test]
fn log_context_without_metadata_falls_back_to_ids() {
    let ctx = LogContext::from_metadata("C1".to_string(), None, "U1".to_string(), None);
    assert_eq!(ctx.channel_name, "C1");
    assert_eq!(ctx.channel_display, "C1");
    assert_eq!(ctx.user_name, "U1");
    assert_eq!(ctx.user_display, "@U1");
}

#[test]
fn private_channel_is_shown_with_hash() {
    let channel = ChannelInfo {
        id: "G1".to_string(),
        name: "secret".to_string(),
        channel_type: ChannelType::PrivateChannel,
        is_private: true,
        member_count: None,
        fetched_at: 0,
        topic: Some("plans".to_string()),
    };
    assert_eq!(channel.display_name(), "#secret");
    let group = ChannelInfo { channel_type: ChannelType::MultiPartyDirectMessage, ..channel.clone() };
    assert_eq!(group.display_name(), "secret");
}

#[test]
fn staleness_is_strictly_older_than_ttl() {
    let channel = ChannelInfo {
        id: "C1".to_string(),
        name: "n".to_string(),
        channel_type: ChannelType::PublicChannel,
        is_private: false,
        member_count: None,
        fetched_at: 1_000,
        topic: None,
    };
    assert!(!channel.is_stale_at(1_000, 0));
    assert!(!channel.is_stale_at(1_500, 500));
    assert!(channel.is_stale_at(1_501, 500));
    assert!(!channel.is_stale_at(10, 0));
    let user = UserInfo {
        id: "U1".to_string(),
        name: "n".to_string(),
        real_name: Some("Real".to_string()),
        display_name: None,
        email: None,
        is_bot: true,
        fetched_at: 2_000,
    };
    assert!(user.is_stale_at(2_002, 1));
    assert!(!user.is_stale_at(2_001, 1));
    assert_eq!(user.best_name(), "Real");
    assert!(!user.is_stale(u64::MAX));
}
