use slack_coder::session::{compose_session_id, generate_session_id};
use slack_coder::slack::ChannelId;

#[test]
fn test_session_id_format() {
    let channel = ChannelId::new("C09NNKZ8SPP");
    let session_id = generate_session_id(&channel);

    assert!(session_id.starts_with("session-C09NNKZ8SPP-"));

    let parts: Vec<&str> = session_id.split('-').collect();
    assert_eq!(parts.len(), 4);
    assert_eq!(parts[0], "session");
    assert_eq!(parts[1], "C09NNKZ8SPP");

    assert!(parts[2].parse::<u64>().is_ok());

    assert_eq!(parts[3].len(), 6);
}

#[test]
fn test_session_id_uniqueness() {
    let channel = ChannelId::new("C09NNKZ8SPP");

    let id1 = generate_session_id(&channel);
    let id2 = generate_session_id(&channel);

    assert_ne!(id1, id2);
}

#[test]
fn session_id_is_composed_of_its_parts() {
    let channel = ChannelId::new("C09NNKZ8SPP");
    assert_eq!(
        compose_session_id(&channel, 1761520471, "a3f9b2"),
        "session-C09NNKZ8SPP-1761520471-a3f9b2"
    );
    assert_eq!(compose_session_id(&ChannelId::new(""), 0, ""), "session--0-");
}

#[test]
fn session_tag_is_lower_case_hexadecimal() {
    let channel = ChannelId::new("C1");
    for _ in 0..20 {
        let id = generate_session_id(&channel);
        let tag = id.rsplit('-').next().unwrap();
        assert_eq!(tag.len(), 6);
        assert!(tag.chars().all(|c| c.is_ascii_digit() || ('a'..='f').contains(&c)));
    }
}
