use fight_bot::adapters_primary::websocket::{decimal_chars, is_decimal_of, message_outcome, MessageOutcome};
use fight_bot::adapters_secondary::chat::API;
use fight_bot::config::{get_header, Cfg, CfgError};

#[test]
fn header_carries_token() {
    assert_eq!(get_header("abc.def"), "Bot abc.def");
    assert_eq!(get_header(""), "Bot ");
}

#[test]
fn message_url_names_channel() {
    assert_eq!(API::message_url("1234"), "https://discord.com/api/channels/1234/messages");
}

#[test]
fn message_body_is_json() {
    assert_eq!(API::message_body("hello").unwrap(), "{\"content\":\"hello\"}");
    assert_eq!(
        API::message_body("say \"hi\"\n").unwrap(),
        "{\"content\":\"say \\\"hi\\\"\\n\"}"
    );
    let parsed: serde_json::Value = serde_json::from_str(&API::message_body("a \\ b").unwrap()).unwrap();
    assert_eq!(parsed["content"], "a \\ b");
}

#[test]
fn decimal_digits() {
    assert_eq!(decimal_chars(0), vec!['0']);
    assert_eq!(decimal_chars(7), vec!['7']);
    assert_eq!(decimal_chars(1020), vec!['1', '0', '2', '0']);
    assert_eq!(decimal_chars(u64::MAX).iter().collect::<String>(), u64::MAX.to_string());
    assert!(is_decimal_of("700123", 700123));
    assert!(!is_decimal_of("0700123", 700123));
    assert!(!is_decimal_of("70012", 700123));
    assert!(!is_decimal_of("", 0));
}

#[test]
fn messages_from_bots_or_other_channels_are_ignored() {
    let mentions = vec!["Bea".to_string()];
    assert!(matches!(message_outcome(true, 42, "42", "Ann", &mentions), MessageOutcome::Ignored));
    assert!(matches!(message_outcome(false, 43, "42", "Ann", &mentions), MessageOutcome::Ignored));
}

#[test]
fn message_without_mention_is_noted() {
    assert!(matches!(message_outcome(false, 42, "42", "Ann", &vec![]), MessageOutcome::Noted));
}

#[test]
fn message_with_mentions_is_a_challenge() {
    let mentions = vec!["Bea".to_string(), "Cid".to_string()];
    match message_outcome(false, 42, "42", "Ann", &mentions) {
        MessageOutcome::Challenge(fighters) => {
            assert_eq!(fighters.fighter1, "Ann");
            assert_eq!(fighters.fighter2, "Bea");
        },
        other => panic!("a challenge was expected, got {:?}", other),
    }
}

#[test]
fn settings_need_token_then_channel() {
    assert!(matches!(Cfg::from_settings(None, None), Err(CfgError::MissingToken)));
    assert!(matches!(Cfg::from_settings(None, Some("1".to_string())), Err(CfgError::MissingToken)));
    assert!(matches!(
        Cfg::from_settings(Some("t".to_string()), None),
        Err(CfgError::MissingTargetChannelId)
    ));
    let cfg = Cfg::from_settings(Some("t".to_string()), Some("1".to_string())).unwrap();
    assert_eq!(cfg.token, "t");
    assert_eq!(cfg.target_channel_id, "1");
    assert_eq!(CfgError::MissingToken.message(), "Token wasn't provided in env file");
    assert_eq!(
        CfgError::MissingTargetChannelId.message(),
        "Target Channel Id wasn't provided in env file"
    );
}

#[test]
fn message_body_escapes_like_the_literal_it_frames() {
    let message = "q\" b\\ \u{8}\t\n\u{c}\r \u{1}\u{1f} \u{7f} é /";
    assert_eq!(
        API::message_body(message).unwrap(),
        "{\"content\":\"q\\\" b\\\\ \\b\\t\\n\\f\\r \\u0001\\u001f \u{7f} é /\"}"
    );
    assert_eq!(API::message_body("\u{1a}").unwrap(), "{\"content\":\"\\u001a\"}");
    assert_eq!(API::message_body("").unwrap(), "{\"content\":\"\"}");
}
