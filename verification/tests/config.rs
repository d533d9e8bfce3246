use chat_responder::config::{parse_identifier, ConfigError, Setting};
use chat_responder::handler::Handler;

#[test]
fn parse_identifier_agrees_with_the_standard_parse() {
    for text in [
        "", "+", "-", "0", "+0", "-0", "1", "+1", "-1", "007", "+007", "42", "1234567890",
        "18446744073709551615", "+18446744073709551615", "18446744073709551616",
        "18446744073709551620", "99999999999999999999999", "000000000000000000000000001",
        "1_000", " 1", "1 ", "1.0", "1e3", "0x10", "١٢٣", "１２３", "++1", "+-1", "1+", "12a", "a12",
        "٣", "/", ":", "9", "10", "184467440737095516150",
    ] {
        assert_eq!(parse_identifier(text), text.parse::<u64>().ok(), "{text:?}");
    }
}

#[test]
fn parse_identifier_reads_decimal() {
    assert_eq!(parse_identifier("302516740095606785"), Some(302516740095606785));
    assert_eq!(parse_identifier("+12"), Some(12));
    assert_eq!(parse_identifier("0"), Some(0));
    assert_eq!(parse_identifier("18446744073709551615"), Some(u64::MAX));
    assert_eq!(parse_identifier("18446744073709551616"), None);
    assert_eq!(parse_identifier("twelve"), None);
}

#[test]
fn from_settings_makes_the_responder() {
    let h = Handler::from_settings(Some("1001"), Some("2002"), Some("3003")).unwrap();
    assert_eq!(h.allowed_id(), 1001);
    assert_eq!(h.bot_id(), 2002);
    assert_eq!(h.custom_emoji_id(), 3003);
    assert_eq!(Some(h), Handler::new(1001, 2002, 3003));
}

#[test]
fn from_settings_reports_a_missing_value() {
    assert_eq!(
        Handler::from_settings(None, Some("2"), Some("3")),
        Err(ConfigError::Missing(Setting::UserId))
    );
    assert_eq!(
        Handler::from_settings(Some("1"), None, Some("3")),
        Err(ConfigError::Missing(Setting::BotId))
    );
    assert_eq!(
        Handler::from_settings(Some("1"), Some("2"), None),
        Err(ConfigError::Missing(Setting::CustomEmoji))
    );
}

#[test]
fn from_settings_reports_a_value_that_is_no_number() {
    assert_eq!(
        Handler::from_settings(Some("me"), Some("2"), Some("3")),
        Err(ConfigError::NotANumber(Setting::UserId))
    );
    assert_eq!(
        Handler::from_settings(Some("1"), Some(""), Some("3")),
        Err(ConfigError::NotANumber(Setting::BotId))
    );
    assert_eq!(
        Handler::from_settings(Some("1"), Some("2"), Some("18446744073709551616")),
        Err(ConfigError::NotANumber(Setting::CustomEmoji))
    );
}

#[test]
fn from_settings_reports_zero() {
    assert_eq!(
        Handler::from_settings(Some("0"), Some("2"), Some("3")),
        Err(ConfigError::Zero(Setting::UserId))
    );
    assert_eq!(
        Handler::from_settings(Some("1"), Some("+0"), Some("3")),
        Err(ConfigError::Zero(Setting::BotId))
    );
    assert_eq!(
        Handler::from_settings(Some("1"), Some("2"), Some("000")),
        Err(ConfigError::Zero(Setting::CustomEmoji))
    );
}

#[test]
fn from_settings_reports_the_first_error_in_reading_order() {
    assert_eq!(
        Handler::from_settings(None, None, None),
        Err(ConfigError::Missing(Setting::UserId))
    );
    assert_eq!(
        Handler::from_settings(Some("x"), None, None),
        Err(ConfigError::NotANumber(Setting::UserId))
    );
    assert_eq!(
        Handler::from_settings(Some("0"), None, Some("x")),
        Err(ConfigError::Missing(Setting::BotId))
    );
    assert_eq!(
        Handler::from_settings(Some("0"), Some("0"), Some("x")),
        Err(ConfigError::NotANumber(Setting::CustomEmoji))
    );
    assert_eq!(
        Handler::from_settings(Some("0"), Some("0"), Some("0")),
        Err(ConfigError::Zero(Setting::UserId))
    );
    assert_eq!(
        Handler::from_settings(Some("1"), Some("0"), Some("0")),
        Err(ConfigError::Zero(Setting::BotId))
    );
}

#[test]
fn error_lines() {
    assert_eq!(Setting::UserId.name(), "USERID");
    assert_eq!(Setting::BotId.name(), "BOTID");
    assert_eq!(Setting::CustomEmoji.name(), "CUSTOMEMOJI");
    assert_eq!(ConfigError::Missing(Setting::UserId).message(), "Missing USERID in environment");
    assert_eq!(ConfigError::Missing(Setting::BotId).message(), "Missing BOTID in environment");
    assert_eq!(
        ConfigError::Missing(Setting::CustomEmoji).message(),
        "Missing CUSTOMEMOJI in environment"
    );
    assert_eq!(ConfigError::NotANumber(Setting::UserId).message(), "USERID must be a number");
    assert_eq!(ConfigError::NotANumber(Setting::BotId).message(), "BOTID must be a number");
    assert_eq!(
        ConfigError::NotANumber(Setting::CustomEmoji).message(),
        "CUSTOMEMOJI must be a number"
    );
    assert_eq!(ConfigError::Zero(Setting::CustomEmoji).message(), "CUSTOMEMOJI must not be zero");
}
