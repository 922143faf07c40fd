use tg8chan::config::{ApiConfig, CfgKey, Config, ConfigError};
use tg8chan::source::EnvSource;

fn full_source() -> EnvSource {
    let mut src = EnvSource::new();
    src.push("NAME".to_string(), "mybot".to_string());
    src.push("API_ID".to_string(), "42".to_string());
    src.push("API_HASH".to_string(), "deadbeef".to_string());
    src.push("BOT_TOKEN".to_string(), "SECRET-REDACTED".to_string());
    src.push("SEED".to_string(), "7".to_string());
    src.push("OWNER_ID".to_string(), "9001".to_string());
    src.push("DATABASE_FILE".to_string(), "bot.db".to_string());
    src.push("LOG_FILE".to_string(), "bot.log".to_string());
    src.push("MEDIA_DIR".to_string(), "media".to_string());
    src.push("POST_INTERVAL".to_string(), "600".to_string());
    src.push("RESTRICT_DISLIKE_LIMIT".to_string(), "3".to_string());
    src.push("DELETE_DISLIKE_LIMIT".to_string(), "5".to_string());
    src.push("PIN_LIKE_LIMIT".to_string(), "11".to_string());
    src.push("AUTODELETE_COUNT".to_string(), "20".to_string());
    src.push("MAX_MEDIA_SIZE".to_string(), "1048576".to_string());
    src
}

fn source_without(skipped: &str) -> EnvSource {
    let keys = [
        ("NAME", "mybot"),
        ("API_ID", "42"),
        ("API_HASH", "deadbeef"),
        ("BOT_TOKEN", "SECRET-REDACTED"),
        ("SEED", "7"),
        ("OWNER_ID", "9001"),
        ("DATABASE_FILE", "bot.db"),
        ("LOG_FILE", "bot.log"),
        ("MEDIA_DIR", "media"),
        ("POST_INTERVAL", "600"),
        ("RESTRICT_DISLIKE_LIMIT", "3"),
        ("DELETE_DISLIKE_LIMIT", "5"),
        ("PIN_LIKE_LIMIT", "11"),
        ("AUTODELETE_COUNT", "20"),
        ("MAX_MEDIA_SIZE", "1048576"),
    ];
    let mut src = EnvSource::new();
    for (k, v) in keys.iter() {
        if *k != skipped {
            src.push(k.to_string(), v.to_string());
        }
    }
    src
}

#[test]
fn load_with_all_keys_yields_exact_values() {
    let src = full_source();
    let config = Config::load_from_dotenv(&src).unwrap();
    assert_eq!(config.owner_id, 9001);
    assert_eq!(config.name, "mybot");
    assert_eq!(config.api.id, 42);
    assert_eq!(config.api.secret, "deadbeef");
    assert_eq!(config.api.token, "SECRET-REDACTED");
    assert_eq!(config.file.seed, 7);
    assert_eq!(config.file.db, "bot.db");
    assert_eq!(config.file.log, "bot.log");
    assert_eq!(config.file.media, "media");
    assert_eq!(config.policy.interval, 600);
    assert_eq!(config.policy.restrict_dislike_limit, 3);
    assert_eq!(config.policy.delete_dislike_limit, 5);
    assert_eq!(config.policy.pin_like_limit, 11);
    assert_eq!(config.policy.auto_delete_cnt, 20);
    assert_eq!(config.media.max_media_size, 1048576);
}

#[test]
fn missing_bot_token_is_a_missing_key_error() {
    let src = source_without("BOT_TOKEN");
    let r = Config::load_from_dotenv(&src);
    assert_eq!(r.unwrap_err(), ConfigError::MissingKey(CfgKey::BotToken));
}

#[test]
fn missing_owner_id_is_a_missing_key_error() {
    let src = source_without("OWNER_ID");
    let r = Config::load_from_dotenv(&src);
    assert_eq!(r.unwrap_err(), ConfigError::MissingKey(CfgKey::OwnerId));
}

#[test]
fn non_numeric_seed_is_a_parse_error() {
    let mut src = EnvSource::new();
    src.push("OWNER_ID".to_string(), "1".to_string());
    src.push("NAME".to_string(), "n".to_string());
    src.push("API_ID".to_string(), "2".to_string());
    src.push("API_HASH".to_string(), "h".to_string());
    src.push("BOT_TOKEN".to_string(), "t".to_string());
    src.push("SEED".to_string(), "abc".to_string());
    let r = Config::load_from_dotenv(&src);
    assert_eq!(r.unwrap_err(), ConfigError::ParseError(CfgKey::Seed));
}

#[test]
fn negative_integer_is_a_parse_error() {
    let mut src = EnvSource::new();
    src.push("API_ID".to_string(), "-3".to_string());
    src.push("API_HASH".to_string(), "h".to_string());
    src.push("BOT_TOKEN".to_string(), "t".to_string());
    let r = ApiConfig::load(&src);
    assert_eq!(r.unwrap_err(), ConfigError::ParseError(CfgKey::ApiId));
}

#[test]
fn integer_overflow_is_a_parse_error() {
    let mut src = EnvSource::new();
    src.push("API_ID".to_string(), "99999999999999999999999".to_string());
    src.push("API_HASH".to_string(), "h".to_string());
    src.push("BOT_TOKEN".to_string(), "t".to_string());
    let r = ApiConfig::load(&src);
    assert_eq!(r.unwrap_err(), ConfigError::ParseError(CfgKey::ApiId));
}

#[test]
fn largest_u64_value_loads() {
    let mut src = EnvSource::new();
    src.push("API_ID".to_string(), "18446744073709551615".to_string());
    src.push("API_HASH".to_string(), "h".to_string());
    src.push("BOT_TOKEN".to_string(), "t".to_string());
    let api = ApiConfig::load(&src).unwrap();
    assert_eq!(api.id, u64::MAX);
}

#[test]
fn error_messages_name_the_key() {
    assert_eq!(
        ConfigError::MissingKey(CfgKey::BotToken).describe(),
        "missing required key BOT_TOKEN"
    );
    assert_eq!(
        ConfigError::ParseError(CfgKey::Seed).describe(),
        "malformed value for key SEED"
    );
    assert_eq!(
        ConfigError::SourceUnavailable.describe(),
        "configuration source unavailable"
    );
    assert_eq!(
        ConfigError::Io.describe(),
        "could not write configuration file"
    );
}

#[test]
fn env_text_parses_quotes_comments_and_blanks() {
    let text = "# a comment\n\nNAME = \"quoted\"\nSEED = 10\n  OWNER_ID=77  \n";
    let src = EnvSource::from_text(text).unwrap();
    assert_eq!(src.get("NAME").unwrap(), "quoted");
    assert_eq!(src.get("SEED").unwrap(), "10");
    assert_eq!(src.get("OWNER_ID").unwrap(), "77");
    assert!(src.get("MISSING").is_none());
}

#[test]
fn env_text_line_without_equals_rejects_the_source() {
    assert!(EnvSource::from_text("NAME = a\nBROKEN LINE\n").is_none());
}

#[test]
fn env_text_line_without_key_rejects_the_source() {
    assert!(EnvSource::from_text(" = value\n").is_none());
}

#[test]
fn first_occurrence_of_a_key_wins() {
    let src = EnvSource::from_text("NAME = first\nNAME = second\n").unwrap();
    assert_eq!(src.get("NAME").unwrap(), "first");
}

#[test]
fn crlf_line_endings_are_accepted() {
    let src = EnvSource::from_text("NAME = \"a\"\r\nSEED = 3\r\n").unwrap();
    assert_eq!(src.get("NAME").unwrap(), "a");
    assert_eq!(src.get("SEED").unwrap(), "3");
}

#[test]
fn empty_text_is_an_empty_source() {
    let src = EnvSource::from_text("").unwrap();
    assert!(src.get("NAME").is_none());
}
