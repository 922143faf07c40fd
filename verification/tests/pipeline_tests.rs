use tg8chan::bot::Bot;
use tg8chan::config::{ApiConfig, CfgKey, Config, ConfigError, FileConfig, MediaPolicy, PostPolicy};
use tg8chan::pipeline::{
    default_env_text, pending_action, resolve_step, ResolveAction, ResolveEvent, ResolveState,
};

fn valid_env_text() -> String {
    let mut text = String::new();
    text.push_str("NAME = \"mybot\"\n");
    text.push_str("API_ID = 42\n");
    text.push_str("API_HASH = \"deadbeef\"\n");
    text.push_str("BOT_TOKEN = \"SECRET-REDACTED\"\n");
    text.push_str("SEED = 7\n");
    text.push_str("OWNER_ID = 9001\n");
    text.push_str("DATABASE_FILE = \"bot.db\"\n");
    text.push_str("LOG_FILE = \"bot.log\"\n");
    text.push_str("MEDIA_DIR = \"media\"\n");
    text.push_str("POST_INTERVAL = 600\n");
    text.push_str("RESTRICT_DISLIKE_LIMIT = 3\n");
    text.push_str("DELETE_DISLIKE_LIMIT = 5\n");
    text.push_str("PIN_LIKE_LIMIT = 11\n");
    text.push_str("AUTODELETE_COUNT = 20\n");
    text.push_str("MAX_MEDIA_SIZE = 1048576\n");
    text
}

#[test]
fn env_source_resolves_first() {
    let state = resolve_step(
        ResolveState::TryEnv,
        ResolveEvent::SourceText(Some(valid_env_text())),
    );
    match state {
        ResolveState::Resolved(config) => {
            assert_eq!(config.owner_id, 9001);
            assert_eq!(config.name, "mybot");
            assert_eq!(config.policy.interval, 600);
        }
        _ => panic!("a valid environment source must resolve"),
    }
}

#[test]
fn missing_env_file_falls_to_snapshot() {
    let state = resolve_step(ResolveState::TryEnv, ResolveEvent::SourceText(None));
    assert!(matches!(state, ResolveState::TrySnapshot));
    assert_eq!(pending_action(&state), ResolveAction::ReadSnapshot);
}

#[test]
fn missing_key_falls_to_snapshot_not_to_defaults() {
    let text = valid_env_text().replace("BOT_TOKEN = \"SECRET-REDACTED\"\n", "");
    let state = resolve_step(ResolveState::TryEnv, ResolveEvent::SourceText(Some(text)));
    assert!(matches!(state, ResolveState::TrySnapshot));
}

#[test]
fn malformed_integer_treats_source_as_unavailable() {
    let text = valid_env_text().replace("SEED = 7", "SEED = \"abc\"");
    let state = resolve_step(ResolveState::TryEnv, ResolveEvent::SourceText(Some(text)));
    assert!(matches!(state, ResolveState::TrySnapshot));
}

#[test]
fn snapshot_resolves_when_env_is_gone() {
    let config = Config {
        owner_id: 1,
        name: "n".to_string(),
        api: ApiConfig {
            id: 2,
            secret: "s".to_string(),
            token: "t".to_string(),
        },
        file: FileConfig {
            seed: 3,
            db: "d".to_string(),
            log: "l".to_string(),
            media: "m".to_string(),
        },
        policy: PostPolicy {
            interval: 4,
            restrict_dislike_limit: 5,
            delete_dislike_limit: 6,
            pin_like_limit: 7,
            auto_delete_cnt: 8,
        },
        media: MediaPolicy { max_media_size: 9 },
    };
    let text = config.save_to_json();
    let state = resolve_step(
        ResolveState::TrySnapshot,
        ResolveEvent::SourceText(Some(text)),
    );
    match state {
        ResolveState::Resolved(back) => assert_eq!(back, config),
        _ => panic!("a persisted snapshot must resolve"),
    }
}

#[test]
fn missing_snapshot_generates_a_default_source() {
    let state = resolve_step(ResolveState::TrySnapshot, ResolveEvent::SourceText(None));
    assert!(matches!(state, ResolveState::Generate));
    assert_eq!(pending_action(&state), ResolveAction::WriteDefaultSource);
}

#[test]
fn undecodable_snapshot_generates_a_default_source() {
    let state = resolve_step(
        ResolveState::TrySnapshot,
        ResolveEvent::SourceText(Some("{\"version\":99}".to_string())),
    );
    assert!(matches!(state, ResolveState::Generate));
}

#[test]
fn failed_generation_is_fatal() {
    let state = resolve_step(ResolveState::Generate, ResolveEvent::WriteOutcome(false));
    match state {
        ResolveState::Fatal(e) => assert_eq!(e, ConfigError::Io),
        _ => panic!("a failed write must be fatal"),
    }
}

#[test]
fn retry_failure_reports_the_last_error() {
    let text = valid_env_text().replace("OWNER_ID = 9001\n", "");
    let state = resolve_step(ResolveState::RetryEnv, ResolveEvent::SourceText(Some(text)));
    match state {
        ResolveState::Fatal(e) => assert_eq!(e, ConfigError::MissingKey(CfgKey::OwnerId)),
        _ => panic!("a failed retry must be fatal"),
    }
}

#[test]
fn full_fallback_resolves_with_documented_defaults() {
    let state = resolve_step(ResolveState::TryEnv, ResolveEvent::SourceText(None));
    assert!(matches!(state, ResolveState::TrySnapshot));
    let state = resolve_step(state, ResolveEvent::SourceText(None));
    assert!(matches!(state, ResolveState::Generate));
    let state = resolve_step(state, ResolveEvent::WriteOutcome(true));
    assert!(matches!(state, ResolveState::RetryEnv));
    assert_eq!(pending_action(&state), ResolveAction::ReadEnvSource);
    let state = resolve_step(state, ResolveEvent::SourceText(Some(default_env_text())));
    match state {
        ResolveState::Resolved(config) => {
            assert_eq!(config.name, "TG8CHAN");
            assert_eq!(config.owner_id, 123);
            assert_eq!(config.api.id, 0);
            assert_eq!(config.api.secret, "abcd");
            assert_eq!(config.api.token, "wxyz");
            assert_eq!(config.file.seed, 10);
            assert_eq!(config.file.db, "database.db");
            assert_eq!(config.file.log, "stats.log");
            assert_eq!(config.file.media, "media");
            assert_eq!(config.policy.interval, 300);
            assert_eq!(config.policy.restrict_dislike_limit, 10);
            assert_eq!(config.policy.delete_dislike_limit, 5);
            assert_eq!(config.policy.pin_like_limit, 10);
            assert_eq!(config.policy.auto_delete_cnt, 50);
            assert_eq!(config.media.max_media_size, 2000000);
        }
        _ => panic!("the generated default source must resolve"),
    }
}

#[test]
fn missing_env_after_generation_is_fatal() {
    let state = resolve_step(ResolveState::RetryEnv, ResolveEvent::SourceText(None));
    match state {
        ResolveState::Fatal(e) => assert_eq!(e, ConfigError::SourceUnavailable),
        _ => panic!("a missing source after generation must be fatal"),
    }
}

#[test]
fn terminal_states_ask_for_nothing() {
    let state = resolve_step(ResolveState::Generate, ResolveEvent::WriteOutcome(false));
    assert_eq!(pending_action(&state), ResolveAction::Done);
}

#[test]
fn bot_borrows_identity_from_config() {
    let state = resolve_step(
        ResolveState::TryEnv,
        ResolveEvent::SourceText(Some(valid_env_text())),
    );
    let config = match state {
        ResolveState::Resolved(config) => config,
        _ => panic!("a valid environment source must resolve"),
    };
    let bot = Bot::from_config(&config);
    assert_eq!(bot.name, "mybot");
    assert_eq!(bot.id, 42);
    assert_eq!(bot.secret, "deadbeef");
    assert_eq!(bot.token, "SECRET-REDACTED");
}
