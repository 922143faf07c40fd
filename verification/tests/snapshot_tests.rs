use tg8chan::config::{ApiConfig, Config, FileConfig, MediaPolicy, PostPolicy};

fn sample_config(name: &str, secret: &str) -> Config {
    Config {
        owner_id: 9001,
        name: name.to_string(),
        api: ApiConfig {
            id: 42,
            secret: secret.to_string(),
            token: "SECRET-REDACTED".to_string(),
        },
        file: FileConfig {
            seed: 7,
            db: "bot.db".to_string(),
            log: "bot.log".to_string(),
            media: "media".to_string(),
        },
        policy: PostPolicy {
            interval: 600,
            restrict_dislike_limit: 3,
            delete_dislike_limit: 5,
            pin_like_limit: 11,
            auto_delete_cnt: 20,
        },
        media: MediaPolicy { max_media_size: 1048576 },
    }
}

#[test]
fn save_then_load_round_trips() {
    let config = sample_config("mybot", "deadbeef");
    let text = config.save_to_json();
    let back = Config::load_from_json(text.as_str()).unwrap();
    assert_eq!(back, config);
}

#[test]
fn round_trip_escapes_quotes_and_backslashes() {
    let config = sample_config("a \"quoted\" na\\me", "se\\cret\"s");
    let text = config.save_to_json();
    let back = Config::load_from_json(text.as_str()).unwrap();
    assert_eq!(back, config);
}

#[test]
fn round_trip_keeps_empty_strings() {
    let config = sample_config("", "");
    let text = config.save_to_json();
    let back = Config::load_from_json(text.as_str()).unwrap();
    assert_eq!(back, config);
}

#[test]
fn snapshot_text_is_canonical_json() {
    let config = sample_config("mybot", "deadbeef");
    let mut expected = String::new();
    expected.push_str("{\"owner_id\":9001,\"name\":\"mybot\",");
    expected.push_str("\"api\":{\"id\":42,\"secret\":\"deadbeef\",\"token\":\"SECRET-REDACTED\"},");
    expected.push_str("\"file\":{\"seed\":7,\"db\":\"bot.db\",\"log\":\"bot.log\",\"media\":\"media\"},");
    expected.push_str("\"policy\":{\"interval\":600,\"restrict_dislike_limit\":3,");
    expected.push_str("\"delete_dislike_limit\":5,\"pin_like_limit\":11,\"auto_delete_cnt\":20},");
    expected.push_str("\"media\":{\"max_media_size\":1048576}}");
    assert_eq!(config.save_to_json(), expected);
}

#[test]
fn load_rejects_trailing_text() {
    let config = sample_config("mybot", "deadbeef");
    let mut text = config.save_to_json();
    text.push('x');
    assert!(Config::load_from_json(text.as_str()).is_none());
}

#[test]
fn load_rejects_arbitrary_text() {
    assert!(Config::load_from_json("not a snapshot").is_none());
    assert!(Config::load_from_json("").is_none());
    assert!(Config::load_from_json("{\"owner_id\":}").is_none());
}

#[test]
fn load_rejects_truncated_snapshot() {
    let config = sample_config("mybot", "deadbeef");
    let text = config.save_to_json();
    let cut = &text[..text.len() - 2];
    assert!(Config::load_from_json(cut).is_none());
}
