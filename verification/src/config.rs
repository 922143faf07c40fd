//! The configuration schema: four typed sections plus identity fields,
//! composed into one immutable aggregate, and the validated loads that
//! populate each of them from a key/value source.

use vstd::prelude::*;

use crate::source::EnvSource;
use crate::source::spec_lookup;
use crate::text::chars_of;
use crate::text::parse_u64_chars;
use crate::text::spec_parse_u64;

verus! {

/// Names the required keys of the environment-style source.
#[derive(Clone, Copy, PartialEq, Eq, Structural, Debug)]
pub enum CfgKey {
    Name,
    ApiId,
    ApiHash,
    BotToken,
    Seed,
    OwnerId,
    DatabaseFile,
    LogFile,
    MediaDir,
    PostInterval,
    RestrictDislikeLimit,
    DeleteDislikeLimit,
    PinLikeLimit,
    AutodeleteCount,
    MaxMediaSize,
}

pub open spec fn spec_key_name(k: CfgKey) -> Seq<char> {
    match k {
        CfgKey::Name => "NAME"@,
        CfgKey::ApiId => "API_ID"@,
        CfgKey::ApiHash => "API_HASH"@,
        CfgKey::BotToken => "BOT_TOKEN"@,
        CfgKey::Seed => "SEED"@,
        CfgKey::OwnerId => "OWNER_ID"@,
        CfgKey::DatabaseFile => "DATABASE_FILE"@,
        CfgKey::LogFile => "LOG_FILE"@,
        CfgKey::MediaDir => "MEDIA_DIR"@,
        CfgKey::PostInterval => "POST_INTERVAL"@,
        CfgKey::RestrictDislikeLimit => "RESTRICT_DISLIKE_LIMIT"@,
        CfgKey::DeleteDislikeLimit => "DELETE_DISLIKE_LIMIT"@,
        CfgKey::PinLikeLimit => "PIN_LIKE_LIMIT"@,
        CfgKey::AutodeleteCount => "AUTODELETE_COUNT"@,
        CfgKey::MaxMediaSize => "MAX_MEDIA_SIZE"@,
    }
}

impl CfgKey {
    /// The key exactly as it appears in the source file.
    pub fn key_name(self) -> (r: &'static str)
        ensures
            r@ == spec_key_name(self),
    {
        match self {
            CfgKey::Name => "NAME",
            CfgKey::ApiId => "API_ID",
            CfgKey::ApiHash => "API_HASH",
            CfgKey::BotToken => "BOT_TOKEN",
            CfgKey::Seed => "SEED",
            CfgKey::OwnerId => "OWNER_ID",
            CfgKey::DatabaseFile => "DATABASE_FILE",
            CfgKey::LogFile => "LOG_FILE",
            CfgKey::MediaDir => "MEDIA_DIR",
            CfgKey::PostInterval => "POST_INTERVAL",
            CfgKey::RestrictDislikeLimit => "RESTRICT_DISLIKE_LIMIT",
            CfgKey::DeleteDislikeLimit => "DELETE_DISLIKE_LIMIT",
            CfgKey::PinLikeLimit => "PIN_LIKE_LIMIT",
            CfgKey::AutodeleteCount => "AUTODELETE_COUNT",
            CfgKey::MaxMediaSize => "MAX_MEDIA_SIZE",
        }
    }
}

/// Why a configuration source could not be used.
#[derive(Clone, Copy, PartialEq, Eq, Structural, Debug)]
pub enum ConfigError {
    /// The source's backing file is absent, unreadable or undecodable.
    SourceUnavailable,
    /// A required key is absent from an otherwise readable source.
    MissingKey(CfgKey),
    /// A key is present but its value does not parse to the declared type.
    ParseError(CfgKey),
    /// A write failed while generating or persisting a source.
    Io,
}

pub open spec fn spec_describe(e: ConfigError) -> Seq<char> {
    match e {
        ConfigError::SourceUnavailable => "configuration source unavailable"@,
        ConfigError::MissingKey(k) => "missing required key "@ + spec_key_name(k),
        ConfigError::ParseError(k) => "malformed value for key "@ + spec_key_name(k),
        ConfigError::Io => "could not write configuration file"@,
    }
}

impl ConfigError {
    /// A human-readable diagnostic for this error.
    pub fn describe(self) -> (r: String)
        ensures
            r@ == spec_describe(self),
    {
        match self {
            ConfigError::SourceUnavailable => "configuration source unavailable".to_owned(),
            ConfigError::MissingKey(k) => "missing required key ".to_owned().concat(k.key_name()),
            ConfigError::ParseError(k) => "malformed value for key ".to_owned().concat(
                k.key_name(),
            ),
            ConfigError::Io => "could not write configuration file".to_owned(),
        }
    }
}

/// Reads a required string key: the value as found, or the missing-key error.
pub open spec fn spec_get_str(
    ps: Seq<(Seq<char>, Seq<char>)>,
    key: Seq<char>,
    id: CfgKey,
) -> Result<Seq<char>, ConfigError> {
    match spec_lookup(ps, key) {
        Option::Some(v) => Ok(v),
        Option::None => Err(ConfigError::MissingKey(id)),
    }
}

/// Reads a required integer key: the parsed value, the missing-key error,
/// or the parse error when the value is not a plain decimal `u64`.
pub open spec fn spec_get_u64(
    ps: Seq<(Seq<char>, Seq<char>)>,
    key: Seq<char>,
    id: CfgKey,
) -> Result<u64, ConfigError> {
    match spec_lookup(ps, key) {
        Option::None => Err(ConfigError::MissingKey(id)),
        Option::Some(v) => match spec_parse_u64(v) {
            Option::Some(n) => Ok(n),
            Option::None => Err(ConfigError::ParseError(id)),
        },
    }
}

fn get_str(src: &EnvSource, key: &str, id: CfgKey) -> (r: Result<String, ConfigError>)
    ensures
        r matches Ok(s) ==> spec_get_str(src@, key@, id) == Ok::<Seq<char>, ConfigError>(s@),
        r matches Err(e) ==> spec_get_str(src@, key@, id) == Err::<Seq<char>, ConfigError>(e),
{
    match src.get(key) {
        Option::Some(s) => Ok(s),
        Option::None => Err(ConfigError::MissingKey(id)),
    }
}

fn get_u64(src: &EnvSource, key: &str, id: CfgKey) -> (r: Result<u64, ConfigError>)
    ensures
        r == spec_get_u64(src@, key@, id),
{
    match src.get(key) {
        Option::None => Err(ConfigError::MissingKey(id)),
        Option::Some(s) => {
            let cs = chars_of(s.as_str());
            match parse_u64_chars(&cs) {
                Option::Some(n) => Ok(n),
                Option::None => Err(ConfigError::ParseError(id)),
            }
        },
    }
}

/// API credentials: opaque authentication material.
#[derive(Clone, PartialEq, Eq, Debug)]
pub struct ApiConfig {
    pub id: u64,
    pub secret: String,
    pub token: String,
}

#[verifier::ext_equal]
pub struct ApiConfigV {
    pub id: u64,
    pub secret: Seq<char>,
    pub token: Seq<char>,
}

impl View for ApiConfig {
    type V = ApiConfigV;

    open spec fn view(&self) -> ApiConfigV {
        ApiConfigV { id: self.id, secret: self.secret@, token: self.token@ }
    }
}

/// How loading the credentials section from a source must come out:
/// each key is checked in order, a missing key or a malformed integer
/// fails the whole section, and on success every field holds exactly
/// the parsed value.
pub open spec fn spec_load_api(ps: Seq<(Seq<char>, Seq<char>)>) -> Result<ApiConfigV, ConfigError> {
    match spec_get_u64(ps, "API_ID"@, CfgKey::ApiId) {
        Err(e) => Err(e),
        Ok(id) => match spec_get_str(ps, "API_HASH"@, CfgKey::ApiHash) {
            Err(e) => Err(e),
            Ok(secret) => match spec_get_str(ps, "BOT_TOKEN"@, CfgKey::BotToken) {
                Err(e) => Err(e),
                Ok(token) => Ok(ApiConfigV { id, secret, token }),
            },
        },
    }
}

impl ApiConfig {
    /// Loads the credentials section from the source.
    pub fn load(src: &EnvSource) -> (r: Result<ApiConfig, ConfigError>)
        ensures
            r matches Ok(c) ==> spec_load_api(src@) matches Ok(v) && c@ == v,
            r matches Err(e) ==> spec_load_api(src@) matches Err(e2) && e == e2,
    {
        let id = match get_u64(src, "API_ID", CfgKey::ApiId) {
            Ok(n) => n,
            Err(e) => return Err(e),
        };
        let secret = match get_str(src, "API_HASH", CfgKey::ApiHash) {
            Ok(s) => s,
            Err(e) => return Err(e),
        };
        let token = match get_str(src, "BOT_TOKEN", CfgKey::BotToken) {
            Ok(s) => s,
            Err(e) => return Err(e),
        };
        Ok(ApiConfig { id, secret, token })
    }
}

/// File-system locations the bot will use; existence is not checked here.
#[derive(Clone, PartialEq, Eq, Debug)]
pub struct FileConfig {
    pub seed: u64,
    pub db: String,
    pub log: String,
    pub media: String,
}

#[verifier::ext_equal]
pub struct FileConfigV {
    pub seed: u64,
    pub db: Seq<char>,
    pub log: Seq<char>,
    pub media: Seq<char>,
}

impl View for FileConfig {
    type V = FileConfigV;

    open spec fn view(&self) -> FileConfigV {
        FileConfigV { seed: self.seed, db: self.db@, log: self.log@, media: self.media@ }
    }
}

pub open spec fn spec_load_file(ps: Seq<(Seq<char>, Seq<char>)>) -> Result<
    FileConfigV,
    ConfigError,
> {
    match spec_get_u64(ps, "SEED"@, CfgKey::Seed) {
        Err(e) => Err(e),
        Ok(seed) => match spec_get_str(ps, "DATABASE_FILE"@, CfgKey::DatabaseFile) {
            Err(e) => Err(e),
            Ok(db) => match spec_get_str(ps, "LOG_FILE"@, CfgKey::LogFile) {
                Err(e) => Err(e),
                Ok(log) => match spec_get_str(ps, "MEDIA_DIR"@, CfgKey::MediaDir) {
                    Err(e) => Err(e),
                    Ok(media) => Ok(FileConfigV { seed, db, log, media }),
                },
            },
        },
    }
}

impl FileConfig {
    /// Loads the paths section from the source.
    pub fn load(src: &EnvSource) -> (r: Result<FileConfig, ConfigError>)
        ensures
            r matches Ok(c) ==> spec_load_file(src@) matches Ok(v) && c@ == v,
            r matches Err(e) ==> spec_load_file(src@) matches Err(e2) && e == e2,
    {
        let seed = match get_u64(src, "SEED", CfgKey::Seed) {
            Ok(n) => n,
            Err(e) => return Err(e),
        };
        let db = match get_str(src, "DATABASE_FILE", CfgKey::DatabaseFile) {
            Ok(s) => s,
            Err(e) => return Err(e),
        };
        let log = match get_str(src, "LOG_FILE", CfgKey::LogFile) {
            Ok(s) => s,
            Err(e) => return Err(e),
        };
        let media = match get_str(src, "MEDIA_DIR", CfgKey::MediaDir) {
            Ok(s) => s,
            Err(e) => return Err(e),
        };
        Ok(FileConfig { seed, db, log, media })
    }
}

/// Posting thresholds; no cross-field ordering is enforced at this layer.
#[derive(Clone, Copy, PartialEq, Eq, Structural, Debug)]
#[verifier::ext_equal]
pub struct PostPolicy {
    pub interval: u64,
    pub restrict_dislike_limit: u64,
    pub delete_dislike_limit: u64,
    pub pin_like_limit: u64,
    pub auto_delete_cnt: u64,
}

impl View for PostPolicy {
    type V = PostPolicy;

    open spec fn view(&self) -> PostPolicy {
        *self
    }
}

pub open spec fn spec_load_policy(ps: Seq<(Seq<char>, Seq<char>)>) -> Result<
    PostPolicy,
    ConfigError,
> {
    match spec_get_u64(ps, "POST_INTERVAL"@, CfgKey::PostInterval) {
        Err(e) => Err(e),
        Ok(interval) => match spec_get_u64(ps, "RESTRICT_DISLIKE_LIMIT"@,
            CfgKey::RestrictDislikeLimit) {
            Err(e) => Err(e),
            Ok(restrict_dislike_limit) => match spec_get_u64(ps, "DELETE_DISLIKE_LIMIT"@,
                CfgKey::DeleteDislikeLimit) {
                Err(e) => Err(e),
                Ok(delete_dislike_limit) => match spec_get_u64(ps, "PIN_LIKE_LIMIT"@,
                    CfgKey::PinLikeLimit) {
                    Err(e) => Err(e),
                    Ok(pin_like_limit) => match spec_get_u64(ps, "AUTODELETE_COUNT"@,
                        CfgKey::AutodeleteCount) {
                        Err(e) => Err(e),
                        Ok(auto_delete_cnt) => Ok(PostPolicy {
                            interval,
                            restrict_dislike_limit,
                            delete_dislike_limit,
                            pin_like_limit,
                            auto_delete_cnt,
                        }),
                    },
                },
            },
        },
    }
}

impl PostPolicy {
    /// Loads the posting-policy section from the source.
    pub fn load(src: &EnvSource) -> (r: Result<PostPolicy, ConfigError>)
        ensures
            r matches Ok(c) ==> spec_load_policy(src@) matches Ok(v) && c == v,
            r matches Err(e) ==> spec_load_policy(src@) matches Err(e2) && e == e2,
    {
        let interval = match get_u64(src, "POST_INTERVAL", CfgKey::PostInterval) {
            Ok(n) => n,
            Err(e) => return Err(e),
        };
        let restrict_dislike_limit = match get_u64(
            src,
            "RESTRICT_DISLIKE_LIMIT",
            CfgKey::RestrictDislikeLimit,
        ) {
            Ok(n) => n,
            Err(e) => return Err(e),
        };
        let delete_dislike_limit = match get_u64(
            src,
            "DELETE_DISLIKE_LIMIT",
            CfgKey::DeleteDislikeLimit,
        ) {
            Ok(n) => n,
            Err(e) => return Err(e),
        };
        let pin_like_limit = match get_u64(src, "PIN_LIKE_LIMIT", CfgKey::PinLikeLimit) {
            Ok(n) => n,
            Err(e) => return Err(e),
        };
        let auto_delete_cnt = match get_u64(src, "AUTODELETE_COUNT", CfgKey::AutodeleteCount) {
            Ok(n) => n,
            Err(e) => return Err(e),
        };
        Ok(
            PostPolicy {
                interval,
                restrict_dislike_limit,
                delete_dislike_limit,
                pin_like_limit,
                auto_delete_cnt,
            },
        )
    }
}

/// Media thresholds.
#[derive(Clone, Copy, PartialEq, Eq, Structural, Debug)]
#[verifier::ext_equal]
pub struct MediaPolicy {
    pub max_media_size: u64,
}

impl View for MediaPolicy {
    type V = MediaPolicy;

    open spec fn view(&self) -> MediaPolicy {
        *self
    }
}

pub open spec fn spec_load_media(ps: Seq<(Seq<char>, Seq<char>)>) -> Result<
    MediaPolicy,
    ConfigError,
> {
    match spec_get_u64(ps, "MAX_MEDIA_SIZE"@, CfgKey::MaxMediaSize) {
        Err(e) => Err(e),
        Ok(max_media_size) => Ok(MediaPolicy { max_media_size }),
    }
}

impl MediaPolicy {
    /// Loads the media-policy section from the source.
    pub fn load(src: &EnvSource) -> (r: Result<MediaPolicy, ConfigError>)
        ensures
            r matches Ok(c) ==> spec_load_media(src@) matches Ok(v) && c == v,
            r matches Err(e) ==> spec_load_media(src@) matches Err(e2) && e == e2,
    {
        let max_media_size = match get_u64(src, "MAX_MEDIA_SIZE", CfgKey::MaxMediaSize) {
            Ok(n) => n,
            Err(e) => return Err(e),
        };
        Ok(MediaPolicy { max_media_size })
    }
}

/// The single resolved, immutable configuration snapshot.
#[derive(Clone, PartialEq, Eq, Debug)]
pub struct Config {
    pub owner_id: u64,
    pub name: String,
    pub api: ApiConfig,
    pub file: FileConfig,
    pub policy: PostPolicy,
    pub media: MediaPolicy,
}

#[verifier::ext_equal]
pub struct ConfigV {
    pub owner_id: u64,
    pub name: Seq<char>,
    pub api: ApiConfigV,
    pub file: FileConfigV,
    pub policy: PostPolicy,
    pub media: MediaPolicy,
}

impl View for Config {
    type V = ConfigV;

    open spec fn view(&self) -> ConfigV {
        ConfigV {
            owner_id: self.owner_id,
            name: self.name@,
            api: self.api@,
            file: self.file@,
            policy: self.policy@,
            media: self.media@,
        }
    }
}

/// How loading the whole aggregate from a source must come out: the
/// identity fields first, then the four sections in order, and the first
/// failure is the section error the caller sees.
pub open spec fn spec_load_config(ps: Seq<(Seq<char>, Seq<char>)>) -> Result<ConfigV, ConfigError> {
    match spec_get_u64(ps, "OWNER_ID"@, CfgKey::OwnerId) {
        Err(e) => Err(e),
        Ok(owner_id) => match spec_get_str(ps, "NAME"@, CfgKey::Name) {
            Err(e) => Err(e),
            Ok(name) => match spec_load_api(ps) {
                Err(e) => Err(e),
                Ok(api) => match spec_load_file(ps) {
                    Err(e) => Err(e),
                    Ok(file) => match spec_load_policy(ps) {
                        Err(e) => Err(e),
                        Ok(policy) => match spec_load_media(ps) {
                            Err(e) => Err(e),
                            Ok(media) => Ok(
                                ConfigV { owner_id, name, api, file, policy, media },
                            ),
                        },
                    },
                },
            },
        },
    }
}

impl Config {
    /// Loads the whole aggregate from an environment-style source: every
    /// required key must be present and well typed, and on success every
    /// field equals the parsed value exactly.
    pub fn load_from_dotenv(src: &EnvSource) -> (r: Result<Config, ConfigError>)
        ensures
            r matches Ok(c) ==> spec_load_config(src@) matches Ok(v) && c@ == v,
            r matches Err(e) ==> spec_load_config(src@) matches Err(e2) && e == e2,
    {
        let owner_id = match get_u64(src, "OWNER_ID", CfgKey::OwnerId) {
            Ok(n) => n,
            Err(e) => return Err(e),
        };
        let name = match get_str(src, "NAME", CfgKey::Name) {
            Ok(s) => s,
            Err(e) => return Err(e),
        };
        let api = match ApiConfig::load(src) {
            Ok(s) => s,
            Err(e) => return Err(e),
        };
        let file = match FileConfig::load(src) {
            Ok(s) => s,
            Err(e) => return Err(e),
        };
        let policy = match PostPolicy::load(src) {
            Ok(s) => s,
            Err(e) => return Err(e),
        };
        let media = match MediaPolicy::load(src) {
            Ok(s) => s,
            Err(e) => return Err(e),
        };
        Ok(Config { owner_id, name, api, file, policy, media })
    }
}

} // verus!
