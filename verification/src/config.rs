//! Configuration: the settings file, the secrets from the environment, their
//! defaults and the checks made when they are put together.
use vstd::prelude::*;
use crate::text::{chars_of, push_str, string_of};
use crate::vault::daily_note::{join_path, moment_to_chrono, momentjs_to_chrono, path_join};

verus! {

/// `true`, the default of switches that are on unless turned off.
pub fn default_true() -> (r: bool)
    ensures
        r,
{
    true
}

/// The default time zone, `Europe/Brussels`.
pub fn default_timezone() -> (r: String)
    ensures
        r@ == "Europe/Brussels"@,
{
    "Europe/Brussels".to_owned()
}

/// The default log level, `info`.
pub fn default_log_level() -> (r: String)
    ensures
        r@ == "info"@,
{
    "info".to_owned()
}

/// The default git remote, `origin`.
pub fn default_git_remote() -> (r: String)
    ensures
        r@ == "origin"@,
{
    "origin".to_owned()
}

/// The default git branch, `main`.
pub fn default_git_branch() -> (r: String)
    ensures
        r@ == "main"@,
{
    "main".to_owned()
}

/// The default sync debounce, 300 seconds.
pub fn default_debounce_secs() -> (r: u64)
    ensures
        r == 300,
{
    300
}

/// The default AI provider, `openrouter`.
pub fn default_provider() -> (r: String)
    ensures
        r@ == "openrouter"@,
{
    "openrouter".to_owned()
}

/// The default Whisper model, `whisper-1`.
pub fn default_whisper_model() -> (r: String)
    ensures
        r@ == "whisper-1"@,
{
    "whisper-1".to_owned()
}

/// The default classification model, `google/gemini-2.5-flash`.
pub fn default_classify_model() -> (r: String)
    ensures
        r@ == "google/gemini-2.5-flash"@,
{
    "google/gemini-2.5-flash".to_owned()
}

/// The default Moment.js format of `{{date}}` in templates, `YYYY/MM/DD`.
pub fn default_date_display_format() -> (r: String)
    ensures
        r@ == "YYYY/MM/DD"@,
{
    "YYYY/MM/DD".to_owned()
}

/// The default guide file, `./system-guide.md`.
pub fn default_guide_path() -> (r: Option<String>)
    ensures
        r matches Some(p) && p@ == "./system-guide.md"@,
{
    Some("./system-guide.md".to_owned())
}

/// Git settings of the settings file.
#[derive(Debug, Clone)]
pub struct GitConfig {
    pub sync_enabled: bool,
    pub path: Option<String>,
    pub remote_name: String,
    pub branch: String,
    pub ssh_key_path: Option<String>,
    pub sync_debounce_secs: u64,
}

impl Default for GitConfig {
    fn default() -> (r: Self)
        ensures
            r.sync_enabled,
            r.path is None,
            r.remote_name@ == "origin"@,
            r.branch@ == "main"@,
            r.ssh_key_path is None,
            r.sync_debounce_secs == 300,
    {
        GitConfig {
            sync_enabled: true,
            path: None,
            remote_name: "origin".to_owned(),
            branch: "main".to_owned(),
            ssh_key_path: None,
            sync_debounce_secs: 300,
        }
    }
}

/// Transcription provider settings
#[derive(Debug, Clone, Default)]
pub struct TranscriptionConfig {
    pub provider: Option<String>,
    pub model: Option<String>,
    pub language: Option<String>,
}

/// AI configuration settings for a specific task
#[derive(Debug, Clone, Default)]
pub struct TaskAiConfig {
    pub provider: Option<String>,
    pub model: Option<String>,
}

/// AI settings of the settings file.
#[derive(Debug, Clone)]
pub struct AiConfig {
    pub provider: String,
    pub whisper_model: String,
    pub whisper_language: Option<String>,
    pub classify_model: String,
    pub transcription: TranscriptionConfig,
    pub classification: TaskAiConfig,
    pub summarization: TaskAiConfig,
}

impl Default for AiConfig {
    fn default() -> (r: Self)
        ensures
            r.provider@ == "openrouter"@,
            r.whisper_model@ == "whisper-1"@,
            r.whisper_language is None,
            r.classify_model@ == "google/gemini-2.5-flash"@,
    {
        AiConfig {
            provider: default_provider(),
            whisper_model: default_whisper_model(),
            whisper_language: None,
            classify_model: default_classify_model(),
            transcription: TranscriptionConfig { provider: None, model: None, language: None },
            classification: TaskAiConfig { provider: None, model: None },
            summarization: TaskAiConfig { provider: None, model: None },
        }
    }
}

/// Access settings of the settings file.
#[derive(Debug, Clone, Default)]
pub struct AccessConfig {
    pub allowed_user_ids: Vec<u64>,
}

/// Image configuration settings
#[derive(Debug, Clone)]
pub struct ImageConfig {
    pub max_dimension: u32,
    pub jpeg_quality: u8,
    pub assets_folder: String,
}

impl Default for ImageConfig {
    fn default() -> (r: Self)
        ensures
            r.max_dimension == 1280,
            r.jpeg_quality == 85,
            r.assets_folder@ == "assets"@,
    {
        ImageConfig { max_dimension: 1280, jpeg_quality: 85, assets_folder: "assets".to_owned() }
    }
}

/// URL handling configuration settings
#[derive(Debug, Clone)]
pub struct UrlConfig {
    pub transcript_folder: String,
    pub fetch_timeout_secs: u64,
    pub max_content_bytes: usize,
    pub max_urls_per_message: usize,
}

impl Default for UrlConfig {
    fn default() -> (r: Self)
        ensures
            r.transcript_folder@ == "transcripts"@,
            r.fetch_timeout_secs == 15,
            r.max_content_bytes == 524288,
            r.max_urls_per_message == 5,
    {
        UrlConfig {
            transcript_folder: "transcripts".to_owned(),
            fetch_timeout_secs: 15,
            max_content_bytes: 524288,
            max_urls_per_message: 5,
        }
    }
}

/// How a logged entry is acknowledged in the chat.
#[derive(Debug, Clone, Copy, PartialEq, Eq, Structural)]
pub enum LogAckMode {
    Reaction,
    Text,
}

/// Telegram acknowledgement settings
#[derive(Debug, Clone)]
pub struct AckConfig {
    pub log_mode: LogAckMode,
    pub log_text: String,
    pub reaction_emoji: String,
}

impl Default for AckConfig {
    fn default() -> (r: Self)
        ensures
            r.log_mode == LogAckMode::Reaction,
            r.log_text@ == "Done 👍"@,
            r.reaction_emoji@ == "👍"@,
    {
        AckConfig {
            log_mode: LogAckMode::Reaction,
            log_text: "Done 👍".to_owned(),
            reaction_emoji: "👍".to_owned(),
        }
    }
}

/// Finance bot settings
#[derive(Debug, Clone)]
pub struct FinanceConfig {
    pub enabled: bool,
    pub folder: String,
    pub assets_folder: String,
    pub guide_path: Option<String>,
    pub allowed_user_ids: Vec<u64>,
}

impl Default for FinanceConfig {
    fn default() -> (r: Self)
        ensures
            !r.enabled,
            r.folder@ == "Finance"@,
            r.assets_folder@ == "Assets"@,
            r.guide_path is None,
            r.allowed_user_ids@.len() == 0,
    {
        FinanceConfig {
            enabled: false,
            folder: "Finance".to_owned(),
            assets_folder: "Assets".to_owned(),
            guide_path: None,
            allowed_user_ids: Vec::new(),
        }
    }
}

/// Settings loaded from the YAML config file (non-secret values).
#[derive(Debug, Clone)]
pub struct FileConfig {
    pub vault_path: String,
    pub git: GitConfig,
    pub ai: AiConfig,
    pub access: AccessConfig,
    pub timezone: String,
    pub log_level: String,
    /// Moment.js format for {{date}} in daily note templates
    pub date_display_format: String,
    pub guide_path: Option<String>,
    pub image: ImageConfig,
    pub url: UrlConfig,
    pub ack: AckConfig,
    pub finance: FinanceConfig,
}

impl FileConfig {
    /// The settings of a file that names only the vault.
    pub fn with_vault_path(vault_path: String) -> (r: Self)
        ensures
            r.vault_path@ == vault_path@,
            r.git.sync_enabled,
            r.guide_path matches Some(p) && p@ == "./system-guide.md"@,
            r.timezone@ == "Europe/Brussels"@,
            r.date_display_format@ == "YYYY/MM/DD"@,
    {
        FileConfig {
            vault_path,
            git: GitConfig::default(),
            ai: AiConfig::default(),
            access: AccessConfig { allowed_user_ids: Vec::new() },
            timezone: default_timezone(),
            log_level: default_log_level(),
            date_display_format: default_date_display_format(),
            guide_path: default_guide_path(),
            image: ImageConfig::default(),
            url: UrlConfig::default(),
            ack: AckConfig::default(),
            finance: FinanceConfig::default(),
        }
    }
}

/// Runtime config used by the application. Built from YAML file + env-var secrets.
#[derive(Debug, Clone)]
pub struct Config {
    pub teloxide_token: String,
    pub openrouter_api_key: String,
    pub openai_api_key: String,
    pub vault_path: String,
    pub git_sync_enabled: bool,
    pub git_path: Option<String>,
    pub git_ssh_key_path: Option<String>,
    pub git_remote_name: String,
    pub git_branch: String,
    pub git_sync_debounce_secs: u64,
    pub ai_provider: String,
    pub whisper_model: String,
    pub whisper_language: Option<String>,
    pub openrouter_model_classify: String,
    pub transcription: TranscriptionConfig,
    pub classification: TaskAiConfig,
    pub summarization: TaskAiConfig,
    pub allowed_user_ids: Vec<u64>,
    pub timezone: String,
    /// Chrono strftime format for {{date}} in daily note templates
    pub date_display_format: String,
    pub guide_path: Option<String>,
    pub image: ImageConfig,
    pub url: UrlConfig,
    pub ack: AckConfig,
    pub finance: FinanceConfig,
    pub finance_teloxide_token: Option<String>,
}

impl Default for Config {
    fn default() -> (r: Self)
        ensures
            r.vault_path@ == "."@,
            !r.git_sync_enabled,
            r.git_sync_debounce_secs == 60,
            r.allowed_user_ids@.len() == 0,
            r.finance.allowed_user_ids@.len() == 0,
            r.timezone@ == "UTC"@,
            r.date_display_format@ == "%Y-%m-%d"@,
            r.guide_path is None,
    {
        Config {
            teloxide_token: String::new(),
            openrouter_api_key: String::new(),
            openai_api_key: String::new(),
            vault_path: ".".to_owned(),
            git_sync_enabled: false,
            git_path: None,
            git_ssh_key_path: None,
            git_remote_name: "origin".to_owned(),
            git_branch: "main".to_owned(),
            git_sync_debounce_secs: 60,
            ai_provider: "openrouter".to_owned(),
            whisper_model: "whisper-1".to_owned(),
            whisper_language: None,
            openrouter_model_classify: "google/gemini-2.5-flash".to_owned(),
            transcription: TranscriptionConfig { provider: None, model: None, language: None },
            classification: TaskAiConfig { provider: None, model: None },
            summarization: TaskAiConfig { provider: None, model: None },
            allowed_user_ids: Vec::new(),
            timezone: "UTC".to_owned(),
            date_display_format: "%Y-%m-%d".to_owned(),
            guide_path: None,
            image: ImageConfig::default(),
            url: UrlConfig::default(),
            ack: AckConfig::default(),
            finance: FinanceConfig::default(),
            finance_teloxide_token: None,
        }
    }
}

/// Errors while loading the configuration.
#[derive(Debug, Clone, PartialEq, Eq)]
pub enum ConfigError {
    /// A required environment variable is not set.
    Missing(&'static str),
    /// A required setting is not in the file.
    MissingSetting(&'static str),
    /// The file could not be read (path, reason).
    FileRead(String, String),
    /// The file could not be parsed (path, reason).
    Parse(String, String),
    /// The vault path does not exist.
    InvalidPath(String),
}

/// The message of a configuration error.
pub open spec fn config_error_text(e: ConfigError) -> Seq<char> {
    match e {
        ConfigError::Missing(v) => "Missing required environment variable: "@ + v@,
        ConfigError::MissingSetting(v) => "Missing required config setting: "@ + v@,
        ConfigError::FileRead(p, m) => "Failed to read config file "@ + p@ + ": "@ + m@,
        ConfigError::Parse(p, m) => "Failed to parse config file "@ + p@ + ": "@ + m@,
        ConfigError::InvalidPath(p) => "Invalid path: "@ + p@ + " does not exist"@,
    }
}

impl ConfigError {
    /// The message this error is reported with.
    pub fn message(&self) -> (r: String)
        ensures
            r@ == config_error_text(*self),
    {
        let mut out: Vec<char> = Vec::new();
        match self {
            ConfigError::Missing(v) => {
                push_str(&mut out, "Missing required environment variable: ");
                push_str(&mut out, v);
            },
            ConfigError::MissingSetting(v) => {
                push_str(&mut out, "Missing required config setting: ");
                push_str(&mut out, v);
            },
            ConfigError::FileRead(p, m) => {
                push_str(&mut out, "Failed to read config file ");
                push_str(&mut out, p.as_str());
                push_str(&mut out, ": ");
                push_str(&mut out, m.as_str());
            },
            ConfigError::Parse(p, m) => {
                push_str(&mut out, "Failed to parse config file ");
                push_str(&mut out, p.as_str());
                push_str(&mut out, ": ");
                push_str(&mut out, m.as_str());
            },
            ConfigError::InvalidPath(p) => {
                push_str(&mut out, "Invalid path: ");
                push_str(&mut out, p.as_str());
                push_str(&mut out, " does not exist");
            },
        }
        assert(out@ =~= config_error_text(*self));
        string_of(&out)
    }
}

/// Whether `id` is in `ids`.
pub fn contains_id(ids: &Vec<u64>, id: u64) -> (r: bool)
    ensures
        r == ids@.contains(id),
{
    let mut i: usize = 0;
    while i < ids.len()
        invariant
            i <= ids.len(),
            forall|k: int| 0 <= k < i ==> ids@[k] != id,
        decreases ids.len() - i,
    {
        if ids[i] == id {
            assert(ids@[i as int] == id);
            return true;
        }
        i = i + 1;
    }
    false
}

/// A user may use the bot: the list is empty (everyone may) or names the user.
pub open spec fn user_allowed(ids: Seq<u64>, id: u64) -> bool {
    ids.len() == 0 || ids.contains(id)
}

impl Config {
    /// Check if a user is allowed (empty list = allow all)
    pub fn is_user_allowed(&self, user_id: u64) -> (r: bool)
        ensures
            r == user_allowed(self.allowed_user_ids@, user_id),
    {
        self.allowed_user_ids.len() == 0 || contains_id(&self.allowed_user_ids, user_id)
    }

    /// Check if a user is allowed on the finance bot (falls back to general allowed users if empty)
    pub fn is_finance_user_allowed(&self, user_id: u64) -> (r: bool)
        ensures
            r == if self.finance.allowed_user_ids@.len() == 0 {
                user_allowed(self.allowed_user_ids@, user_id)
            } else {
                self.finance.allowed_user_ids@.contains(user_id)
            },
    {
        if self.finance.allowed_user_ids.len() == 0 {
            self.is_user_allowed(user_id)
        } else {
            contains_id(&self.finance.allowed_user_ids, user_id)
        }
    }
}

/// The environment variables the configuration reads.
#[derive(Debug, Clone, Default)]
pub struct ConfigEnv {
    pub teloxide_token: Option<String>,
    pub openrouter_api_key: Option<String>,
    pub openai_api_key: Option<String>,
    pub config_path: Option<String>,
    pub finance_teloxide_token: Option<String>,
}

/// What came of reading and parsing the settings file.
#[derive(Debug, Clone)]
pub enum LoadedFile {
    /// The file could not be read, for the given reason.
    ReadFailed(String),
    /// The file was read but is not valid settings, for the given reason.
    ParseFailed(String),
    /// The settings of the file.
    Parsed(FileConfig),
}

/// The settings file path: `CONFIG_PATH`, else `config.yaml`.
pub open spec fn config_file_path(env_path: Option<String>) -> Seq<char> {
    match env_path {
        Some(p) => p@,
        None => "config.yaml"@,
    }
}

/// A path resolved against the directory of the settings file: absolute
/// paths stay, relative ones are joined to that directory.
pub open spec fn resolved_path(dir: Seq<char>, p: Seq<char>) -> Seq<char> {
    if p.len() > 0 && p[0] == '/' {
        p
    } else {
        join_path(dir, p)
    }
}

/// An optional path resolved against the directory of the settings file.
pub open spec fn resolved_opt_path(dir: Seq<char>, p: Option<String>) -> Option<Seq<char>> {
    match p {
        Some(q) => Some(resolved_path(dir, q@)),
        None => None,
    }
}

fn resolve_path(dir: &str, p: &Option<String>) -> (r: Option<String>)
    ensures
        crate::text::opt_string_view(r) == resolved_opt_path(dir@, *p),
{
    match p {
        Some(q) => {
            let cs = chars_of(q.as_str());
            if cs.len() > 0 && cs[0] == '/' {
                Some(q.clone())
            } else {
                Some(path_join(dir, q.as_str()))
            }
        },
        None => None,
    }
}

impl Config {
    /// The path of the settings file: `CONFIG_PATH`, defaulting to `config.yaml`.
    pub fn config_path(env: &ConfigEnv) -> (r: String)
        ensures
            r@ == config_file_path(env.config_path),
    {
        match &env.config_path {
            Some(p) => p.clone(),
            None => "config.yaml".to_owned(),
        }
    }

    /// Builds the configuration from the environment, the outcome of reading
    /// the settings file at `config_path`, the directory of that file and
    /// whether the vault path named in the file exists. Errors come in the
    /// order in which they are checked: the three secrets, reading,
    /// parsing, the vault path, the git path (required when sync is on),
    /// and the finance token (required when finance is on).
    pub fn from_sources(
        env: ConfigEnv,
        config_path: &str,
        config_dir: &str,
        loaded: LoadedFile,
        vault_exists: bool,
    ) -> (r: Result<Config, ConfigError>)
        ensures
            env.teloxide_token is None ==> r == Err::<Config, ConfigError>(ConfigError::Missing("TELOXIDE_TOKEN")),
            env.teloxide_token is Some && env.openrouter_api_key is None ==> r == Err::<Config, ConfigError>(
                ConfigError::Missing("OPENROUTER_API_KEY"),
            ),
            env.teloxide_token is Some && env.openrouter_api_key is Some && env.openai_api_key is None
                ==> r == Err::<Config, ConfigError>(ConfigError::Missing("OPENAI_API_KEY")),
            env.teloxide_token is Some && env.openrouter_api_key is Some && env.openai_api_key is Some
                ==> match loaded {
                LoadedFile::ReadFailed(m) => r matches Err(ConfigError::FileRead(p, m2)) && p@
                    == config_path@ && m2@ == m@,
                LoadedFile::ParseFailed(m) => r matches Err(ConfigError::Parse(p, m2)) && p@
                    == config_path@ && m2@ == m@,
                LoadedFile::Parsed(f) => if !vault_exists {
                    r matches Err(ConfigError::InvalidPath(p)) && p@ == f.vault_path@
                } else if f.git.sync_enabled && f.git.path is None {
                    r == Err::<Config, ConfigError>(
                        ConfigError::MissingSetting("git.path (required when git.sync_enabled is true)"),
                    )
                } else if f.finance.enabled && env.finance_teloxide_token is None {
                    r == Err::<Config, ConfigError>(ConfigError::Missing("FINANCE_TELOXIDE_TOKEN"))
                } else {
                    r matches Ok(c) && {
                        &&& Some(c.teloxide_token@) == crate::text::opt_string_view(env.teloxide_token)
                        &&& Some(c.openrouter_api_key@) == crate::text::opt_string_view(env.openrouter_api_key)
                        &&& Some(c.openai_api_key@) == crate::text::opt_string_view(env.openai_api_key)
                        &&& c.vault_path@ == f.vault_path@
                        &&& c.git_sync_enabled == f.git.sync_enabled
                        &&& c.git_path == f.git.path
                        &&& c.git_ssh_key_path == f.git.ssh_key_path
                        &&& c.git_remote_name == f.git.remote_name
                        &&& c.git_branch == f.git.branch
                        &&& c.git_sync_debounce_secs == f.git.sync_debounce_secs
                        &&& c.ai_provider == f.ai.provider
                        &&& c.whisper_model == f.ai.whisper_model
                        &&& crate::text::opt_string_view(c.whisper_language) == match f.ai.whisper_language {
                            Some(l) => if l@.len() == 0 { None } else { Some(l@) },
                            None => None,
                        }
                        &&& c.openrouter_model_classify == f.ai.classify_model
                        &&& c.transcription == f.ai.transcription
                        &&& c.classification == f.ai.classification
                        &&& c.summarization == f.ai.summarization
                        &&& c.allowed_user_ids == f.access.allowed_user_ids
                        &&& c.timezone == f.timezone
                        &&& c.date_display_format@ == moment_to_chrono(f.date_display_format@)
                        &&& crate::text::opt_string_view(c.guide_path) == resolved_opt_path(config_dir@, f.guide_path)
                        &&& crate::text::opt_string_view(c.finance.guide_path) == resolved_opt_path(
                            config_dir@,
                            f.finance.guide_path,
                        )
                        &&& c.image == f.image
                        &&& c.url == f.url
                        &&& c.ack == f.ack
                        &&& c.finance.enabled == f.finance.enabled
                        &&& c.finance.folder == f.finance.folder
                        &&& c.finance.assets_folder == f.finance.assets_folder
                        &&& c.finance.allowed_user_ids == f.finance.allowed_user_ids
                        &&& c.finance_teloxide_token == env.finance_teloxide_token
                    }
                },
            },
    {
        let teloxide_token = match env.teloxide_token {
            Some(t) => t,
            None => return Err(ConfigError::Missing("TELOXIDE_TOKEN")),
        };
        let openrouter_api_key = match env.openrouter_api_key {
            Some(t) => t,
            None => return Err(ConfigError::Missing("OPENROUTER_API_KEY")),
        };
        let openai_api_key = match env.openai_api_key {
            Some(t) => t,
            None => return Err(ConfigError::Missing("OPENAI_API_KEY")),
        };
        let file = match loaded {
            LoadedFile::ReadFailed(m) => {
                return Err(ConfigError::FileRead(config_path.to_owned(), m));
            },
            LoadedFile::ParseFailed(m) => {
                return Err(ConfigError::Parse(config_path.to_owned(), m));
            },
            LoadedFile::Parsed(f) => f,
        };
        if !vault_exists {
            return Err(ConfigError::InvalidPath(file.vault_path));
        }
        if file.git.sync_enabled && file.git.path.is_none() {
            return Err(
                ConfigError::MissingSetting("git.path (required when git.sync_enabled is true)"),
            );
        }
        if file.finance.enabled && env.finance_teloxide_token.is_none() {
            return Err(ConfigError::Missing("FINANCE_TELOXIDE_TOKEN"));
        }
        let guide_path = resolve_path(config_dir, &file.guide_path);
        let finance_guide = resolve_path(config_dir, &file.finance.guide_path);
        let whisper_language = match file.ai.whisper_language {
            Some(l) => if l.as_str().is_empty() {
                None
            } else {
                Some(l)
            },
            None => None,
        };
        let date_display_format = momentjs_to_chrono(file.date_display_format.as_str());
        let finance = FinanceConfig {
            enabled: file.finance.enabled,
            folder: file.finance.folder,
            assets_folder: file.finance.assets_folder,
            guide_path: finance_guide,
            allowed_user_ids: file.finance.allowed_user_ids,
        };
        Ok(Config {
            teloxide_token,
            openrouter_api_key,
            openai_api_key,
            vault_path: file.vault_path,
            git_sync_enabled: file.git.sync_enabled,
            git_path: file.git.path,
            git_ssh_key_path: file.git.ssh_key_path,
            git_remote_name: file.git.remote_name,
            git_branch: file.git.branch,
            git_sync_debounce_secs: file.git.sync_debounce_secs,
            ai_provider: file.ai.provider,
            whisper_model: file.ai.whisper_model,
            whisper_language,
            openrouter_model_classify: file.ai.classify_model,
            transcription: file.ai.transcription,
            classification: file.ai.classification,
            summarization: file.ai.summarization,
            allowed_user_ids: file.access.allowed_user_ids,
            timezone: file.timezone,
            date_display_format,
            guide_path,
            image: file.image,
            url: file.url,
            ack: file.ack,
            finance,
            finance_teloxide_token: env.finance_teloxide_token,
        })
    }
}

} // verus!
