//! Settings: read once at the start, typed and checked.
//!
//! A setting is taken from the YAML file, else from the environment, else its default holds.
//! Keys that nobody asks for are ignored. A value of the wrong shape is an error.
use vstd::prelude::*;
use vstd::string::StringExecFns;

use crate::ids::SecretString;
use crate::text::{
    comma_list, decimal_text, has_prefix, parse_unsigned, quote, same_text, to_lower, trim,
};
use crate::yaml::{error_message, parse_mapping, Yaml, YamlValue};

verus! {

/// When to look for new Instagram posts, where nothing is configured.
pub const DEFAULT_POLL_CRON: &'static str = "*/20 * * * *";

/// Why the settings were refused.
#[derive(Debug)]
pub enum ConfigError {
    /// The file is no YAML mapping. A file without content is an empty one.
    Parse {
        /// What the reader reported.
        source: serde_yaml::Error,
    },
    /// A value is of the wrong shape or not allowed.
    InvalidValue {
        /// The setting.
        field: &'static str,
        /// What is wrong with it.
        reason: String,
    },
}

/// A refusal with its texts as characters.
pub enum ConfigErrorView {
    /// See [`ConfigError::Parse`].
    Parse {
        /// The message of what the reader reported.
        source: Seq<char>,
    },
    /// See [`ConfigError::InvalidValue`].
    InvalidValue {
        /// The setting.
        field: Seq<char>,
        /// What is wrong with it.
        reason: Seq<char>,
    },
}

impl View for ConfigError {
    type V = ConfigErrorView;

    open spec fn view(&self) -> ConfigErrorView {
        match self {
            ConfigError::Parse { source } => ConfigErrorView::Parse {
                source: crate::yaml::yaml_message(*source),
            },
            ConfigError::InvalidValue { field, reason } => ConfigErrorView::InvalidValue {
                field: field@,
                reason: reason@,
            },
        }
    }
}

/// The text of a refusal.
pub open spec fn refusal_text(error: ConfigErrorView) -> Seq<char> {
    match error {
        ConfigErrorView::Parse { source } => source,
        ConfigErrorView::InvalidValue { field, reason } => field + ": "@ + reason,
    }
}

impl ConfigError {
    /// The text of the refusal: what the reader reported, or the setting and what is wrong
    /// with it.
    pub fn message(&self) -> (r: String)
        ensures
            r@ == refusal_text(self@),
    {
        match self {
            ConfigError::Parse { source } => error_message(source),
            ConfigError::InvalidValue { field, reason } => {
                let mut text: String = (*field).to_owned();
                text.append(": ");
                text.append(reason.as_str());
                text
            },
        }
    }
}

/// The settings of the process.
#[derive(Clone)]
pub struct Config {
    /// The public base URL.
    pub base_url: Option<String>,
    /// The address to listen on, in canonical form.
    pub host: String,
    /// The port to listen on.
    pub port: u16,
    /// The path of the database file.
    pub db_path: String,
    /// How many days a session lasts.
    pub session_ttl_days: u32,
    /// The URL of the session store.
    pub redis_url: String,
    /// The proxies whose forwarded addresses are believed, in canonical form.
    pub trusted_proxies: Vec<String>,
    /// The site verification value of the index page.
    pub google_site_verification: Option<String>,
    /// The URL of the privacy policy.
    pub privacy_policy_url: String,
    /// The URL of the terms of use.
    pub terms_url: String,
    /// The master secret of encryption at rest.
    pub encryption_secret: Option<SecretString>,
    /// The new master secret, which asks for a rotation.
    pub encryption_secret_new: Option<SecretString>,
    /// The invite codes to seed at the start.
    pub invite_codes: Vec<String>,
    /// The Discord users that become administrators.
    pub admin_discord_ids: Vec<String>,
    /// The most megabytes attached to one desktop message.
    pub desktop_max_upload_mb: u32,
    /// When reminders are polled, as a cron expression.
    pub reminder_cron: String,
    /// The Google client ID.
    pub google_client_id: Option<String>,
    /// The Google client secret.
    pub google_client_secret: Option<SecretString>,
    /// The Discord channel that Instagram posts go to.
    pub instagram_channel_id: Option<String>,
    /// When to look for new Instagram posts, as a cron expression that was checked.
    pub instagram_poll_cron: String,
    /// The Instagram token for the first link.
    pub instagram_access_token: Option<SecretString>,
    /// The Instagram app secret.
    pub instagram_app_secret: Option<SecretString>,
    /// The owner's Discord user ID.
    pub instagram_owner_discord_id: Option<String>,
}

/// The settings with their texts as characters.
pub struct ConfigView {
    /// See [`Config::base_url`].
    pub base_url: Option<Seq<char>>,
    /// See [`Config::host`].
    pub host: Seq<char>,
    /// See [`Config::port`].
    pub port: nat,
    /// See [`Config::db_path`].
    pub db_path: Seq<char>,
    /// See [`Config::session_ttl_days`].
    pub session_ttl_days: nat,
    /// See [`Config::redis_url`].
    pub redis_url: Seq<char>,
    /// See [`Config::trusted_proxies`].
    pub trusted_proxies: Seq<Seq<char>>,
    /// See [`Config::google_site_verification`].
    pub google_site_verification: Option<Seq<char>>,
    /// See [`Config::privacy_policy_url`].
    pub privacy_policy_url: Seq<char>,
    /// See [`Config::terms_url`].
    pub terms_url: Seq<char>,
    /// See [`Config::encryption_secret`].
    pub encryption_secret: Option<Seq<char>>,
    /// See [`Config::encryption_secret_new`].
    pub encryption_secret_new: Option<Seq<char>>,
    /// See [`Config::invite_codes`].
    pub invite_codes: Seq<Seq<char>>,
    /// See [`Config::admin_discord_ids`].
    pub admin_discord_ids: Seq<Seq<char>>,
    /// See [`Config::desktop_max_upload_mb`].
    pub desktop_max_upload_mb: nat,
    /// See [`Config::reminder_cron`].
    pub reminder_cron: Seq<char>,
    /// See [`Config::google_client_id`].
    pub google_client_id: Option<Seq<char>>,
    /// See [`Config::google_client_secret`].
    pub google_client_secret: Option<Seq<char>>,
    /// See [`Config::instagram_channel_id`].
    pub instagram_channel_id: Option<Seq<char>>,
    /// See [`Config::instagram_poll_cron`].
    pub instagram_poll_cron: Seq<char>,
    /// See [`Config::instagram_access_token`].
    pub instagram_access_token: Option<Seq<char>>,
    /// See [`Config::instagram_app_secret`].
    pub instagram_app_secret: Option<Seq<char>>,
    /// See [`Config::instagram_owner_discord_id`].
    pub instagram_owner_discord_id: Option<Seq<char>>,
}

impl View for Config {
    type V = ConfigView;

    open spec fn view(&self) -> ConfigView {
        ConfigView {
            base_url: crate::text::opt_text(self.base_url),
            host: self.host@,
            port: self.port as nat,
            db_path: self.db_path@,
            session_ttl_days: self.session_ttl_days as nat,
            redis_url: self.redis_url@,
            trusted_proxies: crate::text::texts(self.trusted_proxies@),
            google_site_verification: crate::text::opt_text(self.google_site_verification),
            privacy_policy_url: self.privacy_policy_url@,
            terms_url: self.terms_url@,
            encryption_secret: crate::ids::opt_secret(self.encryption_secret),
            encryption_secret_new: crate::ids::opt_secret(self.encryption_secret_new),
            invite_codes: crate::text::texts(self.invite_codes@),
            admin_discord_ids: crate::text::texts(self.admin_discord_ids@),
            desktop_max_upload_mb: self.desktop_max_upload_mb as nat,
            reminder_cron: self.reminder_cron@,
            google_client_id: crate::text::opt_text(self.google_client_id),
            google_client_secret: crate::ids::opt_secret(self.google_client_secret),
            instagram_channel_id: crate::text::opt_text(self.instagram_channel_id),
            instagram_poll_cron: self.instagram_poll_cron@,
            instagram_access_token: crate::ids::opt_secret(self.instagram_access_token),
            instagram_app_secret: crate::ids::opt_secret(self.instagram_app_secret),
            instagram_owner_discord_id: crate::text::opt_text(self.instagram_owner_discord_id),
        }
    }
}

/// Where settings come from: the entries of the YAML file and the environment.
pub struct Sources {
    /// The entries of the file.
    pub yaml: Seq<(Yaml, Yaml)>,
    /// The variables of the environment, by name.
    pub env: Seq<(Seq<char>, Seq<char>)>,
}

/// The text of a YAML scalar; nothing for any other node.
pub open spec fn scalar_text(node: Yaml) -> Option<Seq<char>> {
    match node {
        Yaml::Text(s) => Some(s),
        Yaml::Number(s) => Some(s),
        Yaml::Flag(b) => Some(
            if b {
                "true"@
            } else {
                "false"@
            },
        ),
        _ => None,
    }
}

/// The texts of the scalars of a list, without its other nodes.
pub open spec fn scalar_texts(nodes: Seq<Yaml>) -> Seq<Seq<char>>
    decreases nodes.len(),
{
    if nodes.len() == 0 {
        Seq::<Seq<char>>::empty()
    } else {
        match scalar_text(nodes.last()) {
            Some(s) => scalar_texts(nodes.drop_last()).push(s),
            None => scalar_texts(nodes.drop_last()),
        }
    }
}

/// The text of a YAML node: that of a scalar, or those of a list's scalars with commas
/// between them.
pub open spec fn node_text(node: Yaml) -> Option<Seq<char>> {
    match node {
        Yaml::List(items) => Some(crate::text::joined(scalar_texts(items), ","@)),
        _ => scalar_text(node),
    }
}

/// The node of the first entry with the given key.
pub open spec fn node_at(yaml: Seq<(Yaml, Yaml)>, key: Seq<char>) -> Option<Yaml>
    decreases yaml.len(),
{
    if yaml.len() == 0 {
        None
    } else {
        match node_at(yaml.drop_last(), key) {
            Some(node) => Some(node),
            None => if yaml.last().0 == Yaml::Text(key) {
                Some(yaml.last().1)
            } else {
                None
            },
        }
    }
}

/// The text that the YAML file gives for a key.
pub open spec fn yaml_setting(yaml: Seq<(Yaml, Yaml)>, key: Seq<char>) -> Option<Seq<char>> {
    match node_at(yaml, key) {
        Some(node) => node_text(node),
        None => None,
    }
}

/// The value of the first pair with the given name.
pub open spec fn value_at<T>(pairs: Seq<(Seq<char>, T)>, name: Seq<char>) -> Option<T>
    decreases pairs.len(),
{
    if pairs.len() == 0 {
        None
    } else {
        match value_at(pairs.drop_last(), name) {
            Some(value) => Some(value),
            None => if pairs.last().0 == name {
                Some(pairs.last().1)
            } else {
                None
            },
        }
    }
}

impl Sources {
    /// A setting: from the file, else from the environment. An empty text is a value.
    pub open spec fn get(self, key: Seq<char>) -> Option<Seq<char>> {
        match yaml_setting(self.yaml, key) {
            Some(s) => Some(s),
            None => value_at(self.env, key),
        }
    }

    /// A setting, or its default.
    pub open spec fn get_or(self, key: Seq<char>, default: Seq<char>) -> Seq<char> {
        match self.get(key) {
            Some(s) => s,
            None => default,
        }
    }

    /// A setting where it is there and not empty.
    pub open spec fn get_filled(self, key: Seq<char>) -> Option<Seq<char>> {
        filled(self.get(key))
    }

    /// A setting that is a comma-separated list.
    pub open spec fn get_list(self, key: Seq<char>) -> Seq<Seq<char>> {
        match self.get(key) {
            Some(s) => crate::text::comma_items(s),
            None => Seq::<Seq<char>>::empty(),
        }
    }
}

/// The text where it is there and not empty.
pub open spec fn filled(value: Option<Seq<char>>) -> Option<Seq<char>> {
    match value {
        Some(s) => if s.len() > 0 {
            Some(s)
        } else {
            None
        },
        None => None,
    }
}

/// The complaint about a value that has the wrong shape.
pub open spec fn unparsable(field: Seq<char>, raw: Seq<char>) -> ConfigErrorView {
    ConfigErrorView::InvalidValue {
        field,
        reason: "could not parse value "@ + crate::text::debug_quoted(raw),
    }
}

/// The number that a setting writes, no more than `max`.
pub open spec fn number_in(field: Seq<char>, raw: Seq<char>, max: nat) -> Result<
    nat,
    ConfigErrorView,
> {
    match crate::text::unsigned_value(crate::text::trimmed(raw), max) {
        Some(n) => Ok(n),
        None => Err(unparsable(field, raw)),
    }
}

/// The canonical form of an address, by a table of texts that were resolved; nothing for a
/// text that is no address.
pub open spec fn address_at(
    addresses: Seq<(Seq<char>, Option<Seq<char>>)>,
    text: Seq<char>,
) -> Option<Seq<char>> {
    match value_at(addresses, text) {
        Some(canonical) => canonical,
        None => None,
    }
}

/// The canonical forms of a list of addresses; the first that is none is the error.
pub open spec fn addresses_of(
    addresses: Seq<(Seq<char>, Option<Seq<char>>)>,
    field: Seq<char>,
    items: Seq<Seq<char>>,
) -> Result<Seq<Seq<char>>, ConfigErrorView>
    decreases items.len(),
{
    if items.len() == 0 {
        Ok(Seq::<Seq<char>>::empty())
    } else {
        match addresses_of(addresses, field, items.drop_last()) {
            Ok(before) => match address_at(addresses, items.last()) {
                Some(canonical) => Ok(before.push(canonical)),
                None => Err(
                    ConfigErrorView::InvalidValue {
                        field,
                        reason: "invalid IP "@ + crate::text::debug_quoted(items.last()),
                    },
                ),
            },
            Err(error) => Err(error),
        }
    }
}

/// The texts that the settings need as addresses.
pub open spec fn address_texts_in(src: Sources) -> Seq<Seq<char>> {
    seq![crate::text::trimmed(src.get_or("HOST"@, "127.0.0.1"@))] + src.get_list(
        "TRUSTED_PROXIES"@,
    )
}

/// The port and the session length are not zero.
pub open spec fn checked(port: nat, session_ttl_days: nat) -> Result<(), ConfigErrorView> {
    if port == 0 {
        Err(
            ConfigErrorView::InvalidValue {
                field: "port"@,
                reason: "port must be non-zero"@,
            },
        )
    } else if session_ttl_days == 0 {
        Err(
            ConfigErrorView::InvalidValue {
                field: "session_ttl_days"@,
                reason: "session TTL must be at least 1 day"@,
            },
        )
    } else {
        Ok(())
    }
}

/// The settings out of their sources, where the typed ones have been read.
pub open spec fn config_with(
    src: Sources,
    host: Seq<char>,
    port: nat,
    session_ttl_days: nat,
    trusted_proxies: Seq<Seq<char>>,
    desktop_max_upload_mb: nat,
) -> ConfigView {
    ConfigView {
        base_url: src.get_filled("BASE_URL"@),
        host,
        port,
        db_path: src.get_or("DB_PATH"@, "./data/yuuka.db"@),
        session_ttl_days,
        redis_url: src.get_or("REDIS_URL"@, "redis://127.0.0.1:6379"@),
        trusted_proxies,
        google_site_verification: src.get_filled("GOOGLE_SITE_VERIFICATION"@),
        privacy_policy_url: src.get_or("PRIVACY_POLICY_URL"@, ""@),
        terms_url: src.get_or("TERMS_URL"@, ""@),
        encryption_secret: src.get_filled("YUUKA_ENCRYPTION_SECRET"@),
        encryption_secret_new: src.get_filled("YUUKA_ENCRYPTION_SECRET_NEW"@),
        invite_codes: src.get_list("INVITE_CODES"@),
        admin_discord_ids: src.get_list("ADMIN_DISCORD_IDS"@),
        desktop_max_upload_mb,
        reminder_cron: src.get_or("REMINDER_CRON"@, "* * * * *"@),
        google_client_id: src.get_filled("GOOGLE_CLIENT_ID"@),
        google_client_secret: src.get_filled("GOOGLE_CLIENT_SECRET"@),
        instagram_channel_id: src.get_filled("INSTAGRAM_CHANNEL_ID"@),
        instagram_poll_cron: match src.get_filled("INSTAGRAM_POLL_CRON"@) {
            Some(s) => s,
            None => DEFAULT_POLL_CRON@,
        },
        instagram_access_token: src.get_filled("INSTAGRAM_ACCESS_TOKEN"@),
        instagram_app_secret: src.get_filled("INSTAGRAM_APP_SECRET"@),
        instagram_owner_discord_id: src.get_filled("INSTAGRAM_OWNER_DISCORD_ID"@),
    }
}

/// The configured poll expression, checked by a table of expressions: one that the table does
/// not accept is the error. Nothing is checked where none is configured.
pub open spec fn poll_cron_checked(src: Sources, crons: Seq<(Seq<char>, bool)>) -> Result<
    (),
    ConfigErrorView,
> {
    match src.get_filled("INSTAGRAM_POLL_CRON"@) {
        Some(expr) => if value_at(crons, expr) == Some(true) {
            Ok(())
        } else {
            Err(
                ConfigErrorView::InvalidValue {
                    field: "INSTAGRAM_POLL_CRON"@,
                    reason: "invalid cron expression "@ + crate::text::debug_quoted(expr),
                },
            )
        },
        None => Ok(()),
    }
}

/// The settings out of their sources, or the first complaint: address, port, session
/// length, proxies, upload limit, poll expression, and last the values that are not allowed.
pub open spec fn config_of(
    src: Sources,
    addresses: Seq<(Seq<char>, Option<Seq<char>>)>,
    crons: Seq<(Seq<char>, bool)>,
) -> Result<ConfigView, ConfigErrorView> {
    let host_raw = src.get_or("HOST"@, "127.0.0.1"@);
    let port = number_in("PORT"@, src.get_or("PORT"@, "3000"@), u16::MAX as nat);
    let ttl = number_in(
        "SESSION_TTL_DAYS"@,
        src.get_or("SESSION_TTL_DAYS"@, "7"@),
        u32::MAX as nat,
    );
    let proxies = addresses_of(addresses, "TRUSTED_PROXIES"@, src.get_list("TRUSTED_PROXIES"@));
    let upload = number_in(
        "DESKTOP_MAX_UPLOAD_MB"@,
        src.get_or("DESKTOP_MAX_UPLOAD_MB"@, "20"@),
        u32::MAX as nat,
    );
    match address_at(addresses, crate::text::trimmed(host_raw)) {
        None => Err(unparsable("HOST"@, host_raw)),
        Some(host) => match (port, ttl, proxies, upload, poll_cron_checked(src, crons)) {
            (Err(e), _, _, _, _) => Err(e),
            (_, Err(e), _, _, _) => Err(e),
            (_, _, Err(e), _, _) => Err(e),
            (_, _, _, Err(e), _) => Err(e),
            (_, _, _, _, Err(e)) => Err(e),
            (Ok(port), Ok(ttl), Ok(proxies), Ok(upload), Ok(_)) => match checked(port, ttl) {
                Err(e) => Err(e),
                Ok(_) => Ok(config_with(src, host, port, ttl, proxies, upload)),
            },
        },
    }
}

/// The entries of the file: none without a file, and the reader's message where it is no YAML
/// mapping (one without content is an empty mapping).
pub open spec fn file_entries(raw: Option<Seq<char>>) -> Result<Seq<(Yaml, Yaml)>, Seq<char>> {
    match raw {
        Some(text) => crate::yaml::yaml_document(text),
        None => Ok(Seq::<(Yaml, Yaml)>::empty()),
    }
}

/// The settings out of a file and the environment.
pub open spec fn loaded(
    raw: Option<Seq<char>>,
    env: Seq<(Seq<char>, Seq<char>)>,
    addresses: Seq<(Seq<char>, Option<Seq<char>>)>,
    crons: Seq<(Seq<char>, bool)>,
) -> Result<ConfigView, ConfigErrorView> {
    match file_entries(raw) {
        Ok(yaml) => config_of(Sources { yaml, env }, addresses, crons),
        Err(source) => Err(ConfigErrorView::Parse { source }),
    }
}

/// The views of a list of pairs of texts.
pub open spec fn pair_views(pairs: Seq<(String, String)>) -> Seq<(Seq<char>, Seq<char>)> {
    pairs.map_values(|p: (String, String)| (p.0@, p.1@))
}

/// The views of a table of resolved addresses.
pub open spec fn address_views(pairs: Seq<(String, Option<String>)>) -> Seq<
    (Seq<char>, Option<Seq<char>>),
> {
    pairs.map_values(|p: (String, Option<String>)| (p.0@, crate::text::opt_text(p.1)))
}

/// The views of a table of checked cron expressions.
pub open spec fn cron_views(pairs: Seq<(String, bool)>) -> Seq<(Seq<char>, bool)> {
    pairs.map_values(|p: (String, bool)| (p.0@, p.1))
}

/// The view of a result that holds settings.
pub open spec fn config_result(r: Result<Config, ConfigError>) -> Result<
    ConfigView,
    ConfigErrorView,
> {
    match r {
        Ok(cfg) => Ok(cfg@),
        Err(e) => Err(e@),
    }
}

/// The sources that a list of entries and a list of variables make up.
pub open spec fn sources(
    yaml: Seq<(YamlValue, YamlValue)>,
    env: Seq<(String, String)>,
) -> Sources {
    Sources { yaml: crate::yaml::entry_views(yaml), env: pair_views(env) }
}

/// The text of a YAML scalar.
fn scalar_string(node: &YamlValue) -> (r: Option<String>)
    ensures
        crate::text::opt_text(r) == scalar_text(node@),
{
    match node {
        YamlValue::Text(s) => Some(s.clone()),
        YamlValue::Number(s) => Some(s.clone()),
        YamlValue::Flag(b) => if *b {
            Some("true".to_owned())
        } else {
            Some("false".to_owned())
        },
        YamlValue::List(_) => None,
        YamlValue::Other => None,
    }
}

/// The text of a YAML node.
fn node_string(node: &YamlValue) -> (r: Option<String>)
    ensures
        crate::text::opt_text(r) == node_text(node@),
{
    match node {
        YamlValue::List(items) => {
            let ghost all = node@->List_0;
            let mut parts: Vec<String> = Vec::new();
            let mut i: usize = 0;
            assert(all.take(0) == Seq::<Yaml>::empty());
            assert(crate::text::texts(parts@) == Seq::<Seq<char>>::empty());
            while i < items.len()
                invariant
                    i <= items.len() == all.len(),
                    forall|k: int| 0 <= k < all.len() ==> #[trigger] all[k] == items@[k]@,
                    crate::text::texts(parts@) == scalar_texts(all.take(i as int)),
                decreases items.len() - i,
            {
                let ghost before = crate::text::texts(parts@);
                assert(all.take(i + 1).drop_last() == all.take(i as int));
                assert(all[i as int] == items@[i as int]@);
                if let Some(s) = scalar_string(&items[i]) {
                    parts.push(s);
                    assert(crate::text::texts(parts@) == before.push(s@));
                }
                i += 1;
            }
            assert(all.take(i as int) == all);
            Some(crate::text::join(&parts, ","))
        },
        _ => scalar_string(node),
    }
}

pub(crate) proof fn lemma_node_at_first(yaml: Seq<(Yaml, Yaml)>, key: Seq<char>, at: int)
    requires
        0 <= at < yaml.len(),
        yaml[at].0 == Yaml::Text(key),
        forall|k: int| 0 <= k < at ==> (#[trigger] yaml[k]).0 != Yaml::Text(key),
    ensures
        node_at(yaml, key) == Some(yaml[at].1),
    decreases yaml.len(),
{
    if at == yaml.len() - 1 {
        lemma_node_at_none(yaml.drop_last(), key);
    } else {
        lemma_node_at_first(yaml.drop_last(), key, at);
    }
}

pub(crate) proof fn lemma_node_at_none(yaml: Seq<(Yaml, Yaml)>, key: Seq<char>)
    requires
        forall|k: int| 0 <= k < yaml.len() ==> (#[trigger] yaml[k]).0 != Yaml::Text(key),
    ensures
        node_at(yaml, key) is None,
    decreases yaml.len(),
{
    if yaml.len() > 0 {
        assert(yaml.last() == yaml[yaml.len() - 1]);
        assert forall|k: int| 0 <= k < yaml.len() - 1 implies (#[trigger] yaml.drop_last()[k]).0
            != Yaml::Text(key) by {
            assert(yaml.drop_last()[k] == yaml[k]);
        }
        lemma_node_at_none(yaml.drop_last(), key);
    }
}

/// The text that the YAML file gives for a key.
fn yaml_string(yaml: &Vec<(YamlValue, YamlValue)>, key: &str) -> (r: Option<String>)
    ensures
        crate::text::opt_text(r) == yaml_setting(crate::yaml::entry_views(yaml@), key@),
{
    let ghost views = crate::yaml::entry_views(yaml@);
    let mut i: usize = 0;
    while i < yaml.len()
        invariant
            i <= yaml.len(),
            views == crate::yaml::entry_views(yaml@),
            forall|k: int| 0 <= k < i ==> (#[trigger] views[k]).0 != Yaml::Text(key@),
        decreases yaml.len() - i,
    {
        assert(views[i as int] == (yaml@[i as int].0@, yaml@[i as int].1@));
        if let YamlValue::Text(name) = &yaml[i].0 {
            if same_text(name.as_str(), key) {
                proof {
                    lemma_node_at_first(views, key@, i as int);
                }
                return node_string(&yaml[i].1);
            }
        }
        i += 1;
    }
    proof {
        lemma_node_at_none(views, key@);
    }
    None
}

pub(crate) proof fn lemma_value_at_first<T>(pairs: Seq<(Seq<char>, T)>, name: Seq<char>, at: int)
    requires
        0 <= at < pairs.len(),
        pairs[at].0 == name,
        forall|k: int| 0 <= k < at ==> (#[trigger] pairs[k]).0 != name,
    ensures
        value_at(pairs, name) == Some(pairs[at].1),
    decreases pairs.len(),
{
    if at == pairs.len() - 1 {
        lemma_value_at_none(pairs.drop_last(), name);
    } else {
        lemma_value_at_first(pairs.drop_last(), name, at);
    }
}

pub(crate) proof fn lemma_value_at_none<T>(pairs: Seq<(Seq<char>, T)>, name: Seq<char>)
    requires
        forall|k: int| 0 <= k < pairs.len() ==> (#[trigger] pairs[k]).0 != name,
    ensures
        value_at(pairs, name) is None,
    decreases pairs.len(),
{
    if pairs.len() > 0 {
        assert(pairs.last() == pairs[pairs.len() - 1]);
        assert forall|k: int| 0 <= k < pairs.len() - 1 implies (#[trigger] pairs.drop_last()[k]).0
            != name by {
            assert(pairs.drop_last()[k] == pairs[k]);
        }
        lemma_value_at_none(pairs.drop_last(), name);
    }
}

/// The value of a variable of the environment.
fn env_string(env: &Vec<(String, String)>, key: &str) -> (r: Option<String>)
    ensures
        crate::text::opt_text(r) == value_at(pair_views(env@), key@),
{
    let ghost views = pair_views(env@);
    let mut i: usize = 0;
    while i < env.len()
        invariant
            i <= env.len(),
            views == pair_views(env@),
            forall|k: int| 0 <= k < i ==> (#[trigger] views[k]).0 != key@,
        decreases env.len() - i,
    {
        assert(views[i as int] == (env@[i as int].0@, env@[i as int].1@));
        if same_text(env[i].0.as_str(), key) {
            proof {
                lemma_value_at_first(views, key@, i as int);
            }
            return Some(env[i].1.clone());
        }
        i += 1;
    }
    proof {
        lemma_value_at_none(views, key@);
    }
    None
}

/// The canonical form of an address, by the table of texts that were resolved.
fn resolved(addresses: &Vec<(String, Option<String>)>, text: &str) -> (r: Option<String>)
    ensures
        crate::text::opt_text(r) == address_at(address_views(addresses@), text@),
{
    let ghost views = address_views(addresses@);
    let mut i: usize = 0;
    while i < addresses.len()
        invariant
            i <= addresses.len(),
            views == address_views(addresses@),
            forall|k: int| 0 <= k < i ==> (#[trigger] views[k]).0 != text@,
        decreases addresses.len() - i,
    {
        assert(views[i as int] == (
            addresses@[i as int].0@,
            crate::text::opt_text(addresses@[i as int].1),
        ));
        if same_text(addresses[i].0.as_str(), text) {
            proof {
                lemma_value_at_first(views, text@, i as int);
            }
            return match &addresses[i].1 {
                Some(canonical) => Some(canonical.clone()),
                None => None,
            };
        }
        i += 1;
    }
    proof {
        lemma_value_at_none(views, text@);
    }
    None
}

/// Whether the table accepts a cron expression.
fn accepted(crons: &Vec<(String, bool)>, expr: &str) -> (r: bool)
    ensures
        r == (value_at(cron_views(crons@), expr@) == Some(true)),
{
    let ghost views = cron_views(crons@);
    let mut i: usize = 0;
    while i < crons.len()
        invariant
            i <= crons.len(),
            views == cron_views(crons@),
            forall|k: int| 0 <= k < i ==> (#[trigger] views[k]).0 != expr@,
        decreases crons.len() - i,
    {
        assert(views[i as int] == (crons@[i as int].0@, crons@[i as int].1));
        if same_text(crons[i].0.as_str(), expr) {
            proof {
                lemma_value_at_first(views, expr@, i as int);
            }
            return crons[i].1;
        }
        i += 1;
    }
    proof {
        lemma_value_at_none(views, expr@);
    }
    false
}

/// A setting: from the file, else from the environment.
pub fn get_setting(
    yaml: &Vec<(YamlValue, YamlValue)>,
    env: &Vec<(String, String)>,
    key: &str,
) -> (r: Option<String>)
    ensures
        crate::text::opt_text(r) == sources(yaml@, env@).get(key@),
{
    match yaml_string(yaml, key) {
        Some(s) => Some(s),
        None => env_string(env, key),
    }
}

/// A setting, or its default.
fn setting_or(
    yaml: &Vec<(YamlValue, YamlValue)>,
    env: &Vec<(String, String)>,
    key: &str,
    default: &str,
) -> (r: String)
    ensures
        r@ == sources(yaml@, env@).get_or(key@, default@),
{
    match get_setting(yaml, env, key) {
        Some(s) => s,
        None => default.to_owned(),
    }
}

/// The text where it is there and not empty.
pub fn non_empty(value: Option<String>) -> (r: Option<String>)
    ensures
        crate::text::opt_text(r) == filled(crate::text::opt_text(value)),
{
    match value {
        Some(s) => {
            if s.as_str().is_empty() {
                None
            } else {
                Some(s)
            }
        },
        None => None,
    }
}

/// A setting where it is there and not empty.
fn setting_filled(
    yaml: &Vec<(YamlValue, YamlValue)>,
    env: &Vec<(String, String)>,
    key: &str,
) -> (r: Option<String>)
    ensures
        crate::text::opt_text(r) == sources(yaml@, env@).get_filled(key@),
{
    non_empty(get_setting(yaml, env, key))
}

/// A secret where it is there and not empty.
fn setting_secret(
    yaml: &Vec<(YamlValue, YamlValue)>,
    env: &Vec<(String, String)>,
    key: &str,
) -> (r: Option<SecretString>)
    ensures
        crate::ids::opt_secret(r) == sources(yaml@, env@).get_filled(key@),
{
    match setting_filled(yaml, env, key) {
        Some(s) => Some(SecretString::new(s)),
        None => None,
    }
}

/// The items of a comma-separated list; none without a text.
pub fn parse_string_list(raw: Option<&str>) -> (r: Vec<String>)
    ensures
        crate::text::texts(r@) == (match crate::text::opt_str(raw) {
            Some(s) => crate::text::comma_items(s),
            None => Seq::<Seq<char>>::empty(),
        }),
{
    match raw {
        Some(s) => comma_list(s),
        None => {
            let none: Vec<String> = Vec::new();
            assert(crate::text::texts(none@) == Seq::<Seq<char>>::empty());
            none
        },
    }
}

/// A setting that is a comma-separated list.
fn setting_list(
    yaml: &Vec<(YamlValue, YamlValue)>,
    env: &Vec<(String, String)>,
    key: &str,
) -> (r: Vec<String>)
    ensures
        crate::text::texts(r@) == sources(yaml@, env@).get_list(key@),
{
    match get_setting(yaml, env, key) {
        Some(s) => parse_string_list(Some(s.as_str())),
        None => parse_string_list(None),
    }
}

/// The complaint about a value that has the wrong shape.
fn wrong_shape(field: &'static str, raw: &str) -> (r: ConfigError)
    ensures
        r@ == unparsable(field@, raw@),
{
    let mut reason: String = "could not parse value ".to_owned();
    reason.append(quote(raw).as_str());
    ConfigError::InvalidValue { field, reason }
}

/// The number that a setting writes, no more than `max`.
pub fn parse_field(field: &'static str, raw: &str, max: u32) -> (r: Result<u32, ConfigError>)
    ensures
        (match r {
            Ok(n) => Ok(n as nat),
            Err(e) => Err(e@),
        }) == number_in(field@, raw@, max as nat),
{
    match parse_unsigned(trim(raw).as_str(), max) {
        Some(n) => Ok(n),
        None => Err(wrong_shape(field, raw)),
    }
}

proof fn lemma_addresses_stop(
    addresses: Seq<(Seq<char>, Option<Seq<char>>)>,
    field: Seq<char>,
    items: Seq<Seq<char>>,
    upto: int,
)
    requires
        0 <= upto <= items.len(),
        addresses_of(addresses, field, items.take(upto)) is Err,
    ensures
        addresses_of(addresses, field, items) == addresses_of(addresses, field, items.take(upto)),
    decreases items.len() - upto,
{
    if upto < items.len() {
        assert(items.take(upto + 1).drop_last() == items.take(upto));
        lemma_addresses_stop(addresses, field, items, upto + 1);
    } else {
        assert(items.take(upto) == items);
    }
}

/// The canonical forms of a comma-separated list of addresses.
pub fn parse_ip_list(
    field: &'static str,
    raw: Option<&str>,
    addresses: &Vec<(String, Option<String>)>,
) -> (r: Result<Vec<String>, ConfigError>)
    ensures
        (match r {
            Ok(list) => Ok(crate::text::texts(list@)),
            Err(e) => Err(e@),
        }) == addresses_of(
            address_views(addresses@),
            field@,
            match crate::text::opt_str(raw) {
                Some(s) => crate::text::comma_items(s),
                None => Seq::<Seq<char>>::empty(),
            },
        ),
{
    let items: Vec<String> = parse_string_list(raw);
    let ghost all = crate::text::texts(items@);
    let mut out: Vec<String> = Vec::new();
    let mut i: usize = 0;
    assert(all.take(0) == Seq::<Seq<char>>::empty());
    assert(crate::text::texts(out@) == Seq::<Seq<char>>::empty());
    while i < items.len()
        invariant
            i <= items.len(),
            all == crate::text::texts(items@),
            all == (match crate::text::opt_str(raw) {
                Some(s) => crate::text::comma_items(s),
                None => Seq::<Seq<char>>::empty(),
            }),
            addresses_of(address_views(addresses@), field@, all.take(i as int)) == Ok::<
                Seq<Seq<char>>,
                ConfigErrorView,
            >(crate::text::texts(out@)),
        decreases items.len() - i,
    {
        let ghost before = crate::text::texts(out@);
        assert(all.take(i + 1).drop_last() == all.take(i as int));
        assert(all[i as int] == items@[i as int]@);
        match resolved(addresses, items[i].as_str()) {
            Some(canonical) => {
                out.push(canonical);
                assert(crate::text::texts(out@) == before.push(canonical@));
            },
            None => {
                let mut reason: String = "invalid IP ".to_owned();
                reason.append(quote(items[i].as_str()).as_str());
                proof {
                    lemma_addresses_stop(address_views(addresses@), field@, all, i + 1);
                }
                return Err(ConfigError::InvalidValue { field, reason });
            },
        }
        i += 1;
    }
    assert(all.take(i as int) == all);
    Ok(out)
}

/// Checks the configured poll expression.
fn check_poll_cron(
    yaml: &Vec<(YamlValue, YamlValue)>,
    env: &Vec<(String, String)>,
    crons: &Vec<(String, bool)>,
) -> (r: Result<(), ConfigError>)
    ensures
        (match r {
            Ok(_) => Ok(()),
            Err(e) => Err(e@),
        }) == poll_cron_checked(sources(yaml@, env@), cron_views(crons@)),
{
    match setting_filled(yaml, env, "INSTAGRAM_POLL_CRON") {
        Some(expr) => {
            if accepted(crons, expr.as_str()) {
                return Ok(());
            }
            let mut reason: String = "invalid cron expression ".to_owned();
            reason.append(quote(expr.as_str()).as_str());
            Err(ConfigError::InvalidValue { field: "INSTAGRAM_POLL_CRON", reason })
        },
        None => Ok(()),
    }
}

/// The entries of the file, where it can be read.
fn read_file(raw: Option<&str>) -> (r: Result<Vec<(YamlValue, YamlValue)>, ConfigError>)
    ensures
        match r {
            Ok(yaml) => file_entries(crate::text::opt_str(raw)) == Ok::<
                Seq<(Yaml, Yaml)>,
                Seq<char>,
            >(crate::yaml::entry_views(yaml@)),
            Err(e) => file_entries(crate::text::opt_str(raw)) matches Err(source) && e@ == (
            ConfigErrorView::Parse { source }),
        },
{
    match raw {
        Some(text) => match parse_mapping(text) {
            Ok(yaml) => Ok(yaml),
            Err(source) => Err(ConfigError::Parse { source }),
        },
        None => {
            let none: Vec<(YamlValue, YamlValue)> = Vec::new();
            assert(crate::yaml::entry_views(none@) == Seq::<(Yaml, Yaml)>::empty());
            Ok(none)
        },
    }
}

impl Config {
    /// Reads and checks the settings.
    ///
    /// `raw` is the text of the file; without a file the environment and the defaults hold.
    /// `env` is the environment. `addresses` gives the canonical form of each text of
    /// [`Config::address_texts`] that is an address, and `crons` says whether the text of
    /// [`Config::cron_text`] is a cron expression.
    pub fn load_and_validate(
        raw: Option<&str>,
        env: &Vec<(String, String)>,
        addresses: &Vec<(String, Option<String>)>,
        crons: &Vec<(String, bool)>,
    ) -> (r: Result<Self, ConfigError>)
        ensures
            config_result(r) == loaded(
                crate::text::opt_str(raw),
                pair_views(env@),
                address_views(addresses@),
                cron_views(crons@),
            ),
    {
        match read_file(raw) {
            Ok(yaml) => Config::from_settings(&yaml, env, addresses, crons),
            Err(e) => Err(e),
        }
    }

    /// The texts that the settings need as addresses; none where the file cannot be read.
    pub fn address_texts(raw: Option<&str>, env: &Vec<(String, String)>) -> (r: Vec<String>)
        ensures
            crate::text::texts(r@) == (match file_entries(crate::text::opt_str(raw)) {
                Ok(yaml) => address_texts_in(Sources { yaml, env: pair_views(env@) }),
                Err(_) => Seq::<Seq<char>>::empty(),
            }),
    {
        let mut out: Vec<String> = Vec::new();
        assert(crate::text::texts(out@) == Seq::<Seq<char>>::empty());
        match read_file(raw) {
            Ok(yaml) => {
                out.push(trim(setting_or(&yaml, env, "HOST", "127.0.0.1").as_str()));
                let mut proxies: Vec<String> = setting_list(&yaml, env, "TRUSTED_PROXIES");
                let ghost first = out@;
                let ghost rest = proxies@;
                out.append(&mut proxies);
                assert(crate::text::texts(out@) == crate::text::texts(first)
                    + crate::text::texts(rest));
                assert(crate::text::texts(first) == seq![
                    crate::text::trimmed(sources(yaml@, env@).get_or("HOST"@, "127.0.0.1"@)),
                ]);
            },
            Err(_) => {},
        }
        out
    }

    /// The cron expression that is configured and so has to be checked; none where the file
    /// cannot be read.
    pub fn cron_text(raw: Option<&str>, env: &Vec<(String, String)>) -> (r: Option<String>)
        ensures
            crate::text::opt_text(r) == (match file_entries(crate::text::opt_str(raw)) {
                Ok(yaml) => (Sources { yaml, env: pair_views(env@) }).get_filled(
                    "INSTAGRAM_POLL_CRON"@,
                ),
                Err(_) => None,
            }),
    {
        match read_file(raw) {
            Ok(yaml) => setting_filled(&yaml, env, "INSTAGRAM_POLL_CRON"),
            Err(_) => None,
        }
    }

    /// Reads and checks the settings out of the entries of the file and the environment.
    pub fn from_settings(
        yaml: &Vec<(YamlValue, YamlValue)>,
        env: &Vec<(String, String)>,
        addresses: &Vec<(String, Option<String>)>,
        crons: &Vec<(String, bool)>,
    ) -> (r: Result<Self, ConfigError>)
        ensures
            config_result(r) == config_of(
                sources(yaml@, env@),
                address_views(addresses@),
                cron_views(crons@),
            ),
    {
        let host_raw: String = setting_or(yaml, env, "HOST", "127.0.0.1");
        let host: String = match resolved(addresses, trim(host_raw.as_str()).as_str()) {
            Some(host) => host,
            None => return Err(wrong_shape("HOST", host_raw.as_str())),
        };
        let port_raw: String = setting_or(yaml, env, "PORT", "3000");
        let port: u16 = match parse_field("PORT", port_raw.as_str(), u16::MAX as u32) {
            Ok(n) => n as u16,
            Err(e) => return Err(e),
        };
        let ttl_raw: String = setting_or(yaml, env, "SESSION_TTL_DAYS", "7");
        let session_ttl_days: u32 = match parse_field(
            "SESSION_TTL_DAYS",
            ttl_raw.as_str(),
            u32::MAX,
        ) {
            Ok(n) => n,
            Err(e) => return Err(e),
        };
        let proxies_raw: Option<String> = get_setting(yaml, env, "TRUSTED_PROXIES");
        let proxies: Option<&str> = match &proxies_raw {
            Some(s) => Some(s.as_str()),
            None => None,
        };
        let trusted_proxies: Vec<String> = match parse_ip_list(
            "TRUSTED_PROXIES",
            proxies,
            addresses,
        ) {
            Ok(list) => list,
            Err(e) => return Err(e),
        };
        let upload_raw: String = setting_or(yaml, env, "DESKTOP_MAX_UPLOAD_MB", "20");
        let desktop_max_upload_mb: u32 = match parse_field(
            "DESKTOP_MAX_UPLOAD_MB",
            upload_raw.as_str(),
            u32::MAX,
        ) {
            Ok(n) => n,
            Err(e) => return Err(e),
        };
        if let Err(e) = check_poll_cron(yaml, env, crons) {
            return Err(e);
        }
        let cfg: Config = Config {
            base_url: setting_filled(yaml, env, "BASE_URL"),
            host,
            port,
            db_path: setting_or(yaml, env, "DB_PATH", "./data/yuuka.db"),
            session_ttl_days,
            redis_url: setting_or(yaml, env, "REDIS_URL", "redis://127.0.0.1:6379"),
            trusted_proxies,
            google_site_verification: setting_filled(yaml, env, "GOOGLE_SITE_VERIFICATION"),
            privacy_policy_url: setting_or(yaml, env, "PRIVACY_POLICY_URL", ""),
            terms_url: setting_or(yaml, env, "TERMS_URL", ""),
            encryption_secret: setting_secret(yaml, env, "YUUKA_ENCRYPTION_SECRET"),
            encryption_secret_new: setting_secret(yaml, env, "YUUKA_ENCRYPTION_SECRET_NEW"),
            invite_codes: setting_list(yaml, env, "INVITE_CODES"),
            admin_discord_ids: setting_list(yaml, env, "ADMIN_DISCORD_IDS"),
            desktop_max_upload_mb,
            reminder_cron: setting_or(yaml, env, "REMINDER_CRON", "* * * * *"),
            google_client_id: setting_filled(yaml, env, "GOOGLE_CLIENT_ID"),
            google_client_secret: setting_secret(yaml, env, "GOOGLE_CLIENT_SECRET"),
            instagram_channel_id: setting_filled(yaml, env, "INSTAGRAM_CHANNEL_ID"),
            instagram_poll_cron: match setting_filled(yaml, env, "INSTAGRAM_POLL_CRON") {
                Some(s) => s,
                None => DEFAULT_POLL_CRON.to_owned(),
            },
            instagram_access_token: setting_secret(yaml, env, "INSTAGRAM_ACCESS_TOKEN"),
            instagram_app_secret: setting_secret(yaml, env, "INSTAGRAM_APP_SECRET"),
            instagram_owner_discord_id: setting_filled(yaml, env, "INSTAGRAM_OWNER_DISCORD_ID"),
        };
        match cfg.validate() {
            Ok(_) => Ok(cfg),
            Err(e) => Err(e),
        }
    }

    /// Refuses a port or a session length of zero.
    pub fn validate(&self) -> (r: Result<(), ConfigError>)
        ensures
            (match r {
                Ok(_) => Ok(()),
                Err(e) => Err(e@),
            }) == checked(self@.port, self@.session_ttl_days),
    {
        if self.port == 0 {
            return Err(
                ConfigError::InvalidValue {
                    field: "port",
                    reason: "port must be non-zero".to_owned(),
                },
            );
        }
        if self.session_ttl_days == 0 {
            return Err(
                ConfigError::InvalidValue {
                    field: "session_ttl_days",
                    reason: "session TTL must be at least 1 day".to_owned(),
                },
            );
        }
        Ok(())
    }

    /// Whether the service is reached over HTTPS: the base URL begins with `https://`, in
    /// upper or lower case.
    pub fn is_https_deployment(&self) -> (r: bool)
        ensures
            r == (self@.base_url matches Some(url) && crate::text::begins_with(
                crate::text::lower(url),
                "https://"@,
            )),
            r <==> (self@.base_url matches Some(url) && is_https_url(url)),
    {
        proof {
            if let Some(url) = self@.base_url {
                crate::config_laws::law_https_in_small_letters_or_capitals(url);
            }
        }
        match &self.base_url {
            Some(url) => has_prefix(to_lower(url.as_str()).as_str(), "https://"),
            None => false,
        }
    }
}

/// The text begins with `https://`, its letters small or capital.
pub open spec fn is_https_url(url: Seq<char>) -> bool {
    &&& url.len() >= 8
    &&& crate::boot::is_letter(url[0], 'h', 'H')
    &&& crate::boot::is_letter(url[1], 't', 'T')
    &&& crate::boot::is_letter(url[2], 't', 'T')
    &&& crate::boot::is_letter(url[3], 'p', 'P')
    &&& crate::boot::is_letter(url[4], 's', 'S')
    &&& url[5] == ':'
    &&& url[6] == '/'
    &&& url[7] == '/'
}

/// An optional text as a log line shows it.
pub open spec fn opt_debug(text: Option<Seq<char>>) -> Seq<char> {
    match text {
        Some(t) => "Some("@ + crate::text::debug_quoted(t) + ")"@,
        None => "None"@,
    }
}

/// An optional secret as a log line shows it: whether it is there, never what it is.
pub open spec fn secret_debug(secret: Option<Seq<char>>) -> Seq<char> {
    match secret {
        Some(_) => "Some([REDACTED])"@,
        None => "None"@,
    }
}

/// A list as a log line shows it.
pub open spec fn list_debug(items: Seq<Seq<char>>) -> Seq<char> {
    "["@ + crate::text::joined(items, ", "@) + "]"@
}

/// The items in quotes.
pub open spec fn quoted_items(items: Seq<Seq<char>>) -> Seq<Seq<char>> {
    items.map_values(|item: Seq<char>| crate::text::debug_quoted(item))
}

/// The first part of the text: the server and its surroundings.
pub open spec fn debug_of_server(cfg: ConfigView) -> Seq<char> {
    "Config { base_url: "@
        + opt_debug(cfg.base_url)
        + ", host: "@
        + cfg.host
        + ", port: "@
        + crate::text::decimal(cfg.port)
        + ", db_path: "@
        + crate::text::debug_quoted(cfg.db_path)
        + ", session_ttl_days: "@
        + crate::text::decimal(cfg.session_ttl_days)
        + ", redis_url: "@
        + crate::text::debug_quoted(cfg.redis_url)
        + ", trusted_proxies: "@
        + list_debug(cfg.trusted_proxies)
        + ", google_site_verification: "@
        + opt_debug(cfg.google_site_verification)
}

/// The second part of the text: pages, encryption, accounts.
pub open spec fn debug_of_accounts(cfg: ConfigView) -> Seq<char> {
    ", privacy_policy_url: "@
        + crate::text::debug_quoted(cfg.privacy_policy_url)
        + ", terms_url: "@
        + crate::text::debug_quoted(cfg.terms_url)
        + ", encryption_secret: "@
        + secret_debug(cfg.encryption_secret)
        + ", encryption_secret_new: "@
        + secret_debug(cfg.encryption_secret_new)
        + ", invite_codes: "@
        + list_debug(quoted_items(cfg.invite_codes))
        + ", admin_discord_ids: "@
        + list_debug(quoted_items(cfg.admin_discord_ids))
        + ", desktop_max_upload_mb: "@
        + crate::text::decimal(cfg.desktop_max_upload_mb)
        + ", reminder_cron: "@
        + crate::text::debug_quoted(cfg.reminder_cron)
}

/// The last part of the text: the linked services.
pub open spec fn debug_of_links(cfg: ConfigView) -> Seq<char> {
    ", google_client_id: "@
        + opt_debug(cfg.google_client_id)
        + ", google_client_secret: "@
        + secret_debug(cfg.google_client_secret)
        + ", instagram_channel_id: "@
        + opt_debug(cfg.instagram_channel_id)
        + ", instagram_poll_cron: "@
        + crate::text::debug_quoted(cfg.instagram_poll_cron)
        + ", instagram_access_token: "@
        + secret_debug(cfg.instagram_access_token)
        + ", instagram_app_secret: "@
        + secret_debug(cfg.instagram_app_secret)
        + ", instagram_owner_discord_id: "@
        + opt_debug(cfg.instagram_owner_discord_id)
        + " }"@
}

/// The settings as a log line shows them: field by field, without the secrets.
pub open spec fn config_debug(cfg: ConfigView) -> Seq<char> {
    debug_of_server(cfg) + debug_of_accounts(cfg) + debug_of_links(cfg)
}

/// An optional text as a log line shows it.
fn opt_debug_text(text: &Option<String>) -> (r: String)
    ensures
        r@ == opt_debug(crate::text::opt_text(*text)),
{
    match text {
        Some(t) => {
            let mut out: String = "Some(".to_owned();
            out.append(quote(t.as_str()).as_str());
            out.append(")");
            out
        },
        None => "None".to_owned(),
    }
}

/// An optional secret as a log line shows it.
fn secret_debug_text(secret: &Option<SecretString>) -> (r: String)
    ensures
        r@ == secret_debug(crate::ids::opt_secret(*secret)),
{
    match secret {
        Some(_) => "Some([REDACTED])".to_owned(),
        None => "None".to_owned(),
    }
}

/// A list as a log line shows it.
fn list_debug_text(items: &Vec<String>) -> (r: String)
    ensures
        r@ == list_debug(crate::text::texts(items@)),
{
    let mut out: String = "[".to_owned();
    out.append(crate::text::join(items, ", ").as_str());
    out.append("]");
    out
}

/// The items in quotes.
fn quote_all(items: &Vec<String>) -> (r: Vec<String>)
    ensures
        crate::text::texts(r@) == quoted_items(crate::text::texts(items@)),
{
    let mut out: Vec<String> = Vec::new();
    let mut i: usize = 0;
    while i < items.len()
        invariant
            i == out@.len() <= items@.len(),
            forall|k: int|
                0 <= k < i ==> (#[trigger] out@[k])@ == crate::text::debug_quoted(items@[k]@),
        decreases items.len() - i,
    {
        out.push(quote(items[i].as_str()));
        i += 1;
    }
    assert(crate::text::texts(out@) == quoted_items(crate::text::texts(items@)));
    out
}

impl Config {
    /// The first part of the text: the server and its surroundings.
    fn show_server(&self) -> (r: String)
        ensures
            r@ == debug_of_server(self@),
    {
        let mut out: String = "Config { base_url: ".to_owned();
        out.append(opt_debug_text(&self.base_url).as_str());
        out.append(", host: ");
        out.append(self.host.as_str());
        out.append(", port: ");
        out.append(decimal_text(self.port as u64).as_str());
        out.append(", db_path: ");
        out.append(quote(self.db_path.as_str()).as_str());
        out.append(", session_ttl_days: ");
        out.append(decimal_text(self.session_ttl_days as u64).as_str());
        out.append(", redis_url: ");
        out.append(quote(self.redis_url.as_str()).as_str());
        out.append(", trusted_proxies: ");
        out.append(list_debug_text(&self.trusted_proxies).as_str());
        out.append(", google_site_verification: ");
        out.append(opt_debug_text(&self.google_site_verification).as_str());
        out
    }

    /// The second part of the text: pages, encryption, accounts.
    fn show_accounts(&self) -> (r: String)
        ensures
            r@ == debug_of_accounts(self@),
    {
        let mut out: String = ", privacy_policy_url: ".to_owned();
        out.append(quote(self.privacy_policy_url.as_str()).as_str());
        out.append(", terms_url: ");
        out.append(quote(self.terms_url.as_str()).as_str());
        out.append(", encryption_secret: ");
        out.append(secret_debug_text(&self.encryption_secret).as_str());
        out.append(", encryption_secret_new: ");
        out.append(secret_debug_text(&self.encryption_secret_new).as_str());
        out.append(", invite_codes: ");
        out.append(list_debug_text(&quote_all(&self.invite_codes)).as_str());
        out.append(", admin_discord_ids: ");
        out.append(list_debug_text(&quote_all(&self.admin_discord_ids)).as_str());
        out.append(", desktop_max_upload_mb: ");
        out.append(decimal_text(self.desktop_max_upload_mb as u64).as_str());
        out.append(", reminder_cron: ");
        out.append(quote(self.reminder_cron.as_str()).as_str());
        out
    }

    /// The last part of the text: the linked services.
    fn show_links(&self) -> (r: String)
        ensures
            r@ == debug_of_links(self@),
    {
        let mut out: String = ", google_client_id: ".to_owned();
        out.append(opt_debug_text(&self.google_client_id).as_str());
        out.append(", google_client_secret: ");
        out.append(secret_debug_text(&self.google_client_secret).as_str());
        out.append(", instagram_channel_id: ");
        out.append(opt_debug_text(&self.instagram_channel_id).as_str());
        out.append(", instagram_poll_cron: ");
        out.append(quote(self.instagram_poll_cron.as_str()).as_str());
        out.append(", instagram_access_token: ");
        out.append(secret_debug_text(&self.instagram_access_token).as_str());
        out.append(", instagram_app_secret: ");
        out.append(secret_debug_text(&self.instagram_app_secret).as_str());
        out.append(", instagram_owner_discord_id: ");
        out.append(opt_debug_text(&self.instagram_owner_discord_id).as_str());
        out.append(" }");
        out
    }

    /// The settings as a log line may show them: field by field, without the secrets.
    pub fn debug_text(&self) -> (r: String)
        ensures
            r@ == config_debug(self@),
    {
        let mut out: String = self.show_server();
        out.append(self.show_accounts().as_str());
        out.append(self.show_links().as_str());
        out
    }
}

/// What a log line shows of the settings does not depend on what the secrets are, only on
/// which of them are there.
pub proof fn law_debug_text_hides_secrets(cfg: ConfigView, other: ConfigView)
    requires
        (ConfigView {
            encryption_secret: other.encryption_secret,
            encryption_secret_new: other.encryption_secret_new,
            google_client_secret: other.google_client_secret,
            instagram_access_token: other.instagram_access_token,
            instagram_app_secret: other.instagram_app_secret,
            ..cfg
        }) == other,
        cfg.encryption_secret is Some <==> other.encryption_secret is Some,
        cfg.encryption_secret_new is Some <==> other.encryption_secret_new is Some,
        cfg.google_client_secret is Some <==> other.google_client_secret is Some,
        cfg.instagram_access_token is Some <==> other.instagram_access_token is Some,
        cfg.instagram_app_secret is Some <==> other.instagram_app_secret is Some,
    ensures
        config_debug(cfg) == config_debug(other),
{
}

/// A key that a setting is asked for under.
#[verifier::opaque]
pub open spec fn is_known_key(key: Seq<char>) -> bool {
    ||| key == "BASE_URL"@
    ||| key == "HOST"@
    ||| key == "PORT"@
    ||| key == "DB_PATH"@
    ||| key == "SESSION_TTL_DAYS"@
    ||| key == "REDIS_URL"@
    ||| key == "TRUSTED_PROXIES"@
    ||| key == "GOOGLE_SITE_VERIFICATION"@
    ||| key == "PRIVACY_POLICY_URL"@
    ||| key == "TERMS_URL"@
    ||| key == "YUUKA_ENCRYPTION_SECRET"@
    ||| key == "YUUKA_ENCRYPTION_SECRET_NEW"@
    ||| key == "INVITE_CODES"@
    ||| key == "ADMIN_DISCORD_IDS"@
    ||| key == "DESKTOP_MAX_UPLOAD_MB"@
    ||| key == "REMINDER_CRON"@
    ||| key == "GOOGLE_CLIENT_ID"@
    ||| key == "GOOGLE_CLIENT_SECRET"@
    ||| key == "INSTAGRAM_CHANNEL_ID"@
    ||| key == "INSTAGRAM_POLL_CRON"@
    ||| key == "INSTAGRAM_ACCESS_TOKEN"@
    ||| key == "INSTAGRAM_APP_SECRET"@
    ||| key == "INSTAGRAM_OWNER_DISCORD_ID"@
}

/// The file goes before the environment, and the environment before the default.
pub proof fn law_file_then_environment_then_default(
    src: Sources,
    key: Seq<char>,
    default: Seq<char>,
)
    ensures
        yaml_setting(src.yaml, key) is Some ==> src.get(key) == yaml_setting(src.yaml, key),
        yaml_setting(src.yaml, key) is None ==> src.get(key) == value_at(src.env, key),
        src.get(key) matches Some(value) ==> src.get_or(key, default) == value,
        src.get(key) is None ==> src.get_or(key, default) == default,
{
}

proof fn lemma_keys_are_known()
    ensures
        is_known_key("BASE_URL"@),
        is_known_key("HOST"@),
        is_known_key("PORT"@),
        is_known_key("DB_PATH"@),
        is_known_key("SESSION_TTL_DAYS"@),
        is_known_key("REDIS_URL"@),
        is_known_key("TRUSTED_PROXIES"@),
        is_known_key("GOOGLE_SITE_VERIFICATION"@),
        is_known_key("PRIVACY_POLICY_URL"@),
        is_known_key("TERMS_URL"@),
        is_known_key("YUUKA_ENCRYPTION_SECRET"@),
        is_known_key("YUUKA_ENCRYPTION_SECRET_NEW"@),
        is_known_key("INVITE_CODES"@),
        is_known_key("ADMIN_DISCORD_IDS"@),
        is_known_key("DESKTOP_MAX_UPLOAD_MB"@),
        is_known_key("REMINDER_CRON"@),
        is_known_key("GOOGLE_CLIENT_ID"@),
        is_known_key("GOOGLE_CLIENT_SECRET"@),
        is_known_key("INSTAGRAM_CHANNEL_ID"@),
        is_known_key("INSTAGRAM_POLL_CRON"@),
        is_known_key("INSTAGRAM_ACCESS_TOKEN"@),
        is_known_key("INSTAGRAM_APP_SECRET"@),
        is_known_key("INSTAGRAM_OWNER_DISCORD_ID"@),
{
    reveal(is_known_key);
}

proof fn lemma_same_config(
    one: Sources,
    two: Sources,
    host: Seq<char>,
    port: nat,
    ttl: nat,
    proxies: Seq<Seq<char>>,
    upload: nat,
)
    requires
        forall|key: Seq<char>| #[trigger] is_known_key(key) ==> one.get(key) == two.get(key),
    ensures
        config_with(one, host, port, ttl, proxies, upload) == config_with(
            two,
            host,
            port,
            ttl,
            proxies,
            upload,
        ),
{
    lemma_keys_are_known();
}

/// Nothing but the settings under the known keys counts: sources that agree on them give the
/// same result.
pub proof fn law_only_known_keys_count(
    one: Sources,
    two: Sources,
    addresses: Seq<(Seq<char>, Option<Seq<char>>)>,
    crons: Seq<(Seq<char>, bool)>,
)
    requires
        forall|key: Seq<char>| #[trigger] is_known_key(key) ==> one.get(key) == two.get(key),
    ensures
        config_of(one, addresses, crons) == config_of(two, addresses, crons),
        address_texts_in(one) == address_texts_in(two),
{
    lemma_keys_are_known();
    assert forall|host: Seq<char>, port: nat, ttl: nat, proxies: Seq<Seq<char>>, upload: nat|
        #[trigger] config_with(one, host, port, ttl, proxies, upload) == config_with(
            two,
            host,
            port,
            ttl,
            proxies,
            upload,
        ) by {
        lemma_same_config(one, two, host, port, ttl, proxies, upload);
    }
    assert(one.get("HOST"@) == two.get("HOST"@));
    assert(one.get("PORT"@) == two.get("PORT"@));
    assert(one.get("SESSION_TTL_DAYS"@) == two.get("SESSION_TTL_DAYS"@));
    assert(one.get("TRUSTED_PROXIES"@) == two.get("TRUSTED_PROXIES"@));
    assert(one.get("DESKTOP_MAX_UPLOAD_MB"@) == two.get("DESKTOP_MAX_UPLOAD_MB"@));
    assert(one.get("INSTAGRAM_POLL_CRON"@) == two.get("INSTAGRAM_POLL_CRON"@));
}

proof fn lemma_other_entry(
    before: Seq<(Yaml, Yaml)>,
    entry: (Yaml, Yaml),
    after: Seq<(Yaml, Yaml)>,
    key: Seq<char>,
)
    requires
        entry.0 != Yaml::Text(key),
    ensures
        node_at(before.push(entry) + after, key) == node_at(before + after, key),
    decreases after.len(),
{
    if after.len() == 0 {
        assert(before.push(entry) + after == before.push(entry));
        assert(before + after == before);
        assert(before.push(entry).drop_last() == before);
    } else {
        lemma_other_entry(before, entry, after.drop_last(), key);
        assert((before.push(entry) + after).drop_last() == before.push(entry) + after.drop_last());
        assert((before + after).drop_last() == before + after.drop_last());
    }
}

/// An entry of the file under a key that nobody asks for changes nothing, wherever it stands
/// and whatever it holds.
pub proof fn law_unknown_keys_are_ignored(
    before: Seq<(Yaml, Yaml)>,
    entry: (Yaml, Yaml),
    after: Seq<(Yaml, Yaml)>,
    env: Seq<(Seq<char>, Seq<char>)>,
    addresses: Seq<(Seq<char>, Option<Seq<char>>)>,
    crons: Seq<(Seq<char>, bool)>,
)
    requires
        forall|key: Seq<char>| #[trigger] is_known_key(key) ==> entry.0 != Yaml::Text(key),
    ensures
        config_of(Sources { yaml: before.push(entry) + after, env }, addresses, crons) == config_of(
            Sources { yaml: before + after, env },
            addresses,
            crons,
        ),
{
    let one = Sources { yaml: before.push(entry) + after, env };
    let two = Sources { yaml: before + after, env };
    assert forall|key: Seq<char>| #[trigger] is_known_key(key) implies one.get(key) == two.get(
        key,
    ) by {
        lemma_other_entry(before, entry, after, key);
    }
    law_only_known_keys_count(one, two, addresses, crons);
}

/// The text is there with at least one character, or not there.
pub open spec fn none_or_filled(text: Option<Seq<char>>) -> bool {
    text matches Some(t) ==> t.len() > 0
}

/// Every item is trimmed and not empty.
pub open spec fn all_trimmed(items: Seq<Seq<char>>) -> bool {
    forall|k: int|
        0 <= k < items.len() ==> (#[trigger] items[k]).len() > 0 && crate::text::trimmed(items[k])
            == items[k]
}

/// Settings that were loaded have passed the check: port and session length are not zero and
/// the numbers fit their types; optional texts and secrets are not empty; the items of lists
/// are trimmed and not empty; and the poll expression is not empty and, where it is
/// configured, accepted.
pub proof fn law_loaded_settings_are_valid(
    raw: Option<Seq<char>>,
    env: Seq<(Seq<char>, Seq<char>)>,
    addresses: Seq<(Seq<char>, Option<Seq<char>>)>,
    crons: Seq<(Seq<char>, bool)>,
)
    ensures
        loaded(raw, env, addresses, crons) matches Ok(cfg) ==> {
            &&& checked(cfg.port, cfg.session_ttl_days) is Ok
            &&& 0 < cfg.port <= u16::MAX
            &&& 0 < cfg.session_ttl_days <= u32::MAX
            &&& cfg.desktop_max_upload_mb <= u32::MAX
            &&& none_or_filled(cfg.base_url)
            &&& none_or_filled(cfg.google_site_verification)
            &&& none_or_filled(cfg.encryption_secret)
            &&& none_or_filled(cfg.encryption_secret_new)
            &&& none_or_filled(cfg.google_client_id)
            &&& none_or_filled(cfg.google_client_secret)
            &&& none_or_filled(cfg.instagram_channel_id)
            &&& none_or_filled(cfg.instagram_access_token)
            &&& none_or_filled(cfg.instagram_app_secret)
            &&& none_or_filled(cfg.instagram_owner_discord_id)
            &&& all_trimmed(cfg.invite_codes)
            &&& all_trimmed(cfg.admin_discord_ids)
            &&& cfg.instagram_poll_cron.len() > 0
            &&& cfg.instagram_poll_cron == DEFAULT_POLL_CRON@ || value_at(
                crons,
                cfg.instagram_poll_cron,
            ) == Some(true)
        },
{
    reveal_strlit("*/20 * * * *");
    if let Ok(yaml) = file_entries(raw) {
        let src = Sources { yaml, env };
        if let Some(list) = src.get("INVITE_CODES"@) {
            lemma_items_are_trimmed(crate::text::split_on(list, ','));
        }
        if let Some(list) = src.get("ADMIN_DISCORD_IDS"@) {
            lemma_items_are_trimmed(crate::text::split_on(list, ','));
        }
    }
}

proof fn lemma_trim_start(s: Seq<char>)
    ensures
        crate::text::trim_start(s).len() > 0 ==> !crate::text::is_white_space(
            crate::text::trim_start(s)[0],
        ),
    decreases s.len(),
{
    if s.len() > 0 && crate::text::is_white_space(s.first()) {
        lemma_trim_start(s.drop_first());
    }
}

proof fn lemma_trim_end(s: Seq<char>)
    ensures
        ({
            let t = crate::text::trim_end(s);
            &&& t.len() <= s.len()
            &&& t == s.take(t.len() as int)
            &&& t.len() > 0 ==> !crate::text::is_white_space(t.last())
        }),
    decreases s.len(),
{
    if s.len() > 0 && crate::text::is_white_space(s.last()) {
        lemma_trim_end(s.drop_last());
        let t = crate::text::trim_end(s);
        assert(s.drop_last().take(t.len() as int) == s.take(t.len() as int));
    } else {
        assert(s.take(s.len() as int) == s);
    }
}

proof fn lemma_trimmed_twice(s: Seq<char>)
    ensures
        crate::text::trimmed(crate::text::trimmed(s)) == crate::text::trimmed(s),
{
    let start = crate::text::trim_start(s);
    lemma_trim_start(s);
    lemma_trim_end(start);
    let t = crate::text::trim_end(start);
    if t.len() > 0 {
        assert(t[0] == start[0]);
        assert(crate::text::trim_start(t) == t);
        assert(crate::text::trim_end(t) == t);
    }
}

proof fn lemma_items_are_trimmed(pieces: Seq<Seq<char>>)
    ensures
        all_trimmed(crate::text::trimmed_items(pieces)),
    decreases pieces.len(),
{
    if pieces.len() > 0 {
        lemma_items_are_trimmed(pieces.drop_last());
        lemma_trimmed_twice(pieces.last());
    }
}

/// A configured poll expression that the table does not accept is refused, unless a complaint
/// comes before it; an expression that nobody configured is not asked for.
pub proof fn law_unaccepted_poll_cron_is_refused(
    src: Sources,
    addresses: Seq<(Seq<char>, Option<Seq<char>>)>,
    crons: Seq<(Seq<char>, bool)>,
)
    ensures
        src.get_filled("INSTAGRAM_POLL_CRON"@) matches Some(expr) ==> (value_at(crons, expr)
            != Some(true) ==> config_of(src, addresses, crons) is Err),
        src.get_filled("INSTAGRAM_POLL_CRON"@) is None ==> config_of(src, addresses, crons)
            == config_of(src, addresses, Seq::<(Seq<char>, bool)>::empty()),
{
}

/// Of the table of addresses only the texts that the settings need count.
pub proof fn law_only_needed_addresses_count(
    src: Sources,
    one: Seq<(Seq<char>, Option<Seq<char>>)>,
    two: Seq<(Seq<char>, Option<Seq<char>>)>,
    crons: Seq<(Seq<char>, bool)>,
)
    requires
        forall|k: int|
            0 <= k < address_texts_in(src).len() ==> address_at(
                one,
                #[trigger] address_texts_in(src)[k],
            ) == address_at(two, address_texts_in(src)[k]),
    ensures
        config_of(src, one, crons) == config_of(src, two, crons),
{
    let needed = address_texts_in(src);
    let items = src.get_list("TRUSTED_PROXIES"@);
    assert(address_at(one, needed[0]) == address_at(two, needed[0]));
    assert forall|k: int| 0 <= k < items.len() implies address_at(one, #[trigger] items[k])
        == address_at(two, items[k]) by {
        assert(needed[k + 1] == items[k]);
    }
    lemma_same_addresses(one, two, "TRUSTED_PROXIES"@, items);
}

proof fn lemma_same_addresses(
    one: Seq<(Seq<char>, Option<Seq<char>>)>,
    two: Seq<(Seq<char>, Option<Seq<char>>)>,
    field: Seq<char>,
    items: Seq<Seq<char>>,
)
    requires
        forall|k: int|
            0 <= k < items.len() ==> address_at(one, #[trigger] items[k]) == address_at(
                two,
                items[k],
            ),
    ensures
        addresses_of(one, field, items) == addresses_of(two, field, items),
    decreases items.len(),
{
    if items.len() > 0 {
        assert forall|k: int| 0 <= k < items.len() - 1 implies address_at(
            one,
            #[trigger] items.drop_last()[k],
        ) == address_at(two, items.drop_last()[k]) by {
            assert(items.drop_last()[k] == items[k]);
        }
        lemma_same_addresses(one, two, field, items.drop_last());
        assert(items.last() == items[items.len() - 1]);
    }
}

/// A file that is no YAML mapping is refused with the reader's message, whatever the
/// environment holds; a file that is missing is not. (One without content is an empty mapping.)
pub proof fn law_broken_file_is_refused(
    raw: Seq<char>,
    env: Seq<(Seq<char>, Seq<char>)>,
    addresses: Seq<(Seq<char>, Option<Seq<char>>)>,
    crons: Seq<(Seq<char>, bool)>,
    source: Seq<char>,
)
    ensures
        crate::yaml::yaml_document(raw) == Err::<Seq<(Yaml, Yaml)>, Seq<char>>(source) <==> loaded(
            Some(raw),
            env,
            addresses,
            crons,
        ) == Err::<ConfigView, ConfigErrorView>(ConfigErrorView::Parse { source }),
        loaded(None, env, addresses, crons) != Err::<ConfigView, ConfigErrorView>(
            ConfigErrorView::Parse { source },
        ),
{
    let empty = Seq::<(Yaml, Yaml)>::empty();
    lemma_no_parse_error(Sources { yaml: empty, env }, addresses, crons);
    if let Ok(yaml) = crate::yaml::yaml_document(raw) {
        lemma_no_parse_error(Sources { yaml, env }, addresses, crons);
    }
}

proof fn lemma_no_parse_error(
    src: Sources,
    addresses: Seq<(Seq<char>, Option<Seq<char>>)>,
    crons: Seq<(Seq<char>, bool)>,
)
    ensures
        config_of(src, addresses, crons) matches Err(e) ==> e is InvalidValue,
{
    lemma_addresses_error(addresses, "TRUSTED_PROXIES"@, src.get_list("TRUSTED_PROXIES"@));
}

proof fn lemma_addresses_error(
    addresses: Seq<(Seq<char>, Option<Seq<char>>)>,
    field: Seq<char>,
    items: Seq<Seq<char>>,
)
    ensures
        addresses_of(addresses, field, items) matches Err(e) ==> e is InvalidValue,
    decreases items.len(),
{
    if items.len() > 0 {
        lemma_addresses_error(addresses, field, items.drop_last());
    }
}

/// The text can be an item of a comma-separated list as it stands: it is not empty, has no
/// white space at its ends and no comma in it.
pub open spec fn is_plain_item(item: Seq<char>) -> bool {
    &&& item.len() > 0
    &&& crate::text::trimmed(item) == item
    &&& !item.contains(',')
}

proof fn lemma_split_behind_comma(before: Seq<char>, item: Seq<char>)
    requires
        !item.contains(','),
    ensures
        crate::text::split_on(before.push(',') + item, ',') == crate::text::split_on(
            before,
            ',',
        ).push(item),
    decreases item.len(),
{
    let whole = before.push(',') + item;
    if item.len() == 0 {
        assert(whole == before.push(','));
        assert(before.push(',').drop_last() == before);
        assert(item == Seq::<char>::empty());
    } else {
        let front = item.drop_last();
        assert(item[item.len() - 1] == item.last());
        assert forall|c: char| front.contains(c) implies item.contains(c) by {
            let at = choose|at: int| 0 <= at < front.len() && front[at] == c;
            assert(item[at] == c);
        }
        lemma_split_behind_comma(before, front);
        assert(whole.drop_last() == before.push(',') + front);
        assert(whole.last() == item.last());
        let pieces = crate::text::split_on(before, ',');
        assert(pieces.push(front).drop_last() == pieces);
        assert(front.push(item.last()) == item);
    }
}

proof fn lemma_split_single(item: Seq<char>)
    requires
        !item.contains(','),
    ensures
        crate::text::split_on(item, ',') == seq![item],
    decreases item.len(),
{
    if item.len() == 0 {
        assert(item == Seq::<char>::empty());
    } else {
        let front = item.drop_last();
        assert(item[item.len() - 1] == item.last());
        assert forall|c: char| front.contains(c) implies item.contains(c) by {
            let at = choose|at: int| 0 <= at < front.len() && front[at] == c;
            assert(item[at] == c);
        }
        lemma_split_single(front);
        assert(front.push(item.last()) == item);
        assert(seq![front].drop_last().push(seq![front].last().push(item.last())) == seq![item]);
    }
}

proof fn lemma_split_joined(items: Seq<Seq<char>>)
    requires
        items.len() > 0,
        forall|k: int| 0 <= k < items.len() ==> is_plain_item(#[trigger] items[k]),
    ensures
        crate::text::split_on(crate::text::joined(items, ","@), ',') == items,
    decreases items.len(),
{
    reveal_strlit(",");
    if items.len() == 1 {
        lemma_split_single(items[0]);
        assert(seq![items[0]] == items);
    } else {
        let front = items.drop_last();
        assert forall|k: int| 0 <= k < front.len() implies is_plain_item(#[trigger] front[k]) by {
            assert(front[k] == items[k]);
        }
        lemma_split_joined(front);
        assert(is_plain_item(items[items.len() - 1]));
        let before = crate::text::joined(front, ","@);
        lemma_split_behind_comma(before, items.last());
        assert(before + ","@ + items.last() == before.push(',') + items.last());
        assert(front.push(items.last()) == items);
    }
}

proof fn lemma_plain_items_stay(items: Seq<Seq<char>>)
    requires
        forall|k: int| 0 <= k < items.len() ==> is_plain_item(#[trigger] items[k]),
    ensures
        crate::text::trimmed_items(items) == items,
    decreases items.len(),
{
    if items.len() > 0 {
        let front = items.drop_last();
        assert forall|k: int| 0 <= k < front.len() implies is_plain_item(#[trigger] front[k]) by {
            assert(front[k] == items[k]);
        }
        lemma_plain_items_stay(front);
        assert(is_plain_item(items[items.len() - 1]));
        assert(front.push(items.last()) == items);
    }
}

/// A list of plain items is read back item by item, whether the file writes it as a YAML
/// list or the environment with commas between the items.
pub proof fn law_lists_are_read_back(
    yaml: Seq<(Yaml, Yaml)>,
    env: Seq<(Seq<char>, Seq<char>)>,
    key: Seq<char>,
    nodes: Seq<Yaml>,
)
    requires
        forall|k: int|
            0 <= k < scalar_texts(nodes).len() ==> is_plain_item(#[trigger] scalar_texts(nodes)[k]),
    ensures
        node_at(yaml, key) == Some(Yaml::List(nodes)) ==> (Sources { yaml, env }).get_list(key)
            == scalar_texts(nodes),
        node_at(yaml, key) is None && value_at(env, key) == Some(
            crate::text::joined(scalar_texts(nodes), ","@),
        ) ==> (Sources { yaml, env }).get_list(key) == scalar_texts(nodes),
{
    let items = scalar_texts(nodes);
    let text = crate::text::joined(items, ","@);
    if items.len() > 0 {
        lemma_split_joined(items);
        lemma_plain_items_stay(items);
    } else {
        assert(text == Seq::<char>::empty());
        let pieces = seq![Seq::<char>::empty()];
        assert(crate::text::split_on(text, ',') == pieces);
        assert(pieces.drop_last() == Seq::<Seq<char>>::empty());
        assert(crate::text::trimmed_items(pieces.drop_last()) == Seq::<Seq<char>>::empty());
        assert(crate::text::trimmed(pieces.last()).len() == 0);
        assert(crate::text::trimmed_items(pieces) == Seq::<Seq<char>>::empty());
        assert(items == Seq::<Seq<char>>::empty());
    }
    assert(crate::text::comma_items(text) == items);
}

} // verus!
