//! What is decided at the start of the process: whether it may start at all, and which
//! parts of it run.
use vstd::prelude::*;
use vstd::string::{StrSliceExecFns, StringExecFns};

use crate::config::{Config, ConfigView};
use crate::ids::SecretString;
use crate::instagram::settings::{copy_secret, InstagramSettings, SettingsView};
use crate::services::{BackupPort, ServiceContext, ServiceContextView};
use crate::text::{decimal_text, same_text, to_lower, trim, trim_trailing};

verus! {

/// The fewest characters of a secret.
pub const MIN_SECRET_LEN: usize = 32;

/// The setting of the secret.
pub const SECRET_NAME: &'static str = "YUUKA_ENCRYPTION_SECRET";

/// The setting of the new secret.
pub const NEW_SECRET_NAME: &'static str = "YUUKA_ENCRYPTION_SECRET_NEW";

/// The refusal where neither secret is set.
pub const NO_SECRET: &'static str = "YUUKA_ENCRYPTION_SECRET が未設定です。十分に長いランダム文字列（例: openssl rand -base64 48）を 設定してください。プレリリース版からの移行は YUUKA_ENCRYPTION_SECRET_NEW に新鍵を設定して起動 （鍵ローテーション）します。";

/// The bot that delivers what no other bot is named for.
pub const DEFAULT_BOT_ID: &'static str = "system_default";

/// The refusal of a secret that is too short.
pub open spec fn too_short(name: Seq<char>, len: nat) -> Seq<char> {
    name + " が短すぎます（"@ + crate::text::decimal(len) + " 文字）。推測困難な "@
        + crate::text::decimal(MIN_SECRET_LEN as nat)
        + " 文字以上のランダム値 （例: openssl rand -base64 48）を設定してください。"@
}

/// Whether the process may start with secrets of these lengths: at least one is set, and
/// none is too short. The older one is looked at first.
pub open spec fn secret_strength(secret_len: Option<nat>, new_len: Option<nat>) -> Result<
    (),
    Seq<char>,
> {
    match (secret_len, new_len) {
        (None, None) => Err(NO_SECRET@),
        (Some(n), _) if n < MIN_SECRET_LEN => Err(too_short(SECRET_NAME@, n)),
        (_, Some(n)) if n < MIN_SECRET_LEN => Err(too_short(NEW_SECRET_NAME@, n)),
        _ => Ok(()),
    }
}

/// The view of a verdict.
pub open spec fn verdict(r: Result<(), String>) -> Result<(), Seq<char>> {
    match r {
        Ok(_) => Ok(()),
        Err(message) => Err(message@),
    }
}

/// An optional length as a number.
pub open spec fn opt_len(len: Option<usize>) -> Option<nat> {
    match len {
        Some(n) => Some(n as nat),
        None => None,
    }
}

/// The length of an optional text.
pub open spec fn text_len(text: Option<Seq<char>>) -> Option<nat> {
    match text {
        Some(s) => Some(s.len()),
        None => None,
    }
}

/// The refusal of a secret that is too short.
fn short_secret(name: &str, len: usize) -> (r: String)
    ensures
        r@ == too_short(name@, len as nat),
{
    let mut text: String = name.to_owned();
    text.append(" が短すぎます（");
    text.append(decimal_text(len as u64).as_str());
    text.append(" 文字）。推測困難な ");
    text.append(decimal_text(MIN_SECRET_LEN as u64).as_str());
    text.append(" 文字以上のランダム値 （例: openssl rand -base64 48）を設定してください。");
    text
}

/// Whether the process may start with secrets of these lengths in characters.
pub fn check_secret_strength(secret_len: Option<usize>, new_len: Option<usize>) -> (r: Result<
    (),
    String,
>)
    ensures
        verdict(r) == secret_strength(opt_len(secret_len), opt_len(new_len)),
{
    if secret_len.is_none() && new_len.is_none() {
        return Err(NO_SECRET.to_owned());
    }
    if let Some(n) = secret_len {
        if n < MIN_SECRET_LEN {
            return Err(short_secret(SECRET_NAME, n));
        }
    }
    if let Some(n) = new_len {
        if n < MIN_SECRET_LEN {
            return Err(short_secret(NEW_SECRET_NAME, n));
        }
    }
    Ok(())
}

/// The number of characters of an optional secret.
fn secret_len(secret: &Option<SecretString>) -> (r: Option<usize>)
    ensures
        opt_len(r) == text_len(crate::ids::opt_secret(*secret)),
{
    match secret {
        Some(s) => Some(s.expose_secret().unicode_len()),
        None => None,
    }
}

/// Whether the process may start with the secrets of its settings.
pub fn require_encryption_secret(cfg: &Config) -> (r: Result<(), String>)
    ensures
        verdict(r) == secret_strength(
            text_len(cfg@.encryption_secret),
            text_len(cfg@.encryption_secret_new),
        ),
{
    check_secret_strength(
        secret_len(&cfg.encryption_secret),
        secret_len(&cfg.encryption_secret_new),
    )
}

/// A rotation of the master secret.
pub struct Rotation {
    /// The secret that the stored values are encrypted with.
    pub old: SecretString,
    /// The secret that they are encrypted with afterwards.
    pub new: SecretString,
}

/// The old and the new secret of the rotation that the settings ask for: it is asked for by
/// the new secret, and the old one is the current secret or, without one, `legacy`.
pub open spec fn rotation_of(cfg: ConfigView, legacy: Seq<char>) -> Option<(Seq<char>, Seq<char>)> {
    match cfg.encryption_secret_new {
        Some(new) => Some(
            (
                match cfg.encryption_secret {
                    Some(current) => current,
                    None => legacy,
                },
                new,
            ),
        ),
        None => None,
    }
}

/// The rotation that the settings ask for; `legacy` is the secret of releases that had none.
pub fn requested_rotation(cfg: &Config, legacy: &str) -> (r: Option<Rotation>)
    ensures
        (match r {
            Some(rotation) => Some((rotation.old@, rotation.new@)),
            None => None,
        }) == rotation_of(cfg@, legacy@),
{
    match &cfg.encryption_secret_new {
        Some(new) => {
            let old: SecretString = match &cfg.encryption_secret {
                Some(current) => current.duplicate(),
                None => SecretString::new(legacy.to_owned()),
            };
            Some(Rotation { old, new: new.duplicate() })
        },
        None => None,
    }
}

/// The owner of the Instagram link: the configured user, else the first administrator.
pub open spec fn owner_of(cfg: ConfigView) -> Option<Seq<char>> {
    match cfg.instagram_owner_discord_id {
        Some(id) => Some(id),
        None => if cfg.admin_discord_ids.len() > 0 {
            Some(cfg.admin_discord_ids[0])
        } else {
            None
        },
    }
}

/// The owner of the Instagram link, whose access to the channel is checked on delivery.
pub fn instagram_owner_id(cfg: &Config) -> (r: Option<String>)
    ensures
        crate::text::opt_text(r) == owner_of(cfg@),
{
    match &cfg.instagram_owner_discord_id {
        Some(id) => Some(id.clone()),
        None => {
            if cfg.admin_discord_ids.len() > 0 {
                assert(cfg@.admin_discord_ids[0] == cfg.admin_discord_ids@[0]@);
                Some(cfg.admin_discord_ids[0].clone())
            } else {
                None
            }
        },
    }
}

/// A switch is on where its value is `1`, `true` or `yes`, in upper or lower case and with
/// white space around it or not.
pub open spec fn switched_on(value: Option<Seq<char>>) -> bool {
    value matches Some(v) && ({
        let word = crate::text::lower(crate::text::trimmed(v));
        word == "1"@ || word == "true"@ || word == "yes"@
    })
}

/// Whether a switch is on.
fn is_on(value: Option<&str>) -> (r: bool)
    ensures
        r == switched_on(crate::text::opt_str(value)),
{
    match value {
        Some(v) => {
            let word: String = to_lower(trim(v).as_str());
            same_text(word.as_str(), "1") || same_text(word.as_str(), "true") || same_text(
                word.as_str(),
                "yes",
            )
        },
        None => false,
    }
}

/// Whether this process runs the resident services, by the value of `YUUKA_RUST_CRON`.
pub fn rust_cron_enabled(value: Option<&str>) -> (r: bool)
    ensures
        r == switched_on(crate::text::opt_str(value)),
{
    is_on(value)
}

/// Whether this process connects to the Discord gateway, by the value of
/// `YUUKA_RUST_DISCORD`.
pub fn rust_discord_enabled(value: Option<&str>) -> (r: bool)
    ensures
        r == switched_on(crate::text::opt_str(value)),
{
    is_on(value)
}

/// The address that a device is sent to for approval: the base URL without slashes at its
/// end, else the address that the process listens on.
pub open spec fn approval_base(cfg: ConfigView) -> Seq<char> {
    match cfg.base_url {
        Some(url) => crate::text::without_trailing(url, '/'),
        None => "http://"@ + cfg.host + ":"@ + crate::text::decimal(cfg.port),
    }
}

/// The address that a device is sent to for approval.
pub fn verification_base(cfg: &Config) -> (r: String)
    ensures
        r@ == approval_base(cfg@),
{
    match &cfg.base_url {
        Some(url) => trim_trailing(url.as_str(), '/'),
        None => {
            let mut text: String = "http://".to_owned();
            text.append(cfg.host.as_str());
            text.append(":");
            text.append(decimal_text(cfg.port as u64).as_str());
            text
        },
    }
}

/// Who carries out a scheduled backup: the cloud storage where the encryption works and both
/// parts of the Google credentials are set, else nobody.
pub open spec fn backup_of(cfg: ConfigView, has_crypto: bool) -> BackupPort {
    if has_crypto && cfg.google_client_id is Some && cfg.google_client_secret is Some {
        BackupPort::Live
    } else {
        BackupPort::Null
    }
}

/// Who carries out a scheduled backup.
pub fn backup_port(cfg: &Config, has_crypto: bool) -> (r: BackupPort)
    ensures
        r == backup_of(cfg@, has_crypto),
{
    if has_crypto && cfg.google_client_id.is_some() && cfg.google_client_secret.is_some() {
        BackupPort::Live
    } else {
        BackupPort::Null
    }
}

/// What becomes of the Instagram link.
pub enum InstagramGate {
    /// It is not configured, or nothing can be encrypted.
    Off,
    /// It is configured, but nobody is named as its owner.
    NoOwner,
    /// It runs with these settings.
    On(InstagramSettings),
}

/// What becomes of the Instagram link, with its settings by view.
pub enum InstagramGateView {
    /// See [`InstagramGate::Off`].
    Off,
    /// See [`InstagramGate::NoOwner`].
    NoOwner,
    /// See [`InstagramGate::On`].
    On(SettingsView),
}

impl View for InstagramGate {
    type V = InstagramGateView;

    open spec fn view(&self) -> InstagramGateView {
        match self {
            InstagramGate::Off => InstagramGateView::Off,
            InstagramGate::NoOwner => InstagramGateView::NoOwner,
            InstagramGate::On(settings) => InstagramGateView::On(settings@),
        }
    }
}

/// What becomes of the Instagram link: it needs a channel, a working encryption, and an
/// owner.
pub open spec fn instagram_of(cfg: ConfigView, has_crypto: bool) -> InstagramGateView {
    match (cfg.instagram_channel_id, has_crypto) {
        (Some(channel_id), true) => match owner_of(cfg) {
            Some(owner_user_id) => InstagramGateView::On(
                SettingsView {
                    channel_id,
                    poll_cron: cfg.instagram_poll_cron,
                    owner_user_id,
                    bot_id: DEFAULT_BOT_ID@,
                    seed_token: cfg.instagram_access_token,
                    app_secret: cfg.instagram_app_secret,
                },
            ),
            None => InstagramGateView::NoOwner,
        },
        _ => InstagramGateView::Off,
    }
}

/// What becomes of the Instagram link.
pub fn instagram_gate(cfg: &Config, has_crypto: bool) -> (r: InstagramGate)
    ensures
        r@ == instagram_of(cfg@, has_crypto),
{
    match &cfg.instagram_channel_id {
        Some(channel_id) => {
            if !has_crypto {
                return InstagramGate::Off;
            }
            match instagram_owner_id(cfg) {
                Some(owner_user_id) => InstagramGate::On(
                    InstagramSettings {
                        channel_id: channel_id.clone(),
                        poll_cron: cfg.instagram_poll_cron.clone(),
                        owner_user_id,
                        bot_id: DEFAULT_BOT_ID.to_owned(),
                        seed_token: copy_secret(&cfg.instagram_access_token),
                        app_secret: copy_secret(&cfg.instagram_app_secret),
                    },
                ),
                None => InstagramGate::NoOwner,
            }
        },
        None => InstagramGate::Off,
    }
}

/// Which parts of the process run.
pub struct BootPlan {
    /// Whether the process connects to the Discord gateway.
    pub own_gateway: bool,
    /// Whether the Google client is wired up.
    pub google_live: bool,
    /// Who carries out a backup.
    pub backup: BackupPort,
    /// The address that a device is sent to for approval.
    pub verification_base: String,
    /// What the resident services are given, where they run.
    pub cron: Option<ServiceContext>,
    /// Whether the Instagram link stays off because nobody is named as its owner.
    pub instagram_lacks_owner: bool,
}

/// A plan with its texts as characters.
pub struct BootPlanView {
    /// See [`BootPlan::own_gateway`].
    pub own_gateway: bool,
    /// See [`BootPlan::google_live`].
    pub google_live: bool,
    /// See [`BootPlan::backup`].
    pub backup: BackupPort,
    /// See [`BootPlan::verification_base`].
    pub verification_base: Seq<char>,
    /// See [`BootPlan::cron`].
    pub cron: Option<ServiceContextView>,
    /// See [`BootPlan::instagram_lacks_owner`].
    pub instagram_lacks_owner: bool,
}

impl View for BootPlan {
    type V = BootPlanView;

    open spec fn view(&self) -> BootPlanView {
        BootPlanView {
            own_gateway: self.own_gateway,
            google_live: self.google_live,
            backup: self.backup,
            verification_base: self.verification_base@,
            cron: match self.cron {
                Some(ctx) => Some(ctx@),
                None => None,
            },
            instagram_lacks_owner: self.instagram_lacks_owner,
        }
    }
}

/// What the resident services are given.
pub open spec fn context_of(cfg: ConfigView, has_crypto: bool) -> ServiceContextView {
    ServiceContextView {
        backup: backup_of(cfg, has_crypto),
        instagram: match instagram_of(cfg, has_crypto) {
            InstagramGateView::On(settings) => Some(settings),
            _ => None,
        },
    }
}

/// Which parts of the process run, by its settings, whether the encryption works, and the
/// two switches of the environment.
pub open spec fn plan_of(
    cfg: ConfigView,
    has_crypto: bool,
    cron: Option<Seq<char>>,
    discord: Option<Seq<char>>,
) -> BootPlanView {
    BootPlanView {
        own_gateway: switched_on(discord),
        google_live: has_crypto,
        backup: backup_of(cfg, has_crypto),
        verification_base: approval_base(cfg),
        cron: if switched_on(cron) {
            Some(context_of(cfg, has_crypto))
        } else {
            None
        },
        instagram_lacks_owner: switched_on(cron) && instagram_of(cfg, has_crypto) is NoOwner,
    }
}

/// Which parts of the process run.
pub fn plan_boot(cfg: &Config, has_crypto: bool, cron: Option<&str>, discord: Option<&str>) -> (r:
    BootPlan)
    ensures
        r@ == plan_of(
            cfg@,
            has_crypto,
            crate::text::opt_str(cron),
            crate::text::opt_str(discord),
        ),
        r.cron matches Some(ctx) ==> (ctx.backup == BackupPort::Live <==> has_crypto
            && cfg.google_client_id is Some && cfg.google_client_secret is Some),
{
    let backup: BackupPort = backup_port(cfg, has_crypto);
    let mut context: Option<ServiceContext> = None;
    let mut instagram_lacks_owner: bool = false;
    if rust_cron_enabled(cron) {
        let ctx: ServiceContext = ServiceContext::new().with_backup(backup);
        match instagram_gate(cfg, has_crypto) {
            InstagramGate::On(settings) => {
                context = Some(ctx.with_instagram(settings));
            },
            InstagramGate::NoOwner => {
                instagram_lacks_owner = true;
                context = Some(ctx);
            },
            InstagramGate::Off => {
                context = Some(ctx);
            },
        }
    }
    BootPlan {
        own_gateway: rust_discord_enabled(discord),
        google_live: has_crypto,
        backup,
        verification_base: verification_base(cfg),
        cron: context,
        instagram_lacks_owner,
    }
}

/// Starting needs a secret, and every secret that is set must be long enough; nothing else
/// is asked of them.
pub proof fn law_start_needs_strong_secrets(secret_len: Option<nat>, new_len: Option<nat>)
    ensures
        secret_strength(secret_len, new_len) is Ok <==> {
            &&& secret_len is Some || new_len is Some
            &&& secret_len matches Some(n) ==> n >= MIN_SECRET_LEN
            &&& new_len matches Some(n) ==> n >= MIN_SECRET_LEN
        },
{
}

/// The services run with the Instagram link exactly where the switch is on and a channel, a
/// working encryption and an owner are all there.
pub proof fn law_instagram_needs_everything(
    cfg: ConfigView,
    has_crypto: bool,
    cron: Option<Seq<char>>,
    discord: Option<Seq<char>>,
)
    ensures
        (plan_of(cfg, has_crypto, cron, discord).cron matches Some(ctx) && ctx.instagram is Some)
            <==> switched_on(cron) && has_crypto && cfg.instagram_channel_id is Some && owner_of(
            cfg,
        ) is Some,
        plan_of(cfg, has_crypto, cron, discord).cron is None <==> !switched_on(cron),
{
}

/// The resident services are given the live backup exactly where the encryption works and both
/// parts of the Google credentials are set, and nobody otherwise; and so is the process itself.
/// Nothing else, such as the Instagram link, decides it.
pub proof fn law_resident_services_back_up_where_they_can(
    cfg: ConfigView,
    has_crypto: bool,
    cron: Option<Seq<char>>,
    discord: Option<Seq<char>>,
)
    ensures
        ({
            let plan = plan_of(cfg, has_crypto, cron, discord);
            let can = has_crypto && cfg.google_client_id is Some && cfg.google_client_secret is Some;
            &&& switched_on(cron) ==> plan.cron is Some
            &&& plan.cron matches Some(ctx) ==> (ctx.backup == BackupPort::Live <==> can) && (
            ctx.backup == BackupPort::Null <==> !can)
            &&& plan.backup == BackupPort::Live <==> can
            &&& plan.backup == BackupPort::Null <==> !can
            &&& plan.cron matches Some(ctx) ==> ctx.backup == plan.backup
        }),
{
}

/// The character is this small letter or its capital.
pub open spec fn is_letter(c: char, small: char, capital: char) -> bool {
    c == small || c == capital
}

/// A switch is on exactly where its value, without the white space around it, is `1`, or `true`
/// or `yes` in any mixture of small letters and capitals. One that is not set is off.
pub proof fn law_switch_is_on_by_its_word(value: Seq<char>)
    ensures
        !switched_on(None),
        ({
            let word = crate::text::trimmed(value);
            switched_on(Some(value)) <==> {
                ||| word.len() == 1 && word[0] == '1'
                ||| word.len() == 4 && is_letter(word[0], 't', 'T') && is_letter(word[1], 'r', 'R')
                    && is_letter(word[2], 'u', 'U') && is_letter(word[3], 'e', 'E')
                ||| word.len() == 3 && is_letter(word[0], 'y', 'Y') && is_letter(word[1], 'e', 'E')
                    && is_letter(word[2], 's', 'S')
            }
        }),
{
    reveal_strlit("1");
    reveal_strlit("true");
    reveal_strlit("yes");
    let word = crate::text::trimmed(value);
    let small = crate::text::lower(word);
    assert forall|k: int| 0 <= k < word.len() implies #[trigger] small[k] == crate::text::lower_char(
        word[k],
    ) by {}
    if word.len() == 1 {
        assert(small[0] == crate::text::lower_char(word[0]));
        assert(small =~= "1"@ <==> small[0] == '1');
    }
    if word.len() == 4 {
        lemma_lower_letter(word[0], 't', 'T');
        lemma_lower_letter(word[1], 'r', 'R');
        lemma_lower_letter(word[2], 'u', 'U');
        lemma_lower_letter(word[3], 'e', 'E');
        assert(small =~= "true"@ <==> small[0] == 't' && small[1] == 'r' && small[2] == 'u'
            && small[3] == 'e');
    }
    if word.len() == 3 {
        lemma_lower_letter(word[0], 'y', 'Y');
        lemma_lower_letter(word[1], 'e', 'E');
        lemma_lower_letter(word[2], 's', 'S');
        assert(small =~= "yes"@ <==> small[0] == 'y' && small[1] == 'e' && small[2] == 's');
    }
    assert(small.len() == word.len());
}

pub(crate) proof fn lemma_lower_letter(c: char, small: char, capital: char)
    requires
        'A' <= capital <= 'Z',
        small as u32 == capital as u32 + 32,
    ensures
        crate::text::lower_char(c) == small <==> is_letter(c, small, capital),
{
}

/// The process connects to the gateway by its own switch alone, the Google client is wired up
/// where the encryption works, and the services run by their own switch alone.
pub proof fn law_switches_decide_alone(
    cfg: ConfigView,
    has_crypto: bool,
    cron: Option<Seq<char>>,
    discord: Option<Seq<char>>,
)
    ensures
        ({
            let plan = plan_of(cfg, has_crypto, cron, discord);
            &&& plan.own_gateway <==> switched_on(discord)
            &&& plan.google_live <==> has_crypto
            &&& plan.cron is Some <==> switched_on(cron)
            &&& plan.instagram_lacks_owner <==> switched_on(cron) && has_crypto
                && cfg.instagram_channel_id is Some && cfg.instagram_owner_discord_id is None
                && cfg.admin_discord_ids.len() == 0
        }),
{
}

/// The link runs with the configured channel, schedule and secrets, for its owner, from the
/// default bot.
pub proof fn law_link_runs_with_the_configured_settings(
    cfg: ConfigView,
    has_crypto: bool,
    cron: Option<Seq<char>>,
    discord: Option<Seq<char>>,
    channel_id: Seq<char>,
)
    requires
        switched_on(cron),
        has_crypto,
        cfg.instagram_channel_id == Some(channel_id),
        cfg.instagram_owner_discord_id is Some || cfg.admin_discord_ids.len() > 0,
    ensures
        plan_of(cfg, has_crypto, cron, discord).cron matches Some(ctx) && (ctx.instagram
            matches Some(settings) && settings.channel_id == channel_id && settings.poll_cron
            == cfg.instagram_poll_cron && settings.bot_id == "system_default"@
            && settings.seed_token == cfg.instagram_access_token && settings.app_secret
            == cfg.instagram_app_secret && (cfg.instagram_owner_discord_id matches Some(id)
            ==> settings.owner_user_id == id) && (cfg.instagram_owner_discord_id is None
            ==> settings.owner_user_id == cfg.admin_discord_ids[0])),
{
}

/// The link waits for nothing but a channel, a working encryption and an owner: without a
/// channel or the encryption it is off, and with both it lacks at most its owner.
pub proof fn law_link_is_off_without_channel_or_encryption(cfg: ConfigView, has_crypto: bool)
    ensures
        instagram_of(cfg, has_crypto) is Off <==> !has_crypto || cfg.instagram_channel_id is None,
        instagram_of(cfg, has_crypto) is NoOwner <==> has_crypto && cfg.instagram_channel_id is Some
            && cfg.instagram_owner_discord_id is None && cfg.admin_discord_ids.len() == 0,
{
}

/// The owner is the configured user, whoever the administrators are; without one it is the
/// first administrator.
pub proof fn law_owner_is_configured_or_first_administrator(cfg: ConfigView)
    ensures
        cfg.instagram_owner_discord_id matches Some(id) ==> owner_of(cfg) == Some(id),
        cfg.instagram_owner_discord_id is None && cfg.admin_discord_ids.len() > 0 ==> owner_of(cfg)
            == Some(cfg.admin_discord_ids[0]),
        cfg.instagram_owner_discord_id is None && cfg.admin_discord_ids.len() == 0 ==> owner_of(
            cfg,
        ) is None,
{
}

/// A rotation is asked for exactly by the new secret: it goes from the current secret, or from
/// the legacy one where there is none, to the new one.
pub proof fn law_rotation_goes_to_the_new_secret(cfg: ConfigView, legacy: Seq<char>)
    ensures
        rotation_of(cfg, legacy) is Some <==> cfg.encryption_secret_new is Some,
        rotation_of(cfg, legacy) matches Some(pair) ==> Some(pair.1) == cfg.encryption_secret_new
            && (cfg.encryption_secret matches Some(current) ==> pair.0 == current) && (
        cfg.encryption_secret is None ==> pair.0 == legacy),
{
}

/// The address for approval is the base URL without the slashes at its end, and no more of it
/// is cut off; without a base URL it is built of host and port.
pub proof fn law_approval_base_has_no_slash_at_its_end(cfg: ConfigView)
    ensures
        cfg.base_url is None ==> approval_base(cfg) == "http://"@ + (cfg.host + (":"@
            + crate::text::decimal(cfg.port))),
        cfg.base_url matches Some(url) ==> ({
            let base = approval_base(cfg);
            &&& base.len() <= url.len()
            &&& base == url.take(base.len() as int)
            &&& base.len() > 0 ==> base.last() != '/'
            &&& forall|k: int| base.len() <= k < url.len() ==> #[trigger] url[k] == '/'
        }),
{
    if let Some(url) = cfg.base_url {
        crate::text_laws::law_trailing_character_is_removed(url, '/');
    } else {
        assert(approval_base(cfg) == "http://"@ + (cfg.host + (":"@ + crate::text::decimal(
            cfg.port,
        ))));
    }
}

/// A start without any secret is refused as such, and one with a secret of fewer than 32
/// characters with a text that names the setting and the length; the older secret comes first.
pub proof fn law_refusal_names_the_short_secret(secret_len: Option<nat>, new_len: Option<nat>)
    ensures
        secret_len is None && new_len is None ==> secret_strength(secret_len, new_len) == Err::<
            (),
            Seq<char>,
        >(
            "YUUKA_ENCRYPTION_SECRET が未設定です。十分に長いランダム文字列（例: openssl rand -base64 48）を 設定してください。プレリリース版からの移行は YUUKA_ENCRYPTION_SECRET_NEW に新鍵を設定して起動 （鍵ローテーション）します。"@,
        ),
        secret_len matches Some(n) ==> (n < 32 ==> (secret_strength(secret_len, new_len)
            matches Err(text) && text == too_short("YUUKA_ENCRYPTION_SECRET"@, n))),
        (secret_len is None || secret_len->0 >= 32) && new_len is Some && new_len->0 < 32 ==> (
        secret_strength(secret_len, new_len) matches Err(text) && text == too_short(
            "YUUKA_ENCRYPTION_SECRET_NEW"@,
            new_len->0,
        )),
        (secret_len is Some || new_len is Some) && (secret_len is None || secret_len->0 >= 32) && (
        new_len is None || new_len->0 >= 32) ==> secret_strength(secret_len, new_len) is Ok,
{
}

/// The refusal of a short secret names the setting, its length and the least length.
pub proof fn law_short_secret_text(name: Seq<char>, len: nat)
    ensures
        too_short(name, len) == name + (" が短すぎます（"@ + (crate::text::decimal(len)
            + (" 文字）。推測困難な "@ + (crate::text::decimal(32)
            + " 文字以上のランダム値 （例: openssl rand -base64 48）を設定してください。"@)))),
{
    assert(too_short(name, len) == name + (" が短すぎます（"@ + (crate::text::decimal(len)
        + (" 文字）。推測困難な "@ + (crate::text::decimal(32)
        + " 文字以上のランダム値 （例: openssl rand -base64 48）を設定してください。"@)))));
}

/// The view of a plan holds each of its parts.
pub proof fn law_plan_view_is_faithful(plan: BootPlan, gate: InstagramGate)
    ensures
        plan@.own_gateway == plan.own_gateway,
        plan@.google_live == plan.google_live,
        plan@.backup == plan.backup,
        plan@.verification_base == plan.verification_base@,
        plan@.instagram_lacks_owner == plan.instagram_lacks_owner,
        plan.cron is None <==> plan@.cron is None,
        plan.cron matches Some(ctx) ==> plan@.cron == Some(ctx@),
        gate is Off <==> gate@ is Off,
        gate is NoOwner <==> gate@ is NoOwner,
        gate matches InstagramGate::On(settings) ==> gate@ == InstagramGateView::On(settings@),
{
}

/// Secrets are measured in characters, and a verdict keeps its words.
pub proof fn law_secrets_are_measured_in_characters(
    text: Seq<char>,
    len: usize,
    message: String,
)
    ensures
        text_len(Some(text)) == Some(text.len()),
        text_len(None) is None,
        opt_len(Some(len)) == Some(len as nat),
        opt_len(None) is None,
        verdict(Ok(())) is Ok,
        verdict(Err(message)) == Err::<(), Seq<char>>(message@),
{
}

} // verus!
