//! The settings of the Instagram link and the service that runs on them.
use vstd::prelude::*;
use vstd::string::StringExecFns;

use crate::ids::SecretString;
use crate::text::quote;

verus! {

/// The settings of the Instagram link.
pub struct InstagramSettings {
    /// The Discord channel that posts go to.
    pub channel_id: String,
    /// When to look for new posts, as a cron expression of five fields.
    pub poll_cron: String,
    /// The owner's Discord user ID, whose access to the channel is checked on delivery.
    pub owner_user_id: String,
    /// The bot that delivers.
    pub bot_id: String,
    /// The token for the first link, which may be short-lived. Used only while no link is
    /// stored.
    pub seed_token: Option<SecretString>,
    /// The app secret, needed to exchange a short-lived token for a long-lived one.
    pub app_secret: Option<SecretString>,
}

/// Settings with their texts as characters.
pub struct SettingsView {
    /// The Discord channel that posts go to.
    pub channel_id: Seq<char>,
    /// When to look for new posts.
    pub poll_cron: Seq<char>,
    /// The owner's Discord user ID.
    pub owner_user_id: Seq<char>,
    /// The bot that delivers.
    pub bot_id: Seq<char>,
    /// The token for the first link.
    pub seed_token: Option<Seq<char>>,
    /// The app secret.
    pub app_secret: Option<Seq<char>>,
}

impl View for InstagramSettings {
    type V = SettingsView;

    open spec fn view(&self) -> SettingsView {
        SettingsView {
            channel_id: self.channel_id@,
            poll_cron: self.poll_cron@,
            owner_user_id: self.owner_user_id@,
            bot_id: self.bot_id@,
            seed_token: crate::ids::opt_secret(self.seed_token),
            app_secret: crate::ids::opt_secret(self.app_secret),
        }
    }
}

/// The settings as a log line shows them: the channel and the schedule, never a secret.
pub open spec fn settings_debug(channel_id: Seq<char>, poll_cron: Seq<char>) -> Seq<char> {
    "InstagramSettings { channel_id: "@ + crate::text::debug_quoted(channel_id) + ", poll_cron: "@
        + crate::text::debug_quoted(poll_cron) + ", .. }"@
}

impl InstagramSettings {
    /// The settings as a log line may show them.
    pub fn debug_text(&self) -> (r: String)
        ensures
            r@ == settings_debug(self@.channel_id, self@.poll_cron),
    {
        let mut text: String = "InstagramSettings { channel_id: ".to_owned();
        text.append(quote(self.channel_id.as_str()).as_str());
        text.append(", poll_cron: ");
        text.append(quote(self.poll_cron.as_str()).as_str());
        text.append(", .. }");
        text
    }

    /// A second copy of the settings.
    pub fn duplicate(&self) -> (r: Self)
        ensures
            r@ == self@,
    {
        InstagramSettings {
            channel_id: self.channel_id.clone(),
            poll_cron: self.poll_cron.clone(),
            owner_user_id: self.owner_user_id.clone(),
            bot_id: self.bot_id.clone(),
            seed_token: copy_secret(&self.seed_token),
            app_secret: copy_secret(&self.app_secret),
        }
    }
}

/// A second copy of an optional secret.
pub(crate) fn copy_secret(secret: &Option<SecretString>) -> (r: Option<SecretString>)
    ensures
        crate::ids::opt_secret(r) == crate::ids::opt_secret(*secret),
{
    match secret {
        Some(s) => Some(s.duplicate()),
        None => None,
    }
}

/// What a log line shows of the settings does not depend on the secrets.
pub proof fn law_debug_text_hides_secrets(
    settings: SettingsView,
    seed_token: Option<Seq<char>>,
    app_secret: Option<Seq<char>>,
)
    ensures
        ({
            let other = SettingsView { seed_token, app_secret, ..settings };
            settings_debug(other.channel_id, other.poll_cron) == settings_debug(
                settings.channel_id,
                settings.poll_cron,
            )
        }),
{
}

/// What a log line shows of the settings: the channel and the schedule, each in quotes.
pub proof fn law_debug_text_shows_channel_and_schedule(channel_id: Seq<char>, poll_cron: Seq<char>)
    ensures
        settings_debug(channel_id, poll_cron) == "InstagramSettings { channel_id: "@
            + crate::text::debug_quoted(channel_id) + (", poll_cron: "@
            + crate::text::debug_quoted(poll_cron) + ", .. }"@),
{
    assert(settings_debug(channel_id, poll_cron) == "InstagramSettings { channel_id: "@
        + crate::text::debug_quoted(channel_id) + (", poll_cron: "@ + crate::text::debug_quoted(
        poll_cron,
    ) + ", .. }"@));
}

/// The view of the settings holds each of them.
pub proof fn law_settings_view_is_faithful(settings: InstagramSettings)
    ensures
        settings@.channel_id == settings.channel_id@,
        settings@.poll_cron == settings.poll_cron@,
        settings@.owner_user_id == settings.owner_user_id@,
        settings@.bot_id == settings.bot_id@,
        settings.seed_token matches Some(s) ==> settings@.seed_token == Some(s@),
        settings.seed_token is None ==> settings@.seed_token is None,
        settings.app_secret matches Some(s) ==> settings@.app_secret == Some(s@),
        settings.app_secret is None ==> settings@.app_secret is None,
{
}

} // verus!
