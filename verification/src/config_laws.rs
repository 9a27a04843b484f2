//! What holds of settings: where each comes from, when they are refused, and with what words.
use vstd::prelude::*;

use crate::config::{Config, ConfigError, ConfigErrorView, ConfigView, Sources};
use crate::ids::SecretString;
use crate::yaml::{Yaml, YamlValue};

verus! {

/// Of several entries under one key the first counts, and an entry is found only under its
/// own key.
pub proof fn law_first_entry_counts(yaml: Seq<(Yaml, Yaml)>, key: Seq<char>, at: int)
    ensures
        (forall|k: int| 0 <= k < yaml.len() ==> (#[trigger] yaml[k]).0 != Yaml::Text(key))
            ==> crate::config::node_at(yaml, key) is None,
        0 <= at < yaml.len() && yaml[at].0 == Yaml::Text(key) && (forall|k: int|
            0 <= k < at ==> (#[trigger] yaml[k]).0 != Yaml::Text(key)) ==> crate::config::node_at(
            yaml,
            key,
        ) == Some(yaml[at].1),
{
    if forall|k: int| 0 <= k < yaml.len() ==> (#[trigger] yaml[k]).0 != Yaml::Text(key) {
        crate::config::lemma_node_at_none(yaml, key);
    }
    if 0 <= at < yaml.len() && yaml[at].0 == Yaml::Text(key) && (forall|k: int|
        0 <= k < at ==> (#[trigger] yaml[k]).0 != Yaml::Text(key)) {
        crate::config::lemma_node_at_first(yaml, key, at);
    }
}

/// Of several pairs under one name the first counts, and a pair is found only under its own
/// name.
pub proof fn law_first_pair_counts<T>(pairs: Seq<(Seq<char>, T)>, name: Seq<char>, at: int)
    ensures
        (forall|k: int| 0 <= k < pairs.len() ==> (#[trigger] pairs[k]).0 != name)
            ==> crate::config::value_at(pairs, name) is None,
        0 <= at < pairs.len() && pairs[at].0 == name && (forall|k: int|
            0 <= k < at ==> (#[trigger] pairs[k]).0 != name) ==> crate::config::value_at(
            pairs,
            name,
        ) == Some(pairs[at].1),
{
    if forall|k: int| 0 <= k < pairs.len() ==> (#[trigger] pairs[k]).0 != name {
        crate::config::lemma_value_at_none(pairs, name);
    }
    if 0 <= at < pairs.len() && pairs[at].0 == name && (forall|k: int|
        0 <= k < at ==> (#[trigger] pairs[k]).0 != name) {
        crate::config::lemma_value_at_first(pairs, name, at);
    }
}

/// The text of an entry of the file: a string and a number as they are written, `true` and
/// `false` as these words, a list as the texts of its scalars with commas between them; null, a
/// mapping and a tagged node have none.
pub proof fn law_entry_is_read_as_text(s: Seq<char>, items: Seq<Yaml>)
    ensures
        crate::config::node_text(Yaml::Text(s)) == Some(s),
        crate::config::node_text(Yaml::Number(s)) == Some(s),
        crate::config::node_text(Yaml::Flag(true)) == Some("true"@),
        crate::config::node_text(Yaml::Flag(false)) == Some("false"@),
        crate::config::node_text(Yaml::Other) is None,
        crate::config::node_text(Yaml::List(items)) == Some(
            crate::text::joined(crate::config::scalar_texts(items), seq![',']),
        ),
{
    reveal_strlit(",");
    assert(","@ == seq![',']);
}

/// The scalars of a list are read one by one, in order; a list inside it, null, a mapping and a
/// tagged node are left out.
pub proof fn law_scalars_of_a_list_are_read(items: Seq<Yaml>, s: Seq<char>, inner: Seq<Yaml>)
    ensures
        crate::config::scalar_texts(Seq::<Yaml>::empty()).len() == 0,
        crate::config::scalar_texts(items.push(Yaml::Text(s))) == crate::config::scalar_texts(
            items,
        ).push(s),
        crate::config::scalar_texts(items.push(Yaml::Number(s))) == crate::config::scalar_texts(
            items,
        ).push(s),
        crate::config::scalar_texts(items.push(Yaml::Flag(true))) == crate::config::scalar_texts(
            items,
        ).push("true"@),
        crate::config::scalar_texts(items.push(Yaml::Flag(false))) == crate::config::scalar_texts(
            items,
        ).push("false"@),
        crate::config::scalar_texts(items.push(Yaml::List(inner))) == crate::config::scalar_texts(
            items,
        ),
        crate::config::scalar_texts(items.push(Yaml::Other)) == crate::config::scalar_texts(items),
{
    assert(items.push(Yaml::Text(s)).drop_last() == items);
    assert(items.push(Yaml::Number(s)).drop_last() == items);
    assert(items.push(Yaml::Flag(true)).drop_last() == items);
    assert(items.push(Yaml::Flag(false)).drop_last() == items);
    assert(items.push(Yaml::List(inner)).drop_last() == items);
    assert(items.push(Yaml::Other).drop_last() == items);
}

/// A setting is what the file says under its key, where that has a text, an empty one too; else
/// the variable of that name; else it is not there.
pub proof fn law_setting_comes_from_file_or_environment(
    src: Sources,
    key: Seq<char>,
    node: Yaml,
    text: Seq<char>,
)
    ensures
        crate::config::node_at(src.yaml, key) == Some(node) && crate::config::node_text(node)
            == Some(text) ==> src.get(key) == Some(text),
        crate::config::node_at(src.yaml, key) is None ==> src.get(key) == crate::config::value_at(
            src.env,
            key,
        ),
        crate::config::node_at(src.yaml, key) == Some(Yaml::Other) ==> src.get(key)
            == crate::config::value_at(src.env, key),
{
}

/// The text is the value, or the default where there is none.
pub open spec fn is_value_or(text: Seq<char>, value: Option<Seq<char>>, default: Seq<char>) -> bool {
    &&& value matches Some(v) ==> text == v
    &&& value is None ==> text == default
}

/// The text is the value where that has at least one character, and is missing otherwise.
pub open spec fn is_filled_value(text: Option<Seq<char>>, value: Option<Seq<char>>) -> bool {
    &&& value is Some && value->0.len() > 0 ==> text == value
    &&& (value is None || value->0.len() == 0) ==> text is None
}

/// The items are those of the comma-separated value; there are none without a value.
pub open spec fn is_list_of(items: Seq<Seq<char>>, value: Option<Seq<char>>) -> bool {
    &&& value matches Some(v) ==> items == crate::text::comma_items(v)
    &&& value is None ==> items.len() == 0
}

/// A setting with a default is the setting where it is there, an empty one too; a setting that
/// counts only with characters is missing where it is empty; a list is split at its commas.
pub proof fn law_settings_by_kind(src: Sources, key: Seq<char>, default: Seq<char>)
    ensures
        is_value_or(src.get_or(key, default), src.get(key), default),
        is_filled_value(src.get_filled(key), src.get(key)),
        is_list_of(src.get_list(key), src.get(key)),
        crate::config::filled(None) is None,
        is_filled_value(crate::config::filled(Some(default)), Some(default)),
{
}

/// A number is read out of a setting exactly where the text, without the white space around it,
/// writes one that is not over the limit; any other text is refused with the name of the
/// setting and the text in quotes.
pub proof fn law_number_is_read_or_refused(field: Seq<char>, raw: Seq<char>, max: nat)
    ensures
        crate::text::unsigned_value(crate::text::trimmed(raw), max) matches Some(n)
            ==> crate::config::number_in(field, raw, max) == Ok::<nat, ConfigErrorView>(n),
        crate::text::unsigned_value(crate::text::trimmed(raw), max) is None ==> (
        crate::config::number_in(field, raw, max) matches Err(error) && error == (
        ConfigErrorView::InvalidValue {
            field,
            reason: "could not parse value "@ + crate::text::debug_quoted(raw),
        })),
{
}

/// A number written in digits is read back up to the limit and refused beyond it.
pub proof fn law_written_number_is_read_back(field: Seq<char>, raw: Seq<char>, n: nat, max: nat)
    requires
        crate::text::trimmed(raw) == crate::text::decimal(n),
    ensures
        n <= max ==> crate::config::number_in(field, raw, max) == Ok::<nat, ConfigErrorView>(n),
        n > max ==> crate::config::number_in(field, raw, max) is Err,
{
    crate::text_laws::law_written_number_is_read(n, max);
}

/// A text is an address exactly where the table gives it a canonical form.
pub proof fn law_address_is_looked_up(
    addresses: Seq<(Seq<char>, Option<Seq<char>>)>,
    text: Seq<char>,
    canonical: Seq<char>,
)
    ensures
        crate::config::address_at(addresses, text) == Some(canonical) <==> crate::config::value_at(
            addresses,
            text,
        ) == Some(Some(canonical)),
{
}

/// A list of addresses is accepted exactly where every item is one, and then each stands in its
/// place in canonical form; else the first item that is none is named.
pub proof fn law_address_list_is_all_or_nothing(
    addresses: Seq<(Seq<char>, Option<Seq<char>>)>,
    field: Seq<char>,
    items: Seq<Seq<char>>,
    at: int,
)
    ensures
        crate::config::addresses_of(addresses, field, items) is Ok <==> forall|k: int|
            0 <= k < items.len() ==> crate::config::address_at(addresses, #[trigger] items[k])
                is Some,
        crate::config::addresses_of(addresses, field, items) matches Ok(list) ==> list.len()
            == items.len() && forall|k: int|
            0 <= k < items.len() ==> crate::config::address_at(addresses, #[trigger] items[k])
                == Some(list[k]),
        0 <= at < items.len() && crate::config::address_at(addresses, items[at]) is None && (
        forall|k: int|
            0 <= k < at ==> crate::config::address_at(addresses, #[trigger] items[k]) is Some) ==> (
        crate::config::addresses_of(addresses, field, items) matches Err(error) && error == (
        ConfigErrorView::InvalidValue {
            field,
            reason: "invalid IP "@ + crate::text::debug_quoted(items[at]),
        })),
    decreases items.len(),
{
    if items.len() > 0 {
        let front = items.drop_last();
        law_address_list_is_all_or_nothing(addresses, field, front, at);
        assert forall|k: int| 0 <= k < front.len() implies #[trigger] front[k] == items[k] by {}
        assert(items.last() == items[items.len() - 1]);
        if forall|k: int|
            0 <= k < items.len() ==> crate::config::address_at(addresses, #[trigger] items[k])
                is Some {
            assert forall|k: int| 0 <= k < front.len() implies crate::config::address_at(
                addresses,
                #[trigger] front[k],
            ) is Some by {
                assert(front[k] == items[k]);
            }
            assert(crate::config::address_at(addresses, items[items.len() - 1]) is Some);
        }
        if let Ok(list) = crate::config::addresses_of(addresses, field, items) {
            assert forall|k: int| 0 <= k < items.len() implies crate::config::address_at(
                addresses,
                #[trigger] items[k],
            ) == Some(list[k]) by {
                if k < front.len() {
                    assert(front[k] == items[k]);
                }
            }
        }
        if 0 <= at < items.len() && crate::config::address_at(addresses, items[at]) is None && (
        forall|k: int|
            0 <= k < at ==> crate::config::address_at(addresses, #[trigger] items[k]) is Some) {
            assert forall|k: int| 0 <= k < at implies crate::config::address_at(
                addresses,
                #[trigger] front[k],
            ) is Some by {
                assert(front[k] == items[k]);
            }
            if at < front.len() {
                assert(front[at] == items[at]);
            } else {
                assert forall|k: int| 0 <= k < front.len() implies crate::config::address_at(
                    addresses,
                    #[trigger] front[k],
                ) is Some by {
                    assert(front[k] == items[k]);
                }
            }
        }
    }
}

/// The texts that are needed as addresses: the host, by default the loopback address, without
/// the white space around it, and behind it the items of the list of proxies.
pub proof fn law_needed_addresses(src: Sources, k: int)
    ensures
        ({
            let needed = crate::config::address_texts_in(src);
            let proxies = src.get_list("TRUSTED_PROXIES"@);
            &&& needed.len() == 1 + proxies.len()
            &&& src.get("HOST"@) matches Some(host) ==> needed[0] == crate::text::trimmed(host)
            &&& src.get("HOST"@) is None ==> needed[0] == crate::text::trimmed("127.0.0.1"@)
            &&& 0 <= k < proxies.len() ==> needed[k + 1] == proxies[k]
        }),
{
}

/// A port of zero is refused, then a session of no days; everything else passes the check.
pub proof fn law_zero_is_refused(port: nat, session_ttl_days: nat)
    ensures
        crate::config::checked(port, session_ttl_days) is Ok <==> port > 0 && session_ttl_days > 0,
        port == 0 ==> (crate::config::checked(port, session_ttl_days) matches Err(error) && error
            == (ConfigErrorView::InvalidValue {
            field: "port"@,
            reason: "port must be non-zero"@,
        })),
        port > 0 && session_ttl_days == 0 ==> (crate::config::checked(port, session_ttl_days)
            matches Err(error) && error == (ConfigErrorView::InvalidValue {
            field: "session_ttl_days"@,
            reason: "session TTL must be at least 1 day"@,
        })),
{
}

/// A poll expression that is configured has to be accepted by the table, and is named where it
/// is not; without one there is nothing to check.
pub proof fn law_poll_expression_is_checked(src: Sources, crons: Seq<(Seq<char>, bool)>)
    ensures
        src.get_filled("INSTAGRAM_POLL_CRON"@) is None ==> crate::config::poll_cron_checked(
            src,
            crons,
        ) is Ok,
        src.get_filled("INSTAGRAM_POLL_CRON"@) matches Some(expr) ==> (
        crate::config::poll_cron_checked(src, crons) is Ok <==> crate::config::value_at(crons, expr)
            == Some(true)),
        src.get_filled("INSTAGRAM_POLL_CRON"@) matches Some(expr) ==> (crate::config::value_at(
            crons,
            expr,
        ) != Some(true) ==> (crate::config::poll_cron_checked(src, crons) matches Err(error)
            && error == (ConfigErrorView::InvalidValue {
            field: "INSTAGRAM_POLL_CRON"@,
            reason: "invalid cron expression "@ + crate::text::debug_quoted(expr),
        }))),
{
}

/// The settings that need no reading of numbers or addresses are taken from their own keys as
/// they are, with their defaults.
pub proof fn law_plain_settings_come_from_their_keys(
    src: Sources,
    addresses: Seq<(Seq<char>, Option<Seq<char>>)>,
    crons: Seq<(Seq<char>, bool)>,
    cfg: ConfigView,
)
    requires
        crate::config::config_of(src, addresses, crons) == Ok::<ConfigView, ConfigErrorView>(cfg),
    ensures
        is_value_or(cfg.db_path, src.get("DB_PATH"@), "./data/yuuka.db"@),
        is_value_or(cfg.redis_url, src.get("REDIS_URL"@), "redis://127.0.0.1:6379"@),
        is_value_or(cfg.privacy_policy_url, src.get("PRIVACY_POLICY_URL"@), ""@),
        is_value_or(cfg.terms_url, src.get("TERMS_URL"@), ""@),
        is_value_or(cfg.reminder_cron, src.get("REMINDER_CRON"@), "* * * * *"@),
        is_list_of(cfg.invite_codes, src.get("INVITE_CODES"@)),
        is_list_of(cfg.admin_discord_ids, src.get("ADMIN_DISCORD_IDS"@)),
        is_filled_value(cfg.base_url, src.get("BASE_URL"@)),
        is_filled_value(cfg.google_site_verification, src.get("GOOGLE_SITE_VERIFICATION"@)),
        is_filled_value(cfg.google_client_id, src.get("GOOGLE_CLIENT_ID"@)),
        is_filled_value(cfg.instagram_channel_id, src.get("INSTAGRAM_CHANNEL_ID"@)),
        is_filled_value(cfg.instagram_owner_discord_id, src.get("INSTAGRAM_OWNER_DISCORD_ID"@)),
{
}

/// The secrets are taken from their own keys, and the poll expression from its own, by default
/// every twenty minutes.
pub proof fn law_secrets_come_from_their_keys(
    src: Sources,
    addresses: Seq<(Seq<char>, Option<Seq<char>>)>,
    crons: Seq<(Seq<char>, bool)>,
    cfg: ConfigView,
)
    requires
        crate::config::config_of(src, addresses, crons) == Ok::<ConfigView, ConfigErrorView>(cfg),
    ensures
        is_filled_value(cfg.encryption_secret, src.get("YUUKA_ENCRYPTION_SECRET"@)),
        is_filled_value(cfg.encryption_secret_new, src.get("YUUKA_ENCRYPTION_SECRET_NEW"@)),
        is_filled_value(cfg.google_client_secret, src.get("GOOGLE_CLIENT_SECRET"@)),
        is_filled_value(cfg.instagram_access_token, src.get("INSTAGRAM_ACCESS_TOKEN"@)),
        is_filled_value(cfg.instagram_app_secret, src.get("INSTAGRAM_APP_SECRET"@)),
        src.get("INSTAGRAM_POLL_CRON"@) matches Some(expr) ==> (expr.len() > 0
            ==> cfg.instagram_poll_cron == expr),
        (src.get("INSTAGRAM_POLL_CRON"@) is None || src.get("INSTAGRAM_POLL_CRON"@)->0.len() == 0)
            ==> cfg.instagram_poll_cron == "*/20 * * * *"@,
{
}

/// The text of a setting, or its default.
pub open spec fn text_or(value: Option<Seq<char>>, default: Seq<char>) -> Seq<char> {
    if value is Some {
        value->0
    } else {
        default
    }
}

/// The address, the numbers and the proxies are read out of their own keys, with their
/// defaults.
pub proof fn law_typed_settings_come_from_their_keys(
    src: Sources,
    addresses: Seq<(Seq<char>, Option<Seq<char>>)>,
    crons: Seq<(Seq<char>, bool)>,
    cfg: ConfigView,
)
    requires
        crate::config::config_of(src, addresses, crons) == Ok::<ConfigView, ConfigErrorView>(cfg),
    ensures
        crate::config::address_at(
            addresses,
            crate::text::trimmed(text_or(src.get("HOST"@), "127.0.0.1"@)),
        ) == Some(cfg.host),
        crate::text::unsigned_value(
            crate::text::trimmed(text_or(src.get("PORT"@), "3000"@)),
            65_535,
        ) == Some(cfg.port),
        crate::text::unsigned_value(
            crate::text::trimmed(text_or(src.get("SESSION_TTL_DAYS"@), "7"@)),
            4_294_967_295,
        ) == Some(cfg.session_ttl_days),
        crate::text::unsigned_value(
            crate::text::trimmed(text_or(src.get("DESKTOP_MAX_UPLOAD_MB"@), "20"@)),
            4_294_967_295,
        ) == Some(cfg.desktop_max_upload_mb),
        ({
            let items = src.get_list("TRUSTED_PROXIES"@);
            &&& cfg.trusted_proxies.len() == items.len()
            &&& forall|k: int|
                0 <= k < items.len() ==> crate::config::address_at(addresses, #[trigger] items[k])
                    == Some(cfg.trusted_proxies[k])
        }),
{
    law_address_list_is_all_or_nothing(
        addresses,
        "TRUSTED_PROXIES"@,
        src.get_list("TRUSTED_PROXIES"@),
        0,
    );
}

/// The host is an address.
pub open spec fn host_is_good(
    src: Sources,
    addresses: Seq<(Seq<char>, Option<Seq<char>>)>,
) -> bool {
    crate::config::address_at(
        addresses,
        crate::text::trimmed(text_or(src.get("HOST"@), "127.0.0.1"@)),
    ) is Some
}

/// A setting writes a number up to the limit.
pub open spec fn number_is_good(src: Sources, key: Seq<char>, default: Seq<char>, max: nat) -> bool {
    crate::text::unsigned_value(crate::text::trimmed(text_or(src.get(key), default)), max) is Some
}

/// A setting writes the number zero.
pub open spec fn number_is_zero(src: Sources, key: Seq<char>, default: Seq<char>, max: nat) -> bool {
    crate::text::unsigned_value(crate::text::trimmed(text_or(src.get(key), default)), max) == Some(
        0nat,
    )
}

/// Every proxy is an address.
pub open spec fn proxies_are_good(
    src: Sources,
    addresses: Seq<(Seq<char>, Option<Seq<char>>)>,
) -> bool {
    forall|k: int|
        0 <= k < src.get_list("TRUSTED_PROXIES"@).len() ==> crate::config::address_at(
            addresses,
            #[trigger] src.get_list("TRUSTED_PROXIES"@)[k],
        ) is Some
}

/// No poll expression is configured, or the table accepts it.
pub open spec fn poll_cron_is_good(src: Sources, crons: Seq<(Seq<char>, bool)>) -> bool {
    src.get_filled("INSTAGRAM_POLL_CRON"@) matches Some(expr) ==> crate::config::value_at(
        crons,
        expr,
    ) == Some(true)
}

/// Settings are accepted exactly where the host is an address, port, session length and upload
/// limit are numbers that fit, every proxy is an address, a configured poll expression is one,
/// and neither port nor session length is zero. Nothing else is asked of them.
pub proof fn law_settings_are_accepted_exactly(
    src: Sources,
    addresses: Seq<(Seq<char>, Option<Seq<char>>)>,
    crons: Seq<(Seq<char>, bool)>,
)
    ensures
        crate::config::config_of(src, addresses, crons) is Ok <==> {
            &&& host_is_good(src, addresses)
            &&& number_is_good(src, "PORT"@, "3000"@, 65_535)
            &&& number_is_good(src, "SESSION_TTL_DAYS"@, "7"@, 4_294_967_295)
            &&& proxies_are_good(src, addresses)
            &&& number_is_good(src, "DESKTOP_MAX_UPLOAD_MB"@, "20"@, 4_294_967_295)
            &&& poll_cron_is_good(src, crons)
            &&& !number_is_zero(src, "PORT"@, "3000"@, 65_535)
            &&& !number_is_zero(src, "SESSION_TTL_DAYS"@, "7"@, 4_294_967_295)
        },
{
    law_address_list_is_all_or_nothing(
        addresses,
        "TRUSTED_PROXIES"@,
        src.get_list("TRUSTED_PROXIES"@),
        0,
    );
}

/// The refusal of settings for one field.
pub open spec fn is_refused(
    src: Sources,
    addresses: Seq<(Seq<char>, Option<Seq<char>>)>,
    crons: Seq<(Seq<char>, bool)>,
    field: Seq<char>,
    reason: Seq<char>,
) -> bool {
    crate::config::config_of(src, addresses, crons) matches Err(error) && error == (
    ConfigErrorView::InvalidValue { field, reason })
}

/// The first complaint is the answer, in this order: host, port, session length, proxies, upload
/// limit, poll expression, a port of zero, a session of no days. Each names its setting and the
/// text that is wrong.
pub proof fn law_first_complaint_is_the_answer(
    src: Sources,
    addresses: Seq<(Seq<char>, Option<Seq<char>>)>,
    crons: Seq<(Seq<char>, bool)>,
    at: int,
)
    ensures
        ({
            let host = host_is_good(src, addresses);
            let port = number_is_good(src, "PORT"@, "3000"@, 65_535);
            let ttl = number_is_good(src, "SESSION_TTL_DAYS"@, "7"@, 4_294_967_295);
            let proxies = proxies_are_good(src, addresses);
            let upload = number_is_good(src, "DESKTOP_MAX_UPLOAD_MB"@, "20"@, 4_294_967_295);
            let cron = poll_cron_is_good(src, crons);
            let items = src.get_list("TRUSTED_PROXIES"@);
            &&& !host ==> is_refused(
                src,
                addresses,
                crons,
                "HOST"@,
                "could not parse value "@ + crate::text::debug_quoted(
                    text_or(src.get("HOST"@), "127.0.0.1"@),
                ),
            )
            &&& host && !port ==> is_refused(
                src,
                addresses,
                crons,
                "PORT"@,
                "could not parse value "@ + crate::text::debug_quoted(
                    text_or(src.get("PORT"@), "3000"@),
                ),
            )
            &&& host && port && !ttl ==> is_refused(
                src,
                addresses,
                crons,
                "SESSION_TTL_DAYS"@,
                "could not parse value "@ + crate::text::debug_quoted(
                    text_or(src.get("SESSION_TTL_DAYS"@), "7"@),
                ),
            )
            &&& host && port && ttl && 0 <= at < items.len() && crate::config::address_at(
                addresses,
                items[at],
            ) is None && (forall|k: int|
                0 <= k < at ==> crate::config::address_at(addresses, #[trigger] items[k]) is Some)
                ==> is_refused(
                src,
                addresses,
                crons,
                "TRUSTED_PROXIES"@,
                "invalid IP "@ + crate::text::debug_quoted(items[at]),
            )
            &&& host && port && ttl && proxies && !upload ==> is_refused(
                src,
                addresses,
                crons,
                "DESKTOP_MAX_UPLOAD_MB"@,
                "could not parse value "@ + crate::text::debug_quoted(
                    text_or(src.get("DESKTOP_MAX_UPLOAD_MB"@), "20"@),
                ),
            )
            &&& host && port && ttl && proxies && upload && !cron ==> is_refused(
                src,
                addresses,
                crons,
                "INSTAGRAM_POLL_CRON"@,
                "invalid cron expression "@ + crate::text::debug_quoted(
                    src.get_filled("INSTAGRAM_POLL_CRON"@)->0,
                ),
            )
            &&& host && port && ttl && proxies && upload && cron && number_is_zero(
                src,
                "PORT"@,
                "3000"@,
                65_535,
            ) ==> is_refused(src, addresses, crons, "port"@, "port must be non-zero"@)
            &&& host && port && ttl && proxies && upload && cron && !number_is_zero(
                src,
                "PORT"@,
                "3000"@,
                65_535,
            ) && number_is_zero(src, "SESSION_TTL_DAYS"@, "7"@, 4_294_967_295) ==> is_refused(
                src,
                addresses,
                crons,
                "session_ttl_days"@,
                "session TTL must be at least 1 day"@,
            )
        }),
{
    law_address_list_is_all_or_nothing(
        addresses,
        "TRUSTED_PROXIES"@,
        src.get_list("TRUSTED_PROXIES"@),
        at,
    );
}

/// Without a file the environment and the defaults hold; with one that can be read its entries
/// go before the environment; one that cannot be read is refused with the reader's message.
pub proof fn law_file_is_read_first(
    raw: Seq<char>,
    env: Seq<(Seq<char>, Seq<char>)>,
    addresses: Seq<(Seq<char>, Option<Seq<char>>)>,
    crons: Seq<(Seq<char>, bool)>,
)
    ensures
        crate::config::loaded(None, env, addresses, crons) == crate::config::config_of(
            Sources { yaml: Seq::<(Yaml, Yaml)>::empty(), env },
            addresses,
            crons,
        ),
        crate::yaml::yaml_document(raw) matches Ok(yaml) ==> crate::config::loaded(
            Some(raw),
            env,
            addresses,
            crons,
        ) == crate::config::config_of(Sources { yaml, env }, addresses, crons),
        crate::yaml::yaml_document(raw) matches Err(message) ==> (crate::config::loaded(
            Some(raw),
            env,
            addresses,
            crons,
        ) matches Err(error) && error == (ConfigErrorView::Parse { source: message })),
        crate::config::file_entries(None) matches Ok(entries) && entries.len() == 0,
        crate::config::file_entries(Some(raw)) == crate::yaml::yaml_document(raw),
{
}

/// A refusal is told by its setting and what is wrong with it, and a broken file by what the
/// reader said.
pub proof fn law_refusal_is_told(field: Seq<char>, reason: Seq<char>, source: Seq<char>)
    ensures
        crate::config::refusal_text(ConfigErrorView::InvalidValue { field, reason }) == field + (
        seq![':', ' '] + reason),
        crate::config::refusal_text(ConfigErrorView::Parse { source }) == source,
{
    reveal_strlit(": ");
    assert(field + ": "@ + reason == field + (seq![':', ' '] + reason));
}

/// An optional text is shown in quotes, a secret only by whether it is there, and a list in
/// brackets with commas between its items.
pub proof fn law_values_are_shown(text: Seq<char>, items: Seq<Seq<char>>, k: int)
    ensures
        crate::config::opt_debug(Some(text)) == "Some("@ + (crate::text::debug_quoted(text)
            + ")"@),
        crate::config::opt_debug(None) == "None"@,
        crate::config::secret_debug(Some(text)) == "Some([REDACTED])"@,
        crate::config::secret_debug(None) == "None"@,
        crate::config::list_debug(items) == "["@ + (crate::text::joined(items, ", "@) + "]"@),
        crate::config::quoted_items(items).len() == items.len(),
        0 <= k < items.len() ==> crate::config::quoted_items(items)[k]
            == crate::text::debug_quoted(items[k]),
{
    assert("Some("@ + crate::text::debug_quoted(text) + ")"@ == "Some("@ + (
    crate::text::debug_quoted(text) + ")"@));
    assert("["@ + crate::text::joined(items, ", "@) + "]"@ == "["@ + (crate::text::joined(
        items,
        ", "@,
    ) + "]"@));
}

/// The settings of the server as they are shown, each behind its name.
pub open spec fn server_fields(cfg: ConfigView) -> Seq<Seq<char>> {
    seq![
        "base_url: "@ + crate::config::opt_debug(cfg.base_url),
        "host: "@ + cfg.host,
        "port: "@ + crate::text::decimal(cfg.port),
        "db_path: "@ + crate::text::debug_quoted(cfg.db_path),
        "session_ttl_days: "@ + crate::text::decimal(cfg.session_ttl_days),
        "redis_url: "@ + crate::text::debug_quoted(cfg.redis_url),
        "trusted_proxies: "@ + crate::config::list_debug(cfg.trusted_proxies),
        "google_site_verification: "@ + crate::config::opt_debug(cfg.google_site_verification),
    ]
}

/// The settings of pages, encryption and accounts as they are shown, each behind its name.
pub open spec fn account_fields(cfg: ConfigView) -> Seq<Seq<char>> {
    seq![
        "privacy_policy_url: "@ + crate::text::debug_quoted(cfg.privacy_policy_url),
        "terms_url: "@ + crate::text::debug_quoted(cfg.terms_url),
        "encryption_secret: "@ + crate::config::secret_debug(cfg.encryption_secret),
        "encryption_secret_new: "@ + crate::config::secret_debug(cfg.encryption_secret_new),
        "invite_codes: "@ + crate::config::list_debug(crate::config::quoted_items(cfg.invite_codes)),
        "admin_discord_ids: "@ + crate::config::list_debug(crate::config::quoted_items(cfg.admin_discord_ids)),
        "desktop_max_upload_mb: "@ + crate::text::decimal(cfg.desktop_max_upload_mb),
        "reminder_cron: "@ + crate::text::debug_quoted(cfg.reminder_cron),
    ]
}

/// The settings of the linked services as they are shown, each behind its name.
pub open spec fn link_fields(cfg: ConfigView) -> Seq<Seq<char>> {
    seq![
        "google_client_id: "@ + crate::config::opt_debug(cfg.google_client_id),
        "google_client_secret: "@ + crate::config::secret_debug(cfg.google_client_secret),
        "instagram_channel_id: "@ + crate::config::opt_debug(cfg.instagram_channel_id),
        "instagram_poll_cron: "@ + crate::text::debug_quoted(cfg.instagram_poll_cron),
        "instagram_access_token: "@ + crate::config::secret_debug(cfg.instagram_access_token),
        "instagram_app_secret: "@ + crate::config::secret_debug(cfg.instagram_app_secret),
        "instagram_owner_discord_id: "@ + crate::config::opt_debug(cfg.instagram_owner_discord_id),
    ]
}

proof fn lemma_field_behind(
    head: Seq<char>,
    text: Seq<char>,
    lines: Seq<Seq<char>>,
    label: Seq<char>,
    name: Seq<char>,
    value: Seq<char>,
)
    requires
        lines.len() > 0,
        text == head + crate::text::joined(lines, ", "@),
        label == ", "@ + name,
    ensures
        text + label + value == head + crate::text::joined(lines.push(name + value), ", "@),
{
    crate::text_laws::law_joining_puts_the_separator_between(lines, name + value, ", "@);
    let before = crate::text::joined(lines, ", "@);
    assert(text + label + value == head + (before + ", "@ + (name + value)));
}

/// The first part of what a log line shows: the settings of the server, each behind its name, with
/// commas between them.
pub proof fn law_log_line_shows_the_server(cfg: ConfigView)
    ensures
        crate::config::debug_of_server(cfg) == "Config { "@ + crate::text::joined(server_fields(cfg), ", "@),
{
    reveal_strlit(", ");
    reveal_strlit("Config { ");
    reveal_strlit("base_url: ");
    reveal_strlit("Config { base_url: ");
    reveal_strlit("host: ");
    reveal_strlit(", host: ");
    reveal_strlit("port: ");
    reveal_strlit(", port: ");
    reveal_strlit("db_path: ");
    reveal_strlit(", db_path: ");
    reveal_strlit("session_ttl_days: ");
    reveal_strlit(", session_ttl_days: ");
    reveal_strlit("redis_url: ");
    reveal_strlit(", redis_url: ");
    reveal_strlit("trusted_proxies: ");
    reveal_strlit(", trusted_proxies: ");
    reveal_strlit("google_site_verification: ");
    reveal_strlit(", google_site_verification: ");
    let head = "Config { "@;
    let t0 = "Config { base_url: "@ + crate::config::opt_debug(cfg.base_url);
    let l0 = seq!["base_url: "@ + crate::config::opt_debug(cfg.base_url)];
    assert("Config { base_url: "@ == head + "base_url: "@);
    assert(crate::text::joined(l0, ", "@) == "base_url: "@ + crate::config::opt_debug(cfg.base_url));
    assert(t0 == head + crate::text::joined(l0, ", "@));
    let v1 = cfg.host;
    assert(", host: "@ == ", "@ + "host: "@);
    lemma_field_behind(head, t0, l0, ", host: "@, "host: "@, v1);
    let t1 = t0 + ", host: "@ + v1;
    let l1 = l0.push("host: "@ + v1);
    let v2 = crate::text::decimal(cfg.port);
    assert(", port: "@ == ", "@ + "port: "@);
    lemma_field_behind(head, t1, l1, ", port: "@, "port: "@, v2);
    let t2 = t1 + ", port: "@ + v2;
    let l2 = l1.push("port: "@ + v2);
    let v3 = crate::text::debug_quoted(cfg.db_path);
    assert(", db_path: "@ == ", "@ + "db_path: "@);
    lemma_field_behind(head, t2, l2, ", db_path: "@, "db_path: "@, v3);
    let t3 = t2 + ", db_path: "@ + v3;
    let l3 = l2.push("db_path: "@ + v3);
    let v4 = crate::text::decimal(cfg.session_ttl_days);
    assert(", session_ttl_days: "@ == ", "@ + "session_ttl_days: "@);
    lemma_field_behind(head, t3, l3, ", session_ttl_days: "@, "session_ttl_days: "@, v4);
    let t4 = t3 + ", session_ttl_days: "@ + v4;
    let l4 = l3.push("session_ttl_days: "@ + v4);
    let v5 = crate::text::debug_quoted(cfg.redis_url);
    assert(", redis_url: "@ == ", "@ + "redis_url: "@);
    lemma_field_behind(head, t4, l4, ", redis_url: "@, "redis_url: "@, v5);
    let t5 = t4 + ", redis_url: "@ + v5;
    let l5 = l4.push("redis_url: "@ + v5);
    let v6 = crate::config::list_debug(cfg.trusted_proxies);
    assert(", trusted_proxies: "@ == ", "@ + "trusted_proxies: "@);
    lemma_field_behind(head, t5, l5, ", trusted_proxies: "@, "trusted_proxies: "@, v6);
    let t6 = t5 + ", trusted_proxies: "@ + v6;
    let l6 = l5.push("trusted_proxies: "@ + v6);
    let v7 = crate::config::opt_debug(cfg.google_site_verification);
    assert(", google_site_verification: "@ == ", "@ + "google_site_verification: "@);
    lemma_field_behind(head, t6, l6, ", google_site_verification: "@, "google_site_verification: "@, v7);
    let t7 = t6 + ", google_site_verification: "@ + v7;
    let l7 = l6.push("google_site_verification: "@ + v7);
    assert(l7 == server_fields(cfg));
}

/// The second part of what a log line shows: the settings of pages, encryption and accounts.
pub proof fn law_log_line_shows_the_accounts(cfg: ConfigView)
    ensures
        crate::config::debug_of_accounts(cfg) == ", "@ + crate::text::joined(account_fields(cfg), ", "@),
{
    reveal_strlit(", ");
    reveal_strlit(", ");
    reveal_strlit("privacy_policy_url: ");
    reveal_strlit(", privacy_policy_url: ");
    reveal_strlit("terms_url: ");
    reveal_strlit(", terms_url: ");
    reveal_strlit("encryption_secret: ");
    reveal_strlit(", encryption_secret: ");
    reveal_strlit("encryption_secret_new: ");
    reveal_strlit(", encryption_secret_new: ");
    reveal_strlit("invite_codes: ");
    reveal_strlit(", invite_codes: ");
    reveal_strlit("admin_discord_ids: ");
    reveal_strlit(", admin_discord_ids: ");
    reveal_strlit("desktop_max_upload_mb: ");
    reveal_strlit(", desktop_max_upload_mb: ");
    reveal_strlit("reminder_cron: ");
    reveal_strlit(", reminder_cron: ");
    let head = ", "@;
    let t0 = ", privacy_policy_url: "@ + crate::text::debug_quoted(cfg.privacy_policy_url);
    let l0 = seq!["privacy_policy_url: "@ + crate::text::debug_quoted(cfg.privacy_policy_url)];
    assert(", privacy_policy_url: "@ == head + "privacy_policy_url: "@);
    assert(crate::text::joined(l0, ", "@) == "privacy_policy_url: "@ + crate::text::debug_quoted(cfg.privacy_policy_url));
    assert(t0 == head + crate::text::joined(l0, ", "@));
    let v1 = crate::text::debug_quoted(cfg.terms_url);
    assert(", terms_url: "@ == ", "@ + "terms_url: "@);
    lemma_field_behind(head, t0, l0, ", terms_url: "@, "terms_url: "@, v1);
    let t1 = t0 + ", terms_url: "@ + v1;
    let l1 = l0.push("terms_url: "@ + v1);
    let v2 = crate::config::secret_debug(cfg.encryption_secret);
    assert(", encryption_secret: "@ == ", "@ + "encryption_secret: "@);
    lemma_field_behind(head, t1, l1, ", encryption_secret: "@, "encryption_secret: "@, v2);
    let t2 = t1 + ", encryption_secret: "@ + v2;
    let l2 = l1.push("encryption_secret: "@ + v2);
    let v3 = crate::config::secret_debug(cfg.encryption_secret_new);
    assert(", encryption_secret_new: "@ == ", "@ + "encryption_secret_new: "@);
    lemma_field_behind(head, t2, l2, ", encryption_secret_new: "@, "encryption_secret_new: "@, v3);
    let t3 = t2 + ", encryption_secret_new: "@ + v3;
    let l3 = l2.push("encryption_secret_new: "@ + v3);
    let v4 = crate::config::list_debug(crate::config::quoted_items(cfg.invite_codes));
    assert(", invite_codes: "@ == ", "@ + "invite_codes: "@);
    lemma_field_behind(head, t3, l3, ", invite_codes: "@, "invite_codes: "@, v4);
    let t4 = t3 + ", invite_codes: "@ + v4;
    let l4 = l3.push("invite_codes: "@ + v4);
    let v5 = crate::config::list_debug(crate::config::quoted_items(cfg.admin_discord_ids));
    assert(", admin_discord_ids: "@ == ", "@ + "admin_discord_ids: "@);
    lemma_field_behind(head, t4, l4, ", admin_discord_ids: "@, "admin_discord_ids: "@, v5);
    let t5 = t4 + ", admin_discord_ids: "@ + v5;
    let l5 = l4.push("admin_discord_ids: "@ + v5);
    let v6 = crate::text::decimal(cfg.desktop_max_upload_mb);
    assert(", desktop_max_upload_mb: "@ == ", "@ + "desktop_max_upload_mb: "@);
    lemma_field_behind(head, t5, l5, ", desktop_max_upload_mb: "@, "desktop_max_upload_mb: "@, v6);
    let t6 = t5 + ", desktop_max_upload_mb: "@ + v6;
    let l6 = l5.push("desktop_max_upload_mb: "@ + v6);
    let v7 = crate::text::debug_quoted(cfg.reminder_cron);
    assert(", reminder_cron: "@ == ", "@ + "reminder_cron: "@);
    lemma_field_behind(head, t6, l6, ", reminder_cron: "@, "reminder_cron: "@, v7);
    let t7 = t6 + ", reminder_cron: "@ + v7;
    let l7 = l6.push("reminder_cron: "@ + v7);
    assert(l7 == account_fields(cfg));
}

/// The last part of what a log line shows: the settings of the linked services.
pub proof fn law_log_line_shows_the_links(cfg: ConfigView)
    ensures
        crate::config::debug_of_links(cfg) == ", "@ + crate::text::joined(link_fields(cfg), ", "@) + " }"@,
{
    reveal_strlit(", ");
    reveal_strlit(", ");
    reveal_strlit("google_client_id: ");
    reveal_strlit(", google_client_id: ");
    reveal_strlit("google_client_secret: ");
    reveal_strlit(", google_client_secret: ");
    reveal_strlit("instagram_channel_id: ");
    reveal_strlit(", instagram_channel_id: ");
    reveal_strlit("instagram_poll_cron: ");
    reveal_strlit(", instagram_poll_cron: ");
    reveal_strlit("instagram_access_token: ");
    reveal_strlit(", instagram_access_token: ");
    reveal_strlit("instagram_app_secret: ");
    reveal_strlit(", instagram_app_secret: ");
    reveal_strlit("instagram_owner_discord_id: ");
    reveal_strlit(", instagram_owner_discord_id: ");
    let head = ", "@;
    let t0 = ", google_client_id: "@ + crate::config::opt_debug(cfg.google_client_id);
    let l0 = seq!["google_client_id: "@ + crate::config::opt_debug(cfg.google_client_id)];
    assert(", google_client_id: "@ == head + "google_client_id: "@);
    assert(crate::text::joined(l0, ", "@) == "google_client_id: "@ + crate::config::opt_debug(cfg.google_client_id));
    assert(t0 == head + crate::text::joined(l0, ", "@));
    let v1 = crate::config::secret_debug(cfg.google_client_secret);
    assert(", google_client_secret: "@ == ", "@ + "google_client_secret: "@);
    lemma_field_behind(head, t0, l0, ", google_client_secret: "@, "google_client_secret: "@, v1);
    let t1 = t0 + ", google_client_secret: "@ + v1;
    let l1 = l0.push("google_client_secret: "@ + v1);
    let v2 = crate::config::opt_debug(cfg.instagram_channel_id);
    assert(", instagram_channel_id: "@ == ", "@ + "instagram_channel_id: "@);
    lemma_field_behind(head, t1, l1, ", instagram_channel_id: "@, "instagram_channel_id: "@, v2);
    let t2 = t1 + ", instagram_channel_id: "@ + v2;
    let l2 = l1.push("instagram_channel_id: "@ + v2);
    let v3 = crate::text::debug_quoted(cfg.instagram_poll_cron);
    assert(", instagram_poll_cron: "@ == ", "@ + "instagram_poll_cron: "@);
    lemma_field_behind(head, t2, l2, ", instagram_poll_cron: "@, "instagram_poll_cron: "@, v3);
    let t3 = t2 + ", instagram_poll_cron: "@ + v3;
    let l3 = l2.push("instagram_poll_cron: "@ + v3);
    let v4 = crate::config::secret_debug(cfg.instagram_access_token);
    assert(", instagram_access_token: "@ == ", "@ + "instagram_access_token: "@);
    lemma_field_behind(head, t3, l3, ", instagram_access_token: "@, "instagram_access_token: "@, v4);
    let t4 = t3 + ", instagram_access_token: "@ + v4;
    let l4 = l3.push("instagram_access_token: "@ + v4);
    let v5 = crate::config::secret_debug(cfg.instagram_app_secret);
    assert(", instagram_app_secret: "@ == ", "@ + "instagram_app_secret: "@);
    lemma_field_behind(head, t4, l4, ", instagram_app_secret: "@, "instagram_app_secret: "@, v5);
    let t5 = t4 + ", instagram_app_secret: "@ + v5;
    let l5 = l4.push("instagram_app_secret: "@ + v5);
    let v6 = crate::config::opt_debug(cfg.instagram_owner_discord_id);
    assert(", instagram_owner_discord_id: "@ == ", "@ + "instagram_owner_discord_id: "@);
    lemma_field_behind(head, t5, l5, ", instagram_owner_discord_id: "@, "instagram_owner_discord_id: "@, v6);
    let t6 = t5 + ", instagram_owner_discord_id: "@ + v6;
    let l6 = l5.push("instagram_owner_discord_id: "@ + v6);
    assert(l6 == link_fields(cfg));
}

/// A log line shows all three parts, one behind the other.
pub proof fn law_log_line_shows_every_setting(cfg: ConfigView)
    ensures
        crate::config::config_debug(cfg) == crate::config::debug_of_server(cfg) + (
        crate::config::debug_of_accounts(cfg) + crate::config::debug_of_links(cfg)),
{
    assert(crate::config::config_debug(cfg) == crate::config::debug_of_server(cfg) + (
    crate::config::debug_of_accounts(cfg) + crate::config::debug_of_links(cfg)));
}

/// A base URL is one over HTTPS exactly where it begins with `https://`, the letters small or
/// capital.
pub proof fn law_https_in_small_letters_or_capitals(url: Seq<char>)
    ensures
        crate::text::begins_with(crate::text::lower(url), "https://"@) <==> {
            &&& url.len() >= 8
            &&& crate::boot::is_letter(url[0], 'h', 'H')
            &&& crate::boot::is_letter(url[1], 't', 'T')
            &&& crate::boot::is_letter(url[2], 't', 'T')
            &&& crate::boot::is_letter(url[3], 'p', 'P')
            &&& crate::boot::is_letter(url[4], 's', 'S')
            &&& url[5] == ':'
            &&& url[6] == '/'
            &&& url[7] == '/'
        },
{
    reveal_strlit("https://");
    let small = crate::text::lower(url);
    if url.len() >= 8 {
        assert(small[0] == crate::text::lower_char(url[0]));
        assert(small[1] == crate::text::lower_char(url[1]));
        assert(small[2] == crate::text::lower_char(url[2]));
        assert(small[3] == crate::text::lower_char(url[3]));
        assert(small[4] == crate::text::lower_char(url[4]));
        assert(small[5] == crate::text::lower_char(url[5]));
        assert(small[6] == crate::text::lower_char(url[6]));
        assert(small[7] == crate::text::lower_char(url[7]));
        crate::boot::lemma_lower_letter(url[0], 'h', 'H');
        crate::boot::lemma_lower_letter(url[1], 't', 'T');
        crate::boot::lemma_lower_letter(url[2], 't', 'T');
        crate::boot::lemma_lower_letter(url[3], 'p', 'P');
        crate::boot::lemma_lower_letter(url[4], 's', 'S');
        let head = small.take(8);
        assert(head[0] == small[0] && head[1] == small[1] && head[2] == small[2] && head[3]
            == small[3] && head[4] == small[4] && head[5] == small[5] && head[6] == small[6]
            && head[7] == small[7]);
        assert(head =~= "https://"@ <==> small[0] == 'h' && small[1] == 't' && small[2] == 't'
            && small[3] == 'p' && small[4] == 's' && small[5] == ':' && small[6] == '/' && small[7]
            == '/');
    }
}

/// The optional secret as characters is the secret.
pub open spec fn is_secret(view: Option<Seq<char>>, secret: Option<SecretString>) -> bool {
    &&& secret matches Some(s) ==> view == Some(s@)
    &&& secret is None ==> view is None
}

/// The view of the settings holds each of them.
pub proof fn law_config_view_is_faithful(cfg: Config)
    ensures
        cfg@.base_url == crate::text::opt_text(cfg.base_url),
        cfg@.host == cfg.host@,
        cfg@.port == cfg.port,
        cfg@.db_path == cfg.db_path@,
        cfg@.session_ttl_days == cfg.session_ttl_days,
        cfg@.redis_url == cfg.redis_url@,
        cfg@.trusted_proxies == crate::text::texts(cfg.trusted_proxies@),
        cfg@.google_site_verification == crate::text::opt_text(cfg.google_site_verification),
        cfg@.privacy_policy_url == cfg.privacy_policy_url@,
        cfg@.terms_url == cfg.terms_url@,
        is_secret(cfg@.encryption_secret, cfg.encryption_secret),
        is_secret(cfg@.encryption_secret_new, cfg.encryption_secret_new),
        cfg@.invite_codes == crate::text::texts(cfg.invite_codes@),
        cfg@.admin_discord_ids == crate::text::texts(cfg.admin_discord_ids@),
        cfg@.desktop_max_upload_mb == cfg.desktop_max_upload_mb,
        cfg@.reminder_cron == cfg.reminder_cron@,
        cfg@.google_client_id == crate::text::opt_text(cfg.google_client_id),
        is_secret(cfg@.google_client_secret, cfg.google_client_secret),
        cfg@.instagram_channel_id == crate::text::opt_text(cfg.instagram_channel_id),
        cfg@.instagram_poll_cron == cfg.instagram_poll_cron@,
        is_secret(cfg@.instagram_access_token, cfg.instagram_access_token),
        is_secret(cfg@.instagram_app_secret, cfg.instagram_app_secret),
        cfg@.instagram_owner_discord_id == crate::text::opt_text(cfg.instagram_owner_discord_id),
{
}

/// The view of a refusal holds its setting and its reason, or the reader's message.
pub proof fn law_refusal_view_is_faithful(error: ConfigError)
    ensures
        error matches ConfigError::InvalidValue { field, reason } ==> error@
            == (ConfigErrorView::InvalidValue { field: field@, reason: reason@ }),
        error matches ConfigError::Parse { source } ==> error@ == (ConfigErrorView::Parse {
            source: crate::yaml::yaml_message(source),
        }),
{
}

/// The views of the environment, of the two tables and of the file keep every pair, in order.
pub proof fn law_table_views_are_faithful(
    env: Seq<(String, String)>,
    addresses: Seq<(String, Option<String>)>,
    crons: Seq<(String, bool)>,
    yaml: Seq<(YamlValue, YamlValue)>,
    k: int,
)
    ensures
        crate::config::pair_views(env).len() == env.len(),
        0 <= k < env.len() ==> crate::config::pair_views(env)[k] == (env[k].0@, env[k].1@),
        crate::config::address_views(addresses).len() == addresses.len(),
        0 <= k < addresses.len() ==> crate::config::address_views(addresses)[k] == (
            addresses[k].0@,
            crate::text::opt_text(addresses[k].1),
        ),
        crate::config::cron_views(crons).len() == crons.len(),
        0 <= k < crons.len() ==> crate::config::cron_views(crons)[k] == (crons[k].0@, crons[k].1),
        crate::yaml::entry_views(yaml).len() == yaml.len(),
        0 <= k < yaml.len() ==> crate::yaml::entry_views(yaml)[k] == (yaml[k].0@, yaml[k].1@),
        crate::config::sources(yaml, env).yaml == crate::yaml::entry_views(yaml),
        crate::config::sources(yaml, env).env == crate::config::pair_views(env),
{
}

/// The view of an entry of the file holds its text, and that of a list all its elements.
pub proof fn law_entry_view_is_faithful(node: YamlValue, k: int)
    ensures
        node matches YamlValue::Text(s) ==> node@ == Yaml::Text(s@),
        node matches YamlValue::Number(s) ==> node@ == Yaml::Number(s@),
        node matches YamlValue::Flag(b) ==> node@ == Yaml::Flag(b),
        node is Other <==> node@ is Other,
        node matches YamlValue::List(items) ==> node@ is List && node@->List_0.len() == items@.len()
            && (0 <= k < items@.len() ==> node@->List_0[k] == items@[k]@),
{
}

/// The view of a result holds the settings or the refusal.
pub proof fn law_result_view_is_faithful(cfg: Config, error: ConfigError)
    ensures
        crate::config::config_result(Ok(cfg)) == Ok::<ConfigView, ConfigErrorView>(cfg@),
        crate::config::config_result(Err(error)) == Err::<ConfigView, ConfigErrorView>(error@),
{
}

} // verus!
