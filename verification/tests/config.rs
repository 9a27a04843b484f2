use yuuka::config::{
    get_setting, non_empty, parse_field, parse_ip_list, parse_string_list, Config, ConfigError,
};
use yuuka::yaml::{parse_mapping, YamlValue};

fn addresses() -> Vec<(String, Option<String>)> {
    vec![
        ("127.0.0.1".to_owned(), Some("127.0.0.1".to_owned())),
        ("0.0.0.0".to_owned(), Some("0.0.0.0".to_owned())),
        ("10.0.0.1".to_owned(), Some("10.0.0.1".to_owned())),
        ("0:0:0:0:0:0:0:1".to_owned(), Some("::1".to_owned())),
        ("localhost".to_owned(), None),
    ]
}

fn crons() -> Vec<(String, bool)> {
    vec![("*/5 * * * *".to_owned(), true), ("not a cron".to_owned(), false)]
}

fn env(pairs: &[(&str, &str)]) -> Vec<(String, String)> {
    pairs.iter().map(|(k, v)| ((*k).to_owned(), (*v).to_owned())).collect()
}

fn load(yaml: Option<&str>, vars: &[(&str, &str)]) -> Result<Config, ConfigError> {
    Config::load_and_validate(yaml, &env(vars), &addresses(), &crons())
}

fn refused(yaml: Option<&str>, vars: &[(&str, &str)]) -> (String, String) {
    match load(yaml, vars) {
        Ok(_) => panic!("accepted"),
        Err(ConfigError::InvalidValue { field, reason }) => (field.to_owned(), reason),
        Err(ConfigError::Parse { source }) => ("YAML".to_owned(), source.to_string()),
    }
}

#[test]
fn loads_real_uppercase_yaml_and_ignores_unknown_keys() {
    let cfg = load(
        Some(
            "DB_PATH: \"./data/yuuka.db\"\n\
             REDIS_URL: \"redis://127.0.0.1:6379\"\n\
             PORT: 7854\n\
             HOST: \"0.0.0.0\"\n\
             SESSION_TTL_DAYS: 14\n\
             TERMS_URL: \"https://ex.test/terms\"\n\
             REMINDER_CRON: \"* * * * *\"\n\
             INVITE_CODES:\n  - \"a\"\n  - \"b\"\n\
             ADMIN_DISCORD_IDS: \"111, 222\"\n\
             GOOGLE_CLIENT_ID: \"xxx\"\n",
        ),
        &[],
    )
    .expect("load");
    assert_eq!(cfg.port, 7854);
    assert_eq!(cfg.host.to_string(), "0.0.0.0");
    assert_eq!(cfg.session_ttl_days, 14);
    assert_eq!(cfg.db_path, "./data/yuuka.db");
    assert_eq!(cfg.redis_url, "redis://127.0.0.1:6379");
    assert_eq!(cfg.terms_url, "https://ex.test/terms");
    assert!(!cfg.is_https_deployment());
    assert_eq!(cfg.invite_codes, vec!["a".to_owned(), "b".to_owned()]);
    assert_eq!(
        cfg.admin_discord_ids,
        vec!["111".to_owned(), "222".to_owned()]
    );
}

#[test]
fn missing_file_falls_back_to_defaults() {
    let cfg = load(None, &[]).expect("defaults");
    assert_eq!(cfg.port, 3000);
    assert_eq!(cfg.host.to_string(), "127.0.0.1");
    assert_eq!(cfg.session_ttl_days, 7);
    assert_eq!(cfg.redis_url, "redis://127.0.0.1:6379");
}

#[test]
fn invalid_port_is_rejected() {
    assert!(load(Some("PORT: \"not-a-number\"\n"), &[]).is_err());
}

#[test]
fn https_base_url_flags_https_deployment() {
    let cfg = load(Some("BASE_URL: \"https://yuuka.example\"\n"), &[]).expect("load");
    assert!(cfg.is_https_deployment());
}

#[test]
fn defaults_of_every_setting() {
    let cfg = load(None, &[]).expect("defaults");
    assert_eq!(cfg.base_url, None);
    assert_eq!(cfg.db_path, "./data/yuuka.db");
    assert!(cfg.trusted_proxies.is_empty());
    assert_eq!(cfg.google_site_verification, None);
    assert_eq!(cfg.privacy_policy_url, "");
    assert_eq!(cfg.terms_url, "");
    assert!(cfg.encryption_secret.is_none());
    assert!(cfg.encryption_secret_new.is_none());
    assert!(cfg.invite_codes.is_empty());
    assert!(cfg.admin_discord_ids.is_empty());
    assert_eq!(cfg.desktop_max_upload_mb, 20);
    assert_eq!(cfg.reminder_cron, "* * * * *");
    assert_eq!(cfg.google_client_id, None);
    assert!(cfg.google_client_secret.is_none());
    assert_eq!(cfg.instagram_channel_id, None);
    assert_eq!(cfg.instagram_poll_cron, "*/20 * * * *");
    assert!(cfg.instagram_access_token.is_none());
    assert!(cfg.instagram_app_secret.is_none());
    assert_eq!(cfg.instagram_owner_discord_id, None);
    assert!(!cfg.is_https_deployment());
}

#[test]
fn every_setting_is_read_under_its_key() {
    let cfg = load(
        None,
        &[
            ("BASE_URL", "HTTPS://Yuuka.example/"),
            ("HOST", " 0:0:0:0:0:0:0:1 "),
            ("PORT", " +8080\n"),
            ("DB_PATH", "db"),
            ("SESSION_TTL_DAYS", "1"),
            ("REDIS_URL", "redis"),
            ("TRUSTED_PROXIES", "10.0.0.1, ,0:0:0:0:0:0:0:1"),
            ("GOOGLE_SITE_VERIFICATION", "gsv"),
            ("PRIVACY_POLICY_URL", "privacy"),
            ("TERMS_URL", "terms"),
            ("YUUKA_ENCRYPTION_SECRET", "old"),
            ("YUUKA_ENCRYPTION_SECRET_NEW", "new"),
            ("INVITE_CODES", "a,, b "),
            ("ADMIN_DISCORD_IDS", "1"),
            ("DESKTOP_MAX_UPLOAD_MB", "4294967295"),
            ("REMINDER_CRON", "cron"),
            ("GOOGLE_CLIENT_ID", "gid"),
            ("GOOGLE_CLIENT_SECRET", "gsec"),
            ("INSTAGRAM_CHANNEL_ID", "chan"),
            ("INSTAGRAM_POLL_CRON", "*/5 * * * *"),
            ("INSTAGRAM_ACCESS_TOKEN", "tok"),
            ("INSTAGRAM_APP_SECRET", "app"),
            ("INSTAGRAM_OWNER_DISCORD_ID", "owner"),
        ],
    )
    .expect("load");
    assert_eq!(cfg.base_url.as_deref(), Some("HTTPS://Yuuka.example/"));
    assert!(cfg.is_https_deployment());
    assert_eq!(cfg.host, "::1");
    assert_eq!(cfg.port, 8080);
    assert_eq!(cfg.db_path, "db");
    assert_eq!(cfg.session_ttl_days, 1);
    assert_eq!(cfg.redis_url, "redis");
    assert_eq!(cfg.trusted_proxies, vec!["10.0.0.1".to_owned(), "::1".to_owned()]);
    assert_eq!(cfg.google_site_verification.as_deref(), Some("gsv"));
    assert_eq!(cfg.privacy_policy_url, "privacy");
    assert_eq!(cfg.terms_url, "terms");
    assert_eq!(cfg.encryption_secret.as_ref().unwrap().expose_secret(), "old");
    assert_eq!(cfg.encryption_secret_new.as_ref().unwrap().expose_secret(), "new");
    assert_eq!(cfg.invite_codes, vec!["a".to_owned(), "b".to_owned()]);
    assert_eq!(cfg.admin_discord_ids, vec!["1".to_owned()]);
    assert_eq!(cfg.desktop_max_upload_mb, u32::MAX);
    assert_eq!(cfg.reminder_cron, "cron");
    assert_eq!(cfg.google_client_id.as_deref(), Some("gid"));
    assert_eq!(cfg.google_client_secret.as_ref().unwrap().expose_secret(), "gsec");
    assert_eq!(cfg.instagram_channel_id.as_deref(), Some("chan"));
    assert_eq!(cfg.instagram_poll_cron, "*/5 * * * *");
    assert_eq!(cfg.instagram_access_token.as_ref().unwrap().expose_secret(), "tok");
    assert_eq!(cfg.instagram_app_secret.as_ref().unwrap().expose_secret(), "app");
    assert_eq!(cfg.instagram_owner_discord_id.as_deref(), Some("owner"));
}

#[test]
fn file_goes_before_environment() {
    let cfg = load(Some("PORT: 1\nREDIS_URL: ~\n"), &[("PORT", "2"), ("REDIS_URL", "env")])
        .expect("load");
    assert_eq!(cfg.port, 1);
    assert_eq!(cfg.redis_url, "env");
    let cfg = load(Some("REDIS_URL: \"\"\n"), &[("REDIS_URL", "env")]).expect("load");
    assert_eq!(cfg.redis_url, "");
}

#[test]
fn empty_optional_settings_count_as_unset() {
    let cfg = load(
        Some("BASE_URL: \"\"\nINSTAGRAM_POLL_CRON: \"\"\nYUUKA_ENCRYPTION_SECRET: \"\"\n"),
        &[],
    )
    .expect("load");
    assert_eq!(cfg.base_url, None);
    assert_eq!(cfg.instagram_poll_cron, "*/20 * * * *");
    assert!(cfg.encryption_secret.is_none());
}

#[test]
fn unknown_keys_of_any_shape_change_nothing() {
    let cfg = load(
        Some("7: seven\nBOT: {a: [1, 2]}\n? [x]\n: y\nport: 9\nPORT: 1\n"),
        &[("Path", "/bin")],
    )
    .expect("load");
    assert_eq!(cfg.port, 1);
}

#[test]
fn complaints_name_the_setting_and_the_value() {
    let shape = |field: &str, raw: &str| {
        (field.to_owned(), format!("could not parse value {raw:?}"))
    };
    assert_eq!(refused(None, &[("HOST", "localhost")]), shape("HOST", "localhost"));
    assert_eq!(refused(None, &[("HOST", "1.2.3.4")]), shape("HOST", "1.2.3.4"));
    assert_eq!(refused(None, &[("PORT", "65536")]), shape("PORT", "65536"));
    assert_eq!(refused(None, &[("PORT", "")]), shape("PORT", ""));
    assert_eq!(refused(None, &[("PORT", "-1")]), shape("PORT", "-1"));
    assert_eq!(refused(None, &[("PORT", "+")]), shape("PORT", "+"));
    assert_eq!(
        refused(None, &[("SESSION_TTL_DAYS", "1 day\t\"x\"")]),
        shape("SESSION_TTL_DAYS", "1 day\t\"x\"")
    );
    assert_eq!(
        refused(None, &[("DESKTOP_MAX_UPLOAD_MB", "4294967296")]),
        shape("DESKTOP_MAX_UPLOAD_MB", "4294967296")
    );
    assert_eq!(
        refused(None, &[("TRUSTED_PROXIES", "10.0.0.1, localhost , nope")]),
        ("TRUSTED_PROXIES".to_owned(), "invalid IP \"localhost\"".to_owned())
    );
}

#[test]
fn zero_port_and_zero_session_are_refused() {
    assert_eq!(
        refused(None, &[("PORT", "0"), ("SESSION_TTL_DAYS", "0")]),
        ("port".to_owned(), "port must be non-zero".to_owned())
    );
    assert_eq!(
        refused(None, &[("SESSION_TTL_DAYS", "0")]),
        ("session_ttl_days".to_owned(), "session TTL must be at least 1 day".to_owned())
    );
}

#[test]
fn first_complaint_wins() {
    let all = [
        ("HOST", "x"),
        ("PORT", "x"),
        ("SESSION_TTL_DAYS", "x"),
        ("TRUSTED_PROXIES", "x"),
        ("DESKTOP_MAX_UPLOAD_MB", "x"),
        ("INSTAGRAM_POLL_CRON", "x"),
    ];
    for from in 0..all.len() {
        assert_eq!(refused(None, &all[from..]).0, all[from].0);
    }
}

#[test]
fn broken_yaml_is_refused() {
    assert_eq!(refused(Some("PORT: [1\n"), &[]).0, "YAML");
    assert_eq!(refused(Some("- a\n- b\n"), &[]).0, "YAML");
    assert_eq!(refused(Some("PORT: 1\nPORT: 2\n"), &[]).0, "YAML");
}

#[test]
fn validate_checks_a_built_config() {
    let mut cfg = load(None, &[]).expect("defaults");
    assert!(cfg.validate().is_ok());
    cfg.port = 0;
    assert!(cfg.validate().is_err());
    cfg.port = 1;
    cfg.session_ttl_days = 0;
    assert!(cfg.validate().is_err());
}

#[test]
fn lists_in_the_file_are_joined_scalars() {
    let cfg = load(
        Some("INVITE_CODES: [a, 7, true, ~, [b], {c: d}, \"x,y\"]\nADMIN_DISCORD_IDS: 42\n"),
        &[],
    )
    .expect("load");
    assert_eq!(
        cfg.invite_codes,
        vec!["a", "7", "true", "x", "y"].into_iter().map(str::to_owned).collect::<Vec<_>>()
    );
    assert_eq!(cfg.admin_discord_ids, vec!["42".to_owned()]);
}

#[test]
fn scalars_in_the_file_become_texts() {
    let yaml = parse_mapping("A: text\nB: 1.5\nC: true\nD: false\nE: ~\nF: {x: 1}\nG: !t v\n")
        .expect("yaml");
    let none = env(&[]);
    let get = |key: &str| get_setting(&yaml, &none, key);
    assert_eq!(get("A").as_deref(), Some("text"));
    assert_eq!(get("B").as_deref(), Some("1.5"));
    assert_eq!(get("C").as_deref(), Some("true"));
    assert_eq!(get("D").as_deref(), Some("false"));
    assert_eq!(get("E"), None);
    assert_eq!(get("F"), None);
    assert_eq!(get("G"), None);
    assert_eq!(get("H"), None);
    assert!(matches!(&yaml[0].1, YamlValue::Text(s) if s == "text"));
}

#[test]
fn needed_addresses_are_listed() {
    let vars = env(&[("TRUSTED_PROXIES", "10.0.0.1, localhost"), ("HOST", " ::1 ")]);
    assert_eq!(
        Config::address_texts(None, &vars),
        vec!["::1".to_owned(), "10.0.0.1".to_owned(), "localhost".to_owned()]
    );
    assert_eq!(
        Config::address_texts(Some("HOST: 0.0.0.0\n"), &vars)[0],
        "0.0.0.0"
    );
    assert_eq!(Config::address_texts(None, &env(&[])), vec!["127.0.0.1".to_owned()]);
    assert!(Config::address_texts(Some("[1\n"), &vars).is_empty());
}

#[test]
fn only_needed_addresses_count() {
    let few = vec![("127.0.0.1".to_owned(), Some("127.0.0.1".to_owned()))];
    let cfg = Config::load_and_validate(None, &env(&[]), &few, &Vec::new()).expect("load");
    assert_eq!(cfg.host, "127.0.0.1");
}

#[test]
fn small_readers() {
    assert_eq!(non_empty(Some(String::new())), None);
    assert_eq!(non_empty(Some(" ".to_owned())).as_deref(), Some(" "));
    assert!(parse_string_list(None).is_empty());
    assert_eq!(parse_string_list(Some(" a ,,b")), vec!["a".to_owned(), "b".to_owned()]);
    assert_eq!(parse_field("F", " 12 ", 12).unwrap(), 12);
    assert!(parse_field("F", "13", 12).is_err());
    assert!(parse_ip_list("F", Some(" , "), &addresses()).unwrap().is_empty());
}

#[test]
fn poll_expression_is_checked_at_the_start() {
    let complaint = |raw: &str| {
        ("INSTAGRAM_POLL_CRON".to_owned(), format!("invalid cron expression {raw:?}"))
    };
    assert_eq!(
        refused(Some("INSTAGRAM_POLL_CRON: \"not a cron\"\n"), &[]),
        complaint("not a cron")
    );
    assert_eq!(refused(None, &[("INSTAGRAM_POLL_CRON", "unlisted")]), complaint("unlisted"));
    assert_eq!(
        refused(None, &[("INSTAGRAM_POLL_CRON", "not a cron"), ("PORT", "0")]).0,
        "INSTAGRAM_POLL_CRON"
    );
    let cfg = load(None, &[("INSTAGRAM_POLL_CRON", "*/5 * * * *")]).expect("accepted");
    assert_eq!(cfg.instagram_poll_cron, "*/5 * * * *");
}

#[test]
fn expression_to_check_is_the_configured_one() {
    let vars = env(&[("INSTAGRAM_POLL_CRON", "0 0 * * *")]);
    assert_eq!(Config::cron_text(None, &vars).as_deref(), Some("0 0 * * *"));
    assert_eq!(
        Config::cron_text(Some("INSTAGRAM_POLL_CRON: 1 * * * *\n"), &vars).as_deref(),
        Some("1 * * * *")
    );
    assert_eq!(Config::cron_text(None, &env(&[])), None);
    assert_eq!(Config::cron_text(Some("INSTAGRAM_POLL_CRON: \"\"\n"), &vars), None);
    assert_eq!(Config::cron_text(Some("[1\n"), &vars), None);
}

#[test]
fn empty_file_counts_as_an_empty_mapping() {
    for text in ["", "\n", "# nothing\n", "---\n"] {
        assert_eq!(load(Some(text), &[]).expect("empty").port, 3000);
    }
    for text in ["~\n", "null\n", "7\n"] {
        assert_eq!(refused(Some(text), &[]).0, "YAML");
    }
}

#[test]
fn debug_text_shows_every_field_but_no_secret() {
    assert_eq!(
        load(None, &[]).expect("defaults").debug_text(),
        "Config { base_url: None, host: 127.0.0.1, port: 3000, db_path: \"./data/yuuka.db\", \
         session_ttl_days: 7, redis_url: \"redis://127.0.0.1:6379\", trusted_proxies: [], \
         google_site_verification: None, privacy_policy_url: \"\", terms_url: \"\", \
         encryption_secret: None, encryption_secret_new: None, invite_codes: [], \
         admin_discord_ids: [], desktop_max_upload_mb: 20, reminder_cron: \"* * * * *\", \
         google_client_id: None, google_client_secret: None, instagram_channel_id: None, \
         instagram_poll_cron: \"*/20 * * * *\", instagram_access_token: None, \
         instagram_app_secret: None, instagram_owner_discord_id: None }"
    );
    let with = |secret: &str| {
        load(
            None,
            &[
                ("BASE_URL", "https://y\"z"),
                ("TRUSTED_PROXIES", "10.0.0.1,127.0.0.1"),
                ("INVITE_CODES", "a,b"),
                ("YUUKA_ENCRYPTION_SECRET", secret),
                ("YUUKA_ENCRYPTION_SECRET_NEW", secret),
                ("GOOGLE_CLIENT_SECRET", secret),
                ("INSTAGRAM_ACCESS_TOKEN", secret),
                ("INSTAGRAM_APP_SECRET", secret),
            ],
        )
        .expect("load")
        .debug_text()
    };
    let text = with("hunter2");
    assert!(!text.contains("hunter2"));
    assert_eq!(text, with("other"));
    assert_eq!(text.matches("Some([REDACTED])").count(), 5);
    assert!(text.contains("base_url: Some(\"https://y\\\"z\"), "));
    assert!(text.contains("trusted_proxies: [10.0.0.1, 127.0.0.1], "));
    assert!(text.contains("invite_codes: [\"a\", \"b\"], "));
}

#[test]
fn refusals_have_a_text() {
    let text = |yaml: Option<&str>, vars: &[(&str, &str)]| match load(yaml, vars) {
        Ok(_) => panic!("accepted"),
        Err(e) => e.message(),
    };
    assert_eq!(text(None, &[("PORT", "0")]), "port: port must be non-zero");
    let broken = "PORT: [1\n";
    let reader = parse_mapping(broken).err().expect("broken").to_string();
    assert!(!reader.is_empty());
    assert_eq!(text(Some(broken), &[]), reader);
}
