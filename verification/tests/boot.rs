use yuuka::boot::{
    backup_port, check_secret_strength, instagram_gate, instagram_owner_id, plan_boot,
    requested_rotation, require_encryption_secret, rust_cron_enabled, rust_discord_enabled,
    verification_base, InstagramGate, NO_SECRET,
};
use yuuka::config::Config;
use yuuka::services::BackupPort;

fn cfg(vars: &[(&str, &str)]) -> Config {
    let env: Vec<(String, String)> =
        vars.iter().map(|(k, v)| ((*k).to_owned(), (*v).to_owned())).collect();
    let addresses = vec![("127.0.0.1".to_owned(), Some("127.0.0.1".to_owned()))];
    Config::load_and_validate(None, &env, &addresses, &Vec::new()).expect("config")
}

#[test]
fn both_absent_is_rejected() {
    assert!(check_secret_strength(None, None).is_err());
}

#[test]
fn weak_secret_is_rejected() {
    assert!(check_secret_strength(Some(31), None).is_err());
    assert!(check_secret_strength(None, Some(10)).is_err());
}

#[test]
fn strong_secret_is_accepted() {
    assert!(check_secret_strength(Some(32), None).is_ok());
    assert!(check_secret_strength(Some(48), None).is_ok());
    assert!(check_secret_strength(None, Some(48)).is_ok());
}

#[test]
fn refusals_are_exact() {
    assert_eq!(
        check_secret_strength(None, None).unwrap_err(),
        "YUUKA_ENCRYPTION_SECRET が未設定です。十分に長いランダム文字列（例: openssl rand -base64 48）を \
         設定してください。プレリリース版からの移行は YUUKA_ENCRYPTION_SECRET_NEW に新鍵を設定して起動 \
         （鍵ローテーション）します。"
    );
    assert_eq!(
        check_secret_strength(Some(31), Some(1)).unwrap_err(),
        "YUUKA_ENCRYPTION_SECRET が短すぎます（31 文字）。推測困難な 32 文字以上のランダム値 \
         （例: openssl rand -base64 48）を設定してください。"
    );
    assert_eq!(
        check_secret_strength(Some(32), Some(0)).unwrap_err(),
        "YUUKA_ENCRYPTION_SECRET_NEW が短すぎます（0 文字）。推測困難な 32 文字以上のランダム値 \
         （例: openssl rand -base64 48）を設定してください。"
    );
}

#[test]
fn secrets_are_measured_in_characters() {
    let long = "あ".repeat(32);
    let short = "あ".repeat(31);
    assert!(require_encryption_secret(&cfg(&[("YUUKA_ENCRYPTION_SECRET", &long)])).is_ok());
    assert!(require_encryption_secret(&cfg(&[("YUUKA_ENCRYPTION_SECRET", &short)])).is_err());
    assert!(require_encryption_secret(&cfg(&[("YUUKA_ENCRYPTION_SECRET_NEW", &long)])).is_ok());
    assert_eq!(require_encryption_secret(&cfg(&[])).unwrap_err(), NO_SECRET);
}

#[test]
fn rotation_is_asked_for_by_the_new_secret() {
    assert!(requested_rotation(&cfg(&[("YUUKA_ENCRYPTION_SECRET", "cur")]), "legacy").is_none());
    let r = requested_rotation(
        &cfg(&[("YUUKA_ENCRYPTION_SECRET", "cur"), ("YUUKA_ENCRYPTION_SECRET_NEW", "new")]),
        "legacy",
    )
    .expect("rotation");
    assert_eq!((r.old.expose_secret(), r.new.expose_secret()), ("cur", "new"));
    let r = requested_rotation(&cfg(&[("YUUKA_ENCRYPTION_SECRET_NEW", "new")]), "legacy")
        .expect("rotation");
    assert_eq!((r.old.expose_secret(), r.new.expose_secret()), ("legacy", "new"));
}

#[test]
fn owner_falls_back_to_the_first_administrator() {
    assert_eq!(instagram_owner_id(&cfg(&[])), None);
    assert_eq!(
        instagram_owner_id(&cfg(&[("ADMIN_DISCORD_IDS", "1,2")])).as_deref(),
        Some("1")
    );
    assert_eq!(
        instagram_owner_id(&cfg(&[
            ("ADMIN_DISCORD_IDS", "1,2"),
            ("INSTAGRAM_OWNER_DISCORD_ID", "9"),
        ]))
        .as_deref(),
        Some("9")
    );
}

#[test]
fn switches_know_three_words() {
    for on in ["1", " true ", "YES", "True\n"] {
        assert!(rust_cron_enabled(Some(on)));
        assert!(rust_discord_enabled(Some(on)));
    }
    for off in ["0", "", "on", "11", "y e s"] {
        assert!(!rust_cron_enabled(Some(off)));
        assert!(!rust_discord_enabled(Some(off)));
    }
    assert!(!rust_cron_enabled(None));
    assert!(!rust_discord_enabled(None));
}

#[test]
fn verification_base_is_exact() {
    assert_eq!(verification_base(&cfg(&[])), "http://127.0.0.1:3000");
    assert_eq!(
        verification_base(&cfg(&[("BASE_URL", "https://yuuka.example//")])),
        "https://yuuka.example"
    );
}

#[test]
fn backup_needs_crypto_and_both_credentials() {
    let both = [("GOOGLE_CLIENT_ID", "a"), ("GOOGLE_CLIENT_SECRET", "b")];
    assert_eq!(backup_port(&cfg(&both), true), BackupPort::Live);
    assert_eq!(backup_port(&cfg(&both), false), BackupPort::Null);
    assert_eq!(backup_port(&cfg(&both[..1]), true), BackupPort::Null);
    assert_eq!(backup_port(&cfg(&both[1..]), true), BackupPort::Null);
}

#[test]
fn instagram_needs_channel_crypto_and_owner() {
    let full = [
        ("INSTAGRAM_CHANNEL_ID", "chan"),
        ("ADMIN_DISCORD_IDS", "1"),
        ("INSTAGRAM_ACCESS_TOKEN", "tok"),
        ("INSTAGRAM_APP_SECRET", "app"),
    ];
    let InstagramGate::On(s) = instagram_gate(&cfg(&full), true) else {
        panic!("off");
    };
    assert_eq!(s.channel_id, "chan");
    assert_eq!(s.poll_cron, "*/20 * * * *");
    assert_eq!(s.owner_user_id, "1");
    assert_eq!(s.bot_id, "system_default");
    assert_eq!(s.seed_token.unwrap().expose_secret(), "tok");
    assert_eq!(s.app_secret.unwrap().expose_secret(), "app");
    assert!(matches!(instagram_gate(&cfg(&full), false), InstagramGate::Off));
    assert!(matches!(instagram_gate(&cfg(&full[..1]), true), InstagramGate::NoOwner));
    assert!(matches!(instagram_gate(&cfg(&full[1..]), true), InstagramGate::Off));
}

#[test]
fn plan_follows_settings_and_switches() {
    let full = [("INSTAGRAM_CHANNEL_ID", "chan"), ("ADMIN_DISCORD_IDS", "1")];
    let plan = plan_boot(&cfg(&full), true, Some("1"), None);
    assert!(!plan.own_gateway);
    assert!(plan.google_live);
    assert_eq!(plan.backup, BackupPort::Null);
    assert_eq!(plan.verification_base, "http://127.0.0.1:3000");
    assert!(!plan.instagram_lacks_owner);
    assert!(plan.cron.expect("cron").instagram.is_some());

    let plan = plan_boot(&cfg(&full), true, None, Some("yes"));
    assert!(plan.own_gateway);
    assert!(plan.cron.is_none());

    let plan = plan_boot(&cfg(&full[..1]), true, Some("1"), None);
    assert!(plan.instagram_lacks_owner);
    assert!(plan.cron.expect("cron").instagram.is_none());
    assert!(!plan_boot(&cfg(&full[..1]), true, None, None).instagram_lacks_owner);

    let plan = plan_boot(&cfg(&full), false, Some("1"), None);
    assert!(!plan.google_live);
    assert!(plan.cron.expect("cron").instagram.is_none());
}
