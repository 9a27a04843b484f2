use yuuka::ids::SecretString;
use yuuka::instagram::service::InstagramFeedService;
use yuuka::instagram::settings::InstagramSettings;
use yuuka::schedule::CronService;
use yuuka::services::{
    build_services, build_supervised_services, BackupPort, CronSupervised, ServiceContext,
};

fn settings() -> InstagramSettings {
    InstagramSettings {
        channel_id: "123".to_owned(),
        poll_cron: "*/20 * * * *".to_owned(),
        owner_user_id: "owner".to_owned(),
        bot_id: "system_default".to_owned(),
        seed_token: None,
        app_secret: None,
    }
}

#[test]
fn builds_all_services_with_cron_prefixed_names() {
    let svcs = build_supervised_services(&ServiceContext::new());
    assert_eq!(svcs.len(), 10);
    let names: Vec<String> = svcs.iter().map(|s| s.name()).collect();
    assert!(names.iter().all(|n| n.starts_with("cron:")));
    assert!(names.contains(&"cron:reminder".to_owned()));
    assert!(names.contains(&"cron:metrics".to_owned()));
    assert!(names.contains(&"cron:backup".to_owned()));
}

#[test]
fn adapter_name_is_prefixed() {
    let svcs = build_services(&ServiceContext::new());
    let first = svcs.into_iter().next().expect("at least one service");
    let name = first.name().to_owned();
    let adapter = CronSupervised::new(first);
    assert_eq!(adapter.name(), format!("cron:{name}"));
}

#[test]
fn service_is_registered_only_when_configured() {
    let ctx = ServiceContext::new();
    let before = build_services(&ctx).len();
    let ctx = ctx.with_instagram(settings());
    let svcs = build_services(&ctx);
    assert_eq!(svcs.len(), before + 1);
    assert!(svcs.iter().any(|s| s.name() == "instagram"));
}

#[test]
fn services_stand_in_order() {
    let ctx = ServiceContext::new().with_instagram(settings()).with_backup(BackupPort::Live);
    assert_eq!(ctx.backup, BackupPort::Live);
    let names: Vec<&str> = build_services(&ctx).iter().map(|s| s.name()).collect();
    assert_eq!(
        names,
        [
            "reminder",
            "todo-recurrence",
            "payment-recurrence",
            "birthday",
            "clipboard",
            "metrics",
            "playbook-schedule",
            "briefing",
            "report",
            "backup",
            "instagram",
        ]
    );
    assert_eq!(build_supervised_services(&ctx)[10].name(), "cron:instagram");
    assert_eq!(build_supervised_services(&ctx)[10].service().name(), "instagram");
}

#[test]
fn new_context_has_no_backup_and_no_instagram() {
    let ctx = ServiceContext::new();
    assert_eq!(ctx.backup, BackupPort::Null);
    assert!(ctx.instagram.is_none());
}

#[test]
fn feed_service_runs_by_its_configured_schedule() {
    let svc = InstagramFeedService::new(settings());
    assert_eq!(svc.name(), "instagram");
    assert_eq!(svc.schedule().cron_expr().as_deref(), Some("*/20 * * * *"));
    assert!(svc.run_on_start());
    assert_eq!(svc.settings().channel_id, "123");
}

#[test]
fn debug_text_shows_no_secret() {
    let mut with = settings();
    with.channel_id = "a\"b".to_owned();
    with.seed_token = Some(SecretString::new("IG_TOKEN".to_owned()));
    with.app_secret = Some(SecretString::new("APP_SECRET".to_owned()));
    let text = with.debug_text();
    assert_eq!(
        text,
        "InstagramSettings { channel_id: \"a\\\"b\", poll_cron: \"*/20 * * * *\", .. }"
    );
    assert_eq!(with.duplicate().debug_text(), text);
    assert_eq!(with.duplicate().seed_token.unwrap().expose_secret(), "IG_TOKEN");
}
