//! Which resident services run, and under what names.
use vstd::prelude::*;
use vstd::string::StringExecFns;

use crate::instagram::service::InstagramFeedService;
use crate::instagram::settings::{InstagramSettings, SettingsView};
use crate::schedule::CronService;

verus! {

/// Who carries out a scheduled backup.
#[derive(Clone, Copy, Debug, PartialEq, Eq, Structural)]
pub enum BackupPort {
    /// Nobody: every backup fails, which harms nothing.
    Null,
    /// The configured cloud storage.
    Live,
}

/// What the resident services are given, as far as it decides which of them run.
pub struct ServiceContext {
    /// Who carries out a scheduled backup.
    pub backup: BackupPort,
    /// The settings of the Instagram link; without them that service does not exist.
    pub instagram: Option<InstagramSettings>,
}

/// A context with its settings by view.
pub struct ServiceContextView {
    /// Who carries out a scheduled backup.
    pub backup: BackupPort,
    /// The settings of the Instagram link.
    pub instagram: Option<SettingsView>,
}

/// The view of optional settings.
pub open spec fn opt_settings(settings: Option<InstagramSettings>) -> Option<SettingsView> {
    match settings {
        Some(s) => Some(s@),
        None => None,
    }
}

impl View for ServiceContext {
    type V = ServiceContextView;

    open spec fn view(&self) -> ServiceContextView {
        ServiceContextView { backup: self.backup, instagram: opt_settings(self.instagram) }
    }
}

impl ServiceContext {
    /// A context without a backup port and without the Instagram link.
    pub fn new() -> (r: Self)
        ensures
            r@ == (ServiceContextView { backup: BackupPort::Null, instagram: None }),
    {
        ServiceContext { backup: BackupPort::Null, instagram: None }
    }

    /// The context with this backup port in place of its own.
    pub fn with_backup(self, backup: BackupPort) -> (r: Self)
        ensures
            r@ == (ServiceContextView { backup, ..self@ }),
    {
        ServiceContext { backup, ..self }
    }

    /// The context with the Instagram link.
    pub fn with_instagram(self, instagram: InstagramSettings) -> (r: Self)
        ensures
            r@ == (ServiceContextView { instagram: Some(instagram@), ..self@ }),
    {
        ServiceContext { instagram: Some(instagram), ..self }
    }
}

/// A resident service.
pub enum Service {
    /// Reminders.
    Reminder,
    /// Recurring tasks.
    TodoRecurrence,
    /// Recurring payments.
    PaymentRecurrence,
    /// Birthdays.
    Birthday,
    /// Clearing out the clipboard.
    Clipboard,
    /// The periodic log of metrics.
    Metrics,
    /// Scheduled playbooks.
    PlaybookSchedule,
    /// The morning briefing.
    Briefing,
    /// Daily and weekly reports.
    Report,
    /// Scheduled backups.
    Backup,
    /// New Instagram posts.
    Instagram(InstagramFeedService),
}

/// A service with its settings by view.
pub enum ServiceView {
    /// See [`Service::Reminder`].
    Reminder,
    /// See [`Service::TodoRecurrence`].
    TodoRecurrence,
    /// See [`Service::PaymentRecurrence`].
    PaymentRecurrence,
    /// See [`Service::Birthday`].
    Birthday,
    /// See [`Service::Clipboard`].
    Clipboard,
    /// See [`Service::Metrics`].
    Metrics,
    /// See [`Service::PlaybookSchedule`].
    PlaybookSchedule,
    /// See [`Service::Briefing`].
    Briefing,
    /// See [`Service::Report`].
    Report,
    /// See [`Service::Backup`].
    Backup,
    /// See [`Service::Instagram`].
    Instagram(SettingsView),
}

impl View for Service {
    type V = ServiceView;

    open spec fn view(&self) -> ServiceView {
        match self {
            Service::Reminder => ServiceView::Reminder,
            Service::TodoRecurrence => ServiceView::TodoRecurrence,
            Service::PaymentRecurrence => ServiceView::PaymentRecurrence,
            Service::Birthday => ServiceView::Birthday,
            Service::Clipboard => ServiceView::Clipboard,
            Service::Metrics => ServiceView::Metrics,
            Service::PlaybookSchedule => ServiceView::PlaybookSchedule,
            Service::Briefing => ServiceView::Briefing,
            Service::Report => ServiceView::Report,
            Service::Backup => ServiceView::Backup,
            Service::Instagram(feed) => ServiceView::Instagram(feed@),
        }
    }
}

impl ServiceView {
    /// The name of the service.
    pub open spec fn label(self) -> Seq<char> {
        match self {
            ServiceView::Reminder => "reminder"@,
            ServiceView::TodoRecurrence => "todo-recurrence"@,
            ServiceView::PaymentRecurrence => "payment-recurrence"@,
            ServiceView::Birthday => "birthday"@,
            ServiceView::Clipboard => "clipboard"@,
            ServiceView::Metrics => "metrics"@,
            ServiceView::PlaybookSchedule => "playbook-schedule"@,
            ServiceView::Briefing => "briefing"@,
            ServiceView::Report => "report"@,
            ServiceView::Backup => "backup"@,
            ServiceView::Instagram(_) => "instagram"@,
        }
    }
}

impl Service {
    /// The name of the service.
    pub fn name(&self) -> (r: &'static str)
        ensures
            r@ == self@.label(),
    {
        match self {
            Service::Reminder => "reminder",
            Service::TodoRecurrence => "todo-recurrence",
            Service::PaymentRecurrence => "payment-recurrence",
            Service::Birthday => "birthday",
            Service::Clipboard => "clipboard",
            Service::Metrics => "metrics",
            Service::PlaybookSchedule => "playbook-schedule",
            Service::Briefing => "briefing",
            Service::Report => "report",
            Service::Backup => "backup",
            Service::Instagram(feed) => feed.name(),
        }
    }
}

/// The views of a list of services.
pub open spec fn service_views(services: Seq<Service>) -> Seq<ServiceView> {
    services.map_values(|s: Service| s@)
}

/// The services that always run.
pub open spec fn standing_services() -> Seq<ServiceView> {
    seq![
        ServiceView::Reminder,
        ServiceView::TodoRecurrence,
        ServiceView::PaymentRecurrence,
        ServiceView::Birthday,
        ServiceView::Clipboard,
        ServiceView::Metrics,
        ServiceView::PlaybookSchedule,
        ServiceView::Briefing,
        ServiceView::Report,
        ServiceView::Backup,
    ]
}

/// The services that run in a context: the standing ones, and last the Instagram one where
/// it is configured.
pub open spec fn services_in(ctx: ServiceContextView) -> Seq<ServiceView> {
    match ctx.instagram {
        Some(settings) => standing_services().push(ServiceView::Instagram(settings)),
        None => standing_services(),
    }
}

/// The services that run in a context.
pub fn build_services(ctx: &ServiceContext) -> (r: Vec<Service>)
    ensures
        service_views(r@) == services_in(ctx@),
{
    let mut services: Vec<Service> = Vec::new();
    services.push(Service::Reminder);
    services.push(Service::TodoRecurrence);
    services.push(Service::PaymentRecurrence);
    services.push(Service::Birthday);
    services.push(Service::Clipboard);
    services.push(Service::Metrics);
    services.push(Service::PlaybookSchedule);
    services.push(Service::Briefing);
    services.push(Service::Report);
    services.push(Service::Backup);
    assert(service_views(services@) == standing_services());
    if let Some(settings) = &ctx.instagram {
        services.push(Service::Instagram(InstagramFeedService::new(settings.duplicate())));
        assert(service_views(services@) == standing_services().push(
            ServiceView::Instagram(settings@),
        ));
    }
    services
}

/// A resident service under supervision.
pub struct CronSupervised {
    svc: Service,
}

impl View for CronSupervised {
    type V = ServiceView;

    closed spec fn view(&self) -> ServiceView {
        self.svc@
    }
}

impl CronSupervised {
    /// Puts a service under supervision.
    pub fn new(svc: Service) -> (r: Self)
        ensures
            r@ == svc@,
    {
        CronSupervised { svc }
    }

    /// The service under supervision.
    pub fn service(&self) -> (r: &Service)
        ensures
            r@ == self@,
    {
        &self.svc
    }

    /// The name under supervision: that of the service behind `cron:`.
    pub fn name(&self) -> (r: String)
        ensures
            r@ == "cron:"@ + self@.label(),
    {
        let mut name: String = "cron:".to_owned();
        name.append(self.svc.name());
        name
    }
}

/// The views of a list of supervised services.
pub open spec fn supervised_views(services: Seq<CronSupervised>) -> Seq<ServiceView> {
    services.map_values(|s: CronSupervised| s@)
}

/// All services of a context, under supervision.
pub fn build_supervised_services(ctx: &ServiceContext) -> (r: Vec<CronSupervised>)
    ensures
        supervised_views(r@) == services_in(ctx@),
{
    let mut left: Vec<Service> = build_services(ctx);
    let ghost all = left@;
    let mut out: Vec<CronSupervised> = Vec::new();
    assert(all.skip(0) == all);
    while left.len() > 0
        invariant
            out@.len() <= all.len(),
            left@ == all.skip(out@.len() as int),
            forall|k: int| 0 <= k < out@.len() ==> (#[trigger] out@[k])@ == all[k]@,
        decreases left.len(),
    {
        let ghost k = out@.len() as int;
        let svc: Service = left.remove(0);
        out.push(CronSupervised::new(svc));
        assert(left@ == all.skip(k + 1));
    }
    assert(supervised_views(out@) == service_views(all));
    out
}

/// The Instagram service runs exactly where it is configured, once, and changes nothing for
/// the others.
pub proof fn law_instagram_runs_only_where_configured(ctx: ServiceContextView)
    ensures
        services_in(ctx).take(standing_services().len() as int) == standing_services(),
        (exists|k: int| 0 <= k < services_in(ctx).len() && services_in(ctx)[k] is Instagram)
            <==> ctx.instagram is Some,
        ctx.instagram matches Some(settings) ==> services_in(ctx).len()
            == standing_services().len() + 1 && services_in(ctx).last()
            == ServiceView::Instagram(settings),
{
    assert(services_in(ctx).take(standing_services().len() as int) == standing_services());
    if ctx.instagram is Some {
        assert(services_in(ctx)[10] is Instagram);
    }
}

/// No two services of a context have the same name.
pub proof fn law_names_are_distinct(ctx: ServiceContextView, i: int, j: int)
    requires
        0 <= i < j < services_in(ctx).len(),
    ensures
        services_in(ctx)[i].label() != services_in(ctx)[j].label(),
        "cron:"@ + services_in(ctx)[i].label() != "cron:"@ + services_in(ctx)[j].label(),
{
    reveal_strlit("reminder");
    reveal_strlit("todo-recurrence");
    reveal_strlit("payment-recurrence");
    reveal_strlit("birthday");
    reveal_strlit("clipboard");
    reveal_strlit("metrics");
    reveal_strlit("playbook-schedule");
    reveal_strlit("briefing");
    reveal_strlit("report");
    reveal_strlit("backup");
    reveal_strlit("instagram");
    let a = services_in(ctx)[i].label();
    let b = services_in(ctx)[j].label();
    assert(a.len() != b.len() || a[0] != b[0] || a[2] != b[2]);
    let head = "cron:"@;
    if head + a == head + b {
        assert((head + a).skip(head.len() as int) == a);
        assert((head + b).skip(head.len() as int) == b);
    }
}

/// In every context the ten standing services run, in this order and under these names, and
/// behind them, where it is configured, the Instagram one with the settings of the context.
pub proof fn law_services_run_under_their_names(ctx: ServiceContextView)
    ensures
        services_in(ctx).len() == (if ctx.instagram is Some {
            11nat
        } else {
            10nat
        }),
        services_in(ctx)[0].label() == "reminder"@,
        services_in(ctx)[1].label() == "todo-recurrence"@,
        services_in(ctx)[2].label() == "payment-recurrence"@,
        services_in(ctx)[3].label() == "birthday"@,
        services_in(ctx)[4].label() == "clipboard"@,
        services_in(ctx)[5].label() == "metrics"@,
        services_in(ctx)[6].label() == "playbook-schedule"@,
        services_in(ctx)[7].label() == "briefing"@,
        services_in(ctx)[8].label() == "report"@,
        services_in(ctx)[9].label() == "backup"@,
        ctx.instagram matches Some(settings) ==> services_in(ctx)[10] == ServiceView::Instagram(
            settings,
        ) && services_in(ctx)[10].label() == "instagram"@,
{
}

/// Who carries out a backup does not change which services run.
pub proof fn law_backup_port_changes_no_service(ctx: ServiceContextView, backup: BackupPort)
    ensures
        services_in(ServiceContextView { backup, ..ctx }) == services_in(ctx),
{
}

/// The view of a context holds its port and its settings.
pub proof fn law_context_view_is_faithful(ctx: ServiceContext)
    ensures
        ctx@.backup == ctx.backup,
        ctx.instagram is None <==> ctx@.instagram is None,
        ctx.instagram matches Some(settings) ==> ctx@.instagram == Some(settings@),
{
}

/// The view of a service tells which it is, and the views of lists keep every service, in
/// order.
pub proof fn law_service_views_are_faithful(
    service: Service,
    services: Seq<Service>,
    supervised: Seq<CronSupervised>,
    k: int,
)
    ensures
        service is Reminder <==> service@ is Reminder,
        service is TodoRecurrence <==> service@ is TodoRecurrence,
        service is PaymentRecurrence <==> service@ is PaymentRecurrence,
        service is Birthday <==> service@ is Birthday,
        service is Clipboard <==> service@ is Clipboard,
        service is Metrics <==> service@ is Metrics,
        service is PlaybookSchedule <==> service@ is PlaybookSchedule,
        service is Briefing <==> service@ is Briefing,
        service is Report <==> service@ is Report,
        service is Backup <==> service@ is Backup,
        service matches Service::Instagram(feed) ==> service@ == ServiceView::Instagram(feed@),
        service_views(services).len() == services.len(),
        0 <= k < services.len() ==> service_views(services)[k] == services[k]@,
        supervised_views(supervised).len() == supervised.len(),
        0 <= k < supervised.len() ==> supervised_views(supervised)[k] == supervised[k]@,
{
}

} // verus!
