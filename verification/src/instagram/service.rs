//! The resident service that forwards new posts.
use vstd::prelude::*;

use super::settings::{InstagramSettings, SettingsView};
use crate::schedule::{CronService, Schedule, ScheduleView};

verus! {

/// The service that forwards new posts.
pub struct InstagramFeedService {
    settings: InstagramSettings,
}

impl View for InstagramFeedService {
    type V = SettingsView;

    closed spec fn view(&self) -> SettingsView {
        self.settings@
    }
}

impl InstagramFeedService {
    /// The service with these settings.
    pub fn new(settings: InstagramSettings) -> (r: Self)
        ensures
            r@ == settings@,
    {
        InstagramFeedService { settings }
    }

    /// The settings of the service.
    pub fn settings(&self) -> (r: &InstagramSettings)
        ensures
            r@ == self@,
    {
        &self.settings
    }
}

impl CronService for InstagramFeedService {
    fn name(&self) -> (r: &'static str)
        ensures
            r@ == "instagram"@,
    {
        "instagram"
    }

    fn schedule(&self) -> (r: Schedule)
        ensures
            r@ == ScheduleView::Cron(self@.poll_cron),
    {
        Schedule::CronExpr(self.settings.poll_cron.clone())
    }
}

} // verus!
