//! The verified core of the Yuuka bot: configuration, notifications, schedules,
//! the Instagram feed and the start-up decisions.
pub mod text;
pub mod text_laws;
pub mod clock;
pub mod json;
pub mod yaml;
pub mod db;
pub mod http;
pub mod ids;
pub mod notifier;
pub mod notify_bridge;
pub mod instagram;
pub mod schedule;
pub mod services;
pub mod config;
pub mod config_laws;
pub mod boot;
pub mod turns;
