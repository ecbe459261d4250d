//! Scriba's terminal interface as a verified state machine.
pub mod browse;
pub mod browse_view;
pub mod center;
pub mod chat;
pub mod chat_keys;
pub mod chat_laws;
pub mod chat_lines;
pub mod chat_view;
pub mod config;
pub mod dashboard;
pub mod dashboard_laws;
pub mod dashboard_tick;
pub mod dashboard_view;
pub mod entities;
pub mod entities_laws;
pub mod entities_view;
pub mod geometry;
pub mod home;
pub mod jobs;
pub mod json;
pub mod keys;
pub mod markdown;
pub mod markdown_laws;
pub mod numbers;
pub mod ollama;
pub mod onboarding;
pub mod onboarding_laws;
pub mod onboarding_tick;
pub mod onboarding_view;
pub mod page_laws;
pub mod provider_laws;
pub mod providers;
pub mod recording;
pub mod recordings;
pub mod screen_laws;
pub mod settings;
pub mod settings_laws;
pub mod settings_text;
pub mod settings_view;
pub mod shown_laws;
pub mod style;
pub mod talk_laws;
pub mod text;
pub mod text_laws;
pub mod times;
pub mod transcript;
pub mod update;
pub mod view_laws;
pub mod voice;
pub mod wrap;

pub use dashboard::Dashboard;

