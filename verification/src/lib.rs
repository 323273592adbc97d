pub mod text;
pub mod config;
pub mod api;
pub mod gesture;
pub mod icon;
pub mod popup;
pub mod settings;
pub mod session;
pub mod app_error;
pub mod apply;
pub mod form_controls;
pub mod shell;
pub mod clipboard;
pub mod form_flow;
pub mod notice;
pub mod config_load;
