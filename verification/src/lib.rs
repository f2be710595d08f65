//! Detection of one-time passwords in mail, and the rules of the desktop
//! application that shows them as masked notifications.

pub mod text;
pub mod text_laws;
pub mod timestamp;
pub mod models;
pub mod otp;
pub mod otp_laws;
pub mod paths;
pub mod config;
pub mod app;
pub mod autostart;
pub mod secrets;
pub mod events;
pub mod payloads;
pub mod state_laws;
pub mod desktop_app;
pub mod desktop_laws;
pub mod pages;
pub mod icon;
pub mod windows_app;
pub mod windows_laws;
pub mod windows_pages;
