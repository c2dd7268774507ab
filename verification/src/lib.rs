//! Verified core of a terminal YouTube Music client: the play queue, cookie
//! header handling, text layout helpers and the small decision functions the
//! interface runs on.

pub mod app_state;
pub mod config;
pub mod controller;
pub mod convert;
pub mod cookies;
pub mod history;
pub mod login;
pub mod models;
pub mod queue;
pub mod sponsorblock;
pub mod text;
pub mod ui;
