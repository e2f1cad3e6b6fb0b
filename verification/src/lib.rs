//! The verified core of `dqn`, a terminal music downloader.

pub mod model;
pub mod text;
pub mod text_laws;
pub mod sizes;
pub mod raster;
pub mod raster_laws;
pub mod qr;
pub mod qr_laws;
pub mod scale_laws;
pub mod code_laws;
pub mod music;
pub mod storage;
pub mod storage_laws;
pub mod download;
pub mod download_laws;
pub mod name_laws;
pub mod app_model;
pub mod app;
pub mod search;
pub mod queue;
pub mod account;
pub mod messages;
pub mod keys;
pub mod login;
pub mod job;
pub mod view_laws;
pub mod app_laws;
pub mod session_laws;
pub mod search_laws;
pub mod queue_laws;
pub mod account_laws;
pub mod key_laws;
pub mod task_laws;
pub mod step_laws;
pub mod layout;
pub mod ui;
pub mod screen_laws;
