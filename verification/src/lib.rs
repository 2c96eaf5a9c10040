//! Verified core of a collection of download, notification and task utilities.

pub mod decimal;
pub mod pattern;
pub mod sanitize;
pub mod version;
pub mod version_text;
pub mod tg_message;
pub mod text;
pub mod ffmpeg;
pub mod downloaders;
pub mod download_plan;
pub mod db_task;
pub mod consumer;
pub mod timed_counter;
pub mod logger;
pub mod entities;
pub mod store;
pub mod hashmap_keys;
