pub mod error;
pub mod text;
pub mod image_utils;
pub mod network;
pub mod config;
pub mod ftp;
pub mod file_index;
pub mod image_preview;
pub mod processing_activity;
pub mod color_grading;
pub mod presets;
pub mod platform;
pub mod mediastore;
pub mod ai_edit;
pub mod batch;
pub mod watcher;
pub mod crypto;
pub mod auto_open;
pub mod logcat;
pub mod exif;
pub mod presence;
