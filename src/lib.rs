pub mod cache;
pub mod classification;
pub mod config;
pub mod date;
pub mod date_format;
pub mod episode;
pub mod filesystem;
pub mod heap_buffer;
pub mod pattern;
pub mod progress;
pub mod regex_container;
pub mod show;
