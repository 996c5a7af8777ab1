//! Automatic censoring of spoken profanity in media files.
//!
//! A transcript of timed words is classified against a block-list, the
//! blocked words are merged and padded into time segments, and a censoring
//! strategy turns the segments into the job that rewrites the audio track.
//!
//! The library computes and decides; it runs no program and writes no
//! file. What has to be run comes out as a command with the messages that
//! report its failure, and the outcome of the run is handed back to be
//! judged.
//!
//! All times are whole milliseconds. Volumes, confidences and frequencies
//! are whole thousandths of their unit.

pub mod audio;
pub mod censoring;
pub mod cli;
pub mod config;
pub mod config_file;
pub mod dependencies;
pub mod error;
pub mod json;
pub mod paths;
pub mod pipeline;
pub mod plugins;
pub mod resources;
pub mod text;
pub mod tool;
pub mod video;
pub mod whisper;

pub use audio::{AudioConfig, AudioSegment};
pub use censoring::{CensorConfig, CensorStrategy, CensoringStats};
pub use config::{Config, ConfigBuilder, WhisperModel};
pub use config_file::{ConfigFile, ProfileConfig};
pub use error::{BabymodeError, Result};
pub use plugins::{CensoringConfig, CensoringStrategy, StrategyRegistry};
pub use resources::TempFile;
pub use video::VideoMetadata;
pub use whisper::{merge_detections, WordDetection};
