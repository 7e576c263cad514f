//! The control core of a server that mixes a monitored live feed with the
//! music of a streaming service and lets a small HTTP surface steer it.
//!
//! Every part is a state machine over plain values. The program around the
//! library owns the clock, the channels, the decoding engine and the mixing
//! graph; it hands in what it reads from them and carries out what the
//! library answers.
//!
//! - [`player`]: the playback controller, with its queue and its snapshots
//! - [`sleep_timer`]: the sleep timer and the fade that it starts
//! - [`bridge`]: the timestamps of the audio that enters the mixing graph
//! - [`failover`]: the switch between the bridged audio and silence
//! - [`uri`], [`track`], [`info`], [`metadata`]: the values that these handle
//! - [`client`], [`app_settings`], [`pipeline`]: decisions at start-up and
//!   around the mixing graph
//! - [`mpris`]: control of a media player on the session bus
//! - [`text`]: operations on text that the contracts are stated with

pub mod app_settings;
pub mod bridge;
pub mod client;
pub mod failover;
pub mod info;
pub mod metadata;
pub mod mpris;
pub mod pipeline;
pub mod player;
pub mod sleep_timer;
pub mod text;
pub mod track;
pub mod uri;
