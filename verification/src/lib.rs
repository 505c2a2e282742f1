//! The verified core of a terminal video player: what is laid out where, which
//! arguments go to the outside programs, and how the application's state answers
//! to keys, timers and finished jobs.
#![allow(unused_imports)]

pub mod actions;
pub mod app;
pub mod badge;
pub mod category;
pub mod clipboard;
pub mod collections;
pub mod comments;
pub mod cookies;
pub mod display;
pub mod download;
pub mod engagement;
pub mod fetch;
pub mod geometry;
pub mod grid;
pub mod hidden;
pub mod json;
pub mod mpv;
pub mod oauth;
pub mod paths;
pub mod playback;
pub mod player;
pub mod rect;
pub mod resume;
pub mod rgb;
pub mod screens;
pub mod search;
pub mod seekbar;
pub mod session;
pub mod settings;
pub mod settings_item;
pub mod speed;
pub mod subtitles;
pub mod tasks;
pub mod text;
pub mod thumbs;
pub mod video;
