//! Verified core of the MMA stats terminal UI: eligibility rules, the intro
//! animation, text parsing and formatting helpers, and the per-screen state.

pub mod text;
pub mod models;
pub mod app;
pub mod anim;
pub mod db;
pub mod scraper;
pub mod fuzzy;
pub mod jobs;
pub mod stats_text;
pub mod display;
pub mod config;
pub mod nav;
pub mod protocol;
