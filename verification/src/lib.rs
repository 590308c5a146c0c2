//! Verified core of a terminal dashboard for `rclone bisync`: log-line parsing,
//! synchronisation state tracking, run history, settings model, list scrolling, the file
//! browser's listing, and the keyboard and mouse handling of the dashboard and its dialogs.
use vstd::prelude::*;

pub mod text;
pub mod events;
pub mod ansi;
pub mod numparse;
pub mod pattern;
pub mod parser;
pub mod logline;
pub mod history;
pub mod streamer;
pub mod appearance;
pub mod settings;
pub mod options_list;
pub mod config;
pub mod dashboard;
pub mod clipboard;
pub mod fs_tree;
pub mod systemd;
pub mod scroll;
pub mod overview;
pub mod filter_rules;
pub mod countdown;
pub mod views;
pub mod setting_cycle;
pub mod recent;
pub mod line_edit;
pub mod first_run;
pub mod dialog_keys;
pub mod panels;
pub mod settings_dialog;
pub mod dashboard_keys;
pub mod hitboxes;
pub mod installer;
pub mod listing;
pub mod dry_run;
pub mod clicks;

verus! {
} // verus!
