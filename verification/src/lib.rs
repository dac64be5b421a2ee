//! The logic of an interactive dashboard that pulls many git repositories at once.

pub mod app;
pub mod bases;
pub mod boxes;
pub mod calls;
pub mod changes;
pub mod commands;
pub mod counts;
pub mod details;
pub mod dialogs;
pub mod diffview;
pub mod files;
pub mod flash;
pub mod folds;
pub mod frame;
pub mod git;
pub mod groups;
pub mod help;
pub mod helpview;
pub mod icons;
pub mod infoview;
pub mod input;
pub mod keys;
pub mod laws;
pub mod layout;
pub mod listing;
pub mod listview;
pub mod modals;
pub mod mouse;
pub mod notices;
pub mod options;
pub mod order;
pub mod page;
pub mod pagekeys;
pub mod pageview;
pub mod paths;
pub mod plain;
pub mod preview;
pub mod profile;
pub mod pulls;
pub mod repo;
pub mod rows;
pub mod screen;
pub mod settingsview;
pub mod spans;
pub mod statusbar;
pub mod summaries;
pub mod text;
pub mod theme;
pub mod throttle;
pub mod ticks;
pub mod times;
pub mod widths;
pub mod worker;
