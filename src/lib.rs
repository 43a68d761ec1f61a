//! Tagging images with single-character keys and filing them into one folder per tag label.

pub mod app_view;
pub mod controls;
pub mod image_display;
pub mod image_queue;
pub mod navigation;
pub mod organize_mode;
pub mod organize_run;
pub mod organizer;
pub mod side_panel;
pub mod tag_input;
