//! The interactive interface: its state, what each input does to it, and what
//! it shows.

pub mod actions;
pub mod activity;
pub mod app;
pub mod arguments;
pub mod comment;
pub mod content;
pub mod details;
pub mod dialogs;
pub mod dispatch;
pub mod display_laws;
pub mod doctor;
pub mod editor;
pub mod editor_keys;
pub mod editor_laws;
pub mod editor_view;
pub mod events;
pub mod form;
pub mod form_laws;
pub mod geometry;
pub mod github;
pub mod highlight;
pub mod history;
pub mod input;
pub mod input_line;
pub mod jobs;
pub mod key_laws;
pub mod keys;
pub mod labels;
pub mod layout;
pub mod lines;
pub mod list_keys;
pub mod list_laws;
pub mod loading;
pub mod log_view;
pub mod modal;
pub mod modal_keys;
pub mod modal_mouse;
pub mod model;
pub mod mouse;
pub mod nesting;
pub mod quit;
pub mod release_laws;
pub mod request_laws;
pub mod screen;
pub mod screen_laws;
pub mod settings;
pub mod settings_view;
pub mod state_laws;
pub mod style;
pub mod sweep;
pub mod tables;
pub mod tool_keys;
pub mod tools;
pub mod update_laws;
pub mod views;
pub mod width;
pub mod wrapping;
