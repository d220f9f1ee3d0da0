//! Verified core of the MP3 CD Burner user interface.
//!
//! The modules hold the decisions that the windows of the application make:
//! what a status line says, how a text field reacts to a key, how the folder
//! list is reordered, and so on. Drawing and I/O live outside this crate.

pub mod bitrate_override;
pub mod burn;
pub mod display_settings;
pub mod folder;
pub mod folder_list;
pub mod input;
pub mod list_laws;
pub mod paths;
pub mod profile;
pub mod reorder;
pub mod status_bar;
pub mod text;
pub mod theme;
pub mod track_editor;
pub mod volume_label;
