pub mod daemon;
pub mod hotkey;
pub mod layout;
pub mod selection;
pub mod settings;
pub mod text;
pub mod transform;
pub mod ui;
