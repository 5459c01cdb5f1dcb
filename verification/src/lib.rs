//! Logic of a taskbar usage widget: languages, appearance, layout,
//! polling schedule, menu commands and persisted settings.
pub mod localization;
pub mod appearance;
pub mod layout;
pub mod polling;
pub mod theme;
pub mod startup;
pub mod render;
pub mod scheme;
pub mod state;
pub mod menu;
pub mod settings;
pub mod events;
