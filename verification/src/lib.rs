//! The decision making of a taskbar widget that watches the usage of a metered
//! service: settings, polling, panel, menu, placement and the texts on display.

pub mod captions;
pub mod color;
pub mod commands;
pub mod geometry;
pub mod json;
pub mod launch;
pub mod laws;
pub mod layout;
pub mod localization;
pub mod menu;
pub mod messages;
pub mod models;
pub mod panel;
pub mod panel_window;
pub mod poll;
pub mod promises;
pub mod sections;
pub mod settings;
pub mod startup;
pub mod state;
pub mod text;
pub mod update;
pub mod view;
pub mod widget;
