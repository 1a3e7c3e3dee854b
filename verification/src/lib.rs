//! Verified core of the Alveus Idle sanctuary simulation: identifiers, stat
//! arithmetic, static content tables, collision and cleaning rules, the care
//! interaction model and the command/menu state machines.

pub mod app_state;
pub mod cleaning;
pub mod collision;
pub mod command;
pub mod configs;
pub mod content;
pub mod input;
pub mod interaction;
pub mod loading;
pub mod menus;
pub mod menus_model;
pub mod movement;
pub mod random;
pub mod room;
pub mod save;
pub mod stat_controls;
pub mod stats;
pub mod text;
pub mod toast;
pub mod types;
