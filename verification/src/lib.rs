//! Usage telemetry for a command-line tool's quota: parsing of reset phrases,
//! pace classification, remaining-time text, the usage store and its poll schedule.

pub mod clock;
pub mod display;
pub mod duration;
pub mod fetch;
pub mod menu;
pub mod pace;
pub mod phrase;
pub mod reset;
pub mod scheduler;
pub mod text;
pub mod usage;
