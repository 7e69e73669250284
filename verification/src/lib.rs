//! Mido's House Multiworld: the protocol and state logic of the multiworld
//! client for the Ocarina of Time randomizer.
pub mod text;
pub mod hash_icon;
pub mod hint_area;
pub mod frontend;
pub mod bytes;
pub mod everdrive;
pub mod flashcart;
pub mod rando;
pub mod server_error;
pub mod admin;
pub mod relay;
pub mod plugin;
pub mod localization;
pub mod config;
pub mod github;
pub mod dotted;
pub mod updater;
pub mod gui;
pub mod installer;
pub mod release_checks;
pub mod report;
pub mod login;
