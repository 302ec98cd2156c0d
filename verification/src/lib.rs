//! Output switching for a sound card driven from a macro keypad.
//!
//! A button of the keypad swaps the sound card between headphones and
//! speakers. For each output the library remembers a volume and the values of
//! the parameters that the user selected, so that switching restores what was
//! last used on that output.

pub mod common;
pub mod contexts;
pub mod coordinator;
pub mod device;
pub mod inspector;
pub mod maps;
pub mod message;
pub mod names;
pub mod output;
pub mod profile;
pub mod registration;
pub mod settings;
pub mod throttle;
pub mod value;
