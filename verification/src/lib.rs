//! Input/output coordination core of a wall-mounted assistant: debounced
//! button events, the shared user-interface state, the display render
//! decisions and the pulse encoding for the addressable LED chain.

pub mod animation;
pub mod audio;
pub mod buttons;
pub mod color;
pub mod color_vec;
pub mod colors;
pub mod correction;
pub mod debounce;
pub mod display;
pub mod display_task;
pub mod encoder;
pub mod key_watcher;
pub mod led_controller;
pub mod led_strip;
pub mod network;
pub mod panel;
pub mod polled_buttons;
pub mod pulse;
pub mod render;
pub mod ui_state;
