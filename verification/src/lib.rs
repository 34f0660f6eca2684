//! The decisions and computations of the Amberol music player: playback state,
//! seeking, time labels, the marquee label's measurements, queue rows, the
//! settings schema, cover palettes and the ordering of songs found in a folder.

pub mod folder;
pub mod marquee_label;
pub mod player_backend;
pub mod queue_row;
pub mod time_format;
pub mod utils;
