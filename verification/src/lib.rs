//! State-polling and frame-building engine of a terminal front-end for a
//! music-server daemon.

pub mod text;
pub mod utils;
pub mod connections;
pub mod events;
pub mod drawing_utils;
pub mod draw;
