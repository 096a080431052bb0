//! A windowed run loop with declarative keyboard capture: bindings from keys to
//! callbacks, the loop's lifecycle and per-event dispatch, and a render-pipeline
//! builder.

pub use winit::keyboard::KeyCode;

pub mod capture;
pub mod game_loop;
pub mod keys;
pub mod laws;
pub mod pipeline;
