//! Bridge between Art-Net (DMX over UDP) and an addressable LED strip.
//!
//! The library holds the rules of the pipeline: how a universe payload
//! becomes pixels, how segments are merged into the current frame, how the
//! frame is handed to the renderer, and what the listener does with each
//! datagram. Sockets, threads and the strip hardware live outside of it.

pub mod decoder;
pub mod discovery;
pub mod frame;
pub mod layout;
pub mod listener;
pub mod protocol;
pub mod renderer;
