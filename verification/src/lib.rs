//! The core of a small SVG viewer: it keeps one parsed document and a pixel
//! surface of the window's size, and decides what each event of the outer loop
//! asks for. Parsing and drawing are the caller's to do, with the crates made
//! for them: the core says when, takes the parser's answer, and hands out the
//! cleared surface to draw on.

pub mod cli;
pub mod document;
pub mod error;
pub mod event_loop;
pub mod framebuffer;
pub mod state;
pub mod watcher;
