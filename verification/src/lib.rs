//! Core of a pen-writing capture and replay pipeline.
//!
//! Pointer events feed a stroke-capture state machine ([`writing_canvas`]);
//! the rendered raster is handed to a recognition worker through a
//! single-slot, generation-versioned buffer ([`frame_broker`]); recognized
//! text is stored in a last-value slot ([`recognition`]); on user command a
//! replay worker drains a single-slot mailbox ([`mailbox`]) and turns the
//! command into key chords ([`replay`]).
//!
//! All I/O (windowing, raster readback, OCR inference, key injection,
//! sleeping) lives outside this crate; the library holds the data model,
//! the state machines and the handoff protocol, each with a contract.

pub mod button;
pub mod frame_broker;
pub mod mailbox;
pub mod recognition;
pub mod replay;
pub mod shapes;
pub mod timer;
pub mod writing_canvas;
