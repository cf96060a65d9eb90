//! The decisions of a voice-dictation daemon for Wayland, verified.
//!
//! The library is pure: it reads no clock, file, device or socket. What the
//! program around it observes goes in as plain values, and what is to be done
//! comes out as plain values.
//!
//! - [`daemon`] is the state machine of a dictation session; [`session`] is its
//!   mathematical model and [`session_laws`] what holds of it at all times.
//! - [`postprocess`] and [`llm`] clean a transcription up, and [`cleanup_laws`]
//!   says what that does to any text; [`transcribe`] keeps
//!   the speech of a recording and says what becomes of it.
//! - [`insert`] brings the text to the user; [`audio`], [`osd`] and
//!   [`osd_draw`] stand next to the recorder and the overlay.
//! - [`config`], [`model`] and [`setup`] hold the configuration, the models and
//!   the guided setup; [`ipc`] and [`cli`] the protocol and the command line,
//!   with [`control`] for starting and ending the daemon.
//! - [`text`], [`search`], [`decimal`] and [`json`] are the tools for texts.
pub mod audio;
pub mod cleanup_laws;
pub mod cli;
pub mod config;
pub mod control;
pub mod daemon;
pub mod decimal;
pub mod insert;
pub mod ipc;
pub mod json;
pub mod llm;
pub mod model;
pub mod osd;
pub mod osd_draw;
pub mod postprocess;
pub mod search;
pub mod session;
pub mod session_laws;
pub mod setup;
pub mod text;
pub mod transcribe;
