//! Control plane of a desktop front-end for a game-automation engine.
//!
//! The crate holds the rules of the control plane: how engine events are
//! classified and narrated, how the daily task queue is built from the
//! configuration, when an update is due and which archive it takes, and in
//! which order a session talks to the engine. Every function states what it
//! returns in its contract; the program around the crate performs the I/O.

pub mod archive;
pub mod callback;
pub mod callback_types;
pub mod command;
pub mod config;
pub mod depot_types;
pub mod download_reporter;
pub mod entry;
pub mod errors;
pub mod facility_types;
pub mod level;
pub mod msg_handler;
pub mod oper_box_types;
pub mod queue;
pub mod recruit_types;
pub mod session;
pub mod settings;
pub mod stage_types;
pub mod task;
pub mod text;
pub mod updater;
pub mod version;
