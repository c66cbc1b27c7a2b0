//! Decision logic of a build-and-flash tool: argument filtering, resolution of
//! the single executable artifact of a build, selection of the target USB
//! device, and the sequencing of the flashing steps.
//!
//! Every function states its behaviour over mathematical models (`Seq`,
//! `Map`, `int`). All but one are machine-checked against that statement.
//! The exception is the private `read_events` of [`stream`], which calls the
//! parser of `cargo_metadata`: its contract is believed, not checked, and
//! what rests on it is said where it stands.

pub mod args;
pub mod artifact;
pub mod device;
pub mod error;
pub mod flash;
pub mod nesting;
pub mod numeral;
pub mod status;
pub mod stream;
pub mod text;
