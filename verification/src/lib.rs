//! Decision logic of a small tool that lets a user write a note in an editor
//! and prints it on a USB thermal receipt printer.
//!
//! Everything here is pure: the caller reads the environment, runs the editor
//! and talks to the printer, and asks this library what the values it read
//! mean and what to do next.

pub mod codepage;
pub mod config;
pub mod flow;
pub mod hex;
pub mod note;
pub mod text;
pub mod usage;
