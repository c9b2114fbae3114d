//! Command construction for the Resend Model Context Protocol server.
//!
//! The library validates the settings of a project, decides step by step how
//! the server package is brought onto disk, and assembles the command with
//! which the server is launched. It performs no input or output itself: the
//! caller carries out each [`builder::Action`] and reports the outcome as an
//! [`builder::Event`].

pub mod error;
pub mod settings;
pub mod variant;
pub mod command;
pub mod layout;
pub mod builder;
pub mod trace;
pub mod configuration;
