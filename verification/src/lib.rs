//! Orchestration logic of a launcher and self-updater for legacy game
//! executables run under a compatibility layer.

pub mod capture;
pub mod config;
pub mod coordination;
pub mod dialog;
pub mod display;
pub mod installer;
pub mod launch;
pub mod scanner;
pub mod text;
pub mod updater;
