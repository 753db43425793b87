//! Drives Flutter integration tests on Android emulators and iOS simulators
//! and reports their outcome as an HTML page.
pub mod command;
pub mod pattern;
pub mod platform;
pub mod reporter;
pub mod result;
pub mod runner;
pub mod shell;
pub mod text;
