//! Scaffolding for new C and C++ projects: the file contents, the steps that
//! build a project, and the decisions of the interactive command, each as a
//! verified function from plain values to plain values.

pub mod strings;
pub mod unicode;
pub mod paths;
pub mod templates;
pub mod display;
pub mod messages;
pub mod plan;
pub mod protocol;
pub mod header;
pub mod runner;
pub mod session;
pub mod laws;
pub mod files;
