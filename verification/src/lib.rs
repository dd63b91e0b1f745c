//! The logic of the Open mSupply environment check.
//!
//! The check resolves the settings of a server and then tries its sync server.
//! To resolve the settings, a shared base document and an environment-specific
//! overlay are merged key by key and decoded into a typed settings tree. Every
//! step is a function on plain values: reading the process environment, the
//! working directory and the source files, drawing the window and reaching the
//! network are left to the caller, who hands the outcome of each to the library.

pub mod configuration;
pub mod environment;
pub mod error;
pub mod materialize;
pub mod merge;
pub mod settings;
pub mod status;
pub mod value;
