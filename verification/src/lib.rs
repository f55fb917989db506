//! Declarative image specifications for disposable database containers.
//!
//! The crate describes what image a container runtime should launch and how
//! to configure it: environment variables, readiness conditions, files to
//! stage into the container, and the startup command. It launches nothing
//! itself; a finished specification is handed to an external runtime.

pub mod image;
pub mod postgres;
pub mod postgis;
