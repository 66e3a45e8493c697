//! Core of the persona introspection component: what it answers, how it frames what it sends and
//! receives, and what its daemon and its command line do next.

pub mod actor;
pub mod client;
pub mod codec;
pub mod command;
pub mod daemon;
pub mod environment;
pub mod error;
pub mod exchange;
pub mod path;
pub mod runtime;
pub mod serving;
pub mod signal;
pub mod surface;
pub mod targets;
pub mod text;

pub use error::Error;
