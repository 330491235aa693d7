//! Host-side harness for running a WebAssembly guest: typed host imports,
//! guest environment configuration, linking and the execution lifecycle.

pub mod driver;
pub mod environment;
pub mod features;
pub mod kinds;
pub mod linker;
pub mod loader;
pub mod registry;
pub mod report;
pub mod runtime;
pub mod signature;
