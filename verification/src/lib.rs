//! Detection and invocation of npm-style package scripts.
//!
//! A project directory is expected to hold a descriptor file named
//! `package.json`: a JSON object with an optional `scripts` field mapping
//! script names to command strings. The library parses such descriptors,
//! answers script queries, and decides what each operation of a runner may
//! do; reading the file and launching the external package-manager tool are
//! the caller's business.

pub mod descriptor;
pub mod error;
pub mod runner;

pub use descriptor::DescriptorFile;
pub use descriptor::PackageConfig;
pub use error::NpmError;
pub use runner::NpmScripts;
