use vstd::prelude::*;

verus! {

/// The ways an operation on a project directory can fail.
#[derive(Clone, Copy, Debug, PartialEq, Eq, Structural)]
pub enum NpmError {
    /// The project directory, or its descriptor file, does not exist.
    NotAvailable,
    /// The descriptor file exists but could not be read.
    Io,
    /// The descriptor file does not hold valid JSON of the expected shape.
    Parse,
    /// The external package-manager tool could not be launched.
    Tool,
}

} // verus!
