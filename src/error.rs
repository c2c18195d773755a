use vstd::prelude::*;

verus! {

/// The failures of the host layer.
#[derive(Debug, Clone, Copy, PartialEq, Eq, Structural)]
pub enum HostError {
    /// The shared library could not be opened.
    Load,
    /// An expected export is missing from the shared library.
    Symbol,
    /// A text value holds an embedded null byte.
    Encoding,
    /// A foreign entry point returned this negative status.
    Native(i32),
    /// Shutting the runtime down failed; the process cannot go on.
    Fatal,
}

} // verus!
