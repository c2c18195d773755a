//! Host-side logic for driving a CLR-style managed runtime through its native
//! hosting entry points: marshaling of text and property maps into the
//! null-terminated byte layout that the foreign calls take, and the lifecycle
//! state machine over the runtime handle.
//!
//! The foreign calls themselves (opening the shared library, resolving the
//! entry points, invoking them) are made by the caller, which hands each
//! outcome back to the state machine.
mod call;
mod error;
mod lifecycle;
mod marshal;

pub use call::{DelegateCall, InitializeCall};
pub use error::HostError;
pub use lifecycle::{Delegate, ForeignReturn, Host, Phase, RuntimeHandle};
pub use marshal::{to_byte_string, to_parallel_arrays, PropertyArrays, PropertyMap};
