//! What can go wrong in the binding: failures of the binding itself, and the
//! statuses with which the driver refuses a call.

use vstd::prelude::*;
use crate::symbol::Symbol;

verus! {

/// Why an operation of the binding failed.
#[derive(Clone, Copy, Debug, PartialEq, Eq, Structural)]
pub enum Error {
    /// The image of the driver library could not be mapped.
    LibraryNotFound,
    /// The image was mapped, but holds no resolver to start from.
    BootstrapSymbolMissing,
    /// The resolver knows no such entry point under the context asked.
    SymbolNotFound,
    /// The name is not in the form the resolver expects; it was not asked.
    MalformedName,
    /// The driver refused to create a context, with this status.
    ContextCreationFailed(crate::vk::Result),
    /// The driver reported success and handed out the null context.
    NullContext,
    /// The driver refused a query, with this status.
    Native(crate::vk::Result),
    /// The driver returned a number that is no status.
    UnknownStatus(i32),
    /// The driver kept reporting that its records had changed between the
    /// two calls of an enumeration, pass after pass.
    Unstable,
}

impl Error {
    /// Failures of the binding, as opposed to refusals by the driver.
    pub open spec fn is_binding_spec(self) -> bool {
        match self {
            Error::LibraryNotFound
            | Error::BootstrapSymbolMissing
            | Error::SymbolNotFound
            | Error::MalformedName => true,
            _ => false,
        }
    }

    /// The status that the driver gave, where the failure carries one.
    pub open spec fn status_spec(self) -> Option<crate::vk::Result> {
        match self {
            Error::ContextCreationFailed(status) => Some(status),
            Error::Native(status) => Some(status),
            _ => None,
        }
    }

    /// Whether the binding itself failed, as opposed to the driver refusing.
    pub fn is_binding(&self) -> (binding: bool)
        ensures
            binding == self.is_binding_spec(),
    {
        match self {
            Error::LibraryNotFound
            | Error::BootstrapSymbolMissing
            | Error::SymbolNotFound
            | Error::MalformedName => true,
            _ => false,
        }
    }

    /// The status that the driver gave, where the failure carries one.
    pub fn status(&self) -> (status: Option<crate::vk::Result>)
        ensures
            status == self.status_spec(),
    {
        match self {
            Error::ContextCreationFailed(status) => Some(*status),
            Error::Native(status) => Some(*status),
            _ => None,
        }
    }
}

} // verus!
