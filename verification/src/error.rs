//! The structured failures that the host layer hands back to its caller.

use vstd::prelude::*;

verus! {

/// Why a component binary could not be turned into an artifact.
#[derive(Clone, Copy, Debug, PartialEq, Eq, Structural)]
pub enum LoadError {
    /// The bytes are not a structurally valid, well-typed component.
    Malformed,
    /// The bytes could not be obtained from their source. The host layer
    /// itself never reads a source; the variant is there for the caller that does.
    Io,
}

/// Why an artifact could not be instantiated.
#[derive(Clone, Debug, PartialEq, Eq)]
pub enum InstantiateError {
    /// The artifact requires an import that the binder does not provide.
    /// The text names the import.
    MissingImport(String),
    /// The component's own initialization failed.
    Trap,
}

/// Why a name could not be resolved.
#[derive(Clone, Copy, Debug, PartialEq, Eq, Structural)]
pub enum ResolveError {
    /// No item of that name exists at the level that was searched.
    NotFound,
}

/// Why an export could not be bound under the requested types.
#[derive(Clone, Copy, Debug, PartialEq, Eq, Structural)]
pub enum BindError {
    /// The export is no function, or its declared parameters or results
    /// differ from the requested ones in number or in kind.
    SignatureMismatch,
}

/// Why the exports of an interface could not be connected to.
#[derive(Clone, Copy, Debug, PartialEq, Eq, Structural)]
pub enum ConnectError {
    /// The interface, or one of its items, could not be resolved.
    Resolve(ResolveError),
    /// One of its items could not be bound under its types.
    Bind(BindError),
}

/// Why a greeting through a component stopped short.
#[derive(Clone, Copy, Debug, PartialEq, Eq, Structural)]
pub enum GreetError {
    /// The interface could not be connected to.
    Connect(ConnectError),
    /// A call to the component, or its finalization, failed.
    Call(CallError),
}

/// Why a call or a finalization was refused or failed.
#[derive(Clone, Copy, Debug, PartialEq, Eq, Structural)]
pub enum CallError {
    /// The binding was called again before its previous call was finalized.
    FinalizeRequired,
    /// The binding was finalized with no call outstanding.
    NothingToFinalize,
    /// The runtime reported a fault. Where the component itself raised it,
    /// the instance is no longer usable. The runtime also reports one where
    /// it cannot enter the component because another binding of the same
    /// instance awaits its finalization; the instance is usable again once
    /// that binding is finalized.
    Trap,
}

} // verus!
