//! A host-side invocation layer for WebAssembly components, and the greeter
//! component that it is used with.

pub mod binder;
pub mod convert;
pub mod error;
pub mod greetable;
pub mod guest;
pub mod host;
pub mod list;
pub mod protocol;
pub mod value;
pub mod wasm;
