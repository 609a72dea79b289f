use vstd::prelude::*;

verus! {

/// Errors of a plugin wrapper.
#[derive(Debug, PartialEq, Eq)]
pub enum PluginError {
    /// The plugin module failed on an invocation.
    InvocationError { uri: String, method: String, args: String, exception: String },
}

/// Errors of the client.
#[derive(Debug, PartialEq, Eq)]
pub enum Error {
    /// A manifest is not in the format asked for.
    ManifestError(String),
    /// A URI could not be resolved.
    ResolutionError(String),
    /// A wrapper could not be loaded.
    LoadWrapperError(String),
    /// A package failed to create its wrapper.
    WrapperCreateError(String),
    /// Bytes could not be decoded from msgpack.
    MsgpackError(String),
    /// An invocation failed.
    InvokeError(String),
    /// A plugin wrapper failed.
    PluginError(PluginError),
}

} // verus!
