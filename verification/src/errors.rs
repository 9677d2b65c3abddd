use vstd::prelude::*;

verus! {

/// One malformed plugin descriptor, found by `Builder::build`: the position
/// the descriptor was registered at and the name it carried.  Recoverable:
/// the caller can rebuild the builder before the runtime ever starts.
#[derive(Debug, Clone, PartialEq, Eq)]
pub struct InvalidPluginError {
    pub index: usize,
    pub name: String,
}

/// Aggregate failure of `Builder::build`: every malformed descriptor in the
/// builder, in registration order, so a caller sees all misconfigurations
/// in one report.
#[derive(Debug, PartialEq, Eq)]
pub struct BuildError {
    pub errors: Vec<InvalidPluginError>,
}

/// Failure reported by the setup hook.  Fatal: the bootstrap never retries
/// the hook and the event loop is never entered.
#[derive(Debug, Clone, PartialEq, Eq)]
pub struct SetupError {
    pub message: String,
}

/// Failure while the runtime brings the host application up, before the
/// event loop runs.  Fatal, never retried.
#[derive(Debug, Clone, PartialEq, Eq)]
pub enum RuntimeStartError {
    /// The host could not resolve the packaged configuration.
    ContextLoad(String),
    /// The host rejected a plugin's registration.
    PluginRegistration(String),
    /// The host failed to start the event loop.
    EventLoopStart(String),
}

/// Any error that ends the bootstrap after `build`.  There is no partial
/// recovery: the runtime reports the error and the process terminates with
/// a non-zero exit code.
#[derive(Debug, Clone, PartialEq, Eq)]
pub enum FatalError {
    /// Startup work failed before the event loop was entered.
    Start(RuntimeStartError),
    /// The setup hook reported failure.
    Setup(SetupError),
    /// The running event loop ended with an unrecoverable error.
    EventLoop(String),
}

} // verus!
