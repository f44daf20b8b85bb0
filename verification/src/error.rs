use vstd::prelude::*;
use vstd::string::*;

verus! {

/// Every way in which the sandbox refuses or fails, apart from errors that
/// the JavaScript engine itself reports.
pub enum SandboxError {
    /// The module path cannot be turned into a `file:` URL.
    ModulePathNotUrl,
    /// The main module has no `default` export.
    NoDefaultExport,
    /// The `default` export is neither a function nor an async function.
    DefaultExportNotHandler,
    /// Calling the handler produced no value.
    HandlerReturnedNothing,
    /// The request JSON could not be turned into a string of the isolate.
    RequestNotConvertible,
    /// The handler's promise is still pending though the event loop is done.
    StillPendingAfterEventLoop,
    /// A drained worker carries no response.
    WorkerNotResponded,
    /// The response object could not be built in the calling isolate.
    ResponseNotConvertible,
    /// A worker thread could not hand its worker back.
    WorkerNotReturned,
    /// The disposal signal could not be sent to the worker thread.
    DisposalNotSent,
    /// A failure reported by the engine, kept as its message.
    Engine(String),
}

pub open spec fn error_message(e: SandboxError) -> Seq<char> {
    match e {
        SandboxError::ModulePathNotUrl => "could not create url from module path"@,
        SandboxError::NoDefaultExport => "main module does not have a default export"@,
        SandboxError::DefaultExportNotHandler => "default export is not a handler function"@,
        SandboxError::HandlerReturnedNothing => "handler function must return a response value"@,
        SandboxError::RequestNotConvertible =>
            "could not convert request json to a value in the new isolate"@,
        SandboxError::StillPendingAfterEventLoop =>
            "Promise resolution is still pending but the event loop has already resolved."@,
        SandboxError::WorkerNotResponded =>
            "called drain on a worker before it had responded without any errors"@,
        SandboxError::ResponseNotConvertible => "could not create new object for response"@,
        SandboxError::WorkerNotReturned => "could not send worker to thread"@,
        SandboxError::DisposalNotSent =>
            "could not send dispoal command\nan isolate could not be cleaned up"@,
        SandboxError::Engine(m) => m@,
    }
}

impl SandboxError {
    /// The human-readable message of this error.
    pub fn message(&self) -> (m: String)
        ensures
            m@ == error_message(*self),
    {
        match self {
            SandboxError::ModulePathNotUrl => String::from_str("could not create url from module path"),
            SandboxError::NoDefaultExport => String::from_str("main module does not have a default export"),
            SandboxError::DefaultExportNotHandler => String::from_str("default export is not a handler function"),
            SandboxError::HandlerReturnedNothing => String::from_str("handler function must return a response value"),
            SandboxError::RequestNotConvertible => String::from_str(
                "could not convert request json to a value in the new isolate",
            ),
            SandboxError::StillPendingAfterEventLoop => String::from_str(
                "Promise resolution is still pending but the event loop has already resolved.",
            ),
            SandboxError::WorkerNotResponded => String::from_str(
                "called drain on a worker before it had responded without any errors",
            ),
            SandboxError::ResponseNotConvertible => String::from_str("could not create new object for response"),
            SandboxError::WorkerNotReturned => String::from_str("could not send worker to thread"),
            SandboxError::DisposalNotSent => String::from_str(
                "could not send dispoal command\nan isolate could not be cleaned up",
            ),
            SandboxError::Engine(m) => m.clone(),
        }
    }
}

} // verus!
