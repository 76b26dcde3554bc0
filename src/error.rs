//! The errors that the extension reports to the host.
use vstd::prelude::*;

verus! {

/// Why a request of the host could not be served.
pub enum SwiftError {
    /// A language server that this extension does not provide.
    UnknownLanguageServer(String),
    /// A debug adapter that this extension does not provide.
    UnknownAdapter(String),
    /// The host could not read the settings; its message.
    Settings(String),
    /// The debug configuration could not be parsed; the parser's message.
    MalformedConfig(String),
    /// The `request` field of a debug configuration holds neither `launch`
    /// nor `attach`; the value found, as written.
    UnexpectedRequest(String),
    /// The debug configuration has no `request` field.
    MissingRequest,
    /// A launch configuration names no program.
    MissingProgram,
    /// No debug adapter binary was found.
    AdapterNotFound,
}

/// `r` reports the debug adapter `name` as one this extension does not
/// provide.
pub open spec fn is_unknown_adapter<T>(r: Result<T, SwiftError>, name: Seq<char>) -> bool {
    r matches Err(SwiftError::UnknownAdapter(n)) && n@ == name
}

/// `prefix` followed by `tail`.
fn joined(prefix: &str, tail: &str) -> (r: String)
    ensures
        r@ == prefix@ + tail@,
{
    let mut r = String::from_str(prefix);
    r.append(tail);
    r
}

impl SwiftError {
    /// The message shown to the user.
    pub fn message(&self) -> (r: String)
        ensures
            match self {
                SwiftError::UnknownLanguageServer(id) => r@ == "Unknown language server: "@ + id@,
                SwiftError::UnknownAdapter(name) => r@ == "Cannot create binary for adapter: "@
                    + name@,
                SwiftError::Settings(m) => r@ == m@,
                SwiftError::MalformedConfig(m) => r@ == m@,
                SwiftError::UnexpectedRequest(v) => r@
                    == "Unexpected value for `request` key in Swift debug adapter configuration: "@
                    + v@,
                SwiftError::MissingRequest => r@
                    == "Missing required `request` field in Swift debug adapter configuration"@,
                SwiftError::MissingProgram => r@
                    == "Missing required `program` field for a `launch` request in Swift debug adapter configuration"@,
                SwiftError::AdapterNotFound => r@ == "Could not find lldb-dap"@,
            },
    {
        match self {
            SwiftError::UnknownLanguageServer(id) => joined("Unknown language server: ", id.as_str()),
            SwiftError::UnknownAdapter(name) => joined(
                "Cannot create binary for adapter: ",
                name.as_str(),
            ),
            SwiftError::Settings(m) => m.clone(),
            SwiftError::MalformedConfig(m) => m.clone(),
            SwiftError::UnexpectedRequest(v) => joined(
                "Unexpected value for `request` key in Swift debug adapter configuration: ",
                v.as_str(),
            ),
            SwiftError::MissingRequest => String::from_str(
                "Missing required `request` field in Swift debug adapter configuration",
            ),
            SwiftError::MissingProgram => String::from_str(
                "Missing required `program` field for a `launch` request in Swift debug adapter configuration",
            ),
            SwiftError::AdapterNotFound => String::from_str("Could not find lldb-dap"),
        }
    }
}

} // verus!
