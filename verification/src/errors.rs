use vstd::prelude::*;
use vstd::string::StringExecFns;

verus! {

/// The kinds of failure the interpreter distinguishes.  The first three are
/// fatal (reported, exit code 1); a spawn failure is recoverable and never
/// terminates the driver loop.
#[derive(Clone, Copy, PartialEq, Eq, Structural, Debug)]
pub enum ErrorKind {
    /// No usable input source could be determined (interactive mode is
    /// requested but unsupported).
    Config,
    /// The requested script path could not be opened.
    SourceOpen,
    /// An I/O failure distinct from end-of-stream occurred while reading.
    SourceRead,
    /// The requested program could not be launched.
    Spawn,
}

/// A failure: its kind and a human-readable description.
#[derive(Debug)]
pub struct Error {
    pub kind: ErrorKind,
    pub message: String,
}

impl Error {
    pub fn new(kind: ErrorKind, message: String) -> (e: Error)
        ensures
            e.kind == kind,
            e.message == message,
    {
        Error { kind, message }
    }
}

/// The fatal-error report line: the fixed prefix `rush: `, then the error's
/// description, then a newline.  The caller writes it to the error stream.
pub fn diagnostic_line(e: &Error) -> (r: String)
    ensures
        r@ == "rush: "@ + e.message@ + "\n"@,
{
    let mut r: String = "rush: ".to_owned();
    r.append(e.message.as_str());
    r.append("\n");
    r
}

} // verus!
