use crate::errors::{Error, ErrorKind};
use vstd::prelude::*;

verus! {

/// The interpreter dialect.  Reserved for future selection: it is carried
/// and validated but has no observable effect yet.
#[derive(Clone, Copy, PartialEq, Eq, Structural, Debug)]
pub enum Mode {
    Bourne,
    BourneAgain,
}

/// Process-level configuration: built once from the invocation arguments,
/// consumed to select a line source, then discarded.
pub struct Config {
    pub mode: Mode,
    pub input_file: Option<String>,
}

/// Interprets the invocation arguments (the program name first, as handed to
/// the process): one optional positional argument names the script to run;
/// with no argument the interactive console is selected.
pub fn parse_config_from_args(args: Vec<String>) -> (c: Config)
    ensures
        c.mode == Mode::Bourne,
        args@.len() > 1 ==> (c.input_file matches Some(file) && file == args@[1]),
        args@.len() <= 1 ==> c.input_file is None,
{
    if args.len() > 1 {
        let file = args[1].clone();
        Config { mode: Mode::Bourne, input_file: Some(file) }
    } else {
        Config { mode: Mode::Bourne, input_file: None }
    }
}

/// Chooses the line source the configuration asks for: the script path when
/// one was given.  Interactive mode is not implemented, so selecting it is
/// an explicit "mode not supported" configuration error rather than an
/// abort; opening the returned path is the caller's to do.
pub fn select_source(config: Config) -> (r: Result<String, Error>)
    ensures
        config.input_file matches Some(path) ==> (r matches Ok(p) && p == path),
        config.input_file is None ==> (r matches Err(e) && e.kind == ErrorKind::Config
            && e.message@ == "interactive mode is not supported"@),
{
    match config.input_file {
        Some(path) => Ok(path),
        None => Err(
            Error {
                kind: ErrorKind::Config,
                message: "interactive mode is not supported".to_owned(),
            },
        ),
    }
}

} // verus!
