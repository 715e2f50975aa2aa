use crate::errors::{Error, ErrorKind};
use vstd::prelude::*;

verus! {

/// What a line source will produce next, as contracts see it: one line of
/// text, or a read failure with its kind and description.  Once the pending
/// steps run out the source signals end-of-stream, forever.
pub enum SourceStep {
    Line(Seq<char>),
    Failure(ErrorKind, Seq<char>),
}

/// The line-source capability: one operation, "read the next line", which
/// returns a line, an end-of-stream signal (`Ok(None)`), or a read failure.
/// A line is handed over verbatim, any trailing line terminator included;
/// tokenization treats the line feed as a separator, so either convention
/// reads the same.
///
/// `pending()` models the steps the source still has to produce.  The
/// contract makes end-of-stream absorbing: a source that reports `Ok(None)`
/// had nothing pending and still has nothing pending, so it can never flap
/// back to producing data.  A failing read either consumes its step or
/// leaves the source as it was — the latter for a source that fails the
/// same way on every read.
pub trait InputReader: Sized {
    spec fn pending(&self) -> Seq<SourceStep>;

    fn read_input(&mut self) -> (r: Result<Option<String>, Error>)
        ensures
            match r {
                Ok(Some(line)) => {
                    &&& old(self).pending().len() > 0
                    &&& old(self).pending()[0] == SourceStep::Line(line@)
                    &&& final(self).pending() == old(self).pending().drop_first()
                },
                Ok(None) => {
                    &&& old(self).pending().len() == 0
                    &&& final(self).pending() == old(self).pending()
                },
                Err(e) => {
                    &&& old(self).pending().len() > 0
                    &&& old(self).pending()[0] matches SourceStep::Failure(kind, message)
                        && e.kind == kind && e.message@ == message
                    &&& (final(self).pending() == old(self).pending().drop_first()
                        || final(self).pending() == old(self).pending())
                },
            },
    ;
}

/// One prearranged read of a `MemoryInputReader`.
pub enum ReadStep {
    Line(String),
    Failure(ErrorKind, String),
}

pub open spec fn step_view(s: ReadStep) -> SourceStep {
    match s {
        ReadStep::Line(text) => SourceStep::Line(text@),
        ReadStep::Failure(kind, message) => SourceStep::Failure(kind, message@),
    }
}

/// A line source over steps held in memory: each read produces the next
/// step; when none remain it signals end-of-stream forever.
pub struct MemoryInputReader {
    steps: Vec<ReadStep>,
}

impl MemoryInputReader {
    pub fn new(steps: Vec<ReadStep>) -> (r: MemoryInputReader)
        ensures
            r.pending() == steps@.map_values(|s: ReadStep| step_view(s)),
    {
        MemoryInputReader { steps }
    }
}

impl InputReader for MemoryInputReader {
    closed spec fn pending(&self) -> Seq<SourceStep> {
        self.steps@.map_values(|s: ReadStep| step_view(s))
    }

    fn read_input(&mut self) -> (r: Result<Option<String>, Error>) {
        if self.steps.len() == 0 {
            Ok(None)
        } else {
            let step = self.steps.remove(0);
            proof {
                assert(self.steps@.map_values(|s: ReadStep| step_view(s))
                    =~= old(self).steps@.map_values(|s: ReadStep| step_view(s)).drop_first());
            }
            match step {
                ReadStep::Line(text) => Ok(Some(text)),
                ReadStep::Failure(kind, message) => Err(Error { kind, message }),
            }
        }
    }
}

/// The interactive console source: a named capability whose implementation
/// does not exist yet.  Every read fails explicitly with an "unsupported"
/// configuration error instead of aborting or hanging, so its absence is
/// observable and the Session and driver contracts need not change when it
/// arrives.
pub struct ConsoleInputReader;

impl InputReader for ConsoleInputReader {
    open spec fn pending(&self) -> Seq<SourceStep> {
        seq![SourceStep::Failure(ErrorKind::Config, "interactive input is not supported"@)]
    }

    fn read_input(&mut self) -> (r: Result<Option<String>, Error>) {
        Err(
            Error {
                kind: ErrorKind::Config,
                message: "interactive input is not supported".to_owned(),
            },
        )
    }
}

} // verus!
