use crate::errors::{Error, ErrorKind};
use crate::executor::{command_of_tokens, Command};
use crate::source::{InputReader, SourceStep};
use crate::tokenizer::{tokenize, Parser};
use vstd::prelude::*;

verus! {

/// The session: sole owner of the single active line source for the
/// process's run.  Nothing else ever touches the source, and it is released
/// when the session goes out of scope.
pub struct Session<R: InputReader> {
    pub reader: R,
}

impl<R: InputReader> Session<R> {
    pub fn new(reader: R) -> (s: Session<R>)
        ensures
            s.reader == reader,
    {
        Session { reader }
    }
}

/// How the driver loop ends: cleanly at end of input, or on a fatal read
/// failure.
#[derive(Clone, Copy, PartialEq, Eq, Structural, Debug)]
pub enum Termination {
    Clean,
    Failed,
}

/// The driver-loop state: reading lines, or terminated.  Terminal states
/// are absorbing; the loop performs no further reads once terminated.
#[derive(Clone, Copy, PartialEq, Eq, Structural, Debug)]
pub enum LoopState {
    Reading,
    Terminated(Termination),
}

/// What one driver cycle decided: a command to execute before the next
/// read, a blank line to skip, or the end of the input.
pub enum CycleOutcome {
    Execute(Command),
    Blank,
    EndOfInput,
}

/// The contract of one driver cycle, over the source model: how the
/// source's pending steps before (`pre`) and after (`post`) the cycle
/// relate to the cycle's result.
pub open spec fn cycle_post(
    pre: Seq<SourceStep>,
    post: Seq<SourceStep>,
    r: Result<CycleOutcome, Error>,
) -> bool {
    match r {
        Ok(CycleOutcome::EndOfInput) => pre.len() == 0 && post == pre,
        Ok(CycleOutcome::Execute(c)) => {
            &&& pre.len() > 0
            &&& pre[0] matches SourceStep::Line(line) && tokenize(line).len() > 0 && c.program@
                == tokenize(line)[0] && c.args.deep_view() == tokenize(line).drop_first()
            &&& post == pre.drop_first()
        },
        Ok(CycleOutcome::Blank) => {
            &&& pre.len() > 0
            &&& pre[0] matches SourceStep::Line(line) && tokenize(line).len() == 0
            &&& post == pre.drop_first()
        },
        Err(e) => {
            &&& pre.len() > 0
            &&& pre[0] matches SourceStep::Failure(kind, message) && e.kind == kind && e.message@
                == message
            &&& (post == pre.drop_first() || post == pre)
        },
    }
}

/// One cycle of the driver loop: pull the next line from the session's
/// source, tokenize it, and decide what the loop does next.  End of stream
/// and read failures surface here; executing the returned command — and any
/// spawn failure, which never terminates the loop — is the caller's to
/// perform before the next cycle.
pub fn interpret_next_line<R: InputReader>(session: &mut Session<R>, parser: &mut Parser) -> (r:
    Result<CycleOutcome, Error>)
    ensures
        cycle_post(old(session).reader.pending(), final(session).reader.pending(), r),
{
    match session.reader.read_input() {
        Ok(Some(line)) => {
            let words = match parser.parse_words(line) {
                Ok(words) => words,
                Err(e) => return Err(e),
            };
            match command_of_tokens(words) {
                Some(command) => Ok(CycleOutcome::Execute(command)),
                None => Ok(CycleOutcome::Blank),
            }
        },
        Ok(None) => Ok(CycleOutcome::EndOfInput),
        Err(e) => Err(e),
    }
}

/// The driver state machine, applied to one cycle's result: end of input
/// terminates cleanly, a read failure terminates with failure, any handled
/// line returns to reading.  Terminal states absorb every event.
pub open spec fn spec_advance(state: LoopState, r: Result<CycleOutcome, Error>) -> LoopState {
    match state {
        LoopState::Terminated(_) => state,
        LoopState::Reading => match r {
            Ok(CycleOutcome::EndOfInput) => LoopState::Terminated(Termination::Clean),
            Ok(_) => LoopState::Reading,
            Err(_) => LoopState::Terminated(Termination::Failed),
        },
    }
}

pub fn advance(state: LoopState, r: &Result<CycleOutcome, Error>) -> (next: LoopState)
    ensures
        next == spec_advance(state, *r),
{
    match state {
        LoopState::Terminated(_) => state,
        LoopState::Reading => match r {
            Ok(CycleOutcome::EndOfInput) => LoopState::Terminated(Termination::Clean),
            Ok(_) => LoopState::Reading,
            Err(_) => LoopState::Terminated(Termination::Failed),
        },
    }
}

/// The process exit code: 0 for a clean end of input, 1 for any fatal
/// condition.
pub fn exit_code(t: Termination) -> (code: i32)
    ensures
        t is Clean <==> code == 0,
        t is Failed <==> code == 1,
{
    match t {
        Termination::Clean => 0,
        Termination::Failed => 1,
    }
}

/// An exhausted source ends the run on the first cycle: the cycle reports
/// end of input, no command is produced, the source stays exhausted, and
/// the driver terminates cleanly.
pub proof fn lemma_empty_source_terminates_clean(
    pre: Seq<SourceStep>,
    post: Seq<SourceStep>,
    r: Result<CycleOutcome, Error>,
)
    requires
        pre.len() == 0,
        cycle_post(pre, post, r),
    ensures
        r matches Ok(outcome) && outcome is EndOfInput,
        post.len() == 0,
        spec_advance(LoopState::Reading, r) == LoopState::Terminated(Termination::Clean),
{
}

/// A readable line followed by a failing read terminates the run with
/// failure on the second cycle, carrying the read error's kind and
/// description; the first cycle cannot have failed.
pub proof fn lemma_read_failure_terminates_failed(
    pre: Seq<SourceStep>,
    mid: Seq<SourceStep>,
    post: Seq<SourceStep>,
    r1: Result<CycleOutcome, Error>,
    r2: Result<CycleOutcome, Error>,
    kind: ErrorKind,
    message: Seq<char>,
)
    requires
        pre.len() >= 2,
        pre[0] is Line,
        pre[1] == SourceStep::Failure(kind, message),
        cycle_post(pre, mid, r1),
        cycle_post(mid, post, r2),
    ensures
        r1 is Ok,
        r2 matches Err(e) && e.kind == kind && e.message@ == message,
        spec_advance(spec_advance(LoopState::Reading, r1), r2) == LoopState::Terminated(
            Termination::Failed,
        ),
{
    assert(mid == pre.drop_first());
    assert(mid[0] == pre[1]);
}

/// Executing a command never terminates the loop: the spawn's outcome is
/// not even an input of the state machine, so a spawn failure — reported,
/// then dropped — leaves the driver reading the next line.
pub proof fn lemma_spawn_failure_does_not_terminate(c: Command)
    ensures
        spec_advance(LoopState::Reading, Ok(CycleOutcome::Execute(c))) == LoopState::Reading,
{
}

} // verus!
