use vstd::prelude::*;

verus! {

/// One external command: the program to launch and its arguments.  The
/// child inherits the interpreter's standard input, output and error
/// streams; the launch blocks until the child terminates.
pub struct Command {
    pub program: String,
    pub args: Vec<String>,
}

/// The deciding half of `execute`: an empty token sequence is a no-op —
/// nothing is spawned and no error of any kind arises — and otherwise the
/// first token names the program and the remaining tokens are its arguments,
/// verbatim.
pub fn command_of_tokens(tokens: Vec<String>) -> (r: Option<Command>)
    ensures
        tokens@.len() == 0 <==> r is None,
        r matches Some(c) ==> c.program@ == tokens.deep_view()[0] && c.args.deep_view()
            == tokens.deep_view().drop_first(),
{
    let mut rest = tokens;
    if rest.len() == 0 {
        None
    } else {
        let ghost before = rest.deep_view();
        let program = rest.remove(0);
        proof {
            assert(rest.deep_view() =~= before.drop_first());
        }
        Some(Command { program, args: rest })
    }
}

} // verus!
