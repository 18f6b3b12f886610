use vstd::prelude::*;
use vstd::string::StringExecFns;

verus! {

/// A subprocess invocation being composed: the program and its ordered
/// arguments. The crate only builds these; spawning the process is the
/// caller's side of the boundary.
#[derive(Clone, Debug)]
pub struct CommandLine {
    pub program: String,
    pub args: Vec<String>,
}

/// Mathematical image of [`CommandLine`].
pub struct CommandLineView {
    pub program: Seq<char>,
    pub args: Seq<Seq<char>>,
}

impl View for CommandLine {
    type V = CommandLineView;

    open spec fn view(&self) -> CommandLineView {
        CommandLineView { program: self.program@, args: self.args.deep_view() }
    }
}

impl CommandLine {
    /// Appends one argument.
    pub fn arg(&mut self, s: &str)
        ensures
            final(self)@.program == old(self)@.program,
            final(self)@.args == old(self)@.args.push(s@),
    {
        self.args.push(String::from_str(s));
        proof {
            assert(self@.args =~= old(self)@.args.push(s@));
        }
    }
}

/// The name of the fixed external executable every built command targets.
pub open spec fn tool_program() -> Seq<char> {
    "solana"@
}

/// A fresh command pointing at the network tool's CLI, with no arguments
/// yet.
pub fn new_solana_cmd() -> (r: CommandLine)
    ensures
        r@.program == tool_program(),
        r@.args == Seq::<Seq<char>>::empty(),
{
    let r = CommandLine { program: String::from_str("solana"), args: Vec::new() };
    proof {
        assert(r@.args =~= Seq::<Seq<char>>::empty());
    }
    r
}

} // verus!
