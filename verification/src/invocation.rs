//! The data model of one external command: an executable name, its
//! arguments, an optional environment override, and an optional working
//! directory. The pipeline produces values of this type; the caller
//! executes them.

use vstd::prelude::*;
use vstd::string::StringExecFns;

verus! {

/// One external command to run, described fully by plain strings.
pub struct Invocation {
    /// The executable's name.
    pub program: String,
    /// Its arguments, in order.
    pub args: Vec<String>,
    /// An environment variable set for this command alone, as a
    /// name/value pair; at most one is ever needed.
    pub env: Option<(String, String)>,
    /// The directory to run in, relative to the pipeline's root; `None`
    /// means the root itself.
    pub dir: Option<String>,
}

impl Invocation {
    /// The arguments as a sequence of character sequences.
    pub open spec fn args_view(self) -> Seq<Seq<char>> {
        self.args.deep_view()
    }

    /// The environment override as name/value character sequences.
    pub open spec fn env_view(self) -> Option<(Seq<char>, Seq<char>)> {
        match self.env {
            Some(p) => Some((p.0@, p.1@)),
            None => None,
        }
    }

    /// The working directory as a character sequence, if one is set.
    pub open spec fn dir_view(self) -> Option<Seq<char>> {
        match self.dir {
            Some(d) => Some(d@),
            None => None,
        }
    }
}

/// Appends one argument, given as a string slice, to an argument list.
pub fn push_arg(args: &mut Vec<String>, arg: &str)
    ensures
        final(args).deep_view() == old(args).deep_view().push(arg@),
{
    args.push(String::from_str(arg));
    proof {
        assert(args.deep_view() =~= old(args).deep_view().push(arg@));
    }
}

} // verus!
