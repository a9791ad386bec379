//! The command line: one argument, the mode to run in.

use vstd::prelude::*;
use vstd::string::StringExecFns;

verus! {

/// What the process can run as.
#[derive(Clone, Copy, Debug, PartialEq, Eq, Structural)]
pub enum Mode {
    /// Serve mid-prices over HTTP.
    Rest,
    /// Follow the depth stream.
    Ws,
}

/// What the command line asks for.
#[derive(Debug, PartialEq, Eq)]
pub enum Launch {
    /// No mode was given: say how the program is used, and start nothing.
    Usage,
    /// The mode given is none: say so, and start nothing.
    Unknown(String),
    /// Run in this mode.
    Run(Mode),
}

/// What a command line asks for, its texts as sequences.
pub enum Request {
    Usage,
    Unknown(Seq<char>),
    Run(Mode),
}

impl View for Launch {
    type V = Request;

    open spec fn view(&self) -> Request {
        match self {
            Launch::Usage => Request::Usage,
            Launch::Unknown(mode) => Request::Unknown(mode@),
            Launch::Run(mode) => Request::Run(*mode),
        }
    }
}

/// What the arguments ask for, the program's name being the first of them:
/// the mode is the second argument, `rest` or `ws`; further arguments are
/// not looked at.
pub open spec fn request_of(args: Seq<String>) -> Request {
    if args.len() < 2 {
        Request::Usage
    } else if args[1]@ == "rest"@ {
        Request::Run(Mode::Rest)
    } else if args[1]@ == "ws"@ {
        Request::Run(Mode::Ws)
    } else {
        Request::Unknown(args[1]@)
    }
}

/// What the arguments ask for.
pub fn select_mode(args: &Vec<String>) -> (launch: Launch)
    ensures
        launch@ == request_of(args@),
{
    if args.len() < 2 {
        Launch::Usage
    } else if args[1] == String::from_str("rest") {
        Launch::Run(Mode::Rest)
    } else if args[1] == String::from_str("ws") {
        Launch::Run(Mode::Ws)
    } else {
        Launch::Unknown(args[1].clone())
    }
}

} // verus!
