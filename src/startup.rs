//! Which side to start, from the command line.
use vstd::prelude::*;

use crate::client::args::ClientArgs;
use crate::server::args::{server_args_parsed, ServerArgs};

verus! {

/// The side to start, with its arguments.
#[derive(Clone, Debug, PartialEq)]
pub enum Mode {
    Client(ClientArgs),
    Server(ServerArgs),
}

/// The message given when the number of arguments names no side.
pub open spec fn spec_usage() -> Seq<char> {
    "Invalid amount of arguments provided\nUsage:\nrusty_chat <username>: Start client\nrusty_chat <address> <port> <announcement interval>: Start server"@
}

/// One argument starts a client under that username; three start a server on an
/// address and port, with an announce interval, or give the server arguments' own
/// report of what is malformed; any other count is refused.
pub fn select_mode(args: Vec<String>) -> (r: Result<Mode, String>)
    ensures
        args@.len() == 1 ==> (r matches Ok(Mode::Client(a)) && a.username == args@[0]),
        args@.len() == 3 ==> match r {
            Ok(Mode::Server(a)) => server_args_parsed(args@, Ok(a)),
            Ok(Mode::Client(_)) => false,
            Err(m) => server_args_parsed(args@, Err(m)),
        },
        args@.len() != 1 && args@.len() != 3 ==> (r matches Err(m) && m@ == spec_usage()),
{
    if args.len() == 1 {
        match ClientArgs::parse(args) {
            Ok(a) => Ok(Mode::Client(a)),
            Err(m) => Err(m),
        }
    } else if args.len() == 3 {
        match ServerArgs::parse(args) {
            Ok(a) => Ok(Mode::Server(a)),
            Err(m) => Err(m),
        }
    } else {
        Err("Invalid amount of arguments provided\nUsage:\nrusty_chat <username>: Start client\nrusty_chat <address> <port> <announcement interval>: Start server".to_owned())
    }
}

} // verus!
