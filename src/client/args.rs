//! The client's command-line arguments.
use vstd::prelude::*;

verus! {

/// The username the client asks to be admitted under.
#[derive(Clone, Debug, PartialEq)]
pub struct ClientArgs {
    pub username: String,
}

impl ClientArgs {
    pub fn new(username: String) -> (r: ClientArgs)
        ensures
            r.username == username,
    {
        ClientArgs { username }
    }

    /// Takes the first argument as the username; the others are ignored.
    pub fn parse(args: Vec<String>) -> (r: Result<ClientArgs, String>)
        ensures
            match r {
                Ok(a) => args@.len() > 0 && a.username == args@[0],
                Err(m) => args@.len() == 0 && m@ == "No username was provided"@,
            },
    {
        if args.len() == 0 {
            return Err("No username was provided".to_owned());
        }
        let mut args = args;
        let username = args.remove(0);
        Ok(ClientArgs::new(username))
    }
}

} // verus!
