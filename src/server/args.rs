//! The server's command-line arguments.
use vstd::prelude::*;

verus! {

/// Where the server listens, and how often it makes announcements, in seconds.
#[derive(Clone, Debug, PartialEq)]
pub struct ServerArgs {
    pub address: String,
    pub port: u16,
    pub announce_interval: u16,
}

/// The value of a non-empty run of decimal digits.
pub open spec fn digits_value(s: Seq<char>) -> int
    decreases s.len(),
{
    if s.len() == 0 {
        0
    } else {
        digits_value(s.drop_last()) * 10 + (s.last() as int - '0' as int)
    }
}

/// Whether the characters are a non-empty run of decimal digits.
pub open spec fn is_digits(s: Seq<char>) -> bool {
    s.len() > 0 && forall|i: int| 0 <= i < s.len() ==> '0' <= #[trigger] s[i] <= '9'
}

/// The number a string denotes as an unsigned 16-bit integer: an optional `+`, then
/// decimal digits whose value fits.
pub open spec fn spec_parse_u16(s: Seq<char>) -> Option<u16> {
    let digits = if s.len() > 0 && s[0] == '+' {
        s.drop_first()
    } else {
        s
    };
    if is_digits(digits) && digits_value(digits) <= u16::MAX {
        Some(digits_value(digits) as u16)
    } else {
        None
    }
}

/// Whether `s` begins with `prefix`.
pub open spec fn starts_with(s: Seq<char>, prefix: Seq<char>) -> bool {
    prefix.len() <= s.len() && s.subrange(0, prefix.len() as int) == prefix
}

/// Relies on `str::parse::<u16>`: it accepts an optional `+` followed by decimal
/// digits whose value fits, and describes anything else in its error's message.
#[verifier::external_body]
fn parse_u16(s: &str) -> (r: Result<u16, String>)
    ensures
        match spec_parse_u16(s@) {
            Some(v) => r == Ok::<u16, String>(v),
            None => r is Err,
        },
{
    match s.parse::<u16>() {
        Ok(v) => Ok(v),
        Err(err) => Err(err.to_string()),
    }
}

/// What reading the server's arguments gives: the address, port and announce interval
/// from the first three, or a report of the first one missing or malformed.
pub open spec fn server_args_parsed(args: Seq<String>, r: Result<ServerArgs, String>) -> bool {
    match r {
        Ok(a) => {
            &&& args.len() >= 3
            &&& a.address@ == args[0]@
            &&& spec_parse_u16(args[1]@) == Some(a.port)
            &&& spec_parse_u16(args[2]@) == Some(a.announce_interval)
        },
        Err(m) => if args.len() == 0 {
            m@ == "No address was provided"@
        } else if args.len() == 1 {
            m@ == "No port was provided"@
        } else if spec_parse_u16(args[1]@) is None {
            starts_with(m@, "Error parsing port to number: "@)
        } else if args.len() == 2 {
            m@ == "No announce interval was provided"@
        } else {
            &&& spec_parse_u16(args[2]@) is None
            &&& starts_with(m@, "Error parsing announce interval to number: "@)
        },
    }
}

/// The report of a malformed argument: what was being read, then the parser's message.
fn malformed(prefix: &str, reason: String) -> (r: String)
    ensures
        starts_with(r@, prefix@),
{
    let message = prefix.to_owned().concat(reason.as_str());
    assert(message@.subrange(0, prefix@.len() as int) =~= prefix@);
    message
}

impl ServerArgs {
    pub fn new(address: String, port: u16, announce_interval: u16) -> (r: ServerArgs)
        ensures
            r.address == address,
            r.port == port,
            r.announce_interval == announce_interval,
    {
        ServerArgs { address, port, announce_interval }
    }

    /// Reads the address, the port and the announce interval, in that order; the
    /// first one missing or malformed is reported, and arguments after the third are
    /// ignored.
    pub fn parse(args: Vec<String>) -> (r: Result<ServerArgs, String>)
        ensures
            server_args_parsed(args@, r),
    {
        if args.len() == 0 {
            return Err("No address was provided".to_owned());
        }
        if args.len() == 1 {
            return Err("No port was provided".to_owned());
        }
        let port = match parse_u16(args[1].as_str()) {
            Ok(port) => port,
            Err(reason) => {
                return Err(malformed("Error parsing port to number: ", reason));
            },
        };
        if args.len() == 2 {
            return Err("No announce interval was provided".to_owned());
        }
        let announce_interval = match parse_u16(args[2].as_str()) {
            Ok(interval) => interval,
            Err(reason) => {
                return Err(malformed("Error parsing announce interval to number: ", reason));
            },
        };
        Ok(ServerArgs::new(args[0].clone(), port, announce_interval))
    }
}

} // verus!
