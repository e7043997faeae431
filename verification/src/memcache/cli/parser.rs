//! Values of the server's command line: the kind of runtime, the port and
//! the memory limit.

use crate::memcache::decimal::{decimal_value, parse_decimal};
use byte_unit::Byte;
use vstd::prelude::*;
use vstd::string::{StringExecFns, StringSliceAdditionalSpecFns};

verus! {

/// TCP port that the server listens on unless told otherwise.
pub const DEFAULT_PORT: u16 = 11211;

/// Address that the server listens on unless told otherwise.
pub const DEFAULT_ADDRESS: &'static str = "127.0.0.1";

/// Greatest number of simultaneous connections unless told otherwise.
pub const CONNECTION_LIMIT: u32 = 1024;

/// Length of the queue of pending connections unless told otherwise.
pub const LISTEN_BACKLOG: u32 = 1024;

/// Memory limit unless told otherwise.
pub const MEMORY_LIMIT: &'static str = "64MiB";

/// Greatest size of an item unless told otherwise.
pub const MAX_ITEM_SIZE: &'static str = "1MiB";

/// Smallest port that can be listened on.
pub const PORT_MIN: u64 = 1;

/// Greatest port there is.
pub const PORT_MAX: u64 = 65535;

/// How the server schedules its work.
#[derive(Copy, Clone, PartialEq, Eq, PartialOrd, Ord, Debug)]
pub enum RuntimeType {
    /// Work is handled within the current thread.
    CurrentThread,
    /// Work is spread over a work-stealing pool of threads.
    MultiThread,
}

impl RuntimeType {
    /// A description of the runtime for the user.
    pub fn as_str(&self) -> (text: &'static str)
        ensures
            text@ == (match self {
                RuntimeType::CurrentThread => "Work handled withing current thread runtime"@,
                RuntimeType::MultiThread => "Work stealing threadpool runtime"@,
            }),
    {
        match self {
            RuntimeType::CurrentThread => "Work handled withing current thread runtime",
            RuntimeType::MultiThread => "Work stealing threadpool runtime",
        }
    }
}

/// What the user is told about a text that is no number.
pub open spec fn not_a_port(text: Seq<char>) -> Seq<char> {
    "`"@ + text + "` isn't a port number"@
}

/// The port that `s` names: a decimal number that the machine's word can
/// hold and that lies between `PORT_MIN` and `PORT_MAX`. Any other text is
/// answered with a message for the user.
pub fn port_in_range(s: &str) -> (port: Result<u16, String>)
    ensures
        match decimal_value(s.spec_bytes(), usize::MAX as u64) {
            Some(number) => if PORT_MIN <= number <= PORT_MAX {
                port == Ok::<u16, String>(number as u16)
            } else {
                port is Err && port->Err_0@ == "port not in range 1-65535"@
            },
            None => port is Err && port->Err_0@ == not_a_port(s@),
        },
{
    match parse_decimal(s.as_bytes(), usize::MAX as u64) {
        Some(number) => {
            if PORT_MIN <= number && number <= PORT_MAX {
                Ok(number as u16)
            } else {
                Err(String::from_str("port not in range 1-65535"))
            }
        },
        None => {
            let mut message = String::from_str("`");
            message.append(s);
            message.append("` isn't a port number");
            Err(message)
        },
    }
}

/// What `byte_unit::Byte::from_str` makes of a text: the number of bytes it
/// denotes, or the message of the error that it reports.
pub uninterp spec fn byte_count_of(text: Seq<char>) -> Result<u128, Seq<char>>;

/// A byte count or message, with the message as a sequence of characters.
pub open spec fn count_view(count: Result<u128, String>) -> Result<u128, Seq<char>> {
    match count {
        Ok(bytes) => Ok(bytes),
        Err(message) => Err(message@),
    }
}

/// A memory limit or message, with the message as a sequence of characters.
pub open spec fn limit_view(limit: Result<u64, String>) -> Result<u64, Seq<char>> {
    match limit {
        Ok(bytes) => Ok(bytes),
        Err(message) => Err(message@),
    }
}

/// `byte_unit::Byte::from_str` on `s`. A success is handed on as the number
/// of bytes (`Byte::get_bytes`), a failure as the text that the error
/// displays. The outcome depends on the text alone.
#[verifier::external_body]
fn read_byte_count(s: &str) -> (count: Result<u128, String>)
    ensures
        count_view(count) == byte_count_of(s@),
{
    match Byte::from_str(s) {
        Ok(bytes) => Ok(bytes.get_bytes()),
        Err(error) => Err(format!("{}", error)),
    }
}

/// Whether a byte count can serve as a memory limit: it fits in 64 bits. A
/// message always can, as it is handed on.
pub open spec fn fits_limit(count: Result<u128, Seq<char>>) -> bool {
    count matches Ok(bytes) ==> bytes <= u64::MAX
}

/// The memory limit that a byte count stands for.
pub open spec fn limit_of(count: Result<u128, Seq<char>>) -> Result<u64, Seq<char>> {
    match count {
        Ok(bytes) => Ok(bytes as u64),
        Err(message) => Err(message),
    }
}

/// The memory limit for a byte count that fits in 64 bits; a message is
/// handed on unchanged.
pub fn memory_limit(count: Result<u128, String>) -> (limit: Result<u64, String>)
    requires
        fits_limit(count_view(count)),
    ensures
        limit_view(limit) == limit_of(count_view(count)),
{
    match count {
        Ok(bytes) => Ok(bytes as u64),
        Err(message) => Err(message),
    }
}

/// The memory limit that `s` names, such as `64MiB`, or the message for the
/// user where `s` names none. There is no answer where `s` names more
/// bytes than 64 bits can count.
pub fn parse_memory_mb(s: &str) -> (limit: Option<Result<u64, String>>)
    ensures
        limit is Some <==> fits_limit(byte_count_of(s@)),
        limit is Some ==> limit_view(limit->0) == limit_of(byte_count_of(s@)),
{
    let count = read_byte_count(s);
    let fits = match &count {
        Ok(bytes) => *bytes <= u64::MAX as u128,
        Err(_) => true,
    };
    if fits {
        Some(memory_limit(count))
    } else {
        None
    }
}

} // verus!
