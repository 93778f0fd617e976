//! Where the channel to the host UI listens.

use vstd::prelude::*;
use vstd::string::*;
use crate::text::{decimal_text, number_between, parse_number, push_decimal};

verus! {

/// The port on which the channel listens where the path names none.
pub const DEFAULT_PORT: u16 = 9876;

/// The path of the socket of the engine with the process id `pid`.
pub open spec fn socket_path_text(pid: u32) -> Seq<char> {
    "/tmp/nameless-core-"@ + decimal_text(pid as nat) + ".sock"@
}

/// The path of the socket of the engine with the process id `pid`.
pub fn generate_socket_path(pid: u32) -> (path: String)
    ensures
        path@ == socket_path_text(pid),
{
    let mut path = "/tmp/nameless-core-".to_owned();
    push_decimal(&mut path, pid as u64);
    path.append(".sock");
    path
}

/// The loopback address of the engine with the process id `pid`, for
/// platforms without sockets in the file system: one of a thousand ports
/// from 9876 on.
pub open spec fn loopback_address_text(pid: u32) -> Seq<char> {
    "127.0.0.1:"@ + decimal_text((9876 + pid % 1000) as nat)
}

/// The loopback address of the engine with the process id `pid`.
pub fn generate_loopback_address(pid: u32) -> (address: String)
    ensures
        address@ == loopback_address_text(pid),
{
    let mut address = "127.0.0.1:".to_owned();
    push_decimal(&mut address, 9876 + (pid % 1000) as u64);
    address
}

/// Where the last hyphen of `text` before `upto` stands; -1 where there is
/// none.
pub open spec fn hyphen_before(text: Seq<char>, upto: int) -> int
    decreases upto,
{
    if upto <= 0 {
        -1
    } else if text[upto - 1] == '-' {
        upto - 1
    } else {
        hyphen_before(text, upto - 1)
    }
}

/// The port that a path names: the number after its last hyphen, and
/// `DEFAULT_PORT` where there is no number there, or none that is a port.
pub open spec fn port_of(path: Seq<char>) -> u16 {
    let from = hyphen_before(path, path.len() as int) + 1;
    match parse_number(path.subrange(from, path.len() as int)) {
        Some(n) => if n <= 0xffff {
            n as u16
        } else {
            DEFAULT_PORT
        },
        None => DEFAULT_PORT,
    }
}

proof fn lemma_hyphen_bounds(text: Seq<char>, upto: int)
    requires
        0 <= upto <= text.len(),
    ensures
        -1 <= hyphen_before(text, upto) < upto,
    decreases upto,
{
    if upto > 0 && text[upto - 1] != '-' {
        lemma_hyphen_bounds(text, upto - 1);
    }
}

/// The port on which the channel listens for the given path, on platforms
/// where it listens on the loopback interface.
pub fn loopback_port(path: &str) -> (port: u16)
    ensures
        port == port_of(path@),
{
    let length: usize = path.unicode_len();
    let mut from: usize = length;
    proof {
        lemma_hyphen_bounds(path@, length as int);
    }
    while from > 0 && path.get_char(from - 1) != '-'
        invariant
            from <= length,
            length == path@.len(),
            hyphen_before(path@, length as int) == hyphen_before(path@, from as int),
        decreases from,
    {
        from = from - 1;
    }
    match number_between(path, length, from, length) {
        Some(n) => {
            if n <= 0xffff {
                n as u16
            } else {
                DEFAULT_PORT
            }
        },
        None => DEFAULT_PORT,
    }
}

} // verus!
