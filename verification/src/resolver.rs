//! Which server is asked for addresses, and what is made of its answers.
//!
//! Lookups go to one pinned upstream server over UDP, never to the host's
//! own resolver, whose cache would hide the drift that is looked for. The
//! host's resolver is asked once, at startup, where that server is.

use crate::address::Ipv4Address;
use vstd::prelude::*;

verus! {

/// The host whose address is the pinned upstream server.
pub const BOOTSTRAP_HOSTNAME: &'static str = "resolver1.opendns.com";

/// The host that the pinned server resolves to the asker's own public address.
pub const MACHINE_IP_HOSTNAME: &'static str = "myip.opendns.com";

/// The port on which the pinned server is asked.
pub const DNS_PORT: u16 = 53;

/// The pinned server's address where the host's resolver knows none.
pub open spec fn default_upstream_ip() -> Ipv4Address {
    Ipv4Address { a: 208, b: 67, c: 222, d: 222 }
}

/// The server that lookups are sent to, over UDP.
#[derive(Clone, Copy, Debug, PartialEq, Eq, Structural)]
pub struct Upstream {
    pub address: Ipv4Address,
    pub port: u16,
}

/// Why the machine's public address could not be had.
#[derive(Clone, Debug, PartialEq, Eq)]
pub enum ResolutionError {
    /// The lookup failed; the resolver's own words.
    LookupFailed(String),
    /// The lookup was answered without any address.
    NoAddress,
}

/// The pinned server, going by the addresses that the host's resolver gave
/// for [`BOOTSTRAP_HOSTNAME`]: the first of them, or the default where there
/// is none, on [`DNS_PORT`].
pub open spec fn upstream_of(answers: Seq<Ipv4Address>) -> Upstream {
    Upstream {
        address: if answers.len() > 0 {
            answers[0]
        } else {
            default_upstream_ip()
        },
        port: DNS_PORT,
    }
}

/// The machine's public address, going by the outcome of the lookup of
/// [`MACHINE_IP_HOSTNAME`]: the first address of the answer. A failed lookup
/// and an answer without addresses are errors.
pub open spec fn machine_ip_of(lookup: Result<Vec<Ipv4Address>, String>) -> Result<
    Ipv4Address,
    ResolutionError,
> {
    match lookup {
        Err(message) => Err(ResolutionError::LookupFailed(message)),
        Ok(answers) => if answers@.len() > 0 {
            Ok(answers@[0])
        } else {
            Err(ResolutionError::NoAddress)
        },
    }
}

impl ResolutionError {
    /// What the error says, as a sequence of characters.
    pub open spec fn spec_message(self) -> Seq<char> {
        match self {
            ResolutionError::LookupFailed(message) => message@,
            ResolutionError::NoAddress => "Failed to extract machine's IP address"@,
        }
    }

    /// What the error says.
    pub fn message(&self) -> (text: String)
        ensures
            text@ == self.spec_message(),
    {
        match self {
            ResolutionError::LookupFailed(message) => message.clone(),
            ResolutionError::NoAddress => "Failed to extract machine's IP address".to_owned(),
        }
    }
}

/// The address of the pinned server where the host's resolver knows none:
/// `208.67.222.222`.
pub fn default_upstream() -> (addr: Ipv4Address)
    ensures
        addr == default_upstream_ip(),
{
    Ipv4Address::new(208, 67, 222, 222)
}

/// Picks the pinned server from the addresses that the host's resolver gave
/// for [`BOOTSTRAP_HOSTNAME`].
pub fn pinned_upstream(answers: &Vec<Ipv4Address>) -> (upstream: Upstream)
    ensures
        upstream == upstream_of(answers@),
{
    let address = if answers.len() > 0 {
        answers[0]
    } else {
        default_upstream()
    };
    Upstream { address, port: DNS_PORT }
}

/// Reads the machine's public address off the outcome of the lookup of
/// [`MACHINE_IP_HOSTNAME`]: the addresses of the answer, or the words in
/// which the lookup failed.
pub fn machine_ip(lookup: Result<Vec<Ipv4Address>, String>) -> (ip: Result<
    Ipv4Address,
    ResolutionError,
>)
    ensures
        ip == machine_ip_of(lookup),
{
    match lookup {
        Err(message) => Err(ResolutionError::LookupFailed(message)),
        Ok(answers) => if answers.len() > 0 {
            Ok(answers[0])
        } else {
            Err(ResolutionError::NoAddress)
        },
    }
}

} // verus!
