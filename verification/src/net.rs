//! The address that the relay is served on: the first IPv4 address that the
//! local host name resolves to.
use vstd::prelude::*;
use vstd::string::*;

verus! {

/// An address that a host name resolved to.
#[derive(Clone, Copy, Debug, PartialEq, Eq)]
pub enum HostAddr {
    /// An IPv4 address, by its four octets.
    V4([u8; 4]),
    /// An IPv6 address, by its sixteen octets.
    V6([u8; 16]),
}

/// Why no local address was found.
#[derive(Clone, Copy, Debug, PartialEq, Eq, Structural)]
pub enum LocalIpError {
    /// The host name is not valid text.
    HostnameNotText,
    /// The host name resolved to no IPv4 address.
    NoIpv4,
}

/// What `HostnameNotText` says.
pub const HOSTNAME_NOT_TEXT: &'static str = "Failed to convert hostname to str";

/// What `NoIpv4` says.
pub const NO_IPV4: &'static str = "No IPv4 address found";

impl LocalIpError {
    /// The error's message.
    pub open spec fn spec_message(&self) -> Seq<char> {
        match *self {
            LocalIpError::HostnameNotText => HOSTNAME_NOT_TEXT@,
            LocalIpError::NoIpv4 => NO_IPV4@,
        }
    }

    /// The error's message.
    pub fn message(&self) -> (text: String)
        ensures
            text@ == self.spec_message(),
    {
        match *self {
            LocalIpError::HostnameNotText => String::from_str(HOSTNAME_NOT_TEXT),
            LocalIpError::NoIpv4 => String::from_str(NO_IPV4),
        }
    }
}

/// The host name to resolve, given the host name as text where it is text.
pub fn hostname_text(hostname: Option<String>) -> (name: Result<String, LocalIpError>)
    ensures
        match hostname {
            Some(text) => name == Ok::<String, LocalIpError>(text),
            None => name == Err::<String, LocalIpError>(LocalIpError::HostnameNotText),
        },
{
    match hostname {
        Some(text) => Ok(text),
        None => Err(LocalIpError::HostnameNotText),
    }
}

/// The octets of the address at `i`, if it is an IPv4 address.
pub open spec fn ipv4_at(resolved: Seq<HostAddr>, i: int) -> Option<[u8; 4]> {
    match resolved[i] {
        HostAddr::V4(octets) => Some(octets),
        HostAddr::V6(_) => None,
    }
}

/// The local address among those that the host name resolved to: the first
/// IPv4 address, in the order of resolution. Without one the search fails
/// with `NoIpv4`.
pub fn get_local_ip(resolved: &Vec<HostAddr>) -> (found: Result<[u8; 4], LocalIpError>)
    ensures
        match found {
            Ok(octets) => exists|i: int|
                0 <= i < resolved@.len() && ipv4_at(resolved@, i) == Some(octets) && forall|j: int|
                    0 <= j < i ==> ipv4_at(resolved@, j) is None,
            Err(e) => e == LocalIpError::NoIpv4 && forall|j: int|
                0 <= j < resolved@.len() ==> ipv4_at(resolved@, j) is None,
        },
{
    let mut i: usize = 0;
    while i < resolved.len()
        invariant
            i <= resolved@.len(),
            forall|j: int| 0 <= j < i ==> ipv4_at(resolved@, j) is None,
        decreases resolved@.len() - i,
    {
        match resolved[i] {
            HostAddr::V4(octets) => {
                assert(ipv4_at(resolved@, i as int) == Some(octets));
                return Ok(octets);
            },
            HostAddr::V6(_) => {},
        }
        i = i + 1;
    }
    Err(LocalIpError::NoIpv4)
}

} // verus!
