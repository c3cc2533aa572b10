//! Decisions behind the Windows network-interface helpers: address families,
//! status codes, the native socket-address image, interface arrival and
//! address readiness.

use vstd::prelude::*;

pub mod dad;
pub mod interface;
pub mod notifier;
pub mod sockaddr;

pub use crate::windows::dad::{wait_for_addresses, DadStateError};
pub use crate::windows::interface::wait_for_interfaces;
pub use crate::windows::notifier::{notify_ip_interface_change, IpNotifierHandle};
pub use crate::windows::sockaddr::{
    in6addr_from_ipaddr, inaddr_from_ipaddr, inet_sockaddr_from_socketaddr, ipaddr_from_in6addr,
    ipaddr_from_inaddr, try_socketaddr_from_inet_sockaddr,
};

verus! {

/// The address family tag that stands for "any family".
pub const AF_UNSPEC: u16 = 0;

/// The address family tag of IPv4.
pub const AF_INET: u16 = 2;

/// The address family tag of IPv6.
pub const AF_INET6: u16 = 23;

/// The status with which an operating-system call reports success.
pub const NO_ERROR: u32 = 0;

/// The status with which a lookup reports that the element does not exist.
pub const ERROR_NOT_FOUND: u32 = 1168;

/// An error reported by the operating system, held as its raw error code.
#[derive(Clone, Copy, Debug, PartialEq, Eq, Structural)]
pub struct OsError {
    pub code: i32,
}

/// The locally unique identifier of a network interface.
#[derive(Clone, Copy, Debug, PartialEq, Eq, Structural)]
pub struct NetLuid {
    pub value: u64,
}

/// Errors returned by the functions of this module.
#[derive(Clone, Copy, Debug, PartialEq, Eq, Structural)]
pub enum Error {
    /// The interface alias could not be resolved to an identifier.
    NoDeviceLuid(OsError),
    /// The unicast address table, or one of its entries, could not be read.
    ObtainUnicastAddress(OsError),
    /// The unicast address table holds no address of the interface.
    NoUnicastAddress,
    /// A unicast address is in a state from which it never becomes usable.
    DadStateError(DadStateError),
    /// The addresses did not become usable before the deadline.
    DeviceReadyTimeout,
    /// The worker that checks the addresses went away without a result.
    UnicastSenderDropped,
    /// An address family tag that is neither IPv4 nor IPv6.
    UnknownAddressFamily(i32),
}

/// Address family. The two variants correspond to `AF_INET` and `AF_INET6`.
#[derive(Clone, Copy, Debug, PartialEq, Eq, Structural)]
pub enum AddressFamily {
    /// IPv4 address family
    Ipv4,
    /// IPv6 address family
    Ipv6,
}

/// The raw error code that a status stands for: the same 32 bits, read as a
/// signed number.
pub open spec fn status_code(status: u32) -> int {
    if status <= i32::MAX {
        status as int
    } else {
        status - 0x1_0000_0000
    }
}

/// What a status means: success, or the error with its code.
pub open spec fn status_result(status: u32) -> Result<(), OsError> {
    if status == NO_ERROR {
        Ok(())
    } else {
        Err(OsError { code: status_code(status) as i32 })
    }
}

/// The tag under which a family filter is handed to the operating system.
pub open spec fn family_filter_tag(family: Option<AddressFamily>) -> u16 {
    match family {
        Some(family) => family.tag(),
        None => AF_UNSPEC,
    }
}

impl OsError {
    /// The error with the given raw code.
    pub fn from_raw_os_error(code: i32) -> (error: OsError)
        ensures
            error.code == code,
    {
        OsError { code }
    }

    /// The raw code of this error.
    pub fn raw_os_error(&self) -> (code: i32)
        ensures
            code == self.code,
    {
        self.code
    }

    /// The error that a status other than success stands for.
    pub fn from_status(status: u32) -> (error: OsError)
        ensures
            error.code == status_code(status),
    {
        if status <= 0x7fff_ffff {
            OsError { code: status as i32 }
        } else {
            let low: u32 = status - 0x8000_0000;
            OsError { code: low as i32 + i32::MIN }
        }
    }
}

impl NetLuid {
    /// The identifier with the given value.
    pub fn new(value: u64) -> (luid: NetLuid)
        ensures
            luid.value == value,
    {
        NetLuid { value }
    }
}

impl AddressFamily {
    /// The `AF_*` constant of this family.
    pub open spec fn tag(self) -> u16 {
        match self {
            AddressFamily::Ipv4 => AF_INET,
            AddressFamily::Ipv6 => AF_INET6,
        }
    }

    /// The family that a tag names, if it names one.
    pub open spec fn of_tag(tag: u16) -> Option<AddressFamily> {
        if tag == AF_INET {
            Some(AddressFamily::Ipv4)
        } else if tag == AF_INET6 {
            Some(AddressFamily::Ipv6)
        } else {
            None
        }
    }

    /// Convert an [`AddressFamily`] to one of the `AF_*` constants.
    pub fn to_af_family(self) -> (tag: u16)
        ensures
            tag == self.tag(),
    {
        match self {
            AddressFamily::Ipv4 => AF_INET,
            AddressFamily::Ipv6 => AF_INET6,
        }
    }

    /// Convert one of the `AF_*` constants to an [`AddressFamily`]. Any tag
    /// but those of IPv4 and IPv6 is refused, and the error carries it.
    pub fn try_from_af_family(family: u16) -> (result: Result<AddressFamily, Error>)
        ensures
            result == match AddressFamily::of_tag(family) {
                Some(known) => Ok::<AddressFamily, Error>(known),
                None => Err(Error::UnknownAddressFamily(family as i32)),
            },
    {
        if family == AF_INET {
            Ok(AddressFamily::Ipv4)
        } else if family == AF_INET6 {
            Ok(AddressFamily::Ipv6)
        } else {
            Err(Error::UnknownAddressFamily(family as i32))
        }
    }

    /// The name of the family, as shown to a user.
    pub fn describe(&self) -> (text: &'static str)
        ensures
            text@ == match *self {
                AddressFamily::Ipv4 => "IPv4 (AF_INET)"@,
                AddressFamily::Ipv6 => "IPv6 (AF_INET6)"@,
            },
    {
        match self {
            AddressFamily::Ipv4 => "IPv4 (AF_INET)",
            AddressFamily::Ipv6 => "IPv6 (AF_INET6)",
        }
    }
}

/// The tag under which a family filter is handed to the operating system:
/// the family's own, or `AF_UNSPEC` where every family is asked for.
pub fn af_family_from_family(family: Option<AddressFamily>) -> (tag: u16)
    ensures
        tag == family_filter_tag(family),
{
    match family {
        Some(family) => family.to_af_family(),
        None => AF_UNSPEC,
    }
}

/// The wide string that names an interface to the operating system: the
/// 16-bit units of its alias, closed by a zero unit.
pub fn nul_terminated(alias: Vec<u16>) -> (wide: Vec<u16>)
    ensures
        wide@ == alias@.push(0u16),
{
    let mut wide = alias;
    wide.push(0u16);
    wide
}

/// Reads the status of an operating-system call: `NO_ERROR` is success, every
/// other status is the error with that code.
pub fn os_result(status: u32) -> (result: Result<(), OsError>)
    ensures
        result == status_result(status),
{
    if status == NO_ERROR {
        Ok(())
    } else {
        Err(OsError::from_status(status))
    }
}

/// A tag names a family exactly when it is the tag of that family, and a
/// family's tag always names it.
pub proof fn lemma_family_tag_round_trip(family: AddressFamily, tag: u16)
    ensures
        AddressFamily::of_tag(family.tag()) == Some(family),
        AddressFamily::of_tag(tag) == Some(family) <==> tag == family.tag(),
        AddressFamily::of_tag(tag) is None <==> tag != AF_INET && tag != AF_INET6,
{
}

} // verus!
