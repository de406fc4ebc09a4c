//! IP addresses as plain integers, the arguments that may name one, and the
//! network an iteration over a whole database starts from.

use vstd::prelude::*;
use crate::error::{argument_type_error, argument_type_text, error_is, network_failure_error,
    network_failure_text, ErrorKind, ReaderError};
use crate::text::same_text;

verus! {

/// An IP address by its numeric value (`u32::from(Ipv4Addr)`,
/// `u128::from(Ipv6Addr)`).
#[derive(PartialEq, Eq, Structural, Clone, Copy, Debug)]
pub enum IpAddress {
    V4(u32),
    V6(u128),
}

/// How an address argument gives its text.
#[derive(PartialEq, Eq, Structural, Clone, Copy, Debug)]
pub enum ArgumentKind {
    /// The argument is a `str`.
    Text,
    /// The argument is an `ipaddress.IPv4Address` or `IPv6Address`; its
    /// `str()` is the address.
    AddressObject,
}

/// The kind of an address argument from whether it is a string and the name
/// of its type; any other argument is a `TypeError`.
pub open spec fn argument_kind_of(is_text: bool, class_name: Seq<char>) -> Option<ArgumentKind> {
    if is_text {
        Some(ArgumentKind::Text)
    } else if class_name == "IPv4Address"@ || class_name == "IPv6Address"@ {
        Some(ArgumentKind::AddressObject)
    } else {
        None
    }
}

/// Decides how to read an address argument.
pub fn argument_kind(is_text: bool, class_name: &str) -> (r: Result<ArgumentKind, ReaderError>)
    ensures
        argument_kind_of(is_text, class_name@) matches Some(k) ==> r == Ok::<
            ArgumentKind,
            ReaderError,
        >(k),
        argument_kind_of(is_text, class_name@) is None ==> (r matches Err(e) && error_is(
            e,
            ErrorKind::TypeError,
            argument_type_text(),
        )),
{
    if is_text {
        Ok(ArgumentKind::Text)
    } else if same_text(class_name, "IPv4Address") || same_text(class_name, "IPv6Address") {
        Ok(ArgumentKind::AddressObject)
    } else {
        Err(argument_type_error())
    }
}

/// An IP network of the `ipnetwork` crate.
#[verifier::external_type_specification]
#[verifier::external_body]
pub struct ExIpNetwork(ipnetwork::IpNetwork);

/// What `ipnetwork::IpNetwork::from_str` gives for a text: the network, or
/// the text (`Display`) of its error.
pub uninterp spec fn parsed_network(text: Seq<char>) -> Result<ipnetwork::IpNetwork, Seq<char>>;

/// Parses a network in CIDR notation with `ipnetwork::IpNetwork::from_str`;
/// an error is handed back as its `Display` text. The whole IPv4 space
/// `0.0.0.0/0` and the whole IPv6 space `::/0` parse.
#[verifier::external_body]
fn parse_network(text: &str) -> (r: Result<ipnetwork::IpNetwork, String>)
    ensures
        text@ == "0.0.0.0/0"@ || text@ == "::/0"@ ==> r is Ok,
        match r {
            Ok(n) => parsed_network(text@) == Ok::<ipnetwork::IpNetwork, Seq<char>>(n),
            Err(m) => parsed_network(text@) == Err::<ipnetwork::IpNetwork, Seq<char>>(m@),
        },
{
    match <ipnetwork::IpNetwork as std::str::FromStr>::from_str(text) {
        Ok(network) => Ok(network),
        Err(error) => Err(error.to_string()),
    }
}

/// The network that holds every address of a database: all of IPv4 for an
/// IPv4 database, all of IPv6 otherwise (IPv4 addresses then appear as
/// IPv4-mapped IPv6 ones).
pub open spec fn root_text(ip_version: u16) -> Seq<char> {
    if ip_version == 4 {
        "0.0.0.0/0"@
    } else {
        "::/0"@
    }
}

/// The family name used in messages about the root network.
pub open spec fn family_text(ip_version: u16) -> Seq<char> {
    if ip_version == 4 {
        "IPv4"@
    } else {
        "IPv6"@
    }
}

/// The family name used in messages about iterating a database.
pub fn family_name(ip_version: u16) -> (r: &'static str)
    ensures
        r@ == family_text(ip_version),
{
    if ip_version == 4 {
        "IPv4"
    } else {
        "IPv6"
    }
}

/// Builds the network an iteration over a database of the given IP version
/// starts from; this always succeeds (a failure would be an
/// `InvalidDatabaseError`).
pub fn iteration_root(ip_version: u16) -> (r: Result<ipnetwork::IpNetwork, ReaderError>)
    ensures
        r is Ok,
        match parsed_network(root_text(ip_version)) {
            Ok(n) => r == Ok::<ipnetwork::IpNetwork, ReaderError>(n),
            Err(m) => r matches Err(e) && error_is(
                e,
                ErrorKind::InvalidDatabase,
                network_failure_text(family_text(ip_version), m),
            ),
        },
{
    let text = if ip_version == 4 {
        "0.0.0.0/0"
    } else {
        "::/0"
    };
    match parse_network(text) {
        Ok(n) => Ok(n),
        Err(m) => Err(network_failure_error(family_name(ip_version), m.as_str())),
    }
}

} // verus!
