//! The endpoints of the platform: a host name and a port.

use crate::error::{io_error, ErrorKind, TransportFault};
use crate::text::{decimal_digits, decimal_text};
use vstd::prelude::*;
use vstd::string::StringExecFns;

verus! {

/// Whether `webpki` takes the text as a syntactically valid DNS name.
pub uninterp spec fn is_dns_name(host: Seq<char>) -> bool;

/// Checks a host name.
///
/// Trusted: calls `webpki::DNSNameRef::try_from_ascii_str` and says whether
/// it accepted the text. The contract names that outcome `is_dns_name`.
#[verifier::external_body]
fn check_dns_name(host: &str) -> (valid: bool)
    ensures
        valid == is_dns_name(host@),
{
    webpki::DNSNameRef::try_from_ascii_str(host).is_ok()
}

/// An endpoint of the platform. Its host is a valid DNS name.
pub struct Endpoint {
    host: String,
    port: usize,
}

/// The address of a host and port: the host, a colon, and the port in
/// decimal notation.
pub open spec fn address_of(host: Seq<char>, port: usize) -> Seq<char> {
    host + seq![':'] + decimal_digits(port as nat)
}

impl Endpoint {
    /// The host of the endpoint.
    pub closed spec fn host_name(&self) -> Seq<char> {
        self.host@
    }

    /// The port of the endpoint.
    pub closed spec fn port_number(&self) -> usize {
        self.port
    }

    #[verifier::type_invariant]
    spec fn valid(self) -> bool {
        is_dns_name(self.host@)
    }

    /// The endpoint of a host and port. A host that is no valid DNS name
    /// cannot be connected to: the result is the transport error
    /// `Disconnected`.
    pub fn new(host: &str, port: usize) -> (endpoint: Result<Endpoint, ErrorKind>)
        ensures
            endpoint is Ok <==> is_dns_name(host@),
            endpoint matches Ok(e) ==> e.host_name() == host@ && e.port_number() == port,
            endpoint matches Err(e) ==> e matches ErrorKind::Disconnected(_),
    {
        if check_dns_name(host) {
            Ok(Endpoint { host: host.to_owned(), port })
        } else {
            Err(ErrorKind::Disconnected(io_error(TransportFault::InvalidHost)))
        }
    }

    /// The host of the endpoint, a valid DNS name.
    pub fn host(&self) -> (host: &str)
        ensures
            host@ == self.host_name(),
            is_dns_name(host@),
    {
        proof {
            use_type_invariant(self);
        }
        self.host.as_str()
    }

    /// The port of the endpoint.
    pub fn port(&self) -> (port: usize)
        ensures
            port == self.port_number(),
    {
        self.port
    }

    /// The address to connect to.
    pub fn address(&self) -> (address: String)
        ensures
            address@ == address_of(self.host_name(), self.port_number()),
    {
        proof {
            reveal_strlit(":");
        }
        let mut address = self.host.clone();
        address.append(":");
        let port = decimal_text(self.port as u64);
        address.append(port.as_str());
        assert(address@ =~= address_of(self.host_name(), self.port_number()));
        address
    }
}

} // verus!
