use vstd::prelude::*;

use tokio_rustls::rustls::pki_types::ServerName;

use crate::protocol::{agreed_view, check_protocol, h2_token, offer_h2, protocol_accepted};
use crate::protocol::{NegotiationError, ProtocolUse};

verus! {

#[verifier::external_type_specification]
#[verifier::external_body]
pub struct ExServerName<'a>(ServerName<'a>);

/// Whether the text names a server: a DNS name, or else an IP address.
pub uninterp spec fn is_server_name(s: Seq<char>) -> bool;

/// Relies on rustls-pki-types' `TryFrom<String> for ServerName<'static>`: it
/// parses a DNS name or, failing that, an IP address; the outcome depends on
/// the text alone.
#[verifier::external_body]
fn parse_server_name(domain: &str) -> (r: Option<ServerName<'static>>)
    ensures
        r.is_some() == is_server_name(domain@),
{
    ServerName::try_from(domain.to_string()).ok()
}

/// A security configuration that cannot be used.
#[derive(Clone, Copy, Debug, PartialEq, Eq, Structural)]
pub enum ConfigError {
    /// The expected peer identity is neither a DNS name nor an IP address.
    InvalidServerName,
}

/// The client side of the handshake: the protocols it offers (with `h2` among
/// them), the identity it expects of the server, and whether a handshake that
/// negotiated no protocol may still carry HTTP/2.
#[derive(Debug)]
pub struct TlsConnector {
    offers: Vec<Vec<u8>>,
    domain: ServerName<'static>,
    assume_http2: bool,
}

impl TlsConnector {
    pub closed spec fn offered(&self) -> Seq<Seq<u8>> {
        self.offers.deep_view()
    }

    pub closed spec fn spec_server_name(&self) -> ServerName<'static> {
        self.domain
    }

    pub closed spec fn spec_assume_http2(&self) -> bool {
        self.assume_http2
    }

    /// Checks the expected peer identity before any I/O and appends `h2` to
    /// the offered protocols.
    pub fn new(offers: Vec<Vec<u8>>, domain: &str, assume_http2: bool) -> (r: Result<TlsConnector, ConfigError>)
        ensures
            r.is_ok() == is_server_name(domain@),
            r.is_err() ==> r == Err::<TlsConnector, ConfigError>(ConfigError::InvalidServerName),
            r matches Ok(c) ==> c.offered() == offers.deep_view().push(h2_token())
                && c.spec_assume_http2() == assume_http2,
    {
        match parse_server_name(domain) {
            Some(name) => Ok(TlsConnector::with_server_name(offers, name, assume_http2)),
            None => Err(ConfigError::InvalidServerName),
        }
    }

    /// A connector for an identity already parsed; appends `h2` to the offered
    /// protocols.
    pub fn with_server_name(offers: Vec<Vec<u8>>, domain: ServerName<'static>, assume_http2: bool) -> (r: TlsConnector)
        ensures
            r.offered() == offers.deep_view().push(h2_token()),
            r.spec_server_name() == domain,
            r.spec_assume_http2() == assume_http2,
    {
        let mut offers = offers;
        offer_h2(&mut offers);
        TlsConnector { offers, domain, assume_http2 }
    }

    /// The protocols to offer in the handshake.
    pub fn offers(&self) -> (r: &Vec<Vec<u8>>)
        ensures
            r.deep_view() == self.offered(),
    {
        &self.offers
    }

    /// The identity expected of the server.
    pub fn server_name(&self) -> (r: &ServerName<'static>)
        ensures
            *r == self.spec_server_name(),
    {
        &self.domain
    }

    /// Whether a handshake that negotiated no protocol may carry HTTP/2.
    pub fn assume_http2(&self) -> (r: bool)
        ensures
            r == self.spec_assume_http2(),
    {
        self.assume_http2
    }

    /// Decides whether a finished handshake, which agreed on `agreed` or on
    /// nothing, yields a usable session: only `h2` is, or nothing at all when
    /// the connector assumes HTTP/2.
    pub fn check_session(&self, agreed: Option<&[u8]>) -> (r: Result<ProtocolUse, NegotiationError>)
        ensures
            r.is_ok() == protocol_accepted(agreed_view(agreed), self.spec_assume_http2()),
            r == Ok::<ProtocolUse, NegotiationError>(ProtocolUse::Agreed) <==> agreed_view(agreed) == Some(h2_token()),
            r.is_err() ==> r == Err::<ProtocolUse, NegotiationError>(NegotiationError::NotNegotiated),
    {
        check_protocol(agreed, self.assume_http2)
    }
}

/// The server side of the handshake: the protocols it offers, `h2` among them.
#[derive(Clone, Debug)]
pub struct TlsAcceptor {
    offers: Vec<Vec<u8>>,
}

impl TlsAcceptor {
    pub closed spec fn offered(&self) -> Seq<Seq<u8>> {
        self.offers.deep_view()
    }

    /// Appends `h2` to the offered protocols.
    pub fn new(offers: Vec<Vec<u8>>) -> (r: Result<TlsAcceptor, ConfigError>)
        ensures
            r matches Ok(a) && a.offered() == offers.deep_view().push(h2_token()),
    {
        let mut offers = offers;
        offer_h2(&mut offers);
        Ok(TlsAcceptor { offers })
    }

    /// The protocols to offer in the handshake.
    pub fn offers(&self) -> (r: &Vec<Vec<u8>>)
        ensures
            r.deep_view() == self.offered(),
    {
        &self.offers
    }
}

} // verus!
