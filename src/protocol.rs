use vstd::prelude::*;

verus! {

/// The ALPN identifier of HTTP/2, as bytes: `h2`.
pub open spec fn h2_token() -> Seq<u8> {
    seq![0x68u8, 0x32u8]
}

/// Whether a session whose handshake agreed on `agreed` (or on nothing) may be
/// used for HTTP/2: it must have agreed on `h2`, or have agreed on nothing while
/// the caller allowed a missing negotiation.
pub open spec fn protocol_accepted(agreed: Option<Seq<u8>>, allow_missing: bool) -> bool {
    match agreed {
        Some(p) => p == h2_token(),
        None => allow_missing,
    }
}

/// The view of an optional byte slice.
pub open spec fn agreed_view(agreed: Option<&[u8]>) -> Option<Seq<u8>> {
    match agreed {
        Some(p) => Some(p@),
        None => None,
    }
}

/// How a session came to speak HTTP/2.
#[derive(Clone, Copy, Debug, PartialEq, Eq, Structural)]
pub enum ProtocolUse {
    /// Both ends agreed on `h2` during the handshake.
    Agreed,
    /// No protocol was negotiated, and the caller allowed that.
    Assumed,
}

/// The handshake did not settle on HTTP/2.
#[derive(Clone, Copy, Debug, PartialEq, Eq, Structural)]
pub enum NegotiationError {
    /// HTTP/2 was not negotiated.
    NotNegotiated,
}

/// The ALPN identifier of HTTP/2.
pub fn alpn_h2() -> (r: Vec<u8>)
    ensures
        r@ == h2_token(),
{
    vec![0x68u8, 0x32u8]
}

/// Appends `h2` to a list of offered protocols.
pub fn offer_h2(offers: &mut Vec<Vec<u8>>)
    ensures
        final(offers).deep_view() == old(offers).deep_view().push(h2_token()),
{
    let token = alpn_h2();
    assert(token.deep_view() =~= h2_token());
    offers.push(token);
    assert(offers.deep_view() =~= old(offers).deep_view().push(h2_token()));
}

/// Decides whether a finished handshake may carry HTTP/2, given the protocol it
/// agreed on and whether a missing agreement is allowed.
pub fn check_protocol(agreed: Option<&[u8]>, allow_missing: bool) -> (r: Result<ProtocolUse, NegotiationError>)
    ensures
        r.is_ok() == protocol_accepted(agreed_view(agreed), allow_missing),
        r == Ok::<ProtocolUse, NegotiationError>(ProtocolUse::Agreed) <==> agreed_view(agreed) == Some(h2_token()),
        r == Ok::<ProtocolUse, NegotiationError>(ProtocolUse::Assumed) <==> (agreed.is_none() && allow_missing),
        r.is_err() ==> r == Err::<ProtocolUse, NegotiationError>(NegotiationError::NotNegotiated),
{
    match agreed {
        Some(p) => {
            if p.len() == 2 && p[0] == 0x68u8 && p[1] == 0x32u8 {
                assert(p@ =~= h2_token());
                Ok(ProtocolUse::Agreed)
            } else {
                assert(p@ != h2_token()) by {
                    if p@ == h2_token() {
                        assert(p@[0] == 0x68u8 && p@[1] == 0x32u8);
                    }
                }
                Err(NegotiationError::NotNegotiated)
            }
        },
        None => {
            if allow_missing {
                Ok(ProtocolUse::Assumed)
            } else {
                Err(NegotiationError::NotNegotiated)
            }
        },
    }
}

} // verus!
