//! Connection acceptance and transport security for an HTTP/2 RPC server and
//! client: accept-error triage, the accept/handshake multiplexer, the ALPN
//! policy, and the response-body adapter used by error recovery.

mod accept_laws;
mod incoming;
mod protocol;
mod recover_error;
mod tls;

pub use accept_laws::{
    accepts, all_admitted, completion_reactions, completions, lemma_accepts_during_handshakes,
    lemma_completion_handed_out_at_once, lemma_drain_on_shutdown, lemma_failure_burst_releases,
    lemma_fatal_error_ends_sequence,
    lemma_no_head_of_line_blocking, reactions, run,
};
pub use incoming::{
    admits, event_tag, handle_tcp_accept_error, is_transient, reaction, step, wait_for,
    well_formed, AcceptErrorKind, AcceptFlow, AcceptLoop, EventTag, LoopAction, LoopEvent,
    LoopState, Reaction, Wait,
};
pub use protocol::{
    alpn_h2, check_protocol, h2_token, offer_h2, protocol_accepted, NegotiationError, ProtocolUse,
};
pub use recover_error::{
    lemma_empty_marker_distinct, recovered, settle, MaybeEmptyBody, RecoverError, Settled,
};
pub use tls::{is_server_name, ConfigError, TlsAcceptor, TlsConnector};
