use crate::message::{reply_view, DcfMessage};
use tonic::transport::{Channel, Error};
use tonic::Status;
use vstd::prelude::*;

verus! {

/// tonic's transport channel: the handle of an established outbound connection.
#[verifier::external_type_specification]
#[verifier::external_body]
pub struct ExChannel(Channel);

/// tonic's transport error: why an outbound connection could not be opened.
#[verifier::external_type_specification]
#[verifier::external_body]
pub struct ExTransportError(Error);

/// tonic's RPC status: a failure reported by the transport or by the peer.
#[verifier::external_type_specification]
#[verifier::external_body]
pub struct ExStatus(Status);

/// Why a send did not produce a reply.
pub enum NetError {
    /// The endpoint holds no connection; nothing was sent.
    Unavailable,
    /// The transport failed in flight; its status is kept as it came.
    TransportFault(Status),
}

/// What an endpoint does with a message handed to it for sending.
pub enum SendAction {
    /// Hand the message to the connection's transport.
    Transmit(DcfMessage),
    /// Fail at once, with no network traffic.
    Fail(NetError),
}

/// One process's view of a single remote peer. `client` is the only record
/// of whether the endpoint can act as a client; `mode` is a label.
#[derive(Clone)]
pub struct Networking {
    pub client: Option<Channel>,
    pub mode: String,
}

/// The connection kept from the outcome of a connect attempt: a failed attempt
/// leaves none.
pub open spec fn client_from(connected: Result<Channel, Error>) -> Option<Channel> {
    match connected {
        Ok(c) => Some(c),
        Err(_) => None,
    }
}

/// The action owed for `msg` by an endpoint whose connection is `client`.
pub open spec fn planned(client: Option<Channel>, msg: DcfMessage) -> SendAction {
    match client {
        Some(_) => SendAction::Transmit(msg),
        None => SendAction::Fail(NetError::Unavailable),
    }
}

/// The result of a send, given what the transport returned.
pub open spec fn finished(outcome: Result<DcfMessage, Status>) -> Result<DcfMessage, NetError> {
    match outcome {
        Ok(reply) => Ok(reply),
        Err(s) => Err(NetError::TransportFault(s)),
    }
}

impl Networking {
    /// Builds an endpoint from the outcome of its connect attempt. Construction
    /// never fails: a failed attempt gives an endpoint with no connection.
    pub fn new(connected: Result<Channel, Error>, mode: &str) -> (r: Networking)
        ensures
            r.client == client_from(connected),
            r.mode@ == mode@,
    {
        let client = match connected {
            Ok(c) => Some(c),
            Err(_) => None,
        };
        Networking { client, mode: String::from_str(mode) }
    }

    /// An endpoint that only answers inbound requests.
    pub fn server() -> (r: Networking)
        ensures
            r.client is None,
            r.mode@ == seq!['s', 'e', 'r', 'v', 'e', 'r'],
    {
        proof {
            reveal_strlit("server");
        }
        Networking { client: None, mode: String::from_str("server") }
    }

    /// Whether the endpoint can act as a client.
    pub fn is_connected(&self) -> (r: bool)
        ensures
            r == self.client is Some,
    {
        self.client.is_some()
    }

    /// Decides what sending `msg` does: with a connection the message goes to
    /// the transport unchanged; without one the send fails as unavailable.
    /// The endpoint is left as it was.
    pub fn plan_send(&self, msg: DcfMessage) -> (r: SendAction)
        ensures
            r == planned(self.client, msg),
    {
        match &self.client {
            Some(_) => SendAction::Transmit(msg),
            None => SendAction::Fail(NetError::Unavailable),
        }
    }

    /// Completes a send from what the transport returned: the reply is handed
    /// back as it came, and a transport failure is kept whole as a fault,
    /// distinct from the endpoint never having been connected.
    pub fn finish_send(outcome: Result<DcfMessage, Status>) -> (r: Result<DcfMessage, NetError>)
        ensures
            r == finished(outcome),
    {
        match outcome {
            Ok(reply) => Ok(reply),
            Err(s) => Err(NetError::TransportFault(s)),
        }
    }
}

/// An endpoint without a connection fails every send as unavailable and hands
/// nothing to the transport.
pub proof fn disconnected_never_sends(msg: DcfMessage)
    ensures
        planned(None, msg) == SendAction::Fail(NetError::Unavailable),
        !(planned(None, msg) is Transmit),
{
}

/// A failed connect attempt yields an endpoint without a connection, so every
/// send on it fails as unavailable.
pub proof fn unreachable_peer_is_unavailable(e: Error, msg: DcfMessage)
    ensures
        client_from(Err(e)) is None,
        planned(client_from(Err(e)), msg) == SendAction::Fail(NetError::Unavailable),
{
}

/// Against a reachable peer that answers by the same inbound contract, the
/// endpoint is connected, hands the message to the transport unchanged, and
/// returns the peer's echo reply.
pub proof fn connected_round_trip(c: Channel, msg: DcfMessage, reply: DcfMessage)
    requires
        reply@ == reply_view(msg@),
    ensures
        client_from(Ok(c)) == Some(c),
        planned(client_from(Ok(c)), msg) == SendAction::Transmit(msg),
        finished(Ok(reply)) is Ok,
        finished(Ok(reply))->Ok_0@ == reply_view(msg@),
{
}

/// A transport failure on a connected endpoint is reported as a fault carrying
/// the transport's status, never as unavailable.
pub proof fn broken_connection_is_fault(c: Channel, msg: DcfMessage, s: Status)
    ensures
        planned(Some(c), msg) == SendAction::Transmit(msg),
        finished(Err(s)) == Err::<DcfMessage, NetError>(NetError::TransportFault(s)),
        !(finished(Err(s))->Err_0 is Unavailable),
{
}

} // verus!
