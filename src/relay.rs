use vstd::prelude::*;

verus! {

/// What the relay reads from the transport: a message, or a transport error.
#[derive(Debug, PartialEq, Eq)]
pub enum Inbound {
    /// A text message.
    Text(String),
    /// The client's close message.
    Close,
    /// A binary, ping, pong or raw frame message.
    Other,
    /// The transport failed to yield a message.
    Failed,
}

/// What the relay's ingress loop does next.
#[derive(Debug, PartialEq, Eq)]
pub enum IngressAction {
    /// Send this text to the backend's inbound channel.
    Forward(String),
    /// Drop the message and read the next one.
    Skip,
    /// End the loop, and with it the connection.
    Stop,
}

/// What the relay's egress loop does next.
#[derive(Debug, PartialEq, Eq)]
pub enum EgressAction {
    /// Send this string to the client as a text message.
    Send(String),
    /// End the loop, and with it the connection.
    Stop,
}

/// One step of the ingress loop, given what the transport yielded next
/// (`None` once its stream has ended). Text goes through verbatim, other
/// message kinds are skipped, and a close, an error, the end of the stream or
/// a shutdown request end the loop.
pub fn ingress_step(shutdown: bool, next: Option<Inbound>) -> (r: IngressAction)
    ensures
        match next {
            Some(Inbound::Text(t)) if !shutdown => r matches IngressAction::Forward(f) && f@ == t@,
            Some(Inbound::Other) if !shutdown => r is Skip,
            _ => r is Stop,
        },
{
    if shutdown {
        return IngressAction::Stop;
    }
    match next {
        Some(Inbound::Text(t)) => IngressAction::Forward(t),
        Some(Inbound::Other) => IngressAction::Skip,
        _ => IngressAction::Stop,
    }
}

/// One step of the egress loop, given the next line taken from the outbound
/// channel (`None` once it is closed and drained).
pub fn egress_step(shutdown: bool, next: Option<String>) -> (r: EgressAction)
    ensures
        match next {
            Some(m) if !shutdown => r matches EgressAction::Send(s) && s@ == m@,
            _ => r is Stop,
        },
{
    match next {
        Some(m) => {
            if shutdown {
                EgressAction::Stop
            } else {
                EgressAction::Send(m)
            }
        },
        None => EgressAction::Stop,
    }
}

} // verus!
