use vstd::prelude::*;
use crate::addr::{host_of, to_host, Addr, Host, Proto};
use crate::event::{BufferIndex, IndexError, NetworkEvent, Pid};

verus! {

/// A captured network operation in the analytics taxonomy: endpoints as
/// hosts, the protocol as a flag, sizes in bytes. The process id that a
/// close record carries is not part of it.
#[derive(Debug, Clone, Copy, PartialEq, Eq, Structural)]
pub enum Payload {
    Bind { address: Host, is_tcp: bool },
    Listen { address: Host },
    Connect { destination: Host, is_tcp: bool },
    Accept { source: Host, destination: Host },
    Send { source: Host, destination: Host, len: usize, is_tcp: bool },
    Receive { source: Host, destination: Host, len: usize, is_tcp: bool },
    Close { source: Host, destination: Host },
}

/// An event whose data buffer reference could not be resolved.
#[derive(Debug, Clone, Copy, PartialEq, Eq, Structural)]
pub struct TranslationError {
    pub cause: IndexError,
}

/// The socket operation that an event or a payload describes.
pub enum OperationKind {
    Bind,
    Listen,
    Connect,
    Accept,
    Send,
    Receive,
    Close,
}

pub open spec fn event_kind(e: NetworkEvent) -> OperationKind {
    match e {
        NetworkEvent::Bind { .. } => OperationKind::Bind,
        NetworkEvent::Listen { .. } => OperationKind::Listen,
        NetworkEvent::Connect { .. } => OperationKind::Connect,
        NetworkEvent::Accept { .. } => OperationKind::Accept,
        NetworkEvent::Send { .. } => OperationKind::Send,
        NetworkEvent::Receive { .. } => OperationKind::Receive,
        NetworkEvent::Close { .. } => OperationKind::Close,
    }
}

pub open spec fn payload_kind(p: Payload) -> OperationKind {
    match p {
        Payload::Bind { .. } => OperationKind::Bind,
        Payload::Listen { .. } => OperationKind::Listen,
        Payload::Connect { .. } => OperationKind::Connect,
        Payload::Accept { .. } => OperationKind::Accept,
        Payload::Send { .. } => OperationKind::Send,
        Payload::Receive { .. } => OperationKind::Receive,
        Payload::Close { .. } => OperationKind::Close,
    }
}

/// Whether an event is over TCP: as its protocol says, and always for the
/// operations that only TCP has (listen, accept, close).
pub open spec fn event_is_tcp(e: NetworkEvent) -> bool {
    match e {
        NetworkEvent::Bind { proto, .. } => proto == Proto::TCP,
        NetworkEvent::Connect { proto, .. } => proto == Proto::TCP,
        NetworkEvent::Send { proto, .. } => proto == Proto::TCP,
        NetworkEvent::Receive { proto, .. } => proto == Proto::TCP,
        _ => true,
    }
}

/// The buffer reference an event carries, if any.
pub open spec fn event_buffer(e: NetworkEvent) -> Option<BufferIndex> {
    match e {
        NetworkEvent::Send { data, .. } => Some(data),
        NetworkEvent::Receive { data, .. } => Some(data),
        _ => None,
    }
}

/// The payload an event maps to.
pub open spec fn payload_of(e: NetworkEvent) -> Payload {
    match e {
        NetworkEvent::Bind { addr, proto } => Payload::Bind {
            address: host_of(addr),
            is_tcp: proto == Proto::TCP,
        },
        NetworkEvent::Listen { addr } => Payload::Listen { address: host_of(addr) },
        NetworkEvent::Connect { dst, proto } => Payload::Connect {
            destination: host_of(dst),
            is_tcp: proto == Proto::TCP,
        },
        NetworkEvent::Accept { src, dst } => Payload::Accept {
            source: host_of(src),
            destination: host_of(dst),
        },
        NetworkEvent::Send { src, dst, data_len, proto, .. } => Payload::Send {
            source: host_of(src),
            destination: host_of(dst),
            len: data_len as usize,
            is_tcp: proto == Proto::TCP,
        },
        NetworkEvent::Receive { src, dst, data_len, proto, .. } => Payload::Receive {
            source: host_of(src),
            destination: host_of(dst),
            len: data_len as usize,
            is_tcp: proto == Proto::TCP,
        },
        NetworkEvent::Close { src, dst, .. } => Payload::Close {
            source: host_of(src),
            destination: host_of(dst),
        },
    }
}

/// The outcome of translating an event against its data buffer: an error
/// exactly when the event refers to bytes the buffer does not hold.
pub open spec fn translation_of(e: NetworkEvent, buffer: Seq<u8>) -> Result<Payload, TranslationError> {
    match event_buffer(e) {
        Some(data) if !data.fits(buffer.len()) => Err(TranslationError {
            cause: IndexError { start: data.start, len: data.len, buffer_len: buffer.len() as usize },
        }),
        _ => Ok(payload_of(e)),
    }
}

impl Payload {
    pub open spec fn spec_is_tcp(&self) -> bool {
        match *self {
            Payload::Bind { is_tcp, .. } => is_tcp,
            Payload::Connect { is_tcp, .. } => is_tcp,
            Payload::Send { is_tcp, .. } => is_tcp,
            Payload::Receive { is_tcp, .. } => is_tcp,
            _ => true,
        }
    }

    /// Whether the operation ran over TCP; listen, accept and close are TCP
    /// operations.
    #[verifier::when_used_as_spec(spec_is_tcp)]
    pub fn is_tcp(&self) -> (r: bool)
        ensures
            r == self.spec_is_tcp(),
    {
        match self {
            Payload::Bind { is_tcp, .. } => *is_tcp,
            Payload::Connect { is_tcp, .. } => *is_tcp,
            Payload::Send { is_tcp, .. } => *is_tcp,
            Payload::Receive { is_tcp, .. } => *is_tcp,
            _ => true,
        }
    }
}

fn is_tcp(proto: Proto) -> (r: bool)
    ensures
        r == (proto == Proto::TCP),
{
    match proto {
        Proto::TCP => true,
        Proto::UDP => false,
    }
}

impl NetworkEvent {
    /// Maps the event to its payload, leaving the data buffer aside: sizes
    /// are taken from `data_len` alone.
    pub fn to_payload(&self) -> (r: Payload)
        ensures
            r == payload_of(*self),
    {
        match *self {
            NetworkEvent::Bind { addr, proto } => Payload::Bind {
                address: to_host(addr),
                is_tcp: is_tcp(proto),
            },
            NetworkEvent::Listen { addr } => Payload::Listen { address: to_host(addr) },
            NetworkEvent::Connect { dst, proto } => Payload::Connect {
                destination: to_host(dst),
                is_tcp: is_tcp(proto),
            },
            NetworkEvent::Accept { src, dst } => Payload::Accept {
                source: to_host(src),
                destination: to_host(dst),
            },
            NetworkEvent::Send { src, dst, data_len, proto, .. } => Payload::Send {
                source: to_host(src),
                destination: to_host(dst),
                len: data_len as usize,
                is_tcp: is_tcp(proto),
            },
            NetworkEvent::Receive { src, dst, data_len, proto, .. } => Payload::Receive {
                source: to_host(src),
                destination: to_host(dst),
                len: data_len as usize,
                is_tcp: is_tcp(proto),
            },
            NetworkEvent::Close { src, dst, .. } => Payload::Close {
                source: to_host(src),
                destination: to_host(dst),
            },
        }
    }

    /// Translates the event into its payload. Send and receive records must
    /// have their data reference resolve in `buffer`; the others never fail.
    pub fn try_into_payload(&self, buffer: &[u8]) -> (r: Result<Payload, TranslationError>)
        ensures
            r == translation_of(*self, buffer@),
    {
        match *self {
            NetworkEvent::Send { data, .. } | NetworkEvent::Receive { data, .. } => {
                match data.resolve(buffer) {
                    Ok(_) => {},
                    Err(cause) => {
                        return Err(TranslationError { cause });
                    },
                }
            },
            _ => {},
        }
        Ok(self.to_payload())
    }
}

/// Every event maps to exactly one payload, of the same operation; its TCP
/// flag is set exactly when the event's protocol is TCP, and always for
/// listen, accept and close. A successful translation gives that payload.
pub proof fn lemma_one_arm_per_event(e: NetworkEvent, buffer: Seq<u8>)
    ensures
        payload_kind(payload_of(e)) == event_kind(e),
        payload_of(e).spec_is_tcp() == event_is_tcp(e),
        translation_of(e, buffer) is Ok ==> translation_of(e, buffer) == Ok::<
            Payload,
            TranslationError,
        >(payload_of(e)),
{
}

/// The byte count of a send or receive record is the payload's `len`,
/// whatever the data buffer holds and whether or not its reference resolves.
pub proof fn lemma_len_preserved(e: NetworkEvent, buffer: Seq<u8>)
    ensures
        e matches NetworkEvent::Send { data_len, .. } ==> payload_of(e) matches Payload::Send {
            len,
            ..
        } && len as int == data_len as int,
        e matches NetworkEvent::Receive { data_len, .. } ==> payload_of(e) matches Payload::Receive {
            len,
            ..
        } && len as int == data_len as int,
        translation_of(e, buffer) matches Ok(p) ==> p == payload_of(e),
{
}

/// The process id of a close record leaves no trace in its translation:
/// two records that differ only in it translate alike.
pub proof fn lemma_pid_dropped(pid1: Pid, pid2: Pid, src: Addr, dst: Addr, buffer: Seq<u8>)
    ensures
        payload_of(NetworkEvent::Close { original_pid: pid1, src, dst }) == payload_of(
            NetworkEvent::Close { original_pid: pid2, src, dst },
        ),
        translation_of(NetworkEvent::Close { original_pid: pid1, src, dst }, buffer)
            == translation_of(NetworkEvent::Close { original_pid: pid2, src, dst }, buffer),
{
}

} // verus!
