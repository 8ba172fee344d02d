//! The unified data model: one record per socket, tagged with its protocol
//! payload (TCP carries connection state and remote endpoint, UDP carries
//! nothing beyond the local endpoint) and with the address family of the
//! enumeration pass that produced it.

use vstd::prelude::*;

verus! {

/// Address family of the enumeration pass that produced a record.
#[derive(Clone, Copy, Debug, PartialEq, Eq, Structural)]
pub enum AddressFamily {
    V4,
    V6,
}

/// TCP connection state, as the OS socket table reports it.
#[derive(Clone, Copy, Debug, PartialEq, Eq, Structural)]
pub enum TcpState {
    Closed,
    Listen,
    SynSent,
    SynReceived,
    Established,
    FinWait1,
    FinWait2,
    CloseWait,
    Closing,
    LastAck,
    TimeWait,
    DeleteTcb,
    Unknown,
}

/// One process holding a socket open.
pub struct ProcessRef {
    pub pid: u32,
    pub name: String,
}

/// Mathematical model of a `ProcessRef`.
pub ghost struct ProcessRefV {
    pub pid: u32,
    pub name: Seq<char>,
}

impl View for ProcessRef {
    type V = ProcessRefV;

    open spec fn view(&self) -> ProcessRefV {
        ProcessRefV { pid: self.pid, name: self.name@ }
    }
}

impl DeepView for ProcessRef {
    type V = ProcessRefV;

    open spec fn deep_view(&self) -> ProcessRefV {
        self@
    }
}

/// Protocol-specific payload of a socket entry. The UDP case deliberately
/// carries no fields: a UDP socket has no connection state and no remote
/// endpoint, and the type makes storing either impossible.
pub enum Payload {
    Tcp { state: TcpState, remote_address: String, remote_port: u16 },
    Udp,
}

/// Mathematical model of a `Payload`.
pub ghost enum PayloadV {
    Tcp { state: TcpState, remote_address: Seq<char>, remote_port: u16 },
    Udp,
}

impl View for Payload {
    type V = PayloadV;

    open spec fn view(&self) -> PayloadV {
        match self {
            Payload::Tcp { state, remote_address, remote_port } => (PayloadV::Tcp {
                state: *state,
                remote_address: remote_address@,
                remote_port: *remote_port,
            }),
            Payload::Udp => PayloadV::Udp,
        }
    }
}

impl DeepView for Payload {
    type V = PayloadV;

    open spec fn deep_view(&self) -> PayloadV {
        self@
    }
}

/// One raw socket-table entry as the OS facility hands it over, before
/// normalization: local endpoint, protocol payload, and the identifiers of
/// the processes the OS associates with the socket.
pub struct RawEntry {
    pub local_address: String,
    pub local_port: u16,
    pub payload: Payload,
    pub associated_pids: Vec<u32>,
}

/// Mathematical model of a `RawEntry`.
pub ghost struct RawEntryV {
    pub local_address: Seq<char>,
    pub local_port: u16,
    pub payload: PayloadV,
    pub associated_pids: Seq<u32>,
}

impl View for RawEntry {
    type V = RawEntryV;

    open spec fn view(&self) -> RawEntryV {
        RawEntryV {
            local_address: self.local_address@,
            local_port: self.local_port,
            payload: self.payload@,
            associated_pids: self.associated_pids@,
        }
    }
}

impl DeepView for RawEntry {
    type V = RawEntryV;

    open spec fn deep_view(&self) -> RawEntryV {
        self@
    }
}

/// The unified socket record: local endpoint, protocol payload, the family of
/// the enumeration pass that produced it, and the owning processes in the
/// order the OS reported them.
pub struct SocketRecord {
    pub family: AddressFamily,
    pub local_address: String,
    pub local_port: u16,
    pub payload: Payload,
    pub owners: Vec<ProcessRef>,
}

/// Mathematical model of a `SocketRecord`.
pub ghost struct SocketRecordV {
    pub family: AddressFamily,
    pub local_address: Seq<char>,
    pub local_port: u16,
    pub payload: PayloadV,
    pub owners: Seq<ProcessRefV>,
}

impl View for SocketRecord {
    type V = SocketRecordV;

    open spec fn view(&self) -> SocketRecordV {
        SocketRecordV {
            family: self.family,
            local_address: self.local_address@,
            local_port: self.local_port,
            payload: self.payload@,
            owners: self.owners.deep_view(),
        }
    }
}

impl DeepView for SocketRecord {
    type V = SocketRecordV;

    open spec fn deep_view(&self) -> SocketRecordV {
        self@
    }
}

/// A record tagged UDP carries nothing beyond the tag: no state, no remote
/// address, no remote port. The payload type has no place to store them.
pub proof fn lemma_udp_carries_nothing(r: SocketRecordV)
    requires
        r.payload is Udp,
    ensures
        r.payload == PayloadV::Udp,
{
}

} // verus!
