//! The fixed records that the kernel programs hand to user space, and the
//! decisions the connect tracepoints take before they emit one.

use vstd::prelude::*;

verus! {

pub const COMMAND_LEN: usize = 16;

pub const EVENT_KIND_EXEC: u8 = 1;

pub const EVENT_KIND_SYSCALL: u8 = 2;

pub const EVENT_KIND_NETWORK_CONNECT: u8 = 3;

pub const ADDRESS_FAMILY_IPV4: u8 = 1;

pub const ADDRESS_FAMILY_IPV6: u8 = 2;

pub const CONNECT_OUTCOME_SUCCEEDED: u8 = 1;

pub const CONNECT_OUTCOME_IN_PROGRESS: u8 = 2;

pub const CONNECT_OUTCOME_FAILED: u8 = 3;

pub const NETWORK_ADDRESS_LEN: usize = 16;

pub const NETWORK_COUNTER_CAPACITY: u32 = 0;

pub const NETWORK_COUNTER_CORRELATION_MISS: u32 = 1;

pub const NETWORK_COUNTER_DECODE_FAILED: u32 = 2;

pub const NETWORK_COUNTER_UNSUPPORTED_FAMILY: u32 = 3;

pub const NETWORK_COUNTER_KERNEL_LOST: u32 = 4;

pub const NETWORK_COUNTER_COUNT: u32 = 5;

pub const DNS_CAPTURE_BYTES: usize = 1232;

pub const DNS_ADDRESS_LEN: usize = 16;

pub const DNS_TRANSPORT_UDP: u8 = 1;

pub const DNS_TRANSPORT_TCP: u8 = 2;

pub const DNS_DIRECTION_EGRESS: u8 = 1;

pub const DNS_DIRECTION_INGRESS: u8 = 2;

pub const DNS_COUNTER_UNSUPPORTED_FRAMING: u32 = 0;

pub const DNS_COUNTER_ATTRIBUTION_FAILED: u32 = 1;

pub const DNS_COUNTER_DECODE_FAILED: u32 = 2;

pub const DNS_COUNTER_OVERSIZE: u32 = 3;

pub const DNS_COUNTER_RING_LOST: u32 = 4;

pub const DNS_COUNTER_COUNT: u32 = 5;

/// Size in bytes of a `KernelEvent` record (`repr(C)`, no trailing padding).
pub const KERNEL_EVENT_SIZE: usize = 72;

/// Size in bytes of a `PendingConnect` record.
pub const PENDING_CONNECT_SIZE: usize = 64;

/// Size in bytes of a `DnsPacketRecord`.
pub const DNS_PACKET_RECORD_SIZE: usize = 1312;

/// Linux `EINPROGRESS`, as the connect exit tracepoint sees it negated.
pub const EINPROGRESS: i64 = 115;

/// Largest errno that a failed syscall can return, negated.
pub const MAX_ERRNO: i64 = 4095;

/// One exec, syscall or completed connect, as the kernel emits it.
#[derive(Clone, Copy, Debug)]
pub struct KernelEvent {
    pub timestamp_ns: u64,
    pub cgroup_id: u64,
    pub pid_tgid: u64,
    pub syscall_id: u32,
    pub connect_result: i32,
    pub event_kind: u8,
    pub address_family: u8,
    pub connect_outcome: u8,
    pub padding: u8,
    pub destination_port: u16,
    pub errno: u16,
    pub destination_address: [u8; NETWORK_ADDRESS_LEN],
    pub command: [u8; COMMAND_LEN],
}

impl KernelEvent {
    pub const SIZE: usize = 72;
}

/// A connect that entered the kernel and has not returned yet.
#[derive(Clone, Copy, Debug)]
pub struct PendingConnect {
    pub timestamp_ns: u64,
    pub cgroup_id: u64,
    pub pid_tgid: u64,
    pub destination_address: [u8; NETWORK_ADDRESS_LEN],
    pub destination_port: u16,
    pub address_family: u8,
    pub padding: [u8; 5],
    pub command: [u8; COMMAND_LEN],
}

/// Fixed kernel/userspace layout for one bounded plaintext DNS packet
/// candidate. Source ephemeral ports and bytes beyond `payload_len` carry no
/// meaning.
#[derive(Clone, Copy, Debug)]
pub struct DnsPacketRecord {
    pub timestamp_ns: u64,
    pub cgroup_id: u64,
    pub socket_cookie: u64,
    pub pid_tgid: u64,
    pub sequence: u32,
    pub payload_len: u16,
    pub resolver_port: u16,
    pub address_family: u8,
    pub transport: u8,
    pub direction: u8,
    pub tcp_flags: u8,
    pub resolver_address: [u8; DNS_ADDRESS_LEN],
    pub command: [u8; COMMAND_LEN],
    pub payload: [u8; DNS_CAPTURE_BYTES],
}

impl DnsPacketRecord {
    pub const SIZE: usize = 1312;
}

/// The outcome and errno that a connect's return value stands for, or none when
/// the value is no connect result at all.
pub open spec fn connect_outcome_of(result: i64) -> Option<(u8, u16)> {
    if result == 0 {
        Some((CONNECT_OUTCOME_SUCCEEDED, 0u16))
    } else if result == -EINPROGRESS {
        Some((CONNECT_OUTCOME_IN_PROGRESS, 115u16))
    } else if -MAX_ERRNO <= result < 0 {
        Some((CONNECT_OUTCOME_FAILED, (-result) as u16))
    } else {
        None
    }
}

/// Classifies a connect's return value: success, in progress, or failed with
/// the negated errno; any other value is undecodable.
pub fn connect_outcome(result: i64) -> (r: Option<(u8, u16)>)
    ensures
        r == connect_outcome_of(result),
{
    if result == 0 {
        Some((CONNECT_OUTCOME_SUCCEEDED, 0))
    } else if result == -EINPROGRESS {
        Some((CONNECT_OUTCOME_IN_PROGRESS, 115))
    } else if -MAX_ERRNO <= result && result < 0 {
        Some((CONNECT_OUTCOME_FAILED, (-result) as u16))
    } else {
        None
    }
}

/// The record emitted when a pending connect returns `result`.
pub open spec fn completed_connect_of(pending: PendingConnect, result: i64) -> Option<KernelEvent> {
    match connect_outcome_of(result) {
        Some((connect_outcome, errno)) => Some(
            KernelEvent {
                timestamp_ns: pending.timestamp_ns,
                cgroup_id: pending.cgroup_id,
                pid_tgid: pending.pid_tgid,
                syscall_id: 0,
                connect_result: result as i32,
                event_kind: EVENT_KIND_NETWORK_CONNECT,
                address_family: pending.address_family,
                connect_outcome,
                padding: 0,
                destination_port: pending.destination_port,
                errno,
                destination_address: pending.destination_address,
                command: pending.command,
            },
        ),
        None => None,
    }
}

/// The record for a pending connect that returned `result`; none when the
/// result is undecodable (the tracepoint counts it as a decode failure).
pub fn completed_connect(pending: &PendingConnect, result: i64) -> (r: Option<KernelEvent>)
    ensures
        r == completed_connect_of(*pending, result),
{
    match connect_outcome(result) {
        Some((connect_outcome, errno)) => Some(
            KernelEvent {
                timestamp_ns: pending.timestamp_ns,
                cgroup_id: pending.cgroup_id,
                pid_tgid: pending.pid_tgid,
                syscall_id: 0,
                connect_result: result as i32,
                event_kind: EVENT_KIND_NETWORK_CONNECT,
                address_family: pending.address_family,
                connect_outcome,
                padding: 0,
                destination_port: pending.destination_port,
                errno,
                destination_address: pending.destination_address,
                command: pending.command,
            },
        ),
        None => None,
    }
}

// ------------------------------------------------------------ connect entry

/// Linux `AF_INET`.
pub const AF_INET: u16 = 2;

/// Linux `AF_INET6`.
pub const AF_INET6: u16 = 10;

/// Size of a `sockaddr_in`.
pub const SOCKADDR_IN_LEN: u64 = 16;

/// Size of a `sockaddr_in6`.
pub const SOCKADDR_IN6_LEN: u64 = 28;

/// What the connect entry tracepoint makes of the address a process
/// connects to: a destination to keep until the connect returns, or the
/// network counter that records why there is none.
#[derive(Clone, Copy, Debug, PartialEq, Eq)]
pub enum ConnectEntry {
    Destination { address_family: u8, destination_port: u16, destination_address: [u8; NETWORK_ADDRESS_LEN] },
    Counted(u32),
}

/// A connect entry decision, with the address as its bytes.
pub ghost enum EntryDecision {
    Destination { address_family: u8, destination_port: u16, destination_address: Seq<u8> },
    Counted(u32),
}

/// The decision a connect entry stands for.
pub open spec fn entry_decision(e: ConnectEntry) -> EntryDecision {
    match e {
        ConnectEntry::Destination { address_family, destination_port, destination_address } =>
            EntryDecision::Destination {
            address_family,
            destination_port,
            destination_address: destination_address@,
        },
        ConnectEntry::Counted(c) => EntryDecision::Counted(c),
    }
}

/// The size of the socket address structure of a family, for the families
/// the agent reads.
pub open spec fn sockaddr_len(family: u16) -> u64 {
    if family == AF_INET {
        SOCKADDR_IN_LEN
    } else {
        SOCKADDR_IN6_LEN
    }
}

/// The entry decision on a connect: no address or an unreadable family is a
/// decode failure; a family other than IPv4 or IPv6 is unsupported; an
/// address shorter than its family's structure, an unreadable structure or
/// port 0 is a decode failure; otherwise the destination is kept: the port
/// in network byte order, the IPv4 address in the first four bytes.
pub open spec fn connect_entry_of(
    address_present: bool,
    family: Option<u16>,
    address_len: u64,
    sockaddr: Option<Seq<u8>>,
) -> EntryDecision {
    if !address_present || family is None {
        EntryDecision::Counted(NETWORK_COUNTER_DECODE_FAILED)
    } else if family->0 != AF_INET && family->0 != AF_INET6 {
        EntryDecision::Counted(NETWORK_COUNTER_UNSUPPORTED_FAMILY)
    } else if address_len < sockaddr_len(family->0) || sockaddr is None {
        EntryDecision::Counted(NETWORK_COUNTER_DECODE_FAILED)
    } else {
        let b = sockaddr->0;
        let port = (b[2] * 256 + b[3]) as u16;
        if port == 0 {
            EntryDecision::Counted(NETWORK_COUNTER_DECODE_FAILED)
        } else if family->0 == AF_INET {
            EntryDecision::Destination {
                address_family: ADDRESS_FAMILY_IPV4,
                destination_port: port,
                destination_address: Seq::new(16, |i: int| if i < 4 { b[4 + i] } else { 0u8 }),
            }
        } else {
            EntryDecision::Destination {
                address_family: ADDRESS_FAMILY_IPV6,
                destination_port: port,
                destination_address: b.subrange(8, 24),
            }
        }
    }
}

fn address_from(bytes: &[u8], at: usize, count: usize) -> (a: [u8; NETWORK_ADDRESS_LEN])
    requires
        count <= NETWORK_ADDRESS_LEN,
        at + count <= bytes@.len(),
    ensures
        a@ == Seq::new(16, |i: int| if i < count { bytes@[at + i] } else { 0u8 }),
{
    let mut a = [0u8; NETWORK_ADDRESS_LEN];
    let n = bytes.len();
    let mut i: usize = 0;
    while i < count
        invariant
            n == bytes@.len(),
            count <= NETWORK_ADDRESS_LEN,
            at + count <= bytes@.len(),
            i <= count,
            a@.len() == 16,
            forall|j: int| 0 <= j < i ==> a@[j] == bytes@[at + j],
            forall|j: int| i <= j < 16 ==> a@[j] == 0u8,
        decreases count - i,
    {
        a.set(i, bytes[at + i]);
        i = i + 1;
    }
    assert(a@ =~= Seq::new(16, |i: int| if i < count { bytes@[at + i] } else { 0u8 }));
    a
}

/// The connect entry decision, on what the tracepoint could read: whether
/// the address pointer was set, the family (none when unreadable), the
/// length the process gave, and the family's structure (none when
/// unreadable).
pub fn connect_entry(address_present: bool, family: Option<u16>, address_len: u64, sockaddr: Option<&[u8]>) -> (r:
    ConnectEntry)
    requires
        family matches Some(f) && sockaddr matches Some(b) ==> (f == AF_INET ==> b@.len()
            == SOCKADDR_IN_LEN) && (f == AF_INET6 ==> b@.len() == SOCKADDR_IN6_LEN),
    ensures
        entry_decision(r) == connect_entry_of(
            address_present,
            family,
            address_len,
            match sockaddr {
                Some(b) => Some(b@),
                None => None,
            },
        ),
{
    let f = match family {
        Some(f) => f,
        None => {
            return ConnectEntry::Counted(NETWORK_COUNTER_DECODE_FAILED);
        },
    };
    if !address_present {
        return ConnectEntry::Counted(NETWORK_COUNTER_DECODE_FAILED);
    }
    if f != AF_INET && f != AF_INET6 {
        return ConnectEntry::Counted(NETWORK_COUNTER_UNSUPPORTED_FAMILY);
    }
    let needed = if f == AF_INET {
        SOCKADDR_IN_LEN
    } else {
        SOCKADDR_IN6_LEN
    };
    let b = match sockaddr {
        Some(b) => b,
        None => {
            return ConnectEntry::Counted(NETWORK_COUNTER_DECODE_FAILED);
        },
    };
    if address_len < needed {
        return ConnectEntry::Counted(NETWORK_COUNTER_DECODE_FAILED);
    }
    let port = (b[2] as u16) * 256 + (b[3] as u16);
    if port == 0 {
        return ConnectEntry::Counted(NETWORK_COUNTER_DECODE_FAILED);
    }
    if f == AF_INET {
        let a = address_from(b, 4, 4);
        ConnectEntry::Destination {
            address_family: ADDRESS_FAMILY_IPV4,
            destination_port: port,
            destination_address: a,
        }
    } else {
        let a = address_from(b, 8, 16);
        assert(a@ =~= b@.subrange(8, 24));
        ConnectEntry::Destination {
            address_family: ADDRESS_FAMILY_IPV6,
            destination_port: port,
            destination_address: a,
        }
    }
}

// ------------------------------------------------------------ exec, syscall

/// The syscall number a `sys_enter` tracepoint reads: the low 32 bits of the
/// raw id.
pub fn syscall_number(raw_id: u64) -> (r: u32)
    ensures
        r == raw_id % 4294967296,
{
    (raw_id % 4294967296) as u32
}

/// The record of an exec or an allowed syscall of the current task: its
/// time, cgroup, ids and command (zeros when the command is unreadable), with
/// no network fields.
pub fn emit_record(
    event_kind: u8,
    syscall_id: u32,
    timestamp_ns: u64,
    cgroup_id: u64,
    pid_tgid: u64,
    command: Option<[u8; COMMAND_LEN]>,
) -> (r: KernelEvent)
    ensures
        r.event_kind == event_kind,
        r.syscall_id == syscall_id,
        r.timestamp_ns == timestamp_ns,
        r.cgroup_id == cgroup_id,
        r.pid_tgid == pid_tgid,
        r.connect_result == 0,
        r.address_family == 0,
        r.connect_outcome == 0,
        r.padding == 0,
        r.destination_port == 0,
        r.errno == 0,
        r.destination_address@ == Seq::new(16, |i: int| 0u8),
        match command {
            Some(c) => r.command == c,
            None => r.command@ == Seq::new(16, |i: int| 0u8),
        },
{
    let zeros: [u8; NETWORK_ADDRESS_LEN] = [0u8; NETWORK_ADDRESS_LEN];
    assert(zeros@ =~= Seq::new(16, |i: int| 0u8));
    let command = match command {
        Some(c) => c,
        None => {
            let c: [u8; COMMAND_LEN] = [0u8; COMMAND_LEN];
            assert(c@ =~= Seq::new(16, |i: int| 0u8));
            c
        },
    };
    KernelEvent {
        timestamp_ns,
        cgroup_id,
        pid_tgid,
        syscall_id,
        connect_result: 0,
        event_kind,
        address_family: 0,
        connect_outcome: 0,
        padding: 0,
        destination_port: 0,
        errno: 0,
        destination_address: zeros,
        command,
    }
}

} // verus!
