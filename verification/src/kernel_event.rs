//! Decoding of kernel records in user space.

use vstd::prelude::*;

use crate::event_model::{
    network_connect_result, IpAddr, NetworkAddressFamily, NetworkConnect, NetworkConnectError,
    NetworkConnectOutcome,
};
use crate::kernel_abi::{
    completed_connect_of, connect_entry_of, connect_outcome_of, EntryDecision, KernelEvent,
    PendingConnect, ADDRESS_FAMILY_IPV4, ADDRESS_FAMILY_IPV6, COMMAND_LEN,
    CONNECT_OUTCOME_FAILED, CONNECT_OUTCOME_IN_PROGRESS, CONNECT_OUTCOME_SUCCEEDED, EINPROGRESS,
    KERNEL_EVENT_SIZE,
};

verus! {

#[derive(Clone, Debug, PartialEq, Eq)]
pub enum DecodeError {
    InvalidSize { actual: usize, expected: usize },
}

#[derive(Clone, Debug, PartialEq, Eq)]
pub enum NetworkDecodeError {
    UnsupportedFamily(u8),
    UnsupportedOutcome(u8),
    Invalid(NetworkConnectError),
}

impl DecodeError {
    /// Human-readable description of the error.
    pub fn message(&self) -> (r: String)
        ensures
            r@ == (match self {
                DecodeError::InvalidSize { actual, expected } => "kernel event has size "@ + crate::text::decimal(*actual as nat)
                    + ", expected "@ + crate::text::decimal(*expected as nat),
            }),
    {
        match self {
            DecodeError::InvalidSize { actual, expected } => {
                let mut s = String::new();
                proof {
                    reveal_strlit("kernel event has size ");
                    reveal_strlit(", expected ");
                }
                crate::text::append(&mut s, "kernel event has size ");
                let a = crate::text::u64_text(*actual as u64);
                crate::text::append(&mut s, a.as_str());
                crate::text::append(&mut s, ", expected ");
                let e = crate::text::u64_text(*expected as u64);
                crate::text::append(&mut s, e.as_str());
                s
            },
        }
    }
}

/// The order in which the machine stores the bytes of an integer.
#[derive(Clone, Copy, Debug, PartialEq, Eq)]
pub enum ByteOrder {
    Little,
    Big,
}

/// The 16-bit integer stored at `at` in the given order.
pub open spec fn u16_at(order: ByteOrder, b: Seq<u8>, at: int) -> int {
    match order {
        ByteOrder::Little => b[at] + b[at + 1] * 256,
        ByteOrder::Big => b[at] * 256 + b[at + 1],
    }
}

/// The 32-bit integer stored at `at` in the given order.
pub open spec fn u32_at(order: ByteOrder, b: Seq<u8>, at: int) -> int {
    match order {
        ByteOrder::Little => u16_at(order, b, at) + u16_at(order, b, at + 2) * 65536,
        ByteOrder::Big => u16_at(order, b, at) * 65536 + u16_at(order, b, at + 2),
    }
}

/// The 64-bit integer stored at `at` in the given order.
pub open spec fn u64_at(order: ByteOrder, b: Seq<u8>, at: int) -> int {
    match order {
        ByteOrder::Little => u32_at(order, b, at) + u32_at(order, b, at + 4) * 4294967296,
        ByteOrder::Big => u32_at(order, b, at) * 4294967296 + u32_at(order, b, at + 4),
    }
}

fn read_u16(b: &[u8], at: usize, order: ByteOrder) -> (r: u16)
    requires
        at + 2 <= b.len(),
    ensures
        r == u16_at(order, b@, at as int),
{
    let x0 = b[at] as u16;
    let x1 = b[at + 1] as u16;
    match order {
        ByteOrder::Little => x0 + x1 * 256,
        ByteOrder::Big => x0 * 256 + x1,
    }
}

fn read_u32(b: &[u8], at: usize, order: ByteOrder) -> (r: u32)
    requires
        at + 4 <= b.len(),
    ensures
        r == u32_at(order, b@, at as int),
{
    let lo = read_u16(b, at, order) as u32;
    let hi = read_u16(b, at + 2, order) as u32;
    match order {
        ByteOrder::Little => lo + hi * 65536,
        ByteOrder::Big => lo * 65536 + hi,
    }
}

fn read_u64(b: &[u8], at: usize, order: ByteOrder) -> (r: u64)
    requires
        at + 8 <= b.len(),
    ensures
        r == u64_at(order, b@, at as int),
{
    let lo = read_u32(b, at, order) as u64;
    let hi = read_u32(b, at + 4, order) as u64;
    match order {
        ByteOrder::Little => lo + hi * 4294967296,
        ByteOrder::Big => lo * 4294967296 + hi,
    }
}

fn array16_at(b: &[u8], at: usize) -> (a: [u8; 16])
    requires
        at + 16 <= b.len(),
    ensures
        a@ == b@.subrange(at as int, at + 16),
{
    let a: [u8; 16] = [
        b[at],
        b[at + 1],
        b[at + 2],
        b[at + 3],
        b[at + 4],
        b[at + 5],
        b[at + 6],
        b[at + 7],
        b[at + 8],
        b[at + 9],
        b[at + 10],
        b[at + 11],
        b[at + 12],
        b[at + 13],
        b[at + 14],
        b[at + 15],
    ];
    assert(a@ =~= b@.subrange(at as int, at + 16));
    a
}

/// `e` is the record laid out in `b` with integers in the given order.
pub open spec fn kernel_event_decoded(e: KernelEvent, b: Seq<u8>, order: ByteOrder) -> bool {
    &&& e.timestamp_ns == u64_at(order, b, 0)
    &&& e.cgroup_id == u64_at(order, b, 8)
    &&& e.pid_tgid == u64_at(order, b, 16)
    &&& e.syscall_id == u32_at(order, b, 24)
    &&& e.connect_result == (u32_at(order, b, 28) as u32) as i32
    &&& e.event_kind == b[32]
    &&& e.address_family == b[33]
    &&& e.connect_outcome == b[34]
    &&& e.padding == b[35]
    &&& e.destination_port == u16_at(order, b, 36)
    &&& e.errno == u16_at(order, b, 38)
    &&& e.destination_address@ == b.subrange(40, 56)
    &&& e.command@ == b.subrange(56, 72)
}

/// Decodes a record laid out with integers in the given order.
pub fn decode_in_order(bytes: &[u8], order: ByteOrder) -> (r: Result<KernelEvent, DecodeError>)
    ensures
        bytes@.len() != KERNEL_EVENT_SIZE ==> r == Err::<KernelEvent, DecodeError>(
            DecodeError::InvalidSize { actual: bytes@.len() as usize, expected: KERNEL_EVENT_SIZE },
        ),
        bytes@.len() == KERNEL_EVENT_SIZE ==> r is Ok && kernel_event_decoded(r->Ok_0, bytes@, order),
{
    if bytes.len() != KERNEL_EVENT_SIZE {
        return Err(DecodeError::InvalidSize { actual: bytes.len(), expected: KERNEL_EVENT_SIZE });
    }
    Ok(
        KernelEvent {
            timestamp_ns: read_u64(bytes, 0, order),
            cgroup_id: read_u64(bytes, 8, order),
            pid_tgid: read_u64(bytes, 16, order),
            syscall_id: read_u32(bytes, 24, order),
            connect_result: read_u32(bytes, 28, order) as i32,
            event_kind: bytes[32],
            address_family: bytes[33],
            connect_outcome: bytes[34],
            padding: bytes[35],
            destination_port: read_u16(bytes, 36, order),
            errno: read_u16(bytes, 38, order),
            destination_address: array16_at(bytes, 40),
            command: array16_at(bytes, 56),
        },
    )
}

/// `u16::from_ne_bytes`: the two bytes read as one integer in the machine's
/// own order, which is one of the two orders.
#[verifier::external_body]
fn u16_from_ne_bytes(bytes: [u8; 2]) -> (r: u16)
    ensures
        r == bytes[0] + bytes[1] * 256 || r == bytes[0] * 256 + bytes[1],
{
    u16::from_ne_bytes(bytes)
}

/// The machine's byte order, found by reading a known pair of bytes.
pub fn native_order() -> (r: ByteOrder) {
    if u16_from_ne_bytes([1, 0]) == 1 {
        ByteOrder::Little
    } else {
        ByteOrder::Big
    }
}

/// Decodes a kernel record laid out with the machine's native integers.
pub fn decode(bytes: &[u8]) -> (r: Result<KernelEvent, DecodeError>)
    ensures
        bytes@.len() != KERNEL_EVENT_SIZE ==> r == Err::<KernelEvent, DecodeError>(
            DecodeError::InvalidSize { actual: bytes@.len() as usize, expected: KERNEL_EVENT_SIZE },
        ),
        bytes@.len() == KERNEL_EVENT_SIZE ==> r is Ok && (kernel_event_decoded(
            r->Ok_0,
            bytes@,
            ByteOrder::Little,
        ) || kernel_event_decoded(r->Ok_0, bytes@, ByteOrder::Big)),
{
    decode_in_order(bytes, native_order())
}

/// The destination a kernel record names: the first four octets for IPv4, all
/// sixteen for IPv6.
pub open spec fn kernel_destination(e: KernelEvent) -> Option<(NetworkAddressFamily, IpAddr)> {
    if e.address_family == ADDRESS_FAMILY_IPV4 {
        Some(
            (
                NetworkAddressFamily::Ipv4,
                IpAddr::V4(
                    [
                        e.destination_address[0],
                        e.destination_address[1],
                        e.destination_address[2],
                        e.destination_address[3],
                    ],
                ),
            ),
        )
    } else if e.address_family == ADDRESS_FAMILY_IPV6 {
        Some((NetworkAddressFamily::Ipv6, IpAddr::V6(e.destination_address)))
    } else {
        None
    }
}

/// The outcome a kernel record names, with its errno: none on success when the
/// errno is zero.
pub open spec fn kernel_outcome(e: KernelEvent) -> Option<(NetworkConnectOutcome, Option<u16>)> {
    if e.connect_outcome == CONNECT_OUTCOME_SUCCEEDED {
        Some((NetworkConnectOutcome::Succeeded, if e.errno != 0 { Some(e.errno) } else { None }))
    } else if e.connect_outcome == CONNECT_OUTCOME_IN_PROGRESS {
        Some((NetworkConnectOutcome::InProgress, Some(e.errno)))
    } else if e.connect_outcome == CONNECT_OUTCOME_FAILED {
        Some((NetworkConnectOutcome::Failed, Some(e.errno)))
    } else {
        None
    }
}

/// What `network_connect` returns for a kernel record.
pub open spec fn network_connect_of(e: KernelEvent) -> Result<NetworkConnect, NetworkDecodeError> {
    match kernel_destination(e) {
        None => Err(NetworkDecodeError::UnsupportedFamily(e.address_family)),
        Some((family, address)) => match kernel_outcome(e) {
            None => Err(NetworkDecodeError::UnsupportedOutcome(e.connect_outcome)),
            Some((outcome, errno)) => match network_connect_result(
                family,
                address,
                e.destination_port,
                outcome,
                errno,
            ) {
                Ok(n) => Ok(n),
                Err(err) => Err(NetworkDecodeError::Invalid(err)),
            },
        },
    }
}

/// The validated connection attempt that a connect record describes.
pub fn network_connect(event: &KernelEvent) -> (r: Result<NetworkConnect, NetworkDecodeError>)
    ensures
        r == network_connect_of(*event),
{
    let a = &event.destination_address;
    let (address_family, destination_address) = if event.address_family == ADDRESS_FAMILY_IPV4 {
        (NetworkAddressFamily::Ipv4, IpAddr::V4([a[0], a[1], a[2], a[3]]))
    } else if event.address_family == ADDRESS_FAMILY_IPV6 {
        (NetworkAddressFamily::Ipv6, IpAddr::V6(event.destination_address))
    } else {
        return Err(NetworkDecodeError::UnsupportedFamily(event.address_family));
    };
    let (outcome, errno) = if event.connect_outcome == CONNECT_OUTCOME_SUCCEEDED {
        (NetworkConnectOutcome::Succeeded, if event.errno != 0 { Some(event.errno) } else { None })
    } else if event.connect_outcome == CONNECT_OUTCOME_IN_PROGRESS {
        (NetworkConnectOutcome::InProgress, Some(event.errno))
    } else if event.connect_outcome == CONNECT_OUTCOME_FAILED {
        (NetworkConnectOutcome::Failed, Some(event.errno))
    } else {
        return Err(NetworkDecodeError::UnsupportedOutcome(event.connect_outcome));
    };
    match NetworkConnect::new(
        address_family,
        destination_address,
        event.destination_port,
        outcome,
        errno,
    ) {
        Ok(n) => Ok(n),
        Err(e) => Err(NetworkDecodeError::Invalid(e)),
    }
}

/// The process id (low 32 bits) and thread-group id (high 32 bits) packed in
/// a kernel `pid_tgid`.
pub fn pid_and_tgid(pid_tgid: u64) -> (r: (u32, u32))
    ensures
        r.0 == pid_tgid % 4294967296,
        r.1 == pid_tgid / 4294967296,
{
    ((pid_tgid % 4294967296) as u32, (pid_tgid / 4294967296) as u32)
}

/// The bytes of a command before its first NUL (all of them when there is
/// none).
pub open spec fn before_nul(b: Seq<u8>) -> Seq<u8> {
    if exists|i: int| 0 <= i < b.len() && b[i] == 0 {
        b.take(choose|i: int| 0 <= i < b.len() && b[i] == 0 && forall|j: int| 0 <= j < i ==> b[j] != 0)
    } else {
        b
    }
}

/// The characters of bytes that are all ASCII.
pub open spec fn ascii_chars(b: Seq<u8>) -> Seq<char> {
    b.map_values(|x: u8| x as char)
}

/// The text `String::from_utf8_lossy` makes of some bytes.
pub uninterp spec fn spec_utf8_lossy(bytes: Seq<u8>) -> Seq<char>;

/// `String::from_utf8_lossy(..).into_owned()`: the bytes read as UTF-8, each
/// invalid sequence replaced by U+FFFD. Valid UTF-8, ASCII among it, is taken
/// unchanged.
#[verifier::external_body]
fn utf8_lossy(bytes: &[u8]) -> (r: String)
    ensures
        r@ == spec_utf8_lossy(bytes@),
        (forall|i: int| 0 <= i < bytes@.len() ==> bytes@[i] < 128) ==> r@ == ascii_chars(bytes@),
{
    String::from_utf8_lossy(bytes).into_owned()
}

/// The command name in a kernel record: the bytes before the first NUL, read
/// as lossy UTF-8.
pub fn command(bytes: &[u8; 16]) -> (r: String)
    ensures
        r@ == spec_utf8_lossy(before_nul(bytes@)),
{
    let mut prefix: Vec<u8> = Vec::new();
    let mut i: usize = 0;
    while i < COMMAND_LEN && bytes[i] != 0
        invariant
            i <= COMMAND_LEN,
            bytes@.len() == COMMAND_LEN,
            prefix@ == bytes@.take(i as int),
            forall|j: int| 0 <= j < i ==> bytes@[j] != 0,
        decreases COMMAND_LEN - i,
    {
        prefix.push(bytes[i]);
        i = i + 1;
        assert(prefix@ =~= bytes@.take(i as int));
    }
    proof {
        if i < COMMAND_LEN {
            let k = choose|k: int| 0 <= k < bytes@.len() && bytes@[k] == 0 && forall|j: int|
                0 <= j < k ==> bytes@[j] != 0;
            assert(bytes@[i as int] == 0);
            assert(k == i) by {
                if k < i {
                    assert(bytes@[k] != 0);
                } else if k > i {
                    assert(bytes@[i as int] != 0);
                }
            }
        } else {
            assert(bytes@.take(16) =~= bytes@);
        }
    }
    utf8_lossy(prefix.as_slice())
}

/// A connect that the kernel recorded (a non-zero port to an IPv4 or IPv6
/// address, and a decodable return value) is always accepted by user space,
/// with the outcome the kernel classified.
pub proof fn lemma_completed_connect_decodes(pending: PendingConnect, result: i64)
    requires
        pending.destination_port != 0,
        pending.address_family == ADDRESS_FAMILY_IPV4 || pending.address_family
            == ADDRESS_FAMILY_IPV6,
        connect_outcome_of(result) is Some,
    ensures
        completed_connect_of(pending, result) matches Some(e) && network_connect_of(e) is Ok,
        completed_connect_of(pending, result) matches Some(e) && (network_connect_of(e)
            matches Ok(n) && n.destination_port == pending.destination_port && (result == 0
            <==> n.outcome == NetworkConnectOutcome::Succeeded) && (result == -EINPROGRESS
            <==> n.outcome == NetworkConnectOutcome::InProgress)),
{
}

/// A destination that the connect entry tracepoint keeps, once its connect
/// returns a decodable result, reaches user space as a network event with
/// that port.
pub proof fn lemma_entered_connect_decodes(
    address_present: bool,
    family: Option<u16>,
    address_len: u64,
    sockaddr: Option<Seq<u8>>,
    pending: PendingConnect,
    result: i64,
)
    requires
        connect_entry_of(address_present, family, address_len, sockaddr) matches EntryDecision::Destination {
            address_family,
            destination_port,
            destination_address,
        } && pending.address_family == address_family && pending.destination_port
            == destination_port && pending.destination_address@ == destination_address,
        connect_outcome_of(result) is Some,
    ensures
        completed_connect_of(pending, result) matches Some(e) && (network_connect_of(e) matches Ok(n)
            && n.destination_port == pending.destination_port),
{
    lemma_completed_connect_decodes(pending, result);
}

} // verus!
