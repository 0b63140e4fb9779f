//! The STUN subset used for reflexive-address discovery: one Binding Request,
//! and the parse of its Binding Response (XOR-MAPPED-ADDRESS preferred,
//! MAPPED-ADDRESS as fallback, IPv4 and IPv6).
use vstd::prelude::*;
use crate::bytes::{be16, be16_bytes, push_all, push_be16, read_be16, lemma_be16_round_trip};

verus! {

pub const STUN_BINDING_REQUEST: u16 = 0x0001;
pub const STUN_BINDING_RESPONSE: u16 = 0x0101;
pub const STUN_MAGIC_COOKIE: u32 = 0x2112A442;
pub const ATTR_MAPPED_ADDRESS: u16 = 0x0001;
pub const ATTR_XOR_MAPPED_ADDRESS: u16 = 0x0020;
/// Address family codes inside an address attribute.
pub const FAMILY_IPV4: u8 = 0x01;
pub const FAMILY_IPV6: u8 = 0x02;
/// Length of a STUN header.
pub const HEADER_LEN: usize = 20;
/// How long the client waits for the response, in milliseconds.
pub const STUN_READ_TIMEOUT_MS: u64 = 5000;

/// The magic cookie as it stands on the wire.
pub open spec fn cookie_bytes() -> Seq<u8> {
    seq![0x21u8, 0x12u8, 0xa4u8, 0x42u8]
}

/// The port mask: the high 16 bits of the cookie.
pub open spec fn port_mask() -> u16 {
    0x2112u16
}

/// The 16-byte mask of an IPv6 address: cookie ‖ transaction ID.
pub open spec fn ipv6_mask(tid: Seq<u8>) -> Seq<u8> {
    cookie_bytes() + tid
}

/// Byte-wise XOR of `a` with the first `a.len()` bytes of `mask`.
pub open spec fn xor_seq(a: Seq<u8>, mask: Seq<u8>) -> Seq<u8> {
    Seq::new(a.len(), |i: int| a[i] ^ mask[i])
}

/// An attribute value's length rounded up to the 4-byte boundary.
pub open spec fn padded(len: int) -> int {
    len + 3 - (len + 3) % 4
}

/// Why a STUN exchange produced no address.
#[derive(Debug, Clone, Copy, PartialEq, Eq, Structural)]
pub enum StunError {
    /// Fewer than 20 bytes.
    TooShort,
    /// The message type is not a Binding Response; carries the type seen.
    UnexpectedType(u16),
    /// The magic cookie is wrong.
    InvalidCookie,
    /// The transaction ID differs from the request's.
    TransactionMismatch,
    /// The header announces more attribute bytes than arrived.
    Truncated,
    /// No complete address attribute before the end of the message.
    NoAddressAttribute,
    /// An address attribute too short for its family.
    AddressTooShort,
    /// An address family other than IPv4 or IPv6; carries the code seen.
    UnknownFamily(u8),
    /// No response within the read timeout.
    Timeout,
}

impl StunError {
    /// A short reason, as the pipeline reports it.
    pub fn reason(&self) -> (r: String)
        ensures
            r@ == stun_reason(*self),
    {
        match self {
            StunError::TooShort => "response too short".to_owned(),
            StunError::UnexpectedType(_) => "unexpected message type".to_owned(),
            StunError::InvalidCookie => "invalid magic cookie".to_owned(),
            StunError::TransactionMismatch => "transaction id mismatch".to_owned(),
            StunError::Truncated => "response truncated".to_owned(),
            StunError::NoAddressAttribute => "no address attribute".to_owned(),
            StunError::AddressTooShort => "address attribute too short".to_owned(),
            StunError::UnknownFamily(_) => "unknown address family".to_owned(),
            StunError::Timeout => "timeout".to_owned(),
        }
    }
}

/// The reason text of each STUN failure.
pub open spec fn stun_reason(e: StunError) -> Seq<char> {
    match e {
        StunError::TooShort => "response too short"@,
        StunError::UnexpectedType(_) => "unexpected message type"@,
        StunError::InvalidCookie => "invalid magic cookie"@,
        StunError::TransactionMismatch => "transaction id mismatch"@,
        StunError::Truncated => "response truncated"@,
        StunError::NoAddressAttribute => "no address attribute"@,
        StunError::AddressTooShort => "address attribute too short"@,
        StunError::UnknownFamily(_) => "unknown address family"@,
        StunError::Timeout => "timeout"@,
    }
}

/// An IP address as its octets: four for IPv4, sixteen for IPv6.
#[derive(Debug, Clone, PartialEq, Eq)]
pub enum IpAddress {
    V4(Vec<u8>),
    V6(Vec<u8>),
}

impl View for IpAddress {
    type V = Seq<u8>;

    open spec fn view(&self) -> Seq<u8> {
        match self {
            IpAddress::V4(o) => o@,
            IpAddress::V6(o) => o@,
        }
    }
}

impl IpAddress {
    /// Four octets for IPv4, sixteen for IPv6.
    pub open spec fn wf(&self) -> bool {
        match self {
            IpAddress::V4(o) => o@.len() == 4,
            IpAddress::V6(o) => o@.len() == 16,
        }
    }
}

/// An IP address and a port.
#[derive(Debug, Clone, PartialEq, Eq)]
pub struct SocketAddress {
    pub ip: IpAddress,
    pub port: u16,
}

/// The reflexive address that the server observed.
#[derive(Debug, Clone, PartialEq, Eq)]
pub struct StunResponse {
    pub external_ip: IpAddress,
    pub external_port: u16,
}

impl View for StunResponse {
    type V = (Seq<u8>, u16);

    open spec fn view(&self) -> (Seq<u8>, u16) {
        (self.external_ip@, self.external_port)
    }
}

/// The 20-byte Binding Request with the given transaction ID.
pub open spec fn binding_request(tid: Seq<u8>) -> Seq<u8> {
    be16_bytes(STUN_BINDING_REQUEST) + be16_bytes(0) + cookie_bytes() + tid
}

/// The address carried by an address attribute's value; `xored` for
/// XOR-MAPPED-ADDRESS.
pub open spec fn decode_address(value: Seq<u8>, tid: Seq<u8>, xored: bool) -> Result<
    (Seq<u8>, u16),
    StunError,
> {
    if value.len() < 8 {
        Err(StunError::AddressTooShort)
    } else {
        let raw_port = be16(value[2], value[3]);
        let port = if xored {
            raw_port ^ port_mask()
        } else {
            raw_port
        };
        if value[1] == FAMILY_IPV4 {
            let o = value.subrange(4, 8);
            Ok(
                (
                    if xored {
                        xor_seq(o, cookie_bytes())
                    } else {
                        o
                    },
                    port,
                ),
            )
        } else if value[1] == FAMILY_IPV6 {
            if value.len() < 20 {
                Err(StunError::AddressTooShort)
            } else {
                let o = value.subrange(4, 20);
                Ok(
                    (
                        if xored {
                            xor_seq(o, ipv6_mask(tid))
                        } else {
                            o
                        },
                        port,
                    ),
                )
            }
        } else {
            Err(StunError::UnknownFamily(value[1]))
        }
    }
}

/// The end of a walk: the MAPPED-ADDRESS kept as fallback, if one was seen.
pub open spec fn fallback_result(mapped: Option<Result<(Seq<u8>, u16), StunError>>) -> Result<
    (Seq<u8>, u16),
    StunError,
> {
    match mapped {
        Some(r) => r,
        None => Err(StunError::NoAddressAttribute),
    }
}

/// The walk over the attributes from `offset` up to `end`. An
/// XOR-MAPPED-ADDRESS decides at once; the first MAPPED-ADDRESS is kept in
/// `mapped` and decides only if no XOR-MAPPED-ADDRESS follows. A header or
/// value that runs past the data ends the walk.
pub open spec fn scan_attributes(
    d: Seq<u8>,
    tid: Seq<u8>,
    offset: int,
    end: int,
    mapped: Option<Result<(Seq<u8>, u16), StunError>>,
) -> Result<(Seq<u8>, u16), StunError>
    decreases end - offset,
{
    if offset < 0 || offset >= end || offset + 4 > d.len() {
        fallback_result(mapped)
    } else {
        let attr_type = be16(d[offset], d[offset + 1]);
        let len = be16(d[offset + 2], d[offset + 3]) as int;
        let v = offset + 4;
        if v + len > d.len() {
            fallback_result(mapped)
        } else if attr_type == ATTR_XOR_MAPPED_ADDRESS {
            decode_address(d.subrange(v, v + len), tid, true)
        } else {
            let seen = if attr_type == ATTR_MAPPED_ADDRESS && mapped is None {
                Some(decode_address(d.subrange(v, v + len), tid, false))
            } else {
                mapped
            };
            if v + padded(len) >= end {
                fallback_result(seen)
            } else {
                proof {
                    assert(padded(len) >= 0) by (nonlinear_arith)
                        requires
                            len >= 0,
                            padded(len) == len + 3 - (len + 3) % 4,
                    ;
                }
                scan_attributes(d, tid, v + padded(len), end, seen)
            }
        }
    }
}

/// What a Binding Response says, for a request with transaction ID `tid`.
pub open spec fn parse_response(d: Seq<u8>, tid: Seq<u8>) -> Result<(Seq<u8>, u16), StunError> {
    if d.len() < HEADER_LEN {
        Err(StunError::TooShort)
    } else if be16(d[0], d[1]) != STUN_BINDING_RESPONSE {
        Err(StunError::UnexpectedType(be16(d[0], d[1])))
    } else if d.subrange(4, 8) != cookie_bytes() {
        Err(StunError::InvalidCookie)
    } else if d.subrange(8, 20) != tid {
        Err(StunError::TransactionMismatch)
    } else if d.len() < HEADER_LEN + be16(d[2], d[3]) {
        Err(StunError::Truncated)
    } else {
        scan_attributes(d, tid, HEADER_LEN as int, HEADER_LEN + be16(d[2], d[3]), None)
    }
}

/// The result of a parse as the library returns it.
pub open spec fn parsed_as(
    r: Result<StunResponse, StunError>,
    s: Result<(Seq<u8>, u16), StunError>,
) -> bool {
    match s {
        Ok(v) => r is Ok && r->Ok_0@ == v && r->Ok_0.external_ip.wf(),
        Err(e) => r == Err::<StunResponse, StunError>(e),
    }
}

/// A fresh random transaction ID.
pub fn new_transaction_id() -> (r: [u8; 12]) {
    rand::random::<[u8; 12]>()
}

/// The Binding Request: type 0x0001, length 0, the cookie, the transaction ID.
pub fn build_binding_request(transaction_id: &[u8; 12]) -> (r: Vec<u8>)
    ensures
        r@ == binding_request(transaction_id@),
{
    let mut request: Vec<u8> = Vec::new();
    push_be16(&mut request, STUN_BINDING_REQUEST);
    push_be16(&mut request, 0);
    let cookie: Vec<u8> = vec![0x21u8, 0x12u8, 0xa4u8, 0x42u8];
    assert(cookie@ =~= cookie_bytes());
    push_all(&mut request, cookie.as_slice());
    push_all(&mut request, vstd::array::array_as_slice(transaction_id));
    request
}

/// The octets `data[start..start + mask.len()]` XORed with `mask`.
fn xor_octets(data: &[u8], start: usize, mask: &Vec<u8>) -> (r: Vec<u8>)
    requires
        start + mask@.len() <= data@.len(),
    ensures
        r@ == xor_seq(data@.subrange(start as int, start + mask@.len()), mask@),
{
    let mut out: Vec<u8> = Vec::new();
    let n = data.len();
    let mut i: usize = 0;
    while i < mask.len()
        invariant
            n == data@.len(),
            i <= mask@.len(),
            start + mask@.len() <= data@.len(),
            out@ == xor_seq(data@.subrange(start as int, start + i), mask@),
        decreases mask@.len() - i,
    {
        out.push(data[start + i] ^ mask[i]);
        i = i + 1;
        assert(out@ =~= xor_seq(data@.subrange(start as int, start + i), mask@));
    }
    out
}

/// The octets `data[start..end]`.
fn copy_octets(data: &[u8], start: usize, end: usize) -> (r: Vec<u8>)
    requires
        start <= end <= data@.len(),
    ensures
        r@ == data@.subrange(start as int, end as int),
{
    let mut out: Vec<u8> = Vec::new();
    push_all(&mut out, vstd::slice::slice_subrange(data, start, end));
    out
}

/// Decodes an XOR-MAPPED-ADDRESS value.
pub fn parse_xor_mapped_address(data: &[u8], transaction_id: &[u8; 12]) -> (r: Result<
    StunResponse,
    StunError,
>)
    ensures
        parsed_as(r, decode_address(data@, transaction_id@, true)),
{
    if data.len() < 8 {
        return Err(StunError::AddressTooShort);
    }
    let family = data[1];
    let port = read_be16(data, 2) ^ 0x2112u16;
    if family == FAMILY_IPV4 {
        let mask: Vec<u8> = vec![0x21u8, 0x12u8, 0xa4u8, 0x42u8];
        assert(mask@ =~= cookie_bytes());
        let octets = xor_octets(data, 4, &mask);
        Ok(StunResponse { external_ip: IpAddress::V4(octets), external_port: port })
    } else if family == FAMILY_IPV6 {
        if data.len() < 20 {
            return Err(StunError::AddressTooShort);
        }
        let mut mask: Vec<u8> = vec![0x21u8, 0x12u8, 0xa4u8, 0x42u8];
        push_all(&mut mask, vstd::array::array_as_slice(transaction_id));
        assert(mask@ =~= ipv6_mask(transaction_id@));
        let octets = xor_octets(data, 4, &mask);
        Ok(StunResponse { external_ip: IpAddress::V6(octets), external_port: port })
    } else {
        Err(StunError::UnknownFamily(family))
    }
}

/// Decodes a MAPPED-ADDRESS value.
pub fn parse_mapped_address(data: &[u8]) -> (r: Result<StunResponse, StunError>)
    ensures
        forall|tid: Seq<u8>| parsed_as(r, #[trigger] decode_address(data@, tid, false)),
{
    if data.len() < 8 {
        return Err(StunError::AddressTooShort);
    }
    let family = data[1];
    let port = read_be16(data, 2);
    if family == FAMILY_IPV4 {
        let octets = copy_octets(data, 4, 8);
        Ok(StunResponse { external_ip: IpAddress::V4(octets), external_port: port })
    } else if family == FAMILY_IPV6 {
        if data.len() < 20 {
            return Err(StunError::AddressTooShort);
        }
        let octets = copy_octets(data, 4, 20);
        Ok(StunResponse { external_ip: IpAddress::V6(octets), external_port: port })
    } else {
        Err(StunError::UnknownFamily(family))
    }
}

/// Whether `data[start..start + 12]` equals the transaction ID.
fn same_transaction(data: &[u8], start: usize, transaction_id: &[u8; 12]) -> (r: bool)
    requires
        start + 12 <= data@.len(),
    ensures
        r == (data@.subrange(start as int, start + 12) == transaction_id@),
{
    let n = data.len();
    let mut i: usize = 0;
    while i < 12
        invariant
            n == data@.len(),
            i <= 12,
            start + 12 <= data@.len(),
            transaction_id@.len() == 12,
            data@.subrange(start as int, start + i) == transaction_id@.subrange(0, i as int),
        decreases 12 - i,
    {
        if data[start + i] != transaction_id[i] {
            assert(data@.subrange(start as int, start + 12)[i as int] != transaction_id@[i as int]);
            return false;
        }
        i = i + 1;
        assert(data@.subrange(start as int, start + i) =~= transaction_id@.subrange(0, i as int));
    }
    assert(transaction_id@.subrange(0, 12) =~= transaction_id@);
    true
}

/// Parses a Binding Response to the request with `transaction_id`.
pub fn parse_binding_response(data: &[u8], transaction_id: &[u8; 12]) -> (r: Result<
    StunResponse,
    StunError,
>)
    ensures
        parsed_as(r, parse_response(data@, transaction_id@)),
{
    if data.len() < HEADER_LEN {
        return Err(StunError::TooShort);
    }
    let msg_type = read_be16(data, 0);
    if msg_type != STUN_BINDING_RESPONSE {
        return Err(StunError::UnexpectedType(msg_type));
    }
    if !(data[4] == 0x21u8 && data[5] == 0x12u8 && data[6] == 0xa4u8 && data[7] == 0x42u8) {
        assert(data@.subrange(4, 8) != cookie_bytes()) by {
            if data@.subrange(4, 8) == cookie_bytes() {
                assert(data@.subrange(4, 8)[0] == data@[4]);
                assert(data@.subrange(4, 8)[1] == data@[5]);
                assert(data@.subrange(4, 8)[2] == data@[6]);
                assert(data@.subrange(4, 8)[3] == data@[7]);
            }
        }
        return Err(StunError::InvalidCookie);
    }
    assert(data@.subrange(4, 8) =~= cookie_bytes());
    if !same_transaction(data, 8, transaction_id) {
        return Err(StunError::TransactionMismatch);
    }
    let msg_len = read_be16(data, 2) as usize;
    if data.len() - HEADER_LEN < msg_len {
        return Err(StunError::Truncated);
    }
    let end = HEADER_LEN + msg_len;
    let mut offset: usize = HEADER_LEN;
    let mut mapped: Option<Result<StunResponse, StunError>> = None;
    let ghost mut seen: Option<Result<(Seq<u8>, u16), StunError>> = None;
    while offset < end
        invariant
            HEADER_LEN <= offset,
            end <= data@.len(),
            scan_attributes(data@, transaction_id@, offset as int, end as int, seen)
                == parse_response(data@, transaction_id@),
            seen is None <==> mapped is None,
            mapped is Some ==> parsed_as(mapped->Some_0, seen->Some_0),
        decreases end - offset,
    {
        if data.len() - offset < 4 {
            return take_fallback(mapped, Ghost(seen));
        }
        let attr_type = read_be16(data, offset);
        let attr_len = read_be16(data, offset + 2) as usize;
        let value_start = offset + 4;
        if data.len() - value_start < attr_len {
            return take_fallback(mapped, Ghost(seen));
        }
        let value = vstd::slice::slice_subrange(data, value_start, value_start + attr_len);
        if attr_type == ATTR_XOR_MAPPED_ADDRESS {
            return parse_xor_mapped_address(value, transaction_id);
        }
        let first_mapped = match mapped {
            None => attr_type == ATTR_MAPPED_ADDRESS,
            Some(_) => false,
        };
        if first_mapped {
            let r = parse_mapped_address(value);
            proof {
                seen = Some(decode_address(value@, transaction_id@, false));
            }
            mapped = Some(r);
        }
        let step = attr_len + 3 - (attr_len + 3) % 4;
        if value_start >= end || end - value_start <= step {
            return take_fallback(mapped, Ghost(seen));
        }
        offset = value_start + step;
    }
    take_fallback(mapped, Ghost(seen))
}

/// The result of a finished walk: the MAPPED-ADDRESS kept, or no address.
fn take_fallback(
    mapped: Option<Result<StunResponse, StunError>>,
    seen: Ghost<Option<Result<(Seq<u8>, u16), StunError>>>,
) -> (r: Result<StunResponse, StunError>)
    requires
        seen@ is None <==> mapped is None,
        mapped is Some ==> parsed_as(mapped->Some_0, seen@->Some_0),
    ensures
        parsed_as(r, fallback_result(seen@)),
{
    match mapped {
        Some(r) => r,
        None => Err(StunError::NoAddressAttribute),
    }
}

/// A Binding Response whose one attribute is an IPv4 XOR-MAPPED-ADDRESS for
/// `addr`:`port`, encoded against the cookie.
pub open spec fn xor_mapped_ipv4_response(tid: Seq<u8>, addr: Seq<u8>, port: u16) -> Seq<u8> {
    be16_bytes(STUN_BINDING_RESPONSE) + be16_bytes(12) + cookie_bytes() + tid + be16_bytes(
        ATTR_XOR_MAPPED_ADDRESS,
    ) + be16_bytes(8) + seq![0u8, FAMILY_IPV4] + be16_bytes(port ^ port_mask()) + xor_seq(
        addr,
        cookie_bytes(),
    )
}

/// An IPv4 address and port XORed against the cookie in a Binding Response
/// decode to the same address and port, bit for bit.
pub proof fn lemma_xor_mapped_ipv4_decodes(tid: Seq<u8>, addr: Seq<u8>, port: u16)
    requires
        tid.len() == 12,
        addr.len() == 4,
    ensures
        parse_response(xor_mapped_ipv4_response(tid, addr, port), tid) == Ok::<
            (Seq<u8>, u16),
            StunError,
        >((addr, port)),
{
    let d = xor_mapped_ipv4_response(tid, addr, port);
    let m = port ^ port_mask();
    lemma_be16_round_trip(STUN_BINDING_RESPONSE);
    lemma_be16_round_trip(12);
    lemma_be16_round_trip(ATTR_XOR_MAPPED_ADDRESS);
    lemma_be16_round_trip(8);
    lemma_be16_round_trip(m);
    assert(d.len() == 32);
    assert(d[0] == be16_bytes(STUN_BINDING_RESPONSE)[0] && d[1] == be16_bytes(
        STUN_BINDING_RESPONSE,
    )[1]);
    assert(d[2] == be16_bytes(12)[0] && d[3] == be16_bytes(12)[1]);
    assert(d.subrange(4, 8) =~= cookie_bytes());
    assert(d.subrange(8, 20) =~= tid);
    assert(d[20] == be16_bytes(ATTR_XOR_MAPPED_ADDRESS)[0] && d[21] == be16_bytes(
        ATTR_XOR_MAPPED_ADDRESS,
    )[1]);
    assert(d[22] == be16_bytes(8)[0] && d[23] == be16_bytes(8)[1]);
    let value = d.subrange(24, 32);
    assert(value[1] == FAMILY_IPV4);
    assert(value[2] == be16_bytes(m)[0] && value[3] == be16_bytes(m)[1]);
    assert(m ^ port_mask() == port) by (bit_vector)
        requires
            m == port ^ 0x2112u16,
    ;
    let c = cookie_bytes();
    assert forall|i: int| 0 <= i < 4 implies #[trigger] xor_seq(value.subrange(4, 8), c)[i]
        == addr[i] by {
        let a = addr[i];
        let k = c[i];
        assert(value.subrange(4, 8)[i] == a ^ k);
        assert((a ^ k) ^ k == a) by (bit_vector);
    }
    assert(xor_seq(value.subrange(4, 8), c) =~= addr);
    assert(scan_attributes(d, tid, 20, 32, None) == decode_address(value, tid, true));
}

/// A Binding Response that carries an IPv4 MAPPED-ADDRESS for `x`:`x_port`
/// followed by an IPv4 XOR-MAPPED-ADDRESS for `y`:`y_port`.
pub open spec fn mapped_then_xor_response(
    tid: Seq<u8>,
    x: Seq<u8>,
    x_port: u16,
    y: Seq<u8>,
    y_port: u16,
) -> Seq<u8> {
    be16_bytes(STUN_BINDING_RESPONSE) + be16_bytes(24) + cookie_bytes() + tid + be16_bytes(
        ATTR_MAPPED_ADDRESS,
    ) + be16_bytes(8) + seq![0u8, FAMILY_IPV4] + be16_bytes(x_port) + x + be16_bytes(
        ATTR_XOR_MAPPED_ADDRESS,
    ) + be16_bytes(8) + seq![0u8, FAMILY_IPV4] + be16_bytes(y_port ^ port_mask()) + xor_seq(
        y,
        cookie_bytes(),
    )
}

/// XOR-MAPPED-ADDRESS is preferred: a MAPPED-ADDRESS that comes first does
/// not decide when an XOR-MAPPED-ADDRESS follows.
pub proof fn lemma_xor_mapped_preferred(
    tid: Seq<u8>,
    x: Seq<u8>,
    x_port: u16,
    y: Seq<u8>,
    y_port: u16,
)
    requires
        tid.len() == 12,
        x.len() == 4,
        y.len() == 4,
    ensures
        parse_response(mapped_then_xor_response(tid, x, x_port, y, y_port), tid) == Ok::<
            (Seq<u8>, u16),
            StunError,
        >((y, y_port)),
{
    let d = mapped_then_xor_response(tid, x, x_port, y, y_port);
    let m = y_port ^ port_mask();
    lemma_be16_round_trip(STUN_BINDING_RESPONSE);
    lemma_be16_round_trip(24);
    lemma_be16_round_trip(ATTR_MAPPED_ADDRESS);
    lemma_be16_round_trip(ATTR_XOR_MAPPED_ADDRESS);
    lemma_be16_round_trip(8);
    lemma_be16_round_trip(m);
    assert(d.len() == 44);
    assert(d[0] == be16_bytes(STUN_BINDING_RESPONSE)[0] && d[1] == be16_bytes(
        STUN_BINDING_RESPONSE,
    )[1]);
    assert(d[2] == be16_bytes(24)[0] && d[3] == be16_bytes(24)[1]);
    assert(d.subrange(4, 8) =~= cookie_bytes());
    assert(d.subrange(8, 20) =~= tid);
    assert(d[20] == be16_bytes(ATTR_MAPPED_ADDRESS)[0] && d[21] == be16_bytes(
        ATTR_MAPPED_ADDRESS,
    )[1]);
    assert(d[22] == be16_bytes(8)[0] && d[23] == be16_bytes(8)[1]);
    assert(d[32] == be16_bytes(ATTR_XOR_MAPPED_ADDRESS)[0] && d[33] == be16_bytes(
        ATTR_XOR_MAPPED_ADDRESS,
    )[1]);
    assert(d[34] == be16_bytes(8)[0] && d[35] == be16_bytes(8)[1]);
    let seen = Some(decode_address(d.subrange(24, 32), tid, false));
    assert(padded(8) == 8);
    assert(scan_attributes(d, tid, 20, 44, None) == scan_attributes(d, tid, 32, 44, seen));
    let value = d.subrange(36, 44);
    assert(value[1] == FAMILY_IPV4);
    assert(value[2] == be16_bytes(m)[0] && value[3] == be16_bytes(m)[1]);
    assert(m ^ port_mask() == y_port) by (bit_vector)
        requires
            m == y_port ^ 0x2112u16,
    ;
    let c = cookie_bytes();
    assert forall|i: int| 0 <= i < 4 implies #[trigger] xor_seq(value.subrange(4, 8), c)[i]
        == y[i] by {
        let a = y[i];
        let k = c[i];
        assert(value.subrange(4, 8)[i] == a ^ k);
        assert((a ^ k) ^ k == a) by (bit_vector);
    }
    assert(xor_seq(value.subrange(4, 8), c) =~= y);
    assert(scan_attributes(d, tid, 32, 44, seen) == decode_address(value, tid, true));
}

} // verus!
