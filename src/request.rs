//! Request records as the ledger stores them, and their decoding.
//!
//! An account payload starts with the 8-byte tag `"REQUEST\0"`. The body that
//! follows is laid out as: requester (32 bytes), subscription (32 bytes), seed
//! length (u32, little-endian), seed bytes, status (one byte: 0 pending,
//! 1 fulfilled, 2 cancelled, 3 expired). The body must be consumed exactly.
use vstd::prelude::*;
use crate::bytes::{le_u32, le_bytes_u32, read_le_u32, copy_range};

verus! {

pub const TAG_LEN: usize = 8;

pub const ADDRESS_LEN: usize = 32;

/// Offset in the body of the seed length.
pub const SEED_LEN_AT: usize = 64;

/// Offset in the body of the first seed byte.
pub const SEED_AT: usize = 68;

/// The tag that marks an account payload as a request record.
pub open spec fn request_tag() -> Seq<u8> {
    seq![82u8, 69u8, 81u8, 85u8, 69u8, 83u8, 84u8, 0u8]
}

/// The tag as bytes.
pub fn request_tag_bytes() -> (r: Vec<u8>)
    ensures
        r@ == request_tag(),
{
    let r: Vec<u8> = vec![82u8, 69u8, 81u8, 85u8, 69u8, 83u8, 84u8, 0u8];
    proof {
        assert(r@ =~= request_tag());
    }
    r
}

#[derive(Debug, Clone, Copy, PartialEq, Eq, Structural)]
pub enum RequestStatus {
    Pending,
    Fulfilled,
    Cancelled,
    Expired,
}

/// The status that a status byte encodes, if any.
pub open spec fn status_of_byte(b: u8) -> Option<RequestStatus> {
    if b == 0 {
        Some(RequestStatus::Pending)
    } else if b == 1 {
        Some(RequestStatus::Fulfilled)
    } else if b == 2 {
        Some(RequestStatus::Cancelled)
    } else if b == 3 {
        Some(RequestStatus::Expired)
    } else {
        None
    }
}

/// The byte that encodes a status.
pub open spec fn byte_of_status(s: RequestStatus) -> u8 {
    match s {
        RequestStatus::Pending => 0,
        RequestStatus::Fulfilled => 1,
        RequestStatus::Cancelled => 2,
        RequestStatus::Expired => 3,
    }
}

/// A randomness request read from the ledger. `id` is the address of the
/// account that holds it.
#[derive(Debug, Clone)]
pub struct RequestRecord {
    pub id: Vec<u8>,
    pub seed: Vec<u8>,
    pub requester: Vec<u8>,
    pub subscription: Vec<u8>,
    pub status: RequestStatus,
}

/// An account as a ledger scan returns it.
#[derive(Debug, Clone)]
pub struct RawAccount {
    pub address: Vec<u8>,
    pub data: Vec<u8>,
}

/// Why a tagged payload could not be read as a request record.
#[derive(Debug, Clone, Copy, PartialEq, Eq, Structural)]
pub enum DecodeError {
    /// The body ends before the layout does.
    Truncated,
    /// The status byte encodes no status.
    InvalidStatus,
    /// Bytes are left after the status byte.
    TrailingBytes,
}

/// Whether the payload carries the request tag.
pub open spec fn has_request_tag(data: Seq<u8>) -> bool {
    data.len() >= TAG_LEN && data.subrange(0, TAG_LEN as int) == request_tag()
}

/// The payload after the tag.
pub open spec fn body_of(data: Seq<u8>) -> Seq<u8> {
    data.subrange(TAG_LEN as int, data.len() as int)
}

/// The length that the seed length field of a body gives.
pub open spec fn seed_len_of(body: Seq<u8>) -> int {
    le_u32(body, SEED_LEN_AT as int)
}

/// The error that decoding a body meets, or `None` for a well-formed body.
pub open spec fn body_error(body: Seq<u8>) -> Option<DecodeError> {
    if body.len() < SEED_AT + 1 {
        Some(DecodeError::Truncated)
    } else if body.len() < SEED_AT + seed_len_of(body) + 1 {
        Some(DecodeError::Truncated)
    } else if body.len() > SEED_AT + seed_len_of(body) + 1 {
        Some(DecodeError::TrailingBytes)
    } else if status_of_byte(body[SEED_AT + seed_len_of(body)]) is None {
        Some(DecodeError::InvalidStatus)
    } else {
        None
    }
}

/// Whether `r` is the record that the well-formed body `body` of the account
/// at `id` encodes.
pub open spec fn decodes_to(id: Seq<u8>, body: Seq<u8>, r: RequestRecord) -> bool {
    let n = seed_len_of(body);
    &&& r.id@ == id
    &&& r.requester@ == body.subrange(0, ADDRESS_LEN as int)
    &&& r.subscription@ == body.subrange(ADDRESS_LEN as int, SEED_LEN_AT as int)
    &&& r.seed@ == body.subrange(SEED_AT as int, SEED_AT + n)
    &&& Some(r.status) == status_of_byte(body[SEED_AT + n])
}

/// Whether `r` is what decoding the account `(id, data)` gives: nothing for
/// an untagged payload, an error for a malformed body, else its record.
pub open spec fn decode_result(
    id: Seq<u8>,
    data: Seq<u8>,
    r: Result<Option<RequestRecord>, DecodeError>,
) -> bool {
    if !has_request_tag(data) {
        r == Ok::<Option<RequestRecord>, DecodeError>(None)
    } else {
        match body_error(body_of(data)) {
            Some(e) => r == Err::<Option<RequestRecord>, DecodeError>(e),
            None => match r {
                Ok(Some(rec)) => decodes_to(id, body_of(data), rec),
                _ => false,
            },
        }
    }
}

/// The status a status byte encodes.
fn status_from_byte(b: u8) -> (r: Option<RequestStatus>)
    ensures
        r == status_of_byte(b),
{
    if b == 0 {
        Some(RequestStatus::Pending)
    } else if b == 1 {
        Some(RequestStatus::Fulfilled)
    } else if b == 2 {
        Some(RequestStatus::Cancelled)
    } else if b == 3 {
        Some(RequestStatus::Expired)
    } else {
        None
    }
}

/// Whether the payload starts with the request tag.
pub fn is_request_payload(data: &Vec<u8>) -> (r: bool)
    ensures
        r == has_request_tag(data@),
{
    if data.len() < TAG_LEN {
        return false;
    }
    let tag = request_tag_bytes();
    let mut i: usize = 0;
    while i < TAG_LEN
        invariant
            data@.len() >= TAG_LEN,
            tag@ == request_tag(),
            i <= TAG_LEN,
            forall|j: int| 0 <= j < i ==> data@[j] == tag@[j],
        decreases TAG_LEN - i,
    {
        if data[i] != tag[i] {
            proof {
                assert(data@.subrange(0, TAG_LEN as int)[i as int] != request_tag()[i as int]);
            }
            return false;
        }
        i = i + 1;
    }
    proof {
        assert(data@.subrange(0, TAG_LEN as int) =~= request_tag());
    }
    true
}

/// Decodes the account at `address` with payload `data`. An untagged payload
/// gives `Ok(None)`; a tagged one with a malformed body gives the error that
/// `body_error` names; a well-formed one gives its record.
pub fn decode_request(address: &Vec<u8>, data: &Vec<u8>) -> (r: Result<
    Option<RequestRecord>,
    DecodeError,
>)
    ensures
        decode_result(address@, data@, r),
{
    if !is_request_payload(data) {
        return Ok(None);
    }
    let ghost body = body_of(data@);
    let len = data.len();
    if len < TAG_LEN + SEED_AT + 1 {
        return Err(DecodeError::Truncated);
    }
    let n = read_le_u32(data, TAG_LEN + SEED_LEN_AT);
    proof {
        assert(n as int == seed_len_of(body));
    }
    let end64: u64 = (TAG_LEN + SEED_AT) as u64 + n as u64;
    if (len as u64) < end64 + 1 {
        return Err(DecodeError::Truncated);
    }
    if (len as u64) > end64 + 1 {
        return Err(DecodeError::TrailingBytes);
    }
    let end = end64 as usize;
    let status = match status_from_byte(data[end]) {
        Some(s) => s,
        None => {
            return Err(DecodeError::InvalidStatus);
        },
    };
    let requester = copy_range(data, TAG_LEN, TAG_LEN + ADDRESS_LEN);
    let subscription = copy_range(data, TAG_LEN + ADDRESS_LEN, TAG_LEN + SEED_LEN_AT);
    let seed = copy_range(data, TAG_LEN + SEED_AT, end);
    let id = copy_range(address, 0, address.len());
    proof {
        assert(id@ =~= address@);
        assert(requester@ =~= body.subrange(0, ADDRESS_LEN as int));
        assert(subscription@ =~= body.subrange(ADDRESS_LEN as int, SEED_LEN_AT as int));
        assert(seed@ =~= body.subrange(SEED_AT as int, SEED_AT + n));
    }
    Ok(Some(RequestRecord { id, seed, requester, subscription, status }))
}

/// The payload that stores a request with these fields.
pub open spec fn request_payload(
    requester: Seq<u8>,
    subscription: Seq<u8>,
    seed: Seq<u8>,
    status: RequestStatus,
) -> Seq<u8> {
    request_tag() + requester + subscription + le_bytes_u32(seed.len() as u32) + seed + seq![
        byte_of_status(status),
    ]
}

/// A payload shorter than the tag, or whose leading bytes differ from it, is
/// skipped: decoding it gives `Ok(None)`, never an error.
pub proof fn untagged_payload_is_skipped(
    id: Seq<u8>,
    data: Seq<u8>,
    r: Result<Option<RequestRecord>, DecodeError>,
)
    requires
        data.len() < TAG_LEN || data.subrange(0, TAG_LEN as int) != request_tag(),
        decode_result(id, data, r),
    ensures
        r == Ok::<Option<RequestRecord>, DecodeError>(None),
{
}

proof fn le_u32_of_le_bytes(n: u32)
    ensures
        le_u32(le_bytes_u32(n), 0) == n as int,
{
    let b = le_bytes_u32(n);
    let x = n as int;
    assert(b[0] as int == x % 256);
    assert(b[1] as int == (x / 256) % 256);
    assert(b[2] as int == (x / 65536) % 256);
    assert(b[3] as int == (x / 16777216) % 256);
    assert(x % 256 + 256 * ((x / 256) % 256) + 65536 * ((x / 65536) % 256) + 16777216 * ((x
        / 16777216) % 256) == x) by (nonlinear_arith)
        requires
            0 <= x < 0x1_0000_0000,
    ;
}

/// Decoding a well-formed payload always gives the record it stores, so the
/// status read back is the status encoded; two decodings of the same payload
/// agree on it.
pub proof fn stored_status_is_decoded(
    id: Seq<u8>,
    requester: Seq<u8>,
    subscription: Seq<u8>,
    seed: Seq<u8>,
    status: RequestStatus,
    r1: Result<Option<RequestRecord>, DecodeError>,
    r2: Result<Option<RequestRecord>, DecodeError>,
)
    requires
        requester.len() == ADDRESS_LEN,
        subscription.len() == ADDRESS_LEN,
        seed.len() <= u32::MAX,
        decode_result(id, request_payload(requester, subscription, seed, status), r1),
        decode_result(id, request_payload(requester, subscription, seed, status), r2),
    ensures
        r1 is Ok && r1->Ok_0 is Some,
        r2 is Ok && r2->Ok_0 is Some,
        r1->Ok_0->Some_0.status == status,
        r2->Ok_0->Some_0.status == r1->Ok_0->Some_0.status,
        r1->Ok_0->Some_0.seed@ == seed,
        r1->Ok_0->Some_0.requester@ == requester,
        r1->Ok_0->Some_0.subscription@ == subscription,
{
    let data = request_payload(requester, subscription, seed, status);
    let n = seed.len() as u32;
    let len_bytes = le_bytes_u32(n);
    assert(data.subrange(0, TAG_LEN as int) =~= request_tag());
    let body = body_of(data);
    assert(body =~= requester + subscription + len_bytes + seed + seq![byte_of_status(status)]);
    le_u32_of_le_bytes(n);
    assert(body.subrange(SEED_LEN_AT as int, SEED_AT as int) =~= len_bytes);
    assert(seed_len_of(body) == le_u32(len_bytes, 0));
    assert(seed_len_of(body) == seed.len());
    assert(body[SEED_AT + seed.len()] == byte_of_status(status));
    assert(body.subrange(0, ADDRESS_LEN as int) =~= requester);
    assert(body.subrange(ADDRESS_LEN as int, SEED_LEN_AT as int) =~= subscription);
    assert(body.subrange(SEED_AT as int, SEED_AT + seed.len()) =~= seed);
}

} // verus!
