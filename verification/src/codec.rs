//! The persisted layout of a transfer record: a fixed header of 128 bytes
//! followed by the two addresses and the proof.
//!
//! | bytes     | field                                              |
//! |-----------|----------------------------------------------------|
//! | 0         | format number                                      |
//! | 1         | direction: 0 source to destination, 1 the way back |
//! | 2         | state, by its place in the direction's order       |
//! | 3, 4, 5   | 1 if the source reference, the destination         |
//! |           | reference, the proof is present, else 0            |
//! | 6, 7      | 1 and the error's number, or 0 and 0               |
//! | 8..16     | identifier                                         |
//! | 16..24    | version                                            |
//! | 24..40    | amount                                             |
//! | 40..72    | source transaction reference, zero if absent       |
//! | 72..104   | destination transaction reference, zero if absent  |
//! | 104..128  | lengths of source address, destination address,    |
//! |           | proof                                              |
//!
//! Integers are little-endian. Every record has exactly one encoding.

use crate::error::BridgeError;
use crate::record::{RecordView, TransferRecord, TxHash};
use crate::status::{FromCkbLogStatus, ToCkbLogStatus, TransferStatus};
use vstd::array::spec_array_fill_for_copy_type;
use vstd::array::spec_array_update;
use vstd::bytes::lemma_auto_spec_u128_to_from_le_bytes;
use vstd::bytes::lemma_auto_spec_u64_to_from_le_bytes;
use vstd::bytes::spec_u128_from_le_bytes;
use vstd::bytes::spec_u128_to_le_bytes;
use vstd::bytes::spec_u64_from_le_bytes;
use vstd::bytes::spec_u64_to_le_bytes;
use vstd::bytes::u128_from_le_bytes;
use vstd::bytes::u128_to_le_bytes;
use vstd::bytes::u64_from_le_bytes;
use vstd::bytes::u64_to_le_bytes;
use vstd::prelude::*;
use vstd::slice::slice_subrange;
use vstd::slice::slice_to_vec;

verus! {

/// The format number that every encoding starts with.
pub const FORMAT: u8 = 1;

/// Length of the fixed header.
pub const HEADER_LEN: usize = 128;

/// The byte that says whether an optional field is present.
pub open spec fn flag(present: bool) -> u8 {
    if present {
        1
    } else {
        0
    }
}

/// Thirty-two zero bytes: the place of an absent transaction reference.
pub open spec fn zeros() -> Seq<u8> {
    Seq::new(32, |i: int| 0u8)
}

/// The array that holds the first `n` bytes of `s`, and zero behind them.
pub open spec fn array_of(s: Seq<u8>, n: nat) -> [u8; 32]
    decreases n,
{
    if n == 0 {
        spec_array_fill_for_copy_type::<u8, 32>(0u8)
    } else {
        spec_array_update(array_of(s, (n - 1) as nat), n - 1, s[n - 1])
    }
}

/// The transaction reference written in 32 bytes.
pub open spec fn hash_of(s: Seq<u8>) -> TxHash {
    TxHash { bytes: array_of(s, 32) }
}

/// The 32 bytes of an optional transaction reference.
pub open spec fn hash_field(h: Option<TxHash>) -> Seq<u8> {
    match h {
        Some(t) => t.bytes@,
        None => zeros(),
    }
}

/// The bytes of an optional byte string.
pub open spec fn bytes_or_empty(p: Option<Seq<u8>>) -> Seq<u8> {
    match p {
        Some(b) => b,
        None => Seq::empty(),
    }
}

/// The direction byte of a status.
pub open spec fn direction_code(s: TransferStatus) -> u8 {
    match s {
        TransferStatus::ToCkb(_) => 0,
        TransferStatus::FromCkb(_) => 1,
    }
}

/// The state byte of a status.
pub open spec fn state_code(s: TransferStatus) -> u8 {
    s.position() as u8
}

/// The status written as a direction byte and a state byte, if any.
pub open spec fn status_of(d: u8, c: u8) -> Option<TransferStatus> {
    if d == 0 {
        match ToCkbLogStatus::decode(c) {
            Some(s) => Some(TransferStatus::ToCkb(s)),
            None => None,
        }
    } else if d == 1 {
        match FromCkbLogStatus::decode(c) {
            Some(s) => Some(TransferStatus::FromCkb(s)),
            None => None,
        }
    } else {
        None
    }
}

/// The error byte of an optional error.
pub open spec fn error_code(e: Option<BridgeError>) -> u8 {
    match e {
        Some(e) => e.code(),
        None => 0,
    }
}

/// True if the record's byte strings are short enough for their lengths
/// to be written in eight bytes each.
pub open spec fn encodable(r: RecordView) -> bool {
    &&& r.source_address.len() <= u64::MAX
    &&& r.dest_address.len() <= u64::MAX
    &&& bytes_or_empty(r.proof).len() <= u64::MAX
}

/// The header of a record's encoding.
pub open spec fn header(r: RecordView) -> Seq<u8> {
    seq![
        FORMAT,
        direction_code(r.status),
        state_code(r.status),
        flag(r.source_tx_hash is Some),
        flag(r.dest_tx_hash is Some),
        flag(r.proof is Some),
        flag(r.last_error is Some),
        error_code(r.last_error),
    ] + spec_u64_to_le_bytes(r.id) + spec_u64_to_le_bytes(r.updated_at) + spec_u128_to_le_bytes(
        r.amount,
    ) + hash_field(r.source_tx_hash) + hash_field(r.dest_tx_hash) + spec_u64_to_le_bytes(
        r.source_address.len() as u64,
    ) + spec_u64_to_le_bytes(r.dest_address.len() as u64) + spec_u64_to_le_bytes(
        bytes_or_empty(r.proof).len() as u64,
    )
}

/// The encoding of a record.
pub open spec fn encoding(r: RecordView) -> Seq<u8> {
    header(r) + r.source_address + r.dest_address + bytes_or_empty(r.proof)
}

/// The record that a byte string encodes, if it is an encoding.
pub open spec fn decoding(b: Seq<u8>) -> Option<RecordView> {
    if b.len() < 128 {
        None
    } else {
        let status = status_of(b[1], b[2]);
        let error = BridgeError::decode(b[7]);
        let la = spec_u64_from_le_bytes(b.subrange(104, 112));
        let lb = spec_u64_from_le_bytes(b.subrange(112, 120));
        let lp = spec_u64_from_le_bytes(b.subrange(120, 128));
        if b[0] != FORMAT || status is None || b[3] > 1 || b[4] > 1 || b[5] > 1 || b[6] > 1 || (b[6]
            == 1 && error is None) || (b[6] == 0 && b[7] != 0) || (b[3] == 0 && b.subrange(40, 72)
            != zeros()) || (b[4] == 0 && b.subrange(72, 104) != zeros()) || (b[5] == 0 && lp != 0)
            || b.len() != 128 + la + lb + lp {
            None
        } else {
            Some(
                RecordView {
                    id: spec_u64_from_le_bytes(b.subrange(8, 16)),
                    status: status.unwrap(),
                    source_tx_hash: if b[3] == 1 {
                        Some(hash_of(b.subrange(40, 72)))
                    } else {
                        None
                    },
                    dest_tx_hash: if b[4] == 1 {
                        Some(hash_of(b.subrange(72, 104)))
                    } else {
                        None
                    },
                    proof: if b[5] == 1 {
                        Some(b.subrange(128 + la + lb, 128 + la + lb + lp))
                    } else {
                        None
                    },
                    amount: spec_u128_from_le_bytes(b.subrange(24, 40)),
                    source_address: b.subrange(128, 128 + la),
                    dest_address: b.subrange(128 + la, 128 + la + lb),
                    last_error: if b[6] == 1 {
                        error
                    } else {
                        None
                    },
                    updated_at: spec_u64_from_le_bytes(b.subrange(16, 24)),
                },
            )
        }
    }
}

/// The array made of 32 bytes holds those bytes.
pub proof fn lemma_array_of(s: Seq<u8>, n: nat)
    requires
        n <= 32,
    ensures
        forall|i: int| 0 <= i < n ==> array_of(s, n)@[i] == s[i],
        forall|i: int| n <= i < 32 ==> array_of(s, n)@[i] == 0,
    decreases n,
{
    if n > 0 {
        lemma_array_of(s, (n - 1) as nat);
    }
}

/// A transaction reference is the one written in its own 32 bytes.
pub proof fn lemma_hash_of_bytes(h: TxHash)
    ensures
        hash_of(h.bytes@) == h,
{
    lemma_array_of(h.bytes@, 32);
    assert(array_of(h.bytes@, 32) =~= h.bytes);
}

/// Where each field stands in the header.
pub proof fn lemma_header_layout(r: RecordView)
    ensures
        header(r).len() == 128,
        header(r)[0] == FORMAT,
        header(r)[1] == direction_code(r.status),
        header(r)[2] == state_code(r.status),
        header(r)[3] == flag(r.source_tx_hash is Some),
        header(r)[4] == flag(r.dest_tx_hash is Some),
        header(r)[5] == flag(r.proof is Some),
        header(r)[6] == flag(r.last_error is Some),
        header(r)[7] == error_code(r.last_error),
        header(r).subrange(8, 16) == spec_u64_to_le_bytes(r.id),
        header(r).subrange(16, 24) == spec_u64_to_le_bytes(r.updated_at),
        header(r).subrange(24, 40) == spec_u128_to_le_bytes(r.amount),
        header(r).subrange(40, 72) == hash_field(r.source_tx_hash),
        header(r).subrange(72, 104) == hash_field(r.dest_tx_hash),
        header(r).subrange(104, 112) == spec_u64_to_le_bytes(r.source_address.len() as u64),
        header(r).subrange(112, 120) == spec_u64_to_le_bytes(r.dest_address.len() as u64),
        header(r).subrange(120, 128) == spec_u64_to_le_bytes(bytes_or_empty(r.proof).len() as u64),
{
    lemma_auto_spec_u64_to_from_le_bytes();
    lemma_auto_spec_u128_to_from_le_bytes();
    let h = header(r);
    assert(h.len() == 128);
    assert(h.subrange(8, 16) =~= spec_u64_to_le_bytes(r.id));
    assert(h.subrange(16, 24) =~= spec_u64_to_le_bytes(r.updated_at));
    assert(h.subrange(24, 40) =~= spec_u128_to_le_bytes(r.amount));
    assert(h.subrange(40, 72) =~= hash_field(r.source_tx_hash));
    assert(h.subrange(72, 104) =~= hash_field(r.dest_tx_hash));
    assert(h.subrange(104, 112) =~= spec_u64_to_le_bytes(r.source_address.len() as u64));
    assert(h.subrange(112, 120) =~= spec_u64_to_le_bytes(r.dest_address.len() as u64));
    assert(h.subrange(120, 128) =~= spec_u64_to_le_bytes(bytes_or_empty(r.proof).len() as u64));
}

/// Decoding inverts encoding: what was written is what is read back.
pub proof fn lemma_decoding_inverts_encoding(r: RecordView)
    requires
        encodable(r),
    ensures
        decoding(encoding(r)) == Some(r),
{
    lemma_auto_spec_u64_to_from_le_bytes();
    lemma_auto_spec_u128_to_from_le_bytes();
    lemma_header_layout(r);
    let h = header(r);
    let e = encoding(r);
    let la = r.source_address.len() as int;
    let lb = r.dest_address.len() as int;
    let lp = bytes_or_empty(r.proof).len() as int;
    assert(e.len() == 128 + la + lb + lp);
    assert(e.subrange(0, 128) =~= h);
    assert forall|k: int| 0 <= k < 128 implies e[k] == h[k] by {}
    assert(e.subrange(8, 16) =~= h.subrange(8, 16));
    assert(e.subrange(16, 24) =~= h.subrange(16, 24));
    assert(e.subrange(24, 40) =~= h.subrange(24, 40));
    assert(e.subrange(40, 72) =~= h.subrange(40, 72));
    assert(e.subrange(72, 104) =~= h.subrange(72, 104));
    assert(e.subrange(104, 112) =~= h.subrange(104, 112));
    assert(e.subrange(112, 120) =~= h.subrange(112, 120));
    assert(e.subrange(120, 128) =~= h.subrange(120, 128));
    assert(e.subrange(128, 128 + la) =~= r.source_address);
    assert(e.subrange(128 + la, 128 + la + lb) =~= r.dest_address);
    assert(e.subrange(128 + la + lb, 128 + la + lb + lp) =~= bytes_or_empty(r.proof));
    assert(status_of(direction_code(r.status), state_code(r.status)) == Some(r.status));
    if let Some(t) = r.source_tx_hash {
        lemma_hash_of_bytes(t);
    }
    if let Some(t) = r.dest_tx_hash {
        lemma_hash_of_bytes(t);
    }
    let d = decoding(e);
    assert(d is Some);
    assert(d.unwrap().source_address == r.source_address);
    assert(d.unwrap().dest_address == r.dest_address);
    assert(d.unwrap().proof == r.proof);
    assert(d.unwrap().source_tx_hash == r.source_tx_hash);
    assert(d.unwrap().dest_tx_hash == r.dest_tx_hash);
    assert(d.unwrap().last_error == r.last_error);
}

/// Two byte strings that agree on a range agree on each index in it.
proof fn lemma_range_agrees(x: Seq<u8>, y: Seq<u8>, from: int, to: int)
    requires
        0 <= from <= to <= x.len(),
        to <= y.len(),
        x.subrange(from, to) == y.subrange(from, to),
    ensures
        forall|k: int| from <= k < to ==> x[k] == y[k],
{
    assert forall|k: int| from <= k < to implies x[k] == y[k] by {
        assert(x.subrange(from, to)[k - from] == x[k]);
        assert(y.subrange(from, to)[k - from] == y[k]);
    }
}

/// Every record has exactly one encoding: bytes that decode to a record
/// are the encoding of that record.
pub proof fn lemma_encoding_is_canonical(b: Seq<u8>)
    requires
        decoding(b) is Some,
    ensures
        encodable(decoding(b).unwrap()),
        encoding(decoding(b).unwrap()) == b,
{
    lemma_auto_spec_u64_to_from_le_bytes();
    lemma_auto_spec_u128_to_from_le_bytes();
    let r = decoding(b).unwrap();
    let h = header(r);
    let la = spec_u64_from_le_bytes(b.subrange(104, 112));
    let lb = spec_u64_from_le_bytes(b.subrange(112, 120));
    let lp = spec_u64_from_le_bytes(b.subrange(120, 128));
    lemma_header_layout(r);
    assert(r.source_address.len() == la);
    assert(r.dest_address.len() == lb);
    assert(bytes_or_empty(r.proof).len() == lp);
    assert(b.subrange(8, 16).len() == 8);
    assert(b.subrange(16, 24).len() == 8);
    assert(b.subrange(24, 40).len() == 16);
    assert(b.subrange(104, 112).len() == 8);
    assert(b.subrange(112, 120).len() == 8);
    assert(b.subrange(120, 128).len() == 8);
    assert(spec_u64_to_le_bytes(spec_u64_from_le_bytes(b.subrange(8, 16))) == b.subrange(8, 16));
    assert(spec_u64_to_le_bytes(spec_u64_from_le_bytes(b.subrange(16, 24))) == b.subrange(16, 24));
    assert(spec_u128_to_le_bytes(spec_u128_from_le_bytes(b.subrange(24, 40))) == b.subrange(
        24,
        40,
    ));
    assert(spec_u64_to_le_bytes(la) == b.subrange(104, 112));
    assert(spec_u64_to_le_bytes(lb) == b.subrange(112, 120));
    assert(spec_u64_to_le_bytes(lp) == b.subrange(120, 128));
    lemma_array_of(b.subrange(40, 72), 32);
    lemma_array_of(b.subrange(72, 104), 32);
    assert(hash_field(r.source_tx_hash) =~= b.subrange(40, 72));
    assert(hash_field(r.dest_tx_hash) =~= b.subrange(72, 104));
    lemma_range_agrees(h, b, 8, 16);
    lemma_range_agrees(h, b, 16, 24);
    lemma_range_agrees(h, b, 24, 40);
    lemma_range_agrees(h, b, 40, 72);
    lemma_range_agrees(h, b, 72, 104);
    lemma_range_agrees(h, b, 104, 112);
    lemma_range_agrees(h, b, 112, 120);
    lemma_range_agrees(h, b, 120, 128);
    assert(h[1] == b[1] && h[2] == b[2]);
    assert(h[7] == b[7]);
    assert(h =~= b.subrange(0, 128));
    assert(encoding(r) =~= b);
}

/// Appends the bytes to the buffer.
fn push_all(out: &mut Vec<u8>, bytes: &[u8])
    ensures
        final(out)@ == old(out)@ + bytes@,
{
    let mut i: usize = 0;
    while i < bytes.len()
        invariant
            i <= bytes.len(),
            out@ == old(out)@ + bytes@.take(i as int),
        decreases bytes.len() - i,
    {
        out.push(bytes[i]);
        assert(bytes@.take(i + 1) =~= bytes@.take(i as int).push(bytes@[i as int]));
        assert(out@ =~= old(out)@ + bytes@.take(i + 1));
        i += 1;
    }
    assert(bytes@.take(bytes.len() as int) =~= bytes@);
}

/// Appends the 32 bytes of an optional transaction reference.
fn push_hash(out: &mut Vec<u8>, h: &Option<TxHash>)
    ensures
        final(out)@ == old(out)@ + hash_field(*h),
{
    match h {
        Some(t) => {
            push_all(out, t.bytes.as_slice());
        },
        None => {
            let mut i: usize = 0;
            while i < 32
                invariant
                    i <= 32,
                    out@ == old(out)@ + zeros().take(i as int),
                decreases 32 - i,
            {
                out.push(0);
                assert(zeros().take(i + 1) =~= zeros().take(i as int).push(0u8));
                assert(out@ =~= old(out)@ + zeros().take(i + 1));
                i += 1;
            }
            assert(zeros().take(32) =~= zeros());
        },
    }
}

/// Appends an integer in eight bytes.
fn push_u64(out: &mut Vec<u8>, x: u64)
    ensures
        final(out)@ == old(out)@ + spec_u64_to_le_bytes(x),
{
    let mut field = u64_to_le_bytes(x);
    out.append(&mut field);
}

/// Writes a record in its persisted layout.
pub fn encode(record: &TransferRecord) -> (out: Vec<u8>)
    ensures
        out@ == encoding(record@),
        decoding(out@) == Some(record@),
{
    let (direction, state) = match record.status {
        TransferStatus::ToCkb(s) => (0u8, s.int_value()),
        TransferStatus::FromCkb(s) => (1u8, s.int_value()),
    };
    let mut out: Vec<u8> = Vec::new();
    out.push(FORMAT);
    out.push(direction);
    out.push(state);
    out.push(if record.source_tx_hash.is_some() { 1 } else { 0 });
    out.push(if record.dest_tx_hash.is_some() { 1 } else { 0 });
    out.push(if record.proof.is_some() { 1 } else { 0 });
    out.push(if record.last_error.is_some() { 1 } else { 0 });
    out.push(
        match record.last_error {
            Some(e) => e.int_value(),
            None => 0,
        },
    );
    assert(out@ =~= seq![
        FORMAT,
        direction_code(record@.status),
        state_code(record@.status),
        flag(record@.source_tx_hash is Some),
        flag(record@.dest_tx_hash is Some),
        flag(record@.proof is Some),
        flag(record@.last_error is Some),
        error_code(record@.last_error),
    ]);
    push_u64(&mut out, record.id);
    push_u64(&mut out, record.updated_at);
    let mut amount = u128_to_le_bytes(record.amount);
    out.append(&mut amount);
    push_hash(&mut out, &record.source_tx_hash);
    push_hash(&mut out, &record.dest_tx_hash);
    push_u64(&mut out, record.source_address.len() as u64);
    push_u64(&mut out, record.dest_address.len() as u64);
    match &record.proof {
        Some(p) => {
            push_u64(&mut out, p.len() as u64);
        },
        None => {
            push_u64(&mut out, 0);
        },
    }
    assert(out@ == header(record@));
    push_all(&mut out, record.source_address.as_slice());
    push_all(&mut out, record.dest_address.as_slice());
    match &record.proof {
        Some(p) => {
            push_all(&mut out, p.as_slice());
        },
        None => {
            assert(out@ + Seq::<u8>::empty() =~= out@);
        },
    }
    proof {
        lemma_decoding_inverts_encoding(record@);
    }
    out
}

/// Reads the integer in the eight bytes at `at`.
fn read_u64(bytes: &[u8], at: usize) -> (x: u64)
    requires
        at + 8 <= bytes.len(),
    ensures
        x == spec_u64_from_le_bytes(bytes@.subrange(at as int, at + 8)),
{
    u64_from_le_bytes(slice_subrange(bytes, at, at + 8))
}

/// Reads the transaction reference in the 32 bytes at `at`.
fn read_hash(bytes: &[u8], at: usize) -> (h: TxHash)
    requires
        at + 32 <= bytes.len(),
    ensures
        h == hash_of(bytes@.subrange(at as int, at + 32)),
{
    let mut a = [0u8;32];
    let mut i: usize = 0;
    while i < 32
        invariant
            i <= 32,
            at + 32 <= bytes.len(),
            forall|k: int| 0 <= k < i ==> a@[k] == bytes@[at + k],
        decreases 32 - i,
    {
        a[i] = bytes[at + i];
        i += 1;
    }
    proof {
        let s = bytes@.subrange(at as int, at + 32);
        lemma_array_of(s, 32);
        assert forall|k: int| 0 <= k < 32 implies a[k] == array_of(s, 32)[k] by {
            assert(a@[k] == bytes@[at + k]);
            assert(s[k] == bytes@[at + k]);
            assert(array_of(s, 32)@[k] == s[k]);
        }
        assert(a =~= array_of(s, 32));
    }
    TxHash { bytes: a }
}

/// True if the 32 bytes at `at` are all zero.
fn all_zero(bytes: &[u8], at: usize) -> (b: bool)
    requires
        at + 32 <= bytes.len(),
    ensures
        b == (bytes@.subrange(at as int, at + 32) == zeros()),
{
    let mut i: usize = 0;
    while i < 32
        invariant
            i <= 32,
            at + 32 <= bytes.len(),
            forall|k: int| at <= k < at + i ==> bytes@[k] == 0,
        decreases 32 - i,
    {
        if bytes[at + i] != 0 {
            assert(bytes@.subrange(at as int, at + 32)[i as int] != zeros()[i as int]);
            return false;
        }
        i += 1;
    }
    assert(bytes@.subrange(at as int, at + 32) =~= zeros());
    true
}

/// Reads a record back from its persisted layout; `None` for bytes that
/// are no encoding of a record.
pub fn decode(bytes: &[u8]) -> (r: Option<TransferRecord>)
    ensures
        match r {
            Some(x) => decoding(bytes@) == Some(x@),
            None => decoding(bytes@) is None,
        },
{
    if bytes.len() < HEADER_LEN {
        return None;
    }
    if bytes[0] != FORMAT {
        return None;
    }
    let status = if bytes[1] == 0 {
        match ToCkbLogStatus::from_int(bytes[2]) {
            Some(s) => TransferStatus::ToCkb(s),
            None => {
                return None;
            },
        }
    } else if bytes[1] == 1 {
        match FromCkbLogStatus::from_int(bytes[2]) {
            Some(s) => TransferStatus::FromCkb(s),
            None => {
                return None;
            },
        }
    } else {
        return None;
    };
    if bytes[3] > 1 || bytes[4] > 1 || bytes[5] > 1 || bytes[6] > 1 {
        return None;
    }
    let last_error = if bytes[6] == 1 {
        match BridgeError::from_int(bytes[7]) {
            Some(e) => Some(e),
            None => {
                return None;
            },
        }
    } else {
        if bytes[7] != 0 {
            return None;
        }
        None
    };
    let source_tx_hash = if bytes[3] == 1 {
        Some(read_hash(bytes, 40))
    } else {
        if !all_zero(bytes, 40) {
            return None;
        }
        None
    };
    let dest_tx_hash = if bytes[4] == 1 {
        Some(read_hash(bytes, 72))
    } else {
        if !all_zero(bytes, 72) {
            return None;
        }
        None
    };
    let id = read_u64(bytes, 8);
    let updated_at = read_u64(bytes, 16);
    let amount = u128_from_le_bytes(slice_subrange(bytes, 24, 40));
    let la = read_u64(bytes, 104);
    let lb = read_u64(bytes, 112);
    let lp = read_u64(bytes, 120);
    if bytes[5] == 0 && lp != 0 {
        return None;
    }
    let total: u128 = 128 + la as u128 + lb as u128 + lp as u128;
    if bytes.len() as u128 != total {
        return None;
    }
    let a_end: usize = 128 + la as usize;
    let b_end: usize = a_end + lb as usize;
    let source_address = slice_to_vec(slice_subrange(bytes, 128, a_end));
    let dest_address = slice_to_vec(slice_subrange(bytes, a_end, b_end));
    let proof = if bytes[5] == 1 {
        Some(slice_to_vec(slice_subrange(bytes, b_end, bytes.len())))
    } else {
        None
    };
    Some(
        TransferRecord {
            id,
            status,
            source_tx_hash,
            dest_tx_hash,
            proof,
            amount,
            source_address,
            dest_address,
            last_error,
            updated_at,
        },
    )
}

} // verus!
