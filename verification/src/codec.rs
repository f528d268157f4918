//! The fixed-layout wire format of the payload structures and the persisted
//! vault record: little-endian integers, raw 32-byte addresses, single-byte
//! booleans, fields in declaration order, no padding. Decoding accepts exactly
//! the buffers that encoding produces and consumes the whole buffer.

use vstd::bytes::*;
use vstd::prelude::*;
use vstd::slice::*;

use crate::addr::Address;
use crate::state::{
    CreateVaultInput, CreateVaultInputV, SP20TokenData, SP20TokenDataV, TransactionInput,
    TransactionInputV, VaultData, VaultDataV,
};

verus! {

/// Encoded length of a `CreateVaultInput`.
pub const CREATE_INPUT_LEN: usize = 90;

/// Encoded length of a `TransactionInput`.
pub const TRANSACTION_INPUT_LEN: usize = 40;

/// Encoded length of a `VaultData` record.
pub const VAULT_DATA_LEN: usize = 131;

/// The view of an option of a viewable type.
pub open spec fn view_option<T: View>(o: Option<T>) -> Option<T::V> {
    match o {
        Some(v) => Some(v@),
        None => None,
    }
}

// ---------------------------------------------------------------------------
// Field-level encodings
// ---------------------------------------------------------------------------

/// A signed 64-bit integer encodes as the little-endian bytes of its two's
/// complement representation.
pub open spec fn spec_i64_to_le_bytes(x: i64) -> Seq<u8> {
    spec_u64_to_le_bytes(x as u64)
}

pub open spec fn spec_i64_from_le_bytes(s: Seq<u8>) -> i64 {
    spec_u64_from_le_bytes(s) as i64
}

/// A boolean encodes as one byte, 1 for true and 0 for false.
pub open spec fn spec_bool_byte(b: bool) -> u8 {
    if b {
        1
    } else {
        0
    }
}

/// Only 0 and 1 decode as booleans.
pub open spec fn spec_decode_bool(b: u8) -> Option<bool> {
    if b == 0 {
        Some(false)
    } else if b == 1 {
        Some(true)
    } else {
        None
    }
}

pub proof fn lemma_i64_le_bytes_roundtrip(x: i64)
    ensures
        spec_i64_to_le_bytes(x).len() == 8,
        spec_i64_from_le_bytes(spec_i64_to_le_bytes(x)) == x,
{
    lemma_auto_spec_u64_to_from_le_bytes();
    assert((x as u64) as i64 == x) by (bit_vector);
}

// ---------------------------------------------------------------------------
// Structure-level encodings
// ---------------------------------------------------------------------------

pub open spec fn spec_encode_create_input(v: CreateVaultInputV) -> Seq<u8> {
    v.token_address + spec_u64_to_le_bytes(v.amount) + v.withdrawer + spec_i64_to_le_bytes(
        v.deposite_time_stamp,
    ) + seq![spec_bool_byte(v.withdrawn)] + seq![spec_bool_byte(v.deposited)]
        + spec_i64_to_le_bytes(v.unlock_time_stamp)
}

pub open spec fn spec_decode_create_input(s: Seq<u8>) -> Option<CreateVaultInputV> {
    if s.len() == CREATE_INPUT_LEN && spec_decode_bool(s[80]) is Some && spec_decode_bool(
        s[81],
    ) is Some {
        Some(
            CreateVaultInputV {
                token_address: s.subrange(0, 32),
                amount: spec_u64_from_le_bytes(s.subrange(32, 40)),
                withdrawer: s.subrange(40, 72),
                deposite_time_stamp: spec_i64_from_le_bytes(s.subrange(72, 80)),
                withdrawn: s[80] == 1,
                deposited: s[81] == 1,
                unlock_time_stamp: spec_i64_from_le_bytes(s.subrange(82, 90)),
            },
        )
    } else {
        None
    }
}

pub open spec fn spec_encode_transaction_input(v: TransactionInputV) -> Seq<u8> {
    spec_u64_to_le_bytes(v.amount) + v.token
}

pub open spec fn spec_decode_transaction_input(s: Seq<u8>) -> Option<TransactionInputV> {
    if s.len() == TRANSACTION_INPUT_LEN {
        Some(
            TransactionInputV {
                amount: spec_u64_from_le_bytes(s.subrange(0, 8)),
                token: s.subrange(8, 40),
            },
        )
    } else {
        None
    }
}

pub open spec fn spec_encode_token_data(t: SP20TokenDataV) -> Seq<u8> {
    t.depositor + spec_u64_to_le_bytes(t.amount) + t.token_address + seq![
        spec_bool_byte(t.black_listed),
    ] + spec_u64_to_le_bytes(t.amount_withdrawn)
}

pub open spec fn spec_encode_vault(v: VaultDataV) -> Seq<u8> {
    v.withdrawer + spec_i64_to_le_bytes(v.deposite_time_stamp) + spec_i64_to_le_bytes(
        v.unlock_time_stamp,
    ) + seq![spec_bool_byte(v.withdrawn)] + seq![spec_bool_byte(v.deposited)] + spec_encode_token_data(
        v.token,
    )
}

pub open spec fn spec_decode_vault(s: Seq<u8>) -> Option<VaultDataV> {
    if s.len() == VAULT_DATA_LEN && spec_decode_bool(s[48]) is Some && spec_decode_bool(
        s[49],
    ) is Some && spec_decode_bool(s[122]) is Some {
        Some(
            VaultDataV {
                withdrawer: s.subrange(0, 32),
                deposite_time_stamp: spec_i64_from_le_bytes(s.subrange(32, 40)),
                unlock_time_stamp: spec_i64_from_le_bytes(s.subrange(40, 48)),
                withdrawn: s[48] == 1,
                deposited: s[49] == 1,
                token: SP20TokenDataV {
                    depositor: s.subrange(50, 82),
                    amount: spec_u64_from_le_bytes(s.subrange(82, 90)),
                    token_address: s.subrange(90, 122),
                    black_listed: s[122] == 1,
                    amount_withdrawn: spec_u64_from_le_bytes(s.subrange(123, 131)),
                },
            },
        )
    } else {
        None
    }
}

// ---------------------------------------------------------------------------
// Executable encoders
// ---------------------------------------------------------------------------

fn push_addr(out: &mut Vec<u8>, a: &Address)
    ensures
        final(out)@ == old(out)@ + a@,
{
    let mut i: usize = 0;
    while i < a.bytes.len()
        invariant
            i <= a.bytes@.len(),
            out@ == old(out)@ + a.bytes@.subrange(0, i as int),
        decreases a.bytes@.len() - i,
    {
        out.push(a.bytes[i]);
        proof {
            assert(old(out)@ + a.bytes@.subrange(0, i as int) + seq![a.bytes@[i as int]] =~= old(
                out,
            )@ + a.bytes@.subrange(0, i + 1));
        }
        i += 1;
    }
    proof {
        assert(old(out)@ + a.bytes@.subrange(0, a.bytes@.len() as int) =~= old(out)@ + a@);
    }
}

fn push_u64(out: &mut Vec<u8>, x: u64)
    ensures
        final(out)@ == old(out)@ + spec_u64_to_le_bytes(x),
{
    let mut t = u64_to_le_bytes(x);
    out.append(&mut t);
}

fn push_i64(out: &mut Vec<u8>, x: i64)
    ensures
        final(out)@ == old(out)@ + spec_i64_to_le_bytes(x),
{
    push_u64(out, #[verifier::truncate] (x as u64));
}

fn push_bool(out: &mut Vec<u8>, b: bool)
    ensures
        final(out)@ == old(out)@ + seq![spec_bool_byte(b)],
{
    out.push(if b {
        1
    } else {
        0
    });
    proof {
        assert(out@ =~= old(out)@ + seq![spec_bool_byte(b)]);
    }
}

impl CreateVaultInput {
    /// Serializes the payload into its fixed 90-byte layout.
    pub fn encode(&self) -> (out: Vec<u8>)
        ensures
            out@ == spec_encode_create_input(self@),
    {
        let mut out: Vec<u8> = Vec::new();
        push_addr(&mut out, &self.token_address);
        push_u64(&mut out, self.amount);
        push_addr(&mut out, &self.withdrawer);
        push_i64(&mut out, self.deposite_time_stamp);
        push_bool(&mut out, self.withdrawn);
        push_bool(&mut out, self.deposited);
        push_i64(&mut out, self.unlock_time_stamp);
        proof {
            assert(out@ =~= spec_encode_create_input(self@));
        }
        out
    }

    /// Decodes a payload from its fixed 90-byte layout; accepts exactly the
    /// buffers `encode` produces.
    pub fn decode(s: &[u8]) -> (r: Option<CreateVaultInput>)
        ensures
            view_option(r) == spec_decode_create_input(s@),
            r matches Some(v) ==> v.wf(),
    {
        if s.len() != CREATE_INPUT_LEN {
            return None;
        }
        let withdrawn = match decode_bool(*slice_index_get(s, 80)) {
            Some(b) => b,
            None => {
                return None;
            },
        };
        let deposited = match decode_bool(*slice_index_get(s, 81)) {
            Some(b) => b,
            None => {
                return None;
            },
        };
        let v = CreateVaultInput {
            token_address: Address { bytes: slice_to_vec(slice_subrange(s, 0, 32)) },
            amount: u64_from_le_bytes(slice_subrange(s, 32, 40)),
            withdrawer: Address { bytes: slice_to_vec(slice_subrange(s, 40, 72)) },
            deposite_time_stamp: read_i64(s, 72),
            withdrawn,
            deposited,
            unlock_time_stamp: read_i64(s, 82),
        };
        Some(v)
    }
}

impl TransactionInput {
    /// Serializes the payload into its fixed 40-byte layout.
    pub fn encode(&self) -> (out: Vec<u8>)
        ensures
            out@ == spec_encode_transaction_input(self@),
    {
        let mut out: Vec<u8> = Vec::new();
        push_u64(&mut out, self.amount);
        push_addr(&mut out, &self.token);
        proof {
            assert(out@ =~= spec_encode_transaction_input(self@));
        }
        out
    }

    /// Decodes a payload from its fixed 40-byte layout.
    pub fn decode(s: &[u8]) -> (r: Option<TransactionInput>)
        ensures
            view_option(r) == spec_decode_transaction_input(s@),
            r matches Some(v) ==> v.wf(),
    {
        if s.len() != TRANSACTION_INPUT_LEN {
            return None;
        }
        let v = TransactionInput {
            amount: u64_from_le_bytes(slice_subrange(s, 0, 8)),
            token: Address { bytes: slice_to_vec(slice_subrange(s, 8, 40)) },
        };
        Some(v)
    }
}

impl VaultData {
    /// Serializes the record into its fixed 131-byte layout, the form in which
    /// it is persisted into the escrow account's storage.
    pub fn encode(&self) -> (out: Vec<u8>)
        ensures
            out@ == spec_encode_vault(self@),
    {
        let mut out: Vec<u8> = Vec::new();
        push_addr(&mut out, &self.withdrawer);
        push_i64(&mut out, self.deposite_time_stamp);
        push_i64(&mut out, self.unlock_time_stamp);
        push_bool(&mut out, self.withdrawn);
        push_bool(&mut out, self.deposited);
        push_addr(&mut out, &self.token.depositor);
        push_u64(&mut out, self.token.amount);
        push_addr(&mut out, &self.token.token_address);
        push_bool(&mut out, self.token.black_listed);
        push_u64(&mut out, self.token.amount_withdrawn);
        proof {
            assert(out@ =~= spec_encode_vault(self@));
        }
        out
    }

    /// Decodes a record from its fixed 131-byte layout; accepts exactly the
    /// buffers `encode` produces.
    pub fn decode(s: &[u8]) -> (r: Option<VaultData>)
        ensures
            view_option(r) == spec_decode_vault(s@),
            r matches Some(v) ==> v.wf(),
    {
        if s.len() != VAULT_DATA_LEN {
            return None;
        }
        let withdrawn = match decode_bool(*slice_index_get(s, 48)) {
            Some(b) => b,
            None => {
                return None;
            },
        };
        let deposited = match decode_bool(*slice_index_get(s, 49)) {
            Some(b) => b,
            None => {
                return None;
            },
        };
        let black_listed = match decode_bool(*slice_index_get(s, 122)) {
            Some(b) => b,
            None => {
                return None;
            },
        };
        let v = VaultData {
            withdrawer: Address { bytes: slice_to_vec(slice_subrange(s, 0, 32)) },
            deposite_time_stamp: read_i64(s, 32),
            unlock_time_stamp: read_i64(s, 40),
            withdrawn,
            deposited,
            token: SP20TokenData {
                depositor: Address { bytes: slice_to_vec(slice_subrange(s, 50, 82)) },
                amount: u64_from_le_bytes(slice_subrange(s, 82, 90)),
                token_address: Address { bytes: slice_to_vec(slice_subrange(s, 90, 122)) },
                black_listed,
                amount_withdrawn: u64_from_le_bytes(slice_subrange(s, 123, 131)),
            },
        };
        Some(v)
    }
}

fn decode_bool(b: u8) -> (r: Option<bool>)
    ensures
        r == spec_decode_bool(b),
{
    if b == 0 {
        Some(false)
    } else if b == 1 {
        Some(true)
    } else {
        None
    }
}

fn read_i64(s: &[u8], off: usize) -> (x: i64)
    requires
        off + 8 <= s@.len(),
    ensures
        x == spec_i64_from_le_bytes(s@.subrange(off as int, off + 8)),
{
    let len = s.len();
    #[verifier::truncate] (u64_from_le_bytes(slice_subrange(s, off, off + 8)) as i64)
}

// ---------------------------------------------------------------------------
// Round trips: decoding inverts encoding
// ---------------------------------------------------------------------------

/// Serializing a create payload and decoding the bytes yields the payload
/// back, field for field.
pub proof fn lemma_create_input_roundtrip(v: CreateVaultInputV)
    requires
        v.token_address.len() == 32,
        v.withdrawer.len() == 32,
    ensures
        spec_decode_create_input(spec_encode_create_input(v)) == Some(v),
{
    lemma_auto_spec_u64_to_from_le_bytes();
    lemma_i64_le_bytes_roundtrip(v.deposite_time_stamp);
    lemma_i64_le_bytes_roundtrip(v.unlock_time_stamp);
    let s = spec_encode_create_input(v);
    assert(s.len() == CREATE_INPUT_LEN);
    assert(s.subrange(0, 32) =~= v.token_address);
    assert(s.subrange(32, 40) =~= spec_u64_to_le_bytes(v.amount));
    assert(s.subrange(40, 72) =~= v.withdrawer);
    assert(s.subrange(72, 80) =~= spec_i64_to_le_bytes(v.deposite_time_stamp));
    assert(s[80] == spec_bool_byte(v.withdrawn));
    assert(s[81] == spec_bool_byte(v.deposited));
    assert(s.subrange(82, 90) =~= spec_i64_to_le_bytes(v.unlock_time_stamp));
}

/// Serializing a transaction payload and decoding the bytes yields the
/// payload back, field for field.
pub proof fn lemma_transaction_input_roundtrip(v: TransactionInputV)
    requires
        v.token.len() == 32,
    ensures
        spec_decode_transaction_input(spec_encode_transaction_input(v)) == Some(v),
{
    lemma_auto_spec_u64_to_from_le_bytes();
    let s = spec_encode_transaction_input(v);
    assert(s.len() == TRANSACTION_INPUT_LEN);
    assert(s.subrange(0, 8) =~= spec_u64_to_le_bytes(v.amount));
    assert(s.subrange(8, 40) =~= v.token);
}

/// Serializing a vault record and decoding the bytes yields the record back,
/// field for field.
pub proof fn lemma_vault_roundtrip(v: VaultDataV)
    requires
        v.withdrawer.len() == 32,
        v.token.depositor.len() == 32,
        v.token.token_address.len() == 32,
    ensures
        spec_decode_vault(spec_encode_vault(v)) == Some(v),
{
    lemma_auto_spec_u64_to_from_le_bytes();
    lemma_i64_le_bytes_roundtrip(v.deposite_time_stamp);
    lemma_i64_le_bytes_roundtrip(v.unlock_time_stamp);
    let s = spec_encode_vault(v);
    assert(s.len() == VAULT_DATA_LEN);
    assert(s.subrange(0, 32) =~= v.withdrawer);
    assert(s.subrange(32, 40) =~= spec_i64_to_le_bytes(v.deposite_time_stamp));
    assert(s.subrange(40, 48) =~= spec_i64_to_le_bytes(v.unlock_time_stamp));
    assert(s[48] == spec_bool_byte(v.withdrawn));
    assert(s[49] == spec_bool_byte(v.deposited));
    assert(s.subrange(50, 82) =~= v.token.depositor);
    assert(s.subrange(82, 90) =~= spec_u64_to_le_bytes(v.token.amount));
    assert(s.subrange(90, 122) =~= v.token.token_address);
    assert(s[122] == spec_bool_byte(v.token.black_listed));
    assert(s.subrange(123, 131) =~= spec_u64_to_le_bytes(v.token.amount_withdrawn));
}

} // verus!
