use vstd::prelude::*;

use crate::key::Pubkey;
use crate::vault::Vault;

verus! {

/// The eight little-endian bytes of `x`.
pub open spec fn le_bytes(x: u64) -> Seq<u8> {
    seq![
        (x & 0xff) as u8,
        ((x >> 8u64) & 0xff) as u8,
        ((x >> 16u64) & 0xff) as u8,
        ((x >> 24u64) & 0xff) as u8,
        ((x >> 32u64) & 0xff) as u8,
        ((x >> 40u64) & 0xff) as u8,
        ((x >> 48u64) & 0xff) as u8,
        ((x >> 56u64) & 0xff) as u8,
    ]
}

/// The number whose little-endian bytes are the first eight of `b`.
pub open spec fn le_value(b: Seq<u8>) -> u64 {
    (b[0] as u64) | ((b[1] as u64) << 8u64) | ((b[2] as u64) << 16u64) | ((b[3] as u64)
        << 24u64) | ((b[4] as u64) << 32u64) | ((b[5] as u64) << 40u64) | ((b[6] as u64)
        << 48u64) | ((b[7] as u64) << 56u64)
}

/// The stored form of a vault: owner, mint, target price, referrer, price
/// snapshot and flag, the prices little-endian and the flag one byte.
pub open spec fn record_of(v: Vault) -> Seq<u8> {
    v.owner@ + v.token_mint@ + le_bytes(v.target_price) + v.referrer@ + le_bytes(
        v.current_price,
    ) + seq![if v.ready_for_execution { 1u8 } else { 0u8 }]
}

fn push_key(out: &mut Vec<u8>, k: &Pubkey)
    ensures
        final(out)@ == old(out)@ + k@,
{
    let mut i: usize = 0;
    while i < 32
        invariant
            0 <= i <= 32,
            k@.len() == 32,
            out@ == old(out)@ + k@.subrange(0, i as int),
        decreases 32 - i,
    {
        out.push(k.bytes[i]);
        i = i + 1;
        assert(out@ =~= old(out)@ + k@.subrange(0, i as int));
    }
    assert(k@.subrange(0, 32) =~= k@);
}

fn push_u64_le(out: &mut Vec<u8>, x: u64)
    ensures
        final(out)@ == old(out)@ + le_bytes(x),
{
    out.push((x & 0xff) as u8);
    out.push(((x >> 8u64) & 0xff) as u8);
    out.push(((x >> 16u64) & 0xff) as u8);
    out.push(((x >> 24u64) & 0xff) as u8);
    out.push(((x >> 32u64) & 0xff) as u8);
    out.push(((x >> 40u64) & 0xff) as u8);
    out.push(((x >> 48u64) & 0xff) as u8);
    out.push(((x >> 56u64) & 0xff) as u8);
    assert(out@ =~= old(out)@ + le_bytes(x));
}

fn read_key(bytes: &[u8], at: usize) -> (r: Pubkey)
    requires
        at + 32 <= bytes@.len() == Vault::LEN,
    ensures
        r@ == bytes@.subrange(at as int, at + 32),
{
    let mut a: [u8; 32] = [0u8; 32];
    let mut i: usize = 0;
    while i < 32
        invariant
            0 <= i <= 32,
            at + 32 <= bytes@.len() == Vault::LEN,
            a@.len() == 32,
            forall|j: int| 0 <= j < i ==> a@[j] == bytes@[at + j],
        decreases 32 - i,
    {
        a[i] = bytes[at + i];
        i = i + 1;
    }
    assert(a@ =~= bytes@.subrange(at as int, at + 32));
    Pubkey { bytes: a }
}

fn read_u64_le(bytes: &[u8], at: usize) -> (r: u64)
    requires
        at + 8 <= bytes@.len(),
    ensures
        r == le_value(bytes@.subrange(at as int, at + 8)),
{
    let ghost b = bytes@.subrange(at as int, at + 8);
    (bytes[at] as u64) | ((bytes[at + 1] as u64) << 8u64) | ((bytes[at + 2] as u64) << 16u64)
        | ((bytes[at + 3] as u64) << 24u64) | ((bytes[at + 4] as u64) << 32u64) | ((bytes[at
        + 5] as u64) << 40u64) | ((bytes[at + 6] as u64) << 48u64) | ((bytes[at + 7] as u64)
        << 56u64)
}

impl Vault {
    /// The stored form of this vault, `Vault::LEN` bytes long.
    pub fn to_record(&self) -> (r: Vec<u8>)
        ensures
            r@ == record_of(*self),
            r@.len() == Vault::LEN,
    {
        let mut out: Vec<u8> = Vec::new();
        push_key(&mut out, &self.owner);
        push_key(&mut out, &self.token_mint);
        push_u64_le(&mut out, self.target_price);
        push_key(&mut out, &self.referrer);
        push_u64_le(&mut out, self.current_price);
        out.push(if self.ready_for_execution { 1u8 } else { 0u8 });
        assert(out@ =~= record_of(*self));
        out
    }

    /// Reads a stored vault back: `None` unless the record is `Vault::LEN`
    /// bytes long and its flag byte is 0 or 1.
    pub fn from_record(bytes: &[u8]) -> (r: Option<Vault>)
        ensures
            r is Some <==> (bytes@.len() == Vault::LEN && bytes@[112] <= 1),
            r is Some ==> r->Some_0.owner@ == bytes@.subrange(0, 32),
            r is Some ==> r->Some_0.token_mint@ == bytes@.subrange(32, 64),
            r is Some ==> r->Some_0.target_price == le_value(bytes@.subrange(64, 72)),
            r is Some ==> r->Some_0.referrer@ == bytes@.subrange(72, 104),
            r is Some ==> r->Some_0.current_price == le_value(bytes@.subrange(104, 112)),
            r is Some ==> r->Some_0.ready_for_execution == (bytes@[112] == 1),
    {
        if bytes.len() != Vault::LEN || bytes[112] > 1 {
            return None;
        }
        Some(
            Vault {
                owner: read_key(bytes, 0),
                token_mint: read_key(bytes, 32),
                target_price: read_u64_le(bytes, 64),
                referrer: read_key(bytes, 72),
                current_price: read_u64_le(bytes, 104),
                ready_for_execution: bytes[112] == 1,
            },
        )
    }
}

proof fn lemma_le_round_trip(x: u64)
    ensures
        le_value(le_bytes(x)) == x,
{
    let b = le_bytes(x);
    assert(x == (((x & 0xff) as u8) as u64) | (((((x >> 8u64) & 0xff) as u8) as u64) << 8u64)
        | (((((x >> 16u64) & 0xff) as u8) as u64) << 16u64) | (((((x >> 24u64) & 0xff) as u8)
        as u64) << 24u64) | (((((x >> 32u64) & 0xff) as u8) as u64) << 32u64) | (((((x
        >> 40u64) & 0xff) as u8) as u64) << 40u64) | (((((x >> 48u64) & 0xff) as u8) as u64)
        << 48u64) | (((((x >> 56u64) & 0xff) as u8) as u64) << 56u64)) by (bit_vector);
}

/// Reading back what `to_record` stored gives every field of the vault.
pub proof fn lemma_record_round_trip(v: Vault)
    ensures
        record_of(v).len() == Vault::LEN,
        record_of(v)[112] <= 1,
        record_of(v).subrange(0, 32) == v.owner@,
        record_of(v).subrange(32, 64) == v.token_mint@,
        le_value(record_of(v).subrange(64, 72)) == v.target_price,
        record_of(v).subrange(72, 104) == v.referrer@,
        le_value(record_of(v).subrange(104, 112)) == v.current_price,
        (record_of(v)[112] == 1) == v.ready_for_execution,
{
    let r = record_of(v);
    assert(r.subrange(0, 32) =~= v.owner@);
    assert(r.subrange(32, 64) =~= v.token_mint@);
    assert(r.subrange(64, 72) =~= le_bytes(v.target_price));
    assert(r.subrange(72, 104) =~= v.referrer@);
    assert(r.subrange(104, 112) =~= le_bytes(v.current_price));
    lemma_le_round_trip(v.target_price);
    lemma_le_round_trip(v.current_price);
}

proof fn lemma_le_bytes_of_value(b: Seq<u8>)
    requires
        b.len() == 8,
    ensures
        le_bytes(le_value(b)) == b,
{
    let (b0, b1, b2, b3, b4, b5, b6, b7) = (b[0], b[1], b[2], b[3], b[4], b[5], b[6], b[7]);
    let x = le_value(b);
    assert(x == (b0 as u64) | ((b1 as u64) << 8u64) | ((b2 as u64) << 16u64) | ((b3 as u64)
        << 24u64) | ((b4 as u64) << 32u64) | ((b5 as u64) << 40u64) | ((b6 as u64) << 48u64) | ((
    b7 as u64) << 56u64));
    assert({
        let y = (b0 as u64) | ((b1 as u64) << 8u64) | ((b2 as u64) << 16u64) | ((b3 as u64)
            << 24u64) | ((b4 as u64) << 32u64) | ((b5 as u64) << 40u64) | ((b6 as u64) << 48u64)
            | ((b7 as u64) << 56u64);
        (y & 0xff) as u8 == b0 && ((y >> 8u64) & 0xff) as u8 == b1 && ((y >> 16u64) & 0xff) as u8
            == b2 && ((y >> 24u64) & 0xff) as u8 == b3 && ((y >> 32u64) & 0xff) as u8 == b4 && ((y
            >> 40u64) & 0xff) as u8 == b5 && ((y >> 48u64) & 0xff) as u8 == b6 && ((y >> 56u64)
            & 0xff) as u8 == b7
    }) by (bit_vector);
    assert(le_bytes(x) =~= b);
}

/// A stored record is determined by the fields read from it: any vault with
/// those fields is stored as exactly the same bytes.
pub proof fn lemma_record_determined(v: Vault, b: Seq<u8>)
    requires
        b.len() == Vault::LEN,
        b[112] <= 1,
        v.owner@ == b.subrange(0, 32),
        v.token_mint@ == b.subrange(32, 64),
        v.target_price == le_value(b.subrange(64, 72)),
        v.referrer@ == b.subrange(72, 104),
        v.current_price == le_value(b.subrange(104, 112)),
        v.ready_for_execution == (b[112] == 1),
    ensures
        record_of(v) == b,
{
    lemma_le_bytes_of_value(b.subrange(64, 72));
    lemma_le_bytes_of_value(b.subrange(104, 112));
    assert(record_of(v) =~= b);
}

} // verus!
