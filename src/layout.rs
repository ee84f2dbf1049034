//! The persisted layout of a counter: four bytes, least significant first.
use vstd::prelude::*;
use crate::error::CounterError;

verus! {

/// borsh's `io::Error`, which is std's own: carried opaque, so that a failed
/// read or write can be turned into an error of this library.
#[verifier::external_type_specification]
#[verifier::external_body]
pub struct ExIoError(std::io::Error);

/// Relies on borsh's `BorshDeserialize::try_from_slice` for `u32`: it reads the
/// value from four little-endian bytes and fails unless the slice holds exactly four.
#[verifier::external_body]
fn read_u32(bytes: &[u8]) -> (r: Result<u32, std::io::Error>)
    ensures
        r is Ok <==> bytes@.len() == 4,
        r is Ok ==> r->Ok_0 == le_value(bytes@),
{
    <u32 as borsh::BorshDeserialize>::try_from_slice(bytes)
}

/// Relies on borsh's `BorshSerialize::serialize` for `u32`, writing through a byte
/// slice: it writes the four little-endian bytes of the value at the start and fails
/// when fewer than four bytes fit. The length of the buffer never changes.
#[verifier::external_body]
fn write_u32(value: u32, buf: &mut Vec<u8>) -> (r: Result<(), std::io::Error>)
    ensures
        final(buf)@.len() == old(buf)@.len(),
        r is Ok <==> old(buf)@.len() >= 4,
        r is Ok ==> final(buf)@ == le_bytes(value) + old(buf)@.subrange(4, old(buf)@.len() as int),
{
    let mut w: &mut [u8] = buf.as_mut_slice();
    borsh::BorshSerialize::serialize(&value, &mut w)
}

/// The state stored in a counter account.
#[derive(Debug)]
pub struct CounterAccount {
    pub counter: u32,
}

impl CounterAccount {
    /// Reads a record from the whole of `bytes`, which must be exactly its four bytes.
    pub fn try_from_slice(bytes: &[u8]) -> (r: Result<CounterAccount, CounterError>)
        ensures
            r is Ok <==> bytes@.len() == 4,
            r is Ok ==> r->Ok_0.counter == le_value(bytes@),
            r is Err ==> r->Err_0 == CounterError::DecodeError,
    {
        match read_u32(bytes) {
            Ok(counter) => Ok(CounterAccount { counter }),
            Err(_) => Err(CounterError::DecodeError),
        }
    }

    /// Writes the record over the first four bytes of `buf`, keeping its length and
    /// the bytes after them.
    pub fn serialize(&self, buf: &mut Vec<u8>) -> (r: Result<(), CounterError>)
        ensures
            final(buf)@.len() == old(buf)@.len(),
            r is Ok <==> old(buf)@.len() >= 4,
            r is Ok ==> final(buf)@ == le_bytes(self.counter) + old(buf)@.subrange(
                4,
                old(buf)@.len() as int,
            ),
            r is Err ==> r->Err_0 == CounterError::EncodeError,
    {
        match write_u32(self.counter, buf) {
            Ok(()) => Ok(()),
            Err(_) => Err(CounterError::EncodeError),
        }
    }
}

/// The value that four little-endian bytes encode.
pub open spec fn le_value(b: Seq<u8>) -> u32
    recommends
        b.len() == 4,
{
    ((b[0] as u32) | ((b[1] as u32) << 8u32) | ((b[2] as u32) << 16u32) | ((b[3] as u32)
        << 24u32)) as u32
}

/// The four little-endian bytes of `v`.
pub open spec fn le_bytes(v: u32) -> Seq<u8> {
    seq![(v & 0xffu32) as u8, ((v >> 8u32) & 0xffu32) as u8, ((v >> 16u32) & 0xffu32) as u8, ((v >> 24u32) & 0xffu32) as u8]
}

/// Decoding the four bytes that encode a value gives that value back.
pub proof fn lemma_decode_encode(v: u32)
    ensures
        le_bytes(v).len() == 4,
        le_value(le_bytes(v)) == v,
{
    let b0 = (v & 0xffu32) as u8;
    let b1 = ((v >> 8u32) & 0xffu32) as u8;
    let b2 = ((v >> 16u32) & 0xffu32) as u8;
    let b3 = ((v >> 24u32) & 0xffu32) as u8;
    assert(((b0 as u32) | ((b1 as u32) << 8u32) | ((b2 as u32) << 16u32) | ((b3 as u32) << 24u32))
        == v) by (bit_vector)
        requires
            b0 == (v & 0xffu32) as u8,
            b1 == ((v >> 8u32) & 0xffu32) as u8,
            b2 == ((v >> 16u32) & 0xffu32) as u8,
            b3 == ((v >> 24u32) & 0xffu32) as u8,
    ;
}

/// Round trip of the layout: any four bytes, such as those a successful increment
/// leaves behind, are decoded to a value whose encoding is the same four bytes.
pub proof fn lemma_encode_decode(b: Seq<u8>)
    requires
        b.len() == 4,
    ensures
        le_bytes(le_value(b)) == b,
{
    let (b0, b1, b2, b3) = (b[0], b[1], b[2], b[3]);
    let v = le_value(b);
    assert(v == ((b0 as u32) | ((b1 as u32) << 8u32) | ((b2 as u32) << 16u32) | ((b3 as u32)
        << 24u32)));
    assert((v & 0xffu32) as u8 == b0 && ((v >> 8u32) & 0xffu32) as u8 == b1 && ((v >> 16u32)
        & 0xffu32) as u8 == b2 && ((v >> 24u32) & 0xffu32) as u8 == b3) by (bit_vector)
        requires
            v == ((b0 as u32) | ((b1 as u32) << 8u32) | ((b2 as u32) << 16u32) | ((b3 as u32)
                << 24u32)),
    ;
    assert(le_bytes(v) =~= b);
}

} // verus!
