//! Fixed-width value types exchanged across the runtime boundary, and
//! their binary encoding.
//!
//! Hash/address types serialize as their raw byte string and 256-bit
//! integers serialize as a fixed 32-byte big-endian byte string; decoding
//! anything else for these fields is a type error.

use vstd::prelude::*;

use crate::codec::{byte_string_of, byte_string_value, value_into_byte_string};

verus! {

/// Decoding failure: a byte string of the wrong shape for the target type.
#[derive(Clone, Copy, Debug, PartialEq, Eq, Structural)]
pub enum DecodeError {
    UnexpectedType,
}

/// A 160-bit (20-byte) hash or address.
#[derive(Clone, Debug)]
pub struct H160 {
    bytes: Vec<u8>,
}

impl View for H160 {
    type V = Seq<u8>;

    closed spec fn view(&self) -> Seq<u8> {
        self.bytes@
    }
}

impl H160 {
    /// A valid value holds exactly 20 bytes.
    pub open spec fn wf(&self) -> bool {
        self@.len() == 20
    }

    /// Build from exactly 20 raw bytes; any other length is refused.
    pub fn from_bytes(bytes: Vec<u8>) -> (r: Option<H160>)
        ensures
            r matches Some(h) ==> h@ == bytes@ && bytes@.len() == 20,
            r is None ==> bytes@.len() != 20,
    {
        if bytes.len() == 20 {
            Some(H160 { bytes })
        } else {
            None
        }
    }

    /// The raw bytes of the value.
    pub fn as_bytes(&self) -> (r: &[u8])
        ensures
            r@ == self@,
    {
        self.bytes.as_slice()
    }

    /// Serialize: the raw 20-byte string.
    pub fn into_byte_string(self) -> (r: Vec<u8>)
        ensures
            r@ == self@,
    {
        self.bytes
    }

    /// Deserialize: only a byte string of exactly 20 bytes is accepted;
    /// anything else is a type error.
    pub fn try_from_byte_string(bytes: Vec<u8>) -> (r: Result<H160, DecodeError>)
        ensures
            r matches Ok(h) ==> h@ == bytes@ && bytes@.len() == 20,
            r matches Err(e) ==> e == DecodeError::UnexpectedType && bytes@.len() != 20,
    {
        match H160::from_bytes(bytes) {
            Some(h) => Ok(h),
            None => Err(DecodeError::UnexpectedType),
        }
    }

    /// Encode as a CBOR byte string of the raw 20 bytes.
    pub fn into_cbor_value(self) -> (r: oasis_cbor_value::Value)
        ensures
            r == byte_string_of(self@),
    {
        byte_string_value(self.bytes)
    }

    /// Decode from a CBOR value: only a byte string of exactly 20 bytes is
    /// accepted; anything else is a type error.
    pub fn try_from_cbor_value(value: oasis_cbor_value::Value) -> (r: Result<H160, DecodeError>)
        ensures
            r matches Ok(h) ==> (h.wf() && value == byte_string_of(h@)),
            r matches Err(e) ==> (e == DecodeError::UnexpectedType && forall|s: Seq<u8>|
                s.len() == 20 ==> byte_string_of(s) != value),
    {
        match value_into_byte_string(value) {
            Some(b) => match H160::from_bytes(b) {
                Some(h) => Ok(h),
                None => Err(DecodeError::UnexpectedType),
            },
            None => Err(DecodeError::UnexpectedType),
        }
    }
}

/// A 256-bit (32-byte) hash.
#[derive(Clone, Debug)]
pub struct H256 {
    bytes: Vec<u8>,
}

impl View for H256 {
    type V = Seq<u8>;

    closed spec fn view(&self) -> Seq<u8> {
        self.bytes@
    }
}

impl H256 {
    /// A valid value holds exactly 32 bytes.
    pub open spec fn wf(&self) -> bool {
        self@.len() == 32
    }

    /// Build from exactly 32 raw bytes; any other length is refused.
    pub fn from_bytes(bytes: Vec<u8>) -> (r: Option<H256>)
        ensures
            r matches Some(h) ==> h@ == bytes@ && bytes@.len() == 32,
            r is None ==> bytes@.len() != 32,
    {
        if bytes.len() == 32 {
            Some(H256 { bytes })
        } else {
            None
        }
    }

    /// The raw bytes of the value.
    pub fn as_bytes(&self) -> (r: &[u8])
        ensures
            r@ == self@,
    {
        self.bytes.as_slice()
    }

    /// Serialize: the raw 32-byte string.
    pub fn into_byte_string(self) -> (r: Vec<u8>)
        ensures
            r@ == self@,
    {
        self.bytes
    }

    /// Deserialize: only a byte string of exactly 32 bytes is accepted;
    /// anything else is a type error.
    pub fn try_from_byte_string(bytes: Vec<u8>) -> (r: Result<H256, DecodeError>)
        ensures
            r matches Ok(h) ==> h@ == bytes@ && bytes@.len() == 32,
            r matches Err(e) ==> e == DecodeError::UnexpectedType && bytes@.len() != 32,
    {
        match H256::from_bytes(bytes) {
            Some(h) => Ok(h),
            None => Err(DecodeError::UnexpectedType),
        }
    }

    /// Encode as a CBOR byte string of the raw 32 bytes.
    pub fn into_cbor_value(self) -> (r: oasis_cbor_value::Value)
        ensures
            r == byte_string_of(self@),
    {
        byte_string_value(self.bytes)
    }

    /// Decode from a CBOR value: only a byte string of exactly 32 bytes is
    /// accepted; anything else is a type error.
    pub fn try_from_cbor_value(value: oasis_cbor_value::Value) -> (r: Result<H256, DecodeError>)
        ensures
            r matches Ok(h) ==> (h.wf() && value == byte_string_of(h@)),
            r matches Err(e) ==> (e == DecodeError::UnexpectedType && forall|s: Seq<u8>|
                s.len() == 32 ==> byte_string_of(s) != value),
    {
        match value_into_byte_string(value) {
            Some(b) => match H256::from_bytes(b) {
                Some(h) => Ok(h),
                None => Err(DecodeError::UnexpectedType),
            },
            None => Err(DecodeError::UnexpectedType),
        }
    }
}

/// A 256-bit unsigned integer, as four 64-bit words, least significant
/// first.
#[derive(Clone, Copy, Debug, PartialEq, Eq, Structural)]
pub struct U256 {
    pub w0: u64,
    pub w1: u64,
    pub w2: u64,
    pub w3: u64,
}

/// Byte `j` (0 is most significant) of the big-endian encoding of `w`.
pub open spec fn u64_be_byte(w: u64, j: int) -> u8 {
    ((w >> ((56 - 8 * j) as u64)) & 0xff) as u8
}

/// Word `k` (0 is least significant) of a 256-bit value.
pub open spec fn u256_word(x: U256, k: int) -> u64 {
    if k == 0 {
        x.w0
    } else if k == 1 {
        x.w1
    } else if k == 2 {
        x.w2
    } else {
        x.w3
    }
}

/// Byte `i` (0 is most significant) of the 32-byte big-endian encoding of
/// `x`.
pub open spec fn u256_be_byte(x: U256, i: int) -> u8 {
    u64_be_byte(u256_word(x, 3 - i / 8), i % 8)
}

/// The big-endian 64-bit word read from `s` at offset `off`.
pub open spec fn be_word(s: Seq<u8>, off: int) -> u64 {
    ((s[off] as u64) << 56u64) | ((s[off + 1] as u64) << 48u64) | ((s[off + 2] as u64) << 40u64) | (
    (s[off + 3] as u64) << 32u64) | ((s[off + 4] as u64) << 24u64) | ((s[off + 5] as u64)
        << 16u64) | ((s[off + 6] as u64) << 8u64) | (s[off + 7] as u64)
}

/// `s` padded on the left with zero bytes to 32 bytes.
pub open spec fn pad32(s: Seq<u8>) -> Seq<u8>
    recommends
        s.len() <= 32,
{
    Seq::new((32 - s.len()) as nat, |i: int| 0u8) + s
}

/// The 256-bit value whose 32-byte big-endian encoding is `s` padded on
/// the left with zeros.
pub open spec fn u256_from_be(s: Seq<u8>) -> U256
    recommends
        s.len() <= 32,
{
    U256 {
        w0: be_word(pad32(s), 24),
        w1: be_word(pad32(s), 16),
        w2: be_word(pad32(s), 8),
        w3: be_word(pad32(s), 0),
    }
}

/// Append the 8 bytes of `w`, most significant first.
fn push_be_u64(out: &mut Vec<u8>, w: u64)
    ensures
        final(out)@.len() == old(out)@.len() + 8,
        forall|j: int| 0 <= j < old(out)@.len() ==> final(out)@[j] == old(out)@[j],
        forall|j: int| 0 <= j < 8 ==> final(out)@[old(out)@.len() + j] == u64_be_byte(w, j),
{
    proof {
        assert(((w >> 56u64) & 0xff < 256) && ((w >> 48u64) & 0xff < 256) && ((w >> 40u64) & 0xff
            < 256) && ((w >> 32u64) & 0xff < 256) && ((w >> 24u64) & 0xff < 256) && ((w >> 16u64)
            & 0xff < 256) && ((w >> 8u64) & 0xff < 256) && (w & 0xff < 256)) by (bit_vector);
    }
    out.push(((w >> 56u64) & 0xff) as u8);
    out.push(((w >> 48u64) & 0xff) as u8);
    out.push(((w >> 40u64) & 0xff) as u8);
    out.push(((w >> 32u64) & 0xff) as u8);
    out.push(((w >> 24u64) & 0xff) as u8);
    out.push(((w >> 16u64) & 0xff) as u8);
    out.push(((w >> 8u64) & 0xff) as u8);
    out.push((w & 0xff) as u8);
    proof {
        let base = old(out)@.len() as int;
        assert forall|j: int| 0 <= j < 8 implies out@[base + j] == u64_be_byte(w, j) by {
            if j == 0 {
                assert(out@[base + 0] == u64_be_byte(w, 0));
            } else if j == 1 {
                assert(out@[base + 1] == u64_be_byte(w, 1));
            } else if j == 2 {
                assert(out@[base + 2] == u64_be_byte(w, 2));
            } else if j == 3 {
                assert(out@[base + 3] == u64_be_byte(w, 3));
            } else if j == 4 {
                assert(out@[base + 4] == u64_be_byte(w, 4));
            } else if j == 5 {
                assert(out@[base + 5] == u64_be_byte(w, 5));
            } else if j == 6 {
                assert(out@[base + 6] == u64_be_byte(w, 6));
            } else {
                assert(w >> 0u64 == w) by (bit_vector);
                assert(out@[base + 7] == u64_be_byte(w, 7));
            }
        }
    }
}

/// Read the big-endian 64-bit word at `off`.
fn read_be_u64(b: &Vec<u8>, off: usize) -> (w: u64)
    requires
        off + 8 <= b@.len(),
        b@.len() <= 32,
    ensures
        w == be_word(b@, off as int),
{
    ((b[off] as u64) << 56u64) | ((b[off + 1] as u64) << 48u64) | ((b[off + 2] as u64) << 40u64) | (
    (b[off + 3] as u64) << 32u64) | ((b[off + 4] as u64) << 24u64) | ((b[off + 5] as u64)
        << 16u64) | ((b[off + 6] as u64) << 8u64) | (b[off + 7] as u64)
}

/// A 64-bit word is recovered exactly from its eight big-endian bytes.
proof fn lemma_be_word_reassemble(s: Seq<u8>, off: int, w: u64)
    requires
        0 <= off,
        off + 8 <= s.len(),
        forall|j: int| 0 <= j < 8 ==> s[off + j] == u64_be_byte(w, j),
    ensures
        be_word(s, off) == w,
{
    assert(s[off + 0] == u64_be_byte(w, 0));
    assert(s[off + 1] == u64_be_byte(w, 1));
    assert(s[off + 2] == u64_be_byte(w, 2));
    assert(s[off + 3] == u64_be_byte(w, 3));
    assert(s[off + 4] == u64_be_byte(w, 4));
    assert(s[off + 5] == u64_be_byte(w, 5));
    assert(s[off + 6] == u64_be_byte(w, 6));
    assert(s[off + 7] == u64_be_byte(w, 7));
    assert(w >> 0u64 == w) by (bit_vector);
    assert((((w >> 56u64) & 0xff < 256) && ((w >> 48u64) & 0xff < 256) && ((w >> 40u64) & 0xff
        < 256) && ((w >> 32u64) & 0xff < 256) && ((w >> 24u64) & 0xff < 256) && ((w >> 16u64)
        & 0xff < 256) && ((w >> 8u64) & 0xff < 256) && (w & 0xff < 256))) by (bit_vector);
    assert(((((w >> 56u64) & 0xff) << 56u64) | (((w >> 48u64) & 0xff) << 48u64) | (((w >> 40u64)
        & 0xff) << 40u64) | (((w >> 32u64) & 0xff) << 32u64) | (((w >> 24u64) & 0xff) << 24u64) | ((
    (w >> 16u64) & 0xff) << 16u64) | (((w >> 8u64) & 0xff) << 8u64) | (w & 0xff)) == w)
        by (bit_vector);
}

impl U256 {
    /// Serialize: the fixed 32-byte big-endian encoding of the value.
    /// Decoding the result gives the value back.
    pub fn to_be_bytes(&self) -> (r: Vec<u8>)
        ensures
            r@.len() == 32,
            forall|i: int| 0 <= i < 32 ==> r@[i] == u256_be_byte(*self, i),
            u256_from_be(r@) == *self,
    {
        let mut out: Vec<u8> = Vec::new();
        push_be_u64(&mut out, self.w3);
        push_be_u64(&mut out, self.w2);
        push_be_u64(&mut out, self.w1);
        push_be_u64(&mut out, self.w0);
        proof {
            let s = out@;
            lemma_be_word_reassemble(s, 0, self.w3);
            lemma_be_word_reassemble(s, 8, self.w2);
            lemma_be_word_reassemble(s, 16, self.w1);
            lemma_be_word_reassemble(s, 24, self.w0);
            assert(pad32(s) =~= s);
            assert(u256_from_be(s) == *self);
        }
        out
    }

    /// The value read from up to 32 big-endian bytes; shorter inputs are
    /// zero-padded on the left.
    pub fn from_be_bytes(bytes: &Vec<u8>) -> (r: U256)
        requires
            bytes@.len() <= 32,
        ensures
            r == u256_from_be(bytes@),
    {
        let n = bytes.len();
        let mut p: Vec<u8> = Vec::new();
        while p.len() < 32 - n
            invariant
                n == bytes@.len() <= 32,
                p@.len() <= 32 - n,
                forall|j: int| 0 <= j < p@.len() ==> p@[j] == 0u8,
            decreases 32 - n - p@.len(),
        {
            p.push(0u8);
        }
        let mut i: usize = 0;
        while i < n
            invariant
                n == bytes@.len() <= 32,
                i <= n,
                p@.len() == 32 - n + i,
                forall|j: int| 0 <= j < 32 - n ==> p@[j] == 0u8,
                forall|j: int| 0 <= j < i ==> p@[32 - n + j] == bytes@[j],
            decreases n - i,
        {
            p.push(bytes[i]);
            i += 1;
        }
        proof {
            assert(p@ =~= pad32(bytes@));
        }
        U256 {
            w0: read_be_u64(&p, 24),
            w1: read_be_u64(&p, 16),
            w2: read_be_u64(&p, 8),
            w3: read_be_u64(&p, 0),
        }
    }

    /// Deserialize: only a byte string of at most 32 bytes is accepted,
    /// read as a big-endian integer; anything longer is a type error.
    pub fn try_from_byte_string(bytes: &Vec<u8>) -> (r: Result<U256, DecodeError>)
        ensures
            r matches Ok(x) ==> bytes@.len() <= 32 && x == u256_from_be(bytes@),
            r matches Err(e) ==> e == DecodeError::UnexpectedType && bytes@.len() > 32,
    {
        if bytes.len() <= 32 {
            Ok(U256::from_be_bytes(bytes))
        } else {
            Err(DecodeError::UnexpectedType)
        }
    }

    /// Encode as a CBOR byte string: the fixed 32-byte big-endian
    /// encoding.  Decoding the result gives the value back.
    pub fn into_cbor_value(self) -> (r: oasis_cbor_value::Value)
        ensures
            exists|s: Seq<u8>| r == byte_string_of(s) && s.len() == 32 && u256_from_be(s) == self,
    {
        let bytes = self.to_be_bytes();
        let ghost sb = bytes@;
        let r = byte_string_value(bytes);
        proof {
            assert(r == byte_string_of(sb) && sb.len() == 32 && u256_from_be(sb) == self);
        }
        r
    }

    /// Decode from a CBOR value: only a byte string of at most 32 bytes is
    /// accepted, read as a big-endian integer; anything else is a type
    /// error.
    pub fn try_from_cbor_value(value: oasis_cbor_value::Value) -> (r: Result<U256, DecodeError>)
        ensures
            r matches Ok(x) ==> (exists|s: Seq<u8>|
                value == byte_string_of(s) && s.len() <= 32 && x == u256_from_be(s)),
            r matches Err(e) ==> (e == DecodeError::UnexpectedType && forall|s: Seq<u8>|
                s.len() <= 32 ==> byte_string_of(s) != value),
    {
        match value_into_byte_string(value) {
            Some(b) => match U256::try_from_byte_string(&b) {
                Ok(x) => Ok(x),
                Err(e) => Err(e),
            },
            None => Err(DecodeError::UnexpectedType),
        }
    }
}

/// Transaction body for creating an EVM contract.
#[derive(Clone, Debug)]
pub struct CreateTx {
    pub value: U256,
    pub init_code: Vec<u8>,
    pub gas_price: U256,
    pub gas_limit: u64,
}

/// Transaction body for calling an EVM contract.
#[derive(Clone, Debug)]
pub struct CallTx {
    pub address: H160,
    pub value: U256,
    pub data: Vec<u8>,
    pub gas_price: U256,
    pub gas_limit: u64,
}

/// Transaction body for peeking into EVM storage.
#[derive(Clone, Debug)]
pub struct PeekStorageQuery {
    pub address: H160,
    pub index: H256,
}

/// Transaction body for peeking into EVM code storage.
#[derive(Clone, Debug)]
pub struct PeekCodeQuery {
    pub address: H160,
}

} // verus!
