//! Checksums and byte helpers shared by the encoders and decoders.

use super::error::{ParameterDataError, RdmError};
use vstd::prelude::*;
use vstd::string::StringSliceAdditionalSpecFns;

verus! {

/// The RDM checksum: the arithmetic sum of all bytes, modulo 2^16.
pub open spec fn checksum_spec(bytes: Seq<u8>) -> nat
    decreases bytes.len(),
{
    if bytes.len() == 0 {
        0
    } else {
        ((checksum_spec(bytes.drop_last()) + bytes.last()) % 0x10000) as nat
    }
}

/// Computes the 16 bit additive checksum of `bytes`.
pub fn bsd_16_crc(bytes: &[u8]) -> (crc: u16)
    ensures
        crc == checksum_spec(bytes@),
{
    let mut crc: u16 = 0;
    let mut i: usize = 0;
    while i < bytes.len()
        invariant
            i <= bytes@.len(),
            crc == checksum_spec(bytes@.subrange(0, i as int)),
        decreases bytes@.len() - i,
    {
        proof {
            assert(bytes@.subrange(0, i + 1).drop_last() =~= bytes@.subrange(0, i as int));
        }
        crc = crc.wrapping_add(bytes[i] as u16);
        i = i + 1;
    }
    proof {
        assert(bytes@.subrange(0, bytes@.len() as int) =~= bytes@);
    }
    crc
}

/// Big endian bytes of a 16 bit value.
pub open spec fn be16(v: u16) -> Seq<u8> {
    seq![(v / 0x100) as u8, (v % 0x100) as u8]
}

/// The 16 bit value of two big endian bytes.
pub open spec fn from_be16(hi: u8, lo: u8) -> u16 {
    (hi as int * 0x100 + lo as int) as u16
}

/// Big endian bytes of a 32 bit value.
pub open spec fn be32(v: u32) -> Seq<u8> {
    seq![
        (v / 0x100_0000) as u8,
        ((v / 0x1_0000) % 0x100) as u8,
        ((v / 0x100) % 0x100) as u8,
        (v % 0x100) as u8,
    ]
}

/// The 32 bit value of four big endian bytes.
pub open spec fn from_be32(b0: u8, b1: u8, b2: u8, b3: u8) -> u32 {
    (b0 as int * 0x100_0000 + b1 as int * 0x1_0000 + b2 as int * 0x100 + b3 as int) as u32
}

/// Two's complement big endian bytes of a signed 16 bit value.
pub open spec fn be_i16(v: i16) -> Seq<u8> {
    be16(i16_bits(v))
}

/// The two's complement bit pattern of a signed 16 bit value.
pub open spec fn i16_bits(v: i16) -> u16 {
    if v >= 0 { v as u16 } else { (v as int + 0x1_0000) as u16 }
}

/// The signed 16 bit value of a two's complement bit pattern.
pub open spec fn i16_of_bits(b: u16) -> i16 {
    if b < 0x8000 { b as i16 } else { (b as int - 0x1_0000) as i16 }
}

pub broadcast proof fn lemma_be16_roundtrip(v: u16)
    ensures
        #[trigger] from_be16(be16(v)[0], be16(v)[1]) == v,
{
}

pub broadcast proof fn lemma_from_be16_bytes(hi: u8, lo: u8)
    ensures
        #[trigger] be16(from_be16(hi, lo)) == seq![hi, lo],
{
    assert(be16(from_be16(hi, lo)) =~= seq![hi, lo]);
}

pub broadcast proof fn lemma_be32_roundtrip(v: u32)
    ensures
        #[trigger] from_be32(be32(v)[0], be32(v)[1], be32(v)[2], be32(v)[3]) == v,
{
}

pub broadcast proof fn lemma_from_be32_bytes(b0: u8, b1: u8, b2: u8, b3: u8)
    ensures
        #[trigger] be32(from_be32(b0, b1, b2, b3)) == seq![b0, b1, b2, b3],
{
    let v: u32 = from_be32(b0, b1, b2, b3);
    assert(v == b0 as u32 * 0x100_0000 + b1 as u32 * 0x1_0000 + b2 as u32 * 0x100 + b3 as u32);
    assert({
        &&& v / 0x100_0000 == b0 as u32
        &&& (v / 0x1_0000) % 0x100 == b1 as u32
        &&& (v / 0x100) % 0x100 == b2 as u32
        &&& v % 0x100 == b3 as u32
    }) by (bit_vector)
        requires
            v == b0 as u32 * 0x100_0000 + b1 as u32 * 0x1_0000 + b2 as u32 * 0x100 + b3 as u32,
    ;
    assert(be32(v) =~= seq![b0, b1, b2, b3]);
}

pub broadcast proof fn lemma_i16_roundtrip(v: i16)
    ensures
        #[trigger] i16_of_bits(i16_bits(v)) == v,
{
}

pub broadcast group group_byte_lemmas {
    lemma_be16_roundtrip,
    lemma_from_be16_bytes,
    lemma_be32_roundtrip,
    lemma_from_be32_bytes,
    lemma_i16_roundtrip,
}

/// Reads the big endian 16 bit value at `pos`.
pub fn read_u16(buf: &[u8], pos: usize) -> (v: u16)
    requires
        pos + 2 <= buf@.len(),
    ensures
        v == from_be16(buf@[pos as int], buf@[pos + 1]),
{
    buf[pos] as u16 * 0x100 + buf[pos + 1] as u16
}

/// Reads the big endian 32 bit value at `pos`.
pub fn read_u32(buf: &[u8], pos: usize) -> (v: u32)
    requires
        pos + 4 <= buf@.len(),
    ensures
        v == from_be32(buf@[pos as int], buf@[pos + 1], buf@[pos + 2], buf@[pos + 3]),
{
    buf[pos] as u32 * 0x100_0000 + buf[pos + 1] as u32 * 0x1_0000 + buf[pos + 2] as u32 * 0x100
        + buf[pos + 3] as u32
}

/// Reads the two's complement big endian 16 bit value at `pos`.
pub fn read_i16(buf: &[u8], pos: usize) -> (v: i16)
    requires
        pos + 2 <= buf@.len(),
    ensures
        v == i16_of_bits(from_be16(buf@[pos as int], buf@[pos + 1])),
{
    let bits = read_u16(buf, pos);
    if bits < 0x8000 {
        bits as i16
    } else {
        (bits as i32 - 0x1_0000) as i16
    }
}

/// The bits of a signed 16 bit value, as an unsigned value.
pub fn i16_to_bits(v: i16) -> (b: u16)
    ensures
        b == i16_bits(v),
{
    if v >= 0 {
        v as u16
    } else {
        (v as i32 + 0x1_0000) as u16
    }
}

/// Appending big endian integers to a byte vector.
pub trait VecExt {
    spec fn bytes_view(&self) -> Seq<u8>;

    fn push_u8(&mut self, value: u8)
        ensures
            final(self).bytes_view() == old(self).bytes_view().push(value),
    ;

    fn push_u16_be(&mut self, value: u16)
        ensures
            final(self).bytes_view() == old(self).bytes_view() + be16(value),
    ;

    fn push_u32_be(&mut self, value: u32)
        ensures
            final(self).bytes_view() == old(self).bytes_view() + be32(value),
    ;
}

impl VecExt for Vec<u8> {
    open spec fn bytes_view(&self) -> Seq<u8> {
        self@
    }

    fn push_u8(&mut self, value: u8) {
        self.push(value);
    }

    fn push_u16_be(&mut self, value: u16) {
        let hi = (value / 0x100) as u8;
        let lo = (value % 0x100) as u8;
        self.push(hi);
        self.push(lo);
        assert(be16(value) =~= seq![hi, lo]);
        assert(self@ =~= old(self)@ + be16(value));
        assert(self.bytes_view() =~= old(self).bytes_view() + be16(value));
    }

    fn push_u32_be(&mut self, value: u32) {
        let b0 = (value / 0x100_0000) as u8;
        let b1 = ((value / 0x1_0000) % 0x100) as u8;
        let b2 = ((value / 0x100) % 0x100) as u8;
        let b3 = (value % 0x100) as u8;
        self.push(b0);
        self.push(b1);
        self.push(b2);
        self.push(b3);
        assert(be32(value) == seq![b0, b1, b2, b3]);
        assert(self@ =~= old(self)@ + seq![b0, b1, b2, b3]);
    }
}

/// Appends all of `bytes` to `out`.
pub fn extend_from(out: &mut Vec<u8>, bytes: &[u8])
    ensures
        final(out)@ == old(out)@ + bytes@,
{
    let mut i: usize = 0;
    while i < bytes.len()
        invariant
            i <= bytes@.len(),
            out@ == old(out)@ + bytes@.subrange(0, i as int),
        decreases bytes@.len() - i,
    {
        out.push(bytes[i]);
        i = i + 1;
        assert(out@ =~= old(out)@ + bytes@.subrange(0, i as int));
    }
    assert(bytes@.subrange(0, bytes@.len() as int) =~= bytes@);
}

/// What writing `bytes` at the start of a buffer gives: `bytes` followed by the rest of the buffer.
pub open spec fn written_prefix(buf: Seq<u8>, bytes: Seq<u8>) -> Seq<u8> {
    bytes + buf.subrange(bytes.len() as int, buf.len() as int)
}

/// The outcome of writing encoded parameter data into a buffer: the bytes are written
/// at its start and their number returned, or the buffer is too small and stays as it was.
pub open spec fn encoded_into(
    old_buf: Seq<u8>,
    new_buf: Seq<u8>,
    bytes: Seq<u8>,
    res: Result<usize, ParameterDataError>,
) -> bool {
    if bytes.len() <= old_buf.len() {
        &&& res == Ok::<usize, ParameterDataError>(bytes.len() as usize)
        &&& new_buf == written_prefix(old_buf, bytes)
    } else {
        &&& res == Err::<usize, ParameterDataError>(
            ParameterDataError::BufferTooSmall {
                provided: old_buf.len() as usize,
                required: bytes.len() as usize,
            },
        )
        &&& new_buf == old_buf
    }
}

/// Copies `bytes` to the start of `buf` and returns their number.
pub fn write_prefix(buf: &mut [u8], bytes: &[u8])
    requires
        bytes@.len() <= old(buf)@.len(),
    ensures
        final(buf)@ == written_prefix(old(buf)@, bytes@),
{
    let mut i: usize = 0;
    while i < bytes.len()
        invariant
            i <= bytes@.len(),
            bytes@.len() <= buf@.len(),
            buf@.len() == old(buf)@.len(),
            buf@ == bytes@.subrange(0, i as int) + old(buf)@.subrange(i as int, old(buf)@.len() as int),
        decreases bytes@.len() - i,
    {
        buf[i] = bytes[i];
        i = i + 1;
        assert(buf@ =~= bytes@.subrange(0, i as int) + old(buf)@.subrange(i as int, old(buf)@.len() as int));
    }
    assert(bytes@.subrange(0, bytes@.len() as int) =~= bytes@);
}

/// Copies encoded parameter data into `buf`, or reports that `buf` is too small.
pub fn copy_encoded(buf: &mut [u8], bytes: &[u8]) -> (res: Result<usize, ParameterDataError>)
    ensures
        encoded_into(old(buf)@, final(buf)@, bytes@, res),
{
    if buf.len() < bytes.len() {
        return Err(ParameterDataError::BufferTooSmall { provided: buf.len(), required: bytes.len() });
    }
    write_prefix(buf, bytes);
    Ok(bytes.len())
}

/// The bytes before the first zero byte, or all of them when there is none.
pub open spec fn truncated_at_null(bytes: Seq<u8>) -> Seq<u8>
    decreases bytes.len(),
{
    if bytes.len() == 0 {
        bytes
    } else if bytes[0] == 0 {
        Seq::empty()
    } else {
        seq![bytes[0]] + truncated_at_null(bytes.drop_first())
    }
}

/// Whether `bytes` holds no zero byte.
pub open spec fn has_no_null(bytes: Seq<u8>) -> bool {
    forall|i: int| 0 <= i < bytes.len() ==> bytes[i] != 0
}

pub proof fn lemma_truncated_at_null_prefix(bytes: Seq<u8>, n: int)
    requires
        0 <= n <= bytes.len(),
        has_no_null(bytes.subrange(0, n)),
        n == bytes.len() || bytes[n] == 0,
    ensures
        truncated_at_null(bytes) == bytes.subrange(0, n),
    decreases n,
{
    if n == 0 {
        if bytes.len() != 0 {
            assert(bytes[0] == 0);
        }
        assert(bytes.subrange(0, 0) =~= Seq::<u8>::empty());
    } else {
        assert(bytes[0] == bytes.subrange(0, n)[0]);
        let rest = bytes.drop_first();
        assert(rest.subrange(0, n - 1) =~= bytes.subrange(0, n).drop_first());
        assert forall|i: int| 0 <= i < n - 1 implies #[trigger] rest.subrange(0, n - 1)[i] != 0 by {
            assert(rest.subrange(0, n - 1)[i] == bytes.subrange(0, n)[i + 1]);
        }
        lemma_truncated_at_null_prefix(rest, n - 1);
        assert(bytes.subrange(0, n) =~= seq![bytes[0]] + rest.subrange(0, n - 1));
    }
}

/// The number of bytes before the first zero byte.
pub fn null_position(bytes: &[u8]) -> (n: usize)
    ensures
        n <= bytes@.len(),
        truncated_at_null(bytes@) == bytes@.subrange(0, n as int),
        has_no_null(bytes@.subrange(0, n as int)),
        n == bytes@.len() || bytes@[n as int] == 0,
{
    let mut n: usize = 0;
    while n < bytes.len() && bytes[n] != 0
        invariant
            n <= bytes@.len(),
            has_no_null(bytes@.subrange(0, n as int)),
        decreases bytes@.len() - n,
    {
        proof {
            assert forall|i: int| 0 <= i < n + 1 implies #[trigger] bytes@.subrange(0, n + 1)[i] != 0 by {
                if i < n {
                    assert(bytes@.subrange(0, n + 1)[i] == bytes@.subrange(0, n as int)[i]);
                }
            }
        }
        n = n + 1;
    }
    proof {
        lemma_truncated_at_null_prefix(bytes@, n as int);
    }
    n
}

/// The bytes before the first zero byte, or all of `bytes` when there is none.
pub fn truncate_at_null(bytes: &[u8]) -> (r: &[u8])
    ensures
        r@ == truncated_at_null(bytes@),
{
    let n = null_position(bytes);
    vstd::slice::slice_subrange(bytes, 0, n)
}

} // verus!

verus! {

/// The string slice whose bytes are `bytes`; a string slice is a value determined by its bytes.
pub open spec fn str_of_bytes<'a>(bytes: Seq<u8>) -> &'a str {
    choose|s: &'a str| s.spec_bytes() == bytes
}

/// Checks that `bytes` is well formed UTF-8 and views them as a string slice (std's `core::str::from_utf8`).
/// Trusted: std documents that the call succeeds exactly on valid UTF-8 and that the slice holds the
/// same bytes; the slice is then the string value of those bytes.
#[verifier::external_body]
pub fn str_from_utf8<'a>(bytes: &'a [u8]) -> (r: Option<&'a str>)
    ensures
        r is Some <==> vstd::utf8::valid_utf8(bytes@),
        r matches Some(s) ==> s.spec_bytes() == bytes@ && s == str_of_bytes::<'a>(bytes@),
{
    core::str::from_utf8(bytes).ok()
}

} // verus!

verus! {

/// `bytes` without its trailing zero bytes.
pub open spec fn trimmed_trailing_nulls(bytes: Seq<u8>) -> Seq<u8>
    decreases bytes.len(),
{
    if bytes.len() > 0 && bytes.last() == 0 {
        trimmed_trailing_nulls(bytes.drop_last())
    } else {
        bytes
    }
}

proof fn lemma_trimmed_is_prefix(bytes: Seq<u8>)
    ensures
        trimmed_trailing_nulls(bytes).len() <= bytes.len(),
        trimmed_trailing_nulls(bytes) == bytes.subrange(0, trimmed_trailing_nulls(bytes).len() as int),
        trimmed_trailing_nulls(bytes).len() < bytes.len() ==> bytes[trimmed_trailing_nulls(bytes).len() as int] == 0,
    decreases bytes.len(),
{
    if bytes.len() > 0 && bytes.last() == 0 {
        lemma_trimmed_is_prefix(bytes.drop_last());
        let t = trimmed_trailing_nulls(bytes.drop_last());
        assert(bytes.drop_last().subrange(0, t.len() as int) =~= bytes.subrange(0, t.len() as int));
        if t.len() < bytes.drop_last().len() {
            assert(bytes[t.len() as int] == bytes.drop_last()[t.len() as int]);
        }
    } else {
        assert(bytes.subrange(0, bytes.len() as int) =~= bytes);
    }
}

/// `bytes` without its trailing zero bytes.
pub fn trim_trailing_nulls(bytes: &[u8]) -> (r: &[u8])
    ensures
        r@ == trimmed_trailing_nulls(bytes@),
{
    let mut n: usize = bytes.len();
    proof {
        assert(bytes@.subrange(0, n as int) =~= bytes@);
    }
    while n > 0 && bytes[n - 1] == 0
        invariant
            n <= bytes@.len(),
            trimmed_trailing_nulls(bytes@) == trimmed_trailing_nulls(bytes@.subrange(0, n as int)),
        decreases n,
    {
        proof {
            assert(bytes@.subrange(0, n as int).drop_last() =~= bytes@.subrange(0, n - 1));
        }
        n = n - 1;
    }
    proof {
        assert(trimmed_trailing_nulls(bytes@.subrange(0, n as int)) == bytes@.subrange(0, n as int));
    }
    vstd::slice::slice_subrange(bytes, 0, n)
}

/// Cutting valid UTF-8 before a zero byte, or at its end, leaves valid UTF-8.
pub proof fn lemma_valid_utf8_prefix_before_null(bytes: Seq<u8>, n: int)
    requires
        vstd::utf8::valid_utf8(bytes),
        0 <= n <= bytes.len(),
        n == bytes.len() || bytes[n] == 0,
    ensures
        vstd::utf8::valid_utf8(bytes.subrange(0, n)),
{
    vstd::utf8::is_char_boundary_start_end_of_seq(bytes);
    if n < bytes.len() {
        vstd::utf8::is_char_boundary_iff_is_leading_byte(bytes, n);
    }
    vstd::utf8::valid_utf8_split(bytes, n);
}

pub proof fn lemma_trim_trailing_nulls_valid_utf8(bytes: Seq<u8>)
    requires
        vstd::utf8::valid_utf8(bytes),
    ensures
        vstd::utf8::valid_utf8(trimmed_trailing_nulls(bytes)),
{
    lemma_trimmed_is_prefix(bytes);
    lemma_valid_utf8_prefix_before_null(bytes, trimmed_trailing_nulls(bytes).len() as int);
}

pub proof fn lemma_truncate_at_null_valid_utf8(bytes: Seq<u8>)
    requires
        vstd::utf8::valid_utf8(bytes),
    ensures
        vstd::utf8::valid_utf8(truncated_at_null(bytes)),
{
    lemma_truncated_at_null_shape(bytes);
    lemma_valid_utf8_prefix_before_null(bytes, null_index(bytes));
}

/// The index of the first zero byte, or the length when there is none.
pub open spec fn null_index(bytes: Seq<u8>) -> int
    decreases bytes.len(),
{
    if bytes.len() == 0 || bytes[0] == 0 {
        0
    } else {
        1 + null_index(bytes.drop_first())
    }
}

pub proof fn lemma_truncated_at_null_shape(bytes: Seq<u8>)
    ensures
        0 <= null_index(bytes) <= bytes.len(),
        truncated_at_null(bytes) == bytes.subrange(0, null_index(bytes)),
        null_index(bytes) == bytes.len() || bytes[null_index(bytes)] == 0,
    decreases bytes.len(),
{
    if bytes.len() == 0 || bytes[0] == 0 {
        assert(truncated_at_null(bytes) =~= bytes.subrange(0, 0));
    } else {
        let rest = bytes.drop_first();
        lemma_truncated_at_null_shape(rest);
        let m = null_index(rest);
        assert(truncated_at_null(bytes) =~= bytes.subrange(0, m + 1));
        if m + 1 < bytes.len() {
            assert(bytes[m + 1] == rest[m]);
        }
    }
}


/// Bytes below 0x80 (ASCII) are valid UTF-8.
pub proof fn lemma_ascii_valid_utf8(bytes: Seq<u8>)
    requires
        forall|i: int| 0 <= i < bytes.len() ==> bytes[i] < 0x80,
    ensures
        vstd::utf8::valid_utf8(bytes),
    decreases bytes.len(),
{
    if bytes.len() > 0 {
        let b = bytes[0];
        assert(b & 0x7f <= 0x7f) by (bit_vector);
        let rest = bytes.subrange(1, bytes.len() as int);
        lemma_ascii_valid_utf8(rest);
        assert(vstd::utf8::pop_first_scalar(bytes) =~= rest);
    }
}

} // verus!

verus! {

/// The text of a string field: the bytes up to the first zero byte, which must all be UTF-8.
pub fn decode_string_bytes(bytes: &[u8]) -> (r: Result<String, RdmError>)
    ensures
        !vstd::utf8::valid_utf8(bytes@) ==> r == Err::<String, RdmError>(RdmError::Utf8Error),
        vstd::utf8::valid_utf8(bytes@) ==> (r matches Ok(s) && vstd::utf8::encode_utf8(s@) == truncated_at_null(bytes@)),
{
    match str_from_utf8(bytes) {
        None => Err(RdmError::Utf8Error),
        Some(_) => {
            let text = truncate_at_null(bytes);
            proof {
                lemma_truncate_at_null_valid_utf8(bytes@);
            }
            match str_from_utf8(text) {
                Some(s) => Ok(s.to_owned()),
                None => Err(RdmError::Utf8Error),
            }
        },
    }
}

} // verus!

verus! {

/// An array of `N` zero bytes with the first `k` bytes of `content` written at its start.
pub open spec fn spec_padded_array<const N: usize>(content: Seq<u8>, k: nat) -> [u8; N]
    decreases k,
{
    if k == 0 {
        vstd::array::spec_array_fill_for_copy_type::<u8, N>(0u8)
    } else {
        vstd::array::spec_array_update(spec_padded_array::<N>(content, (k - 1) as nat), k - 1, content[k - 1])
    }
}

/// The bytes of a padded array: those of `content` below `k`, zero above.
pub proof fn lemma_padded_array<const N: usize>(content: Seq<u8>, k: nat)
    requires
        k <= content.len(),
        k <= N,
    ensures
        forall|i: int| 0 <= i < N ==> #[trigger] spec_padded_array::<N>(content, k)@[i] == (if i < k { content[i] } else { 0u8 }),
    decreases k,
{
    broadcast use vstd::array::group_array_axioms;
    if k == 0 {
        let a = vstd::array::spec_array_fill_for_copy_type::<u8, N>(0u8);
        assert forall|i: int| 0 <= i < N implies #[trigger] a@[i] == 0u8 by {
            assert(a.view()[i] == 0u8);
        }
    } else {
        lemma_padded_array::<N>(content, (k - 1) as nat);
        let prev = spec_padded_array::<N>(content, (k - 1) as nat);
        let a = vstd::array::spec_array_update(prev, k - 1, content[k - 1]);
        assert(a@ == prev@.update(k - 1, content[k - 1]));
    }
}

} // verus!
