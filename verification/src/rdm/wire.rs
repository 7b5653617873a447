//! The fixed size wire forms of the values that make up parameter data.

use super::error::ParameterDataError;
use super::common::DeviceUID;
use super::utils::{copy_encoded, encoded_into, write_prefix, written_prefix, be16, be32, be_i16, from_be16, from_be32, i16_bits, i16_of_bits, read_i16, read_u16, read_u32, i16_to_bits, VecExt, group_byte_lemmas};
use vstd::prelude::*;

verus! {

broadcast use group_byte_lemmas, vstd::array::group_array_axioms;

/// A value with a wire form of a fixed number of bytes.
pub trait FixedWire<'a>: Sized {
    /// The number of bytes of the wire form.
    spec fn spec_size() -> nat;

    /// The wire form of the value.
    spec fn spec_wire(&self) -> Seq<u8>;

    /// The value that `bytes` (of `spec_size()` bytes) stand for, if any.
    spec fn spec_read(bytes: Seq<u8>) -> Option<Self>;

    /// Whether the value is one that its wire form gives back.
    spec fn spec_wire_valid(&self) -> bool;

    fn wire_size() -> (n: usize)
        ensures
            n == Self::spec_size(),
    ;

    fn write_wire(&self, out: &mut Vec<u8>)
        ensures
            final(out)@ == old(out)@ + self.spec_wire(),
    ;

    fn read_wire(buf: &'a [u8], pos: usize) -> (r: Option<Self>)
        requires
            pos + Self::spec_size() <= buf@.len(),
        ensures
            r == Self::spec_read(buf@.subrange(pos as int, pos + Self::spec_size())),
    ;

    proof fn lemma_wire(&self)
        ensures
            self.spec_wire().len() == Self::spec_size(),
            self.spec_wire_valid() ==> Self::spec_read(self.spec_wire()) == Some(*self),
    ;
}

impl<'a> FixedWire<'a> for u8 {
    open spec fn spec_size() -> nat { 1 }
    open spec fn spec_wire(&self) -> Seq<u8> { seq![*self] }
    open spec fn spec_read(bytes: Seq<u8>) -> Option<Self> { Some(bytes[0]) }
    open spec fn spec_wire_valid(&self) -> bool { true }

    fn wire_size() -> (n: usize) { 1 }

    fn write_wire(&self, out: &mut Vec<u8>) {
        out.push(*self);
    }

    fn read_wire(buf: &'a [u8], pos: usize) -> (r: Option<Self>) {
        Some(buf[pos])
    }

    proof fn lemma_wire(&self) {
    }
}

impl<'a> FixedWire<'a> for bool {
    open spec fn spec_size() -> nat { 1 }
    open spec fn spec_wire(&self) -> Seq<u8> { seq![if *self { 1u8 } else { 0u8 }] }
    open spec fn spec_read(bytes: Seq<u8>) -> Option<Self> { Some(bytes[0] != 0) }
    open spec fn spec_wire_valid(&self) -> bool { true }

    fn wire_size() -> (n: usize) { 1 }

    fn write_wire(&self, out: &mut Vec<u8>) {
        out.push(if *self { 1u8 } else { 0u8 });
    }

    fn read_wire(buf: &'a [u8], pos: usize) -> (r: Option<Self>) {
        Some(buf[pos] != 0)
    }

    proof fn lemma_wire(&self) {
    }
}

impl<'a> FixedWire<'a> for u16 {
    open spec fn spec_size() -> nat { 2 }
    open spec fn spec_wire(&self) -> Seq<u8> { be16(*self) }
    open spec fn spec_read(bytes: Seq<u8>) -> Option<Self> { Some(from_be16(bytes[0], bytes[1])) }
    open spec fn spec_wire_valid(&self) -> bool { true }

    fn wire_size() -> (n: usize) { 2 }

    fn write_wire(&self, out: &mut Vec<u8>) {
        out.push_u16_be(*self);
    }

    fn read_wire(buf: &'a [u8], pos: usize) -> (r: Option<Self>) {
        Some(read_u16(buf, pos))
    }

    proof fn lemma_wire(&self) {
    }
}

impl<'a> FixedWire<'a> for u32 {
    open spec fn spec_size() -> nat { 4 }
    open spec fn spec_wire(&self) -> Seq<u8> { be32(*self) }
    open spec fn spec_read(bytes: Seq<u8>) -> Option<Self> {
        Some(from_be32(bytes[0], bytes[1], bytes[2], bytes[3]))
    }
    open spec fn spec_wire_valid(&self) -> bool { true }

    fn wire_size() -> (n: usize) { 4 }

    fn write_wire(&self, out: &mut Vec<u8>) {
        out.push_u32_be(*self);
    }

    fn read_wire(buf: &'a [u8], pos: usize) -> (r: Option<Self>) {
        Some(read_u32(buf, pos))
    }

    proof fn lemma_wire(&self) {
    }
}

impl<'a> FixedWire<'a> for i16 {
    open spec fn spec_size() -> nat { 2 }
    open spec fn spec_wire(&self) -> Seq<u8> { be_i16(*self) }
    open spec fn spec_read(bytes: Seq<u8>) -> Option<Self> {
        Some(i16_of_bits(from_be16(bytes[0], bytes[1])))
    }
    open spec fn spec_wire_valid(&self) -> bool { true }

    fn wire_size() -> (n: usize) { 2 }

    fn write_wire(&self, out: &mut Vec<u8>) {
        out.push_u16_be(i16_to_bits(*self));
    }

    fn read_wire(buf: &'a [u8], pos: usize) -> (r: Option<Self>) {
        Some(read_i16(buf, pos))
    }

    proof fn lemma_wire(&self) {
        assert(from_be16(be16(i16_bits(*self))[0], be16(i16_bits(*self))[1]) == i16_bits(*self));
    }
}

impl<'a> FixedWire<'a> for DeviceUID {
    open spec fn spec_size() -> nat { 6 }
    open spec fn spec_wire(&self) -> Seq<u8> { be16(self.manufacturer_id) + be32(self.device_id) }
    open spec fn spec_read(bytes: Seq<u8>) -> Option<Self> {
        Some(DeviceUID {
            manufacturer_id: from_be16(bytes[0], bytes[1]),
            device_id: from_be32(bytes[2], bytes[3], bytes[4], bytes[5]),
        })
    }
    open spec fn spec_wire_valid(&self) -> bool { true }

    fn wire_size() -> (n: usize) { 6 }

    fn write_wire(&self, out: &mut Vec<u8>) {
        out.push_u16_be(self.manufacturer_id);
        out.push_u32_be(self.device_id);
        assert(out@ =~= old(out)@ + self.spec_wire());
    }

    fn read_wire(buf: &'a [u8], pos: usize) -> (r: Option<Self>) {
        let _len = buf.len();
        Some(DeviceUID { manufacturer_id: read_u16(buf, pos), device_id: read_u32(buf, pos + 2) })
    }

    proof fn lemma_wire(&self) {
        let w = self.spec_wire();
        assert(w[0] == be16(self.manufacturer_id)[0]);
        assert(w[1] == be16(self.manufacturer_id)[1]);
        assert(w[2] == be32(self.device_id)[0]);
        assert(w[3] == be32(self.device_id)[1]);
        assert(w[4] == be32(self.device_id)[2]);
        assert(w[5] == be32(self.device_id)[3]);
    }
}

/// The wire form of a list of items: their wire forms one after the other.
pub open spec fn spec_items_wire<'a, T: FixedWire<'a>>(items: Seq<T>) -> Seq<u8>
    decreases items.len(),
{
    if items.len() == 0 {
        Seq::empty()
    } else {
        spec_items_wire(items.drop_last()) + items.last().spec_wire()
    }
}

/// The items that `bytes` hold, read one after the other; none when the bytes
/// do not split into whole items or an item is not valid.
pub open spec fn spec_read_items<'a, T: FixedWire<'a>>(bytes: Seq<u8>) -> Option<Seq<T>>
    decreases bytes.len(),
{
    if bytes.len() == 0 {
        Some(Seq::empty())
    } else if T::spec_size() == 0 || bytes.len() < T::spec_size() {
        None
    } else {
        let k = (bytes.len() - T::spec_size()) as int;
        match (spec_read_items::<T>(bytes.subrange(0, k)), T::spec_read(bytes.subrange(k, bytes.len() as int))) {
            (Some(init), Some(last)) => Some(init.push(last)),
            _ => None,
        }
    }
}

pub proof fn lemma_items_wire_len<'a, T: FixedWire<'a>>(items: Seq<T>)
    ensures
        spec_items_wire(items).len() == items.len() * T::spec_size(),
    decreases items.len(),
{
    if items.len() > 0 {
        lemma_items_wire_len(items.drop_last());
        items.last().lemma_wire();
        assert(items.len() * T::spec_size() == (items.len() - 1) * T::spec_size() + T::spec_size())
            by (nonlinear_arith);
    }
}

/// Reading the wire form of valid items gives them back.
pub proof fn lemma_items_roundtrip<'a, T: FixedWire<'a>>(items: Seq<T>)
    requires
        T::spec_size() > 0,
        forall|i: int| 0 <= i < items.len() ==> #[trigger] items[i].spec_wire_valid(),
    ensures
        spec_read_items::<T>(spec_items_wire(items)) == Some(items),
    decreases items.len(),
{
    if items.len() > 0 {
        let init = items.drop_last();
        let last = items.last();
        lemma_items_wire_len(init);
        last.lemma_wire();
        assert forall|i: int| 0 <= i < init.len() implies #[trigger] init[i].spec_wire_valid() by {
            assert(init[i] == items[i]);
        }
        lemma_items_roundtrip(init);
        let w = spec_items_wire(items);
        let k = (w.len() - T::spec_size()) as int;
        assert(w.subrange(0, k) =~= spec_items_wire(init));
        assert(w.subrange(k, w.len() as int) =~= last.spec_wire());
        assert(init.push(last) =~= items);
    }
}

/// Appends the wire forms of `items` to `out`.
pub fn write_items<'a, T: FixedWire<'a>>(items: &[T], out: &mut Vec<u8>)
    ensures
        final(out)@ == old(out)@ + spec_items_wire(items@),
{
    let mut i: usize = 0;
    while i < items.len()
        invariant
            i <= items@.len(),
            out@ == old(out)@ + spec_items_wire(items@.subrange(0, i as int)),
        decreases items@.len() - i,
    {
        let ghost before = out@;
        items[i].write_wire(out);
        proof {
            let s = items@.subrange(0, i + 1);
            assert(s.drop_last() =~= items@.subrange(0, i as int));
            assert(out@ =~= old(out)@ + spec_items_wire(s));
        }
        i = i + 1;
    }
    assert(items@.subrange(0, items@.len() as int) =~= items@);
}

/// Reads the items that `buf` holds from `pos` on.
pub fn read_items<'a, T: FixedWire<'a>>(buf: &'a [u8], pos: usize) -> (r: Option<Vec<T>>)
    requires
        pos <= buf@.len(),
    ensures
        r matches Some(v) ==> spec_read_items::<T>(buf@.subrange(pos as int, buf@.len() as int)) == Some(v@),
        r is None ==> spec_read_items::<T>(buf@.subrange(pos as int, buf@.len() as int)) is None,
{
    let size = T::wire_size();
    let rest = buf.len() - pos;
    if rest == 0 {
        assert(buf@.subrange(pos as int, buf@.len() as int) =~= Seq::<u8>::empty());
        return Some(Vec::new());
    }
    if size == 0 || rest % size != 0 {
        proof {
            lemma_read_items_whole::<T>(buf@.subrange(pos as int, buf@.len() as int));
        }
        return None;
    }
    let count = rest / size;
    let _len = buf.len();
    let mut out: Vec<T> = Vec::new();
    let mut j: usize = 0;
    proof {
        assert(buf@.subrange(pos as int, pos as int) =~= Seq::<u8>::empty());
        assert((rest / size) * size == rest) by (nonlinear_arith)
            requires rest % size == 0, size > 0;
    }
    while j < count
        invariant
            size == T::spec_size(),
            size > 0,
            count * size == buf@.len() - pos,
            j <= count,
            pos <= buf@.len(),
            buf@.len() == buf.len(),
            spec_read_items::<T>(buf@.subrange(pos as int, pos + j * size)) == Some(out@),
        decreases count - j,
    {
        proof {
            assert(pos + (j + 1) * size <= buf@.len()) by (nonlinear_arith)
                requires j < count, count * size == buf@.len() - pos, size > 0;
            assert((j + 1) * size == j * size + size) by (nonlinear_arith);
            assert(j * size <= (j + 1) * size) by (nonlinear_arith) requires size > 0;
            assert(((j + 1) * size) % (size as int) == 0) by (nonlinear_arith) requires size > 0;
            assert((buf@.len() - pos) % (size as int) == 0) by (nonlinear_arith)
                requires count * size == buf@.len() - pos, size > 0;
        }
        let item = T::read_wire(buf, pos + j * size);
        let ghost whole = buf@.subrange(pos as int, pos + (j + 1) * size);
        proof {
            let k = (whole.len() - size) as int;
            assert(whole.subrange(0, k) =~= buf@.subrange(pos as int, pos + j * size));
            assert(whole.subrange(k, whole.len() as int) =~= buf@.subrange(
                pos + j * size,
                pos + j * size + size,
            ));
        }
        match item {
            Some(v) => {
                out.push(v);
                j = j + 1;
            },
            None => {
                proof {
                    assert(whole.len() == (j + 1) * size);
                    assert(spec_read_items::<T>(whole) is None);
                    assert(buf@.subrange(pos as int, buf@.len() as int).subrange(0, (j + 1) * size) =~= whole);
                    lemma_read_items_none_extends::<T>(
                        buf@.subrange(pos as int, buf@.len() as int),
                        (j + 1) * size,
                    );
                }
                return None;
            },
        }
    }
    proof {
        assert(buf@.subrange(pos as int, pos + count * size) =~= buf@.subrange(pos as int, buf@.len() as int));
    }
    Some(out)
}

/// Items are read from a number of bytes that is a multiple of the item size.
proof fn lemma_read_items_whole<'a, T: FixedWire<'a>>(bytes: Seq<u8>)
    requires
        T::spec_size() == 0 || bytes.len() % T::spec_size() != 0,
        bytes.len() > 0,
    ensures
        spec_read_items::<T>(bytes) is None,
    decreases bytes.len(),
{
    if T::spec_size() > 0 && bytes.len() >= T::spec_size() {
        let k = (bytes.len() - T::spec_size()) as int;
        assert(k % T::spec_size() as int != 0) by (nonlinear_arith)
            requires bytes.len() % T::spec_size() != 0, k == bytes.len() - T::spec_size(), T::spec_size() > 0;
        if k > 0 {
            lemma_read_items_whole::<T>(bytes.subrange(0, k));
        } else {
            assert(k == 0);
            assert(false) by (nonlinear_arith)
                requires k % T::spec_size() as int != 0, k == 0, T::spec_size() > 0;
        }
    }
}

/// When a prefix made of whole items fails to read, so do the bytes.
proof fn lemma_read_items_none_extends<'a, T: FixedWire<'a>>(bytes: Seq<u8>, n: int)
    requires
        T::spec_size() > 0,
        0 < n <= bytes.len(),
        n % T::spec_size() as int == 0,
        bytes.len() % T::spec_size() == 0,
        spec_read_items::<T>(bytes.subrange(0, n)) is None,
    ensures
        spec_read_items::<T>(bytes) is None,
    decreases bytes.len() - n,
{
    if n < bytes.len() {
        let k = (bytes.len() - T::spec_size()) as int;
        assert(n <= k) by (nonlinear_arith)
            requires n < bytes.len(), n % T::spec_size() as int == 0, bytes.len() % T::spec_size() == 0,
                k == bytes.len() - T::spec_size(), T::spec_size() > 0, n > 0;
        let pre = bytes.subrange(0, k);
        assert(pre.subrange(0, n) =~= bytes.subrange(0, n));
        assert(pre.len() % T::spec_size() == 0) by (nonlinear_arith)
            requires bytes.len() % T::spec_size() == 0, pre.len() == bytes.len() - T::spec_size(), T::spec_size() > 0;
        if n < k {
            lemma_read_items_none_extends::<T>(pre, n);
        } else {
            assert(pre =~= bytes.subrange(0, n));
        }
    } else {
        assert(bytes.subrange(0, n) =~= bytes);
    }
}

/// The value at the start of `buf`, or `MalformedData` when the bytes stand for none.
pub open spec fn decoded_fixed<'a, T: FixedWire<'a>>(buf: Seq<u8>) -> Result<T, ParameterDataError> {
    match T::spec_read(buf.subrange(0, T::spec_size() as int)) {
        Some(v) => Ok(v),
        None => Err(ParameterDataError::MalformedData),
    }
}

/// Writes the wire form of `v` at the start of `buf`.
pub fn encode_fixed<'a, T: FixedWire<'a>>(v: &T, buf: &mut [u8]) -> (r: Result<usize, ParameterDataError>)
    requires
        old(buf)@.len() >= T::spec_size(),
    ensures
        r == Ok::<usize, ParameterDataError>(T::spec_size() as usize),
        final(buf)@ == written_prefix(old(buf)@, v.spec_wire()),
{
    let mut out: Vec<u8> = Vec::new();
    v.write_wire(&mut out);
    proof {
        v.lemma_wire();
        assert(out@ =~= v.spec_wire());
    }
    write_prefix(buf, out.as_slice());
    Ok(T::wire_size())
}

/// Reads a value from the start of `buf`.
pub fn decode_fixed<'a, T: FixedWire<'a>>(buf: &'a [u8]) -> (r: Result<T, ParameterDataError>)
    requires
        buf@.len() >= T::spec_size(),
    ensures
        r == decoded_fixed::<T>(buf@),
{
    match T::read_wire(buf, 0) {
        Some(v) => Ok(v),
        None => Err(ParameterDataError::MalformedData),
    }
}

/// Decoding error of a value whose bytes ran short.
pub open spec fn too_short(provided: nat, required: nat) -> ParameterDataError {
    ParameterDataError::BufferTooSmall { provided: provided as usize, required: required as usize }
}


impl<'a> FixedWire<'a> for [u8; 4] {
    open spec fn spec_size() -> nat { 4 }
    open spec fn spec_wire(&self) -> Seq<u8> { self@ }
    open spec fn spec_read(bytes: Seq<u8>) -> Option<Self> { Some([bytes[0], bytes[1], bytes[2], bytes[3]]) }
    open spec fn spec_wire_valid(&self) -> bool { true }

    fn wire_size() -> (n: usize) { 4 }

    fn write_wire(&self, out: &mut Vec<u8>) {
        let ghost start = out@;
        let mut i: usize = 0;
        while i < 4
            invariant
                i <= 4,
                self@.len() == 4,
                out@ == start + self@.subrange(0, i as int),
            decreases 4 - i,
        {
            out.push(self[i]);
            i = i + 1;
            assert(out@ =~= start + self@.subrange(0, i as int));
        }
        assert(self@.subrange(0, 4) =~= self@);
        assert(out@ =~= start + self.spec_wire());
    }

    fn read_wire(buf: &'a [u8], pos: usize) -> (r: Option<Self>) {
        let a = [buf[pos], buf[pos + 1], buf[pos + 2], buf[pos + 3]];
        proof {
            let bytes = buf@.subrange(pos as int, pos + 4);
            assert(a =~= [bytes[0], bytes[1], bytes[2], bytes[3]]);
        }
        Some(a)
    }

    proof fn lemma_wire(&self) {
        let a = *self;
        assert(a@.len() == 4);
        assert(a =~= [a@[0], a@[1], a@[2], a@[3]]);
    }
}

impl<'a> FixedWire<'a> for [u8; 6] {
    open spec fn spec_size() -> nat { 6 }
    open spec fn spec_wire(&self) -> Seq<u8> { self@ }
    open spec fn spec_read(bytes: Seq<u8>) -> Option<Self> { Some([bytes[0], bytes[1], bytes[2], bytes[3], bytes[4], bytes[5]]) }
    open spec fn spec_wire_valid(&self) -> bool { true }

    fn wire_size() -> (n: usize) { 6 }

    fn write_wire(&self, out: &mut Vec<u8>) {
        let ghost start = out@;
        let mut i: usize = 0;
        while i < 6
            invariant
                i <= 6,
                self@.len() == 6,
                out@ == start + self@.subrange(0, i as int),
            decreases 6 - i,
        {
            out.push(self[i]);
            i = i + 1;
            assert(out@ =~= start + self@.subrange(0, i as int));
        }
        assert(self@.subrange(0, 6) =~= self@);
        assert(out@ =~= start + self.spec_wire());
    }

    fn read_wire(buf: &'a [u8], pos: usize) -> (r: Option<Self>) {
        let a = [buf[pos], buf[pos + 1], buf[pos + 2], buf[pos + 3], buf[pos + 4], buf[pos + 5]];
        proof {
            let bytes = buf@.subrange(pos as int, pos + 6);
            assert(a =~= [bytes[0], bytes[1], bytes[2], bytes[3], bytes[4], bytes[5]]);
        }
        Some(a)
    }

    proof fn lemma_wire(&self) {
        let a = *self;
        assert(a@.len() == 6);
        assert(a =~= [a@[0], a@[1], a@[2], a@[3], a@[4], a@[5]]);
    }
}

impl<'a> FixedWire<'a> for [u8; 16] {
    open spec fn spec_size() -> nat { 16 }
    open spec fn spec_wire(&self) -> Seq<u8> { self@ }
    open spec fn spec_read(bytes: Seq<u8>) -> Option<Self> { Some([bytes[0], bytes[1], bytes[2], bytes[3], bytes[4], bytes[5], bytes[6], bytes[7], bytes[8], bytes[9], bytes[10], bytes[11], bytes[12], bytes[13], bytes[14], bytes[15]]) }
    open spec fn spec_wire_valid(&self) -> bool { true }

    fn wire_size() -> (n: usize) { 16 }

    fn write_wire(&self, out: &mut Vec<u8>) {
        let ghost start = out@;
        let mut i: usize = 0;
        while i < 16
            invariant
                i <= 16,
                self@.len() == 16,
                out@ == start + self@.subrange(0, i as int),
            decreases 16 - i,
        {
            out.push(self[i]);
            i = i + 1;
            assert(out@ =~= start + self@.subrange(0, i as int));
        }
        assert(self@.subrange(0, 16) =~= self@);
        assert(out@ =~= start + self.spec_wire());
    }

    fn read_wire(buf: &'a [u8], pos: usize) -> (r: Option<Self>) {
        let a = [buf[pos], buf[pos + 1], buf[pos + 2], buf[pos + 3], buf[pos + 4], buf[pos + 5], buf[pos + 6], buf[pos + 7], buf[pos + 8], buf[pos + 9], buf[pos + 10], buf[pos + 11], buf[pos + 12], buf[pos + 13], buf[pos + 14], buf[pos + 15]];
        proof {
            let bytes = buf@.subrange(pos as int, pos + 16);
            assert(a =~= [bytes[0], bytes[1], bytes[2], bytes[3], bytes[4], bytes[5], bytes[6], bytes[7], bytes[8], bytes[9], bytes[10], bytes[11], bytes[12], bytes[13], bytes[14], bytes[15]]);
        }
        Some(a)
    }

    proof fn lemma_wire(&self) {
        let a = *self;
        assert(a@.len() == 16);
        assert(a =~= [a@[0], a@[1], a@[2], a@[3], a@[4], a@[5], a@[6], a@[7], a@[8], a@[9], a@[10], a@[11], a@[12], a@[13], a@[14], a@[15]]);
    }
}

/// The value that the fixed size parameter data at the start of `buf` stands for,
/// or why it stands for none.
pub open spec fn record_decoded<'a, T: FixedWire<'a>>(buf: Seq<u8>) -> Result<T, ParameterDataError> {
    if buf.len() < T::spec_size() {
        Err(too_short(buf.len(), T::spec_size()))
    } else {
        decoded_fixed::<T>(buf)
    }
}

/// Writes the wire form of `v` as parameter data at the start of `buf`.
pub fn encode_record<'a, T: FixedWire<'a>>(v: &T, buf: &mut [u8]) -> (r: Result<usize, ParameterDataError>)
    ensures
        encoded_into(old(buf)@, final(buf)@, v.spec_wire(), r),
{
    let mut out: Vec<u8> = Vec::new();
    v.write_wire(&mut out);
    proof {
        assert(out@ =~= v.spec_wire());
    }
    copy_encoded(buf, out.as_slice())
}

/// Reads a fixed size value from the parameter data in `buf`.
pub fn decode_record<'a, T: FixedWire<'a>>(buf: &'a [u8]) -> (r: Result<T, ParameterDataError>)
    ensures
        r == record_decoded::<T>(buf@),
{
    if buf.len() < T::wire_size() {
        return Err(ParameterDataError::BufferTooSmall { provided: buf.len(), required: T::wire_size() });
    }
    decode_fixed(buf)
}

/// Decoding the wire form of a valid value gives it back.
pub proof fn lemma_record_roundtrip<'a, T: FixedWire<'a>>(v: T)
    requires
        v.spec_wire_valid(),
    ensures
        record_decoded::<T>(v.spec_wire()) == Ok::<T, ParameterDataError>(v),
{
    v.lemma_wire();
    assert(v.spec_wire().subrange(0, T::spec_size() as int) =~= v.spec_wire());
}


/// The wire form of an optional value: the value's, or nothing.
pub open spec fn spec_option_wire<'a, T: FixedWire<'a>>(o: Option<T>) -> Seq<u8> {
    match o {
        Some(v) => v.spec_wire(),
        None => Seq::empty(),
    }
}

/// An optional value read from the last bytes of parameter data: present when
/// enough bytes are left for it.
pub open spec fn spec_option_decoded<'a, T: FixedWire<'a>>(bytes: Seq<u8>) -> Result<Option<T>, ParameterDataError> {
    if bytes.len() >= T::spec_size() {
        match T::spec_read(bytes.subrange(0, T::spec_size() as int)) {
            Some(v) => Ok(Some(v)),
            None => Err(ParameterDataError::MalformedData),
        }
    } else {
        Ok(None)
    }
}

/// Whether reading the wire form of an optional value gives it back.
pub open spec fn spec_option_valid<'a, T: FixedWire<'a>>(o: Option<T>) -> bool {
    &&& T::spec_size() > 0
    &&& match o {
        Some(v) => v.spec_wire_valid(),
        None => true,
    }
}

/// Appends the wire form of an optional value to `out`.
pub fn write_option<'a, T: FixedWire<'a>>(o: &Option<T>, out: &mut Vec<u8>)
    ensures
        final(out)@ == old(out)@ + spec_option_wire(*o),
{
    match o {
        Some(v) => v.write_wire(out),
        None => {
            assert(old(out)@ + Seq::<u8>::empty() =~= old(out)@);
        },
    }
}

/// Reads an optional value from `pos` on.
pub fn read_option<'a, T: FixedWire<'a>>(buf: &'a [u8], pos: usize) -> (r: Result<Option<T>, ParameterDataError>)
    requires
        pos <= buf@.len(),
    ensures
        r == spec_option_decoded::<T>(buf@.subrange(pos as int, buf@.len() as int)),
{
    let ghost rest = buf@.subrange(pos as int, buf@.len() as int);
    if buf.len() - pos >= T::wire_size() {
        proof {
            assert(rest.subrange(0, T::spec_size() as int) =~= buf@.subrange(pos as int, pos + T::spec_size()));
        }
        match T::read_wire(buf, pos) {
            Some(v) => Ok(Some(v)),
            None => Err(ParameterDataError::MalformedData),
        }
    } else {
        Ok(None)
    }
}

/// Reading the wire form of a valid optional value gives it back.
pub proof fn lemma_option_roundtrip<'a, T: FixedWire<'a>>(o: Option<T>)
    requires
        spec_option_valid(o),
    ensures
        spec_option_decoded::<T>(spec_option_wire(o)) == Ok::<Option<T>, ParameterDataError>(o),
{
    match o {
        Some(v) => {
            v.lemma_wire();
            assert(v.spec_wire().subrange(0, T::spec_size() as int) =~= v.spec_wire());
        },
        None => {},
    }
}

} // verus!
