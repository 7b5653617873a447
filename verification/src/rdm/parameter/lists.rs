//! Bounded lists of parameter data items.

use crate::rdm::common::DeviceUID;
use crate::rdm::error::{ParameterDataError};
use crate::rdm::wire::{FixedWire};
use vstd::prelude::*;
use vstd::std_specs::convert::{FromSpecImpl, TryFromSpecImpl};
use vstd::string::StringSliceAdditionalSpecFns;
use crate::rdm::common::SubDeviceId;
use crate::rdm::parameter::ParameterId;
use crate::rdm::parameter::e120::{DefaultSlotValue, Iso639_1, ProductDetail, SlotInfo, SlotType, StatusMessage, StatusType};
use crate::rdm::parameter::e137_2::{HardwareType, NetworkInterface};
use crate::rdm::parameter::e137_7::{EndpointEntry, EndpointId, EndpointType};
use crate::rdm::wire::{lemma_items_roundtrip, lemma_items_wire_len, read_items, spec_items_wire, spec_read_items, write_items};
use crate::rdm::utils::{lemma_padded_array, spec_padded_array};
use crate::rdm::wire_layouts::lemma_items_wire_layout;

verus! {

broadcast use vstd::array::group_array_axioms;

/// A list of at most 38 device identifiers.
#[derive(Clone, Copy, Debug, PartialEq)]
pub struct DeviceUidList {
    len: usize,
    items: [DeviceUID; 38],
}

impl DeviceUidList {
    pub const CAPACITY: usize = 38;

    #[verifier::type_invariant]
    pub closed spec fn wf(self) -> bool {
        &&& self.len <= 38
        &&& forall|i: int| self.len <= i < 38 ==> self.items@[i] == (DeviceUID { manufacturer_id: 0, device_id: 0 })
    }

    /// The items of the list.
    pub closed spec fn spec_items(self) -> Seq<DeviceUID> {
        self.items@.subrange(0, self.len as int)
    }

    /// The list that holds `items`, when there are at most 38 of them.
    pub closed spec fn spec_of_items(items: Seq<DeviceUID>) -> Self {
        choose|l: Self| l.wf() && l.spec_items() == items
    }

    /// A list is determined by its items.
    pub proof fn lemma_determined_by_items(a: Self, b: Self)
        requires
            a.wf(),
            b.wf(),
            a.spec_items() == b.spec_items(),
        ensures
            a == b,
    {
        assert(a.spec_items().len() == a.len);
        assert(b.spec_items().len() == b.len);
        assert forall|i: int| 0 <= i < 38 implies a.items@[i] == b.items@[i] by {
            if i < a.len {
                assert(a.items@[i] == a.spec_items()[i]);
                assert(b.items@[i] == b.spec_items()[i]);
            }
        }
        assert(a.items =~= b.items);
    }

    /// A list holds at most 38 items.
    pub proof fn lemma_len_bound(self)
        requires
            self.wf(),
        ensures
            self.spec_items().len() <= 38,
    {
    }

    /// The list made of the items of a list is that list.
    pub proof fn lemma_of_own_items(l: Self)
        requires
            l.wf(),
        ensures
            Self::spec_of_items(l.spec_items()) == l,
    {
        Self::lemma_determined_by_items(l, Self::spec_of_items(l.spec_items()));
    }

    /// An empty list.
    pub fn new() -> (r: Self)
        ensures
            r.spec_items() == Seq::<DeviceUID>::empty(),
            r.wf(),
    {
        let r = DeviceUidList { len: 0, items: [(DeviceUID { manufacturer_id: 0, device_id: 0 }); 38] };
        assert(r.spec_items() =~= Seq::<DeviceUID>::empty());
        r
    }

    /// The list holding a copy of `items`, or none when there are more than 38 of them.
    pub fn from_slice(items: &[DeviceUID]) -> (r: Option<Self>)
        ensures
            items@.len() <= 38 ==> r == Some(Self::spec_of_items(items@)),
            items@.len() > 38 ==> r is None,
            r matches Some(l) ==> l.spec_items() == items@,
    {
        if items.len() > 38 {
            return None;
        }
        let mut a = [(DeviceUID { manufacturer_id: 0, device_id: 0 }); 38];
        let mut i: usize = 0;
        while i < items.len()
            invariant
                i <= items@.len(),
                items@.len() <= 38,
                forall|j: int| 0 <= j < i ==> a@[j] == items@[j],
                forall|j: int| i <= j < 38 ==> a@[j] == (DeviceUID { manufacturer_id: 0, device_id: 0 }),
            decreases items@.len() - i,
        {
            a[i] = items[i];
            i = i + 1;
        }
        let r = DeviceUidList { len: items.len(), items: a };
        proof {
            assert(r.spec_items() =~= items@);
            Self::lemma_determined_by_items(r, Self::spec_of_items(items@));
        }
        Some(r)
    }

    /// The items as a slice.
    pub fn as_slice(&self) -> (r: &[DeviceUID])
        ensures
            r@ == self.spec_items(),
    {
        proof {
            use_type_invariant(self);
        }
        vstd::slice::slice_subrange(self.items.as_slice(), 0, self.len)
    }

    /// The number of items.
    pub fn len(&self) -> (n: usize)
        ensures
            n == self.spec_items().len(),
    {
        proof {
            use_type_invariant(self);
        }
        self.len
    }

    pub fn is_empty(&self) -> (b: bool)
        ensures
            b == (self.spec_items().len() == 0),
    {
        proof {
            use_type_invariant(self);
        }
        self.len == 0
    }
}

impl DeviceUidList {
    /// The wire form of the items, one after the other.
    pub open spec fn spec_encode_items(self) -> Seq<u8> {
        spec_items_wire(self.spec_items())
    }

    /// The list that `bytes` hold, or why they hold none.
    pub open spec fn spec_decode_items(bytes: Seq<u8>) -> Result<Self, ParameterDataError> {
        match spec_read_items::<DeviceUID>(bytes) {
            Some(items) => if items.len() <= 38 {
                Ok(Self::spec_of_items(items))
            } else {
                Err(ParameterDataError::MalformedData)
            },
            None => Err(ParameterDataError::MalformedData),
        }
    }

    /// Whether decoding the wire form gives the list back.
    pub open spec fn spec_items_encodable(self) -> bool {
        &&& self.wf()
        &&& forall|i: int| 0 <= i < self.spec_items().len() ==> #[trigger] self.spec_items()[i].spec_wire_valid()
    }

    /// Appends the wire form of the items to `out`.
    pub fn write_items_to(&self, out: &mut Vec<u8>)
        ensures
            final(out)@ == old(out)@ + self.spec_encode_items(),
    {
        write_items(self.as_slice(), out);
    }

    /// Reads the list that `buf` holds from `pos` on.
    pub fn decode_items(buf: &[u8], pos: usize) -> (r: Result<Self, ParameterDataError>)
        requires
            pos <= buf@.len(),
        ensures
            r == Self::spec_decode_items(buf@.subrange(pos as int, buf@.len() as int)),
    {
        match read_items::<DeviceUID>(buf, pos) {
            Some(items) => match Self::from_slice(items.as_slice()) {
                Some(l) => Ok(l),
                None => Err(ParameterDataError::MalformedData),
            },
            None => Err(ParameterDataError::MalformedData),
        }
    }

    /// The wire form holds the wire forms of at most 38 items.
    pub proof fn lemma_encode_items_len(self)
        requires
            self.wf(),
        ensures
            self.spec_encode_items().len() <= 228,
    {
        lemma_items_wire_len(self.spec_items());
        let n = self.spec_items().len();
        assert(n * 6 <= 228) by (nonlinear_arith) requires n <= 38;
    }

    /// Decoding the wire form of an encodable list gives it back.
    pub proof fn lemma_items_roundtrip(self)
        requires
            self.spec_items_encodable(),
        ensures
            Self::spec_decode_items(self.spec_encode_items()) == Ok::<Self, ParameterDataError>(self),
    {
        assert(<DeviceUID as FixedWire>::spec_size() > 0);
        lemma_items_roundtrip(self.spec_items());
        Self::lemma_of_own_items(self);
    }
}

/// A list of at most 37 responder identifiers.
#[derive(Clone, Copy, Debug, PartialEq)]
pub struct ResponderList {
    len: usize,
    items: [DeviceUID; 37],
}

impl ResponderList {
    pub const CAPACITY: usize = 37;

    #[verifier::type_invariant]
    pub closed spec fn wf(self) -> bool {
        &&& self.len <= 37
        &&& forall|i: int| self.len <= i < 37 ==> self.items@[i] == (DeviceUID { manufacturer_id: 0, device_id: 0 })
    }

    /// The items of the list.
    pub closed spec fn spec_items(self) -> Seq<DeviceUID> {
        self.items@.subrange(0, self.len as int)
    }

    /// The list that holds `items`, when there are at most 37 of them.
    pub closed spec fn spec_of_items(items: Seq<DeviceUID>) -> Self {
        choose|l: Self| l.wf() && l.spec_items() == items
    }

    /// A list is determined by its items.
    pub proof fn lemma_determined_by_items(a: Self, b: Self)
        requires
            a.wf(),
            b.wf(),
            a.spec_items() == b.spec_items(),
        ensures
            a == b,
    {
        assert(a.spec_items().len() == a.len);
        assert(b.spec_items().len() == b.len);
        assert forall|i: int| 0 <= i < 37 implies a.items@[i] == b.items@[i] by {
            if i < a.len {
                assert(a.items@[i] == a.spec_items()[i]);
                assert(b.items@[i] == b.spec_items()[i]);
            }
        }
        assert(a.items =~= b.items);
    }

    /// A list holds at most 37 items.
    pub proof fn lemma_len_bound(self)
        requires
            self.wf(),
        ensures
            self.spec_items().len() <= 37,
    {
    }

    /// The list made of the items of a list is that list.
    pub proof fn lemma_of_own_items(l: Self)
        requires
            l.wf(),
        ensures
            Self::spec_of_items(l.spec_items()) == l,
    {
        Self::lemma_determined_by_items(l, Self::spec_of_items(l.spec_items()));
    }

    /// An empty list.
    pub fn new() -> (r: Self)
        ensures
            r.spec_items() == Seq::<DeviceUID>::empty(),
            r.wf(),
    {
        let r = ResponderList { len: 0, items: [(DeviceUID { manufacturer_id: 0, device_id: 0 }); 37] };
        assert(r.spec_items() =~= Seq::<DeviceUID>::empty());
        r
    }

    /// The list holding a copy of `items`, or none when there are more than 37 of them.
    pub fn from_slice(items: &[DeviceUID]) -> (r: Option<Self>)
        ensures
            items@.len() <= 37 ==> r == Some(Self::spec_of_items(items@)),
            items@.len() > 37 ==> r is None,
            r matches Some(l) ==> l.spec_items() == items@,
    {
        if items.len() > 37 {
            return None;
        }
        let mut a = [(DeviceUID { manufacturer_id: 0, device_id: 0 }); 37];
        let mut i: usize = 0;
        while i < items.len()
            invariant
                i <= items@.len(),
                items@.len() <= 37,
                forall|j: int| 0 <= j < i ==> a@[j] == items@[j],
                forall|j: int| i <= j < 37 ==> a@[j] == (DeviceUID { manufacturer_id: 0, device_id: 0 }),
            decreases items@.len() - i,
        {
            a[i] = items[i];
            i = i + 1;
        }
        let r = ResponderList { len: items.len(), items: a };
        proof {
            assert(r.spec_items() =~= items@);
            Self::lemma_determined_by_items(r, Self::spec_of_items(items@));
        }
        Some(r)
    }

    /// The items as a slice.
    pub fn as_slice(&self) -> (r: &[DeviceUID])
        ensures
            r@ == self.spec_items(),
    {
        proof {
            use_type_invariant(self);
        }
        vstd::slice::slice_subrange(self.items.as_slice(), 0, self.len)
    }

    /// The number of items.
    pub fn len(&self) -> (n: usize)
        ensures
            n == self.spec_items().len(),
    {
        proof {
            use_type_invariant(self);
        }
        self.len
    }

    pub fn is_empty(&self) -> (b: bool)
        ensures
            b == (self.spec_items().len() == 0),
    {
        proof {
            use_type_invariant(self);
        }
        self.len == 0
    }
}

impl ResponderList {
    /// The wire form of the items, one after the other.
    pub open spec fn spec_encode_items(self) -> Seq<u8> {
        spec_items_wire(self.spec_items())
    }

    /// The list that `bytes` hold, or why they hold none.
    pub open spec fn spec_decode_items(bytes: Seq<u8>) -> Result<Self, ParameterDataError> {
        match spec_read_items::<DeviceUID>(bytes) {
            Some(items) => if items.len() <= 37 {
                Ok(Self::spec_of_items(items))
            } else {
                Err(ParameterDataError::MalformedData)
            },
            None => Err(ParameterDataError::MalformedData),
        }
    }

    /// Whether decoding the wire form gives the list back.
    pub open spec fn spec_items_encodable(self) -> bool {
        &&& self.wf()
        &&& forall|i: int| 0 <= i < self.spec_items().len() ==> #[trigger] self.spec_items()[i].spec_wire_valid()
    }

    /// Appends the wire form of the items to `out`.
    pub fn write_items_to(&self, out: &mut Vec<u8>)
        ensures
            final(out)@ == old(out)@ + self.spec_encode_items(),
    {
        write_items(self.as_slice(), out);
    }

    /// Reads the list that `buf` holds from `pos` on.
    pub fn decode_items(buf: &[u8], pos: usize) -> (r: Result<Self, ParameterDataError>)
        requires
            pos <= buf@.len(),
        ensures
            r == Self::spec_decode_items(buf@.subrange(pos as int, buf@.len() as int)),
    {
        match read_items::<DeviceUID>(buf, pos) {
            Some(items) => match Self::from_slice(items.as_slice()) {
                Some(l) => Ok(l),
                None => Err(ParameterDataError::MalformedData),
            },
            None => Err(ParameterDataError::MalformedData),
        }
    }

    /// The wire form holds the wire forms of at most 37 items.
    pub proof fn lemma_encode_items_len(self)
        requires
            self.wf(),
        ensures
            self.spec_encode_items().len() <= 222,
    {
        lemma_items_wire_len(self.spec_items());
        let n = self.spec_items().len();
        assert(n * 6 <= 222) by (nonlinear_arith) requires n <= 37;
    }

    /// Decoding the wire form of an encodable list gives it back.
    pub proof fn lemma_items_roundtrip(self)
        requires
            self.spec_items_encodable(),
        ensures
            Self::spec_decode_items(self.spec_encode_items()) == Ok::<Self, ParameterDataError>(self),
    {
        assert(<DeviceUID as FixedWire>::spec_size() > 0);
        lemma_items_roundtrip(self.spec_items());
        Self::lemma_of_own_items(self);
    }
}

/// A list of at most 115 parameter identifiers.
#[derive(Clone, Copy, Debug, PartialEq)]
pub struct ParameterIdList {
    len: usize,
    items: [ParameterId; 115],
}

impl ParameterIdList {
    pub const CAPACITY: usize = 115;

    #[verifier::type_invariant]
    pub closed spec fn wf(self) -> bool {
        &&& self.len <= 115
        &&& forall|i: int| self.len <= i < 115 ==> self.items@[i] == (ParameterId::Custom(0))
    }

    /// The items of the list.
    pub closed spec fn spec_items(self) -> Seq<ParameterId> {
        self.items@.subrange(0, self.len as int)
    }

    /// The list that holds `items`, when there are at most 115 of them.
    pub closed spec fn spec_of_items(items: Seq<ParameterId>) -> Self {
        choose|l: Self| l.wf() && l.spec_items() == items
    }

    /// A list is determined by its items.
    pub proof fn lemma_determined_by_items(a: Self, b: Self)
        requires
            a.wf(),
            b.wf(),
            a.spec_items() == b.spec_items(),
        ensures
            a == b,
    {
        assert(a.spec_items().len() == a.len);
        assert(b.spec_items().len() == b.len);
        assert forall|i: int| 0 <= i < 115 implies a.items@[i] == b.items@[i] by {
            if i < a.len {
                assert(a.items@[i] == a.spec_items()[i]);
                assert(b.items@[i] == b.spec_items()[i]);
            }
        }
        assert(a.items =~= b.items);
    }

    /// A list holds at most 115 items.
    pub proof fn lemma_len_bound(self)
        requires
            self.wf(),
        ensures
            self.spec_items().len() <= 115,
    {
    }

    /// The list made of the items of a list is that list.
    pub proof fn lemma_of_own_items(l: Self)
        requires
            l.wf(),
        ensures
            Self::spec_of_items(l.spec_items()) == l,
    {
        Self::lemma_determined_by_items(l, Self::spec_of_items(l.spec_items()));
    }

    /// An empty list.
    pub fn new() -> (r: Self)
        ensures
            r.spec_items() == Seq::<ParameterId>::empty(),
            r.wf(),
    {
        let r = ParameterIdList { len: 0, items: [(ParameterId::Custom(0)); 115] };
        assert(r.spec_items() =~= Seq::<ParameterId>::empty());
        r
    }

    /// The list holding a copy of `items`, or none when there are more than 115 of them.
    pub fn from_slice(items: &[ParameterId]) -> (r: Option<Self>)
        ensures
            items@.len() <= 115 ==> r == Some(Self::spec_of_items(items@)),
            items@.len() > 115 ==> r is None,
            r matches Some(l) ==> l.spec_items() == items@,
    {
        if items.len() > 115 {
            return None;
        }
        let mut a = [(ParameterId::Custom(0)); 115];
        let mut i: usize = 0;
        while i < items.len()
            invariant
                i <= items@.len(),
                items@.len() <= 115,
                forall|j: int| 0 <= j < i ==> a@[j] == items@[j],
                forall|j: int| i <= j < 115 ==> a@[j] == (ParameterId::Custom(0)),
            decreases items@.len() - i,
        {
            a[i] = items[i];
            i = i + 1;
        }
        let r = ParameterIdList { len: items.len(), items: a };
        proof {
            assert(r.spec_items() =~= items@);
            Self::lemma_determined_by_items(r, Self::spec_of_items(items@));
        }
        Some(r)
    }

    /// The items as a slice.
    pub fn as_slice(&self) -> (r: &[ParameterId])
        ensures
            r@ == self.spec_items(),
    {
        proof {
            use_type_invariant(self);
        }
        vstd::slice::slice_subrange(self.items.as_slice(), 0, self.len)
    }

    /// The number of items.
    pub fn len(&self) -> (n: usize)
        ensures
            n == self.spec_items().len(),
    {
        proof {
            use_type_invariant(self);
        }
        self.len
    }

    pub fn is_empty(&self) -> (b: bool)
        ensures
            b == (self.spec_items().len() == 0),
    {
        proof {
            use_type_invariant(self);
        }
        self.len == 0
    }
}

impl ParameterIdList {
    /// The wire form of the items, one after the other.
    pub open spec fn spec_encode_items(self) -> Seq<u8> {
        spec_items_wire(self.spec_items())
    }

    /// The list that `bytes` hold, or why they hold none.
    pub open spec fn spec_decode_items(bytes: Seq<u8>) -> Result<Self, ParameterDataError> {
        match spec_read_items::<ParameterId>(bytes) {
            Some(items) => if items.len() <= 115 {
                Ok(Self::spec_of_items(items))
            } else {
                Err(ParameterDataError::MalformedData)
            },
            None => Err(ParameterDataError::MalformedData),
        }
    }

    /// Whether decoding the wire form gives the list back.
    pub open spec fn spec_items_encodable(self) -> bool {
        &&& self.wf()
        &&& forall|i: int| 0 <= i < self.spec_items().len() ==> #[trigger] self.spec_items()[i].spec_wire_valid()
    }

    /// Appends the wire form of the items to `out`.
    pub fn write_items_to(&self, out: &mut Vec<u8>)
        ensures
            final(out)@ == old(out)@ + self.spec_encode_items(),
    {
        write_items(self.as_slice(), out);
    }

    /// Reads the list that `buf` holds from `pos` on.
    pub fn decode_items(buf: &[u8], pos: usize) -> (r: Result<Self, ParameterDataError>)
        requires
            pos <= buf@.len(),
        ensures
            r == Self::spec_decode_items(buf@.subrange(pos as int, buf@.len() as int)),
    {
        match read_items::<ParameterId>(buf, pos) {
            Some(items) => match Self::from_slice(items.as_slice()) {
                Some(l) => Ok(l),
                None => Err(ParameterDataError::MalformedData),
            },
            None => Err(ParameterDataError::MalformedData),
        }
    }

    /// The wire form holds the wire forms of at most 115 items.
    pub proof fn lemma_encode_items_len(self)
        requires
            self.wf(),
        ensures
            self.spec_encode_items().len() <= 230,
    {
        lemma_items_wire_len(self.spec_items());
        let n = self.spec_items().len();
        assert(n * 2 <= 230) by (nonlinear_arith) requires n <= 115;
    }

    /// Decoding the wire form of an encodable list gives it back.
    pub proof fn lemma_items_roundtrip(self)
        requires
            self.spec_items_encodable(),
        ensures
            Self::spec_decode_items(self.spec_encode_items()) == Ok::<Self, ParameterDataError>(self),
    {
        assert(<ParameterId as FixedWire>::spec_size() > 0);
        lemma_items_roundtrip(self.spec_items());
        Self::lemma_of_own_items(self);
    }
}

/// A list of at most 6 product details.
#[derive(Clone, Copy, Debug, PartialEq)]
pub struct ProductDetailList {
    len: usize,
    items: [ProductDetail; 6],
}

impl ProductDetailList {
    pub const CAPACITY: usize = 6;

    #[verifier::type_invariant]
    pub closed spec fn wf(self) -> bool {
        &&& self.len <= 6
        &&& forall|i: int| self.len <= i < 6 ==> self.items@[i] == (ProductDetail::NotDeclared)
    }

    /// The items of the list.
    pub closed spec fn spec_items(self) -> Seq<ProductDetail> {
        self.items@.subrange(0, self.len as int)
    }

    /// The list that holds `items`, when there are at most 6 of them.
    pub closed spec fn spec_of_items(items: Seq<ProductDetail>) -> Self {
        choose|l: Self| l.wf() && l.spec_items() == items
    }

    /// A list is determined by its items.
    pub proof fn lemma_determined_by_items(a: Self, b: Self)
        requires
            a.wf(),
            b.wf(),
            a.spec_items() == b.spec_items(),
        ensures
            a == b,
    {
        assert(a.spec_items().len() == a.len);
        assert(b.spec_items().len() == b.len);
        assert forall|i: int| 0 <= i < 6 implies a.items@[i] == b.items@[i] by {
            if i < a.len {
                assert(a.items@[i] == a.spec_items()[i]);
                assert(b.items@[i] == b.spec_items()[i]);
            }
        }
        assert(a.items =~= b.items);
    }

    /// A list holds at most 6 items.
    pub proof fn lemma_len_bound(self)
        requires
            self.wf(),
        ensures
            self.spec_items().len() <= 6,
    {
    }

    /// The list made of the items of a list is that list.
    pub proof fn lemma_of_own_items(l: Self)
        requires
            l.wf(),
        ensures
            Self::spec_of_items(l.spec_items()) == l,
    {
        Self::lemma_determined_by_items(l, Self::spec_of_items(l.spec_items()));
    }

    /// An empty list.
    pub fn new() -> (r: Self)
        ensures
            r.spec_items() == Seq::<ProductDetail>::empty(),
            r.wf(),
    {
        let r = ProductDetailList { len: 0, items: [(ProductDetail::NotDeclared); 6] };
        assert(r.spec_items() =~= Seq::<ProductDetail>::empty());
        r
    }

    /// The list holding a copy of `items`, or none when there are more than 6 of them.
    pub fn from_slice(items: &[ProductDetail]) -> (r: Option<Self>)
        ensures
            items@.len() <= 6 ==> r == Some(Self::spec_of_items(items@)),
            items@.len() > 6 ==> r is None,
            r matches Some(l) ==> l.spec_items() == items@,
    {
        if items.len() > 6 {
            return None;
        }
        let mut a = [(ProductDetail::NotDeclared); 6];
        let mut i: usize = 0;
        while i < items.len()
            invariant
                i <= items@.len(),
                items@.len() <= 6,
                forall|j: int| 0 <= j < i ==> a@[j] == items@[j],
                forall|j: int| i <= j < 6 ==> a@[j] == (ProductDetail::NotDeclared),
            decreases items@.len() - i,
        {
            a[i] = items[i];
            i = i + 1;
        }
        let r = ProductDetailList { len: items.len(), items: a };
        proof {
            assert(r.spec_items() =~= items@);
            Self::lemma_determined_by_items(r, Self::spec_of_items(items@));
        }
        Some(r)
    }

    /// The items as a slice.
    pub fn as_slice(&self) -> (r: &[ProductDetail])
        ensures
            r@ == self.spec_items(),
    {
        proof {
            use_type_invariant(self);
        }
        vstd::slice::slice_subrange(self.items.as_slice(), 0, self.len)
    }

    /// The number of items.
    pub fn len(&self) -> (n: usize)
        ensures
            n == self.spec_items().len(),
    {
        proof {
            use_type_invariant(self);
        }
        self.len
    }

    pub fn is_empty(&self) -> (b: bool)
        ensures
            b == (self.spec_items().len() == 0),
    {
        proof {
            use_type_invariant(self);
        }
        self.len == 0
    }
}

impl ProductDetailList {
    /// The wire form of the items, one after the other.
    pub open spec fn spec_encode_items(self) -> Seq<u8> {
        spec_items_wire(self.spec_items())
    }

    /// The list that `bytes` hold, or why they hold none.
    pub open spec fn spec_decode_items(bytes: Seq<u8>) -> Result<Self, ParameterDataError> {
        match spec_read_items::<ProductDetail>(bytes) {
            Some(items) => if items.len() <= 6 {
                Ok(Self::spec_of_items(items))
            } else {
                Err(ParameterDataError::MalformedData)
            },
            None => Err(ParameterDataError::MalformedData),
        }
    }

    /// Whether decoding the wire form gives the list back.
    pub open spec fn spec_items_encodable(self) -> bool {
        &&& self.wf()
        &&& forall|i: int| 0 <= i < self.spec_items().len() ==> #[trigger] self.spec_items()[i].spec_wire_valid()
    }

    /// Appends the wire form of the items to `out`.
    pub fn write_items_to(&self, out: &mut Vec<u8>)
        ensures
            final(out)@ == old(out)@ + self.spec_encode_items(),
    {
        write_items(self.as_slice(), out);
    }

    /// Reads the list that `buf` holds from `pos` on.
    pub fn decode_items(buf: &[u8], pos: usize) -> (r: Result<Self, ParameterDataError>)
        requires
            pos <= buf@.len(),
        ensures
            r == Self::spec_decode_items(buf@.subrange(pos as int, buf@.len() as int)),
    {
        match read_items::<ProductDetail>(buf, pos) {
            Some(items) => match Self::from_slice(items.as_slice()) {
                Some(l) => Ok(l),
                None => Err(ParameterDataError::MalformedData),
            },
            None => Err(ParameterDataError::MalformedData),
        }
    }

    /// The wire form holds the wire forms of at most 6 items.
    pub proof fn lemma_encode_items_len(self)
        requires
            self.wf(),
        ensures
            self.spec_encode_items().len() <= 12,
    {
        lemma_items_wire_len(self.spec_items());
        let n = self.spec_items().len();
        assert(n * 2 <= 12) by (nonlinear_arith) requires n <= 6;
    }

    /// Decoding the wire form of an encodable list gives it back.
    pub proof fn lemma_items_roundtrip(self)
        requires
            self.spec_items_encodable(),
        ensures
            Self::spec_decode_items(self.spec_encode_items()) == Ok::<Self, ParameterDataError>(self),
    {
        assert(<ProductDetail as FixedWire>::spec_size() > 0);
        lemma_items_roundtrip(self.spec_items());
        Self::lemma_of_own_items(self);
    }
}

/// A list of at most 46 slot descriptions.
#[derive(Clone, Copy, Debug, PartialEq)]
pub struct SlotInfoList {
    len: usize,
    items: [SlotInfo; 46],
}

impl SlotInfoList {
    pub const CAPACITY: usize = 46;

    #[verifier::type_invariant]
    pub closed spec fn wf(self) -> bool {
        &&& self.len <= 46
        &&& forall|i: int| self.len <= i < 46 ==> self.items@[i] == (SlotInfo { id: 0, kind: SlotType::Primary, label_id: 0 })
    }

    /// The items of the list.
    pub closed spec fn spec_items(self) -> Seq<SlotInfo> {
        self.items@.subrange(0, self.len as int)
    }

    /// The list that holds `items`, when there are at most 46 of them.
    pub closed spec fn spec_of_items(items: Seq<SlotInfo>) -> Self {
        choose|l: Self| l.wf() && l.spec_items() == items
    }

    /// A list is determined by its items.
    pub proof fn lemma_determined_by_items(a: Self, b: Self)
        requires
            a.wf(),
            b.wf(),
            a.spec_items() == b.spec_items(),
        ensures
            a == b,
    {
        assert(a.spec_items().len() == a.len);
        assert(b.spec_items().len() == b.len);
        assert forall|i: int| 0 <= i < 46 implies a.items@[i] == b.items@[i] by {
            if i < a.len {
                assert(a.items@[i] == a.spec_items()[i]);
                assert(b.items@[i] == b.spec_items()[i]);
            }
        }
        assert(a.items =~= b.items);
    }

    /// A list holds at most 46 items.
    pub proof fn lemma_len_bound(self)
        requires
            self.wf(),
        ensures
            self.spec_items().len() <= 46,
    {
    }

    /// The list made of the items of a list is that list.
    pub proof fn lemma_of_own_items(l: Self)
        requires
            l.wf(),
        ensures
            Self::spec_of_items(l.spec_items()) == l,
    {
        Self::lemma_determined_by_items(l, Self::spec_of_items(l.spec_items()));
    }

    /// An empty list.
    pub fn new() -> (r: Self)
        ensures
            r.spec_items() == Seq::<SlotInfo>::empty(),
            r.wf(),
    {
        let r = SlotInfoList { len: 0, items: [(SlotInfo { id: 0, kind: SlotType::Primary, label_id: 0 }); 46] };
        assert(r.spec_items() =~= Seq::<SlotInfo>::empty());
        r
    }

    /// The list holding a copy of `items`, or none when there are more than 46 of them.
    pub fn from_slice(items: &[SlotInfo]) -> (r: Option<Self>)
        ensures
            items@.len() <= 46 ==> r == Some(Self::spec_of_items(items@)),
            items@.len() > 46 ==> r is None,
            r matches Some(l) ==> l.spec_items() == items@,
    {
        if items.len() > 46 {
            return None;
        }
        let mut a = [(SlotInfo { id: 0, kind: SlotType::Primary, label_id: 0 }); 46];
        let mut i: usize = 0;
        while i < items.len()
            invariant
                i <= items@.len(),
                items@.len() <= 46,
                forall|j: int| 0 <= j < i ==> a@[j] == items@[j],
                forall|j: int| i <= j < 46 ==> a@[j] == (SlotInfo { id: 0, kind: SlotType::Primary, label_id: 0 }),
            decreases items@.len() - i,
        {
            a[i] = items[i];
            i = i + 1;
        }
        let r = SlotInfoList { len: items.len(), items: a };
        proof {
            assert(r.spec_items() =~= items@);
            Self::lemma_determined_by_items(r, Self::spec_of_items(items@));
        }
        Some(r)
    }

    /// The items as a slice.
    pub fn as_slice(&self) -> (r: &[SlotInfo])
        ensures
            r@ == self.spec_items(),
    {
        proof {
            use_type_invariant(self);
        }
        vstd::slice::slice_subrange(self.items.as_slice(), 0, self.len)
    }

    /// The number of items.
    pub fn len(&self) -> (n: usize)
        ensures
            n == self.spec_items().len(),
    {
        proof {
            use_type_invariant(self);
        }
        self.len
    }

    pub fn is_empty(&self) -> (b: bool)
        ensures
            b == (self.spec_items().len() == 0),
    {
        proof {
            use_type_invariant(self);
        }
        self.len == 0
    }
}

impl SlotInfoList {
    /// The wire form of the items, one after the other.
    pub open spec fn spec_encode_items(self) -> Seq<u8> {
        spec_items_wire(self.spec_items())
    }

    /// The list that `bytes` hold, or why they hold none.
    pub open spec fn spec_decode_items(bytes: Seq<u8>) -> Result<Self, ParameterDataError> {
        match spec_read_items::<SlotInfo>(bytes) {
            Some(items) => if items.len() <= 46 {
                Ok(Self::spec_of_items(items))
            } else {
                Err(ParameterDataError::MalformedData)
            },
            None => Err(ParameterDataError::MalformedData),
        }
    }

    /// Whether decoding the wire form gives the list back.
    pub open spec fn spec_items_encodable(self) -> bool {
        &&& self.wf()
        &&& forall|i: int| 0 <= i < self.spec_items().len() ==> #[trigger] self.spec_items()[i].spec_wire_valid()
    }

    /// Appends the wire form of the items to `out`.
    pub fn write_items_to(&self, out: &mut Vec<u8>)
        ensures
            final(out)@ == old(out)@ + self.spec_encode_items(),
    {
        write_items(self.as_slice(), out);
    }

    /// Reads the list that `buf` holds from `pos` on.
    pub fn decode_items(buf: &[u8], pos: usize) -> (r: Result<Self, ParameterDataError>)
        requires
            pos <= buf@.len(),
        ensures
            r == Self::spec_decode_items(buf@.subrange(pos as int, buf@.len() as int)),
    {
        match read_items::<SlotInfo>(buf, pos) {
            Some(items) => match Self::from_slice(items.as_slice()) {
                Some(l) => Ok(l),
                None => Err(ParameterDataError::MalformedData),
            },
            None => Err(ParameterDataError::MalformedData),
        }
    }

    /// The wire form holds the wire forms of at most 46 items.
    pub proof fn lemma_encode_items_len(self)
        requires
            self.wf(),
        ensures
            self.spec_encode_items().len() <= 230,
    {
        lemma_items_wire_len(self.spec_items());
        let n = self.spec_items().len();
        assert(n * 5 <= 230) by (nonlinear_arith) requires n <= 46;
    }

    /// Decoding the wire form of an encodable list gives it back.
    pub proof fn lemma_items_roundtrip(self)
        requires
            self.spec_items_encodable(),
        ensures
            Self::spec_decode_items(self.spec_encode_items()) == Ok::<Self, ParameterDataError>(self),
    {
        assert(<SlotInfo as FixedWire>::spec_size() > 0);
        lemma_items_roundtrip(self.spec_items());
        Self::lemma_of_own_items(self);
    }
}

/// A list of at most 77 default slot values.
#[derive(Clone, Copy, Debug, PartialEq)]
pub struct DefaultSlotValueList {
    len: usize,
    items: [DefaultSlotValue; 77],
}

impl DefaultSlotValueList {
    pub const CAPACITY: usize = 77;

    #[verifier::type_invariant]
    pub closed spec fn wf(self) -> bool {
        &&& self.len <= 77
        &&& forall|i: int| self.len <= i < 77 ==> self.items@[i] == (DefaultSlotValue { id: 0, value: 0 })
    }

    /// The items of the list.
    pub closed spec fn spec_items(self) -> Seq<DefaultSlotValue> {
        self.items@.subrange(0, self.len as int)
    }

    /// The list that holds `items`, when there are at most 77 of them.
    pub closed spec fn spec_of_items(items: Seq<DefaultSlotValue>) -> Self {
        choose|l: Self| l.wf() && l.spec_items() == items
    }

    /// A list is determined by its items.
    pub proof fn lemma_determined_by_items(a: Self, b: Self)
        requires
            a.wf(),
            b.wf(),
            a.spec_items() == b.spec_items(),
        ensures
            a == b,
    {
        assert(a.spec_items().len() == a.len);
        assert(b.spec_items().len() == b.len);
        assert forall|i: int| 0 <= i < 77 implies a.items@[i] == b.items@[i] by {
            if i < a.len {
                assert(a.items@[i] == a.spec_items()[i]);
                assert(b.items@[i] == b.spec_items()[i]);
            }
        }
        assert(a.items =~= b.items);
    }

    /// A list holds at most 77 items.
    pub proof fn lemma_len_bound(self)
        requires
            self.wf(),
        ensures
            self.spec_items().len() <= 77,
    {
    }

    /// The list made of the items of a list is that list.
    pub proof fn lemma_of_own_items(l: Self)
        requires
            l.wf(),
        ensures
            Self::spec_of_items(l.spec_items()) == l,
    {
        Self::lemma_determined_by_items(l, Self::spec_of_items(l.spec_items()));
    }

    /// An empty list.
    pub fn new() -> (r: Self)
        ensures
            r.spec_items() == Seq::<DefaultSlotValue>::empty(),
            r.wf(),
    {
        let r = DefaultSlotValueList { len: 0, items: [(DefaultSlotValue { id: 0, value: 0 }); 77] };
        assert(r.spec_items() =~= Seq::<DefaultSlotValue>::empty());
        r
    }

    /// The list holding a copy of `items`, or none when there are more than 77 of them.
    pub fn from_slice(items: &[DefaultSlotValue]) -> (r: Option<Self>)
        ensures
            items@.len() <= 77 ==> r == Some(Self::spec_of_items(items@)),
            items@.len() > 77 ==> r is None,
            r matches Some(l) ==> l.spec_items() == items@,
    {
        if items.len() > 77 {
            return None;
        }
        let mut a = [(DefaultSlotValue { id: 0, value: 0 }); 77];
        let mut i: usize = 0;
        while i < items.len()
            invariant
                i <= items@.len(),
                items@.len() <= 77,
                forall|j: int| 0 <= j < i ==> a@[j] == items@[j],
                forall|j: int| i <= j < 77 ==> a@[j] == (DefaultSlotValue { id: 0, value: 0 }),
            decreases items@.len() - i,
        {
            a[i] = items[i];
            i = i + 1;
        }
        let r = DefaultSlotValueList { len: items.len(), items: a };
        proof {
            assert(r.spec_items() =~= items@);
            Self::lemma_determined_by_items(r, Self::spec_of_items(items@));
        }
        Some(r)
    }

    /// The items as a slice.
    pub fn as_slice(&self) -> (r: &[DefaultSlotValue])
        ensures
            r@ == self.spec_items(),
    {
        proof {
            use_type_invariant(self);
        }
        vstd::slice::slice_subrange(self.items.as_slice(), 0, self.len)
    }

    /// The number of items.
    pub fn len(&self) -> (n: usize)
        ensures
            n == self.spec_items().len(),
    {
        proof {
            use_type_invariant(self);
        }
        self.len
    }

    pub fn is_empty(&self) -> (b: bool)
        ensures
            b == (self.spec_items().len() == 0),
    {
        proof {
            use_type_invariant(self);
        }
        self.len == 0
    }
}

impl DefaultSlotValueList {
    /// The wire form of the items, one after the other.
    pub open spec fn spec_encode_items(self) -> Seq<u8> {
        spec_items_wire(self.spec_items())
    }

    /// The list that `bytes` hold, or why they hold none.
    pub open spec fn spec_decode_items(bytes: Seq<u8>) -> Result<Self, ParameterDataError> {
        match spec_read_items::<DefaultSlotValue>(bytes) {
            Some(items) => if items.len() <= 77 {
                Ok(Self::spec_of_items(items))
            } else {
                Err(ParameterDataError::MalformedData)
            },
            None => Err(ParameterDataError::MalformedData),
        }
    }

    /// Whether decoding the wire form gives the list back.
    pub open spec fn spec_items_encodable(self) -> bool {
        &&& self.wf()
        &&& forall|i: int| 0 <= i < self.spec_items().len() ==> #[trigger] self.spec_items()[i].spec_wire_valid()
    }

    /// Appends the wire form of the items to `out`.
    pub fn write_items_to(&self, out: &mut Vec<u8>)
        ensures
            final(out)@ == old(out)@ + self.spec_encode_items(),
    {
        write_items(self.as_slice(), out);
    }

    /// Reads the list that `buf` holds from `pos` on.
    pub fn decode_items(buf: &[u8], pos: usize) -> (r: Result<Self, ParameterDataError>)
        requires
            pos <= buf@.len(),
        ensures
            r == Self::spec_decode_items(buf@.subrange(pos as int, buf@.len() as int)),
    {
        match read_items::<DefaultSlotValue>(buf, pos) {
            Some(items) => match Self::from_slice(items.as_slice()) {
                Some(l) => Ok(l),
                None => Err(ParameterDataError::MalformedData),
            },
            None => Err(ParameterDataError::MalformedData),
        }
    }

    /// The wire form holds the wire forms of at most 77 items.
    pub proof fn lemma_encode_items_len(self)
        requires
            self.wf(),
        ensures
            self.spec_encode_items().len() <= 231,
    {
        lemma_items_wire_len(self.spec_items());
        let n = self.spec_items().len();
        assert(n * 3 <= 231) by (nonlinear_arith) requires n <= 77;
    }

    /// Decoding the wire form of an encodable list gives it back.
    pub proof fn lemma_items_roundtrip(self)
        requires
            self.spec_items_encodable(),
        ensures
            Self::spec_decode_items(self.spec_encode_items()) == Ok::<Self, ParameterDataError>(self),
    {
        assert(<DefaultSlotValue as FixedWire>::spec_size() > 0);
        lemma_items_roundtrip(self.spec_items());
        Self::lemma_of_own_items(self);
    }
}

/// A list of at most 38 network interfaces.
#[derive(Clone, Copy, Debug, PartialEq)]
pub struct NetworkInterfaceList {
    len: usize,
    items: [NetworkInterface; 38],
}

impl NetworkInterfaceList {
    pub const CAPACITY: usize = 38;

    #[verifier::type_invariant]
    pub closed spec fn wf(self) -> bool {
        &&& self.len <= 38
        &&& forall|i: int| self.len <= i < 38 ==> self.items@[i] == (NetworkInterface { interface_id: 0, hardware_type: HardwareType::Unknown(0) })
    }

    /// The items of the list.
    pub closed spec fn spec_items(self) -> Seq<NetworkInterface> {
        self.items@.subrange(0, self.len as int)
    }

    /// The list that holds `items`, when there are at most 38 of them.
    pub closed spec fn spec_of_items(items: Seq<NetworkInterface>) -> Self {
        choose|l: Self| l.wf() && l.spec_items() == items
    }

    /// A list is determined by its items.
    pub proof fn lemma_determined_by_items(a: Self, b: Self)
        requires
            a.wf(),
            b.wf(),
            a.spec_items() == b.spec_items(),
        ensures
            a == b,
    {
        assert(a.spec_items().len() == a.len);
        assert(b.spec_items().len() == b.len);
        assert forall|i: int| 0 <= i < 38 implies a.items@[i] == b.items@[i] by {
            if i < a.len {
                assert(a.items@[i] == a.spec_items()[i]);
                assert(b.items@[i] == b.spec_items()[i]);
            }
        }
        assert(a.items =~= b.items);
    }

    /// A list holds at most 38 items.
    pub proof fn lemma_len_bound(self)
        requires
            self.wf(),
        ensures
            self.spec_items().len() <= 38,
    {
    }

    /// The list made of the items of a list is that list.
    pub proof fn lemma_of_own_items(l: Self)
        requires
            l.wf(),
        ensures
            Self::spec_of_items(l.spec_items()) == l,
    {
        Self::lemma_determined_by_items(l, Self::spec_of_items(l.spec_items()));
    }

    /// An empty list.
    pub fn new() -> (r: Self)
        ensures
            r.spec_items() == Seq::<NetworkInterface>::empty(),
            r.wf(),
    {
        let r = NetworkInterfaceList { len: 0, items: [(NetworkInterface { interface_id: 0, hardware_type: HardwareType::Unknown(0) }); 38] };
        assert(r.spec_items() =~= Seq::<NetworkInterface>::empty());
        r
    }

    /// The list holding a copy of `items`, or none when there are more than 38 of them.
    pub fn from_slice(items: &[NetworkInterface]) -> (r: Option<Self>)
        ensures
            items@.len() <= 38 ==> r == Some(Self::spec_of_items(items@)),
            items@.len() > 38 ==> r is None,
            r matches Some(l) ==> l.spec_items() == items@,
    {
        if items.len() > 38 {
            return None;
        }
        let mut a = [(NetworkInterface { interface_id: 0, hardware_type: HardwareType::Unknown(0) }); 38];
        let mut i: usize = 0;
        while i < items.len()
            invariant
                i <= items@.len(),
                items@.len() <= 38,
                forall|j: int| 0 <= j < i ==> a@[j] == items@[j],
                forall|j: int| i <= j < 38 ==> a@[j] == (NetworkInterface { interface_id: 0, hardware_type: HardwareType::Unknown(0) }),
            decreases items@.len() - i,
        {
            a[i] = items[i];
            i = i + 1;
        }
        let r = NetworkInterfaceList { len: items.len(), items: a };
        proof {
            assert(r.spec_items() =~= items@);
            Self::lemma_determined_by_items(r, Self::spec_of_items(items@));
        }
        Some(r)
    }

    /// The items as a slice.
    pub fn as_slice(&self) -> (r: &[NetworkInterface])
        ensures
            r@ == self.spec_items(),
    {
        proof {
            use_type_invariant(self);
        }
        vstd::slice::slice_subrange(self.items.as_slice(), 0, self.len)
    }

    /// The number of items.
    pub fn len(&self) -> (n: usize)
        ensures
            n == self.spec_items().len(),
    {
        proof {
            use_type_invariant(self);
        }
        self.len
    }

    pub fn is_empty(&self) -> (b: bool)
        ensures
            b == (self.spec_items().len() == 0),
    {
        proof {
            use_type_invariant(self);
        }
        self.len == 0
    }
}

impl NetworkInterfaceList {
    /// The wire form of the items, one after the other.
    pub open spec fn spec_encode_items(self) -> Seq<u8> {
        spec_items_wire(self.spec_items())
    }

    /// The list that `bytes` hold, or why they hold none.
    pub open spec fn spec_decode_items(bytes: Seq<u8>) -> Result<Self, ParameterDataError> {
        match spec_read_items::<NetworkInterface>(bytes) {
            Some(items) => if items.len() <= 38 {
                Ok(Self::spec_of_items(items))
            } else {
                Err(ParameterDataError::MalformedData)
            },
            None => Err(ParameterDataError::MalformedData),
        }
    }

    /// Whether decoding the wire form gives the list back.
    pub open spec fn spec_items_encodable(self) -> bool {
        &&& self.wf()
        &&& forall|i: int| 0 <= i < self.spec_items().len() ==> #[trigger] self.spec_items()[i].spec_wire_valid()
    }

    /// Appends the wire form of the items to `out`.
    pub fn write_items_to(&self, out: &mut Vec<u8>)
        ensures
            final(out)@ == old(out)@ + self.spec_encode_items(),
    {
        write_items(self.as_slice(), out);
    }

    /// Reads the list that `buf` holds from `pos` on.
    pub fn decode_items(buf: &[u8], pos: usize) -> (r: Result<Self, ParameterDataError>)
        requires
            pos <= buf@.len(),
        ensures
            r == Self::spec_decode_items(buf@.subrange(pos as int, buf@.len() as int)),
    {
        match read_items::<NetworkInterface>(buf, pos) {
            Some(items) => match Self::from_slice(items.as_slice()) {
                Some(l) => Ok(l),
                None => Err(ParameterDataError::MalformedData),
            },
            None => Err(ParameterDataError::MalformedData),
        }
    }

    /// The wire form holds the wire forms of at most 38 items.
    pub proof fn lemma_encode_items_len(self)
        requires
            self.wf(),
        ensures
            self.spec_encode_items().len() <= 228,
    {
        lemma_items_wire_len(self.spec_items());
        let n = self.spec_items().len();
        assert(n * 6 <= 228) by (nonlinear_arith) requires n <= 38;
    }

    /// Decoding the wire form of an encodable list gives it back.
    pub proof fn lemma_items_roundtrip(self)
        requires
            self.spec_items_encodable(),
        ensures
            Self::spec_decode_items(self.spec_encode_items()) == Ok::<Self, ParameterDataError>(self),
    {
        assert(<NetworkInterface as FixedWire>::spec_size() > 0);
        lemma_items_roundtrip(self.spec_items());
        Self::lemma_of_own_items(self);
    }
}

/// A list of at most 75 endpoints.
#[derive(Clone, Copy, Debug, PartialEq)]
pub struct EndpointEntryList {
    len: usize,
    items: [EndpointEntry; 75],
}

impl EndpointEntryList {
    pub const CAPACITY: usize = 75;

    #[verifier::type_invariant]
    pub closed spec fn wf(self) -> bool {
        &&& self.len <= 75
        &&& forall|i: int| self.len <= i < 75 ==> self.items@[i] == (EndpointEntry { endpoint_id: EndpointId::Null, endpoint_type: EndpointType::Virtual })
    }

    /// The items of the list.
    pub closed spec fn spec_items(self) -> Seq<EndpointEntry> {
        self.items@.subrange(0, self.len as int)
    }

    /// The list that holds `items`, when there are at most 75 of them.
    pub closed spec fn spec_of_items(items: Seq<EndpointEntry>) -> Self {
        choose|l: Self| l.wf() && l.spec_items() == items
    }

    /// A list is determined by its items.
    pub proof fn lemma_determined_by_items(a: Self, b: Self)
        requires
            a.wf(),
            b.wf(),
            a.spec_items() == b.spec_items(),
        ensures
            a == b,
    {
        assert(a.spec_items().len() == a.len);
        assert(b.spec_items().len() == b.len);
        assert forall|i: int| 0 <= i < 75 implies a.items@[i] == b.items@[i] by {
            if i < a.len {
                assert(a.items@[i] == a.spec_items()[i]);
                assert(b.items@[i] == b.spec_items()[i]);
            }
        }
        assert(a.items =~= b.items);
    }

    /// A list holds at most 75 items.
    pub proof fn lemma_len_bound(self)
        requires
            self.wf(),
        ensures
            self.spec_items().len() <= 75,
    {
    }

    /// The list made of the items of a list is that list.
    pub proof fn lemma_of_own_items(l: Self)
        requires
            l.wf(),
        ensures
            Self::spec_of_items(l.spec_items()) == l,
    {
        Self::lemma_determined_by_items(l, Self::spec_of_items(l.spec_items()));
    }

    /// An empty list.
    pub fn new() -> (r: Self)
        ensures
            r.spec_items() == Seq::<EndpointEntry>::empty(),
            r.wf(),
    {
        let r = EndpointEntryList { len: 0, items: [(EndpointEntry { endpoint_id: EndpointId::Null, endpoint_type: EndpointType::Virtual }); 75] };
        assert(r.spec_items() =~= Seq::<EndpointEntry>::empty());
        r
    }

    /// The list holding a copy of `items`, or none when there are more than 75 of them.
    pub fn from_slice(items: &[EndpointEntry]) -> (r: Option<Self>)
        ensures
            items@.len() <= 75 ==> r == Some(Self::spec_of_items(items@)),
            items@.len() > 75 ==> r is None,
            r matches Some(l) ==> l.spec_items() == items@,
    {
        if items.len() > 75 {
            return None;
        }
        let mut a = [(EndpointEntry { endpoint_id: EndpointId::Null, endpoint_type: EndpointType::Virtual }); 75];
        let mut i: usize = 0;
        while i < items.len()
            invariant
                i <= items@.len(),
                items@.len() <= 75,
                forall|j: int| 0 <= j < i ==> a@[j] == items@[j],
                forall|j: int| i <= j < 75 ==> a@[j] == (EndpointEntry { endpoint_id: EndpointId::Null, endpoint_type: EndpointType::Virtual }),
            decreases items@.len() - i,
        {
            a[i] = items[i];
            i = i + 1;
        }
        let r = EndpointEntryList { len: items.len(), items: a };
        proof {
            assert(r.spec_items() =~= items@);
            Self::lemma_determined_by_items(r, Self::spec_of_items(items@));
        }
        Some(r)
    }

    /// The items as a slice.
    pub fn as_slice(&self) -> (r: &[EndpointEntry])
        ensures
            r@ == self.spec_items(),
    {
        proof {
            use_type_invariant(self);
        }
        vstd::slice::slice_subrange(self.items.as_slice(), 0, self.len)
    }

    /// The number of items.
    pub fn len(&self) -> (n: usize)
        ensures
            n == self.spec_items().len(),
    {
        proof {
            use_type_invariant(self);
        }
        self.len
    }

    pub fn is_empty(&self) -> (b: bool)
        ensures
            b == (self.spec_items().len() == 0),
    {
        proof {
            use_type_invariant(self);
        }
        self.len == 0
    }
}

impl EndpointEntryList {
    /// The wire form of the items, one after the other.
    pub open spec fn spec_encode_items(self) -> Seq<u8> {
        spec_items_wire(self.spec_items())
    }

    /// The list that `bytes` hold, or why they hold none.
    pub open spec fn spec_decode_items(bytes: Seq<u8>) -> Result<Self, ParameterDataError> {
        match spec_read_items::<EndpointEntry>(bytes) {
            Some(items) => if items.len() <= 75 {
                Ok(Self::spec_of_items(items))
            } else {
                Err(ParameterDataError::MalformedData)
            },
            None => Err(ParameterDataError::MalformedData),
        }
    }

    /// Whether decoding the wire form gives the list back.
    pub open spec fn spec_items_encodable(self) -> bool {
        &&& self.wf()
        &&& forall|i: int| 0 <= i < self.spec_items().len() ==> #[trigger] self.spec_items()[i].spec_wire_valid()
    }

    /// Appends the wire form of the items to `out`.
    pub fn write_items_to(&self, out: &mut Vec<u8>)
        ensures
            final(out)@ == old(out)@ + self.spec_encode_items(),
    {
        write_items(self.as_slice(), out);
    }

    /// Reads the list that `buf` holds from `pos` on.
    pub fn decode_items(buf: &[u8], pos: usize) -> (r: Result<Self, ParameterDataError>)
        requires
            pos <= buf@.len(),
        ensures
            r == Self::spec_decode_items(buf@.subrange(pos as int, buf@.len() as int)),
    {
        match read_items::<EndpointEntry>(buf, pos) {
            Some(items) => match Self::from_slice(items.as_slice()) {
                Some(l) => Ok(l),
                None => Err(ParameterDataError::MalformedData),
            },
            None => Err(ParameterDataError::MalformedData),
        }
    }

    /// The wire form holds the wire forms of at most 75 items.
    pub proof fn lemma_encode_items_len(self)
        requires
            self.wf(),
        ensures
            self.spec_encode_items().len() <= 225,
    {
        lemma_items_wire_len(self.spec_items());
        let n = self.spec_items().len();
        assert(n * 3 <= 225) by (nonlinear_arith) requires n <= 75;
    }

    /// Decoding the wire form of an encodable list gives it back.
    pub proof fn lemma_items_roundtrip(self)
        requires
            self.spec_items_encodable(),
        ensures
            Self::spec_decode_items(self.spec_encode_items()) == Ok::<Self, ParameterDataError>(self),
    {
        assert(<EndpointEntry as FixedWire>::spec_size() > 0);
        lemma_items_roundtrip(self.spec_items());
        Self::lemma_of_own_items(self);
    }
}

/// A list of at most 25 status messages.
#[derive(Clone, Copy, Debug, PartialEq)]
pub struct StatusMessageList {
    len: usize,
    items: [StatusMessage; 25],
}

impl StatusMessageList {
    pub const CAPACITY: usize = 25;

    #[verifier::type_invariant]
    pub closed spec fn wf(self) -> bool {
        &&& self.len <= 25
        &&& forall|i: int| self.len <= i < 25 ==> self.items@[i] == (StatusMessage { sub_device_id: SubDeviceId::RootDevice, status_type: StatusType::NoStatus, status_message_id: 0, data_value1: 0, data_value2: 0, description: None })
    }

    /// The items of the list.
    pub closed spec fn spec_items(self) -> Seq<StatusMessage> {
        self.items@.subrange(0, self.len as int)
    }

    /// The list that holds `items`, when there are at most 25 of them.
    pub closed spec fn spec_of_items(items: Seq<StatusMessage>) -> Self {
        choose|l: Self| l.wf() && l.spec_items() == items
    }

    /// A list is determined by its items.
    pub proof fn lemma_determined_by_items(a: Self, b: Self)
        requires
            a.wf(),
            b.wf(),
            a.spec_items() == b.spec_items(),
        ensures
            a == b,
    {
        assert(a.spec_items().len() == a.len);
        assert(b.spec_items().len() == b.len);
        assert forall|i: int| 0 <= i < 25 implies a.items@[i] == b.items@[i] by {
            if i < a.len {
                assert(a.items@[i] == a.spec_items()[i]);
                assert(b.items@[i] == b.spec_items()[i]);
            }
        }
        assert(a.items =~= b.items);
    }

    /// A list holds at most 25 items.
    pub proof fn lemma_len_bound(self)
        requires
            self.wf(),
        ensures
            self.spec_items().len() <= 25,
    {
    }

    /// The list made of the items of a list is that list.
    pub proof fn lemma_of_own_items(l: Self)
        requires
            l.wf(),
        ensures
            Self::spec_of_items(l.spec_items()) == l,
    {
        Self::lemma_determined_by_items(l, Self::spec_of_items(l.spec_items()));
    }

    /// An empty list.
    pub fn new() -> (r: Self)
        ensures
            r.spec_items() == Seq::<StatusMessage>::empty(),
            r.wf(),
    {
        let r = StatusMessageList { len: 0, items: [(StatusMessage { sub_device_id: SubDeviceId::RootDevice, status_type: StatusType::NoStatus, status_message_id: 0, data_value1: 0, data_value2: 0, description: None }); 25] };
        assert(r.spec_items() =~= Seq::<StatusMessage>::empty());
        r
    }

    /// The list holding a copy of `items`, or none when there are more than 25 of them.
    pub fn from_slice(items: &[StatusMessage]) -> (r: Option<Self>)
        ensures
            items@.len() <= 25 ==> r == Some(Self::spec_of_items(items@)),
            items@.len() > 25 ==> r is None,
            r matches Some(l) ==> l.spec_items() == items@,
    {
        if items.len() > 25 {
            return None;
        }
        let mut a = [(StatusMessage { sub_device_id: SubDeviceId::RootDevice, status_type: StatusType::NoStatus, status_message_id: 0, data_value1: 0, data_value2: 0, description: None }); 25];
        let mut i: usize = 0;
        while i < items.len()
            invariant
                i <= items@.len(),
                items@.len() <= 25,
                forall|j: int| 0 <= j < i ==> a@[j] == items@[j],
                forall|j: int| i <= j < 25 ==> a@[j] == (StatusMessage { sub_device_id: SubDeviceId::RootDevice, status_type: StatusType::NoStatus, status_message_id: 0, data_value1: 0, data_value2: 0, description: None }),
            decreases items@.len() - i,
        {
            a[i] = items[i];
            i = i + 1;
        }
        let r = StatusMessageList { len: items.len(), items: a };
        proof {
            assert(r.spec_items() =~= items@);
            Self::lemma_determined_by_items(r, Self::spec_of_items(items@));
        }
        Some(r)
    }

    /// The items as a slice.
    pub fn as_slice(&self) -> (r: &[StatusMessage])
        ensures
            r@ == self.spec_items(),
    {
        proof {
            use_type_invariant(self);
        }
        vstd::slice::slice_subrange(self.items.as_slice(), 0, self.len)
    }

    /// The number of items.
    pub fn len(&self) -> (n: usize)
        ensures
            n == self.spec_items().len(),
    {
        proof {
            use_type_invariant(self);
        }
        self.len
    }

    pub fn is_empty(&self) -> (b: bool)
        ensures
            b == (self.spec_items().len() == 0),
    {
        proof {
            use_type_invariant(self);
        }
        self.len == 0
    }
}

impl StatusMessageList {
    /// The wire form of the items, one after the other.
    pub open spec fn spec_encode_items(self) -> Seq<u8> {
        spec_items_wire(self.spec_items())
    }

    /// The list that `bytes` hold, or why they hold none.
    pub open spec fn spec_decode_items(bytes: Seq<u8>) -> Result<Self, ParameterDataError> {
        match spec_read_items::<StatusMessage>(bytes) {
            Some(items) => if items.len() <= 25 {
                Ok(Self::spec_of_items(items))
            } else {
                Err(ParameterDataError::MalformedData)
            },
            None => Err(ParameterDataError::MalformedData),
        }
    }

    /// Whether decoding the wire form gives the list back.
    pub open spec fn spec_items_encodable(self) -> bool {
        &&& self.wf()
        &&& forall|i: int| 0 <= i < self.spec_items().len() ==> #[trigger] self.spec_items()[i].spec_wire_valid()
    }

    /// Appends the wire form of the items to `out`.
    pub fn write_items_to(&self, out: &mut Vec<u8>)
        ensures
            final(out)@ == old(out)@ + self.spec_encode_items(),
    {
        write_items(self.as_slice(), out);
    }

    /// Reads the list that `buf` holds from `pos` on.
    pub fn decode_items(buf: &[u8], pos: usize) -> (r: Result<Self, ParameterDataError>)
        requires
            pos <= buf@.len(),
        ensures
            r == Self::spec_decode_items(buf@.subrange(pos as int, buf@.len() as int)),
    {
        match read_items::<StatusMessage>(buf, pos) {
            Some(items) => match Self::from_slice(items.as_slice()) {
                Some(l) => Ok(l),
                None => Err(ParameterDataError::MalformedData),
            },
            None => Err(ParameterDataError::MalformedData),
        }
    }

    /// The wire form holds the wire forms of at most 25 items.
    pub proof fn lemma_encode_items_len(self)
        requires
            self.wf(),
        ensures
            self.spec_encode_items().len() <= 225,
    {
        lemma_items_wire_len(self.spec_items());
        let n = self.spec_items().len();
        assert(n * 9 <= 225) by (nonlinear_arith) requires n <= 25;
    }

    /// Decoding the wire form of an encodable list gives it back.
    pub proof fn lemma_items_roundtrip(self)
        requires
            self.spec_items_encodable(),
        ensures
            Self::spec_decode_items(self.spec_encode_items()) == Ok::<Self, ParameterDataError>(self),
    {
        assert(<StatusMessage as FixedWire>::spec_size() > 0);
        lemma_items_roundtrip(self.spec_items());
        Self::lemma_of_own_items(self);
    }
}

/// A list of at most 231 bytes of parameter data.
#[derive(Clone, Copy, Debug, PartialEq)]
pub struct ParameterDataBuffer {
    len: usize,
    items: [u8; 231],
}

impl ParameterDataBuffer {
    pub const CAPACITY: usize = 231;

    #[verifier::type_invariant]
    pub closed spec fn wf(self) -> bool {
        &&& self.len <= 231
        &&& forall|i: int| self.len <= i < 231 ==> self.items@[i] == (0u8)
    }

    /// The items of the list.
    pub closed spec fn spec_items(self) -> Seq<u8> {
        self.items@.subrange(0, self.len as int)
    }

    /// The list that holds `items`, when there are at most 231 of them.
    pub closed spec fn spec_of_items(items: Seq<u8>) -> Self {
        choose|l: Self| l.wf() && l.spec_items() == items
    }

    /// A list is determined by its items.
    pub proof fn lemma_determined_by_items(a: Self, b: Self)
        requires
            a.wf(),
            b.wf(),
            a.spec_items() == b.spec_items(),
        ensures
            a == b,
    {
        assert(a.spec_items().len() == a.len);
        assert(b.spec_items().len() == b.len);
        assert forall|i: int| 0 <= i < 231 implies a.items@[i] == b.items@[i] by {
            if i < a.len {
                assert(a.items@[i] == a.spec_items()[i]);
                assert(b.items@[i] == b.spec_items()[i]);
            }
        }
        assert(a.items =~= b.items);
    }

    /// A list holds at most 231 items.
    pub proof fn lemma_len_bound(self)
        requires
            self.wf(),
        ensures
            self.spec_items().len() <= 231,
    {
    }

    /// The list made of the items of a list is that list.
    pub proof fn lemma_of_own_items(l: Self)
        requires
            l.wf(),
        ensures
            Self::spec_of_items(l.spec_items()) == l,
    {
        Self::lemma_determined_by_items(l, Self::spec_of_items(l.spec_items()));
    }

    /// Any 231 bytes or fewer are the items of the list made of them.
    pub proof fn lemma_of_items(items: Seq<u8>)
        requires
            items.len() <= 231,
        ensures
            Self::spec_of_items(items).wf(),
            Self::spec_of_items(items).spec_items() == items,
    {
        let a = spec_padded_array::<231>(items, items.len());
        lemma_padded_array::<231>(items, items.len());
        let w = ParameterDataBuffer { len: items.len() as usize, items: a };
        assert(w.items@.subrange(0, w.len as int) =~= items);
        assert(w.wf() && w.spec_items() == items);
    }

    /// An empty list.
    pub fn new() -> (r: Self)
        ensures
            r.spec_items() == Seq::<u8>::empty(),
            r.wf(),
    {
        let r = ParameterDataBuffer { len: 0, items: [(0u8); 231] };
        assert(r.spec_items() =~= Seq::<u8>::empty());
        r
    }

    /// The list holding a copy of `items`, or none when there are more than 231 of them.
    pub fn from_slice(items: &[u8]) -> (r: Option<Self>)
        ensures
            items@.len() <= 231 ==> r == Some(Self::spec_of_items(items@)),
            items@.len() > 231 ==> r is None,
            r matches Some(l) ==> l.spec_items() == items@,
    {
        if items.len() > 231 {
            return None;
        }
        let mut a = [(0u8); 231];
        let mut i: usize = 0;
        while i < items.len()
            invariant
                i <= items@.len(),
                items@.len() <= 231,
                forall|j: int| 0 <= j < i ==> a@[j] == items@[j],
                forall|j: int| i <= j < 231 ==> a@[j] == (0u8),
            decreases items@.len() - i,
        {
            a[i] = items[i];
            i = i + 1;
        }
        let r = ParameterDataBuffer { len: items.len(), items: a };
        proof {
            assert(r.spec_items() =~= items@);
            Self::lemma_determined_by_items(r, Self::spec_of_items(items@));
        }
        Some(r)
    }

    /// The items as a slice.
    pub fn as_slice(&self) -> (r: &[u8])
        ensures
            r@ == self.spec_items(),
    {
        proof {
            use_type_invariant(self);
        }
        vstd::slice::slice_subrange(self.items.as_slice(), 0, self.len)
    }

    /// The number of items.
    pub fn len(&self) -> (n: usize)
        ensures
            n == self.spec_items().len(),
    {
        proof {
            use_type_invariant(self);
        }
        self.len
    }

    pub fn is_empty(&self) -> (b: bool)
        ensures
            b == (self.spec_items().len() == 0),
    {
        proof {
            use_type_invariant(self);
        }
        self.len == 0
    }
}

impl ParameterDataBuffer {
    /// The wire form of the items, one after the other.
    pub open spec fn spec_encode_items(self) -> Seq<u8> {
        spec_items_wire(self.spec_items())
    }

    /// The list that `bytes` hold, or why they hold none.
    pub open spec fn spec_decode_items(bytes: Seq<u8>) -> Result<Self, ParameterDataError> {
        match spec_read_items::<u8>(bytes) {
            Some(items) => if items.len() <= 231 {
                Ok(Self::spec_of_items(items))
            } else {
                Err(ParameterDataError::MalformedData)
            },
            None => Err(ParameterDataError::MalformedData),
        }
    }

    /// Whether decoding the wire form gives the list back.
    pub open spec fn spec_items_encodable(self) -> bool {
        &&& self.wf()
        &&& forall|i: int| 0 <= i < self.spec_items().len() ==> #[trigger] self.spec_items()[i].spec_wire_valid()
    }

    /// Appends the wire form of the items to `out`.
    pub fn write_items_to(&self, out: &mut Vec<u8>)
        ensures
            final(out)@ == old(out)@ + self.spec_encode_items(),
    {
        write_items(self.as_slice(), out);
    }

    /// Reads the list that `buf` holds from `pos` on.
    pub fn decode_items(buf: &[u8], pos: usize) -> (r: Result<Self, ParameterDataError>)
        requires
            pos <= buf@.len(),
        ensures
            r == Self::spec_decode_items(buf@.subrange(pos as int, buf@.len() as int)),
    {
        match read_items::<u8>(buf, pos) {
            Some(items) => match Self::from_slice(items.as_slice()) {
                Some(l) => Ok(l),
                None => Err(ParameterDataError::MalformedData),
            },
            None => Err(ParameterDataError::MalformedData),
        }
    }

    /// The wire form holds the wire forms of at most 231 items.
    pub proof fn lemma_encode_items_len(self)
        requires
            self.wf(),
        ensures
            self.spec_encode_items().len() <= 231,
    {
        lemma_items_wire_len(self.spec_items());
        let n = self.spec_items().len();
        assert(n * 1 <= 231) by (nonlinear_arith) requires n <= 231;
    }

    /// Decoding the wire form of an encodable list gives it back.
    pub proof fn lemma_items_roundtrip(self)
        requires
            self.spec_items_encodable(),
        ensures
            Self::spec_decode_items(self.spec_encode_items()) == Ok::<Self, ParameterDataError>(self),
    {
        assert(<u8 as FixedWire>::spec_size() > 0);
        lemma_items_roundtrip(self.spec_items());
        Self::lemma_of_own_items(self);
    }
}

/// A list of at most 115 languages.
#[derive(Clone, Copy, Debug, PartialEq)]
pub struct LanguageList<'a> {
    len: usize,
    items: [Iso639_1<'a>; 115],
}

impl<'a> LanguageList<'a> {
    pub const CAPACITY: usize = 115;

    #[verifier::type_invariant]
    pub closed spec fn wf(self) -> bool {
        &&& self.len <= 115
        &&& forall|i: int| self.len <= i < 115 ==> self.items@[i] == (Iso639_1::Aa)
    }

    /// The items of the list.
    pub closed spec fn spec_items(self) -> Seq<Iso639_1<'a>> {
        self.items@.subrange(0, self.len as int)
    }

    /// The list that holds `items`, when there are at most 115 of them.
    pub closed spec fn spec_of_items(items: Seq<Iso639_1<'a>>) -> Self {
        choose|l: Self| l.wf() && l.spec_items() == items
    }

    /// A list is determined by its items.
    pub proof fn lemma_determined_by_items(a: Self, b: Self)
        requires
            a.wf(),
            b.wf(),
            a.spec_items() == b.spec_items(),
        ensures
            a == b,
    {
        assert(a.spec_items().len() == a.len);
        assert(b.spec_items().len() == b.len);
        assert forall|i: int| 0 <= i < 115 implies a.items@[i] == b.items@[i] by {
            if i < a.len {
                assert(a.items@[i] == a.spec_items()[i]);
                assert(b.items@[i] == b.spec_items()[i]);
            }
        }
        assert(a.items =~= b.items);
    }

    /// A list holds at most 115 items.
    pub proof fn lemma_len_bound(self)
        requires
            self.wf(),
        ensures
            self.spec_items().len() <= 115,
    {
    }

    /// The list made of the items of a list is that list.
    pub proof fn lemma_of_own_items(l: Self)
        requires
            l.wf(),
        ensures
            Self::spec_of_items(l.spec_items()) == l,
    {
        Self::lemma_determined_by_items(l, Self::spec_of_items(l.spec_items()));
    }

    /// An empty list.
    pub fn new() -> (r: Self)
        ensures
            r.spec_items() == Seq::<Iso639_1<'a>>::empty(),
            r.wf(),
    {
        let r = LanguageList { len: 0, items: [(Iso639_1::Aa); 115] };
        assert(r.spec_items() =~= Seq::<Iso639_1<'a>>::empty());
        r
    }

    /// The list holding a copy of `items`, or none when there are more than 115 of them.
    pub fn from_slice(items: &[Iso639_1<'a>]) -> (r: Option<Self>)
        ensures
            items@.len() <= 115 ==> r == Some(Self::spec_of_items(items@)),
            items@.len() > 115 ==> r is None,
            r matches Some(l) ==> l.spec_items() == items@,
    {
        if items.len() > 115 {
            return None;
        }
        let mut a = [(Iso639_1::Aa); 115];
        let mut i: usize = 0;
        while i < items.len()
            invariant
                i <= items@.len(),
                items@.len() <= 115,
                forall|j: int| 0 <= j < i ==> a@[j] == items@[j],
                forall|j: int| i <= j < 115 ==> a@[j] == (Iso639_1::Aa),
            decreases items@.len() - i,
        {
            a[i] = items[i];
            i = i + 1;
        }
        let r = LanguageList { len: items.len(), items: a };
        proof {
            assert(r.spec_items() =~= items@);
            Self::lemma_determined_by_items(r, Self::spec_of_items(items@));
        }
        Some(r)
    }

    /// The items as a slice.
    pub fn as_slice(&self) -> (r: &[Iso639_1<'a>])
        ensures
            r@ == self.spec_items(),
    {
        proof {
            use_type_invariant(self);
        }
        vstd::slice::slice_subrange(self.items.as_slice(), 0, self.len)
    }

    /// The number of items.
    pub fn len(&self) -> (n: usize)
        ensures
            n == self.spec_items().len(),
    {
        proof {
            use_type_invariant(self);
        }
        self.len
    }

    pub fn is_empty(&self) -> (b: bool)
        ensures
            b == (self.spec_items().len() == 0),
    {
        proof {
            use_type_invariant(self);
        }
        self.len == 0
    }
}

impl<'a> LanguageList<'a> {
    /// The wire form of the items, one after the other.
    pub open spec fn spec_encode_items(self) -> Seq<u8> {
        spec_items_wire(self.spec_items())
    }

    /// The list that `bytes` hold, or why they hold none.
    pub open spec fn spec_decode_items(bytes: Seq<u8>) -> Result<Self, ParameterDataError> {
        match spec_read_items::<Iso639_1<'a>>(bytes) {
            Some(items) => if items.len() <= 115 {
                Ok(Self::spec_of_items(items))
            } else {
                Err(ParameterDataError::MalformedData)
            },
            None => Err(ParameterDataError::MalformedData),
        }
    }

    /// Whether decoding the wire form gives the list back.
    pub open spec fn spec_items_encodable(self) -> bool {
        &&& self.wf()
        &&& forall|i: int| 0 <= i < self.spec_items().len() ==> #[trigger] self.spec_items()[i].spec_wire_valid()
    }

    /// Appends the wire form of the items to `out`.
    pub fn write_items_to(&self, out: &mut Vec<u8>)
        ensures
            final(out)@ == old(out)@ + self.spec_encode_items(),
    {
        write_items(self.as_slice(), out);
    }

    /// Reads the list that `buf` holds from `pos` on.
    pub fn decode_items(buf: &'a [u8], pos: usize) -> (r: Result<Self, ParameterDataError>)
        requires
            pos <= buf@.len(),
        ensures
            r == Self::spec_decode_items(buf@.subrange(pos as int, buf@.len() as int)),
    {
        match read_items::<Iso639_1<'a>>(buf, pos) {
            Some(items) => match Self::from_slice(items.as_slice()) {
                Some(l) => Ok(l),
                None => Err(ParameterDataError::MalformedData),
            },
            None => Err(ParameterDataError::MalformedData),
        }
    }

    /// The wire form holds the wire forms of at most 115 items.
    pub proof fn lemma_encode_items_len(self)
        requires
            self.wf(),
        ensures
            self.spec_encode_items().len() <= 230,
    {
        lemma_items_wire_len(self.spec_items());
        let n = self.spec_items().len();
        assert(n * 2 <= 230) by (nonlinear_arith) requires n <= 115;
    }

    /// Decoding the wire form of an encodable list gives it back.
    pub proof fn lemma_items_roundtrip(self)
        requires
            self.spec_items_encodable(),
        ensures
            Self::spec_decode_items(self.spec_encode_items()) == Ok::<Self, ParameterDataError>(self),
    {
        assert(<Iso639_1<'a> as FixedWire>::spec_size() > 0);
        lemma_items_roundtrip(self.spec_items());
        Self::lemma_of_own_items(self);
    }
}

impl DeviceUidList {
    /// The parameter data of a list holds the wire forms of its items, one after the other in
    /// their order: item `i` takes the bytes from `i * size` up to `(i + 1) * size`.
    pub proof fn lemma_items_layout(self, i: int)
        requires
            0 <= i < self.spec_items().len(),
        ensures
            self.spec_encode_items().len() == self.spec_items().len() * <DeviceUID as FixedWire>::spec_size(),
            self.spec_encode_items().subrange(i * <DeviceUID as FixedWire>::spec_size(), i * <DeviceUID as FixedWire>::spec_size() + <DeviceUID as FixedWire>::spec_size()) == self.spec_items()[i].spec_wire(),
    {
        lemma_items_wire_layout(self.spec_items(), i);
    }
}

impl ResponderList {
    /// The parameter data of a list holds the wire forms of its items, one after the other in
    /// their order: item `i` takes the bytes from `i * size` up to `(i + 1) * size`.
    pub proof fn lemma_items_layout(self, i: int)
        requires
            0 <= i < self.spec_items().len(),
        ensures
            self.spec_encode_items().len() == self.spec_items().len() * <DeviceUID as FixedWire>::spec_size(),
            self.spec_encode_items().subrange(i * <DeviceUID as FixedWire>::spec_size(), i * <DeviceUID as FixedWire>::spec_size() + <DeviceUID as FixedWire>::spec_size()) == self.spec_items()[i].spec_wire(),
    {
        lemma_items_wire_layout(self.spec_items(), i);
    }
}

impl ParameterIdList {
    /// The parameter data of a list holds the wire forms of its items, one after the other in
    /// their order: item `i` takes the bytes from `i * size` up to `(i + 1) * size`.
    pub proof fn lemma_items_layout(self, i: int)
        requires
            0 <= i < self.spec_items().len(),
        ensures
            self.spec_encode_items().len() == self.spec_items().len() * <ParameterId as FixedWire>::spec_size(),
            self.spec_encode_items().subrange(i * <ParameterId as FixedWire>::spec_size(), i * <ParameterId as FixedWire>::spec_size() + <ParameterId as FixedWire>::spec_size()) == self.spec_items()[i].spec_wire(),
    {
        lemma_items_wire_layout(self.spec_items(), i);
    }
}

impl ProductDetailList {
    /// The parameter data of a list holds the wire forms of its items, one after the other in
    /// their order: item `i` takes the bytes from `i * size` up to `(i + 1) * size`.
    pub proof fn lemma_items_layout(self, i: int)
        requires
            0 <= i < self.spec_items().len(),
        ensures
            self.spec_encode_items().len() == self.spec_items().len() * <ProductDetail as FixedWire>::spec_size(),
            self.spec_encode_items().subrange(i * <ProductDetail as FixedWire>::spec_size(), i * <ProductDetail as FixedWire>::spec_size() + <ProductDetail as FixedWire>::spec_size()) == self.spec_items()[i].spec_wire(),
    {
        lemma_items_wire_layout(self.spec_items(), i);
    }
}

impl SlotInfoList {
    /// The parameter data of a list holds the wire forms of its items, one after the other in
    /// their order: item `i` takes the bytes from `i * size` up to `(i + 1) * size`.
    pub proof fn lemma_items_layout(self, i: int)
        requires
            0 <= i < self.spec_items().len(),
        ensures
            self.spec_encode_items().len() == self.spec_items().len() * <SlotInfo as FixedWire>::spec_size(),
            self.spec_encode_items().subrange(i * <SlotInfo as FixedWire>::spec_size(), i * <SlotInfo as FixedWire>::spec_size() + <SlotInfo as FixedWire>::spec_size()) == self.spec_items()[i].spec_wire(),
    {
        lemma_items_wire_layout(self.spec_items(), i);
    }
}

impl DefaultSlotValueList {
    /// The parameter data of a list holds the wire forms of its items, one after the other in
    /// their order: item `i` takes the bytes from `i * size` up to `(i + 1) * size`.
    pub proof fn lemma_items_layout(self, i: int)
        requires
            0 <= i < self.spec_items().len(),
        ensures
            self.spec_encode_items().len() == self.spec_items().len() * <DefaultSlotValue as FixedWire>::spec_size(),
            self.spec_encode_items().subrange(i * <DefaultSlotValue as FixedWire>::spec_size(), i * <DefaultSlotValue as FixedWire>::spec_size() + <DefaultSlotValue as FixedWire>::spec_size()) == self.spec_items()[i].spec_wire(),
    {
        lemma_items_wire_layout(self.spec_items(), i);
    }
}

impl NetworkInterfaceList {
    /// The parameter data of a list holds the wire forms of its items, one after the other in
    /// their order: item `i` takes the bytes from `i * size` up to `(i + 1) * size`.
    pub proof fn lemma_items_layout(self, i: int)
        requires
            0 <= i < self.spec_items().len(),
        ensures
            self.spec_encode_items().len() == self.spec_items().len() * <NetworkInterface as FixedWire>::spec_size(),
            self.spec_encode_items().subrange(i * <NetworkInterface as FixedWire>::spec_size(), i * <NetworkInterface as FixedWire>::spec_size() + <NetworkInterface as FixedWire>::spec_size()) == self.spec_items()[i].spec_wire(),
    {
        lemma_items_wire_layout(self.spec_items(), i);
    }
}

impl EndpointEntryList {
    /// The parameter data of a list holds the wire forms of its items, one after the other in
    /// their order: item `i` takes the bytes from `i * size` up to `(i + 1) * size`.
    pub proof fn lemma_items_layout(self, i: int)
        requires
            0 <= i < self.spec_items().len(),
        ensures
            self.spec_encode_items().len() == self.spec_items().len() * <EndpointEntry as FixedWire>::spec_size(),
            self.spec_encode_items().subrange(i * <EndpointEntry as FixedWire>::spec_size(), i * <EndpointEntry as FixedWire>::spec_size() + <EndpointEntry as FixedWire>::spec_size()) == self.spec_items()[i].spec_wire(),
    {
        lemma_items_wire_layout(self.spec_items(), i);
    }
}

impl StatusMessageList {
    /// The parameter data of a list holds the wire forms of its items, one after the other in
    /// their order: item `i` takes the bytes from `i * size` up to `(i + 1) * size`.
    pub proof fn lemma_items_layout(self, i: int)
        requires
            0 <= i < self.spec_items().len(),
        ensures
            self.spec_encode_items().len() == self.spec_items().len() * <StatusMessage as FixedWire>::spec_size(),
            self.spec_encode_items().subrange(i * <StatusMessage as FixedWire>::spec_size(), i * <StatusMessage as FixedWire>::spec_size() + <StatusMessage as FixedWire>::spec_size()) == self.spec_items()[i].spec_wire(),
    {
        lemma_items_wire_layout(self.spec_items(), i);
    }
}

impl ParameterDataBuffer {
    /// The parameter data of a list holds the wire forms of its items, one after the other in
    /// their order: item `i` takes the bytes from `i * size` up to `(i + 1) * size`.
    pub proof fn lemma_items_layout(self, i: int)
        requires
            0 <= i < self.spec_items().len(),
        ensures
            self.spec_encode_items().len() == self.spec_items().len() * <u8 as FixedWire>::spec_size(),
            self.spec_encode_items().subrange(i * <u8 as FixedWire>::spec_size(), i * <u8 as FixedWire>::spec_size() + <u8 as FixedWire>::spec_size()) == self.spec_items()[i].spec_wire(),
    {
        lemma_items_wire_layout(self.spec_items(), i);
    }
}

} // verus!
