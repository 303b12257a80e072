//! Advertising-data elements: self-length-prefixed chunks of broadcast data.

use vstd::prelude::*;

use crate::bytes::ByteWriter;
use crate::error::Error;

verus! {

/// The AD type code of the "Flags" element.
pub const AD_TYPE_FLAGS: u8 = 0x01;

/// Flag bits of a plain broadcast: BR/EDR not supported.
pub const FLAGS_BROADCAST: u8 = 0x04;

/// Flag bits of a discoverable device: LE general discoverable mode plus
/// BR/EDR not supported.
pub const FLAGS_DISCOVERABLE: u8 = 0x06;

/// One advertising-data element, held in its on-air encoding: a length
/// octet (counting the AD type and the data), the AD type octet, then the
/// data itself.
#[derive(Clone, Debug)]
pub struct AdStructure {
    encoded: Vec<u8>,
}

impl View for AdStructure {
    type V = Seq<u8>;

    /// The element's full on-air encoding.
    closed spec fn view(&self) -> Seq<u8> {
        self.encoded@
    }
}

impl AdStructure {
    /// The encoding is self-describing: at least the length and AD-type
    /// octets, and the leading octet counts every following byte.
    pub open spec fn wf(self) -> bool {
        &&& 2 <= self@.len() <= 255
        &&& self@[0] == self@.len() - 1
    }

    /// Creates an element of the given AD type carrying `data`.
    pub fn new(ad_type: u8, data: &[u8]) -> (ad: AdStructure)
        requires
            data@.len() <= 253,
        ensures
            ad@ == seq![(data@.len() + 1) as u8, ad_type] + data@,
            ad.wf(),
    {
        let mut encoded: Vec<u8> = Vec::new();
        encoded.push((data.len() + 1) as u8);
        encoded.push(ad_type);
        let mut i: usize = 0;
        while i < data.len()
            invariant
                i <= data@.len(),
                data@.len() <= 253,
                encoded@ == seq![(data@.len() + 1) as u8, ad_type] + data@.subrange(0, i as int),
            decreases data@.len() - i,
        {
            encoded.push(data[i]);
            proof {
                assert(encoded@ =~= seq![(data@.len() + 1) as u8, ad_type] + data@.subrange(
                    0,
                    i + 1,
                ));
            }
            i += 1;
        }
        proof {
            assert(encoded@ =~= seq![(data@.len() + 1) as u8, ad_type] + data@);
        }
        AdStructure { encoded }
    }

    /// The mandatory "Flags" element of a plain broadcast: three bytes, a
    /// length octet of 2, the Flags AD type, and the broadcast flag bits.
    pub fn flags_broadcast() -> (ad: AdStructure)
        ensures
            ad@ == seq![2u8, AD_TYPE_FLAGS, FLAGS_BROADCAST],
            ad.wf(),
    {
        let mut encoded: Vec<u8> = Vec::new();
        encoded.push(2);
        encoded.push(AD_TYPE_FLAGS);
        encoded.push(FLAGS_BROADCAST);
        proof {
            assert(encoded@ =~= seq![2u8, AD_TYPE_FLAGS, FLAGS_BROADCAST]);
        }
        AdStructure { encoded }
    }

    /// The mandatory "Flags" element of a device advertising general
    /// discoverability: three bytes, a length octet of 2, the Flags AD type,
    /// and the discoverability flag bits.
    pub fn flags_discoverable() -> (ad: AdStructure)
        ensures
            ad@ == seq![2u8, AD_TYPE_FLAGS, FLAGS_DISCOVERABLE],
            ad.wf(),
    {
        let mut encoded: Vec<u8> = Vec::new();
        encoded.push(2);
        encoded.push(AD_TYPE_FLAGS);
        encoded.push(FLAGS_DISCOVERABLE);
        proof {
            assert(encoded@ =~= seq![2u8, AD_TYPE_FLAGS, FLAGS_DISCOVERABLE]);
        }
        AdStructure { encoded }
    }

    /// Serializes the element into the bounded writer: appended whole if it
    /// fits, otherwise the writer is untouched and the capacity error is
    /// reported.
    pub fn to_bytes(&self, writer: &mut ByteWriter) -> (r: Result<(), Error>)
        requires
            old(writer).wf(),
        ensures
            final(writer).wf(),
            final(writer).spec_cap() == old(writer).spec_cap(),
            old(writer).written().len() + self@.len() <= old(writer).spec_cap() ==> {
                &&& r is Ok
                &&& final(writer).written() == old(writer).written() + self@
            },
            old(writer).written().len() + self@.len() > old(writer).spec_cap() ==> {
                &&& (r matches Err(e) && e is CapacityExceeded)
                &&& final(writer).written() == old(writer).written()
            },
    {
        writer.write_slice(self.encoded.as_slice())
    }
}

/// The bytes a whole sequence of elements serializes to: each element's
/// encoding, back to back, in order.
pub open spec fn encoding_of(elems: Seq<AdStructure>) -> Seq<u8>
    decreases elems.len(),
{
    if elems.len() == 0 {
        Seq::empty()
    } else {
        elems.first()@ + encoding_of(elems.drop_first())
    }
}

/// Extending the serialized prefix by one element appends exactly that
/// element's encoding.
pub proof fn lemma_encoding_of_take_succ(elems: Seq<AdStructure>, i: int)
    requires
        0 <= i < elems.len(),
    ensures
        encoding_of(elems.take(i + 1)) == encoding_of(elems.take(i)) + elems[i]@,
    decreases i,
{
    if i == 0 {
        let t = elems.take(1);
        assert(t.first() == elems[0]);
        assert(t.drop_first() =~= Seq::<AdStructure>::empty());
        assert(encoding_of(t) == elems[0]@ + encoding_of(Seq::<AdStructure>::empty()));
        assert(elems[0]@ + Seq::<u8>::empty() =~= elems[0]@);
        assert(elems.take(0).len() == 0);
        assert(encoding_of(elems.take(0)) + elems[0]@ =~= elems[0]@);
    } else {
        let tail = elems.drop_first();
        assert(elems.take(i + 1).drop_first() =~= tail.take(i));
        assert(elems.take(i).drop_first() =~= tail.take(i - 1));
        lemma_encoding_of_take_succ(tail, i - 1);
        assert(elems.take(i + 1).first() == elems.first());
        assert(elems.take(i).first() == elems.first());
        assert(encoding_of(elems.take(i + 1)) == elems.first()@ + encoding_of(tail.take(i)));
        assert(encoding_of(elems.take(i)) == elems.first()@ + encoding_of(tail.take(i - 1)));
        assert(tail[i - 1] == elems[i]);
        assert(elems.first()@ + (encoding_of(tail.take(i - 1)) + tail[i - 1]@) =~= (elems.first()@
            + encoding_of(tail.take(i - 1))) + elems[i]@);
    }
}

/// Serializing more elements never takes fewer bytes: the encoding of a
/// prefix is never longer than the encoding of the whole sequence.
pub proof fn lemma_encoding_of_take_len_le(elems: Seq<AdStructure>, i: int)
    requires
        0 <= i <= elems.len(),
    ensures
        encoding_of(elems.take(i)).len() <= encoding_of(elems).len(),
    decreases elems.len() - i,
{
    if i == elems.len() {
        assert(elems.take(i) =~= elems);
    } else {
        lemma_encoding_of_take_succ(elems, i);
        lemma_encoding_of_take_len_le(elems, i + 1);
    }
}

} // verus!
