//! Decoding of an advertising payload into its elements.
//!
//! The payload is a run of elements. Each starts with a length byte, which
//! counts the bytes after it; then comes a byte for the kind of element and
//! the element's data.

use super::adtype::Adtype;
use vstd::prelude::*;
use vstd::slice::slice_subrange;

verus! {

/// One element of an advertising payload.
#[derive(Debug)]
pub struct AdvertisingData<'t> {
    /// The element's length byte: the kind byte and the data, counted.
    pub length: usize,
    pub adtype: Adtype,
    pub data: &'t [u8],
}

/// One element of an advertising payload, as a mathematical value.
pub struct AdElement {
    pub length: nat,
    pub adtype: Adtype,
    pub data: Seq<u8>,
}

impl<'t> View for AdvertisingData<'t> {
    type V = AdElement;

    open spec fn view(&self) -> AdElement {
        AdElement { length: self.length as nat, adtype: self.adtype, data: self.data@ }
    }
}

/// The elements that a sequence of decoded values stands for.
pub open spec fn elements_of(ads: Seq<AdvertisingData>) -> Seq<AdElement> {
    Seq::new(ads.len(), |i: int| ads[i]@)
}

/// The elements of a payload, or `None` where the payload is malformed: a
/// length byte of zero, an element that runs past the end of the payload,
/// or a kind that is not assigned.
pub open spec fn decoded(bytes: Seq<u8>) -> Option<Seq<AdElement>>
    decreases bytes.len(),
{
    if bytes.len() == 0 {
        Some(Seq::empty())
    } else {
        let length = bytes[0] as int;
        if length == 0 || bytes.len() < 1 + length {
            None
        } else {
            match (Adtype::of_code(bytes[1]), decoded(bytes.skip(1 + length))) {
                (Some(adtype), Some(rest)) => Some(
                    seq![
                        AdElement {
                            length: length as nat,
                            adtype,
                            data: bytes.subrange(2, 1 + length),
                        },
                    ] + rest,
                ),
                _ => None,
            }
        }
    }
}

/// The bytes that a run of elements takes up: for each its length byte and
/// what that byte counts.
pub open spec fn encoded_len(elements: Seq<AdElement>) -> nat
    decreases elements.len(),
{
    if elements.len() == 0 {
        0
    } else {
        1 + elements[0].length + encoded_len(elements.skip(1))
    }
}

/// `elements` put in front of what the rest of a payload decodes to.
pub open spec fn followed_by(elements: Seq<AdElement>, rest: Option<Seq<AdElement>>) -> Option<
    Seq<AdElement>,
> {
    match rest {
        Some(more) => Some(elements + more),
        None => None,
    }
}

impl<'t> AdvertisingData<'t> {
    /// The name of the element's kind.
    pub fn kind_name(&self) -> (r: String)
        ensures
            r@ == self.adtype.name(),
    {
        self.adtype.to_string()
    }
}

/// Decodes an advertising payload. The result is `None` for a malformed
/// payload, never a part of its elements.
pub fn parse_ad(data: &[u8]) -> (r: Option<Vec<AdvertisingData<'_>>>)
    ensures
        match r {
            Some(ads) => decoded(data@) == Some(elements_of(ads@)),
            None => decoded(data@) is None,
        },
{
    let mut idx: usize = 0;
    let mut vec: Vec<AdvertisingData<'_>> = Vec::new();
    proof {
        assert(data@.skip(0) == data@);
        if let Some(all) = decoded(data@) {
            assert(elements_of(vec@) + all == all);
        }
    }
    while idx < data.len()
        invariant
            idx <= data@.len(),
            decoded(data@) == followed_by(elements_of(vec@), decoded(data@.skip(idx as int))),
        decreases data@.len() - idx,
    {
        let ghost tail = data@.skip(idx as int);
        let ghost before = elements_of(vec@);
        let ad_length: usize = data[idx] as usize;
        assert(tail[0] == data@[idx as int]);
        if ad_length == 0 || data.len() - idx < 1 + ad_length {
            return None;
        }
        let ad_type: u8 = data[idx + 1];
        assert(tail[1] == data@[idx + 1]);
        let adtype = match Adtype::from_u8(ad_type) {
            Some(t) => t,
            None => {
                return None;
            },
        };
        let ad_data = slice_subrange(data, idx + 2, idx + 1 + ad_length);
        vec.push(AdvertisingData { length: ad_length, adtype, data: ad_data });
        proof {
            let element = AdElement {
                length: ad_length as nat,
                adtype,
                data: tail.subrange(2, 1 + ad_length),
            };
            assert(tail.subrange(2, 1 + ad_length) == data@.subrange(
                idx + 2,
                idx + 1 + ad_length,
            ));
            assert(tail.skip(1 + ad_length) == data@.skip(idx + 1 + ad_length));
            assert(elements_of(vec@) == before + seq![element]);
            let rest = decoded(data@.skip(idx + 1 + ad_length));
            if rest is Some {
                assert(before + (seq![element] + rest.unwrap()) == (before + seq![element])
                    + rest.unwrap());
            }
        }
        idx = idx + 1 + ad_length;
    }
    proof {
        assert(data@.skip(idx as int).len() == 0);
        assert(elements_of(vec@) + Seq::<AdElement>::empty() == elements_of(vec@));
    }
    Some(vec)
}

/// Decoding depends on the bytes alone: equal payloads have equal elements,
/// however often they are decoded.
pub proof fn equal_payloads_decode_alike(first: Seq<u8>, second: Seq<u8>)
    requires
        first =~= second,
    ensures
        decoded(first) == decoded(second),
{
}

/// A payload that decodes is used up by its elements: the length bytes and
/// what they count add up to the length of the payload.
pub proof fn elements_account_for_every_byte(bytes: Seq<u8>)
    requires
        decoded(bytes) is Some,
    ensures
        encoded_len(decoded(bytes).unwrap()) == bytes.len(),
    decreases bytes.len(),
{
    if bytes.len() > 0 {
        let length = bytes[0] as int;
        let rest = decoded(bytes.skip(1 + length)).unwrap();
        elements_account_for_every_byte(bytes.skip(1 + length));
        let all = decoded(bytes).unwrap();
        assert(all.skip(1) == rest);
    }
}

/// In a payload that decodes, every element's length byte counts the kind
/// byte and the data, and is never zero.
pub proof fn length_counts_kind_and_data(bytes: Seq<u8>, i: int)
    requires
        decoded(bytes) is Some,
        0 <= i < decoded(bytes).unwrap().len(),
    ensures
        decoded(bytes).unwrap()[i].length == 1 + decoded(bytes).unwrap()[i].data.len(),
    decreases bytes.len(),
{
    if bytes.len() > 0 {
        let length = bytes[0] as int;
        if i > 0 {
            length_counts_kind_and_data(bytes.skip(1 + length), i - 1);
        }
    }
}

/// A payload made of a part that decodes and any further bytes decodes to
/// the elements of the first part followed by those of the second, and
/// fails where the second part fails.
pub proof fn decoding_goes_part_by_part(head: Seq<u8>, tail: Seq<u8>)
    requires
        decoded(head) is Some,
    ensures
        decoded(head + tail) == followed_by(decoded(head).unwrap(), decoded(tail)),
    decreases head.len(),
{
    if head.len() == 0 {
        assert(head + tail == tail);
        if let Some(more) = decoded(tail) {
            assert(Seq::<AdElement>::empty() + more == more);
        }
    } else {
        let length = head[0] as int;
        let whole = head + tail;
        assert(whole.skip(1 + length) == head.skip(1 + length) + tail);
        assert(whole.subrange(2, 1 + length) == head.subrange(2, 1 + length));
        decoding_goes_part_by_part(head.skip(1 + length), tail);
        let first = AdElement {
            length: length as nat,
            adtype: Adtype::of_code(head[1]).unwrap(),
            data: head.subrange(2, 1 + length),
        };
        let mid = decoded(head.skip(1 + length)).unwrap();
        if let Some(more) = decoded(tail) {
            assert(seq![first] + (mid + more) == (seq![first] + mid) + more);
        }
    }
}

/// A length byte of zero where an element should start makes the whole
/// payload fail.
pub proof fn zero_length_is_rejected(head: Seq<u8>, tail: Seq<u8>)
    requires
        decoded(head) is Some,
        tail.len() > 0,
        tail[0] == 0,
    ensures
        decoded(head + tail) is None,
{
    decoding_goes_part_by_part(head, tail);
}

/// An element cut short, whose length byte counts more bytes than the
/// payload still holds, makes the whole payload fail.
pub proof fn overrun_is_rejected(head: Seq<u8>, tail: Seq<u8>)
    requires
        decoded(head) is Some,
        tail.len() > 0,
        tail.len() < 1 + tail[0],
    ensures
        decoded(head + tail) is None,
{
    decoding_goes_part_by_part(head, tail);
}

/// An element of a kind that is not assigned makes the whole payload fail.
pub proof fn unassigned_kind_is_rejected(head: Seq<u8>, tail: Seq<u8>)
    requires
        decoded(head) is Some,
        tail.len() >= 2,
        Adtype::of_code(tail[1]) is None,
    ensures
        decoded(head + tail) is None,
{
    decoding_goes_part_by_part(head, tail);
}

} // verus!
