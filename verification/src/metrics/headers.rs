//! The size of a header block: the bytes of every name and every value.

use http::header::{HeaderMap, HeaderValue};
use vstd::prelude::*;

verus! {

#[verifier::external_type_specification]
#[verifier::external_body]
#[verifier::reject_recursive_types(T)]
pub struct ExHeaderMap<T>(HeaderMap<T>);

#[verifier::external_type_specification]
#[verifier::external_body]
pub struct ExHeaderValue(HeaderValue);

/// What a header map holds, as far as its size goes: for each name and value
/// pair that iterating over the map yields, in that order, the length of the
/// name and the length of the value, in bytes. A name with several values
/// counts once for each of them.
pub uninterp spec fn header_lengths(headers: HeaderMap<HeaderValue>) -> Seq<(usize, usize)>;

/// `HeaderMap::iter`, with `HeaderName::as_str` and `HeaderValue::as_bytes` on
/// each pair it yields: hands out the lengths that `header_lengths` names.
#[verifier::external_body]
fn collect_lengths(headers: &HeaderMap<HeaderValue>) -> (lengths: Vec<(usize, usize)>)
    ensures
        lengths@ == header_lengths(*headers),
{
    headers.iter().map(|(name, value)| (name.as_str().len(), value.as_bytes().len())).collect()
}

/// The bytes of a header block whose names and values have these lengths.
pub open spec fn total_length(lengths: Seq<(usize, usize)>) -> nat
    decreases lengths.len(),
{
    if lengths.len() == 0 {
        0
    } else {
        total_length(lengths.drop_last()) + lengths.last().0 as nat + lengths.last().1 as nat
    }
}

/// A byte count as a `usize` holds it: itself where it fits, else the
/// largest `usize`.
pub open spec fn saturated(bytes: nat) -> usize {
    if bytes <= usize::MAX {
        bytes as usize
    } else {
        usize::MAX
    }
}

/// Adds up the lengths of names and values, stopping at the largest
/// `usize`.
pub fn sum_lengths(lengths: &Vec<(usize, usize)>) -> (size: usize)
    ensures
        size == saturated(total_length(lengths@)),
{
    let mut size: usize = 0;
    let mut i: usize = 0;
    while i < lengths.len()
        invariant
            i <= lengths.len(),
            size == saturated(total_length(lengths@.take(i as int))),
        decreases lengths.len() - i,
    {
        let name: usize = lengths[i].0;
        let value: usize = lengths[i].1;
        proof {
            assert(lengths@.take(i + 1).drop_last() == lengths@.take(i as int));
        }
        size = size.saturating_add(name).saturating_add(value);
        i += 1;
    }
    proof {
        assert(lengths@.take(i as int) == lengths@);
    }
    size
}

/// The byte size of a header block: the sum, over all its headers, of the
/// length of the name and the length of the value. The result stops at the
/// largest `usize`.
pub fn header_size(headers: &HeaderMap<HeaderValue>) -> (size: usize)
    ensures
        size == saturated(total_length(header_lengths(*headers))),
{
    let lengths = collect_lengths(headers);
    sum_lengths(&lengths)
}

} // verus!
