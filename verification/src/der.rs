//! How deep the elements of a DER encoding nest. A reader that follows the
//! nesting with one call per level needs stack for every level, so the depth
//! of a text from outside is measured before such a reader gets it.
//!
//! An element is a tag, a length and a body of that length. The body of a
//! sequence, of a set and of a constructed element of another class is
//! itself a series of elements.

use vstd::prelude::*;

verus! {

/// The position after a tag number in the long form, which starts at `q`:
/// the number ends with the first byte below 128.
pub open spec fn long_tag_end(bytes: Seq<u8>, q: int, end: int) -> Option<int>
    decreases end - q,
{
    if q >= end || q < 0 {
        None
    } else if bytes[q] < 128 {
        Some(q + 1)
    } else {
        long_tag_end(bytes, q + 1, end)
    }
}

/// The position after the tag that starts at `index`. A tag is one byte,
/// unless its low five bits are all set: its number then follows in the
/// long form.
pub open spec fn tag_end(bytes: Seq<u8>, index: int, end: int) -> Option<int> {
    if index >= end || index < 0 {
        None
    } else if bytes[index] % 32 == 31 {
        long_tag_end(bytes, index + 1, end)
    } else {
        Some(index + 1)
    }
}

/// The number that the `count` bytes from `start` on spell, the first byte
/// counting most.
pub open spec fn big_endian(bytes: Seq<u8>, start: int, count: nat) -> nat
    decreases count,
{
    if count == 0 {
        0
    } else {
        big_endian(bytes, start, (count - 1) as nat) * 256 + bytes[start + count - 1] as nat
    }
}

/// Where the body of the element at `index` starts and how long it is, for
/// an element that lies within `end`. A length below 128 is one byte; else
/// the byte, less 128, says how many bytes spell the length, eight at most.
pub open spec fn element_at(bytes: Seq<u8>, index: int, end: int) -> Option<(int, int)> {
    match tag_end(bytes, index, end) {
        None => None,
        Some(q) => if q >= end {
            None
        } else if bytes[q] < 128 {
            if q + 1 + bytes[q] <= end {
                Some((q + 1, bytes[q] as int))
            } else {
                None
            }
        } else {
            let count = (bytes[q] - 128) as nat;
            if count <= 8 && q + 1 + count + big_endian(bytes, q + 1, count) <= end {
                Some((q + 1 + count, big_endian(bytes, q + 1, count) as int))
            } else {
                None
            }
        },
    }
}

/// Whether the body of an element with this first tag byte is read as a
/// series of elements: a sequence or a set of the universal class, whose
/// tag number is 16 or 17, and a constructed element of any other class. A
/// universal tag in the long form counts as well, whatever its number.
pub open spec fn is_nested(first: u8) -> bool {
    if first / 64 == 0 {
        first % 32 == 16 || first % 32 == 17 || first % 32 == 31
    } else {
        (first / 32) % 2 == 1
    }
}

/// How deep the series of elements from `index` up to `end` nests: 0 where
/// no element of the series has elements in its body. An element that does
/// not lie within `end` ends the series.
pub open spec fn nesting(bytes: Seq<u8>, index: int, end: int) -> nat
    decreases end - index,
{
    match element_at(bytes, index, end) {
        None => 0,
        Some((body, len)) => if index < body && 0 <= len && body + len <= end {
            let below = if is_nested(bytes[index]) {
                1 + nesting(bytes, body, body + len)
            } else {
                0
            };
            let after = nesting(bytes, body + len, end);
            if below >= after {
                below
            } else {
                after
            }
        } else {
            0
        },
    }
}

/// A longer run of length bytes spells no smaller a number.
proof fn lemma_big_endian_grows(bytes: Seq<u8>, start: int, shorter: nat, longer: nat)
    requires
        shorter <= longer,
    ensures
        big_endian(bytes, start, shorter) <= big_endian(bytes, start, longer),
    decreases longer,
{
    if shorter < longer {
        lemma_big_endian_grows(bytes, start, shorter, (longer - 1) as nat);
        assert(big_endian(bytes, start, (longer - 1) as nat) * 256 >= big_endian(
            bytes,
            start,
            (longer - 1) as nat,
        )) by (nonlinear_arith);
    }
}

/// Finds the end of the tag that starts at `index`.
fn skip_tag(bytes: &[u8], index: usize, end: usize) -> (r: Option<usize>)
    requires
        index <= end <= bytes.len(),
    ensures
        match r {
            Some(q) => tag_end(bytes@, index as int, end as int) == Some(q as int) && index < q
                <= end,
            None => tag_end(bytes@, index as int, end as int) is None,
        },
{
    if index >= end {
        return None;
    }
    if bytes[index] % 32 != 31 {
        return Some(index + 1);
    }
    let mut q: usize = index + 1;
    while q < end
        invariant
            index < q <= end <= bytes.len(),
            bytes@[index as int] % 32 == 31,
            long_tag_end(bytes@, index + 1, end as int) == long_tag_end(
                bytes@,
                q as int,
                end as int,
            ),
        decreases end - q,
    {
        assert(long_tag_end(bytes@, q as int, end as int) == if bytes@[q as int] < 128 {
            Some(q + 1)
        } else {
            long_tag_end(bytes@, q + 1, end as int)
        });
        if bytes[q] < 128 {
            return Some(q + 1);
        }
        q = q + 1;
    }
    assert(long_tag_end(bytes@, q as int, end as int) is None);
    None
}

/// Reads the tag and the length of the element at `index`. Gives the start
/// and the length of its body where the element lies within `end`.
fn read_element(bytes: &[u8], index: usize, end: usize) -> (r: Option<(usize, usize)>)
    requires
        index <= end <= bytes.len(),
    ensures
        match r {
            Some((body, len)) => element_at(bytes@, index as int, end as int) == Some(
                (body as int, len as int),
            ) && index < body && body + len <= end,
            None => element_at(bytes@, index as int, end as int) is None,
        },
{
    let q = match skip_tag(bytes, index, end) {
        None => {
            return None;
        },
        Some(q) => q,
    };
    if q >= end {
        return None;
    }
    let first = bytes[q];
    if first < 128 {
        let len = first as usize;
        if len > end - (q + 1) {
            return None;
        }
        return Some((q + 1, len));
    }
    let count = (first - 128) as usize;
    if count > 8 || count > end - (q + 1) {
        proof {
            if count <= 8 {
                assert(q + 1 + count > end);
            }
        }
        return None;
    }
    let body = q + 1 + count;
    let room = (end - body) as u128;
    let mut value: u128 = 0;
    let mut i: usize = 0;
    while i < count
        invariant
            i <= count <= 8,
            tag_end(bytes@, index as int, end as int) == Some(q as int),
            q < end,
            bytes@[q as int] == count + 128,
            q + 1 + count == body <= end <= bytes.len(),
            room == end - body,
            value == big_endian(bytes@, q + 1, i as nat),
            value <= room,
        decreases count - i,
    {
        value = value * 256 + bytes[q + 1 + i] as u128;
        i = i + 1;
        assert(value == big_endian(bytes@, q + 1, i as nat));
        if value > room {
            proof {
                lemma_big_endian_grows(bytes@, q + 1, i as nat, count as nat);
            }
            return None;
        }
    }
    Some((body, value as usize))
}

/// Whether the series of elements from `start` up to `end` nests no deeper
/// than `limit`. It follows the nesting itself no deeper than that.
pub fn nests_within(bytes: &[u8], start: usize, end: usize, limit: usize) -> (within: bool)
    requires
        start <= end <= bytes.len(),
    ensures
        within == (nesting(bytes@, start as int, end as int) <= limit),
    decreases end - start,
{
    let mut index = start;
    while index < end
        invariant
            start <= index <= end <= bytes.len(),
            (nesting(bytes@, start as int, end as int) <= limit) == (nesting(
                bytes@,
                index as int,
                end as int,
            ) <= limit),
        decreases end - index,
    {
        match read_element(bytes, index, end) {
            None => {
                return true;
            },
            Some((body, len)) => {
                if is_nested_tag(bytes[index]) {
                    if limit == 0 {
                        return false;
                    }
                    if !nests_within(bytes, body, body + len, limit - 1) {
                        return false;
                    }
                }
                index = body + len;
            },
        }
    }
    true
}

/// Whether an element with this first tag byte has elements in its body.
pub fn is_nested_tag(first: u8) -> (nested: bool)
    ensures
        nested == is_nested(first),
{
    if first / 64 == 0 {
        first % 32 == 16 || first % 32 == 17 || first % 32 == 31
    } else {
        (first / 32) % 2 == 1
    }
}

/// Whether a DER encoding nests no deeper than `limit`.
pub fn is_shallow(der: &[u8], limit: usize) -> (shallow: bool)
    ensures
        shallow == (nesting(der@, 0, der@.len() as int) <= limit),
{
    nests_within(der, 0, der.len(), limit)
}

} // verus!
