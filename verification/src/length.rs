//! The length that a response declares for its body.
//!
//! Where a server's headers can be relied on, a response is complete as
//! soon as its body is as long as the `Content-Length` header says. The
//! header is looked for in the metadata, by name and without regard to
//! case; its value is the run of digits after the colon and any blanks.

use crate::frame::crlf_crlf;
use crate::text::{
    find_bytes_before, first_index, has_substring, lemma_first_index, occurs_at, split_at_first,
};
use vstd::prelude::*;
use vstd::slice::slice_subrange;

verus! {

/// The lower-case form of an ASCII letter; any other byte as it is.
pub open spec fn ascii_lower(b: u8) -> u8 {
    if 65 <= b <= 90 {
        (b + 32) as u8
    } else {
        b
    }
}

/// The bytes with every ASCII letter in lower case.
pub open spec fn lowered(s: Seq<u8>) -> Seq<u8> {
    s.map_values(|b: u8| ascii_lower(b))
}

/// The bytes `\r\ncontent-length:`: the name of the header at the start of
/// a line.
pub open spec fn length_header_name() -> Seq<u8> {
    seq![
        13u8,
        10u8,
        99u8,
        111u8,
        110u8,
        116u8,
        101u8,
        110u8,
        116u8,
        45u8,
        108u8,
        101u8,
        110u8,
        103u8,
        116u8,
        104u8,
        58u8,
    ]
}

/// A space or a tab.
pub open spec fn is_blank(b: u8) -> bool {
    b == 32 || b == 9
}

/// A decimal digit.
pub open spec fn is_digit(b: u8) -> bool {
    48 <= b <= 57
}

/// Where the run of blanks that starts at `i` ends.
pub open spec fn blanks_end(s: Seq<u8>, i: int) -> int
    decreases s.len() - i,
{
    if 0 <= i < s.len() && is_blank(s[i]) {
        blanks_end(s, i + 1)
    } else {
        i
    }
}

/// Where the run of digits that starts at `i` ends.
pub open spec fn digits_end(s: Seq<u8>, i: int) -> int
    decreases s.len() - i,
{
    if 0 <= i < s.len() && is_digit(s[i]) {
        digits_end(s, i + 1)
    } else {
        i
    }
}

/// The number that a run of digits writes.
pub open spec fn digits_value(s: Seq<u8>) -> nat
    decreases s.len(),
{
    if s.len() == 0 {
        0
    } else {
        digits_value(s.drop_last()) * 10 + (s.last() - 48) as nat
    }
}

/// The length that the metadata of a response declares: the number after
/// the first `Content-Length:` that starts a line. There is none where no
/// line starts so, where no digit follows, or where the number does not fit
/// in 64 bits.
pub open spec fn declared_length(metadata: Seq<u8>) -> Option<u64> {
    if has_substring(lowered(metadata), length_header_name()) {
        let from = blanks_end(
            metadata,
            first_index(lowered(metadata), length_header_name()) + length_header_name().len(),
        );
        let to = digits_end(metadata, from);
        if from < to && digits_value(metadata.subrange(from, to)) <= u64::MAX {
            Some(digits_value(metadata.subrange(from, to)) as u64)
        } else {
            None
        }
    } else {
        None
    }
}

/// The buffer holds a whole response by its own account: it has a blank
/// line, its metadata declares a length, and its body is at least that long.
pub open spec fn has_declared_length(raw: Seq<u8>) -> bool {
    match split_at_first(raw, crlf_crlf()) {
        Some(parts) => match declared_length(parts.0) {
            Some(n) => parts.1.len() >= n,
            None => false,
        },
        None => false,
    }
}

/// A run of digits ends at or after its start and within the bytes, and
/// holds digits only.
pub proof fn lemma_digits_end(s: Seq<u8>, i: int)
    requires
        0 <= i <= s.len(),
    ensures
        i <= digits_end(s, i) <= s.len(),
        forall|j: int| i <= j < digits_end(s, i) ==> is_digit(#[trigger] s[j]),
    decreases s.len() - i,
{
    if i < s.len() && is_digit(s[i]) {
        lemma_digits_end(s, i + 1);
    }
}

/// A run of blanks ends at or after its start and within the bytes.
pub proof fn lemma_blanks_end(s: Seq<u8>, i: int)
    requires
        0 <= i <= s.len(),
    ensures
        i <= blanks_end(s, i) <= s.len(),
    decreases s.len() - i,
{
    if i < s.len() && is_blank(s[i]) {
        lemma_blanks_end(s, i + 1);
    }
}

/// A run of digits writes no smaller a number than any of its beginnings.
pub proof fn lemma_digits_value_grows(s: Seq<u8>, from: int, mid: int, to: int)
    requires
        0 <= from <= mid <= to <= s.len(),
        forall|j: int| from <= j < to ==> is_digit(#[trigger] s[j]),
    ensures
        digits_value(s.subrange(from, mid)) <= digits_value(s.subrange(from, to)),
    decreases to - mid,
{
    if mid < to {
        lemma_digits_value_grows(s, from, mid, to - 1);
        assert(s.subrange(from, to).drop_last() =~= s.subrange(from, to - 1));
    }
}

/// The length that the metadata of a response declares.
pub fn content_length(metadata: &[u8]) -> (r: Option<u64>)
    ensures
        r == declared_length(metadata@),
{
    let name: [u8; 17] = [13, 10, 99, 111, 110, 116, 101, 110, 116, 45, 108, 101, 110, 103, 116, 104, 58];
    assert(name@ =~= length_header_name());
    let len: usize = metadata.len();
    let mut low: Vec<u8> = Vec::new();
    let mut i: usize = 0;
    while i < len
        invariant
            i <= len,
            len == metadata.len(),
            low@ == lowered(metadata@.take(i as int)),
        decreases len - i,
    {
        let b = metadata[i];
        let c: u8 = if 65 <= b && b <= 90 {
            b + 32
        } else {
            b
        };
        low.push(c);
        i += 1;
        assert(low@ =~= lowered(metadata@.take(i as int)));
    }
    assert(metadata@.take(len as int) == metadata@);
    let at = match find_bytes_before(low.as_slice(), name.as_slice(), len) {
        None => {
            assert forall|j: int| !occurs_at(low@, length_header_name(), j) by {}
            return None;
        },
        Some(at) => at,
    };
    proof {
        lemma_first_index(low@, length_header_name(), at as int);
        assert(occurs_at(low@, length_header_name(), at as int));
        lemma_blanks_end(metadata@, at + 17);
    }
    let mut k: usize = at + 17;
    while k < len && (metadata[k] == 32 || metadata[k] == 9)
        invariant
            at + 17 <= k <= len,
            len == metadata.len(),
            blanks_end(metadata@, at + 17) == blanks_end(metadata@, k as int),
        decreases len - k,
    {
        k += 1;
    }
    let from: usize = k;
    let mut value: u64 = 0;
    proof {
        lemma_digits_end(metadata@, from as int);
        assert(metadata@.subrange(from as int, from as int) =~= Seq::<u8>::empty());
    }
    while k < len && 48 <= metadata[k] && metadata[k] <= 57
        invariant
            from <= k <= len,
            len == metadata.len(),
            from == blanks_end(metadata@, at + 17),
            digits_end(metadata@, from as int) == digits_end(metadata@, k as int),
            forall|j: int| from <= j < k ==> is_digit(#[trigger] metadata@[j]),
            value == digits_value(metadata@.subrange(from as int, k as int)),
            first_index(lowered(metadata@), length_header_name()) == at,
            has_substring(lowered(metadata@), length_header_name()),
        decreases len - k,
    {
        let d: u64 = (metadata[k] - 48) as u64;
        proof {
            assert(metadata@.subrange(from as int, k + 1).drop_last() =~= metadata@.subrange(
                from as int,
                k as int,
            ));
            assert(digits_value(metadata@.subrange(from as int, k + 1)) == value * 10 + d);
        }
        if value > (u64::MAX - d) / 10 {
            proof {
                let to = digits_end(metadata@, from as int);
                lemma_digits_end(metadata@, from as int);
                lemma_digits_end(metadata@, k + 1);
                lemma_digits_value_grows(metadata@, from as int, k + 1, to);
            }
            return None;
        }
        value = value * 10 + d;
        k += 1;
    }
    if k > from {
        Some(value)
    } else {
        None
    }
}

/// Whether the buffer holds a whole response by its own account.
pub fn is_length_complete(raw: &[u8]) -> (r: bool)
    ensures
        r == has_declared_length(raw@),
{
    let sep: [u8; 4] = [13, 10, 13, 10];
    assert(sep@ =~= crlf_crlf());
    match find_bytes_before(raw, sep.as_slice(), raw.len()) {
        None => {
            assert forall|j: int| !occurs_at(raw@, crlf_crlf(), j) by {}
            false
        },
        Some(i) => {
            proof {
                lemma_first_index(raw@, crlf_crlf(), i as int);
                assert(occurs_at(raw@, crlf_crlf(), i as int));
            }
            let body_len: usize = raw.len() - (i + 4);
            assert(raw@.skip(i + 4).len() == body_len);
            match content_length(slice_subrange(raw, 0, i)) {
                Some(n) => body_len as u64 >= n,
                None => false,
            }
        },
    }
}

} // verus!
