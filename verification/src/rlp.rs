//! Recursive-length-prefix encoding of byte strings, numbers and lists.

use crate::big_endian::{
    be_bytes, be_value, lemma_be_bytes_len, trim_leading_zeros, u64_to_be_bytes,
};
use vstd::prelude::*;

verus! {

/// First byte of the header of a byte string with an empty payload.
pub const STRING_OFFSET: u8 = 0x80;

/// First byte of the header of a list with an empty payload.
pub const LIST_OFFSET: u8 = 0xc0;

/// The header that announces a payload of `len` bytes. A payload of at most 55 bytes
/// has a header of one byte, `offset + len`. A longer one has `offset + 55` plus the
/// number of bytes of `len`, followed by `len` itself in the shortest big-endian form.
pub open spec fn rlp_header(offset: u8, len: nat) -> Seq<u8> {
    if len <= 55 {
        seq![(offset + len) as u8]
    } else {
        seq![(offset + 55 + be_bytes(len).len()) as u8] + be_bytes(len)
    }
}

/// The encoding of a byte string: a single byte below 0x80 stands for itself, any
/// other string follows its header.
pub open spec fn rlp_string(bytes: Seq<u8>) -> Seq<u8> {
    if bytes.len() == 1 && bytes[0] < STRING_OFFSET {
        bytes
    } else {
        rlp_header(STRING_OFFSET, bytes.len()) + bytes
    }
}

/// The encoding of a number: that of its shortest big-endian byte string.
pub open spec fn rlp_uint(n: nat) -> Seq<u8> {
    rlp_string(be_bytes(n))
}

/// The encoding of a list whose items, each already encoded, are laid end to end
/// in `payload`.
pub open spec fn rlp_list(payload: Seq<u8>) -> Seq<u8> {
    rlp_header(LIST_OFFSET, payload.len()) + payload
}

/// The items of `items` laid end to end.
pub open spec fn concat(items: Seq<Seq<u8>>) -> Seq<u8>
    decreases items.len(),
{
    if items.len() == 0 {
        Seq::empty()
    } else {
        concat(items.drop_last()) + items.last()
    }
}

/// The encoding of a list is not empty, and its first byte tells that it is a list.
pub proof fn lemma_list_first_byte(payload: Seq<u8>)
    requires
        payload.len() <= u64::MAX,
    ensures
        rlp_list(payload).len() > 0,
        rlp_list(payload)[0] >= LIST_OFFSET,
{
    if payload.len() > 55 {
        lemma_be_bytes_len(payload.len());
    }
}

fn append_header(out: &mut Vec<u8>, offset: u8, len: usize)
    requires
        offset == STRING_OFFSET || offset == LIST_OFFSET,
    ensures
        final(out)@ == old(out)@ + rlp_header(offset, len as nat),
{
    if len <= 55 {
        out.push(offset + len as u8);
    } else {
        let digits = u64_to_be_bytes(len as u64);
        out.push(offset + 55 + digits.len() as u8);
        out.extend_from_slice(digits.as_slice());
    }
}

/// Appends the encoding of the byte string `bytes` to `out`.
pub fn append_string(out: &mut Vec<u8>, bytes: &[u8])
    ensures
        final(out)@ == old(out)@ + rlp_string(bytes@),
{
    if bytes.len() == 1 && bytes[0] < STRING_OFFSET {
        out.push(bytes[0]);
        assert(bytes@ =~= seq![bytes@[0]]);
    } else {
        append_header(out, STRING_OFFSET, bytes.len());
        out.extend_from_slice(bytes);
    }
}

/// Appends to `out` the encoding of the number that the big-endian byte string
/// `digits` denotes.
pub fn append_uint(out: &mut Vec<u8>, digits: &[u8])
    ensures
        final(out)@ == old(out)@ + rlp_uint(be_value(digits@)),
{
    let shortest = trim_leading_zeros(digits);
    append_string(out, shortest.as_slice());
}

/// Appends the encoding of the number `n` to `out`.
pub fn append_u64(out: &mut Vec<u8>, n: u64)
    ensures
        final(out)@ == old(out)@ + rlp_uint(n as nat),
{
    let shortest = u64_to_be_bytes(n);
    append_string(out, shortest.as_slice());
}

/// Appends to `out` the encoding of the list whose encoded items are laid end to
/// end in `payload`.
pub fn append_list(out: &mut Vec<u8>, payload: &[u8])
    ensures
        final(out)@ == old(out)@ + rlp_list(payload@),
{
    append_header(out, LIST_OFFSET, payload.len());
    out.extend_from_slice(payload);
}

/// The encoding of the list whose encoded items are laid end to end in `payload`.
pub fn encode_list(payload: &[u8]) -> (out: Vec<u8>)
    ensures
        out@ == rlp_list(payload@),
{
    let mut out: Vec<u8> = Vec::new();
    append_list(&mut out, payload);
    out
}

/// The number of bytes of the header that `bytes` starts with, read from its first
/// byte.
pub open spec fn header_len(bytes: Seq<u8>) -> nat {
    let first = bytes[0];
    if first < STRING_OFFSET {
        0
    } else if first <= STRING_OFFSET + 55 {
        1
    } else if first < LIST_OFFSET {
        (1 + first - (STRING_OFFSET + 55)) as nat
    } else if first <= LIST_OFFSET + 55 {
        1
    } else {
        (1 + first - (LIST_OFFSET + 55)) as nat
    }
}

/// The number of bytes of the payload that the header at the start of `bytes`
/// announces.
pub open spec fn payload_len(bytes: Seq<u8>) -> nat {
    let first = bytes[0];
    if first < STRING_OFFSET {
        1
    } else if first <= STRING_OFFSET + 55 {
        (first - STRING_OFFSET) as nat
    } else if first < LIST_OFFSET {
        be_value(bytes.subrange(1, header_len(bytes) as int))
    } else if first <= LIST_OFFSET + 55 {
        (first - LIST_OFFSET) as nat
    } else {
        be_value(bytes.subrange(1, header_len(bytes) as int))
    }
}

/// Whether `bytes` is one whole item: a header and exactly the payload that it
/// announces.
pub open spec fn is_item(bytes: Seq<u8>) -> bool {
    &&& bytes.len() > 0
    &&& header_len(bytes) <= bytes.len()
    &&& bytes.len() == header_len(bytes) + payload_len(bytes)
}

/// The header of a payload that fits in memory: its length, its first byte and the
/// payload length that is read back from it.
pub proof fn lemma_header(offset: u8, len: nat, rest: Seq<u8>)
    requires
        offset == STRING_OFFSET || offset == LIST_OFFSET,
        len <= u64::MAX,
    ensures
        rlp_header(offset, len).len() >= 1,
        rlp_header(offset, len)[0] >= offset,
        offset == STRING_OFFSET ==> rlp_header(offset, len)[0] < LIST_OFFSET,
        header_len(rlp_header(offset, len) + rest) == rlp_header(offset, len).len(),
        payload_len(rlp_header(offset, len) + rest) == len,
{
    let header = rlp_header(offset, len);
    let bytes = header + rest;
    if len <= 55 {
        assert(bytes[0] == header[0]);
    } else {
        let digits = be_bytes(len);
        lemma_be_bytes_len(len);
        crate::big_endian::lemma_be_value_of_bytes(len);
        assert(bytes[0] == header[0]);
        assert(header.len() == 1 + digits.len());
        assert(bytes.subrange(1, 1 + digits.len() as int) =~= digits);
    }
}

/// The encoding of a byte string that fits in memory is one whole item, and a
/// string item.
pub proof fn lemma_string_is_item(bytes: Seq<u8>)
    requires
        bytes.len() <= u64::MAX,
    ensures
        is_item(rlp_string(bytes)),
        rlp_string(bytes)[0] < LIST_OFFSET,
        rlp_string(bytes).skip(header_len(rlp_string(bytes)) as int) == bytes,
{
    if bytes.len() == 1 && bytes[0] < STRING_OFFSET {
        assert(bytes.skip(0) =~= bytes);
    } else {
        lemma_header(STRING_OFFSET, bytes.len(), bytes);
        assert((rlp_header(STRING_OFFSET, bytes.len()) + bytes).skip(
            rlp_header(STRING_OFFSET, bytes.len()).len() as int,
        ) =~= bytes);
    }
}

/// The encoding of a list whose payload fits in memory is one whole item, and a
/// list item.
pub proof fn lemma_list_is_item(payload: Seq<u8>)
    requires
        payload.len() <= u64::MAX,
    ensures
        is_item(rlp_list(payload)),
        rlp_list(payload)[0] >= LIST_OFFSET,
        rlp_list(payload).skip(header_len(rlp_list(payload)) as int) == payload,
{
    lemma_header(LIST_OFFSET, payload.len(), payload);
    assert((rlp_header(LIST_OFFSET, payload.len()) + payload).skip(
        rlp_header(LIST_OFFSET, payload.len()).len() as int,
    ) =~= payload);
}

/// Two byte strings that fit in memory and have the same encoding are the same.
pub proof fn lemma_string_injective(first: Seq<u8>, second: Seq<u8>)
    requires
        first.len() <= u64::MAX,
        second.len() <= u64::MAX,
        rlp_string(first) == rlp_string(second),
    ensures
        first == second,
{
    lemma_string_is_item(first);
    lemma_string_is_item(second);
}

/// Two payloads that fit in memory and have the same encoding as lists are the same.
pub proof fn lemma_list_injective(first: Seq<u8>, second: Seq<u8>)
    requires
        first.len() <= u64::MAX,
        second.len() <= u64::MAX,
        rlp_list(first) == rlp_list(second),
    ensures
        first == second,
{
    lemma_list_is_item(first);
    lemma_list_is_item(second);
}

/// Two numbers whose encodings are the same are the same.
pub proof fn lemma_uint_injective(first: nat, second: nat)
    requires
        be_bytes(first).len() <= u64::MAX,
        be_bytes(second).len() <= u64::MAX,
        rlp_uint(first) == rlp_uint(second),
    ensures
        first == second,
{
    lemma_string_injective(be_bytes(first), be_bytes(second));
    crate::big_endian::lemma_be_value_of_bytes(first);
    crate::big_endian::lemma_be_value_of_bytes(second);
}

/// An item is delimited by its own header: where two byte strings are equal and
/// each starts with a whole item, the two items are the same and so is what
/// follows them.
pub proof fn lemma_first_item(
    first: Seq<u8>,
    after_first: Seq<u8>,
    second: Seq<u8>,
    after_second: Seq<u8>,
)
    requires
        is_item(first),
        is_item(second),
        first + after_first == second + after_second,
    ensures
        first == second,
        after_first == after_second,
{
    let whole = first + after_first;
    assert(whole[0] == first[0] && whole[0] == second[0]);
    assert(header_len(first) == header_len(second));
    let header = header_len(first) as int;
    if header >= 2 {
        assert(whole.subrange(1, header) =~= first.subrange(1, header));
        assert(whole.subrange(1, header) =~= second.subrange(1, header));
    }
    assert(first.len() == second.len());
    assert(first =~= whole.subrange(0, first.len() as int));
    assert(second =~= whole.subrange(0, first.len() as int));
    assert(after_first =~= whole.skip(first.len() as int));
    assert(after_second =~= whole.skip(first.len() as int));
}

/// Items laid end to end start with the first of them.
pub proof fn lemma_concat_first(items: Seq<Seq<u8>>)
    requires
        items.len() > 0,
    ensures
        concat(items) == items[0] + concat(items.drop_first()),
    decreases items.len(),
{
    if items.len() == 1 {
        assert(concat(items.drop_last()) =~= Seq::<u8>::empty());
        assert(concat(items.drop_first()) =~= Seq::<u8>::empty());
        assert(concat(items) =~= items[0] + concat(items.drop_first()));
    } else {
        lemma_concat_first(items.drop_last());
        assert(items.drop_last().drop_first() =~= items.drop_first().drop_last());
        assert(concat(items) =~= items[0] + concat(items.drop_first()));
    }
}

/// Items laid end to end are at least as long as any one of them.
pub proof fn lemma_concat_len(items: Seq<Seq<u8>>, i: int)
    requires
        0 <= i < items.len(),
    ensures
        items[i].len() <= concat(items).len(),
    decreases items.len(),
{
    if i < items.len() - 1 {
        lemma_concat_len(items.drop_last(), i);
    }
}

/// Two sequences of whole items that are the same when laid end to end are the
/// same sequence.
pub proof fn lemma_concat_injective(first: Seq<Seq<u8>>, second: Seq<Seq<u8>>)
    requires
        forall|i: int| 0 <= i < first.len() ==> is_item(#[trigger] first[i]),
        forall|i: int| 0 <= i < second.len() ==> is_item(#[trigger] second[i]),
        concat(first) == concat(second),
    ensures
        first == second,
    decreases first.len(),
{
    if first.len() == 0 {
        if second.len() > 0 {
            lemma_concat_len(second, 0);
            assert(is_item(second[0]));
        }
        assert(first =~= second);
    } else if second.len() == 0 {
        lemma_concat_len(first, 0);
        assert(is_item(first[0]));
    } else {
        lemma_concat_first(first);
        lemma_concat_first(second);
        assert(is_item(first[0]) && is_item(second[0]));
        lemma_first_item(
            first[0],
            concat(first.drop_first()),
            second[0],
            concat(second.drop_first()),
        );
        assert forall|i: int| 0 <= i < first.drop_first().len() implies is_item(
            #[trigger] first.drop_first()[i],
        ) by {
            assert(first.drop_first()[i] == first[i + 1]);
        }
        assert forall|i: int| 0 <= i < second.drop_first().len() implies is_item(
            #[trigger] second.drop_first()[i],
        ) by {
            assert(second.drop_first()[i] == second[i + 1]);
        }
        lemma_concat_injective(first.drop_first(), second.drop_first());
        assert(first =~= seq![first[0]] + first.drop_first());
        assert(second =~= seq![second[0]] + second.drop_first());
    }
}

} // verus!
