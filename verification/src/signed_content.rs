//! What the bytes that are hashed for signing tell of a transaction.

use crate::access_list::{
    access_list_rlp, lemma_access_list_injective, lemma_access_list_is_item, AccessListItemView,
};
use crate::big_endian::be_bytes;
use crate::eip2718::TypedTransactionView;
use crate::primitives::NameOrAddressView;
use crate::request::{
    rlp_opt_bytes, rlp_opt_uint, rlp_recipient, Eip1559TransactionRequestView,
    Eip2930TransactionRequestView, TransactionRequestView,
};
use crate::rlp::{
    concat, is_item, lemma_concat_injective, lemma_concat_len, lemma_list_first_byte,
    lemma_list_injective, lemma_string_injective, lemma_string_is_item, lemma_uint_injective,
    rlp_list, rlp_string, rlp_uint,
};
use vstd::prelude::*;
use vstd::seq_lib::lemma_concat_associative;

verus! {

/// The number that an optional number is encoded as: zero where it is absent.
pub open spec fn number(n: Option<nat>) -> nat {
    match n {
        Some(n) => n,
        None => 0,
    }
}

/// The byte string that an optional byte string is encoded as: the empty one where
/// it is absent.
pub open spec fn bytes_or_empty(bytes: Option<Seq<u8>>) -> Seq<u8> {
    match bytes {
        Some(bytes) => bytes,
        None => Seq::empty(),
    }
}

/// The byte string that a recipient is encoded as: the address, or the empty string
/// where there is none.
pub open spec fn recipient_bytes(to: Option<NameOrAddressView>) -> Seq<u8> {
    match to {
        Some(NameOrAddressView::Address(address)) => address,
        _ => Seq::empty(),
    }
}

/// What a signature over a transaction covers: the format and the fields that are
/// encoded, each as it is encoded. The sender is not covered; an absent number
/// counts as zero, absent call data and an absent recipient as the empty string, and
/// a field that the format does not have as absent.
pub ghost struct SignedContent {
    pub discriminant: u8,
    pub nonce: nat,
    pub gas_price: nat,
    pub max_priority_fee_per_gas: nat,
    pub max_fee_per_gas: nat,
    pub gas: nat,
    pub to: Seq<u8>,
    pub value: nat,
    pub data: Seq<u8>,
    pub access_list: Seq<AccessListItemView>,
}

impl TransactionRequestView {
    /// What a signature over this request covers.
    pub open spec fn signed_content(self) -> SignedContent {
        SignedContent {
            discriminant: 0,
            nonce: number(self.nonce),
            gas_price: number(self.gas_price),
            max_priority_fee_per_gas: 0,
            max_fee_per_gas: 0,
            gas: number(self.gas),
            to: recipient_bytes(self.to),
            value: number(self.value),
            data: bytes_or_empty(self.data),
            access_list: Seq::empty(),
        }
    }
}

impl Eip2930TransactionRequestView {
    /// What a signature over this request covers.
    pub open spec fn signed_content(self) -> SignedContent {
        SignedContent {
            discriminant: 1,
            access_list: self.access_list,
            ..self.tx.signed_content()
        }
    }
}

impl Eip1559TransactionRequestView {
    /// What a signature over this request covers.
    pub open spec fn signed_content(self) -> SignedContent {
        SignedContent {
            discriminant: 2,
            nonce: number(self.nonce),
            gas_price: 0,
            max_priority_fee_per_gas: number(self.max_priority_fee_per_gas),
            max_fee_per_gas: number(self.max_fee_per_gas),
            gas: number(self.gas),
            to: recipient_bytes(self.to),
            value: number(self.value),
            data: bytes_or_empty(self.data),
            access_list: self.access_list,
        }
    }
}

impl TypedTransactionView {
    /// What a signature over this transaction covers.
    pub open spec fn signed_content(self) -> SignedContent {
        match self {
            TypedTransactionView::Legacy(inner) => inner.signed_content(),
            TypedTransactionView::Eip2930(inner) => inner.signed_content(),
            TypedTransactionView::Eip1559(inner) => inner.signed_content(),
        }
    }
}

/// The encoding of an optional number is one whole item and tells the number.
proof fn lemma_opt_uint(n: Option<nat>)
    requires
        rlp_opt_uint(n).len() <= u64::MAX,
    ensures
        is_item(rlp_opt_uint(n)),
        rlp_opt_uint(n) == rlp_uint(number(n)),
        be_bytes(number(n)).len() <= u64::MAX,
{
    assert(be_bytes(0) =~= Seq::<u8>::empty());
    lemma_string_is_item(be_bytes(number(n)));
}

/// The encoding of an optional byte string is one whole item and tells the string.
proof fn lemma_opt_bytes(bytes: Option<Seq<u8>>)
    requires
        rlp_opt_bytes(bytes).len() <= u64::MAX,
    ensures
        is_item(rlp_opt_bytes(bytes)),
        rlp_opt_bytes(bytes) == rlp_string(bytes_or_empty(bytes)),
        bytes_or_empty(bytes).len() <= u64::MAX,
{
    lemma_string_is_item(bytes_or_empty(bytes));
}

/// The encoding of a recipient is one whole item and tells the address.
proof fn lemma_recipient(to: Option<NameOrAddressView>)
    requires
        rlp_recipient(to).len() <= u64::MAX,
    ensures
        is_item(rlp_recipient(to)),
        rlp_recipient(to) == rlp_string(recipient_bytes(to)),
        recipient_bytes(to).len() <= u64::MAX,
{
    lemma_string_is_item(recipient_bytes(to));
}

/// The encoding of a number is one whole item.
proof fn lemma_uint(n: nat)
    requires
        rlp_uint(n).len() <= u64::MAX,
    ensures
        is_item(rlp_uint(n)),
        be_bytes(n).len() <= u64::MAX,
{
    lemma_string_is_item(be_bytes(n));
}

/// The first `k` items laid end to end are the first `k - 1` and then the next one.
proof fn lemma_concat_take(items: Seq<Seq<u8>>, k: int)
    requires
        0 < k <= items.len(),
    ensures
        concat(items.take(k)) == concat(items.take(k - 1)) + items[k - 1],
{
    assert(items.take(k).drop_last() =~= items.take(k - 1));
}

/// Eight items laid end to end, written out.
proof fn lemma_concat_of_eight(items: Seq<Seq<u8>>)
    requires
        items.len() >= 8,
    ensures
        concat(items.take(8)) == items[0] + items[1] + items[2] + items[3] + items[4]
            + items[5] + items[6] + items[7],
{
    assert(concat(items.take(0)) =~= Seq::<u8>::empty());
    lemma_concat_take(items, 1);
    assert(concat(items.take(1)) =~= items[0]);
    lemma_concat_take(items, 2);
    lemma_concat_take(items, 3);
    lemma_concat_take(items, 4);
    lemma_concat_take(items, 5);
    lemma_concat_take(items, 6);
    lemma_concat_take(items, 7);
    lemma_concat_take(items, 8);
}

impl TypedTransactionView {
    /// The items of the unsigned encoding for the chain `chain_id`, one by one: nine
    /// for the first and for the fee-market format, eight for the access-list format.
    pub open spec fn unsigned_items(self, chain_id: nat) -> Seq<Seq<u8>> {
        match self {
            TypedTransactionView::Legacy(inner) => seq![
                rlp_opt_uint(inner.nonce),
                rlp_opt_uint(inner.gas_price),
                rlp_opt_uint(inner.gas),
                rlp_recipient(inner.to),
                rlp_opt_uint(inner.value),
                rlp_opt_bytes(inner.data),
                rlp_uint(chain_id),
                rlp_uint(0),
                rlp_uint(0),
            ],
            TypedTransactionView::Eip2930(inner) => seq![
                rlp_uint(chain_id),
                rlp_opt_uint(inner.tx.nonce),
                rlp_opt_uint(inner.tx.gas_price),
                rlp_opt_uint(inner.tx.gas),
                rlp_recipient(inner.tx.to),
                rlp_opt_uint(inner.tx.value),
                rlp_opt_bytes(inner.tx.data),
                access_list_rlp(inner.access_list),
            ],
            TypedTransactionView::Eip1559(inner) => seq![
                rlp_uint(chain_id),
                rlp_opt_uint(inner.nonce),
                rlp_opt_uint(inner.max_priority_fee_per_gas),
                rlp_opt_uint(inner.max_fee_per_gas),
                rlp_opt_uint(inner.gas),
                rlp_recipient(inner.to),
                rlp_opt_uint(inner.value),
                rlp_opt_bytes(inner.data),
                access_list_rlp(inner.access_list),
            ],
        }
    }
}

/// Putting a byte string before six others laid end to end is laying the seven end
/// to end.
proof fn lemma_prepend_six(
    head: Seq<u8>,
    a: Seq<u8>,
    b: Seq<u8>,
    c: Seq<u8>,
    d: Seq<u8>,
    e: Seq<u8>,
    f: Seq<u8>,
)
    ensures
        head + (a + b + c + d + e + f) == head + a + b + c + d + e + f,
{
    lemma_concat_associative(head, a, b);
    lemma_concat_associative(head, a + b, c);
    lemma_concat_associative(head, a + b + c, d);
    lemma_concat_associative(head, a + b + c + d, e);
    lemma_concat_associative(head, a + b + c + d + e, f);
}

/// The unsigned encoding of a request of the first format is the list of its items.
proof fn lemma_legacy_payload(inner: TransactionRequestView, chain_id: nat)
    ensures
        inner.rlp(chain_id) == rlp_list(
            concat(TypedTransactionView::Legacy(inner).unsigned_items(chain_id)),
        ),
{
    let items = TypedTransactionView::Legacy(inner).unsigned_items(chain_id);
    lemma_concat_of_eight(items);
    lemma_concat_take(items, 9);
    assert(items.take(9) =~= items);
}

/// The unsigned encoding of a request of the access-list format is the list of its
/// items.
proof fn lemma_eip2930_payload(inner: Eip2930TransactionRequestView, chain_id: nat)
    ensures
        inner.rlp(chain_id) == rlp_list(
            concat(TypedTransactionView::Eip2930(inner).unsigned_items(chain_id)),
        ),
{
    let items = TypedTransactionView::Eip2930(inner).unsigned_items(chain_id);
    lemma_concat_of_eight(items);
    assert(items.take(8) =~= items);
    lemma_prepend_six(items[0], items[1], items[2], items[3], items[4], items[5], items[6]);
}

/// The unsigned encoding of a request of the fee-market format is the list of its
/// items.
proof fn lemma_eip1559_payload(inner: Eip1559TransactionRequestView, chain_id: nat)
    ensures
        inner.rlp(chain_id) == rlp_list(
            concat(TypedTransactionView::Eip1559(inner).unsigned_items(chain_id)),
        ),
{
    let items = TypedTransactionView::Eip1559(inner).unsigned_items(chain_id);
    lemma_concat_of_eight(items);
    lemma_concat_take(items, 9);
    assert(items.take(9) =~= items);
    lemma_prepend_six(items[0], items[1], items[2], items[3], items[4], items[5], items[6]);
    lemma_concat_associative(
        items[0],
        items[1] + items[2] + items[3] + items[4] + items[5] + items[6],
        items[7],
    );
    lemma_concat_associative(
        items[0],
        items[1] + items[2] + items[3] + items[4] + items[5] + items[6] + items[7],
        items[8],
    );
}

/// The unsigned encoding is the list of its items.
pub proof fn lemma_unsigned_payload(tx: TypedTransactionView, chain_id: nat)
    ensures
        tx.rlp(chain_id) == rlp_list(concat(tx.unsigned_items(chain_id))),
{
    match tx {
        TypedTransactionView::Legacy(inner) => lemma_legacy_payload(inner, chain_id),
        TypedTransactionView::Eip2930(inner) => lemma_eip2930_payload(inner, chain_id),
        TypedTransactionView::Eip1559(inner) => lemma_eip1559_payload(inner, chain_id),
    }
}

/// Each item of an unsigned encoding of the first format that fits in memory is one
/// whole item.
proof fn lemma_legacy_items(inner: TransactionRequestView, chain_id: nat)
    requires
        concat(TypedTransactionView::Legacy(inner).unsigned_items(chain_id)).len() <= u64::MAX,
    ensures
        forall|i: int|
            0 <= i < 9 ==> is_item(
                #[trigger] TypedTransactionView::Legacy(inner).unsigned_items(chain_id)[i],
            ),
{
    let items = TypedTransactionView::Legacy(inner).unsigned_items(chain_id);
    lemma_concat_len(items, 0);
    lemma_concat_len(items, 1);
    lemma_concat_len(items, 2);
    lemma_concat_len(items, 3);
    lemma_concat_len(items, 4);
    lemma_concat_len(items, 5);
    lemma_concat_len(items, 6);
    lemma_concat_len(items, 7);
    lemma_opt_uint(inner.nonce);
    lemma_opt_uint(inner.gas_price);
    lemma_opt_uint(inner.gas);
    lemma_recipient(inner.to);
    lemma_opt_uint(inner.value);
    lemma_opt_bytes(inner.data);
    lemma_uint(chain_id);
    lemma_uint(0);
}

/// Each item of an unsigned encoding of the access-list format that fits in memory
/// is one whole item.
proof fn lemma_eip2930_items(inner: Eip2930TransactionRequestView, chain_id: nat)
    requires
        concat(TypedTransactionView::Eip2930(inner).unsigned_items(chain_id)).len() <= u64::MAX,
    ensures
        forall|i: int|
            0 <= i < 8 ==> is_item(
                #[trigger] TypedTransactionView::Eip2930(inner).unsigned_items(chain_id)[i],
            ),
{
    let items = TypedTransactionView::Eip2930(inner).unsigned_items(chain_id);
    lemma_concat_len(items, 0);
    lemma_concat_len(items, 1);
    lemma_concat_len(items, 2);
    lemma_concat_len(items, 3);
    lemma_concat_len(items, 4);
    lemma_concat_len(items, 5);
    lemma_concat_len(items, 6);
    lemma_concat_len(items, 7);
    lemma_uint(chain_id);
    lemma_opt_uint(inner.tx.nonce);
    lemma_opt_uint(inner.tx.gas_price);
    lemma_opt_uint(inner.tx.gas);
    lemma_recipient(inner.tx.to);
    lemma_opt_uint(inner.tx.value);
    lemma_opt_bytes(inner.tx.data);
    lemma_access_list_is_item(inner.access_list);
}

/// Each item of an unsigned encoding of the fee-market format that fits in memory is
/// one whole item.
proof fn lemma_eip1559_items(inner: Eip1559TransactionRequestView, chain_id: nat)
    requires
        concat(TypedTransactionView::Eip1559(inner).unsigned_items(chain_id)).len() <= u64::MAX,
    ensures
        forall|i: int|
            0 <= i < 9 ==> is_item(
                #[trigger] TypedTransactionView::Eip1559(inner).unsigned_items(chain_id)[i],
            ),
{
    let items = TypedTransactionView::Eip1559(inner).unsigned_items(chain_id);
    lemma_concat_len(items, 0);
    lemma_concat_len(items, 1);
    lemma_concat_len(items, 2);
    lemma_concat_len(items, 3);
    lemma_concat_len(items, 4);
    lemma_concat_len(items, 5);
    lemma_concat_len(items, 6);
    lemma_concat_len(items, 7);
    lemma_concat_len(items, 8);
    lemma_uint(chain_id);
    lemma_opt_uint(inner.nonce);
    lemma_opt_uint(inner.max_priority_fee_per_gas);
    lemma_opt_uint(inner.max_fee_per_gas);
    lemma_opt_uint(inner.gas);
    lemma_recipient(inner.to);
    lemma_opt_uint(inner.value);
    lemma_opt_bytes(inner.data);
    lemma_access_list_is_item(inner.access_list);
}

/// Two optional numbers that are encoded alike count as the same number.
proof fn lemma_same_number(first: Option<nat>, second: Option<nat>)
    requires
        rlp_opt_uint(first).len() <= u64::MAX,
        rlp_opt_uint(first) == rlp_opt_uint(second),
    ensures
        number(first) == number(second),
{
    lemma_opt_uint(first);
    lemma_opt_uint(second);
    lemma_uint_injective(number(first), number(second));
}

/// Two optional byte strings that are encoded alike count as the same string.
proof fn lemma_same_bytes(first: Option<Seq<u8>>, second: Option<Seq<u8>>)
    requires
        rlp_opt_bytes(first).len() <= u64::MAX,
        rlp_opt_bytes(first) == rlp_opt_bytes(second),
    ensures
        bytes_or_empty(first) == bytes_or_empty(second),
{
    lemma_opt_bytes(first);
    lemma_opt_bytes(second);
    lemma_string_injective(bytes_or_empty(first), bytes_or_empty(second));
}

/// Two recipients that are encoded alike count as the same address.
proof fn lemma_same_recipient(first: Option<NameOrAddressView>, second: Option<NameOrAddressView>)
    requires
        rlp_recipient(first).len() <= u64::MAX,
        rlp_recipient(first) == rlp_recipient(second),
    ensures
        recipient_bytes(first) == recipient_bytes(second),
{
    lemma_recipient(first);
    lemma_recipient(second);
    lemma_string_injective(recipient_bytes(first), recipient_bytes(second));
}

/// Two chain identifiers that are encoded alike are the same.
proof fn lemma_same_chain(first: nat, second: nat)
    requires
        rlp_uint(first).len() <= u64::MAX,
        rlp_uint(first) == rlp_uint(second),
    ensures
        first == second,
{
    lemma_uint(first);
    lemma_uint(second);
    lemma_uint_injective(first, second);
}

/// Two access lists that are encoded alike are the same.
proof fn lemma_same_access_list(first: Seq<AccessListItemView>, second: Seq<AccessListItemView>)
    requires
        access_list_rlp(first).len() <= u64::MAX,
        access_list_rlp(first) == access_list_rlp(second),
    ensures
        first == second,
{
    lemma_access_list_injective(first, second);
}

/// Each item of an unsigned encoding that fits in memory is one whole item.
proof fn lemma_items_whole(tx: TypedTransactionView, chain_id: nat)
    requires
        concat(tx.unsigned_items(chain_id)).len() <= u64::MAX,
    ensures
        forall|i: int|
            0 <= i < tx.unsigned_items(chain_id).len() ==> is_item(
                #[trigger] tx.unsigned_items(chain_id)[i],
            ),
{
    match tx {
        TypedTransactionView::Legacy(inner) => lemma_legacy_items(inner, chain_id),
        TypedTransactionView::Eip2930(inner) => lemma_eip2930_items(inner, chain_id),
        TypedTransactionView::Eip1559(inner) => lemma_eip1559_items(inner, chain_id),
    }
}

/// Two transactions whose unsigned encodings fit in memory and are the same have the
/// same items.
proof fn lemma_same_items(
    first: TypedTransactionView,
    first_chain: nat,
    second: TypedTransactionView,
    second_chain: nat,
)
    requires
        first.rlp(first_chain).len() <= u64::MAX,
        second.rlp(second_chain).len() <= u64::MAX,
        first.rlp(first_chain) == second.rlp(second_chain),
    ensures
        first.unsigned_items(first_chain) == second.unsigned_items(second_chain),
        forall|i: int|
            0 <= i < first.unsigned_items(first_chain).len() ==> (
            #[trigger] first.unsigned_items(first_chain)[i]).len() <= u64::MAX,
{
    let first_items = first.unsigned_items(first_chain);
    let second_items = second.unsigned_items(second_chain);
    lemma_unsigned_payload(first, first_chain);
    lemma_unsigned_payload(second, second_chain);
    assert(concat(first_items).len() <= rlp_list(concat(first_items)).len());
    assert(concat(second_items).len() <= rlp_list(concat(second_items)).len());
    lemma_list_injective(concat(first_items), concat(second_items));
    lemma_items_whole(first, first_chain);
    lemma_items_whole(second, second_chain);
    lemma_concat_injective(first_items, second_items);
    assert forall|i: int| 0 <= i < first_items.len() implies (#[trigger] first_items[i]).len()
        <= u64::MAX by {
        lemma_concat_len(first_items, i);
    }
}

/// Two requests of the first format with the same items were encoded for the same
/// chain and hold the same in every field that is encoded.
proof fn lemma_legacy_same_content(
    first: TransactionRequestView,
    first_chain: nat,
    second: TransactionRequestView,
    second_chain: nat,
)
    requires
        TypedTransactionView::Legacy(first).unsigned_items(first_chain)
            == TypedTransactionView::Legacy(second).unsigned_items(second_chain),
        forall|i: int|
            0 <= i < 9 ==> (#[trigger] TypedTransactionView::Legacy(first).unsigned_items(
                first_chain,
            )[i]).len() <= u64::MAX,
    ensures
        first_chain == second_chain,
        first.signed_content() == second.signed_content(),
{
    let a = TypedTransactionView::Legacy(first).unsigned_items(first_chain);
    let b = TypedTransactionView::Legacy(second).unsigned_items(second_chain);
    assert(a[0] == b[0] && a[1] == b[1] && a[2] == b[2] && a[3] == b[3] && a[4] == b[4] && a[5]
        == b[5] && a[6] == b[6]);
    assert(a[0].len() <= u64::MAX && a[1].len() <= u64::MAX && a[2].len() <= u64::MAX
        && a[3].len() <= u64::MAX && a[4].len() <= u64::MAX && a[5].len() <= u64::MAX
        && a[6].len() <= u64::MAX);
    lemma_same_number(first.nonce, second.nonce);
    lemma_same_number(first.gas_price, second.gas_price);
    lemma_same_number(first.gas, second.gas);
    lemma_same_recipient(first.to, second.to);
    lemma_same_number(first.value, second.value);
    lemma_same_bytes(first.data, second.data);
    lemma_same_chain(first_chain, second_chain);
}

/// Two requests of the access-list format with the same items were encoded for the
/// same chain and hold the same in every field that is encoded.
proof fn lemma_eip2930_same_content(
    first: Eip2930TransactionRequestView,
    first_chain: nat,
    second: Eip2930TransactionRequestView,
    second_chain: nat,
)
    requires
        TypedTransactionView::Eip2930(first).unsigned_items(first_chain)
            == TypedTransactionView::Eip2930(second).unsigned_items(second_chain),
        forall|i: int|
            0 <= i < 8 ==> (#[trigger] TypedTransactionView::Eip2930(first).unsigned_items(
                first_chain,
            )[i]).len() <= u64::MAX,
    ensures
        first_chain == second_chain,
        first.signed_content() == second.signed_content(),
{
    let a = TypedTransactionView::Eip2930(first).unsigned_items(first_chain);
    let b = TypedTransactionView::Eip2930(second).unsigned_items(second_chain);
    assert(a[0] == b[0] && a[1] == b[1] && a[2] == b[2] && a[3] == b[3] && a[4] == b[4] && a[5]
        == b[5] && a[6] == b[6] && a[7] == b[7]);
    assert(a[0].len() <= u64::MAX && a[1].len() <= u64::MAX && a[2].len() <= u64::MAX
        && a[3].len() <= u64::MAX && a[4].len() <= u64::MAX && a[5].len() <= u64::MAX
        && a[6].len() <= u64::MAX && a[7].len() <= u64::MAX);
    lemma_same_chain(first_chain, second_chain);
    lemma_same_number(first.tx.nonce, second.tx.nonce);
    lemma_same_number(first.tx.gas_price, second.tx.gas_price);
    lemma_same_number(first.tx.gas, second.tx.gas);
    lemma_same_recipient(first.tx.to, second.tx.to);
    lemma_same_number(first.tx.value, second.tx.value);
    lemma_same_bytes(first.tx.data, second.tx.data);
    lemma_same_access_list(first.access_list, second.access_list);
}

/// Two requests of the fee-market format with the same items were encoded for the
/// same chain and hold the same in every field that is encoded.
proof fn lemma_eip1559_same_content(
    first: Eip1559TransactionRequestView,
    first_chain: nat,
    second: Eip1559TransactionRequestView,
    second_chain: nat,
)
    requires
        TypedTransactionView::Eip1559(first).unsigned_items(first_chain)
            == TypedTransactionView::Eip1559(second).unsigned_items(second_chain),
        forall|i: int|
            0 <= i < 9 ==> (#[trigger] TypedTransactionView::Eip1559(first).unsigned_items(
                first_chain,
            )[i]).len() <= u64::MAX,
    ensures
        first_chain == second_chain,
        first.signed_content() == second.signed_content(),
{
    let a = TypedTransactionView::Eip1559(first).unsigned_items(first_chain);
    let b = TypedTransactionView::Eip1559(second).unsigned_items(second_chain);
    assert(a[0] == b[0] && a[1] == b[1] && a[2] == b[2] && a[3] == b[3] && a[4] == b[4] && a[5]
        == b[5] && a[6] == b[6] && a[7] == b[7] && a[8] == b[8]);
    assert(a[0].len() <= u64::MAX && a[1].len() <= u64::MAX && a[2].len() <= u64::MAX
        && a[3].len() <= u64::MAX && a[4].len() <= u64::MAX && a[5].len() <= u64::MAX
        && a[6].len() <= u64::MAX && a[7].len() <= u64::MAX && a[8].len() <= u64::MAX);
    lemma_same_chain(first_chain, second_chain);
    lemma_same_number(first.nonce, second.nonce);
    lemma_same_number(first.max_priority_fee_per_gas, second.max_priority_fee_per_gas);
    lemma_same_number(first.max_fee_per_gas, second.max_fee_per_gas);
    lemma_same_number(first.gas, second.gas);
    lemma_same_recipient(first.to, second.to);
    lemma_same_number(first.value, second.value);
    lemma_same_bytes(first.data, second.data);
    lemma_same_access_list(first.access_list, second.access_list);
}

/// Two transactions with the same signing input have the same format and the same
/// unsigned encoding.
proof fn lemma_same_format(
    first: TypedTransactionView,
    first_chain: nat,
    second: TypedTransactionView,
    second_chain: nat,
)
    requires
        first.signing_input(first_chain).len() <= usize::MAX,
        second.signing_input(second_chain).len() <= usize::MAX,
        first.signing_input(first_chain) == second.signing_input(second_chain),
    ensures
        first.discriminant() == second.discriminant(),
        first.rlp(first_chain) == second.rlp(second_chain),
        first.rlp(first_chain).len() <= u64::MAX,
{
    let first_input = first.signing_input(first_chain);
    let second_input = second.signing_input(second_chain);
    lemma_unsigned_payload(first, first_chain);
    lemma_unsigned_payload(second, second_chain);
    lemma_list_first_byte(concat(first.unsigned_items(first_chain)));
    lemma_list_first_byte(concat(second.unsigned_items(second_chain)));
    assert(first_input[0] == second_input[0]);
    if !(first is Legacy) {
        assert(first.rlp(first_chain) =~= first_input.skip(1));
        assert(second.rlp(second_chain) =~= second_input.skip(1));
    }
}

/// The bytes that are hashed for signing tell the chain and everything that a
/// signature covers: two transactions whose signing inputs fit in memory and are the
/// same were encoded for the same chain, have the same format and hold the same in
/// every field that is encoded. So a change of the chain, of the format or of such a
/// field changes the bytes that are hashed.
pub proof fn lemma_signing_input_injective(
    first: TypedTransactionView,
    first_chain: nat,
    second: TypedTransactionView,
    second_chain: nat,
)
    requires
        first.signing_input(first_chain).len() <= usize::MAX,
        second.signing_input(second_chain).len() <= usize::MAX,
        first.signing_input(first_chain) == second.signing_input(second_chain),
    ensures
        first_chain == second_chain,
        first.signed_content() == second.signed_content(),
{
    lemma_same_format(first, first_chain, second, second_chain);
    lemma_same_items(first, first_chain, second, second_chain);
    match (first, second) {
        (TypedTransactionView::Legacy(x), TypedTransactionView::Legacy(y)) => {
            lemma_legacy_same_content(x, first_chain, y, second_chain);
        },
        (TypedTransactionView::Eip2930(x), TypedTransactionView::Eip2930(y)) => {
            lemma_eip2930_same_content(x, first_chain, y, second_chain);
        },
        (TypedTransactionView::Eip1559(x), TypedTransactionView::Eip1559(y)) => {
            lemma_eip1559_same_content(x, first_chain, y, second_chain);
        },
        _ => {},
    }
}

/// The bytes that are hashed for signing tell nothing else: two transactions that
/// hold the same in what a signature covers have the same signing input on every
/// chain. So the sender, which is not covered, can change without a change of the
/// digest, and so can a number between absent and zero.
pub proof fn lemma_signing_input_of_content(
    first: TypedTransactionView,
    second: TypedTransactionView,
    chain_id: nat,
)
    requires
        first.signed_content() == second.signed_content(),
    ensures
        first.signing_input(chain_id) == second.signing_input(chain_id),
        first.sighash(chain_id) == second.sighash(chain_id),
{
    assert(be_bytes(0) =~= Seq::<u8>::empty());
    assert(forall|n: Option<nat>| #[trigger] rlp_opt_uint(n) == rlp_uint(number(n)));
    assert(forall|bytes: Option<Seq<u8>>| #[trigger]
        rlp_opt_bytes(bytes) == rlp_string(bytes_or_empty(bytes)));
    assert(forall|to: Option<NameOrAddressView>| #[trigger]
        rlp_recipient(to) == rlp_string(recipient_bytes(to)));
}

} // verus!
