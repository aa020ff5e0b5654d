//! The list of addresses and storage keys that a transaction declares it will touch.

use crate::primitives::{Address, H256};
use crate::rlp::{
    append_list, append_string, concat, is_item, lemma_concat_injective, lemma_concat_len,
    lemma_first_item, lemma_list_injective, lemma_list_is_item, lemma_string_injective,
    lemma_string_is_item, rlp_list, rlp_string,
};
use vstd::prelude::*;

verus! {

/// An address and the storage keys under it.
#[derive(Clone, Debug, PartialEq, Eq)]
pub struct AccessListItem {
    pub address: Address,
    pub storage_keys: Vec<H256>,
}

/// What an [`AccessListItem`] holds.
pub ghost struct AccessListItemView {
    pub address: Seq<u8>,
    pub storage_keys: Seq<Seq<u8>>,
}

impl View for AccessListItem {
    type V = AccessListItemView;

    open spec fn view(&self) -> AccessListItemView {
        AccessListItemView {
            address: self.address@,
            storage_keys: self.storage_keys@.map_values(|key: H256| key@),
        }
    }
}

/// The entries of an access list, in order.
#[derive(Clone, Debug, PartialEq, Eq)]
pub struct AccessList(pub Vec<AccessListItem>);

impl View for AccessList {
    type V = Seq<AccessListItemView>;

    open spec fn view(&self) -> Seq<AccessListItemView> {
        self.0@.map_values(|item: AccessListItem| item@)
    }
}

/// The encoding of a list of storage keys: the list of the keys as byte strings.
pub open spec fn storage_keys_rlp(keys: Seq<Seq<u8>>) -> Seq<u8> {
    rlp_list(concat(keys.map_values(|key: Seq<u8>| rlp_string(key))))
}

/// The encoding of one entry: the list of its address and of its storage keys.
pub open spec fn access_item_rlp(item: AccessListItemView) -> Seq<u8> {
    rlp_list(rlp_string(item.address) + storage_keys_rlp(item.storage_keys))
}

/// The encoding of an access list: the list of its entries.
pub open spec fn access_list_rlp(list: Seq<AccessListItemView>) -> Seq<u8> {
    rlp_list(concat(list.map_values(|item: AccessListItemView| access_item_rlp(item))))
}

impl AccessListItem {
    /// Appends the encoding of this entry to `out`.
    pub fn rlp_append(&self, out: &mut Vec<u8>)
        ensures
            final(out)@ == old(out)@ + access_item_rlp(self@),
    {
        let ghost encoded = self@.storage_keys.map_values(|key: Seq<u8>| rlp_string(key));
        let mut keys: Vec<u8> = Vec::new();
        let mut i: usize = 0;
        while i < self.storage_keys.len()
            invariant
                i <= self.storage_keys.len(),
                encoded == self@.storage_keys.map_values(|key: Seq<u8>| rlp_string(key)),
                keys@ == concat(encoded.take(i as int)),
            decreases self.storage_keys.len() - i,
        {
            append_string(&mut keys, self.storage_keys[i].0.as_slice());
            proof {
                assert(encoded.take(i + 1).drop_last() =~= encoded.take(i as int));
            }
            i += 1;
        }
        proof {
            assert(encoded.take(i as int) =~= encoded);
        }
        let mut payload: Vec<u8> = Vec::new();
        append_string(&mut payload, self.address.0.as_slice());
        append_list(&mut payload, keys.as_slice());
        append_list(out, payload.as_slice());
    }
}

impl AccessList {
    /// The access list without entries.
    pub fn new() -> (list: AccessList)
        ensures
            list@ == Seq::<AccessListItemView>::empty(),
    {
        let list = AccessList(Vec::new());
        assert(list@ =~= Seq::<AccessListItemView>::empty());
        list
    }

    /// Appends the encoding of this access list to `out`.
    pub fn rlp_append(&self, out: &mut Vec<u8>)
        ensures
            final(out)@ == old(out)@ + access_list_rlp(self@),
    {
        let ghost encoded = self@.map_values(|item: AccessListItemView| access_item_rlp(item));
        let mut payload: Vec<u8> = Vec::new();
        let mut i: usize = 0;
        while i < self.0.len()
            invariant
                i <= self.0.len(),
                encoded == self@.map_values(|item: AccessListItemView| access_item_rlp(item)),
                payload@ == concat(encoded.take(i as int)),
            decreases self.0.len() - i,
        {
            self.0[i].rlp_append(&mut payload);
            proof {
                assert(encoded.take(i + 1).drop_last() =~= encoded.take(i as int));
            }
            i += 1;
        }
        proof {
            assert(encoded.take(i as int) =~= encoded);
        }
        append_list(out, payload.as_slice());
    }
}

/// Two lists of storage keys whose encodings fit in memory and are the same are
/// the same.
pub proof fn lemma_storage_keys_injective(first: Seq<Seq<u8>>, second: Seq<Seq<u8>>)
    requires
        storage_keys_rlp(first).len() <= u64::MAX,
        storage_keys_rlp(second).len() <= u64::MAX,
        storage_keys_rlp(first) == storage_keys_rlp(second),
    ensures
        first == second,
{
    let encoded_first = first.map_values(|key: Seq<u8>| rlp_string(key));
    let encoded_second = second.map_values(|key: Seq<u8>| rlp_string(key));
    lemma_list_injective(concat(encoded_first), concat(encoded_second));
    assert forall|i: int| 0 <= i < encoded_first.len() implies is_item(
        #[trigger] encoded_first[i],
    ) by {
        lemma_concat_len(encoded_first, i);
        lemma_string_is_item(first[i]);
    }
    assert forall|i: int| 0 <= i < encoded_second.len() implies is_item(
        #[trigger] encoded_second[i],
    ) by {
        lemma_concat_len(encoded_second, i);
        lemma_string_is_item(second[i]);
    }
    lemma_concat_injective(encoded_first, encoded_second);
    assert forall|i: int| 0 <= i < first.len() implies first[i] == second[i] by {
        lemma_concat_len(encoded_first, i);
        lemma_concat_len(encoded_second, i);
        assert(encoded_first[i] == rlp_string(first[i]));
        assert(encoded_second[i] == rlp_string(second[i]));
        lemma_string_injective(first[i], second[i]);
    }
    assert(first.len() == encoded_first.len() && second.len() == encoded_second.len());
    assert(first =~= second);
}

/// Two entries whose encodings fit in memory and are the same are the same.
pub proof fn lemma_access_item_injective(first: AccessListItemView, second: AccessListItemView)
    requires
        access_item_rlp(first).len() <= u64::MAX,
        access_item_rlp(second).len() <= u64::MAX,
        access_item_rlp(first) == access_item_rlp(second),
    ensures
        first == second,
{
    lemma_list_injective(
        rlp_string(first.address) + storage_keys_rlp(first.storage_keys),
        rlp_string(second.address) + storage_keys_rlp(second.storage_keys),
    );
    lemma_string_is_item(first.address);
    lemma_string_is_item(second.address);
    lemma_first_item(
        rlp_string(first.address),
        storage_keys_rlp(first.storage_keys),
        rlp_string(second.address),
        storage_keys_rlp(second.storage_keys),
    );
    lemma_string_injective(first.address, second.address);
    lemma_storage_keys_injective(first.storage_keys, second.storage_keys);
}

/// The encoding of an access list tells the list: two access lists whose encodings
/// fit in memory and are the same are the same.
pub proof fn lemma_access_list_injective(
    first: Seq<AccessListItemView>,
    second: Seq<AccessListItemView>,
)
    requires
        access_list_rlp(first).len() <= u64::MAX,
        access_list_rlp(second).len() <= u64::MAX,
        access_list_rlp(first) == access_list_rlp(second),
    ensures
        first == second,
{
    let encoded_first = first.map_values(|item: AccessListItemView| access_item_rlp(item));
    let encoded_second = second.map_values(|item: AccessListItemView| access_item_rlp(item));
    lemma_list_injective(concat(encoded_first), concat(encoded_second));
    assert forall|i: int| 0 <= i < encoded_first.len() implies is_item(
        #[trigger] encoded_first[i],
    ) by {
        lemma_concat_len(encoded_first, i);
        lemma_list_is_item(
            rlp_string(first[i].address) + storage_keys_rlp(first[i].storage_keys),
        );
    }
    assert forall|i: int| 0 <= i < encoded_second.len() implies is_item(
        #[trigger] encoded_second[i],
    ) by {
        lemma_concat_len(encoded_second, i);
        lemma_list_is_item(
            rlp_string(second[i].address) + storage_keys_rlp(second[i].storage_keys),
        );
    }
    lemma_concat_injective(encoded_first, encoded_second);
    assert forall|i: int| 0 <= i < first.len() implies first[i] == second[i] by {
        lemma_concat_len(encoded_first, i);
        lemma_concat_len(encoded_second, i);
        assert(encoded_first[i] == access_item_rlp(first[i]));
        assert(encoded_second[i] == access_item_rlp(second[i]));
        lemma_access_item_injective(first[i], second[i]);
    }
    assert(first.len() == encoded_first.len() && second.len() == encoded_second.len());
    assert(first =~= second);
}

/// The encoding of an access list that fits in memory is one whole item.
pub proof fn lemma_access_list_is_item(list: Seq<AccessListItemView>)
    requires
        access_list_rlp(list).len() <= u64::MAX,
    ensures
        is_item(access_list_rlp(list)),
{
    lemma_list_is_item(
        concat(list.map_values(|item: AccessListItemView| access_item_rlp(item))),
    );
}

} // verus!
