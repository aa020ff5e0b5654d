//! The three transaction formats and their canonical encodings.

use crate::access_list::{access_list_rlp, AccessList, AccessListItemView};
use crate::primitives::{
    converts_to, view_of, Address, Bytes, NameOrAddress, NameOrAddressView, Signature,
    SignatureView, U256, U64,
};
use crate::rlp::{
    append_string, append_u64, append_uint, encode_list, rlp_list, rlp_string, rlp_uint,
};
use vstd::prelude::*;
use vstd::seq_lib::lemma_concat_associative;

verus! {

/// The encoding of an optional number: an absent one is encoded as the empty string,
/// which is also the encoding of zero.
pub open spec fn rlp_opt_uint(n: Option<nat>) -> Seq<u8> {
    match n {
        Some(n) => rlp_uint(n),
        None => rlp_string(Seq::empty()),
    }
}

/// The encoding of an optional byte string: an absent one is encoded as the empty
/// string.
pub open spec fn rlp_opt_bytes(bytes: Option<Seq<u8>>) -> Seq<u8> {
    match bytes {
        Some(bytes) => rlp_string(bytes),
        None => rlp_string(Seq::empty()),
    }
}

/// Whether a recipient can be encoded: it is absent or an address, not a name that
/// is still to be resolved.
pub open spec fn is_resolved(to: Option<NameOrAddressView>) -> bool {
    !(to matches Some(NameOrAddressView::Name(_)))
}

/// The encoding of a resolved recipient: the address as a byte string, or the empty
/// string where there is none.
pub open spec fn rlp_recipient(to: Option<NameOrAddressView>) -> Seq<u8> {
    match to {
        Some(NameOrAddressView::Address(address)) => rlp_string(address),
        _ => rlp_string(Seq::empty()),
    }
}

/// The encoding of the three parts of a signature, in the order `v`, `r`, `s`.
pub open spec fn rlp_signature(signature: SignatureView) -> Seq<u8> {
    rlp_uint(signature.v) + rlp_uint(signature.r) + rlp_uint(signature.s)
}

fn append_opt_uint(out: &mut Vec<u8>, n: &Option<U256>)
    ensures
        final(out)@ == old(out)@ + rlp_opt_uint(view_of(*n)),
{
    match n {
        Some(n) => append_uint(out, n.0.as_slice()),
        None => {
            let empty: [u8; 0] = [];
            append_string(out, empty.as_slice());
            assert(empty@ =~= Seq::<u8>::empty());
        },
    }
}

fn append_opt_bytes(out: &mut Vec<u8>, bytes: &Option<Bytes>)
    ensures
        final(out)@ == old(out)@ + rlp_opt_bytes(view_of(*bytes)),
{
    match bytes {
        Some(bytes) => append_string(out, bytes.0.as_slice()),
        None => {
            let empty: [u8; 0] = [];
            append_string(out, empty.as_slice());
            assert(empty@ =~= Seq::<u8>::empty());
        },
    }
}

fn append_recipient(out: &mut Vec<u8>, to: &Option<NameOrAddress>)
    ensures
        final(out)@ == old(out)@ + rlp_recipient(view_of(*to)),
{
    match to {
        Some(NameOrAddress::Address(address)) => append_string(out, address.0.as_slice()),
        _ => {
            let empty: [u8; 0] = [];
            append_string(out, empty.as_slice());
            assert(empty@ =~= Seq::<u8>::empty());
        },
    }
}

fn recipient_is_resolved(to: &Option<NameOrAddress>) -> (resolved: bool)
    ensures
        resolved == is_resolved(view_of(*to)),
{
    match to {
        Some(NameOrAddress::Name(_)) => false,
        _ => true,
    }
}

fn append_signature(out: &mut Vec<u8>, signature: &Signature)
    ensures
        final(out)@ == old(out)@ + rlp_signature(signature@),
{
    append_u64(out, signature.v);
    append_uint(out, signature.r.0.as_slice());
    append_uint(out, signature.s.0.as_slice());
    assert(final(out)@ =~= old(out)@ + rlp_signature(signature@));
}

/// A transaction in the format that predates typed transactions.
#[derive(Clone, Debug, PartialEq, Eq)]
pub struct TransactionRequest {
    /// The sender.
    pub from: Option<Address>,
    /// The recipient; absent for a contract creation.
    pub to: Option<NameOrAddress>,
    /// The gas limit.
    pub gas: Option<U256>,
    /// The price of a unit of gas.
    pub gas_price: Option<U256>,
    /// The amount transferred.
    pub value: Option<U256>,
    /// The call data.
    pub data: Option<Bytes>,
    /// The sender's transaction count.
    pub nonce: Option<U256>,
}

/// What a [`TransactionRequest`] holds.
pub ghost struct TransactionRequestView {
    pub from: Option<Seq<u8>>,
    pub to: Option<NameOrAddressView>,
    pub gas: Option<nat>,
    pub gas_price: Option<nat>,
    pub value: Option<nat>,
    pub data: Option<Seq<u8>>,
    pub nonce: Option<nat>,
}

impl View for TransactionRequest {
    type V = TransactionRequestView;

    open spec fn view(&self) -> TransactionRequestView {
        TransactionRequestView {
            from: view_of(self.from),
            to: view_of(self.to),
            gas: view_of(self.gas),
            gas_price: view_of(self.gas_price),
            value: view_of(self.value),
            data: view_of(self.data),
            nonce: view_of(self.nonce),
        }
    }
}

impl TransactionRequestView {
    /// The request with no field set.
    pub open spec fn empty() -> TransactionRequestView {
        TransactionRequestView {
            from: None,
            to: None,
            gas: None,
            gas_price: None,
            value: None,
            data: None,
            nonce: None,
        }
    }

    /// The six encoded fields that the unsigned and the signed encoding share: nonce,
    /// gas price, gas limit, recipient, value and call data. The sender is not among
    /// them.
    pub open spec fn rlp_base(self) -> Seq<u8> {
        rlp_opt_uint(self.nonce) + rlp_opt_uint(self.gas_price) + rlp_opt_uint(self.gas)
            + rlp_recipient(self.to) + rlp_opt_uint(self.value) + rlp_opt_bytes(self.data)
    }

    /// The unsigned encoding for the chain `chain_id`: the list of the six shared
    /// fields, the chain identifier and two zeros.
    pub open spec fn rlp(self, chain_id: nat) -> Seq<u8> {
        rlp_list(self.rlp_base() + rlp_uint(chain_id) + rlp_uint(0) + rlp_uint(0))
    }

    /// The signed encoding: the list of the six shared fields and the signature.
    pub open spec fn rlp_signed(self, signature: SignatureView) -> Seq<u8> {
        rlp_list(self.rlp_base() + rlp_signature(signature))
    }
}

impl TransactionRequest {
    /// The request with no field set.
    pub fn new() -> (request: TransactionRequest)
        ensures
            request@ == TransactionRequestView::empty(),
    {
        TransactionRequest {
            from: None,
            to: None,
            gas: None,
            gas_price: None,
            value: None,
            data: None,
            nonce: None,
        }
    }

    /// Sets the sender.
    pub fn from<T: Into<Address>>(self, from: T) -> (request: TransactionRequest)
        ensures
            exists|sender: Address|
                converts_to(from, sender) && request@ == (TransactionRequestView {
                    from: Some(sender@),
                    ..self@
                }),
    {
        let converted = from.into();
        assert(converts_to(from, converted));
        let mut request = self;
        request.from = Some(converted);
        request
    }

    /// Sets the recipient.
    pub fn to<T: Into<NameOrAddress>>(self, to: T) -> (request: TransactionRequest)
        ensures
            exists|recipient: NameOrAddress|
                converts_to(to, recipient) && request@ == (TransactionRequestView {
                    to: Some(recipient@),
                    ..self@
                }),
    {
        let converted = to.into();
        assert(converts_to(to, converted));
        let mut request = self;
        request.to = Some(converted);
        request
    }

    /// Sets the gas limit.
    pub fn gas<T: Into<U256>>(self, gas: T) -> (request: TransactionRequest)
        ensures
            exists|limit: U256|
                converts_to(gas, limit) && request@ == (TransactionRequestView {
                    gas: Some(limit@),
                    ..self@
                }),
    {
        let converted = gas.into();
        assert(converts_to(gas, converted));
        let mut request = self;
        request.gas = Some(converted);
        request
    }

    /// Sets the gas price.
    pub fn gas_price<T: Into<U256>>(self, gas_price: T) -> (request: TransactionRequest)
        ensures
            exists|price: U256|
                converts_to(gas_price, price) && request@ == (TransactionRequestView {
                    gas_price: Some(price@),
                    ..self@
                }),
    {
        let converted = gas_price.into();
        assert(converts_to(gas_price, converted));
        let mut request = self;
        request.gas_price = Some(converted);
        request
    }

    /// Sets the amount transferred.
    pub fn value<T: Into<U256>>(self, value: T) -> (request: TransactionRequest)
        ensures
            exists|amount: U256|
                converts_to(value, amount) && request@ == (TransactionRequestView {
                    value: Some(amount@),
                    ..self@
                }),
    {
        let converted = value.into();
        assert(converts_to(value, converted));
        let mut request = self;
        request.value = Some(converted);
        request
    }

    /// Sets the call data.
    pub fn data<T: Into<Bytes>>(self, data: T) -> (request: TransactionRequest)
        ensures
            exists|bytes: Bytes|
                converts_to(data, bytes) && request@ == (TransactionRequestView {
                    data: Some(bytes@),
                    ..self@
                }),
    {
        let converted = data.into();
        assert(converts_to(data, converted));
        let mut request = self;
        request.data = Some(converted);
        request
    }

    /// Sets the nonce.
    pub fn nonce<T: Into<U256>>(self, nonce: T) -> (request: TransactionRequest)
        ensures
            exists|count: U256|
                converts_to(nonce, count) && request@ == (TransactionRequestView {
                    nonce: Some(count@),
                    ..self@
                }),
    {
        let converted = nonce.into();
        assert(converts_to(nonce, converted));
        let mut request = self;
        request.nonce = Some(converted);
        request
    }

    /// Whether the recipient of this request can be encoded.
    pub fn is_resolved(&self) -> (resolved: bool)
        ensures
            resolved == is_resolved(self@.to),
    {
        recipient_is_resolved(&self.to)
    }

    fn append_base(&self, out: &mut Vec<u8>)
        ensures
            final(out)@ == old(out)@ + self@.rlp_base(),
    {
        append_opt_uint(out, &self.nonce);
        append_opt_uint(out, &self.gas_price);
        append_opt_uint(out, &self.gas);
        append_recipient(out, &self.to);
        append_opt_uint(out, &self.value);
        append_opt_bytes(out, &self.data);
        assert(final(out)@ =~= old(out)@ + self@.rlp_base());
    }

    /// The unsigned encoding of this request for the chain `chain_id`.
    pub fn rlp(&self, chain_id: U64) -> (out: Bytes)
        requires
            is_resolved(self@.to),
        ensures
            out@ == self@.rlp(chain_id@),
    {
        let mut payload: Vec<u8> = Vec::new();
        self.append_base(&mut payload);
        append_u64(&mut payload, chain_id.0);
        append_u64(&mut payload, 0);
        append_u64(&mut payload, 0);
        assert(payload@ =~= self@.rlp_base() + rlp_uint(chain_id@) + rlp_uint(0) + rlp_uint(0));
        Bytes(encode_list(payload.as_slice()))
    }

    /// The encoding of this request with `signature`.
    pub fn rlp_signed(&self, signature: &Signature) -> (out: Bytes)
        requires
            is_resolved(self@.to),
        ensures
            out@ == self@.rlp_signed(signature@),
    {
        let mut payload: Vec<u8> = Vec::new();
        self.append_base(&mut payload);
        append_signature(&mut payload, signature);
        assert(payload@ =~= self@.rlp_base() + rlp_signature(signature@));
        Bytes(encode_list(payload.as_slice()))
    }
}

/// A transaction of the access-list format: the fields of the first format and an
/// access list.
#[derive(Clone, Debug, PartialEq, Eq)]
pub struct Eip2930TransactionRequest {
    /// The fields shared with the first format.
    pub tx: TransactionRequest,
    /// The addresses and storage keys that the transaction will touch.
    pub access_list: AccessList,
}

/// What an [`Eip2930TransactionRequest`] holds.
pub ghost struct Eip2930TransactionRequestView {
    pub tx: TransactionRequestView,
    pub access_list: Seq<AccessListItemView>,
}

impl View for Eip2930TransactionRequest {
    type V = Eip2930TransactionRequestView;

    open spec fn view(&self) -> Eip2930TransactionRequestView {
        Eip2930TransactionRequestView { tx: self.tx@, access_list: self.access_list@ }
    }
}

impl Eip2930TransactionRequestView {
    /// The unsigned encoding for the chain `chain_id`: the list of the chain
    /// identifier, the six fields of the first format and the access list.
    pub open spec fn rlp(self, chain_id: nat) -> Seq<u8> {
        rlp_list(rlp_uint(chain_id) + self.tx.rlp_base() + access_list_rlp(self.access_list))
    }

    /// The signed encoding: the list of the six fields of the first format, the
    /// access list and the signature.
    pub open spec fn rlp_signed(self, signature: SignatureView) -> Seq<u8> {
        rlp_list(self.tx.rlp_base() + access_list_rlp(self.access_list) + rlp_signature(signature))
    }
}

impl Eip2930TransactionRequest {
    /// The request made of `tx` and `access_list`.
    pub fn new(tx: TransactionRequest, access_list: AccessList) -> (request:
        Eip2930TransactionRequest)
        ensures
            request@ == (Eip2930TransactionRequestView { tx: tx@, access_list: access_list@ }),
    {
        Eip2930TransactionRequest { tx, access_list }
    }

    /// Whether the recipient of this request can be encoded.
    pub fn is_resolved(&self) -> (resolved: bool)
        ensures
            resolved == is_resolved(self@.tx.to),
    {
        recipient_is_resolved(&self.tx.to)
    }

    /// The unsigned encoding of this request for the chain `chain_id`.
    pub fn rlp(&self, chain_id: U64) -> (out: Bytes)
        requires
            is_resolved(self@.tx.to),
        ensures
            out@ == self@.rlp(chain_id@),
    {
        let mut payload: Vec<u8> = Vec::new();
        append_u64(&mut payload, chain_id.0);
        self.tx.append_base(&mut payload);
        self.access_list.rlp_append(&mut payload);
        assert(payload@ =~= rlp_uint(chain_id@) + self@.tx.rlp_base() + access_list_rlp(
            self@.access_list,
        ));
        Bytes(encode_list(payload.as_slice()))
    }

    /// The encoding of this request with `signature`.
    pub fn rlp_signed(&self, signature: &Signature) -> (out: Bytes)
        requires
            is_resolved(self@.tx.to),
        ensures
            out@ == self@.rlp_signed(signature@),
    {
        let mut payload: Vec<u8> = Vec::new();
        self.tx.append_base(&mut payload);
        self.access_list.rlp_append(&mut payload);
        append_signature(&mut payload, signature);
        assert(payload@ =~= self@.tx.rlp_base() + access_list_rlp(self@.access_list)
            + rlp_signature(signature@));
        Bytes(encode_list(payload.as_slice()))
    }
}

/// A transaction of the fee-market format.
#[derive(Clone, Debug, PartialEq, Eq)]
pub struct Eip1559TransactionRequest {
    /// The sender.
    pub from: Option<Address>,
    /// The recipient; absent for a contract creation.
    pub to: Option<NameOrAddress>,
    /// The gas limit.
    pub gas: Option<U256>,
    /// The amount transferred.
    pub value: Option<U256>,
    /// The call data.
    pub data: Option<Bytes>,
    /// The sender's transaction count.
    pub nonce: Option<U256>,
    /// The addresses and storage keys that the transaction will touch.
    pub access_list: AccessList,
    /// The most that the sender pays per unit of gas on top of the base fee.
    pub max_priority_fee_per_gas: Option<U256>,
    /// The most that the sender pays per unit of gas in all.
    pub max_fee_per_gas: Option<U256>,
}

/// What an [`Eip1559TransactionRequest`] holds.
pub ghost struct Eip1559TransactionRequestView {
    pub from: Option<Seq<u8>>,
    pub to: Option<NameOrAddressView>,
    pub gas: Option<nat>,
    pub value: Option<nat>,
    pub data: Option<Seq<u8>>,
    pub nonce: Option<nat>,
    pub access_list: Seq<AccessListItemView>,
    pub max_priority_fee_per_gas: Option<nat>,
    pub max_fee_per_gas: Option<nat>,
}

impl View for Eip1559TransactionRequest {
    type V = Eip1559TransactionRequestView;

    open spec fn view(&self) -> Eip1559TransactionRequestView {
        Eip1559TransactionRequestView {
            from: view_of(self.from),
            to: view_of(self.to),
            gas: view_of(self.gas),
            value: view_of(self.value),
            data: view_of(self.data),
            nonce: view_of(self.nonce),
            access_list: self.access_list@,
            max_priority_fee_per_gas: view_of(self.max_priority_fee_per_gas),
            max_fee_per_gas: view_of(self.max_fee_per_gas),
        }
    }
}

impl Eip1559TransactionRequestView {
    /// The request with no field set and an empty access list.
    pub open spec fn empty() -> Eip1559TransactionRequestView {
        Eip1559TransactionRequestView {
            from: None,
            to: None,
            gas: None,
            value: None,
            data: None,
            nonce: None,
            access_list: Seq::empty(),
            max_priority_fee_per_gas: None,
            max_fee_per_gas: None,
        }
    }

    /// The eight encoded fields that the unsigned and the signed encoding share:
    /// nonce, the two fee limits, gas limit, recipient, value, call data and access
    /// list. The sender is not among them.
    pub open spec fn rlp_base(self) -> Seq<u8> {
        rlp_opt_uint(self.nonce) + rlp_opt_uint(self.max_priority_fee_per_gas) + rlp_opt_uint(
            self.max_fee_per_gas,
        ) + rlp_opt_uint(self.gas) + rlp_recipient(self.to) + rlp_opt_uint(self.value)
            + rlp_opt_bytes(self.data) + access_list_rlp(self.access_list)
    }

    /// The unsigned encoding for the chain `chain_id`: the list of the chain
    /// identifier and the eight shared fields.
    pub open spec fn rlp(self, chain_id: nat) -> Seq<u8> {
        rlp_list(rlp_uint(chain_id) + self.rlp_base())
    }

    /// The signed encoding: the list of the eight shared fields and the signature.
    pub open spec fn rlp_signed(self, signature: SignatureView) -> Seq<u8> {
        rlp_list(self.rlp_base() + rlp_signature(signature))
    }
}

impl Eip1559TransactionRequest {
    /// The request with no field set and an empty access list.
    pub fn new() -> (request: Eip1559TransactionRequest)
        ensures
            request@ == Eip1559TransactionRequestView::empty(),
    {
        Eip1559TransactionRequest {
            from: None,
            to: None,
            gas: None,
            value: None,
            data: None,
            nonce: None,
            access_list: AccessList::new(),
            max_priority_fee_per_gas: None,
            max_fee_per_gas: None,
        }
    }

    /// Sets the sender.
    pub fn from<T: Into<Address>>(self, from: T) -> (request: Eip1559TransactionRequest)
        ensures
            exists|sender: Address|
                converts_to(from, sender) && request@ == (Eip1559TransactionRequestView {
                    from: Some(sender@),
                    ..self@
                }),
    {
        let converted = from.into();
        assert(converts_to(from, converted));
        let mut request = self;
        request.from = Some(converted);
        request
    }

    /// Sets the recipient.
    pub fn to<T: Into<NameOrAddress>>(self, to: T) -> (request: Eip1559TransactionRequest)
        ensures
            exists|recipient: NameOrAddress|
                converts_to(to, recipient) && request@ == (Eip1559TransactionRequestView {
                    to: Some(recipient@),
                    ..self@
                }),
    {
        let converted = to.into();
        assert(converts_to(to, converted));
        let mut request = self;
        request.to = Some(converted);
        request
    }

    /// Sets the gas limit.
    pub fn gas<T: Into<U256>>(self, gas: T) -> (request: Eip1559TransactionRequest)
        ensures
            exists|limit: U256|
                converts_to(gas, limit) && request@ == (Eip1559TransactionRequestView {
                    gas: Some(limit@),
                    ..self@
                }),
    {
        let converted = gas.into();
        assert(converts_to(gas, converted));
        let mut request = self;
        request.gas = Some(converted);
        request
    }

    /// Sets the amount transferred.
    pub fn value<T: Into<U256>>(self, value: T) -> (request: Eip1559TransactionRequest)
        ensures
            exists|amount: U256|
                converts_to(value, amount) && request@ == (Eip1559TransactionRequestView {
                    value: Some(amount@),
                    ..self@
                }),
    {
        let converted = value.into();
        assert(converts_to(value, converted));
        let mut request = self;
        request.value = Some(converted);
        request
    }

    /// Sets the call data.
    pub fn data<T: Into<Bytes>>(self, data: T) -> (request: Eip1559TransactionRequest)
        ensures
            exists|bytes: Bytes|
                converts_to(data, bytes) && request@ == (Eip1559TransactionRequestView {
                    data: Some(bytes@),
                    ..self@
                }),
    {
        let converted = data.into();
        assert(converts_to(data, converted));
        let mut request = self;
        request.data = Some(converted);
        request
    }

    /// Sets the nonce.
    pub fn nonce<T: Into<U256>>(self, nonce: T) -> (request: Eip1559TransactionRequest)
        ensures
            exists|count: U256|
                converts_to(nonce, count) && request@ == (Eip1559TransactionRequestView {
                    nonce: Some(count@),
                    ..self@
                }),
    {
        let converted = nonce.into();
        assert(converts_to(nonce, converted));
        let mut request = self;
        request.nonce = Some(converted);
        request
    }

    /// Sets the access list.
    pub fn access_list<T: Into<AccessList>>(self, access_list: T) -> (request:
        Eip1559TransactionRequest)
        ensures
            exists|list: AccessList|
                converts_to(access_list, list) && request@ == (Eip1559TransactionRequestView {
                    access_list: list@,
                    ..self@
                }),
    {
        let converted = access_list.into();
        assert(converts_to(access_list, converted));
        let mut request = self;
        request.access_list = converted;
        request
    }

    /// Sets the priority fee limit.
    pub fn max_priority_fee_per_gas<T: Into<U256>>(self, max_priority_fee_per_gas: T) -> (request:
        Eip1559TransactionRequest)
        ensures
            exists|fee: U256|
                converts_to(max_priority_fee_per_gas, fee) && request@ == (
                Eip1559TransactionRequestView { max_priority_fee_per_gas: Some(fee@), ..self@ }),
    {
        let converted = max_priority_fee_per_gas.into();
        assert(converts_to(max_priority_fee_per_gas, converted));
        let mut request = self;
        request.max_priority_fee_per_gas = Some(converted);
        request
    }

    /// Sets the fee limit.
    pub fn max_fee_per_gas<T: Into<U256>>(self, max_fee_per_gas: T) -> (request:
        Eip1559TransactionRequest)
        ensures
            exists|fee: U256|
                converts_to(max_fee_per_gas, fee) && request@ == (Eip1559TransactionRequestView {
                    max_fee_per_gas: Some(fee@),
                    ..self@
                }),
    {
        let converted = max_fee_per_gas.into();
        assert(converts_to(max_fee_per_gas, converted));
        let mut request = self;
        request.max_fee_per_gas = Some(converted);
        request
    }

    /// Whether the recipient of this request can be encoded.
    pub fn is_resolved(&self) -> (resolved: bool)
        ensures
            resolved == is_resolved(self@.to),
    {
        recipient_is_resolved(&self.to)
    }

    fn append_base(&self, out: &mut Vec<u8>)
        ensures
            final(out)@ == old(out)@ + self@.rlp_base(),
    {
        let ghost view = self@;
        let ghost before = out@;
        append_opt_uint(out, &self.nonce);
        let ghost done = rlp_opt_uint(view.nonce);
        append_opt_uint(out, &self.max_priority_fee_per_gas);
        proof {
            lemma_concat_associative(before, done, rlp_opt_uint(view.max_priority_fee_per_gas));
        }
        let ghost done = done + rlp_opt_uint(view.max_priority_fee_per_gas);
        append_opt_uint(out, &self.max_fee_per_gas);
        proof {
            lemma_concat_associative(before, done, rlp_opt_uint(view.max_fee_per_gas));
        }
        let ghost done = done + rlp_opt_uint(view.max_fee_per_gas);
        append_opt_uint(out, &self.gas);
        proof {
            lemma_concat_associative(before, done, rlp_opt_uint(view.gas));
        }
        let ghost done = done + rlp_opt_uint(view.gas);
        append_recipient(out, &self.to);
        proof {
            lemma_concat_associative(before, done, rlp_recipient(view.to));
        }
        let ghost done = done + rlp_recipient(view.to);
        append_opt_uint(out, &self.value);
        proof {
            lemma_concat_associative(before, done, rlp_opt_uint(view.value));
        }
        let ghost done = done + rlp_opt_uint(view.value);
        append_opt_bytes(out, &self.data);
        proof {
            lemma_concat_associative(before, done, rlp_opt_bytes(view.data));
        }
        let ghost done = done + rlp_opt_bytes(view.data);
        self.access_list.rlp_append(out);
        proof {
            lemma_concat_associative(before, done, access_list_rlp(view.access_list));
        }
    }

    /// The unsigned encoding of this request for the chain `chain_id`.
    pub fn rlp(&self, chain_id: U64) -> (out: Bytes)
        requires
            is_resolved(self@.to),
        ensures
            out@ == self@.rlp(chain_id@),
    {
        let mut payload: Vec<u8> = Vec::new();
        append_u64(&mut payload, chain_id.0);
        self.append_base(&mut payload);
        assert(payload@ =~= rlp_uint(chain_id@) + self@.rlp_base());
        Bytes(encode_list(payload.as_slice()))
    }

    /// The encoding of this request with `signature`.
    pub fn rlp_signed(&self, signature: &Signature) -> (out: Bytes)
        requires
            is_resolved(self@.to),
        ensures
            out@ == self@.rlp_signed(signature@),
    {
        let mut payload: Vec<u8> = Vec::new();
        self.append_base(&mut payload);
        append_signature(&mut payload, signature);
        assert(payload@ =~= self@.rlp_base() + rlp_signature(signature@));
        Bytes(encode_list(payload.as_slice()))
    }
}

} // verus!
