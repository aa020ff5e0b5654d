//! The typed transaction envelope: one type over the three transaction formats.

use crate::keccak::{keccak256, keccak256_digest};
use crate::primitives::{
    converts_to, view_of, Address, Bytes, NameOrAddress, NameOrAddressView, Signature,
    SignatureView, H256, U64,
};
use crate::request::{
    is_resolved, Eip1559TransactionRequest, Eip1559TransactionRequestView,
    Eip2930TransactionRequest, Eip2930TransactionRequestView, TransactionRequest,
    TransactionRequestView,
};
use crate::access_list::access_list_rlp;
use crate::rlp::{lemma_list_first_byte, rlp_uint, LIST_OFFSET};
use vstd::prelude::*;
use vstd::std_specs::convert::{FromSpec, FromSpecImpl};

verus! {

/// A transaction of one of the three formats.
#[derive(Clone, Debug, PartialEq, Eq)]
pub enum TypedTransaction {
    /// The format that predates typed transactions; its type byte is 0x00.
    Legacy(TransactionRequest),
    /// The access-list format; its type byte is 0x01.
    Eip2930(Eip2930TransactionRequest),
    /// The fee-market format; its type byte is 0x02.
    Eip1559(Eip1559TransactionRequest),
}

/// What a [`TypedTransaction`] holds.
pub ghost enum TypedTransactionView {
    Legacy(TransactionRequestView),
    Eip2930(Eip2930TransactionRequestView),
    Eip1559(Eip1559TransactionRequestView),
}

impl View for TypedTransaction {
    type V = TypedTransactionView;

    open spec fn view(&self) -> TypedTransactionView {
        match self {
            TypedTransaction::Legacy(inner) => TypedTransactionView::Legacy(inner@),
            TypedTransaction::Eip2930(inner) => TypedTransactionView::Eip2930(inner@),
            TypedTransaction::Eip1559(inner) => TypedTransactionView::Eip1559(inner@),
        }
    }
}

impl TypedTransactionView {
    /// The type byte of the format.
    pub open spec fn discriminant(self) -> u8 {
        match self {
            TypedTransactionView::Legacy(_) => 0,
            TypedTransactionView::Eip2930(_) => 1,
            TypedTransactionView::Eip1559(_) => 2,
        }
    }

    /// The sender, where one is set.
    pub open spec fn from(self) -> Option<Seq<u8>> {
        match self {
            TypedTransactionView::Legacy(inner) => inner.from,
            TypedTransactionView::Eip2930(inner) => inner.tx.from,
            TypedTransactionView::Eip1559(inner) => inner.from,
        }
    }

    /// The recipient, where one is set.
    pub open spec fn to(self) -> Option<NameOrAddressView> {
        match self {
            TypedTransactionView::Legacy(inner) => inner.to,
            TypedTransactionView::Eip2930(inner) => inner.tx.to,
            TypedTransactionView::Eip1559(inner) => inner.to,
        }
    }

    /// The call data, where some is set.
    pub open spec fn data(self) -> Option<Seq<u8>> {
        match self {
            TypedTransactionView::Legacy(inner) => inner.data,
            TypedTransactionView::Eip2930(inner) => inner.tx.data,
            TypedTransactionView::Eip1559(inner) => inner.data,
        }
    }

    /// This transaction with the recipient `to`: what setting the field of the
    /// format's own request gives.
    pub open spec fn with_to(self, to: NameOrAddressView) -> TypedTransactionView {
        match self {
            TypedTransactionView::Legacy(inner) => TypedTransactionView::Legacy(
                TransactionRequestView { to: Some(to), ..inner },
            ),
            TypedTransactionView::Eip2930(inner) => TypedTransactionView::Eip2930(
                Eip2930TransactionRequestView {
                    tx: TransactionRequestView { to: Some(to), ..inner.tx },
                    ..inner
                },
            ),
            TypedTransactionView::Eip1559(inner) => TypedTransactionView::Eip1559(
                Eip1559TransactionRequestView { to: Some(to), ..inner },
            ),
        }
    }

    /// This transaction with the call data `data`: what setting the field of the
    /// format's own request gives.
    pub open spec fn with_data(self, data: Seq<u8>) -> TypedTransactionView {
        match self {
            TypedTransactionView::Legacy(inner) => TypedTransactionView::Legacy(
                TransactionRequestView { data: Some(data), ..inner },
            ),
            TypedTransactionView::Eip2930(inner) => TypedTransactionView::Eip2930(
                Eip2930TransactionRequestView {
                    tx: TransactionRequestView { data: Some(data), ..inner.tx },
                    ..inner
                },
            ),
            TypedTransactionView::Eip1559(inner) => TypedTransactionView::Eip1559(
                Eip1559TransactionRequestView { data: Some(data), ..inner },
            ),
        }
    }

    /// The unsigned encoding for the chain `chain_id`: that of the format's own
    /// request.
    pub open spec fn rlp(self, chain_id: nat) -> Seq<u8> {
        match self {
            TypedTransactionView::Legacy(inner) => inner.rlp(chain_id),
            TypedTransactionView::Eip2930(inner) => inner.rlp(chain_id),
            TypedTransactionView::Eip1559(inner) => inner.rlp(chain_id),
        }
    }

    /// The encoding with `signature`: that of the format's own request.
    pub open spec fn rlp_signed(self, signature: SignatureView) -> Seq<u8> {
        match self {
            TypedTransactionView::Legacy(inner) => inner.rlp_signed(signature),
            TypedTransactionView::Eip2930(inner) => inner.rlp_signed(signature),
            TypedTransactionView::Eip1559(inner) => inner.rlp_signed(signature),
        }
    }

    /// The bytes that are hashed for signing on the chain `chain_id`. For the first
    /// format they are the unsigned encoding alone; for the typed formats the type
    /// byte comes first and the unsigned encoding follows it.
    pub open spec fn signing_input(self, chain_id: nat) -> Seq<u8> {
        match self {
            TypedTransactionView::Legacy(_) => self.rlp(chain_id),
            _ => seq![self.discriminant()] + self.rlp(chain_id),
        }
    }

    /// The digest that a signature for the chain `chain_id` is made over.
    pub open spec fn sighash(self, chain_id: nat) -> Seq<u8> {
        keccak256_digest(self.signing_input(chain_id))
    }
}

impl TypedTransaction {
    /// The type byte of the format of this transaction.
    pub fn discriminant(&self) -> (byte: u8)
        ensures
            byte == self@.discriminant(),
    {
        match self {
            TypedTransaction::Legacy(_) => 0,
            TypedTransaction::Eip2930(_) => 1,
            TypedTransaction::Eip1559(_) => 2,
        }
    }

    /// The sender, where one is set.
    pub fn from(&self) -> (sender: Option<&Address>)
        ensures
            view_of(sender) == self@.from(),
    {
        match self {
            TypedTransaction::Legacy(inner) => inner.from.as_ref(),
            TypedTransaction::Eip2930(inner) => inner.tx.from.as_ref(),
            TypedTransaction::Eip1559(inner) => inner.from.as_ref(),
        }
    }

    /// The recipient, where one is set.
    pub fn to(&self) -> (recipient: Option<&NameOrAddress>)
        ensures
            view_of(recipient) == self@.to(),
    {
        match self {
            TypedTransaction::Legacy(inner) => inner.to.as_ref(),
            TypedTransaction::Eip2930(inner) => inner.tx.to.as_ref(),
            TypedTransaction::Eip1559(inner) => inner.to.as_ref(),
        }
    }

    /// Sets the recipient to what `to` converts into, whatever it was before.
    pub fn set_to<T: Into<NameOrAddress>>(&mut self, to: T)
        ensures
            exists|recipient: NameOrAddress|
                converts_to(to, recipient) && final(self)@ == old(self)@.with_to(recipient@),
    {
        let recipient = to.into();
        assert(converts_to(to, recipient));
        match self {
            TypedTransaction::Legacy(inner) => inner.to = Some(recipient),
            TypedTransaction::Eip2930(inner) => inner.tx.to = Some(recipient),
            TypedTransaction::Eip1559(inner) => inner.to = Some(recipient),
        };
    }

    /// The call data, where some is set.
    pub fn data(&self) -> (data: Option<&Bytes>)
        ensures
            view_of(data) == self@.data(),
    {
        match self {
            TypedTransaction::Legacy(inner) => inner.data.as_ref(),
            TypedTransaction::Eip2930(inner) => inner.tx.data.as_ref(),
            TypedTransaction::Eip1559(inner) => inner.data.as_ref(),
        }
    }

    /// Sets the call data to `data`, whatever it was before.
    pub fn set_data(&mut self, data: Bytes)
        ensures
            final(self)@ == old(self)@.with_data(data@),
    {
        match self {
            TypedTransaction::Legacy(inner) => inner.data = Some(data),
            TypedTransaction::Eip2930(inner) => inner.tx.data = Some(data),
            TypedTransaction::Eip1559(inner) => inner.data = Some(data),
        };
    }

    /// Whether the recipient of this transaction can be encoded: it is absent or an
    /// address, not a name that is still to be resolved.
    pub fn is_resolved(&self) -> (resolved: bool)
        ensures
            resolved == is_resolved(self@.to()),
    {
        match self {
            TypedTransaction::Legacy(inner) => inner.is_resolved(),
            TypedTransaction::Eip2930(inner) => inner.is_resolved(),
            TypedTransaction::Eip1559(inner) => inner.is_resolved(),
        }
    }

    /// The encoding of this transaction with `signature`.
    pub fn rlp_signed(&self, signature: &Signature) -> (out: Bytes)
        requires
            is_resolved(self@.to()),
        ensures
            out@ == self@.rlp_signed(signature@),
    {
        match self {
            TypedTransaction::Legacy(inner) => inner.rlp_signed(signature),
            TypedTransaction::Eip2930(inner) => inner.rlp_signed(signature),
            TypedTransaction::Eip1559(inner) => inner.rlp_signed(signature),
        }
    }

    /// The unsigned encoding of this transaction for the chain that `chain_id`
    /// converts into.
    pub fn rlp<T: Into<U64>>(&self, chain_id: T) -> (out: Bytes)
        requires
            is_resolved(self@.to()),
        ensures
            exists|chain: U64| converts_to(chain_id, chain) && out@ == self@.rlp(chain@),
    {
        let chain = chain_id.into();
        assert(converts_to(chain_id, chain));
        match self {
            TypedTransaction::Legacy(inner) => inner.rlp(chain),
            TypedTransaction::Eip2930(inner) => inner.rlp(chain),
            TypedTransaction::Eip1559(inner) => inner.rlp(chain),
        }
    }

    /// The bytes that are hashed for signing on the chain that `chain_id` converts
    /// into.
    pub fn signing_input<T: Into<U64>>(&self, chain_id: T) -> (input: Vec<u8>)
        requires
            is_resolved(self@.to()),
        ensures
            exists|chain: U64|
                converts_to(chain_id, chain) && input@ == self@.signing_input(chain@),
    {
        let chain = chain_id.into();
        assert(converts_to(chain_id, chain));
        let encoded = self.rlp(chain);
        match self {
            TypedTransaction::Legacy(_) => encoded.0,
            _ => {
                let mut input: Vec<u8> = Vec::new();
                input.push(self.discriminant());
                input.extend_from_slice(encoded.0.as_slice());
                assert(input@ =~= seq![self@.discriminant()] + encoded@);
                input
            },
        }
    }

    /// The digest that a signature of this transaction for the chain that `chain_id`
    /// converts into is made over.
    pub fn sighash<T: Into<U64>>(&self, chain_id: T) -> (hash: H256)
        requires
            is_resolved(self@.to()),
        ensures
            exists|chain: U64| converts_to(chain_id, chain) && hash@ == self@.sighash(chain@),
    {
        let chain = chain_id.into();
        assert(converts_to(chain_id, chain));
        let input = self.signing_input(chain);
        H256::from(keccak256(input.as_slice()))
    }
}

impl From<TransactionRequest> for TypedTransaction {
    fn from(src: TransactionRequest) -> (tx: TypedTransaction) {
        TypedTransaction::Legacy(src)
    }
}

impl FromSpecImpl<TransactionRequest> for TypedTransaction {
    open spec fn obeys_from_spec() -> bool {
        true
    }

    open spec fn from_spec(src: TransactionRequest) -> TypedTransaction {
        TypedTransaction::Legacy(src)
    }
}

impl From<Eip2930TransactionRequest> for TypedTransaction {
    fn from(src: Eip2930TransactionRequest) -> (tx: TypedTransaction) {
        TypedTransaction::Eip2930(src)
    }
}

impl FromSpecImpl<Eip2930TransactionRequest> for TypedTransaction {
    open spec fn obeys_from_spec() -> bool {
        true
    }

    open spec fn from_spec(src: Eip2930TransactionRequest) -> TypedTransaction {
        TypedTransaction::Eip2930(src)
    }
}

impl From<Eip1559TransactionRequest> for TypedTransaction {
    fn from(src: Eip1559TransactionRequest) -> (tx: TypedTransaction) {
        TypedTransaction::Eip1559(src)
    }
}

impl FromSpecImpl<Eip1559TransactionRequest> for TypedTransaction {
    open spec fn obeys_from_spec() -> bool {
        true
    }

    open spec fn from_spec(src: Eip1559TransactionRequest) -> TypedTransaction {
        TypedTransaction::Eip1559(src)
    }
}

/// A request converts into the transaction of its own format that holds it: the
/// format is fixed by the type of the request, and nothing of the request is lost.
pub proof fn lemma_conversion_keeps_request(
    legacy: TransactionRequest,
    eip2930: Eip2930TransactionRequest,
    eip1559: Eip1559TransactionRequest,
)
    ensures
        <TypedTransaction as FromSpec<TransactionRequest>>::from_spec(legacy)@
            == TypedTransactionView::Legacy(legacy@),
        <TypedTransaction as FromSpec<Eip2930TransactionRequest>>::from_spec(eip2930)@
            == TypedTransactionView::Eip2930(eip2930@),
        <TypedTransaction as FromSpec<Eip1559TransactionRequest>>::from_spec(eip1559)@
            == TypedTransactionView::Eip1559(eip1559@),
{
}

/// Consistency of mutators and accessors: after a field is set the accessor gives
/// what was set, and setting one field leaves the sender, the other field and the
/// format as they were.
pub proof fn lemma_set_then_get(tx: TypedTransactionView, to: NameOrAddressView, data: Seq<u8>)
    ensures
        tx.with_to(to).to() == Some(to),
        tx.with_to(to).data() == tx.data(),
        tx.with_to(to).from() == tx.from(),
        tx.with_to(to).discriminant() == tx.discriminant(),
        tx.with_data(data).data() == Some(data),
        tx.with_data(data).to() == tx.to(),
        tx.with_data(data).from() == tx.from(),
        tx.with_data(data).discriminant() == tx.discriminant(),
{
}

/// A transaction made from a request with no field set has no sender, no recipient
/// and no call data, whatever its format.
pub proof fn lemma_new_is_unset(tx: TypedTransactionView)
    requires
        ({
            ||| tx == TypedTransactionView::Legacy(TransactionRequestView::empty())
            ||| tx matches TypedTransactionView::Eip2930(inner) && inner.tx
                == TransactionRequestView::empty()
            ||| tx == TypedTransactionView::Eip1559(Eip1559TransactionRequestView::empty())
        }),
    ensures
        tx.from() is None,
        tx.to() is None,
        tx.data() is None,
{
}

/// Determinism of the signing hash: the digest is fixed by what the transaction
/// holds and by the chain, so two digests computed for the same transaction and
/// chain are the same thirty-two bytes.
pub proof fn lemma_sighash_deterministic(
    tx: TypedTransactionView,
    chain_id: nat,
    first: H256,
    second: H256,
)
    requires
        first@ == tx.sighash(chain_id),
        second@ == tx.sighash(chain_id),
    ensures
        first == second,
{
    assert(first.0 =~= second.0);
}

/// Order of tag and payload: the bytes hashed for a transaction of the first format
/// are its unsigned encoding with nothing before it; those hashed for a typed
/// transaction are the type byte followed by the unsigned encoding. The other order,
/// with the type byte last, is never the same byte string.
pub proof fn lemma_signing_input_order(tx: TypedTransactionView, chain_id: nat)
    requires
        tx.rlp(chain_id).len() <= usize::MAX,
    ensures
        tx is Legacy ==> tx.signing_input(chain_id) == tx.rlp(chain_id),
        !(tx is Legacy) ==> tx.signing_input(chain_id) == seq![tx.discriminant()] + tx.rlp(
            chain_id,
        ),
        !(tx is Legacy) ==> tx.signing_input(chain_id) != tx.rlp(chain_id) + seq![
            tx.discriminant(),
        ],
        tx is Legacy ==> tx.signing_input(chain_id)[0] >= LIST_OFFSET,
{
    let encoded = tx.rlp(chain_id);
    assert(encoded.len() > 0 && encoded[0] >= LIST_OFFSET) by {
        match tx {
            TypedTransactionView::Legacy(inner) => {
                lemma_list_first_byte(
                    inner.rlp_base() + rlp_uint(chain_id) + rlp_uint(0) + rlp_uint(0),
                );
            },
            TypedTransactionView::Eip2930(inner) => {
                lemma_list_first_byte(
                    rlp_uint(chain_id) + inner.tx.rlp_base() + access_list_rlp(inner.access_list),
                );
            },
            TypedTransactionView::Eip1559(inner) => {
                lemma_list_first_byte(rlp_uint(chain_id) + inner.rlp_base());
            },
        }
    }
    if !(tx is Legacy) {
        let first = seq![tx.discriminant()] + encoded;
        let last = encoded + seq![tx.discriminant()];
        assert(first[0] == tx.discriminant());
        assert(last[0] == encoded[0]);
    }
}

} // verus!
