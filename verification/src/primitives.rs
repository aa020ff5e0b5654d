//! The plain values that a transaction is made of.

use crate::big_endian::{be_value, lemma_u64_be_value, u64_be};
use vstd::prelude::*;
use vstd::std_specs::convert::FromSpecImpl;

verus! {

/// The conversion of a value into its own type, `From<T> for T` of the standard
/// library, returns the argument unchanged. A function that takes anything that
/// converts into a type can so be handed a value of that type itself.
pub assume_specification<V>[ <V as std::convert::From<V>>::from ](value: V) -> (same: V)
    ensures
        same == value,
;

/// An account address of twenty bytes.
#[derive(Clone, Copy, Debug, PartialEq, Eq)]
pub struct Address(pub [u8; 20]);

impl View for Address {
    type V = Seq<u8>;

    open spec fn view(&self) -> Seq<u8> {
        self.0@
    }
}

impl Address {
    /// The address whose bytes are all zero.
    pub fn zero() -> (a: Address)
        ensures
            a@ == Seq::new(20, |i: int| 0u8),
    {
        Address([0u8; 20])
    }
}

/// A digest of thirty-two bytes.
#[derive(Clone, Copy, Debug, PartialEq, Eq)]
pub struct H256(pub [u8; 32]);

impl View for H256 {
    type V = Seq<u8>;

    open spec fn view(&self) -> Seq<u8> {
        self.0@
    }
}

impl From<[u8; 32]> for H256 {
    fn from(bytes: [u8; 32]) -> (h: H256) {
        H256(bytes)
    }
}

impl FromSpecImpl<[u8; 32]> for H256 {
    open spec fn obeys_from_spec() -> bool {
        true
    }

    open spec fn from_spec(bytes: [u8; 32]) -> H256 {
        H256(bytes)
    }
}

/// An unsigned number of 64 bits, such as a chain identifier.
#[derive(Clone, Copy, Debug, PartialEq, Eq)]
pub struct U64(pub u64);

impl View for U64 {
    type V = nat;

    open spec fn view(&self) -> nat {
        self.0 as nat
    }
}

impl From<u64> for U64 {
    fn from(n: u64) -> (r: U64) {
        U64(n)
    }
}

impl FromSpecImpl<u64> for U64 {
    open spec fn obeys_from_spec() -> bool {
        true
    }

    open spec fn from_spec(n: u64) -> U64 {
        U64(n)
    }
}

/// An unsigned number of 256 bits, held as its thirty-two bytes, most significant
/// first.
#[derive(Clone, Copy, Debug, PartialEq, Eq)]
pub struct U256(pub [u8; 32]);

impl View for U256 {
    type V = nat;

    open spec fn view(&self) -> nat {
        be_value(self.0@)
    }
}

impl U256 {
    /// The number zero.
    pub fn zero() -> (r: U256)
        ensures
            r@ == 0,
    {
        let r = U256([0u8; 32]);
        proof {
            crate::big_endian::lemma_be_value_zero(r.0@);
        }
        r
    }
}

impl From<u64> for U256 {
    fn from(n: u64) -> (r: U256)
        ensures
            r@ == n as nat,
    {
        let r = U256(
            [
                0, 0, 0, 0, 0, 0, 0, 0, 0, 0, 0, 0, 0, 0, 0, 0, 0, 0, 0, 0, 0, 0, 0, 0,
                (n >> 56) as u8,
                (n >> 48) as u8,
                (n >> 40) as u8,
                (n >> 32) as u8,
                (n >> 24) as u8,
                (n >> 16) as u8,
                (n >> 8) as u8,
                n as u8,
            ],
        );
        proof {
            lemma_u256_of_u64(n);
        }
        r
    }
}

/// The 256-bit number whose low eight bytes are those of `n`.
pub open spec fn u256_of_u64(n: u64) -> U256 {
    U256(
        [
            0, 0, 0, 0, 0, 0, 0, 0, 0, 0, 0, 0, 0, 0, 0, 0, 0, 0, 0, 0, 0, 0, 0, 0,
            (n >> 56) as u8,
            (n >> 48) as u8,
            (n >> 40) as u8,
            (n >> 32) as u8,
            (n >> 24) as u8,
            (n >> 16) as u8,
            (n >> 8) as u8,
            n as u8,
        ],
    )
}

impl FromSpecImpl<u64> for U256 {
    open spec fn obeys_from_spec() -> bool {
        true
    }

    open spec fn from_spec(n: u64) -> U256 {
        u256_of_u64(n)
    }
}

/// The 256-bit number made from a 64-bit number has the same value.
pub proof fn lemma_u256_of_u64(n: u64)
    ensures
        u256_of_u64(n)@ == n as nat,
{
    let bytes = u256_of_u64(n).0@;
    assert(bytes.skip(24) =~= u64_be(n));
    assert(u64_be(n).len() == 8);
    lemma_u64_be_value(n);
    crate::big_endian::lemma_be_value_skip_zeros(bytes, 24);
}

/// A byte string of any length, such as the call data of a transaction.
#[derive(Clone, Debug, PartialEq, Eq)]
pub struct Bytes(pub Vec<u8>);

impl View for Bytes {
    type V = Seq<u8>;

    open spec fn view(&self) -> Seq<u8> {
        self.0@
    }
}

impl From<Vec<u8>> for Bytes {
    fn from(bytes: Vec<u8>) -> (b: Bytes) {
        Bytes(bytes)
    }
}

impl FromSpecImpl<Vec<u8>> for Bytes {
    open spec fn obeys_from_spec() -> bool {
        true
    }

    open spec fn from_spec(bytes: Vec<u8>) -> Bytes {
        Bytes(bytes)
    }
}

/// The recipient of a transaction: an address, or a name that stands for one until
/// it is resolved.
#[derive(Clone, Debug, PartialEq, Eq)]
pub enum NameOrAddress {
    /// A name that has yet to be resolved to an address.
    Name(String),
    /// An address.
    Address(Address),
}

/// What a [`NameOrAddress`] holds.
pub ghost enum NameOrAddressView {
    Name(Seq<char>),
    Address(Seq<u8>),
}

impl View for NameOrAddress {
    type V = NameOrAddressView;

    open spec fn view(&self) -> NameOrAddressView {
        match self {
            NameOrAddress::Name(name) => NameOrAddressView::Name(name@),
            NameOrAddress::Address(address) => NameOrAddressView::Address(address@),
        }
    }
}

impl From<Address> for NameOrAddress {
    fn from(address: Address) -> (r: NameOrAddress) {
        NameOrAddress::Address(address)
    }
}

impl FromSpecImpl<Address> for NameOrAddress {
    open spec fn obeys_from_spec() -> bool {
        true
    }

    open spec fn from_spec(address: Address) -> NameOrAddress {
        NameOrAddress::Address(address)
    }
}

impl From<String> for NameOrAddress {
    fn from(name: String) -> (r: NameOrAddress) {
        NameOrAddress::Name(name)
    }
}

impl FromSpecImpl<String> for NameOrAddress {
    open spec fn obeys_from_spec() -> bool {
        true
    }

    open spec fn from_spec(name: String) -> NameOrAddress {
        NameOrAddress::Name(name)
    }
}

/// A signature over a transaction. The library carries it into the signed encoding
/// and reads nothing from it.
#[derive(Clone, Copy, Debug, PartialEq, Eq)]
pub struct Signature {
    pub r: U256,
    pub s: U256,
    pub v: u64,
}

/// What a [`Signature`] holds.
pub ghost struct SignatureView {
    pub r: nat,
    pub s: nat,
    pub v: nat,
}

impl View for Signature {
    type V = SignatureView;

    open spec fn view(&self) -> SignatureView {
        SignatureView { r: self.r@, s: self.s@, v: self.v as nat }
    }
}

/// The view of what an optional field holds.
pub open spec fn view_of<T: View>(field: Option<T>) -> Option<T::V> {
    match field {
        Some(value) => Some(value@),
        None => None,
    }
}

/// Whether `converted` is a value that the conversion of `value` into `U` may return.
pub open spec fn converts_to<T: Into<U>, U>(value: T, converted: U) -> bool {
    call_ensures(T::into, (value,), converted)
}

} // verus!
