//! A typed transaction envelope: one type over the legacy, access-list and
//! fee-market transaction formats, with uniform access to the fields they share,
//! their canonical encodings, the digest that a signature is made over, and a tagged
//! interchange form.

pub mod access_list;
pub mod big_endian;
pub mod eip2718;
pub mod keccak;
pub mod primitives;
pub mod request;
pub mod rlp;
pub mod signed_content;
pub mod tagged;

pub use access_list::{AccessList, AccessListItem};
pub use eip2718::TypedTransaction;
pub use primitives::{Address, Bytes, NameOrAddress, Signature, H256, U256, U64};
pub use request::{Eip1559TransactionRequest, Eip2930TransactionRequest, TransactionRequest};
pub use tagged::{DecodeError, TaggedTransaction, TransactionFields};
