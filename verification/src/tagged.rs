//! The interchange form of a transaction: its fields beside a tag that names its
//! format.

use crate::access_list::{AccessList, AccessListItemView};
use crate::eip2718::{TypedTransaction, TypedTransactionView};
use crate::primitives::{view_of, Address, Bytes, NameOrAddress, NameOrAddressView, U256};
use crate::request::{
    Eip1559TransactionRequest, Eip1559TransactionRequestView, Eip2930TransactionRequest,
    Eip2930TransactionRequestView, TransactionRequest, TransactionRequestView,
};
use vstd::prelude::*;

verus! {

/// The lower-case hexadecimal digit of a number below sixteen.
pub open spec fn hex_digit(n: int) -> char {
    if n == 0 {
        '0'
    } else if n == 1 {
        '1'
    } else if n == 2 {
        '2'
    } else if n == 3 {
        '3'
    } else if n == 4 {
        '4'
    } else if n == 5 {
        '5'
    } else if n == 6 {
        '6'
    } else if n == 7 {
        '7'
    } else if n == 8 {
        '8'
    } else if n == 9 {
        '9'
    } else if n == 10 {
        'a'
    } else if n == 11 {
        'b'
    } else if n == 12 {
        'c'
    } else if n == 13 {
        'd'
    } else if n == 14 {
        'e'
    } else {
        'f'
    }
}

/// The number that a lower-case hexadecimal digit stands for; none for any other
/// character.
pub open spec fn hex_value(c: char) -> Option<u8> {
    if c == '0' {
        Some(0)
    } else if c == '1' {
        Some(1)
    } else if c == '2' {
        Some(2)
    } else if c == '3' {
        Some(3)
    } else if c == '4' {
        Some(4)
    } else if c == '5' {
        Some(5)
    } else if c == '6' {
        Some(6)
    } else if c == '7' {
        Some(7)
    } else if c == '8' {
        Some(8)
    } else if c == '9' {
        Some(9)
    } else if c == 'a' {
        Some(10)
    } else if c == 'b' {
        Some(11)
    } else if c == 'c' {
        Some(12)
    } else if c == 'd' {
        Some(13)
    } else if c == 'e' {
        Some(14)
    } else if c == 'f' {
        Some(15)
    } else {
        None
    }
}

/// The tag of a type byte: `0x` and the byte as two lower-case hexadecimal digits.
pub open spec fn type_tag(byte: u8) -> Seq<char> {
    seq!['0', 'x', hex_digit(byte as int / 16), hex_digit(byte as int % 16)]
}

/// The type byte that a tag stands for; none where the text is not a tag.
pub open spec fn type_of_tag(tag: Seq<char>) -> Option<u8> {
    if tag.len() == 4 && tag[0] == '0' && tag[1] == 'x' {
        match (hex_value(tag[2]), hex_value(tag[3])) {
            (Some(high), Some(low)) => Some((high * 16 + low) as u8),
            _ => None,
        }
    } else {
        None
    }
}

/// Reading the tag of a type byte gives the byte back.
pub proof fn lemma_type_tag_read_back(byte: u8)
    ensures
        type_of_tag(type_tag(byte)) == Some(byte),
{
    let high = byte as int / 16;
    let low = byte as int % 16;
    assert(hex_value(hex_digit(high)) == Some(high as u8));
    assert(hex_value(hex_digit(low)) == Some(low as u8));
}

/// A text stands for a type byte only if it is the tag of that byte: no two texts
/// name the same format.
pub proof fn lemma_type_tag_unique(tag: Seq<char>, byte: u8)
    requires
        type_of_tag(tag) == Some(byte),
    ensures
        tag == type_tag(byte),
{
    let high = hex_value(tag[2])->Some_0;
    let low = hex_value(tag[3])->Some_0;
    assert(hex_digit(high as int) == tag[2]);
    assert(hex_digit(low as int) == tag[3]);
    assert(byte as int / 16 == high && byte as int % 16 == low);
    assert(tag =~= type_tag(byte));
}

fn hex_digit_text(n: u8) -> (text: &'static str)
    requires
        n < 16,
    ensures
        text@ == seq![hex_digit(n as int)],
{
    proof {
        reveal_strlit("0");
        reveal_strlit("1");
        reveal_strlit("2");
        reveal_strlit("3");
        reveal_strlit("4");
        reveal_strlit("5");
        reveal_strlit("6");
        reveal_strlit("7");
        reveal_strlit("8");
        reveal_strlit("9");
        reveal_strlit("a");
        reveal_strlit("b");
        reveal_strlit("c");
        reveal_strlit("d");
        reveal_strlit("e");
        reveal_strlit("f");
    }
    let text = if n == 0 {
        "0"
    } else if n == 1 {
        "1"
    } else if n == 2 {
        "2"
    } else if n == 3 {
        "3"
    } else if n == 4 {
        "4"
    } else if n == 5 {
        "5"
    } else if n == 6 {
        "6"
    } else if n == 7 {
        "7"
    } else if n == 8 {
        "8"
    } else if n == 9 {
        "9"
    } else if n == 10 {
        "a"
    } else if n == 11 {
        "b"
    } else if n == 12 {
        "c"
    } else if n == 13 {
        "d"
    } else if n == 14 {
        "e"
    } else {
        "f"
    };
    assert(text@ =~= seq![hex_digit(n as int)]);
    text
}

fn hex_digit_value(c: char) -> (value: Option<u8>)
    ensures
        value == hex_value(c),
{
    if c == '0' {
        Some(0)
    } else if c == '1' {
        Some(1)
    } else if c == '2' {
        Some(2)
    } else if c == '3' {
        Some(3)
    } else if c == '4' {
        Some(4)
    } else if c == '5' {
        Some(5)
    } else if c == '6' {
        Some(6)
    } else if c == '7' {
        Some(7)
    } else if c == '8' {
        Some(8)
    } else if c == '9' {
        Some(9)
    } else if c == 'a' {
        Some(10)
    } else if c == 'b' {
        Some(11)
    } else if c == 'c' {
        Some(12)
    } else if c == 'd' {
        Some(13)
    } else if c == 'e' {
        Some(14)
    } else if c == 'f' {
        Some(15)
    } else {
        None
    }
}

/// The tag of the type byte `byte`.
pub fn render_type_tag(byte: u8) -> (tag: String)
    ensures
        tag@ == type_tag(byte),
{
    proof {
        reveal_strlit("0x");
    }
    let mut tag = String::from_str("0x");
    tag.append(hex_digit_text(byte / 16));
    tag.append(hex_digit_text(byte % 16));
    assert(tag@ =~= type_tag(byte));
    tag
}

/// The type byte that `tag` stands for; none where `tag` is not a tag.
pub fn parse_type_tag(tag: &str) -> (byte: Option<u8>)
    ensures
        byte == type_of_tag(tag@),
{
    if tag.unicode_len() != 4 {
        return None;
    }
    if tag.get_char(0) != '0' || tag.get_char(1) != 'x' {
        return None;
    }
    match (hex_digit_value(tag.get_char(2)), hex_digit_value(tag.get_char(3))) {
        (Some(high), Some(low)) => Some(high * 16 + low),
        _ => None,
    }
}

/// Why an interchange form is not a transaction.
#[derive(Clone, Copy, Debug, PartialEq, Eq)]
pub enum DecodeError {
    /// The tag is not `0x` followed by two lower-case hexadecimal digits.
    InvalidTag,
    /// The tag is well formed and names this type byte, which no format has.
    UnknownType(u8),
    /// The format with this type byte has no place for one of the fields present.
    ShapeMismatch(u8),
}

/// The fields of a transaction of any format. A field that a format does not have
/// is absent.
#[derive(Clone, Debug, PartialEq, Eq)]
pub struct TransactionFields {
    pub from: Option<Address>,
    pub to: Option<NameOrAddress>,
    pub gas: Option<U256>,
    pub gas_price: Option<U256>,
    pub value: Option<U256>,
    pub data: Option<Bytes>,
    pub nonce: Option<U256>,
    pub access_list: Option<AccessList>,
    pub max_priority_fee_per_gas: Option<U256>,
    pub max_fee_per_gas: Option<U256>,
}

/// What a [`TransactionFields`] holds.
pub ghost struct TransactionFieldsView {
    pub from: Option<Seq<u8>>,
    pub to: Option<NameOrAddressView>,
    pub gas: Option<nat>,
    pub gas_price: Option<nat>,
    pub value: Option<nat>,
    pub data: Option<Seq<u8>>,
    pub nonce: Option<nat>,
    pub access_list: Option<Seq<AccessListItemView>>,
    pub max_priority_fee_per_gas: Option<nat>,
    pub max_fee_per_gas: Option<nat>,
}

impl View for TransactionFields {
    type V = TransactionFieldsView;

    open spec fn view(&self) -> TransactionFieldsView {
        TransactionFieldsView {
            from: view_of(self.from),
            to: view_of(self.to),
            gas: view_of(self.gas),
            gas_price: view_of(self.gas_price),
            value: view_of(self.value),
            data: view_of(self.data),
            nonce: view_of(self.nonce),
            access_list: view_of(self.access_list),
            max_priority_fee_per_gas: view_of(self.max_priority_fee_per_gas),
            max_fee_per_gas: view_of(self.max_fee_per_gas),
        }
    }
}

/// The interchange form of a transaction: the tag of its format, where there is
/// one, and its fields.
#[derive(Clone, Debug, PartialEq, Eq)]
pub struct TaggedTransaction {
    pub tag: Option<String>,
    pub fields: TransactionFields,
}

/// What a [`TaggedTransaction`] holds.
pub ghost struct TaggedTransactionView {
    pub tag: Option<Seq<char>>,
    pub fields: TransactionFieldsView,
}

impl View for TaggedTransaction {
    type V = TaggedTransactionView;

    open spec fn view(&self) -> TaggedTransactionView {
        TaggedTransactionView { tag: view_of(self.tag), fields: self.fields@ }
    }
}

impl TransactionRequestView {
    /// The fields of this request in the interchange form.
    pub open spec fn fields(self) -> TransactionFieldsView {
        TransactionFieldsView {
            from: self.from,
            to: self.to,
            gas: self.gas,
            gas_price: self.gas_price,
            value: self.value,
            data: self.data,
            nonce: self.nonce,
            access_list: None,
            max_priority_fee_per_gas: None,
            max_fee_per_gas: None,
        }
    }

    /// The interchange form of this request without a tag: its bare fields.
    pub open spec fn untagged(self) -> TaggedTransactionView {
        TaggedTransactionView { tag: None, fields: self.fields() }
    }

    /// The request that `fields` holds. There is none where an access list or a fee
    /// limit is present: the first format has neither.
    pub open spec fn from_fields(fields: TransactionFieldsView) -> Result<
        TransactionRequestView,
        DecodeError,
    > {
        if fields.access_list is None && fields.max_priority_fee_per_gas is None
            && fields.max_fee_per_gas is None {
            Ok(
                TransactionRequestView {
                    from: fields.from,
                    to: fields.to,
                    gas: fields.gas,
                    gas_price: fields.gas_price,
                    value: fields.value,
                    data: fields.data,
                    nonce: fields.nonce,
                },
            )
        } else {
            Err(DecodeError::ShapeMismatch(0))
        }
    }
}

impl Eip2930TransactionRequestView {
    /// The fields of this request in the interchange form.
    pub open spec fn fields(self) -> TransactionFieldsView {
        TransactionFieldsView { access_list: Some(self.access_list), ..self.tx.fields() }
    }

    /// The request that `fields` holds; an absent access list is the empty one. There
    /// is no request where a fee limit is present: the access-list format has none.
    pub open spec fn from_fields(fields: TransactionFieldsView) -> Result<
        Eip2930TransactionRequestView,
        DecodeError,
    > {
        if fields.max_priority_fee_per_gas is None && fields.max_fee_per_gas is None {
            Ok(
                Eip2930TransactionRequestView {
                    tx: TransactionRequestView {
                        from: fields.from,
                        to: fields.to,
                        gas: fields.gas,
                        gas_price: fields.gas_price,
                        value: fields.value,
                        data: fields.data,
                        nonce: fields.nonce,
                    },
                    access_list: match fields.access_list {
                        Some(list) => list,
                        None => Seq::empty(),
                    },
                },
            )
        } else {
            Err(DecodeError::ShapeMismatch(1))
        }
    }
}

impl Eip1559TransactionRequestView {
    /// The fields of this request in the interchange form.
    pub open spec fn fields(self) -> TransactionFieldsView {
        TransactionFieldsView {
            from: self.from,
            to: self.to,
            gas: self.gas,
            gas_price: None,
            value: self.value,
            data: self.data,
            nonce: self.nonce,
            access_list: Some(self.access_list),
            max_priority_fee_per_gas: self.max_priority_fee_per_gas,
            max_fee_per_gas: self.max_fee_per_gas,
        }
    }

    /// The request that `fields` holds; an absent access list is the empty one. There
    /// is no request where a gas price is present: the fee-market format has none.
    pub open spec fn from_fields(fields: TransactionFieldsView) -> Result<
        Eip1559TransactionRequestView,
        DecodeError,
    > {
        if fields.gas_price is None {
            Ok(
                Eip1559TransactionRequestView {
                    from: fields.from,
                    to: fields.to,
                    gas: fields.gas,
                    value: fields.value,
                    data: fields.data,
                    nonce: fields.nonce,
                    access_list: match fields.access_list {
                        Some(list) => list,
                        None => Seq::empty(),
                    },
                    max_priority_fee_per_gas: fields.max_priority_fee_per_gas,
                    max_fee_per_gas: fields.max_fee_per_gas,
                },
            )
        } else {
            Err(DecodeError::ShapeMismatch(2))
        }
    }
}

impl TypedTransactionView {
    /// The fields of this transaction in the interchange form.
    pub open spec fn fields(self) -> TransactionFieldsView {
        match self {
            TypedTransactionView::Legacy(inner) => inner.fields(),
            TypedTransactionView::Eip2930(inner) => inner.fields(),
            TypedTransactionView::Eip1559(inner) => inner.fields(),
        }
    }

    /// The tagged interchange form of this transaction: its fields beside the tag of
    /// its type byte.
    pub open spec fn tagged(self) -> TaggedTransactionView {
        TaggedTransactionView { tag: Some(type_tag(self.discriminant())), fields: self.fields() }
    }

    /// The fields of this transaction without a tag.
    pub open spec fn untagged(self) -> TaggedTransactionView {
        TaggedTransactionView { tag: None, fields: self.fields() }
    }

    /// The transaction of the format with the type byte `byte` that `fields` holds.
    pub open spec fn of_type(byte: u8, fields: TransactionFieldsView) -> Result<
        TypedTransactionView,
        DecodeError,
    > {
        if byte == 0 {
            match TransactionRequestView::from_fields(fields) {
                Ok(inner) => Ok(TypedTransactionView::Legacy(inner)),
                Err(error) => Err(error),
            }
        } else if byte == 1 {
            match Eip2930TransactionRequestView::from_fields(fields) {
                Ok(inner) => Ok(TypedTransactionView::Eip2930(inner)),
                Err(error) => Err(error),
            }
        } else if byte == 2 {
            match Eip1559TransactionRequestView::from_fields(fields) {
                Ok(inner) => Ok(TypedTransactionView::Eip1559(inner)),
                Err(error) => Err(error),
            }
        } else {
            Err(DecodeError::UnknownType(byte))
        }
    }

    /// The transaction that an interchange form holds. A form without a tag holds a
    /// transaction of the first format; a form with a tag holds one of the format
    /// that the tag names.
    pub open spec fn from_tagged(form: TaggedTransactionView) -> Result<
        TypedTransactionView,
        DecodeError,
    > {
        match form.tag {
            None => Self::of_type(0, form.fields),
            Some(tag) => match type_of_tag(tag) {
                Some(byte) => Self::of_type(byte, form.fields),
                None => Err(DecodeError::InvalidTag),
            },
        }
    }
}

/// Whether `decoded` is the view of `result`.
pub open spec fn is_view_of<T: View>(
    decoded: Result<T::V, DecodeError>,
    result: Result<T, DecodeError>,
) -> bool {
    match result {
        Ok(value) => decoded == Ok::<T::V, DecodeError>(value@),
        Err(error) => decoded == Err::<T::V, DecodeError>(error),
    }
}

impl TransactionRequest {
    /// The fields of this request in the interchange form.
    pub fn into_fields(self) -> (fields: TransactionFields)
        ensures
            fields@ == self@.fields(),
    {
        TransactionFields {
            from: self.from,
            to: self.to,
            gas: self.gas,
            gas_price: self.gas_price,
            value: self.value,
            data: self.data,
            nonce: self.nonce,
            access_list: None,
            max_priority_fee_per_gas: None,
            max_fee_per_gas: None,
        }
    }

    /// The interchange form of this request without a tag: its bare fields.
    pub fn into_untagged(self) -> (form: TaggedTransaction)
        ensures
            form@ == self@.untagged(),
    {
        TaggedTransaction { tag: None, fields: self.into_fields() }
    }

    /// The request that `fields` holds, or the reason why there is none.
    pub fn from_fields(fields: TransactionFields) -> (result: Result<
        TransactionRequest,
        DecodeError,
    >)
        ensures
            is_view_of(TransactionRequestView::from_fields(fields@), result),
    {
        if fields.access_list.is_none() && fields.max_priority_fee_per_gas.is_none()
            && fields.max_fee_per_gas.is_none() {
            Ok(
                TransactionRequest {
                    from: fields.from,
                    to: fields.to,
                    gas: fields.gas,
                    gas_price: fields.gas_price,
                    value: fields.value,
                    data: fields.data,
                    nonce: fields.nonce,
                },
            )
        } else {
            Err(DecodeError::ShapeMismatch(0))
        }
    }
}

impl Eip2930TransactionRequest {
    /// The fields of this request in the interchange form.
    pub fn into_fields(self) -> (fields: TransactionFields)
        ensures
            fields@ == self@.fields(),
    {
        let mut fields = self.tx.into_fields();
        fields.access_list = Some(self.access_list);
        fields
    }

    /// The request that `fields` holds, or the reason why there is none.
    pub fn from_fields(fields: TransactionFields) -> (result: Result<
        Eip2930TransactionRequest,
        DecodeError,
    >)
        ensures
            is_view_of(Eip2930TransactionRequestView::from_fields(fields@), result),
    {
        if fields.max_priority_fee_per_gas.is_none() && fields.max_fee_per_gas.is_none() {
            Ok(
                Eip2930TransactionRequest {
                    tx: TransactionRequest {
                        from: fields.from,
                        to: fields.to,
                        gas: fields.gas,
                        gas_price: fields.gas_price,
                        value: fields.value,
                        data: fields.data,
                        nonce: fields.nonce,
                    },
                    access_list: match fields.access_list {
                        Some(list) => list,
                        None => AccessList::new(),
                    },
                },
            )
        } else {
            Err(DecodeError::ShapeMismatch(1))
        }
    }
}

impl Eip1559TransactionRequest {
    /// The fields of this request in the interchange form.
    pub fn into_fields(self) -> (fields: TransactionFields)
        ensures
            fields@ == self@.fields(),
    {
        TransactionFields {
            from: self.from,
            to: self.to,
            gas: self.gas,
            gas_price: None,
            value: self.value,
            data: self.data,
            nonce: self.nonce,
            access_list: Some(self.access_list),
            max_priority_fee_per_gas: self.max_priority_fee_per_gas,
            max_fee_per_gas: self.max_fee_per_gas,
        }
    }

    /// The request that `fields` holds, or the reason why there is none.
    pub fn from_fields(fields: TransactionFields) -> (result: Result<
        Eip1559TransactionRequest,
        DecodeError,
    >)
        ensures
            is_view_of(Eip1559TransactionRequestView::from_fields(fields@), result),
    {
        if fields.gas_price.is_none() {
            Ok(
                Eip1559TransactionRequest {
                    from: fields.from,
                    to: fields.to,
                    gas: fields.gas,
                    value: fields.value,
                    data: fields.data,
                    nonce: fields.nonce,
                    access_list: match fields.access_list {
                        Some(list) => list,
                        None => AccessList::new(),
                    },
                    max_priority_fee_per_gas: fields.max_priority_fee_per_gas,
                    max_fee_per_gas: fields.max_fee_per_gas,
                },
            )
        } else {
            Err(DecodeError::ShapeMismatch(2))
        }
    }
}

impl TypedTransaction {
    /// The tagged interchange form of this transaction.
    pub fn into_tagged(self) -> (form: TaggedTransaction)
        ensures
            form@ == self@.tagged(),
    {
        let tag = render_type_tag(self.discriminant());
        let fields = match self {
            TypedTransaction::Legacy(inner) => inner.into_fields(),
            TypedTransaction::Eip2930(inner) => inner.into_fields(),
            TypedTransaction::Eip1559(inner) => inner.into_fields(),
        };
        TaggedTransaction { tag: Some(tag), fields }
    }

    fn of_type(byte: u8, fields: TransactionFields) -> (result: Result<
        TypedTransaction,
        DecodeError,
    >)
        ensures
            is_view_of(TypedTransactionView::of_type(byte, fields@), result),
    {
        if byte == 0 {
            match TransactionRequest::from_fields(fields) {
                Ok(inner) => Ok(TypedTransaction::Legacy(inner)),
                Err(error) => Err(error),
            }
        } else if byte == 1 {
            match Eip2930TransactionRequest::from_fields(fields) {
                Ok(inner) => Ok(TypedTransaction::Eip2930(inner)),
                Err(error) => Err(error),
            }
        } else if byte == 2 {
            match Eip1559TransactionRequest::from_fields(fields) {
                Ok(inner) => Ok(TypedTransaction::Eip1559(inner)),
                Err(error) => Err(error),
            }
        } else {
            Err(DecodeError::UnknownType(byte))
        }
    }

    /// The transaction that the interchange form `form` holds, or the reason why it
    /// holds none.
    pub fn from_tagged(form: TaggedTransaction) -> (result: Result<TypedTransaction, DecodeError>)
        ensures
            is_view_of(TypedTransactionView::from_tagged(form@), result),
    {
        match form.tag {
            None => TypedTransaction::of_type(0, form.fields),
            Some(tag) => match parse_type_tag(tag.as_str()) {
                Some(byte) => TypedTransaction::of_type(byte, form.fields),
                None => Err(DecodeError::InvalidTag),
            },
        }
    }
}

/// Round trip: reading the tagged interchange form of a transaction gives the
/// transaction back, whatever its format.
pub proof fn lemma_tagged_round_trip(tx: TypedTransactionView)
    ensures
        TypedTransactionView::from_tagged(tx.tagged()) == Ok::<TypedTransactionView, DecodeError>(
            tx,
        ),
{
    lemma_type_tag_read_back(tx.discriminant());
}

/// Backward compatibility of the first format: the bare fields of a request of the
/// first format read back as that request, and as an interchange form without a tag
/// they read as the same transaction as the tagged form does.
pub proof fn lemma_untagged_legacy(request: TransactionRequestView)
    ensures
        TransactionRequestView::from_fields(request.fields()) == Ok::<
            TransactionRequestView,
            DecodeError,
        >(request),
        TypedTransactionView::from_tagged(request.untagged()) == Ok::<
            TypedTransactionView,
            DecodeError,
        >(TypedTransactionView::Legacy(request)),
        TypedTransactionView::from_tagged(request.untagged()) == TypedTransactionView::from_tagged(
            TypedTransactionView::Legacy(request).tagged(),
        ),
{
    lemma_tagged_round_trip(TypedTransactionView::Legacy(request));
}

/// Only the first format can go without a tag: a form without a tag never reads as a
/// transaction of another format, and the fields of a transaction of another format
/// do not read as a transaction at all once the tag is taken away.
pub proof fn lemma_untagged_is_legacy_only(form: TaggedTransactionView, tx: TypedTransactionView)
    requires
        form.tag is None,
    ensures
        TypedTransactionView::from_tagged(form) matches Ok(read) ==> read is Legacy,
        !(tx is Legacy) ==> TypedTransactionView::from_tagged(tx.untagged()) is Err,
{
}

/// The type byte names the format: it is 0x00, 0x01 or 0x02, one for each format and
/// no two the same.
pub proof fn lemma_discriminant_names_format(tx: TypedTransactionView)
    ensures
        tx is Legacy <==> tx.discriminant() == 0,
        tx is Eip2930 <==> tx.discriminant() == 1,
        tx is Eip1559 <==> tx.discriminant() == 2,
        tx.discriminant() <= 2,
{
}

/// Discriminant stability: the tag of a transaction is that of the type byte of its
/// format, whatever its fields hold. Transactions of one format have one tag, those
/// of two formats have two, and the three tags are `0x00`, `0x01` and `0x02`.
pub proof fn lemma_tag_is_fixed(tx: TypedTransactionView, other: TypedTransactionView)
    ensures
        tx.tagged().tag == Some(type_tag(tx.discriminant())),
        tx.discriminant() == other.discriminant() ==> tx.tagged().tag == other.tagged().tag,
        tx.discriminant() != other.discriminant() ==> tx.tagged().tag != other.tagged().tag,
        tx is Legacy ==> tx.tagged().tag == Some("0x00"@),
        tx is Eip2930 ==> tx.tagged().tag == Some("0x01"@),
        tx is Eip1559 ==> tx.tagged().tag == Some("0x02"@),
{
    reveal_strlit("0x00");
    reveal_strlit("0x01");
    reveal_strlit("0x02");
    assert(type_tag(0) =~= "0x00"@);
    assert(type_tag(1) =~= "0x01"@);
    assert(type_tag(2) =~= "0x02"@);
    lemma_type_tag_read_back(tx.discriminant());
    lemma_type_tag_read_back(other.discriminant());
}

/// Closed set of formats: a form whose tag is not a tag, or is the tag of a type byte
/// that no format has, is refused, whatever its fields hold.
pub proof fn lemma_unknown_tag_rejected(form: TaggedTransactionView)
    requires
        form.tag is Some,
    ensures
        match type_of_tag(form.tag->Some_0) {
            None => TypedTransactionView::from_tagged(form) == Err::<
                TypedTransactionView,
                DecodeError,
            >(DecodeError::InvalidTag),
            Some(byte) => byte > 2 ==> TypedTransactionView::from_tagged(form) == Err::<
                TypedTransactionView,
                DecodeError,
            >(DecodeError::UnknownType(byte)),
        },
{
}

/// No form is read as a format that its tag does not name: a form that is read as a
/// transaction either has no tag and holds one of the first format, or has the tag
/// of the format of the transaction read.
pub proof fn lemma_read_format_is_named(form: TaggedTransactionView)
    ensures
        TypedTransactionView::from_tagged(form) matches Ok(tx) ==> {
            ||| form.tag is None && tx is Legacy
            ||| form.tag == Some(type_tag(tx.discriminant()))
        },
{
    if let Some(tag) = form.tag {
        if let Some(byte) = type_of_tag(tag) {
            lemma_type_tag_unique(tag, byte);
        }
    }
}

/// Nothing is lost in reading: a transaction that was read holds the fields of the
/// form that it was read from, no more and no fewer. The one field that can differ
/// is the access list of a typed format, which is empty where the form had none.
pub proof fn lemma_read_keeps_fields(form: TaggedTransactionView)
    ensures
        TypedTransactionView::from_tagged(form) matches Ok(tx) ==> {
            &&& tx is Legacy ==> tx.fields() == form.fields
            &&& !(tx is Legacy) ==> tx.fields() == (TransactionFieldsView {
                access_list: Some(
                    match form.fields.access_list {
                        Some(list) => list,
                        None => Seq::empty(),
                    },
                ),
                ..form.fields
            })
        },
{
}

} // verus!
