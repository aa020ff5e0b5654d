use typed_tx::{
    AccessList, AccessListItem, Address, Bytes, DecodeError, Eip1559TransactionRequest,
    Eip2930TransactionRequest, NameOrAddress, TaggedTransaction, TransactionFields,
    TransactionRequest, TypedTransaction, H256, U256,
};

fn sample_access_list() -> AccessList {
    let mut first = [0u8; 32];
    first[31] = 1;
    let mut second = [0u8; 32];
    second[31] = 2;
    AccessList(vec![AccessListItem {
        address: Address([0x11; 20]),
        storage_keys: vec![H256(first), H256(second)],
    }])
}

fn legacy_sample() -> TypedTransaction {
    TransactionRequest::new()
        .from(Address([0xaa; 20]))
        .to(Address([0x35; 20]))
        .gas(21000u64)
        .gas_price(20_000_000_000u64)
        .value(1_000_000_000_000_000_000u64)
        .nonce(9u64)
        .into()
}

fn eip2930_sample() -> TypedTransaction {
    let tx = TransactionRequest::new()
        .to(Address([0x35; 20]))
        .gas(21000u64)
        .gas_price(20_000_000_000u64)
        .value(1_000_000_000_000_000_000u64)
        .data(vec![0xde, 0xad])
        .nonce(9u64);
    Eip2930TransactionRequest::new(tx, sample_access_list()).into()
}

fn eip1559_sample() -> TypedTransaction {
    Eip1559TransactionRequest::new()
        .from(Address([0xbb; 20]))
        .to(Address([0x35; 20]))
        .gas(21000u64)
        .value(1_000_000_000_000_000_000u64)
        .data(vec![0xde, 0xad, 0xbe, 0xef])
        .nonce(7u64)
        .access_list(sample_access_list())
        .max_priority_fee_per_gas(2_000_000_000u64)
        .max_fee_per_gas(100_000_000_000u64)
        .into()
}

fn empty_fields() -> TransactionFields {
    TransactionFields {
        from: None,
        to: None,
        gas: None,
        gas_price: None,
        value: None,
        data: None,
        nonce: None,
        access_list: None,
        max_priority_fee_per_gas: None,
        max_fee_per_gas: None,
    }
}

#[test]
fn serde_legacy_tx() {
    let tx = TransactionRequest::new()
        .to(Address::zero())
        .value(U256::from(100));
    let tx: TypedTransaction = tx.into();
    let serialized = tx.clone().into_tagged();

    // reads back as the envelope type or as the inner type
    let de = TypedTransaction::from_tagged(serialized.clone()).unwrap();
    assert_eq!(tx, de);

    let de = TransactionRequest::from_fields(serialized.fields).unwrap();
    assert_eq!(tx, TypedTransaction::Legacy(de));
}

#[test]
fn legacy_tx_has_tag_0x00() {
    let tx = TransactionRequest::new()
        .to(Address::zero())
        .value(U256::from(100));
    let tx: TypedTransaction = tx.into();
    let form = tx.into_tagged();
    assert_eq!(form.tag, Some(String::from("0x00")));
    assert_eq!(
        form.fields.to,
        Some(NameOrAddress::Address(Address([0u8; 20])))
    );
    let mut hundred = [0u8; 32];
    hundred[31] = 100;
    assert_eq!(form.fields.value, Some(U256(hundred)));
    assert_eq!(form.fields.access_list, None);
}

#[test]
fn tags_are_fixed_per_format() {
    assert_eq!(legacy_sample().into_tagged().tag.unwrap(), "0x00");
    assert_eq!(eip2930_sample().into_tagged().tag.unwrap(), "0x01");
    assert_eq!(eip1559_sample().into_tagged().tag.unwrap(), "0x02");

    let mut changed = eip1559_sample();
    changed.set_data(Bytes(vec![1, 2, 3]));
    changed.set_to(Address([9; 20]));
    assert_eq!(changed.into_tagged().tag.unwrap(), "0x02");
    assert_eq!(
        TypedTransaction::Legacy(TransactionRequest::new())
            .into_tagged()
            .tag
            .unwrap(),
        "0x00"
    );
}

#[test]
fn discriminants_are_0_1_2() {
    assert_eq!(legacy_sample().discriminant(), 0);
    assert_eq!(eip2930_sample().discriminant(), 1);
    assert_eq!(eip1559_sample().discriminant(), 2);
}

#[test]
fn conversion_picks_the_format_of_the_request() {
    let legacy: TypedTransaction = TransactionRequest::new().into();
    assert!(matches!(legacy, TypedTransaction::Legacy(_)));
    let eip2930: TypedTransaction =
        Eip2930TransactionRequest::new(TransactionRequest::new(), AccessList::new()).into();
    assert!(matches!(eip2930, TypedTransaction::Eip2930(_)));
    let eip1559: TypedTransaction = Eip1559TransactionRequest::new().into();
    assert!(matches!(eip1559, TypedTransaction::Eip1559(_)));
}

#[test]
fn tagged_round_trip_every_format() {
    for tx in [legacy_sample(), eip2930_sample(), eip1559_sample()] {
        let form = tx.clone().into_tagged();
        assert_eq!(TypedTransaction::from_tagged(form), Ok(tx));
    }
}

#[test]
fn tagged_round_trip_with_unresolved_name() {
    let tx: TypedTransaction = TransactionRequest::new()
        .to(String::from("vitalik.eth"))
        .into();
    let form = tx.clone().into_tagged();
    assert_eq!(
        form.fields.to,
        Some(NameOrAddress::Name(String::from("vitalik.eth")))
    );
    assert_eq!(TypedTransaction::from_tagged(form), Ok(tx));
}

#[test]
fn untagged_form_reads_as_legacy() {
    let request = TransactionRequest::new()
        .to(Address([0x35; 20]))
        .value(5u64)
        .nonce(1u64);
    let untagged = request.clone().into_untagged();
    assert_eq!(
        untagged,
        TaggedTransaction {
            tag: None,
            fields: request.clone().into_fields(),
        }
    );
    let tagged = TypedTransaction::Legacy(request.clone()).into_tagged();
    let from_untagged = TypedTransaction::from_tagged(untagged).unwrap();
    let from_tagged = TypedTransaction::from_tagged(tagged).unwrap();
    assert_eq!(from_untagged, TypedTransaction::Legacy(request.clone()));
    assert_eq!(from_untagged, from_tagged);
    assert_eq!(
        TransactionRequest::from_fields(request.clone().into_fields()),
        Ok(request)
    );
}

#[test]
fn untagged_typed_fields_are_refused() {
    for tx in [eip2930_sample(), eip1559_sample()] {
        let form = TaggedTransaction {
            tag: None,
            fields: tx.into_tagged().fields,
        };
        assert_eq!(
            TypedTransaction::from_tagged(form),
            Err(DecodeError::ShapeMismatch(0))
        );
    }
}

#[test]
fn unknown_type_is_refused() {
    for (tag, byte) in [("0x03", 3u8), ("0x7f", 0x7f), ("0xff", 0xff), ("0x10", 0x10)] {
        let form = TaggedTransaction {
            tag: Some(String::from(tag)),
            fields: empty_fields(),
        };
        assert_eq!(
            TypedTransaction::from_tagged(form),
            Err(DecodeError::UnknownType(byte))
        );
    }
}

#[test]
fn malformed_tag_is_refused() {
    for tag in [
        "", "0", "0x", "0x0", "0x000", "00", "0X00", "0x0G", "0xA0", "1x00", "0x 0", "legacy",
        "0x\u{e9}0",
    ] {
        let form = TaggedTransaction {
            tag: Some(String::from(tag)),
            fields: legacy_sample().into_tagged().fields,
        };
        assert_eq!(
            TypedTransaction::from_tagged(form),
            Err(DecodeError::InvalidTag)
        );
    }
}

#[test]
fn mistagged_fields_are_refused() {
    let mut legacy_with_list = legacy_sample().into_tagged();
    legacy_with_list.fields.access_list = Some(AccessList::new());
    assert_eq!(
        TypedTransaction::from_tagged(legacy_with_list),
        Err(DecodeError::ShapeMismatch(0))
    );

    let mut legacy_with_fee = legacy_sample().into_tagged();
    legacy_with_fee.fields.max_fee_per_gas = Some(U256::from(1u64));
    assert_eq!(
        TypedTransaction::from_tagged(legacy_with_fee),
        Err(DecodeError::ShapeMismatch(0))
    );

    let mut fee_market_as_access_list = eip1559_sample().into_tagged();
    fee_market_as_access_list.tag = Some(String::from("0x01"));
    assert_eq!(
        TypedTransaction::from_tagged(fee_market_as_access_list),
        Err(DecodeError::ShapeMismatch(1))
    );

    let mut access_list_as_fee_market = eip2930_sample().into_tagged();
    access_list_as_fee_market.tag = Some(String::from("0x02"));
    assert_eq!(
        TypedTransaction::from_tagged(access_list_as_fee_market),
        Err(DecodeError::ShapeMismatch(2))
    );

    assert_eq!(
        Eip2930TransactionRequest::from_fields(eip1559_sample().into_tagged().fields),
        Err(DecodeError::ShapeMismatch(1))
    );
    assert_eq!(
        Eip1559TransactionRequest::from_fields(eip2930_sample().into_tagged().fields),
        Err(DecodeError::ShapeMismatch(2))
    );
}

#[test]
fn absent_access_list_reads_as_empty() {
    let form = TaggedTransaction {
        tag: Some(String::from("0x01")),
        fields: empty_fields(),
    };
    assert_eq!(
        TypedTransaction::from_tagged(form),
        Ok(TypedTransaction::Eip2930(Eip2930TransactionRequest::new(
            TransactionRequest::new(),
            AccessList::new()
        )))
    );
    let form = TaggedTransaction {
        tag: Some(String::from("0x02")),
        fields: empty_fields(),
    };
    assert_eq!(
        TypedTransaction::from_tagged(form),
        Ok(TypedTransaction::Eip1559(Eip1559TransactionRequest::new()))
    );
}

#[test]
fn fresh_transactions_have_no_fields() {
    let fresh: [TypedTransaction; 3] = [
        TransactionRequest::new().into(),
        Eip2930TransactionRequest::new(TransactionRequest::new(), sample_access_list()).into(),
        Eip1559TransactionRequest::new().into(),
    ];
    for tx in fresh {
        assert_eq!(tx.from(), None);
        assert_eq!(tx.to(), None);
        assert_eq!(tx.data(), None);
    }
}

#[test]
fn accessors_read_the_fields_of_each_format() {
    let legacy = legacy_sample();
    assert_eq!(legacy.from(), Some(&Address([0xaa; 20])));
    assert_eq!(
        legacy.to(),
        Some(&NameOrAddress::Address(Address([0x35; 20])))
    );
    assert_eq!(legacy.data(), None);

    let eip2930 = eip2930_sample();
    assert_eq!(eip2930.from(), None);
    assert_eq!(
        eip2930.to(),
        Some(&NameOrAddress::Address(Address([0x35; 20])))
    );
    assert_eq!(eip2930.data(), Some(&Bytes(vec![0xde, 0xad])));

    let eip1559 = eip1559_sample();
    assert_eq!(eip1559.from(), Some(&Address([0xbb; 20])));
    assert_eq!(eip1559.data(), Some(&Bytes(vec![0xde, 0xad, 0xbe, 0xef])));
}

#[test]
fn set_to_then_to() {
    for mut tx in [legacy_sample(), eip2930_sample(), eip1559_sample()] {
        let sender = tx.from().copied();
        let data = tx.data().cloned();
        let discriminant = tx.discriminant();

        tx.set_to(Address([7; 20]));
        assert_eq!(tx.to(), Some(&NameOrAddress::Address(Address([7; 20]))));

        tx.set_to(NameOrAddress::Name(String::from("alice.eth")));
        assert_eq!(
            tx.to(),
            Some(&NameOrAddress::Name(String::from("alice.eth")))
        );

        tx.set_to(String::from("bob.eth"));
        assert_eq!(tx.to(), Some(&NameOrAddress::Name(String::from("bob.eth"))));

        assert_eq!(tx.from().copied(), sender);
        assert_eq!(tx.data().cloned(), data);
        assert_eq!(tx.discriminant(), discriminant);
    }
}

#[test]
fn set_data_then_data() {
    for mut tx in [legacy_sample(), eip2930_sample(), eip1559_sample()] {
        let sender = tx.from().copied();
        let recipient = tx.to().cloned();
        let discriminant = tx.discriminant();

        tx.set_data(Bytes(vec![1, 2, 3]));
        assert_eq!(tx.data(), Some(&Bytes(vec![1, 2, 3])));
        tx.set_data(Bytes(Vec::new()));
        assert_eq!(tx.data(), Some(&Bytes(Vec::new())));

        assert_eq!(tx.from().copied(), sender);
        assert_eq!(tx.to().cloned(), recipient);
        assert_eq!(tx.discriminant(), discriminant);
    }
}

#[test]
fn setters_write_the_field_of_the_inner_request() {
    let mut tx = eip2930_sample();
    tx.set_to(Address([7; 20]));
    tx.set_data(Bytes(vec![0xff]));
    match tx {
        TypedTransaction::Eip2930(inner) => {
            assert_eq!(
                inner.tx.to,
                Some(NameOrAddress::Address(Address([7; 20])))
            );
            assert_eq!(inner.tx.data, Some(Bytes(vec![0xff])));
            assert_eq!(inner.access_list, sample_access_list());
        }
        _ => panic!("the format changed"),
    }

    let mut tx = eip1559_sample();
    tx.set_to(Address([8; 20]));
    match tx {
        TypedTransaction::Eip1559(inner) => {
            let direct = match eip1559_sample() {
                TypedTransaction::Eip1559(request) => request.to(Address([8; 20])),
                _ => panic!("the format changed"),
            };
            assert_eq!(inner, direct);
        }
        _ => panic!("the format changed"),
    }
}

#[test]
fn is_resolved_tells_names_from_addresses() {
    for mut tx in [legacy_sample(), eip2930_sample(), eip1559_sample()] {
        assert!(tx.is_resolved());
        tx.set_to(String::from("alice.eth"));
        assert!(!tx.is_resolved());
        tx.set_to(Address([1; 20]));
        assert!(tx.is_resolved());
    }
    assert!(TypedTransaction::Legacy(TransactionRequest::new()).is_resolved());
    assert!(TransactionRequest::new().is_resolved());
    assert!(!TransactionRequest::new().to(String::from("a.eth")).is_resolved());
    assert!(!Eip1559TransactionRequest::new()
        .to(String::from("a.eth"))
        .is_resolved());
    assert!(!Eip2930TransactionRequest::new(
        TransactionRequest::new().to(String::from("a.eth")),
        AccessList::new()
    )
    .is_resolved());
}
